use oauth_refresh::compute::Expr;
use oauth_refresh::definition::{ContentType, Definition, RequestBody};
use oauth_refresh::json::Json;
use oauth_refresh::orchestrator::{
    begin, compatible, current_timestamp, step, step_now, Action, Connection, Event, HttpOutcome,
    OAuth, State,
};
use oauth_refresh::outcome::{ErrorKind, Outcome};
use oauth_refresh::secret::Secret;

fn obj(fields: Vec<(&str, Json)>) -> Json {
    Json::Obj(fields.into_iter().map(|(k, v)| (k.to_string(), v)).collect())
}

fn s(t: &str) -> Json {
    Json::Str(t.to_string())
}

fn connection() -> Connection {
    Connection {
        id: "C1".to_string(),
        client_id: "CL1".to_string(),
        secrets_service_id: "S1".to_string(),
        oauth: OAuth::Enabled {
            definition_id: "D1".to_string(),
            expires_at: None,
            expires_in: None,
        },
    }
}

fn definition() -> Definition {
    Definition {
        id: "D1".to_string(),
        refresh_uri: "https://provider.example/token".to_string(),
        content: Some(ContentType::Json),
        computation: None,
        response: Expr::Object(vec![
            (
                "access_token".to_string(),
                Expr::Path(vec!["access_token".to_string()]),
            ),
            (
                "refresh_token".to_string(),
                Expr::Path(vec!["metadata".to_string(), "refresh_token".to_string()]),
            ),
            (
                "expires_in".to_string(),
                Expr::Path(vec!["expires_in".to_string()]),
            ),
        ]),
        is_full_template_enabled: false,
    }
}

fn secret() -> Secret {
    Secret {
        access_token: "A1".to_string(),
        refresh_token: Some("R1".to_string()),
        expires_in: 100,
        client_id: "CL1".to_string(),
        client_secret: "CS1".to_string(),
        raw_response: Json::Null,
    }
}

fn failure_kind(a: &Action) -> ErrorKind {
    match a {
        Action::Report(Outcome::Failure { error, .. }) => error.kind,
        other => panic!("expected a failure report, got {:?}", other),
    }
}

fn failure_context(a: &Action) -> Json {
    match a {
        Action::Report(Outcome::Failure { context, .. }) => context.deep_copy(),
        other => panic!("expected a failure report, got {:?}", other),
    }
}

#[test]
fn disabled_connection_fails_not_found_with_no_other_action() {
    let mut conn = connection();
    conn.oauth = OAuth::Disabled;
    let (state, action) = begin(conn);
    assert!(matches!(state, State::Finished { .. }));
    assert_eq!(failure_kind(&action), ErrorKind::NotFound);
    assert_eq!(failure_context(&action), obj(vec![("connectionId", s("C1"))]));
}

#[test]
fn enabled_connection_asks_for_its_definition() {
    let (state, action) = begin(connection());
    assert!(matches!(state, State::AwaitingDefinition { .. }));
    assert_eq!(action, Action::LookupDefinition("D1".to_string()));
}

#[test]
fn missing_definition_fails_not_found_before_any_http_call() {
    let (state, _) = begin(connection());
    let (state, action) = step(state, Event::Definition(None), 0);
    assert!(matches!(state, State::Finished { .. }));
    assert_eq!(failure_kind(&action), ErrorKind::NotFound);
    assert_eq!(failure_context(&action), obj(vec![("connectionId", s("C1"))]));
}

#[test]
fn missing_secret_fails_not_found() {
    let (state, _) = begin(connection());
    let (state, _) = step(state, Event::Definition(Some(definition())), 0);
    let (state, action) = step(state, Event::Secret(None), 0);
    assert!(matches!(state, State::Finished { .. }));
    assert_eq!(failure_kind(&action), ErrorKind::NotFound);
}

#[test]
fn full_refresh_scenario() {
    let (state, action) = begin(connection());
    assert_eq!(action, Action::LookupDefinition("D1".to_string()));

    let (state, action) = step(state, Event::Definition(Some(definition())), 0);
    assert_eq!(
        action,
        Action::FetchSecret { secret_id: "S1".to_string(), client_id: "CL1".to_string() }
    );

    let (state, action) = step(state, Event::Secret(Some(secret())), 0);
    let req = match &action {
        Action::Execute(req) => req,
        other => panic!("expected an execute action, got {:?}", other),
    };
    assert_eq!(req.method, "POST");
    assert_eq!(req.uri, "https://provider.example/token");
    assert_eq!(
        req.body,
        RequestBody::JsonEncoded(obj(vec![
            ("grant_type", s("refresh_token")),
            ("refresh_token", s("R1")),
            ("client_id", s("CL1")),
            ("client_secret", s("CS1")),
        ]))
    );
    assert_eq!(req.query, None);
    assert_eq!(req.headers, None);

    let raw = obj(vec![("access_token", s("A2")), ("expires_in", Json::Int(3600))]);
    let (state, action) = step(state, Event::Http(HttpOutcome::Response(raw.deep_copy())), 0);
    match &action {
        Action::CreateSecret { client_id, payload } => {
            assert_eq!(client_id, "CL1");
            assert_eq!(payload.get(&"access_token".to_string()), Some(&s("A2")));
            assert_eq!(payload.get(&"refresh_token".to_string()), Some(&s("R1")));
            assert_eq!(payload.get(&"expires_in".to_string()), Some(&Json::Int(3600)));
            assert_eq!(payload.get(&"raw_response".to_string()), Some(&raw));
        },
        other => panic!("expected a create-secret action, got {:?}", other),
    }

    let (state, action) = step(state, Event::SecretSaved(Some("S2".to_string())), 1_000);
    assert_eq!(
        action,
        Action::UpdateConnection {
            connection_id: "C1".to_string(),
            oauth: OAuth::Enabled {
                definition_id: "D1".to_string(),
                expires_at: Some(4_600),
                expires_in: Some(3_600),
            },
            secret_ref: "S2".to_string(),
        }
    );

    let (state, action) = step(state, Event::ConnectionUpdated(true), 0);
    assert!(matches!(state, State::Finished { .. }));
    assert_eq!(
        action,
        Action::Report(Outcome::Success {
            id: "C1".to_string(),
            detail: obj(vec![("id", s("C1"))]),
        })
    );
}

#[test]
fn transport_failure_is_an_io_failure() {
    let (state, _) = begin(connection());
    let (state, _) = step(state, Event::Definition(Some(definition())), 0);
    let (state, _) = step(state, Event::Secret(Some(secret())), 0);
    let (state, action) = step(state, Event::Http(HttpOutcome::TransportFailed), 0);
    assert!(matches!(state, State::Finished { .. }));
    assert_eq!(failure_kind(&action), ErrorKind::Io);
    assert_eq!(failure_context(&action), obj(vec![("connectionId", s("C1"))]));
}

#[test]
fn non_json_response_is_a_decode_failure() {
    let (state, _) = begin(connection());
    let (state, _) = step(state, Event::Definition(Some(definition())), 0);
    let (state, _) = step(state, Event::Secret(Some(secret())), 0);
    let (_, action) = step(state, Event::Http(HttpOutcome::BodyNotJson), 0);
    assert_eq!(failure_kind(&action), ErrorKind::Decode);
}

#[test]
fn undecodable_response_is_a_decode_failure() {
    let (state, _) = begin(connection());
    let (state, _) = step(state, Event::Definition(Some(definition())), 0);
    let (state, _) = step(state, Event::Secret(Some(secret())), 0);
    let raw = obj(vec![("unexpected", s("shape"))]);
    let (_, action) = step(state, Event::Http(HttpOutcome::Response(raw)), 0);
    assert_eq!(failure_kind(&action), ErrorKind::Decode);
}

#[test]
fn secret_create_failure_is_an_io_failure() {
    let (state, _) = begin(connection());
    let (state, _) = step(state, Event::Definition(Some(definition())), 0);
    let (state, _) = step(state, Event::Secret(Some(secret())), 0);
    let raw = obj(vec![("access_token", s("A2")), ("expires_in", Json::Int(60))]);
    let (state, _) = step(state, Event::Http(HttpOutcome::Response(raw)), 0);
    let (state, action) = step(state, Event::SecretSaved(None), 0);
    assert!(matches!(state, State::Finished { .. }));
    assert_eq!(failure_kind(&action), ErrorKind::Io);
}

#[test]
fn connection_update_failure_is_an_io_failure() {
    let (state, _) = begin(connection());
    let (state, _) = step(state, Event::Definition(Some(definition())), 0);
    let (state, _) = step(state, Event::Secret(Some(secret())), 0);
    let raw = obj(vec![("access_token", s("A2")), ("expires_in", Json::Int(60))]);
    let (state, _) = step(state, Event::Http(HttpOutcome::Response(raw)), 0);
    let (state, _) = step(state, Event::SecretSaved(Some("S2".to_string())), 0);
    let (state, action) = step(state, Event::ConnectionUpdated(false), 0);
    assert!(matches!(state, State::Finished { .. }));
    assert_eq!(failure_kind(&action), ErrorKind::Io);
}

#[test]
fn missing_body_source_is_an_io_failure() {
    let (state, _) = begin(connection());
    let (state, _) = step(state, Event::Definition(Some(definition())), 0);
    let mut sec = secret();
    sec.refresh_token = None;
    let (state, action) = step(state, Event::Secret(Some(sec)), 0);
    assert!(matches!(state, State::Finished { .. }));
    assert_eq!(failure_kind(&action), ErrorKind::Io);
}

fn templated_definition(enabled: bool) -> Definition {
    let mut d = definition();
    d.refresh_uri = "https://h/{{client_id}}/token".to_string();
    d.is_full_template_enabled = enabled;
    d
}

#[test]
fn template_rendering_applies_only_when_enabled() {
    let (state, _) = begin(connection());
    let (state, _) = step(state, Event::Definition(Some(templated_definition(false))), 0);
    let (_, action) = step(state, Event::Secret(Some(secret())), 0);
    match action {
        Action::Execute(req) => assert_eq!(req.uri, "https://h/{{client_id}}/token"),
        other => panic!("expected an execute action, got {:?}", other),
    }

    let (state, _) = begin(connection());
    let (state, _) = step(state, Event::Definition(Some(templated_definition(true))), 0);
    let (_, action) = step(state, Event::Secret(Some(secret())), 0);
    match action {
        Action::Execute(req) => assert_eq!(req.uri, "https://h/CL1/token"),
        other => panic!("expected an execute action, got {:?}", other),
    }
}

#[test]
fn failed_rendering_is_a_transform_failure() {
    let mut d = definition();
    d.refresh_uri = "https://h/{{nope}}/token".to_string();
    d.is_full_template_enabled = true;
    let (state, _) = begin(connection());
    let (state, _) = step(state, Event::Definition(Some(d)), 0);
    let (_, action) = step(state, Event::Secret(Some(secret())), 0);
    assert_eq!(failure_kind(&action), ErrorKind::Transform);
}

#[test]
fn computation_feeds_query_and_headers() {
    let mut d = definition();
    d.computation = Some(Expr::Object(vec![(
        "query".to_string(),
        Expr::Object(vec![("client".to_string(), Expr::Path(vec!["client_id".to_string()]))]),
    )]));
    let (state, _) = begin(connection());
    let (state, _) = step(state, Event::Definition(Some(d)), 0);
    let (_, action) = step(state, Event::Secret(Some(secret())), 0);
    match action {
        Action::Execute(req) => {
            assert_eq!(req.query, Some(obj(vec![("client", s("CL1"))])));
            assert_eq!(req.headers, None);
        },
        other => panic!("expected an execute action, got {:?}", other),
    }
}

#[test]
fn failed_computation_is_a_transform_failure() {
    let mut d = definition();
    d.computation = Some(Expr::Path(vec!["gone".to_string()]));
    let (state, _) = begin(connection());
    let (state, _) = step(state, Event::Definition(Some(d)), 0);
    let (_, action) = step(state, Event::Secret(Some(secret())), 0);
    assert_eq!(failure_kind(&action), ErrorKind::Transform);
}

#[test]
fn expiry_saturates_at_the_timestamp_width() {
    let (state, _) = begin(connection());
    let (state, _) = step(state, Event::Definition(Some(definition())), 0);
    let (state, _) = step(state, Event::Secret(Some(secret())), 0);
    let raw = obj(vec![("access_token", s("A2")), ("expires_in", Json::Int(60))]);
    let (state, _) = step(state, Event::Http(HttpOutcome::Response(raw)), 0);
    let (_, action) = step(state, Event::SecretSaved(Some("S2".to_string())), i64::MAX);
    match action {
        Action::UpdateConnection { oauth: OAuth::Enabled { expires_at, .. }, .. } => {
            assert_eq!(expires_at, Some(i64::MAX));
        },
        other => panic!("expected a connection update, got {:?}", other),
    }
}

#[test]
fn compatible_pairs_are_exactly_the_awaited_events() {
    let (state, _) = begin(connection());
    assert!(compatible(&state, &Event::Definition(None)));
    assert!(!compatible(&state, &Event::Secret(None)));
    assert!(!compatible(&state, &Event::ConnectionUpdated(true)));
    let (done, _) = begin(Connection { oauth: OAuth::Disabled, ..connection() });
    assert!(!compatible(&done, &Event::Definition(None)));
}

#[test]
fn step_now_reads_the_real_clock() {
    let before = current_timestamp();
    let (state, _) = begin(connection());
    let (state, _) = step(state, Event::Definition(Some(definition())), 0);
    let (state, _) = step(state, Event::Secret(Some(secret())), 0);
    let raw = obj(vec![("access_token", s("A2")), ("expires_in", Json::Int(0))]);
    let (state, _) = step(state, Event::Http(HttpOutcome::Response(raw)), 0);
    let (_, action) = step_now(state, Event::SecretSaved(Some("S2".to_string())));
    let after = current_timestamp();
    match action {
        Action::UpdateConnection { oauth: OAuth::Enabled { expires_at: Some(t), .. }, .. } => {
            assert!(before <= t && t <= after);
        },
        other => panic!("expected a connection update, got {:?}", other),
    }
}
