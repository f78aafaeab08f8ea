use oauth_refresh::compute::{evaluate, Expr};
use oauth_refresh::definition::{ContentType, Definition, HttpRequest, RequestBody};
use oauth_refresh::json::Json;
use oauth_refresh::secret::{OAuthResponse, Secret};
use oauth_refresh::template::render_str;

fn obj(fields: Vec<(&str, Json)>) -> Json {
    Json::Obj(fields.into_iter().map(|(k, v)| (k.to_string(), v)).collect())
}

fn s(t: &str) -> Json {
    Json::Str(t.to_string())
}

fn sample_secret() -> Secret {
    Secret {
        access_token: "A1".to_string(),
        refresh_token: Some("R1".to_string()),
        expires_in: 7200,
        client_id: "CID".to_string(),
        client_secret: "CSEC".to_string(),
        raw_response: Json::Null,
    }
}

fn sample_definition() -> Definition {
    Definition {
        id: "D1".to_string(),
        refresh_uri: "https://provider.example/token".to_string(),
        content: Some(ContentType::Json),
        computation: None,
        response: Expr::Path(vec!["access_token".to_string()]),
        is_full_template_enabled: false,
    }
}

#[test]
fn object_lookup_returns_first_match() {
    let j = obj(vec![("k", s("first")), ("k", s("second")), ("other", Json::Int(1))]);
    assert_eq!(j.get(&"k".to_string()), Some(&s("first")));
    assert_eq!(j.get(&"other".to_string()), Some(&Json::Int(1)));
    assert_eq!(j.get(&"missing".to_string()), None);
}

#[test]
fn lookup_on_non_object_is_none() {
    assert_eq!(Json::Null.get(&"k".to_string()), None);
    assert_eq!(Json::Int(3).get(&"k".to_string()), None);
    assert_eq!(Json::Arr(vec![s("x")]).get(&"k".to_string()), None);
}

#[test]
fn deep_copy_reproduces_the_value() {
    let j = obj(vec![
        ("a", Json::Arr(vec![Json::Int(1), Json::Bool(true), Json::Null])),
        ("b", obj(vec![("c", s("x"))])),
    ]);
    assert_eq!(j.deep_copy(), j);
}

#[test]
fn evaluate_literal() {
    let ctx = Json::Null;
    assert_eq!(evaluate(&Expr::Lit(Json::Int(5)), &ctx), Ok(Json::Int(5)));
}

#[test]
fn evaluate_projects_nested_fields() {
    let ctx = obj(vec![("a", obj(vec![("b", s("x"))]))]);
    let e = Expr::Path(vec!["a".to_string(), "b".to_string()]);
    assert_eq!(evaluate(&e, &ctx), Ok(s("x")));
}

#[test]
fn evaluate_missing_field_is_an_error() {
    let ctx = obj(vec![("a", Json::Int(1))]);
    let e = Expr::Path(vec!["b".to_string()]);
    assert!(evaluate(&e, &ctx).is_err());
    let deeper = Expr::Path(vec!["a".to_string(), "b".to_string()]);
    assert!(evaluate(&deeper, &ctx).is_err());
}

#[test]
fn evaluate_builds_nested_objects() {
    let ctx = obj(vec![("tok", s("T"))]);
    let e = Expr::Object(vec![
        ("fixed".to_string(), Expr::Lit(Json::Int(1))),
        (
            "inner".to_string(),
            Expr::Object(vec![("tok".to_string(), Expr::Path(vec!["tok".to_string()]))]),
        ),
    ]);
    let expected = obj(vec![("fixed", Json::Int(1)), ("inner", obj(vec![("tok", s("T"))]))]);
    assert_eq!(evaluate(&e, &ctx), Ok(expected));
}

#[test]
fn evaluate_object_fails_when_a_field_fails() {
    let ctx = obj(vec![]);
    let e = Expr::Object(vec![("x".to_string(), Expr::Path(vec!["gone".to_string()]))]);
    assert!(evaluate(&e, &ctx).is_err());
}

#[test]
fn render_without_placeholders_is_identity() {
    let ctx = obj(vec![("k", s("v"))]);
    assert_eq!(render_str("plain text", &ctx).unwrap(), "plain text");
    assert_eq!(render_str("", &ctx).unwrap(), "");
}

#[test]
fn render_substitutes_placeholders_inline() {
    let ctx = obj(vec![("client_id", s("CID")), ("tok", s("T"))]);
    assert_eq!(
        render_str("https://h/{{client_id}}/x/{{tok}}", &ctx).unwrap(),
        "https://h/CID/x/T"
    );
}

#[test]
fn render_missing_key_is_an_error() {
    let ctx = obj(vec![("k", s("v"))]);
    assert!(render_str("{{missing}}", &ctx).is_err());
}

#[test]
fn render_unterminated_placeholder_is_an_error() {
    let ctx = obj(vec![("k", s("v"))]);
    assert!(render_str("{{k", &ctx).is_err());
}

#[test]
fn render_non_string_value_is_an_error() {
    let ctx = obj(vec![("k", Json::Int(3))]);
    assert!(render_str("{{k}}", &ctx).is_err());
}

#[test]
fn payload_serializes_every_field() {
    let sec = sample_secret();
    let expected = obj(vec![
        ("access_token", s("A1")),
        ("refresh_token", s("R1")),
        ("expires_in", Json::Int(7200)),
        ("client_id", s("CID")),
        ("client_secret", s("CSEC")),
        ("raw_response", Json::Null),
    ]);
    assert_eq!(sec.to_payload(), expected);
}

#[test]
fn payload_of_absent_refresh_token_is_null() {
    let mut sec = sample_secret();
    sec.refresh_token = None;
    assert_eq!(sec.to_payload().get(&"refresh_token".to_string()), Some(&Json::Null));
}

#[test]
fn merged_payload_appends_metadata() {
    let sec = sample_secret();
    let raw = obj(vec![("x", Json::Int(1))]);
    let merged = sec.merged_payload(&raw);
    assert_eq!(merged.get(&"x".to_string()), Some(&Json::Int(1)));
    assert_eq!(merged.get(&"metadata".to_string()), Some(&sec.to_payload()));
}

#[test]
fn merged_payload_of_non_object_is_null() {
    let sec = sample_secret();
    assert_eq!(sec.merged_payload(&Json::Int(2)), Json::Null);
}

#[test]
fn decode_response_reads_canonical_fields() {
    let j = obj(vec![
        ("access_token", s("A2")),
        ("refresh_token", s("R2")),
        ("expires_in", Json::Int(3600)),
    ]);
    let r = Secret::decode_response(&j).unwrap();
    assert_eq!(
        r,
        OAuthResponse {
            access_token: "A2".to_string(),
            refresh_token: Some("R2".to_string()),
            expires_in: 3600,
        }
    );
}

#[test]
fn decode_response_treats_missing_refresh_token_as_absent() {
    let j = obj(vec![("access_token", s("A2")), ("expires_in", Json::Int(60))]);
    let r = Secret::decode_response(&j).unwrap();
    assert_eq!(r.refresh_token, None);
    let j2 = obj(vec![
        ("access_token", s("A2")),
        ("refresh_token", Json::Int(9)),
        ("expires_in", Json::Int(60)),
    ]);
    assert_eq!(Secret::decode_response(&j2).unwrap().refresh_token, None);
}

#[test]
fn decode_response_rejects_bad_shapes() {
    assert_eq!(Secret::decode_response(&obj(vec![("expires_in", Json::Int(60))])), None);
    let no_expiry = obj(vec![("access_token", s("A"))]);
    assert_eq!(Secret::decode_response(&no_expiry), None);
    let wide = obj(vec![("access_token", s("A")), ("expires_in", Json::Int(1 << 40))]);
    assert_eq!(Secret::decode_response(&wide), None);
    assert_eq!(Secret::decode_response(&Json::Null), None);
}

#[test]
fn from_refresh_preserves_prior_refresh_token_when_omitted() {
    let sec = sample_secret();
    let decoded = OAuthResponse {
        access_token: "A2".to_string(),
        refresh_token: None,
        expires_in: 60,
    };
    let ns = sec.from_refresh(decoded, Json::Null);
    assert_eq!(ns.refresh_token, Some("R1".to_string()));
    assert_eq!(ns.access_token, "A2");
    assert_eq!(ns.expires_in, 60);
}

#[test]
fn from_refresh_takes_the_decoded_refresh_token_when_present() {
    let sec = sample_secret();
    let decoded = OAuthResponse {
        access_token: "A2".to_string(),
        refresh_token: Some("R2".to_string()),
        expires_in: 60,
    };
    let raw = obj(vec![("seen", Json::Bool(true))]);
    let ns = sec.from_refresh(decoded, raw.deep_copy());
    assert_eq!(ns.refresh_token, Some("R2".to_string()));
    assert_eq!(ns.raw_response, raw);
    assert_eq!(ns.client_id, "CID");
    assert_eq!(ns.client_secret, "CSEC");
}

#[test]
fn body_presents_the_refresh_token_grant() {
    let d = sample_definition();
    let sec = sample_secret();
    let b = d.body(&sec).unwrap();
    let expected = obj(vec![
        ("grant_type", s("refresh_token")),
        ("refresh_token", s("R1")),
        ("client_id", s("CID")),
        ("client_secret", s("CSEC")),
    ]);
    assert_eq!(b, expected);
}

#[test]
fn body_without_a_refresh_token_is_an_error() {
    let d = sample_definition();
    let mut sec = sample_secret();
    sec.refresh_token = None;
    assert!(d.body(&sec).is_err());
}

#[test]
fn query_and_headers_come_from_the_computation() {
    let d = sample_definition();
    let comp = obj(vec![
        ("query", obj(vec![("p", s("1"))])),
        ("headers", obj(vec![("h", s("v"))])),
    ]);
    assert_eq!(d.query(Some(&comp)).unwrap(), Some(obj(vec![("p", s("1"))])));
    assert_eq!(d.headers(Some(&comp)).unwrap(), Some(obj(vec![("h", s("v"))])));
    assert_eq!(d.query(None).unwrap(), None);
    assert_eq!(d.headers(Some(&obj(vec![]))).unwrap(), None);
}

#[test]
fn non_object_computation_part_is_an_error() {
    let d = sample_definition();
    let comp = obj(vec![("query", Json::Int(4))]);
    assert!(d.query(Some(&comp)).is_err());
}

fn sample_query() -> Option<Json> {
    Some(obj(vec![("p", s("1"))]))
}

#[test]
fn request_encodings_follow_the_content_type() {
    let sec = sample_secret();

    let mut d = sample_definition();
    d.content = Some(ContentType::Json);
    let body = d.body(&sec).unwrap();
    let req = d.build_request(body.deep_copy(), sample_query(), None);
    assert_eq!(
        req,
        HttpRequest {
            method: "POST".to_string(),
            uri: "https://provider.example/token".to_string(),
            headers: None,
            query: sample_query(),
            body: RequestBody::JsonEncoded(body.deep_copy()),
        }
    );

    d.content = Some(ContentType::Form);
    let req = d.build_request(body.deep_copy(), sample_query(), None);
    assert_eq!(req.body, RequestBody::FormEncoded(body.deep_copy()));
    assert_eq!(req.query, sample_query());

    d.content = None;
    let req = d.build_request(body.deep_copy(), sample_query(), None);
    assert_eq!(req.body, RequestBody::Empty);
    assert_eq!(req.query, sample_query());
    assert_eq!(req.method, "POST");
}

#[test]
fn rendered_definition_substitutes_the_endpoint() {
    let mut d = sample_definition();
    d.refresh_uri = "https://h/{{client_id}}/token".to_string();
    d.is_full_template_enabled = true;
    let payload = sample_secret().to_payload();
    let r = d.rendered(&payload).unwrap();
    assert_eq!(r.refresh_uri, "https://h/CID/token");
    assert_eq!(r.id, "D1");
    assert!(r.is_full_template_enabled);
}

#[test]
fn rendered_definition_fails_on_missing_key() {
    let mut d = sample_definition();
    d.refresh_uri = "https://h/{{nope}}/token".to_string();
    let payload = sample_secret().to_payload();
    assert!(d.rendered(&payload).is_err());
}
