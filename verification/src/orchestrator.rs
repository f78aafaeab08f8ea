//! The refresh orchestrator: a state machine that drives one refresh
//! attempt.  Each state names the collaborator reply it awaits; stepping a
//! state with that reply performs the pure work of the stage (template
//! rendering, computation evaluation, request derivation, response
//! reconciliation) and emits the next action for the caller to perform:
//! a store lookup, the HTTP call, a store write, or the final outcome.
//! The caller (which owns all I/O) runs the loop; steps already committed
//! before a failing step are not rolled back.

use crate::compute::{eval_v, evaluate};
use crate::definition::{
    body_v,
    part_v,
    rendered_v,
    request_v,
    Definition,
    DefinitionV,
    HttpRequest,
    HttpRequestV,
};
use crate::json::{fields_v, Json, JsonV};
use crate::outcome::{ErrorKind, Outcome, OutcomeV, RefreshError, RefreshErrorV};
use crate::secret::{decode_v, merged_v, opt_str_v, payload_v, refreshed_v, Secret, SecretV};
use vstd::prelude::*;
use vstd::string::StringExecFns;

verus! {

/// A connection's OAuth state.
#[derive(Clone, Debug, PartialEq, Eq)]
pub enum OAuth {
    Disabled,
    Enabled { definition_id: String, expires_at: Option<i64>, expires_in: Option<i32> },
}

/// Mathematical model of an `OAuth` state.
#[verifier::ext_equal]
pub enum OAuthV {
    Disabled,
    Enabled { definition_id: Seq<char>, expires_at: Option<int>, expires_in: Option<int> },
}

/// Model of an optional timestamp.
pub open spec fn opt_i64_v(o: Option<i64>) -> Option<int> {
    match o {
        Some(n) => Some(n as int),
        None => None,
    }
}

/// Model of an optional duration.
pub open spec fn opt_i32_v(o: Option<i32>) -> Option<int> {
    match o {
        Some(n) => Some(n as int),
        None => None,
    }
}

impl View for OAuth {
    type V = OAuthV;

    open spec fn view(&self) -> OAuthV {
        match self {
            OAuth::Disabled => OAuthV::Disabled,
            OAuth::Enabled { definition_id, expires_at, expires_in } => OAuthV::Enabled {
                definition_id: definition_id@,
                expires_at: opt_i64_v(*expires_at),
                expires_in: opt_i32_v(*expires_in),
            },
        }
    }
}

/// A tenant's link to one external provider: the unit of work a refresh is
/// triggered for.
#[derive(Clone, Debug, PartialEq, Eq)]
pub struct Connection {
    pub id: String,
    pub client_id: String,
    pub secrets_service_id: String,
    pub oauth: OAuth,
}

/// Mathematical model of a `Connection`.
#[verifier::ext_equal]
pub struct ConnectionV {
    pub id: Seq<char>,
    pub client_id: Seq<char>,
    pub secrets_service_id: Seq<char>,
    pub oauth: OAuthV,
}

impl View for Connection {
    type V = ConnectionV;

    open spec fn view(&self) -> ConnectionV {
        ConnectionV {
            id: self.id@,
            client_id: self.client_id@,
            secrets_service_id: self.secrets_service_id@,
            oauth: self.oauth@,
        }
    }
}

/// What the HTTP collaborator reported back.
#[derive(Debug, PartialEq, Eq)]
pub enum HttpOutcome {
    /// The response body, parsed as JSON.
    Response(Json),
    /// The request could not be executed.
    TransportFailed,
    /// The response body was not JSON.
    BodyNotJson,
}

/// Mathematical model of an `HttpOutcome`.
#[verifier::ext_equal]
pub enum HttpOutcomeV {
    Response(JsonV),
    TransportFailed,
    BodyNotJson,
}

impl View for HttpOutcome {
    type V = HttpOutcomeV;

    open spec fn view(&self) -> HttpOutcomeV {
        match self {
            HttpOutcome::Response(j) => HttpOutcomeV::Response(j@),
            HttpOutcome::TransportFailed => HttpOutcomeV::TransportFailed,
            HttpOutcome::BodyNotJson => HttpOutcomeV::BodyNotJson,
        }
    }
}

/// A collaborator reply, fed back into the state machine.
#[derive(Debug, PartialEq, Eq)]
pub enum Event {
    /// The definition lookup's result; `None` covers both absence and a
    /// store failure.
    Definition(Option<Definition>),
    /// The secret fetch's result.
    Secret(Option<Secret>),
    /// The HTTP execution's result.
    Http(HttpOutcome),
    /// The identifier of the newly created secret record, if the write
    /// succeeded.
    SecretSaved(Option<String>),
    /// Whether the connection update succeeded.
    ConnectionUpdated(bool),
}

/// Mathematical model of an `Event`.
#[verifier::ext_equal]
pub enum EventV {
    Definition(Option<DefinitionV>),
    Secret(Option<SecretV>),
    Http(HttpOutcomeV),
    SecretSaved(Option<Seq<char>>),
    ConnectionUpdated(bool),
}

/// Model of an optional definition.
pub open spec fn opt_def_v(o: Option<Definition>) -> Option<DefinitionV> {
    match o {
        Some(d) => Some(d@),
        None => None,
    }
}

/// Model of an optional secret.
pub open spec fn opt_secret_v(o: Option<Secret>) -> Option<SecretV> {
    match o {
        Some(s) => Some(s@),
        None => None,
    }
}

impl View for Event {
    type V = EventV;

    open spec fn view(&self) -> EventV {
        match self {
            Event::Definition(d) => EventV::Definition(opt_def_v(*d)),
            Event::Secret(s) => EventV::Secret(opt_secret_v(*s)),
            Event::Http(h) => EventV::Http(h@),
            Event::SecretSaved(id) => EventV::SecretSaved(opt_str_v(*id)),
            Event::ConnectionUpdated(ok) => EventV::ConnectionUpdated(*ok),
        }
    }
}

/// What the caller must do next.
#[derive(Debug, PartialEq, Eq)]
pub enum Action {
    /// Look the provider definition up by its identifier.
    LookupDefinition(String),
    /// Fetch the current secret.
    FetchSecret { secret_id: String, client_id: String },
    /// Execute the refresh request.
    Execute(HttpRequest),
    /// Create a new secret record with this payload.
    CreateSecret { client_id: String, payload: Json },
    /// Point the connection at the new secret and oauth state, in one write.
    UpdateConnection { connection_id: String, oauth: OAuth, secret_ref: String },
    /// The attempt is over; report this outcome.
    Report(Outcome),
}

/// Mathematical model of an `Action`.
#[verifier::ext_equal]
pub enum ActionV {
    LookupDefinition(Seq<char>),
    FetchSecret { secret_id: Seq<char>, client_id: Seq<char> },
    Execute(HttpRequestV),
    CreateSecret { client_id: Seq<char>, payload: JsonV },
    UpdateConnection { connection_id: Seq<char>, oauth: OAuthV, secret_ref: Seq<char> },
    Report(OutcomeV),
}

impl View for Action {
    type V = ActionV;

    open spec fn view(&self) -> ActionV {
        match self {
            Action::LookupDefinition(id) => ActionV::LookupDefinition(id@),
            Action::FetchSecret { secret_id, client_id } => ActionV::FetchSecret {
                secret_id: secret_id@,
                client_id: client_id@,
            },
            Action::Execute(req) => ActionV::Execute(req@),
            Action::CreateSecret { client_id, payload } => ActionV::CreateSecret {
                client_id: client_id@,
                payload: payload@,
            },
            Action::UpdateConnection { connection_id, oauth, secret_ref } => {
                ActionV::UpdateConnection {
                    connection_id: connection_id@,
                    oauth: oauth@,
                    secret_ref: secret_ref@,
                }
            },
            Action::Report(o) => ActionV::Report(o@),
        }
    }
}

/// One refresh attempt's position in the sequence.
#[derive(Debug, PartialEq, Eq)]
pub enum State {
    AwaitingDefinition { conn: Connection, definition_id: String },
    AwaitingSecret { conn: Connection, definition_id: String, definition: Definition },
    AwaitingHttp { conn: Connection, definition_id: String, definition: Definition, secret: Secret },
    AwaitingSecretSave { conn: Connection, definition_id: String, new_secret: Secret },
    AwaitingConnectionUpdate { conn: Connection },
    Finished { outcome: Outcome },
}

/// Mathematical model of a `State`.
#[verifier::ext_equal]
pub enum StateV {
    AwaitingDefinition { conn: ConnectionV, definition_id: Seq<char> },
    AwaitingSecret { conn: ConnectionV, definition_id: Seq<char>, definition: DefinitionV },
    AwaitingHttp {
        conn: ConnectionV,
        definition_id: Seq<char>,
        definition: DefinitionV,
        secret: SecretV,
    },
    AwaitingSecretSave { conn: ConnectionV, definition_id: Seq<char>, new_secret: SecretV },
    AwaitingConnectionUpdate { conn: ConnectionV },
    Finished { outcome: OutcomeV },
}

impl View for State {
    type V = StateV;

    open spec fn view(&self) -> StateV {
        match self {
            State::AwaitingDefinition { conn, definition_id } => StateV::AwaitingDefinition {
                conn: conn@,
                definition_id: definition_id@,
            },
            State::AwaitingSecret { conn, definition_id, definition } => StateV::AwaitingSecret {
                conn: conn@,
                definition_id: definition_id@,
                definition: definition@,
            },
            State::AwaitingHttp { conn, definition_id, definition, secret } => {
                StateV::AwaitingHttp {
                    conn: conn@,
                    definition_id: definition_id@,
                    definition: definition@,
                    secret: secret@,
                }
            },
            State::AwaitingSecretSave { conn, definition_id, new_secret } => {
                StateV::AwaitingSecretSave {
                    conn: conn@,
                    definition_id: definition_id@,
                    new_secret: new_secret@,
                }
            },
            State::AwaitingConnectionUpdate { conn } => StateV::AwaitingConnectionUpdate {
                conn: conn@,
            },
            State::Finished { outcome } => StateV::Finished { outcome: outcome@ },
        }
    }
}

/// The failure context: the connection identifier, always.
pub open spec fn conn_context_v(id: Seq<char>) -> JsonV {
    JsonV::Obj(seq![("connectionId"@, JsonV::Str(id))])
}

/// A terminal failure: the finished state and the report of the same
/// outcome.
pub open spec fn fail_v(id: Seq<char>, kind: ErrorKind, msg: Seq<char>) -> (StateV, ActionV) {
    let o = OutcomeV::Failure {
        error: RefreshErrorV { kind, message: msg },
        context: conn_context_v(id),
    };
    (StateV::Finished { outcome: o }, ActionV::Report(o))
}

/// Which event a state awaits.
pub open spec fn compatible_v(s: StateV, e: EventV) -> bool {
    match (s, e) {
        (StateV::AwaitingDefinition { .. }, EventV::Definition(_)) => true,
        (StateV::AwaitingSecret { .. }, EventV::Secret(_)) => true,
        (StateV::AwaitingHttp { .. }, EventV::Http(_)) => true,
        (StateV::AwaitingSecretSave { .. }, EventV::SecretSaved(_)) => true,
        (StateV::AwaitingConnectionUpdate { .. }, EventV::ConnectionUpdated(_)) => true,
        _ => false,
    }
}

/// Validates the connection's OAuth state and opens the attempt.
pub open spec fn begin_v(conn: ConnectionV) -> (StateV, ActionV) {
    match conn.oauth {
        OAuthV::Enabled { definition_id, .. } => (
            StateV::AwaitingDefinition { conn, definition_id },
            ActionV::LookupDefinition(definition_id),
        ),
        OAuthV::Disabled => fail_v(conn.id, ErrorKind::NotFound, "connection has no oauth"@),
    }
}

/// The definition lookup's reply: absence is a not-found failure; otherwise
/// the secret fetch is requested.
pub open spec fn on_definition_v(
    conn: ConnectionV,
    definition_id: Seq<char>,
    found: Option<DefinitionV>,
) -> (StateV, ActionV) {
    match found {
        Some(d) => (
            StateV::AwaitingSecret { conn, definition_id, definition: d },
            ActionV::FetchSecret {
                secret_id: conn.secrets_service_id,
                client_id: conn.client_id,
            },
        ),
        None => fail_v(conn.id, ErrorKind::NotFound, "connection oauth definition not found"@),
    }
}

/// The secret fetch's reply: the definition is rendered when it opts in, the
/// pre-request computation is evaluated when configured, body, query and
/// headers are derived, and the refresh request is handed out for execution.
pub open spec fn on_secret_v(
    conn: ConnectionV,
    definition_id: Seq<char>,
    d: DefinitionV,
    found: Option<SecretV>,
) -> (StateV, ActionV) {
    match found {
        None => fail_v(conn.id, ErrorKind::NotFound, "failed to get secret"@),
        Some(sec) => {
            let payload = payload_v(sec);
            if d.is_full_template_enabled && rendered_v(d, payload) is None {
                fail_v(conn.id, ErrorKind::Transform, "failed to render oauth definition"@)
            } else {
                let d2 = if d.is_full_template_enabled {
                    rendered_v(d, payload)->Some_0
                } else {
                    d
                };
                if d2.computation is Some && eval_v(d2.computation->Some_0, payload) is None {
                    fail_v(conn.id, ErrorKind::Transform, "failed to compute oauth payload"@)
                } else {
                    let comp = if d2.computation is Some {
                        Some(eval_v(d2.computation->Some_0, payload)->Some_0)
                    } else {
                        None
                    };
                    match body_v(sec) {
                        None => fail_v(conn.id, ErrorKind::Io, "failed to build request body"@),
                        Some(b) => match part_v(comp, "query"@) {
                            None => fail_v(
                                conn.id,
                                ErrorKind::Io,
                                "failed to build request query"@,
                            ),
                            Some(q) => match part_v(comp, "headers"@) {
                                None => fail_v(
                                    conn.id,
                                    ErrorKind::Io,
                                    "failed to build request headers"@,
                                ),
                                Some(h) => (
                                    StateV::AwaitingHttp {
                                        conn,
                                        definition_id,
                                        definition: d2,
                                        secret: sec,
                                    },
                                    ActionV::Execute(request_v(d2, b, q, h)),
                                ),
                            },
                        },
                    }
                }
            }
        },
    }
}

/// The HTTP reply: transport failure and non-JSON bodies fail; otherwise
/// the response is decoded against the merged context, the new secret is
/// built (preserving the prior refresh token when the response omits one),
/// and its creation is requested.
pub open spec fn on_http_v(
    conn: ConnectionV,
    definition_id: Seq<char>,
    d: DefinitionV,
    sec: SecretV,
    out: HttpOutcomeV,
) -> (StateV, ActionV) {
    match out {
        HttpOutcomeV::TransportFailed => fail_v(
            conn.id,
            ErrorKind::Io,
            "failed to execute request"@,
        ),
        HttpOutcomeV::BodyNotJson => fail_v(conn.id, ErrorKind::Decode, "failed to parse response"@),
        HttpOutcomeV::Response(raw) => match eval_v(d.response, merged_v(raw, sec)) {
            None => fail_v(conn.id, ErrorKind::Decode, "failed to decode oauth response"@),
            Some(dj) => match decode_v(dj) {
                None => fail_v(conn.id, ErrorKind::Decode, "failed to decode oauth response"@),
                Some(resp) => {
                    let ns = refreshed_v(sec, resp, raw);
                    (
                        StateV::AwaitingSecretSave { conn, definition_id, new_secret: ns },
                        ActionV::CreateSecret { client_id: conn.client_id, payload: payload_v(ns) },
                    )
                },
            },
        },
    }
}

/// Addition clipped to the timestamp's width.
pub open spec fn sat_add_v(a: int, b: int) -> int {
    if a + b > i64::MAX as int {
        i64::MAX as int
    } else if a + b < i64::MIN as int {
        i64::MIN as int
    } else {
        a + b
    }
}

/// The secret-create reply: on success the connection update is requested,
/// with the new oauth state expiring the decoded duration after `now`.
pub open spec fn on_saved_v(
    conn: ConnectionV,
    definition_id: Seq<char>,
    ns: SecretV,
    saved: Option<Seq<char>>,
    now: int,
) -> (StateV, ActionV) {
    match saved {
        None => fail_v(conn.id, ErrorKind::Io, "failed to create oauth secret"@),
        Some(sid) => (
            StateV::AwaitingConnectionUpdate { conn },
            ActionV::UpdateConnection {
                connection_id: conn.id,
                oauth: OAuthV::Enabled {
                    definition_id,
                    expires_at: Some(sat_add_v(now, ns.expires_in)),
                    expires_in: Some(ns.expires_in),
                },
                secret_ref: sid,
            },
        ),
    }
}

/// The success detail: the connection identifier under `id`.
pub open spec fn success_detail_v(id: Seq<char>) -> JsonV {
    JsonV::Obj(seq![("id"@, JsonV::Str(id))])
}

/// The connection-update reply: the attempt concludes.
pub open spec fn on_updated_v(conn: ConnectionV, ok: bool) -> (StateV, ActionV) {
    if ok {
        let o = OutcomeV::Success { id: conn.id, detail: success_detail_v(conn.id) };
        (StateV::Finished { outcome: o }, ActionV::Report(o))
    } else {
        fail_v(conn.id, ErrorKind::Io, "failed to update connection"@)
    }
}

/// One step of the refresh sequence.
pub open spec fn step_v(s: StateV, e: EventV, now: int) -> (StateV, ActionV) {
    match (s, e) {
        (StateV::AwaitingDefinition { conn, definition_id }, EventV::Definition(found)) => {
            on_definition_v(conn, definition_id, found)
        },
        (
            StateV::AwaitingSecret { conn, definition_id, definition },
            EventV::Secret(found),
        ) => on_secret_v(conn, definition_id, definition, found),
        (
            StateV::AwaitingHttp { conn, definition_id, definition, secret },
            EventV::Http(out),
        ) => on_http_v(conn, definition_id, definition, secret, out),
        (
            StateV::AwaitingSecretSave { conn, definition_id, new_secret },
            EventV::SecretSaved(saved),
        ) => on_saved_v(conn, definition_id, new_secret, saved, now),
        (StateV::AwaitingConnectionUpdate { conn }, EventV::ConnectionUpdated(ok)) => {
            on_updated_v(conn, ok)
        },
        _ => (s, ActionV::Report(arbitrary())),
    }
}

/// Builds the failure context for a connection.
fn conn_context(conn_id: &String) -> (r: Json)
    ensures
        r@ == conn_context_v(conn_id@),
{
    let mut fields: Vec<(String, Json)> = Vec::new();
    fields.push((String::from_str("connectionId"), Json::Str(conn_id.clone())));
    let r = Json::Obj(fields);
    proof {
        assert(fields_v(fields@) =~= seq![("connectionId"@, JsonV::Str(conn_id@))]);
        assert(r@ =~= conn_context_v(conn_id@));
    }
    r
}

/// Concludes the attempt with a failure.
fn fail(conn_id: &String, kind: ErrorKind, msg: &str) -> (r: (State, Action))
    ensures
        r.0@ == fail_v(conn_id@, kind, msg@).0,
        r.1@ == fail_v(conn_id@, kind, msg@).1,
{
    let state_outcome = Outcome::Failure {
        error: RefreshError { kind, message: String::from_str(msg) },
        context: conn_context(conn_id),
    };
    let report_outcome = Outcome::Failure {
        error: RefreshError { kind, message: String::from_str(msg) },
        context: conn_context(conn_id),
    };
    (State::Finished { outcome: state_outcome }, Action::Report(report_outcome))
}

/// Validates the connection's OAuth state and opens the refresh attempt:
/// a disabled connection fails at once with a not-found error; an enabled
/// one asks for its provider definition.
pub fn begin(conn: Connection) -> (r: (State, Action))
    ensures
        r.0@ == begin_v(conn@).0,
        r.1@ == begin_v(conn@).1,
{
    match &conn.oauth {
        OAuth::Enabled { definition_id, .. } => {
            let id = definition_id.clone();
            let act = Action::LookupDefinition(definition_id.clone());
            (State::AwaitingDefinition { conn, definition_id: id }, act)
        },
        OAuth::Disabled => fail(&conn.id, ErrorKind::NotFound, "connection has no oauth"),
    }
}

/// Whether `state` awaits `event`.  `step` may only be called on a
/// compatible pair; the caller checks with this.
pub fn compatible(state: &State, event: &Event) -> (b: bool)
    ensures
        b == compatible_v(state@, event@),
{
    match (state, event) {
        (State::AwaitingDefinition { .. }, Event::Definition(_)) => true,
        (State::AwaitingSecret { .. }, Event::Secret(_)) => true,
        (State::AwaitingHttp { .. }, Event::Http(_)) => true,
        (State::AwaitingSecretSave { .. }, Event::SecretSaved(_)) => true,
        (State::AwaitingConnectionUpdate { .. }, Event::ConnectionUpdated(_)) => true,
        _ => false,
    }
}

/// Performs one step of the refresh sequence: consumes the awaited
/// collaborator reply and yields the next state and the next action.
/// `now` is the current time in seconds since the Unix epoch; it is read
/// only when the new-secret write is acknowledged.
pub fn step(state: State, event: Event, now: i64) -> (r: (State, Action))
    requires
        compatible_v(state@, event@),
    ensures
        r.0@ == step_v(state@, event@, now as int).0,
        r.1@ == step_v(state@, event@, now as int).1,
{
    match (state, event) {
        (State::AwaitingDefinition { conn, definition_id }, Event::Definition(found)) => {
            on_definition(conn, definition_id, found)
        },
        (State::AwaitingSecret { conn, definition_id, definition }, Event::Secret(found)) => {
            on_secret(conn, definition_id, definition, found)
        },
        (State::AwaitingHttp { conn, definition_id, definition, secret }, Event::Http(out)) => {
            on_http(conn, definition_id, definition, secret, out)
        },
        (
            State::AwaitingSecretSave { conn, definition_id, new_secret },
            Event::SecretSaved(saved),
        ) => on_saved(conn, definition_id, new_secret, saved, now),
        (State::AwaitingConnectionUpdate { conn }, Event::ConnectionUpdated(ok)) => {
            on_updated(conn, ok)
        },
        _ => {
            proof {
                assert(false);
            }
            vstd::pervasive::unreached()
        },
    }
}

fn on_definition(conn: Connection, definition_id: String, found: Option<Definition>) -> (r: (
    State,
    Action,
))
    ensures
        r.0@ == on_definition_v(conn@, definition_id@, opt_def_v(found)).0,
        r.1@ == on_definition_v(conn@, definition_id@, opt_def_v(found)).1,
{
    match found {
        Some(d) => {
            let act = Action::FetchSecret {
                secret_id: conn.secrets_service_id.clone(),
                client_id: conn.client_id.clone(),
            };
            (State::AwaitingSecret { conn, definition_id, definition: d }, act)
        },
        None => fail(&conn.id, ErrorKind::NotFound, "connection oauth definition not found"),
    }
}

fn on_secret(
    conn: Connection,
    definition_id: String,
    definition: Definition,
    found: Option<Secret>,
) -> (r: (State, Action))
    ensures
        r.0@ == on_secret_v(conn@, definition_id@, definition@, opt_secret_v(found)).0,
        r.1@ == on_secret_v(conn@, definition_id@, definition@, opt_secret_v(found)).1,
{
    let sec = match found {
        Some(s) => s,
        None => {
            return fail(&conn.id, ErrorKind::NotFound, "failed to get secret");
        },
    };
    let payload = sec.to_payload();
    let d2 = if definition.is_full_template_enabled {
        match definition.rendered(&payload) {
            Ok(d) => d,
            Err(_) => {
                return fail(&conn.id, ErrorKind::Transform, "failed to render oauth definition");
            },
        }
    } else {
        definition
    };
    let comp: Option<Json> = match &d2.computation {
        Some(expr) => match evaluate(expr, &payload) {
            Ok(c) => Some(c),
            Err(_) => {
                return fail(&conn.id, ErrorKind::Transform, "failed to compute oauth payload");
            },
        },
        None => None,
    };
    let b = match d2.body(&sec) {
        Ok(b) => b,
        Err(_) => {
            return fail(&conn.id, ErrorKind::Io, "failed to build request body");
        },
    };
    let q = match d2.query(comp.as_ref()) {
        Ok(q) => q,
        Err(_) => {
            return fail(&conn.id, ErrorKind::Io, "failed to build request query");
        },
    };
    let h = match d2.headers(comp.as_ref()) {
        Ok(h) => h,
        Err(_) => {
            return fail(&conn.id, ErrorKind::Io, "failed to build request headers");
        },
    };
    let req = d2.build_request(b, q, h);
    let act = Action::Execute(req);
    (State::AwaitingHttp { conn, definition_id, definition: d2, secret: sec }, act)
}

fn on_http(
    conn: Connection,
    definition_id: String,
    definition: Definition,
    secret: Secret,
    out: HttpOutcome,
) -> (r: (State, Action))
    ensures
        r.0@ == on_http_v(conn@, definition_id@, definition@, secret@, out@).0,
        r.1@ == on_http_v(conn@, definition_id@, definition@, secret@, out@).1,
{
    let raw = match out {
        HttpOutcome::Response(j) => j,
        HttpOutcome::TransportFailed => {
            return fail(&conn.id, ErrorKind::Io, "failed to execute request");
        },
        HttpOutcome::BodyNotJson => {
            return fail(&conn.id, ErrorKind::Decode, "failed to parse response");
        },
    };
    let merged = secret.merged_payload(&raw);
    let decoded_json = match evaluate(&definition.response, &merged) {
        Ok(j) => j,
        Err(_) => {
            return fail(&conn.id, ErrorKind::Decode, "failed to decode oauth response");
        },
    };
    let resp = match Secret::decode_response(&decoded_json) {
        Some(resp) => resp,
        None => {
            return fail(&conn.id, ErrorKind::Decode, "failed to decode oauth response");
        },
    };
    let ns = secret.from_refresh(resp, raw);
    let payload = ns.to_payload();
    let act = Action::CreateSecret { client_id: conn.client_id.clone(), payload };
    (State::AwaitingSecretSave { conn, definition_id, new_secret: ns }, act)
}

/// Addition clipped to the timestamp's width.
fn sat_add(a: i64, b: i64) -> (r: i64)
    ensures
        r as int == sat_add_v(a as int, b as int),
{
    match a.checked_add(b) {
        Some(v) => v,
        None => {
            if b >= 0 {
                i64::MAX
            } else {
                i64::MIN
            }
        },
    }
}

fn on_saved(
    conn: Connection,
    definition_id: String,
    new_secret: Secret,
    saved: Option<String>,
    now: i64,
) -> (r: (State, Action))
    ensures
        r.0@ == on_saved_v(conn@, definition_id@, new_secret@, opt_str_v(saved), now as int).0,
        r.1@ == on_saved_v(conn@, definition_id@, new_secret@, opt_str_v(saved), now as int).1,
{
    let sid = match saved {
        Some(sid) => sid,
        None => {
            return fail(&conn.id, ErrorKind::Io, "failed to create oauth secret");
        },
    };
    let expires_at = sat_add(now, new_secret.expires_in as i64);
    let oauth = OAuth::Enabled {
        definition_id,
        expires_at: Some(expires_at),
        expires_in: Some(new_secret.expires_in),
    };
    let act = Action::UpdateConnection { connection_id: conn.id.clone(), oauth, secret_ref: sid };
    (State::AwaitingConnectionUpdate { conn }, act)
}

fn on_updated(conn: Connection, ok: bool) -> (r: (State, Action))
    ensures
        r.0@ == on_updated_v(conn@, ok).0,
        r.1@ == on_updated_v(conn@, ok).1,
{
    if ok {
        let state_outcome = Outcome::Success {
            id: conn.id.clone(),
            detail: success_detail(&conn.id),
        };
        let report_outcome = Outcome::Success {
            id: conn.id.clone(),
            detail: success_detail(&conn.id),
        };
        (State::Finished { outcome: state_outcome }, Action::Report(report_outcome))
    } else {
        fail(&conn.id, ErrorKind::Io, "failed to update connection")
    }
}

/// Builds the success detail for a connection.
fn success_detail(conn_id: &String) -> (r: Json)
    ensures
        r@ == success_detail_v(conn_id@),
{
    let mut fields: Vec<(String, Json)> = Vec::new();
    fields.push((String::from_str("id"), Json::Str(conn_id.clone())));
    let r = Json::Obj(fields);
    proof {
        assert(fields_v(fields@) =~= seq![("id"@, JsonV::Str(conn_id@))]);
        assert(r@ =~= success_detail_v(conn_id@));
    }
    r
}

/// The current time in seconds since the Unix epoch.
///
/// Relies on `chrono::Utc::now`: the system's current date and time in UTC;
/// `timestamp` is its non-leap seconds since the Unix epoch.  Nothing is
/// assumed of the value: every caller must hold for any reading.
#[verifier::external_body]
pub fn current_timestamp() -> i64 {
    chrono::Utc::now().timestamp()
}

/// Performs one step of the refresh sequence against the real clock.
pub fn step_now(state: State, event: Event) -> (r: (State, Action))
    requires
        compatible_v(state@, event@),
    ensures
        exists|t: int|
            r.0@ == #[trigger] step_v(state@, event@, t).0 && r.1@ == step_v(state@, event@, t).1,
{
    let ghost sv = state@;
    let ghost ev = event@;
    let now = current_timestamp();
    let r = step(state, event, now);
    proof {
        assert(r.0@ == step_v(sv, ev, now as int).0 && r.1@ == step_v(sv, ev, now as int).1);
    }
    r
}

} // verus!
