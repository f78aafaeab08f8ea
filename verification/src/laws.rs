//! Laws of the refresh sequence, stated over the orchestrator's model and
//! proved once and for all: what a disabled connection yields, what a full
//! success commits, that the prior refresh token survives a response that
//! omits one, when template rendering applies, and what the failure of a
//! lookup or of the transport leaves behind.

use crate::compute::eval_v;
use crate::definition::{part_v, rendered_v, DefinitionV};
use crate::json::JsonV;
use crate::orchestrator::{
    begin_v,
    compatible_v,
    conn_context_v,
    sat_add_v,
    step_v,
    success_detail_v,
    ActionV,
    ConnectionV,
    EventV,
    HttpOutcomeV,
    OAuthV,
    StateV,
};
use crate::outcome::{ErrorKind, OutcomeV, RefreshErrorV};
use crate::secret::{decode_v, merged_v, payload_v, refreshed_v, OAuthResponseV, SecretV};
use vstd::prelude::*;

verus! {

/// The definition actually used for the attempt: rendered against the
/// secret's payload when it opts in, as stored otherwise.
pub open spec fn prepared_v(d: DefinitionV, sec: SecretV) -> DefinitionV {
    if d.is_full_template_enabled {
        rendered_v(d, payload_v(sec))->Some_0
    } else {
        d
    }
}

/// The pre-request computation's result for the attempt, when one is
/// configured.
pub open spec fn comp_v(d: DefinitionV, sec: SecretV) -> Option<JsonV> {
    if prepared_v(d, sec).computation is Some {
        Some(eval_v(prepared_v(d, sec).computation->Some_0, payload_v(sec))->Some_0)
    } else {
        None
    }
}

/// Law: a connection whose OAuth state is disabled fails at once with a
/// not-found error whose context carries the connection identifier; the
/// only action emitted is the report, so no definition lookup, secret
/// fetch, network call or store write is requested.
pub proof fn lemma_disabled_refresh(conn: ConnectionV)
    requires
        conn.oauth is Disabled,
    ensures
        ({
            let (s, a) = begin_v(conn);
            let o = OutcomeV::Failure {
                error: RefreshErrorV {
                    kind: ErrorKind::NotFound,
                    message: "connection has no oauth"@,
                },
                context: conn_context_v(conn.id),
            };
            &&& s == (StateV::Finished { outcome: o })
            &&& a == ActionV::Report(o)
        }),
{
}

/// Law: the committed secret preserves the prior refresh token exactly when
/// the decoded response omits one, and takes the decoded one when present.
pub proof fn lemma_fallback_preservation(prior: SecretV, resp: OAuthResponseV, raw: JsonV)
    ensures
        resp.refresh_token is None ==> refreshed_v(prior, resp, raw).refresh_token
            == prior.refresh_token,
        resp.refresh_token is Some ==> refreshed_v(prior, resp, raw).refresh_token
            == resp.refresh_token,
{
}

/// Law: template rendering occurs if and only if the definition opts in:
/// the definition carried into the HTTP stage is the rendered one when
/// `is_full_template_enabled` is set and the stored one, untouched,
/// otherwise.
pub proof fn lemma_template_rendering_iff(
    conn: ConnectionV,
    did: Seq<char>,
    d: DefinitionV,
    sec: SecretV,
    now: int,
)
    ensures
        !d.is_full_template_enabled ==> prepared_v(d, sec) == d,
        d.is_full_template_enabled ==> prepared_v(d, sec) == rendered_v(
            d,
            payload_v(sec),
        )->Some_0,
        ({
            let s = StateV::AwaitingSecret { conn, definition_id: did, definition: d };
            let (s2, a2) = step_v(s, EventV::Secret(Some(sec)), now);
            s2 matches StateV::AwaitingHttp { definition, .. } ==> definition == prepared_v(d, sec)
        }),
{
}

/// Law: when the provider definition cannot be found, the attempt fails
/// with a not-found error and the context `{"connectionId": ...}`; the only
/// actions ever emitted are the lookup itself and the report, so no HTTP
/// call is made and no store write is requested.
pub proof fn lemma_missing_definition(
    conn: ConnectionV,
    did: Seq<char>,
    ea: Option<int>,
    ei: Option<int>,
    now: int,
)
    requires
        conn.oauth == (OAuthV::Enabled { definition_id: did, expires_at: ea, expires_in: ei }),
    ensures
        ({
            let (s1, a1) = begin_v(conn);
            let (s2, a2) = step_v(s1, EventV::Definition(None), now);
            let o = OutcomeV::Failure {
                error: RefreshErrorV {
                    kind: ErrorKind::NotFound,
                    message: "connection oauth definition not found"@,
                },
                context: conn_context_v(conn.id),
            };
            &&& a1 == ActionV::LookupDefinition(did)
            &&& s2 == (StateV::Finished { outcome: o })
            &&& a2 == ActionV::Report(o)
        }),
{
}

/// Law: when the transport fails, the attempt fails with an I/O error; the
/// step emits only the report, so no secret is created and the connection
/// is not touched.
pub proof fn lemma_transport_failure(
    conn: ConnectionV,
    did: Seq<char>,
    d: DefinitionV,
    sec: SecretV,
    now: int,
)
    ensures
        ({
            let s = StateV::AwaitingHttp { conn, definition_id: did, definition: d, secret: sec };
            let (s2, a2) = step_v(s, EventV::Http(HttpOutcomeV::TransportFailed), now);
            let o = OutcomeV::Failure {
                error: RefreshErrorV {
                    kind: ErrorKind::Io,
                    message: "failed to execute request"@,
                },
                context: conn_context_v(conn.id),
            };
            &&& s2 == (StateV::Finished { outcome: o })
            &&& a2 == ActionV::Report(o)
        }),
{
}

/// Law: on a fully successful refresh the six steps emit exactly one
/// definition lookup, one secret fetch, one HTTP execution, one
/// secret-create and one connection-update — no more — and conclude with a
/// success naming the connection.  The committed oauth state expires the
/// decoded duration after the issuance time `now` (clipped only at the
/// timestamp's width), and the created secret is the decoded response
/// reconciled with the prior secret.
pub proof fn lemma_refresh_success_trace(
    conn: ConnectionV,
    did: Seq<char>,
    ea: Option<int>,
    ei: Option<int>,
    d: DefinitionV,
    sec: SecretV,
    raw: JsonV,
    sid: Seq<char>,
    now: int,
)
    requires
        conn.oauth == (OAuthV::Enabled { definition_id: did, expires_at: ea, expires_in: ei }),
        d.is_full_template_enabled ==> rendered_v(d, payload_v(sec)) is Some,
        prepared_v(d, sec).computation is Some ==> eval_v(
            prepared_v(d, sec).computation->Some_0,
            payload_v(sec),
        ) is Some,
        sec.refresh_token is Some,
        part_v(comp_v(d, sec), "query"@) is Some,
        part_v(comp_v(d, sec), "headers"@) is Some,
        eval_v(prepared_v(d, sec).response, merged_v(raw, sec)) is Some,
        decode_v(eval_v(prepared_v(d, sec).response, merged_v(raw, sec))->Some_0) is Some,
    ensures
        ({
            let (s1, a1) = begin_v(conn);
            let (s2, a2) = step_v(s1, EventV::Definition(Some(d)), now);
            let (s3, a3) = step_v(s2, EventV::Secret(Some(sec)), now);
            let (s4, a4) = step_v(s3, EventV::Http(HttpOutcomeV::Response(raw)), now);
            let (s5, a5) = step_v(s4, EventV::SecretSaved(Some(sid)), now);
            let (s6, a6) = step_v(s5, EventV::ConnectionUpdated(true), now);
            let d2 = prepared_v(d, sec);
            let resp = decode_v(eval_v(d2.response, merged_v(raw, sec))->Some_0)->Some_0;
            let ns = refreshed_v(sec, resp, raw);
            let success = OutcomeV::Success { id: conn.id, detail: success_detail_v(conn.id) };
            &&& a1 == ActionV::LookupDefinition(did)
            &&& a2 == (ActionV::FetchSecret {
                secret_id: conn.secrets_service_id,
                client_id: conn.client_id,
            })
            &&& a3 is Execute
            &&& a4 == (ActionV::CreateSecret { client_id: conn.client_id, payload: payload_v(ns) })
            &&& a5 == (ActionV::UpdateConnection {
                connection_id: conn.id,
                oauth: OAuthV::Enabled {
                    definition_id: did,
                    expires_at: Some(sat_add_v(now, ns.expires_in)),
                    expires_in: Some(ns.expires_in),
                },
                secret_ref: sid,
            })
            &&& i64::MIN as int <= now + ns.expires_in <= i64::MAX as int ==> sat_add_v(
                now,
                ns.expires_in,
            ) == now + ns.expires_in
            &&& a6 == ActionV::Report(success)
            &&& s6 == (StateV::Finished { outcome: success })
        }),
{
}

/// Law: a finished attempt awaits nothing: no event is compatible with a
/// terminal state, so each trigger yields exactly one reported outcome.
pub proof fn lemma_finished_awaits_nothing(outcome: OutcomeV, e: EventV)
    ensures
        !compatible_v(StateV::Finished { outcome }, e),
{
}

/// Law: a step reports an outcome exactly when it reaches the terminal
/// state: the report and the end of the attempt coincide.
pub proof fn lemma_report_iff_finished(s: StateV, e: EventV, now: int)
    requires
        compatible_v(s, e),
    ensures
        step_v(s, e, now).1 is Report <==> step_v(s, e, now).0 is Finished,
{
}

} // verus!
