//! The provider definition model: the declarative description of one
//! provider's refresh contract, the derivation of request body, query and
//! headers, optional whole-definition template rendering, and the assembly
//! of the outbound refresh request.

use crate::compute::{expr_v, Expr, ExprV};
use crate::json::{get_spec, Json, JsonV};
use crate::secret::{Secret, SecretV};
use crate::template::{render_str, render_v, RenderError};
use vstd::prelude::*;
use vstd::string::StringExecFns;

verus! {

/// How the refresh request body is serialized.
#[derive(Clone, Copy, PartialEq, Eq, Structural, Debug)]
pub enum ContentType {
    Json,
    Form,
}

/// One provider's refresh contract.
#[derive(Debug, PartialEq, Eq)]
pub struct Definition {
    pub id: String,
    /// The refresh endpoint; itself a template.
    pub refresh_uri: String,
    /// Body serialization; `None` omits the body.
    pub content: Option<ContentType>,
    /// Optional pre-request computation.
    pub computation: Option<Expr>,
    /// Decodes the raw provider response into the canonical shape.
    pub response: Expr,
    /// Whether the definition must be template-rendered before use.
    pub is_full_template_enabled: bool,
}

/// Mathematical model of a `Definition`.
#[verifier::ext_equal]
pub struct DefinitionV {
    pub id: Seq<char>,
    pub refresh_uri: Seq<char>,
    pub content: Option<ContentType>,
    pub computation: Option<ExprV>,
    pub response: ExprV,
    pub is_full_template_enabled: bool,
}

/// Model of an optional expression.
pub open spec fn opt_expr_v(o: Option<Expr>) -> Option<ExprV> {
    match o {
        Some(e) => Some(expr_v(e)),
        None => None,
    }
}

impl View for Definition {
    type V = DefinitionV;

    open spec fn view(&self) -> DefinitionV {
        DefinitionV {
            id: self.id@,
            refresh_uri: self.refresh_uri@,
            content: self.content,
            computation: opt_expr_v(self.computation),
            response: expr_v(self.response),
            is_full_template_enabled: self.is_full_template_enabled,
        }
    }
}

/// The refresh request body derived from a secret: the standard
/// refresh-token grant.  `None` (an error) when the secret holds no refresh
/// token to present.
pub open spec fn body_v(s: SecretV) -> Option<JsonV> {
    match s.refresh_token {
        Some(t) => Some(
            JsonV::Obj(
                seq![
                    ("grant_type"@, JsonV::Str("refresh_token"@)),
                    ("refresh_token"@, JsonV::Str(t)),
                    ("client_id"@, JsonV::Str(s.client_id)),
                    ("client_secret"@, JsonV::Str(s.client_secret)),
                ],
            ),
        ),
        None => None,
    }
}

/// A named part (`query` or `headers`) of a pre-request computation result:
/// `Some(None)` when there is no computation or it lacks the part,
/// `Some(Some(obj))` when the part is an object, and `None` (an error) when
/// the part is present but not an object.
pub open spec fn part_v(comp: Option<JsonV>, key: Seq<char>) -> Option<Option<JsonV>> {
    match comp {
        None => Some(None),
        Some(c) => match get_spec(c, key) {
            None => Some(None),
            Some(JsonV::Obj(fields)) => Some(Some(JsonV::Obj(fields))),
            Some(_) => None,
        },
    }
}

/// Model of an optional computation result handed to a derivation.
pub open spec fn opt_json_v(o: Option<&Json>) -> Option<JsonV> {
    match o {
        Some(j) => Some(j@),
        None => None,
    }
}

/// Building the body, query or headers failed: a required source field was
/// absent or malformed.  No request is sent.
#[derive(Debug, PartialEq, Eq)]
pub struct BuildError;

/// How the body of the outbound request is attached.
#[derive(Debug, PartialEq, Eq)]
pub enum RequestBody {
    JsonEncoded(Json),
    FormEncoded(Json),
    Empty,
}

/// Mathematical model of a `RequestBody`.
#[verifier::ext_equal]
pub enum RequestBodyV {
    JsonEncoded(JsonV),
    FormEncoded(JsonV),
    Empty,
}

impl View for RequestBody {
    type V = RequestBodyV;

    open spec fn view(&self) -> RequestBodyV {
        match self {
            RequestBody::JsonEncoded(j) => RequestBodyV::JsonEncoded(j@),
            RequestBody::FormEncoded(j) => RequestBodyV::FormEncoded(j@),
            RequestBody::Empty => RequestBodyV::Empty,
        }
    }
}

/// The outbound refresh request handed to the HTTP collaborator.
#[derive(Debug, PartialEq, Eq)]
pub struct HttpRequest {
    pub method: String,
    pub uri: String,
    pub headers: Option<Json>,
    pub query: Option<Json>,
    pub body: RequestBody,
}

/// Mathematical model of an `HttpRequest`.
#[verifier::ext_equal]
pub struct HttpRequestV {
    pub method: Seq<char>,
    pub uri: Seq<char>,
    pub headers: Option<JsonV>,
    pub query: Option<JsonV>,
    pub body: RequestBodyV,
}

/// Model of an optional owned JSON value.
pub open spec fn opt_owned_json_v(o: Option<Json>) -> Option<JsonV> {
    match o {
        Some(j) => Some(j@),
        None => None,
    }
}

impl View for HttpRequest {
    type V = HttpRequestV;

    open spec fn view(&self) -> HttpRequestV {
        HttpRequestV {
            method: self.method@,
            uri: self.uri@,
            headers: opt_owned_json_v(self.headers),
            query: opt_owned_json_v(self.query),
            body: self.body@,
        }
    }
}

/// The outbound request: always a refresh POST against the definition's
/// endpoint; the body is attached as JSON or form-encoded per the content
/// encoding, or omitted when the encoding is unspecified; query parameters
/// and headers are always attached.
pub open spec fn request_v(
    d: DefinitionV,
    body: JsonV,
    query: Option<JsonV>,
    headers: Option<JsonV>,
) -> HttpRequestV {
    HttpRequestV {
        method: "POST"@,
        uri: d.refresh_uri,
        headers,
        query,
        body: match d.content {
            Some(ContentType::Json) => RequestBodyV::JsonEncoded(body),
            Some(ContentType::Form) => RequestBodyV::FormEncoded(body),
            None => RequestBodyV::Empty,
        },
    }
}

/// The definition after template rendering: its endpoint rendered against
/// the payload, everything else as stored.  `None` when rendering fails.
pub open spec fn rendered_v(d: DefinitionV, payload: JsonV) -> Option<DefinitionV> {
    match render_v(d.refresh_uri, payload) {
        Some(uri) => Some(DefinitionV { refresh_uri: uri, ..d }),
        None => None,
    }
}

impl Definition {
    /// Builds the refresh request body from the secret's fields.
    pub fn body(&self, secret: &Secret) -> (r: Result<Json, BuildError>)
        ensures
            match r {
                Ok(b) => body_v(secret@) == Some(b@),
                Err(_) => body_v(secret@) is None,
            },
    {
        let refresh_token = match &secret.refresh_token {
            Some(t) => t.clone(),
            None => {
                return Err(BuildError);
            },
        };
        let mut fields: Vec<(String, Json)> = Vec::new();
        fields.push((String::from_str("grant_type"), Json::Str(String::from_str("refresh_token"))));
        fields.push((String::from_str("refresh_token"), Json::Str(refresh_token)));
        fields.push((String::from_str("client_id"), Json::Str(secret.client_id.clone())));
        fields.push((String::from_str("client_secret"), Json::Str(secret.client_secret.clone())));
        let b = Json::Obj(fields);
        proof {
            let s1 = crate::json::fields_v(fields@);
            let s2 = body_v(secret@)->Some_0->Obj_0;
            assert forall|k: int| 0 <= k < s1.len() implies s1[k] == s2[k] by {
                if k == 0 {
                } else if k == 1 {
                } else if k == 2 {
                } else {
                    assert(k == 3);
                }
            }
            assert(s1 =~= s2);
            assert(body_v(secret@) == Some(b@));
        }
        Ok(b)
    }

    /// Builds the query parameters, optionally informed by the pre-request
    /// computation result.
    pub fn query(&self, computation: Option<&Json>) -> (r: Result<Option<Json>, BuildError>)
        ensures
            match r {
                Ok(q) => part_v(opt_json_v(computation), "query"@) == Some(opt_owned_json_v(q)),
                Err(_) => part_v(opt_json_v(computation), "query"@) is None,
            },
    {
        part(computation, String::from_str("query"))
    }

    /// Builds the request headers, optionally informed by the pre-request
    /// computation result.
    pub fn headers(&self, computation: Option<&Json>) -> (r: Result<Option<Json>, BuildError>)
        ensures
            match r {
                Ok(h) => part_v(opt_json_v(computation), "headers"@) == Some(opt_owned_json_v(h)),
                Err(_) => part_v(opt_json_v(computation), "headers"@) is None,
            },
    {
        part(computation, String::from_str("headers"))
    }

    /// Assembles the outbound refresh request.
    pub fn build_request(&self, body: Json, query: Option<Json>, headers: Option<Json>) -> (r:
        HttpRequest)
        ensures
            r@ == request_v(self@, body@, opt_owned_json_v(query), opt_owned_json_v(headers)),
    {
        let encoded = match self.content {
            Some(ContentType::Json) => RequestBody::JsonEncoded(body),
            Some(ContentType::Form) => RequestBody::FormEncoded(body),
            None => RequestBody::Empty,
        };
        HttpRequest {
            method: String::from_str("POST"),
            uri: self.refresh_uri.clone(),
            headers,
            query,
            body: encoded,
        }
    }

    /// Renders this definition against the compute payload: the endpoint's
    /// placeholders are substituted, everything else is kept as stored.
    pub fn rendered(self, payload: &Json) -> (r: Result<Definition, RenderError>)
        ensures
            match r {
                Ok(d) => rendered_v(self@, payload@) == Some(d@),
                Err(_) => rendered_v(self@, payload@) is None,
            },
    {
        let uri = match render_str(self.refresh_uri.as_str(), payload) {
            Ok(u) => u,
            Err(e) => {
                return Err(e);
            },
        };
        let d = Definition {
            id: self.id,
            refresh_uri: uri,
            content: self.content,
            computation: self.computation,
            response: self.response,
            is_full_template_enabled: self.is_full_template_enabled,
        };
        proof {
            assert(d@ =~= rendered_v(self@, payload@)->Some_0);
        }
        Ok(d)
    }
}

/// Extracts the named part of the computation result.
fn part(computation: Option<&Json>, key: String) -> (r: Result<Option<Json>, BuildError>)
    ensures
        match r {
            Ok(p) => part_v(opt_json_v(computation), key@) == Some(opt_owned_json_v(p)),
            Err(_) => part_v(opt_json_v(computation), key@) is None,
        },
{
    match computation {
        None => Ok(None),
        Some(c) => match c.get(&key) {
            None => Ok(None),
            Some(v) => match v {
                Json::Obj(_) => Ok(Some(v.deep_copy())),
                _ => Err(BuildError),
            },
        },
    }
}

} // verus!
