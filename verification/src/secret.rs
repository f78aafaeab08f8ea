//! The credential model: the stored OAuth token material for one connection,
//! its serialization into the compute payload, and the reconciliation of a
//! decoded provider response with the prior credential.

use crate::json::{fields_v, get_spec, json_v, Json, JsonV};
use vstd::prelude::*;
use vstd::string::StringExecFns;

verus! {

/// The stored OAuth credential for a connection.
#[derive(Debug, PartialEq, Eq)]
pub struct Secret {
    pub access_token: String,
    pub refresh_token: Option<String>,
    pub expires_in: i32,
    pub client_id: String,
    pub client_secret: String,
    /// Copy of the most recent raw provider response.
    pub raw_response: Json,
}

/// Mathematical model of a `Secret`.
#[verifier::ext_equal]
pub struct SecretV {
    pub access_token: Seq<char>,
    pub refresh_token: Option<Seq<char>>,
    pub expires_in: int,
    pub client_id: Seq<char>,
    pub client_secret: Seq<char>,
    pub raw_response: JsonV,
}

/// Model of an optional string.
pub open spec fn opt_str_v(o: Option<String>) -> Option<Seq<char>> {
    match o {
        Some(s) => Some(s@),
        None => None,
    }
}

impl View for Secret {
    type V = SecretV;

    open spec fn view(&self) -> SecretV {
        SecretV {
            access_token: self.access_token@,
            refresh_token: opt_str_v(self.refresh_token),
            expires_in: self.expires_in as int,
            client_id: self.client_id@,
            client_secret: self.client_secret@,
            raw_response: json_v(self.raw_response),
        }
    }
}

/// The canonical decoded provider response: what the response-decoding
/// computation must yield.
#[derive(Debug, PartialEq, Eq)]
pub struct OAuthResponse {
    pub access_token: String,
    pub refresh_token: Option<String>,
    pub expires_in: i32,
}

/// Mathematical model of an `OAuthResponse`.
#[verifier::ext_equal]
pub struct OAuthResponseV {
    pub access_token: Seq<char>,
    pub refresh_token: Option<Seq<char>>,
    pub expires_in: int,
}

impl View for OAuthResponse {
    type V = OAuthResponseV;

    open spec fn view(&self) -> OAuthResponseV {
        OAuthResponseV {
            access_token: self.access_token@,
            refresh_token: opt_str_v(self.refresh_token),
            expires_in: self.expires_in as int,
        }
    }
}

/// The compute payload: the serialized form of a secret, used as the
/// evaluation context for templates and computations.
pub open spec fn payload_v(s: SecretV) -> JsonV {
    JsonV::Obj(
        seq![
            ("access_token"@, JsonV::Str(s.access_token)),
            (
                "refresh_token"@,
                match s.refresh_token {
                    Some(t) => JsonV::Str(t),
                    None => JsonV::Null,
                },
            ),
            ("expires_in"@, JsonV::Int(s.expires_in)),
            ("client_id"@, JsonV::Str(s.client_id)),
            ("client_secret"@, JsonV::Str(s.client_secret)),
            ("raw_response"@, s.raw_response),
        ],
    )
}

/// The canonical shape a decoded response must have: a string
/// `access_token`, an integer `expires_in` that fits the stored width, and
/// an optional string `refresh_token` (a missing or non-string refresh token
/// counts as absent, so the prior one is preserved).
pub open spec fn decode_v(j: JsonV) -> Option<OAuthResponseV> {
    match get_spec(j, "access_token"@) {
        Some(JsonV::Str(a)) => match get_spec(j, "expires_in"@) {
            Some(JsonV::Int(n)) => if i32::MIN <= n <= i32::MAX {
                Some(
                    OAuthResponseV {
                        access_token: a,
                        refresh_token: match get_spec(j, "refresh_token"@) {
                            Some(JsonV::Str(t)) => Some(t),
                            _ => None,
                        },
                        expires_in: n,
                    },
                )
            } else {
                None
            },
            _ => None,
        },
        _ => None,
    }
}

/// The secret committed after a refresh: the decoded fields overlaid on the
/// prior secret, the prior refresh token preserved when the response omits
/// one, and the raw response stored for provenance.
pub open spec fn refreshed_v(prior: SecretV, resp: OAuthResponseV, raw: JsonV) -> SecretV {
    SecretV {
        access_token: resp.access_token,
        refresh_token: match resp.refresh_token {
            Some(t) => Some(t),
            None => prior.refresh_token,
        },
        expires_in: resp.expires_in,
        client_id: prior.client_id,
        client_secret: prior.client_secret,
        raw_response: raw,
    }
}

/// The decoding context: the raw response's own fields, extended with the
/// prior secret under `metadata` so the decoding computation can fall back
/// to prior token material.  A non-object raw response yields `Null`.
pub open spec fn merged_v(raw: JsonV, prior: SecretV) -> JsonV {
    match raw {
        JsonV::Obj(fields) => JsonV::Obj(fields.push(("metadata"@, payload_v(prior)))),
        _ => JsonV::Null,
    }
}

impl Secret {
    /// Serializes this secret into the compute payload.
    pub fn to_payload(&self) -> (r: Json)
        ensures
            r@ == payload_v(self@),
    {
        let mut fields: Vec<(String, Json)> = Vec::new();
        fields.push((String::from_str("access_token"), Json::Str(self.access_token.clone())));
        let rt = match &self.refresh_token {
            Some(t) => Json::Str(t.clone()),
            None => Json::Null,
        };
        fields.push((String::from_str("refresh_token"), rt));
        fields.push((String::from_str("expires_in"), Json::Int(self.expires_in as i64)));
        fields.push((String::from_str("client_id"), Json::Str(self.client_id.clone())));
        fields.push((String::from_str("client_secret"), Json::Str(self.client_secret.clone())));
        fields.push((String::from_str("raw_response"), self.raw_response.deep_copy()));
        let r = Json::Obj(fields);
        proof {
            assert(fields_v(fields@).len() == 6);
            assert(fields_v(fields@)[0] == ("access_token"@, JsonV::Str(self.access_token@)));
            assert(fields_v(fields@)[1] == (
                "refresh_token"@,
                match opt_str_v(self.refresh_token) {
                    Some(t) => JsonV::Str(t),
                    None => JsonV::Null,
                },
            ));
            assert(fields_v(fields@)[2] == ("expires_in"@, JsonV::Int(self.expires_in as int)));
            assert(fields_v(fields@)[3] == ("client_id"@, JsonV::Str(self.client_id@)));
            assert(fields_v(fields@)[4] == ("client_secret"@, JsonV::Str(self.client_secret@)));
            assert(fields_v(fields@)[5] == ("raw_response"@, json_v(self.raw_response)));
            let s1 = fields_v(fields@);
            let s2 = payload_v(self@)->Obj_0;
            assert forall|k: int| 0 <= k < s1.len() implies s1[k] == s2[k] by {
                if k == 0 {
                } else if k == 1 {
                } else if k == 2 {
                } else if k == 3 {
                } else if k == 4 {
                } else {
                    assert(k == 5);
                }
            }
            assert(s1 =~= s2);
            assert(r@ =~= payload_v(self@));
        }
        r
    }

    /// Decodes the canonical response fields out of a JSON value.
    pub fn decode_response(j: &Json) -> (r: Option<OAuthResponse>)
        ensures
            match r {
                Some(resp) => decode_v(j@) == Some(resp@),
                None => decode_v(j@) is None,
            },
    {
        let access_token = match j.get(&String::from_str("access_token")) {
            Some(Json::Str(a)) => a.clone(),
            _ => {
                return None;
            },
        };
        let expires_in = match j.get(&String::from_str("expires_in")) {
            Some(Json::Int(n)) => {
                if *n >= i32::MIN as i64 && *n <= i32::MAX as i64 {
                    *n as i32
                } else {
                    return None;
                }
            },
            _ => {
                return None;
            },
        };
        let refresh_token = match j.get(&String::from_str("refresh_token")) {
            Some(Json::Str(t)) => Some(t.clone()),
            _ => None,
        };
        Some(OAuthResponse { access_token, refresh_token, expires_in })
    }

    /// Builds the secret to commit after a refresh.  When the decoded
    /// response carries no refresh token, the prior one is preserved.
    pub fn from_refresh(&self, decoded: OAuthResponse, raw: Json) -> (r: Secret)
        ensures
            r@ == refreshed_v(self@, decoded@, raw@),
    {
        let refresh_token = match decoded.refresh_token {
            Some(t) => Some(t),
            None => match &self.refresh_token {
                Some(t) => Some(t.clone()),
                None => None,
            },
        };
        let r = Secret {
            access_token: decoded.access_token,
            refresh_token,
            expires_in: decoded.expires_in,
            client_id: self.client_id.clone(),
            client_secret: self.client_secret.clone(),
            raw_response: raw,
        };
        proof {
            assert(r@ =~= refreshed_v(self@, decoded@, raw@));
        }
        r
    }

    /// Builds the decoding context out of the raw response and this secret.
    pub fn merged_payload(&self, raw: &Json) -> (r: Json)
        ensures
            r@ == merged_v(raw@, self@),
    {
        match raw {
            Json::Obj(fields) => {
                let copied = raw.deep_copy();
                match copied {
                    Json::Obj(mut out) => {
                        let ghost before = out@;
                        out.push((String::from_str("metadata"), self.to_payload()));
                        let r = Json::Obj(out);
                        proof {
                            let target = fields_v(fields@).push(("metadata"@, payload_v(self@)));
                            assert forall|k: int|
                                0 <= k < out@.len() implies fields_v(out@)[k] == target[k] by {
                                if k < out@.len() - 1 {
                                    assert(out@[k] == before[k]);
                                    assert(fields_v(before)[k] == (before[k].0@, json_v(
                                        before[k].1,
                                    )));
                                }
                            }
                            assert(fields_v(out@) =~= target);
                            assert(r@ =~= merged_v(raw@, self@));
                        }
                        r
                    },
                    _ => {
                        proof {
                            assert(false);
                        }
                        Json::Null
                    },
                }
            },
            _ => Json::Null,
        }
    }
}

} // verus!
