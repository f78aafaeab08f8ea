//! The uniform result envelope for one refresh attempt, and the error
//! taxonomy its failures carry.

use crate::json::{Json, JsonV};
use vstd::prelude::*;

verus! {

/// The class a refresh failure belongs to.
#[derive(Clone, Copy, PartialEq, Eq, Structural, Debug)]
pub enum ErrorKind {
    /// Disabled OAuth, missing definition, or missing secret.
    NotFound,
    /// Payload serialization failed.
    Serialize,
    /// A computation or template evaluation failed.
    Transform,
    /// The response could not be parsed or decoded.
    Decode,
    /// Building or executing the request, or a store write, failed.
    Io,
}

/// A refresh failure: its class and a diagnostic message.
#[derive(Debug, PartialEq, Eq)]
pub struct RefreshError {
    pub kind: ErrorKind,
    pub message: String,
}

/// Mathematical model of a `RefreshError`.
#[verifier::ext_equal]
pub struct RefreshErrorV {
    pub kind: ErrorKind,
    pub message: Seq<char>,
}

impl View for RefreshError {
    type V = RefreshErrorV;

    open spec fn view(&self) -> RefreshErrorV {
        RefreshErrorV { kind: self.kind, message: self.message@ }
    }
}

/// The outcome of one refresh attempt.  The context of a failure always
/// carries the connection identifier.
#[derive(Debug, PartialEq, Eq)]
pub enum Outcome {
    Success { id: String, detail: Json },
    Failure { error: RefreshError, context: Json },
}

/// Mathematical model of an `Outcome`.
#[verifier::ext_equal]
pub enum OutcomeV {
    Success { id: Seq<char>, detail: JsonV },
    Failure { error: RefreshErrorV, context: JsonV },
}

impl View for Outcome {
    type V = OutcomeV;

    open spec fn view(&self) -> OutcomeV {
        match self {
            Outcome::Success { id, detail } => OutcomeV::Success {
                id: id@,
                detail: detail@,
            },
            Outcome::Failure { error, context } => OutcomeV::Failure {
                error: error@,
                context: context@,
            },
        }
    }
}

} // verus!
