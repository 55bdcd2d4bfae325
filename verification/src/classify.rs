//! The error classifier: what a JSON-RPC reply says about the call.
//!
//! A reply without an `error` member is a success.  The server reports a
//! missing client or group with its internal-error code, `-32603`; any other
//! code is surfaced verbatim.  Orchestrators stop at the first reply that
//! does not classify as success.

use vstd::prelude::*;
use vstd::string::StringExecFns;
use crate::json::{Json, spec_get, spec_get_i64, spec_get_str};
use crate::error::{CtlError, CtlErrorV};

verus! {

/// The code the server uses for an internal error, among them a client or
/// group that does not exist.
pub const INTERNAL_ERROR_CODE: i64 = -32603;

/// What a reply says about the call it answers.
#[derive(Debug, PartialEq, Eq)]
pub enum Classification {
    /// No `error` member: the call took effect.
    Success,
    /// The internal-error code: the addressed entity does not exist.  The
    /// detail is the server's message, when it sent one.
    EntityNotFound { detail: Option<String> },
    /// Any other reported error, code and message kept as received.
    UnknownRpc { code: Option<i64>, detail: Option<String> },
}

/// The mathematical image of a classification.
pub enum ClassificationV {
    Success,
    EntityNotFound { detail: Option<Seq<char>> },
    UnknownRpc { code: Option<i64>, detail: Option<Seq<char>> },
}

impl View for Classification {
    type V = ClassificationV;

    open spec fn view(&self) -> ClassificationV {
        match self {
            Classification::Success => ClassificationV::Success,
            Classification::EntityNotFound { detail } => ClassificationV::EntityNotFound {
                detail: match detail {
                    Some(d) => Some(d@),
                    None => None,
                },
            },
            Classification::UnknownRpc { code, detail } => ClassificationV::UnknownRpc {
                code: *code,
                detail: match detail {
                    Some(d) => Some(d@),
                    None => None,
                },
            },
        }
    }
}

/// The classification of a reply document.
pub open spec fn spec_classify(resp: Json) -> ClassificationV {
    match spec_get(resp, "error"@) {
        None => ClassificationV::Success,
        Some(e) => {
            let code = spec_get_i64(e, "code"@);
            let detail = spec_get_str(e, "message"@);
            if code == Some(INTERNAL_ERROR_CODE) {
                ClassificationV::EntityNotFound { detail }
            } else {
                ClassificationV::UnknownRpc { code, detail }
            }
        },
    }
}

/// Classifies a reply document.
pub fn classify_response(resp: &Json) -> (c: Classification)
    ensures
        c@ == spec_classify(*resp),
{
    match resp.get("error") {
        None => Classification::Success,
        Some(e) => {
            let code = e.get_i64("code");
            let detail = match e.get_str("message") {
                Some(m) => Some(m.to_owned()),
                None => None,
            };
            if code == Some(INTERNAL_ERROR_CODE) {
                Classification::EntityNotFound { detail }
            } else {
                Classification::UnknownRpc { code, detail }
            }
        },
    }
}

/// The failure an orchestrator stops with when a reply does not classify as
/// success: a missing entity keeps the step's context and the server's
/// detail, any other error keeps its code and message verbatim.
pub open spec fn spec_fail_of(cls: ClassificationV, prefix: Seq<char>, fallback: Seq<char>) -> CtlErrorV {
    match cls {
        ClassificationV::EntityNotFound { detail } => CtlErrorV::EntityNotFound {
            message: match detail {
                Some(m) => prefix + ": "@ + m,
                None => fallback,
            },
        },
        ClassificationV::UnknownRpc { code, detail } => CtlErrorV::UnknownRpc {
            code,
            message: match detail {
                Some(m) => m,
                None => ""@,
            },
        },
        ClassificationV::Success => CtlErrorV::Protocol { message: ""@ },
    }
}

/// Builds the failure an orchestrator stops with, from a classification
/// that is not success.
pub fn fail_of(cls: Classification, prefix: &str, fallback: &str) -> (e: CtlError)
    ensures
        e@ == spec_fail_of(cls@, prefix@, fallback@),
{
    match cls {
        Classification::EntityNotFound { detail } => {
            let message = match detail {
                Some(m) => {
                    let mut s = prefix.to_owned();
                    s.append(": ");
                    s.append(m.as_str());
                    s
                },
                None => fallback.to_owned(),
            };
            CtlError::EntityNotFound { message }
        },
        Classification::UnknownRpc { code, detail } => {
            let message = match detail {
                Some(m) => m,
                None => "".to_owned(),
            };
            CtlError::UnknownRpc { code, message }
        },
        Classification::Success => CtlError::Protocol { message: "".to_owned() },
    }
}

} // verus!
