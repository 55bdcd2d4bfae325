//! The error taxonomy of the client: transport failures, malformed replies,
//! entities the server does not know, and server errors with an
//! unrecognized code.

use vstd::prelude::*;
use vstd::string::StringExecFns;
use crate::numfmt::{spec_dec_int, i64_to_string};

verus! {

/// A failure surfaced to the invocation boundary.  No retry and no recovery
/// is attempted anywhere in the library.
#[derive(Debug, PartialEq, Eq)]
pub enum CtlError {
    /// The connection, the send or the receive failed, or the reply was not
    /// a well-formed message.  Raised only by the transport outside the
    /// library.
    Transport { message: String },
    /// The reply parsed but lacks what the protocol owes, such as the
    /// `result.server` subtree of a status reply.
    Protocol { message: String },
    /// The server reported its internal-error code for a client or group
    /// that does not exist.
    EntityNotFound { message: String },
    /// The server reported an error with any other code; code and message
    /// are kept verbatim.
    UnknownRpc { code: Option<i64>, message: String },
}

/// The mathematical image of an error value.
pub enum CtlErrorV {
    Transport { message: Seq<char> },
    Protocol { message: Seq<char> },
    EntityNotFound { message: Seq<char> },
    UnknownRpc { code: Option<i64>, message: Seq<char> },
}

impl View for CtlError {
    type V = CtlErrorV;

    open spec fn view(&self) -> CtlErrorV {
        match self {
            CtlError::Transport { message } => CtlErrorV::Transport { message: message@ },
            CtlError::Protocol { message } => CtlErrorV::Protocol { message: message@ },
            CtlError::EntityNotFound { message } => CtlErrorV::EntityNotFound {
                message: message@,
            },
            CtlError::UnknownRpc { code, message } => CtlErrorV::UnknownRpc {
                code: *code,
                message: message@,
            },
        }
    }
}

/// The human-readable rendering of an error.
pub open spec fn spec_error_message(e: CtlErrorV) -> Seq<char> {
    match e {
        CtlErrorV::Transport { message } => message,
        CtlErrorV::Protocol { message } => message,
        CtlErrorV::EntityNotFound { message } => message,
        CtlErrorV::UnknownRpc { code, message } => (match code {
            Some(c) => "RPC error "@ + spec_dec_int(c as int) + ": "@,
            None => "RPC error: "@,
        }) + message,
    }
}

impl CtlError {
    /// Renders the error as one line of text.
    pub fn message(&self) -> (r: String)
        ensures
            r@ == spec_error_message(self@),
    {
        match self {
            CtlError::Transport { message } => message.clone(),
            CtlError::Protocol { message } => message.clone(),
            CtlError::EntityNotFound { message } => message.clone(),
            CtlError::UnknownRpc { code, message } => {
                let mut s = match code {
                    Some(c) => {
                        let mut s = "RPC error ".to_owned();
                        s.append(i64_to_string(*c).as_str());
                        s.append(": ");
                        s
                    },
                    None => "RPC error: ".to_owned(),
                };
                s.append(message.as_str());
                s
            },
        }
    }
}

} // verus!
