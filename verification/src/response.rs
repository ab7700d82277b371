//! The gateway's error taxonomy and the interpretation of server responses.
//! Nothing is retried or recovered here: every failure becomes an error
//! value for the caller, and status codes mean nothing beyond success or
//! failure.

use vstd::prelude::*;
use vstd::string::StringExecFns;

use crate::json::dec_digits;
use crate::json::write_u64;
use crate::value::JsonValue;

verus! {

/// Everything a gateway operation can fail with.
#[derive(Debug, PartialEq, Eq)]
pub enum GatewayError {
    /// The host credential facility could not be opened, read or written.
    CredentialBackend(String),
    /// No token was ever saved under the gateway's identity.
    CredentialNotFound,
    /// The request never produced a response (connection refused, DNS
    /// failure, timeout).
    Transport(String),
    /// The server answered with a non-success status. The decoded body
    /// rides along when it was valid structured data; `None` says it was
    /// not decodable.
    Server { status: u16, body: Option<JsonValue> },
    /// A success response's body was not parseable as a structured value.
    Decode,
}

/// A status is a success exactly when it lies in the 2xx range.
pub open spec fn is_success(status: u16) -> bool {
    200 <= status < 300
}

/// Decides a read, list or policy call from its status and decoded body
/// (`None` when the body was not decodable): the body passes through
/// unmodified on success, rides along inside the error on failure.
pub fn interpret_value_response(status: u16, body: Option<JsonValue>) -> (r: Result<
    JsonValue,
    GatewayError,
>)
    ensures
        is_success(status) ==> (match body {
            Some(v) => r == Ok::<JsonValue, GatewayError>(v),
            None => r == Err::<JsonValue, GatewayError>(GatewayError::Decode),
        }),
        !is_success(status) ==> r == Err::<JsonValue, GatewayError>(
            GatewayError::Server { status, body },
        ),
{
    if 200 <= status && status < 300 {
        match body {
            Some(v) => Ok(v),
            None => Err(GatewayError::Decode),
        }
    } else {
        Err(GatewayError::Server { status, body })
    }
}

/// Decides a write call: the response body is discarded, so success is
/// nothing but a success status, and a failure carries no body.
pub fn interpret_write_response(status: u16) -> (r: Result<(), GatewayError>)
    ensures
        is_success(status) ==> r == Ok::<(), GatewayError>(()),
        !is_success(status) ==> r == Err::<(), GatewayError>(
            GatewayError::Server { status, body: None },
        ),
{
    if 200 <= status && status < 300 {
        Ok(())
    } else {
        Err(GatewayError::Server { status, body: None })
    }
}

/// The human-readable rendering of an error, for the outermost boundary.
pub open spec fn message_spec(e: GatewayError) -> Seq<char> {
    match e {
        GatewayError::CredentialBackend(m) => "credential store error: "@ + m@,
        GatewayError::CredentialNotFound => "no token has been saved"@,
        GatewayError::Transport(m) => "transport error: "@ + m@,
        GatewayError::Server { status, body: _ } => "server returned status "@ + dec_digits(
            status as nat,
        ),
        GatewayError::Decode => "response body was not valid structured data"@,
    }
}

impl GatewayError {
    /// Renders the error as a message string; the taxonomy stays available
    /// to callers that branch on the variant instead.
    pub fn message(&self) -> (r: String)
        ensures
            r@ == message_spec(*self),
    {
        match self {
            GatewayError::CredentialBackend(m) => {
                let mut out = String::from_str("credential store error: ");
                out.append(m.as_str());
                out
            },
            GatewayError::CredentialNotFound => String::from_str("no token has been saved"),
            GatewayError::Transport(m) => {
                let mut out = String::from_str("transport error: ");
                out.append(m.as_str());
                out
            },
            GatewayError::Server { status, body: _ } => {
                let mut out = String::from_str("server returned status ");
                write_u64(*status as u64, &mut out);
                out
            },
            GatewayError::Decode => String::from_str("response body was not valid structured data"),
        }
    }
}

} // verus!
