//! Classification of the platform's response envelope.
//!
//! Every API response decodes into a generic envelope `{ code, msg, data }`:
//! code 0 is success and `data` may carry the typed payload; any other code is
//! a well-formed business rejection. Turning an envelope into a typed result
//! is pure logic and is verified here; decoding the body bytes into the
//! envelope is the embedding application's concern.

use vstd::prelude::*;

verus! {

/// The envelope status code that signals success.
pub const SUCCESS_CODE: i64 = 0;

/// The HTTP status code by which the server rejects a credential.
pub const HTTP_UNAUTHORIZED: u16 = 401;

/// The error taxonomy of the transport layer.
pub enum TransportError {
    /// The exchange failed below HTTP — connection, timeout, malformed
    /// response. Never retried by this layer.
    Network { message: String },
    /// The credential-issuing call itself failed.
    AuthUnobtainable { message: String },
    /// The server rejected the attached credential, still after the one
    /// refresh-and-retry this layer allows.
    AuthRejected { code: i64, message: String },
    /// A well-formed rejection from the platform: the envelope's own code and
    /// message, surfaced unmodified and never retried.
    Business { code: i64, message: String },
    /// A success envelope whose payload did not match the declared shape: a
    /// contract bug, reported distinctly from a business rejection.
    Decode { message: String },
}

impl TransportError {
    /// A short label for the error variant, for display by the caller.
    pub fn label(&self) -> (r: &'static str)
        ensures
            self is Network ==> r@ == "network error"@,
            self is AuthUnobtainable ==> r@ == "credential unobtainable"@,
            self is AuthRejected ==> r@ == "credential rejected"@,
            self is Business ==> r@ == "business error"@,
            self is Decode ==> r@ == "decode error"@,
    {
        match self {
            TransportError::Network { .. } => "network error",
            TransportError::AuthUnobtainable { .. } => "credential unobtainable",
            TransportError::AuthRejected { .. } => "credential rejected",
            TransportError::Business { .. } => "business error",
            TransportError::Decode { .. } => "decode error",
        }
    }
}

/// The envelope codes by which the platform reports that the attached access
/// token is invalid or expired; they trigger the invalidate-and-retry path.
pub open spec fn is_auth_rejection_code(code: int) -> bool {
    code == 99991661 || code == 99991663 || code == 99991664 || code == 99991665
}

/// Whether a response rejects the credential: an unauthorized HTTP status, or
/// a token-invalid envelope code.
pub open spec fn spec_auth_rejected(http_status: u16, code: int) -> bool {
    http_status == HTTP_UNAUTHORIZED || is_auth_rejection_code(code)
}

/// Decides whether a response rejects the attached credential.
pub fn is_auth_rejected(http_status: u16, code: i64) -> (r: bool)
    ensures
        r == spec_auth_rejected(http_status, code as int),
{
    http_status == 401 || code == 99991661 || code == 99991663 || code == 99991664
        || code == 99991665
}

/// Classifies a decoded envelope into the typed result.
///
/// Status code 0 with a payload of the declared shape yields the payload;
/// status code 0 without one is a decode error; a non-zero status code is a
/// business error carrying the original code and message unmodified.
pub fn classify_envelope<P>(code: i64, msg: String, payload: Option<P>) -> (r: Result<
    P,
    TransportError,
>)
    ensures
        code == SUCCESS_CODE && payload is Some ==> r is Ok && r->Ok_0 == payload->0,
        code == SUCCESS_CODE && payload is None ==> r matches Err(TransportError::Decode { .. }),
        code != SUCCESS_CODE ==> (r matches Err(TransportError::Business {
            code: c,
            message: m,
        }) && c == code && m == msg),
{
    if code == 0 {
        match payload {
            Option::Some(p) => Result::Ok(p),
            Option::None => Result::Err(
                TransportError::Decode { message: String::new() },
            ),
        }
    } else {
        Result::Err(TransportError::Business { code, message: msg })
    }
}

} // verus!
