//! What the proxy serves: the proxy session over WebSocket and the
//! file-operations endpoint.
pub mod files;
pub mod proxy;

use vstd::prelude::*;

verus! {

/// The largest body of a request that is read, in bytes.
pub const BODY_LIMIT: u64 = 2 * 1024 * 1024;

/// Why a request was turned away.
#[derive(Debug, PartialEq)]
pub struct Rejection {
    /// No route matched.
    pub not_found: bool,
    /// The body could not be read as what was expected: `None` where it
    /// could; else the message of the JSON parser, where it was the JSON
    /// parser that failed.
    pub body_error: Option<Option<String>>,
    /// The body was larger than the limit.
    pub payload_too_large: bool,
    /// The route does not take the method.
    pub method_not_allowed: bool,
}

/// The reason that is reported for a rejection.
pub open spec fn reason_of(rejection: Rejection) -> Seq<char> {
    if rejection.not_found {
        "Not Found"@
    } else if rejection.body_error is Some {
        match rejection.body_error->0 {
            Some(message) => message@,
            None => "Bad Request"@,
        }
    } else if rejection.payload_too_large {
        "Payload Too Large"@
    } else if rejection.method_not_allowed {
        "Method Not Allowed"@
    } else {
        "Internal Server Error"@
    }
}

/// The HTTP status that is reported for a rejection.
pub open spec fn status_of(rejection: Rejection) -> u16 {
    if rejection.not_found {
        404
    } else if rejection.body_error is Some {
        400
    } else if rejection.payload_too_large {
        413
    } else if rejection.method_not_allowed {
        405
    } else {
        500
    }
}

/// Convert rejections into the reason and the status of a JSON response.
pub fn recover(err: &Rejection) -> (answer: (String, u16))
    ensures
        answer.0@ == reason_of(*err),
        answer.1 == status_of(*err),
{
    if err.not_found {
        ("Not Found".to_owned(), 404)
    } else if let Some(cause) = &err.body_error {
        match cause {
            Some(message) => (message.clone(), 400),
            None => ("Bad Request".to_owned(), 400),
        }
    } else if err.payload_too_large {
        ("Payload Too Large".to_owned(), 413)
    } else if err.method_not_allowed {
        ("Method Not Allowed".to_owned(), 405)
    } else {
        ("Internal Server Error".to_owned(), 500)
    }
}

} // verus!
