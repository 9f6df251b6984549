//! What the library reads of an HTTP exchange.
use vstd::prelude::*;

verus! {

/// What a failed HTTP exchange reports: whether the connection could not
/// be made, whether it timed out, and the error's text.
pub struct TransportError {
    pub is_connect: bool,
    pub is_timeout: bool,
    pub message: String,
}

/// The status of an HTTP answer: its code and its text ("404 Not Found").
pub struct HttpStatus {
    pub code: u16,
    pub text: String,
}

pub open spec fn is_success(code: u16) -> bool {
    200 <= code <= 299
}

} // verus!
