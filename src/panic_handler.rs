//! The response given when request processing ends abnormally.

use crate::responses::{internal_server_error, ErrorResponse, InternalServerError};
use vstd::prelude::*;

verus! {

/// Custom panic handler: a request whose processing panicked is answered with
/// a fixed internal server error instead.
#[derive(Debug, Clone, Copy, PartialEq, Eq)]
pub struct PanicHandler;

impl PanicHandler {
    /// The response to a request whose processing panicked.
    pub fn get_response(&self) -> (r: ErrorResponse)
        ensures
            r == ErrorResponse::InternalServerError(InternalServerError),
    {
        internal_server_error()
    }
}

} // verus!
