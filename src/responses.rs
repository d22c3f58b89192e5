//! Documented responses of endpoints, and the fixed error responses that this
//! library produces.
//!
//! Error bodies are JSON objects of the form `{"error": "<tag>"}`, with a
//! `reason` beside the tag where a request could not be parsed.

pub mod merge_schemas;

use vstd::prelude::*;

verus! {

/// The tag of the body of an "unprocessable content" response.
pub open spec fn unprocessable_content_tag() -> Seq<char> {
    "unprocessable_content"@
}

/// The tag of the body of an "internal server error" response.
pub open spec fn internal_server_error_tag() -> Seq<char> {
    "internal_server_error"@
}

/// Body of the response to a request that could not be parsed.
#[derive(Debug, Clone, PartialEq, Eq)]
pub struct BadRequestError {
    /// Why the request was rejected, in words.
    pub reason: String,
}

impl BadRequestError {
    /// The fixed tag of the body.
    pub fn error(&self) -> (r: &'static str)
        ensures
            r@ == unprocessable_content_tag(),
    {
        "unprocessable_content"
    }
}

/// Body of an internal server error response.
#[derive(Debug, Clone, Copy, PartialEq, Eq)]
pub struct InternalServerError;

impl InternalServerError {
    /// The fixed tag of the body.
    pub fn error(&self) -> (r: &'static str)
        ensures
            r@ == internal_server_error_tag(),
    {
        "internal_server_error"
    }
}

/// The error responses that this library produces.
#[derive(Debug, Clone, PartialEq, Eq)]
pub enum ErrorResponse {
    /// Unprocessable Content
    UnprocessableContent(BadRequestError),
    /// Internal Server Error
    InternalServerError(InternalServerError),
}

impl ErrorResponse {
    /// The HTTP status code of the response.
    pub open spec fn spec_status(&self) -> u16 {
        match self {
            ErrorResponse::UnprocessableContent(_) => 422,
            ErrorResponse::InternalServerError(_) => 500,
        }
    }

    /// The HTTP status code of the response.
    pub fn status(&self) -> (r: u16)
        ensures
            r == self.spec_status(),
    {
        match self {
            ErrorResponse::UnprocessableContent(_) => 422,
            ErrorResponse::InternalServerError(_) => 500,
        }
    }

    /// The documented description of the response.
    pub fn description(&self) -> (r: &'static str)
        ensures
            self is UnprocessableContent ==> r@ == "Unprocessable Content"@,
            self is InternalServerError ==> r@ == "Internal Server Error"@,
    {
        match self {
            ErrorResponse::UnprocessableContent(_) => "Unprocessable Content",
            ErrorResponse::InternalServerError(_) => "Internal Server Error",
        }
    }

    /// The tag in the body of the response.
    pub fn error(&self) -> (r: &'static str)
        ensures
            self is UnprocessableContent ==> r@ == unprocessable_content_tag(),
            self is InternalServerError ==> r@ == internal_server_error_tag(),
    {
        match self {
            ErrorResponse::UnprocessableContent(e) => e.error(),
            ErrorResponse::InternalServerError(e) => e.error(),
        }
    }

    /// The response to a request that the framework could not parse, given
    /// the status code and message of the framework's error: a bad request
    /// (400) becomes "unprocessable content" with the message as its reason;
    /// any other error is passed on as it is (`None`).
    pub fn from_parse_request_error(status: u16, reason: String) -> (r: Option<ErrorResponse>)
        ensures
            status == 400 <==> r is Some,
            status == 400 ==> r == Some(ErrorResponse::UnprocessableContent(BadRequestError { reason })),
    {
        if status == 400 {
            Some(ErrorResponse::UnprocessableContent(BadRequestError { reason }))
        } else {
            None
        }
    }
}

/// Construct an internal server error response.
pub fn internal_server_error() -> (r: ErrorResponse)
    ensures
        r == ErrorResponse::InternalServerError(InternalServerError),
        r.spec_status() == 500,
{
    ErrorResponse::InternalServerError(InternalServerError)
}

} // verus!
