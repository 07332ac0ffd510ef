//! Classification of what one HTTP exchange produced.
use vstd::prelude::*;
use crate::error::{AnthropicError, ErrorResponse};
use crate::trusted::{lossy_text, utf8_lossy};

verus! {

/// The status with which the API reports rate limiting.
pub const RATE_LIMITED: u16 = 429;

pub open spec fn success_status(status: u16) -> bool {
    200 <= status && status < 300
}

/// Whether `status` is a success status (2xx): its body is the expected
/// record, any other status carries an error.
pub fn is_success(status: u16) -> (r: bool)
    ensures
        r == success_status(status),
{
    200 <= status && status < 300
}

/// The failure that a non-success response stands for: the API's own error
/// when the body is its error envelope (`envelope`, decoded from `bytes`),
/// otherwise the status with the body read as text. Total: malformed bytes
/// are read lossily.
pub fn parse_error(status: u16, bytes: &[u8], envelope: Option<ErrorResponse>) -> (r: AnthropicError)
    ensures
        envelope is Some ==> r == AnthropicError::Api(envelope->Some_0.error),
        envelope is None ==> r is UnexpectedResponse && r->UnexpectedResponse_status == status
            && r->UnexpectedResponse_body@ == lossy_text(bytes@),
{
    match envelope {
        Some(e) => AnthropicError::Api(e.error),
        None => AnthropicError::UnexpectedResponse { status, body: utf8_lossy(bytes) },
    }
}

/// What one physical attempt of a buffered call produced.
pub enum Exchange<T> {
    /// The request could not be sent or its body could not be read.
    Transport(reqwest::Error),
    /// A success status, with the body decoded into the expected record or
    /// the decoder's error.
    Success(Result<T, serde_json::Error>),
    /// Any other status, with the failure it was classified as.
    Failure { status: u16, error: AnthropicError },
}

impl<T> Exchange<T> {
    /// A non-success response: `status`, its raw body, and that body decoded
    /// as the error envelope when it is one.
    pub fn failure(status: u16, bytes: &[u8], envelope: Option<ErrorResponse>) -> (r: Self)
        ensures
            r is Failure,
            r->Failure_status == status,
            envelope is Some ==> r->Failure_error == AnthropicError::Api(envelope->Some_0.error),
            envelope is None ==> r->Failure_error is UnexpectedResponse
                && r->Failure_error->UnexpectedResponse_status == status
                && r->Failure_error->UnexpectedResponse_body@ == lossy_text(bytes@),
    {
        Exchange::Failure { status, error: parse_error(status, bytes, envelope) }
    }
}

/// Whether the exchange is worth repeating: the API reported rate limiting.
pub open spec fn rate_limited<T>(x: Exchange<T>) -> bool {
    x is Failure && x->Failure_status == RATE_LIMITED
}

/// What the caller learns from a single exchange.
pub open spec fn outcome<T>(x: Exchange<T>) -> Result<T, AnthropicError> {
    match x {
        Exchange::Transport(e) => Err(AnthropicError::Http(e)),
        Exchange::Success(Ok(v)) => Ok(v),
        Exchange::Success(Err(e)) => Err(AnthropicError::Deserialize(e)),
        Exchange::Failure { status, error } => Err(error),
    }
}

/// Whether `x` was rate limited.
pub fn is_rate_limited<T>(x: &Exchange<T>) -> (r: bool)
    ensures
        r == rate_limited(*x),
{
    match x {
        Exchange::Failure { status, .. } => *status == RATE_LIMITED,
        _ => false,
    }
}

/// The result of a single exchange: the decoded record, or its failure.
pub fn process_response<T>(x: Exchange<T>) -> (r: Result<T, AnthropicError>)
    ensures
        r == outcome(x),
{
    match x {
        Exchange::Transport(e) => Err(AnthropicError::Http(e)),
        Exchange::Success(Ok(v)) => Ok(v),
        Exchange::Success(Err(e)) => Err(AnthropicError::Deserialize(e)),
        Exchange::Failure { status, error } => Err(error),
    }
}

} // verus!
