//! The failures that a call can end in.
use vstd::prelude::*;

verus! {

/// Errors returned by the client.
#[derive(Debug)]
pub enum AnthropicError {
    /// The HTTP transport failed (connect, send or read).
    Http(reqwest::Error),
    /// The API answered with its error envelope.
    Api(ApiError),
    /// A body could not be decoded into the expected record.
    Deserialize(serde_json::Error),
    /// The request breaks a client-side rule; it never reached the network.
    InvalidRequest(String),
    /// A required setting was not found in the environment.
    MissingEnvironment(String),
    /// A header value cannot be sent.
    InvalidHeaderValue(reqwest::header::InvalidHeaderValue),
    /// The event stream could not be set up.
    EventSource(Box<reqwest_eventsource::Error>),
    /// The event-stream request could not be cloned.
    EventSourceCannotClone(Box<reqwest_eventsource::CannotCloneRequestError>),
    /// A failure status whose body is not the error envelope.
    UnexpectedResponse { status: u16, body: String },
}

/// The error payload of the API: `{"message", "type", "param"?, "code"?}`.
#[derive(Debug, Clone, PartialEq)]
pub struct ApiError {
    pub message: String,
    pub error_type: String,
    pub param: Option<serde_json::Value>,
    pub code: Option<serde_json::Value>,
}

/// The envelope `{"error": {...}}` in which the API reports a failure.
#[derive(Debug, Clone, PartialEq)]
pub struct ErrorResponse {
    pub error: ApiError,
}

impl ApiError {
    /// `"<type>: <message>"`, the one-line form of the error.
    pub fn describe(&self) -> (r: String)
        ensures
            r@ == self.error_type@ + ": "@ + self.message@,
    {
        let mut r = self.error_type.clone();
        r.append(": ");
        r.append(self.message.as_str());
        r
    }
}

} // verus!
