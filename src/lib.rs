//! A client for the Anthropic Messages API: request records, the error
//! classifier, the retry schedule of a buffered call and the translation of an
//! event stream into typed events. Sending and receiving is left to the
//! caller, which hands each exchange and each frame to this library and
//! follows the steps it returns.
use vstd::prelude::*;

pub mod client;
pub mod error;
pub mod response;
pub mod retry;
pub mod stream;
pub mod trusted;
pub mod types;

pub use client::{Client, ClientBuilder};
pub use error::{AnthropicError, ApiError};

verus! {

} // verus!
