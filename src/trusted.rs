//! Declarations of the outside types that the library carries, and the few
//! outside calls that its verified logic makes.
use vstd::prelude::*;
use backoff::backoff::Backoff;
use std::time::Duration;
use reqwest::Client as HttpClient;
use crate::retry::{MAX_ELAPSED_LIMIT_MS, MAX_INTERVAL_LIMIT_MS};

verus! {

/// A transport failure reported by reqwest; carried, never inspected.
#[verifier::external_type_specification]
#[verifier::external_body]
pub struct ExReqwestError(reqwest::Error);

/// The pooled HTTP client of reqwest; carried, never inspected.
#[verifier::external_type_specification]
#[verifier::external_body]
pub struct ExHttpClient(HttpClient);

/// reqwest's error for a header value that cannot be sent.
#[verifier::external_type_specification]
#[verifier::external_body]
pub struct ExInvalidHeaderValue(reqwest::header::InvalidHeaderValue);

/// A failure of an event-source connection.
#[verifier::external_type_specification]
#[verifier::external_body]
pub struct ExStreamError(reqwest_eventsource::Error);

/// The event-source request could not be cloned for a reconnect.
#[verifier::external_type_specification]
#[verifier::external_body]
pub struct ExCannotClone(reqwest_eventsource::CannotCloneRequestError);

/// A JSON decoding failure reported by serde_json.
#[verifier::external_type_specification]
#[verifier::external_body]
pub struct ExJsonError(serde_json::Error);

/// An arbitrary JSON document (tool inputs, schemas, error details).
#[verifier::external_type_specification]
#[verifier::external_body]
pub struct ExJsonValue(serde_json::Value);

/// A JSON number (sampling parameters are carried in this form).
#[verifier::external_type_specification]
#[verifier::external_body]
pub struct ExJsonNumber(serde_json::Number);

/// Relies on `Clone` of serde_json's `Value`: a deep copy of the document.
pub assume_specification[ <serde_json::Value as Clone>::clone ](v: &serde_json::Value) -> serde_json::Value;

/// Relies on `Clone` of serde_json's `Number`.
pub assume_specification[ <serde_json::Number as Clone>::clone ](n: &serde_json::Number) -> serde_json::Number;

/// The clock that the backoff schedule reads.
#[verifier::external_type_specification]
#[verifier::external_body]
pub struct ExSystemClock(backoff::SystemClock);

/// The exponential backoff schedule of the backoff crate.
#[verifier::external_type_specification]
#[verifier::external_body]
#[verifier::reject_recursive_types(C)]
pub struct ExExponentialBackoff<C>(backoff::exponential::ExponentialBackoff<C>);

/// The text that `String::from_utf8_lossy` makes of a byte sequence: each
/// invalid sequence becomes U+FFFD, the rest is decoded as UTF-8.
pub uninterp spec fn lossy_text(b: Seq<u8>) -> Seq<char>;

/// Relies on `String::from_utf8_lossy`: the text depends on the bytes alone,
/// and no bytes give no text.
#[verifier::external_body]
pub(crate) fn utf8_lossy(b: &[u8]) -> (r: String)
    ensures
        r@ == lossy_text(b@),
        b@.len() == 0 ==> r@.len() == 0,
{
    String::from_utf8_lossy(b).to_string()
}

/// Relies on the backoff crate's `ExponentialBackoffBuilder` (`new`, the
/// three interval setters, `build`): a schedule that starts at `initial_ms`,
/// grows by the crate's default multiplier (1.5) with its default
/// randomization (0.5) up to `max_interval_ms`, offers no delay once
/// `max_elapsed_ms` have passed, and starts counting now. The bounds keep
/// every later `next_backoff` on it clear of `Duration` overflow.
#[verifier::external_body]
pub(crate) fn schedule_from(
    initial_ms: u64,
    max_interval_ms: u64,
    max_elapsed_ms: u64,
) -> (r: backoff::exponential::ExponentialBackoff<backoff::SystemClock>)
    requires
        initial_ms <= max_interval_ms,
        max_interval_ms <= MAX_INTERVAL_LIMIT_MS,
        max_elapsed_ms <= MAX_ELAPSED_LIMIT_MS,
{
    backoff::exponential::ExponentialBackoffBuilder::<backoff::SystemClock>::new()
        .with_initial_interval(Duration::from_millis(initial_ms))
        .with_max_interval(Duration::from_millis(max_interval_ms))
        .with_max_elapsed_time(Some(Duration::from_millis(max_elapsed_ms)))
        .build()
}

/// Relies on `ExponentialBackoff::get_elapsed_time` of the backoff crate and
/// `Duration::as_millis`: the milliseconds since the schedule started. It
/// reads the clock, so nothing is stated.
#[verifier::external_body]
pub(crate) fn elapsed_millis(
    b: &backoff::exponential::ExponentialBackoff<backoff::SystemClock>,
) -> (r: u128) {
    b.get_elapsed_time().as_millis()
}

/// Relies on `Backoff::next_backoff` of the backoff crate: the next randomized
/// delay, or `None` once the schedule's maximum elapsed time is spent. The
/// result depends on the clock and on chance, so nothing more is stated. The
/// library calls it only on schedules made by `schedule_from`, held in a
/// private field, whose bounds keep its arithmetic from overflowing.
#[verifier::external_body]
pub(crate) fn next_backoff(
    b: &mut backoff::exponential::ExponentialBackoff<backoff::SystemClock>,
) -> (r: Option<Duration>) {
    b.next_backoff()
}

/// Relies on `Duration::from_secs`.
#[verifier::external_body]
pub(crate) fn seconds(n: u64) -> (r: Duration) {
    Duration::from_secs(n)
}

/// Relies on reqwest's `ClientBuilder`: a pooled client whose requests time out
/// after `timeout`, or the error that kept it from being built.
#[verifier::external_body]
pub(crate) fn http_client_with_timeout(timeout: Duration) -> (r: Result<HttpClient, reqwest::Error>) {
    HttpClient::builder().timeout(timeout).build()
}

} // verus!
