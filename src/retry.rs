//! The retry schedule of a buffered call: after each exchange, finish the call
//! or wait and send the same request again.
use vstd::prelude::*;
use std::time::Duration;
use backoff::exponential::ExponentialBackoff;
use backoff::SystemClock;
use crate::error::AnthropicError;
use crate::response::{Exchange, is_rate_limited, outcome, process_response, rate_limited};
use crate::trusted::{elapsed_millis, next_backoff, schedule_from};

verus! {

/// The largest interval between two attempts that a policy may ask for (one day).
pub const MAX_INTERVAL_LIMIT_MS: u64 = 86_400_000;
/// The largest time that a policy may spend on one call (one day).
pub const MAX_ELAPSED_LIMIT_MS: u64 = 86_400_000;
/// The retries a call makes at most when no other ceiling is set.
pub const DEFAULT_MAX_RETRIES: u32 = 10;
/// The message of the error for a policy outside the limits.
pub const INVALID_POLICY: &'static str = "backoff intervals out of range";

/// How a rate-limited call backs off: the first delay, the largest delay,
/// and the time after the call's start past which no retry is made. Delays
/// grow by half at each retry, with a random spread of half a delay.
#[derive(Copy, Clone, Debug, PartialEq, Eq, Structural)]
pub struct BackoffPolicy {
    pub initial_interval_ms: u64,
    pub max_interval_ms: u64,
    pub max_elapsed_ms: u64,
}

impl BackoffPolicy {
    /// The intervals are ordered and within the limits.
    pub open spec fn valid(&self) -> bool {
        &&& self.initial_interval_ms <= self.max_interval_ms
        &&& self.max_interval_ms <= MAX_INTERVAL_LIMIT_MS
        &&& self.max_elapsed_ms <= MAX_ELAPSED_LIMIT_MS
    }

    /// A policy with these intervals, or `InvalidRequest` when they are out of
    /// order or over the limits.
    pub fn new(initial_interval_ms: u64, max_interval_ms: u64, max_elapsed_ms: u64) -> (r: Result<Self, AnthropicError>)
        ensures
            r is Ok <==> (BackoffPolicy { initial_interval_ms, max_interval_ms, max_elapsed_ms }).valid(),
            r is Ok ==> r->Ok_0 == (BackoffPolicy { initial_interval_ms, max_interval_ms, max_elapsed_ms }),
            r is Err ==> r->Err_0 is InvalidRequest && r->Err_0->InvalidRequest_0@ == INVALID_POLICY@,
    {
        let p = BackoffPolicy { initial_interval_ms, max_interval_ms, max_elapsed_ms };
        if p.is_valid() {
            Ok(p)
        } else {
            Err(AnthropicError::InvalidRequest(String::from_str(INVALID_POLICY)))
        }
    }

    /// Whether the policy is valid.
    pub fn is_valid(&self) -> (r: bool)
        ensures
            r == self.valid(),
    {
        self.initial_interval_ms <= self.max_interval_ms && self.max_interval_ms <= MAX_INTERVAL_LIMIT_MS
            && self.max_elapsed_ms <= MAX_ELAPSED_LIMIT_MS
    }
}

/// Half a second first, at most a minute between attempts, fifteen minutes in all.
pub open spec fn default_policy() -> BackoffPolicy {
    BackoffPolicy { initial_interval_ms: 500, max_interval_ms: 60_000, max_elapsed_ms: 900_000 }
}

impl Default for BackoffPolicy {
    fn default() -> (r: Self)
        ensures
            r == default_policy(),
    {
        BackoffPolicy { initial_interval_ms: 500, max_interval_ms: 60_000, max_elapsed_ms: 900_000 }
    }
}

/// What to do after an exchange.
pub enum Step<T> {
    /// The logical call is over, with this result.
    Finish(Result<T, AnthropicError>),
    /// Wait this long, then send the same request again.
    Wait(Duration),
}

/// Whether another retry is allowed: fewer than `max_retries` were made and
/// less than `max_elapsed_ms` passed since the call started.
pub open spec fn under_ceiling(retries: int, max_retries: int, elapsed_ms: int, max_elapsed_ms: int) -> bool {
    retries < max_retries && elapsed_ms < max_elapsed_ms
}

/// The step after exchange `x`, when the backoff schedule offers `offer`,
/// `retries` retries were made and `elapsed_ms` passed since the call
/// started: only a rate-limited exchange is repeated, and only while the
/// schedule offers a delay and neither ceiling is reached.
pub open spec fn next_step<T>(
    x: Exchange<T>,
    offer: Option<Duration>,
    retries: int,
    max_retries: int,
    elapsed_ms: int,
    max_elapsed_ms: int,
) -> Step<T> {
    if rate_limited(x) && offer is Some && under_ceiling(retries, max_retries, elapsed_ms, max_elapsed_ms) {
        Step::Wait(offer->Some_0)
    } else {
        Step::Finish(outcome(x))
    }
}

/// The result of a logical call whose exchanges are, in turn, `xs`, while the
/// schedule offers, in turn, `offers`, and the times since the call's start
/// read, in turn, `elapsed`, after `retries` earlier retries; `None` when the
/// exchanges run out before the call ends.
pub open spec fn run<T>(
    xs: Seq<Exchange<T>>,
    offers: Seq<Option<Duration>>,
    elapsed: Seq<int>,
    retries: int,
    max_retries: int,
    max_elapsed_ms: int,
) -> Option<Result<T, AnthropicError>>
    decreases xs.len(),
{
    if xs.len() == 0 {
        None
    } else {
        let offer = if offers.len() > 0 { offers[0] } else { None };
        let e = if elapsed.len() > 0 { elapsed[0] } else { max_elapsed_ms };
        match next_step(xs[0], offer, retries, max_retries, e, max_elapsed_ms) {
            Step::Finish(r) => Some(r),
            Step::Wait(_) => run(xs.drop_first(), offers.drop_first(), elapsed.drop_first(), retries + 1, max_retries, max_elapsed_ms),
        }
    }
}

/// A rate-limited exchange is sent again exactly when the schedule offers a
/// delay and neither ceiling is reached; otherwise the call ends with that
/// exchange's own error.
pub proof fn lemma_rate_limited_step<T>(
    x: Exchange<T>,
    offer: Option<Duration>,
    retries: int,
    max_retries: int,
    elapsed_ms: int,
    max_elapsed_ms: int,
)
    requires
        rate_limited(x),
    ensures
        next_step(x, offer, retries, max_retries, elapsed_ms, max_elapsed_ms) is Wait
            <==> (offer is Some && under_ceiling(retries, max_retries, elapsed_ms, max_elapsed_ms)),
        next_step(x, offer, retries, max_retries, elapsed_ms, max_elapsed_ms) is Finish
            ==> next_step(x, offer, retries, max_retries, elapsed_ms, max_elapsed_ms)
                == Step::<T>::Finish(Err(x->Failure_error)),
{
}

/// Any exchange that was not rate limited ends the call with its own outcome:
/// a success, a decode failure of a success body, a transport failure or a
/// terminal error of the API is never retried.
pub proof fn lemma_terminal_step<T>(
    x: Exchange<T>,
    offer: Option<Duration>,
    retries: int,
    max_retries: int,
    elapsed_ms: int,
    max_elapsed_ms: int,
)
    requires
        !rate_limited(x),
    ensures
        next_step(x, offer, retries, max_retries, elapsed_ms, max_elapsed_ms) == Step::<T>::Finish(outcome(x)),
{
}

/// A success status whose body does not decode ends the call with a decode
/// failure, whatever the schedule, the retries made and the time spent.
pub proof fn lemma_decode_failure_not_retried<T>(
    e: serde_json::Error,
    offer: Option<Duration>,
    retries: int,
    max_retries: int,
    elapsed_ms: int,
    max_elapsed_ms: int,
)
    ensures
        next_step(Exchange::<T>::Success(Err(e)), offer, retries, max_retries, elapsed_ms, max_elapsed_ms)
            == Step::<T>::Finish(Err(AnthropicError::Deserialize(e))),
{
}

/// A call whose exchanges are rate limited, each followed by an offered delay
/// under both ceilings, until one that ends it (a success, another failure, a
/// rate limit with no delay offered, or one at a ceiling) returns that last
/// exchange's outcome: for a rate limit, its own error.
pub proof fn lemma_retried_until_end<T>(
    xs: Seq<Exchange<T>>,
    offers: Seq<Option<Duration>>,
    elapsed: Seq<int>,
    retries: int,
    max_retries: int,
    max_elapsed_ms: int,
)
    requires
        xs.len() > 0,
        offers.len() == xs.len(),
        elapsed.len() == xs.len(),
        forall|j: int| 0 <= j < xs.len() - 1 ==> rate_limited(#[trigger] xs[j]) && offers[j] is Some
            && under_ceiling(retries + j, max_retries, elapsed[j], max_elapsed_ms),
        next_step(xs.last(), offers.last(), retries + xs.len() - 1, max_retries, elapsed.last(), max_elapsed_ms) is Finish,
    ensures
        run(xs, offers, elapsed, retries, max_retries, max_elapsed_ms) == Some(outcome(xs.last())),
    decreases xs.len(),
{
    if xs.len() > 1 {
        assert(rate_limited(xs[0]));
        let ys = xs.drop_first();
        let os = offers.drop_first();
        let es = elapsed.drop_first();
        assert forall|j: int| 0 <= j < ys.len() - 1 implies rate_limited(#[trigger] ys[j]) && os[j] is Some
            && under_ceiling(retries + 1 + j, max_retries, es[j], max_elapsed_ms) by {
            assert(ys[j] == xs[j + 1]);
            assert(rate_limited(xs[j + 1]));
        }
        assert(ys.last() == xs.last());
        assert(os.last() == offers.last());
        assert(es.last() == elapsed.last());
        lemma_retried_until_end(ys, os, es, retries + 1, max_retries, max_elapsed_ms);
    }
}

/// Whatever the server answers, the schedule offers and the clock reads, a
/// call ends by its retry ceiling: with `max_retries - retries` retries left,
/// at most that many more exchanges follow the first.
pub proof fn lemma_call_ends_by_ceiling<T>(
    xs: Seq<Exchange<T>>,
    offers: Seq<Option<Duration>>,
    elapsed: Seq<int>,
    retries: int,
    max_retries: int,
    max_elapsed_ms: int,
)
    requires
        0 <= retries <= max_retries,
        xs.len() > max_retries - retries,
    ensures
        run(xs, offers, elapsed, retries, max_retries, max_elapsed_ms) is Some,
    decreases xs.len(),
{
    let offer = if offers.len() > 0 { offers[0] } else { None };
    let e = if elapsed.len() > 0 { elapsed[0] } else { max_elapsed_ms };
    if next_step(xs[0], offer, retries, max_retries, e, max_elapsed_ms) is Wait {
        lemma_call_ends_by_ceiling(xs.drop_first(), offers.drop_first(), elapsed.drop_first(), retries + 1, max_retries, max_elapsed_ms);
    }
}

/// The step after exchange `x`, given the delay that the schedule offered and
/// the time since the call started.
pub fn decide<T>(
    x: Exchange<T>,
    offer: Option<Duration>,
    retries: u32,
    max_retries: u32,
    elapsed_ms: u128,
    max_elapsed_ms: u64,
) -> (r: Step<T>)
    ensures
        r == next_step(x, offer, retries as int, max_retries as int, elapsed_ms as int, max_elapsed_ms as int),
{
    let again = is_rate_limited(&x) && retries < max_retries && elapsed_ms < max_elapsed_ms as u128;
    match offer {
        Some(d) if again => Step::Wait(d),
        _ => Step::Finish(process_response(x)),
    }
}

/// The retry state of one logical call: its policy, the backoff schedule
/// started when the call began, and the number of retries made so far.
pub struct Retrier {
    schedule: ExponentialBackoff<SystemClock>,
    policy: BackoffPolicy,
    retries: u32,
    max_retries: u32,
}

impl Retrier {
    pub closed spec fn retries_made(&self) -> u32 {
        self.retries
    }

    pub closed spec fn retry_ceiling(&self) -> u32 {
        self.max_retries
    }

    pub closed spec fn backoff_policy(&self) -> BackoffPolicy {
        self.policy
    }

    /// The retries made never exceed the ceiling.
    pub open spec fn well_formed(&self) -> bool {
        self.retries_made() <= self.retry_ceiling()
    }

    /// The number of retries made so far.
    pub fn retries(&self) -> (r: u32)
        ensures
            r == self.retries_made(),
    {
        self.retries
    }

    /// The most retries this call may make.
    pub fn max_retries(&self) -> (r: u32)
        ensures
            r == self.retry_ceiling(),
    {
        self.max_retries
    }

    /// A fresh state for a new call: a schedule built from `policy` and
    /// started now, and no retry made.
    pub fn new(policy: BackoffPolicy, max_retries: u32) -> (r: Self)
        requires
            policy.valid(),
        ensures
            r.retries_made() == 0,
            r.retry_ceiling() == max_retries,
            r.backoff_policy() == policy,
            r.well_formed(),
    {
        let schedule = schedule_from(policy.initial_interval_ms, policy.max_interval_ms, policy.max_elapsed_ms);
        Retrier { schedule, policy, retries: 0, max_retries }
    }

    /// The step after exchange `x`. The clock is read and the schedule asked
    /// for a delay only when `x` was rate limited and retries are left; a wait
    /// counts one more retry.
    pub fn after<T>(&mut self, x: Exchange<T>) -> (r: Step<T>)
        ensures
            exists|offer: Option<Duration>, elapsed_ms: int|
                r == next_step(
                    x,
                    offer,
                    old(self).retries_made() as int,
                    old(self).retry_ceiling() as int,
                    elapsed_ms,
                    old(self).backoff_policy().max_elapsed_ms as int,
                ),
            !(rate_limited(x) && old(self).retries_made() < old(self).retry_ceiling())
                ==> r == Step::<T>::Finish(outcome(x)),
            r is Finish ==> r == Step::<T>::Finish(outcome(x)) && final(self).retries_made() == old(self).retries_made(),
            r is Wait ==> final(self).retries_made() == old(self).retries_made() + 1,
            final(self).retry_ceiling() == old(self).retry_ceiling(),
            final(self).backoff_policy() == old(self).backoff_policy(),
            old(self).well_formed() ==> final(self).well_formed(),
    {
        let ghost x0 = x;
        let max_elapsed = self.policy.max_elapsed_ms;
        if !(is_rate_limited(&x) && self.retries < self.max_retries) {
            let r = decide(x, None, self.retries, self.max_retries, 0, max_elapsed);
            assert(r == next_step(
                x0,
                None,
                old(self).retries_made() as int,
                old(self).retry_ceiling() as int,
                0,
                old(self).backoff_policy().max_elapsed_ms as int,
            ));
            return r;
        }
        let elapsed = elapsed_millis(&self.schedule);
        let offer = if elapsed < max_elapsed as u128 {
            next_backoff(&mut self.schedule)
        } else {
            None
        };
        let r = decide(x, offer, self.retries, self.max_retries, elapsed, max_elapsed);
        assert(r == next_step(
            x0,
            offer,
            old(self).retries_made() as int,
            old(self).retry_ceiling() as int,
            elapsed as int,
            old(self).backoff_policy().max_elapsed_ms as int,
        ));
        if let Step::Wait(_) = r {
            self.retries = self.retries + 1;
        }
        r
    }
}

} // verus!
