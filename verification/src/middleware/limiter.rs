//! The rate limiter: a fixed-window counter per client, kept in a shared
//! store.
//!
//! The store does the counting, in one atomic step per request: increment
//! the client's counter, and if that made it 1, let it expire one window
//! later. The limiter says which counter to bump and what to do with the
//! count that comes back. If the store cannot be reached the request goes
//! through: availability is chosen over enforcement.

use crate::text::join2;
use vstd::prelude::*;
use vstd::string::*;

verus! {

/// Requests allowed per client and window unless configured otherwise.
pub const DEFAULT_LIMIT: u64 = 100;

/// Length of a window in seconds unless configured otherwise.
pub const DEFAULT_WINDOW_SECONDS: u64 = 60;

/// The status of the answer to a request over the limit.
pub const TOO_MANY_REQUESTS: u16 = 429;

/// The shared store did not answer.
#[derive(Debug, Clone, Copy, PartialEq, Eq, Structural)]
pub struct StoreUnavailable;

/// The limiter's policy, made once at startup.
#[derive(Debug, Clone, Copy, PartialEq, Eq, Structural)]
pub struct RateLimit {
    pub limit: u64,
    pub window_seconds: u64,
}

/// The limiter itself, one per worker.
#[derive(Debug, Clone, Copy, PartialEq, Eq, Structural)]
pub struct RateLimitMiddleware {
    pub limit: u64,
    pub window_seconds: u64,
}

/// What the limiter asks of the store for one request: add 1 to the counter
/// under `key`; if the counter is 1 afterwards, set it to expire in
/// `window_seconds`; return the counter. All in one atomic step.
#[derive(Debug, Clone, PartialEq, Eq)]
pub struct CounterCommand {
    pub key: String,
    pub window_seconds: u64,
}

/// How the limiter disposes of a request.
#[derive(Debug, Clone, Copy, PartialEq, Eq, Structural)]
pub enum RateDecision {
    /// Within the limit: forward.
    Forward,
    /// The store gave no count: forward all the same, and log it.
    ForwardDegraded,
    /// Over the limit: answer 429, and do not run what lies inside.
    Reject,
}

/// The name a client is counted under: its address, or "unknown".
pub open spec fn identity_of(peer: Option<Seq<char>>) -> Seq<char> {
    match peer {
        Some(address) => address,
        None => "unknown"@,
    }
}

/// The store key of a client's counter.
pub open spec fn counter_key(identity: Seq<char>) -> Seq<char> {
    "ratelimit:"@ + identity
}

pub open spec fn peer_view(peer: Option<&str>) -> Option<Seq<char>> {
    match peer {
        Some(address) => Some(address@),
        None => None,
    }
}

pub open spec fn counted_view(counted: Result<u64, StoreUnavailable>) -> Option<u64> {
    match counted {
        Ok(n) => Some(n),
        Err(_) => None,
    }
}

/// Whether a request that brought the counter to `count` is within `limit`.
pub open spec fn admits(limit: u64, count: nat) -> bool {
    count <= limit
}

/// The limiter as a function of the count that the store returned.
pub open spec fn rate_decision(limit: u64, counted: Option<u64>) -> RateDecision {
    match counted {
        None => RateDecision::ForwardDegraded,
        Some(n) => if admits(limit, n as nat) {
            RateDecision::Forward
        } else {
            RateDecision::Reject
        },
    }
}

/// A counter as the store holds it: how many requests so far in the
/// window, and the instant at which the store drops it.
pub struct Window {
    pub count: nat,
    pub expires_at: int,
}

/// Whether the store still holds a counter under `key` at `now`.
pub open spec fn live(counters: Map<Seq<char>, Window>, key: Seq<char>, now: int) -> bool {
    counters.dom().contains(key) && now < counters[key].expires_at
}

/// The store after one [`CounterCommand`] at `now`: a live counter goes up
/// by one and keeps its expiry; otherwise a new counter starts at 1 and
/// expires one window from now.
pub open spec fn bump(
    counters: Map<Seq<char>, Window>,
    key: Seq<char>,
    window_seconds: int,
    now: int,
) -> Map<Seq<char>, Window> {
    if live(counters, key, now) {
        counters.insert(
            key,
            Window { count: counters[key].count + 1, expires_at: counters[key].expires_at },
        )
    } else {
        counters.insert(key, Window { count: 1, expires_at: now + window_seconds })
    }
}

/// The store after one command for `key` at each of `times`, in order.
pub open spec fn bump_all(
    counters: Map<Seq<char>, Window>,
    key: Seq<char>,
    window_seconds: int,
    times: Seq<int>,
) -> Map<Seq<char>, Window>
    decreases times.len(),
{
    if times.len() == 0 {
        counters
    } else {
        bump(
            bump_all(counters, key, window_seconds, times.drop_last()),
            key,
            window_seconds,
            times.last(),
        )
    }
}

/// The count that the store returns to the request at `times[k]`, after
/// the requests before it.
pub open spec fn count_returned(
    counters: Map<Seq<char>, Window>,
    key: Seq<char>,
    window_seconds: int,
    times: Seq<int>,
    k: int,
) -> nat {
    bump_all(counters, key, window_seconds, times.take(k + 1))[key].count
}

pub open spec fn nondecreasing(times: Seq<int>) -> bool {
    forall|i: int, j: int| 0 <= i <= j < times.len() ==> times[i] <= times[j]
}

/// A window's expiry is set when its counter is created and by nothing
/// after: a request that finds a live counter raises the count and leaves
/// the expiry alone, and no request touches another client's counter.
pub proof fn law_expiry_set_once(
    counters: Map<Seq<char>, Window>,
    key: Seq<char>,
    window_seconds: int,
    now: int,
    other: Seq<char>,
)
    ensures
        live(counters, key, now) ==> bump(counters, key, window_seconds, now)[key]
            == (Window { count: counters[key].count + 1, expires_at: counters[key].expires_at }),
        !live(counters, key, now) ==> bump(counters, key, window_seconds, now)[key]
            == (Window { count: 1, expires_at: now + window_seconds }),
        other != key ==> bump(counters, key, window_seconds, now).dom().contains(other)
            == counters.dom().contains(other),
        other != key ==> bump(counters, key, window_seconds, now)[other] == counters[other],
{
}

/// After requests at `times`, the first of which opened a window that none
/// of them outlived, the counter holds their number and expires one window
/// after the first.
pub proof fn lemma_counts_in_window(
    counters: Map<Seq<char>, Window>,
    key: Seq<char>,
    window_seconds: int,
    times: Seq<int>,
)
    requires
        times.len() > 0,
        !live(counters, key, times[0]),
        nondecreasing(times),
        times.last() < times[0] + window_seconds,
    ensures
        bump_all(counters, key, window_seconds, times).dom().contains(key),
        bump_all(counters, key, window_seconds, times)[key] == (Window {
            count: times.len(),
            expires_at: times[0] + window_seconds,
        }),
    decreases times.len(),
{
    let before = times.drop_last();
    if before.len() == 0 {
        assert(bump_all(counters, key, window_seconds, before) == counters);
        assert(times.last() == times[0]);
    } else {
        assert(before[0] == times[0]);
        assert(before.last() == times[times.len() - 2]);
        lemma_counts_in_window(counters, key, window_seconds, before);
    }
}

/// Fixed window: of the requests that one client sends within a window,
/// the store counts the k-th as k, so the limiter forwards exactly the
/// first `limit` of them.
pub proof fn law_fixed_window(
    counters: Map<Seq<char>, Window>,
    key: Seq<char>,
    window_seconds: int,
    limit: u64,
    times: Seq<int>,
    k: int,
)
    requires
        times.len() > 0,
        !live(counters, key, times[0]),
        nondecreasing(times),
        times.last() < times[0] + window_seconds,
        0 <= k < times.len(),
    ensures
        count_returned(counters, key, window_seconds, times, k) == k + 1,
        admits(limit, count_returned(counters, key, window_seconds, times, k)) <==> k < limit,
{
    let upto = times.take(k + 1);
    assert(upto[0] == times[0]);
    assert(upto.last() == times[k]);
    lemma_counts_in_window(counters, key, window_seconds, upto);
}

/// Once the window has run out, the next request from the client starts a
/// new one: it is counted as 1, and forwarded under any limit of at least 1.
pub proof fn law_window_elapses(
    counters: Map<Seq<char>, Window>,
    key: Seq<char>,
    window_seconds: int,
    limit: u64,
    times: Seq<int>,
    later: int,
)
    requires
        times.len() > 0,
        !live(counters, key, times[0]),
        nondecreasing(times),
        times.last() < times[0] + window_seconds,
        later >= times[0] + window_seconds,
        limit >= 1,
    ensures
        bump(bump_all(counters, key, window_seconds, times), key, window_seconds, later)[key]
            == (Window { count: 1, expires_at: later + window_seconds }),
        admits(limit, 1),
{
    lemma_counts_in_window(counters, key, window_seconds, times);
}

/// The body of the answer to a request over the limit.
pub fn rejection_body() -> (body: &'static str)
    ensures
        body@ == "Rate Limit Exceeded"@,
{
    "Rate Limit Exceeded"
}

/// The store key of the counter for the client at `peer`.
pub fn rate_limit_key(peer: Option<&str>) -> (key: String)
    ensures
        key@ == counter_key(identity_of(peer_view(peer))),
{
    match peer {
        Some(address) => join2("ratelimit:", address),
        None => join2("ratelimit:", "unknown"),
    }
}

impl RateLimit {
    /// The standard policy: 100 requests per 60 seconds.
    pub fn new() -> (policy: RateLimit)
        ensures
            policy.limit == DEFAULT_LIMIT,
            policy.window_seconds == DEFAULT_WINDOW_SECONDS,
    {
        RateLimit { limit: DEFAULT_LIMIT, window_seconds: DEFAULT_WINDOW_SECONDS }
    }

    /// Makes a limiter that decides by this policy.
    pub fn new_transform(&self) -> (limiter: RateLimitMiddleware)
        ensures
            limiter.limit == self.limit,
            limiter.window_seconds == self.window_seconds,
    {
        RateLimitMiddleware { limit: self.limit, window_seconds: self.window_seconds }
    }
}

impl RateLimitMiddleware {
    /// First half of a request: which counter the store is to bump.
    pub fn call(&self, peer: Option<&str>) -> (command: CounterCommand)
        ensures
            command.key@ == counter_key(identity_of(peer_view(peer))),
            command.window_seconds == self.window_seconds,
    {
        CounterCommand { key: rate_limit_key(peer), window_seconds: self.window_seconds }
    }

    /// Second half: what to do, given the store's answer.
    ///
    /// A count over the limit rejects; any other count forwards; no count at
    /// all forwards too.
    pub fn resume(&self, counted: Result<u64, StoreUnavailable>) -> (decision: RateDecision)
        ensures
            decision == rate_decision(self.limit, counted_view(counted)),
            counted is Err ==> decision == RateDecision::ForwardDegraded,
            decision == RateDecision::Reject <==> (counted matches Ok(n) && n > self.limit),
    {
        match counted {
            Err(_) => RateDecision::ForwardDegraded,
            Ok(n) => {
                if n > self.limit {
                    RateDecision::Reject
                } else {
                    RateDecision::Forward
                }
            },
        }
    }
}

} // verus!
