//! Per-client request rate limiting over fixed windows, with a burst cap.
//! Times are milliseconds on a monotonic clock that the caller reads.
use vstd::prelude::*;
use crate::collections::StrMap;
use crate::text::{concat2, owned, u64_to_string, decimal};

verus! {

/// Rate-limit settings: the window length, the requests allowed in a window,
/// the burst cap, and whether limiting is on.
#[derive(Debug, Clone, Copy)]
pub struct RateLimitConfig {
    pub window_ms: u64,
    pub max_requests: u32,
    pub burst_size: u32,
    pub enabled: bool,
}

/// One client's counters in the current window.
#[derive(Debug, Clone, Copy)]
pub struct RateLimitEntry {
    pub count: u32,
    pub reset_time: u64,
    pub burst_count: u32,
}

/// Why a request was refused.
#[derive(Debug, Clone, Copy, PartialEq, Eq, Structural)]
pub enum RateLimitRejection {
    /// The burst cap was reached.
    Burst,
    /// The window's request limit was reached.
    Limit,
}

/// The answer to one request.
#[derive(Debug, Clone, Copy, PartialEq, Eq, Structural)]
pub enum RateLimitDecision {
    Allow,
    Reject(RateLimitRejection),
}

/// The counters after one request from a known client at time `now`, and
/// the decision: a window that has ended starts afresh; the burst cap is
/// checked first, then the request limit; an admitted request raises both
/// counts.
pub open spec fn step_known(cfg: RateLimitConfig, e: RateLimitEntry, now: u64) -> (RateLimitEntry, RateLimitDecision) {
    let fresh = if now >= e.reset_time {
        RateLimitEntry { count: 0, burst_count: 0, reset_time: (now + cfg.window_ms) as u64 }
    } else {
        e
    };
    if fresh.burst_count >= cfg.burst_size {
        (fresh, RateLimitDecision::Reject(RateLimitRejection::Burst))
    } else if fresh.count >= cfg.max_requests {
        (fresh, RateLimitDecision::Reject(RateLimitRejection::Limit))
    } else {
        (RateLimitEntry { count: (fresh.count + 1) as u32, burst_count: (fresh.burst_count + 1) as u32, ..fresh },
         RateLimitDecision::Allow)
    }
}

/// The counters of a client's first request: admitted, with a new window.
pub open spec fn first_entry(cfg: RateLimitConfig, now: u64) -> RateLimitEntry {
    RateLimitEntry { count: 1, reset_time: (now + cfg.window_ms) as u64, burst_count: 1 }
}

/// A fixed-window rate limiter keyed by client address.
pub struct RateLimitingMiddleware {
    pub config: RateLimitConfig,
    pub limits: StrMap<RateLimitEntry>,
}

impl RateLimitingMiddleware {
    /// A limiter with `config` and no client seen yet.
    pub fn new(config: RateLimitConfig) -> (m: Self)
        ensures
            m.config == config,
            m.limits@ == Map::<Seq<char>, RateLimitEntry>::empty(),
    {
        RateLimitingMiddleware { config, limits: StrMap::new() }
    }

    /// Sets the window length.
    pub fn with_window(self, window_ms: u64) -> (m: Self)
        ensures
            m.config == (RateLimitConfig { window_ms, ..self.config }),
            m.limits@ == self.limits@,
    {
        let mut m = self;
        m.config.window_ms = window_ms;
        m
    }

    /// Sets the requests allowed per window.
    pub fn with_max_requests(self, max_requests: u32) -> (m: Self)
        ensures
            m.config == (RateLimitConfig { max_requests, ..self.config }),
            m.limits@ == self.limits@,
    {
        let mut m = self;
        m.config.max_requests = max_requests;
        m
    }

    /// Sets the burst cap.
    pub fn with_burst_size(self, burst_size: u32) -> (m: Self)
        ensures
            m.config == (RateLimitConfig { burst_size, ..self.config }),
            m.limits@ == self.limits@,
    {
        let mut m = self;
        m.config.burst_size = burst_size;
        m
    }

    /// The service that limits requests with these settings and counters.
    pub fn into_service(self) -> (s: RateLimitingService)
        ensures
            s.config == self.config,
            s.limits@ == self.limits@,
    {
        RateLimitingService { config: self.config, limits: self.limits }
    }
}

/// The rate limiter as it answers requests.
pub struct RateLimitingService {
    pub config: RateLimitConfig,
    pub limits: StrMap<RateLimitEntry>,
}

impl RateLimitingService {
    /// Decides a request from `client_ip` at time `now` and updates that
    /// client's counters. With limiting off every request passes and nothing
    /// is recorded. A client seen for the first time is admitted.
    pub fn check(&mut self, client_ip: &str, now: u64) -> (d: RateLimitDecision)
        requires
            now + old(self).config.window_ms <= u64::MAX,
        ensures
            final(self).config == old(self).config,
            !old(self).config.enabled ==> d == RateLimitDecision::Allow && final(self).limits@ == old(self).limits@,
            old(self).config.enabled ==> if old(self).limits@.dom().contains(client_ip@) {
                let (e, dec) = step_known(old(self).config, old(self).limits@[client_ip@], now);
                d == dec && final(self).limits@ == old(self).limits@.insert(client_ip@, e)
            } else {
                d == RateLimitDecision::Allow
                    && final(self).limits@ == old(self).limits@.insert(client_ip@, first_entry(old(self).config, now))
            },
    {
        if !self.config.enabled {
            return RateLimitDecision::Allow;
        }
        let cfg = self.config;
        match self.limits.get(client_ip) {
            Some(found) => {
                let mut e = *found;
                if now >= e.reset_time {
                    e.count = 0;
                    e.burst_count = 0;
                    e.reset_time = now + cfg.window_ms;
                }
                let d = if e.burst_count >= cfg.burst_size {
                    RateLimitDecision::Reject(RateLimitRejection::Burst)
                } else if e.count >= cfg.max_requests {
                    RateLimitDecision::Reject(RateLimitRejection::Limit)
                } else {
                    e.count = e.count + 1;
                    e.burst_count = e.burst_count + 1;
                    RateLimitDecision::Allow
                };
                self.limits.insert(owned(client_ip), e);
                d
            }
            None => {
                let e = RateLimitEntry { count: 1, reset_time: now + cfg.window_ms, burst_count: 1 };
                self.limits.insert(owned(client_ip), e);
                RateLimitDecision::Allow
            }
        }
    }
}

/// Within one window, a client's request count never exceeds the larger of
/// the window's limit and one: an admitted request raises the count only
/// while it is below the limit, and a first request starts it at one.
pub proof fn lemma_count_bounded(cfg: RateLimitConfig, e: RateLimitEntry, now: u64)
    requires
        e.count <= if cfg.max_requests >= 1 { cfg.max_requests } else { 1 },
        now + cfg.window_ms <= u64::MAX,
    ensures
        step_known(cfg, e, now).0.count <= if cfg.max_requests >= 1 { cfg.max_requests } else { 1 },
        step_known(cfg, e, now).1 == RateLimitDecision::Allow ==> step_known(cfg, e, now).0.count <= cfg.max_requests,
        first_entry(cfg, now).count == 1,
{
}

/// Once a client's window has ended, its next request is judged on fresh
/// counters, and is admitted whenever both caps are positive.
pub proof fn lemma_window_resets(cfg: RateLimitConfig, e: RateLimitEntry, now: u64)
    requires
        now >= e.reset_time,
        now + cfg.window_ms <= u64::MAX,
        cfg.burst_size > 0,
        cfg.max_requests > 0,
    ensures
        step_known(cfg, e, now).1 == RateLimitDecision::Allow,
        step_known(cfg, e, now).0.count == 1,
        step_known(cfg, e, now).0.reset_time == now + cfg.window_ms,
{
}

/// The smaller of the window's limit and the burst cap.
pub open spec fn window_cap(cfg: RateLimitConfig) -> int {
    if cfg.max_requests <= cfg.burst_size { cfg.max_requests as int } else { cfg.burst_size as int }
}

/// A known client's counters after further requests at the given times,
/// in order, and how many of them were admitted.
pub open spec fn requests_at(cfg: RateLimitConfig, e: RateLimitEntry, times: Seq<u64>) -> (RateLimitEntry, int)
    decreases times.len(),
{
    if times.len() == 0 {
        (e, 0)
    } else {
        let (e1, admitted) = requests_at(cfg, e, times.drop_last());
        let (e2, d) = step_known(cfg, e1, times.last());
        (e2, admitted + if d == RateLimitDecision::Allow { 1int } else { 0int })
    }
}

/// A refusal inside the window leaves the counters as they were.
pub proof fn lemma_refusal_keeps_counters(cfg: RateLimitConfig, e: RateLimitEntry, now: u64)
    requires
        now < e.reset_time,
        step_known(cfg, e, now).1 != RateLimitDecision::Allow,
    ensures
        step_known(cfg, e, now).0 == e,
{
}

/// Inside a window whose two counts stand at `c`, no more than the cap:
/// of `n` further requests arriving before the window ends, exactly the
/// first `min(n, cap - c)` are admitted, where the cap is the smaller of the
/// limit and the burst size; the counts rise by that much and the window
/// keeps its end.
pub proof fn lemma_window_admits(cfg: RateLimitConfig, e: RateLimitEntry, times: Seq<u64>)
    requires
        forall|i: int| 0 <= i < times.len() ==> #[trigger] times[i] < e.reset_time,
        e.count == e.burst_count,
        e.count <= window_cap(cfg),
    ensures
        ({
            let (f, admitted) = requests_at(cfg, e, times);
            &&& admitted == if times.len() <= window_cap(cfg) - e.count { times.len() as int } else { window_cap(cfg) - e.count }
            &&& f.count == e.count + admitted
            &&& f.burst_count == f.count
            &&& f.reset_time == e.reset_time
        }),
    decreases times.len(),
{
    if times.len() > 0 {
        let rest = times.drop_last();
        assert forall|i: int| 0 <= i < rest.len() implies #[trigger] rest[i] < e.reset_time by {
            assert(rest[i] == times[i]);
        }
        lemma_window_admits(cfg, e, rest);
        assert(times.last() == times[times.len() - 1]);
    }
}

/// A client seen for the first time at `first`, who sends `n` more requests
/// before `window_ms` have passed since then, with both caps positive, has
/// exactly `min(1 + n, limit, burst)` of its requests admitted.
pub proof fn lemma_new_client_admits(cfg: RateLimitConfig, first: u64, times: Seq<u64>)
    requires
        cfg.max_requests >= 1,
        cfg.burst_size >= 1,
        first + cfg.window_ms <= u64::MAX,
        forall|i: int| 0 <= i < times.len() ==> #[trigger] times[i] < first + cfg.window_ms,
    ensures
        1 + requests_at(cfg, first_entry(cfg, first), times).1
            == if times.len() + 1 <= window_cap(cfg) { (times.len() + 1) as int } else { window_cap(cfg) },
{
    lemma_window_admits(cfg, first_entry(cfg, first), times);
}

/// The body of a refusal: "Rate limit exceeded (burst)" or "Rate limit
/// exceeded", and the retry delay "{window}ms".
pub fn rejection_message(cfg: &RateLimitConfig, why: RateLimitRejection) -> (r: (String, String))
    ensures
        r.0@ == match why {
            RateLimitRejection::Burst => "Rate limit exceeded (burst)"@,
            RateLimitRejection::Limit => "Rate limit exceeded"@,
        },
        r.1@ == decimal(cfg.window_ms as nat) + "ms"@,
{
    let msg = match why {
        RateLimitRejection::Burst => owned("Rate limit exceeded (burst)"),
        RateLimitRejection::Limit => owned("Rate limit exceeded"),
    };
    (msg, concat2(u64_to_string(cfg.window_ms).as_str(), "ms"))
}

/// Transaction endpoints: 50 requests a minute, bursts of 10.
pub struct TransactionRateLimiter;

impl TransactionRateLimiter {
    /// The transaction limiter.
    pub fn new() -> (m: RateLimitingMiddleware)
        ensures
            m.config == (RateLimitConfig { window_ms: 60000, max_requests: 50, burst_size: 10, enabled: true }),
            m.limits@ == Map::<Seq<char>, RateLimitEntry>::empty(),
    {
        RateLimitingMiddleware::new(RateLimitConfig { window_ms: 60 * 1000, max_requests: 50, burst_size: 10, enabled: true })
    }
}

/// Authentication endpoints: 5 requests per 15 minutes, bursts of 2.
pub struct AuthRateLimiter;

impl AuthRateLimiter {
    /// The authentication limiter.
    pub fn new() -> (m: RateLimitingMiddleware)
        ensures
            m.config == (RateLimitConfig { window_ms: 900000, max_requests: 5, burst_size: 2, enabled: true }),
            m.limits@ == Map::<Seq<char>, RateLimitEntry>::empty(),
    {
        RateLimitingMiddleware::new(RateLimitConfig { window_ms: 15 * 60 * 1000, max_requests: 5, burst_size: 2, enabled: true })
    }
}

/// BLE endpoints: 100 requests a minute, bursts of 20.
pub struct BLERateLimiter;

impl BLERateLimiter {
    /// The BLE limiter.
    pub fn new() -> (m: RateLimitingMiddleware)
        ensures
            m.config == (RateLimitConfig { window_ms: 60000, max_requests: 100, burst_size: 20, enabled: true }),
            m.limits@ == Map::<Seq<char>, RateLimitEntry>::empty(),
    {
        RateLimitingMiddleware::new(RateLimitConfig { window_ms: 60 * 1000, max_requests: 100, burst_size: 20, enabled: true })
    }
}

/// Every endpoint: 1000 requests per 15 minutes, bursts of 100.
pub struct GlobalRateLimiter;

impl GlobalRateLimiter {
    /// The global limiter.
    pub fn new() -> (m: RateLimitingMiddleware)
        ensures
            m.config == (RateLimitConfig { window_ms: 900000, max_requests: 1000, burst_size: 100, enabled: true }),
            m.limits@ == Map::<Seq<char>, RateLimitEntry>::empty(),
    {
        RateLimitingMiddleware::new(RateLimitConfig { window_ms: 15 * 60 * 1000, max_requests: 1000, burst_size: 100, enabled: true })
    }
}

} // verus!
