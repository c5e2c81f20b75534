//! A leaky bucket: requests are spaced evenly, and an idle bucket saves up some slack.
//!
//! Instants and durations are nanoseconds of a clock that does not go back.

use vstd::prelude::*;

verus! {

/// A command of a chat or user.
#[derive(Debug, Clone, Copy, PartialEq, Eq, Hash)]
pub struct RateKey(pub i64, pub &'static str);

/// How many requests an idle limiter saves up.
pub const GO_RATE_LIMITER_DEFAULT_SLACK: u32 = 10;

pub const SECOND_NS: u64 = 1_000_000_000;

/// A limiter that issues one permission per period.
#[derive(Debug, PartialEq, Eq)]
pub struct GoRateLimiter {
    per_request: u64,
    max_slack: u64,
    /// When the last permission was issued, none before the first.
    issued: Option<u64>,
    takes: u64,
}

/// The model of a limiter.
pub struct LimiterModel {
    pub per_request: int,
    pub max_slack: int,
    pub issued: Option<int>,
    pub takes: u64,
}

impl View for GoRateLimiter {
    type V = LimiterModel;

    closed spec fn view(&self) -> LimiterModel {
        LimiterModel {
            per_request: self.per_request as int,
            max_slack: self.max_slack as int,
            issued: match self.issued {
                Some(at) => Some(at as int),
                None => None,
            },
            takes: self.takes,
        }
    }
}

/// When the next permission is issued: at once where none was issued yet, a period after
/// the last one otherwise, but never further back than the slack.
pub open spec fn next_issue(limiter: LimiterModel, now: int) -> int {
    match limiter.issued {
        None => now,
        Some(issued) => if limiter.max_slack > 0 && now - issued > limiter.max_slack
            + limiter.per_request {
            if now >= limiter.max_slack {
                now - limiter.max_slack
            } else {
                now
            }
        } else {
            issued + limiter.per_request
        },
    }
}

/// Whether the instants of the next permission are representable.
pub open spec fn in_range(limiter: LimiterModel) -> bool {
    &&& limiter.per_request + limiter.max_slack <= u64::MAX
    &&& match limiter.issued {
        Some(issued) => issued + limiter.per_request <= u64::MAX,
        None => true,
    }
}

impl GoRateLimiter {
    /// `rate` permissions per second, with the usual slack.
    pub fn per_second(rate: u32) -> (r: Self)
        ensures
            r@ == fresh(rate, SECOND_NS as int, GO_RATE_LIMITER_DEFAULT_SLACK),
    {
        GoRateLimiter::new(rate, SECOND_NS, GO_RATE_LIMITER_DEFAULT_SLACK)
    }

    /// `rate` permissions per `per` nanoseconds; a rate of zero counts as one.
    pub fn new(rate: u32, per: u64, slack: u32) -> (r: Self)
        requires
            period(rate, per as int) * slack <= u64::MAX,
        ensures
            r@ == fresh(rate, per as int, slack),
    {
        let divisor: u64 = if rate == 0 {
            1
        } else {
            rate as u64
        };
        let per_request: u64 = per / divisor;
        assert(per_request == period(rate, per as int));
        assert(per_request * slack == period(rate, per as int) * slack);
        let max_slack: u64 = per_request * (slack as u64);
        GoRateLimiter { per_request, max_slack, issued: None, takes: 0 }
    }

    /// Take a permission at `now`; says how long to wait for it.
    pub fn reserve(&mut self, now: u64) -> (wait: u64)
        requires
            in_range(old(self)@),
        ensures
            final(self)@.issued == Some(next_issue(old(self)@, now as int)),
            final(self)@.per_request == old(self)@.per_request,
            final(self)@.max_slack == old(self)@.max_slack,
            final(self)@.takes == old(self)@.takes.wrapping_add(1),
            wait == if next_issue(old(self)@, now as int) > now {
                next_issue(old(self)@, now as int) - now
            } else {
                0
            },
    {
        self.takes = self.takes.wrapping_add(1);
        let next: u64 = match self.issued {
            None => now,
            Some(issued) => if self.max_slack > 0 && now >= issued && now - issued > self.max_slack
                + self.per_request {
                if now >= self.max_slack {
                    now - self.max_slack
                } else {
                    now
                }
            } else {
                issued + self.per_request
            },
        };
        self.issued = Some(next);
        if next > now {
            next - now
        } else {
            0
        }
    }

    /// Take the first permission, which is issued at once.
    pub fn prime(&mut self, now: u64)
        requires
            in_range(old(self)@),
            old(self)@.issued is None,
        ensures
            final(self)@.issued == Some(now as int),
            final(self)@.per_request == old(self)@.per_request,
            final(self)@.max_slack == old(self)@.max_slack,
            final(self)@.takes == old(self)@.takes.wrapping_add(1),
    {
        let _wait: u64 = self.reserve(now);
    }

    /// How often a permission was taken.
    pub fn takes(&self) -> (n: u64)
        ensures
            n == self@.takes,
    {
        self.takes
    }

    pub fn per_request(&self) -> (ns: u64)
        ensures
            ns == self@.per_request,
    {
        self.per_request
    }

    pub fn max_slack(&self) -> (ns: u64)
        ensures
            ns == self@.max_slack,
    {
        self.max_slack
    }
}

/// The time between two permissions.
pub open spec fn period(rate: u32, per: int) -> int {
    if rate == 0 {
        per
    } else {
        per / (rate as int)
    }
}

/// A limiter that nothing was taken from.
pub open spec fn fresh(rate: u32, per: int, slack: u32) -> LimiterModel {
    LimiterModel {
        per_request: period(rate, per),
        max_slack: period(rate, per) * slack,
        issued: None,
        takes: 0,
    }
}

/// Permissions are issued at least a period apart, unless the limiter was idle beyond
/// its slack; even then no more credit is left than the slack.
pub proof fn lemma_spacing(limiter: LimiterModel, now: int)
    requires
        limiter.issued is Some,
        limiter.per_request >= 0,
        limiter.max_slack >= 0,
        now >= 0,
    ensures
        ({
            let issued = limiter.issued->0;
            let next = next_issue(limiter, now);
            &&& next >= issued + limiter.per_request || now < limiter.max_slack
            &&& limiter.max_slack > 0 ==> now - next <= limiter.max_slack
        }),
{
}

} // verus!
