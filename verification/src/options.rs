//! The tuning parameters of the cache.

use crate::duration::{Duration, NANOS_PER_SEC};
use crate::fraction::Fraction;
use vstd::prelude::*;

verus! {

/// The tuning parameters of the cache.
#[derive(Debug, Clone, Copy, PartialEq, Eq, Structural)]
pub struct Options {
    /// For how long an entry that was marked as deleted stays readable. Every
    /// entry also expires this much earlier than asked. 10 s by default.
    pub delay: Duration,
    /// For how long an absent result is cached. With less than one second an
    /// absent result deletes the entry instead. 60 s by default.
    pub empty_expire: Duration,
    /// For how long a refresh may hold the lock of an entry. It should exceed
    /// the longest time that loading a value takes. 3 s by default.
    pub lock_expire: Duration,
    /// The pause between two attempts to read an entry that another caller is
    /// refreshing. 100 ms by default.
    pub lock_sleep: Duration,
    /// The fraction of the asked expiry, in whole seconds, by which every
    /// entry expires earlier. It is applied as it stands: nothing is drawn at
    /// random. One tenth by default.
    pub random_expire_adjustment: Fraction,
    /// Reads bypass the cache and go to the loader. `false` by default.
    pub disable_cache_read: bool,
    /// Marking an entry as deleted does nothing. `false` by default.
    pub disable_cache_delete: bool,
}

impl Options {
    /// The seconds by which an entry that is asked to live for `expire`
    /// nanoseconds expires earlier on account of the adjustment: the
    /// adjustment's fraction of the whole seconds of `expire`, rounded down.
    pub open spec fn adjustment(&self, expire: nat) -> nat {
        self.random_expire_adjustment.floor_of(Duration::secs_of(expire))
    }

    /// The nanoseconds that an entry lives which is asked to live for
    /// `expire` nanoseconds: `expire` less the delay and less the adjustment.
    /// Negative where the two exceed `expire`.
    pub open spec fn effective_expire(&self, expire: nat) -> int {
        expire - self.delay@ - self.adjustment(expire) * NANOS_PER_SEC
    }

    /// The time that an entry lives which is asked to live for `expire`, or
    /// `None` where the delay and the adjustment together exceed `expire`.
    pub fn checked_effective_expire(&self, expire: Duration) -> (result: Option<Duration>)
        ensures
            result is Some <==> self.effective_expire(expire@) >= 0,
            result matches Some(ex) ==> ex@ == self.effective_expire(expire@),
    {
        let secs: u64 = expire.as_secs();
        let adjustment: u128 = self.random_expire_adjustment.apply(secs);
        match expire.checked_sub(self.delay) {
            None => None,
            Some(rest) => {
                if adjustment > rest.as_secs() as u128 {
                    proof {
                        lemma_secs_bound(rest@, adjustment as nat);
                    }
                    None
                } else {
                    let cut: Duration = Duration::from_secs(adjustment as u64);
                    let result: Option<Duration> = rest.checked_sub(cut);
                    proof {
                        lemma_secs_fit(rest@, adjustment as nat);
                    }
                    result
                }
            },
        }
    }
}

/// More whole seconds than a span holds are longer than the span.
proof fn lemma_secs_bound(nanos: nat, secs: nat)
    requires
        secs > Duration::secs_of(nanos),
    ensures
        secs * NANOS_PER_SEC > nanos,
{
    assert(secs * NANOS_PER_SEC > nanos) by (nonlinear_arith)
        requires
            secs > nanos / (NANOS_PER_SEC as nat),
    ;
}

/// No more whole seconds than a span holds fit into the span.
proof fn lemma_secs_fit(nanos: nat, secs: nat)
    requires
        secs <= Duration::secs_of(nanos),
    ensures
        secs * NANOS_PER_SEC <= nanos,
{
    assert(secs * NANOS_PER_SEC <= nanos) by (nonlinear_arith)
        requires
            secs <= nanos / (NANOS_PER_SEC as nat),
    ;
}

impl Default for Options {
    fn default() -> (options: Options)
        ensures
            options.delay@ == 10 * NANOS_PER_SEC,
            options.empty_expire@ == 60 * NANOS_PER_SEC,
            options.lock_expire@ == 3 * NANOS_PER_SEC,
            options.lock_sleep@ == 100_000_000,
            options.random_expire_adjustment.spec_numerator() == 1,
            options.random_expire_adjustment.spec_denominator() == 10,
            !options.disable_cache_read,
            !options.disable_cache_delete,
    {
        let tenth: Fraction = match Fraction::new(1, 10) {
            Some(f) => f,
            None => vstd::pervasive::unreached(),
        };
        Options {
            delay: Duration::from_secs(10),
            empty_expire: Duration::from_secs(60),
            lock_expire: Duration::from_secs(3),
            lock_sleep: Duration::from_millis(100),
            random_expire_adjustment: tenth,
            disable_cache_read: false,
            disable_cache_delete: false,
        }
    }
}

} // verus!
