//! The delay between two attempts to reconnect: it doubles with every
//! failure, up to a cap, and starts over after a success.

use vstd::prelude::*;
use vstd::arithmetic::power2::{lemma2_to64, lemma_pow2_unfold, pow2};

verus! {

/// `base` doubled `n` times: `base * 2^n`.
pub open spec fn doubled(base: nat, n: nat) -> nat
    decreases n,
{
    if n == 0 {
        base
    } else {
        2 * doubled(base, (n - 1) as nat)
    }
}

/// The delay after `n` failures in a row: `min(base * 2^n, cap)`.
pub open spec fn delay_spec(base: nat, cap: nat, n: nat) -> nat {
    if doubled(base, n) <= cap {
        doubled(base, n)
    } else {
        cap
    }
}

/// The count of failures after one more: it stops at the largest number that
/// the counter holds.
pub open spec fn bumped(attempt: u32) -> u32 {
    if attempt == u32::MAX {
        attempt
    } else {
        (attempt + 1) as u32
    }
}

/// `doubled` is the base times a power of two.
pub proof fn lemma_doubled_is_power(base: nat, n: nat)
    ensures
        doubled(base, n) == base * pow2(n),
    decreases n,
{
    if n == 0 {
        lemma2_to64();
    } else {
        lemma_doubled_is_power(base, (n - 1) as nat);
        lemma_pow2_unfold(n);
        assert(2 * (base * pow2((n - 1) as nat)) == base * (2 * pow2((n - 1) as nat)))
            by (nonlinear_arith);
    }
}

/// Doubling more often never gives less.
pub proof fn lemma_doubled_grows(base: nat, m: nat, n: nat)
    requires
        m <= n,
    ensures
        doubled(base, m) <= doubled(base, n),
    decreases n,
{
    if m < n {
        lemma_doubled_grows(base, m, (n - 1) as nat);
    }
}

/// Nothing doubled is nothing.
pub proof fn lemma_doubled_zero(n: nat)
    ensures
        doubled(0, n) == 0,
    decreases n,
{
    if n > 0 {
        lemma_doubled_zero((n - 1) as nat);
    }
}

/// The delays never exceed the cap and never shrink from one failure to the
/// next; below the cap each is twice the one before.
pub proof fn lemma_delay_sequence(base: nat, cap: nat, n: nat)
    ensures
        delay_spec(base, cap, n) <= cap,
        delay_spec(base, cap, n) <= delay_spec(base, cap, n + 1),
        delay_spec(base, cap, 0) == (if base <= cap { base } else { cap }),
        doubled(base, n + 1) <= cap ==> delay_spec(base, cap, n + 1) == 2 * delay_spec(base, cap, n),
        doubled(base, n) > cap ==> delay_spec(base, cap, n + 1) == cap,
{
    lemma_doubled_grows(base, n, n + 1);
}

/// With a base of one the delays are the powers of two, capped:
/// `1, 2, 4, 8, ...`.
pub proof fn lemma_delay_from_one(cap: nat, n: nat)
    ensures
        delay_spec(1, cap, n) == (if pow2(n) <= cap { pow2(n) } else { cap }),
{
    lemma_doubled_is_power(1, n);
}

/// The state of the retry delay.
#[derive(Clone, Copy, Debug, PartialEq, Eq, Structural)]
pub struct Backoff {
    base: u64,
    cap: u64,
    attempt: u32,
}

impl Backoff {
    /// The first delay.
    pub closed spec fn base(&self) -> u64 {
        self.base
    }

    /// The longest delay.
    pub closed spec fn cap(&self) -> u64 {
        self.cap
    }

    /// The failures in a row so far.
    pub closed spec fn attempt(&self) -> u32 {
        self.attempt
    }

    /// A backoff that starts at `base` and stops growing at `cap`.
    pub fn new(base: u64, cap: u64) -> (b: Backoff)
        ensures
            b.base() == base,
            b.cap() == cap,
            b.attempt() == 0,
    {
        Backoff { base, cap, attempt: 0 }
    }

    /// The number of failures in a row so far.
    pub fn failures(&self) -> (n: u32)
        ensures
            n == self.attempt(),
    {
        self.attempt
    }

    /// Records a success: the next delay is the first one again.
    pub fn reset(&mut self)
        ensures
            final(self).base() == old(self).base(),
            final(self).cap() == old(self).cap(),
            final(self).attempt() == 0,
    {
        self.attempt = 0;
    }

    /// Records a failure and returns the delay before the next attempt:
    /// `min(base * 2^n, cap)` after `n` earlier failures in a row.
    pub fn next_delay(&mut self) -> (d: u64)
        ensures
            d == delay_spec(
                old(self).base() as nat,
                old(self).cap() as nat,
                old(self).attempt() as nat,
            ),
            final(self).base() == old(self).base(),
            final(self).cap() == old(self).cap(),
            final(self).attempt() == bumped(old(self).attempt()),
    {
        let base = self.base;
        let cap = self.cap;
        let attempt = self.attempt;
        let mut d: u64 = if base <= cap { base } else { cap };
        let mut i: u32 = 0;
        while i < attempt && d < cap && d > 0
            invariant
                i <= attempt,
                d == delay_spec(base as nat, cap as nat, i as nat),
            decreases attempt - i,
        {
            d = if d > cap / 2 { cap } else { d * 2 };
            i = i + 1;
        }
        proof {
            if i < attempt {
                if d == 0 {
                    if base == 0 {
                        lemma_doubled_zero(i as nat);
                        lemma_doubled_zero(attempt as nat);
                    } else {
                        lemma_doubled_grows(base as nat, 0, i as nat);
                    }
                } else {
                    lemma_doubled_grows(base as nat, i as nat, attempt as nat);
                }
            }
        }
        if attempt < u32::MAX {
            self.attempt = attempt + 1;
        }
        d
    }
}

} // verus!
