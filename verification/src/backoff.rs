//! Retry-delay strategies.
//!
//! A [`Backoff`] produces successive wait times (in milliseconds) for a
//! client that retries failed connection attempts. The strategy is stateful:
//! `next` advances it, `reset` restores the state that produces the first
//! delay. [`DefaultBackoff`] is the reference strategy: a Fibonacci-scaled
//! sequence capped at a configured maximum.

use vstd::arithmetic::mul::{lemma_mul_inequality, lemma_mul_left_inequality};
use vstd::prelude::*;

verus! {

/// A retry-delay strategy.
///
/// Every delay the strategy produces is bounded by [`Backoff::cap`], and
/// `reset` restores [`Backoff::initial`], the state that produces the first
/// delay. Both `next` and `reset` preserve the strategy's configuration, so
/// what `next` returns right after a `reset` does not depend on how many
/// delays were drawn before.
pub trait Backoff: Sized {
    /// Well-formedness of the strategy's state.
    spec fn inv(&self) -> bool;

    /// The configured upper bound on every produced delay, in milliseconds.
    spec fn cap(&self) -> u64;

    /// The state that `reset` restores.
    spec fn initial(&self) -> Self;

    /// The delay `next` returns in the current state, in milliseconds.
    spec fn next_delay(&self) -> u64;

    /// The state `next` leaves behind.
    spec fn advanced(&self) -> Self;

    /// Laws every strategy obeys: advancing and resetting keep the state
    /// well formed and keep the configuration (the cap and the initial
    /// state), and no delay exceeds the cap.
    proof fn laws(&self)
        requires
            self.inv(),
        ensures
            self.advanced().inv(),
            self.initial().inv(),
            self.advanced().cap() == self.cap(),
            self.initial().cap() == self.cap(),
            self.advanced().initial() == self.initial(),
            self.initial().initial() == self.initial(),
            self.next_delay() <= self.cap(),
    ;

    /// Return the next delay and advance the internal state.
    fn next(&mut self) -> (r: u64)
        requires
            old(self).inv(),
        ensures
            final(self).inv(),
            r == old(self).next_delay(),
            r <= old(self).cap(),
            *final(self) == old(self).advanced(),
    ;

    /// Restore the state that produces the first delay.
    fn reset(&mut self)
        requires
            old(self).inv(),
        ensures
            final(self).inv(),
            *final(self) == old(self).initial(),
    ;
}

/// The default retry-delay strategy: the Fibonacci sequence scaled by `unit`
/// and capped at `max`, both in milliseconds.
///
/// With `unit = 100` and `max = 5000` the produced delays are
/// 100, 100, 200, 300, 500, 800, 1300, 2100, 3400, 5000, 5000, ...:
/// `unit` times the Fibonacci numbers until a value would reach `max`, and
/// exactly `max` from then on until `reset`.
///
/// The counter pair `(current, prev)` walks the Fibonacci sequence; the walk
/// saturates at `u64::MAX`, which cannot change any produced delay (see
/// [`law_fibonacci_schedule`]).
#[derive(Clone, Copy, Debug)]
pub struct DefaultBackoff {
    /// The Fibonacci number the next delay is scaled from.
    pub current: u64,
    /// The Fibonacci number before `current`.
    pub prev: u64,
    /// Scale of the sequence, in milliseconds.
    pub unit: u64,
    /// Upper bound on every produced delay, in milliseconds.
    pub max: u64,
}

impl DefaultBackoff {
    /// Create a strategy that produces `unit` times the Fibonacci sequence,
    /// capped at `max` (both in milliseconds).
    pub fn new(unit: u64, max: u64) -> (r: Self)
        ensures
            r == (DefaultBackoff { current: 1, prev: 0, unit, max }),
    {
        let mut res = DefaultBackoff { current: 0, prev: 0, unit, max };
        res.reset();
        res
    }
}

impl Backoff for DefaultBackoff {
    open spec fn inv(&self) -> bool {
        true
    }

    open spec fn cap(&self) -> u64 {
        self.max
    }

    open spec fn initial(&self) -> Self {
        DefaultBackoff { current: 1, prev: 0, unit: self.unit, max: self.max }
    }

    open spec fn next_delay(&self) -> u64 {
        if self.unit * self.current >= self.max {
            self.max
        } else {
            (self.unit * self.current) as u64
        }
    }

    open spec fn advanced(&self) -> Self {
        if self.unit * self.current >= self.max {
            *self
        } else {
            DefaultBackoff {
                current: if self.current + self.prev > u64::MAX {
                    u64::MAX
                } else {
                    (self.current + self.prev) as u64
                },
                prev: self.current,
                unit: self.unit,
                max: self.max,
            }
        }
    }

    proof fn laws(&self) {
    }

    fn next(&mut self) -> (r: u64) {
        match self.unit.checked_mul(self.current) {
            Some(res) => {
                if res >= self.max {
                    self.max
                } else {
                    let cur = self.current;
                    self.current = cur.saturating_add(self.prev);
                    self.prev = cur;
                    res
                }
            }
            None => self.max,
        }
    }

    fn reset(&mut self) {
        self.current = 1;
        self.prev = 0;
    }
}

impl Default for DefaultBackoff {
    /// The default strategy: 100 ms unit, 5000 ms cap.
    fn default() -> (r: Self)
        ensures
            r == (DefaultBackoff {
                current: 1,
                prev: 0,
                unit: crate::DEFAULT_BACKOFF_UNIT_MS,
                max: crate::DEFAULT_BACKOFF_MAX_MS,
            }),
    {
        DefaultBackoff::new(crate::DEFAULT_BACKOFF_UNIT_MS, crate::DEFAULT_BACKOFF_MAX_MS)
    }
}

/// The delay the n-th call to `next` (counting from one) returns, starting
/// from state `b`.
pub open spec fn delay_seq(b: DefaultBackoff, n: nat) -> u64
    decreases n,
{
    if n <= 1 {
        b.next_delay()
    } else {
        delay_seq(b.advanced(), (n - 1) as nat)
    }
}

/// The Fibonacci sequence: 0, 1, 1, 2, 3, 5, ...
pub open spec fn fib(n: nat) -> nat
    decreases n,
{
    if n == 0 {
        0
    } else if n == 1 {
        1
    } else {
        fib((n - 1) as nat) + fib((n - 2) as nat)
    }
}

/// `unit` times the n-th Fibonacci number, capped at `max`: the ideal value
/// of the n-th delay after a reset.
pub open spec fn fib_delay(unit: u64, max: u64, n: nat) -> u64 {
    if unit * fib(n) >= max {
        max
    } else {
        (unit * fib(n)) as u64
    }
}

/// The counter pair stands at step `k` of the Fibonacci walk, saturated at
/// `u64::MAX`.
spec fn models(b: DefaultBackoff, k: nat) -> bool {
    &&& k >= 1
    &&& b.current == (if fib(k) > u64::MAX { u64::MAX as nat } else { fib(k) })
    &&& b.prev == (if fib((k - 1) as nat) > u64::MAX { u64::MAX as nat } else { fib((k - 1) as nat) })
}

/// The Fibonacci sequence never decreases from its first step on.
proof fn lemma_fib_nondecreasing(i: nat, j: nat)
    requires
        1 <= i <= j,
    ensures
        fib(i) <= fib(j),
    decreases j - i,
{
    if i < j {
        lemma_fib_nondecreasing(i, (j - 1) as nat);
        assert(fib(j) == fib((j - 1) as nat) + fib((j - 2) as nat));
    }
}

/// Each Fibonacci number is at least its predecessor.
proof fn lemma_fib_step(k: nat)
    requires
        k >= 1,
    ensures
        fib((k - 1) as nat) <= fib(k),
{
    if k == 1 {
        assert(fib(0) == 0);
        assert(fib(1) == 1);
    } else {
        assert(fib(k) == fib((k - 1) as nat) + fib((k - 2) as nat));
    }
}

/// From a state at step `k` of the saturated walk, the n-th delay is the
/// ideal `fib_delay` at step `k + n - 1`: the saturation of the counters can
/// never change a produced delay.
proof fn lemma_delay_seq_closed(b: DefaultBackoff, k: nat, n: nat)
    requires
        n >= 1,
        models(b, k),
    ensures
        delay_seq(b, n) == fib_delay(b.unit, b.max, (k + n - 1) as nat),
    decreases n,
{
    let u = b.unit as int;
    let m = b.max as int;
    let c = b.current as int;
    let fk = fib(k) as int;
    let mx = u64::MAX as int;

    // The current delay agrees with the ideal one at step k.
    if fib(k) > u64::MAX {
        assert(c == mx);
        if u == 0 {
            assert(u * c == 0 && u * fk == 0);
        } else {
            lemma_mul_inequality(1, u, mx);
            lemma_mul_inequality(1, u, fk);
            assert(u * c >= m);
            assert(u * fk >= m);
        }
    }
    assert(b.next_delay() == fib_delay(b.unit, b.max, k));

    if n == 1 {
    } else if u * c >= m {
        // Frozen: the state stops advancing and every later delay is max.
        assert(b.advanced() == b);
        lemma_delay_seq_closed(b, k, (n - 1) as nat);
        if u == 0 {
            assert(u * fib((k + n - 2) as nat) == 0);
            assert(u * fib((k + n - 1) as nat) == 0);
        } else {
            assert(c <= fk);
            lemma_mul_left_inequality(u, c, fk);
            lemma_fib_nondecreasing(k, (k + n - 2) as nat);
            lemma_mul_left_inequality(u, fk, fib((k + n - 2) as nat) as int);
            lemma_fib_nondecreasing(k, (k + n - 1) as nat);
            lemma_mul_left_inequality(u, fk, fib((k + n - 1) as nat) as int);
        }
        assert(fib_delay(b.unit, b.max, (k + n - 2) as nat) == b.max);
        assert(fib_delay(b.unit, b.max, (k + n - 1) as nat) == b.max);
    } else {
        // Advancing: the walk moves to step k + 1, still saturated correctly.
        let b2 = b.advanced();
        assert(fib((k + 1) as nat) == fib(k) + fib((k - 1) as nat));
        lemma_fib_step(k);
        if fib(k) > u64::MAX {
            assert(b2.current == u64::MAX as nat);
        }
        assert(models(b2, (k + 1) as nat));
        lemma_delay_seq_closed(b2, (k + 1) as nat, (n - 1) as nat);
    }
}

/// Law: after `reset`, the very next delay is the sequence's first value —
/// `unit`, or `max` where `unit` already reaches it — whatever the counters
/// held before. Together with [`law_history_independent`], the delay drawn
/// right after a reset does not depend on how many delays were drawn before.
pub proof fn law_reset_restores_first(b: DefaultBackoff)
    ensures
        b.initial().next_delay() == fib_delay(b.unit, b.max, 1),
        fib_delay(b.unit, b.max, 1) == (if b.unit >= b.max {
            b.max
        } else {
            b.unit
        }),
{
    assert(fib(1) == 1);
}

/// Law: neither drawing a delay nor resetting changes what a reset restores,
/// so the state a reset produces is fixed at construction.
pub proof fn law_history_independent(b: DefaultBackoff)
    ensures
        b.advanced().initial() == b.initial(),
        b.initial().initial() == b.initial(),
{
}

/// Law: from a freshly reset strategy, the n-th delay is `unit` times the
/// n-th Fibonacci number until that would reach `max`, and exactly `max` from
/// then on.
pub proof fn law_fibonacci_schedule(b: DefaultBackoff, n: nat)
    requires
        n >= 1,
    ensures
        delay_seq(b.initial(), n) == fib_delay(b.unit, b.max, n),
{
    assert(fib(0) == 0);
    assert(fib(1) == 1);
    assert(models(b.initial(), 1));
    lemma_delay_seq_closed(b.initial(), 1, n);
}

} // verus!
