use vstd::prelude::*;

verus! {

/// Largest timer duration, in milliseconds.
pub const DURATION_LIMIT: u64 = 0x1_0000_0000;

/// Largest per-tick delta, in milliseconds.
pub const DELTA_LIMIT: u64 = 0x1_0000_0000;

/// A restartable countdown ticked once per frame, counting
/// milliseconds.
///
/// A non-repeating timer clamps `elapsed` to `[0, duration]` and is
/// finished exactly when `elapsed` has reached `duration`; it stays
/// finished until `reset`.  A repeating timer wraps `elapsed` modulo
/// `duration` and is finished exactly on a tick that crossed the
/// duration, at most once per wrap.  The elapsed fraction ("percent")
/// since the last wrap is the rational `elapsed / duration`, always in
/// `[0, 1)` for a repeating timer.
#[derive(Clone, Copy, PartialEq, Eq, Structural, Debug)]
pub struct Timer {
    pub duration: u64,
    pub elapsed: u64,
    pub repeating: bool,
    /// Whether the most recent tick crossed the duration.
    pub fired: bool,
}

impl Timer {
    pub open spec fn wf(self) -> bool {
        &&& 0 < self.duration <= DURATION_LIMIT
        &&& if self.repeating {
                self.elapsed < self.duration
            } else {
                self.elapsed <= self.duration
            }
    }

    pub open spec fn spec_finished(self) -> bool {
        if self.repeating {
            self.fired
        } else {
            self.elapsed >= self.duration
        }
    }

    /// The state after advancing by `delta` milliseconds.
    pub open spec fn spec_tick(self, delta: u64) -> Timer {
        let total = self.elapsed + delta;
        if self.repeating {
            Timer {
                elapsed: (total % (self.duration as int)) as u64,
                fired: total >= self.duration,
                ..self
            }
        } else {
            Timer {
                elapsed: if total >= self.duration { self.duration } else { total as u64 },
                fired: total >= self.duration,
                ..self
            }
        }
    }

    pub fn from_millis(duration: u64, repeating: bool) -> (r: Timer)
        requires
            0 < duration <= DURATION_LIMIT,
        ensures
            r == (Timer { duration, elapsed: 0, repeating, fired: false }),
            r.wf(),
            !r.spec_finished(),
    {
        Timer { duration, elapsed: 0, repeating, fired: false }
    }

    /// Advance by `delta` milliseconds.  Each call advances `elapsed`
    /// by exactly `delta`; a repeating timer ticked past a full
    /// duration reports finished for this tick only and carries the
    /// remainder modulo `duration`.
    pub fn tick(&mut self, delta: u64)
        requires
            old(self).wf(),
            delta <= DELTA_LIMIT,
        ensures
            *final(self) == old(self).spec_tick(delta),
            final(self).wf(),
    {
        let total = self.elapsed + delta;
        if self.repeating {
            self.fired = total >= self.duration;
            self.elapsed = total % self.duration;
        } else {
            self.fired = total >= self.duration;
            self.elapsed = if total >= self.duration { self.duration } else { total };
        }
    }

    pub fn finished(&self) -> (r: bool)
        ensures
            r == self.spec_finished(),
    {
        if self.repeating {
            self.fired
        } else {
            self.elapsed >= self.duration
        }
    }

    /// The elapsed fraction `elapsed / duration`, expressed against a
    /// scale: `percent_scaled(100)` is the percentage rounded down.
    /// For a well-formed repeating timer the fraction lies in
    /// `[0, 1)`, so the result stays below the scale.
    pub fn percent_scaled(&self, scale: u64) -> (r: u64)
        requires
            self.wf(),
        ensures
            r == self.elapsed * scale / (self.duration as int),
            self.repeating ==> r <= scale,
            self.repeating && scale > 0 ==> r < scale,
    {
        proof {
            let x = self.elapsed as int;
            let d = self.duration as int;
            let sc = scale as int;
            assert(x * sc <= 0x1_0000_0000_0000_0000_0000_0000) by (nonlinear_arith)
                requires 0 <= x <= 0x1_0000_0000, 0 <= sc < 0x1_0000_0000_0000_0000;
            assert(0 <= x * sc <= d * sc) by (nonlinear_arith)
                requires 0 <= x <= d, sc >= 0;
            assert(d * sc / d == sc) by {
                vstd::arithmetic::div_mod::lemma_div_multiples_vanish(sc, d);
            }
            assert(x * sc / d <= sc) by {
                vstd::arithmetic::div_mod::lemma_div_is_ordered(x * sc, d * sc, d);
            }
            if self.repeating && scale > 0 {
                assert(x * sc < d * sc) by (nonlinear_arith)
                    requires 0 <= x < d, sc > 0;
                assert(x * sc / d < sc) by {
                    vstd::arithmetic::div_mod::lemma_multiply_divide_lt(x * sc, d, sc);
                }
            }
        }
        ((self.elapsed as u128 * scale as u128) / self.duration as u128) as u64
    }

    /// Numerator of the elapsed fraction `elapsed / duration`.
    pub fn elapsed_millis(&self) -> (r: u64)
        ensures
            r == self.elapsed,
    {
        self.elapsed
    }

    /// Denominator of the elapsed fraction `elapsed / duration`.
    pub fn duration_millis(&self) -> (r: u64)
        ensures
            r == self.duration,
    {
        self.duration
    }

    pub fn reset(&mut self)
        ensures
            *final(self) == (Timer { elapsed: 0, fired: false, ..*old(self) }),
    {
        self.elapsed = 0;
        self.fired = false;
    }
}

/// A non-repeating timer of duration `D` is finished exactly when
/// `elapsed >= D`, and once finished it remains finished under any
/// further tick, without a reset.
pub proof fn lemma_nonrepeating_finished(t: Timer, delta: u64)
    requires
        t.wf(),
        !t.repeating,
    ensures
        t.spec_finished() <==> t.elapsed >= t.duration,
        t.spec_finished() ==> t.spec_tick(delta).spec_finished(),
        t.spec_tick(delta).wf(),
{
}

/// A repeating timer of duration `D` with `elapsed + delta` in
/// `[D, 2 * D)` reports finished exactly once for that tick: the new
/// elapsed value is the carry `elapsed + delta - D` (so the elapsed
/// fraction is `carry / D`), and any follow-up tick that stays below
/// the duration does not report finished again.
pub proof fn lemma_repeating_fires_once(t: Timer, delta: u64)
    requires
        t.wf(),
        t.repeating,
        t.duration <= t.elapsed + delta < 2 * t.duration,
    ensures
        t.spec_tick(delta).spec_finished(),
        t.spec_tick(delta).elapsed == t.elapsed + delta - t.duration,
        forall|d2: u64|
            t.spec_tick(delta).elapsed + d2 < t.duration
                ==> !(#[trigger] t.spec_tick(delta).spec_tick(d2)).spec_finished(),
{
    let total = t.elapsed + delta;
    assert(total % (t.duration as int) == total - t.duration) by {
        vstd::arithmetic::div_mod::lemma_mod_sub_multiples_vanish(
            total as int,
            t.duration as int,
        );
        vstd::arithmetic::div_mod::lemma_small_mod(
            (total - t.duration) as nat,
            t.duration as nat,
        );
    }
    assert forall|d2: u64|
        t.spec_tick(delta).elapsed + d2 < t.duration
            implies !(#[trigger] t.spec_tick(delta).spec_tick(d2)).spec_finished() by {
    }
}

} // verus!
