//! Countdown primitive for the dash ability.
//!
//! The timer counts elapsed time in milliseconds, clamped at its duration,
//! and does not repeat: once the duration has been reached it stays ready
//! until it is reset. All operations are total over well-formed timers.

use vstd::prelude::*;

verus! {

/// Cooldown gating the dash impulse. Well-formed when `elapsed_ms` never
/// exceeds `duration_ms`; every operation preserves that.
#[derive(Clone, Copy, Debug, PartialEq, Eq, Structural)]
pub struct DashCooldown {
    pub duration_ms: u64,
    pub elapsed_ms: u64,
}

/// A timer is ready once its elapsed time has reached its duration.
pub open spec fn spec_ready(t: DashCooldown) -> bool {
    t.elapsed_ms >= t.duration_ms
}

/// Advancing a timer: elapsed time grows by `dt_ms`, clamped at the duration.
pub open spec fn spec_tick(t: DashCooldown, dt_ms: u64) -> DashCooldown {
    DashCooldown {
        duration_ms: t.duration_ms,
        elapsed_ms: if t.elapsed_ms + dt_ms >= t.duration_ms {
            t.duration_ms
        } else {
            (t.elapsed_ms + dt_ms) as u64
        },
    }
}

/// Sum of a sequence of tick amounts.
pub open spec fn seq_sum(dts: Seq<u64>) -> int
    decreases dts.len(),
{
    if dts.len() == 0 {
        0
    } else {
        dts[0] + seq_sum(dts.drop_first())
    }
}

/// The timer after a whole sequence of ticks, first element first.
pub open spec fn spec_ticked_all(t: DashCooldown, dts: Seq<u64>) -> DashCooldown
    decreases dts.len(),
{
    if dts.len() == 0 {
        t
    } else {
        spec_ticked_all(spec_tick(t, dts[0]), dts.drop_first())
    }
}

impl DashCooldown {
    /// Elapsed time stays within the duration.
    pub open spec fn wf(self) -> bool {
        self.elapsed_ms <= self.duration_ms
    }

    /// A fresh timer that must first run down before it is ready.
    pub fn new(duration_ms: u64) -> (r: DashCooldown)
        ensures
            r == (DashCooldown { duration_ms, elapsed_ms: 0 }),
            r.wf(),
    {
        DashCooldown { duration_ms, elapsed_ms: 0 }
    }

    /// True exactly when the elapsed time has reached the duration.
    pub fn ready(&self) -> (r: bool)
        ensures
            r == spec_ready(*self),
    {
        self.elapsed_ms >= self.duration_ms
    }

    /// Start the countdown over: the timer is not ready again until a full
    /// duration of ticks has accumulated.
    pub fn reset(&mut self)
        ensures
            *final(self) == (DashCooldown { duration_ms: old(self).duration_ms, elapsed_ms: 0 }),
            final(self).wf(),
    {
        self.elapsed_ms = 0;
    }

    /// Advance by `dt_ms`, clamped at the duration; elapsed time never
    /// decreases and the duration never changes.
    pub fn tick(&mut self, dt_ms: u64)
        requires
            old(self).wf(),
        ensures
            *final(self) == spec_tick(*old(self), dt_ms),
            final(self).wf(),
            final(self).elapsed_ms >= old(self).elapsed_ms,
    {
        if dt_ms >= self.duration_ms - self.elapsed_ms {
            self.elapsed_ms = self.duration_ms;
        } else {
            self.elapsed_ms = self.elapsed_ms + dt_ms;
        }
    }
}

/// A sum of tick amounts is never negative.
pub proof fn lemma_seq_sum_nonneg(dts: Seq<u64>)
    ensures
        seq_sum(dts) >= 0,
    decreases dts.len(),
{
    if dts.len() > 0 {
        lemma_seq_sum_nonneg(dts.drop_first());
    }
}

/// Over any sequence of ticks, the timer stays well formed, keeps its
/// duration, and is ready exactly when the ticked amounts (with whatever had
/// elapsed before) total at least the duration.
pub proof fn lemma_ready_iff_total_elapsed(t: DashCooldown, dts: Seq<u64>)
    requires
        t.wf(),
    ensures
        spec_ticked_all(t, dts).wf(),
        spec_ticked_all(t, dts).duration_ms == t.duration_ms,
        spec_ready(spec_ticked_all(t, dts)) <==> t.elapsed_ms + seq_sum(dts) >= t.duration_ms,
    decreases dts.len(),
{
    if dts.len() > 0 {
        lemma_seq_sum_nonneg(dts.drop_first());
        lemma_ready_iff_total_elapsed(spec_tick(t, dts[0]), dts.drop_first());
    }
}

/// Once ready, a timer stays ready under further ticks, until it is reset.
pub proof fn lemma_ready_stays_ready(t: DashCooldown, dt_ms: u64)
    requires
        t.wf(),
        spec_ready(t),
    ensures
        spec_ready(spec_tick(t, dt_ms)),
{
}

} // verus!
