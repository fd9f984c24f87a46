use vstd::prelude::*;

use crate::datum::DataUnit;
use crate::datum::PROBE_LEVEL;

verus! {

/// Number of additive-increase steps meant to carry the pace from zero to
/// the target: the ramp-up spreads over five `inc_pace` calls.
pub const NUM_PROBE_REQUIRED: u64 = 5;

/// State machine computing, tick by tick, how many probe bytes to inject so
/// that the injected probe bandwidth ramps from zero to a target bandwidth by
/// additive increase, spread evenly across ticks.
///
/// Inactive (all four pacing attributes zero) until `start_probe` arms it;
/// `inc_pace` advances the ramp one step; `stop_probe` returns it to
/// inactive; `next` yields the probe unit a tick should emit, if any.
pub struct ProbeTracker {
    /// Tick period of the owning source in milliseconds, fixed at
    /// construction; needed to spread the probe bandwidth evenly over ticks.
    pub tick_period: u64,

    /// The target probe bandwidth in kilobits per second.
    pub target_in_kbps: u64,

    /// The target pace: the probe packet size per tick once the ramp is
    /// done, derived from `target_in_kbps`.
    pub target_pace: u64,

    /// The current pace: the probe packet size emitted on each tick.
    pub pace: u64,

    /// The increment each `inc_pace` step adds to `pace`.
    pub delta: u64,
}

/// The per-tick probe size that carries `kbps` kilobits per second on a
/// source ticking every `tick_period` milliseconds: `kbps * 1000 / 8` bytes
/// per second spread over `1000 / tick_period` ticks per second, which is
/// exactly `floor(kbps * tick_period / 8)` bytes per tick.
pub open spec fn pace_target(kbps: u64, tick_period: u64) -> int {
    (kbps * tick_period) / 8
}

/// The tracker state right after `start_probe(kbps)`: the target pace is
/// derived from the target bandwidth, the step is a fifth of it, and the
/// first probe is already one step in, not zero.
pub open spec fn start_spec(t: ProbeTracker, kbps: u64) -> ProbeTracker {
    let tp = pace_target(kbps, t.tick_period) as u64;
    ProbeTracker {
        tick_period: t.tick_period,
        target_in_kbps: kbps,
        target_pace: tp,
        pace: ((tp as int) / (NUM_PROBE_REQUIRED as int)) as u64,
        delta: ((tp as int) / (NUM_PROBE_REQUIRED as int)) as u64,
    }
}

/// The tracker state after one `inc_pace` step: below the target the pace
/// grows by `delta`; at or above the target nothing changes.
pub open spec fn step_spec(t: ProbeTracker) -> ProbeTracker {
    if t.pace < t.target_pace {
        ProbeTracker { pace: (t.pace + t.delta) as u64, ..t }
    } else {
        t
    }
}

/// The tracker state after `stop_probe`: inactive, with the tick period kept.
pub open spec fn stop_spec(t: ProbeTracker) -> ProbeTracker {
    ProbeTracker {
        tick_period: t.tick_period,
        target_in_kbps: 0,
        target_pace: 0,
        pace: 0,
        delta: 0,
    }
}

/// The tracker state after `n` consecutive `inc_pace` steps.
pub open spec fn step_n(t: ProbeTracker, n: nat) -> ProbeTracker
    decreases n,
{
    if n == 0 {
        t
    } else {
        step_spec(step_n(t, (n - 1) as nat))
    }
}

impl ProbeTracker {
    /// Well-formedness: the target pace leaves arithmetic headroom, the step
    /// is the fifth of the target that `start_probe` set, and the pace never
    /// ran more than one step past the target.
    pub open spec fn wf(self) -> bool {
        &&& self.target_pace <= u64::MAX / 8
        &&& self.delta == self.target_pace / NUM_PROBE_REQUIRED
        &&& self.delta <= self.target_pace
        &&& self.pace <= self.target_pace + self.delta
    }

    /// A fresh, inactive tracker for a source ticking every `tick_period`
    /// milliseconds.
    pub fn new(tick_period: u64) -> (t: ProbeTracker)
        ensures
            t.wf(),
            t == (ProbeTracker {
                tick_period,
                target_in_kbps: 0,
                target_pace: 0,
                pace: 0,
                delta: 0,
            }),
    {
        ProbeTracker {
            tick_period,
            target_in_kbps: 0,
            target_pace: 0,
            delta: 0,
            pace: 0,
        }
    }

    /// Arm the tracker toward `additional_kbps` of probe bandwidth.
    ///
    /// The target pace is the probe packet size per tick that sustains the
    /// target bandwidth; the ramp starts one `delta` in. A target too small
    /// for the five-step ramp truncates `delta` to zero, and a target
    /// bandwidth (or tick period) small enough to truncate the target pace
    /// itself to zero arms a tracker that emits nothing and saturates on its
    /// first step — degenerate inputs degrade, they are not rejected.
    pub fn start_probe(&mut self, additional_kbps: u64)
        requires
            old(self).wf(),
            additional_kbps * old(self).tick_period <= u64::MAX,
        ensures
            final(self).wf(),
            *final(self) == start_spec(*old(self), additional_kbps),
            final(self).tick_period == old(self).tick_period,
            final(self).target_in_kbps == additional_kbps,
            final(self).target_pace == pace_target(additional_kbps, old(self).tick_period),
            final(self).delta == final(self).target_pace / NUM_PROBE_REQUIRED,
            final(self).pace == final(self).delta,
    {
        self.target_in_kbps = additional_kbps;

        let size_per_tick: u64 = (additional_kbps * self.tick_period) / 8;
        self.target_pace = size_per_tick;

        self.delta = self.target_pace / NUM_PROBE_REQUIRED;
        self.pace = self.delta;
    }

    /// One additive-increase step, as in the additive phase of AIMD: while
    /// the pace is below the target it grows by `delta` and the call reports
    /// that the ramp is still rising; at or above the target nothing changes
    /// and the call reports saturation.
    pub fn inc_pace(&mut self) -> (still_rising: bool)
        requires
            old(self).wf(),
        ensures
            final(self).wf(),
            *final(self) == step_spec(*old(self)),
            still_rising == (old(self).pace < old(self).target_pace),
            still_rising ==> final(self).pace == old(self).pace + old(self).delta,
            !still_rising ==> *final(self) == *old(self),
    {
        if self.pace < self.target_pace {
            self.pace = self.pace + self.delta;
            true
        } else {
            false
        }
    }

    /// Abandon probing: resets all four pacing attributes to zero, leaving
    /// the tracker inactive from any prior state.
    pub fn stop_probe(&mut self)
        ensures
            final(self).wf(),
            *final(self) == stop_spec(*old(self)),
            final(self).tick_period == old(self).tick_period,
            final(self).target_in_kbps == 0,
            final(self).target_pace == 0,
            final(self).pace == 0,
            final(self).delta == 0,
    {
        self.target_in_kbps = 0;
        self.target_pace = 0;
        self.pace = 0;
        self.delta = 0;
    }

    /// The probe unit this tick should emit: a sentinel-level unit of `pace`
    /// bytes iff a probe is active (`target_pace > 0`), nothing otherwise.
    /// Emitting does not advance the ramp; only `inc_pace` does.
    pub fn next(&self) -> (r: Option<DataUnit>)
        ensures
            self.target_pace > 0 ==> r == Some(DataUnit {
                level: PROBE_LEVEL,
                payload_size: self.pace,
            }),
            self.target_pace == 0 ==> r is None,
    {
        if self.target_pace > 0 {
            Some(DataUnit::probe(self.pace))
        } else {
            None
        }
    }
}

/// A pacing step never decreases the pace: below the target it adds exactly
/// `delta`, and at or above the target it changes nothing at all.
pub proof fn lemma_inc_pace_monotone(t: ProbeTracker)
    requires
        t.wf(),
    ensures
        step_spec(t).wf(),
        step_spec(t).pace >= t.pace,
        t.pace < t.target_pace ==> step_spec(t).pace == t.pace + t.delta,
        t.pace >= t.target_pace ==> step_spec(t) == t,
{
}

/// Across any run of pacing steps the pace sequence is non-decreasing, and
/// every intermediate state stays well-formed.
pub proof fn lemma_pace_monotone(t: ProbeTracker, m: nat, n: nat)
    requires
        t.wf(),
        m <= n,
    ensures
        step_n(t, n).wf(),
        step_n(t, m).pace <= step_n(t, n).pace,
    decreases n,
{
    if n > 0 {
        if m == n {
            lemma_pace_monotone(t, (n - 1) as nat, (n - 1) as nat);
        } else {
            lemma_pace_monotone(t, m, (n - 1) as nat);
        }
        lemma_inc_pace_monotone(step_n(t, (n - 1) as nat));
    }
}

/// Once the pace has reached the target, the tracker is a fixed point of
/// pacing: any number of further steps changes nothing.
pub proof fn lemma_saturated_stable(t: ProbeTracker, n: nat)
    requires
        t.wf(),
        t.pace >= t.target_pace,
    ensures
        step_n(t, n) == t,
    decreases n,
{
    if n > 0 {
        lemma_saturated_stable(t, (n - 1) as nat);
    }
}

/// Stopping resets all four pacing attributes to zero, however many pacing
/// steps came before, and keeps the tick period.
pub proof fn lemma_stop_resets(t: ProbeTracker, n: nat)
    ensures
        stop_spec(step_n(t, n)) == (ProbeTracker {
            tick_period: t.tick_period,
            target_in_kbps: 0,
            target_pace: 0,
            pace: 0,
            delta: 0,
        }),
    decreases n,
{
    if n > 0 {
        lemma_stop_resets(t, (n - 1) as nat);
    }
}

} // verus!
