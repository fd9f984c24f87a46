use vstd::prelude::*;

use crate::datum::DataUnit;
use crate::datum::PROBE_LEVEL;
use crate::probe::ProbeTracker;
use crate::probe::start_spec;
use crate::probe::step_spec;
use crate::probe::stop_spec;

verus! {

/// Inbound command from the external controller, applied in arrival order.
#[derive(Clone, Copy, PartialEq, Eq, Structural, Debug)]
pub enum AdaptSignal {
    /// Ask the policy to move to the given rate target, in kilobits per
    /// second.
    ToRate(u64),
    /// Ask the policy to back out one level of degradation.
    DecreaseDegradation,
    /// Begin a probing session toward the given bandwidth, in kilobits per
    /// second.
    StartProbe(u64),
    /// Advance the probe ramp one additive-increase step.
    IncreaseProbePace,
    /// End the probing session and reset the pacer.
    StopProbe,
}

/// What the driver must do on the size-and-level policy after a control
/// signal was handled: the two delegating signals become policy calls, the
/// probing signals are handled entirely inside `TimerSource`.
#[derive(Clone, Copy, PartialEq, Eq, Structural, Debug)]
pub enum PolicyAction {
    /// Nothing to delegate.
    NoOp,
    /// Call the policy's rate-adaptation entry with this rate target, in
    /// kilobits per second.
    Adapt(u64),
    /// Call the policy's degradation-decrease entry.
    DecDegradation,
}

/// The serialized per-instance state of the emission loop: the probe pacer,
/// the emitted-byte counter and the probe-completion flag.
///
/// The surrounding driver owns the recurring timer, the control inbox and
/// the outbound data queue. It feeds every timer event through `on_tick` and
/// every control signal through `on_signal`, one at a time and in arrival
/// order, enqueues the returned data units, makes the returned policy call,
/// and mirrors `bytes_emitted` and `probe_done` into whatever cells its
/// external readers poll.
pub struct TimerSource {
    /// The probe pacer, inactive until a `StartProbe` signal arrives.
    pub prober: ProbeTracker,

    /// Total bytes handed to the outbound data queue, probe units included;
    /// grows monotonically and only on non-idle ticks.
    pub bytes_emitted: u64,

    /// Set once the probe ramp saturates; never cleared by the loop itself,
    /// not even by a later `StartProbe` or `StopProbe` — it stays set until
    /// the owner resets whatever cell mirrors it.
    pub probe_done: bool,
}

/// The bytes a tick contributes to the emitted-byte counter: nothing on an
/// idle tick, otherwise the regular unit's size plus, while a probe is
/// active, the probe unit's size.
pub open spec fn tick_bytes(s: TimerSource, size: u64) -> int {
    if size == 0 {
        0int
    } else if s.prober.target_pace > 0 {
        s.prober.pace + size
    } else {
        size as int
    }
}

/// The data units a tick hands to the outbound queue, probe unit first:
/// nothing on an idle tick, otherwise the regular unit preceded by a probe
/// unit while a probe is active.
pub open spec fn tick_units(s: TimerSource, size: u64, level: i64) -> Seq<DataUnit> {
    if size == 0 {
        Seq::<DataUnit>::empty()
    } else if s.prober.target_pace > 0 {
        seq![
            DataUnit { level: PROBE_LEVEL, payload_size: s.prober.pace },
            DataUnit { level, payload_size: size },
        ]
    } else {
        seq![DataUnit { level, payload_size: size }]
    }
}

/// The state after a tick: only the byte counter moves; the pacer and the
/// probe-completion flag are untouched.
pub open spec fn tick_state(s: TimerSource, size: u64) -> TimerSource {
    TimerSource { bytes_emitted: ((s.bytes_emitted + tick_bytes(s, size)) as u64), ..s }
}

/// The policy call a control signal asks of the driver: only the two
/// delegating signals become calls.
pub open spec fn signal_act(sig: AdaptSignal) -> PolicyAction {
    match sig {
        AdaptSignal::ToRate(rate) => PolicyAction::Adapt(rate),
        AdaptSignal::DecreaseDegradation => PolicyAction::DecDegradation,
        AdaptSignal::StartProbe(_) => PolicyAction::NoOp,
        AdaptSignal::IncreaseProbePace => PolicyAction::NoOp,
        AdaptSignal::StopProbe => PolicyAction::NoOp,
    }
}

/// The state after a control signal. The delegating signals leave it alone;
/// `StartProbe` arms the pacer; `IncreaseProbePace` advances it and latches
/// `probe_done` on a saturated step; `StopProbe` resets the pacer. No signal
/// moves the byte counter, and none clears `probe_done`.
pub open spec fn signal_step(s: TimerSource, sig: AdaptSignal) -> TimerSource {
    match sig {
        AdaptSignal::ToRate(_) => s,
        AdaptSignal::DecreaseDegradation => s,
        AdaptSignal::StartProbe(kbps) => TimerSource { prober: start_spec(s.prober, kbps), ..s },
        AdaptSignal::IncreaseProbePace => TimerSource {
            prober: step_spec(s.prober),
            probe_done: s.probe_done || s.prober.pace >= s.prober.target_pace,
            ..s
        },
        AdaptSignal::StopProbe => TimerSource { prober: stop_spec(s.prober), ..s },
    }
}

impl TimerSource {
    /// Well-formedness: the pacer is well-formed.
    pub open spec fn wf(self) -> bool {
        self.prober.wf()
    }

    /// Fresh per-instance state for a source whose policy reports a tick
    /// period of `tick_period` milliseconds: an inactive pacer, a zero byte
    /// counter, and a clear probe-completion flag.
    pub fn spawn(tick_period: u64) -> (s: TimerSource)
        ensures
            s.wf(),
            s.prober == (ProbeTracker {
                tick_period,
                target_in_kbps: 0,
                target_pace: 0,
                pace: 0,
                delta: 0,
            }),
            s.bytes_emitted == 0,
            !s.probe_done,
    {
        TimerSource {
            prober: ProbeTracker::new(tick_period),
            bytes_emitted: 0,
            probe_done: false,
        }
    }

    /// One timer event. `size` is what the policy's next-chunk call returned
    /// and `level` its current level.
    ///
    /// A zero size is an idle tick: the whole tick is skipped — no data
    /// unit, no probe unit, no counter change. Otherwise, while a probe is
    /// active its probe unit is emitted ahead of the regular unit, and the
    /// byte counter grows by the size of every unit emitted.
    pub fn on_tick(&mut self, size: u64, level: i64) -> (out: Vec<DataUnit>)
        requires
            old(self).wf(),
            old(self).bytes_emitted + tick_bytes(*old(self), size) <= u64::MAX,
        ensures
            final(self).wf(),
            *final(self) == tick_state(*old(self), size),
            final(self).bytes_emitted == old(self).bytes_emitted + tick_bytes(*old(self), size),
            out@ == tick_units(*old(self), size, level),
    {
        let mut out: Vec<DataUnit> = Vec::new();
        if size == 0 {
            assert(out@ =~= tick_units(*old(self), size, level));
            return out;
        }

        let probe_unit = self.prober.next();
        if let Some(p) = probe_unit {
            self.bytes_emitted = self.bytes_emitted + p.len();
            out.push(p);
        }

        let d = DataUnit::new(level, size);
        self.bytes_emitted = self.bytes_emitted + d.len();
        out.push(d);

        assert(out@ =~= tick_units(*old(self), size, level));
        out
    }

    /// Handle one control signal.
    ///
    /// The probing signals are applied to the pacer here; the returned
    /// action tells the driver which policy call the delegating signals
    /// require. `IncreaseProbePace` latches `probe_done` on the call that
    /// finds the ramp already at or past its target; nothing ever clears it.
    pub fn on_signal(&mut self, sig: AdaptSignal) -> (act: PolicyAction)
        requires
            old(self).wf(),
            sig matches AdaptSignal::StartProbe(kbps)
                ==> kbps * old(self).prober.tick_period <= u64::MAX,
        ensures
            final(self).wf(),
            *final(self) == signal_step(*old(self), sig),
            act == signal_act(sig),
            final(self).bytes_emitted == old(self).bytes_emitted,
            old(self).probe_done ==> final(self).probe_done,
    {
        match sig {
            AdaptSignal::ToRate(rate) => PolicyAction::Adapt(rate),
            AdaptSignal::DecreaseDegradation => PolicyAction::DecDegradation,
            AdaptSignal::StartProbe(kbps) => {
                self.prober.start_probe(kbps);
                PolicyAction::NoOp
            },
            AdaptSignal::IncreaseProbePace => {
                if !self.prober.inc_pace() {
                    self.probe_done = true;
                }
                PolicyAction::NoOp
            },
            AdaptSignal::StopProbe => {
                self.prober.stop_probe();
                PolicyAction::NoOp
            },
        }
    }
}

/// Saturation latches the probe-complete flag exactly once per probing
/// session: the first pacing step that finds the ramp at or past its target
/// turns the flag from clear to set and leaves the pacer untouched, and
/// every further pacing step changes nothing at all — the flag cannot flip
/// again.
pub proof fn lemma_probe_done_latches_once(s: TimerSource)
    requires
        s.wf(),
        s.prober.pace >= s.prober.target_pace,
        !s.probe_done,
    ensures
        ({
            let s1 = signal_step(s, AdaptSignal::IncreaseProbePace);
            &&& s1.probe_done
            &&& s1.prober == s.prober
            &&& s1.bytes_emitted == s.bytes_emitted
            &&& signal_step(s1, AdaptSignal::IncreaseProbePace) == s1
        }),
{
}

/// While the ramp is still below its target, a pacing step does not touch
/// the probe-complete flag.
pub proof fn lemma_probe_done_waits_for_saturation(s: TimerSource)
    requires
        s.prober.pace < s.prober.target_pace,
    ensures
        signal_step(s, AdaptSignal::IncreaseProbePace).probe_done == s.probe_done,
{
}

/// Once set, the probe-complete flag survives every control signal and
/// every tick: nothing the loop handles clears it.
pub proof fn lemma_probe_done_sticky(s: TimerSource, sig: AdaptSignal, size: u64)
    requires
        s.probe_done,
    ensures
        signal_step(s, sig).probe_done,
        tick_state(s, size).probe_done,
{
}

/// An idle tick — the policy returned size zero — leaves the state
/// untouched and emits nothing, not even a probe unit while a probe is
/// active.
pub proof fn lemma_idle_tick(s: TimerSource, level: i64)
    ensures
        tick_state(s, 0) == s,
        tick_units(s, 0, level) == Seq::<DataUnit>::empty(),
{
}

/// The sum of the chunk sizes a run of ticks got from the policy.
pub open spec fn sum_sizes(sizes: Seq<u64>) -> int
    decreases sizes.len(),
{
    if sizes.len() == 0 {
        0int
    } else {
        sizes[0] + sum_sizes(sizes.drop_first())
    }
}

/// The state after a run of ticks whose chunk sizes came back from the
/// policy as `sizes`, in order.
pub open spec fn run_ticks(s: TimerSource, sizes: Seq<u64>) -> TimerSource
    decreases sizes.len(),
{
    if sizes.len() == 0 {
        s
    } else {
        run_ticks(tick_state(s, sizes[0]), sizes.drop_first())
    }
}

proof fn lemma_sum_sizes_nonneg(sizes: Seq<u64>)
    ensures
        sum_sizes(sizes) >= 0,
    decreases sizes.len(),
{
    if sizes.len() > 0 {
        lemma_sum_sizes_nonneg(sizes.drop_first());
    }
}

/// With no probe active, a run of ticks whose sizes are all nonzero raises
/// the byte counter by exactly the sum of those sizes, and touches nothing
/// else.
pub proof fn lemma_counter_counts_every_tick(s: TimerSource, sizes: Seq<u64>)
    requires
        s.prober.target_pace == 0,
        forall|i: int| 0 <= i < sizes.len() ==> sizes[i] > 0,
        s.bytes_emitted + sum_sizes(sizes) <= u64::MAX,
    ensures
        run_ticks(s, sizes).bytes_emitted == s.bytes_emitted + sum_sizes(sizes),
        run_ticks(s, sizes).prober == s.prober,
        run_ticks(s, sizes).probe_done == s.probe_done,
    decreases sizes.len(),
{
    if sizes.len() > 0 {
        let rest = sizes.drop_first();
        lemma_sum_sizes_nonneg(rest);
        let s1 = tick_state(s, sizes[0]);
        assert(s1.bytes_emitted == s.bytes_emitted + sizes[0]);
        assert forall|i: int| 0 <= i < rest.len() implies rest[i] > 0 by {
            assert(rest[i] == sizes[i + 1]);
        }
        lemma_counter_counts_every_tick(s1, rest);
    }
}

} // verus!
