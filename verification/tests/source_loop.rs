use runtime::AdaptSignal;
use runtime::DataUnit;
use runtime::PolicyAction;
use runtime::TimerSource;

#[test]
fn probe_complete_latches_on_fifth_step() {
    let mut s = TimerSource::spawn(20);
    s.on_signal(AdaptSignal::StartProbe(800));
    assert!(!s.probe_done);
    for expected in [800, 1200, 1600, 2000] {
        s.on_signal(AdaptSignal::IncreaseProbePace);
        assert_eq!(s.prober.pace, expected);
        assert!(!s.probe_done);
    }
    // The fifth pacing step finds the ramp saturated: it sets the flag and
    // leaves the pacer alone.
    s.on_signal(AdaptSignal::IncreaseProbePace);
    assert!(s.probe_done);
    assert_eq!(s.prober.pace, 2000);
    // Further steps change nothing; the flag does not flip again.
    s.on_signal(AdaptSignal::IncreaseProbePace);
    assert!(s.probe_done);
    assert_eq!(s.prober.pace, 2000);
}

#[test]
fn probe_complete_is_sticky() {
    let mut s = TimerSource::spawn(20);
    s.on_signal(AdaptSignal::StartProbe(0));
    s.on_signal(AdaptSignal::IncreaseProbePace);
    assert!(s.probe_done);
    // Neither stopping nor restarting a probe clears the flag, and neither
    // do ticks or delegating signals.
    s.on_signal(AdaptSignal::StopProbe);
    assert!(s.probe_done);
    s.on_signal(AdaptSignal::StartProbe(800));
    assert!(s.probe_done);
    s.on_signal(AdaptSignal::ToRate(300));
    assert!(s.probe_done);
    s.on_tick(100, 1);
    assert!(s.probe_done);
}

#[test]
fn counter_sums_sizes_over_ticks() {
    let mut s = TimerSource::spawn(20);
    let mut total = 0u64;
    for (size, level) in [(10u64, 0i64), (20, 1), (30, 2)] {
        let out = s.on_tick(size, level);
        total += size;
        assert_eq!(out, vec![DataUnit::new(level, size)]);
        assert_eq!(s.bytes_emitted, total);
    }
    assert_eq!(s.bytes_emitted, 60);
}

#[test]
fn idle_tick_emits_and_counts_nothing() {
    let mut s = TimerSource::spawn(20);
    s.on_signal(AdaptSignal::StartProbe(800));
    let out = s.on_tick(25, 1);
    assert_eq!(out.len(), 2);
    assert_eq!(s.bytes_emitted, 425);
    // A zero-size tick skips everything: no regular unit, no probe unit even
    // though a probe is active, no counter movement.
    let out = s.on_tick(0, 1);
    assert!(out.is_empty());
    assert_eq!(s.bytes_emitted, 425);
}

#[test]
fn zero_target_probe_emits_no_probe_unit() {
    let mut s = TimerSource::spawn(20);
    s.on_signal(AdaptSignal::StartProbe(0));
    assert_eq!(s.prober.target_pace, 0);
    let out = s.on_tick(50, 1);
    assert_eq!(out, vec![DataUnit::new(1, 50)]);
    assert_eq!(s.bytes_emitted, 50);
}

#[test]
fn probe_unit_precedes_regular_unit() {
    let mut s = TimerSource::spawn(20);
    s.on_signal(AdaptSignal::StartProbe(800));
    s.on_signal(AdaptSignal::IncreaseProbePace);
    let out = s.on_tick(100, 4);
    assert_eq!(out, vec![DataUnit::probe(800), DataUnit::new(4, 100)]);
    assert_eq!(s.bytes_emitted, 900);
}

#[test]
fn delegating_signals_become_policy_calls() {
    let mut s = TimerSource::spawn(20);
    assert_eq!(s.on_signal(AdaptSignal::ToRate(500)), PolicyAction::Adapt(500));
    assert_eq!(
        s.on_signal(AdaptSignal::DecreaseDegradation),
        PolicyAction::DecDegradation
    );
    // Neither delegating signal touches the loop's own state.
    assert_eq!(s.bytes_emitted, 0);
    assert_eq!(s.prober.target_pace, 0);
    assert!(!s.probe_done);
    // The probing signals are handled internally and ask nothing of the
    // policy.
    assert_eq!(s.on_signal(AdaptSignal::StartProbe(800)), PolicyAction::NoOp);
    assert_eq!(s.on_signal(AdaptSignal::IncreaseProbePace), PolicyAction::NoOp);
    assert_eq!(s.on_signal(AdaptSignal::StopProbe), PolicyAction::NoOp);
}

#[test]
fn spawn_starts_inactive_and_clear() {
    let s = TimerSource::spawn(33);
    assert_eq!(s.prober.tick_period, 33);
    assert_eq!(s.prober.target_in_kbps, 0);
    assert_eq!(s.prober.target_pace, 0);
    assert_eq!(s.prober.pace, 0);
    assert_eq!(s.prober.delta, 0);
    assert_eq!(s.bytes_emitted, 0);
    assert!(!s.probe_done);
}
