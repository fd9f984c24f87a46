//! Traffic-generation core of a network-adaptation testbed: a simulated data
//! source that emits sized data units at a fixed tick cadence, reacts to
//! adaptation commands from an external controller, and performs active
//! bandwidth probing with an additive-increase pacing algorithm.
//!
//! The crate holds the verified per-instance logic: the data-unit model, the
//! probe pacer, and the per-event behaviour of the serialized emission loop.
//! The surrounding driver owns the timer, the channels and the telemetry
//! cells; it feeds every tick and every control signal through this state and
//! forwards what comes back.

mod datum;
mod probe;
mod source;

pub use datum::DataUnit;
pub use datum::PROBE_LEVEL;
pub use probe::NUM_PROBE_REQUIRED;
pub use probe::ProbeTracker;
pub use probe::lemma_inc_pace_monotone;
pub use probe::lemma_pace_monotone;
pub use probe::lemma_saturated_stable;
pub use probe::lemma_stop_resets;
pub use probe::pace_target;
pub use probe::start_spec;
pub use probe::step_n;
pub use probe::step_spec;
pub use probe::stop_spec;
pub use source::AdaptSignal;
pub use source::PolicyAction;
pub use source::TimerSource;
pub use source::lemma_counter_counts_every_tick;
pub use source::lemma_idle_tick;
pub use source::lemma_probe_done_latches_once;
pub use source::lemma_probe_done_sticky;
pub use source::lemma_probe_done_waits_for_saturation;
pub use source::run_ticks;
pub use source::signal_act;
pub use source::signal_step;
pub use source::sum_sizes;
pub use source::tick_bytes;
pub use source::tick_state;
pub use source::tick_units;
