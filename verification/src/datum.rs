use vstd::prelude::*;

verus! {

/// Quality level carried by probe units: a sentinel that lets the consumer
/// tell probes apart from regular data, whose levels are policy-chosen.
pub const PROBE_LEVEL: i64 = -1;

/// The immutable value emitted once per tick or injected as a probe: a
/// quality level and a payload size in bytes. A single type covers both;
/// the sentinel level is the only discriminator.
#[derive(Clone, Copy, PartialEq, Eq, Structural, Debug)]
pub struct DataUnit {
    /// Quality/rate tier; `PROBE_LEVEL` for probe units.
    pub level: i64,
    /// Payload size in bytes.
    pub payload_size: u64,
}

impl DataUnit {
    /// A regular data unit with an explicit level and payload size.
    pub fn new(level: i64, payload_size: u64) -> (d: DataUnit)
        ensures
            d == (DataUnit { level, payload_size }),
    {
        DataUnit { level, payload_size }
    }

    /// A probe unit of the given size, tagged with the sentinel level.
    pub fn probe(payload_size: u64) -> (d: DataUnit)
        ensures
            d == (DataUnit { level: PROBE_LEVEL, payload_size }),
    {
        DataUnit { level: PROBE_LEVEL, payload_size }
    }

    /// The number of bytes this unit contributes to the emitted-byte counter.
    pub fn len(&self) -> (n: u64)
        ensures
            n == self.payload_size,
    {
        self.payload_size
    }

    /// Whether this unit is a probe rather than regular data.
    pub fn is_probe(&self) -> (b: bool)
        ensures
            b == (self.level == PROBE_LEVEL),
    {
        self.level == PROBE_LEVEL
    }
}

} // verus!
