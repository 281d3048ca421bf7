//! What a single log line says, once its text has been read.

use vstd::prelude::*;

use crate::event::{GcType, Millis, Timestamp};

verus! {

/// Occupancy of a region kind that reports its capacity (Eden, Survivor): the number of
/// regions before and after the collection, and the number available.
#[derive(Clone, Copy, Debug, PartialEq, Eq, Structural, Hash)]
pub struct RegionUsage {
    pub before: u64,
    pub after: u64,
    pub total: u64,
}

/// Occupancy of a region kind that reports no capacity (Old, Humongous).
#[derive(Clone, Copy, Debug, PartialEq, Eq, Structural, Hash)]
pub struct RegionChange {
    pub before: u64,
    pub after: u64,
}

/// Everything one line contributes to the event under construction.
///
/// `time` is set only for a line of a collection record whose first bracketed span is a
/// timestamp. `detected` is the type the line announces and `pause_marker` tells whether
/// it names a pause. The remaining fields are `Some` where the line holds a token of
/// that category.
#[derive(Clone, Copy, Debug, PartialEq, Eq, Structural, Hash)]
pub struct LineFacts {
    pub time: Option<Timestamp>,
    pub detected: GcType,
    pub pause_marker: bool,
    pub pause_time: Option<Millis>,
    pub eden: Option<RegionUsage>,
    pub survivor: Option<RegionUsage>,
    pub old_gen: Option<RegionChange>,
    pub humongous: Option<RegionChange>,
}

impl LineFacts {
    /// The facts of a line that says nothing.
    pub open spec fn spec_silent() -> LineFacts {
        LineFacts {
            time: None,
            detected: GcType::Unknown,
            pause_marker: false,
            pause_time: None,
            eden: None,
            survivor: None,
            old_gen: None,
            humongous: None,
        }
    }

    /// The facts of a line that says nothing.
    #[verifier::when_used_as_spec(spec_silent)]
    pub fn silent() -> (facts: LineFacts)
        ensures
            facts == LineFacts::spec_silent(),
    {
        LineFacts {
            time: None,
            detected: GcType::Unknown,
            pause_marker: false,
            pause_time: None,
            eden: None,
            survivor: None,
            old_gen: None,
            humongous: None,
        }
    }

    /// The line announces a concurrent cycle and names no pause: the event under
    /// construction is closed by it.
    pub open spec fn closes_cycle(self) -> bool {
        self.detected == GcType::Concurrent && !self.pause_marker
    }

    /// The line ends the event under construction, one way or the other.
    pub open spec fn resets(self) -> bool {
        self.closes_cycle() || self.humongous is Some
    }
}

} // verus!
