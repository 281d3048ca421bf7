//! The data model: one reconstructed collection event and the values it carries.

use vstd::arithmetic::power::pow;
use vstd::prelude::*;

verus! {

/// The kind of collection a log record belongs to.
#[derive(Clone, Copy, Debug, PartialEq, Eq, Structural, Hash)]
pub enum GcType {
    Young,
    Full,
    Concurrent,
    Unknown,
}

impl GcType {
    /// The number that stands for the type where a number is needed, as for the key of
    /// a hash map: 0 for `Young`, 1 for `Full`, 2 for `Concurrent`, 3 for `Unknown`.
    pub open spec fn spec_code(self) -> u64 {
        match self {
            GcType::Young => 0,
            GcType::Full => 1,
            GcType::Concurrent => 2,
            GcType::Unknown => 3,
        }
    }

    /// The type that a number stands for, `None` for a number that stands for none.
    pub open spec fn spec_from_code(code: u64) -> Option<GcType> {
        if code == 0 {
            Some(GcType::Young)
        } else if code == 1 {
            Some(GcType::Full)
        } else if code == 2 {
            Some(GcType::Concurrent)
        } else if code == 3 {
            Some(GcType::Unknown)
        } else {
            None
        }
    }

    /// The number that stands for the type.
    #[verifier::when_used_as_spec(spec_code)]
    pub fn code(self) -> (code: u64)
        ensures
            code == self.spec_code(),
            GcType::spec_from_code(code) == Some(self),
    {
        match self {
            GcType::Young => 0,
            GcType::Full => 1,
            GcType::Concurrent => 2,
            GcType::Unknown => 3,
        }
    }

    /// The type that a number stands for.
    #[verifier::when_used_as_spec(spec_from_code)]
    pub fn from_code(code: u64) -> (gc_type: Option<GcType>)
        ensures
            gc_type == GcType::spec_from_code(code),
            gc_type matches Some(found) ==> found.spec_code() == code,
    {
        if code == 0 {
            Some(GcType::Young)
        } else if code == 1 {
            Some(GcType::Full)
        } else if code == 2 {
            Some(GcType::Concurrent)
        } else if code == 3 {
            Some(GcType::Unknown)
        } else {
            None
        }
    }
}

/// An instant with its offset from UTC, as plain numbers.
///
/// `secs` counts the non-leap seconds since 1970-01-01T00:00:00 UTC and `nanos` the
/// nanoseconds since the last full second (a leap second shows as a value of one
/// billion or more). `offset_secs` is what has to be added to UTC to get the local
/// time that the log printed.
#[derive(Clone, Copy, Debug, PartialEq, Eq, Structural, Hash)]
pub struct Timestamp {
    pub secs: i64,
    pub nanos: u32,
    pub offset_secs: i32,
}

/// A duration in milliseconds, kept as the decimal number that the log printed:
/// `whole + frac / 10^frac_digits`.
///
/// `12.345` is `whole = 12, frac = 345, frac_digits = 3`; `0.050` is
/// `whole = 0, frac = 50, frac_digits = 3`.
#[derive(Clone, Copy, Debug, PartialEq, Eq, Structural, Hash)]
pub struct Millis {
    pub whole: u64,
    pub frac: u64,
    pub frac_digits: usize,
}

impl Millis {
    /// The fraction is less than one: `frac` has no more than `frac_digits` digits.
    pub open spec fn well_formed(self) -> bool {
        self.frac < pow(10, self.frac_digits as nat)
    }
}

/// One collection event, put together from the lines that report it.
///
/// A field that is `None` was not seen in the log: it is unknown, not zero.
#[derive(Clone, Copy, Debug, PartialEq, Eq, Structural, Hash)]
pub struct GCEvent {
    pub time: Option<Timestamp>,
    pub gc_type: GcType,
    pub has_pause: bool,
    pub pause_time_ms: Option<Millis>,
    pub eden_before: Option<u64>,
    pub eden_after: Option<u64>,
    pub eden_total: Option<u64>,
    pub survivor_before: Option<u64>,
    pub survivor_after: Option<u64>,
    pub survivor_total: Option<u64>,
    pub old_before: Option<u64>,
    pub old_after: Option<u64>,
    pub humongous_before: Option<u64>,
    pub humongous_after: Option<u64>,
}

impl GCEvent {
    /// The event that nothing has been written to yet.
    pub open spec fn spec_blank() -> GCEvent {
        GCEvent {
            time: None,
            gc_type: GcType::Unknown,
            has_pause: false,
            pause_time_ms: None,
            eden_before: None,
            eden_after: None,
            eden_total: None,
            survivor_before: None,
            survivor_after: None,
            survivor_total: None,
            old_before: None,
            old_after: None,
            humongous_before: None,
            humongous_after: None,
        }
    }

    /// True when no region field of the event is set.
    pub open spec fn no_regions(self) -> bool {
        &&& self.eden_before is None
        &&& self.eden_after is None
        &&& self.eden_total is None
        &&& self.survivor_before is None
        &&& self.survivor_after is None
        &&& self.survivor_total is None
        &&& self.old_before is None
        &&& self.old_after is None
        &&& self.humongous_before is None
        &&& self.humongous_after is None
    }

    /// A fresh event: type `Unknown`, no pause, every other field absent.
    #[verifier::when_used_as_spec(spec_blank)]
    pub fn blank() -> (event: GCEvent)
        ensures
            event == GCEvent::spec_blank(),
    {
        GCEvent {
            time: None,
            gc_type: GcType::Unknown,
            has_pause: false,
            pause_time_ms: None,
            eden_before: None,
            eden_after: None,
            eden_total: None,
            survivor_before: None,
            survivor_after: None,
            survivor_total: None,
            old_before: None,
            old_after: None,
            humongous_before: None,
            humongous_after: None,
        }
    }
}

impl Default for GCEvent {
    fn default() -> (event: GCEvent)
        ensures
            event == GCEvent::spec_blank(),
    {
        GCEvent::blank()
    }
}

} // verus!
