//! Reconstruction of garbage-collection events from the lines of a collector log.
//!
//! A collector reports one collection over several lines, not always next to each other.
//! This crate classifies each line, gathers what the lines say into the event under
//! construction, and decides which line completes it.
//!
//! - [`classifier`] tells which type of collection a line announces.
//! - [`extract`] reads the tokens of a line into [`LineFacts`]; [`text`] holds the
//!   substring search and the reading of numbers that it uses.
//! - [`accumulator`] is the state machine from facts to events, with the laws it obeys.
//! - [`parser`] runs a whole log through the two.
//! - [`summary`] tallies events by type, [`chart`] selects what a chart shows, and
//!   [`args`] holds the settings of a run.
//! - [`trusted`] holds the calls into the `regex` and `chrono` crates.
//!
//! Each field of an event has its write policy: the time and the type are set once and
//! stay, the pause flag is only ever raised, and the pause duration and the region
//! counts are overwritten by every line that carries them. A token that is found but
//! holds a number that cannot be read fails the whole log.

pub mod accumulator;
pub mod args;
pub mod chart;
pub mod classifier;
pub mod event;
pub mod extract;
pub mod facts;
pub mod parser;
pub mod summary;
pub mod text;
pub mod trusted;

pub use accumulator::Accumulator;
pub use args::{parse_mode, Args, ChartMode};
pub use chart::{charted_events, events_with_pause_time, peak_region_count, time_span};
pub use classifier::detect_gc_type;
pub use event::{GCEvent, GcType, Millis, Timestamp};
pub use extract::{extract_line, parse_gc_time, Field};
pub use facts::{LineFacts, RegionChange, RegionUsage};
pub use parser::{parse_gc_events, ParseError};
pub use summary::{count_for, count_gc_types};
