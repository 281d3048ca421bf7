//! The state machine that turns the facts of successive lines into events.
//!
//! One event is under construction at any time. A line first leaves its timestamp and
//! its classification on it, then its data fields. Two things end an event: a line that
//! announces a concurrent cycle without a pause appends it as it stands, and a line with
//! a Humongous token appends it if a pause was seen and drops it otherwise. Either way a
//! blank event takes its place.

use vstd::prelude::*;

use crate::event::{GCEvent, GcType, Timestamp};
use crate::facts::{LineFacts, RegionChange, RegionUsage};

verus! {

impl GCEvent {
    /// The event with `time` put in, unless it has a time already or `time` is absent:
    /// the first timestamp of an event stays.
    pub open spec fn with_time(self, time: Option<Timestamp>) -> GCEvent {
        if self.time is None {
            GCEvent { time, ..self }
        } else {
            self
        }
    }

    /// The event with its type set to `detected`, unless it has a type already: the
    /// first classification of an event stays.
    pub open spec fn with_type(self, detected: GcType) -> GCEvent {
        if self.gc_type == GcType::Unknown {
            GCEvent { gc_type: detected, ..self }
        } else {
            self
        }
    }

    /// The event after the timestamp and the classification of a line: the time and the
    /// type are set where they were not, and a pause marker on a classified line sets
    /// `has_pause`. A line that announces nothing leaves type and pause alone.
    pub open spec fn classified_by(self, facts: LineFacts) -> GCEvent {
        let timed = self.with_time(facts.time);
        if facts.detected == GcType::Unknown {
            timed
        } else if facts.pause_marker {
            GCEvent { has_pause: true, ..timed.with_type(facts.detected) }
        } else {
            timed.with_type(facts.detected)
        }
    }

    /// The event with the Eden occupancy overwritten.
    pub open spec fn with_eden(self, usage: RegionUsage) -> GCEvent {
        GCEvent {
            eden_before: Some(usage.before),
            eden_after: Some(usage.after),
            eden_total: Some(usage.total),
            ..self
        }
    }

    /// The event with the Survivor occupancy overwritten.
    pub open spec fn with_survivor(self, usage: RegionUsage) -> GCEvent {
        GCEvent {
            survivor_before: Some(usage.before),
            survivor_after: Some(usage.after),
            survivor_total: Some(usage.total),
            ..self
        }
    }

    /// The event with the Old occupancy overwritten.
    pub open spec fn with_old(self, change: RegionChange) -> GCEvent {
        GCEvent { old_before: Some(change.before), old_after: Some(change.after), ..self }
    }

    /// The event with the Humongous occupancy overwritten.
    pub open spec fn with_humongous(self, change: RegionChange) -> GCEvent {
        GCEvent {
            humongous_before: Some(change.before),
            humongous_after: Some(change.after),
            ..self
        }
    }

    /// The event after the pause duration and the Eden, Survivor and Old tokens of a
    /// line: each one that is present overwrites what the event held.
    pub open spec fn with_fields(self, facts: LineFacts) -> GCEvent {
        let a = match facts.eden {
            Some(usage) => self.with_eden(usage),
            None => self,
        };
        let b = match facts.pause_time {
            Some(duration) => GCEvent { pause_time_ms: Some(duration), ..a },
            None => a,
        };
        let c = match facts.survivor {
            Some(usage) => b.with_survivor(usage),
            None => b,
        };
        match facts.old_gen {
            Some(change) => c.with_old(change),
            None => c,
        }
    }

    /// The event that receives the data fields of a line, with those fields written: the
    /// event under construction after the line's classification, or a blank one where
    /// the line has just closed it.
    pub open spec fn gathering(self, facts: LineFacts) -> GCEvent {
        if facts.closes_cycle() {
            GCEvent::spec_blank().with_fields(facts)
        } else {
            self.classified_by(facts).with_fields(facts)
        }
    }

    /// The events that a line appends to the output when `self` is under construction,
    /// in the order in which they are appended.
    pub open spec fn emitted_by(self, facts: LineFacts) -> Seq<GCEvent> {
        let closed = if facts.closes_cycle() {
            seq![self.classified_by(facts)]
        } else {
            Seq::<GCEvent>::empty()
        };
        let gated = match facts.humongous {
            Some(change) if self.gathering(facts).has_pause => seq![
                self.gathering(facts).with_humongous(change),
            ],
            _ => Seq::<GCEvent>::empty(),
        };
        closed + gated
    }

    /// The event under construction after a line.
    pub open spec fn succeeded_by(self, facts: LineFacts) -> GCEvent {
        if facts.humongous is Some {
            GCEvent::spec_blank()
        } else {
            self.gathering(facts)
        }
    }
}

/// The event under construction and the events completed so far.
#[derive(Debug)]
pub struct Accumulator {
    pub current: GCEvent,
    pub events: Vec<GCEvent>,
}

impl Accumulator {
    /// An accumulator that has seen no line: a blank event, no output.
    pub fn new() -> (acc: Accumulator)
        ensures
            acc.current == GCEvent::spec_blank(),
            acc.events@ == Seq::<GCEvent>::empty(),
    {
        Accumulator { current: GCEvent::blank(), events: Vec::new() }
    }

    /// Takes in the facts of the next line.
    pub fn feed(&mut self, facts: &LineFacts)
        ensures
            final(self).current == old(self).current.succeeded_by(*facts),
            final(self).events@ == old(self).events@ + old(self).current.emitted_by(*facts),
    {
        let ghost before = self.current;
        let ghost output = self.events@;
        // Timestamp and classification.
        if self.current.time.is_none() {
            self.current.time = facts.time;
        }
        match facts.detected {
            GcType::Unknown => {},
            detected => {
                match self.current.gc_type {
                    GcType::Unknown => {
                        self.current.gc_type = detected;
                    },
                    _ => {},
                }
                if facts.pause_marker {
                    self.current.has_pause = true;
                } else {
                    match detected {
                        GcType::Concurrent => {
                            self.events.push(self.current);
                            self.current = GCEvent::blank();
                        },
                        _ => {},
                    }
                }
            },
        }
        // Data fields: each one present overwrites.
        if let Some(usage) = facts.eden {
            self.current.eden_before = Some(usage.before);
            self.current.eden_after = Some(usage.after);
            self.current.eden_total = Some(usage.total);
        }
        if let Some(duration) = facts.pause_time {
            self.current.pause_time_ms = Some(duration);
        }
        if let Some(usage) = facts.survivor {
            self.current.survivor_before = Some(usage.before);
            self.current.survivor_after = Some(usage.after);
            self.current.survivor_total = Some(usage.total);
        }
        if let Some(change) = facts.old_gen {
            self.current.old_before = Some(change.before);
            self.current.old_after = Some(change.after);
        }
        // The Humongous token ends the event.
        if let Some(change) = facts.humongous {
            self.current.humongous_before = Some(change.before);
            self.current.humongous_after = Some(change.after);
            if self.current.has_pause {
                self.events.push(self.current);
            }
            self.current = GCEvent::blank();
        }
        assert(self.events@ =~= output + before.emitted_by(*facts));
    }

    /// Ends the run and hands out the completed events. The event under construction is
    /// not among them: what no line has ended is dropped.
    pub fn finish(self) -> (events: Vec<GCEvent>)
        ensures
            events@ == self.events@,
    {
        self.events
    }
}

/// The event under construction after a run of lines, given by their facts, that began
/// with `start` under construction.
pub open spec fn current_after(start: GCEvent, lines: Seq<LineFacts>) -> GCEvent
    decreases lines.len(),
{
    if lines.len() == 0 {
        start
    } else {
        current_after(start, lines.drop_last()).succeeded_by(lines.last())
    }
}

/// The events that a run of lines appends, in order, when it began with `start` under
/// construction.
pub open spec fn events_after(start: GCEvent, lines: Seq<LineFacts>) -> Seq<GCEvent>
    decreases lines.len(),
{
    if lines.len() == 0 {
        Seq::<GCEvent>::empty()
    } else {
        events_after(start, lines.drop_last()) + current_after(
            start,
            lines.drop_last(),
        ).emitted_by(lines.last())
    }
}

/// The type of an event is sticky. Once the event under construction has a type, a line
/// does not change it, whatever the line announces: every event that the line appends
/// carries that type, and so does the event under construction afterwards unless the
/// line has ended it.
pub proof fn lemma_type_is_sticky(current: GCEvent, facts: LineFacts)
    requires
        current.gc_type != GcType::Unknown,
    ensures
        current.classified_by(facts).gc_type == current.gc_type,
        forall|i: int|
            0 <= i < current.emitted_by(facts).len() ==> (#[trigger] current.emitted_by(
                facts,
            )[i]).gc_type == current.gc_type,
        !facts.resets() ==> current.succeeded_by(facts).gc_type == current.gc_type,
{
}

/// Nothing is appended by a run of lines none of which ends the event under
/// construction: what such a run has gathered is still under construction at its end.
pub proof fn lemma_no_reset_no_event(start: GCEvent, lines: Seq<LineFacts>)
    requires
        forall|i: int| 0 <= i < lines.len() ==> !(#[trigger] lines[i]).resets(),
    ensures
        events_after(start, lines) == Seq::<GCEvent>::empty(),
    decreases lines.len(),
{
    if lines.len() > 0 {
        let earlier = lines.drop_last();
        assert forall|i: int| 0 <= i < earlier.len() implies !(#[trigger] earlier[i]).resets() by {
            assert(earlier[i] == lines[i]);
        }
        lemma_no_reset_no_event(start, earlier);
        assert(!lines.last().resets());
        lemma_appended_once(current_after(start, earlier), lines.last());
    }
}

/// The type of an event stays over any run of lines none of which ends the event.
pub proof fn lemma_type_stays_until_reset(start: GCEvent, lines: Seq<LineFacts>)
    requires
        start.gc_type != GcType::Unknown,
        forall|i: int| 0 <= i < lines.len() ==> !(#[trigger] lines[i]).resets(),
    ensures
        current_after(start, lines).gc_type == start.gc_type,
    decreases lines.len(),
{
    if lines.len() > 0 {
        let earlier = lines.drop_last();
        assert forall|i: int| 0 <= i < earlier.len() implies !(#[trigger] earlier[i]).resets() by {
            assert(earlier[i] == lines[i]);
        }
        lemma_type_stays_until_reset(start, earlier);
        assert(!lines.last().resets());
        lemma_type_is_sticky(current_after(start, earlier), lines.last());
    }
}

/// A line that announces a concurrent cycle and names no pause appends exactly one
/// event: the event under construction with the line's timestamp and classification
/// taken in, and nothing of the line's data fields. Those go to the blank event that
/// takes its place.
///
/// Where the event under construction was fresh (no type but `Concurrent`, no pause, no
/// region field), the appended event has type `Concurrent`, no pause and no region
/// field.
pub proof fn lemma_concurrent_line_appends_once(current: GCEvent, facts: LineFacts)
    requires
        facts.closes_cycle(),
    ensures
        current.emitted_by(facts) == seq![current.classified_by(facts)],
        current.succeeded_by(facts) == if facts.humongous is Some {
            GCEvent::spec_blank()
        } else {
            GCEvent::spec_blank().with_fields(facts)
        },
        current.gc_type == GcType::Unknown || current.gc_type == GcType::Concurrent
            ==> current.emitted_by(facts)[0].gc_type == GcType::Concurrent,
        current.emitted_by(facts)[0].has_pause == current.has_pause,
        current.no_regions() ==> current.emitted_by(facts)[0].no_regions(),
{
    assert(!GCEvent::spec_blank().with_fields(facts).has_pause);
    assert(current.emitted_by(facts) =~= seq![current.classified_by(facts)]);
}

/// The Humongous gate. A line with a Humongous token ends the event under construction:
/// a blank event takes its place. Unless the line has closed the event before (it then
/// appends just that), the event is appended, with the line's fields and the Humongous
/// occupancy written, if a pause was seen for it, and dropped if not. A pause was seen
/// if the event had one before the line or the line announces a collection and names a
/// pause.
pub proof fn lemma_humongous_gate(current: GCEvent, facts: LineFacts, change: RegionChange)
    requires
        facts.humongous == Some(change),
    ensures
        current.succeeded_by(facts) == GCEvent::spec_blank(),
        current.emitted_by(facts) == if facts.closes_cycle() {
            seq![current.classified_by(facts)]
        } else if current.classified_by(facts).has_pause {
            seq![current.classified_by(facts).with_fields(facts).with_humongous(change)]
        } else {
            Seq::<GCEvent>::empty()
        },
        current.classified_by(facts).has_pause == (current.has_pause || (facts.detected
            != GcType::Unknown && facts.pause_marker)),
{
    assert(!GCEvent::spec_blank().with_fields(facts).has_pause);
    if facts.closes_cycle() {
        assert(current.emitted_by(facts) =~= seq![current.classified_by(facts)]);
    } else if current.classified_by(facts).has_pause {
        assert(current.emitted_by(facts) =~= seq![
            current.classified_by(facts).with_fields(facts).with_humongous(change),
        ]);
    } else {
        assert(current.emitted_by(facts) =~= Seq::<GCEvent>::empty());
    }
}

/// An event is appended at most once. A line appends at most one event, only a line
/// that ends the event under construction appends anything, and after such a line the
/// event under construction is a blank one, or a blank one with the line's own data
/// fields.
pub proof fn lemma_appended_once(current: GCEvent, facts: LineFacts)
    ensures
        current.emitted_by(facts).len() <= 1,
        current.emitted_by(facts).len() == 1 ==> facts.resets(),
        facts.resets() ==> current.succeeded_by(facts) == if facts.humongous is Some {
            GCEvent::spec_blank()
        } else {
            GCEvent::spec_blank().with_fields(facts)
        },
{
    if facts.closes_cycle() {
        assert(!GCEvent::spec_blank().with_fields(facts).has_pause);
    }
}

} // verus!
