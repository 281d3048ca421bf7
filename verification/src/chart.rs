//! What a chart of the events shows: the selection of events and the extent of the axes.

use vstd::prelude::*;

use crate::event::{GCEvent, Timestamp};

verus! {

/// An event that has a place on a chart: one with a pause and a time.
pub open spec fn is_charted(event: GCEvent) -> bool {
    event.has_pause && event.time is Some
}

/// An event that has a place on the chart of pause durations.
pub open spec fn is_timed_pause(event: GCEvent) -> bool {
    is_charted(event) && event.pause_time_ms is Some
}

/// The events of a sequence that have a place on a chart, in their order.
pub open spec fn charted(events: Seq<GCEvent>) -> Seq<GCEvent> {
    events.filter(|event: GCEvent| is_charted(event))
}

/// The events of a sequence that have a place on the chart of pause durations.
pub open spec fn timed_pauses(events: Seq<GCEvent>) -> Seq<GCEvent> {
    events.filter(|event: GCEvent| is_timed_pause(event))
}

/// A region count as a chart shows it: an absent one counts as zero.
pub open spec fn shown_count(count: Option<u64>) -> u64 {
    match count {
        Some(regions) => regions,
        None => 0,
    }
}

/// The larger of two counts.
pub open spec fn larger(a: u64, b: u64) -> u64 {
    if a >= b {
        a
    } else {
        b
    }
}

/// The largest region count of an event, before or after, over the four region kinds.
pub open spec fn region_peak(event: GCEvent) -> u64 {
    larger(
        larger(
            larger(shown_count(event.eden_before), shown_count(event.eden_after)),
            larger(shown_count(event.survivor_before), shown_count(event.survivor_after)),
        ),
        larger(
            larger(shown_count(event.old_before), shown_count(event.old_after)),
            larger(shown_count(event.humongous_before), shown_count(event.humongous_after)),
        ),
    )
}

/// `peak` is the largest region count among the events, zero where there is none.
pub open spec fn is_peak_of(events: Seq<GCEvent>, peak: u64) -> bool {
    &&& forall|i: int| 0 <= i < events.len() ==> region_peak(#[trigger] events[i]) <= peak
    &&& peak == 0 || exists|i: int|
        0 <= i < events.len() && region_peak(#[trigger] events[i]) == peak
}

/// Filtering goes element by element: an element that is added at the end is kept or
/// dropped on its own account.
proof fn lemma_filter_push(events: Seq<GCEvent>, event: GCEvent, keep: spec_fn(GCEvent) -> bool)
    ensures
        Seq::<GCEvent>::empty().filter(keep) == Seq::<GCEvent>::empty(),
        events.push(event).filter(keep) == if keep(event) {
            events.filter(keep).push(event)
        } else {
            events.filter(keep)
        },
{
    reveal_with_fuel(Seq::filter, 2);
    assert(events.push(event).drop_last() =~= events);
}

/// Picks the events that have a place on a chart.
pub fn charted_events(events: &[GCEvent]) -> (shown: Vec<GCEvent>)
    ensures
        shown@ == charted(events@),
{
    let mut shown: Vec<GCEvent> = Vec::new();
    let mut index: usize = 0;
    proof {
        assert(events@.take(0) =~= Seq::<GCEvent>::empty());
        lemma_filter_push(events@, GCEvent::spec_blank(), |event: GCEvent| is_charted(event));
    }
    while index < events.len()
        invariant
            index <= events.len(),
            shown@ == charted(events@.take(index as int)),
        decreases events.len() - index,
    {
        let event = events[index];
        proof {
            assert(events@.take(index + 1) =~= events@.take(index as int).push(event));
            lemma_filter_push(
                events@.take(index as int),
                event,
                |event: GCEvent| is_charted(event),
            );
        }
        if event.has_pause && event.time.is_some() {
            shown.push(event);
        }
        index += 1;
    }
    assert(events@.take(index as int) =~= events@);
    shown
}

/// Picks the events that have a place on the chart of pause durations.
pub fn events_with_pause_time(events: &[GCEvent]) -> (shown: Vec<GCEvent>)
    ensures
        shown@ == timed_pauses(events@),
{
    let mut shown: Vec<GCEvent> = Vec::new();
    let mut index: usize = 0;
    proof {
        assert(events@.take(0) =~= Seq::<GCEvent>::empty());
        lemma_filter_push(events@, GCEvent::spec_blank(), |event: GCEvent| is_timed_pause(event));
    }
    while index < events.len()
        invariant
            index <= events.len(),
            shown@ == timed_pauses(events@.take(index as int)),
        decreases events.len() - index,
    {
        let event = events[index];
        proof {
            assert(events@.take(index + 1) =~= events@.take(index as int).push(event));
            lemma_filter_push(
                events@.take(index as int),
                event,
                |event: GCEvent| is_timed_pause(event),
            );
        }
        if event.has_pause && event.time.is_some() && event.pause_time_ms.is_some() {
            shown.push(event);
        }
        index += 1;
    }
    assert(events@.take(index as int) =~= events@);
    shown
}

/// The time axis of a chart: the times of the first and of the last event, `None` where
/// there is no event to show or one of the two has no time.
pub fn time_span(shown: &[GCEvent]) -> (span: Option<(Timestamp, Timestamp)>)
    ensures
        span == if shown@.len() > 0 && shown@.first().time is Some && shown@.last().time is Some {
            Some((shown@.first().time.unwrap(), shown@.last().time.unwrap()))
        } else {
            None
        },
{
    if shown.len() == 0 {
        return None;
    }
    match (shown[0].time, shown[shown.len() - 1].time) {
        (Some(first), Some(last)) => Some((first, last)),
        _ => None,
    }
}

fn count_or_zero(count: Option<u64>) -> (shown: u64)
    ensures
        shown == shown_count(count),
{
    match count {
        Some(regions) => regions,
        None => 0,
    }
}

fn larger_of(a: u64, b: u64) -> (max: u64)
    ensures
        max == larger(a, b),
{
    if a >= b {
        a
    } else {
        b
    }
}

/// The largest region count of one event.
pub fn event_region_peak(event: &GCEvent) -> (peak: u64)
    ensures
        peak == region_peak(*event),
{
    let eden = larger_of(count_or_zero(event.eden_before), count_or_zero(event.eden_after));
    let survivor = larger_of(
        count_or_zero(event.survivor_before),
        count_or_zero(event.survivor_after),
    );
    let old_gen = larger_of(count_or_zero(event.old_before), count_or_zero(event.old_after));
    let humongous = larger_of(
        count_or_zero(event.humongous_before),
        count_or_zero(event.humongous_after),
    );
    larger_of(larger_of(eden, survivor), larger_of(old_gen, humongous))
}

/// The largest region count among the events: what the region axis has to reach.
pub fn peak_region_count(events: &[GCEvent]) -> (peak: u64)
    ensures
        is_peak_of(events@, peak),
{
    let mut peak: u64 = 0;
    let mut index: usize = 0;
    while index < events.len()
        invariant
            index <= events.len(),
            is_peak_of(events@.take(index as int), peak),
        decreases events.len() - index,
    {
        let ghost seen = events@.take(index as int);
        let ghost more = events@.take(index + 1);
        let ghost before = peak;
        let here = event_region_peak(&events[index]);
        if here > peak {
            peak = here;
        }
        proof {
            assert forall|i: int| 0 <= i < more.len() implies region_peak(#[trigger] more[i])
                <= peak by {
                if i < index {
                    assert(more[i] == seen[i]);
                }
            }
            if peak != 0 {
                if here > before {
                    assert(region_peak(more[index as int]) == peak);
                } else {
                    let at = choose|i: int|
                        0 <= i < seen.len() && region_peak(#[trigger] seen[i]) == before;
                    assert(more[at] == seen[at]);
                    assert(region_peak(more[at]) == peak);
                }
            }
        }
        index += 1;
    }
    assert(events@.take(index as int) =~= events@);
    peak
}

} // verus!
