//! The tally of events by type.
//!
//! The tally is a hash map. Its keys are the numbers that stand for the types
//! (`GcType::code`), since a hash map is only known to keep what is put into it where
//! its keys are numbers.

use std::collections::HashMap;
use vstd::prelude::*;

use crate::event::{GCEvent, GcType};

verus! {

broadcast use vstd::std_specs::hash::group_hash_axioms;

/// How many of the events have the given type.
pub open spec fn count_of(events: Seq<GCEvent>, gc_type: GcType) -> nat {
    events.filter(|event: GCEvent| event.gc_type == gc_type).len()
}

/// The tally of a sequence of events: each type that occurs, under its number, with the
/// number of events that have it. A type that does not occur is no key.
pub open spec fn tally(events: Seq<GCEvent>) -> Map<u64, nat> {
    Map::new(
        |code: u64|
            GcType::spec_from_code(code) matches Some(gc_type) && count_of(events, gc_type) >= 1,
        |code: u64| count_of(events, GcType::spec_from_code(code).unwrap()),
    )
}

/// The counts of a hash map as natural numbers.
pub open spec fn widened(counts: Map<u64, usize>) -> Map<u64, nat> {
    counts.map_values(|count: usize| count as nat)
}

/// The count a tally holds for a type: zero for a type that is no key.
pub open spec fn entry(counts: Map<u64, nat>, gc_type: GcType) -> nat {
    if counts.dom().contains(gc_type.spec_code()) {
        counts[gc_type.spec_code()]
    } else {
        0
    }
}

/// The sum of the counts of a tally.
pub open spec fn total(counts: Map<u64, nat>) -> nat {
    entry(counts, GcType::Young) + entry(counts, GcType::Full) + entry(
        counts,
        GcType::Concurrent,
    ) + entry(counts, GcType::Unknown)
}

/// Counting goes event by event: the count over a sequence with one more event.
pub proof fn lemma_count_of_push(events: Seq<GCEvent>, event: GCEvent, gc_type: GcType)
    ensures
        count_of(events.push(event), gc_type) == count_of(events, gc_type) + if event.gc_type
            == gc_type {
            1nat
        } else {
            0nat
        },
{
    assert(events.push(event).drop_last() =~= events);
    reveal_with_fuel(Seq::filter, 2);
}

/// The counts of the four types add up to the number of events.
pub proof fn lemma_counts_add_up(events: Seq<GCEvent>)
    ensures
        count_of(events, GcType::Young) + count_of(events, GcType::Full) + count_of(
            events,
            GcType::Concurrent,
        ) + count_of(events, GcType::Unknown) == events.len(),
    decreases events.len(),
{
    if events.len() == 0 {
        assert(events.filter(|e: GCEvent| e.gc_type == GcType::Young).len() == 0);
        assert(events.filter(|e: GCEvent| e.gc_type == GcType::Full).len() == 0);
        assert(events.filter(|e: GCEvent| e.gc_type == GcType::Concurrent).len() == 0);
        assert(events.filter(|e: GCEvent| e.gc_type == GcType::Unknown).len() == 0);
    } else {
        let earlier = events.drop_last();
        lemma_counts_add_up(earlier);
        assert(earlier.push(events.last()) =~= events);
        lemma_count_of_push(earlier, events.last(), GcType::Young);
        lemma_count_of_push(earlier, events.last(), GcType::Full);
        lemma_count_of_push(earlier, events.last(), GcType::Concurrent);
        lemma_count_of_push(earlier, events.last(), GcType::Unknown);
    }
}

/// An event of a sequence is counted under its type.
pub proof fn lemma_member_is_counted(events: Seq<GCEvent>, index: int)
    requires
        0 <= index < events.len(),
    ensures
        count_of(events, events[index].gc_type) >= 1,
    decreases events.len(),
{
    let gc_type = events[index].gc_type;
    let earlier = events.drop_last();
    assert(earlier.push(events.last()) =~= events);
    lemma_count_of_push(earlier, events.last(), gc_type);
    if index < events.len() - 1 {
        lemma_member_is_counted(earlier, index);
    }
}

/// Round trip through the tally: the counts of the tally of any sequence of events add
/// up to its length, and the type of each of its events is a key with a count of one or
/// more.
pub proof fn lemma_tally_round_trip(events: Seq<GCEvent>)
    ensures
        total(tally(events)) == events.len(),
        forall|index: int|
            0 <= index < events.len() ==> tally(events).dom().contains(
                (#[trigger] events[index]).gc_type.spec_code(),
            ) && tally(events)[events[index].gc_type.spec_code()] >= 1,
{
    lemma_counts_add_up(events);
    assert forall|index: int| 0 <= index < events.len() implies tally(events).dom().contains(
        (#[trigger] events[index]).gc_type.spec_code(),
    ) && tally(events)[events[index].gc_type.spec_code()] >= 1 by {
        lemma_member_is_counted(events, index);
    }
}

/// The tally with one more event: the count of its type goes up by one, the others stay.
proof fn lemma_tally_push(events: Seq<GCEvent>, event: GCEvent)
    ensures
        tally(events.push(event)) == tally(events).insert(
            event.gc_type.spec_code(),
            entry(tally(events), event.gc_type) + 1,
        ),
{
    lemma_count_of_push(events, event, GcType::Young);
    lemma_count_of_push(events, event, GcType::Full);
    lemma_count_of_push(events, event, GcType::Concurrent);
    lemma_count_of_push(events, event, GcType::Unknown);
    assert(tally(events.push(event)) =~= tally(events).insert(
        event.gc_type.spec_code(),
        entry(tally(events), event.gc_type) + 1,
    ));
}

/// The count that a tally holds for a type; zero for a type that did not occur.
pub fn count_for(counts: &HashMap<u64, usize>, gc_type: GcType) -> (count: usize)
    ensures
        count as nat == entry(widened(counts@), gc_type),
{
    let code = gc_type.code();
    match counts.get(&code) {
        Some(count) => *count,
        None => 0,
    }
}

/// Counts the events of each type.
pub fn count_gc_types(events: &[GCEvent]) -> (counts: HashMap<u64, usize>)
    ensures
        widened(counts@) == tally(events@),
{
    let mut counts: HashMap<u64, usize> = HashMap::new();
    let mut index: usize = 0;
    proof {
        lemma_counts_add_up(events@.take(0));
        assert(widened(counts@) =~= tally(events@.take(0)));
    }
    while index < events.len()
        invariant
            index <= events.len(),
            widened(counts@) == tally(events@.take(index as int)),
        decreases events.len() - index,
    {
        let ghost seen = events@.take(index as int);
        let gc_type = events[index].gc_type;
        let so_far = count_for(&counts, gc_type);
        proof {
            assert(events@.take(index + 1) =~= seen.push(events@[index as int]));
            lemma_counts_add_up(seen);
            lemma_tally_push(seen, events@[index as int]);
        }
        counts.insert(gc_type.code(), so_far + 1);
        assert(widened(counts@) =~= tally(events@.take(index + 1)));
        index += 1;
    }
    assert(events@.take(index as int) =~= events@);
    counts
}

} // verus!
