use gc_log_analyzer::{
    Accumulator, Field, GCEvent, GcType, LineFacts, Millis, RegionChange, RegionUsage, Timestamp,
};

fn silent() -> LineFacts {
    LineFacts::silent()
}

fn announces(detected: GcType, pause_marker: bool) -> LineFacts {
    LineFacts { detected, pause_marker, ..silent() }
}

fn at(secs: i64) -> Timestamp {
    Timestamp { secs, nanos: 0, offset_secs: 0 }
}

fn populated_young(has_pause: bool) -> GCEvent {
    GCEvent {
        time: Some(at(100)),
        gc_type: GcType::Young,
        has_pause,
        pause_time_ms: Some(Millis { whole: 12, frac: 345, frac_digits: 3 }),
        eden_before: Some(12),
        eden_after: Some(0),
        eden_total: Some(14),
        survivor_before: Some(2),
        survivor_after: Some(3),
        survivor_total: Some(4),
        old_before: Some(5),
        old_after: Some(5),
        humongous_before: None,
        humongous_after: None,
    }
}

#[test]
fn new_accumulator_is_blank_and_empty() {
    let acc = Accumulator::new();
    assert_eq!(acc.current, GCEvent::blank());
    assert!(acc.events.is_empty());
    assert_eq!(GCEvent::blank(), GCEvent::default());
    assert_eq!(GCEvent::blank().gc_type, GcType::Unknown);
    assert!(!GCEvent::blank().has_pause);
    assert_eq!(GCEvent::blank().time, None);
    assert_eq!(LineFacts::silent().detected, GcType::Unknown);
}

#[test]
fn a_silent_line_changes_nothing() {
    let mut acc = Accumulator { current: populated_young(true), events: vec![GCEvent::blank()] };
    acc.feed(&silent());
    assert_eq!(acc.current, populated_young(true));
    assert_eq!(acc.events, vec![GCEvent::blank()]);
}

#[test]
fn type_once_set_is_not_changed_by_a_later_line() {
    let mut acc = Accumulator::new();
    acc.feed(&announces(GcType::Young, true));
    assert_eq!(acc.current.gc_type, GcType::Young);
    acc.feed(&announces(GcType::Full, false));
    assert_eq!(acc.current.gc_type, GcType::Young);
    acc.feed(&announces(GcType::Full, true));
    assert_eq!(acc.current.gc_type, GcType::Young);
    acc.feed(&announces(GcType::Concurrent, true));
    assert_eq!(acc.current.gc_type, GcType::Young);
    acc.feed(&announces(GcType::Unknown, true));
    assert_eq!(acc.current.gc_type, GcType::Young);
    assert!(acc.events.is_empty());
}

#[test]
fn type_is_kept_by_the_event_that_a_later_line_appends() {
    let mut acc = Accumulator::new();
    acc.feed(&announces(GcType::Full, false));
    acc.feed(&announces(GcType::Concurrent, false));
    assert_eq!(acc.events.len(), 1);
    assert_eq!(acc.events[0].gc_type, GcType::Full);
    assert_eq!(acc.current, GCEvent::blank());
}

#[test]
fn type_can_be_set_anew_after_a_flush() {
    let mut acc = Accumulator::new();
    acc.feed(&announces(GcType::Young, true));
    acc.feed(&LineFacts { humongous: Some(RegionChange { before: 1, after: 1 }), ..silent() });
    assert_eq!(acc.current.gc_type, GcType::Unknown);
    acc.feed(&announces(GcType::Full, true));
    assert_eq!(acc.current.gc_type, GcType::Full);
}

#[test]
fn concurrent_line_appends_one_event_and_resets() {
    let mut acc = Accumulator::new();
    acc.feed(&LineFacts { time: Some(at(7)), ..announces(GcType::Concurrent, false) });
    assert_eq!(
        acc.events,
        vec![GCEvent { time: Some(at(7)), gc_type: GcType::Concurrent, ..GCEvent::blank() }]
    );
    assert!(!acc.events[0].has_pause);
    assert_eq!(acc.events[0].eden_before, None);
    assert_eq!(acc.events[0].humongous_after, None);
    assert_eq!(acc.current, GCEvent::blank());
}

#[test]
fn concurrent_line_with_pause_marker_appends_nothing() {
    let mut acc = Accumulator::new();
    acc.feed(&announces(GcType::Concurrent, true));
    assert!(acc.events.is_empty());
    assert_eq!(
        acc.current,
        GCEvent { gc_type: GcType::Concurrent, has_pause: true, ..GCEvent::blank() }
    );
}

#[test]
fn concurrent_line_appends_the_event_with_what_it_had_gathered() {
    let mut acc = Accumulator { current: populated_young(true), events: Vec::new() };
    acc.feed(&LineFacts { time: Some(at(999)), ..announces(GcType::Concurrent, false) });
    assert_eq!(acc.events, vec![populated_young(true)]);
    assert_eq!(acc.current, GCEvent::blank());
}

#[test]
fn data_fields_of_a_concurrent_line_go_to_the_next_event() {
    let mut acc = Accumulator::new();
    acc.feed(&LineFacts {
        pause_time: Some(Millis { whole: 45, frac: 678, frac_digits: 3 }),
        eden: Some(RegionUsage { before: 1, after: 2, total: 3 }),
        ..announces(GcType::Concurrent, false)
    });
    assert_eq!(acc.events, vec![GCEvent { gc_type: GcType::Concurrent, ..GCEvent::blank() }]);
    assert_eq!(
        acc.current,
        GCEvent {
            pause_time_ms: Some(Millis { whole: 45, frac: 678, frac_digits: 3 }),
            eden_before: Some(1),
            eden_after: Some(2),
            eden_total: Some(3),
            ..GCEvent::blank()
        }
    );
}

#[test]
fn concurrent_line_with_humongous_token_appends_one_event_only() {
    let mut acc = Accumulator::new();
    acc.feed(&LineFacts {
        humongous: Some(RegionChange { before: 3, after: 1 }),
        ..announces(GcType::Concurrent, false)
    });
    assert_eq!(acc.events, vec![GCEvent { gc_type: GcType::Concurrent, ..GCEvent::blank() }]);
    assert_eq!(acc.current, GCEvent::blank());
}

#[test]
fn humongous_line_appends_a_paused_event() {
    let mut acc = Accumulator { current: populated_young(true), events: Vec::new() };
    acc.feed(&LineFacts { humongous: Some(RegionChange { before: 3, after: 1 }), ..silent() });
    assert_eq!(acc.events.len(), 1);
    assert_eq!(acc.events[0].humongous_before, Some(3));
    assert_eq!(acc.events[0].humongous_after, Some(1));
    assert_eq!(
        acc.events[0],
        GCEvent { humongous_before: Some(3), humongous_after: Some(1), ..populated_young(true) }
    );
    assert_eq!(acc.current, GCEvent::blank());
}

#[test]
fn humongous_line_drops_an_event_without_pause() {
    let mut acc = Accumulator { current: populated_young(false), events: Vec::new() };
    acc.feed(&LineFacts { humongous: Some(RegionChange { before: 3, after: 1 }), ..silent() });
    assert!(acc.events.is_empty());
    assert_eq!(acc.current, GCEvent::blank());
}

#[test]
fn humongous_line_that_names_the_pause_itself_appends() {
    let mut acc = Accumulator::new();
    acc.feed(&LineFacts {
        humongous: Some(RegionChange { before: 3, after: 1 }),
        ..announces(GcType::Young, true)
    });
    assert_eq!(
        acc.events,
        vec![GCEvent {
            gc_type: GcType::Young,
            has_pause: true,
            humongous_before: Some(3),
            humongous_after: Some(1),
            ..GCEvent::blank()
        }]
    );
}

#[test]
fn pause_marker_counts_on_a_classified_line_only() {
    let mut acc = Accumulator::new();
    acc.feed(&announces(GcType::Unknown, true));
    assert!(!acc.current.has_pause);
    acc.feed(&announces(GcType::Full, true));
    assert!(acc.current.has_pause);
    acc.feed(&announces(GcType::Full, false));
    assert!(acc.current.has_pause);
}

#[test]
fn first_timestamp_of_an_event_stays() {
    let mut acc = Accumulator::new();
    acc.feed(&LineFacts { time: None, ..silent() });
    assert_eq!(acc.current.time, None);
    acc.feed(&LineFacts { time: Some(at(1)), ..silent() });
    assert_eq!(acc.current.time, Some(at(1)));
    acc.feed(&LineFacts { time: Some(at(2)), ..silent() });
    assert_eq!(acc.current.time, Some(at(1)));
    acc.feed(&LineFacts { time: None, ..silent() });
    assert_eq!(acc.current.time, Some(at(1)));
}

#[test]
fn data_fields_overwrite_what_was_there() {
    let mut acc = Accumulator { current: populated_young(true), events: Vec::new() };
    acc.feed(&LineFacts {
        pause_time: Some(Millis { whole: 1, frac: 0, frac_digits: 1 }),
        eden: Some(RegionUsage { before: 20, after: 21, total: 22 }),
        survivor: Some(RegionUsage { before: 30, after: 31, total: 32 }),
        old_gen: Some(RegionChange { before: 40, after: 41 }),
        ..silent()
    });
    assert_eq!(
        acc.current,
        GCEvent {
            pause_time_ms: Some(Millis { whole: 1, frac: 0, frac_digits: 1 }),
            eden_before: Some(20),
            eden_after: Some(21),
            eden_total: Some(22),
            survivor_before: Some(30),
            survivor_after: Some(31),
            survivor_total: Some(32),
            old_before: Some(40),
            old_after: Some(41),
            ..populated_young(true)
        }
    );
    assert!(acc.events.is_empty());
}

#[test]
fn absent_data_fields_leave_what_was_there() {
    let mut acc = Accumulator { current: populated_young(true), events: Vec::new() };
    acc.feed(&LineFacts { old_gen: Some(RegionChange { before: 40, after: 41 }), ..silent() });
    assert_eq!(
        acc.current,
        GCEvent { old_before: Some(40), old_after: Some(41), ..populated_young(true) }
    );
}

#[test]
fn finish_hands_out_completed_events_and_drops_the_open_one() {
    let mut acc = Accumulator::new();
    acc.feed(&announces(GcType::Concurrent, false));
    acc.feed(&announces(GcType::Full, true));
    acc.feed(&LineFacts { eden: Some(RegionUsage { before: 1, after: 2, total: 3 }), ..silent() });
    assert_eq!(acc.current.gc_type, GcType::Full);
    let events = acc.finish();
    assert_eq!(events, vec![GCEvent { gc_type: GcType::Concurrent, ..GCEvent::blank() }]);
}

#[test]
fn events_are_appended_in_the_order_of_their_flush() {
    let mut acc = Accumulator::new();
    acc.feed(&announces(GcType::Young, true));
    acc.feed(&LineFacts { humongous: Some(RegionChange { before: 1, after: 0 }), ..silent() });
    acc.feed(&announces(GcType::Concurrent, false));
    acc.feed(&announces(GcType::Full, true));
    acc.feed(&LineFacts { humongous: Some(RegionChange { before: 2, after: 0 }), ..silent() });
    let types: Vec<GcType> = acc.events.iter().map(|event| event.gc_type).collect();
    assert_eq!(types, vec![GcType::Young, GcType::Concurrent, GcType::Full]);
}

#[test]
fn feed_line_reads_and_takes_in_a_line() {
    let mut acc = Accumulator::new();
    assert_eq!(acc.feed_line("GC(1) Pause Young (Normal) (G1 Evacuation Pause)"), Ok(()));
    assert_eq!(acc.feed_line("GC(1) Eden regions: 12->0(14)"), Ok(()));
    assert_eq!(acc.current.gc_type, GcType::Young);
    assert!(acc.current.has_pause);
    assert_eq!(acc.current.eden_before, Some(12));
    assert_eq!(acc.feed_line("GC(1) Humongous regions: 3->1"), Ok(()));
    assert_eq!(acc.events.len(), 1);
    assert_eq!(acc.events[0].humongous_before, Some(3));
    assert_eq!(acc.events[0].humongous_after, Some(1));
    assert_eq!(acc.current, GCEvent::blank());
}

#[test]
fn feed_line_leaves_the_accumulator_alone_on_failure() {
    let mut acc = Accumulator { current: populated_young(true), events: vec![GCEvent::blank()] };
    let line = "GC(1) Concurrent Cycle Old regions: 7->8 Humongous regions: 99999999999999999999->1";
    assert_eq!(acc.feed_line(line), Err(Field::Humongous));
    assert_eq!(acc.current, populated_young(true));
    assert_eq!(acc.events, vec![GCEvent::blank()]);
}
