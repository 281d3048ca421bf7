use gc_log_analyzer::{
    parse_gc_events, Field, GCEvent, GcType, Millis, ParseError, Timestamp,
};

fn lines(text: &[&str]) -> Vec<String> {
    text.iter().map(|line| line.to_string()).collect()
}

fn at(millis_after: u32) -> Timestamp {
    // 2024-01-15T10:30:45+0900 and so many milliseconds
    Timestamp { secs: 1705282245, nanos: millis_after * 1_000_000, offset_secs: 32400 }
}

#[test]
fn concurrent_cycle_then_paused_young_cycle_gives_two_events() {
    let log = lines(&[
        "[2024-01-15T10:30:45.100+0900][info][gc,marking] GC(0) Concurrent Mark From Roots",
        "[2024-01-15T10:30:45.200+0900][info][gc,marking] GC(0) Concurrent Mark From Roots 9.876ms",
        "[2024-01-15T10:30:45.300+0900][info][gc] GC(0) Concurrent Cycle 45.678ms",
        "[2024-01-15T10:30:45.400+0900][info][gc,start] GC(1) Pause Young (Normal) (G1 Evacuation Pause)",
        "[2024-01-15T10:30:45.500+0900][info][gc,heap] GC(1) Eden regions: 12->0(14)",
        "[2024-01-15T10:30:45.600+0900][info][gc,heap] GC(1) Survivor regions: 2->3(4)",
        "[2024-01-15T10:30:45.700+0900][info][gc,heap] GC(1) Old regions: 5->5",
        "[2024-01-15T10:30:45.800+0900][info][gc,heap] GC(1) Humongous regions: 3->1",
    ]);
    let events = parse_gc_events(&log).unwrap();
    let types: Vec<GcType> = events.iter().map(|event| event.gc_type).collect();
    assert_eq!(types, vec![GcType::Concurrent, GcType::Young]);
    assert_eq!(
        events[0],
        GCEvent {
            time: Some(at(100)),
            gc_type: GcType::Concurrent,
            pause_time_ms: Some(Millis { whole: 9, frac: 876, frac_digits: 3 }),
            ..GCEvent::blank()
        }
    );
    assert_eq!(
        events[1],
        GCEvent {
            time: Some(at(400)),
            gc_type: GcType::Young,
            has_pause: true,
            pause_time_ms: Some(Millis { whole: 45, frac: 678, frac_digits: 3 }),
            eden_before: Some(12),
            eden_after: Some(0),
            eden_total: Some(14),
            survivor_before: Some(2),
            survivor_after: Some(3),
            survivor_total: Some(4),
            old_before: Some(5),
            old_after: Some(5),
            humongous_before: Some(3),
            humongous_after: Some(1),
        }
    );
}

#[test]
fn empty_log_gives_no_event() {
    assert_eq!(parse_gc_events(&[]), Ok(Vec::new()));
}

#[test]
fn log_without_any_record_gives_no_event() {
    let log = lines(&["", "Heap region size: 1M", "[0.005s][info][gc] Using G1", "12 34 56"]);
    assert_eq!(parse_gc_events(&log), Ok(Vec::new()));
}

#[test]
fn event_that_no_line_ends_is_lost() {
    let log = lines(&[
        "[2024-01-15T10:30:45.400+0900][info][gc,start] GC(1) Pause Full (System.gc())",
        "[2024-01-15T10:30:45.500+0900][info][gc,heap] GC(1) Eden regions: 12->0(14)",
        "[2024-01-15T10:30:45.600+0900][info][gc,heap] GC(1) Survivor regions: 2->3(4)",
        "[2024-01-15T10:30:45.700+0900][info][gc,heap] GC(1) Old regions: 5->5",
        "[2024-01-15T10:30:45.800+0900][info][gc] GC(1) Pause Full (System.gc()) 30M->10M(256M) 20.500ms",
    ]);
    assert_eq!(parse_gc_events(&log), Ok(Vec::new()));
}

#[test]
fn young_cycle_without_pause_marker_is_dropped() {
    let log = lines(&[
        "GC(1) Eden regions: 12->0(14)",
        "GC(1) Survivor regions: 2->3(4)",
        "GC(1) Old regions: 5->5",
        "GC(1) Humongous regions: 3->1",
    ]);
    assert_eq!(parse_gc_events(&log), Ok(Vec::new()));
}

#[test]
fn classification_needs_no_record_marker() {
    let log = lines(&["Pause Young (Normal)", "Humongous regions: 3->1"]);
    let events = parse_gc_events(&log).unwrap();
    assert_eq!(
        events,
        vec![GCEvent {
            gc_type: GcType::Young,
            has_pause: true,
            humongous_before: Some(3),
            humongous_after: Some(1),
            ..GCEvent::blank()
        }]
    );
}

#[test]
fn every_concurrent_line_makes_an_event() {
    let log = lines(&["GC(0) Concurrent Cycle", "GC(0) Concurrent Cycle 45.678ms", "GC concurrent-mark-end"]);
    let events = parse_gc_events(&log).unwrap();
    assert_eq!(events.len(), 3);
    assert_eq!(events[0], GCEvent { gc_type: GcType::Concurrent, ..GCEvent::blank() });
    assert_eq!(events[1], GCEvent { gc_type: GcType::Concurrent, ..GCEvent::blank() });
    assert_eq!(
        events[2],
        GCEvent {
            gc_type: GcType::Concurrent,
            pause_time_ms: Some(Millis { whole: 45, frac: 678, frac_digits: 3 }),
            ..GCEvent::blank()
        }
    );
}

#[test]
fn second_classification_of_an_event_does_not_change_its_type() {
    let log = lines(&[
        "GC(1) Pause Young (Normal) (G1 Evacuation Pause)",
        "GC(1) Pause Full (G1 Compaction Pause)",
        "GC(1) Humongous regions: 3->1",
    ]);
    let events = parse_gc_events(&log).unwrap();
    assert_eq!(events.len(), 1);
    assert_eq!(events[0].gc_type, GcType::Young);
}

#[test]
fn a_later_timestamp_does_not_replace_the_first() {
    let log = lines(&[
        "[2024-01-15T10:30:45.400+0900] GC(1) Pause Young (Normal)",
        "[2024-01-15T10:30:45.500+0900] GC(1) Humongous regions: 3->1",
    ]);
    let events = parse_gc_events(&log).unwrap();
    assert_eq!(events.len(), 1);
    assert_eq!(events[0].time, Some(at(400)));
}

#[test]
fn a_bracket_that_is_no_timestamp_leaves_the_time_open() {
    let log = lines(&[
        "[0.100s] GC(1) Pause Young (Normal)",
        "[2024-01-15T10:30:45.500+0900] GC(1) Eden regions: 1->0(2)",
        "[0.300s] GC(1) Humongous regions: 3->1",
    ]);
    let events = parse_gc_events(&log).unwrap();
    assert_eq!(events.len(), 1);
    assert_eq!(events[0].time, Some(at(500)));
}

#[test]
fn failure_names_the_line_and_the_extractor() {
    let log = lines(&[
        "GC(0) Concurrent Cycle",
        "GC(1) Pause Young (Normal)",
        "GC(1) Eden regions: 1->0(2)",
        "GC(1) Old regions: 99999999999999999999->5",
        "GC(1) Eden regions: 99999999999999999999->0(2)",
    ]);
    assert_eq!(parse_gc_events(&log), Err(ParseError { line: 3, field: Field::Old }));
}

#[test]
fn failure_on_the_first_line_has_index_zero() {
    let log = lines(&["took 99999999999999999999.5ms"]);
    assert_eq!(parse_gc_events(&log), Err(ParseError { line: 0, field: Field::PauseTime }));
}

#[test]
fn lines_after_the_end_of_an_event_start_a_fresh_one() {
    let log = lines(&[
        "GC(1) Pause Young (Normal) 1.000ms",
        "GC(1) Eden regions: 12->0(14)",
        "GC(1) Humongous regions: 3->1",
        "GC(2) Pause Full (System.gc())",
        "GC(2) Humongous regions: 1->0",
    ]);
    let events = parse_gc_events(&log).unwrap();
    assert_eq!(events.len(), 2);
    assert_eq!(
        events[1],
        GCEvent {
            gc_type: GcType::Full,
            has_pause: true,
            humongous_before: Some(1),
            humongous_after: Some(0),
            ..GCEvent::blank()
        }
    );
}
