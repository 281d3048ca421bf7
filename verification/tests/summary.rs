use std::collections::HashMap;

use gc_log_analyzer::{count_for, count_gc_types, GCEvent, GcType};

fn event(gc_type: GcType) -> GCEvent {
    GCEvent { gc_type, ..GCEvent::blank() }
}

#[test]
fn counts_add_up_to_the_number_of_events() {
    let events = vec![
        event(GcType::Young),
        event(GcType::Concurrent),
        event(GcType::Young),
        event(GcType::Full),
        event(GcType::Young),
        event(GcType::Unknown),
        event(GcType::Concurrent),
    ];
    let counts = count_gc_types(&events);
    let expected: HashMap<u64, usize> = HashMap::from([(0, 3), (1, 1), (2, 2), (3, 1)]);
    assert_eq!(counts, expected);
    assert_eq!(counts.values().sum::<usize>(), events.len());
}

#[test]
fn every_type_that_occurs_is_a_key() {
    let events = vec![event(GcType::Full), event(GcType::Concurrent), event(GcType::Full)];
    let counts = count_gc_types(&events);
    for e in &events {
        assert!(counts[&e.gc_type.code()] >= 1);
        assert!(count_for(&counts, e.gc_type) >= 1);
    }
}

#[test]
fn a_type_that_does_not_occur_is_no_key() {
    let events = vec![event(GcType::Full), event(GcType::Concurrent), event(GcType::Full)];
    let counts = count_gc_types(&events);
    assert_eq!(counts.len(), 2);
    assert_eq!(counts.get(&GcType::Full.code()), Some(&2));
    assert_eq!(counts.get(&GcType::Concurrent.code()), Some(&1));
    assert_eq!(counts.get(&GcType::Young.code()), None);
    assert_eq!(counts.get(&GcType::Unknown.code()), None);
    assert_eq!(count_for(&counts, GcType::Full), 2);
    assert_eq!(count_for(&counts, GcType::Young), 0);
    assert_eq!(count_for(&counts, GcType::Unknown), 0);
}

#[test]
fn no_events_give_an_empty_tally() {
    let counts = count_gc_types(&[]);
    assert!(counts.is_empty());
    assert_eq!(count_for(&counts, GcType::Concurrent), 0);
}

#[test]
fn each_type_has_its_number() {
    assert_eq!(GcType::Young.code(), 0);
    assert_eq!(GcType::Full.code(), 1);
    assert_eq!(GcType::Concurrent.code(), 2);
    assert_eq!(GcType::Unknown.code(), 3);
    for gc_type in [GcType::Young, GcType::Full, GcType::Concurrent, GcType::Unknown] {
        assert_eq!(GcType::from_code(gc_type.code()), Some(gc_type));
    }
    assert_eq!(GcType::from_code(4), None);
    assert_eq!(GcType::from_code(u64::MAX), None);
}
