//! Classification of a log line by the collection it announces.

use vstd::prelude::*;

use crate::event::GcType;
use crate::text::{contains_str, has_substring, to_chars};

verus! {

/// The line carries one of the markers of a young-generation pause.
pub open spec fn is_young_line(line: Seq<char>) -> bool {
    ||| has_substring(line, "Pause Young"@)
    ||| has_substring(line, "Evacuation Pause"@)
    ||| has_substring(line, "G1 Humongous Allocation"@)
}

/// The line carries one of the markers of a full collection.
pub open spec fn is_full_line(line: Seq<char>) -> bool {
    ||| has_substring(line, "Full GC"@)
    ||| has_substring(line, "Pause Full"@)
    ||| has_substring(line, "G1 Full GC"@)
}

/// The line carries one of the markers of a concurrent cycle.
pub open spec fn is_concurrent_line(line: Seq<char>) -> bool {
    ||| has_substring(line, "GC concurrent"@)
    ||| has_substring(line, "Concurrent Cycle"@)
}

/// The type a line announces. Matching is by substring and case-sensitive; a young
/// marker wins over a full one, and a full one over a concurrent one.
pub open spec fn classify(line: Seq<char>) -> GcType {
    if is_young_line(line) {
        GcType::Young
    } else if is_full_line(line) {
        GcType::Full
    } else if is_concurrent_line(line) {
        GcType::Concurrent
    } else {
        GcType::Unknown
    }
}

/// Classifies a line that is given by its characters.
pub fn classify_chars(line: &[char]) -> (detected: GcType)
    ensures
        detected == classify(line@),
{
    if contains_str(line, "Pause Young") || contains_str(line, "Evacuation Pause") || contains_str(
        line,
        "G1 Humongous Allocation",
    ) {
        GcType::Young
    } else if contains_str(line, "Full GC") || contains_str(line, "Pause Full") || contains_str(
        line,
        "G1 Full GC",
    ) {
        GcType::Full
    } else if contains_str(line, "GC concurrent") || contains_str(line, "Concurrent Cycle") {
        GcType::Concurrent
    } else {
        GcType::Unknown
    }
}

/// Tells which type of collection a line announces, `Unknown` if none.
pub fn detect_gc_type(line: &str) -> (detected: GcType)
    ensures
        detected == classify(line@),
{
    let chars = to_chars(line);
    classify_chars(chars.as_slice())
}

/// Priority of the markers: a line with a young marker is `Young` whatever else it
/// holds, and a line with a full marker and no young one is `Full` whatever else it
/// holds.
pub proof fn lemma_classification_priority(line: Seq<char>)
    ensures
        is_young_line(line) ==> classify(line) == GcType::Young,
        !is_young_line(line) && is_full_line(line) ==> classify(line) == GcType::Full,
        !is_young_line(line) && !is_full_line(line) && is_concurrent_line(line) ==> classify(line)
            == GcType::Concurrent,
        classify(line) == GcType::Unknown <==> !is_young_line(line) && !is_full_line(line)
            && !is_concurrent_line(line),
{
}

} // verus!
