//! The field extractors: from the text of a line to its facts.
//!
//! Markers are plain substrings. Tokens are found by a regular-expression search, and
//! what the search hands back is read here: numbers are decimal and have to fit into 64
//! bits, and a token that was found but cannot be read fails the line. A timestamp has
//! to have the fixed layout to the character before the reader of dates sees it.

use vstd::prelude::*;

use crate::classifier::{classify, classify_chars};
use crate::event::{Millis, Timestamp};
use crate::facts::{LineFacts, RegionChange, RegionUsage};
use crate::text::{
    contains_str, has_substring, is_digit, millis_of, number_of, parse_millis, parse_number,
    to_chars,
};
use crate::trusted::{capture_groups, datetime_of, read_datetime, regex_groups};

verus! {

/// Marks a line as part of a collection record.
pub const GC_MARKER: &'static str = "GC(";

/// Marks a line as naming a pause.
pub const PAUSE_MARKER: &'static str = "Pause";

/// The first bracketed span of a line.
pub const TIME_PATTERN: &'static str = r"\[(.*?)\]";

/// The timestamp layout `YYYY-MM-DDTHH:MM:SS.mmm±HHMM` as a strftime format.
pub const TIME_LAYOUT: &'static str = "%Y-%m-%dT%H:%M:%S%.3f%z";

/// The number of characters of a timestamp.
pub const TIME_LENGTH: usize = 28;

/// `<digits>.<digits>ms` at the end of the line.
pub const PAUSE_TIME_PATTERN: &'static str = r"(\d+\.\d+)ms$";

/// Marks a line that reports the Eden occupancy.
pub const EDEN_LABEL: &'static str = "Eden regions";

/// `Eden regions: <before>-><after>(<total>)`.
pub const EDEN_PATTERN: &'static str = r"Eden regions: (\d+)->(\d+)\((\d+)\)";

/// Marks a line that reports the Survivor occupancy.
pub const SURVIVOR_LABEL: &'static str = "Survivor regions";

/// `Survivor regions: <before>-><after>(<total>)`.
pub const SURVIVOR_PATTERN: &'static str = r"Survivor regions: (\d+)->(\d+)\((\d+)\)";

/// Marks a line that reports the Old occupancy.
pub const OLD_LABEL: &'static str = "Old regions";

/// `Old regions: <before>-><after>`.
pub const OLD_PATTERN: &'static str = r"Old regions: (\d+)->(\d+)";

/// Marks a line that reports the Humongous occupancy.
pub const HUMONGOUS_LABEL: &'static str = "Humongous regions";

/// `Humongous regions: <before>-><after>`.
pub const HUMONGOUS_PATTERN: &'static str = r"Humongous regions: (\d+)->(\d+)";

/// The extractor that found a token it could not read.
#[derive(Clone, Copy, Debug, PartialEq, Eq, Structural, Hash)]
pub enum Field {
    Eden,
    PauseTime,
    Survivor,
    Old,
    Humongous,
}

/// The text of capture group `index`, if there is such a group and it took part in the
/// match.
pub open spec fn group_text(groups: Seq<Option<Seq<char>>>, index: int) -> Option<Seq<char>> {
    if 0 <= index < groups.len() {
        groups[index]
    } else {
        None
    }
}

/// The number in capture group `index`, if the group is there and holds one.
pub open spec fn group_number(groups: Seq<Option<Seq<char>>>, index: int) -> Option<u64> {
    match group_text(groups, index) {
        Some(token) => number_of(token),
        None => None,
    }
}

/// The occupancy that groups 1 to 3 of a match write; `None` unless all three are
/// numbers.
pub open spec fn usage_of(groups: Seq<Option<Seq<char>>>) -> Option<RegionUsage> {
    match (group_number(groups, 1), group_number(groups, 2), group_number(groups, 3)) {
        (Some(before), Some(after), Some(total)) => Some(RegionUsage { before, after, total }),
        _ => None,
    }
}

/// The occupancy that groups 1 and 2 of a match write; `None` unless both are numbers.
pub open spec fn change_of(groups: Seq<Option<Seq<char>>>) -> Option<RegionChange> {
    match (group_number(groups, 1), group_number(groups, 2)) {
        (Some(before), Some(after)) => Some(RegionChange { before, after }),
        _ => None,
    }
}

/// The duration that group 1 of a match writes; `None` unless it is a decimal number
/// whose two parts fit.
pub open spec fn pause_of(groups: Seq<Option<Seq<char>>>) -> Option<Millis> {
    match group_text(groups, 1) {
        Some(token) => millis_of(token),
        None => None,
    }
}

/// What the fixed layout `YYYY-MM-DDTHH:MM:SS.mmm±HHMM` asks of the character at
/// position `index`: a separator at its place, a sign before the offset, and a decimal
/// digit everywhere else.
pub open spec fn fits_time_shape(index: int, c: char) -> bool {
    if index == 4 || index == 7 {
        c == '-'
    } else if index == 10 {
        c == 'T'
    } else if index == 13 || index == 16 {
        c == ':'
    } else if index == 19 {
        c == '.'
    } else if index == 23 {
        c == '+' || c == '-'
    } else {
        is_digit(c)
    }
}

/// `raw` has the fixed layout `YYYY-MM-DDTHH:MM:SS.mmm±HHMM`: 28 characters, each of
/// them what the layout asks at its position. Nothing may be left out, written
/// otherwise or added.
pub open spec fn has_time_shape(raw: Seq<char>) -> bool {
    &&& raw.len() == TIME_LENGTH
    &&& forall|index: int| 0 <= index < raw.len() ==> fits_time_shape(index, #[trigger] raw[index])
}

/// The instant that a text writes: `None` unless the text has the fixed layout, and
/// then what the reader of dates makes of it, which is `None` where the text names no
/// instant (a thirteenth month, a twenty-fifth hour).
pub open spec fn timestamp_of(raw: Seq<char>) -> Option<Timestamp> {
    if has_time_shape(raw) {
        datetime_of(raw, TIME_LAYOUT@)
    } else {
        None
    }
}

/// The instant that group 1 of a match writes.
pub open spec fn time_of(groups: Seq<Option<Seq<char>>>) -> Option<Timestamp> {
    match group_text(groups, 1) {
        Some(raw) => timestamp_of(raw),
        None => None,
    }
}

/// The timestamp of a line: that of its first bracketed span, for a line of a
/// collection record only.
pub open spec fn time_in(line: Seq<char>) -> Option<Timestamp> {
    if has_substring(line, GC_MARKER@) {
        match regex_groups(TIME_PATTERN@, line) {
            Some(groups) => time_of(groups),
            None => None,
        }
    } else {
        None
    }
}

/// The pause duration at the end of a line: `Ok(None)` where the line ends in no such
/// token, `Err` where it does and the token cannot be read.
pub open spec fn pause_time_in(line: Seq<char>) -> Result<Option<Millis>, Field> {
    match regex_groups(PAUSE_TIME_PATTERN@, line) {
        Some(groups) => match pause_of(groups) {
            Some(duration) => Ok(Some(duration)),
            None => Err(Field::PauseTime),
        },
        None => Ok(None),
    }
}

/// The occupancy that a line reports under `label` in the form `pattern`, capacity
/// included: `Ok(None)` where the line holds no such token, `Err(field)` where it does
/// and a number cannot be read.
pub open spec fn usage_in(line: Seq<char>, label: Seq<char>, pattern: Seq<char>, field: Field)
    -> Result<Option<RegionUsage>, Field> {
    if has_substring(line, label) {
        match regex_groups(pattern, line) {
            Some(groups) => match usage_of(groups) {
                Some(usage) => Ok(Some(usage)),
                None => Err(field),
            },
            None => Ok(None),
        }
    } else {
        Ok(None)
    }
}

/// As `usage_in`, for a region kind that reports no capacity.
pub open spec fn change_in(line: Seq<char>, label: Seq<char>, pattern: Seq<char>, field: Field)
    -> Result<Option<RegionChange>, Field> {
    if has_substring(line, label) {
        match regex_groups(pattern, line) {
            Some(groups) => match change_of(groups) {
                Some(change) => Ok(Some(change)),
                None => Err(field),
            },
            None => Ok(None),
        }
    } else {
        Ok(None)
    }
}

/// The facts of a line, or the first extractor that fails on it. The extractors run in
/// the order Eden, pause duration, Survivor, Old, Humongous.
pub open spec fn line_facts(line: Seq<char>) -> Result<LineFacts, Field> {
    match usage_in(line, EDEN_LABEL@, EDEN_PATTERN@, Field::Eden) {
        Err(field) => Err(field),
        Ok(eden) => match pause_time_in(line) {
            Err(field) => Err(field),
            Ok(pause_time) => match usage_in(
                line,
                SURVIVOR_LABEL@,
                SURVIVOR_PATTERN@,
                Field::Survivor,
            ) {
                Err(field) => Err(field),
                Ok(survivor) => match change_in(line, OLD_LABEL@, OLD_PATTERN@, Field::Old) {
                    Err(field) => Err(field),
                    Ok(old_gen) => match change_in(
                        line,
                        HUMONGOUS_LABEL@,
                        HUMONGOUS_PATTERN@,
                        Field::Humongous,
                    ) {
                        Err(field) => Err(field),
                        Ok(humongous) => Ok(
                            LineFacts {
                                time: time_in(line),
                                detected: classify(line),
                                pause_marker: has_substring(line, PAUSE_MARKER@),
                                pause_time,
                                eden,
                                survivor,
                                old_gen,
                                humongous,
                            },
                        ),
                    },
                },
            },
        },
    }
}

/// The characters of capture group `index`.
pub fn group_chars(groups: &Vec<Option<String>>, index: usize) -> (text: Option<Vec<char>>)
    ensures
        match text {
            Some(token) => group_text(groups.deep_view(), index as int) == Some(token@),
            None => group_text(groups.deep_view(), index as int) is None,
        },
{
    if index < groups.len() {
        match &groups[index] {
            Some(token) => Some(to_chars(token.as_str())),
            None => None,
        }
    } else {
        None
    }
}

/// Reads capture group `index` as a number.
pub fn number_from_group(groups: &Vec<Option<String>>, index: usize) -> (number: Option<u64>)
    ensures
        number == group_number(groups.deep_view(), index as int),
{
    match group_chars(groups, index) {
        Some(token) => parse_number(token.as_slice()),
        None => None,
    }
}

/// Reads groups 1 to 3 of a match as an occupancy with capacity.
pub fn usage_from_groups(groups: &Vec<Option<String>>) -> (usage: Option<RegionUsage>)
    ensures
        usage == usage_of(groups.deep_view()),
{
    let before = number_from_group(groups, 1);
    let after = number_from_group(groups, 2);
    let total = number_from_group(groups, 3);
    match (before, after, total) {
        (Some(before), Some(after), Some(total)) => Some(RegionUsage { before, after, total }),
        _ => None,
    }
}

/// Reads groups 1 and 2 of a match as an occupancy without capacity.
pub fn change_from_groups(groups: &Vec<Option<String>>) -> (change: Option<RegionChange>)
    ensures
        change == change_of(groups.deep_view()),
{
    let before = number_from_group(groups, 1);
    let after = number_from_group(groups, 2);
    match (before, after) {
        (Some(before), Some(after)) => Some(RegionChange { before, after }),
        _ => None,
    }
}

/// Reads group 1 of a match as a pause duration.
pub fn pause_from_groups(groups: &Vec<Option<String>>) -> (duration: Option<Millis>)
    ensures
        duration == pause_of(groups.deep_view()),
{
    match group_chars(groups, 1) {
        Some(token) => parse_millis(token.as_slice()),
        None => None,
    }
}

/// Whether a text, given by its characters, has the fixed timestamp layout.
pub fn is_time_shaped(raw: &[char]) -> (shaped: bool)
    ensures
        shaped == has_time_shape(raw@),
{
    if raw.len() != TIME_LENGTH {
        return false;
    }
    let mut index: usize = 0;
    while index < TIME_LENGTH
        invariant
            index <= TIME_LENGTH,
            raw@.len() == TIME_LENGTH,
            forall|i: int| 0 <= i < index ==> fits_time_shape(i, #[trigger] raw@[i]),
        decreases TIME_LENGTH - index,
    {
        let c: char = raw[index];
        let fits = if index == 4 || index == 7 {
            c == '-'
        } else if index == 10 {
            c == 'T'
        } else if index == 13 || index == 16 {
            c == ':'
        } else if index == 19 {
            c == '.'
        } else if index == 23 {
            c == '+' || c == '-'
        } else {
            c >= '0' && c <= '9'
        };
        if !fits {
            assert(!fits_time_shape(index as int, raw@[index as int]));
            return false;
        }
        index += 1;
    }
    true
}

/// Reads a timestamp of the fixed layout `YYYY-MM-DDTHH:MM:SS.mmm±HHMM`. A text of any
/// other shape is refused, whatever a more lenient reader would make of it.
pub fn parse_gc_time(raw: &str) -> (time: Option<Timestamp>)
    ensures
        time == timestamp_of(raw@),
{
    let chars = to_chars(raw);
    if is_time_shaped(chars.as_slice()) {
        read_datetime(raw, TIME_LAYOUT)
    } else {
        None
    }
}

/// Reads group 1 of a match as a timestamp.
pub fn time_from_groups(groups: &Vec<Option<String>>) -> (time: Option<Timestamp>)
    ensures
        time == time_of(groups.deep_view()),
{
    if 1 < groups.len() {
        match &groups[1] {
            Some(raw) => parse_gc_time(raw.as_str()),
            None => None,
        }
    } else {
        None
    }
}

/// Looks for an occupancy with capacity under `label`.
fn read_usage(line: &str, chars: &[char], label: &str, pattern: &str, field: Field) -> (usage:
    Result<Option<RegionUsage>, Field>)
    requires
        chars@ == line@,
    ensures
        usage == usage_in(line@, label@, pattern@, field),
{
    if !contains_str(chars, label) {
        return Ok(None);
    }
    match capture_groups(pattern, line) {
        Some(groups) => match usage_from_groups(&groups) {
            Some(usage) => Ok(Some(usage)),
            None => Err(field),
        },
        None => Ok(None),
    }
}

/// Looks for an occupancy without capacity under `label`.
fn read_change(line: &str, chars: &[char], label: &str, pattern: &str, field: Field) -> (change:
    Result<Option<RegionChange>, Field>)
    requires
        chars@ == line@,
    ensures
        change == change_in(line@, label@, pattern@, field),
{
    if !contains_str(chars, label) {
        return Ok(None);
    }
    match capture_groups(pattern, line) {
        Some(groups) => match change_from_groups(&groups) {
            Some(change) => Ok(Some(change)),
            None => Err(field),
        },
        None => Ok(None),
    }
}

/// Looks for a pause duration at the end of the line.
fn read_pause_time(line: &str) -> (duration: Result<Option<Millis>, Field>)
    ensures
        duration == pause_time_in(line@),
{
    match capture_groups(PAUSE_TIME_PATTERN, line) {
        Some(groups) => match pause_from_groups(&groups) {
            Some(duration) => Ok(Some(duration)),
            None => Err(Field::PauseTime),
        },
        None => Ok(None),
    }
}

/// Looks for the timestamp of a line of a collection record.
fn read_time(line: &str, chars: &[char]) -> (time: Option<Timestamp>)
    requires
        chars@ == line@,
    ensures
        time == time_in(line@),
{
    if !contains_str(chars, GC_MARKER) {
        return None;
    }
    match capture_groups(TIME_PATTERN, line) {
        Some(groups) => time_from_groups(&groups),
        None => None,
    }
}

/// Reads one line: its timestamp, its classification, and every token it holds.
///
/// Fails with the first extractor, in the order Eden, pause duration, Survivor, Old,
/// Humongous, whose token is there and cannot be read.
pub fn extract_line(line: &str) -> (facts: Result<LineFacts, Field>)
    ensures
        facts == line_facts(line@),
{
    let chars = to_chars(line);
    let text = chars.as_slice();
    let eden = match read_usage(line, text, EDEN_LABEL, EDEN_PATTERN, Field::Eden) {
        Ok(eden) => eden,
        Err(field) => {
            return Err(field);
        },
    };
    let pause_time = match read_pause_time(line) {
        Ok(pause_time) => pause_time,
        Err(field) => {
            return Err(field);
        },
    };
    let survivor = match read_usage(
        line,
        text,
        SURVIVOR_LABEL,
        SURVIVOR_PATTERN,
        Field::Survivor,
    ) {
        Ok(survivor) => survivor,
        Err(field) => {
            return Err(field);
        },
    };
    let old_gen = match read_change(line, text, OLD_LABEL, OLD_PATTERN, Field::Old) {
        Ok(old_gen) => old_gen,
        Err(field) => {
            return Err(field);
        },
    };
    let humongous = match read_change(
        line,
        text,
        HUMONGOUS_LABEL,
        HUMONGOUS_PATTERN,
        Field::Humongous,
    ) {
        Ok(humongous) => humongous,
        Err(field) => {
            return Err(field);
        },
    };
    Ok(
        LineFacts {
            time: read_time(line, text),
            detected: classify_chars(text),
            pause_marker: contains_str(text, PAUSE_MARKER),
            pause_time,
            eden,
            survivor,
            old_gen,
            humongous,
        },
    )
}

} // verus!
