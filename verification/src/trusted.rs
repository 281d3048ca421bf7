//! The two calls that leave this crate: a regular-expression search and the reading of a
//! timestamp. Their contracts are believed, not proved.

use chrono::DateTime;
use regex::Regex;
use vstd::prelude::*;

use crate::event::Timestamp;

verus! {

/// What a search for `pattern` in `text` finds with the `regex` crate: `None` where the
/// pattern does not compile or matches nowhere in the text, else the capture groups of
/// the first match in the order of their opening parentheses, group 0 being the whole
/// match. A group that took no part in the match is `None`.
pub uninterp spec fn regex_groups(pattern: Seq<char>, text: Seq<char>) -> Option<
    Seq<Option<Seq<char>>>,
>;

/// What the `chrono` crate reads from `raw` under the strftime layout `layout`: `None`
/// where its reader refuses `raw`, as it does for a text that names no valid instant.
/// That reader is more lenient than a layout reads: it takes a text without the
/// fraction of a second, and an offset written with a colon. Whoever needs a fixed
/// shape has to check it.
pub uninterp spec fn datetime_of(raw: Seq<char>, layout: Seq<char>) -> Option<Timestamp>;

/// Runs `regex::Regex::new` on the pattern and `Regex::captures` on the text, and copies
/// the text of every group of the match (`Captures::iter`, `Match::as_str`).
///
/// Believed: the outcome depends on the two arguments alone, so it can be named.
#[verifier::external_body]
pub(crate) fn capture_groups(pattern: &str, text: &str) -> (found: Option<Vec<Option<String>>>)
    ensures
        found.deep_view() == regex_groups(pattern@, text@),
{
    let compiled = Regex::new(pattern).ok()?;
    let captures = compiled.captures(text)?;
    Some(captures.iter().map(|group| group.map(|m| m.as_str().to_string())).collect())
}

/// Runs `chrono::DateTime::parse_from_str` and hands out the instant as numbers:
/// `DateTime::timestamp`, `DateTime::timestamp_subsec_nanos` and the offset's
/// `FixedOffset::local_minus_utc`.
///
/// Believed: the outcome depends on the two arguments alone, so it can be named.
#[verifier::external_body]
pub(crate) fn read_datetime(raw: &str, layout: &str) -> (time: Option<Timestamp>)
    ensures
        time == datetime_of(raw@, layout@),
{
    let parsed = DateTime::parse_from_str(raw, layout).ok()?;
    Some(
        Timestamp {
            secs: parsed.timestamp(),
            nanos: parsed.timestamp_subsec_nanos(),
            offset_secs: parsed.offset().local_minus_utc(),
        },
    )
}

} // verus!
