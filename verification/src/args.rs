//! The settings of a run and the choice of chart they make.

use vstd::prelude::*;

use crate::text::{matches_at, to_chars};

verus! {

/// The settings of a run: the log to read, where the chart goes, which chart to draw,
/// where the table of events goes if one is wanted, and whether to print the tally.
#[derive(Debug)]
pub struct Args {
    pub input: String,
    pub plot: String,
    pub mode: String,
    pub csv: Option<String>,
    pub summary: bool,
}

/// The charts that can be drawn.
#[derive(Clone, Copy, Debug, PartialEq, Eq, Structural, Hash)]
pub enum ChartMode {
    Heap,
    Pause,
    Combined,
}

/// The chart that a mode name asks for: `heap`, `pause` or `combined`, spelled exactly
/// so. Any other name asks for none.
pub open spec fn mode_of(name: Seq<char>) -> Option<ChartMode> {
    if name == "heap"@ {
        Some(ChartMode::Heap)
    } else if name == "pause"@ {
        Some(ChartMode::Pause)
    } else if name == "combined"@ {
        Some(ChartMode::Combined)
    } else {
        None
    }
}

/// Whether two texts are the same.
fn same_text(text: &[char], word: &str) -> (same: bool)
    ensures
        same == (text@ == word@),
{
    let letters = to_chars(word);
    if text.len() != letters.len() {
        return false;
    }
    let same = matches_at(text, letters.as_slice(), 0);
    assert(text@.subrange(0, letters@.len() as int) =~= text@);
    same
}

/// Reads a mode name.
pub fn parse_mode(name: &str) -> (mode: Option<ChartMode>)
    ensures
        mode == mode_of(name@),
{
    let letters = to_chars(name);
    if same_text(letters.as_slice(), "heap") {
        Some(ChartMode::Heap)
    } else if same_text(letters.as_slice(), "pause") {
        Some(ChartMode::Pause)
    } else if same_text(letters.as_slice(), "combined") {
        Some(ChartMode::Combined)
    } else {
        None
    }
}

impl Args {
    /// The chart these settings ask for, `None` where the mode names none.
    pub fn chart_mode(&self) -> (mode: Option<ChartMode>)
        ensures
            mode == mode_of(self.mode@),
    {
        parse_mode(self.mode.as_str())
    }
}

} // verus!
