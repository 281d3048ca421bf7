//! From the lines of a log to its events.

use vstd::prelude::*;

use crate::accumulator::{current_after, events_after, Accumulator};
use crate::event::GCEvent;
use crate::extract::{extract_line, line_facts, Field};
use crate::facts::LineFacts;

verus! {

/// The reason a log was given up: on line `line`, counted from zero, the extractor
/// `field` found a token that it could not read.
#[derive(Clone, Copy, Debug, PartialEq, Eq, Structural, Hash)]
pub struct ParseError {
    pub line: usize,
    pub field: Field,
}

/// Every line of the log can be read.
pub open spec fn all_readable(lines: Seq<Seq<char>>) -> bool {
    forall|i: int| 0 <= i < lines.len() ==> line_facts(#[trigger] lines[i]) is Ok
}

/// Line `index` is the first line of the log that cannot be read.
pub open spec fn fails_first_at(lines: Seq<Seq<char>>, index: int) -> bool {
    &&& 0 <= index < lines.len()
    &&& line_facts(lines[index]) is Err
    &&& forall|i: int| 0 <= i < index ==> line_facts(#[trigger] lines[i]) is Ok
}

/// The facts of the lines of a log, line by line.
pub open spec fn facts_of(lines: Seq<Seq<char>>) -> Seq<LineFacts> {
    Seq::new(lines.len(), |i: int| line_facts(lines[i]).unwrap())
}

/// The events of a log whose lines can all be read, in the order in which they were
/// completed. The event that is under construction when the log ends is not among them.
pub open spec fn events_of(lines: Seq<Seq<char>>) -> Seq<GCEvent> {
    events_after(GCEvent::spec_blank(), facts_of(lines))
}

impl Accumulator {
    /// Reads the next line and takes in its facts. A line with a token that cannot be
    /// read leaves the accumulator as it was.
    pub fn feed_line(&mut self, line: &str) -> (outcome: Result<(), Field>)
        ensures
            match line_facts(line@) {
                Ok(facts) => {
                    &&& outcome is Ok
                    &&& final(self).current == old(self).current.succeeded_by(facts)
                    &&& final(self).events@ == old(self).events@ + old(self).current.emitted_by(
                        facts,
                    )
                },
                Err(field) => {
                    &&& outcome == Err::<(), Field>(field)
                    &&& final(self).current == old(self).current
                    &&& final(self).events@ == old(self).events@
                },
            },
    {
        match extract_line(line) {
            Ok(facts) => {
                self.feed(&facts);
                Ok(())
            },
            Err(field) => Err(field),
        }
    }
}

/// Reconstructs the events of a log from its lines.
///
/// Succeeds where every line can be read. Otherwise the error names the first line that
/// holds a token which cannot be read, and the first extractor that fails on that line.
pub fn parse_gc_events(lines: &[String]) -> (outcome: Result<Vec<GCEvent>, ParseError>)
    ensures
        match outcome {
            Ok(events) => {
                &&& all_readable(lines.deep_view())
                &&& events@ == events_of(lines.deep_view())
            },
            Err(error) => {
                &&& fails_first_at(lines.deep_view(), error.line as int)
                &&& line_facts(lines.deep_view()[error.line as int]) == Err::<LineFacts, Field>(
                    error.field,
                )
            },
        },
{
    let ghost texts = lines.deep_view();
    let ghost facts = facts_of(texts);
    let mut acc = Accumulator::new();
    let mut index: usize = 0;
    while index < lines.len()
        invariant
            index <= lines.len(),
            texts == lines.deep_view(),
            texts.len() == lines.len(),
            facts == facts_of(texts),
            forall|i: int| 0 <= i < index ==> line_facts(#[trigger] texts[i]) is Ok,
            acc.current == current_after(GCEvent::spec_blank(), facts.take(index as int)),
            acc.events@ == events_after(GCEvent::spec_blank(), facts.take(index as int)),
        decreases lines.len() - index,
    {
        assert(texts[index as int] == lines@[index as int]@);
        match acc.feed_line(lines[index].as_str()) {
            Ok(()) => {},
            Err(field) => {
                return Err(ParseError { line: index, field });
            },
        }
        proof {
            assert(facts.take(index + 1).drop_last() =~= facts.take(index as int));
            assert(facts.take(index + 1).last() == line_facts(texts[index as int]).unwrap());
        }
        index += 1;
    }
    assert(facts.take(index as int) =~= facts);
    Ok(acc.finish())
}

} // verus!
