//! The running totals of a run.

use crate::text::{line_count, outcome_of, FileOutcome, Measure};
use vstd::prelude::*;
use vstd::utf8::{decode_utf8, valid_utf8};

verus! {

/// Totals as mathematical numbers.
pub struct Totals {
    pub files: nat,
    pub lines: nat,
    pub chars: nat,
    pub bad: nat,
}

impl Totals {
    /// The totals before any file.
    pub open spec fn zero() -> Totals {
        Totals { files: 0, lines: 0, chars: 0, bad: 0 }
    }

    /// The sum of two totals, field by field.
    pub open spec fn plus(self, other: Totals) -> Totals {
        Totals {
            files: self.files + other.files,
            lines: self.lines + other.lines,
            chars: self.chars + other.chars,
            bad: self.bad + other.bad,
        }
    }

    /// Whether every total fits the machine's counters.
    pub open spec fn fits(self) -> bool {
        &&& self.files <= usize::MAX
        &&& self.lines <= usize::MAX
        &&& self.chars <= usize::MAX
        &&& self.bad <= usize::MAX
    }

    /// Whether no total of `self` is above that of `other`.
    pub open spec fn le(self, other: Totals) -> bool {
        &&& self.files <= other.files
        &&& self.lines <= other.lines
        &&& self.chars <= other.chars
        &&& self.bad <= other.bad
    }
}

/// What one visited file adds to the totals: always one file; its lines and
/// counted characters where it was text, and one bad file where it was not.
pub open spec fn tally_of(outcome: Option<Measure>) -> Totals {
    match outcome {
        Some(m) => Totals {
            files: 1,
            lines: m.lines,
            chars: match m.chars {
                Some(c) => c,
                None => 0,
            },
            bad: 0,
        },
        None => Totals { files: 1, lines: 0, chars: 0, bad: 1 },
    }
}

/// The totals of a run: files visited, lines and characters counted, and
/// files that could not be counted.
#[derive(Clone, Copy, Debug, PartialEq, Eq)]
pub struct RunStatistics {
    pub total_files: usize,
    pub total_lines: usize,
    pub total_chars: usize,
    pub bad_files: usize,
}

impl View for RunStatistics {
    type V = Totals;

    open spec fn view(&self) -> Totals {
        Totals {
            files: self.total_files as nat,
            lines: self.total_lines as nat,
            chars: self.total_chars as nat,
            bad: self.bad_files as nat,
        }
    }
}

impl RunStatistics {
    /// The statistics of a run that has visited nothing.
    pub open spec fn zeroed() -> RunStatistics {
        RunStatistics { total_files: 0, total_lines: 0, total_chars: 0, bad_files: 0 }
    }

    /// Statistics with every total at zero.
    pub fn new() -> (r: RunStatistics)
        ensures
            r == RunStatistics::zeroed(),
            r@ == Totals::zero(),
    {
        RunStatistics { total_files: 0, total_lines: 0, total_chars: 0, bad_files: 0 }
    }

    /// Whether `outcome` can be added without a total leaving the range of
    /// its counter.
    pub fn can_record(&self, outcome: &FileOutcome) -> (ok: bool)
        ensures
            ok == self@.plus(tally_of(outcome@)).fits(),
    {
        if self.total_files == usize::MAX {
            return false;
        }
        match *outcome {
            FileOutcome::Counted { lines, chars } => {
                let chars_fit = match chars {
                    Some(c) => c <= usize::MAX - self.total_chars,
                    None => true,
                };
                lines <= usize::MAX - self.total_lines && chars_fit
            },
            FileOutcome::Unreadable => self.bad_files < usize::MAX,
        }
    }

    /// Adds one visited file to the totals.
    pub fn record(&mut self, outcome: &FileOutcome)
        requires
            old(self)@.plus(tally_of(outcome@)).fits(),
        ensures
            final(self)@ == old(self)@.plus(tally_of(outcome@)),
    {
        self.total_files = self.total_files + 1;
        match *outcome {
            FileOutcome::Counted { lines, chars } => {
                self.total_lines = self.total_lines + lines;
                match chars {
                    Some(c) => {
                        self.total_chars = self.total_chars + c;
                    },
                    None => {},
                }
            },
            FileOutcome::Unreadable => {
                self.bad_files = self.bad_files + 1;
            },
        }
    }
}

/// A file that decodes as text adds exactly one file and exactly its own
/// lines to the totals, and no bad file.
pub proof fn lemma_text_file_tally(before: Totals, bytes: Seq<u8>, count_chars: bool)
    requires
        valid_utf8(bytes),
    ensures
        before.plus(tally_of(outcome_of(bytes, count_chars))).files == before.files + 1,
        before.plus(tally_of(outcome_of(bytes, count_chars))).lines == before.lines + line_count(
            decode_utf8(bytes),
        ),
        before.plus(tally_of(outcome_of(bytes, count_chars))).bad == before.bad,
        count_chars ==> before.plus(tally_of(outcome_of(bytes, count_chars))).chars
            == before.chars + decode_utf8(bytes).len(),
        !count_chars ==> before.plus(tally_of(outcome_of(bytes, count_chars))).chars
            == before.chars,
{
}

/// A file whose bytes do not decode adds one bad file and one file to the
/// totals, and neither lines nor characters.
pub proof fn lemma_undecodable_file_tally(before: Totals, bytes: Seq<u8>, count_chars: bool)
    requires
        !valid_utf8(bytes),
    ensures
        before.plus(tally_of(outcome_of(bytes, count_chars))) == (Totals {
            files: before.files + 1,
            lines: before.lines,
            chars: before.chars,
            bad: before.bad + 1,
        }),
{
}

} // verus!
