//! The text of the report: one line per logged file, and the summary.

use crate::config::LogMode;
use crate::stats::{RunStatistics, Totals};
use crate::text::{FileOutcome, Measure};
use vstd::prelude::*;
use vstd::string::StringExecFns;

verus! {

/// The character of one decimal digit.
pub open spec fn digit_char(d: nat) -> char {
    if d == 0 {
        '0'
    } else if d == 1 {
        '1'
    } else if d == 2 {
        '2'
    } else if d == 3 {
        '3'
    } else if d == 4 {
        '4'
    } else if d == 5 {
        '5'
    } else if d == 6 {
        '6'
    } else if d == 7 {
        '7'
    } else if d == 8 {
        '8'
    } else {
        '9'
    }
}

/// The decimal digits of `n`, most significant first, without leading zeros.
pub open spec fn decimal(n: nat) -> Seq<char>
    decreases n,
{
    if n < 10 {
        seq![digit_char(n)]
    } else {
        decimal(n / 10).push(digit_char(n % 10))
    }
}

/// The line logged for a counted file: its path, its lines, its characters
/// where they were counted, and the lines counted so far in the run.
pub open spec fn counted_text(path: Seq<char>, measure: Measure, total_lines: nat) -> Seq<char> {
    match measure.chars {
        Some(chars) => "lines of code in "@ + path + " = "@ + decimal(measure.lines) + ", "@
            + decimal(chars) + " chars, total lines = "@ + decimal(total_lines) + "\n"@,
        None => "lines of code in "@ + path + " = "@ + decimal(measure.lines)
            + ", total lines = "@ + decimal(total_lines) + "\n"@,
    }
}

/// The line logged for a file that could not be counted.
pub open spec fn bad_text(path: Seq<char>) -> Seq<char> {
    "Could not count this file: "@ + path + "\n"@
}

/// What is logged for one visited file in a mode, if anything.
pub open spec fn log_text(
    mode: LogMode,
    path: Seq<char>,
    outcome: Option<Measure>,
    total_lines: nat,
) -> Option<Seq<char>> {
    match outcome {
        Some(measure) => if mode.shows_counted() {
            Some(counted_text(path, measure, total_lines))
        } else {
            None
        },
        None => if mode.shows_bad() {
            Some(bad_text(path))
        } else {
            None
        },
    }
}

/// The line that closes the summary.
pub open spec fn totals_text(totals: Totals) -> Seq<char> {
    "Across "@ + decimal(totals.files) + " files, Counted a total of "@ + decimal(totals.lines)
        + " lines, encountered "@ + decimal(totals.bad)
        + " BAD FILES\n\nBAD FILES are files that could not be counted, e.g (images, audio, etc..).\n"@
}

/// The summary of a run: the character total where characters were counted,
/// then the totals of files, lines and bad files with a note on bad files.
pub open spec fn summary_text(totals: Totals, count_chars: bool) -> Seq<char> {
    if count_chars {
        "Counted a total of "@ + decimal(totals.chars) + " characters\n"@ + totals_text(totals)
    } else {
        totals_text(totals)
    }
}

/// The text of one digit.
fn digit_str(d: usize) -> (s: &'static str)
    requires
        d < 10,
    ensures
        s@ == seq![digit_char(d as nat)],
{
    proof {
        reveal_strlit("0");
        reveal_strlit("1");
        reveal_strlit("2");
        reveal_strlit("3");
        reveal_strlit("4");
        reveal_strlit("5");
        reveal_strlit("6");
        reveal_strlit("7");
        reveal_strlit("8");
        reveal_strlit("9");
    }
    let s = if d == 0 {
        "0"
    } else if d == 1 {
        "1"
    } else if d == 2 {
        "2"
    } else if d == 3 {
        "3"
    } else if d == 4 {
        "4"
    } else if d == 5 {
        "5"
    } else if d == 6 {
        "6"
    } else if d == 7 {
        "7"
    } else if d == 8 {
        "8"
    } else {
        "9"
    };
    assert(s@ =~= seq![digit_char(d as nat)]);
    s
}

/// Writes `n` in decimal.
pub fn decimal_string(n: usize) -> (s: String)
    ensures
        s@ == decimal(n as nat),
    decreases n,
{
    if n < 10 {
        String::from_str(digit_str(n))
    } else {
        let mut s = decimal_string(n / 10);
        s.append(digit_str(n % 10));
        assert(s@ =~= decimal(n as nat));
        s
    }
}

/// The line for a counted file.
pub fn counted_line(path: &str, lines: usize, chars: Option<usize>, total_lines: usize) -> (s:
    String)
    ensures
        s@ == counted_text(
            path@,
            (Measure {
                lines: lines as nat,
                chars: match chars {
                    Some(c) => Some(c as nat),
                    None => None,
                },
            }),
            total_lines as nat,
        ),
{
    let mut s = String::from_str("lines of code in ");
    s.append(path);
    s.append(" = ");
    s.append(decimal_string(lines).as_str());
    match chars {
        Some(c) => {
            s.append(", ");
            s.append(decimal_string(c).as_str());
            s.append(" chars, total lines = ");
        },
        None => {
            s.append(", total lines = ");
        },
    }
    s.append(decimal_string(total_lines).as_str());
    s.append("\n");
    s
}

/// The line for a file that could not be counted.
pub fn bad_line(path: &str) -> (s: String)
    ensures
        s@ == bad_text(path@),
{
    let mut s = String::from_str("Could not count this file: ");
    s.append(path);
    s.append("\n");
    s
}

/// The line to log for one visited file, if the mode logs it.
/// `total_lines` is the running total after the file.
pub fn log_line(mode: LogMode, path: &str, outcome: &FileOutcome, total_lines: usize) -> (r:
    Option<String>)
    ensures
        (match r {
            Some(s) => log_text(mode, path@, outcome@, total_lines as nat) == Some(s@),
            None => log_text(mode, path@, outcome@, total_lines as nat) is None,
        }),
{
    match *outcome {
        FileOutcome::Counted { lines, chars } => {
            if mode.logs_counted() {
                Some(counted_line(path, lines, chars, total_lines))
            } else {
                None
            }
        },
        FileOutcome::Unreadable => {
            if mode.logs_bad() {
                Some(bad_line(path))
            } else {
                None
            }
        },
    }
}

/// The summary printed at the end of a run.
pub fn summary(stats: &RunStatistics, count_chars: bool) -> (s: String)
    ensures
        s@ == summary_text(stats@, count_chars),
{
    let mut s = String::new();
    if count_chars {
        s.append("Counted a total of ");
        s.append(decimal_string(stats.total_chars).as_str());
        s.append(" characters\n");
    }
    s.append("Across ");
    s.append(decimal_string(stats.total_files).as_str());
    s.append(" files, Counted a total of ");
    s.append(decimal_string(stats.total_lines).as_str());
    s.append(" lines, encountered ");
    s.append(decimal_string(stats.bad_files).as_str());
    s.append(
        " BAD FILES\n\nBAD FILES are files that could not be counted, e.g (images, audio, etc..).\n",
    );
    proof {
        assert(s@ =~= summary_text(stats@, count_chars));
    }
    s
}

} // verus!
