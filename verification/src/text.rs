//! Counting lines and characters in text.

use vstd::prelude::*;
use vstd::std_specs::iter::IteratorSpec;
use vstd::string::StringSliceAdditionalSpecFns;
use vstd::utf8::{decode_utf8, encode_utf8, encode_utf8_decode_utf8, valid_utf8};

verus! {

/// The number of line feeds in `s`.
pub open spec fn newline_count(s: Seq<char>) -> nat
    decreases s.len(),
{
    if s.len() == 0 {
        0
    } else {
        newline_count(s.drop_last()) + if s.last() == '\n' { 1nat } else { 0nat }
    }
}

/// The number of lines of `s`: every line feed ends a line, and text after the
/// last line feed is one more line.
pub open spec fn line_count(s: Seq<char>) -> nat {
    if s.len() > 0 && s.last() != '\n' {
        newline_count(s) + 1
    } else {
        newline_count(s)
    }
}

/// A text has at most as many characters as its encoding has bytes.
pub proof fn lemma_chars_within_bytes(text: Seq<char>)
    ensures
        text.len() <= encode_utf8(text).len(),
    decreases text.len(),
{
    if text.len() > 0 {
        lemma_chars_within_bytes(text.drop_first());
    }
}

/// Counts the lines of `content`.
pub fn count_lines(content: &str) -> (n: usize)
    ensures
        n == line_count(content@),
{
    let size = content.as_bytes().len();
    proof {
        lemma_chars_within_bytes(content@);
    }
    let mut it = content.chars();
    let mut newlines: usize = 0;
    let mut open_line: bool = false;
    let ghost mut seen: Seq<char> = Seq::empty();
    loop
        invariant
            seen + it.remaining() == content@,
            newlines == newline_count(seen),
            open_line == (seen.len() > 0 && seen.last() != '\n'),
            newlines + (if open_line { 1nat } else { 0nat }) <= seen.len(),
            content@.len() <= size,
        ensures
            seen == content@,
        decreases content@.len() - seen.len(),
    {
        match it.next() {
            Some(c) => {
                proof {
                    let next = seen.push(c);
                    assert(next.drop_last() == seen);
                    assert(next + it.remaining() == content@);
                    seen = next;
                }
                if c == '\n' {
                    newlines = newlines + 1;
                    open_line = false;
                } else {
                    open_line = true;
                }
            },
            None => {
                assert(seen == content@);
                break;
            },
        }
    }
    if open_line {
        newlines + 1
    } else {
        newlines
    }
}

/// What was measured in one text: its lines, and its characters where they
/// were asked for.
pub struct Measure {
    pub lines: nat,
    pub chars: Option<nat>,
}

/// What became of one file.
#[derive(Clone, Copy, Debug, PartialEq, Eq)]
pub enum FileOutcome {
    /// The file was text. `chars` is there when characters are counted.
    Counted { lines: usize, chars: Option<usize> },
    /// The file could not be read, or its bytes are not text.
    Unreadable,
}

impl View for FileOutcome {
    type V = Option<Measure>;

    open spec fn view(&self) -> Option<Measure> {
        match *self {
            FileOutcome::Counted { lines, chars } => Some(
                Measure {
                    lines: lines as nat,
                    chars: match chars {
                        Some(c) => Some(c as nat),
                        None => None,
                    },
                },
            ),
            FileOutcome::Unreadable => None,
        }
    }
}

/// The measure of a text: its lines, and the number of its Unicode scalar
/// values when `count_chars` is set.
pub open spec fn measure_of(text: Seq<char>, count_chars: bool) -> Measure {
    Measure {
        lines: line_count(text),
        chars: if count_chars {
            Some(text.len())
        } else {
            None
        },
    }
}

/// The outcome owed to a file that holds `bytes`: its measure where the bytes
/// are well-formed UTF-8, and nothing where they are not.
pub open spec fn outcome_of(bytes: Seq<u8>, count_chars: bool) -> Option<Measure> {
    if valid_utf8(bytes) {
        Some(measure_of(decode_utf8(bytes), count_chars))
    } else {
        None
    }
}

/// Counts the Unicode scalar values of `content`, not its bytes.
pub fn count_chars(content: &str) -> (n: usize)
    ensures
        n == content@.len(),
{
    content.unicode_len()
}

/// Measures a text that is already decoded.
pub fn count_text(content: &str, count_chars: bool) -> (r: FileOutcome)
    ensures
        r@ == Some(measure_of(content@, count_chars)),
{
    let lines = count_lines(content);
    let chars = if count_chars {
        Some(self::count_chars(content))
    } else {
        None
    };
    FileOutcome::Counted { lines, chars }
}

/// `std::str::from_utf8`, with its error dropped: it succeeds on exactly the
/// byte strings that are well-formed UTF-8, and the text it hands back is
/// encoded by the very bytes it was given.
#[verifier::external_body]
fn decode(bytes: &[u8]) -> (r: Option<&str>)
    ensures
        r is Some <==> valid_utf8(bytes@),
        r matches Some(s) ==> s.spec_bytes() == bytes@,
{
    std::str::from_utf8(bytes).ok()
}

/// Measures the content of a file, strictly decoded as UTF-8. Bytes that do
/// not decode make the file unreadable; nothing of them is counted.
pub fn count_file(bytes: &[u8], count_chars: bool) -> (r: FileOutcome)
    ensures
        r@ == outcome_of(bytes@, count_chars),
{
    match decode(bytes) {
        Some(content) => {
            proof {
                encode_utf8_decode_utf8(content@);
            }
            count_text(content, count_chars)
        },
        None => FileOutcome::Unreadable,
    }
}

/// Whether `s` holds no line feed.
pub open spec fn newline_free(s: Seq<char>) -> bool {
    forall|i: int| 0 <= i < s.len() ==> s[i] != '\n'
}

/// The text made of `lines` in order, each followed by a line feed.
pub open spec fn terminated(lines: Seq<Seq<char>>) -> Seq<char>
    decreases lines.len(),
{
    if lines.len() == 0 {
        Seq::empty()
    } else {
        terminated(lines.drop_last()) + lines.last().push('\n')
    }
}

/// The line feeds of two texts put together are those of both.
pub proof fn lemma_newline_count_concat(a: Seq<char>, b: Seq<char>)
    ensures
        newline_count(a + b) == newline_count(a) + newline_count(b),
    decreases b.len(),
{
    if b.len() == 0 {
        assert(a + b == a);
    } else {
        assert((a + b).drop_last() == a + b.drop_last());
        lemma_newline_count_concat(a, b.drop_last());
    }
}

/// A text without a line feed has none to count.
pub proof fn lemma_newline_free_count(s: Seq<char>)
    requires
        newline_free(s),
    ensures
        newline_count(s) == 0,
    decreases s.len(),
{
    if s.len() > 0 {
        lemma_newline_free_count(s.drop_last());
    }
}

/// An empty text has no lines.
pub proof fn lemma_empty_text_has_no_lines()
    ensures
        line_count(Seq::<char>::empty()) == 0,
{
}

/// A text of `k` lines, each ended by a line feed, counts as `k` lines.
pub proof fn lemma_terminated_lines(lines: Seq<Seq<char>>)
    requires
        forall|i: int| 0 <= i < lines.len() ==> newline_free(#[trigger] lines[i]),
    ensures
        newline_count(terminated(lines)) == lines.len(),
        line_count(terminated(lines)) == lines.len(),
    decreases lines.len(),
{
    if lines.len() > 0 {
        let front = lines.drop_last();
        let last = lines.last().push('\n');
        lemma_terminated_lines(front);
        lemma_newline_count_concat(terminated(front), last);
        assert(last.drop_last() == lines.last());
        lemma_newline_free_count(lines.last());
        assert(terminated(lines).last() == '\n');
    }
}

/// A text of `k` lines ended by line feeds, followed by a last line that is
/// not empty and not ended, counts as `k + 1` lines.
pub proof fn lemma_unterminated_last_line(lines: Seq<Seq<char>>, tail: Seq<char>)
    requires
        forall|i: int| 0 <= i < lines.len() ==> newline_free(#[trigger] lines[i]),
        tail.len() > 0,
        newline_free(tail),
    ensures
        line_count(terminated(lines) + tail) == lines.len() + 1,
{
    lemma_terminated_lines(lines);
    lemma_newline_count_concat(terminated(lines), tail);
    lemma_newline_free_count(tail);
    assert((terminated(lines) + tail).last() == tail.last());
}

} // verus!
