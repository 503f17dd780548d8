//! The traversal: which entries are counted, which are entered, and what a
//! whole tree adds to the totals and to the log.

use crate::config::Config;
use crate::ignore::IgnoreSet;
use crate::report::{log_line, log_text};
use crate::stats::{tally_of, RunStatistics, Totals};
use crate::text::{count_file, line_count, outcome_of, FileOutcome, Measure};
use vstd::prelude::*;
use vstd::utf8::{decode_utf8, valid_utf8};

verus! {

/// What a directory entry is.
#[derive(Clone, Copy, Debug, PartialEq, Eq, Structural)]
pub enum EntryKind {
    /// A regular file.
    File,
    /// A directory.
    Directory,
    /// A symbolic link, socket, device or other special entry.
    Other,
}

/// What the traversal does with a directory entry.
#[derive(Clone, Copy, Debug, PartialEq, Eq, Structural)]
pub enum Visit {
    /// Read the file and count it.
    Count,
    /// List the directory and visit its entries.
    Descend,
    /// Pass over the entry.
    Skip,
}

/// The visit owed to an entry: a file is counted unless a file marker
/// excludes its path, a directory is entered unless a folder marker excludes
/// its path, and anything else is passed over.
pub open spec fn visit_of(ignore: IgnoreSet, path: Seq<char>, kind: EntryKind) -> Visit {
    match kind {
        EntryKind::File => if ignore.excludes_file(path) {
            Visit::Skip
        } else {
            Visit::Count
        },
        EntryKind::Directory => if ignore.excludes_folder(path) {
            Visit::Skip
        } else {
            Visit::Descend
        },
        EntryKind::Other => Visit::Skip,
    }
}

/// The outcome of reading a file: that of its bytes, or none where the read
/// itself failed.
pub open spec fn read_outcome(content: Option<Seq<u8>>, count_chars: bool) -> Option<Measure> {
    match content {
        Some(bytes) => outcome_of(bytes, count_chars),
        None => None,
    }
}

/// The state of a run as a reader of its output sees it: the totals, and the
/// lines logged so far.
pub struct Trace {
    pub totals: Totals,
    pub log: Seq<Seq<char>>,
}

/// The trace after one visited file: its tally is added, and its log line, if
/// the mode has one, carries the running total of lines after the file.
pub open spec fn after_file(
    before: Trace,
    config: Config,
    path: Seq<char>,
    outcome: Option<Measure>,
) -> Trace {
    let totals = before.totals.plus(tally_of(outcome));
    Trace {
        totals,
        log: match log_text(config.mode, path, outcome, totals.lines) {
            Some(line) => before.log.push(line),
            None => before.log,
        },
    }
}

/// Why a traversal stopped before its end.
#[derive(Clone, Copy, Debug, PartialEq, Eq, Structural)]
pub enum TraversalError {
    /// The entries of a directory could not be listed.
    Listing,
    /// The kind of an entry could not be found out.
    Metadata,
}

/// A snapshot of a directory tree. Every node that has a path carries it in
/// full.
pub enum Node {
    /// A regular file and its bytes; `None` where it cannot be read.
    File { path: String, content: Option<Vec<u8>> },
    /// A directory and its entries in listing order.
    Directory { path: String, entries: Vec<Node> },
    /// An entry that is neither a file nor a directory.
    Special { path: String },
    /// A directory whose entries cannot be listed.
    Unlistable { path: String },
    /// An entry whose kind cannot be found out.
    Unknown,
}

/// The bytes read from a file of a snapshot.
pub open spec fn content_bytes(content: Option<Vec<u8>>) -> Option<Seq<u8>> {
    match content {
        Some(bytes) => Some(bytes@),
        None => None,
    }
}

/// How far a traversal came: the trace it left, and the failure that stopped
/// it, if one did.
pub struct Progress {
    pub trace: Trace,
    pub failure: Option<TraversalError>,
}

/// The progress of the traversal of `node`, depth first and in listing order.
/// A file that cannot be read is counted as bad and the traversal goes on; a
/// directory that cannot be listed, or an entry of unknown kind, stops it.
pub open spec fn walked(node: Node, ignore: IgnoreSet, config: Config, before: Trace) -> Progress
    decreases node, 0nat,
{
    match node {
        Node::File { path, content } => if ignore.excludes_file(path@) {
            Progress { trace: before, failure: None }
        } else {
            Progress {
                trace: after_file(
                    before,
                    config,
                    path@,
                    read_outcome(content_bytes(content), config.count_chars),
                ),
                failure: None,
            }
        },
        Node::Directory { path, entries } => if ignore.excludes_folder(path@) {
            Progress { trace: before, failure: None }
        } else {
            walked_entries(entries@, entries@.len(), ignore, config, before)
        },
        Node::Special { path } => Progress { trace: before, failure: None },
        Node::Unlistable { path } => if ignore.excludes_folder(path@) {
            Progress { trace: before, failure: None }
        } else {
            Progress { trace: before, failure: Some(TraversalError::Listing) }
        },
        Node::Unknown => Progress { trace: before, failure: Some(TraversalError::Metadata) },
    }
}

/// The progress after the first `n` of `entries`: nothing is visited after a
/// failure.
pub open spec fn walked_entries(
    entries: Seq<Node>,
    n: nat,
    ignore: IgnoreSet,
    config: Config,
    before: Trace,
) -> Progress
    decreases entries, n,
{
    if 0 < n <= entries.len() {
        let sofar = walked_entries(entries, (n - 1) as nat, ignore, config, before);
        if sofar.failure is Some {
            sofar
        } else {
            walked(entries[n - 1], ignore, config, sofar.trace)
        }
    } else {
        Progress { trace: before, failure: None }
    }
}

/// What the files of `node` that a traversal without failure visits add to
/// the totals.
pub open spec fn tally_in(node: Node, ignore: IgnoreSet, count_chars: bool) -> Totals
    decreases node, 0nat,
{
    match node {
        Node::File { path, content } => if ignore.excludes_file(path@) {
            Totals::zero()
        } else {
            tally_of(read_outcome(content_bytes(content), count_chars))
        },
        Node::Directory { path, entries } => if ignore.excludes_folder(path@) {
            Totals::zero()
        } else {
            tally_in_entries(entries@, entries@.len(), ignore, count_chars)
        },
        _ => Totals::zero(),
    }
}

/// What the visited files of the first `n` of `entries` add to the totals.
pub open spec fn tally_in_entries(
    entries: Seq<Node>,
    n: nat,
    ignore: IgnoreSet,
    count_chars: bool,
) -> Totals
    decreases entries, n,
{
    if 0 < n <= entries.len() {
        tally_in_entries(entries, (n - 1) as nat, ignore, count_chars).plus(
            tally_in(entries[n - 1], ignore, count_chars),
        )
    } else {
        Totals::zero()
    }
}

/// The trace of the statistics and the log of a run.
pub open spec fn trace_of(stats: RunStatistics, log: Seq<String>) -> Trace {
    Trace { totals: stats@, log: Seq::new(log.len(), |i: int| log[i]@) }
}

/// A traversal never takes from the totals.
pub proof fn lemma_walked_grows(node: Node, ignore: IgnoreSet, config: Config, before: Trace)
    ensures
        before.totals.le(walked(node, ignore, config, before).trace.totals),
    decreases node, 0nat,
{
    match node {
        Node::Directory { path, entries } => {
            if !ignore.excludes_folder(path@) {
                lemma_walked_entries_grow(entries@, 0, entries@.len(), ignore, config, before);
            }
        },
        _ => {},
    }
}

/// The totals after fewer entries are never above those after more.
pub proof fn lemma_walked_entries_grow(
    entries: Seq<Node>,
    k: nat,
    n: nat,
    ignore: IgnoreSet,
    config: Config,
    before: Trace,
)
    requires
        k <= n <= entries.len(),
    ensures
        walked_entries(entries, k, ignore, config, before).trace.totals.le(
            walked_entries(entries, n, ignore, config, before).trace.totals,
        ),
    decreases entries, n,
{
    if k < n {
        let sofar = walked_entries(entries, (n - 1) as nat, ignore, config, before);
        lemma_walked_entries_grow(entries, k, (n - 1) as nat, ignore, config, before);
        lemma_walked_grows(entries[n - 1], ignore, config, sofar.trace);
    }
}

/// Once the traversal of a directory has failed, it visits nothing more.
pub proof fn lemma_failure_stops(
    entries: Seq<Node>,
    k: nat,
    n: nat,
    ignore: IgnoreSet,
    config: Config,
    before: Trace,
)
    requires
        k <= n <= entries.len(),
        walked_entries(entries, k, ignore, config, before).failure is Some,
    ensures
        walked_entries(entries, n, ignore, config, before) == walked_entries(
            entries,
            k,
            ignore,
            config,
            before,
        ),
    decreases n,
{
    if k < n {
        lemma_failure_stops(entries, k, (n - 1) as nat, ignore, config, before);
    }
}

/// After a traversal that did not fail, the totals are those before plus the
/// tally of every file visited: each such file is counted exactly once, and
/// the sum of their line counts is what the total of lines grew by.
pub proof fn lemma_walked_adds(node: Node, ignore: IgnoreSet, config: Config, before: Trace)
    requires
        walked(node, ignore, config, before).failure is None,
    ensures
        walked(node, ignore, config, before).trace.totals == before.totals.plus(
            tally_in(node, ignore, config.count_chars),
        ),
    decreases node, 0nat,
{
    match node {
        Node::Directory { path, entries } => {
            if !ignore.excludes_folder(path@) {
                lemma_walked_entries_add(entries@, entries@.len(), ignore, config, before);
            }
        },
        _ => {},
    }
}

/// The same for the first `n` entries of a directory.
pub proof fn lemma_walked_entries_add(
    entries: Seq<Node>,
    n: nat,
    ignore: IgnoreSet,
    config: Config,
    before: Trace,
)
    requires
        walked_entries(entries, n, ignore, config, before).failure is None,
    ensures
        walked_entries(entries, n, ignore, config, before).trace.totals == before.totals.plus(
            tally_in_entries(entries, n, ignore, config.count_chars),
        ),
    decreases entries, n,
{
    if 0 < n <= entries.len() {
        let m = (n - 1) as nat;
        let sofar = walked_entries(entries, m, ignore, config, before);
        lemma_walked_entries_add(entries, m, ignore, config, before);
        lemma_walked_adds(entries[n - 1], ignore, config, sofar.trace);
    }
}

/// A file that no marker excludes and whose bytes decode as text adds exactly
/// one file and exactly its own lines, and is not a bad file.
pub proof fn lemma_text_file_is_counted(
    node: Node,
    ignore: IgnoreSet,
    config: Config,
    before: Trace,
)
    requires
        (node matches Node::File { path, content: Some(bytes) } && !ignore.excludes_file(path@)
            && valid_utf8(bytes@)),
    ensures
        walked(node, ignore, config, before).failure is None,
        walked(node, ignore, config, before).trace.totals.files == before.totals.files + 1,
        walked(node, ignore, config, before).trace.totals.lines == before.totals.lines
            + line_count(decode_utf8(node->content->0@)),
        walked(node, ignore, config, before).trace.totals.bad == before.totals.bad,
        walked(node, ignore, config, before).trace.totals.chars == before.totals.chars + (
        if config.count_chars {
            decode_utf8(node->content->0@).len()
        } else {
            0
        }),
{
}

/// A file that no marker excludes and that cannot be read, or whose bytes do
/// not decode, adds one file and one bad file, and neither lines nor
/// characters; the traversal goes on.
pub proof fn lemma_bad_file_is_counted(
    node: Node,
    ignore: IgnoreSet,
    config: Config,
    before: Trace,
)
    requires
        (node matches Node::File { path, content } && !ignore.excludes_file(path@) && match content {
            Some(bytes) => !valid_utf8(bytes@),
            None => true,
        }),
    ensures
        walked(node, ignore, config, before).failure is None,
        walked(node, ignore, config, before).trace.totals == (Totals {
            files: before.totals.files + 1,
            lines: before.totals.lines,
            chars: before.totals.chars,
            bad: before.totals.bad + 1,
        }),
{
}

/// An entry that a marker excludes is passed over wherever it stands in a
/// listing: the progress after it is the progress before it.
pub proof fn lemma_ignored_entry_is_passed_over(
    entries: Seq<Node>,
    n: nat,
    ignore: IgnoreSet,
    config: Config,
    before: Trace,
)
    requires
        0 < n <= entries.len(),
        (match entries[n - 1] {
            Node::File { path, .. } => ignore.excludes_file(path@),
            Node::Directory { path, .. } => ignore.excludes_folder(path@),
            Node::Unlistable { path } => ignore.excludes_folder(path@),
            _ => false,
        }),
    ensures
        walked_entries(entries, n, ignore, config, before) == walked_entries(
            entries,
            (n - 1) as nat,
            ignore,
            config,
            before,
        ),
{
    let sofar = walked_entries(entries, (n - 1) as nat, ignore, config, before);
    assert(walked(entries[n - 1], ignore, config, sofar.trace) == (Progress {
        trace: sofar.trace,
        failure: None,
    }));
}

/// A file whose path holds a file marker leaves totals and log as they were.
pub proof fn lemma_ignored_file_leaves_no_trace(
    node: Node,
    ignore: IgnoreSet,
    config: Config,
    before: Trace,
)
    requires
        (node matches Node::File { path, .. } && ignore.excludes_file(path@)),
    ensures
        walked(node, ignore, config, before) == (Progress { trace: before, failure: None }),
        tally_in(node, ignore, config.count_chars) == Totals::zero(),
{
}

/// A directory whose path holds a folder marker leaves totals and log as they
/// were, and cannot fail, whatever lies beneath it.
pub proof fn lemma_ignored_folder_leaves_no_trace(
    node: Node,
    ignore: IgnoreSet,
    config: Config,
    before: Trace,
)
    requires
        (match node {
            Node::Directory { path, .. } => ignore.excludes_folder(path@),
            Node::Unlistable { path } => ignore.excludes_folder(path@),
            _ => false,
        }),
    ensures
        walked(node, ignore, config, before) == (Progress { trace: before, failure: None }),
        tally_in(node, ignore, config.count_chars) == Totals::zero(),
{
}

/// Two runs over the same tree with the same settings, each from zeroed
/// statistics and neither stopped by a failure, end with the same statistics.
pub proof fn lemma_runs_agree(
    node: Node,
    ignore: IgnoreSet,
    config: Config,
    first: RunStatistics,
    second: RunStatistics,
    first_log: Seq<String>,
    second_log: Seq<String>,
)
    requires
        trace_of(first, first_log) == walked(
            node,
            ignore,
            config,
            trace_of(RunStatistics::zeroed(), Seq::empty()),
        ).trace,
        trace_of(second, second_log) == walked(
            node,
            ignore,
            config,
            trace_of(RunStatistics::zeroed(), Seq::empty()),
        ).trace,
    ensures
        first == second,
        first_log.len() == second_log.len(),
        forall|i: int| 0 <= i < first_log.len() ==> first_log[i]@ == second_log[i]@,
{
    let a = trace_of(first, first_log);
    let b = trace_of(second, second_log);
    assert(a.log == b.log);
    assert(a.log.len() == first_log.len());
    assert(b.log.len() == second_log.len());
    assert forall|i: int| 0 <= i < first_log.len() implies first_log[i]@ == second_log[i]@ by {
        assert(a.log[i] == first_log[i]@);
        assert(b.log[i] == second_log[i]@);
    }
}

/// The state of a run: the ignore set and the settings, which stay as they
/// are, and the statistics, which every visited file adds to.
pub struct Walker {
    pub ignore: IgnoreSet,
    pub config: Config,
    pub stats: RunStatistics,
}

impl Walker {
    /// A run that has visited nothing yet.
    pub fn new(ignore: IgnoreSet, config: Config) -> (w: Walker)
        ensures
            w.ignore == ignore,
            w.config == config,
            w.stats@ == Totals::zero(),
    {
        Walker { ignore, config, stats: RunStatistics::new() }
    }

    /// Decides what to do with the entry at `path`.
    pub fn decide(&self, path: &str, kind: EntryKind) -> (v: Visit)
        ensures
            v == visit_of(self.ignore, path@, kind),
    {
        match kind {
            EntryKind::File => {
                if self.ignore.ignores_file(path) {
                    Visit::Skip
                } else {
                    Visit::Count
                }
            },
            EntryKind::Directory => {
                if self.ignore.ignores_folder(path) {
                    Visit::Skip
                } else {
                    Visit::Descend
                }
            },
            EntryKind::Other => Visit::Skip,
        }
    }

    /// Measures what was read from a file; `None` stands for a read that
    /// failed.
    pub fn measure(&self, content: Option<&[u8]>) -> (r: FileOutcome)
        ensures
            r@ == read_outcome(
                match content {
                    Some(bytes) => Some(bytes@),
                    None => None,
                },
                self.config.count_chars,
            ),
    {
        match content {
            Some(bytes) => count_file(bytes, self.config.count_chars),
            None => FileOutcome::Unreadable,
        }
    }

    /// Adds one visited file to the statistics and hands back the line to
    /// log for it, if the mode logs it.
    pub fn record(&mut self, path: &str, outcome: &FileOutcome) -> (line: Option<String>)
        requires
            old(self).stats@.plus(tally_of(outcome@)).fits(),
        ensures
            final(self).ignore == old(self).ignore,
            final(self).config == old(self).config,
            final(self).stats@ == old(self).stats@.plus(tally_of(outcome@)),
            (match line {
                Some(s) => log_text(
                    old(self).config.mode,
                    path@,
                    outcome@,
                    final(self).stats@.lines,
                ) == Some(s@),
                None => log_text(
                    old(self).config.mode,
                    path@,
                    outcome@,
                    final(self).stats@.lines,
                ) is None,
            }),
    {
        self.stats.record(outcome);
        log_line(self.config.mode, path, outcome, self.stats.total_lines)
    }

    /// Traverses a snapshot: counts every file that no marker excludes,
    /// enters every directory that no marker excludes, and appends the log
    /// lines in the order of the visit. The first directory that cannot be
    /// listed, or entry of unknown kind, ends the traversal with its error;
    /// what was counted and logged until then stays.
    pub fn walk(&mut self, node: &Node, log: &mut Vec<String>) -> (r: Result<(), TraversalError>)
        requires
            walked(
                *node,
                old(self).ignore,
                old(self).config,
                trace_of(old(self).stats, old(log)@),
            ).trace.totals.fits(),
        ensures
            final(self).ignore == old(self).ignore,
            final(self).config == old(self).config,
            trace_of(final(self).stats, final(log)@) == walked(
                *node,
                old(self).ignore,
                old(self).config,
                trace_of(old(self).stats, old(log)@),
            ).trace,
            (match r {
                Ok(_) => walked(
                    *node,
                    old(self).ignore,
                    old(self).config,
                    trace_of(old(self).stats, old(log)@),
                ).failure is None,
                Err(e) => walked(
                    *node,
                    old(self).ignore,
                    old(self).config,
                    trace_of(old(self).stats, old(log)@),
                ).failure == Some(e),
            }),
        decreases node,
    {
        let ghost start = trace_of(self.stats, log@);
        let ghost ignore = self.ignore;
        let ghost config = self.config;
        match node {
            Node::File { path, content } => {
                if self.decide(path.as_str(), EntryKind::File) == Visit::Count {
                    let outcome = match content {
                        Some(bytes) => self.measure(Some(bytes.as_slice())),
                        None => self.measure(None),
                    };
                    let line = self.record(path.as_str(), &outcome);
                    match line {
                        Some(s) => {
                            log.push(s);
                        },
                        None => {},
                    }
                    proof {
                        assert(trace_of(self.stats, log@).log =~= walked(
                            *node,
                            ignore,
                            config,
                            start,
                        ).trace.log);
                    }
                }
                Ok(())
            },
            Node::Directory { path, entries } => {
                if self.decide(path.as_str(), EntryKind::Directory) == Visit::Descend {
                    let mut i: usize = 0;
                    while i < entries.len()
                        invariant
                            i <= entries@.len(),
                            self.ignore == ignore,
                            self.config == config,
                            node is Directory,
                            node->entries == *entries,
                            ignore == old(self).ignore,
                            config == old(self).config,
                            start == trace_of(old(self).stats, old(log)@),
                            walked(*node, ignore, config, start) == walked_entries(
                                entries@,
                                entries@.len(),
                                ignore,
                                config,
                                start,
                            ),
                            walked_entries(entries@, i as nat, ignore, config, start)
                                == (Progress { trace: trace_of(self.stats, log@), failure: None }),
                            walked_entries(
                                entries@,
                                entries@.len(),
                                ignore,
                                config,
                                start,
                            ).trace.totals.fits(),
                        decreases entries@.len() - i,
                    {
                        proof {
                            // An entry is smaller than the directory that lists it.
                            assert(decreases_to!(*entries => entries[i as int]));
                            assert(decreases_to!(*node => node->entries));
                            lemma_walked_entries_grow(
                                entries@,
                                (i + 1) as nat,
                                entries@.len(),
                                ignore,
                                config,
                                start,
                            );
                        }
                        match self.walk(&entries[i], log) {
                            Ok(_) => {},
                            Err(e) => {
                                proof {
                                    lemma_failure_stops(
                                        entries@,
                                        (i + 1) as nat,
                                        entries@.len(),
                                        ignore,
                                        config,
                                        start,
                                    );
                                }
                                return Err(e);
                            },
                        }
                        i = i + 1;
                    }
                }
                Ok(())
            },
            Node::Special { path } => Ok(()),
            Node::Unlistable { path } => {
                if self.decide(path.as_str(), EntryKind::Directory) == Visit::Descend {
                    Err(TraversalError::Listing)
                } else {
                    Ok(())
                }
            },
            Node::Unknown => Err(TraversalError::Metadata),
        }
    }
}

} // verus!
