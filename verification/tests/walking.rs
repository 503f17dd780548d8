use loc_count::config::{Config, LogMode};
use loc_count::ignore::IgnoreSet;
use loc_count::stats::RunStatistics;
use loc_count::text::FileOutcome;
use loc_count::walk::{EntryKind, Node, TraversalError, Visit, Walker};

fn file(path: &str, content: &str) -> Node {
    Node::File { path: path.to_string(), content: Some(content.as_bytes().to_vec()) }
}

fn raw_file(path: &str, bytes: &[u8]) -> Node {
    Node::File { path: path.to_string(), content: Some(bytes.to_vec()) }
}

fn dir(path: &str, entries: Vec<Node>) -> Node {
    Node::Directory { path: path.to_string(), entries }
}

fn lines(n: usize) -> String {
    "line\n".repeat(n)
}

fn stats(files: usize, lines: usize, chars: usize, bad: usize) -> RunStatistics {
    RunStatistics { total_files: files, total_lines: lines, total_chars: chars, bad_files: bad }
}

fn run(
    tree: &Node,
    ignore: IgnoreSet,
    mode: LogMode,
    count_chars: bool,
) -> (RunStatistics, Vec<String>, Result<(), TraversalError>) {
    let mut walker = Walker::new(ignore, Config { mode, count_chars });
    let mut log = Vec::new();
    let result = walker.walk(tree, &mut log);
    (walker.stats, log, result)
}

fn folders(markers: &[&str]) -> IgnoreSet {
    IgnoreSet::new(markers, &[])
}

#[test]
fn small_tree_with_an_ignored_folder() {
    let tree = dir(
        ".",
        vec![
            file("./a.txt", "one\ntwo\nthree"),
            file("./b.txt", ""),
            dir("./node_modules", vec![file("./node_modules/c.txt", &lines(100))]),
        ],
    );
    let (totals, log, result) = run(&tree, IgnoreSet::standard(), LogMode::LogAll, false);
    assert_eq!(result, Ok(()));
    assert_eq!(totals, stats(2, 3, 0, 0));
    assert_eq!(
        log,
        vec![
            "lines of code in ./a.txt = 3, total lines = 3\n".to_string(),
            "lines of code in ./b.txt = 0, total lines = 3\n".to_string(),
        ]
    );
}

#[test]
fn total_lines_is_the_sum_of_the_files() {
    let tree = dir(
        ".",
        vec![
            file("./a", &lines(5)),
            dir("./d", vec![file("./d/b", &lines(7)), dir("./d/e", vec![file("./d/e/c", "x")])]),
            file("./z", "p\nq"),
        ],
    );
    let (totals, log, result) = run(&tree, folders(&[]), LogMode::Silent, true);
    assert_eq!(result, Ok(()));
    assert_eq!(totals, stats(4, 5 + 7 + 1 + 2, 25 + 35 + 1 + 3, 0));
    assert!(log.is_empty());
}

#[test]
fn ignored_files_are_never_counted_or_logged() {
    let tree = dir(
        ".",
        vec![
            file("./Cargo.lock", &lines(900)),
            dir(
                "./deep",
                vec![
                    dir("./deep/er", vec![raw_file("./deep/er/old-Cargo.lock.bak", &[0xFF])]),
                    file("./deep/kept.rs", "a\nb\n"),
                ],
            ),
        ],
    );
    let ignore = IgnoreSet::new(&[], &["Cargo.lock"]);
    let (totals, log, result) = run(&tree, ignore, LogMode::LogAll, true);
    assert_eq!(result, Ok(()));
    assert_eq!(totals, stats(1, 2, 4, 0));
    assert_eq!(log, vec!["lines of code in ./deep/kept.rs = 2, 4 chars, total lines = 2\n"]);
}

#[test]
fn ignored_folders_hide_everything_beneath() {
    let tree = dir(
        ".",
        vec![
            dir(
                "./subbuild",
                vec![
                    file("./subbuild/x.rs", &lines(10)),
                    dir("./subbuild/in", vec![raw_file("./subbuild/in/y", &[0x80])]),
                    Node::Unlistable { path: "./subbuild/locked".to_string() },
                    Node::Unknown,
                ],
            ),
            file("./main.rs", "fn main() {}\n"),
        ],
    );
    let (totals, log, result) = run(&tree, folders(&["build"]), LogMode::LogAll, false);
    assert_eq!(result, Ok(()));
    assert_eq!(totals, stats(1, 1, 0, 0));
    assert_eq!(log, vec!["lines of code in ./main.rs = 1, total lines = 1\n"]);
}

#[test]
fn ignored_root_is_skipped() {
    let tree = dir("./dist", vec![file("./dist/a.txt", "a\n")]);
    let (totals, log, result) = run(&tree, IgnoreSet::standard(), LogMode::LogAll, true);
    assert_eq!(result, Ok(()));
    assert_eq!(totals, stats(0, 0, 0, 0));
    assert!(log.is_empty());
}

#[test]
fn folder_markers_do_not_exclude_files() {
    let tree = dir(".", vec![file("./rebuild.sh", "make\n")]);
    let (totals, _, _) = run(&tree, folders(&["build"]), LogMode::Silent, false);
    assert_eq!(totals, stats(1, 1, 0, 0));
}

#[test]
fn two_runs_give_the_same_totals() {
    let tree = dir(
        ".",
        vec![
            file("./a", "1\n2\n"),
            raw_file("./img.png", &[0x89, 0x50, 0xFF]),
            dir("./s", vec![file("./s/b", "\u{20AC}")]),
        ],
    );
    let first = run(&tree, IgnoreSet::standard(), LogMode::LogAll, true);
    let second = run(&tree, IgnoreSet::standard(), LogMode::LogAll, true);
    assert_eq!(first, second);
    assert_eq!(first.0, stats(3, 3, 5, 1));
}

#[test]
fn bad_files_are_counted_and_the_walk_goes_on() {
    let tree = dir(
        ".",
        vec![
            raw_file("./logo.png", &[0xFF, 0xD8, 0xFF]),
            Node::File { path: "./locked.txt".to_string(), content: None },
            file("./ok.txt", "fine\n"),
        ],
    );
    let (totals, log, result) = run(&tree, folders(&[]), LogMode::LogAll, false);
    assert_eq!(result, Ok(()));
    assert_eq!(totals, stats(3, 1, 0, 2));
    assert_eq!(
        log,
        vec![
            "Could not count this file: ./logo.png\n",
            "Could not count this file: ./locked.txt\n",
            "lines of code in ./ok.txt = 1, total lines = 1\n",
        ]
    );
}

#[test]
fn log_modes_select_the_lines() {
    let tree = dir(".", vec![file("./a", "x\ny\n"), raw_file("./b", &[0xC3]), file("./c", "z")]);
    let (_, log, _) = run(&tree, folders(&[]), LogMode::LogCounted, false);
    assert_eq!(
        log,
        vec![
            "lines of code in ./a = 2, total lines = 2\n",
            "lines of code in ./c = 1, total lines = 3\n",
        ]
    );
    let (_, log, _) = run(&tree, folders(&[]), LogMode::LogBad, false);
    assert_eq!(log, vec!["Could not count this file: ./b\n"]);
    let (totals, log, _) = run(&tree, folders(&[]), LogMode::Silent, false);
    assert!(log.is_empty());
    assert_eq!(totals, stats(3, 3, 0, 1));
}

#[test]
fn special_entries_are_passed_over() {
    let tree = dir(
        ".",
        vec![Node::Special { path: "./link".to_string() }, file("./a", "x\n")],
    );
    let (totals, log, result) = run(&tree, folders(&[]), LogMode::LogAll, false);
    assert_eq!(result, Ok(()));
    assert_eq!(totals, stats(1, 1, 0, 0));
    assert_eq!(log.len(), 1);
}

#[test]
fn unlistable_directory_stops_the_walk() {
    let tree = dir(
        ".",
        vec![
            file("./a", "x\n"),
            dir("./d", vec![Node::Unlistable { path: "./d/locked".to_string() }, file("./d/b", "y\n")]),
            file("./c", "z\n"),
        ],
    );
    let (totals, log, result) = run(&tree, folders(&[]), LogMode::LogAll, false);
    assert_eq!(result, Err(TraversalError::Listing));
    assert_eq!(totals, stats(1, 1, 0, 0));
    assert_eq!(log, vec!["lines of code in ./a = 1, total lines = 1\n"]);
}

#[test]
fn unknown_entry_stops_the_walk() {
    let tree = dir(".", vec![file("./a", "x\n"), Node::Unknown, file("./c", "z\n")]);
    let (totals, _, result) = run(&tree, folders(&[]), LogMode::Silent, false);
    assert_eq!(result, Err(TraversalError::Metadata));
    assert_eq!(totals, stats(1, 1, 0, 0));
    let (_, _, result) = run(&Node::Unknown, IgnoreSet::standard(), LogMode::Silent, false);
    assert_eq!(result, Err(TraversalError::Metadata));
}

#[test]
fn a_single_file_can_be_walked() {
    let (totals, _, result) = run(&file("./a", "x"), folders(&[]), LogMode::Silent, true);
    assert_eq!(result, Ok(()));
    assert_eq!(totals, stats(1, 1, 1, 0));
}

#[test]
fn walk_adds_to_what_was_there() {
    let mut walker =
        Walker::new(folders(&[]), Config { mode: LogMode::LogAll, count_chars: false });
    walker.stats = stats(10, 100, 0, 1);
    let mut log = vec!["earlier\n".to_string()];
    let result = walker.walk(&dir(".", vec![file("./a", "x\ny")]), &mut log);
    assert_eq!(result, Ok(()));
    assert_eq!(walker.stats, stats(11, 102, 0, 1));
    assert_eq!(log, vec!["earlier\n", "lines of code in ./a = 2, total lines = 102\n"]);
}

#[test]
fn decide_follows_kind_and_markers() {
    let walker = Walker::new(
        IgnoreSet::new(&["target"], &["Cargo.lock"]),
        Config { mode: LogMode::Silent, count_chars: false },
    );
    assert_eq!(walker.decide("./src/main.rs", EntryKind::File), Visit::Count);
    assert_eq!(walker.decide("./Cargo.lock", EntryKind::File), Visit::Skip);
    assert_eq!(walker.decide("./target", EntryKind::File), Visit::Count);
    assert_eq!(walker.decide("./src", EntryKind::Directory), Visit::Descend);
    assert_eq!(walker.decide("./target", EntryKind::Directory), Visit::Skip);
    assert_eq!(walker.decide("./Cargo.lock", EntryKind::Directory), Visit::Descend);
    assert_eq!(walker.decide("./src/link", EntryKind::Other), Visit::Skip);
}

#[test]
fn measure_and_record_step_by_step() {
    let mut walker =
        Walker::new(folders(&[]), Config { mode: LogMode::LogAll, count_chars: true });
    let outcome = walker.measure(Some("a\n\u{20AC}".as_bytes()));
    assert_eq!(outcome, FileOutcome::Counted { lines: 2, chars: Some(3) });
    assert!(walker.stats.can_record(&outcome));
    let line = walker.record("./f", &outcome);
    assert_eq!(line, Some("lines of code in ./f = 2, 3 chars, total lines = 2\n".to_string()));
    let outcome = walker.measure(None);
    assert_eq!(outcome, FileOutcome::Unreadable);
    let line = walker.record("./g", &outcome);
    assert_eq!(line, Some("Could not count this file: ./g\n".to_string()));
    let outcome = walker.measure(Some(&[0xFF]));
    assert_eq!(outcome, FileOutcome::Unreadable);
    assert_eq!(walker.stats, stats(2, 2, 3, 1));
}

#[test]
fn running_total_never_falls() {
    let tree = dir(
        ".",
        vec![file("./a", &lines(3)), file("./b", ""), raw_file("./c", &[0xFF]), file("./d", "x")],
    );
    let (_, log, _) = run(&tree, folders(&[]), LogMode::LogCounted, false);
    assert_eq!(
        log,
        vec![
            "lines of code in ./a = 3, total lines = 3\n",
            "lines of code in ./b = 0, total lines = 3\n",
            "lines of code in ./d = 1, total lines = 4\n",
        ]
    );
}
