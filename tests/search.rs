use file_find::config::{Config, ConfigError, ConfigType, ErrorPolicy};
use file_find::filter::{content_step, pre_content_verdict, FailureKind, Outcome, ReadEvent};
use file_find::matching::{contains_chars, is_file_name_match, text_contains};
use file_find::report::{plan_report, summarize, MatchSummary};
use file_find::traversal::{Action, MatchResults, Traversal};
use std::path::PathBuf;

fn config(file: Option<&str>, content: Option<&str>, policy: ErrorPolicy) -> Config {
    Config::new(
        PathBuf::from("root"),
        true,
        file.map(String::from),
        content.map(String::from),
        policy,
    )
    .unwrap()
}

/// One walker entry for a driven run: path, name, regular file or not, and
/// the read events its content would give.
struct Node {
    path: &'static str,
    is_file: bool,
    events: Vec<ReadEvent>,
}

fn file(path: &'static str, lines: &[&str]) -> Node {
    let mut events: Vec<ReadEvent> = lines.iter().map(|l| ReadEvent::Line(l.to_string())).collect();
    events.push(ReadEvent::End);
    Node { path, is_file: true, events }
}

fn failing(path: &'static str, kind: FailureKind) -> Node {
    Node { path, is_file: true, events: vec![ReadEvent::Failed(kind)] }
}

fn dir(path: &'static str) -> Node {
    Node { path, is_file: false, events: Vec::new() }
}

/// Drives a traversal over `nodes`; also returns how many read events were asked for.
fn run(config: Config, nodes: Vec<Node>) -> (MatchResults, usize) {
    let mut t = Traversal::new(config);
    let mut reads = 0;
    for node in nodes {
        let name = node.path.rsplit('/').next().unwrap().to_string();
        let mut action = t.on_entry(PathBuf::from(node.path), Some(name), node.is_file);
        let mut events = node.events.into_iter();
        while action == Action::ReadContent {
            reads += 1;
            action = t.on_read(events.next().expect("scan asked past the end"));
        }
    }
    (t.finish(), reads)
}

fn paths(r: &MatchResults) -> Vec<PathBuf> {
    r.matches.iter().map(|m| m.path.clone()).collect()
}

#[test]
fn new_with_both_substrings() {
    let c = config(Some("foo"), Some("bar"), ErrorPolicy::Display);
    match c.config_type() {
        ConfigType::Both { file_info, content_info } => {
            assert_eq!(file_info.value, "foo");
            assert_eq!(content_info.value, "bar");
        }
        _ => panic!("expected both"),
    }
    assert_eq!(c.error_policy(), ErrorPolicy::Display);
    assert_eq!(c.starting_directory(), &PathBuf::from("root"));
}

#[test]
fn new_with_name_or_content_only() {
    assert!(matches!(config(Some("a"), None, ErrorPolicy::Ignore).config_type(), ConfigType::File(f) if f.value == "a"));
    assert!(matches!(config(None, Some("b"), ErrorPolicy::Ignore).config_type(), ConfigType::Content(c) if c.value == "b"));
}

#[test]
fn new_without_criteria_fails() {
    let r = Config::new(PathBuf::from("."), true, None, None, ErrorPolicy::Ignore);
    let e = r.err().unwrap();
    assert_eq!(e, ConfigError::MissingCriteria);
    assert_eq!(
        e.message(),
        "Both file name and content are missing. Please provide at least one!"
    );
}

#[test]
fn new_refuses_invalid_directory_first() {
    let r = Config::new(PathBuf::from("nope"), false, None, None, ErrorPolicy::Ignore);
    assert_eq!(r.err(), Some(ConfigError::InvalidDirectory));
    let r = Config::new(PathBuf::from("nope"), false, Some("a".to_string()), None, ErrorPolicy::Ignore);
    let e = r.err().unwrap();
    assert_eq!(e, ConfigError::InvalidDirectory);
    assert_eq!(e.message(), "is not a valid directory.");
}

#[test]
fn policy_from_flag() {
    assert_eq!(ErrorPolicy::from_flag(true), ErrorPolicy::Display);
    assert_eq!(ErrorPolicy::from_flag(false), ErrorPolicy::Ignore);
    let c = Config::new(PathBuf::from("."), true, None, Some("x".to_string()), ErrorPolicy::from_flag(true)).unwrap();
    assert_eq!(c.error_policy(), ErrorPolicy::Display);
}

#[test]
fn substring_search() {
    assert!(text_contains("foobar.txt", "foo"));
    assert!(text_contains("foobar.txt", "bar.t"));
    assert!(text_contains("foobar.txt", ""));
    assert!(text_contains("", ""));
    assert!(!text_contains("baz.txt", "foo"));
    assert!(!text_contains("fo", "foo"));
    assert!(!text_contains("Foobar", "foo"));
    assert!(text_contains("héllo wörld", "ö"));
    assert!(contains_chars(&vec!['a', 'b', 'c'], &vec!['b', 'c']));
    assert!(!contains_chars(&vec!['a', 'b', 'c'], &vec!['c', 'b']));
}

#[test]
fn name_match_needs_valid_name() {
    assert!(is_file_name_match(Some("foobar.txt"), "foo"));
    assert!(!is_file_name_match(Some("baz.txt"), "foo"));
    assert!(!is_file_name_match(None, ""));
}

#[test]
fn content_step_decides() {
    assert_eq!(content_step("needle", &ReadEvent::Line("a needle here".to_string())), Some(Outcome::Match));
    assert_eq!(content_step("needle", &ReadEvent::Line("nothing".to_string())), None);
    assert_eq!(content_step("needle", &ReadEvent::End), Some(Outcome::NoMatch));
    assert_eq!(
        content_step("needle", &ReadEvent::Failed(FailureKind::Decoding)),
        Some(Outcome::Failure(FailureKind::Decoding))
    );
}

#[test]
fn pre_content_verdict_cases() {
    let name_only = config(Some("foo"), None, ErrorPolicy::Ignore);
    assert_eq!(pre_content_verdict(name_only.config_type(), Some("foobar.txt")), Some(Outcome::Match));
    assert_eq!(pre_content_verdict(name_only.config_type(), Some("baz.txt")), Some(Outcome::NoMatch));
    let content_only = config(None, Some("x"), ErrorPolicy::Ignore);
    assert_eq!(pre_content_verdict(content_only.config_type(), Some("baz.txt")), None);
    let both = config(Some("foo"), Some("x"), ErrorPolicy::Ignore);
    assert_eq!(pre_content_verdict(both.config_type(), Some("foobar.txt")), None);
    assert_eq!(pre_content_verdict(both.config_type(), Some("baz.txt")), Some(Outcome::NoMatch));
}

#[test]
fn name_only_finds_one_of_two() {
    let nodes = vec![dir("d"), file("d/foobar.txt", &[]), file("d/baz.txt", &[]), dir("d/foo")];
    let (r, reads) = run(config(Some("foo"), None, ErrorPolicy::Display), nodes);
    assert_eq!(paths(&r), vec![PathBuf::from("d/foobar.txt")]);
    assert!(r.errors.is_empty());
    assert_eq!(reads, 0);
}

#[test]
fn content_only_matches_second_line() {
    let nodes = vec![file("d/a.txt", &["one", "has needle", "three"])];
    let (r, reads) = run(config(None, Some("needle"), ErrorPolicy::Display), nodes);
    assert_eq!(paths(&r), vec![PathBuf::from("d/a.txt")]);
    assert_eq!(reads, 2);
    let nodes = vec![file("d/a.txt", &["one", "three"])];
    let (r, _) = run(config(None, Some("needle"), ErrorPolicy::Display), nodes);
    assert!(r.matches.is_empty());
}

#[test]
fn match_stops_reading_before_a_later_failure() {
    let nodes = vec![Node {
        path: "d/a.txt",
        is_file: true,
        events: vec![ReadEvent::Line("needle".to_string()), ReadEvent::Failed(FailureKind::Other)],
    }];
    let (r, reads) = run(config(None, Some("needle"), ErrorPolicy::Display), nodes);
    assert_eq!(r.matches.len(), 1);
    assert!(r.errors.is_empty());
    assert_eq!(reads, 1);
}

#[test]
fn both_needs_name_and_content() {
    let nodes = vec![
        file("d/foo_yes.txt", &["needle"]),
        file("d/foo_no.txt", &["hay"]),
        file("d/bar.txt", &["needle"]),
    ];
    let (r, _) = run(config(Some("foo"), Some("needle"), ErrorPolicy::Display), nodes);
    assert_eq!(paths(&r), vec![PathBuf::from("d/foo_yes.txt")]);
}

#[test]
fn both_never_reads_a_file_whose_name_fails() {
    let nodes = vec![failing("d/locked.txt", FailureKind::PermissionDenied)];
    let (r, reads) = run(config(Some("foo"), Some("x"), ErrorPolicy::Display), nodes);
    assert_eq!(reads, 0);
    assert!(r.errors.is_empty());
    assert!(r.matches.is_empty());
}

#[test]
fn ignore_policy_drops_failures() {
    let nodes = vec![failing("d/bad.txt", FailureKind::PermissionDenied), file("d/ok.txt", &["x"])];
    let (r, _) = run(config(None, Some("x"), ErrorPolicy::Ignore), nodes);
    assert!(r.errors.is_empty());
    assert_eq!(paths(&r), vec![PathBuf::from("d/ok.txt")]);
}

#[test]
fn display_policy_keeps_one_failure_per_file() {
    let nodes = vec![failing("d/bad.txt", FailureKind::PermissionDenied), file("d/ok.txt", &["x"])];
    let (r, _) = run(config(None, Some("x"), ErrorPolicy::Display), nodes);
    assert_eq!(r.errors.len(), 1);
    assert_eq!(r.errors[0].path, PathBuf::from("d/bad.txt"));
    assert_eq!(r.errors[0].kind, FailureKind::PermissionDenied);
    assert_eq!(paths(&r), vec![PathBuf::from("d/ok.txt")]);
}

#[test]
fn exit_status_follows_matches_only() {
    let nodes = vec![failing("d/bad.txt", FailureKind::NotFound), file("d/ok.txt", &["x"])];
    let (r, _) = run(config(None, Some("x"), ErrorPolicy::Display), nodes);
    let report = plan_report(&r);
    assert_eq!(report.exit_code, 0);
    assert_eq!(report.error_count, 1);
    assert_eq!(report.summary, MatchSummary::OneMatch);

    let nodes = vec![failing("d/bad.txt", FailureKind::NotFound)];
    let (r, _) = run(config(None, Some("x"), ErrorPolicy::Display), nodes);
    let report = plan_report(&r);
    assert_eq!(report.exit_code, 1);
    assert_eq!(report.summary, MatchSummary::NoMatches);
}

#[test]
fn failures_are_reported_when_nothing_matched() {
    let nodes = vec![
        failing("d/bad1.txt", FailureKind::NotFound),
        file("d/plain.txt", &["hay"]),
        failing("d/bad2.txt", FailureKind::Decoding),
    ];
    let (r, _) = run(config(None, Some("x"), ErrorPolicy::Display), nodes);
    assert!(r.matches.is_empty());
    let report = plan_report(&r);
    assert_eq!(report.summary, MatchSummary::NoMatches);
    assert_eq!(report.error_count, 2);
    assert_eq!(report.exit_code, 1);
}

#[test]
fn summaries_distinguish_counts() {
    assert_eq!(summarize(0), MatchSummary::NoMatches);
    assert_eq!(summarize(1), MatchSummary::OneMatch);
    assert_eq!(summarize(2), MatchSummary::Many(2));
    assert_eq!(summarize(usize::MAX), MatchSummary::Many(usize::MAX));
}

#[test]
fn same_walk_twice_gives_same_results() {
    let make = || {
        vec![
            file("d/foo1.txt", &["needle"]),
            failing("d/foo2.txt", FailureKind::Decoding),
            file("d/foo3.txt", &["hay"]),
        ]
    };
    let c1 = config(Some("foo"), Some("needle"), ErrorPolicy::Display);
    let c2 = config(Some("foo"), Some("needle"), ErrorPolicy::Display);
    let (a, _) = run(c1, make());
    let (b, _) = run(c2, make());
    assert_eq!(paths(&a), paths(&b));
    let ea: Vec<(PathBuf, FailureKind)> = a.errors.iter().map(|e| (e.path.clone(), e.kind)).collect();
    let eb: Vec<(PathBuf, FailureKind)> = b.errors.iter().map(|e| (e.path.clone(), e.kind)).collect();
    assert_eq!(ea, eb);
    assert_eq!(ea.len(), 1);
}

#[test]
fn empty_directory_gives_nothing() {
    let (r, _) = run(config(Some("foo"), None, ErrorPolicy::Display), vec![dir("d")]);
    assert!(r.matches.is_empty());
    assert!(r.errors.is_empty());
    let report = plan_report(&r);
    assert_eq!(report.exit_code, 1);
    assert_eq!(report.error_count, 0);
}

#[test]
fn both_run_is_intersection_of_single_runs() {
    let tree = || {
        vec![
            file("d/foo_yes.txt", &["a", "needle"]),
            file("d/foo_no.txt", &["hay"]),
            file("d/bar.txt", &["needle"]),
            dir("d/foo_dir"),
        ]
    };
    let (both, _) = run(config(Some("foo"), Some("needle"), ErrorPolicy::Ignore), tree());
    let (name, _) = run(config(Some("foo"), None, ErrorPolicy::Ignore), tree());
    let (content, _) = run(config(None, Some("needle"), ErrorPolicy::Ignore), tree());
    let name_paths = paths(&name);
    let content_paths = paths(&content);
    let common: Vec<PathBuf> = name_paths.into_iter().filter(|p| content_paths.contains(p)).collect();
    assert_eq!(paths(&both), common);
    assert_eq!(common, vec![PathBuf::from("d/foo_yes.txt")]);
}
