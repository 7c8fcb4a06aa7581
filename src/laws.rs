use crate::config::{ErrorPolicy, SpecCriteria};
use crate::filter::{
    content_sub, file_verdict, name_holds, needs_content, some_line_contains, FailureKind, Outcome,
};
use crate::matching::contains;
use crate::traversal::{errors_of, matches_of, outcome_of, Seen};
use std::path::PathBuf;
use vstd::prelude::*;

verus! {

/// The paths of the entries of `items` that satisfy `pred`, in order.
pub open spec fn paths_where(items: Seq<Seen>, pred: spec_fn(Seen) -> bool) -> Seq<PathBuf> {
    items.filter(pred).map_values(|e: Seen| e.path)
}

/// The matches of a run are exactly the entries whose outcome is a match.
pub proof fn matches_are_the_matching_entries(c: SpecCriteria, items: Seq<Seen>)
    ensures
        matches_of(c, items) == paths_where(items, |e: Seen| outcome_of(c, e) == Outcome::Match),
    decreases items.len(),
{
    reveal(Seq::filter);
    let pred = |e: Seen| outcome_of(c, e) == Outcome::Match;
    if items.len() > 0 {
        matches_are_the_matching_entries(c, items.drop_last());
    }
    assert(matches_of(c, items) =~= paths_where(items, pred));
}

/// With a name substring alone, the matches are exactly the regular files
/// whose base name contains it.
pub proof fn name_only_matches_by_name(s: Seq<char>, items: Seq<Seen>)
    ensures
        matches_of(SpecCriteria::NameOnly(s), items) == paths_where(
            items,
            |e: Seen| e.is_file && name_holds(e.name, s),
        ),
{
    let c = SpecCriteria::NameOnly(s);
    matches_are_the_matching_entries(c, items);
    assert((|e: Seen| outcome_of(c, e) == Outcome::Match) =~= (|e: Seen|
        e.is_file && name_holds(e.name, s)));
}

/// With a content substring alone, a file matches exactly when some line read
/// from it contains the substring.
pub proof fn content_only_matches_by_lines(s: Seq<char>, items: Seq<Seen>)
    ensures
        matches_of(SpecCriteria::ContentOnly(s), items) == paths_where(
            items,
            |e: Seen| e.is_file && some_line_contains(e.lines, s),
        ),
{
    let c = SpecCriteria::ContentOnly(s);
    matches_are_the_matching_entries(c, items);
    assert((|e: Seen| outcome_of(c, e) == Outcome::Match) =~= (|e: Seen|
        e.is_file && some_line_contains(e.lines, s)));
}

/// With both substrings, the matches are exactly the entries that match the
/// name substring alone and match the content substring alone: never more.
pub proof fn both_is_intersection(sn: Seq<char>, sc: Seq<char>, items: Seq<Seen>)
    ensures
        matches_of(SpecCriteria::Both(sn, sc), items) == paths_where(
            items,
            |e: Seen|
                outcome_of(SpecCriteria::NameOnly(sn), e) == Outcome::Match && outcome_of(
                    SpecCriteria::ContentOnly(sc),
                    e,
                ) == Outcome::Match,
        ),
{
    let c = SpecCriteria::Both(sn, sc);
    matches_are_the_matching_entries(c, items);
    assert((|e: Seen| outcome_of(c, e) == Outcome::Match) =~= (|e: Seen|
        outcome_of(SpecCriteria::NameOnly(sn), e) == Outcome::Match && outcome_of(
            SpecCriteria::ContentOnly(sc),
            e,
        ) == Outcome::Match));
}

/// With both substrings, a file whose name does not match is decided without
/// its content: whatever would be read, it is no match and no failure.
pub proof fn both_ignores_content_when_name_fails(
    sn: Seq<char>,
    sc: Seq<char>,
    name: Option<Seq<char>>,
    lines: Seq<Seq<char>>,
    end: Option<FailureKind>,
)
    requires
        !name_holds(name, sn),
    ensures
        file_verdict(SpecCriteria::Both(sn, sc), name, lines, end) == Outcome::NoMatch,
{
}

/// Under the suppressing policy no failure is ever reported.
pub proof fn ignore_policy_reports_nothing(c: SpecCriteria, items: Seq<Seen>)
    ensures
        errors_of(c, ErrorPolicy::Ignore, items) == Seq::<(PathBuf, FailureKind)>::empty(),
    decreases items.len(),
{
    if items.len() > 0 {
        ignore_policy_reports_nothing(c, items.drop_last());
    }
}

/// Under the surfacing policy exactly one failure is reported for each entry
/// whose outcome is a failure, in the order seen, with its path and kind.
/// The matches do not depend on the policy at all.
pub proof fn display_policy_reports_each_failure(c: SpecCriteria, items: Seq<Seen>)
    ensures
        errors_of(c, ErrorPolicy::Display, items) == items.filter(
            |e: Seen| outcome_of(c, e) is Failure,
        ).map_values(|e: Seen| (e.path, outcome_of(c, e)->Failure_0)),
    decreases items.len(),
{
    reveal(Seq::filter);
    let pred = |e: Seen| outcome_of(c, e) is Failure;
    let f = |e: Seen| (e.path, outcome_of(c, e)->Failure_0);
    if items.len() > 0 {
        display_policy_reports_each_failure(c, items.drop_last());
    }
    assert(errors_of(c, ErrorPolicy::Display, items) =~= items.filter(pred).map_values(f));
}

/// A walk that yields nothing gives no match and no failure.
pub proof fn empty_walk_gives_nothing(c: SpecCriteria, p: ErrorPolicy)
    ensures
        matches_of(c, Seq::empty()) == Seq::<PathBuf>::empty(),
        errors_of(c, p, Seq::empty()) == Seq::<(PathBuf, FailureKind)>::empty(),
{
}

/// The lines a scan for `sub` reads from a file: up to and including the
/// first line that holds `sub`, or all of them.
pub open spec fn read_prefix(lines: Seq<Seq<char>>, sub: Seq<char>) -> Seq<Seq<char>>
    decreases lines.len(),
{
    if lines.len() == 0 {
        lines
    } else if contains(lines[0], sub) {
        seq![lines[0]]
    } else {
        seq![lines[0]] + read_prefix(lines.drop_first(), sub)
    }
}

/// What a traversal under criteria `c` records of an entry `t` of a tree,
/// where `t.lines` are all the lines of the file and `t.end` how reading it
/// ends: no content for an entry whose content is not needed, and otherwise
/// the lines up to the first one that holds the substring.
pub open spec fn observed(c: SpecCriteria, t: Seen) -> Seen {
    if t.is_file && needs_content(c, t.name) {
        let sub = content_sub(c)->Some_0;
        Seen {
            lines: read_prefix(t.lines, sub),
            end: if some_line_contains(t.lines, sub) {
                None
            } else {
                t.end
            },
            ..t
        }
    } else {
        Seen { lines: Seq::empty(), end: None, ..t }
    }
}

/// What a run under `c` sees of the entries of `tree`, in walk order.
pub open spec fn run_on(c: SpecCriteria, tree: Seq<Seen>) -> Seq<Seen> {
    tree.map_values(|t: Seen| observed(c, t))
}

proof fn read_prefix_keeps_verdict(lines: Seq<Seq<char>>, sub: Seq<char>)
    ensures
        some_line_contains(read_prefix(lines, sub), sub) == some_line_contains(lines, sub),
    decreases lines.len(),
{
    if lines.len() > 0 {
        let p = read_prefix(lines, sub);
        if contains(lines[0], sub) {
            assert(p[0] == lines[0]);
        } else {
            let rest = lines.drop_first();
            read_prefix_keeps_verdict(rest, sub);
            let q = read_prefix(rest, sub);
            if some_line_contains(lines, sub) {
                let i = choose|i: int| 0 <= i < lines.len() && contains(#[trigger] lines[i], sub);
                assert(rest[i - 1] == lines[i]);
                let k = choose|k: int| 0 <= k < q.len() && contains(#[trigger] q[k], sub);
                assert(p[k + 1] == q[k]);
            }
            if some_line_contains(p, sub) {
                assert(p[0] == lines[0]);
                let k = choose|k: int| 0 <= k < p.len() && contains(#[trigger] p[k], sub);
                assert(q[k - 1] == p[k]);
                let r = choose|r: int| 0 <= r < rest.len() && contains(#[trigger] rest[r], sub);
                assert(lines[r + 1] == rest[r]);
            }
        }
    }
}

/// An entry's outcome is the same whether judged on all of its content or on
/// what a run under the same criteria reads of it.
pub proof fn observed_keeps_outcome(c: SpecCriteria, t: Seen)
    ensures
        outcome_of(c, observed(c, t)) == outcome_of(c, t),
{
    if t.is_file && needs_content(c, t.name) {
        read_prefix_keeps_verdict(t.lines, content_sub(c)->Some_0);
    }
}

proof fn run_on_keeps_matches(c: SpecCriteria, tree: Seq<Seen>)
    ensures
        matches_of(c, run_on(c, tree)) == matches_of(c, tree),
        forall|p: ErrorPolicy| errors_of(c, p, run_on(c, tree)) == #[trigger] errors_of(c, p, tree),
    decreases tree.len(),
{
    if tree.len() > 0 {
        run_on_keeps_matches(c, tree.drop_last());
        assert(run_on(c, tree).drop_last() =~= run_on(c, tree.drop_last()));
        assert(run_on(c, tree).last() == observed(c, tree.last()));
        observed_keeps_outcome(c, tree.last());
        assert forall|p: ErrorPolicy|
            errors_of(c, p, run_on(c, tree)) == #[trigger] errors_of(c, p, tree) by {
            assert(errors_of(c, p, run_on(c, tree).drop_last()) == errors_of(c, p, tree.drop_last()));
        }
    }
}

proof fn in_matches(c: SpecCriteria, items: Seq<Seen>, x: PathBuf)
    ensures
        matches_of(c, items).contains(x) <==> exists|i: int|
            0 <= i < items.len() && (#[trigger] items[i]).path == x && outcome_of(c, items[i])
                == Outcome::Match,
    decreases items.len(),
{
    if items.len() > 0 {
        let prev = items.drop_last();
        in_matches(c, prev, x);
        let m = matches_of(c, prev);
        if matches_of(c, items).contains(x) {
            if outcome_of(c, items.last()) == Outcome::Match {
                let k = choose|k: int| 0 <= k < m.push(items.last().path).len() && m.push(items.last().path)[k] == x;
                if k < m.len() {
                    assert(m[k] == x);
                    let i = choose|i: int| 0 <= i < prev.len() && (#[trigger] prev[i]).path == x && outcome_of(c, prev[i]) == Outcome::Match;
                    assert(items[i] == prev[i]);
                } else {
                    assert(items[items.len() - 1] == items.last());
                }
            } else {
                let i = choose|i: int| 0 <= i < prev.len() && (#[trigger] prev[i]).path == x && outcome_of(c, prev[i]) == Outcome::Match;
                assert(items[i] == prev[i]);
            }
        }
        if exists|i: int| 0 <= i < items.len() && (#[trigger] items[i]).path == x && outcome_of(c, items[i]) == Outcome::Match {
            let i = choose|i: int| 0 <= i < items.len() && (#[trigger] items[i]).path == x && outcome_of(c, items[i]) == Outcome::Match;
            if i < prev.len() {
                assert(prev[i] == items[i]);
                let k = choose|k: int| 0 <= k < m.len() && m[k] == x;
                if outcome_of(c, items.last()) == Outcome::Match {
                    assert(m.push(items.last().path)[k] == x);
                }
            } else {
                assert(m.push(items.last().path)[m.len() as int] == x);
            }
        }
    }
}

/// Three runs over one unchanged tree, whose entries have distinct paths: the
/// files matched with both substrings are exactly those matched by the name
/// substring alone and by the content substring alone, never more.
pub proof fn both_runs_are_the_intersection(sn: Seq<char>, sc: Seq<char>, tree: Seq<Seen>)
    requires
        forall|i: int, j: int| 0 <= i < j < tree.len() ==> tree[i].path != tree[j].path,
    ensures
        matches_of(SpecCriteria::Both(sn, sc), run_on(SpecCriteria::Both(sn, sc), tree)).to_set()
            == matches_of(
            SpecCriteria::NameOnly(sn),
            run_on(SpecCriteria::NameOnly(sn), tree),
        ).to_set().intersect(
            matches_of(SpecCriteria::ContentOnly(sc), run_on(SpecCriteria::ContentOnly(sc), tree)).to_set(),
        ),
{
    let b = SpecCriteria::Both(sn, sc);
    let n = SpecCriteria::NameOnly(sn);
    let k = SpecCriteria::ContentOnly(sc);
    run_on_keeps_matches(b, tree);
    run_on_keeps_matches(n, tree);
    run_on_keeps_matches(k, tree);
    assert forall|x: PathBuf|
        matches_of(b, tree).contains(x) <==> (matches_of(n, tree).contains(x) && matches_of(
            k,
            tree,
        ).contains(x)) by {
        in_matches(b, tree, x);
        in_matches(n, tree, x);
        in_matches(k, tree, x);
        if matches_of(n, tree).contains(x) && matches_of(k, tree).contains(x) {
            let i = choose|i: int| 0 <= i < tree.len() && (#[trigger] tree[i]).path == x && outcome_of(n, tree[i]) == Outcome::Match;
            let j = choose|j: int| 0 <= j < tree.len() && (#[trigger] tree[j]).path == x && outcome_of(k, tree[j]) == Outcome::Match;
            if i < j {
                assert(tree[i].path != tree[j].path);
            } else if j < i {
                assert(tree[j].path != tree[i].path);
            }
            assert(outcome_of(b, tree[i]) == Outcome::Match);
        }
    }
    assert(matches_of(b, tree).to_set() =~= matches_of(n, tree).to_set().intersect(matches_of(k, tree).to_set()));
}

/// Running the same criteria and policy twice over an unchanged tree gives the
/// same matches and the same failures, and they are those judged on the
/// tree's full content.
pub proof fn runs_are_repeatable(c: SpecCriteria, p: ErrorPolicy, tree: Seq<Seen>)
    ensures
        matches_of(c, run_on(c, tree)) == matches_of(c, tree),
        errors_of(c, p, run_on(c, tree)) == errors_of(c, p, tree),
{
    run_on_keeps_matches(c, tree);
}

} // verus!
