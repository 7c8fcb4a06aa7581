use crate::traversal::MatchResults;
use vstd::prelude::*;

verus! {

/// How the number of matches is announced.
#[derive(PartialEq, Eq, Structural, Clone, Copy, Debug)]
pub enum MatchSummary {
    NoMatches,
    OneMatch,
    Many(usize),
}

/// What the reporter shows and how the process ends.
#[derive(PartialEq, Eq, Structural, Clone, Copy, Debug)]
pub struct Report {
    /// The header before the matches.
    pub summary: MatchSummary,
    /// The number of surfaced failures, listed after the matches (or after the
    /// header when nothing matched) under their own count header; none when 0.
    pub error_count: usize,
    /// The process exit status: 0 when something matched, 1 otherwise.
    pub exit_code: i32,
}

pub open spec fn summary_of(count: nat) -> MatchSummary {
    if count == 0 {
        MatchSummary::NoMatches
    } else if count == 1 {
        MatchSummary::OneMatch
    } else {
        MatchSummary::Many(count as usize)
    }
}

/// The announcement for `count` matches: none, one (singular), or many.
pub fn summarize(count: usize) -> (r: MatchSummary)
    ensures
        r == summary_of(count as nat),
{
    if count == 0 {
        MatchSummary::NoMatches
    } else if count == 1 {
        MatchSummary::OneMatch
    } else {
        MatchSummary::Many(count)
    }
}

/// Decides the report for `results`: the header, then the matches, then every
/// surfaced failure. The status is 1 when nothing matched and 0 otherwise,
/// whatever the number of failures.
pub fn plan_report(results: &MatchResults) -> (r: Report)
    ensures
        r.summary == summary_of(results.matches@.len()),
        r.exit_code == (if results.matches@.len() == 0 {
            1i32
        } else {
            0i32
        }),
        r.error_count == results.errors@.len(),
{
    let n = results.matches.len();
    let summary = summarize(n);
    let exit_code: i32 = if n == 0 {
        1
    } else {
        0
    };
    Report { summary, error_count: results.errors.len(), exit_code }
}

} // verus!
