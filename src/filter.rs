use crate::config::{ConfigType, SpecCriteria};
use crate::matching::{contains, is_file_name_match, text_contains};
use vstd::prelude::*;

verus! {

/// Why reading a candidate file's content failed.
#[derive(PartialEq, Eq, Structural, Clone, Copy, Debug)]
pub enum FailureKind {
    NotFound,
    PermissionDenied,
    Decoding,
    Other,
}

/// The classification of one file against the criteria.
#[derive(PartialEq, Eq, Structural, Clone, Copy, Debug)]
pub enum Outcome {
    Match,
    NoMatch,
    Failure(FailureKind),
}

/// What reading a file's content yields next: a line (without its
/// terminator), the clean end of the file, or a failure to open or read it.
pub enum ReadEvent {
    Line(String),
    End,
    Failed(FailureKind),
}

/// Some line of `lines` contains `sub`.
pub open spec fn some_line_contains(lines: Seq<Seq<char>>, sub: Seq<char>) -> bool {
    exists|i: int| 0 <= i < lines.len() && contains(#[trigger] lines[i], sub)
}

/// The content verdict for the lines read from a file, followed by a clean end
/// (`end` is `None`) or by a failure. A line holding `sub` decides a match,
/// whatever comes after it.
pub open spec fn content_verdict(lines: Seq<Seq<char>>, end: Option<FailureKind>, sub: Seq<char>) -> Outcome {
    if some_line_contains(lines, sub) {
        Outcome::Match
    } else {
        match end {
            None => Outcome::NoMatch,
            Some(k) => Outcome::Failure(k),
        }
    }
}

/// The base name `name` (absent when it is not valid Unicode) holds `sub`.
pub open spec fn name_holds(name: Option<Seq<char>>, sub: Seq<char>) -> bool {
    name is Some && contains(name->Some_0, sub)
}

/// The verdict on a regular file under the criteria, given its name and the
/// content that would be read from it.
pub open spec fn file_verdict(
    c: SpecCriteria,
    name: Option<Seq<char>>,
    lines: Seq<Seq<char>>,
    end: Option<FailureKind>,
) -> Outcome {
    match c {
        SpecCriteria::NameOnly(s) => if name_holds(name, s) {
            Outcome::Match
        } else {
            Outcome::NoMatch
        },
        SpecCriteria::ContentOnly(s) => content_verdict(lines, end, s),
        SpecCriteria::Both(sn, sc) => if name_holds(name, sn) {
            content_verdict(lines, end, sc)
        } else {
            Outcome::NoMatch
        },
    }
}

/// The content substring that the criteria ask for, if any.
pub open spec fn content_sub(c: SpecCriteria) -> Option<Seq<char>> {
    match c {
        SpecCriteria::NameOnly(_) => None,
        SpecCriteria::ContentOnly(s) => Some(s),
        SpecCriteria::Both(_, s) => Some(s),
    }
}

/// The file's content must be read to decide: the criteria look at content,
/// and under `Both` the name matched.
pub open spec fn needs_content(c: SpecCriteria, name: Option<Seq<char>>) -> bool {
    match c {
        SpecCriteria::NameOnly(_) => false,
        SpecCriteria::ContentOnly(_) => true,
        SpecCriteria::Both(sn, _) => name_holds(name, sn),
    }
}

/// The verdict reached from the name alone, or `None` when the content must
/// be read. The content is never asked for when the name already fails.
pub fn pre_content_verdict(config_type: &ConfigType, name: Option<&str>) -> (r: Option<Outcome>)
    ensures
        r is None <==> needs_content(config_type@, opt_str_view(name)),
        r is Some ==> forall|lines: Seq<Seq<char>>, end: Option<FailureKind>|
            r->Some_0 == #[trigger] file_verdict(config_type@, opt_str_view(name), lines, end),
{
    match config_type {
        ConfigType::File(f) => {
            if is_file_name_match(name, f.value.as_str()) {
                Some(Outcome::Match)
            } else {
                Some(Outcome::NoMatch)
            }
        },
        ConfigType::Content(_) => None,
        ConfigType::Both { file_info, content_info: _ } => {
            if is_file_name_match(name, file_info.value.as_str()) {
                None
            } else {
                Some(Outcome::NoMatch)
            }
        },
    }
}

/// The view of an optional borrowed name.
pub open spec fn opt_str_view(name: Option<&str>) -> Option<Seq<char>> {
    match name {
        Some(s) => Some(s@),
        None => None,
    }
}

/// One step of a content scan for `substring`: `None` asks for the next
/// event; `Some` is the verdict, reached at the first line that holds the
/// substring, at the end of the file, or at a failure.
pub fn content_step(substring: &str, event: &ReadEvent) -> (r: Option<Outcome>)
    ensures
        match event {
            ReadEvent::Line(l) => r == (if contains(l@, substring@) {
                Some(Outcome::Match)
            } else {
                None::<Outcome>
            }),
            ReadEvent::End => r == Some(Outcome::NoMatch),
            ReadEvent::Failed(k) => r == Some(Outcome::Failure(*k)),
        },
{
    match event {
        ReadEvent::Line(l) => {
            if text_contains(l.as_str(), substring) {
                Some(Outcome::Match)
            } else {
                None
            }
        },
        ReadEvent::End => Some(Outcome::NoMatch),
        ReadEvent::Failed(k) => Some(Outcome::Failure(*k)),
    }
}

} // verus!
