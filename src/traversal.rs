use crate::config::{opt_view, Config, ConfigType, ErrorPolicy, SpecCriteria};
use crate::filter::{
    content_step, content_sub, content_verdict, file_verdict, name_holds, needs_content,
    pre_content_verdict, some_line_contains, FailureKind, Outcome, ReadEvent,
};
use crate::matching::contains;
use std::path::PathBuf;
use vstd::prelude::*;

verus! {

/// A file that matched, by the path the walker gave for it.
pub struct FileMatch {
    pub path: PathBuf,
}

/// A content-read failure on a candidate file.
pub struct ReadFailure {
    pub path: PathBuf,
    pub kind: FailureKind,
}

/// The matches in discovery order, and the surfaced read failures.
pub struct MatchResults {
    pub matches: Vec<FileMatch>,
    pub errors: Vec<ReadFailure>,
}

impl MatchResults {
    pub open spec fn match_paths(&self) -> Seq<PathBuf> {
        self.matches@.map_values(|m: FileMatch| m.path)
    }

    pub open spec fn error_records(&self) -> Seq<(PathBuf, FailureKind)> {
        self.errors@.map_values(|e: ReadFailure| (e.path, e.kind))
    }
}

/// One entry as the traversal saw it: its path, base name (absent when not
/// valid Unicode), whether it is a regular file, and, for a file whose content
/// was read, the lines read and how reading ended (`None`: cleanly, or not
/// at all).
pub ghost struct Seen {
    pub path: PathBuf,
    pub name: Option<Seq<char>>,
    pub is_file: bool,
    pub lines: Seq<Seq<char>>,
    pub end: Option<FailureKind>,
}

/// The outcome of one seen entry; anything but a regular file never matches.
pub open spec fn outcome_of(c: SpecCriteria, e: Seen) -> Outcome {
    if e.is_file {
        file_verdict(c, e.name, e.lines, e.end)
    } else {
        Outcome::NoMatch
    }
}

/// The paths that match, in the order the entries were seen.
pub open spec fn matches_of(c: SpecCriteria, items: Seq<Seen>) -> Seq<PathBuf>
    decreases items.len(),
{
    if items.len() == 0 {
        Seq::empty()
    } else {
        let prev = matches_of(c, items.drop_last());
        if outcome_of(c, items.last()) == Outcome::Match {
            prev.push(items.last().path)
        } else {
            prev
        }
    }
}

/// The read failures that the policy lets through, in the order seen.
pub open spec fn errors_of(c: SpecCriteria, p: ErrorPolicy, items: Seq<Seen>) -> Seq<(PathBuf, FailureKind)>
    decreases items.len(),
{
    if items.len() == 0 {
        Seq::empty()
    } else {
        let prev = errors_of(c, p, items.drop_last());
        match outcome_of(c, items.last()) {
            Outcome::Failure(k) => if p == ErrorPolicy::Display {
                prev.push((items.last().path, k))
            } else {
                prev
            },
            _ => prev,
        }
    }
}

/// What the driver of a traversal does next.
#[derive(PartialEq, Eq, Structural, Clone, Copy, Debug)]
pub enum Action {
    /// Go on with the next entry of the walk (and release any open file).
    NextEntry,
    /// Read the current file's content (opening it first if needed) and
    /// hand back the next `ReadEvent`.
    ReadContent,
}

/// The traversal engine: it takes the walker's entries one at a time, and the
/// content of candidate files line by line, and aggregates the outcomes.
pub struct Traversal {
    config: Config,
    results: MatchResults,
    pending: Option<PathBuf>,
    seen: Ghost<Seq<Seen>>,
    pending_name: Ghost<Option<Seq<char>>>,
    pending_lines: Ghost<Seq<Seq<char>>>,
}

impl Traversal {
    pub closed spec fn criteria(&self) -> SpecCriteria {
        self.config.criteria()
    }

    pub closed spec fn policy(&self) -> ErrorPolicy {
        self.config.policy()
    }

    /// The entries fully handled so far.
    pub closed spec fn seen(&self) -> Seq<Seen> {
        self.seen@
    }

    /// A file's content is being read.
    pub closed spec fn reading(&self) -> bool {
        self.pending is Some
    }

    /// The file being read: its path, its name, and the lines read so far.
    pub closed spec fn current(&self) -> (PathBuf, Option<Seq<char>>, Seq<Seq<char>>) {
        (self.pending->Some_0, self.pending_name@, self.pending_lines@)
    }

    pub closed spec fn wf(&self) -> bool {
        let c = self.config.config_type@;
        &&& self.results.match_paths() == matches_of(c, self.seen@)
        &&& self.results.error_records() == errors_of(c, self.config.error_policy, self.seen@)
        &&& self.pending is Some ==> {
            &&& needs_content(c, self.pending_name@)
            &&& !some_line_contains(self.pending_lines@, content_sub(c)->Some_0)
        }
    }

    /// Starts a traversal under `config`, with nothing seen yet.
    pub fn new(config: Config) -> (r: Traversal)
        ensures
            r.wf(),
            !r.reading(),
            r.seen() == Seq::<Seen>::empty(),
            r.criteria() == config.criteria(),
            r.policy() == config.policy(),
    {
        let r = Traversal {
            config,
            results: MatchResults { matches: Vec::new(), errors: Vec::new() },
            pending: None,
            seen: Ghost(Seq::empty()),
            pending_name: Ghost(None),
            pending_lines: Ghost(Seq::empty()),
        };
        assert(r.results.match_paths() =~= Seq::empty());
        assert(r.results.error_records() =~= Seq::empty());
        r
    }

    /// Adds the outcome of the entry at `path` to the results.
    fn record(&mut self, path: PathBuf, outcome: Outcome)
        ensures
            final(self).config == old(self).config,
            final(self).pending == old(self).pending,
            final(self).seen == old(self).seen,
            final(self).pending_name == old(self).pending_name,
            final(self).pending_lines == old(self).pending_lines,
            final(self).results.match_paths() == (if outcome == Outcome::Match {
                old(self).results.match_paths().push(path)
            } else {
                old(self).results.match_paths()
            }),
            final(self).results.error_records() == (match outcome {
                Outcome::Failure(k) => if old(self).config.error_policy == ErrorPolicy::Display {
                    old(self).results.error_records().push((path, k))
                } else {
                    old(self).results.error_records()
                },
                _ => old(self).results.error_records(),
            }),
    {
        let ghost mp = self.results.match_paths();
        let ghost er = self.results.error_records();
        match outcome {
            Outcome::Match => {
                self.results.matches.push(FileMatch { path });
                assert(self.results.match_paths() =~= mp.push(path));
            },
            Outcome::NoMatch => {},
            Outcome::Failure(kind) => {
                match self.config.error_policy {
                    ErrorPolicy::Display => {
                        self.results.errors.push(ReadFailure { path, kind });
                        assert(self.results.error_records() =~= er.push((path, kind)));
                    },
                    ErrorPolicy::Ignore => {},
                }
            },
        }
    }

    /// Takes the next entry of the walk. Anything but a regular file is passed
    /// over; a file is decided from its name where the criteria allow it, and
    /// otherwise its content is asked for.
    pub fn on_entry(&mut self, path: PathBuf, name: Option<String>, is_file: bool) -> (act: Action)
        requires
            old(self).wf(),
            !old(self).reading(),
        ensures
            final(self).wf(),
            final(self).criteria() == old(self).criteria(),
            final(self).policy() == old(self).policy(),
            act == Action::ReadContent <==> (is_file && needs_content(
                old(self).criteria(),
                opt_view(name),
            )),
            (old(self).criteria() is Both && !name_holds(
                opt_view(name),
                old(self).criteria()->Both_0,
            )) ==> act == Action::NextEntry,
            act == Action::NextEntry ==> {
                &&& !final(self).reading()
                &&& final(self).seen() == old(self).seen().push(
                    Seen {
                        path,
                        name: opt_view(name),
                        is_file,
                        lines: Seq::empty(),
                        end: None,
                    },
                )
            },
            act == Action::ReadContent ==> {
                &&& final(self).reading()
                &&& final(self).seen() == old(self).seen()
                &&& final(self).current() == (path, opt_view(name), Seq::<Seq<char>>::empty())
            },
    {
        let ghost e = Seen {
            path,
            name: opt_view(name),
            is_file,
            lines: Seq::empty(),
            end: None,
        };
        let ghost before = self.seen@;
        if !is_file {
            self.seen = Ghost(self.seen@.push(e));
            assert(self.seen@.drop_last() =~= before);
            return Action::NextEntry;
        }
        let nm: Option<&str> = match &name {
            Some(s) => Some(s.as_str()),
            None => None,
        };
        assert(crate::filter::opt_str_view(nm) == opt_view(name));
        match pre_content_verdict(&self.config.config_type, nm) {
            Some(v) => {
                self.record(path, v);
                self.seen = Ghost(self.seen@.push(e));
                assert(self.seen@.drop_last() =~= before);
                assert(outcome_of(self.config.config_type@, e) == v);
                Action::NextEntry
            },
            None => {
                self.pending = Some(path);
                self.pending_name = Ghost(opt_view(name));
                self.pending_lines = Ghost(Seq::empty());
                Action::ReadContent
            },
        }
    }

    /// Takes the next read event of the file being read. The scan stops at the
    /// first line that holds the content substring, at the end of the file, or
    /// at a failure; the file's outcome is then recorded.
    pub fn on_read(&mut self, event: ReadEvent) -> (act: Action)
        requires
            old(self).wf(),
            old(self).reading(),
        ensures
            final(self).wf(),
            final(self).criteria() == old(self).criteria(),
            final(self).policy() == old(self).policy(),
            ({
                let (path, name, lines) = old(self).current();
                let sub = content_sub(old(self).criteria())->Some_0;
                match event {
                    ReadEvent::Line(l) => if contains(l@, sub) {
                        &&& act == Action::NextEntry
                        &&& !final(self).reading()
                        &&& final(self).seen() == old(self).seen().push(
                            Seen { path, name, is_file: true, lines: lines.push(l@), end: None },
                        )
                    } else {
                        &&& act == Action::ReadContent
                        &&& final(self).reading()
                        &&& final(self).seen() == old(self).seen()
                        &&& final(self).current() == (path, name, lines.push(l@))
                    },
                    ReadEvent::End => {
                        &&& act == Action::NextEntry
                        &&& !final(self).reading()
                        &&& final(self).seen() == old(self).seen().push(
                            Seen { path, name, is_file: true, lines, end: None },
                        )
                    },
                    ReadEvent::Failed(k) => {
                        &&& act == Action::NextEntry
                        &&& !final(self).reading()
                        &&& final(self).seen() == old(self).seen().push(
                            Seen { path, name, is_file: true, lines, end: Some(k) },
                        )
                    },
                }
            }),
    {
        let ghost c = self.config.config_type@;
        let ghost before = self.seen@;
        let ghost lines = self.pending_lines@;
        let ghost new_lines = match &event {
            ReadEvent::Line(l) => lines.push(l@),
            _ => lines,
        };
        let ghost end = match &event {
            ReadEvent::Failed(k) => Some(*k),
            _ => None,
        };
        let step = match &self.config.config_type {
            ConfigType::File(_) => {
                assert(false);
                None
            },
            ConfigType::Content(ci) => content_step(ci.value.as_str(), &event),
            ConfigType::Both { file_info: _, content_info } => content_step(
                content_info.value.as_str(),
                &event,
            ),
        };
        let ghost sub = content_sub(c)->Some_0;
        match step {
            None => {
                proof {
                    assert forall|i: int| 0 <= i < new_lines.len() implies !contains(
                        #[trigger] new_lines[i],
                        sub,
                    ) by {
                        if i < lines.len() {
                            assert(new_lines[i] == lines[i]);
                        }
                    }
                }
                self.pending_lines = Ghost(new_lines);
                Action::ReadContent
            },
            Some(v) => {
                let ghost e = Seen {
                    path: self.pending->Some_0,
                    name: self.pending_name@,
                    is_file: true,
                    lines: new_lines,
                    end,
                };
                proof {
                    if v == Outcome::Match {
                        assert(new_lines[lines.len() as int] == new_lines.last());
                    } else {
                        assert forall|i: int| 0 <= i < new_lines.len() implies !contains(
                            #[trigger] new_lines[i],
                            sub,
                        ) by {
                            assert(new_lines[i] == lines[i]);
                        }
                    }
                    assert(content_verdict(new_lines, end, sub) == v);
                    assert(outcome_of(c, e) == v);
                }
                let p = self.pending.take();
                match p {
                    Some(path) => {
                        self.record(path, v);
                    },
                    None => {
                        assert(false);
                    },
                }
                self.seen = Ghost(self.seen@.push(e));
                assert(self.seen@.drop_last() =~= before);
                Action::NextEntry
            },
        }
    }

    /// Ends the traversal and hands over its results: the matches and the
    /// surfaced failures of every entry seen, in the order seen.
    pub fn finish(self) -> (r: MatchResults)
        requires
            self.wf(),
            !self.reading(),
        ensures
            r.match_paths() == matches_of(self.criteria(), self.seen()),
            r.error_records() == errors_of(self.criteria(), self.policy(), self.seen()),
    {
        self.results
    }
}

} // verus!
