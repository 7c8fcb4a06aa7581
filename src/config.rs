use std::path::PathBuf;
use vstd::prelude::*;

verus! {

/// `std::path::PathBuf` is carried through the library as an opaque value.
#[verifier::external_type_specification]
#[verifier::external_body]
pub struct ExPathBuf(PathBuf);

/// The substring that a file's base name must contain.
pub struct FileInfo {
    pub value: String,
}

/// The substring that some line of a file's content must contain.
pub struct ContentInfo {
    pub value: String,
}

/// Which predicates a search applies.
pub enum ConfigType {
    File(FileInfo),
    Content(ContentInfo),
    Both { file_info: FileInfo, content_info: ContentInfo },
}

/// Whether content-read failures are reported (`Display`) or discarded (`Ignore`).
#[derive(PartialEq, Eq, Structural, Clone, Copy, Debug)]
pub enum ErrorPolicy {
    Display,
    Ignore,
}

/// A validated, immutable description of one search. It can only be built by
/// `Config::new`, which refuses a starting path that is not a directory.
pub struct Config {
    pub(crate) starting_directory: PathBuf,
    pub(crate) config_type: ConfigType,
    pub(crate) error_policy: ErrorPolicy,
}

/// Why a configuration could not be built.
#[derive(PartialEq, Eq, Structural, Clone, Copy, Debug)]
pub enum ConfigError {
    InvalidDirectory,
    MissingCriteria,
}

/// The message given when neither a name nor a content substring is present.
pub open spec fn missing_criteria_message() -> Seq<char> {
    "Both file name and content are missing. Please provide at least one!"@
}

/// The criteria that the optional substrings select, when at least one is present.
pub open spec fn criteria_of(file: Option<Seq<char>>, content: Option<Seq<char>>) -> Option<SpecCriteria> {
    match (file, content) {
        (Some(f), Some(c)) => Some(SpecCriteria::Both(f, c)),
        (Some(f), None) => Some(SpecCriteria::NameOnly(f)),
        (None, Some(c)) => Some(SpecCriteria::ContentOnly(c)),
        (None, None) => None,
    }
}

/// The mathematical form of the criteria.
pub ghost enum SpecCriteria {
    NameOnly(Seq<char>),
    ContentOnly(Seq<char>),
    Both(Seq<char>, Seq<char>),
}

impl ConfigType {
    /// The criteria as a mathematical value.
    pub open spec fn view(&self) -> SpecCriteria {
        match self {
            ConfigType::File(f) => SpecCriteria::NameOnly(f.value@),
            ConfigType::Content(c) => SpecCriteria::ContentOnly(c.value@),
            ConfigType::Both { file_info, content_info } => SpecCriteria::Both(
                file_info.value@,
                content_info.value@,
            ),
        }
    }
}

/// The view of an optional owned string.
pub open spec fn opt_view(o: Option<String>) -> Option<Seq<char>> {
    match o {
        Some(s) => Some(s@),
        None => None,
    }
}

impl ErrorPolicy {
    /// The policy that a "show errors" flag selects.
    pub fn from_flag(show_errors: bool) -> (r: ErrorPolicy)
        ensures
            r == (if show_errors {
                ErrorPolicy::Display
            } else {
                ErrorPolicy::Ignore
            }),
    {
        if show_errors {
            ErrorPolicy::Display
        } else {
            ErrorPolicy::Ignore
        }
    }
}

impl ConfigError {
    /// The text shown for the error; for `InvalidDirectory` it follows the path.
    pub fn message(&self) -> (r: String)
        ensures
            *self == ConfigError::MissingCriteria ==> r@ == missing_criteria_message(),
            *self == ConfigError::InvalidDirectory ==> r@ == "is not a valid directory."@,
    {
        match self {
            ConfigError::InvalidDirectory => {
                proof {
                    reveal_strlit("is not a valid directory.");
                }
                String::from_str("is not a valid directory.")
            },
            ConfigError::MissingCriteria => {
                proof {
                    reveal_strlit(
                        "Both file name and content are missing. Please provide at least one!",
                    );
                }
                String::from_str(
                    "Both file name and content are missing. Please provide at least one!",
                )
            },
        }
    }
}

impl Config {
    /// The criteria as a mathematical value.
    pub open(crate) spec fn criteria(&self) -> SpecCriteria {
        self.config_type@
    }

    /// The error policy as a value.
    pub open(crate) spec fn policy(&self) -> ErrorPolicy {
        self.error_policy
    }

    /// The starting directory as a value.
    pub open(crate) spec fn directory(&self) -> PathBuf {
        self.starting_directory
    }

    /// Builds a configuration. `is_directory` tells whether the starting path
    /// resolves to an existing directory; a path that does not is refused
    /// first, then a search with no substring at all.
    pub fn new(
        starting_directory: PathBuf,
        is_directory: bool,
        file: Option<String>,
        content: Option<String>,
        error_policy: ErrorPolicy,
    ) -> (r: Result<Config, ConfigError>)
        ensures
            !is_directory <==> r == Err::<Config, ConfigError>(ConfigError::InvalidDirectory),
            r == Err::<Config, ConfigError>(ConfigError::MissingCriteria) <==> (is_directory
                && criteria_of(opt_view(file), opt_view(content)) is None),
            r is Ok ==> {
                &&& Some(r->Ok_0.criteria()) == criteria_of(opt_view(file), opt_view(content))
                &&& r->Ok_0.directory() == starting_directory
                &&& r->Ok_0.policy() == error_policy
            },
    {
        if !is_directory {
            return Err(ConfigError::InvalidDirectory);
        }
        let config_type = match (file, content) {
            (Some(f), Some(c)) => ConfigType::Both {
                file_info: FileInfo { value: f },
                content_info: ContentInfo { value: c },
            },
            (Some(f), None) => ConfigType::File(FileInfo { value: f }),
            (None, Some(c)) => ConfigType::Content(ContentInfo { value: c }),
            (None, None) => {
                return Err(ConfigError::MissingCriteria);
            },
        };
        Ok(Config { starting_directory, config_type, error_policy })
    }

    /// The directory where the search starts.
    pub fn starting_directory(&self) -> (r: &PathBuf)
        ensures
            *r == self.directory(),
    {
        &self.starting_directory
    }

    /// The criteria of the search.
    pub fn config_type(&self) -> (r: &ConfigType)
        ensures
            r@ == self.criteria(),
    {
        &self.config_type
    }

    /// Whether content-read failures are reported.
    pub fn error_policy(&self) -> (r: ErrorPolicy)
        ensures
            r == self.policy(),
    {
        self.error_policy
    }
}

} // verus!
