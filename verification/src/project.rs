//! The project data model: validated names, git sources, persisted
//! definitions, and the enriched read model.

use vstd::prelude::*;

use crate::status::ProjectStatus;
use crate::strings::str_contains_char;

verus! {

/// Where a project's repository lives: the clone URL, the branch, and the
/// compose-file path relative to the repository root.
#[derive(Debug, Clone)]
pub struct GitSource {
    pub url: String,
    pub branch: String,
    /// Path to the compose file, relative to the repository root.
    pub path: String,
}

impl PartialEq for GitSource {
    fn eq(&self, other: &GitSource) -> (r: bool) {
        self.url == other.url && self.branch == other.branch && self.path == other.path
    }
}

impl vstd::std_specs::cmp::PartialEqSpecImpl for GitSource {
    open spec fn obeys_eq_spec() -> bool {
        true
    }

    open spec fn eq_spec(&self, other: &GitSource) -> bool {
        self.url@ == other.url@ && self.branch@ == other.branch@ && self.path@ == other.path@
    }
}

/// The characters a project name may not contain: they are hazardous in
/// filesystem paths.
pub open spec fn hazard_chars(name: Seq<char>) -> bool {
    ||| name.contains('/')
    ||| name.contains('\\')
    ||| name.contains(':')
    ||| name.contains('*')
    ||| name.contains('?')
    ||| name.contains('"')
    ||| name.contains('<')
    ||| name.contains('>')
    ||| name.contains('|')
}

/// The error that `ProjectName::new` reports for a name, if any: names must
/// be non-empty, at most 100 characters, and free of path-hazard
/// characters.
pub open spec fn spec_name_error(name: Seq<char>) -> Option<Seq<char>> {
    if name.len() == 0 {
        Some("Project name cannot be empty"@)
    } else if name.len() > 100 {
        Some("Project name cannot exceed 100 characters"@)
    } else if hazard_chars(name) {
        Some("Project name contains invalid characters"@)
    } else {
        None
    }
}

pub open spec fn valid_project_name(name: Seq<char>) -> bool {
    spec_name_error(name) is None
}

/// A validated project name; construction is the only validation point.
#[derive(Debug, Clone)]
pub struct ProjectName(String);

impl View for ProjectName {
    type V = Seq<char>;

    closed spec fn view(&self) -> Seq<char> {
        self.0@
    }
}

impl PartialEq for ProjectName {
    fn eq(&self, other: &ProjectName) -> (r: bool) {
        self.0 == other.0
    }
}

impl vstd::std_specs::cmp::PartialEqSpecImpl for ProjectName {
    open spec fn obeys_eq_spec() -> bool {
        true
    }

    open spec fn eq_spec(&self, other: &ProjectName) -> bool {
        self@ == other@
    }
}

impl ProjectName {
    /// Creates a new `ProjectName` after validation.
    pub fn new(name: String) -> (r: Result<Self, String>)
        ensures
            match r {
                Ok(p) => spec_name_error(name@) is None && p@ == name@,
                Err(e) => spec_name_error(name@) == Some(e@),
            },
    {
        if name.as_str().unicode_len() == 0 {
            return Err("Project name cannot be empty".to_owned());
        }
        if name.as_str().unicode_len() > 100 {
            return Err("Project name cannot exceed 100 characters".to_owned());
        }
        let s = name.as_str();
        if str_contains_char(s, '/') || str_contains_char(s, '\\') || str_contains_char(s, ':')
            || str_contains_char(s, '*') || str_contains_char(s, '?') || str_contains_char(s, '"')
            || str_contains_char(s, '<') || str_contains_char(s, '>') || str_contains_char(
            s,
            '|',
        ) {
            return Err("Project name contains invalid characters".to_owned());
        }
        Ok(ProjectName(name))
    }

    /// Returns the inner string value.
    pub fn as_str(&self) -> (r: &str)
        ensures
            r@ == self@,
    {
        self.0.as_str()
    }

    /// Consumes the `ProjectName` and returns the inner `String`.
    pub fn into_inner(self) -> (r: String)
        ensures
            r@ == self@,
    {
        self.0
    }
}

/// The persisted declaration of a project: one manifest file per project.
#[derive(Debug, Clone)]
pub struct ProjectFile {
    pub name: String,
    pub source: GitSource,
}

/// The mathematical image of a project definition: each field as a sequence
/// of characters.
pub struct SpecProjectFile {
    pub name: Seq<char>,
    pub url: Seq<char>,
    pub branch: Seq<char>,
    pub path: Seq<char>,
}

impl View for ProjectFile {
    type V = SpecProjectFile;

    open spec fn view(&self) -> SpecProjectFile {
        SpecProjectFile {
            name: self.name@,
            url: self.source.url@,
            branch: self.source.branch@,
            path: self.source.path@,
        }
    }
}

impl PartialEq for ProjectFile {
    fn eq(&self, other: &ProjectFile) -> (r: bool) {
        self.name == other.name && self.source == other.source
    }
}

impl vstd::std_specs::cmp::PartialEqSpecImpl for ProjectFile {
    open spec fn obeys_eq_spec() -> bool {
        true
    }

    open spec fn eq_spec(&self, other: &ProjectFile) -> bool {
        self.name@ == other.name@ && self.source.url@ == other.source.url@ && self.source.branch@
            == other.source.branch@ && self.source.path@ == other.source.path@
    }
}

/// A point in time, as non-leap seconds since the Unix epoch.
#[derive(Debug, Clone, Copy, PartialEq, Eq, Structural)]
pub struct Timestamp {
    pub epoch_seconds: i64,
}

/// The read model returned to callers: a declared project enriched with its
/// live status and the time of its last commit.
#[derive(Debug, Clone)]
pub struct Project {
    pub name: ProjectName,
    pub source: GitSource,
    pub status: ProjectStatus,
    pub last_updated_at: Timestamp,
}

} // verus!
