//! Project and file kinds the generators distinguish.

use vstd::prelude::*;
use vstd::string::StrSliceExecFns;
use vstd::string::StringExecFns;

use crate::errors::NebulaError;
use crate::errors::ErrorSpec;
use crate::strutil;

verus! {

/// The layout of a generated project.
#[derive(Debug, Clone, Copy, PartialEq, Eq, Structural)]
pub enum ProjectType {
    Web,
    Api,
    Full,
}

/// The kinds of source files the generators can produce.
#[derive(Debug, Clone, Copy, PartialEq, Eq, Structural)]
pub enum FileType {
    Entity,
    Handler,
    Migration,
    Resolver,
    Routes,
}

impl ProjectType {
    /// The canonical lowercase name of the project type.
    pub fn as_str(&self) -> (r: &'static str)
        ensures
            *self == ProjectType::Web ==> r@ == "web"@,
            *self == ProjectType::Api ==> r@ == "api"@,
            *self == ProjectType::Full ==> r@ == "full"@,
    {
        match self {
            ProjectType::Web => "web",
            ProjectType::Api => "api",
            ProjectType::Full => "full",
        }
    }

    /// Parse a project type name, ignoring ASCII case.
    pub fn from_str(s: &str) -> (r: Result<ProjectType, NebulaError>)
        ensures
            match r {
                Ok(t) => match t {
                    ProjectType::Web => strutil::spec_lower(s@) == "web"@,
                    ProjectType::Api => strutil::spec_lower(s@) == "api"@,
                    ProjectType::Full => strutil::spec_lower(s@) == "full"@,
                },
                Err(e) => strutil::spec_lower(s@) != "web"@ && strutil::spec_lower(s@) != "api"@
                    && strutil::spec_lower(s@) != "full"@ && e@ == ErrorSpec::InvalidOptions(s@),
            },
    {
        if str_eq_lower(s, "web") {
            Ok(ProjectType::Web)
        } else if str_eq_lower(s, "api") {
            Ok(ProjectType::Api)
        } else if str_eq_lower(s, "full") {
            Ok(ProjectType::Full)
        } else {
            Err(NebulaError::InvalidOptions(s.to_owned()))
        }
    }
}

impl FileType {
    /// Parse a file kind name, ignoring ASCII case.
    pub fn from_str(s: &str) -> (r: Result<FileType, NebulaError>)
        ensures
            match r {
                Ok(t) => match t {
                    FileType::Entity => strutil::spec_lower(s@) == "entity"@,
                    FileType::Handler => strutil::spec_lower(s@) == "handler"@,
                    FileType::Migration => strutil::spec_lower(s@) == "migration"@,
                    FileType::Resolver => strutil::spec_lower(s@) == "resolver"@,
                    FileType::Routes => strutil::spec_lower(s@) == "routes"@,
                },
                Err(e) => e@ == ErrorSpec::InvalidOptions(s@) && strutil::spec_lower(s@)
                    != "entity"@ && strutil::spec_lower(s@) != "handler"@ && strutil::spec_lower(s@)
                    != "migration"@ && strutil::spec_lower(s@) != "resolver"@
                    && strutil::spec_lower(s@) != "routes"@,
            },
    {
        if str_eq_lower(s, "entity") {
            Ok(FileType::Entity)
        } else if str_eq_lower(s, "handler") {
            Ok(FileType::Handler)
        } else if str_eq_lower(s, "migration") {
            Ok(FileType::Migration)
        } else if str_eq_lower(s, "resolver") {
            Ok(FileType::Resolver)
        } else if str_eq_lower(s, "routes") {
            Ok(FileType::Routes)
        } else {
            Err(NebulaError::InvalidOptions(s.to_owned()))
        }
    }
}

/// Lowercase one character, ASCII letters only.
fn lower_char_exec(c: char) -> (r: char)
    ensures
        r == strutil::lower_char(c),
{
    match c {
        'A' => 'a', 'B' => 'b', 'C' => 'c', 'D' => 'd', 'E' => 'e', 'F' => 'f',
        'G' => 'g', 'H' => 'h', 'I' => 'i', 'J' => 'j', 'K' => 'k', 'L' => 'l',
        'M' => 'm', 'N' => 'n', 'O' => 'o', 'P' => 'p', 'Q' => 'q', 'R' => 'r',
        'S' => 's', 'T' => 't', 'U' => 'u', 'V' => 'v', 'W' => 'w', 'X' => 'x',
        'Y' => 'y', 'Z' => 'z', _ => c,
    }
}

/// Does `s`, lowercased, equal `expected`?
fn str_eq_lower(s: &str, expected: &str) -> (r: bool)
    ensures
        r == (strutil::spec_lower(s@) == expected@),
{
    let n = s.unicode_len();
    let m = expected.unicode_len();
    if n != m {
        return false;
    }
    let mut i: usize = 0;
    while i < n
        invariant
            n == s@.len(),
            m == expected@.len(),
            n == m,
            0 <= i <= n,
            forall|j: int| 0 <= j < i ==> strutil::lower_char(s@[j]) == expected@[j],
        decreases n - i,
    {
        if lower_char_exec(s.get_char(i)) != expected.get_char(i) {
            assert(strutil::spec_lower(s@)[i as int] != expected@[i as int]);
            return false;
        }
        i = i + 1;
    }
    assert(strutil::spec_lower(s@) =~= expected@);
    true
}

} // verus!
