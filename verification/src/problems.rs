//! Challenge definitions: a problem couples a prompt, a starting stub,
//! a target language and an acceptance pattern; the language is a
//! closed capability table of command, name and cleanup targets.

use vstd::prelude::*;
use vstd::string::StringExecFns;
use crate::distance::{edit_distance, minimum_edit_distance};

verus! {

/// A supported toolchain. Adding a language means adding one variant
/// together with its three capabilities below.
#[derive(Clone, Copy, PartialEq, Eq, Structural, Debug)]
pub enum Language {
    Rust,
    Python,
    TypeScript,
}

/// The shell command that runs the transient source file for `lang`.
pub open spec fn spec_format_command(lang: Language, file_name: Seq<char>) -> Seq<char> {
    match lang {
        Language::Rust => "rustc "@ + file_name + " -o temp_prog && ./temp_prog"@,
        Language::Python => "python3 "@ + file_name,
        Language::TypeScript => "bun run "@ + file_name,
    }
}

/// The human-readable name of `lang`.
pub open spec fn spec_name_string(lang: Language) -> Seq<char> {
    match lang {
        Language::Rust => "rust"@,
        Language::Python => "python"@,
        Language::TypeScript => "typescript"@,
    }
}

/// The extra artifact path to remove after a run of `lang`, empty when
/// the language leaves none behind.
pub open spec fn spec_clean_up(lang: Language) -> Seq<char> {
    match lang {
        Language::Rust => "./temp_prog"@,
        _ => Seq::<char>::empty(),
    }
}

impl Language {
    /// Builds the shell command that compiles and/or runs the given
    /// transient source file with this language's toolchain.
    pub fn format_command(&self, file_name: &str) -> (r: String)
        ensures
            r@ == spec_format_command(*self, file_name@),
    {
        match self {
            Language::Rust => {
                let mut c = String::from_str("rustc ");
                c.append(file_name);
                c.append(" -o temp_prog && ./temp_prog");
                c
            },
            Language::Python => {
                let mut c = String::from_str("python3 ");
                c.append(file_name);
                c
            },
            Language::TypeScript => {
                let mut c = String::from_str("bun run ");
                c.append(file_name);
                c
            },
        }
    }

    /// The human-readable name of this language.
    pub fn name_string(&self) -> (r: String)
        ensures
            r@ == spec_name_string(*self),
    {
        match self {
            Language::Rust => String::from_str("rust"),
            Language::Python => String::from_str("python"),
            Language::TypeScript => String::from_str("typescript"),
        }
    }

    /// The extra artifact path this language's runs leave behind and
    /// the runner must remove, empty when there is none.
    pub fn clean_up(&self) -> (r: String)
        ensures
            r@ == spec_clean_up(*self),
    {
        match self {
            Language::Rust => String::from_str("./temp_prog"),
            _ => String::new(),
        }
    }
}

/// One unit of practice: a prompt, the starting source, the target
/// language and the regular-expression acceptance pattern.
#[derive(Clone)]
pub struct Problem {
    pub request: String,
    pub initial_problem: String,
    pub language: Language,
    pub check_regex: String,
}

impl Problem {
    /// The effort score: the edit distance between this problem's
    /// starting stub and the submitted text.
    pub fn diff(&self, comparison: String) -> (d: usize)
        requires
            self.initial_problem@.len() < usize::MAX,
            comparison@.len() < usize::MAX,
        ensures
            d == edit_distance(self.initial_problem@, comparison@),
    {
        minimum_edit_distance(self.initial_problem.as_str(), comparison.as_str())
    }

    /// The acceptance pattern of this problem.
    pub fn get_regex(&self) -> (r: &str)
        ensures
            r@ == self.check_regex@,
    {
        self.check_regex.as_str()
    }
}

} // verus!
