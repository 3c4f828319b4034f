//! Static-dispatch variant of the language capability table: one unit
//! type per toolchain, bound by a shared trait, so a host can fix the
//! language of a session at compile time.

use vstd::prelude::*;
use vstd::string::StringExecFns;

verus! {

/// The three capabilities of a toolchain: the shell command that runs
/// a transient source file, a display name, and the extra artifact
/// path to remove after a run (empty when there is none).
pub trait Language {
    /// The command that `format_command` builds for a source path.
    spec fn spec_command(file_name: Seq<char>) -> Seq<char>;

    /// The name that `name_string` returns.
    spec fn spec_name() -> Seq<char>;

    /// The artifact path that `clean_up` returns.
    spec fn spec_clean_up() -> Seq<char>;

    /// Builds the shell command that runs the given source file.
    fn format_command(file_name: &str) -> (r: String)
        ensures
            r@ == Self::spec_command(file_name@),
    ;

    /// The human-readable name of the language.
    fn name_string() -> (r: String)
        ensures
            r@ == Self::spec_name(),
    ;

    /// The extra artifact path the runner must remove after a run.
    fn clean_up() -> (r: String)
        ensures
            r@ == Self::spec_clean_up(),
    ;
}

/// The Python toolchain: interpreted, no compiled artifact.
pub struct Python;

impl Language for Python {
    open spec fn spec_command(file_name: Seq<char>) -> Seq<char> {
        "python3 "@ + file_name
    }

    open spec fn spec_name() -> Seq<char> {
        "python"@
    }

    open spec fn spec_clean_up() -> Seq<char> {
        Seq::<char>::empty()
    }

    fn format_command(file_name: &str) -> (r: String) {
        let mut c = String::from_str("python3 ");
        c.append(file_name);
        c
    }

    fn name_string() -> (r: String) {
        String::from_str("python")
    }

    fn clean_up() -> (r: String) {
        String::new()
    }
}

/// The Rust toolchain: compiles to a transient binary, then runs it;
/// the binary is the artifact to remove afterwards.
pub struct Rust;

impl Language for Rust {
    open spec fn spec_command(file_name: Seq<char>) -> Seq<char> {
        "rustc "@ + file_name + " -o temp_prog && ./temp_prog"@
    }

    open spec fn spec_name() -> Seq<char> {
        "rust"@
    }

    open spec fn spec_clean_up() -> Seq<char> {
        "./temp_prog"@
    }

    fn format_command(file_name: &str) -> (r: String) {
        let mut c = String::from_str("rustc ");
        c.append(file_name);
        c.append(" -o temp_prog && ./temp_prog");
        c
    }

    fn name_string() -> (r: String) {
        String::from_str("rust")
    }

    fn clean_up() -> (r: String) {
        String::from_str("./temp_prog")
    }
}

} // verus!
