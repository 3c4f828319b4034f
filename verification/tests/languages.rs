use practice_engine::languages::{self, Language as LanguageProfile};
use practice_engine::problems::{Language, Problem};

#[test]
fn enum_format_command_builds_each_toolchain_call() {
    assert_eq!(
        Language::Rust.format_command("temp.tmp"),
        "rustc temp.tmp -o temp_prog && ./temp_prog"
    );
    assert_eq!(Language::Python.format_command("temp.tmp"), "python3 temp.tmp");
    assert_eq!(Language::TypeScript.format_command("temp.tmp"), "bun run temp.tmp");
}

#[test]
fn enum_name_string_names_each_language() {
    assert_eq!(Language::Rust.name_string(), "rust");
    assert_eq!(Language::Python.name_string(), "python");
    assert_eq!(Language::TypeScript.name_string(), "typescript");
}

#[test]
fn enum_clean_up_names_the_compiled_artifact() {
    assert_eq!(Language::Rust.clean_up(), "./temp_prog");
    assert_eq!(Language::Python.clean_up(), "");
    assert_eq!(Language::TypeScript.clean_up(), "");
}

#[test]
fn trait_profiles_match_the_enum_capabilities() {
    assert_eq!(
        <languages::Rust as LanguageProfile>::format_command("temp.tmp"),
        "rustc temp.tmp -o temp_prog && ./temp_prog"
    );
    assert_eq!(
        <languages::Python as LanguageProfile>::format_command("temp.tmp"),
        "python3 temp.tmp"
    );
    assert_eq!(<languages::Rust as LanguageProfile>::name_string(), "rust");
    assert_eq!(<languages::Python as LanguageProfile>::name_string(), "python");
    assert_eq!(<languages::Rust as LanguageProfile>::clean_up(), "./temp_prog");
    assert_eq!(<languages::Python as LanguageProfile>::clean_up(), "");
}

#[test]
fn get_regex_returns_the_acceptance_pattern() {
    let problem = Problem {
        request: String::from("Make the program compile."),
        initial_problem: String::from("fn main() {}"),
        language: Language::Rust,
        check_regex: String::from("1984 by George Orwell"),
    };
    assert_eq!(problem.get_regex(), "1984 by George Orwell");
}
