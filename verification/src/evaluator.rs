//! Output evaluator: decides acceptance by testing whether a
//! challenge's pattern matches anywhere in the captured toolchain
//! output. Matching is search semantics, not full-match, so a
//! diagnostic or partial output containing the expected token counts.

use vstd::prelude::*;

verus! {

/// Whether `pattern` is a valid regular expression, as `regex`'s
/// parser and default compile limits decide it.
pub uninterp spec fn pattern_ok(pattern: Seq<char>) -> bool;

/// Whether the regular expression `pattern` matches anywhere in
/// `text`, as `regex`'s search semantics decide it. Meaningful only
/// when `pattern_ok(pattern)` holds.
pub uninterp spec fn pattern_matches(pattern: Seq<char>, text: Seq<char>) -> bool;

/// Relies on regex::Regex::new: compiling succeeds exactly when the
/// pattern is a valid regular expression within the default limits,
/// and depends on the pattern alone.
#[verifier::external_body]
fn probe_pattern(pattern: &str) -> (ok: bool)
    ensures
        ok == pattern_ok(pattern@),
{
    regex::Regex::new(pattern).is_ok()
}

/// Relies on regex::Regex::new (succeeds exactly when the pattern is
/// valid) and regex::Regex::is_match (true if and only if there is a
/// match for the pattern anywhere in the haystack); both depend on
/// their arguments alone.
#[verifier::external_body]
fn regex_search(pattern: &str, text: &str) -> (r: Option<bool>)
    ensures
        r is Some <==> pattern_ok(pattern@),
        r is Some ==> r->0 == pattern_matches(pattern@, text@),
{
    regex::Regex::new(pattern).ok().map(|re| re.is_match(text))
}

/// Reports whether `pattern` matches anywhere within `text`. The
/// pattern must be a valid regular expression; a problem with an
/// invalid pattern is a configuration error and is refused before a
/// session starts.
pub fn evaluate(text: &str, pattern: &str) -> (accepted: bool)
    requires
        pattern_ok(pattern@),
    ensures
        accepted == pattern_matches(pattern@, text@),
{
    match regex_search(pattern, text) {
        Some(accepted) => accepted,
        None => {
            proof {
                assert(false);
            }
            false
        },
    }
}

/// Like `evaluate`, for a pattern not yet known to be valid: returns
/// `None` exactly when the pattern is not a valid regular expression,
/// and the match verdict otherwise.
pub fn try_evaluate(text: &str, pattern: &str) -> (r: Option<bool>)
    ensures
        r is Some <==> pattern_ok(pattern@),
        pattern_ok(pattern@) ==> r == Some(pattern_matches(pattern@, text@)),
{
    if probe_pattern(pattern) {
        Some(evaluate(text, pattern))
    } else {
        None
    }
}

} // verus!
