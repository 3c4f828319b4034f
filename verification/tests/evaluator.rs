use practice_engine::evaluator::{evaluate, try_evaluate};

#[test]
fn evaluate_accepts_exact_text() {
    assert!(evaluate("1984 by George Orwell", "1984 by George Orwell"));
}

#[test]
fn evaluate_rejects_unrelated_text() {
    assert!(!evaluate("error: missing field", "1984 by George Orwell"));
}

#[test]
fn evaluate_searches_anywhere_in_text() {
    assert!(evaluate("some prefix Hello world some suffix", "Hello world"));
}

#[test]
fn evaluate_uses_regex_semantics() {
    // `$` anchors to the end: same pattern, different verdicts.
    assert!(evaluate("done!", "done!$"));
    assert!(!evaluate("done! and more", "done!$"));
    // A character class matches text that contains no literal bracket.
    assert!(evaluate("abc123", "[0-9]+"));
    assert!(!evaluate("abcdef", "[0-9]+"));
}

#[test]
fn try_evaluate_rejects_invalid_pattern() {
    assert_eq!(try_evaluate("anything", "("), None);
    assert_eq!(try_evaluate("anything", "[z-a]"), None);
}

#[test]
fn try_evaluate_matches_like_evaluate() {
    assert_eq!(try_evaluate("abc123", "[0-9]+"), Some(true));
    assert_eq!(try_evaluate("abcdef", "[0-9]+"), Some(false));
}
