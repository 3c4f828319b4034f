use practice_engine::problems::{Language, Problem};
use practice_engine::sequencer::ProblemSequencer;

fn problem(request: &str) -> Problem {
    Problem {
        request: String::from(request),
        initial_problem: String::from("print('test')"),
        language: Language::Python,
        check_regex: String::from("Hello world"),
    }
}

#[test]
fn starts_at_first_problem() {
    let s = ProblemSequencer::new(vec![problem("one"), problem("two")]);
    assert!(!s.is_exhausted());
    assert_eq!(s.current().request, "one");
}

#[test]
fn advance_without_any_result_is_a_noop() {
    let mut s = ProblemSequencer::new(vec![problem("one"), problem("two")]);
    s.advance();
    assert_eq!(s.current().request, "one");
}

#[test]
fn advance_after_failure_is_a_noop() {
    let mut s = ProblemSequencer::new(vec![problem("one"), problem("two")]);
    s.record(false);
    s.advance();
    assert_eq!(s.current().request, "one");
}

#[test]
fn advance_after_success_moves_by_one() {
    let mut s = ProblemSequencer::new(vec![problem("one"), problem("two")]);
    s.record(true);
    s.advance();
    assert_eq!(s.current().request, "two");
    assert!(!s.is_exhausted());
}

#[test]
fn failing_then_passing_problem_one_reaches_problem_two() {
    // Submit a failing solution, advance: the cursor stays; submit a
    // passing one, advance: the cursor moves to the second problem.
    let mut s = ProblemSequencer::new(vec![problem("one"), problem("two")]);
    s.record(false);
    s.advance();
    assert_eq!(s.current().request, "one");
    s.record(true);
    s.advance();
    assert_eq!(s.current().request, "two");
}

#[test]
fn later_result_overwrites_earlier_one() {
    let mut s = ProblemSequencer::new(vec![problem("one"), problem("two")]);
    s.record(false);
    s.record(true);
    s.advance();
    assert_eq!(s.current().request, "two");
}

#[test]
fn passing_the_last_problem_exhausts_the_session() {
    let mut s = ProblemSequencer::new(vec![problem("only")]);
    s.record(true);
    s.advance();
    assert!(s.is_exhausted());
    // Advancing an exhausted session changes nothing.
    s.advance();
    assert!(s.is_exhausted());
    assert_eq!(s.cursor, 1);
}
