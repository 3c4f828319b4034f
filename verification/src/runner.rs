//! The judging half of the execution runner. The host materializes
//! the submission at the fixed transient path, invokes the language's
//! command through a shell, captures both output streams, and removes
//! the transient artifacts; this module then judges the captured
//! bytes: it selects the more informative stream, decodes it as text,
//! and tests it against the problem's acceptance pattern.

use vstd::prelude::*;
use vstd::utf8::{decode_utf8, valid_utf8};
use crate::evaluator::{pattern_matches, pattern_ok, try_evaluate};

verus! {

/// The fixed, well-known path the submitted source is written to for
/// one run; the runner removes it again before the run's verdict is
/// returned.
pub const TRANSIENT_SOURCE_PATH: &'static str = "temp.tmp";

/// The verdict of one run: whether the captured output matched the
/// problem's acceptance pattern, and that output as text.
pub struct ExecutionResult {
    pub success: bool,
    pub output: String,
}

/// A failure of the harness itself, distinct from a failed submission:
/// a toolchain failure is an ordinary `ExecutionResult`, these are not.
#[derive(Clone, Copy, PartialEq, Eq, Structural, Debug)]
pub enum EngineError {
    /// The problem's acceptance pattern is not a valid regular
    /// expression: a configuration error in the problem data.
    InvalidPattern,
    /// The captured bytes are not valid text: a tooling or
    /// environment problem, not a wrong submission.
    InvalidOutput,
    /// The transient source could not be written or removed; raised
    /// by the host around the process invocation.
    Io,
}

/// The stream a run's verdict is read from: standard error when it is
/// non-empty, standard output otherwise. Toolchain diagnostics are
/// expected on standard error and take priority.
pub open spec fn spec_selected(stderr: Seq<u8>, stdout: Seq<u8>) -> Seq<u8> {
    if stderr.len() > 0 {
        stderr
    } else {
        stdout
    }
}

/// Selects the captured stream the verdict is read from.
pub fn select_stream(stderr: Vec<u8>, stdout: Vec<u8>) -> (r: Vec<u8>)
    ensures
        r@ == spec_selected(stderr@, stdout@),
{
    if stderr.len() > 0 {
        stderr
    } else {
        stdout
    }
}

/// Relies on String::from_utf8: returns the decoded string exactly
/// when the bytes are valid UTF-8, and fails otherwise.
#[verifier::external_body]
fn decode_output(bytes: Vec<u8>) -> (r: Option<String>)
    ensures
        r is Some <==> valid_utf8(bytes@),
        r is Some ==> r->0@ == decode_utf8(bytes@),
{
    String::from_utf8(bytes).ok()
}

/// Judges the two captured byte streams of one run: selects standard
/// error when non-empty (standard output otherwise), decodes the
/// selection as text, and accepts exactly when the problem's pattern
/// matches somewhere in that text. Fails only on undecodable output
/// or an invalid pattern, each reported as its own error kind.
pub fn judge_capture(stderr: Vec<u8>, stdout: Vec<u8>, pattern: &str) -> (r: Result<
    ExecutionResult,
    EngineError,
>)
    ensures
        ({
            let sel = spec_selected(stderr@, stdout@);
            &&& !valid_utf8(sel) ==> r == Err::<ExecutionResult, EngineError>(
                EngineError::InvalidOutput,
            )
            &&& valid_utf8(sel) && !pattern_ok(pattern@) ==> r == Err::<
                ExecutionResult,
                EngineError,
            >(EngineError::InvalidPattern)
            &&& valid_utf8(sel) && pattern_ok(pattern@) ==> {
                &&& r is Ok
                &&& r->Ok_0.output@ == decode_utf8(sel)
                &&& r->Ok_0.success == pattern_matches(pattern@, decode_utf8(sel))
            }
        }),
{
    let selected = select_stream(stderr, stdout);
    match decode_output(selected) {
        None => Err(EngineError::InvalidOutput),
        Some(text) => match try_evaluate(text.as_str(), pattern) {
            None => Err(EngineError::InvalidPattern),
            Some(success) => Ok(ExecutionResult { success, output: text }),
        },
    }
}

} // verus!
