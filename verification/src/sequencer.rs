//! Problem sequencer: holds the ordered challenges of a session,
//! exposes the current one, and moves forward only once the current
//! one has been verified correct. The cursor never rewinds.

use vstd::prelude::*;
use crate::problems::Problem;

verus! {

/// A session's position within its ordered list of problems, together
/// with the verdict last recorded for the problem under the cursor.
/// The cursor one past the end is the exhausted state: every problem
/// has been passed.
pub struct ProblemSequencer {
    pub problems: Vec<Problem>,
    pub cursor: usize,
    pub last_result: Option<bool>,
}

impl ProblemSequencer {
    /// The cursor stays within the list, at worst one past its end.
    pub open spec fn wf(self) -> bool {
        self.cursor <= self.problems@.len()
    }

    /// Whether every problem has been passed and none is current.
    pub open spec fn exhausted(self) -> bool {
        self.cursor >= self.problems@.len()
    }

    /// A fresh session: at the first problem, nothing recorded yet.
    pub fn new(problems: Vec<Problem>) -> (s: Self)
        ensures
            s.problems == problems,
            s.cursor == 0,
            s.last_result is None,
            s.wf(),
    {
        ProblemSequencer { problems, cursor: 0, last_result: None }
    }

    /// Whether the session has moved past its last problem.
    pub fn is_exhausted(&self) -> (b: bool)
        ensures
            b == self.exhausted(),
    {
        self.cursor >= self.problems.len()
    }

    /// The problem under the cursor. There is none once the session
    /// is exhausted, so asking then is a caller error.
    pub fn current(&self) -> (p: &Problem)
        requires
            !self.exhausted(),
        ensures
            *p == self.problems@[self.cursor as int],
    {
        &self.problems[self.cursor]
    }

    /// Records the verdict of a run of the current problem; later
    /// runs overwrite earlier ones.
    pub fn record(&mut self, success: bool)
        requires
            !old(self).exhausted(),
        ensures
            final(self).problems == old(self).problems,
            final(self).cursor == old(self).cursor,
            final(self).last_result == Some(success),
    {
        self.last_result = Some(success);
    }

    /// Moves to the next problem exactly when the last recorded
    /// verdict for the current one was a success, clearing the
    /// recorded verdict; otherwise does nothing.
    pub fn advance(&mut self)
        ensures
            final(self).problems == old(self).problems,
            old(self).last_result == Some(true) && !old(self).exhausted() ==> final(self).cursor
                == old(self).cursor + 1 && final(self).last_result is None,
            !(old(self).last_result == Some(true) && !old(self).exhausted()) ==> *final(self)
                == *old(self),
            old(self).wf() ==> final(self).wf(),
    {
        if self.cursor < self.problems.len() {
            match self.last_result {
                Some(passed) => {
                    if passed {
                        self.cursor = self.cursor + 1;
                        self.last_result = None;
                    }
                },
                None => {},
            }
        }
    }
}

} // verus!
