//! Verification engine for an interactive coding-practice harness.
//!
//! The engine presents a coding challenge, judges a user submission by
//! matching captured toolchain output against an expected pattern, and
//! reports an edit-distance effort score against the original stub.
//! This crate holds the verified core: the language capability table,
//! the edit-distance scorer, the output evaluator, the judging step of
//! the execution runner, and the problem sequencer. The surrounding
//! host (terminal rendering, editing, process spawning, file handling)
//! stays outside and hands the engine plain values.

pub mod distance;
pub mod evaluator;
pub mod languages;
pub mod problems;
pub mod runner;
pub mod sequencer;

pub use distance::minimum_edit_distance;
