//! Runs source snippets in a fixed set of languages. The library decides every
//! step of an execution (which workspace files to write, which processes to start
//! under which time limits, how their outcomes are judged) and leaves the outside
//! work itself to a driver, which reports back with events.

pub mod text;
pub mod language;
pub mod outcome;
pub mod java;
pub mod sql;
pub mod pipeline;
pub mod limiter;
pub mod laws;
