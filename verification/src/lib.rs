//! Decision core of a directory backup tool: which entries of a source tree
//! are selected, what is done with each of them, and how runs are scheduled.
//! Nothing here touches the file system; a driver performs the actions that
//! the state machines hand out and reports back what happened.

pub mod calendar;
pub mod command;
pub mod config;
pub mod document;
pub mod engine;
pub mod filter;
pub mod paths;
pub mod pattern;
pub mod plan;
pub mod protocol;
pub mod schedule;
pub mod walker;
