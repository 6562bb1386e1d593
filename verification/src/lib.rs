//! Command-execution engine and supporting logic for an interactive
//! shell-command playground: an execution policy that decides how a command
//! is run (sandboxed or direct, with a blocklist guard), the outcome logic of
//! the per-command watcher, the dispatcher state machine that keeps at most
//! one command active, a race-safe termination guard, persistent command
//! lists, and snippet parsing.
//!
//! Everything here is pure logic over plain values. The embedding program
//! owns the threads, channels and child processes, and drives them exactly
//! as these functions decide.

pub mod command_evaluation;
pub mod commandlist;
pub mod dispatcher;
pub mod guard;
pub mod snippets;
pub mod strutil;
pub mod ui;
