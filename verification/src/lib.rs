//! Decision logic of a small continuous-integration job orchestrator.
//!
//! Every function here is a pure step: it is handed plain values that
//! describe what was observed (a directory listing, the outcome of a script,
//! an operator interrupt) and answers with what has to happen next. Reading
//! directories, starting processes and passing messages between threads is
//! left to the program that drives these steps.

pub mod config;
pub mod dispatch;
pub mod exit;
pub mod registry;
pub mod report;
pub mod script;
pub mod shutdown;
pub mod startup;
pub mod text;
pub mod worker;
