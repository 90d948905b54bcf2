//! A runner for named, self-contained examples: it keeps them in
//! registration order, runs each one so that a failure is recorded instead of
//! ending the run, and reports which completed and which failed.

pub mod isolation;
pub mod laws;
pub mod outcome;
pub mod registry;
pub mod report;
pub mod runner;
pub mod samples;
