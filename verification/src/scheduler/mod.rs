//! Fixed-delay scheduling: which checks run when, and what a finished run
//! changes. Time is measured in nanoseconds from an origin the caller fixes
//! (the runtime uses the moment it started).

pub mod config;
pub mod state;
