//! Result recording: the error a sink reports and an in-memory sink.

pub mod memory;
pub mod sink;
