//! Verified core of the HealthCheck monitoring platform: the domain model,
//! health aggregation, persistence mapping and the fixed-delay scheduler state.

pub mod status;
pub mod text;
pub mod error;
pub mod execution;
pub mod ids;
pub mod time;
pub mod project;
pub mod service;
pub mod application;
pub mod check;
pub mod persistence;
pub mod report_text;
pub mod reporting;
pub mod result;
pub mod results;
pub mod scheduler;
