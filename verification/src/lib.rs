//! Local database containers: building engine invocations, driving the
//! container engine through create, update, start, stop and remove, and
//! keeping the known records in step with what the engine reports.

pub mod ambient;
pub mod commands;
pub mod services;
pub mod text;
pub mod types;
