//! The operations that the presentation layer asks for. Each is an exchange:
//! the library names an action, the caller performs it and hands back the
//! event, and the library names the next action or the outcome.

pub mod app;
pub mod database;
pub mod docker;
pub mod protocol;
pub mod upkeep;
