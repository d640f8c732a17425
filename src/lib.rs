//! Synchronises issues and pull requests of code hosting platforms into
//! calendar task documents.
pub mod account;
pub mod calendar;
pub mod config;
pub mod text;
pub mod time;
pub mod todo;
