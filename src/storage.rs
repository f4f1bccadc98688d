//! Stored connection profiles.

pub mod config;

pub use config::{ConnectionRow, StoredSecret};
