//! Structural comparison of two relational schemas and dialect-aware DDL
//! generation for the differences found.

pub mod db;
pub mod diff;
pub mod error;
pub mod models;
pub mod storage;
pub mod sync;
pub mod text;

pub use error::{AppError, AppResult};
