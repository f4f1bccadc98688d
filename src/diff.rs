//! Reconciliation of two schema snapshots into an ordered list of diff items.

pub mod comparator;
pub mod lemmas;

pub use comparator::compare_schemas;
