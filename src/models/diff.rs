//! The comparator's output.

use vstd::prelude::*;

verus! {

#[derive(Debug, Clone, Copy, PartialEq, Eq, Structural)]
pub enum DiffType {
    TableAdded,
    TableRemoved,
    ColumnAdded,
    ColumnRemoved,
    ColumnModified,
    IndexAdded,
    IndexRemoved,
    IndexModified,
    ForeignKeyAdded,
    ForeignKeyRemoved,
    ForeignKeyModified,
    UniqueConstraintAdded,
    UniqueConstraintRemoved,
    UniqueConstraintModified,
}

/// One classified difference, with the SQL that resolves it.
#[derive(Debug, Clone)]
pub struct DiffItem {
    pub id: String,
    pub diff_type: DiffType,
    pub table_name: String,
    pub object_name: Option<String>,
    pub source_def: Option<String>,
    pub target_def: Option<String>,
    pub sql: String,
    pub selected: bool,
}

#[derive(Debug, Clone)]
pub struct DiffResult {
    pub items: Vec<DiffItem>,
    pub source_tables: usize,
    pub target_tables: usize,
}

} // verus!
