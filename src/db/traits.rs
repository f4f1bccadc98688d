//! The operations every SQL dialect offers.

use crate::models::schema::{Column, ForeignKey, Index, TableSchema, UniqueConstraint};
use vstd::prelude::*;

verus! {

/// DDL generation for one SQL dialect. Each spec function names the text that
/// the matching method returns, and the comparator's contract speaks of
/// them. The defaults leave the text unstated: a dialect verified here must
/// state its own to meet the method contracts, while one implemented outside
/// the library (a stand-in for tests, say) needs only the methods.
pub trait SqlGenerator {
    open spec fn quote_text(&self, name: Seq<char>) -> Seq<char> {
        arbitrary()
    }

    open spec fn create_table_text(&self, table: TableSchema) -> Seq<char> {
        arbitrary()
    }

    open spec fn drop_table_text(&self, table_name: Seq<char>) -> Seq<char> {
        arbitrary()
    }

    open spec fn add_column_text(&self, table: Seq<char>, column: Column) -> Seq<char> {
        arbitrary()
    }

    open spec fn drop_column_text(&self, table: Seq<char>, column_name: Seq<char>) -> Seq<char> {
        arbitrary()
    }

    open spec fn modify_column_text(&self, table: Seq<char>, column: Column) -> Seq<char> {
        arbitrary()
    }

    open spec fn add_index_text(&self, table: Seq<char>, index: Index) -> Seq<char> {
        arbitrary()
    }

    open spec fn drop_index_text(&self, table: Seq<char>, index_name: Seq<char>) -> Seq<char> {
        arbitrary()
    }

    open spec fn add_foreign_key_text(&self, table: Seq<char>, fk: ForeignKey) -> Seq<char> {
        arbitrary()
    }

    open spec fn drop_foreign_key_text(&self, table: Seq<char>, fk_name: Seq<char>) -> Seq<char> {
        arbitrary()
    }

    open spec fn add_unique_text(&self, table: Seq<char>, uc: UniqueConstraint) -> Seq<char> {
        arbitrary()
    }

    open spec fn drop_unique_text(&self, table: Seq<char>, uc_name: Seq<char>) -> Seq<char> {
        arbitrary()
    }

    fn quote_identifier(&self, name: &str) -> (r: String)
        ensures
            r@ == self.quote_text(name@),
    ;

    fn generate_create_table(&self, table: &TableSchema) -> (r: String)
        ensures
            r@ == self.create_table_text(*table),
    ;

    fn generate_drop_table(&self, table_name: &str) -> (r: String)
        ensures
            r@ == self.drop_table_text(table_name@),
    ;

    fn generate_add_column(&self, table: &str, column: &Column) -> (r: String)
        ensures
            r@ == self.add_column_text(table@, *column),
    ;

    fn generate_drop_column(&self, table: &str, column_name: &str) -> (r: String)
        ensures
            r@ == self.drop_column_text(table@, column_name@),
    ;

    fn generate_modify_column(&self, table: &str, column: &Column) -> (r: String)
        ensures
            r@ == self.modify_column_text(table@, *column),
    ;

    fn generate_add_index(&self, table: &str, index: &Index) -> (r: String)
        ensures
            r@ == self.add_index_text(table@, *index),
    ;

    fn generate_drop_index(&self, table: &str, index_name: &str) -> (r: String)
        ensures
            r@ == self.drop_index_text(table@, index_name@),
    ;

    fn generate_add_foreign_key(&self, table: &str, fk: &ForeignKey) -> (r: String)
        ensures
            r@ == self.add_foreign_key_text(table@, *fk),
    ;

    fn generate_drop_foreign_key(&self, table: &str, fk_name: &str) -> (r: String)
        ensures
            r@ == self.drop_foreign_key_text(table@, fk_name@),
    ;

    fn generate_add_unique(&self, table: &str, uc: &UniqueConstraint) -> (r: String)
        ensures
            r@ == self.add_unique_text(table@, *uc),
    ;

    fn generate_drop_unique(&self, table: &str, uc_name: &str) -> (r: String)
        ensures
            r@ == self.drop_unique_text(table@, uc_name@),
    ;
}

} // verus!
