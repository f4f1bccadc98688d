//! PostgreSQL: double-quoted identifiers, `SERIAL` for auto-increment
//! columns, indexes as separate statements after `CREATE TABLE`.

use crate::db::ddl::{
    add_fk, add_fk_sql, add_index, add_index_sql, add_unique, add_unique_sql, alter_drop,
    alter_drop_sql, append_default, default_clause, drop_table, drop_table_sql, fk_line,
    fk_line_string, join_lines, join_parts, lemma_texts_push, pk_line, pk_lines, unique_line,
    unique_line_string,
};
use crate::db::traits::SqlGenerator;
use crate::models::schema::{Column, ForeignKey, Index, TableSchema, UniqueConstraint};
use crate::text::{append_quoted, quote_with};
use vstd::prelude::*;

verus! {

/// The PostgreSQL identifier delimiter.
pub const DOUBLE_QUOTE: char = '"';

/// The stored type, or `SERIAL` for an auto-increment column.
pub open spec fn column_type(c: Column) -> Seq<char> {
    if c.auto_increment {
        "SERIAL"@
    } else {
        c.data_type@
    }
}

/// A column's definition. `SERIAL` is implicitly non-null, so `NOT NULL` is
/// written only for other columns; comments are not part of the definition.
pub open spec fn column_def(c: Column) -> Seq<char> {
    quote_with('"', c.name@) + " "@ + column_type(c) + (if !c.nullable && !c.auto_increment {
        " NOT NULL"@
    } else {
        Seq::empty()
    }) + default_clause(c.default_value)
}

pub open spec fn column_line(c: Column) -> Seq<char> {
    "  "@ + column_def(c)
}

/// The lines inside `CREATE TABLE ( ... )`: columns, primary key, unique
/// constraints, foreign keys.
pub open spec fn table_lines(t: TableSchema) -> Seq<Seq<char>> {
    t.columns@.map_values(|c: Column| column_line(c)) + pk_lines('"', t.primary_key)
        + t.unique_constraints@.map_values(|u: UniqueConstraint| unique_line('"', u))
        + t.foreign_keys@.map_values(|f: ForeignKey| fk_line('"', f))
}

/// One `CREATE INDEX` statement per index, each on a line of its own.
pub open spec fn index_statements(table: Seq<char>, idxs: Seq<Index>) -> Seq<char>
    decreases idxs.len(),
{
    if idxs.len() == 0 {
        Seq::empty()
    } else {
        index_statements(table, idxs.drop_last()) + "\n"@ + add_index_sql('"', table, idxs.last())
    }
}

pub open spec fn create_table_sql(t: TableSchema) -> Seq<char> {
    "CREATE TABLE "@ + quote_with('"', t.name@) + " (\n"@ + join_lines(table_lines(t)) + "\n);"@
        + index_statements(t.name@, t.indexes@)
}

pub open spec fn add_column_sql(table: Seq<char>, c: Column) -> Seq<char> {
    "ALTER TABLE "@ + quote_with('"', table) + " ADD COLUMN "@ + column_def(c) + ";"@
}

/// Only the type is restated.
pub open spec fn modify_column_sql(table: Seq<char>, c: Column) -> Seq<char> {
    "ALTER TABLE "@ + quote_with('"', table) + " ALTER COLUMN "@ + quote_with('"', c.name@)
        + " TYPE "@ + column_type(c) + ";"@
}

/// Indexes are schema-level objects: the table is not named.
pub open spec fn drop_index_sql(name: Seq<char>) -> Seq<char> {
    "DROP INDEX "@ + quote_with('"', name) + ";"@
}

fn append_column_type(out: &mut String, c: &Column)
    ensures
        final(out)@ == old(out)@ + column_type(*c),
{
    if c.auto_increment {
        out.append("SERIAL");
    } else {
        out.append(c.data_type.as_str());
    }
}

fn append_column_def(out: &mut String, c: &Column)
    ensures
        final(out)@ == old(out)@ + column_def(*c),
{
    let ghost start = out@;
    append_quoted(out, DOUBLE_QUOTE, c.name.as_str());
    out.append(" ");
    append_column_type(out, c);
    let ghost a = out@;
    if !c.nullable && !c.auto_increment {
        out.append(" NOT NULL");
    }
    let ghost b = out@;
    append_default(out, &c.default_value);
    proof {
        assert(b =~= a + (if !c.nullable && !c.auto_increment {
            " NOT NULL"@
        } else {
            Seq::empty()
        }));
        assert(out@ =~= start + column_def(*c));
    }
}

fn column_line_string(c: &Column) -> (r: String)
    ensures
        r@ == column_line(*c),
{
    let mut out = String::new();
    out.append("  ");
    append_column_def(&mut out, c);
    out
}

fn table_parts(t: &TableSchema) -> (r: Vec<String>)
    ensures
        r@.map_values(|s: String| s@) == table_lines(*t),
{
    let mut parts: Vec<String> = Vec::new();
    let mut i: usize = 0;
    while i < t.columns.len()
        invariant
            i <= t.columns@.len(),
            parts@.map_values(|s: String| s@) =~= t.columns@.subrange(0, i as int).map_values(
                |c: Column| column_line(c),
            ),
        decreases t.columns@.len() - i,
    {
        let line = column_line_string(&t.columns[i]);
        proof {
            lemma_texts_push(parts@, line);
            assert(t.columns@.subrange(0, i + 1).map_values(|c: Column| column_line(c))
                =~= t.columns@.subrange(0, i as int).map_values(|c: Column| column_line(c)).push(
                column_line(t.columns@[i as int]),
            ));
        }
        parts.push(line);
        i = i + 1;
    }
    assert(t.columns@.subrange(0, t.columns@.len() as int) =~= t.columns@);
    let ghost head = t.columns@.map_values(|c: Column| column_line(c));
    match &t.primary_key {
        Some(pk) => {
            let line = pk_line(DOUBLE_QUOTE, pk);
            proof {
                lemma_texts_push(parts@, line);
            }
            parts.push(line);
        },
        None => {},
    }
    let ghost head = head + pk_lines('"', t.primary_key);
    assert(parts@.map_values(|s: String| s@) =~= head);
    let mut i: usize = 0;
    while i < t.unique_constraints.len()
        invariant
            i <= t.unique_constraints@.len(),
            parts@.map_values(|s: String| s@) =~= head + t.unique_constraints@.subrange(
                0,
                i as int,
            ).map_values(|x: UniqueConstraint| unique_line('"', x)),
        decreases t.unique_constraints@.len() - i,
    {
        let line = unique_line_string(DOUBLE_QUOTE, &t.unique_constraints[i]);
        proof {
            lemma_texts_push(parts@, line);
            assert(t.unique_constraints@.subrange(0, i + 1).map_values(
                |x: UniqueConstraint| unique_line('"', x),
            ) =~= t.unique_constraints@.subrange(0, i as int).map_values(
                |x: UniqueConstraint| unique_line('"', x),
            ).push(unique_line('"', t.unique_constraints@[i as int])));
        }
        parts.push(line);
        i = i + 1;
    }
    assert(t.unique_constraints@.subrange(0, t.unique_constraints@.len() as int)
        =~= t.unique_constraints@);
    let ghost head = head + t.unique_constraints@.map_values(
        |x: UniqueConstraint| unique_line('"', x),
    );
    let mut i: usize = 0;
    while i < t.foreign_keys.len()
        invariant
            i <= t.foreign_keys@.len(),
            parts@.map_values(|s: String| s@) =~= head + t.foreign_keys@.subrange(
                0,
                i as int,
            ).map_values(|x: ForeignKey| fk_line('"', x)),
        decreases t.foreign_keys@.len() - i,
    {
        let line = fk_line_string(DOUBLE_QUOTE, &t.foreign_keys[i]);
        proof {
            lemma_texts_push(parts@, line);
            assert(t.foreign_keys@.subrange(0, i + 1).map_values(|x: ForeignKey| fk_line('"', x))
                =~= t.foreign_keys@.subrange(0, i as int).map_values(
                |x: ForeignKey| fk_line('"', x),
            ).push(fk_line('"', t.foreign_keys@[i as int])));
        }
        parts.push(line);
        i = i + 1;
    }
    assert(t.foreign_keys@.subrange(0, t.foreign_keys@.len() as int) =~= t.foreign_keys@);
    assert(parts@.map_values(|s: String| s@) =~= table_lines(*t));
    parts
}

/// SQL generation for PostgreSQL.
#[derive(Debug, Clone, Copy)]
pub struct PostgresSqlGenerator;

impl SqlGenerator for PostgresSqlGenerator {
    open spec fn quote_text(&self, name: Seq<char>) -> Seq<char> {
        quote_with('"', name)
    }

    open spec fn create_table_text(&self, table: TableSchema) -> Seq<char> {
        create_table_sql(table)
    }

    open spec fn drop_table_text(&self, table_name: Seq<char>) -> Seq<char> {
        drop_table_sql('"', table_name)
    }

    open spec fn add_column_text(&self, table: Seq<char>, column: Column) -> Seq<char> {
        add_column_sql(table, column)
    }

    open spec fn drop_column_text(&self, table: Seq<char>, column_name: Seq<char>) -> Seq<char> {
        alter_drop_sql('"', table, " DROP COLUMN "@, column_name)
    }

    open spec fn modify_column_text(&self, table: Seq<char>, column: Column) -> Seq<char> {
        modify_column_sql(table, column)
    }

    open spec fn add_index_text(&self, table: Seq<char>, index: Index) -> Seq<char> {
        add_index_sql('"', table, index)
    }

    open spec fn drop_index_text(&self, table: Seq<char>, index_name: Seq<char>) -> Seq<char> {
        drop_index_sql(index_name)
    }

    open spec fn add_foreign_key_text(&self, table: Seq<char>, fk: ForeignKey) -> Seq<char> {
        add_fk_sql('"', table, fk)
    }

    open spec fn drop_foreign_key_text(&self, table: Seq<char>, fk_name: Seq<char>) -> Seq<char> {
        alter_drop_sql('"', table, " DROP CONSTRAINT "@, fk_name)
    }

    open spec fn add_unique_text(&self, table: Seq<char>, uc: UniqueConstraint) -> Seq<char> {
        add_unique_sql('"', table, uc)
    }

    open spec fn drop_unique_text(&self, table: Seq<char>, uc_name: Seq<char>) -> Seq<char> {
        alter_drop_sql('"', table, " DROP CONSTRAINT "@, uc_name)
    }

    fn quote_identifier(&self, name: &str) -> (r: String) {
        let mut out = String::new();
        append_quoted(&mut out, DOUBLE_QUOTE, name);
        assert(out@ =~= quote_with('"', name@));
        out
    }

    fn generate_create_table(&self, table: &TableSchema) -> (r: String) {
        let parts = table_parts(table);
        let mut out = String::new();
        out.append("CREATE TABLE ");
        append_quoted(&mut out, DOUBLE_QUOTE, table.name.as_str());
        out.append(" (\n");
        let body = join_parts(&parts);
        out.append(body.as_str());
        out.append("\n);");
        let ghost head = out@;
        let mut i: usize = 0;
        while i < table.indexes.len()
            invariant
                i <= table.indexes@.len(),
                out@ == head + index_statements(table.name@, table.indexes@.subrange(0, i as int)),
            decreases table.indexes@.len() - i,
        {
            out.append("\n");
            let stmt = add_index(DOUBLE_QUOTE, table.name.as_str(), &table.indexes[i]);
            out.append(stmt.as_str());
            proof {
                let next = table.indexes@.subrange(0, i + 1);
                assert(next.drop_last() =~= table.indexes@.subrange(0, i as int));
                assert(out@ =~= head + index_statements(table.name@, next));
            }
            i = i + 1;
        }
        proof {
            assert(table.indexes@.subrange(0, table.indexes@.len() as int) =~= table.indexes@);
            assert(out@ =~= create_table_sql(*table));
        }
        out
    }

    fn generate_drop_table(&self, table_name: &str) -> (r: String) {
        drop_table(DOUBLE_QUOTE, table_name)
    }

    fn generate_add_column(&self, table: &str, column: &Column) -> (r: String) {
        let mut out = String::new();
        out.append("ALTER TABLE ");
        append_quoted(&mut out, DOUBLE_QUOTE, table);
        out.append(" ADD COLUMN ");
        append_column_def(&mut out, column);
        out.append(";");
        proof {
            assert(out@ =~= add_column_sql(table@, *column));
        }
        out
    }

    fn generate_drop_column(&self, table: &str, column_name: &str) -> (r: String) {
        alter_drop(DOUBLE_QUOTE, table, " DROP COLUMN ", column_name)
    }

    fn generate_modify_column(&self, table: &str, column: &Column) -> (r: String) {
        let mut out = String::new();
        out.append("ALTER TABLE ");
        append_quoted(&mut out, DOUBLE_QUOTE, table);
        out.append(" ALTER COLUMN ");
        append_quoted(&mut out, DOUBLE_QUOTE, column.name.as_str());
        out.append(" TYPE ");
        append_column_type(&mut out, column);
        out.append(";");
        proof {
            assert(out@ =~= modify_column_sql(table@, *column));
        }
        out
    }

    fn generate_add_index(&self, table: &str, index: &Index) -> (r: String) {
        add_index(DOUBLE_QUOTE, table, index)
    }

    fn generate_drop_index(&self, table: &str, index_name: &str) -> (r: String) {
        let mut out = String::new();
        out.append("DROP INDEX ");
        append_quoted(&mut out, DOUBLE_QUOTE, index_name);
        out.append(";");
        proof {
            assert(out@ =~= drop_index_sql(index_name@));
        }
        out
    }

    fn generate_add_foreign_key(&self, table: &str, fk: &ForeignKey) -> (r: String) {
        add_fk(DOUBLE_QUOTE, table, fk)
    }

    fn generate_drop_foreign_key(&self, table: &str, fk_name: &str) -> (r: String) {
        alter_drop(DOUBLE_QUOTE, table, " DROP CONSTRAINT ", fk_name)
    }

    fn generate_add_unique(&self, table: &str, uc: &UniqueConstraint) -> (r: String) {
        add_unique(DOUBLE_QUOTE, table, uc)
    }

    fn generate_drop_unique(&self, table: &str, uc_name: &str) -> (r: String) {
        alter_drop(DOUBLE_QUOTE, table, " DROP CONSTRAINT ", uc_name)
    }
}

} // verus!
