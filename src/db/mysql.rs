//! MySQL and MariaDB: backtick-quoted identifiers, inline indexes in
//! `CREATE TABLE`, `AUTO_INCREMENT` as a column modifier.

use crate::db::ddl::{
    add_fk, add_fk_sql, add_index, add_index_sql, add_unique, add_unique_sql, alter_drop,
    alter_drop_sql, append_comment, append_default, append_index_kind, comment_clause,
    default_clause, drop_table, drop_table_sql, fk_line, fk_line_string, index_kind, join_lines,
    join_parts, lemma_texts_push, pk_line, pk_lines, unique_line, unique_line_string,
};
use crate::db::traits::SqlGenerator;
use crate::models::schema::{Column, ForeignKey, Index, TableSchema, UniqueConstraint};
use crate::text::{append_quoted, append_quoted_list, quote_with, quoted_list};
use vstd::prelude::*;

verus! {

/// The MySQL identifier delimiter.
pub const BACKTICK: char = '`';

/// A column's definition: name, type, then `NOT NULL`, `DEFAULT`,
/// `AUTO_INCREMENT` and `COMMENT` where they apply.
pub open spec fn column_def(c: Column) -> Seq<char> {
    quote_with('`', c.name@) + " "@ + c.data_type@ + (if c.nullable {
        Seq::empty()
    } else {
        " NOT NULL"@
    }) + default_clause(c.default_value) + (if c.auto_increment {
        " AUTO_INCREMENT"@
    } else {
        Seq::empty()
    }) + comment_clause(c.comment)
}

pub open spec fn column_line(c: Column) -> Seq<char> {
    "  "@ + column_def(c)
}

pub open spec fn index_line(idx: Index) -> Seq<char> {
    "  "@ + index_kind(idx.unique) + " "@ + quote_with('`', idx.name@) + " ("@ + quoted_list(
        '`',
        idx.columns@,
    ) + ")"@
}

/// The lines inside `CREATE TABLE ( ... )`: columns, primary key, indexes,
/// unique constraints, foreign keys.
pub open spec fn table_lines(t: TableSchema) -> Seq<Seq<char>> {
    t.columns@.map_values(|c: Column| column_line(c)) + pk_lines('`', t.primary_key)
        + t.indexes@.map_values(|i: Index| index_line(i)) + t.unique_constraints@.map_values(
        |u: UniqueConstraint| unique_line('`', u),
    ) + t.foreign_keys@.map_values(|f: ForeignKey| fk_line('`', f))
}

pub open spec fn create_table_sql(t: TableSchema) -> Seq<char> {
    "CREATE TABLE "@ + quote_with('`', t.name@) + " (\n"@ + join_lines(table_lines(t)) + "\n);"@
}

pub open spec fn add_column_sql(table: Seq<char>, c: Column) -> Seq<char> {
    "ALTER TABLE "@ + quote_with('`', table) + " ADD COLUMN "@ + column_def(c) + ";"@
}

pub open spec fn modify_column_sql(table: Seq<char>, c: Column) -> Seq<char> {
    "ALTER TABLE "@ + quote_with('`', table) + " MODIFY COLUMN "@ + column_def(c) + ";"@
}

pub open spec fn drop_index_sql(table: Seq<char>, name: Seq<char>) -> Seq<char> {
    "DROP INDEX "@ + quote_with('`', name) + " ON "@ + quote_with('`', table) + ";"@
}

fn append_column_def(out: &mut String, c: &Column)
    ensures
        final(out)@ == old(out)@ + column_def(*c),
{
    let ghost start = out@;
    append_quoted(out, BACKTICK, c.name.as_str());
    out.append(" ");
    out.append(c.data_type.as_str());
    let ghost a = out@;
    if !c.nullable {
        out.append(" NOT NULL");
    }
    let ghost b = out@;
    append_default(out, &c.default_value);
    let ghost d = out@;
    if c.auto_increment {
        out.append(" AUTO_INCREMENT");
    }
    let ghost e = out@;
    append_comment(out, &c.comment);
    proof {
        assert(b =~= a + (if c.nullable {
            Seq::empty()
        } else {
            " NOT NULL"@
        }));
        assert(e =~= d + (if c.auto_increment {
            " AUTO_INCREMENT"@
        } else {
            Seq::empty()
        }));
        assert(out@ =~= start + column_def(*c));
    }
}

fn column_line_string(c: &Column) -> (r: String)
    ensures
        r@ == column_line(*c),
{
    let mut out = String::new();
    out.append("  ");
    append_column_def(&mut out, c);
    out
}

fn index_line_string(idx: &Index) -> (r: String)
    ensures
        r@ == index_line(*idx),
{
    let mut out = String::new();
    out.append("  ");
    append_index_kind(&mut out, idx.unique);
    out.append(" ");
    append_quoted(&mut out, BACKTICK, idx.name.as_str());
    out.append(" (");
    append_quoted_list(&mut out, BACKTICK, &idx.columns);
    out.append(")");
    proof {
        assert(out@ =~= index_line(*idx));
    }
    out
}

fn table_parts(t: &TableSchema) -> (r: Vec<String>)
    ensures
        r@.map_values(|s: String| s@) == table_lines(*t),
{
    let mut parts: Vec<String> = Vec::new();
    let mut i: usize = 0;
    while i < t.columns.len()
        invariant
            i <= t.columns@.len(),
            parts@.map_values(|s: String| s@) =~= t.columns@.subrange(0, i as int).map_values(
                |c: Column| column_line(c),
            ),
        decreases t.columns@.len() - i,
    {
        let line = column_line_string(&t.columns[i]);
        proof {
            lemma_texts_push(parts@, line);
            assert(t.columns@.subrange(0, i + 1).map_values(|c: Column| column_line(c))
                =~= t.columns@.subrange(0, i as int).map_values(|c: Column| column_line(c)).push(
                column_line(t.columns@[i as int]),
            ));
        }
        parts.push(line);
        i = i + 1;
    }
    assert(t.columns@.subrange(0, t.columns@.len() as int) =~= t.columns@);
    let ghost head = t.columns@.map_values(|c: Column| column_line(c));
    match &t.primary_key {
        Some(pk) => {
            let line = pk_line(BACKTICK, pk);
            proof {
                lemma_texts_push(parts@, line);
            }
            parts.push(line);
        },
        None => {},
    }
    let ghost head = head + pk_lines('`', t.primary_key);
    assert(parts@.map_values(|s: String| s@) =~= head);
    let mut i: usize = 0;
    while i < t.indexes.len()
        invariant
            i <= t.indexes@.len(),
            parts@.map_values(|s: String| s@) =~= head + t.indexes@.subrange(0, i as int).map_values(
                |x: Index| index_line(x),
            ),
        decreases t.indexes@.len() - i,
    {
        let line = index_line_string(&t.indexes[i]);
        proof {
            lemma_texts_push(parts@, line);
            assert(t.indexes@.subrange(0, i + 1).map_values(|x: Index| index_line(x))
                =~= t.indexes@.subrange(0, i as int).map_values(|x: Index| index_line(x)).push(
                index_line(t.indexes@[i as int]),
            ));
        }
        parts.push(line);
        i = i + 1;
    }
    assert(t.indexes@.subrange(0, t.indexes@.len() as int) =~= t.indexes@);
    let ghost head = head + t.indexes@.map_values(|x: Index| index_line(x));
    let mut i: usize = 0;
    while i < t.unique_constraints.len()
        invariant
            i <= t.unique_constraints@.len(),
            parts@.map_values(|s: String| s@) =~= head + t.unique_constraints@.subrange(
                0,
                i as int,
            ).map_values(|x: UniqueConstraint| unique_line('`', x)),
        decreases t.unique_constraints@.len() - i,
    {
        let line = unique_line_string(BACKTICK, &t.unique_constraints[i]);
        proof {
            lemma_texts_push(parts@, line);
            assert(t.unique_constraints@.subrange(0, i + 1).map_values(
                |x: UniqueConstraint| unique_line('`', x),
            ) =~= t.unique_constraints@.subrange(0, i as int).map_values(
                |x: UniqueConstraint| unique_line('`', x),
            ).push(unique_line('`', t.unique_constraints@[i as int])));
        }
        parts.push(line);
        i = i + 1;
    }
    assert(t.unique_constraints@.subrange(0, t.unique_constraints@.len() as int)
        =~= t.unique_constraints@);
    let ghost head = head + t.unique_constraints@.map_values(
        |x: UniqueConstraint| unique_line('`', x),
    );
    let mut i: usize = 0;
    while i < t.foreign_keys.len()
        invariant
            i <= t.foreign_keys@.len(),
            parts@.map_values(|s: String| s@) =~= head + t.foreign_keys@.subrange(
                0,
                i as int,
            ).map_values(|x: ForeignKey| fk_line('`', x)),
        decreases t.foreign_keys@.len() - i,
    {
        let line = fk_line_string(BACKTICK, &t.foreign_keys[i]);
        proof {
            lemma_texts_push(parts@, line);
            assert(t.foreign_keys@.subrange(0, i + 1).map_values(|x: ForeignKey| fk_line('`', x))
                =~= t.foreign_keys@.subrange(0, i as int).map_values(
                |x: ForeignKey| fk_line('`', x),
            ).push(fk_line('`', t.foreign_keys@[i as int])));
        }
        parts.push(line);
        i = i + 1;
    }
    assert(t.foreign_keys@.subrange(0, t.foreign_keys@.len() as int) =~= t.foreign_keys@);
    assert(parts@.map_values(|s: String| s@) =~= table_lines(*t));
    parts
}

/// SQL generation for MySQL and MariaDB.
#[derive(Debug, Clone, Copy)]
pub struct MySqlSqlGenerator;

impl SqlGenerator for MySqlSqlGenerator {
    open spec fn quote_text(&self, name: Seq<char>) -> Seq<char> {
        quote_with('`', name)
    }

    open spec fn create_table_text(&self, table: TableSchema) -> Seq<char> {
        create_table_sql(table)
    }

    open spec fn drop_table_text(&self, table_name: Seq<char>) -> Seq<char> {
        drop_table_sql('`', table_name)
    }

    open spec fn add_column_text(&self, table: Seq<char>, column: Column) -> Seq<char> {
        add_column_sql(table, column)
    }

    open spec fn drop_column_text(&self, table: Seq<char>, column_name: Seq<char>) -> Seq<char> {
        alter_drop_sql('`', table, " DROP COLUMN "@, column_name)
    }

    open spec fn modify_column_text(&self, table: Seq<char>, column: Column) -> Seq<char> {
        modify_column_sql(table, column)
    }

    open spec fn add_index_text(&self, table: Seq<char>, index: Index) -> Seq<char> {
        add_index_sql('`', table, index)
    }

    open spec fn drop_index_text(&self, table: Seq<char>, index_name: Seq<char>) -> Seq<char> {
        drop_index_sql(table, index_name)
    }

    open spec fn add_foreign_key_text(&self, table: Seq<char>, fk: ForeignKey) -> Seq<char> {
        add_fk_sql('`', table, fk)
    }

    open spec fn drop_foreign_key_text(&self, table: Seq<char>, fk_name: Seq<char>) -> Seq<char> {
        alter_drop_sql('`', table, " DROP FOREIGN KEY "@, fk_name)
    }

    open spec fn add_unique_text(&self, table: Seq<char>, uc: UniqueConstraint) -> Seq<char> {
        add_unique_sql('`', table, uc)
    }

    /// A unique constraint is backed by an index of the same name.
    open spec fn drop_unique_text(&self, table: Seq<char>, uc_name: Seq<char>) -> Seq<char> {
        alter_drop_sql('`', table, " DROP INDEX "@, uc_name)
    }

    fn quote_identifier(&self, name: &str) -> (r: String) {
        let mut out = String::new();
        append_quoted(&mut out, BACKTICK, name);
        assert(out@ =~= quote_with('`', name@));
        out
    }

    fn generate_create_table(&self, table: &TableSchema) -> (r: String) {
        let parts = table_parts(table);
        let mut out = String::new();
        out.append("CREATE TABLE ");
        append_quoted(&mut out, BACKTICK, table.name.as_str());
        out.append(" (\n");
        let body = join_parts(&parts);
        out.append(body.as_str());
        out.append("\n);");
        proof {
            assert(out@ =~= create_table_sql(*table));
        }
        out
    }

    fn generate_drop_table(&self, table_name: &str) -> (r: String) {
        drop_table(BACKTICK, table_name)
    }

    fn generate_add_column(&self, table: &str, column: &Column) -> (r: String) {
        let mut out = String::new();
        out.append("ALTER TABLE ");
        append_quoted(&mut out, BACKTICK, table);
        out.append(" ADD COLUMN ");
        append_column_def(&mut out, column);
        out.append(";");
        proof {
            assert(out@ =~= add_column_sql(table@, *column));
        }
        out
    }

    fn generate_drop_column(&self, table: &str, column_name: &str) -> (r: String) {
        alter_drop(BACKTICK, table, " DROP COLUMN ", column_name)
    }

    fn generate_modify_column(&self, table: &str, column: &Column) -> (r: String) {
        let mut out = String::new();
        out.append("ALTER TABLE ");
        append_quoted(&mut out, BACKTICK, table);
        out.append(" MODIFY COLUMN ");
        append_column_def(&mut out, column);
        out.append(";");
        proof {
            assert(out@ =~= modify_column_sql(table@, *column));
        }
        out
    }

    fn generate_add_index(&self, table: &str, index: &Index) -> (r: String) {
        add_index(BACKTICK, table, index)
    }

    fn generate_drop_index(&self, table: &str, index_name: &str) -> (r: String) {
        let mut out = String::new();
        out.append("DROP INDEX ");
        append_quoted(&mut out, BACKTICK, index_name);
        out.append(" ON ");
        append_quoted(&mut out, BACKTICK, table);
        out.append(";");
        proof {
            assert(out@ =~= drop_index_sql(table@, index_name@));
        }
        out
    }

    fn generate_add_foreign_key(&self, table: &str, fk: &ForeignKey) -> (r: String) {
        add_fk(BACKTICK, table, fk)
    }

    fn generate_drop_foreign_key(&self, table: &str, fk_name: &str) -> (r: String) {
        alter_drop(BACKTICK, table, " DROP FOREIGN KEY ", fk_name)
    }

    fn generate_add_unique(&self, table: &str, uc: &UniqueConstraint) -> (r: String) {
        add_unique(BACKTICK, table, uc)
    }

    fn generate_drop_unique(&self, table: &str, uc_name: &str) -> (r: String) {
        alter_drop(BACKTICK, table, " DROP INDEX ", uc_name)
    }
}

} // verus!
