//! How the two dialects relate on the same input.

use crate::db::ddl::{add_fk_sql, add_unique_sql};
use crate::db::mysql::MySqlSqlGenerator;
use crate::db::postgres::PostgresSqlGenerator;
use crate::db::traits::SqlGenerator;
use crate::models::schema::{ForeignKey, UniqueConstraint};
use vstd::prelude::*;

verus! {

/// On the same input, MySQL and PostgreSQL write different statements to drop
/// an index, a foreign key and a unique constraint, while their statements
/// to add a foreign key or a unique constraint are one text that differs
/// only in the identifier delimiter.
pub proof fn lemma_dialects_diverge(
    table: Seq<char>,
    name: Seq<char>,
    fk: ForeignKey,
    uc: UniqueConstraint,
)
    ensures
        MySqlSqlGenerator.drop_index_text(table, name) != PostgresSqlGenerator.drop_index_text(
            table,
            name,
        ),
        MySqlSqlGenerator.drop_foreign_key_text(table, name)
            != PostgresSqlGenerator.drop_foreign_key_text(table, name),
        MySqlSqlGenerator.drop_unique_text(table, name) != PostgresSqlGenerator.drop_unique_text(
            table,
            name,
        ),
        MySqlSqlGenerator.add_foreign_key_text(table, fk) == add_fk_sql('`', table, fk),
        PostgresSqlGenerator.add_foreign_key_text(table, fk) == add_fk_sql('"', table, fk),
        MySqlSqlGenerator.add_unique_text(table, uc) == add_unique_sql('`', table, uc),
        PostgresSqlGenerator.add_unique_text(table, uc) == add_unique_sql('"', table, uc),
{
    reveal_strlit("DROP INDEX ");
    reveal_strlit("ALTER TABLE ");
    let m = MySqlSqlGenerator.drop_index_text(table, name);
    let p = PostgresSqlGenerator.drop_index_text(table, name);
    assert(m[11] == '`');
    assert(p[11] == '"');
    let m = MySqlSqlGenerator.drop_foreign_key_text(table, name);
    let p = PostgresSqlGenerator.drop_foreign_key_text(table, name);
    assert(m[12] == '`');
    assert(p[12] == '"');
    let m = MySqlSqlGenerator.drop_unique_text(table, name);
    let p = PostgresSqlGenerator.drop_unique_text(table, name);
    assert(m[12] == '`');
    assert(p[12] == '"');
}

} // verus!
