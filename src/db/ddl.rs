//! DDL text shared by the dialects, parameterized by the identifier delimiter.

use crate::models::schema::{ForeignKey, Index, PrimaryKey, UniqueConstraint};
use crate::text::{append_quoted, append_quoted_list, double_char, push_char, quote_with, quoted_list};
use vstd::prelude::*;

verus! {

/// The texts joined by `",\n"`.
pub open spec fn join_lines(parts: Seq<Seq<char>>) -> Seq<char>
    decreases parts.len(),
{
    if parts.len() == 0 {
        Seq::empty()
    } else if parts.len() == 1 {
        parts[0]
    } else {
        join_lines(parts.drop_last()) + ",\n"@ + parts.last()
    }
}

/// `" DEFAULT <value>"`, the value verbatim, or nothing.
pub open spec fn default_clause(d: Option<String>) -> Seq<char> {
    match d {
        Some(v) => " DEFAULT "@ + v@,
        None => Seq::empty(),
    }
}

/// `" COMMENT '<text>'"` with single quotes doubled, or nothing.
pub open spec fn comment_clause(c: Option<String>) -> Seq<char> {
    match c {
        Some(v) => " COMMENT '"@ + double_char(v@, '\'') + "'"@,
        None => Seq::empty(),
    }
}

pub open spec fn index_kind(unique: bool) -> Seq<char> {
    if unique {
        "UNIQUE INDEX"@
    } else {
        "INDEX"@
    }
}

pub open spec fn drop_table_sql(q: char, name: Seq<char>) -> Seq<char> {
    "DROP TABLE "@ + quote_with(q, name) + ";"@
}

/// `ALTER TABLE <table><action><name>;`
pub open spec fn alter_drop_sql(q: char, table: Seq<char>, action: Seq<char>, name: Seq<char>) -> Seq<char> {
    "ALTER TABLE "@ + quote_with(q, table) + action + quote_with(q, name) + ";"@
}

pub open spec fn add_index_sql(q: char, table: Seq<char>, idx: Index) -> Seq<char> {
    "CREATE "@ + index_kind(idx.unique) + " "@ + quote_with(q, idx.name@) + " ON "@ + quote_with(q, table)
        + " ("@ + quoted_list(q, idx.columns@) + ");"@
}

/// `CONSTRAINT ... FOREIGN KEY (...) REFERENCES ... (...) ON DELETE ... ON UPDATE ...`
pub open spec fn fk_body(q: char, fk: ForeignKey) -> Seq<char> {
    "CONSTRAINT "@ + quote_with(q, fk.name@) + " FOREIGN KEY ("@ + quoted_list(q, fk.columns@)
        + ") REFERENCES "@ + quote_with(q, fk.ref_table@) + " ("@ + quoted_list(q, fk.ref_columns@)
        + ") ON DELETE "@ + fk.on_delete@ + " ON UPDATE "@ + fk.on_update@
}

/// `CONSTRAINT ... UNIQUE (...)`
pub open spec fn unique_body(q: char, uc: UniqueConstraint) -> Seq<char> {
    "CONSTRAINT "@ + quote_with(q, uc.name@) + " UNIQUE ("@ + quoted_list(q, uc.columns@) + ")"@
}

pub open spec fn add_fk_sql(q: char, table: Seq<char>, fk: ForeignKey) -> Seq<char> {
    "ALTER TABLE "@ + quote_with(q, table) + " ADD "@ + fk_body(q, fk) + ";"@
}

pub open spec fn add_unique_sql(q: char, table: Seq<char>, uc: UniqueConstraint) -> Seq<char> {
    "ALTER TABLE "@ + quote_with(q, table) + " ADD "@ + unique_body(q, uc) + ";"@
}

/// The table-body lines for the primary key: none or one.
pub open spec fn pk_lines(q: char, pk: Option<PrimaryKey>) -> Seq<Seq<char>> {
    match pk {
        Some(p) => seq!["  PRIMARY KEY ("@ + quoted_list(q, p.columns@) + ")"@],
        None => Seq::empty(),
    }
}

pub open spec fn unique_line(q: char, uc: UniqueConstraint) -> Seq<char> {
    "  "@ + unique_body(q, uc)
}

pub open spec fn fk_line(q: char, fk: ForeignKey) -> Seq<char> {
    "  "@ + fk_body(q, fk)
}

pub proof fn lemma_texts_push(v: Seq<String>, s: String)
    ensures
        v.push(s).map_values(|x: String| x@) =~= v.map_values(|x: String| x@).push(s@),
{
}

/// Joins the texts of `parts` with `",\n"`.
pub fn join_parts(parts: &Vec<String>) -> (r: String)
    ensures
        r@ == join_lines(parts@.map_values(|s: String| s@)),
{
    let mut out = String::new();
    let mut i: usize = 0;
    while i < parts.len()
        invariant
            i <= parts@.len(),
            out@ == join_lines(parts@.subrange(0, i as int).map_values(|s: String| s@)),
        decreases parts@.len() - i,
    {
        if i > 0 {
            out.append(",\n");
        }
        out.append(parts[i].as_str());
        proof {
            let pre = parts@.subrange(0, i as int).map_values(|s: String| s@);
            let next = parts@.subrange(0, i + 1).map_values(|s: String| s@);
            assert(next.drop_last() =~= pre);
            assert(next.last() == parts@[i as int]@);
            assert(out@ =~= join_lines(next));
        }
        i = i + 1;
    }
    proof {
        assert(parts@.subrange(0, parts@.len() as int) =~= parts@);
    }
    out
}

pub fn append_default(out: &mut String, d: &Option<String>)
    ensures
        final(out)@ == old(out)@ + default_clause(*d),
{
    match d {
        Some(v) => {
            out.append(" DEFAULT ");
            out.append(v.as_str());
        },
        None => {
            assert(old(out)@ =~= old(out)@ + default_clause(*d));
        },
    }
}

pub fn append_comment(out: &mut String, c: &Option<String>)
    ensures
        final(out)@ == old(out)@ + comment_clause(*c),
{
    match c {
        Some(v) => {
            let ghost start = out@;
            out.append(" COMMENT '");
            let n = v.as_str().unicode_len();
            let mut i: usize = 0;
            while i < n
                invariant
                    n == v@.len(),
                    i <= n,
                    out@ == start + " COMMENT '"@ + double_char(v@.subrange(0, i as int), '\''),
                decreases n - i,
            {
                let ch = v.as_str().get_char(i);
                push_char(out, ch);
                if ch == '\'' {
                    push_char(out, ch);
                }
                proof {
                    let next = v@.subrange(0, i + 1);
                    assert(next.drop_last() =~= v@.subrange(0, i as int));
                    assert(next.last() == ch);
                }
                i = i + 1;
            }
            out.append("'");
            proof {
                assert(v@.subrange(0, n as int) =~= v@);
                assert(out@ =~= start + comment_clause(*c));
            }
        },
        None => {
            assert(old(out)@ =~= old(out)@ + comment_clause(*c));
        },
    }
}

pub fn append_index_kind(out: &mut String, unique: bool)
    ensures
        final(out)@ == old(out)@ + index_kind(unique),
{
    if unique {
        out.append("UNIQUE INDEX");
    } else {
        out.append("INDEX");
    }
}

pub fn drop_table(q: char, name: &str) -> (r: String)
    ensures
        r@ == drop_table_sql(q, name@),
{
    let mut out = String::new();
    out.append("DROP TABLE ");
    append_quoted(&mut out, q, name);
    out.append(";");
    proof {
        assert(out@ =~= drop_table_sql(q, name@));
    }
    out
}

pub fn alter_drop(q: char, table: &str, action: &str, name: &str) -> (r: String)
    ensures
        r@ == alter_drop_sql(q, table@, action@, name@),
{
    let mut out = String::new();
    out.append("ALTER TABLE ");
    append_quoted(&mut out, q, table);
    out.append(action);
    append_quoted(&mut out, q, name);
    out.append(";");
    proof {
        assert(out@ =~= alter_drop_sql(q, table@, action@, name@));
    }
    out
}

pub fn add_index(q: char, table: &str, idx: &Index) -> (r: String)
    ensures
        r@ == add_index_sql(q, table@, *idx),
{
    let mut out = String::new();
    out.append("CREATE ");
    append_index_kind(&mut out, idx.unique);
    out.append(" ");
    append_quoted(&mut out, q, idx.name.as_str());
    out.append(" ON ");
    append_quoted(&mut out, q, table);
    out.append(" (");
    append_quoted_list(&mut out, q, &idx.columns);
    out.append(");");
    proof {
        assert(out@ =~= add_index_sql(q, table@, *idx));
    }
    out
}

pub fn append_fk_body(out: &mut String, q: char, fk: &ForeignKey)
    ensures
        final(out)@ == old(out)@ + fk_body(q, *fk),
{
    let ghost start = out@;
    out.append("CONSTRAINT ");
    append_quoted(out, q, fk.name.as_str());
    out.append(" FOREIGN KEY (");
    append_quoted_list(out, q, &fk.columns);
    out.append(") REFERENCES ");
    append_quoted(out, q, fk.ref_table.as_str());
    out.append(" (");
    append_quoted_list(out, q, &fk.ref_columns);
    out.append(") ON DELETE ");
    out.append(fk.on_delete.as_str());
    out.append(" ON UPDATE ");
    out.append(fk.on_update.as_str());
    proof {
        assert(out@ =~= start + fk_body(q, *fk));
    }
}

pub fn append_unique_body(out: &mut String, q: char, uc: &UniqueConstraint)
    ensures
        final(out)@ == old(out)@ + unique_body(q, *uc),
{
    let ghost start = out@;
    out.append("CONSTRAINT ");
    append_quoted(out, q, uc.name.as_str());
    out.append(" UNIQUE (");
    append_quoted_list(out, q, &uc.columns);
    out.append(")");
    proof {
        assert(out@ =~= start + unique_body(q, *uc));
    }
}

pub fn add_fk(q: char, table: &str, fk: &ForeignKey) -> (r: String)
    ensures
        r@ == add_fk_sql(q, table@, *fk),
{
    let mut out = String::new();
    out.append("ALTER TABLE ");
    append_quoted(&mut out, q, table);
    out.append(" ADD ");
    append_fk_body(&mut out, q, fk);
    out.append(";");
    proof {
        assert(out@ =~= add_fk_sql(q, table@, *fk));
    }
    out
}

pub fn add_unique(q: char, table: &str, uc: &UniqueConstraint) -> (r: String)
    ensures
        r@ == add_unique_sql(q, table@, *uc),
{
    let mut out = String::new();
    out.append("ALTER TABLE ");
    append_quoted(&mut out, q, table);
    out.append(" ADD ");
    append_unique_body(&mut out, q, uc);
    out.append(";");
    proof {
        assert(out@ =~= add_unique_sql(q, table@, *uc));
    }
    out
}

pub fn pk_line(q: char, pk: &PrimaryKey) -> (r: String)
    ensures
        seq![r@] == pk_lines(q, Some(*pk)),
{
    let mut out = String::new();
    out.append("  PRIMARY KEY (");
    append_quoted_list(&mut out, q, &pk.columns);
    out.append(")");
    proof {
        assert(out@ =~= "  PRIMARY KEY ("@ + quoted_list(q, pk.columns@) + ")"@);
    }
    out
}

pub fn unique_line_string(q: char, uc: &UniqueConstraint) -> (r: String)
    ensures
        r@ == unique_line(q, *uc),
{
    let mut out = String::new();
    out.append("  ");
    append_unique_body(&mut out, q, uc);
    out
}

pub fn fk_line_string(q: char, fk: &ForeignKey) -> (r: String)
    ensures
        r@ == fk_line(q, *fk),
{
    let mut out = String::new();
    out.append("  ");
    append_fk_body(&mut out, q, fk);
    out
}

} // verus!
