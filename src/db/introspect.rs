//! Shaping the rows that catalog queries return into schema objects. The
//! queries themselves run outside the library; rows arrive in query order.

use crate::models::schema::{
    opt_text, texts, Column, ForeignKey, Index, Named, PrimaryKey, UniqueConstraint,
};
use crate::text::same_text;
use vstd::prelude::*;

verus! {

/// Whether `n` occurs in `h` as a contiguous run.
pub open spec fn has_infix(h: Seq<char>, n: Seq<char>) -> bool {
    exists|i: int| 0 <= i && i + n.len() <= h.len() && #[trigger] h.subrange(i, i + n.len()) == n
}

/// Whether `s` begins with `p`.
pub open spec fn has_prefix(s: Seq<char>, p: Seq<char>) -> bool {
    p.len() <= s.len() && s.subrange(0, p.len() as int) == p
}

pub fn contains_text(h: &str, n: &str) -> (r: bool)
    ensures
        r == has_infix(h@, n@),
{
    let hl = h.unicode_len();
    let nl = n.unicode_len();
    if nl > hl {
        return false;
    }
    if nl == 0 {
        assert(h@.subrange(0int, 0int + n@.len()) =~= n@);
        assert(has_infix(h@, n@));
        return true;
    }
    let mut i: usize = 0;
    while i <= hl - nl
        invariant
            hl == h@.len(),
            nl == n@.len(),
            1 <= nl <= hl,
            i <= hl - nl + 1,
            forall|j: int| 0 <= j < i ==> #[trigger] h@.subrange(j, j + nl) != n@,
        decreases hl - nl + 1 - i,
    {
        if same_text(h.substring_char(i, i + nl), n) {
            assert(h@.subrange(i as int, i + n@.len()) == n@);
            return true;
        }
        i = i + 1;
    }
    false
}

pub fn starts_with_text(s: &str, p: &str) -> (r: bool)
    ensures
        r == has_prefix(s@, p@),
{
    let sl = s.unicode_len();
    let pl = p.unicode_len();
    if pl > sl {
        return false;
    }
    same_text(s.substring_char(0, pl), p)
}

/// A MySQL column row: name, column type, `IS_NULLABLE`, default, `EXTRA`,
/// comment and position. `auto_increment` in `EXTRA` marks an
/// auto-increment column; an empty comment counts as none.
pub fn mysql_column(
    name: String,
    data_type: String,
    is_nullable: &str,
    default_value: Option<String>,
    extra: &str,
    comment: Option<String>,
    ordinal_position: u32,
) -> (r: Column)
    ensures
        r.name == name,
        r.data_type == data_type,
        r.nullable == (is_nullable@ == "YES"@),
        r.default_value == default_value,
        r.auto_increment == has_infix(extra@, "auto_increment"@),
        r.comment == (match comment {
            Some(c) => if c@.len() == 0 {
                None
            } else {
                Some(c)
            },
            None => None,
        }),
        r.ordinal_position == ordinal_position,
{
    let comment = match comment {
        Some(c) => if c.as_str().unicode_len() == 0 {
            None
        } else {
            Some(c)
        },
        None => None,
    };
    Column {
        name,
        data_type,
        nullable: same_text(is_nullable, "YES"),
        default_value,
        auto_increment: contains_text(extra, "auto_increment"),
        comment,
        ordinal_position,
    }
}

/// A PostgreSQL column row: name, type, `is_nullable`, default and position.
/// A default drawn from a sequence (`nextval(...)`) marks an auto-increment
/// column and is not kept as a default.
pub fn pg_column(
    name: String,
    data_type: String,
    is_nullable: &str,
    default_value: Option<String>,
    ordinal_position: i32,
) -> (r: Column)
    ensures
        r.name == name,
        r.data_type == data_type,
        r.nullable == (is_nullable@ == "YES"@),
        r.auto_increment == (match default_value {
            Some(d) => has_prefix(d@, "nextval("@),
            None => false,
        }),
        r.default_value == (if r.auto_increment {
            None
        } else {
            default_value
        }),
        r.comment is None,
        r.ordinal_position == ordinal_position as u32,
{
    let auto_increment = match &default_value {
        Some(d) => starts_with_text(d.as_str(), "nextval("),
        None => false,
    };
    Column {
        name,
        data_type,
        nullable: same_text(is_nullable, "YES"),
        default_value: if auto_increment {
            None
        } else {
            default_value
        },
        auto_increment,
        comment: None,
        ordinal_position: ordinal_position as u32,
    }
}

/// A row naming one column of a named key.
#[derive(Debug, Clone)]
pub struct KeyColumnRow {
    pub name: String,
    pub column: String,
}

/// A row naming one column of an index.
#[derive(Debug, Clone)]
pub struct IndexRow {
    pub name: String,
    pub unique: bool,
    pub column: String,
    pub index_type: String,
}

/// A row naming one column pair of a foreign key.
#[derive(Debug, Clone)]
pub struct ForeignKeyRow {
    pub name: String,
    pub column: String,
    pub ref_table: String,
    pub ref_column: String,
    pub on_delete: String,
    pub on_update: String,
}

impl IndexRow {
    /// A MySQL statistics row, which gives `NON_UNIQUE` rather than uniqueness.
    pub fn from_mysql(name: String, non_unique: i32, column: String, index_type: String) -> (r:
        IndexRow)
        ensures
            r.name == name,
            r.unique == (non_unique == 0),
            r.column == column,
            r.index_type == index_type,
    {
        IndexRow { name, unique: non_unique == 0, column, index_type }
    }
}

impl Named for KeyColumnRow {
    open spec fn key(&self) -> Seq<char> {
        self.name@
    }

    fn name_str(&self) -> (r: &str) {
        self.name.as_str()
    }
}

impl Named for IndexRow {
    open spec fn key(&self) -> Seq<char> {
        self.name@
    }

    fn name_str(&self) -> (r: &str) {
        self.name.as_str()
    }
}

impl Named for ForeignKeyRow {
    open spec fn key(&self) -> Seq<char> {
        self.name@
    }

    fn name_str(&self) -> (r: &str) {
        self.name.as_str()
    }
}

/// The distinct names of `rows`, in the order they first occur.
pub open spec fn first_seen<T: Named>(rows: Seq<T>) -> Seq<Seq<char>>
    decreases rows.len(),
{
    if rows.len() == 0 {
        Seq::empty()
    } else {
        let pre = first_seen(rows.drop_last());
        if pre.contains(rows.last().key()) {
            pre
        } else {
            pre.push(rows.last().key())
        }
    }
}

/// The first row named `k`.
pub open spec fn first_row<T: Named>(rows: Seq<T>, k: Seq<char>) -> Option<T>
    decreases rows.len(),
{
    if rows.len() == 0 {
        None
    } else {
        match first_row(rows.drop_last(), k) {
            Some(x) => Some(x),
            None => if rows.last().key() == k {
                Some(rows.last())
            } else {
                None
            },
        }
    }
}

/// What `f` reads from each row named `k`, in row order.
pub open spec fn picked<T: Named>(rows: Seq<T>, k: Seq<char>, f: spec_fn(T) -> Seq<char>) -> Seq<
    Seq<char>,
>
    decreases rows.len(),
{
    if rows.len() == 0 {
        Seq::empty()
    } else {
        let pre = picked(rows.drop_last(), k, f);
        if rows.last().key() == k {
            pre.push(f(rows.last()))
        } else {
            pre
        }
    }
}

pub open spec fn key_column() -> spec_fn(KeyColumnRow) -> Seq<char> {
    |r: KeyColumnRow| r.column@
}

pub open spec fn index_column() -> spec_fn(IndexRow) -> Seq<char> {
    |r: IndexRow| r.column@
}

pub open spec fn fk_column() -> spec_fn(ForeignKeyRow) -> Seq<char> {
    |r: ForeignKeyRow| r.column@
}

pub open spec fn fk_ref_column() -> spec_fn(ForeignKeyRow) -> Seq<char> {
    |r: ForeignKeyRow| r.ref_column@
}

pub proof fn lemma_first_seen_has_row<T: Named>(rows: Seq<T>, m: int)
    requires
        0 <= m < first_seen(rows).len(),
    ensures
        first_row(rows, first_seen(rows)[m]) matches Some(x) && x.key() == first_seen(rows)[m],
    decreases rows.len(),
{
    let dl = rows.drop_last();
    let pre = first_seen(dl);
    let n = first_seen(rows)[m];
    if m < pre.len() {
        lemma_first_seen_has_row(dl, m);
        assert(n == pre[m]);
    } else {
        lemma_first_row_key(dl, n);
    }
}

pub proof fn lemma_first_row_key<T: Named>(rows: Seq<T>, k: Seq<char>)
    ensures
        first_row(rows, k) matches Some(x) ==> x.key() == k,
    decreases rows.len(),
{
    if rows.len() > 0 {
        lemma_first_row_key(rows.drop_last(), k);
    }
}

fn contains_name(names: &Vec<String>, k: &str) -> (r: bool)
    ensures
        r == texts(names@).contains(k@),
{
    let mut i: usize = 0;
    while i < names.len()
        invariant
            i <= names@.len(),
            forall|j: int| 0 <= j < i ==> #[trigger] names@[j]@ != k@,
        decreases names@.len() - i,
    {
        if same_text(names[i].as_str(), k) {
            assert(texts(names@)[i as int] == k@);
            return true;
        }
        i = i + 1;
    }
    assert forall|j: int| 0 <= j < texts(names@).len() implies texts(names@)[j] != k@ by {
        assert(texts(names@)[j] == names@[j]@);
    }
    false
}

/// The distinct names of `rows`, in the order they first occur.
fn distinct_names<T: Named>(rows: &Vec<T>) -> (r: Vec<String>)
    ensures
        texts(r@) == first_seen(rows@),
{
    let mut names: Vec<String> = Vec::new();
    let mut i: usize = 0;
    while i < rows.len()
        invariant
            i <= rows@.len(),
            texts(names@) == first_seen(rows@.subrange(0, i as int)),
        decreases rows@.len() - i,
    {
        let n = rows[i].name_str();
        let ghost next = rows@.subrange(0, i + 1);
        assert(next.drop_last() =~= rows@.subrange(0, i as int));
        if !contains_name(&names, n) {
            let s = String::from_str(n);
            proof {
                crate::db::ddl::lemma_texts_push(names@, s);
            }
            names.push(s);
        }
        i = i + 1;
    }
    assert(rows@.subrange(0, rows@.len() as int) =~= rows@);
    names
}

/// The position of the first row named `k`.
fn find_first<T: Named>(rows: &Vec<T>, k: &str) -> (r: Option<usize>)
    ensures
        match r {
            None => first_row(rows@, k@) is None,
            Some(j) => j < rows@.len() && first_row(rows@, k@) == Some(rows@[j as int]),
        },
{
    let mut i: usize = 0;
    while i < rows.len()
        invariant
            i <= rows@.len(),
            first_row(rows@.subrange(0, i as int), k@) is None,
        decreases rows@.len() - i,
    {
        let ghost next = rows@.subrange(0, i + 1);
        assert(next.drop_last() =~= rows@.subrange(0, i as int));
        if same_text(rows[i].name_str(), k) {
            proof {
                assert(next.last() == rows@[i as int]);
                assert(first_row(next, k@) == Some(rows@[i as int]));
                lemma_first_row_prefix(rows@, i + 1, k@);
            }
            return Some(i);
        }
        i = i + 1;
    }
    assert(rows@.subrange(0, rows@.len() as int) =~= rows@);
    None
}

/// Once a prefix holds a row named `k`, longer prefixes agree on the first.
proof fn lemma_first_row_prefix<T: Named>(rows: Seq<T>, i: int, k: Seq<char>)
    requires
        0 <= i <= rows.len(),
        first_row(rows.subrange(0, i), k) is Some,
    ensures
        first_row(rows, k) == first_row(rows.subrange(0, i), k),
    decreases rows.len() - i,
{
    if i < rows.len() {
        let next = rows.subrange(0, i + 1);
        assert(next.drop_last() =~= rows.subrange(0, i));
        lemma_first_row_prefix(rows, i + 1, k);
    } else {
        assert(rows.subrange(0, i) =~= rows);
    }
}

/// The column of each row named `k`, in row order.
fn key_columns_named(rows: &Vec<KeyColumnRow>, k: &str) -> (r: Vec<String>)
    ensures
        texts(r@) == picked(rows@, k@, key_column()),
{
    let mut cols: Vec<String> = Vec::new();
    let mut i: usize = 0;
    while i < rows.len()
        invariant
            i <= rows@.len(),
            texts(cols@) == picked(rows@.subrange(0, i as int), k@, key_column()),
        decreases rows@.len() - i,
    {
        let ghost next = rows@.subrange(0, i + 1);
        assert(next.drop_last() =~= rows@.subrange(0, i as int));
        if same_text(rows[i].name.as_str(), k) {
            let c = rows[i].column.clone();
            proof {
                crate::db::ddl::lemma_texts_push(cols@, c);
            }
            cols.push(c);
        }
        i = i + 1;
    }
    assert(rows@.subrange(0, rows@.len() as int) =~= rows@);
    cols
}

fn index_columns_named(rows: &Vec<IndexRow>, k: &str) -> (r: Vec<String>)
    ensures
        texts(r@) == picked(rows@, k@, index_column()),
{
    let mut cols: Vec<String> = Vec::new();
    let mut i: usize = 0;
    while i < rows.len()
        invariant
            i <= rows@.len(),
            texts(cols@) == picked(rows@.subrange(0, i as int), k@, index_column()),
        decreases rows@.len() - i,
    {
        let ghost next = rows@.subrange(0, i + 1);
        assert(next.drop_last() =~= rows@.subrange(0, i as int));
        if same_text(rows[i].name.as_str(), k) {
            let c = rows[i].column.clone();
            proof {
                crate::db::ddl::lemma_texts_push(cols@, c);
            }
            cols.push(c);
        }
        i = i + 1;
    }
    assert(rows@.subrange(0, rows@.len() as int) =~= rows@);
    cols
}

fn fk_columns_named(rows: &Vec<ForeignKeyRow>, k: &str) -> (r: (Vec<String>, Vec<String>))
    ensures
        texts(r.0@) == picked(rows@, k@, fk_column()),
        texts(r.1@) == picked(rows@, k@, fk_ref_column()),
{
    let mut cols: Vec<String> = Vec::new();
    let mut refs: Vec<String> = Vec::new();
    let mut i: usize = 0;
    while i < rows.len()
        invariant
            i <= rows@.len(),
            texts(cols@) == picked(rows@.subrange(0, i as int), k@, fk_column()),
            texts(refs@) == picked(rows@.subrange(0, i as int), k@, fk_ref_column()),
        decreases rows@.len() - i,
    {
        let ghost next = rows@.subrange(0, i + 1);
        assert(next.drop_last() =~= rows@.subrange(0, i as int));
        if same_text(rows[i].name.as_str(), k) {
            let c = rows[i].column.clone();
            let rc = rows[i].ref_column.clone();
            proof {
                crate::db::ddl::lemma_texts_push(cols@, c);
                crate::db::ddl::lemma_texts_push(refs@, rc);
            }
            cols.push(c);
            refs.push(rc);
        }
        i = i + 1;
    }
    assert(rows@.subrange(0, rows@.len() as int) =~= rows@);
    (cols, refs)
}

/// The unique constraints that `rows` describe: one per name, in the order
/// names first occur, each with its columns in row order.
pub fn group_unique_rows(rows: &Vec<KeyColumnRow>) -> (r: Vec<UniqueConstraint>)
    ensures
        r@.len() == first_seen(rows@).len(),
        forall|m: int|
            0 <= m < r@.len() ==> #[trigger] r@[m].name@ == first_seen(rows@)[m] && texts(
                r@[m].columns@,
            ) == picked(rows@, first_seen(rows@)[m], key_column()),
{
    let names = distinct_names(rows);
    let mut out: Vec<UniqueConstraint> = Vec::new();
    let mut m: usize = 0;
    while m < names.len()
        invariant
            m <= names@.len(),
            out@.len() == m,
            texts(names@) == first_seen(rows@),
            forall|q: int|
                0 <= q < m ==> #[trigger] out@[q].name@ == first_seen(rows@)[q] && texts(
                    out@[q].columns@,
                ) == picked(rows@, first_seen(rows@)[q], key_column()),
        decreases names@.len() - m,
    {
        assert(names@[m as int]@ == texts(names@)[m as int]);
        let columns = key_columns_named(rows, names[m].as_str());
        out.push(UniqueConstraint { name: names[m].clone(), columns });
        m = m + 1;
    }
    out
}

/// The indexes that `rows` describe: one per name, in the order names first
/// occur, each with its columns in row order and its uniqueness and type
/// from its first row.
pub fn group_index_rows(rows: &Vec<IndexRow>) -> (r: Vec<Index>)
    ensures
        r@.len() == first_seen(rows@).len(),
        forall|m: int|
            0 <= m < r@.len() ==> {
                &&& #[trigger] r@[m].name@ == first_seen(rows@)[m]
                &&& texts(r@[m].columns@) == picked(rows@, first_seen(rows@)[m], index_column())
                &&& first_row(rows@, first_seen(rows@)[m]) matches Some(f) && r@[m].unique
                    == f.unique && r@[m].index_type@ == f.index_type@
            },
{
    let names = distinct_names(rows);
    let mut out: Vec<Index> = Vec::new();
    let mut m: usize = 0;
    while m < names.len()
        invariant
            m <= names@.len(),
            out@.len() == m,
            texts(names@) == first_seen(rows@),
            forall|q: int|
                0 <= q < m ==> {
                    &&& #[trigger] out@[q].name@ == first_seen(rows@)[q]
                    &&& texts(out@[q].columns@) == picked(
                        rows@,
                        first_seen(rows@)[q],
                        index_column(),
                    )
                    &&& first_row(rows@, first_seen(rows@)[q]) matches Some(f) && out@[q].unique
                        == f.unique && out@[q].index_type@ == f.index_type@
                },
        decreases names@.len() - m,
    {
        assert(names@[m as int]@ == texts(names@)[m as int]);
        proof {
            lemma_first_seen_has_row(rows@, m as int);
        }
        let j = match find_first(rows, names[m].as_str()) {
            Some(j) => j,
            None => {
                assert(false);
                0
            },
        };
        let columns = index_columns_named(rows, names[m].as_str());
        out.push(
            Index {
                name: names[m].clone(),
                columns,
                unique: rows[j].unique,
                index_type: rows[j].index_type.clone(),
            },
        );
        m = m + 1;
    }
    out
}

/// The foreign keys that `rows` describe: one per name, in the order names
/// first occur, each with its column pairs in row order and its referenced
/// table and actions from its first row.
pub fn group_foreign_key_rows(rows: &Vec<ForeignKeyRow>) -> (r: Vec<ForeignKey>)
    ensures
        r@.len() == first_seen(rows@).len(),
        forall|m: int|
            0 <= m < r@.len() ==> {
                &&& #[trigger] r@[m].name@ == first_seen(rows@)[m]
                &&& texts(r@[m].columns@) == picked(rows@, first_seen(rows@)[m], fk_column())
                &&& texts(r@[m].ref_columns@) == picked(rows@, first_seen(rows@)[m], fk_ref_column())
                &&& first_row(rows@, first_seen(rows@)[m]) matches Some(f) && r@[m].ref_table@
                    == f.ref_table@ && r@[m].on_delete@ == f.on_delete@ && r@[m].on_update@
                    == f.on_update@
            },
{
    let names = distinct_names(rows);
    let mut out: Vec<ForeignKey> = Vec::new();
    let mut m: usize = 0;
    while m < names.len()
        invariant
            m <= names@.len(),
            out@.len() == m,
            texts(names@) == first_seen(rows@),
            forall|q: int|
                0 <= q < m ==> {
                    &&& #[trigger] out@[q].name@ == first_seen(rows@)[q]
                    &&& texts(out@[q].columns@) == picked(rows@, first_seen(rows@)[q], fk_column())
                    &&& texts(out@[q].ref_columns@) == picked(
                        rows@,
                        first_seen(rows@)[q],
                        fk_ref_column(),
                    )
                    &&& first_row(rows@, first_seen(rows@)[q]) matches Some(f)
                        && out@[q].ref_table@ == f.ref_table@ && out@[q].on_delete@ == f.on_delete@
                        && out@[q].on_update@ == f.on_update@
                },
        decreases names@.len() - m,
    {
        assert(names@[m as int]@ == texts(names@)[m as int]);
        proof {
            lemma_first_seen_has_row(rows@, m as int);
        }
        let j = match find_first(rows, names[m].as_str()) {
            Some(j) => j,
            None => {
                assert(false);
                0
            },
        };
        let (columns, ref_columns) = fk_columns_named(rows, names[m].as_str());
        out.push(
            ForeignKey {
                name: names[m].clone(),
                columns,
                ref_table: rows[j].ref_table.clone(),
                ref_columns,
                on_delete: rows[j].on_delete.clone(),
                on_update: rows[j].on_update.clone(),
            },
        );
        m = m + 1;
    }
    out
}

/// The columns of the rows, in row order.
fn row_columns(rows: &Vec<KeyColumnRow>) -> (r: Vec<String>)
    ensures
        texts(r@) == rows@.map_values(|x: KeyColumnRow| x.column@),
{
    let mut cols: Vec<String> = Vec::new();
    let mut i: usize = 0;
    while i < rows.len()
        invariant
            i <= rows@.len(),
            texts(cols@) =~= rows@.subrange(0, i as int).map_values(|x: KeyColumnRow| x.column@),
        decreases rows@.len() - i,
    {
        let c = rows[i].column.clone();
        proof {
            crate::db::ddl::lemma_texts_push(cols@, c);
            assert(rows@.subrange(0, i + 1).map_values(|x: KeyColumnRow| x.column@)
                =~= rows@.subrange(0, i as int).map_values(|x: KeyColumnRow| x.column@).push(c@));
        }
        cols.push(c);
        i = i + 1;
    }
    assert(rows@.subrange(0, rows@.len() as int) =~= rows@);
    cols
}

/// MySQL's primary key, from its key-column rows in key order: none without
/// rows, else the key named `PRIMARY` over the rows' columns.
pub fn mysql_primary_key(rows: &Vec<KeyColumnRow>) -> (r: Option<PrimaryKey>)
    ensures
        rows@.len() == 0 <==> r is None,
        r matches Some(pk) ==> opt_text(pk.name) == Some("PRIMARY"@) && texts(pk.columns@)
            == rows@.map_values(|x: KeyColumnRow| x.column@),
{
    if rows.len() == 0 {
        return None;
    }
    Some(PrimaryKey { name: Some(String::from_str("PRIMARY")), columns: row_columns(rows) })
}

/// PostgreSQL's primary key, from its key-column rows in key order: none
/// without rows, else the key named as the first row's constraint over the
/// rows' columns.
pub fn pg_primary_key(rows: &Vec<KeyColumnRow>) -> (r: Option<PrimaryKey>)
    ensures
        rows@.len() == 0 <==> r is None,
        r matches Some(pk) ==> opt_text(pk.name) == Some(rows@[0].name@) && texts(pk.columns@)
            == rows@.map_values(|x: KeyColumnRow| x.column@),
{
    if rows.len() == 0 {
        return None;
    }
    Some(PrimaryKey { name: Some(rows[0].name.clone()), columns: row_columns(rows) })
}

} // verus!
