//! The comparator. Objects are matched by name with a scan of the other
//! list; a name that occurs twice in one list resolves to its last
//! occurrence, as a name-keyed lookup filled in list order would.

use crate::db::traits::SqlGenerator;
use crate::models::diff::{DiffItem, DiffType};
use crate::models::schema::{
    find_last, last_named, opt_text, Column, ForeignKey, Index, Named, TableSchema,
    UniqueConstraint,
};
use crate::text::{decimal, decimal_string, join_plain, plain_list};
use vstd::prelude::*;

verus! {

/// What one diff item says, as plain values.
pub struct DiffEntry {
    pub diff_type: DiffType,
    pub table_name: Seq<char>,
    pub object_name: Option<Seq<char>>,
    pub source_def: Option<Seq<char>>,
    pub target_def: Option<Seq<char>>,
    pub sql: Seq<char>,
}

impl DiffItem {
    pub open spec fn entry(self) -> DiffEntry {
        DiffEntry {
            diff_type: self.diff_type,
            table_name: self.table_name@,
            object_name: opt_text(self.object_name),
            source_def: opt_text(self.source_def),
            target_def: opt_text(self.target_def),
            sql: self.sql@,
        }
    }
}

/// `items` carries `entries` in order, numbered from 1, all selected.
pub open spec fn items_match(items: Seq<DiffItem>, entries: Seq<DiffEntry>) -> bool {
    &&& items.len() == entries.len()
    &&& forall|k: int|
        0 <= k < items.len() ==> {
            &&& (#[trigger] items[k]).entry() == entries[k]
            &&& items[k].id@ == decimal((k + 1) as nat)
            &&& items[k].selected
        }
}

/// Walks `src` in order; each item contributes what `step` makes of it and of
/// its namesake in `other`, if there is one.
pub open spec fn forward<T: Named>(
    src: Seq<T>,
    other: Seq<T>,
    step: spec_fn(T, Option<T>) -> Seq<DiffEntry>,
) -> Seq<DiffEntry>
    decreases src.len(),
{
    if src.len() == 0 {
        Seq::empty()
    } else {
        forward(src.drop_last(), other, step) + step(src.last(), last_named(other, src.last().key()))
    }
}

/// The entry for each item that has no namesake.
pub open spec fn when_missing<T>(entry: spec_fn(T) -> DiffEntry) -> spec_fn(T, Option<T>) -> Seq<
    DiffEntry,
> {
    |x: T, o: Option<T>|
        if o is None {
            seq![entry(x)]
        } else {
            Seq::empty()
        }
}

pub open spec fn entry(
    diff_type: DiffType,
    table: Seq<char>,
    object: Option<Seq<char>>,
    source_def: Option<Seq<char>>,
    target_def: Option<Seq<char>>,
    sql: Seq<char>,
) -> DiffEntry {
    DiffEntry { diff_type, table_name: table, object_name: object, source_def, target_def, sql }
}

/// `"<n> columns"`
pub open spec fn column_count(t: TableSchema) -> Seq<char> {
    decimal(t.columns@.len()) + " columns"@
}

/// `"-> <referenced table>"`
pub open spec fn reference(fk: ForeignKey) -> Seq<char> {
    "-> "@ + fk.ref_table@
}

pub open spec fn table_added<G: SqlGenerator>(g: G) -> spec_fn(TableSchema) -> DiffEntry {
    |t: TableSchema|
        entry(
            DiffType::TableAdded,
            t.name@,
            None,
            Some(column_count(t)),
            None,
            g.create_table_text(t),
        )
}

pub open spec fn table_removed<G: SqlGenerator>(g: G) -> spec_fn(TableSchema) -> DiffEntry {
    |t: TableSchema|
        entry(
            DiffType::TableRemoved,
            t.name@,
            None,
            None,
            Some(column_count(t)),
            g.drop_table_text(t.name@),
        )
}

pub open spec fn column_step<G: SqlGenerator>(g: G, tn: Seq<char>) -> spec_fn(
    Column,
    Option<Column>,
) -> Seq<DiffEntry> {
    |c: Column, o: Option<Column>|
        match o {
            None => seq![
                entry(
                    DiffType::ColumnAdded,
                    tn,
                    Some(c.name@),
                    Some(c.data_type@),
                    None,
                    g.add_column_text(tn, c),
                ),
            ],
            Some(t) => if c.same(t) {
                Seq::empty()
            } else {
                seq![
                    entry(
                        DiffType::ColumnModified,
                        tn,
                        Some(c.name@),
                        Some(c.data_type@),
                        Some(t.data_type@),
                        g.modify_column_text(tn, c),
                    ),
                ]
            },
        }
}

pub open spec fn column_removed<G: SqlGenerator>(g: G, tn: Seq<char>) -> spec_fn(Column) -> DiffEntry {
    |c: Column|
        entry(
            DiffType::ColumnRemoved,
            tn,
            Some(c.name@),
            None,
            Some(c.data_type@),
            g.drop_column_text(tn, c.name@),
        )
}

pub open spec fn index_step<G: SqlGenerator>(g: G, tn: Seq<char>) -> spec_fn(
    Index,
    Option<Index>,
) -> Seq<DiffEntry> {
    |i: Index, o: Option<Index>|
        match o {
            None => seq![
                entry(
                    DiffType::IndexAdded,
                    tn,
                    Some(i.name@),
                    Some(plain_list(i.columns@)),
                    None,
                    g.add_index_text(tn, i),
                ),
            ],
            Some(t) => if i.same(t) {
                Seq::empty()
            } else {
                seq![
                    entry(
                        DiffType::IndexModified,
                        tn,
                        Some(i.name@),
                        Some(plain_list(i.columns@)),
                        Some(plain_list(t.columns@)),
                        g.drop_index_text(tn, i.name@) + "\n"@ + g.add_index_text(tn, i),
                    ),
                ]
            },
        }
}

pub open spec fn index_removed<G: SqlGenerator>(g: G, tn: Seq<char>) -> spec_fn(Index) -> DiffEntry {
    |i: Index|
        entry(
            DiffType::IndexRemoved,
            tn,
            Some(i.name@),
            None,
            Some(plain_list(i.columns@)),
            g.drop_index_text(tn, i.name@),
        )
}

pub open spec fn fk_step<G: SqlGenerator>(g: G, tn: Seq<char>) -> spec_fn(
    ForeignKey,
    Option<ForeignKey>,
) -> Seq<DiffEntry> {
    |f: ForeignKey, o: Option<ForeignKey>|
        match o {
            None => seq![
                entry(
                    DiffType::ForeignKeyAdded,
                    tn,
                    Some(f.name@),
                    Some(reference(f)),
                    None,
                    g.add_foreign_key_text(tn, f),
                ),
            ],
            Some(t) => if f.same(t) {
                Seq::empty()
            } else {
                seq![
                    entry(
                        DiffType::ForeignKeyModified,
                        tn,
                        Some(f.name@),
                        Some(reference(f)),
                        Some(reference(t)),
                        g.drop_foreign_key_text(tn, f.name@) + "\n"@ + g.add_foreign_key_text(tn, f),
                    ),
                ]
            },
        }
}

pub open spec fn fk_removed<G: SqlGenerator>(g: G, tn: Seq<char>) -> spec_fn(ForeignKey) -> DiffEntry {
    |f: ForeignKey|
        entry(
            DiffType::ForeignKeyRemoved,
            tn,
            Some(f.name@),
            None,
            Some(reference(f)),
            g.drop_foreign_key_text(tn, f.name@),
        )
}

pub open spec fn unique_step<G: SqlGenerator>(g: G, tn: Seq<char>) -> spec_fn(
    UniqueConstraint,
    Option<UniqueConstraint>,
) -> Seq<DiffEntry> {
    |u: UniqueConstraint, o: Option<UniqueConstraint>|
        match o {
            None => seq![
                entry(
                    DiffType::UniqueConstraintAdded,
                    tn,
                    Some(u.name@),
                    Some(plain_list(u.columns@)),
                    None,
                    g.add_unique_text(tn, u),
                ),
            ],
            Some(t) => if u.same(t) {
                Seq::empty()
            } else {
                seq![
                    entry(
                        DiffType::UniqueConstraintModified,
                        tn,
                        Some(u.name@),
                        Some(plain_list(u.columns@)),
                        Some(plain_list(t.columns@)),
                        g.drop_unique_text(tn, u.name@) + "\n"@ + g.add_unique_text(tn, u),
                    ),
                ]
            },
        }
}

pub open spec fn unique_removed<G: SqlGenerator>(g: G, tn: Seq<char>) -> spec_fn(
    UniqueConstraint,
) -> DiffEntry {
    |u: UniqueConstraint|
        entry(
            DiffType::UniqueConstraintRemoved,
            tn,
            Some(u.name@),
            None,
            Some(plain_list(u.columns@)),
            g.drop_unique_text(tn, u.name@),
        )
}

/// The diffs of two tables matched by name, all reported under the source
/// table's name: columns, indexes, foreign keys, unique constraints; within
/// each kind, added and modified in source order, then removed in target order.
pub open spec fn table_entries<G: SqlGenerator>(g: G, s: TableSchema, t: TableSchema) -> Seq<
    DiffEntry,
> {
    let tn = s.name@;
    forward(s.columns@, t.columns@, column_step(g, tn)) + forward(
        t.columns@,
        s.columns@,
        when_missing(column_removed(g, tn)),
    ) + forward(s.indexes@, t.indexes@, index_step(g, tn)) + forward(
        t.indexes@,
        s.indexes@,
        when_missing(index_removed(g, tn)),
    ) + forward(s.foreign_keys@, t.foreign_keys@, fk_step(g, tn)) + forward(
        t.foreign_keys@,
        s.foreign_keys@,
        when_missing(fk_removed(g, tn)),
    ) + forward(s.unique_constraints@, t.unique_constraints@, unique_step(g, tn)) + forward(
        t.unique_constraints@,
        s.unique_constraints@,
        when_missing(unique_removed(g, tn)),
    )
}

pub open spec fn matched_step<G: SqlGenerator>(g: G) -> spec_fn(
    TableSchema,
    Option<TableSchema>,
) -> Seq<DiffEntry> {
    |s: TableSchema, o: Option<TableSchema>|
        match o {
            Some(t) => table_entries(g, s, t),
            None => Seq::empty(),
        }
}

/// Everything the comparison reports, in order: added tables (source order),
/// removed tables (target order), then the diffs of each matched table
/// (source order).
pub open spec fn compare_entries<G: SqlGenerator>(
    g: G,
    source: Seq<TableSchema>,
    target: Seq<TableSchema>,
) -> Seq<DiffEntry> {
    forward(source, target, when_missing(table_added(g))) + forward(
        target,
        source,
        when_missing(table_removed(g)),
    ) + forward(source, target, matched_step(g))
}

pub proof fn lemma_forward_push<T: Named>(
    src: Seq<T>,
    other: Seq<T>,
    step: spec_fn(T, Option<T>) -> Seq<DiffEntry>,
    i: int,
)
    requires
        0 <= i < src.len(),
    ensures
        forward(src.subrange(0, i + 1), other, step) == forward(src.subrange(0, i), other, step)
            + step(src[i], last_named(other, src[i].key())),
{
    let next = src.subrange(0, i + 1);
    assert(next.drop_last() =~= src.subrange(0, i));
    assert(next.last() == src[i]);
}

pub proof fn lemma_forward_prefix_len<T: Named>(
    src: Seq<T>,
    other: Seq<T>,
    step: spec_fn(T, Option<T>) -> Seq<DiffEntry>,
    i: int,
)
    requires
        0 <= i <= src.len(),
    ensures
        forward(src.subrange(0, i), other, step).len() <= forward(src, other, step).len(),
    decreases src.len(),
{
    if i < src.len() {
        lemma_forward_prefix_len(src.drop_last(), other, step, i);
        assert(src.drop_last().subrange(0, i) =~= src.subrange(0, i));
    } else {
        assert(src.subrange(0, i) =~= src);
    }
}

pub proof fn lemma_forward_all<T: Named>(
    src: Seq<T>,
    other: Seq<T>,
    step: spec_fn(T, Option<T>) -> Seq<DiffEntry>,
)
    ensures
        forward(src.subrange(0, src.len() as int), other, step) == forward(src, other, step),
{
    assert(src.subrange(0, src.len() as int) =~= src);
}

/// Appends one item carrying `e`, numbered after those already there.
fn emit(
    diffs: &mut Vec<DiffItem>,
    Ghost(done): Ghost<Seq<DiffEntry>>,
    Ghost(e): Ghost<DiffEntry>,
    diff_type: DiffType,
    table_name: &String,
    object_name: Option<String>,
    source_def: Option<String>,
    target_def: Option<String>,
    sql: String,
)
    requires
        items_match(old(diffs)@, done),
        old(diffs)@.len() < usize::MAX,
        e == entry(
            diff_type,
            table_name@,
            opt_text(object_name),
            opt_text(source_def),
            opt_text(target_def),
            sql@,
        ),
    ensures
        items_match(final(diffs)@, done.push(e)),
{
    let n = diffs.len();
    let id = decimal_string((n + 1) as u64);
    let item = DiffItem {
        id,
        diff_type,
        table_name: table_name.clone(),
        object_name,
        source_def,
        target_def,
        sql,
        selected: true,
    };
    diffs.push(item);
    proof {
        let v = diffs@;
        let d = done.push(e);
        assert forall|k: int| 0 <= k < v.len() implies {
            &&& (#[trigger] v[k]).entry() == d[k]
            &&& v[k].id@ == decimal((k + 1) as nat)
            &&& v[k].selected
        } by {
            if k == n {
                assert(((n + 1) as u64) as nat == (k + 1) as nat);
            }
        }
    }
}

/// `"-> <referenced table>"`
fn reference_string(fk: &ForeignKey) -> (r: String)
    ensures
        r@ == reference(*fk),
{
    let mut out = String::new();
    out.append("-> ");
    out.append(fk.ref_table.as_str());
    out
}

/// Appends the diffs of two tables matched by name.
fn compare_tables<G: SqlGenerator>(
    source: &TableSchema,
    target: &TableSchema,
    sql_gen: &G,
    diffs: &mut Vec<DiffItem>,
    Ghost(done): Ghost<Seq<DiffEntry>>,
)
    requires
        items_match(old(diffs)@, done),
        done.len() + table_entries(*sql_gen, *source, *target).len() < usize::MAX,
    ensures
        items_match(final(diffs)@, done + table_entries(*sql_gen, *source, *target)),
{
    let tn = &source.name;
    let ghost g = *sql_gen;
    let ghost tns = source.name@;
    let ghost all = table_entries(g, *source, *target);
    let ghost base = done;
    let ghost whole = forward(source.columns@, target.columns@, column_step(g, tns));
    let mut i: usize = 0;
    while i < source.columns.len()
        invariant
            i <= source.columns@.len(),
            g == *sql_gen,
            tns == source.name@,
            tn@ == tns,
            items_match(diffs@, base + forward(source.columns@.subrange(0, i as int), target.columns@, column_step(g, tns))),
            base.len() + whole.len() < usize::MAX,
            whole == forward(source.columns@, target.columns@, column_step(g, tns)),
        decreases source.columns@.len() - i,
    {
        let x = &source.columns[i];
        let ghost pre = base + forward(source.columns@.subrange(0, i as int), target.columns@, column_step(g, tns));
        proof {
            lemma_forward_push(source.columns@, target.columns@, column_step(g, tns), i as int);
            lemma_forward_prefix_len(source.columns@, target.columns@, column_step(g, tns), i + 1);
        }
        let ghost post = base + forward(source.columns@.subrange(0, i + 1), target.columns@, column_step(g, tns));
        match find_last(target.columns.as_slice(), x.name.as_str()) {
            None => {
                let ghost e = column_step(g, tns)(*x, None)[0];
                emit(
                    diffs,
                    Ghost(pre),
                    Ghost(e),
                    DiffType::ColumnAdded,
                    tn,
                    Some(x.name.clone()),
                    Some(x.data_type.clone()),
                    None,
                    sql_gen.generate_add_column(tn.as_str(), x),
                );
                assert(pre.push(e) =~= post);
            },
            Some(j) => {
                let y = &target.columns[j];
                if x.eq(y) {
                    assert(pre =~= post);
                } else {
                    let sql = sql_gen.generate_modify_column(tn.as_str(), x);
                    let ghost e = column_step(g, tns)(*x, Some(*y))[0];
                    emit(
                        diffs,
                        Ghost(pre),
                        Ghost(e),
                        DiffType::ColumnModified,
                        tn,
                        Some(x.name.clone()),
                        Some(x.data_type.clone()),
                        Some(y.data_type.clone()),
                        sql,
                    );
                    assert(pre.push(e) =~= post);
                }
            },
        }
        i = i + 1;
    }
    proof {
        lemma_forward_all(source.columns@, target.columns@, column_step(g, tns));
    }
    let ghost base = base + whole;
    let ghost whole = forward(target.columns@, source.columns@, when_missing(column_removed(g, tns)));
    let mut i: usize = 0;
    while i < target.columns.len()
        invariant
            i <= target.columns@.len(),
            g == *sql_gen,
            tns == source.name@,
            tn@ == tns,
            items_match(diffs@, base + forward(target.columns@.subrange(0, i as int), source.columns@, when_missing(column_removed(g, tns)))),
            base.len() + whole.len() < usize::MAX,
            whole == forward(target.columns@, source.columns@, when_missing(column_removed(g, tns))),
        decreases target.columns@.len() - i,
    {
        let x = &target.columns[i];
        let ghost pre = base + forward(target.columns@.subrange(0, i as int), source.columns@, when_missing(column_removed(g, tns)));
        proof {
            lemma_forward_push(target.columns@, source.columns@, when_missing(column_removed(g, tns)), i as int);
            lemma_forward_prefix_len(target.columns@, source.columns@, when_missing(column_removed(g, tns)), i + 1);
        }
        let ghost post = base + forward(target.columns@.subrange(0, i + 1), source.columns@, when_missing(column_removed(g, tns)));
        match find_last(source.columns.as_slice(), x.name.as_str()) {
            None => {
                let ghost e = when_missing(column_removed(g, tns))(*x, None)[0];
                emit(
                    diffs,
                    Ghost(pre),
                    Ghost(e),
                    DiffType::ColumnRemoved,
                    tn,
                    Some(x.name.clone()),
                    None,
                    Some(x.data_type.clone()),
                    sql_gen.generate_drop_column(tn.as_str(), x.name.as_str()),
                );
                assert(pre.push(e) =~= post);
            },
            Some(_) => {
                assert(pre =~= post);
            },
        }
        i = i + 1;
    }
    proof {
        lemma_forward_all(target.columns@, source.columns@, when_missing(column_removed(g, tns)));
    }
    let ghost base = base + whole;
    let ghost whole = forward(source.indexes@, target.indexes@, index_step(g, tns));
    let mut i: usize = 0;
    while i < source.indexes.len()
        invariant
            i <= source.indexes@.len(),
            g == *sql_gen,
            tns == source.name@,
            tn@ == tns,
            items_match(diffs@, base + forward(source.indexes@.subrange(0, i as int), target.indexes@, index_step(g, tns))),
            base.len() + whole.len() < usize::MAX,
            whole == forward(source.indexes@, target.indexes@, index_step(g, tns)),
        decreases source.indexes@.len() - i,
    {
        let x = &source.indexes[i];
        let ghost pre = base + forward(source.indexes@.subrange(0, i as int), target.indexes@, index_step(g, tns));
        proof {
            lemma_forward_push(source.indexes@, target.indexes@, index_step(g, tns), i as int);
            lemma_forward_prefix_len(source.indexes@, target.indexes@, index_step(g, tns), i + 1);
        }
        let ghost post = base + forward(source.indexes@.subrange(0, i + 1), target.indexes@, index_step(g, tns));
        match find_last(target.indexes.as_slice(), x.name.as_str()) {
            None => {
                let ghost e = index_step(g, tns)(*x, None)[0];
                emit(
                    diffs,
                    Ghost(pre),
                    Ghost(e),
                    DiffType::IndexAdded,
                    tn,
                    Some(x.name.clone()),
                    Some(join_plain(&x.columns)),
                    None,
                    sql_gen.generate_add_index(tn.as_str(), x),
                );
                assert(pre.push(e) =~= post);
            },
            Some(j) => {
                let y = &target.indexes[j];
                if x.eq(y) {
                    assert(pre =~= post);
                } else {
                    let mut sql = sql_gen.generate_drop_index(tn.as_str(), x.name.as_str());
                    sql.append("\n");
                    let add = sql_gen.generate_add_index(tn.as_str(), x);
                    sql.append(add.as_str());
                    let ghost e = index_step(g, tns)(*x, Some(*y))[0];
                    emit(
                        diffs,
                        Ghost(pre),
                        Ghost(e),
                        DiffType::IndexModified,
                        tn,
                        Some(x.name.clone()),
                        Some(join_plain(&x.columns)),
                        Some(join_plain(&y.columns)),
                        sql,
                    );
                    assert(pre.push(e) =~= post);
                }
            },
        }
        i = i + 1;
    }
    proof {
        lemma_forward_all(source.indexes@, target.indexes@, index_step(g, tns));
    }
    let ghost base = base + whole;
    let ghost whole = forward(target.indexes@, source.indexes@, when_missing(index_removed(g, tns)));
    let mut i: usize = 0;
    while i < target.indexes.len()
        invariant
            i <= target.indexes@.len(),
            g == *sql_gen,
            tns == source.name@,
            tn@ == tns,
            items_match(diffs@, base + forward(target.indexes@.subrange(0, i as int), source.indexes@, when_missing(index_removed(g, tns)))),
            base.len() + whole.len() < usize::MAX,
            whole == forward(target.indexes@, source.indexes@, when_missing(index_removed(g, tns))),
        decreases target.indexes@.len() - i,
    {
        let x = &target.indexes[i];
        let ghost pre = base + forward(target.indexes@.subrange(0, i as int), source.indexes@, when_missing(index_removed(g, tns)));
        proof {
            lemma_forward_push(target.indexes@, source.indexes@, when_missing(index_removed(g, tns)), i as int);
            lemma_forward_prefix_len(target.indexes@, source.indexes@, when_missing(index_removed(g, tns)), i + 1);
        }
        let ghost post = base + forward(target.indexes@.subrange(0, i + 1), source.indexes@, when_missing(index_removed(g, tns)));
        match find_last(source.indexes.as_slice(), x.name.as_str()) {
            None => {
                let ghost e = when_missing(index_removed(g, tns))(*x, None)[0];
                emit(
                    diffs,
                    Ghost(pre),
                    Ghost(e),
                    DiffType::IndexRemoved,
                    tn,
                    Some(x.name.clone()),
                    None,
                    Some(join_plain(&x.columns)),
                    sql_gen.generate_drop_index(tn.as_str(), x.name.as_str()),
                );
                assert(pre.push(e) =~= post);
            },
            Some(_) => {
                assert(pre =~= post);
            },
        }
        i = i + 1;
    }
    proof {
        lemma_forward_all(target.indexes@, source.indexes@, when_missing(index_removed(g, tns)));
    }
    let ghost base = base + whole;
    let ghost whole = forward(source.foreign_keys@, target.foreign_keys@, fk_step(g, tns));
    let mut i: usize = 0;
    while i < source.foreign_keys.len()
        invariant
            i <= source.foreign_keys@.len(),
            g == *sql_gen,
            tns == source.name@,
            tn@ == tns,
            items_match(diffs@, base + forward(source.foreign_keys@.subrange(0, i as int), target.foreign_keys@, fk_step(g, tns))),
            base.len() + whole.len() < usize::MAX,
            whole == forward(source.foreign_keys@, target.foreign_keys@, fk_step(g, tns)),
        decreases source.foreign_keys@.len() - i,
    {
        let x = &source.foreign_keys[i];
        let ghost pre = base + forward(source.foreign_keys@.subrange(0, i as int), target.foreign_keys@, fk_step(g, tns));
        proof {
            lemma_forward_push(source.foreign_keys@, target.foreign_keys@, fk_step(g, tns), i as int);
            lemma_forward_prefix_len(source.foreign_keys@, target.foreign_keys@, fk_step(g, tns), i + 1);
        }
        let ghost post = base + forward(source.foreign_keys@.subrange(0, i + 1), target.foreign_keys@, fk_step(g, tns));
        match find_last(target.foreign_keys.as_slice(), x.name.as_str()) {
            None => {
                let ghost e = fk_step(g, tns)(*x, None)[0];
                emit(
                    diffs,
                    Ghost(pre),
                    Ghost(e),
                    DiffType::ForeignKeyAdded,
                    tn,
                    Some(x.name.clone()),
                    Some(reference_string(x)),
                    None,
                    sql_gen.generate_add_foreign_key(tn.as_str(), x),
                );
                assert(pre.push(e) =~= post);
            },
            Some(j) => {
                let y = &target.foreign_keys[j];
                if x.eq(y) {
                    assert(pre =~= post);
                } else {
                    let mut sql = sql_gen.generate_drop_foreign_key(tn.as_str(), x.name.as_str());
                    sql.append("\n");
                    let add = sql_gen.generate_add_foreign_key(tn.as_str(), x);
                    sql.append(add.as_str());
                    let ghost e = fk_step(g, tns)(*x, Some(*y))[0];
                    emit(
                        diffs,
                        Ghost(pre),
                        Ghost(e),
                        DiffType::ForeignKeyModified,
                        tn,
                        Some(x.name.clone()),
                        Some(reference_string(x)),
                        Some(reference_string(y)),
                        sql,
                    );
                    assert(pre.push(e) =~= post);
                }
            },
        }
        i = i + 1;
    }
    proof {
        lemma_forward_all(source.foreign_keys@, target.foreign_keys@, fk_step(g, tns));
    }
    let ghost base = base + whole;
    let ghost whole = forward(target.foreign_keys@, source.foreign_keys@, when_missing(fk_removed(g, tns)));
    let mut i: usize = 0;
    while i < target.foreign_keys.len()
        invariant
            i <= target.foreign_keys@.len(),
            g == *sql_gen,
            tns == source.name@,
            tn@ == tns,
            items_match(diffs@, base + forward(target.foreign_keys@.subrange(0, i as int), source.foreign_keys@, when_missing(fk_removed(g, tns)))),
            base.len() + whole.len() < usize::MAX,
            whole == forward(target.foreign_keys@, source.foreign_keys@, when_missing(fk_removed(g, tns))),
        decreases target.foreign_keys@.len() - i,
    {
        let x = &target.foreign_keys[i];
        let ghost pre = base + forward(target.foreign_keys@.subrange(0, i as int), source.foreign_keys@, when_missing(fk_removed(g, tns)));
        proof {
            lemma_forward_push(target.foreign_keys@, source.foreign_keys@, when_missing(fk_removed(g, tns)), i as int);
            lemma_forward_prefix_len(target.foreign_keys@, source.foreign_keys@, when_missing(fk_removed(g, tns)), i + 1);
        }
        let ghost post = base + forward(target.foreign_keys@.subrange(0, i + 1), source.foreign_keys@, when_missing(fk_removed(g, tns)));
        match find_last(source.foreign_keys.as_slice(), x.name.as_str()) {
            None => {
                let ghost e = when_missing(fk_removed(g, tns))(*x, None)[0];
                emit(
                    diffs,
                    Ghost(pre),
                    Ghost(e),
                    DiffType::ForeignKeyRemoved,
                    tn,
                    Some(x.name.clone()),
                    None,
                    Some(reference_string(x)),
                    sql_gen.generate_drop_foreign_key(tn.as_str(), x.name.as_str()),
                );
                assert(pre.push(e) =~= post);
            },
            Some(_) => {
                assert(pre =~= post);
            },
        }
        i = i + 1;
    }
    proof {
        lemma_forward_all(target.foreign_keys@, source.foreign_keys@, when_missing(fk_removed(g, tns)));
    }
    let ghost base = base + whole;
    let ghost whole = forward(source.unique_constraints@, target.unique_constraints@, unique_step(g, tns));
    let mut i: usize = 0;
    while i < source.unique_constraints.len()
        invariant
            i <= source.unique_constraints@.len(),
            g == *sql_gen,
            tns == source.name@,
            tn@ == tns,
            items_match(diffs@, base + forward(source.unique_constraints@.subrange(0, i as int), target.unique_constraints@, unique_step(g, tns))),
            base.len() + whole.len() < usize::MAX,
            whole == forward(source.unique_constraints@, target.unique_constraints@, unique_step(g, tns)),
        decreases source.unique_constraints@.len() - i,
    {
        let x = &source.unique_constraints[i];
        let ghost pre = base + forward(source.unique_constraints@.subrange(0, i as int), target.unique_constraints@, unique_step(g, tns));
        proof {
            lemma_forward_push(source.unique_constraints@, target.unique_constraints@, unique_step(g, tns), i as int);
            lemma_forward_prefix_len(source.unique_constraints@, target.unique_constraints@, unique_step(g, tns), i + 1);
        }
        let ghost post = base + forward(source.unique_constraints@.subrange(0, i + 1), target.unique_constraints@, unique_step(g, tns));
        match find_last(target.unique_constraints.as_slice(), x.name.as_str()) {
            None => {
                let ghost e = unique_step(g, tns)(*x, None)[0];
                emit(
                    diffs,
                    Ghost(pre),
                    Ghost(e),
                    DiffType::UniqueConstraintAdded,
                    tn,
                    Some(x.name.clone()),
                    Some(join_plain(&x.columns)),
                    None,
                    sql_gen.generate_add_unique(tn.as_str(), x),
                );
                assert(pre.push(e) =~= post);
            },
            Some(j) => {
                let y = &target.unique_constraints[j];
                if x.eq(y) {
                    assert(pre =~= post);
                } else {
                    let mut sql = sql_gen.generate_drop_unique(tn.as_str(), x.name.as_str());
                    sql.append("\n");
                    let add = sql_gen.generate_add_unique(tn.as_str(), x);
                    sql.append(add.as_str());
                    let ghost e = unique_step(g, tns)(*x, Some(*y))[0];
                    emit(
                        diffs,
                        Ghost(pre),
                        Ghost(e),
                        DiffType::UniqueConstraintModified,
                        tn,
                        Some(x.name.clone()),
                        Some(join_plain(&x.columns)),
                        Some(join_plain(&y.columns)),
                        sql,
                    );
                    assert(pre.push(e) =~= post);
                }
            },
        }
        i = i + 1;
    }
    proof {
        lemma_forward_all(source.unique_constraints@, target.unique_constraints@, unique_step(g, tns));
    }
    let ghost base = base + whole;
    let ghost whole = forward(target.unique_constraints@, source.unique_constraints@, when_missing(unique_removed(g, tns)));
    let mut i: usize = 0;
    while i < target.unique_constraints.len()
        invariant
            i <= target.unique_constraints@.len(),
            g == *sql_gen,
            tns == source.name@,
            tn@ == tns,
            items_match(diffs@, base + forward(target.unique_constraints@.subrange(0, i as int), source.unique_constraints@, when_missing(unique_removed(g, tns)))),
            base.len() + whole.len() < usize::MAX,
            whole == forward(target.unique_constraints@, source.unique_constraints@, when_missing(unique_removed(g, tns))),
        decreases target.unique_constraints@.len() - i,
    {
        let x = &target.unique_constraints[i];
        let ghost pre = base + forward(target.unique_constraints@.subrange(0, i as int), source.unique_constraints@, when_missing(unique_removed(g, tns)));
        proof {
            lemma_forward_push(target.unique_constraints@, source.unique_constraints@, when_missing(unique_removed(g, tns)), i as int);
            lemma_forward_prefix_len(target.unique_constraints@, source.unique_constraints@, when_missing(unique_removed(g, tns)), i + 1);
        }
        let ghost post = base + forward(target.unique_constraints@.subrange(0, i + 1), source.unique_constraints@, when_missing(unique_removed(g, tns)));
        match find_last(source.unique_constraints.as_slice(), x.name.as_str()) {
            None => {
                let ghost e = when_missing(unique_removed(g, tns))(*x, None)[0];
                emit(
                    diffs,
                    Ghost(pre),
                    Ghost(e),
                    DiffType::UniqueConstraintRemoved,
                    tn,
                    Some(x.name.clone()),
                    None,
                    Some(join_plain(&x.columns)),
                    sql_gen.generate_drop_unique(tn.as_str(), x.name.as_str()),
                );
                assert(pre.push(e) =~= post);
            },
            Some(_) => {
                assert(pre =~= post);
            },
        }
        i = i + 1;
    }
    proof {
        lemma_forward_all(target.unique_constraints@, source.unique_constraints@, when_missing(unique_removed(g, tns)));
    }
    let ghost base = base + whole;
    assert(base =~= done + all);
}

/// `"<n> columns"`
fn column_count_string(t: &TableSchema) -> (r: String)
    ensures
        r@ == column_count(*t),
{
    let mut out = decimal_string(t.columns.len() as u64);
    out.append(" columns");
    out
}

/// Compares two schema snapshots and lists, in order, the changes that turn
/// `target` into `source`, each with SQL from `sql_gen`: tables only in
/// `source`, tables only in `target`, then the differences inside each table
/// that both hold. Items are numbered from 1 and all selected.
pub fn compare_schemas<G: SqlGenerator>(
    source: &[TableSchema],
    target: &[TableSchema],
    sql_gen: &G,
) -> (r: Vec<DiffItem>)
    requires
        compare_entries(*sql_gen, source@, target@).len() < usize::MAX,
    ensures
        items_match(r@, compare_entries(*sql_gen, source@, target@)),
{
    let mut diffs: Vec<DiffItem> = Vec::new();
    let ghost g = *sql_gen;
    let ghost all = compare_entries(g, source@, target@);
    let ghost base = Seq::<DiffEntry>::empty();
    assert(items_match(diffs@, base));

    let ghost whole = forward(source@, target@, when_missing(table_added(g)));
    let mut i: usize = 0;
    while i < source.len()
        invariant
            i <= source@.len(),
            g == *sql_gen,
            items_match(diffs@, base + forward(source@.subrange(0, i as int), target@, when_missing(table_added(g)))),
            base.len() + whole.len() < usize::MAX,
            whole == forward(source@, target@, when_missing(table_added(g))),
        decreases source@.len() - i,
    {
        let t = &source[i];
        let ghost pre = base + forward(source@.subrange(0, i as int), target@, when_missing(table_added(g)));
        proof {
            lemma_forward_push(source@, target@, when_missing(table_added(g)), i as int);
            lemma_forward_prefix_len(source@, target@, when_missing(table_added(g)), i + 1);
        }
        let ghost post = base + forward(source@.subrange(0, i + 1), target@, when_missing(table_added(g)));
        match find_last(target, t.name.as_str()) {
            None => {
                let ghost e = table_added(g)(*t);
                emit(
                    &mut diffs,
                    Ghost(pre),
                    Ghost(e),
                    DiffType::TableAdded,
                    &t.name,
                    None,
                    Some(column_count_string(t)),
                    None,
                    sql_gen.generate_create_table(t),
                );
                assert(pre.push(e) =~= post);
            },
            Some(_) => {
                assert(pre =~= post);
            },
        }
        i = i + 1;
    }
    proof {
        lemma_forward_all(source@, target@, when_missing(table_added(g)));
    }
    let ghost base = base + whole;

    let ghost whole = forward(target@, source@, when_missing(table_removed(g)));
    let mut i: usize = 0;
    while i < target.len()
        invariant
            i <= target@.len(),
            g == *sql_gen,
            items_match(diffs@, base + forward(target@.subrange(0, i as int), source@, when_missing(table_removed(g)))),
            base.len() + whole.len() < usize::MAX,
            whole == forward(target@, source@, when_missing(table_removed(g))),
        decreases target@.len() - i,
    {
        let t = &target[i];
        let ghost pre = base + forward(target@.subrange(0, i as int), source@, when_missing(table_removed(g)));
        proof {
            lemma_forward_push(target@, source@, when_missing(table_removed(g)), i as int);
            lemma_forward_prefix_len(target@, source@, when_missing(table_removed(g)), i + 1);
        }
        let ghost post = base + forward(target@.subrange(0, i + 1), source@, when_missing(table_removed(g)));
        match find_last(source, t.name.as_str()) {
            None => {
                let ghost e = table_removed(g)(*t);
                emit(
                    &mut diffs,
                    Ghost(pre),
                    Ghost(e),
                    DiffType::TableRemoved,
                    &t.name,
                    None,
                    None,
                    Some(column_count_string(t)),
                    sql_gen.generate_drop_table(t.name.as_str()),
                );
                assert(pre.push(e) =~= post);
            },
            Some(_) => {
                assert(pre =~= post);
            },
        }
        i = i + 1;
    }
    proof {
        lemma_forward_all(target@, source@, when_missing(table_removed(g)));
    }
    let ghost base = base + whole;

    let ghost whole = forward(source@, target@, matched_step(g));
    let mut i: usize = 0;
    while i < source.len()
        invariant
            i <= source@.len(),
            g == *sql_gen,
            items_match(diffs@, base + forward(source@.subrange(0, i as int), target@, matched_step(g))),
            base.len() + whole.len() < usize::MAX,
            whole == forward(source@, target@, matched_step(g)),
        decreases source@.len() - i,
    {
        let s = &source[i];
        let ghost pre = base + forward(source@.subrange(0, i as int), target@, matched_step(g));
        proof {
            lemma_forward_push(source@, target@, matched_step(g), i as int);
            lemma_forward_prefix_len(source@, target@, matched_step(g), i + 1);
        }
        let ghost post = base + forward(source@.subrange(0, i + 1), target@, matched_step(g));
        match find_last(target, s.name.as_str()) {
            Some(j) => {
                compare_tables(s, &target[j], sql_gen, &mut diffs, Ghost(pre));
                assert(pre + table_entries(g, *s, target@[j as int]) =~= post);
            },
            None => {
                assert(pre =~= post);
            },
        }
        i = i + 1;
    }
    proof {
        lemma_forward_all(source@, target@, matched_step(g));
        assert(base + whole =~= all);
    }
    diffs
}

} // verus!
