//! What holds of every comparison, stated over the entry lists that
//! `compare_schemas` is specified by.

use crate::db::traits::SqlGenerator;
use crate::diff::comparator::{
    column_removed, column_step, fk_removed, fk_step, forward, index_removed, index_step,
    compare_entries, items_match, matched_step, table_added, table_entries, table_removed, unique_removed,
    unique_step, when_missing, DiffEntry,
};
use crate::models::diff::{DiffItem, DiffType};
use crate::text::{decimal, digit_of};
use crate::models::schema::{
    last_named, same_columns, same_foreign_keys, same_indexes, same_uniques, unique_keys,
    well_formed_snapshot, Named, TableSchema,
};
use vstd::prelude::*;

verus! {

/// How many entries of `es` satisfy `p`.
pub open spec fn count(es: Seq<DiffEntry>, p: spec_fn(DiffEntry) -> bool) -> nat
    decreases es.len(),
{
    if es.len() == 0 {
        0
    } else {
        count(es.drop_last(), p) + if p(es.last()) {
            1nat
        } else {
            0nat
        }
    }
}

pub proof fn lemma_count_concat(a: Seq<DiffEntry>, b: Seq<DiffEntry>, p: spec_fn(DiffEntry) -> bool)
    ensures
        count(a + b, p) == count(a, p) + count(b, p),
    decreases b.len(),
{
    if b.len() == 0 {
        assert(a + b =~= a);
    } else {
        lemma_count_concat(a, b.drop_last(), p);
        assert((a + b).drop_last() =~= a + b.drop_last());
    }
}

pub proof fn lemma_count_none(es: Seq<DiffEntry>, p: spec_fn(DiffEntry) -> bool)
    requires
        forall|k: int| 0 <= k < es.len() ==> !p(#[trigger] es[k]),
    ensures
        count(es, p) == 0,
    decreases es.len(),
{
    if es.len() > 0 {
        lemma_count_none(es.drop_last(), p);
    }
}

pub proof fn lemma_count_single(e: DiffEntry, p: spec_fn(DiffEntry) -> bool)
    ensures
        count(seq![e], p) == if p(e) {
            1nat
        } else {
            0nat
        },
{
    assert(seq![e].drop_last() =~= Seq::<DiffEntry>::empty());
    assert(count(Seq::<DiffEntry>::empty(), p) == 0);
    assert(seq![e].last() == e);
}

pub proof fn lemma_count_true(es: Seq<DiffEntry>)
    ensures
        count(es, |e: DiffEntry| true) == es.len(),
    decreases es.len(),
{
    if es.len() > 0 {
        lemma_count_true(es.drop_last());
    }
}

/// The only item of `src` that can contribute entries satisfying `p` is the
/// one at `i` (if `i` is a position at all).
pub proof fn lemma_forward_count<T: Named>(
    src: Seq<T>,
    other: Seq<T>,
    step: spec_fn(T, Option<T>) -> Seq<DiffEntry>,
    p: spec_fn(DiffEntry) -> bool,
    i: int,
)
    requires
        forall|j: int|
            0 <= j < src.len() && j != i ==> count(
                step(#[trigger] src[j], last_named(other, src[j].key())),
                p,
            ) == 0,
    ensures
        count(forward(src, other, step), p) == if 0 <= i < src.len() {
            count(step(src[i], last_named(other, src[i].key())), p)
        } else {
            0
        },
    decreases src.len(),
{
    if src.len() > 0 {
        let dl = src.drop_last();
        assert forall|j: int| 0 <= j < dl.len() && j != i implies count(
            step(#[trigger] dl[j], last_named(other, dl[j].key())),
            p,
        ) == 0 by {
            assert(dl[j] == src[j]);
        }
        lemma_forward_count(dl, other, step, p, i);
        lemma_count_concat(
            forward(dl, other, step),
            step(src.last(), last_named(other, src.last().key())),
            p,
        );
        if 0 <= i < dl.len() {
            assert(dl[i] == src[i]);
        }
    }
}

/// No step ever yields an entry satisfying `p`.
pub proof fn lemma_forward_count_zero<T: Named>(
    src: Seq<T>,
    other: Seq<T>,
    step: spec_fn(T, Option<T>) -> Seq<DiffEntry>,
    p: spec_fn(DiffEntry) -> bool,
)
    requires
        forall|x: T, o: Option<T>, k: int|
            0 <= k < step(x, o).len() ==> !p(#[trigger] step(x, o)[k]),
    ensures
        count(forward(src, other, step), p) == 0,
{
    assert forall|j: int| 0 <= j < src.len() && j != -1 implies count(
        step(#[trigger] src[j], last_named(other, src[j].key())),
        p,
    ) == 0 by {
        lemma_count_none(step(src[j], last_named(other, src[j].key())), p);
    }
    lemma_forward_count(src, other, step, p, -1);
}

/// In a list without repeated names, each item is the last of its name.
pub proof fn lemma_last_named_unique<T: Named>(s: Seq<T>, i: int)
    requires
        unique_keys(s),
        0 <= i < s.len(),
    ensures
        last_named(s, s[i].key()) == Some(s[i]),
    decreases s.len(),
{
    if i < s.len() - 1 {
        let dl = s.drop_last();
        assert(s.last() == s[s.len() - 1]);
        assert(unique_keys(dl)) by {
            assert forall|a: int, b: int|
                0 <= a < dl.len() && 0 <= b < dl.len() && a != b implies #[trigger] dl[a].key()
                != #[trigger] dl[b].key() by {
                assert(dl[a] == s[a] && dl[b] == s[b]);
            }
        }
        lemma_last_named_unique(dl, i);
    }
}

/// A table-level kind of change.
pub open spec fn is_table_level(t: DiffType) -> bool {
    t == DiffType::TableAdded || t == DiffType::TableRemoved
}

/// No entry about table `s` below the table level satisfies `p`: then no
/// entry of the reconciliation of `s` with `t` does.
pub proof fn lemma_table_entries_count_zero<G: SqlGenerator>(
    g: G,
    s: TableSchema,
    t: TableSchema,
    p: spec_fn(DiffEntry) -> bool,
)
    requires
        forall|e: DiffEntry|
            e.table_name == s.name@ && !is_table_level(e.diff_type) ==> !#[trigger] p(e),
    ensures
        count(table_entries(g, s, t), p) == 0,
{
    let tn = s.name@;
    let f1 = forward(s.columns@, t.columns@, column_step(g, tn));
    let f2 = forward(t.columns@, s.columns@, when_missing(column_removed(g, tn)));
    let f3 = forward(s.indexes@, t.indexes@, index_step(g, tn));
    let f4 = forward(t.indexes@, s.indexes@, when_missing(index_removed(g, tn)));
    let f5 = forward(s.foreign_keys@, t.foreign_keys@, fk_step(g, tn));
    let f6 = forward(t.foreign_keys@, s.foreign_keys@, when_missing(fk_removed(g, tn)));
    let f7 = forward(s.unique_constraints@, t.unique_constraints@, unique_step(g, tn));
    let f8 = forward(
        t.unique_constraints@,
        s.unique_constraints@,
        when_missing(unique_removed(g, tn)),
    );
    lemma_forward_count_zero(s.columns@, t.columns@, column_step(g, tn), p);
    lemma_forward_count_zero(t.columns@, s.columns@, when_missing(column_removed(g, tn)), p);
    lemma_forward_count_zero(s.indexes@, t.indexes@, index_step(g, tn), p);
    lemma_forward_count_zero(t.indexes@, s.indexes@, when_missing(index_removed(g, tn)), p);
    lemma_forward_count_zero(s.foreign_keys@, t.foreign_keys@, fk_step(g, tn), p);
    lemma_forward_count_zero(t.foreign_keys@, s.foreign_keys@, when_missing(fk_removed(g, tn)), p);
    lemma_forward_count_zero(s.unique_constraints@, t.unique_constraints@, unique_step(g, tn), p);
    lemma_forward_count_zero(
        t.unique_constraints@,
        s.unique_constraints@,
        when_missing(unique_removed(g, tn)),
        p,
    );
    lemma_count_concat(f1, f2, p);
    lemma_count_concat(f1 + f2, f3, p);
    lemma_count_concat(f1 + f2 + f3, f4, p);
    lemma_count_concat(f1 + f2 + f3 + f4, f5, p);
    lemma_count_concat(f1 + f2 + f3 + f4 + f5, f6, p);
    lemma_count_concat(f1 + f2 + f3 + f4 + f5 + f6, f7, p);
    lemma_count_concat(f1 + f2 + f3 + f4 + f5 + f6 + f7, f8, p);
}

/// Walking two lists that pair up position by position, name by name, yields
/// nothing when no pair yields anything.
pub proof fn lemma_forward_aligned_empty<T: Named>(
    src: Seq<T>,
    other: Seq<T>,
    step: spec_fn(T, Option<T>) -> Seq<DiffEntry>,
)
    requires
        src.len() == other.len(),
        unique_keys(other),
        forall|j: int| 0 <= j < src.len() ==> (#[trigger] src[j]).key() == other[j].key(),
        forall|j: int| 0 <= j < src.len() ==> step(#[trigger] src[j], Some(other[j])).len() == 0,
    ensures
        forward(src, other, step).len() == 0,
{
    let p = |e: DiffEntry| true;
    assert forall|j: int| 0 <= j < src.len() && j != -1 implies count(
        step(#[trigger] src[j], last_named(other, src[j].key())),
        p,
    ) == 0 by {
        lemma_last_named_unique(other, j);
        lemma_count_true(step(src[j], last_named(other, src[j].key())));
    }
    lemma_forward_count(src, other, step, p, -1);
    lemma_count_true(forward(src, other, step));
}

/// Reconciling two tables that agree field by field reports nothing.
pub proof fn lemma_same_table_no_diff<G: SqlGenerator>(g: G, s: TableSchema, t: TableSchema)
    requires
        s.same(t),
        s.well_formed(),
        t.well_formed(),
    ensures
        table_entries(g, s, t).len() == 0,
{
    let tn = s.name@;
    let (sc, tc) = (s.columns@, t.columns@);
    let (si, ti) = (s.indexes@, t.indexes@);
    let (sf, tf) = (s.foreign_keys@, t.foreign_keys@);
    let (su, tu) = (s.unique_constraints@, t.unique_constraints@);
    assert(same_columns(sc, tc) && same_indexes(si, ti) && same_foreign_keys(sf, tf) && same_uniques(su, tu));
    assert forall|j: int| 0 <= j < sc.len() implies (#[trigger] sc[j]).key() == tc[j].key() && tc[j].key() == sc[j].key() by {
        assert(sc[j].same(tc[j]));
    }
    assert forall|j: int| 0 <= j < si.len() implies (#[trigger] si[j]).key() == ti[j].key() && ti[j].key() == si[j].key() by {
        assert(si[j].same(ti[j]));
    }
    assert forall|j: int| 0 <= j < sf.len() implies (#[trigger] sf[j]).key() == tf[j].key() && tf[j].key() == sf[j].key() by {
        assert(sf[j].same(tf[j]));
    }
    assert forall|j: int| 0 <= j < su.len() implies (#[trigger] su[j]).key() == tu[j].key() && tu[j].key() == su[j].key() by {
        assert(su[j].same(tu[j]));
    }
    assert forall|j: int| 0 <= j < tc.len() implies (#[trigger] tc[j]).key() == sc[j].key() by {
        assert(sc[j].same(tc[j]));
    }
    assert forall|j: int| 0 <= j < ti.len() implies (#[trigger] ti[j]).key() == si[j].key() by {
        assert(si[j].same(ti[j]));
    }
    assert forall|j: int| 0 <= j < tf.len() implies (#[trigger] tf[j]).key() == sf[j].key() by {
        assert(sf[j].same(tf[j]));
    }
    assert forall|j: int| 0 <= j < tu.len() implies (#[trigger] tu[j]).key() == su[j].key() by {
        assert(su[j].same(tu[j]));
    }
    assert(unique_keys(tc)) by {
        assert forall|a: int, b: int| 0 <= a < tc.len() && 0 <= b < tc.len() && a != b implies #[trigger] tc[a].key() != #[trigger] tc[b].key() by {
            assert(sc[a].same(tc[a]) && sc[b].same(tc[b]));
        }
    }
    assert forall|j: int| 0 <= j < sc.len() implies column_step(g, tn)(#[trigger] sc[j], Some(tc[j])).len() == 0 by {
        assert(sc[j].same(tc[j]));
    }
    assert forall|j: int| 0 <= j < si.len() implies index_step(g, tn)(#[trigger] si[j], Some(ti[j])).len() == 0 by {
        assert(si[j].same(ti[j]));
    }
    assert forall|j: int| 0 <= j < sf.len() implies fk_step(g, tn)(#[trigger] sf[j], Some(tf[j])).len() == 0 by {
        assert(sf[j].same(tf[j]));
    }
    assert forall|j: int| 0 <= j < su.len() implies unique_step(g, tn)(#[trigger] su[j], Some(tu[j])).len() == 0 by {
        assert(su[j].same(tu[j]));
    }
    lemma_forward_aligned_empty(sc, tc, column_step(g, tn));
    lemma_forward_aligned_empty(tc, sc, when_missing(column_removed(g, tn)));
    lemma_forward_aligned_empty(si, ti, index_step(g, tn));
    lemma_forward_aligned_empty(ti, si, when_missing(index_removed(g, tn)));
    lemma_forward_aligned_empty(sf, tf, fk_step(g, tn));
    lemma_forward_aligned_empty(tf, sf, when_missing(fk_removed(g, tn)));
    lemma_forward_aligned_empty(su, tu, unique_step(g, tn));
    lemma_forward_aligned_empty(tu, su, when_missing(unique_removed(g, tn)));
}

/// Two snapshots that agree table by table, field by field.
pub open spec fn same_snapshot(s: Seq<TableSchema>, t: Seq<TableSchema>) -> bool {
    s.len() == t.len() && forall|i: int| 0 <= i < s.len() ==> (#[trigger] s[i]).same(t[i])
}

/// Comparing two structurally identical snapshots, each without repeated
/// names, reports no difference at all.
pub proof fn lemma_identical_snapshots_no_diff<G: SqlGenerator>(
    g: G,
    source: Seq<TableSchema>,
    target: Seq<TableSchema>,
)
    requires
        well_formed_snapshot(source),
        well_formed_snapshot(target),
        same_snapshot(source, target),
    ensures
        compare_entries(g, source, target).len() == 0,
{
    assert forall|j: int| 0 <= j < source.len() implies (#[trigger] source[j]).key() == target[j].key() by {
        assert(source[j].same(target[j]));
    }
    assert forall|j: int| 0 <= j < target.len() implies (#[trigger] target[j]).key() == source[j].key() by {
        assert(source[j].same(target[j]));
    }
    assert forall|j: int| 0 <= j < source.len() implies matched_step(g)(#[trigger] source[j], Some(target[j])).len() == 0 by {
        assert(source[j].same(target[j]));
        lemma_same_table_no_diff(g, source[j], target[j]);
    }
    lemma_forward_aligned_empty(source, target, when_missing(table_added(g)));
    lemma_forward_aligned_empty(target, source, when_missing(table_removed(g)));
    lemma_forward_aligned_empty(source, target, matched_step(g));
}

/// Entries of kind `t` about object `object` of table `table`.
pub open spec fn about(t: DiffType, table: Seq<char>, object: Seq<char>) -> spec_fn(DiffEntry) -> bool {
    |e: DiffEntry| e.diff_type == t && e.table_name == table && e.object_name == Some(object)
}

/// Entries of kind `t` about table `table` itself.
pub open spec fn about_table(t: DiffType, table: Seq<char>) -> spec_fn(DiffEntry) -> bool {
    |e: DiffEntry| e.diff_type == t && e.table_name == table && e.object_name is None
}

/// Those entries of `p` whose SQL is `sql`.
pub open spec fn with_sql(p: spec_fn(DiffEntry) -> bool, sql: Seq<char>) -> spec_fn(DiffEntry) -> bool {
    |e: DiffEntry| p(e) && e.sql == sql
}

/// A count over a table's reconciliation is the sum over its eight parts.
pub proof fn lemma_table_entries_count<G: SqlGenerator>(
    g: G,
    s: TableSchema,
    t: TableSchema,
    p: spec_fn(DiffEntry) -> bool,
)
    ensures
        count(table_entries(g, s, t), p) == count(forward(s.columns@, t.columns@, column_step(g, s.name@)), p)
            + count(forward(t.columns@, s.columns@, when_missing(column_removed(g, s.name@))), p)
            + count(forward(s.indexes@, t.indexes@, index_step(g, s.name@)), p)
            + count(forward(t.indexes@, s.indexes@, when_missing(index_removed(g, s.name@))), p)
            + count(forward(s.foreign_keys@, t.foreign_keys@, fk_step(g, s.name@)), p)
            + count(forward(t.foreign_keys@, s.foreign_keys@, when_missing(fk_removed(g, s.name@))), p)
            + count(forward(s.unique_constraints@, t.unique_constraints@, unique_step(g, s.name@)), p)
            + count(forward(t.unique_constraints@, s.unique_constraints@, when_missing(unique_removed(g, s.name@))), p),
{
    let tn = s.name@;
    let f1 = forward(s.columns@, t.columns@, column_step(g, tn));
    let f2 = forward(t.columns@, s.columns@, when_missing(column_removed(g, tn)));
    let f3 = forward(s.indexes@, t.indexes@, index_step(g, tn));
    let f4 = forward(t.indexes@, s.indexes@, when_missing(index_removed(g, tn)));
    let f5 = forward(s.foreign_keys@, t.foreign_keys@, fk_step(g, tn));
    let f6 = forward(t.foreign_keys@, s.foreign_keys@, when_missing(fk_removed(g, tn)));
    let f7 = forward(s.unique_constraints@, t.unique_constraints@, unique_step(g, tn));
    let f8 = forward(t.unique_constraints@, s.unique_constraints@, when_missing(unique_removed(g, tn)));
    lemma_count_concat(f1, f2, p);
    lemma_count_concat(f1 + f2, f3, p);
    lemma_count_concat(f1 + f2 + f3, f4, p);
    lemma_count_concat(f1 + f2 + f3 + f4, f5, p);
    lemma_count_concat(f1 + f2 + f3 + f4 + f5, f6, p);
    lemma_count_concat(f1 + f2 + f3 + f4 + f5 + f6, f7, p);
    lemma_count_concat(f1 + f2 + f3 + f4 + f5 + f6 + f7, f8, p);
}

/// A count over a whole comparison is the sum over its three parts.
pub proof fn lemma_compare_entries_count<G: SqlGenerator>(
    g: G,
    source: Seq<TableSchema>,
    target: Seq<TableSchema>,
    p: spec_fn(DiffEntry) -> bool,
)
    ensures
        count(compare_entries(g, source, target), p) == count(forward(source, target, when_missing(table_added(g))), p)
            + count(forward(target, source, when_missing(table_removed(g))), p)
            + count(forward(source, target, matched_step(g)), p),
{
    let a = forward(source, target, when_missing(table_added(g)));
    let r = forward(target, source, when_missing(table_removed(g)));
    let m = forward(source, target, matched_step(g));
    lemma_count_concat(a, r, p);
    lemma_count_concat(a + r, m, p);
}

/// A table that only the source holds is reported exactly once as added,
/// and that report carries the dialect's `CREATE TABLE` text for it.
pub proof fn lemma_table_added_once<G: SqlGenerator>(
    g: G,
    source: Seq<TableSchema>,
    target: Seq<TableSchema>,
    i: int,
)
    requires
        unique_keys(source),
        0 <= i < source.len(),
        last_named(target, source[i].name@) is None,
    ensures
        count(compare_entries(g, source, target), about_table(DiffType::TableAdded, source[i].name@)) == 1,
        count(
            compare_entries(g, source, target),
            with_sql(about_table(DiffType::TableAdded, source[i].name@), g.create_table_text(source[i])),
        ) == 1,
{
    let n = source[i].name@;
    let hits = about_table(DiffType::TableAdded, n);
    let exact = with_sql(hits, g.create_table_text(source[i]));
    let step = when_missing(table_added(g));
    assert forall|j: int| 0 <= j < source.len() && j != i implies count(
        step(#[trigger] source[j], last_named(target, source[j].key())),
        hits,
    ) == 0 && count(step(source[j], last_named(target, source[j].key())), exact) == 0 by {
        assert(source[j].key() != source[i].key());
        lemma_count_none(step(source[j], last_named(target, source[j].key())), hits);
        lemma_count_none(step(source[j], last_named(target, source[j].key())), exact);
    }
    lemma_forward_count(source, target, step, hits, i);
    lemma_forward_count(source, target, step, exact, i);
    lemma_count_single(table_added(g)(source[i]), hits);
    lemma_count_single(table_added(g)(source[i]), exact);
    lemma_forward_count_zero(target, source, when_missing(table_removed(g)), hits);
    lemma_forward_count_zero(target, source, when_missing(table_removed(g)), exact);
    assert forall|j: int| 0 <= j < source.len() && j != -1 implies count(
        matched_step(g)(#[trigger] source[j], last_named(target, source[j].key())),
        hits,
    ) == 0 && count(matched_step(g)(source[j], last_named(target, source[j].key())), exact) == 0 by {
        match last_named(target, source[j].key()) {
            Some(t) => {
                lemma_table_entries_count_zero(g, source[j], t, hits);
                lemma_table_entries_count_zero(g, source[j], t, exact);
            },
            None => {},
        }
    }
    lemma_forward_count(source, target, matched_step(g), hits, -1);
    lemma_forward_count(source, target, matched_step(g), exact, -1);
    lemma_compare_entries_count(g, source, target, hits);
    lemma_compare_entries_count(g, source, target, exact);
}

/// A table that only the target holds is reported exactly once as removed,
/// and that report carries the dialect's `DROP TABLE` text for it.
pub proof fn lemma_table_removed_once<G: SqlGenerator>(
    g: G,
    source: Seq<TableSchema>,
    target: Seq<TableSchema>,
    i: int,
)
    requires
        unique_keys(target),
        0 <= i < target.len(),
        last_named(source, target[i].name@) is None,
    ensures
        count(compare_entries(g, source, target), about_table(DiffType::TableRemoved, target[i].name@)) == 1,
        count(
            compare_entries(g, source, target),
            with_sql(about_table(DiffType::TableRemoved, target[i].name@), g.drop_table_text(target[i].name@)),
        ) == 1,
{
    let n = target[i].name@;
    let hits = about_table(DiffType::TableRemoved, n);
    let exact = with_sql(hits, g.drop_table_text(n));
    let step = when_missing(table_removed(g));
    assert forall|j: int| 0 <= j < target.len() && j != i implies count(
        step(#[trigger] target[j], last_named(source, target[j].key())),
        hits,
    ) == 0 && count(step(target[j], last_named(source, target[j].key())), exact) == 0 by {
        assert(target[j].key() != target[i].key());
        lemma_count_none(step(target[j], last_named(source, target[j].key())), hits);
        lemma_count_none(step(target[j], last_named(source, target[j].key())), exact);
    }
    lemma_forward_count(target, source, step, hits, i);
    lemma_forward_count(target, source, step, exact, i);
    lemma_count_single(table_removed(g)(target[i]), hits);
    lemma_count_single(table_removed(g)(target[i]), exact);
    lemma_forward_count_zero(source, target, when_missing(table_added(g)), hits);
    lemma_forward_count_zero(source, target, when_missing(table_added(g)), exact);
    assert forall|j: int| 0 <= j < source.len() && j != -1 implies count(
        matched_step(g)(#[trigger] source[j], last_named(target, source[j].key())),
        hits,
    ) == 0 && count(matched_step(g)(source[j], last_named(target, source[j].key())), exact) == 0 by {
        match last_named(target, source[j].key()) {
            Some(t) => {
                lemma_table_entries_count_zero(g, source[j], t, hits);
                lemma_table_entries_count_zero(g, source[j], t, exact);
            },
            None => {},
        }
    }
    lemma_forward_count(source, target, matched_step(g), hits, -1);
    lemma_forward_count(source, target, matched_step(g), exact, -1);
    lemma_compare_entries_count(g, source, target, hits);
    lemma_compare_entries_count(g, source, target, exact);
}

/// For a predicate on entries about one source table below the table level,
/// counting over the whole comparison equals counting over that table's
/// reconciliation with its namesake in the target.
pub proof fn lemma_matched_table_count<G: SqlGenerator>(
    g: G,
    source: Seq<TableSchema>,
    target: Seq<TableSchema>,
    i: int,
    t: TableSchema,
    p: spec_fn(DiffEntry) -> bool,
)
    requires
        unique_keys(source),
        0 <= i < source.len(),
        last_named(target, source[i].name@) == Some(t),
        forall|e: DiffEntry| #[trigger] p(e) ==> e.table_name == source[i].name@ && !is_table_level(e.diff_type),
    ensures
        count(compare_entries(g, source, target), p) == count(table_entries(g, source[i], t), p),
{
    lemma_forward_count_zero(source, target, when_missing(table_added(g)), p);
    lemma_forward_count_zero(target, source, when_missing(table_removed(g)), p);
    assert forall|j: int| 0 <= j < source.len() && j != i implies count(
        matched_step(g)(#[trigger] source[j], last_named(target, source[j].key())),
        p,
    ) == 0 by {
        assert(source[j].key() != source[i].key());
        match last_named(target, source[j].key()) {
            Some(u) => {
                lemma_table_entries_count_zero(g, source[j], u, p);
            },
            None => {},
        }
    }
    lemma_forward_count(source, target, matched_step(g), p, i);
    lemma_compare_entries_count(g, source, target, p);
}

/// In a table both snapshots hold, a column that only the source holds is
/// reported exactly once as added, with the dialect's `ADD COLUMN` text.
pub proof fn lemma_column_added_once<G: SqlGenerator>(
    g: G,
    source: Seq<TableSchema>,
    target: Seq<TableSchema>,
    i: int,
    t: TableSchema,
    k: int,
)
    requires
        unique_keys(source),
        0 <= i < source.len(),
        last_named(target, source[i].name@) == Some(t),
        unique_keys(source[i].columns@),
        0 <= k < source[i].columns@.len(),
        last_named(t.columns@, source[i].columns@[k].name@) is None,
    ensures
        count(
            compare_entries(g, source, target),
            about(DiffType::ColumnAdded, source[i].name@, source[i].columns@[k].name@),
        ) == 1,
        count(
            compare_entries(g, source, target),
            with_sql(about(DiffType::ColumnAdded, source[i].name@, source[i].columns@[k].name@), g.add_column_text(source[i].name@, source[i].columns@[k])),
        ) == 1,
{
    let s = source[i];
    let tn = s.name@;
    let c = source[i].columns@[k];
    let hits = about(DiffType::ColumnAdded, tn, c.name@);
    let exact = with_sql(hits, g.add_column_text(source[i].name@, source[i].columns@[k]));
    assert forall|q: spec_fn(DiffEntry) -> bool| q == hits || q == exact implies count(table_entries(g, s, t), q) == 1 by {
        assert forall|j: int| 0 <= j < s.columns@.len() && j != k implies count(
            column_step(g, tn)(#[trigger] s.columns@[j], last_named(t.columns@, s.columns@[j].key())),
            q,
        ) == 0 by {
            assert(s.columns@[j].key() != s.columns@[k].key());
            lemma_count_none(column_step(g, tn)(s.columns@[j], last_named(t.columns@, s.columns@[j].key())), q);
        }
        lemma_forward_count(s.columns@, t.columns@, column_step(g, tn), q, k);
        lemma_count_single(column_step(g, tn)(c, None)[0], q);
        lemma_forward_count_zero(t.columns@, s.columns@, when_missing(column_removed(g, tn)), q);
        lemma_forward_count_zero(s.indexes@, t.indexes@, index_step(g, tn), q);
        lemma_forward_count_zero(t.indexes@, s.indexes@, when_missing(index_removed(g, tn)), q);
        lemma_forward_count_zero(s.foreign_keys@, t.foreign_keys@, fk_step(g, tn), q);
        lemma_forward_count_zero(t.foreign_keys@, s.foreign_keys@, when_missing(fk_removed(g, tn)), q);
        lemma_forward_count_zero(s.unique_constraints@, t.unique_constraints@, unique_step(g, tn), q);
        lemma_forward_count_zero(t.unique_constraints@, s.unique_constraints@, when_missing(unique_removed(g, tn)), q);
        lemma_table_entries_count(g, s, t, q);
    }
    lemma_matched_table_count(g, source, target, i, t, hits);
    lemma_matched_table_count(g, source, target, i, t, exact);
}

/// In a table both snapshots hold, a column that only the target holds is
/// reported exactly once as removed, with the dialect's `DROP COLUMN` text.
pub proof fn lemma_column_removed_once<G: SqlGenerator>(
    g: G,
    source: Seq<TableSchema>,
    target: Seq<TableSchema>,
    i: int,
    t: TableSchema,
    k: int,
)
    requires
        unique_keys(source),
        0 <= i < source.len(),
        last_named(target, source[i].name@) == Some(t),
        unique_keys(t.columns@),
        0 <= k < t.columns@.len(),
        last_named(source[i].columns@, t.columns@[k].name@) is None,
    ensures
        count(
            compare_entries(g, source, target),
            about(DiffType::ColumnRemoved, source[i].name@, t.columns@[k].name@),
        ) == 1,
        count(
            compare_entries(g, source, target),
            with_sql(about(DiffType::ColumnRemoved, source[i].name@, t.columns@[k].name@), g.drop_column_text(source[i].name@, t.columns@[k].name@)),
        ) == 1,
{
    let s = source[i];
    let tn = s.name@;
    let c = t.columns@[k];
    let hits = about(DiffType::ColumnRemoved, tn, c.name@);
    let exact = with_sql(hits, g.drop_column_text(source[i].name@, t.columns@[k].name@));
    assert forall|q: spec_fn(DiffEntry) -> bool| q == hits || q == exact implies count(table_entries(g, s, t), q) == 1 by {
        assert forall|j: int| 0 <= j < t.columns@.len() && j != k implies count(
            when_missing(column_removed(g, tn))(#[trigger] t.columns@[j], last_named(s.columns@, t.columns@[j].key())),
            q,
        ) == 0 by {
            assert(t.columns@[j].key() != t.columns@[k].key());
            lemma_count_none(when_missing(column_removed(g, tn))(t.columns@[j], last_named(s.columns@, t.columns@[j].key())), q);
        }
        lemma_forward_count(t.columns@, s.columns@, when_missing(column_removed(g, tn)), q, k);
        lemma_count_single(column_removed(g, tn)(c), q);
        lemma_forward_count_zero(s.columns@, t.columns@, column_step(g, tn), q);
        lemma_forward_count_zero(s.indexes@, t.indexes@, index_step(g, tn), q);
        lemma_forward_count_zero(t.indexes@, s.indexes@, when_missing(index_removed(g, tn)), q);
        lemma_forward_count_zero(s.foreign_keys@, t.foreign_keys@, fk_step(g, tn), q);
        lemma_forward_count_zero(t.foreign_keys@, s.foreign_keys@, when_missing(fk_removed(g, tn)), q);
        lemma_forward_count_zero(s.unique_constraints@, t.unique_constraints@, unique_step(g, tn), q);
        lemma_forward_count_zero(t.unique_constraints@, s.unique_constraints@, when_missing(unique_removed(g, tn)), q);
        lemma_table_entries_count(g, s, t, q);
    }
    lemma_matched_table_count(g, source, target, i, t, hits);
    lemma_matched_table_count(g, source, target, i, t, exact);
}

/// In a table both snapshots hold, a column present in both that differs in
/// any field (type, nullability, default, auto-increment, comment or
/// position) is reported exactly once as modified, with the dialect's
/// modify-column text.
pub proof fn lemma_column_modified_once<G: SqlGenerator>(
    g: G,
    source: Seq<TableSchema>,
    target: Seq<TableSchema>,
    i: int,
    t: TableSchema,
    k: int,
)
    requires
        unique_keys(source),
        0 <= i < source.len(),
        last_named(target, source[i].name@) == Some(t),
        unique_keys(source[i].columns@),
        0 <= k < source[i].columns@.len(),
        last_named(t.columns@, source[i].columns@[k].name@) matches Some(u) && !source[i].columns@[k].same(u),
    ensures
        count(
            compare_entries(g, source, target),
            about(DiffType::ColumnModified, source[i].name@, source[i].columns@[k].name@),
        ) == 1,
        count(
            compare_entries(g, source, target),
            with_sql(about(DiffType::ColumnModified, source[i].name@, source[i].columns@[k].name@), g.modify_column_text(source[i].name@, source[i].columns@[k])),
        ) == 1,
{
    let s = source[i];
    let tn = s.name@;
    let c = source[i].columns@[k];
    let hits = about(DiffType::ColumnModified, tn, c.name@);
    let exact = with_sql(hits, g.modify_column_text(source[i].name@, source[i].columns@[k]));
    assert forall|q: spec_fn(DiffEntry) -> bool| q == hits || q == exact implies count(table_entries(g, s, t), q) == 1 by {
        assert forall|j: int| 0 <= j < s.columns@.len() && j != k implies count(
            column_step(g, tn)(#[trigger] s.columns@[j], last_named(t.columns@, s.columns@[j].key())),
            q,
        ) == 0 by {
            assert(s.columns@[j].key() != s.columns@[k].key());
            lemma_count_none(column_step(g, tn)(s.columns@[j], last_named(t.columns@, s.columns@[j].key())), q);
        }
        lemma_forward_count(s.columns@, t.columns@, column_step(g, tn), q, k);
        lemma_count_single(column_step(g, tn)(c, last_named(t.columns@, c.name@))[0], q);
        lemma_forward_count_zero(t.columns@, s.columns@, when_missing(column_removed(g, tn)), q);
        lemma_forward_count_zero(s.indexes@, t.indexes@, index_step(g, tn), q);
        lemma_forward_count_zero(t.indexes@, s.indexes@, when_missing(index_removed(g, tn)), q);
        lemma_forward_count_zero(s.foreign_keys@, t.foreign_keys@, fk_step(g, tn), q);
        lemma_forward_count_zero(t.foreign_keys@, s.foreign_keys@, when_missing(fk_removed(g, tn)), q);
        lemma_forward_count_zero(s.unique_constraints@, t.unique_constraints@, unique_step(g, tn), q);
        lemma_forward_count_zero(t.unique_constraints@, s.unique_constraints@, when_missing(unique_removed(g, tn)), q);
        lemma_table_entries_count(g, s, t, q);
    }
    lemma_matched_table_count(g, source, target, i, t, hits);
    lemma_matched_table_count(g, source, target, i, t, exact);
}

pub proof fn lemma_decimal_injective(a: nat, b: nat)
    requires
        decimal(a) == decimal(b),
    ensures
        a == b,
    decreases a,
{
    if a < 10 && b < 10 {
        assert(decimal(a)[0] == digit_of(a));
        assert(decimal(b)[0] == digit_of(b));
    } else if a < 10 {
        assert(decimal(b).len() == decimal(b / 10).len() + 1);
        assert(decimal(b / 10).len() >= 1);
    } else if b < 10 {
        assert(decimal(a).len() == decimal(a / 10).len() + 1);
        assert(decimal(a / 10).len() >= 1);
    } else {
        assert(decimal(a).last() == digit_of(a % 10));
        assert(decimal(b).last() == digit_of(b % 10));
        assert(a % 10 == b % 10);
        assert(decimal(a / 10) =~= decimal(a).drop_last());
        assert(decimal(b / 10) =~= decimal(b).drop_last());
        lemma_decimal_injective(a / 10, b / 10);
    }
}

/// The items of one comparison are numbered 1, 2, 3, ... in order, so no two
/// share an id.
pub proof fn lemma_ids_distinct(items: Seq<DiffItem>, entries: Seq<DiffEntry>)
    requires
        items_match(items, entries),
    ensures
        forall|k: int| 0 <= k < items.len() ==> (#[trigger] items[k]).id@ == decimal((k + 1) as nat),
        forall|a: int, b: int|
            0 <= a < items.len() && 0 <= b < items.len() && a != b ==> #[trigger] items[a].id@
                != #[trigger] items[b].id@,
{
    assert forall|a: int, b: int|
        0 <= a < items.len() && 0 <= b < items.len() && a != b implies #[trigger] items[a].id@
        != #[trigger] items[b].id@ by {
        if items[a].id@ == items[b].id@ {
            lemma_decimal_injective((a + 1) as nat, (b + 1) as nat);
        }
    }
}

} // verus!
