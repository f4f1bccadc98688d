//! The structure of one database: tables and the objects inside them.

use vstd::prelude::*;

verus! {

/// The text of an optional string.
pub open spec fn opt_text(o: Option<String>) -> Option<Seq<char>> {
    match o {
        Some(s) => Some(s@),
        None => None,
    }
}

/// The texts of a sequence of strings.
pub open spec fn texts(v: Seq<String>) -> Seq<Seq<char>> {
    v.map_values(|s: String| s@)
}

/// Whether two optional strings hold the same text.
pub fn same_opt_text(a: &Option<String>, b: &Option<String>) -> (r: bool)
    ensures
        r == (opt_text(*a) == opt_text(*b)),
{
    match a {
        Some(x) => match b {
            Some(y) => crate::text::same_text(x.as_str(), y.as_str()),
            None => false,
        },
        None => b.is_none(),
    }
}

/// Whether two lists of names hold the same texts in the same order.
pub fn same_texts(a: &Vec<String>, b: &Vec<String>) -> (r: bool)
    ensures
        r == (texts(a@) == texts(b@)),
{
    if a.len() != b.len() {
        proof {
            assert(texts(a@).len() != texts(b@).len());
        }
        return false;
    }
    let mut i: usize = 0;
    while i < a.len()
        invariant
            a@.len() == b@.len(),
            i <= a@.len(),
            forall|k: int| 0 <= k < i ==> #[trigger] a@[k]@ == b@[k]@,
        decreases a@.len() - i,
    {
        if a[i] != b[i] {
            proof {
                assert(texts(a@)[i as int] != texts(b@)[i as int]);
            }
            return false;
        }
        i = i + 1;
    }
    proof {
        assert(texts(a@) =~= texts(b@));
    }
    true
}

/// An object identified by its name within its owner.
pub trait Named {
    spec fn key(&self) -> Seq<char>;

    fn name_str(&self) -> (r: &str)
        ensures
            r@ == self.key(),
    ;
}

/// The last item of `s` named `k`, as a lookup keyed by name that lets later
/// entries replace earlier ones would hold it.
pub open spec fn last_named<T: Named>(s: Seq<T>, k: Seq<char>) -> Option<T>
    decreases s.len(),
{
    if s.len() == 0 {
        None
    } else if s.last().key() == k {
        Some(s.last())
    } else {
        last_named(s.drop_last(), k)
    }
}

/// Whether no two items of `s` share a name.
pub open spec fn unique_keys<T: Named>(s: Seq<T>) -> bool {
    forall|i: int, j: int|
        0 <= i < s.len() && 0 <= j < s.len() && i != j ==> #[trigger] s[i].key() != #[trigger] s[j].key()
}

/// The position of the last item of `items` named `k`.
pub fn find_last<T: Named>(items: &[T], k: &str) -> (r: Option<usize>)
    ensures
        match r {
            None => last_named(items@, k@) is None,
            Some(i) => i < items@.len() && last_named(items@, k@) == Some(items@[i as int]),
        },
{
    let mut found: Option<usize> = None;
    let mut i: usize = 0;
    while i < items.len()
        invariant
            i <= items@.len(),
            match found {
                None => last_named(items@.subrange(0, i as int), k@) is None,
                Some(j) => j < i && last_named(items@.subrange(0, i as int), k@) == Some(
                    items@[j as int],
                ),
            },
        decreases items@.len() - i,
    {
        if crate::text::same_text(items[i].name_str(), k) {
            found = Some(i);
        }
        proof {
            let next = items@.subrange(0, i + 1);
            assert(next.drop_last() =~= items@.subrange(0, i as int));
            assert(next.last() == items@[i as int]);
        }
        i = i + 1;
    }
    proof {
        assert(items@.subrange(0, items@.len() as int) =~= items@);
    }
    found
}

#[derive(Debug, Clone)]
pub struct Column {
    pub name: String,
    pub data_type: String,
    pub nullable: bool,
    pub default_value: Option<String>,
    pub auto_increment: bool,
    pub comment: Option<String>,
    pub ordinal_position: u32,
}

impl Column {
    /// Equality of every field.
    pub open spec fn same(self, o: Column) -> bool {
        &&& self.name@ == o.name@
        &&& self.data_type@ == o.data_type@
        &&& self.nullable == o.nullable
        &&& opt_text(self.default_value) == opt_text(o.default_value)
        &&& self.auto_increment == o.auto_increment
        &&& opt_text(self.comment) == opt_text(o.comment)
        &&& self.ordinal_position == o.ordinal_position
    }
}

impl PartialEq for Column {
    fn eq(&self, o: &Column) -> (r: bool) {
        self.name == o.name && self.data_type == o.data_type && self.nullable == o.nullable
            && same_opt_text(&self.default_value, &o.default_value) && self.auto_increment
            == o.auto_increment && same_opt_text(&self.comment, &o.comment)
            && self.ordinal_position == o.ordinal_position
    }
}

impl vstd::std_specs::cmp::PartialEqSpecImpl for Column {
    open spec fn obeys_eq_spec() -> bool {
        true
    }

    open spec fn eq_spec(&self, o: &Column) -> bool {
        self.same(*o)
    }
}

impl Named for Column {
    open spec fn key(&self) -> Seq<char> {
        self.name@
    }

    fn name_str(&self) -> (r: &str) {
        self.name.as_str()
    }
}

#[derive(Debug, Clone)]
pub struct PrimaryKey {
    pub name: Option<String>,
    pub columns: Vec<String>,
}

impl PrimaryKey {
    /// Equality of every field.
    pub open spec fn same(self, o: PrimaryKey) -> bool {
        &&& opt_text(self.name) == opt_text(o.name)
        &&& texts(self.columns@) == texts(o.columns@)
    }
}

impl PartialEq for PrimaryKey {
    fn eq(&self, o: &PrimaryKey) -> (r: bool) {
        same_opt_text(&self.name, &o.name) && same_texts(&self.columns, &o.columns)
    }
}

impl vstd::std_specs::cmp::PartialEqSpecImpl for PrimaryKey {
    open spec fn obeys_eq_spec() -> bool {
        true
    }

    open spec fn eq_spec(&self, o: &PrimaryKey) -> bool {
        self.same(*o)
    }
}

#[derive(Debug, Clone)]
pub struct Index {
    pub name: String,
    pub columns: Vec<String>,
    pub unique: bool,
    pub index_type: String,
}

impl Index {
    /// Equality of every field.
    pub open spec fn same(self, o: Index) -> bool {
        &&& self.name@ == o.name@
        &&& texts(self.columns@) == texts(o.columns@)
        &&& self.unique == o.unique
        &&& self.index_type@ == o.index_type@
    }
}

impl PartialEq for Index {
    fn eq(&self, o: &Index) -> (r: bool) {
        self.name == o.name && same_texts(&self.columns, &o.columns) && self.unique == o.unique
            && self.index_type == o.index_type
    }
}

impl vstd::std_specs::cmp::PartialEqSpecImpl for Index {
    open spec fn obeys_eq_spec() -> bool {
        true
    }

    open spec fn eq_spec(&self, o: &Index) -> bool {
        self.same(*o)
    }
}

impl Named for Index {
    open spec fn key(&self) -> Seq<char> {
        self.name@
    }

    fn name_str(&self) -> (r: &str) {
        self.name.as_str()
    }
}

#[derive(Debug, Clone)]
pub struct ForeignKey {
    pub name: String,
    pub columns: Vec<String>,
    pub ref_table: String,
    pub ref_columns: Vec<String>,
    pub on_delete: String,
    pub on_update: String,
}

impl ForeignKey {
    /// Equality of every field.
    pub open spec fn same(self, o: ForeignKey) -> bool {
        &&& self.name@ == o.name@
        &&& texts(self.columns@) == texts(o.columns@)
        &&& self.ref_table@ == o.ref_table@
        &&& texts(self.ref_columns@) == texts(o.ref_columns@)
        &&& self.on_delete@ == o.on_delete@
        &&& self.on_update@ == o.on_update@
    }
}

impl PartialEq for ForeignKey {
    fn eq(&self, o: &ForeignKey) -> (r: bool) {
        self.name == o.name && same_texts(&self.columns, &o.columns) && self.ref_table
            == o.ref_table && same_texts(&self.ref_columns, &o.ref_columns) && self.on_delete
            == o.on_delete && self.on_update == o.on_update
    }
}

impl vstd::std_specs::cmp::PartialEqSpecImpl for ForeignKey {
    open spec fn obeys_eq_spec() -> bool {
        true
    }

    open spec fn eq_spec(&self, o: &ForeignKey) -> bool {
        self.same(*o)
    }
}

impl Named for ForeignKey {
    open spec fn key(&self) -> Seq<char> {
        self.name@
    }

    fn name_str(&self) -> (r: &str) {
        self.name.as_str()
    }
}

#[derive(Debug, Clone)]
pub struct UniqueConstraint {
    pub name: String,
    pub columns: Vec<String>,
}

impl UniqueConstraint {
    /// Equality of every field.
    pub open spec fn same(self, o: UniqueConstraint) -> bool {
        &&& self.name@ == o.name@
        &&& texts(self.columns@) == texts(o.columns@)
    }
}

impl PartialEq for UniqueConstraint {
    fn eq(&self, o: &UniqueConstraint) -> (r: bool) {
        self.name == o.name && same_texts(&self.columns, &o.columns)
    }
}

impl vstd::std_specs::cmp::PartialEqSpecImpl for UniqueConstraint {
    open spec fn obeys_eq_spec() -> bool {
        true
    }

    open spec fn eq_spec(&self, o: &UniqueConstraint) -> bool {
        self.same(*o)
    }
}

impl Named for UniqueConstraint {
    open spec fn key(&self) -> Seq<char> {
        self.name@
    }

    fn name_str(&self) -> (r: &str) {
        self.name.as_str()
    }
}

#[derive(Debug, Clone)]
pub struct TableSchema {
    pub name: String,
    pub columns: Vec<Column>,
    pub primary_key: Option<PrimaryKey>,
    pub indexes: Vec<Index>,
    pub foreign_keys: Vec<ForeignKey>,
    pub unique_constraints: Vec<UniqueConstraint>,
}

/// Equality of two optional primary keys, field by field.
pub open spec fn same_primary_key(a: Option<PrimaryKey>, b: Option<PrimaryKey>) -> bool {
    match (a, b) {
        (Some(x), Some(y)) => x.same(y),
        (None, None) => true,
        _ => false,
    }
}

/// Element-wise equality of two sequences under `same`.
pub open spec fn same_columns(a: Seq<Column>, b: Seq<Column>) -> bool {
    a.len() == b.len() && forall|k: int| 0 <= k < a.len() ==> #[trigger] a[k].same(b[k])
}

pub open spec fn same_indexes(a: Seq<Index>, b: Seq<Index>) -> bool {
    a.len() == b.len() && forall|k: int| 0 <= k < a.len() ==> #[trigger] a[k].same(b[k])
}

pub open spec fn same_foreign_keys(a: Seq<ForeignKey>, b: Seq<ForeignKey>) -> bool {
    a.len() == b.len() && forall|k: int| 0 <= k < a.len() ==> #[trigger] a[k].same(b[k])
}

pub open spec fn same_uniques(a: Seq<UniqueConstraint>, b: Seq<UniqueConstraint>) -> bool {
    a.len() == b.len() && forall|k: int| 0 <= k < a.len() ==> #[trigger] a[k].same(b[k])
}

impl TableSchema {
    /// Equality of every field, nested objects included.
    pub open spec fn same(self, o: TableSchema) -> bool {
        &&& self.name@ == o.name@
        &&& same_columns(self.columns@, o.columns@)
        &&& same_primary_key(self.primary_key, o.primary_key)
        &&& same_indexes(self.indexes@, o.indexes@)
        &&& same_foreign_keys(self.foreign_keys@, o.foreign_keys@)
        &&& same_uniques(self.unique_constraints@, o.unique_constraints@)
    }

    /// The names of columns, indexes, foreign keys and unique constraints are
    /// each unique within the table.
    pub open spec fn well_formed(self) -> bool {
        &&& unique_keys(self.columns@)
        &&& unique_keys(self.indexes@)
        &&& unique_keys(self.foreign_keys@)
        &&& unique_keys(self.unique_constraints@)
    }
}

fn same_column_list(a: &Vec<Column>, b: &Vec<Column>) -> (r: bool)
    ensures
        r == same_columns(a@, b@),
{
    if a.len() != b.len() {
        return false;
    }
    let mut i: usize = 0;
    while i < a.len()
        invariant
            a@.len() == b@.len(),
            i <= a@.len(),
            forall|k: int| 0 <= k < i ==> #[trigger] a@[k].same(b@[k]),
        decreases a@.len() - i,
    {
        if !a[i].eq(&b[i]) {
            return false;
        }
        i = i + 1;
    }
    true
}

fn same_index_list(a: &Vec<Index>, b: &Vec<Index>) -> (r: bool)
    ensures
        r == same_indexes(a@, b@),
{
    if a.len() != b.len() {
        return false;
    }
    let mut i: usize = 0;
    while i < a.len()
        invariant
            a@.len() == b@.len(),
            i <= a@.len(),
            forall|k: int| 0 <= k < i ==> #[trigger] a@[k].same(b@[k]),
        decreases a@.len() - i,
    {
        if !a[i].eq(&b[i]) {
            return false;
        }
        i = i + 1;
    }
    true
}

fn same_fk_list(a: &Vec<ForeignKey>, b: &Vec<ForeignKey>) -> (r: bool)
    ensures
        r == same_foreign_keys(a@, b@),
{
    if a.len() != b.len() {
        return false;
    }
    let mut i: usize = 0;
    while i < a.len()
        invariant
            a@.len() == b@.len(),
            i <= a@.len(),
            forall|k: int| 0 <= k < i ==> #[trigger] a@[k].same(b@[k]),
        decreases a@.len() - i,
    {
        if !a[i].eq(&b[i]) {
            return false;
        }
        i = i + 1;
    }
    true
}

fn same_unique_list(a: &Vec<UniqueConstraint>, b: &Vec<UniqueConstraint>) -> (r: bool)
    ensures
        r == same_uniques(a@, b@),
{
    if a.len() != b.len() {
        return false;
    }
    let mut i: usize = 0;
    while i < a.len()
        invariant
            a@.len() == b@.len(),
            i <= a@.len(),
            forall|k: int| 0 <= k < i ==> #[trigger] a@[k].same(b@[k]),
        decreases a@.len() - i,
    {
        if !a[i].eq(&b[i]) {
            return false;
        }
        i = i + 1;
    }
    true
}

fn same_primary_key_value(a: &Option<PrimaryKey>, b: &Option<PrimaryKey>) -> (r: bool)
    ensures
        r == same_primary_key(*a, *b),
{
    match a {
        Some(x) => match b {
            Some(y) => x.eq(y),
            None => false,
        },
        None => b.is_none(),
    }
}

impl PartialEq for TableSchema {
    fn eq(&self, o: &TableSchema) -> (r: bool) {
        self.name == o.name && same_column_list(&self.columns, &o.columns)
            && same_primary_key_value(&self.primary_key, &o.primary_key) && same_index_list(
            &self.indexes,
            &o.indexes,
        ) && same_fk_list(&self.foreign_keys, &o.foreign_keys) && same_unique_list(
            &self.unique_constraints,
            &o.unique_constraints,
        )
    }
}

impl vstd::std_specs::cmp::PartialEqSpecImpl for TableSchema {
    open spec fn obeys_eq_spec() -> bool {
        true
    }

    open spec fn eq_spec(&self, o: &TableSchema) -> bool {
        self.same(*o)
    }
}

impl Named for TableSchema {
    open spec fn key(&self) -> Seq<char> {
        self.name@
    }

    fn name_str(&self) -> (r: &str) {
        self.name.as_str()
    }
}

/// Table names are unique across the snapshot, and each table is well formed.
pub open spec fn well_formed_snapshot(s: Seq<TableSchema>) -> bool {
    &&& unique_keys(s)
    &&& forall|i: int| 0 <= i < s.len() ==> (#[trigger] s[i]).well_formed()
}

} // verus!
