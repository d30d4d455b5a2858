//! A data table: columns, rows of text cells, a sorted column, a selected
//! row, keyboard selection and the message shown instead of rows.
//!
//! Sorting by text is a stable sort by each row's cell in the sorted column
//! (missing cells sort as empty text), compared character by character;
//! descending order reverses the comparison but keeps equal rows in their
//! original order. The sort is computed as a permutation of the row indices.

use vstd::prelude::*;
use vstd::string::*;
use crate::keys::{nav_key_of, NavKey};
use crate::text::chars_of;

verus! {

#[derive(Clone, Copy, Debug, PartialEq, Eq)]
pub enum DataSortDirection {
    Ascending,
    Descending,
}

impl DataSortDirection {
    /// The other direction.
    pub fn toggle(self) -> (d: Self)
        ensures
            d == match self {
                DataSortDirection::Ascending => DataSortDirection::Descending,
                DataSortDirection::Descending => DataSortDirection::Ascending,
            },
    {
        match self {
            DataSortDirection::Ascending => DataSortDirection::Descending,
            DataSortDirection::Descending => DataSortDirection::Ascending,
        }
    }
}

#[derive(Clone, Copy, Debug, PartialEq, Eq)]
pub enum DataCellAlign {
    Start,
    Center,
    End,
}

impl Default for DataCellAlign {
    fn default() -> (a: Self)
        ensures
            a == DataCellAlign::Start,
    {
        DataCellAlign::Start
    }
}

/// How a column's cells compare when sorting.
#[derive(Clone, Copy, Debug, PartialEq, Eq)]
pub enum DataSortKind {
    Text,
    Number,
}

impl Default for DataSortKind {
    fn default() -> (k: Self)
        ensures
            k == DataSortKind::Text,
    {
        DataSortKind::Text
    }
}

#[derive(Debug)]
pub struct DataCell {
    pub text: String,
    /// Overrides the column's alignment.
    pub align: Option<DataCellAlign>,
}

impl DataCell {
    pub fn new(text: String) -> (c: Self)
        ensures
            c.text == text && c.align is None,
    {
        DataCell { text, align: None }
    }

    pub fn align(self, align: DataCellAlign) -> (c: Self)
        ensures
            c.text == self.text && c.align == Some(align),
    {
        DataCell { align: Some(align), ..self }
    }
}

/// What the table shows in place of rows, if anything.
#[derive(Debug)]
pub enum DataTableState {
    Ready,
    Loading(String),
    Empty(String),
    Error(String),
}

/// A column; its width is the renderer's.
#[derive(Debug)]
pub struct DataColumn {
    pub id: String,
    pub title: String,
    pub sortable: bool,
    pub align: DataCellAlign,
    pub sort_kind: DataSortKind,
}

impl DataColumn {
    pub fn new(id: String, title: String) -> (c: Self)
        ensures
            c.id == id && c.title == title && !c.sortable,
            c.align == DataCellAlign::Start && c.sort_kind == DataSortKind::Text,
    {
        DataColumn { id, title, sortable: false, align: DataCellAlign::Start, sort_kind: DataSortKind::Text }
    }

    pub fn sortable(self, sortable: bool) -> (c: Self)
        ensures
            c == (DataColumn { sortable, ..self }),
    {
        DataColumn { sortable, ..self }
    }

    pub fn align(self, align: DataCellAlign) -> (c: Self)
        ensures
            c == (DataColumn { align, ..self }),
    {
        DataColumn { align, ..self }
    }

    pub fn sort_kind(self, kind: DataSortKind) -> (c: Self)
        ensures
            c == (DataColumn { sort_kind: kind, ..self }),
    {
        DataColumn { sort_kind: kind, ..self }
    }
}

#[derive(Debug)]
pub struct DataRow {
    pub id: String,
    pub cells: Vec<DataCell>,
}

impl DataRow {
    pub fn new(id: String, cells: Vec<DataCell>) -> (r: Self)
        ensures
            r.id == id && r.cells == cells,
    {
        DataRow { id, cells }
    }
}

/// `a` comes before `b` character by character (a proper prefix comes
/// first).
pub open spec fn text_less(a: Seq<char>, b: Seq<char>) -> bool
    decreases a.len(),
{
    if a.len() == 0 {
        b.len() > 0
    } else if b.len() == 0 {
        false
    } else if a[0] != b[0] {
        (a[0] as u32) < (b[0] as u32)
    } else {
        text_less(a.drop_first(), b.drop_first())
    }
}

pub proof fn lemma_text_less_irreflexive(a: Seq<char>)
    ensures
        !text_less(a, a),
    decreases a.len(),
{
    if a.len() > 0 {
        lemma_text_less_irreflexive(a.drop_first());
    }
}

pub proof fn lemma_text_less_transitive(a: Seq<char>, b: Seq<char>, c: Seq<char>)
    requires
        text_less(a, b),
        text_less(b, c),
    ensures
        text_less(a, c),
    decreases a.len(),
{
    if a.len() > 0 && b.len() > 0 && c.len() > 0 && a[0] == b[0] && b[0] == c[0] {
        lemma_text_less_transitive(a.drop_first(), b.drop_first(), c.drop_first());
    }
}

pub proof fn lemma_text_less_total(a: Seq<char>, b: Seq<char>)
    ensures
        a != b ==> text_less(a, b) || text_less(b, a),
        !(text_less(a, b) && text_less(b, a)),
    decreases a.len(),
{
    if a.len() > 0 && b.len() > 0 {
        lemma_text_less_total(a.drop_first(), b.drop_first());
        if a[0] != b[0] {
            vstd::utf8::char_u32_cast(a[0], a[0] as u32);
            vstd::utf8::char_u32_cast(b[0], b[0] as u32);
            assert((a[0] as u32) != (b[0] as u32));
        }
        if a[0] == b[0] && a != b {
            assert(a.drop_first() != b.drop_first()) by {
                if a.drop_first() == b.drop_first() {
                    assert(a =~= seq![a[0]] + a.drop_first());
                    assert(b =~= seq![b[0]] + b.drop_first());
                }
            }
        }
    } else if a.len() == 0 && b.len() == 0 {
        assert(a =~= b);
    }
}

/// Row `x` comes before row `y` in the sorted order: its key is smaller
/// (larger when descending), or the keys are equal and it came first.
pub open spec fn row_before(keys: Seq<Seq<char>>, descending: bool, x: int, y: int) -> bool {
    if keys[x] == keys[y] {
        x < y
    } else if descending {
        text_less(keys[y], keys[x])
    } else {
        text_less(keys[x], keys[y])
    }
}

proof fn lemma_row_before_order(keys: Seq<Seq<char>>, descending: bool, x: int, y: int, z: int)
    ensures
        x != y ==> row_before(keys, descending, x, y) || row_before(keys, descending, y, x),
        !(row_before(keys, descending, x, y) && row_before(keys, descending, y, x)),
        !row_before(keys, descending, x, x),
        row_before(keys, descending, x, y) && row_before(keys, descending, y, z) ==> row_before(
            keys,
            descending,
            x,
            z,
        ),
{
    lemma_text_less_total(keys[x], keys[y]);
    lemma_text_less_total(keys[y], keys[z]);
    lemma_text_less_total(keys[x], keys[z]);
    lemma_text_less_irreflexive(keys[x]);
    if row_before(keys, descending, x, y) && row_before(keys, descending, y, z) {
        if keys[x] != keys[y] && keys[y] != keys[z] {
            if descending {
                lemma_text_less_transitive(keys[z], keys[y], keys[x]);
            } else {
                lemma_text_less_transitive(keys[x], keys[y], keys[z]);
            }
        }
    }
}

/// `order` lists each of `0..n` once.
pub open spec fn is_permutation(order: Seq<usize>, n: int) -> bool {
    &&& order.len() == n
    &&& forall|i: int| 0 <= i < n ==> #[trigger] order[i] < n
    &&& forall|i: int, j: int| 0 <= i < j < n ==> #[trigger] order[i] != #[trigger] order[j]
}

/// `order` is the stable sort of the rows by their keys.
pub open spec fn is_sorted_order(keys: Seq<Seq<char>>, descending: bool, order: Seq<usize>) -> bool {
    &&& is_permutation(order, keys.len() as int)
    &&& forall|i: int, j: int|
        0 <= i < j < order.len() ==> row_before(keys, descending, #[trigger] order[i] as int, #[trigger] order[j] as int)
}

/// The indices below `n`.
spec fn indices_below(n: int) -> Set<usize> {
    Set::new(|x: usize| (x as int) < n)
}

proof fn lemma_indices_below_len(n: int)
    requires
        0 <= n <= usize::MAX,
    ensures
        indices_below(n).finite(),
        indices_below(n).len() == n,
    decreases n,
{
    if n == 0 {
        assert(indices_below(0) =~= Set::<usize>::empty());
    } else {
        lemma_indices_below_len(n - 1);
        assert(indices_below(n) =~= indices_below(n - 1).insert((n - 1) as usize));
    }
}

/// A permutation of the rows holds exactly the row indices.
proof fn lemma_permutation_elements(order: Seq<usize>, n: int)
    requires
        is_permutation(order, n),
        0 <= n <= usize::MAX,
    ensures
        forall|x: usize| order.contains(x) <==> (x as int) < n,
{
    assert(order.no_duplicates()) by {
        assert forall|i: int, j: int| 0 <= i < order.len() && 0 <= j < order.len() && i != j implies order[i]
            != order[j] by {
            if i < j {
                assert(order[i] != order[j]);
            } else {
                assert(order[j] != order[i]);
            }
        }
    }
    order.unique_seq_to_set();
    lemma_indices_below_len(n);
    assert(order.to_set().subset_of(indices_below(n))) by {
        assert forall|x: usize| order.to_set().contains(x) implies indices_below(n).contains(x) by {
            let i = choose|i: int| 0 <= i < order.len() && order[i] == x;
            assert(order[i] < n);
        }
    }
    vstd::set_lib::lemma_subset_equality(order.to_set(), indices_below(n));
    assert forall|x: usize| order.contains(x) <==> (x as int) < n by {
        assert(order.contains(x) == order.to_set().contains(x));
        assert(indices_below(n).contains(x) == ((x as int) < n));
    }
}

/// Two sequences holding the same rows, each in `row_before` order, are
/// equal.
proof fn lemma_ordered_unique(keys: Seq<Seq<char>>, descending: bool, a: Seq<usize>, b: Seq<usize>)
    requires
        a.len() == b.len(),
        forall|x: usize| a.contains(x) <==> b.contains(x),
        forall|i: int, j: int| 0 <= i < j < a.len() ==> row_before(keys, descending, #[trigger] a[i] as int, #[trigger] a[j] as int),
        forall|i: int, j: int| 0 <= i < j < b.len() ==> row_before(keys, descending, #[trigger] b[i] as int, #[trigger] b[j] as int),
    ensures
        a == b,
    decreases a.len(),
{
    if a.len() == 0 {
        assert(a =~= b);
    } else {
        let x = a[0];
        let y = b[0];
        assert(a.contains(x));
        assert(b.contains(x));
        assert(b.contains(y));
        assert(a.contains(y));
        let k = choose|k: int| 0 <= k < b.len() && b[k] == x;
        let m = choose|m: int| 0 <= m < a.len() && a[m] == y;
        lemma_row_before_order(keys, descending, x as int, y as int, x as int);
        if k > 0 {
            assert(row_before(keys, descending, b[0] as int, b[k] as int));
            if m > 0 {
                assert(row_before(keys, descending, a[0] as int, a[m] as int));
            }
            assert(false);
        }
        assert(x == y);
        let a1 = a.drop_first();
        let b1 = b.drop_first();
        assert forall|z: usize| a1.contains(z) <==> b1.contains(z) by {
            if a1.contains(z) {
                let i = choose|i: int| 0 <= i < a1.len() && a1[i] == z;
                assert(a[i + 1] == z);
                assert(row_before(keys, descending, a[0] as int, a[i + 1] as int));
                lemma_row_before_order(keys, descending, z as int, z as int, z as int);
                assert(z != x);
                assert(a.contains(z));
                let j = choose|j: int| 0 <= j < b.len() && b[j] == z;
                assert(j != 0);
                assert(b1[j - 1] == z);
            }
            if b1.contains(z) {
                let i = choose|i: int| 0 <= i < b1.len() && b1[i] == z;
                assert(b[i + 1] == z);
                assert(row_before(keys, descending, b[0] as int, b[i + 1] as int));
                lemma_row_before_order(keys, descending, z as int, z as int, z as int);
                assert(z != y);
                assert(b.contains(z));
                let j = choose|j: int| 0 <= j < a.len() && a[j] == z;
                assert(j != 0);
                assert(a1[j - 1] == z);
            }
        }
        assert forall|i: int, j: int| 0 <= i < j < a1.len() implies row_before(keys, descending, #[trigger] a1[i] as int, #[trigger] a1[j] as int) by {
            assert(a1[i] == a[i + 1] && a1[j] == a[j + 1]);
        }
        assert forall|i: int, j: int| 0 <= i < j < b1.len() implies row_before(keys, descending, #[trigger] b1[i] as int, #[trigger] b1[j] as int) by {
            assert(b1[i] == b[i + 1] && b1[j] == b[j + 1]);
        }
        lemma_ordered_unique(keys, descending, a1, b1);
        assert(a =~= b) by {
            assert forall|i: int| 0 <= i < a.len() implies a[i] == b[i] by {
                if i > 0 {
                    assert(a[i] == a1[i - 1] && b[i] == b1[i - 1]);
                }
            }
        }
    }
}

/// A column's sort determines the rows' order: two orders that both meet
/// the definition of the stable sort by the same keys are the same (there
/// are no more rows than a `usize` counts).
pub proof fn lemma_sorted_order_unique(keys: Seq<Seq<char>>, descending: bool, a: Seq<usize>, b: Seq<usize>)
    requires
        keys.len() <= usize::MAX,
        is_sorted_order(keys, descending, a),
        is_sorted_order(keys, descending, b),
    ensures
        a == b,
{
    lemma_permutation_elements(a, keys.len() as int);
    lemma_permutation_elements(b, keys.len() as int);
    lemma_ordered_unique(keys, descending, a, b);
}

fn text_less_exec(a: &Vec<char>, b: &Vec<char>) -> (r: bool)
    ensures
        r == text_less(a@, b@),
{
    let mut i: usize = 0;
    assert(a@.skip(0) =~= a@);
    assert(b@.skip(0) =~= b@);
    while i < a.len() && i < b.len() && a[i] == b[i]
        invariant
            i <= a@.len() && i <= b@.len(),
            text_less(a@, b@) == text_less(a@.skip(i as int), b@.skip(i as int)),
        decreases a@.len() - i,
    {
        assert(a@.skip(i as int).drop_first() =~= a@.skip(i + 1));
        assert(b@.skip(i as int).drop_first() =~= b@.skip(i + 1));
        i = i + 1;
    }
    if i == a.len() {
        i < b.len()
    } else if i == b.len() {
        false
    } else {
        assert(a@.skip(i as int)[0] == a@[i as int]);
        assert(b@.skip(i as int)[0] == b@[i as int]);
        (a[i] as u32) < (b[i] as u32)
    }
}

fn same_text(a: &Vec<char>, b: &Vec<char>) -> (r: bool)
    ensures
        r == (a@ == b@),
{
    if a.len() != b.len() {
        return false;
    }
    let mut i: usize = 0;
    while i < a.len()
        invariant
            a@.len() == b@.len(),
            i <= a@.len(),
            forall|j: int| 0 <= j < i ==> a@[j] == b@[j],
        decreases a@.len() - i,
    {
        if a[i] != b[i] {
            return false;
        }
        i = i + 1;
    }
    assert(a@ =~= b@);
    true
}

fn before_exec(keys: &Vec<Vec<char>>, descending: bool, x: usize, y: usize) -> (r: bool)
    requires
        x < keys@.len(),
        y < keys@.len(),
    ensures
        r == row_before(keys@.map_values(|k: Vec<char>| k@), descending, x as int, y as int),
{
    let ghost ks = keys@.map_values(|k: Vec<char>| k@);
    assert(ks[x as int] == keys@[x as int]@);
    assert(ks[y as int] == keys@[y as int]@);
    if same_text(&keys[x], &keys[y]) {
        x < y
    } else if descending {
        text_less_exec(&keys[y], &keys[x])
    } else {
        text_less_exec(&keys[x], &keys[y])
    }
}

/// The stable order of rows with these sort keys.
pub fn sorted_order(keys: &Vec<Vec<char>>, descending: bool) -> (order: Vec<usize>)
    ensures
        is_sorted_order(keys@.map_values(|k: Vec<char>| k@), descending, order@),
{
    let ghost ks = keys@.map_values(|k: Vec<char>| k@);
    let n = keys.len();
    let mut order: Vec<usize> = Vec::new();
    let mut k: usize = 0;
    while k < n
        invariant
            n == keys@.len(),
            ks == keys@.map_values(|k: Vec<char>| k@),
            k <= n,
            order@.len() == k,
            forall|i: int| 0 <= i < k ==> #[trigger] order@[i] < k,
            forall|i: int, j: int| 0 <= i < j < k ==> #[trigger] order@[i] != #[trigger] order@[j],
            forall|i: int, j: int|
                0 <= i < j < k ==> row_before(ks, descending, #[trigger] order@[i] as int, #[trigger] order@[j] as int),
        decreases n - k,
    {
        let mut p: usize = k;
        while p > 0 && before_exec(keys, descending, k, order[p - 1])
            invariant
                n == keys@.len(),
                ks == keys@.map_values(|k: Vec<char>| k@),
                k < n,
                p <= k,
                order@.len() == k,
                forall|i: int| 0 <= i < k ==> #[trigger] order@[i] < k,
                forall|i: int| p <= i < k ==> row_before(ks, descending, k as int, #[trigger] order@[i] as int),
            decreases p,
        {
            p = p - 1;
        }
        let ghost before = order@;
        proof {
            if p > 0 {
                let last = before[p - 1] as int;
                lemma_row_before_order(ks, descending, k as int, last, k as int);
                assert forall|i: int| 0 <= i < p implies row_before(ks, descending, #[trigger] before[i] as int, k as int) by {
                    if i < p - 1 {
                        lemma_row_before_order(ks, descending, before[i] as int, last, k as int);
                    }
                }
            }
        }
        order.insert(p, k);
        proof {
            assert forall|i: int, j: int| 0 <= i < j < k + 1 implies row_before(
                ks,
                descending,
                #[trigger] order@[i] as int,
                #[trigger] order@[j] as int,
            ) by {
                if j < p {
                    assert(order@[i] == before[i] && order@[j] == before[j]);
                } else if j == p {
                    assert(order@[i] == before[i]);
                } else if i > p {
                    assert(order@[i] == before[i - 1] && order@[j] == before[j - 1]);
                } else if i == p {
                    assert(order@[j] == before[j - 1]);
                } else {
                    assert(order@[i] == before[i] && order@[j] == before[j - 1]);
                    lemma_row_before_order(ks, descending, before[i] as int, k as int, before[j - 1] as int);
                }
            }
            assert forall|i: int, j: int| 0 <= i < j < k + 1 implies #[trigger] order@[i] != #[trigger] order@[j] by {
                lemma_row_before_order(ks, descending, order@[i] as int, order@[j] as int, order@[j] as int);
            }
        }
        k = k + 1;
    }
    order
}

/// The sort key of a row: its cell in column `col`, or empty text.
pub open spec fn row_key(row: DataRow, col: int) -> Seq<char> {
    if 0 <= col < row.cells@.len() {
        row.cells@[col].text@
    } else {
        Seq::empty()
    }
}

/// The index of the first column with this id.
pub open spec fn column_index_from(cols: Seq<DataColumn>, id: Seq<char>, i: int) -> Option<int>
    decreases cols.len() - i,
{
    if i < 0 || i >= cols.len() {
        None
    } else if cols[i].id@ == id {
        Some(i)
    } else {
        column_index_from(cols, id, i + 1)
    }
}

proof fn lemma_column_index_bounded(cols: Seq<DataColumn>, id: Seq<char>, i: int)
    requires
        0 <= i,
    ensures
        column_index_from(cols, id, i) matches Some(c) ==> i <= c < cols.len(),
    decreases cols.len() - i,
{
    if i < cols.len() && cols[i].id@ != id {
        lemma_column_index_bounded(cols, id, i + 1);
    }
}

/// The index of the first row with this id.
pub open spec fn row_index_from(ids: Seq<Seq<char>>, id: Seq<char>, i: int) -> Option<int>
    decreases ids.len() - i,
{
    if i < 0 || i >= ids.len() {
        None
    } else if ids[i] == id {
        Some(i)
    } else {
        row_index_from(ids, id, i + 1)
    }
}

/// What a key asks the host to do.
#[derive(Debug, PartialEq, Eq)]
pub enum TableKeyAction {
    Nothing,
    /// Report a selection of this row.
    Select(String),
    /// Report an activation of this row.
    Activate(String),
}

/// A data table's state; the host keeps the handlers and sizes.
#[derive(Debug)]
pub struct DataTable {
    pub columns: Vec<DataColumn>,
    pub rows: Vec<DataRow>,
    pub state: DataTableState,
    pub selected_id: Option<String>,
    pub sort: Option<(String, DataSortDirection)>,
}

impl DataTable {
    pub fn new() -> (t: Self)
        ensures
            t.columns@.len() == 0 && t.rows@.len() == 0,
            t.state is Ready && t.selected_id is None && t.sort is None,
    {
        DataTable { columns: Vec::new(), rows: Vec::new(), state: DataTableState::Ready, selected_id: None, sort: None }
    }

    pub fn column(self, column: DataColumn) -> (t: Self)
        ensures
            t.columns@ == self.columns@.push(column),
            t.rows == self.rows && t.state == self.state,
            t.selected_id == self.selected_id && t.sort == self.sort,
    {
        let mut t = self;
        t.columns.push(column);
        t
    }

    pub fn columns(self, columns: Vec<DataColumn>) -> (t: Self)
        ensures
            t == (DataTable { columns, ..self }),
    {
        DataTable { columns, ..self }
    }

    pub fn row(self, row: DataRow) -> (t: Self)
        ensures
            t.rows@ == self.rows@.push(row),
            t.columns == self.columns && t.state == self.state,
            t.selected_id == self.selected_id && t.sort == self.sort,
    {
        let mut t = self;
        t.rows.push(row);
        t
    }

    pub fn rows(self, rows: Vec<DataRow>) -> (t: Self)
        ensures
            t == (DataTable { rows, ..self }),
    {
        DataTable { rows, ..self }
    }

    pub fn state(self, state: DataTableState) -> (t: Self)
        ensures
            t == (DataTable { state, ..self }),
    {
        DataTable { state, ..self }
    }

    pub fn loading(self, message: String) -> (t: Self)
        ensures
            t == (DataTable { state: DataTableState::Loading(message), ..self }),
    {
        DataTable { state: DataTableState::Loading(message), ..self }
    }

    pub fn empty_message(self, message: String) -> (t: Self)
        ensures
            t == (DataTable { state: DataTableState::Empty(message), ..self }),
    {
        DataTable { state: DataTableState::Empty(message), ..self }
    }

    pub fn error_message(self, message: String) -> (t: Self)
        ensures
            t == (DataTable { state: DataTableState::Error(message), ..self }),
    {
        DataTable { state: DataTableState::Error(message), ..self }
    }

    pub fn selected(self, id: String) -> (t: Self)
        ensures
            t == (DataTable { selected_id: Some(id), ..self }),
    {
        DataTable { selected_id: Some(id), ..self }
    }

    pub fn sort(self, column_id: String, direction: DataSortDirection) -> (t: Self)
        ensures
            t == (DataTable { sort: Some((column_id, direction)), ..self }),
    {
        DataTable { sort: Some((column_id, direction)), ..self }
    }

    /// The index of the sorted column, if the sort names one.
    pub fn sorted_column_index(&self) -> (c: Option<usize>)
        ensures
            c is Some <==> (self.sort matches Some(s) && column_index_from(self.columns@, s.0@, 0) is Some),
            c matches Some(i) ==> (self.sort matches Some(s) && column_index_from(self.columns@, s.0@, 0)
                == Some(i as int)) && i < self.columns@.len(),
    {
        match &self.sort {
            None => None,
            Some((id, _)) => column_position(&self.columns, id),
        }
    }

    /// The sort keys of the rows for column `col`.
    pub fn sort_keys(&self, col: usize) -> (keys: Vec<Vec<char>>)
        ensures
            keys@.map_values(|k: Vec<char>| k@) == self.rows@.map_values(|r: DataRow| row_key(r, col as int)),
    {
        let mut keys: Vec<Vec<char>> = Vec::new();
        let mut i: usize = 0;
        while i < self.rows.len()
            invariant
                i <= self.rows@.len(),
                keys@.len() == i,
                forall|j: int| 0 <= j < i ==> #[trigger] keys@[j]@ == row_key(self.rows@[j], col as int),
            decreases self.rows@.len() - i,
        {
            let row = &self.rows[i];
            let key = if col < row.cells.len() {
                chars_of(row.cells[col].text.as_str())
            } else {
                Vec::new()
            };
            keys.push(key);
            i = i + 1;
        }
        assert(keys@.map_values(|k: Vec<char>| k@) =~= self.rows@.map_values(|r: DataRow| row_key(r, col as int)));
        keys
    }

    /// The order rows show in when the sort is by text: the stable sort of
    /// the sorted column's cells, or the given order when no column is
    /// sorted. (Numeric columns are compared as floating-point numbers,
    /// which the renderer does.)
    pub fn text_row_order(&self) -> (order: Vec<usize>)
        ensures
            match self.sort {
                Some(s) => match column_index_from(self.columns@, s.0@, 0) {
                    Some(c) => is_sorted_order(
                        self.rows@.map_values(|r: DataRow| row_key(r, c)),
                        s.1 == DataSortDirection::Descending,
                        order@,
                    ),
                    None => order@ == Seq::new(self.rows@.len(), |i: int| i as usize),
                },
                None => order@ == Seq::new(self.rows@.len(), |i: int| i as usize),
            },
    {
        match (self.sorted_column_index(), &self.sort) {
            (Some(c), Some((_, dir))) => {
                let keys = self.sort_keys(c);
                let descending = match dir {
                    DataSortDirection::Descending => true,
                    DataSortDirection::Ascending => false,
                };
                sorted_order(&keys, descending)
            },
            _ => {
                let mut order: Vec<usize> = Vec::new();
                let mut i: usize = 0;
                while i < self.rows.len()
                    invariant
                        i <= self.rows@.len(),
                        order@ == Seq::new(i as nat, |j: int| j as usize),
                    decreases self.rows@.len() - i,
                {
                    order.push(i);
                    i = i + 1;
                    assert(order@ =~= Seq::new(i as nat, |j: int| j as usize));
                }
                order
            },
        }
    }

    /// The direction a click on column `col`'s header asks for: the other
    /// direction when it is the sorted column, else ascending.
    pub fn next_direction(&self, col: usize) -> (d: DataSortDirection)
        ensures
            d == match self.sort {
                Some(s) => if column_index_from(self.columns@, s.0@, 0) == Some(col as int) {
                    match s.1 {
                        DataSortDirection::Ascending => DataSortDirection::Descending,
                        DataSortDirection::Descending => DataSortDirection::Ascending,
                    }
                } else {
                    DataSortDirection::Ascending
                },
                None => DataSortDirection::Ascending,
            },
    {
        match (self.sorted_column_index(), &self.sort) {
            (Some(c), Some((_, dir))) => if c == col {
                dir.toggle()
            } else {
                DataSortDirection::Ascending
            },
            _ => DataSortDirection::Ascending,
        }
    }

    /// The arrow shown after the sorted column's title.
    pub fn sort_arrow(&self, col: usize) -> (a: String)
        ensures
            a@ == match self.sort {
                Some(s) => if column_index_from(self.columns@, s.0@, 0) == Some(col as int) {
                    match s.1 {
                        DataSortDirection::Ascending => " \u{2191}"@,
                        DataSortDirection::Descending => " \u{2193}"@,
                    }
                } else {
                    ""@
                },
                None => ""@,
            },
    {
        match (self.sorted_column_index(), &self.sort) {
            (Some(c), Some((_, dir))) => if c == col {
                match dir {
                    DataSortDirection::Ascending => String::from_str(" \u{2191}"),
                    DataSortDirection::Descending => String::from_str(" \u{2193}"),
                }
            } else {
                String::from_str("")
            },
            _ => String::from_str(""),
        }
    }

    /// The message shown instead of rows, if any: the state's message, or
    /// "No rows" for a ready table without rows.
    pub fn placeholder_message(&self) -> (m: Option<String>)
        ensures
            m == match self.state {
                DataTableState::Loading(s) => Some(s),
                DataTableState::Empty(s) => Some(s),
                DataTableState::Error(s) => Some(s),
                DataTableState::Ready => if self.rows@.len() == 0 {
                    m
                } else {
                    None::<String>
                },
            },
            (self.state is Ready && self.rows@.len() == 0) ==> (m matches Some(s) && s@ == "No rows"@),
    {
        match &self.state {
            DataTableState::Loading(s) => Some(s.clone()),
            DataTableState::Empty(s) => Some(s.clone()),
            DataTableState::Error(s) => Some(s.clone()),
            DataTableState::Ready => if self.rows.len() == 0 {
                Some(String::from_str("No rows"))
            } else {
                None
            },
        }
    }

    /// The alignment of row `row`'s cell in column `col`: the cell's own,
    /// else the column's.
    pub fn cell_align(&self, row: usize, col: usize) -> (a: DataCellAlign)
        requires
            row < self.rows@.len(),
            col < self.columns@.len(),
        ensures
            a == if col < self.rows@[row as int].cells@.len() {
                match self.rows@[row as int].cells@[col as int].align {
                    Some(x) => x,
                    None => self.columns@[col as int].align,
                }
            } else {
                self.columns@[col as int].align
            },
    {
        let r = &self.rows[row];
        if col < r.cells.len() {
            match r.cells[col].align {
                Some(x) => x,
                None => self.columns[col].align,
            }
        } else {
            self.columns[col].align
        }
    }

    /// What a key asks for, given the row ids in shown order and which
    /// handlers the host has.
    pub fn key_action(
        row_ids: &Vec<String>,
        selected_id: &Option<String>,
        key: &str,
        has_select: bool,
        has_activate: bool,
    ) -> (a: TableKeyAction)
        ensures
            a == key_action_spec(row_ids@, *selected_id, key@, has_select, has_activate),
    {
        let n = row_ids.len();
        if n == 0 {
            return TableKeyAction::Nothing;
        }
        let selected = match selected_id {
            None => None,
            Some(id) => row_position(row_ids, id),
        };
        let current = match selected {
            Some(i) => i,
            None => 0,
        };
        match NavKey::parse(key) {
            NavKey::Up | NavKey::Down => {
                let next = if nav_is_up(key) {
                    if current > 0 {
                        current - 1
                    } else {
                        0
                    }
                } else if current + 1 < n {
                    current + 1
                } else {
                    n - 1
                };
                if has_select {
                    TableKeyAction::Select(row_ids[next].clone())
                } else {
                    TableKeyAction::Nothing
                }
            },
            NavKey::Return | NavKey::Space => {
                let cur = if current < n - 1 {
                    current
                } else {
                    n - 1
                };
                if has_activate {
                    TableKeyAction::Activate(row_ids[cur].clone())
                } else {
                    TableKeyAction::Nothing
                }
            },
            _ => TableKeyAction::Nothing,
        }
    }
}

/// The position of the first column with this id.
fn column_position(columns: &Vec<DataColumn>, id: &String) -> (p: Option<usize>)
    ensures
        p is Some <==> column_index_from(columns@, id@, 0) is Some,
        p matches Some(i) ==> column_index_from(columns@, id@, 0) == Some(i as int) && i < columns@.len(),
{
    proof {
        lemma_column_index_bounded(columns@, id@, 0);
    }
    let mut i: usize = 0;
    while i < columns.len()
        invariant
            i <= columns@.len(),
            column_index_from(columns@, id@, 0) == column_index_from(columns@, id@, i as int),
        decreases columns@.len() - i,
    {
        if columns[i].id == *id {
            return Some(i);
        }
        i = i + 1;
    }
    None
}

/// The position of the first row with this id.
fn row_position(row_ids: &Vec<String>, id: &String) -> (p: Option<usize>)
    ensures
        p is Some <==> row_index_from(row_ids@.map_values(|s: String| s@), id@, 0) is Some,
        p matches Some(i) ==> row_index_from(row_ids@.map_values(|s: String| s@), id@, 0) == Some(
            i as int,
        ) && i < row_ids@.len(),
{
    let ghost ids = row_ids@.map_values(|s: String| s@);
    let mut i: usize = 0;
    while i < row_ids.len()
        invariant
            ids == row_ids@.map_values(|s: String| s@),
            i <= row_ids@.len(),
            row_index_from(ids, id@, 0) == row_index_from(ids, id@, i as int),
        decreases row_ids@.len() - i,
    {
        assert(ids[i as int] == row_ids@[i as int]@);
        if row_ids[i] == *id {
            return Some(i);
        }
        i = i + 1;
    }
    None
}

fn nav_is_up(key: &str) -> (b: bool)
    ensures
        b == (nav_key_of(key@) == NavKey::Up),
{
    match NavKey::parse(key) {
        NavKey::Up => true,
        _ => false,
    }
}

/// What a key does to a table whose rows show with ids `ids`.
pub open spec fn key_action_spec(
    row_ids: Seq<String>,
    selected: Option<String>,
    key: Seq<char>,
    has_select: bool,
    has_activate: bool,
) -> TableKeyAction {
    let ids = row_ids.map_values(|s: String| s@);
    let n = row_ids.len() as int;
    let current = match selected {
        Some(s) => match row_index_from(ids, s@, 0) {
            Some(i) => i,
            None => 0,
        },
        None => 0,
    };
    if n == 0 {
        TableKeyAction::Nothing
    } else {
        match nav_key_of(key) {
            NavKey::Up => if has_select {
                TableKeyAction::Select(row_ids[if current > 0 { current - 1 } else { 0 }])
            } else {
                TableKeyAction::Nothing
            },
            NavKey::Down => if has_select {
                TableKeyAction::Select(row_ids[if current + 1 < n { current + 1 } else { n - 1 }])
            } else {
                TableKeyAction::Nothing
            },
            NavKey::Return | NavKey::Space => if has_activate {
                TableKeyAction::Activate(row_ids[if current < n - 1 { current } else { n - 1 }])
            } else {
                TableKeyAction::Nothing
            },
            _ => TableKeyAction::Nothing,
        }
    }
}

/// `c` is the row keyboard selection starts from: the first row with the
/// selected id, or the first row when nothing is selected or no row has it.
pub open spec fn is_start_row(row_ids: Seq<String>, selected: Option<String>, c: int) -> bool {
    &&& 0 <= c < row_ids.len()
    &&& match selected {
        Some(s) => (row_ids[c]@ == s@ && forall|j: int| 0 <= j < c ==> #[trigger] row_ids[j]@ != s@)
            || (c == 0 && forall|j: int| 0 <= j < row_ids.len() ==> #[trigger] row_ids[j]@ != s@),
        None => c == 0,
    }
}

proof fn lemma_row_index_is(ids: Seq<Seq<char>>, id: Seq<char>, c: int, i: int)
    requires
        0 <= i <= c < ids.len(),
        forall|j: int| i <= j < c ==> #[trigger] ids[j] != id,
        ids[c] == id,
    ensures
        row_index_from(ids, id, i) == Some(c),
    decreases c - i,
{
    if i < c {
        lemma_row_index_is(ids, id, c, i + 1);
    }
}

proof fn lemma_row_index_none(ids: Seq<Seq<char>>, id: Seq<char>, i: int)
    requires
        0 <= i,
        forall|j: int| 0 <= j < ids.len() ==> #[trigger] ids[j] != id,
    ensures
        row_index_from(ids, id, i) is None,
    decreases ids.len() - i,
{
    if i < ids.len() {
        assert(ids[i] != id);
        lemma_row_index_none(ids, id, i + 1);
    }
}

/// Keyboard selection in a table, from the start row `c`: Up reports the row
/// just above (the first row stays), Down the row just below (the last row
/// stays), when the host handles selection; Return and Space report the
/// start row's activation when the host handles it; every other key, and
/// every key on a table without rows, does nothing.
pub proof fn lemma_table_keys(
    row_ids: Seq<String>,
    selected: Option<String>,
    c: int,
    has_select: bool,
    has_activate: bool,
)
    requires
        is_start_row(row_ids, selected, c),
    ensures
        ({
            let act = |k: Seq<char>| key_action_spec(row_ids, selected, k, has_select, has_activate);
            &&& act("up"@) == if !has_select {
                TableKeyAction::Nothing
            } else if c > 0 {
                TableKeyAction::Select(row_ids[c - 1])
            } else {
                TableKeyAction::Select(row_ids[0])
            }
            &&& act("down"@) == if !has_select {
                TableKeyAction::Nothing
            } else if c + 1 < row_ids.len() {
                TableKeyAction::Select(row_ids[c + 1])
            } else {
                TableKeyAction::Select(row_ids.last())
            }
            &&& act("return"@) == act("space"@)
            &&& act("return"@) == if has_activate {
                TableKeyAction::Activate(row_ids[c])
            } else {
                TableKeyAction::Nothing
            }
            &&& act("escape"@) == TableKeyAction::Nothing
        }),
        forall|k: Seq<char>| key_action_spec(Seq::empty(), selected, k, has_select, has_activate)
            == TableKeyAction::Nothing,
{
    crate::keys::lemma_nav_key_names();
    let ids = row_ids.map_values(|s: String| s@);
    match selected {
        Some(s) => {
            if row_ids[c]@ == s@ && forall|j: int| 0 <= j < c ==> #[trigger] row_ids[j]@ != s@ {
                assert forall|j: int| 0 <= j < c implies #[trigger] ids[j] != s@ by {
                    assert(ids[j] == row_ids[j]@);
                }
                lemma_row_index_is(ids, s@, c, 0);
            } else {
                assert forall|j: int| 0 <= j < ids.len() implies #[trigger] ids[j] != s@ by {
                    assert(ids[j] == row_ids[j]@);
                }
                lemma_row_index_none(ids, s@, 0);
            }
        },
        None => {},
    }
}

} // verus!
