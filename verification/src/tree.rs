//! A hierarchical tree view: items with children that expand and collapse,
//! the visible rows in order, text filtering and keyboard navigation.

use vstd::prelude::*;
use vstd::string::*;
use crate::keys::{nav_key_of, NavKey};
use crate::text::{ascii_lower_chars, ascii_lower_seq, contains_chars, contains_seq};

verus! {

/// One node of a tree.
#[derive(Debug)]
pub struct TreeItem {
    pub id: String,
    pub label: String,
    pub icon: Option<String>,
    pub badge: Option<String>,
    pub expanded: bool,
    pub disabled: bool,
    pub children: Vec<TreeItem>,
}

impl TreeItem {
    /// An expanded, enabled leaf.
    pub fn new(id: String, label: String) -> (t: Self)
        ensures
            t.id == id && t.label == label,
            t.icon is None && t.badge is None,
            t.expanded && !t.disabled,
            t.children@.len() == 0,
    {
        TreeItem { id, label, icon: None, badge: None, expanded: true, disabled: false, children: Vec::new() }
    }

    pub fn icon(self, icon: String) -> (t: Self)
        ensures
            t == (TreeItem { icon: Some(icon), ..self }),
    {
        TreeItem { icon: Some(icon), ..self }
    }

    pub fn badge(self, badge: String) -> (t: Self)
        ensures
            t == (TreeItem { badge: Some(badge), ..self }),
    {
        TreeItem { badge: Some(badge), ..self }
    }

    pub fn expanded(self, expanded: bool) -> (t: Self)
        ensures
            t == (TreeItem { expanded, ..self }),
    {
        TreeItem { expanded, ..self }
    }

    pub fn disabled(self, disabled: bool) -> (t: Self)
        ensures
            t == (TreeItem { disabled, ..self }),
    {
        TreeItem { disabled, ..self }
    }

    /// Add a child at the end.
    pub fn child(self, child: TreeItem) -> (t: Self)
        ensures
            t.children@ == self.children@.push(child),
            t.id == self.id && t.label == self.label && t.icon == self.icon && t.badge == self.badge,
            t.expanded == self.expanded && t.disabled == self.disabled,
    {
        let mut t = self;
        t.children.push(child);
        t
    }
}

/// A visible row: what keyboard navigation needs of an item.
#[derive(Debug)]
pub struct FlatTreeItem {
    pub id: String,
    pub disabled: bool,
    pub expanded: bool,
    pub has_children: bool,
}

pub open spec fn flat_entry(item: TreeItem) -> FlatTreeItem {
    FlatTreeItem {
        id: item.id,
        disabled: item.disabled,
        expanded: item.expanded,
        has_children: item.children@.len() > 0,
    }
}

/// The rows an item shows: itself, then its children's rows when expanded.
pub open spec fn flat_item(item: TreeItem) -> Seq<FlatTreeItem>
    decreases item,
{
    seq![flat_entry(item)] + if item.expanded {
        flat_list(item.children@)
    } else {
        Seq::empty()
    }
}

/// The rows a list of items shows, in order.
pub open spec fn flat_list(items: Seq<TreeItem>) -> Seq<FlatTreeItem>
    decreases items,
{
    if items.len() == 0 {
        Seq::empty()
    } else {
        flat_list(items.drop_last()) + flat_item(items.last())
    }
}

/// Whether an item's label (ASCII lower-cased) contains `q`, or one of its
/// descendants' does.
pub open spec fn item_matches(item: TreeItem, q: Seq<char>) -> bool
    decreases item,
{
    contains_seq(ascii_lower_seq(item.label@), q) || any_matches(item.children@, q)
}

/// Whether some item of the list matches `q`.
pub open spec fn any_matches(items: Seq<TreeItem>, q: Seq<char>) -> bool
    decreases items,
{
    if items.len() == 0 {
        false
    } else {
        any_matches(items.drop_last(), q) || item_matches(items.last(), q)
    }
}

/// A list matches when one of its items does.
pub proof fn lemma_any_matches(items: Seq<TreeItem>, q: Seq<char>)
    ensures
        any_matches(items, q) <==> exists|k: int| 0 <= k < items.len() && item_matches(#[trigger] items[k], q),
    decreases items.len(),
{
    if items.len() > 0 {
        lemma_any_matches(items.drop_last(), q);
        if exists|k: int| 0 <= k < items.drop_last().len() && item_matches(#[trigger] items.drop_last()[k], q) {
            let k = choose|k: int| 0 <= k < items.drop_last().len() && item_matches(#[trigger] items.drop_last()[k], q);
            assert(items[k] == items.drop_last()[k]);
        }
        if exists|k: int| 0 <= k < items.len() && item_matches(#[trigger] items[k], q) {
            let k = choose|k: int| 0 <= k < items.len() && item_matches(#[trigger] items[k], q);
            if k < items.len() - 1 {
                assert(items.drop_last()[k] == items[k]);
            }
        }
    }
}

/// What a key asks the host to do.
#[derive(Debug, PartialEq, Eq)]
pub enum TreeKeyAction {
    Nothing,
    /// Report a selection of this item.
    Select(String),
    /// Report that this item should expand (`true`) or collapse.
    Toggle(String, bool),
    /// Report an activation of this item.
    Activate(String),
}

/// From row `i` on, the first row whose id is `id`; 0 when none.
pub open spec fn first_row_from(flat: Seq<FlatTreeItem>, id: Seq<char>, i: int) -> int
    decreases flat.len() - i,
{
    if i < 0 || i >= flat.len() {
        0
    } else if flat[i].id@ == id {
        i
    } else {
        first_row_from(flat, id, i + 1)
    }
}

/// The first row whose id is `id`; 0 when none.
pub open spec fn position_of(flat: Seq<FlatTreeItem>, id: Seq<char>) -> int {
    first_row_from(flat, id, 0)
}

/// The row keyboard navigation starts from: the selected item's, else the
/// first.
pub open spec fn current_row(flat: Seq<FlatTreeItem>, selected: Option<String>) -> int {
    match selected {
        Some(s) => position_of(flat, s@),
        None => 0,
    }
}

/// What a key does, given the visible rows, the selection and which
/// handlers the host has.
pub open spec fn key_action_spec(
    flat: Seq<FlatTreeItem>,
    selected: Option<String>,
    key: Seq<char>,
    has_select: bool,
    has_activate: bool,
    has_toggle: bool,
) -> TreeKeyAction {
    let cur = current_row(flat, selected);
    if flat.len() == 0 {
        TreeKeyAction::Nothing
    } else {
        match nav_key_of(key) {
            NavKey::Up => if has_select {
                TreeKeyAction::Select(flat[if cur > 0 { cur - 1 } else { 0 }].id)
            } else {
                TreeKeyAction::Nothing
            },
            NavKey::Down => if has_select {
                TreeKeyAction::Select(flat[if cur + 1 < flat.len() { cur + 1 } else { flat.len() - 1 }].id)
            } else {
                TreeKeyAction::Nothing
            },
            NavKey::Right => if flat[cur].has_children && !flat[cur].expanded && has_toggle {
                TreeKeyAction::Toggle(flat[cur].id, true)
            } else {
                TreeKeyAction::Nothing
            },
            NavKey::Left => if flat[cur].has_children && flat[cur].expanded && has_toggle {
                TreeKeyAction::Toggle(flat[cur].id, false)
            } else {
                TreeKeyAction::Nothing
            },
            NavKey::Return | NavKey::Space => if flat[cur].disabled {
                TreeKeyAction::Nothing
            } else if has_activate {
                TreeKeyAction::Activate(flat[cur].id)
            } else if has_select {
                TreeKeyAction::Select(flat[cur].id)
            } else {
                TreeKeyAction::Nothing
            },
            _ => TreeKeyAction::Nothing,
        }
    }
}

/// `c` is where keyboard navigation starts: the first row showing the
/// selected item, or the first row when nothing is selected or the
/// selected item shows in no row.
pub open spec fn is_start_row(flat: Seq<FlatTreeItem>, selected: Option<String>, c: int) -> bool {
    &&& 0 <= c < flat.len()
    &&& match selected {
        Some(s) => (flat[c].id@ == s@ && forall|j: int| 0 <= j < c ==> #[trigger] flat[j].id@ != s@)
            || (c == 0 && forall|j: int| 0 <= j < flat.len() ==> #[trigger] flat[j].id@ != s@),
        None => c == 0,
    }
}

proof fn lemma_first_row_is(flat: Seq<FlatTreeItem>, id: Seq<char>, c: int, i: int)
    requires
        0 <= i <= c < flat.len(),
        forall|j: int| i <= j < c ==> #[trigger] flat[j].id@ != id,
        flat[c].id@ == id || (c == 0 && forall|j: int| 0 <= j < flat.len() ==> #[trigger] flat[j].id@ != id),
    ensures
        first_row_from(flat, id, i) == c,
    decreases flat.len() - i,
{
    if flat[c].id@ == id {
        if i < c {
            lemma_first_row_is(flat, id, c, i + 1);
        }
    } else {
        lemma_no_row_from(flat, id, i);
    }
}

proof fn lemma_no_row_from(flat: Seq<FlatTreeItem>, id: Seq<char>, i: int)
    requires
        0 <= i,
        forall|j: int| 0 <= j < flat.len() ==> #[trigger] flat[j].id@ != id,
    ensures
        first_row_from(flat, id, i) == 0,
    decreases flat.len() - i,
{
    if i < flat.len() {
        assert(flat[i].id@ != id);
        lemma_no_row_from(flat, id, i + 1);
    }
}

/// Keyboard navigation in a tree, from the start row `c`: Up selects the row
/// above (the first row stays), Down the row below (the last stays); Right
/// asks to expand a collapsed parent and Left to collapse an expanded one,
/// when the host handles toggling; Return and Space activate an enabled
/// row, or select it when the host has no activation handler; every other
/// key, and every key on an empty tree, does nothing.
pub proof fn lemma_tree_keys(
    flat: Seq<FlatTreeItem>,
    selected: Option<String>,
    c: int,
    has_select: bool,
    has_activate: bool,
    has_toggle: bool,
)
    requires
        is_start_row(flat, selected, c),
    ensures
        ({
            let act = |k: Seq<char>| key_action_spec(flat, selected, k, has_select, has_activate, has_toggle);
            let row = flat[c];
            &&& act("up"@) == if !has_select {
                TreeKeyAction::Nothing
            } else if c > 0 {
                TreeKeyAction::Select(flat[c - 1].id)
            } else {
                TreeKeyAction::Select(flat[0].id)
            }
            &&& act("down"@) == if !has_select {
                TreeKeyAction::Nothing
            } else if c + 1 < flat.len() {
                TreeKeyAction::Select(flat[c + 1].id)
            } else {
                TreeKeyAction::Select(flat.last().id)
            }
            &&& (row.has_children && row.expanded && has_toggle ==> act("left"@) == TreeKeyAction::Toggle(row.id, false))
            &&& (!(row.has_children && row.expanded && has_toggle) ==> act("left"@) == TreeKeyAction::Nothing)
            &&& (row.has_children && !row.expanded && has_toggle ==> act("right"@) == TreeKeyAction::Toggle(row.id, true))
            &&& (!(row.has_children && !row.expanded && has_toggle) ==> act("right"@) == TreeKeyAction::Nothing)
            &&& act("return"@) == act("space"@)
            &&& act("return"@) == if row.disabled {
                TreeKeyAction::Nothing
            } else if has_activate {
                TreeKeyAction::Activate(row.id)
            } else if has_select {
                TreeKeyAction::Select(row.id)
            } else {
                TreeKeyAction::Nothing
            }
            &&& act("escape"@) == TreeKeyAction::Nothing
        }),
        forall|k: Seq<char>| key_action_spec(Seq::empty(), selected, k, has_select, has_activate, has_toggle)
            == TreeKeyAction::Nothing,
{
    crate::keys::lemma_nav_key_names();
    match selected {
        Some(s) => lemma_first_row_is(flat, s@, c, 0),
        None => {},
    }
    assert(current_row(flat, selected) == c);
}

proof fn lemma_position_bounded(flat: Seq<FlatTreeItem>, id: Seq<char>, i: int)
    requires
        0 <= i,
    ensures
        0 <= first_row_from(flat, id, i),
        flat.len() > 0 ==> first_row_from(flat, id, i) < flat.len(),
    decreases flat.len() - i,
{
    if i < flat.len() && flat[i].id@ != id {
        lemma_position_bounded(flat, id, i + 1);
    }
}

/// The row of the first item with id `id`, or 0.
fn position(flat: &Vec<FlatTreeItem>, id: &String) -> (p: usize)
    ensures
        p == position_of(flat@, id@),
        flat@.len() > 0 ==> p < flat@.len(),
{
    proof {
        lemma_position_bounded(flat@, id@, 0);
    }
    let mut i: usize = 0;
    while i < flat.len()
        invariant
            i <= flat@.len(),
            position_of(flat@, id@) == first_row_from(flat@, id@, i as int),
        decreases flat@.len() - i,
    {
        if flat[i].id == *id {
            return i;
        }
        i = i + 1;
    }
    0
}

/// A tree view's state; the host keeps the event handlers.
#[derive(Debug)]
pub struct Tree {
    pub items: Vec<TreeItem>,
    pub selected_id: Option<String>,
    /// Only items matching it (or with a matching descendant) are shown.
    pub filter: Option<String>,
}

impl Tree {
    pub fn new() -> (t: Self)
        ensures
            t.items@.len() == 0 && t.selected_id is None && t.filter is None,
    {
        Tree { items: Vec::new(), selected_id: None, filter: None }
    }

    pub fn item(self, item: TreeItem) -> (t: Self)
        ensures
            t.items@ == self.items@.push(item),
            t.selected_id == self.selected_id && t.filter == self.filter,
    {
        let mut t = self;
        t.items.push(item);
        t
    }

    pub fn items(self, items: Vec<TreeItem>) -> (t: Self)
        ensures
            t.items == items,
            t.selected_id == self.selected_id && t.filter == self.filter,
    {
        Tree { items, ..self }
    }

    pub fn selected(self, id: String) -> (t: Self)
        ensures
            t.selected_id == Some(id),
            t.items == self.items && t.filter == self.filter,
    {
        Tree { selected_id: Some(id), ..self }
    }

    /// Filter by `query`; an empty query leaves the filter as it was.
    pub fn filter(self, query: String) -> (t: Self)
        ensures
            t.filter == if query@.len() > 0 {
                Some(query)
            } else {
                self.filter
            },
            t.items == self.items && t.selected_id == self.selected_id,
    {
        if query.as_str().unicode_len() > 0 {
            Tree { filter: Some(query), ..self }
        } else {
            self
        }
    }

    /// Append the visible rows of `items` to `out`.
    pub fn flatten(items: &Vec<TreeItem>, out: &mut Vec<FlatTreeItem>)
        ensures
            final(out)@ == old(out)@ + flat_list(items@),
        decreases items@,
    {
        let mut i: usize = 0;
        proof {
            assert(items@.take(0) =~= Seq::<TreeItem>::empty());
            assert(out@ =~= old(out)@ + flat_list(items@.take(0)));
        }
        while i < items.len()
            invariant
                i <= items@.len(),
                out@ == old(out)@ + flat_list(items@.take(i as int)),
            decreases items@.len() - i,
        {
            let item = &items[i];
            let ghost before = out@;
            out.push(
                FlatTreeItem {
                    id: item.id.clone(),
                    disabled: item.disabled,
                    expanded: item.expanded,
                    has_children: item.children.len() > 0,
                },
            );
            if item.expanded {
                assert(decreases_to!(items@ => items@[i as int]));
                Self::flatten(&item.children, out);
            }
            proof {
                let it = items@[i as int];
                assert(items@.take(i + 1).drop_last() =~= items@.take(i as int));
                assert(items@.take(i + 1).last() == it);
                assert(flat_list(items@.take(i + 1)) == flat_list(items@.take(i as int)) + flat_item(it));
                assert(flat_item(it) == seq![flat_entry(it)] + if it.expanded {
                    flat_list(it.children@)
                } else {
                    Seq::empty()
                });
                assert(out@ =~= old(out)@ + flat_list(items@.take(i + 1)));
            }
            i = i + 1;
        }
        proof {
            assert(items@.take(items@.len() as int) =~= items@);
        }
    }

    /// Whether an item or a descendant matches the filter query
    /// (case-insensitive for ASCII).
    pub fn item_matches_filter(item: &TreeItem, query: &str) -> (b: bool)
        ensures
            b == item_matches(*item, ascii_lower_seq(query@)),
    {
        let q = ascii_lower_chars(query);
        Self::matches_lowered(item, &q)
    }

    fn matches_lowered(item: &TreeItem, q: &Vec<char>) -> (b: bool)
        ensures
            b == item_matches(*item, q@),
        decreases *item,
    {
        let label = ascii_lower_chars(item.label.as_str());
        if contains_chars(&label, q) {
            return true;
        }
        let mut i: usize = 0;
        proof {
            assert(item.children@.take(0) =~= Seq::<TreeItem>::empty());
        }
        while i < item.children.len()
            invariant
                i <= item.children@.len(),
                !any_matches(item.children@.take(i as int), q@),
            decreases item.children@.len() - i,
        {
            assert(decreases_to!(*item => item.children@[i as int]));
            let hit = Self::matches_lowered(&item.children[i], q);
            proof {
                assert(item.children@.take(i + 1).drop_last() =~= item.children@.take(i as int));
                assert(item.children@.take(i + 1).last() == item.children@[i as int]);
            }
            if hit {
                proof {
                    lemma_any_matches(item.children@, q@);
                }
                return true;
            }
            i = i + 1;
        }
        proof {
            assert(item.children@.take(item.children@.len() as int) =~= item.children@);
        }
        false
    }

    /// Whether an item shows under the tree's filter.
    pub fn shows(&self, item: &TreeItem) -> (b: bool)
        ensures
            b == match self.filter {
                Some(q) => item_matches(*item, ascii_lower_seq(q@)),
                None => true,
            },
    {
        match &self.filter {
            Some(q) => Self::item_matches_filter(item, q.as_str()),
            None => true,
        }
    }

    /// The visible rows of the whole tree.
    pub fn rows(&self) -> (r: Vec<FlatTreeItem>)
        ensures
            r@ == flat_list(self.items@),
    {
        let mut r: Vec<FlatTreeItem> = Vec::new();
        Self::flatten(&self.items, &mut r);
        assert(r@ =~= flat_list(self.items@));
        r
    }

    /// What a key asks for (see [`key_action_spec`]).
    pub fn key_action(
        flat: &Vec<FlatTreeItem>,
        selected: &Option<String>,
        key: &str,
        has_select: bool,
        has_activate: bool,
        has_toggle: bool,
    ) -> (a: TreeKeyAction)
        ensures
            a == key_action_spec(flat@, *selected, key@, has_select, has_activate, has_toggle),
    {
        let n = flat.len();
        if n == 0 {
            return TreeKeyAction::Nothing;
        }
        let cur = match selected {
            Some(s) => position(flat, s),
            None => 0,
        };
        let item = &flat[cur];
        match NavKey::parse(key) {
            NavKey::Up => if has_select {
                let next = if cur > 0 {
                    cur - 1
                } else {
                    0
                };
                TreeKeyAction::Select(flat[next].id.clone())
            } else {
                TreeKeyAction::Nothing
            },
            NavKey::Down => if has_select {
                let next = if cur + 1 < n {
                    cur + 1
                } else {
                    n - 1
                };
                TreeKeyAction::Select(flat[next].id.clone())
            } else {
                TreeKeyAction::Nothing
            },
            NavKey::Right => if item.has_children && !item.expanded && has_toggle {
                TreeKeyAction::Toggle(item.id.clone(), true)
            } else {
                TreeKeyAction::Nothing
            },
            NavKey::Left => if item.has_children && item.expanded && has_toggle {
                TreeKeyAction::Toggle(item.id.clone(), false)
            } else {
                TreeKeyAction::Nothing
            },
            NavKey::Return | NavKey::Space => if item.disabled {
                TreeKeyAction::Nothing
            } else if has_activate {
                TreeKeyAction::Activate(item.id.clone())
            } else if has_select {
                TreeKeyAction::Select(item.id.clone())
            } else {
                TreeKeyAction::Nothing
            },
            _ => TreeKeyAction::Nothing,
        }
    }

    /// The element index of the `child_idx`-th child of the row with element
    /// index `index`.
    pub fn child_row_index(index: usize, child_idx: usize) -> (r: usize)
        requires
            index * 100 + child_idx + 1 <= usize::MAX,
        ensures
            r == index * 100 + child_idx + 1,
    {
        index * 100 + child_idx + 1
    }
}

/// A collapsed item shows only its own row; an expanded one shows its
/// children's rows after it.
pub proof fn lemma_collapsed_item_shows_one_row(item: TreeItem)
    ensures
        !item.expanded ==> flat_item(item) == seq![flat_entry(item)],
        item.expanded ==> flat_item(item) == seq![flat_entry(item)] + flat_list(item.children@),
        flat_item(item)[0] == flat_entry(item),
{
    assert(seq![flat_entry(item)] + Seq::<FlatTreeItem>::empty() =~= seq![flat_entry(item)]);
}

/// The rows of two lists of items are the rows of the first, then those of
/// the second.
pub proof fn lemma_flat_list_concat(a: Seq<TreeItem>, b: Seq<TreeItem>)
    ensures
        flat_list(a + b) == flat_list(a) + flat_list(b),
    decreases b.len(),
{
    if b.len() == 0 {
        assert(a + b =~= a);
        assert(flat_list(a) + Seq::<FlatTreeItem>::empty() =~= flat_list(a));
    } else {
        lemma_flat_list_concat(a, b.drop_last());
        assert((a + b).drop_last() =~= a + b.drop_last());
        assert((a + b).last() == b.last());
        assert(flat_list(a) + flat_list(b.drop_last()) + flat_item(b.last()) =~= flat_list(a) + (flat_list(
            b.drop_last(),
        ) + flat_item(b.last())));
    }
}

} // verus!
