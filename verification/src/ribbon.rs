//! The ribbon: tabs of command groups, contextual tabs that come and go,
//! a collapsible content row, and the groups that do not fit moved to an
//! overflow menu.
//!
//! Widths are estimated from label lengths, in half pixels so that every
//! estimate is a whole number.

use vstd::prelude::*;
use vstd::string::*;
use crate::keys::str_eq;

verus! {

/// One command of a group. The renderer keeps click handlers by position.
#[derive(Debug)]
pub enum RibbonItemDef {
    /// A tall button: a large icon above its label.
    LargeButton { label: String, icon: String },
    /// A compact button: a small icon beside its label (no icon when empty).
    Button { label: String, icon: String },
    /// A compact icon-only button.
    IconButton { icon: String, tooltip: String },
    /// A compact toggle; a click reports the opposite of `selected`.
    ToggleButton { label: String, icon: String, selected: bool },
    /// Compact items stacked in columns of three.
    Stack(Vec<RibbonItemDef>),
    Separator,
}

#[derive(Debug)]
pub struct RibbonGroupDef {
    pub name: String,
    pub items: Vec<RibbonItemDef>,
}

/// Builds a group.
#[derive(Debug)]
pub struct RibbonGroupBuilder(pub RibbonGroupDef);

impl RibbonGroupBuilder {
    pub fn new(name: String) -> (b: Self)
        ensures
            b.0.name == name && b.0.items@.len() == 0,
    {
        RibbonGroupBuilder(RibbonGroupDef { name, items: Vec::new() })
    }

    fn push(self, item: RibbonItemDef) -> (b: Self)
        ensures
            b.0.name == self.0.name,
            b.0.items@ == self.0.items@.push(item),
    {
        let mut g = self.0;
        g.items.push(item);
        RibbonGroupBuilder(g)
    }

    pub fn large_button(self, label: String, icon: String) -> (b: Self)
        ensures
            b.0.name == self.0.name,
            b.0.items@ == self.0.items@.push(RibbonItemDef::LargeButton { label, icon }),
    {
        self.push(RibbonItemDef::LargeButton { label, icon })
    }

    pub fn button(self, label: String, icon: String) -> (b: Self)
        ensures
            b.0.name == self.0.name,
            b.0.items@ == self.0.items@.push(RibbonItemDef::Button { label, icon }),
    {
        self.push(RibbonItemDef::Button { label, icon })
    }

    pub fn icon_button(self, icon: String, tooltip: String) -> (b: Self)
        ensures
            b.0.name == self.0.name,
            b.0.items@ == self.0.items@.push(RibbonItemDef::IconButton { icon, tooltip }),
    {
        self.push(RibbonItemDef::IconButton { icon, tooltip })
    }

    pub fn toggle_button(self, label: String, icon: String, selected: bool) -> (b: Self)
        ensures
            b.0.name == self.0.name,
            b.0.items@ == self.0.items@.push(RibbonItemDef::ToggleButton { label, icon, selected }),
    {
        self.push(RibbonItemDef::ToggleButton { label, icon, selected })
    }

    /// Add a stack of the compact items `stack` holds.
    pub fn stack(self, stack: RibbonStackBuilder) -> (b: Self)
        ensures
            b.0.name == self.0.name,
            b.0.items@ == self.0.items@.push(RibbonItemDef::Stack(stack.0)),
    {
        self.push(RibbonItemDef::Stack(stack.build()))
    }

    pub fn separator(self) -> (b: Self)
        ensures
            b.0.name == self.0.name,
            b.0.items@ == self.0.items@.push(RibbonItemDef::Separator),
    {
        self.push(RibbonItemDef::Separator)
    }

    pub fn build(self) -> (g: RibbonGroupDef)
        ensures
            g == self.0,
    {
        self.0
    }
}

/// Builds the compact items of a stack.
#[derive(Debug)]
pub struct RibbonStackBuilder(pub Vec<RibbonItemDef>);

impl RibbonStackBuilder {
    pub fn new() -> (b: Self)
        ensures
            b.0@.len() == 0,
    {
        RibbonStackBuilder(Vec::new())
    }

    pub fn button(self, label: String, icon: String) -> (b: Self)
        ensures
            b.0@ == self.0@.push(RibbonItemDef::Button { label, icon }),
    {
        let mut v = self.0;
        v.push(RibbonItemDef::Button { label, icon });
        RibbonStackBuilder(v)
    }

    pub fn icon_button(self, icon: String, tooltip: String) -> (b: Self)
        ensures
            b.0@ == self.0@.push(RibbonItemDef::IconButton { icon, tooltip }),
    {
        let mut v = self.0;
        v.push(RibbonItemDef::IconButton { icon, tooltip });
        RibbonStackBuilder(v)
    }

    pub fn toggle_button(self, label: String, icon: String, selected: bool) -> (b: Self)
        ensures
            b.0@ == self.0@.push(RibbonItemDef::ToggleButton { label, icon, selected }),
    {
        let mut v = self.0;
        v.push(RibbonItemDef::ToggleButton { label, icon, selected });
        RibbonStackBuilder(v)
    }

    pub fn build(self) -> (v: Vec<RibbonItemDef>)
        ensures
            v == self.0,
    {
        self.0
    }
}

#[derive(Debug)]
pub struct RibbonTabDef {
    pub name: String,
    pub groups: Vec<RibbonGroupDef>,
}

/// Builds a tab.
#[derive(Debug)]
pub struct RibbonTabBuilder(pub RibbonTabDef);

impl RibbonTabBuilder {
    pub fn new(name: String) -> (b: Self)
        ensures
            b.0.name == name && b.0.groups@.len() == 0,
    {
        RibbonTabBuilder(RibbonTabDef { name, groups: Vec::new() })
    }

    /// Add the group `group` builds.
    pub fn group(self, group: RibbonGroupBuilder) -> (b: Self)
        ensures
            b.0.name == self.0.name,
            b.0.groups@ == self.0.groups@.push(group.0),
    {
        let mut t = self.0;
        t.groups.push(group.build());
        RibbonTabBuilder(t)
    }

    pub fn build(self) -> (t: RibbonTabDef)
        ensures
            t == self.0,
    {
        self.0
    }
}

/// A tab shown only in some contexts.
#[derive(Debug)]
pub struct ContextualTabDef {
    pub name: String,
    /// Whether the tab strip shows it.
    pub visible: bool,
    pub tab: RibbonTabDef,
}

/// Where the active tab's groups come from.
#[derive(Debug, PartialEq, Eq)]
pub enum ActiveTab {
    /// The normal tab at this index.
    Normal(usize),
    /// The contextual tab at this index of the contextual tabs.
    Contextual(usize),
    /// The active index names no shown tab; no groups show.
    Missing,
}

/// The indices of the visible contextual tabs, in order.
pub open spec fn visible_contextual(cts: Seq<ContextualTabDef>, k: int) -> Seq<usize>
    decreases k,
{
    if k <= 0 {
        Seq::empty()
    } else if cts[k - 1].visible {
        visible_contextual(cts, k - 1).push((k - 1) as usize)
    } else {
        visible_contextual(cts, k - 1)
    }
}

/// The index of the first contextual tab named `name`.
pub open spec fn contextual_named(cts: Seq<ContextualTabDef>, name: Seq<char>, i: int) -> Option<int>
    decreases cts.len() - i,
{
    if i < 0 || i >= cts.len() {
        None
    } else if cts[i].name@ == name {
        Some(i)
    } else {
        contextual_named(cts, name, i + 1)
    }
}

/// The ribbon's state; the renderer keeps handlers and the window size.
#[derive(Debug)]
pub struct RibbonBar {
    pub tabs: Vec<RibbonTabDef>,
    pub contextual_tabs: Vec<ContextualTabDef>,
    /// Index into the shown tabs: normal tabs first, then the visible
    /// contextual ones.
    pub active_tab: usize,
    /// Only the tab strip shows.
    pub collapsed: bool,
    pub overflow_open: bool,
}

impl RibbonBar {
    pub fn new() -> (r: Self)
        ensures
            r.tabs@.len() == 0 && r.contextual_tabs@.len() == 0,
            r.active_tab == 0 && !r.collapsed && !r.overflow_open,
    {
        RibbonBar { tabs: Vec::new(), contextual_tabs: Vec::new(), active_tab: 0, collapsed: false, overflow_open: false }
    }

    /// Add the normal tab `tab` builds.
    pub fn tab(self, tab: RibbonTabBuilder) -> (r: Self)
        ensures
            r.tabs@ == self.tabs@.push(tab.0),
            r.contextual_tabs == self.contextual_tabs && r.active_tab == self.active_tab,
            r.collapsed == self.collapsed && r.overflow_open == self.overflow_open,
    {
        let mut r = self;
        r.tabs.push(tab.build());
        r
    }

    /// Add a contextual tab named `name`, shown or not, with the groups
    /// `tab` builds (its own name is left empty).
    pub fn contextual_tab(self, name: String, visible: bool, tab: RibbonTabBuilder) -> (r: Self)
        ensures
            r.contextual_tabs@.len() == self.contextual_tabs@.len() + 1,
            r.contextual_tabs@.drop_last() == self.contextual_tabs@,
            r.contextual_tabs@.last().name == name,
            r.contextual_tabs@.last().visible == visible,
            r.contextual_tabs@.last().tab.name@.len() == 0,
            r.contextual_tabs@.last().tab.groups == tab.0.groups,
            r.tabs == self.tabs && r.active_tab == self.active_tab,
            r.collapsed == self.collapsed && r.overflow_open == self.overflow_open,
    {
        let mut r = self;
        let def = tab.build();
        r.contextual_tabs.push(ContextualTabDef { name, visible, tab: RibbonTabDef { name: String::new(), groups: def.groups } });
        assert(r.contextual_tabs@.drop_last() =~= self.contextual_tabs@);
        r
    }

    /// Show or hide the first contextual tab with this name; hiding one
    /// while a contextual tab is active makes the first tab active. A name
    /// no contextual tab has changes nothing.
    pub fn set_contextual_visible(&mut self, name: &str, visible: bool)
        ensures
            final(self).tabs == old(self).tabs,
            final(self).collapsed == old(self).collapsed,
            final(self).overflow_open == old(self).overflow_open,
            final(self).contextual_tabs@.len() == old(self).contextual_tabs@.len(),
            match contextual_named(old(self).contextual_tabs@, name@, 0) {
                None => final(self).contextual_tabs@ == old(self).contextual_tabs@
                    && final(self).active_tab == old(self).active_tab,
                Some(i) => {
                    &&& final(self).contextual_tabs@[i].visible == visible
                    &&& final(self).contextual_tabs@[i].name == old(self).contextual_tabs@[i].name
                    &&& final(self).contextual_tabs@[i].tab == old(self).contextual_tabs@[i].tab
                    &&& forall|j: int|
                        0 <= j < old(self).contextual_tabs@.len() && j != i ==> final(self).contextual_tabs@[j]
                            == old(self).contextual_tabs@[j]
                    &&& final(self).active_tab == if !visible && old(self).active_tab >= old(self).tabs@.len() {
                        0
                    } else {
                        old(self).active_tab
                    }
                },
            },
    {
        let mut i: usize = 0;
        while i < self.contextual_tabs.len()
            invariant
                i <= self.contextual_tabs@.len(),
                self.contextual_tabs == old(self).contextual_tabs,
                self.tabs == old(self).tabs,
                self.active_tab == old(self).active_tab,
                self.collapsed == old(self).collapsed,
                self.overflow_open == old(self).overflow_open,
                contextual_named(old(self).contextual_tabs@, name@, 0) == contextual_named(
                    old(self).contextual_tabs@,
                    name@,
                    i as int,
                ),
            decreases self.contextual_tabs@.len() - i,
        {
            if str_eq(self.contextual_tabs[i].name.as_str(), name) {
                let mut ct = self.contextual_tabs.remove(i);
                ct.visible = visible;
                self.contextual_tabs.insert(i, ct);
                let n_normal = self.tabs.len();
                if !visible && self.active_tab >= n_normal {
                    self.active_tab = 0;
                }
                return;
            }
            i = i + 1;
        }
    }

    /// Set the state of the toggle at item `item_idx` of group `group_idx`
    /// of normal tab `tab_idx`; any other path changes nothing.
    pub fn set_toggle_selected(&mut self, tab_idx: usize, group_idx: usize, item_idx: usize, selected: bool)
        ensures
            final(self).contextual_tabs == old(self).contextual_tabs,
            final(self).active_tab == old(self).active_tab,
            final(self).collapsed == old(self).collapsed,
            final(self).overflow_open == old(self).overflow_open,
            final(self).tabs@.len() == old(self).tabs@.len(),
            toggle_set(old(self).tabs@, final(self).tabs@, tab_idx as int, group_idx as int, item_idx as int, selected),
    {
        if tab_idx >= self.tabs.len() {
            return;
        }
        if group_idx >= self.tabs[tab_idx].groups.len() {
            return;
        }
        if item_idx >= self.tabs[tab_idx].groups[group_idx].items.len() {
            return;
        }
        let is_toggle = match &self.tabs[tab_idx].groups[group_idx].items[item_idx] {
            RibbonItemDef::ToggleButton { .. } => true,
            _ => false,
        };
        if !is_toggle {
            return;
        }
        let ghost t0 = self.tabs@;
        let ghost g0 = t0[tab_idx as int].groups@;
        let ghost i0 = g0[group_idx as int].items@;
        let mut tab = self.tabs.remove(tab_idx);
        let mut group = tab.groups.remove(group_idx);
        let item = group.items.remove(item_idx);
        let new_item = match item {
            RibbonItemDef::ToggleButton { label, icon, .. } => RibbonItemDef::ToggleButton { label, icon, selected },
            other => other,
        };
        group.items.insert(item_idx, new_item);
        assert(group.items@ =~= i0.update(item_idx as int, new_item));
        tab.groups.insert(group_idx, group);
        assert(tab.groups@ =~= g0.update(group_idx as int, group));
        self.tabs.insert(tab_idx, tab);
        assert(self.tabs@ =~= t0.update(tab_idx as int, tab));
    }

    /// The visible contextual tabs' indices, in order.
    pub fn visible_contextual_tabs(&self) -> (v: Vec<usize>)
        ensures
            v@ == visible_contextual(self.contextual_tabs@, self.contextual_tabs@.len() as int),
    {
        let mut v: Vec<usize> = Vec::new();
        let mut i: usize = 0;
        while i < self.contextual_tabs.len()
            invariant
                i <= self.contextual_tabs@.len(),
                v@ == visible_contextual(self.contextual_tabs@, i as int),
            decreases self.contextual_tabs@.len() - i,
        {
            if self.contextual_tabs[i].visible {
                v.push(i);
            }
            i = i + 1;
        }
        v
    }

    /// Where the active tab's groups come from.
    pub fn active_source(&self) -> (a: ActiveTab)
        ensures
            a == active_source_spec(self.tabs@.len() as int, self.active_tab as int, visible_contextual(
                self.contextual_tabs@,
                self.contextual_tabs@.len() as int,
            )),
    {
        let n_normal = self.tabs.len();
        if self.active_tab < n_normal {
            return ActiveTab::Normal(self.active_tab);
        }
        let visible = self.visible_contextual_tabs();
        let k = self.active_tab - n_normal;
        if k < visible.len() {
            ActiveTab::Contextual(visible[k])
        } else {
            ActiveTab::Missing
        }
    }

    /// A click on shown tab `i`: it becomes active and the overflow menu
    /// closes.
    pub fn click_tab(&mut self, i: usize)
        ensures
            final(self).active_tab == i && !final(self).overflow_open,
            final(self).tabs == old(self).tabs && final(self).contextual_tabs == old(self).contextual_tabs,
            final(self).collapsed == old(self).collapsed,
    {
        self.active_tab = i;
        self.overflow_open = false;
    }

    /// A click on the collapse control.
    pub fn toggle_collapsed(&mut self)
        ensures
            final(self).collapsed == !old(self).collapsed && !final(self).overflow_open,
            final(self).tabs == old(self).tabs && final(self).contextual_tabs == old(self).contextual_tabs,
            final(self).active_tab == old(self).active_tab,
    {
        self.collapsed = !self.collapsed;
        self.overflow_open = false;
    }

    /// A click on the overflow button.
    pub fn toggle_overflow(&mut self)
        ensures
            final(self).overflow_open == !old(self).overflow_open,
            final(self).tabs == old(self).tabs && final(self).contextual_tabs == old(self).contextual_tabs,
            final(self).active_tab == old(self).active_tab && final(self).collapsed == old(self).collapsed,
    {
        self.overflow_open = !self.overflow_open;
    }

    /// A press outside the overflow menu.
    pub fn close_overflow(&mut self)
        ensures
            !final(self).overflow_open,
            final(self).tabs == old(self).tabs && final(self).contextual_tabs == old(self).contextual_tabs,
            final(self).active_tab == old(self).active_tab && final(self).collapsed == old(self).collapsed,
    {
        self.overflow_open = false;
    }

    /// After layout: an overflow menu with no hidden groups closes.
    pub fn settle_overflow(&mut self, hidden_groups: usize)
        ensures
            final(self).overflow_open == (old(self).overflow_open && hidden_groups > 0),
            final(self).tabs == old(self).tabs && final(self).contextual_tabs == old(self).contextual_tabs,
            final(self).active_tab == old(self).active_tab && final(self).collapsed == old(self).collapsed,
    {
        if hidden_groups == 0 && self.overflow_open {
            self.overflow_open = false;
        }
    }
}

/// Where the active tab's groups come from, given the number of normal
/// tabs, the active index and the visible contextual tabs.
pub open spec fn active_source_spec(n_normal: int, active: int, visible: Seq<usize>) -> ActiveTab {
    if active < n_normal {
        ActiveTab::Normal(active as usize)
    } else if active - n_normal < visible.len() {
        ActiveTab::Contextual(visible[active - n_normal])
    } else {
        ActiveTab::Missing
    }
}

/// `after` is `before` with the toggle at the path set to `selected`, when
/// that path names a toggle; otherwise the same.
pub open spec fn toggle_set(
    before: Seq<RibbonTabDef>,
    after: Seq<RibbonTabDef>,
    t: int,
    g: int,
    i: int,
    selected: bool,
) -> bool {
    if 0 <= t < before.len() && 0 <= g < before[t].groups@.len() && 0 <= i
        < before[t].groups@[g].items@.len() && before[t].groups@[g].items@[i] is ToggleButton {
        &&& forall|k: int| 0 <= k < before.len() && k != t ==> after[k] == before[k]
        &&& after[t].name == before[t].name
        &&& after[t].groups@.len() == before[t].groups@.len()
        &&& forall|k: int| 0 <= k < before[t].groups@.len() && k != g ==> after[t].groups@[k] == before[t].groups@[k]
        &&& after[t].groups@[g].name == before[t].groups@[g].name
        &&& after[t].groups@[g].items@ == before[t].groups@[g].items@.update(
            i,
            match before[t].groups@[g].items@[i] {
                RibbonItemDef::ToggleButton { label, icon, .. } => RibbonItemDef::ToggleButton { label, icon, selected },
                other => other,
            },
        )
    } else {
        after == before
    }
}

/// The byte length of a text, as `str::len` gives it.
pub open spec fn byte_len(s: Seq<char>) -> int {
    (vstd::utf8::encode_utf8(s).len() as usize) as int
}

pub open spec fn max2(a: int, b: int) -> int {
    if a > b {
        a
    } else {
        b
    }
}

/// The width of a compact item's icon slot: none without an icon.
pub open spec fn icon_width(icon: Seq<char>, small: int) -> int {
    if icon.len() == 0 {
        0
    } else {
        2 * small + 16
    }
}

/// The estimated width of an item, in half pixels; `small` is the compact
/// icon size in pixels.
pub open spec fn item_width(item: RibbonItemDef, small: int) -> int
    decreases item, 0int,
{
    match item {
        RibbonItemDef::LargeButton { label, .. } => max2(13 * byte_len(label@), 112) + 32,
        RibbonItemDef::Button { label, icon } => 13 * byte_len(label@) + icon_width(icon@, small) + 40,
        RibbonItemDef::ToggleButton { label, icon, .. } => 13 * byte_len(label@) + icon_width(icon@, small)
            + 40,
        RibbonItemDef::IconButton { .. } => 2 * small + 48,
        RibbonItemDef::Stack(items) => stack_width(items@, small, 0),
        RibbonItemDef::Separator => 16,
    }
}

/// The width of the columns of three starting at item `s`: each as wide
/// as its widest item, at least 72 pixels.
pub open spec fn stack_width(items: Seq<RibbonItemDef>, small: int, s: int) -> int
    decreases items, 4 * (items.len() - s) + 4,
{
    if s < 0 || s >= items.len() {
        0
    } else {
        let hi = if s + 3 < items.len() { s + 3 } else { items.len() as int };
        column_width(items, small, s, hi) + if s + 3 < items.len() {
            stack_width(items, small, s + 3)
        } else {
            0
        }
    }
}

/// The width of the column of items `[lo, hi)`: the widest, at least 72
/// pixels.
pub open spec fn column_width(items: Seq<RibbonItemDef>, small: int, lo: int, hi: int) -> int
    decreases items, hi - lo,
{
    if hi <= lo || lo < 0 || hi > items.len() {
        144
    } else {
        max2(column_width(items, small, lo, hi - 1), item_width(items[hi - 1], small))
    }
}

/// The total width of the first `k` items.
pub open spec fn items_width(items: Seq<RibbonItemDef>, small: int, k: int) -> int
    decreases k,
{
    if k <= 0 || k > items.len() {
        0
    } else {
        items_width(items, small, k - 1) + item_width(items[k - 1], small)
    }
}

/// The estimated width of a group, in half pixels: its items, or its name
/// when that is wider, plus padding.
pub open spec fn group_width(g: RibbonGroupDef, small: int) -> int {
    max2(items_width(g.items@, small, g.items@.len() as int), 13 * byte_len(g.name@) + 48) + 24
}

proof fn lemma_item_width_nonneg(item: RibbonItemDef, small: int)
    requires
        small >= 0,
    ensures
        item_width(item, small) >= 0,
    decreases item, 0int,
{
    match item {
        RibbonItemDef::Stack(v) => {
            lemma_stack_width_nonneg(v@, small, 0);
        },
        _ => {},
    }
}

proof fn lemma_stack_width_nonneg(items: Seq<RibbonItemDef>, small: int, s: int)
    requires
        small >= 0,
    ensures
        stack_width(items, small, s) >= 0,
    decreases items, 4 * (items.len() - s) + 4,
{
    if 0 <= s < items.len() {
        let hi = if s + 3 < items.len() { s + 3 } else { items.len() as int };
        lemma_column_width_ge(items, small, s, hi);
        if s + 3 < items.len() {
            lemma_stack_width_nonneg(items, small, s + 3);
        }
    }
}

proof fn lemma_column_width_ge(items: Seq<RibbonItemDef>, small: int, lo: int, hi: int)
    requires
        small >= 0,
    ensures
        column_width(items, small, lo, hi) >= 144,
        0 <= lo && hi <= items.len() ==> forall|j: int|
            lo <= j < hi ==> column_width(items, small, lo, hi) >= #[trigger] item_width(items[j], small),
    decreases items, hi - lo,
{
    if lo < hi && 0 <= lo && hi <= items.len() {
        lemma_column_width_ge(items, small, lo, hi - 1);
    }
}

proof fn lemma_items_width_grows(items: Seq<RibbonItemDef>, small: int, j: int, k: int)
    requires
        small >= 0,
        0 <= j <= k <= items.len(),
    ensures
        items_width(items, small, j) <= items_width(items, small, k),
    decreases k - j,
{
    if j < k {
        lemma_items_width_grows(items, small, j, k - 1);
        lemma_item_width_nonneg(items[k - 1], small);
    }
}

fn text_len(s: &String) -> (n: usize)
    ensures
        n == byte_len(s@),
{
    s.as_str().len()
}

/// The estimated width of an item, in half pixels.
pub fn item_width_of(item: &RibbonItemDef, small: u32) -> (w: u64)
    requires
        item_width(*item, small as int) <= u64::MAX,
    ensures
        w == item_width(*item, small as int),
    decreases *item,
{
    match item {
        RibbonItemDef::LargeButton { label, .. } => {
            let t = 13 * (text_len(label) as u64);
            let m = if t > 112 {
                t
            } else {
                112
            };
            m + 32
        },
        RibbonItemDef::Button { label, icon } | RibbonItemDef::ToggleButton { label, icon, .. } => {
            let iw: u64 = if icon.as_str().is_empty() {
                0
            } else {
                2 * (small as u64) + 16
            };
            13 * (text_len(label) as u64) + iw + 40
        },
        RibbonItemDef::IconButton { .. } => 2 * (small as u64) + 48,
        RibbonItemDef::Stack(items) => {
            assert(decreases_to!(*item => items@));
            stack_width_of(items, small)
        },
        RibbonItemDef::Separator => 16,
    }
}

/// The estimated width of a stack, in half pixels.
fn stack_width_of(items: &Vec<RibbonItemDef>, small: u32) -> (w: u64)
    requires
        stack_width(items@, small as int, 0) <= u64::MAX,
    ensures
        w == stack_width(items@, small as int, 0),
    decreases items@,
{
    let n = items.len();
    let mut acc: u64 = 0;
    let mut s: usize = 0;
    proof {
        lemma_stack_width_nonneg(items@, small as int, 0);
    }
    while s < n
        invariant
            n == items@.len(),
            s <= n + 2,
            s % 3 == 0,
            s >= n ==> acc == stack_width(items@, small as int, 0),
            s < n ==> acc + stack_width(items@, small as int, s as int) == stack_width(items@, small as int, 0),
            stack_width(items@, small as int, 0) <= u64::MAX,
        decreases n + 3 - s,
    {
        let hi = if s + 3 < n {
            s + 3
        } else {
            n
        };
        proof {
            lemma_column_width_ge(items@, small as int, s as int, hi as int);
            if s + 3 < n {
                lemma_stack_width_nonneg(items@, small as int, s + 3);
            }
        }
        let mut col: u64 = 144;
        let mut j: usize = s;
        while j < hi
            invariant
                n == items@.len(),
                s <= j <= hi <= n,
                s < n,
                col == column_width(items@, small as int, s as int, j as int),
                column_width(items@, small as int, s as int, hi as int) <= u64::MAX,
                forall|k: int|
                    s <= k < hi ==> column_width(items@, small as int, s as int, hi as int) >= #[trigger] item_width(
                        items@[k],
                        small as int,
                    ),
            decreases hi - j,
        {
            assert(decreases_to!(items@ => items@[j as int]));
            let w = item_width_of(&items[j], small);
            col = if col > w {
                col
            } else {
                w
            };
            j = j + 1;
        }
        acc = acc + col;
        s = s + 3;
    }
    acc
}

/// The estimated width of a group, in half pixels.
pub fn group_width_of(group: &RibbonGroupDef, small: u32) -> (w: u64)
    requires
        group_width(*group, small as int) <= u64::MAX,
    ensures
        w == group_width(*group, small as int),
{
    let n = group.items.len();
    let mut content: u64 = 0;
    let mut i: usize = 0;
    proof {
        lemma_items_width_grows(group.items@, small as int, 0, n as int);
    }
    while i < n
        invariant
            n == group.items@.len(),
            i <= n,
            content == items_width(group.items@, small as int, i as int),
            items_width(group.items@, small as int, n as int) <= u64::MAX,
        decreases n - i,
    {
        proof {
            lemma_items_width_grows(group.items@, small as int, i + 1, n as int);
            lemma_items_width_grows(group.items@, small as int, i as int, i + 1);
        }
        let w = item_width_of(&group.items[i], small);
        content = content + w;
        i = i + 1;
    }
    let name = 13 * (text_len(&group.name) as u64) + 48;
    let m = if content > name {
        content
    } else {
        name
    };
    m + 24
}

/// How many of the groups (with these widths, in half pixels) show in the
/// available width: they are taken in order while the running total fits;
/// the first always shows.
pub open spec fn fitting_groups(widths: Seq<u64>, available: int, k: int, used: int) -> int
    decreases widths.len() - k,
{
    if k < 0 || k >= widths.len() {
        0
    } else if k == 0 || used + widths[k] <= available {
        1 + fitting_groups(widths, available, k + 1, used + widths[k])
    } else {
        0
    }
}

/// The number of groups that show; the rest go to the overflow menu.
pub fn visible_group_count(widths: &Vec<u64>, available: u64) -> (n: usize)
    ensures
        n == fitting_groups(widths@, available as int, 0, 0),
        n <= widths@.len(),
{
    let len = widths.len();
    let mut used: u128 = 0;
    let mut count: usize = 0;
    let mut done = false;
    while count < len && !done
        invariant
            len == widths@.len(),
            count <= len,
            used <= if count == 0 { 0 } else { u64::MAX as int },
            fitting_groups(widths@, available as int, 0, 0) == count + fitting_groups(
                widths@,
                available as int,
                count as int,
                used as int,
            ),
            done ==> fitting_groups(widths@, available as int, count as int, used as int) == 0,
        decreases len - count + if done { 0int } else { 1int },
    {
        let w = widths[count] as u128;
        if count == 0 || used + w <= available as u128 {
            used = used + w;
            count = count + 1;
        } else {
            done = true;
        }
    }
    proof {
        lemma_fitting_bounded(widths@, available as int, count as int, used as int);
    }
    count
}

proof fn lemma_fitting_bounded(widths: Seq<u64>, available: int, k: int, used: int)
    requires
        0 <= k,
    ensures
        0 <= fitting_groups(widths, available, k, used) <= if k < widths.len() { widths.len() - k } else { 0 },
    decreases widths.len() - k,
{
    if k < widths.len() && (k == 0 || used + widths[k] <= available) {
        lemma_fitting_bounded(widths, available, k + 1, used + widths[k]);
    }
}

/// The estimated widths of the groups, in half pixels.
pub fn group_widths(groups: &Vec<RibbonGroupDef>, small: u32) -> (ws: Vec<u64>)
    requires
        forall|i: int| 0 <= i < groups@.len() ==> group_width(#[trigger] groups@[i], small as int) <= u64::MAX,
    ensures
        ws@.len() == groups@.len(),
        forall|i: int| 0 <= i < groups@.len() ==> ws@[i] == group_width(#[trigger] groups@[i], small as int),
{
    let mut ws: Vec<u64> = Vec::new();
    let mut i: usize = 0;
    while i < groups.len()
        invariant
            i <= groups@.len(),
            ws@.len() == i,
            forall|j: int| 0 <= j < groups@.len() ==> group_width(#[trigger] groups@[j], small as int) <= u64::MAX,
            forall|j: int| 0 <= j < i ==> ws@[j] == group_width(#[trigger] groups@[j], small as int),
        decreases groups@.len() - i,
    {
        ws.push(group_width_of(&groups[i], small));
        i = i + 1;
    }
    ws
}

/// The first group always shows, however narrow the ribbon; no more groups
/// show than there are.
pub proof fn lemma_first_group_always_shows(widths: Seq<u64>, available: int)
    ensures
        widths.len() > 0 ==> fitting_groups(widths, available, 0, 0) >= 1,
        fitting_groups(widths, available, 0, 0) <= widths.len(),
{
    lemma_fitting_bounded(widths, available, 0, 0);
    if widths.len() > 0 {
        lemma_fitting_bounded(widths, available, 1, widths[0] as int);
    }
}


/// The sum of the first `n` widths.
pub open spec fn width_total(widths: Seq<u64>, n: int) -> int
    decreases n,
{
    if n <= 0 || n > widths.len() {
        0
    } else {
        width_total(widths, n - 1) + widths[n - 1]
    }
}

proof fn lemma_fitting_prefix(widths: Seq<u64>, available: int, k: int)
    requires
        0 <= k <= widths.len(),
        k >= 2 ==> width_total(widths, k) <= available,
    ensures
        ({
            let m = k + fitting_groups(widths, available, k, width_total(widths, k));
            &&& k <= m <= widths.len()
            &&& m >= 2 ==> width_total(widths, m) <= available
            &&& 1 <= m < widths.len() ==> width_total(widths, m + 1) > available
            &&& (k == 0 && widths.len() > 0) ==> m >= 1
        }),
    decreases widths.len() - k,
{
    if k < widths.len() {
        let used = width_total(widths, k);
        assert(width_total(widths, k + 1) == used + widths[k]);
        if k == 0 || used + widths[k] <= available {
            lemma_fitting_prefix(widths, available, k + 1);
        }
    }
}

/// The groups that show are the longest run from the left that fits: the
/// first group always shows; when two or more show, their widths together
/// fit in the available width; and when some are left over, adding the next
/// one would not fit. A group that does not fit sends it and every later
/// group to the overflow menu.
pub proof fn lemma_visible_groups_longest_fitting_prefix(widths: Seq<u64>, available: int)
    ensures
        ({
            let n = fitting_groups(widths, available, 0, 0);
            &&& 0 <= n <= widths.len()
            &&& widths.len() > 0 ==> n >= 1
            &&& n >= 2 ==> width_total(widths, n) <= available
            &&& 1 <= n < widths.len() ==> width_total(widths, n + 1) > available
        }),
{
    lemma_fitting_prefix(widths, available, 0);
}

} // verus!
