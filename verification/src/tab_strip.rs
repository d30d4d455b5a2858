//! Content-area tabs: a strip of selectable, optionally closable tabs with
//! one active tab.

use vstd::prelude::*;

verus! {

/// One tab: a stable id used to key select/close events, its label, an
/// optional icon and whether it shows a close button.
#[derive(Debug)]
pub struct TabItem {
    pub id: String,
    pub label: String,
    pub icon: Option<String>,
    pub closable: bool,
}

impl TabItem {
    pub fn new(id: String) -> (t: Self)
        ensures
            t.id == id,
            t.label@ == Seq::<char>::empty(),
            t.icon is None,
            !t.closable,
    {
        TabItem { id, label: String::new(), icon: None, closable: false }
    }

    pub fn label(self, label: String) -> (t: Self)
        ensures
            t.label == label,
            t.id == self.id,
            t.icon == self.icon,
            t.closable == self.closable,
    {
        TabItem { label, ..self }
    }

    pub fn icon(self, path: String) -> (t: Self)
        ensures
            t.icon == Some(path),
            t.id == self.id,
            t.label == self.label,
            t.closable == self.closable,
    {
        TabItem { icon: Some(path), ..self }
    }

    pub fn closable(self, closable: bool) -> (t: Self)
        ensures
            t.closable == closable,
            t.id == self.id,
            t.label == self.label,
            t.icon == self.icon,
    {
        TabItem { closable, ..self }
    }
}

/// The strip: its tabs in order and the index of the active one.
#[derive(Debug)]
pub struct TabStrip {
    pub tabs: Vec<TabItem>,
    pub active: usize,
}

/// The active index after removing tab `idx` from `len` tabs: a tab removed
/// before the active one shifts it left; when the active index falls off the
/// end it moves to the new last tab; otherwise it stays.
pub open spec fn active_after_remove(active: int, idx: int, len: int) -> int {
    if idx >= len {
        active
    } else if idx < active {
        active - 1
    } else if active >= len - 1 && active > 0 {
        if len - 1 > 0 { len - 2 } else { 0 }
    } else {
        active
    }
}

impl Default for TabStrip {
    fn default() -> (s: Self)
        ensures
            s.tabs@.len() == 0,
            s.active == 0,
    {
        TabStrip { tabs: Vec::new(), active: 0 }
    }
}

impl TabStrip {
    pub fn new() -> (s: Self)
        ensures
            s.tabs@.len() == 0,
            s.active == 0,
    {
        TabStrip::default()
    }

    /// Append a tab; the active tab does not change.
    pub fn add_tab(&mut self, tab: TabItem)
        ensures
            final(self).tabs@ == old(self).tabs@.push(tab),
            final(self).active == old(self).active,
    {
        self.tabs.push(tab);
    }

    /// Make tab `i` active (a click on it).
    pub fn select(&mut self, i: usize)
        ensures
            final(self).active == i,
            final(self).tabs == old(self).tabs,
    {
        self.active = i;
    }

    /// Remove tab `idx` (nothing when it does not exist), keeping the active
    /// tab where possible (see [`active_after_remove`]).
    pub fn remove_tab(&mut self, idx: usize)
        ensures
            idx < old(self).tabs@.len() ==> final(self).tabs@ == old(self).tabs@.remove(idx as int),
            idx >= old(self).tabs@.len() ==> final(self).tabs@ == old(self).tabs@,
            final(self).active == active_after_remove(old(self).active as int, idx as int, old(self).tabs@.len() as int),
    {
        if idx < self.tabs.len() {
            self.tabs.remove(idx);
            if idx < self.active {
                self.active = self.active - 1;
            } else if self.active >= self.tabs.len() && self.active > 0 {
                self.active = if self.tabs.len() > 0 {
                    self.tabs.len() - 1
                } else {
                    0
                };
            }
        }
    }
}

/// Removing a tab other than the active one keeps the same tab active.
pub proof fn lemma_remove_keeps_active_tab(tabs: Seq<TabItem>, active: int, idx: int)
    requires
        0 <= active < tabs.len(),
        0 <= idx < tabs.len(),
        idx != active,
    ensures
        ({
            let a = active_after_remove(active, idx, tabs.len() as int);
            0 <= a < tabs.remove(idx).len() && tabs.remove(idx)[a] == tabs[active]
        }),
{
}

/// Removing the active tab when it is the last one activates the tab before
/// it.
pub proof fn lemma_remove_active_last_moves_back(tabs: Seq<TabItem>)
    requires
        tabs.len() >= 2,
    ensures
        ({
            let last = tabs.len() - 1;
            let a = active_after_remove(last, last, tabs.len() as int);
            a == last - 1 && tabs.remove(last)[a] == tabs[last - 1]
        }),
{
}

/// A valid active index stays valid after a removal, as long as a tab is
/// left.
pub proof fn lemma_remove_keeps_active_in_range(len: int, active: int, idx: int)
    requires
        0 <= active < len,
        0 <= idx < len,
        len >= 2,
    ensures
        0 <= active_after_remove(active, idx, len) < len - 1,
{
}

} // verus!
