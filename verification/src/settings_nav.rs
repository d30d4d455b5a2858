//! Settings navigation: collapsible sections of items, one of them active.

use vstd::prelude::*;

verus! {

#[derive(Debug)]
pub struct SettingsNavItem {
    pub id: String,
    pub label: String,
    pub icon: Option<String>,
}

impl SettingsNavItem {
    pub fn new(id: String, label: String) -> (i: Self)
        ensures
            i.id == id && i.label == label && i.icon is None,
    {
        SettingsNavItem { id, label, icon: None }
    }

    pub fn icon(self, icon: String) -> (i: Self)
        ensures
            i == (SettingsNavItem { icon: Some(icon), ..self }),
    {
        SettingsNavItem { icon: Some(icon), ..self }
    }
}

/// A section; collapsed sections hide their items.
#[derive(Debug)]
pub struct SettingsNavSection {
    pub title: String,
    pub items: Vec<SettingsNavItem>,
    pub expanded: bool,
}

impl SettingsNavSection {
    /// An expanded section without items.
    pub fn new(title: String) -> (s: Self)
        ensures
            s.title == title && s.items@.len() == 0 && s.expanded,
    {
        SettingsNavSection { title, items: Vec::new(), expanded: true }
    }

    pub fn item(self, item: SettingsNavItem) -> (s: Self)
        ensures
            s.items@ == self.items@.push(item),
            s.title == self.title && s.expanded == self.expanded,
    {
        let mut s = self;
        s.items.push(item);
        s
    }

    pub fn collapsed(self) -> (s: Self)
        ensures
            s == (SettingsNavSection { expanded: false, ..self }),
    {
        SettingsNavSection { expanded: false, ..self }
    }
}

/// The navigation's state; the host keeps the selection handler.
#[derive(Debug)]
pub struct SettingsNav {
    pub sections: Vec<SettingsNavSection>,
    pub active_id: Option<String>,
}

impl SettingsNav {
    pub fn new() -> (n: Self)
        ensures
            n.sections@.len() == 0 && n.active_id is None,
    {
        SettingsNav { sections: Vec::new(), active_id: None }
    }

    /// Add a section; when nothing is active yet, its first item becomes
    /// active.
    pub fn section(self, section: SettingsNavSection) -> (n: Self)
        ensures
            n.sections@ == self.sections@.push(section),
            n.active_id == if self.active_id is None && section.items@.len() > 0 {
                Some(section.items@[0].id)
            } else {
                self.active_id
            },
    {
        let mut n = self;
        if n.active_id.is_none() && section.items.len() > 0 {
            n.active_id = Some(section.items[0].id.clone());
        }
        n.sections.push(section);
        n
    }

    pub fn active(self, id: String) -> (n: Self)
        ensures
            n == (SettingsNav { active_id: Some(id), ..self }),
    {
        SettingsNav { active_id: Some(id), ..self }
    }

    pub fn set_active(&mut self, id: String)
        ensures
            final(self).active_id == Some(id),
            final(self).sections == old(self).sections,
    {
        self.active_id = Some(id);
    }

    /// A click on a section's header: it expands or collapses.
    pub fn toggle_section(&mut self, si: usize)
        requires
            si < old(self).sections@.len(),
        ensures
            final(self).sections@.len() == old(self).sections@.len(),
            final(self).sections@[si as int].expanded == !old(self).sections@[si as int].expanded,
            final(self).sections@[si as int].title == old(self).sections@[si as int].title,
            final(self).sections@[si as int].items == old(self).sections@[si as int].items,
            forall|j: int| 0 <= j < old(self).sections@.len() && j != si ==> final(self).sections@[j]
                == old(self).sections@[j],
            final(self).active_id == old(self).active_id,
    {
        let mut s = self.sections.remove(si);
        s.expanded = !s.expanded;
        self.sections.insert(si, s);
    }

    /// A click on item `ii` of section `si`: it becomes active. Returns its
    /// id, to report.
    pub fn select(&mut self, si: usize, ii: usize) -> (id: String)
        requires
            si < old(self).sections@.len(),
            ii < old(self).sections@[si as int].items@.len(),
        ensures
            id == old(self).sections@[si as int].items@[ii as int].id,
            final(self).active_id == Some(id),
            final(self).sections == old(self).sections,
    {
        let id = self.sections[si].items[ii].id.clone();
        self.active_id = Some(id.clone());
        id
    }

    /// Whether an item is the active one.
    pub fn is_active(&self, id: &String) -> (b: bool)
        ensures
            b == (self.active_id matches Some(a) && a@ == id@),
    {
        match &self.active_id {
            Some(a) => *a == *id,
            None => false,
        }
    }

    /// The element index of item `ii` of section `si`.
    pub fn item_index(si: usize, ii: usize) -> (r: usize)
        requires
            si * 100 + ii <= usize::MAX,
        ensures
            r == si * 100 + ii,
    {
        si * 100 + ii
    }
}

} // verus!
