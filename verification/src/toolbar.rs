//! A toolbar: actions, toggles and separators in a row, with the items past
//! a visible limit moved to an overflow menu.

use vstd::prelude::*;

verus! {

/// One toolbar entry; the renderer keeps its click handler by index.
#[derive(Debug)]
pub enum ToolbarItem {
    Action { id: String, label: String, icon: Option<String>, disabled: bool },
    Toggle { id: String, label: String, icon: Option<String>, selected: bool, disabled: bool },
    Separator,
}

impl ToolbarItem {
    pub fn action(id: String, label: String) -> (t: Self)
        ensures
            t == (ToolbarItem::Action { id, label, icon: None, disabled: false }),
    {
        ToolbarItem::Action { id, label, icon: None, disabled: false }
    }

    pub fn action_with_icon(id: String, label: String, icon: String) -> (t: Self)
        ensures
            t == (ToolbarItem::Action { id, label, icon: Some(icon), disabled: false }),
    {
        ToolbarItem::Action { id, label, icon: Some(icon), disabled: false }
    }

    pub fn toggle(id: String, label: String, selected: bool) -> (t: Self)
        ensures
            t == (ToolbarItem::Toggle { id, label, icon: None, selected, disabled: false }),
    {
        ToolbarItem::Toggle { id, label, icon: None, selected, disabled: false }
    }

    pub fn separator() -> (t: Self)
        ensures
            t == ToolbarItem::Separator,
    {
        ToolbarItem::Separator
    }

    /// Set whether the item is disabled; separators are unchanged.
    pub fn disabled(self, disabled: bool) -> (t: Self)
        ensures
            t == match self {
                ToolbarItem::Action { id, label, icon, .. } => ToolbarItem::Action { id, label, icon, disabled },
                ToolbarItem::Toggle { id, label, icon, selected, .. } => ToolbarItem::Toggle {
                    id,
                    label,
                    icon,
                    selected,
                    disabled,
                },
                ToolbarItem::Separator => ToolbarItem::Separator,
            },
    {
        match self {
            ToolbarItem::Action { id, label, icon, .. } => ToolbarItem::Action { id, label, icon, disabled },
            ToolbarItem::Toggle { id, label, icon, selected, .. } => ToolbarItem::Toggle {
                id,
                label,
                icon,
                selected,
                disabled,
            },
            ToolbarItem::Separator => ToolbarItem::Separator,
        }
    }

    /// What a click on the item reports: `None` when it is not clickable (a
    /// separator or disabled), `Some(None)` for an action and
    /// `Some(Some(v))` for a toggle, `v` being its new state.
    pub fn click(&self) -> (r: Option<Option<bool>>)
        ensures
            r == match *self {
                ToolbarItem::Action { disabled, .. } => if disabled {
                    None
                } else {
                    Some(None::<bool>)
                },
                ToolbarItem::Toggle { selected, disabled, .. } => if disabled {
                    None
                } else {
                    Some(Some(!selected))
                },
                ToolbarItem::Separator => None::<Option<bool>>,
            },
    {
        match self {
            ToolbarItem::Action { disabled, .. } => if *disabled {
                None
            } else {
                Some(None)
            },
            ToolbarItem::Toggle { selected, disabled, .. } => if *disabled {
                None
            } else {
                Some(Some(!*selected))
            },
            ToolbarItem::Separator => None,
        }
    }
}

/// How a toolbar lays out its items.
#[derive(Debug, PartialEq, Eq)]
pub struct ToolbarLayout {
    /// The first `inline` items show in the row.
    pub inline: usize,
    /// The rest, in order, go to the overflow menu.
    pub overflow: usize,
    /// The overflow button shows (there are overflowing items).
    pub overflow_button: bool,
    /// The overflow menu shows.
    pub overflow_menu: bool,
}

/// A toolbar's state; the renderer keeps the handlers.
#[derive(Debug)]
pub struct Toolbar {
    pub items: Vec<ToolbarItem>,
    pub max_visible: Option<usize>,
    pub overflow_open: bool,
}

impl Toolbar {
    pub fn new() -> (t: Self)
        ensures
            t.items@.len() == 0 && t.max_visible is None && !t.overflow_open,
    {
        Toolbar { items: Vec::new(), max_visible: None, overflow_open: false }
    }

    pub fn item(self, item: ToolbarItem) -> (t: Self)
        ensures
            t.items@ == self.items@.push(item),
            t.max_visible == self.max_visible && t.overflow_open == self.overflow_open,
    {
        let mut t = self;
        t.items.push(item);
        t
    }

    pub fn items(self, items: Vec<ToolbarItem>) -> (t: Self)
        ensures
            t == (Toolbar { items, ..self }),
    {
        Toolbar { items, ..self }
    }

    pub fn max_visible(self, max_visible: usize) -> (t: Self)
        ensures
            t == (Toolbar { max_visible: Some(max_visible), ..self }),
    {
        Toolbar { max_visible: Some(max_visible), ..self }
    }

    pub fn overflow_open(self, open: bool) -> (t: Self)
        ensures
            t == (Toolbar { overflow_open: open, ..self }),
    {
        Toolbar { overflow_open: open, ..self }
    }

    /// Where the items go: up to the visible limit (all when there is none)
    /// inline, the rest in the overflow menu, which shows when it is open
    /// and not empty.
    pub fn layout(&self) -> (l: ToolbarLayout)
        ensures
            l.inline == match self.max_visible {
                Some(m) => if m < self.items@.len() { m as int } else { self.items@.len() as int },
                None => self.items@.len() as int,
            },
            l.inline + l.overflow == self.items@.len(),
            l.overflow_button == (l.overflow > 0),
            l.overflow_menu == (l.overflow > 0 && self.overflow_open),
            l == self.layout_spec(),
    {
        let n = self.items.len();
        let visible = match self.max_visible {
            Some(m) => m,
            None => n,
        };
        let inline = if visible < n {
            visible
        } else {
            n
        };
        let overflow = n - inline;
        ToolbarLayout {
            inline,
            overflow,
            overflow_button: overflow > 0,
            overflow_menu: overflow > 0 && self.overflow_open,
        }
    }

    /// The element index of the `idx`-th overflow item: its place among all
    /// items.
    pub fn overflow_index(&self, idx: usize) -> (i: usize)
        requires
            idx < self.layout_spec().overflow,
        ensures
            i == self.layout_spec().inline + idx,
            i < self.items@.len(),
    {
        let l = self.layout();
        let _n = self.items.len();
        l.inline + idx
    }

    pub open spec fn layout_spec(&self) -> ToolbarLayout {
        let n = self.items@.len() as int;
        let inline = match self.max_visible {
            Some(m) => if m < n { m as int } else { n },
            None => n,
        };
        ToolbarLayout {
            inline: inline as usize,
            overflow: (n - inline) as usize,
            overflow_button: n - inline > 0,
            overflow_menu: n - inline > 0 && self.overflow_open,
        }
    }
}

} // verus!
