//! A command described once and shown as a palette entry, a menu item or a
//! toolbar item.

use vstd::prelude::*;
use crate::command_palette::PaletteEntry;
use crate::menu_tree::{with_disabled, ContextMenuItem};
use crate::toolbar::ToolbarItem;

verus! {

/// A command's metadata.
#[derive(Debug)]
pub struct CommandDef {
    pub id: String,
    pub label: String,
    pub subtitle: Option<String>,
    pub icon: Option<String>,
    pub shortcut: Option<String>,
    pub keywords: Vec<String>,
    pub disabled: bool,
    pub checked: Option<bool>,
}

fn clone_opt(s: &Option<String>) -> (r: Option<String>)
    ensures
        r == *s,
{
    match s {
        Some(x) => Some(x.clone()),
        None => None,
    }
}

fn clone_strings(v: &Vec<String>) -> (r: Vec<String>)
    ensures
        r@ == v@,
{
    let mut r: Vec<String> = Vec::new();
    let mut i: usize = 0;
    while i < v.len()
        invariant
            i <= v@.len(),
            r@ == v@.take(i as int),
        decreases v@.len() - i,
    {
        r.push(v[i].clone());
        i = i + 1;
        assert(r@ =~= v@.take(i as int));
    }
    assert(v@.take(v@.len() as int) =~= v@);
    r
}

impl CommandDef {
    pub fn new(id: String, label: String) -> (c: Self)
        ensures
            c.id == id && c.label == label,
            c.subtitle is None && c.icon is None && c.shortcut is None,
            c.keywords@.len() == 0 && !c.disabled && c.checked is None,
    {
        CommandDef {
            id,
            label,
            subtitle: None,
            icon: None,
            shortcut: None,
            keywords: Vec::new(),
            disabled: false,
            checked: None,
        }
    }

    pub fn subtitle(self, subtitle: String) -> (c: Self)
        ensures
            c == (CommandDef { subtitle: Some(subtitle), ..self }),
    {
        CommandDef { subtitle: Some(subtitle), ..self }
    }

    pub fn icon(self, icon: String) -> (c: Self)
        ensures
            c == (CommandDef { icon: Some(icon), ..self }),
    {
        CommandDef { icon: Some(icon), ..self }
    }

    pub fn shortcut(self, shortcut: String) -> (c: Self)
        ensures
            c == (CommandDef { shortcut: Some(shortcut), ..self }),
    {
        CommandDef { shortcut: Some(shortcut), ..self }
    }

    pub fn keyword(self, keyword: String) -> (c: Self)
        ensures
            c.keywords@ == self.keywords@.push(keyword),
            c.id == self.id && c.label == self.label && c.subtitle == self.subtitle,
            c.icon == self.icon && c.shortcut == self.shortcut,
            c.disabled == self.disabled && c.checked == self.checked,
    {
        let mut c = self;
        c.keywords.push(keyword);
        c
    }

    pub fn disabled(self, disabled: bool) -> (c: Self)
        ensures
            c == (CommandDef { disabled, ..self }),
    {
        CommandDef { disabled, ..self }
    }

    pub fn checked(self, checked: bool) -> (c: Self)
        ensures
            c == (CommandDef { checked: Some(checked), ..self }),
    {
        CommandDef { checked: Some(checked), ..self }
    }

    /// The command as a palette entry: same id, label, subtitle, icon and
    /// keywords.
    pub fn palette_entry(&self) -> (e: PaletteEntry)
        ensures
            e.id == self.id && e.label == self.label,
            e.subtitle == self.subtitle && e.icon == self.icon,
            e.keywords@ == self.keywords@,
    {
        PaletteEntry {
            id: self.id.clone(),
            label: self.label.clone(),
            subtitle: clone_opt(&self.subtitle),
            icon: clone_opt(&self.icon),
            keywords: clone_strings(&self.keywords),
        }
    }

    /// The command as a menu action: its label, icon and shortcut, disabled
    /// as the command is.
    pub fn menu_item(&self) -> (m: ContextMenuItem)
        ensures
            m == (ContextMenuItem::Action {
                label: self.label,
                shortcut: self.shortcut,
                icon: self.icon,
                disabled: self.disabled,
            }),
    {
        let item = match &self.icon {
            Some(icon) => ContextMenuItem::action_with_icon(self.label.clone(), icon.clone()),
            None => ContextMenuItem::action(self.label.clone()),
        };
        let item = match &self.shortcut {
            Some(s) => item.shortcut(s.clone()),
            None => item,
        };
        item.disabled(self.disabled)
    }

    /// The command as a toolbar action: its id, label and icon, disabled as
    /// the command is.
    pub fn toolbar_item(&self) -> (t: ToolbarItem)
        ensures
            t == (ToolbarItem::Action {
                id: self.id,
                label: self.label,
                icon: self.icon,
                disabled: self.disabled,
            }),
    {
        let item = match &self.icon {
            Some(icon) => ToolbarItem::action_with_icon(self.id.clone(), self.label.clone(), icon.clone()),
            None => ToolbarItem::action(self.id.clone(), self.label.clone()),
        };
        item.disabled(self.disabled)
    }
}

} // verus!
