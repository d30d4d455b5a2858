//! The three menu surfaces built on the shared item model: the floating
//! context menu, the application menu bar and the menu button. Each keeps a
//! selection path and an open-submenu path, reacts to navigation keys and
//! reports which entry's handler the renderer must run.

use vstd::prelude::*;
use vstd::string::*;

use crate::keys::NavKey;
use crate::menu_tree::{
    copy_path, enabled_item_at_path, ensure_selection, ensured_selection, enter_submenu,
    entered_submenu, item_at_path, item_at_path_spec, item_enabled, leave_submenu,
    move_selection, moved_selection, parent_of, parent_path, ContextMenuItem,
};
use crate::popup::{after_begin_close, after_open, after_timer, next_epoch, PopupMotion};

verus! {

/// What the renderer must do after a menu handled an input.
#[derive(Debug)]
pub enum MenuCommand {
    /// Nothing changed.
    Nothing,
    /// The state changed; repaint.
    Redraw,
    /// The menu started closing; arm the removal timer with this epoch.
    ArmCloseTimer(u64),
    /// Run the handler of the entry at `path` (with `new_checked` for a
    /// checkbox entry), then arm the removal timer with `close_timer` when it
    /// is `Some`.
    Invoke { path: Vec<usize>, new_checked: Option<bool>, close_timer: Option<u64> },
}

/// The command that closing a popup in state `m` yields.
pub open spec fn close_command(m: PopupMotion) -> Option<u64> {
    if m.open && !m.closing {
        Some(next_epoch(m.motion_epoch))
    } else {
        None
    }
}

/// How invoking the entry `item` at `path` is reported, given the popup state
/// `m` before the menu closes.
pub open spec fn invoke_result(item: ContextMenuItem, path: Seq<usize>, m: PopupMotion, cmd: MenuCommand) -> bool {
    match cmd {
        MenuCommand::Invoke { path: p, new_checked, close_timer } => {
            &&& p@ == path
            &&& close_timer == close_command(m)
            &&& new_checked == match item {
                ContextMenuItem::Checkbox { checked, .. } => Some(!checked),
                _ => None::<bool>,
            }
        },
        _ => false,
    }
}

/// The entry is one whose handler runs on activation.
pub open spec fn is_invokable(item: ContextMenuItem) -> bool {
    item_enabled(item) && (item is Action || item is Checkbox || item is Radio)
}

/// The outcome of activating the selected entry: an invokable entry runs
/// its handler and the menu starts closing; an enabled submenu is entered;
/// anything else changes nothing.
pub open spec fn invoked_selected(
    items: Seq<ContextMenuItem>,
    selected: Seq<usize>,
    open: Seq<usize>,
    m: PopupMotion,
    cmd: MenuCommand,
    new_selected: Seq<usize>,
    new_open: Seq<usize>,
    new_m: PopupMotion,
) -> bool {
    match item_at_path_spec(items, selected) {
        Some(item) => if is_invokable(item) {
            invoke_result(item, selected, m, cmd) && new_m == after_begin_close(m)
                && new_selected == selected && new_open == open
        } else if item_enabled(item) && item is Submenu {
            entered_submenu(items, selected, open, cmd is Redraw, new_selected, new_open)
                && (cmd is Redraw || cmd is Nothing) && new_m == m
        } else {
            cmd is Nothing && new_selected == selected && new_open == open && new_m == m
        },
        None => cmd is Nothing && new_selected == selected && new_open == open && new_m == m,
    }
}

/// The selection and open path after leaving a submenu.
pub open spec fn left_submenu(selected: Seq<usize>, new_selected: Seq<usize>, new_open: Seq<usize>) -> bool {
    if selected.len() <= 1 {
        new_selected == selected && new_open.len() == 0
    } else {
        new_selected == selected.drop_last() && new_open == selected.drop_last().drop_last()
    }
}

fn invoke_command(item: &ContextMenuItem, path: &Vec<usize>, close_timer: Option<u64>) -> (cmd: MenuCommand)
    ensures
        cmd matches MenuCommand::Invoke { path: p, new_checked, close_timer: t } && p@ == path@
            && t == close_timer && new_checked == match *item {
            ContextMenuItem::Checkbox { checked, .. } => Some(!checked),
            _ => None::<bool>,
        },
{
    let new_checked = match item {
        ContextMenuItem::Checkbox { checked, .. } => Some(!*checked),
        _ => None,
    };
    MenuCommand::Invoke { path: copy_path(path), new_checked, close_timer }
}

/// Selection and open path after the pointer moves over the row at `path`.
pub open spec fn hovered(items: Seq<ContextMenuItem>, path: Seq<usize>, new_selected: Seq<usize>, new_open: Seq<usize>) -> bool {
    new_selected == path && new_open == (if item_at_path_spec(items, path) matches Some(
        ContextMenuItem::Submenu { .. },
    ) {
        path
    } else {
        parent_of(path)
    })
}

/// Whether the pointer over the row at `path` takes the selection: there is
/// such a row, it is neither a separator nor a disabled submenu, and, when
/// `enabled_only`, it is enabled. The context menu ignores every disabled
/// row; the menu bar and menu button let a disabled entry (not a disabled
/// submenu) take the selection.
pub open spec fn hover_takes(items: Seq<ContextMenuItem>, path: Seq<usize>, enabled_only: bool) -> bool {
    match item_at_path_spec(items, path) {
        Some(item) => match item {
            ContextMenuItem::Separator => false,
            ContextMenuItem::Submenu { disabled, .. } => !disabled,
            _ => !enabled_only || item_enabled(item),
        },
        None => false,
    }
}

/// Select the row at `path`, opening it when it is a submenu, when the row
/// takes the selection (see [`hover_takes`]); otherwise nothing changes.
/// Returns whether it did.
pub fn hover_row(
    items: &Vec<ContextMenuItem>,
    path: &Vec<usize>,
    enabled_only: bool,
    selected_path: &mut Vec<usize>,
    open_path: &mut Vec<usize>,
) -> (took: bool)
    ensures
        took == hover_takes(items@, path@, enabled_only),
        took ==> hovered(items@, path@, final(selected_path)@, final(open_path)@),
        !took ==> *final(selected_path) == *old(selected_path) && *final(open_path) == *old(open_path),
{
    let (takes, opens) = match item_at_path(items, path) {
        Some(item) => match item {
            ContextMenuItem::Separator => (false, false),
            ContextMenuItem::Submenu { disabled, .. } => (!*disabled, true),
            _ => (!enabled_only || item.enabled(), false),
        },
        None => (false, false),
    };
    if !takes {
        return false;
    }
    *open_path = if opens {
        copy_path(path)
    } else {
        parent_path(path)
    };
    *selected_path = copy_path(path);
    true
}

/// Activate the selected entry of a menu whose popup is in state `motion`.
pub fn invoke_at_selection(
    items: &Vec<ContextMenuItem>,
    selected_path: &mut Vec<usize>,
    open_path: &mut Vec<usize>,
    motion: &mut PopupMotion,
) -> (cmd: MenuCommand)
    ensures
        invoked_selected(
            items@,
            old(selected_path)@,
            old(open_path)@,
            *old(motion),
            cmd,
            final(selected_path)@,
            final(open_path)@,
            *final(motion),
        ),
{
    let (invokable, submenu, cmd0) = match enabled_item_at_path(items, selected_path) {
        Some(item) => {
            if item.is_submenu() {
                (false, true, MenuCommand::Nothing)
            } else {
                let armed = close_command_exec(motion);
                (true, false, invoke_command(item, selected_path, armed))
            }
        },
        None => (false, false, MenuCommand::Nothing),
    };
    if invokable {
        let _ = motion.begin_close();
        cmd0
    } else if submenu {
        if enter_submenu(items, selected_path, open_path) {
            MenuCommand::Redraw
        } else {
            MenuCommand::Nothing
        }
    } else {
        cmd0
    }
}

// ---------------------------------------------------------------------------
// Context menu
// ---------------------------------------------------------------------------

/// A right-click floating menu. It opens mounted; closing animates out and
/// the removal clears both paths.
pub struct ContextMenu {
    pub items: Vec<ContextMenuItem>,
    pub motion: PopupMotion,
    pub open_path: Vec<usize>,
    pub selected_path: Vec<usize>,
}

impl ContextMenu {
    /// An open, empty menu.
    pub fn build() -> (m: Self)
        ensures
            m.items@.len() == 0,
            m.motion == (PopupMotion { open: true, closing: false, motion_epoch: 0 }),
            m.open_path@.len() == 0,
            m.selected_path@.len() == 0,
    {
        ContextMenu {
            items: Vec::new(),
            motion: PopupMotion::opened(),
            open_path: Vec::new(),
            selected_path: Vec::new(),
        }
    }

    pub fn item(self, item: ContextMenuItem) -> (m: Self)
        ensures
            m.items@ == self.items@.push(item),
            m.motion == self.motion,
            m.open_path == self.open_path,
            m.selected_path == self.selected_path,
    {
        let mut m = self;
        m.items.push(item);
        m
    }

    pub fn separator(self) -> (m: Self)
        ensures
            m.items@ == self.items@.push(ContextMenuItem::Separator),
            m.motion == self.motion,
            m.open_path == self.open_path,
            m.selected_path == self.selected_path,
    {
        self.item(ContextMenuItem::Separator)
    }

    pub fn action(self, label: String) -> (m: Self)
        ensures
            m.items@ == self.items@.push(
                ContextMenuItem::Action { label, shortcut: None, icon: None, disabled: false },
            ),
            m.motion == self.motion,
    {
        self.item(ContextMenuItem::action(label))
    }

    pub fn action_with_icon(self, label: String, icon: String) -> (m: Self)
        ensures
            m.items@ == self.items@.push(
                ContextMenuItem::Action { label, shortcut: None, icon: Some(icon), disabled: false },
            ),
            m.motion == self.motion,
    {
        self.item(ContextMenuItem::action_with_icon(label, icon))
    }

    pub fn checkbox(self, label: String, checked: bool) -> (m: Self)
        ensures
            m.items@ == self.items@.push(
                ContextMenuItem::Checkbox { label, checked, disabled: false },
            ),
            m.motion == self.motion,
    {
        self.item(ContextMenuItem::checkbox(label, checked))
    }

    pub fn radio(self, label: String, selected: bool) -> (m: Self)
        ensures
            m.items@ == self.items@.push(ContextMenuItem::Radio { label, selected, disabled: false }),
            m.motion == self.motion,
    {
        self.item(ContextMenuItem::radio(label, selected))
    }

    pub fn submenu(self, label: String, items: Vec<ContextMenuItem>) -> (m: Self)
        ensures
            m.items@ == self.items@.push(
                ContextMenuItem::Submenu { label, icon: None, disabled: false, items },
            ),
            m.motion == self.motion,
    {
        self.item(ContextMenuItem::submenu(label, items))
    }

    /// Start closing. Returns the epoch to arm the removal timer with, or
    /// `None` when the menu is closed or already closing.
    pub fn close(&mut self) -> (armed: Option<u64>)
        ensures
            final(self).motion == after_begin_close(old(self).motion),
            armed == close_command(old(self).motion),
            final(self).items == old(self).items,
            final(self).open_path == old(self).open_path,
            final(self).selected_path == old(self).selected_path,
    {
        self.motion.begin_close()
    }

    /// The removal timer armed with `epoch` ran out: when it is still current
    /// the menu unmounts and forgets both paths.
    pub fn finish_close(&mut self, epoch: u64) -> (removed: bool)
        ensures
            final(self).motion == after_timer(old(self).motion, epoch),
            removed == (epoch == old(self).motion.motion_epoch && old(self).motion.closing),
            removed ==> final(self).open_path@.len() == 0 && final(self).selected_path@.len() == 0,
            !removed ==> final(self).open_path == old(self).open_path
                && final(self).selected_path == old(self).selected_path,
            final(self).items == old(self).items,
    {
        let removed = self.motion.finish_close(epoch);
        if removed {
            self.open_path.clear();
            self.selected_path.clear();
        }
        removed
    }

    /// Make the selection designate an enabled entry (done on every repaint
    /// while the menu is not closing).
    pub fn ensure_selection(&mut self)
        ensures
            ensured_selection(old(self).items@, old(self).selected_path@, final(self).selected_path@),
            final(self).items == old(self).items,
            final(self).motion == old(self).motion,
            final(self).open_path == old(self).open_path,
    {
        ensure_selection(&self.items, &mut self.selected_path);
    }

    /// Move among enabled siblings; a move closes any submenu deeper than
    /// the new selection's parent.
    pub fn move_selection(&mut self, delta: isize) -> (moved: bool)
        ensures
            moved_selection(old(self).items@, old(self).selected_path@, delta as int, moved, final(self).selected_path@),
            moved ==> final(self).open_path@ == parent_of(final(self).selected_path@),
            !moved ==> final(self).open_path == old(self).open_path,
            final(self).items == old(self).items,
            final(self).motion == old(self).motion,
    {
        let moved = move_selection(&self.items, &mut self.selected_path, delta);
        if moved {
            self.open_path = parent_path(&self.selected_path);
        }
        moved
    }

    pub fn enter_submenu(&mut self) -> (entered: bool)
        ensures
            entered_submenu(
                old(self).items@,
                old(self).selected_path@,
                old(self).open_path@,
                entered,
                final(self).selected_path@,
                final(self).open_path@,
            ),
            final(self).items == old(self).items,
            final(self).motion == old(self).motion,
    {
        enter_submenu(&self.items, &mut self.selected_path, &mut self.open_path)
    }

    pub fn leave_submenu(&mut self)
        ensures
            old(self).selected_path@.len() <= 1 ==> final(self).selected_path@ == old(self).selected_path@
                && final(self).open_path@.len() == 0,
            old(self).selected_path@.len() > 1 ==> final(self).selected_path@ == old(self).selected_path@.drop_last()
                && final(self).open_path@ == old(self).selected_path@.drop_last().drop_last(),
            final(self).items == old(self).items,
            final(self).motion == old(self).motion,
    {
        leave_submenu(&mut self.selected_path, &mut self.open_path);
    }

    /// The pointer moved over the row at `path` (ignored while closing, and
    /// on separators and disabled rows): the row becomes selected; a submenu
    /// row opens its submenu, any other row keeps only its ancestors open.
    pub fn hover(&mut self, path: &Vec<usize>) -> (changed: bool)
        ensures
            changed == (!old(self).motion.closing && hover_takes(old(self).items@, path@, true)),
            changed ==> hovered(old(self).items@, path@, final(self).selected_path@, final(self).open_path@),
            !changed ==> final(self).selected_path == old(self).selected_path
                && final(self).open_path == old(self).open_path,
            final(self).items == old(self).items,
            final(self).motion == old(self).motion,
    {
        if self.motion.closing {
            return false;
        }
        hover_row(&self.items, path, true, &mut self.selected_path, &mut self.open_path)
    }

    /// Activate the selected entry: actions, checkboxes and radios run their
    /// handler and close the menu; a submenu opens.
    pub fn invoke_selected(&mut self) -> (cmd: MenuCommand)
        ensures
            invoked_selected(
                old(self).items@,
                old(self).selected_path@,
                old(self).open_path@,
                old(self).motion,
                cmd,
                final(self).selected_path@,
                final(self).open_path@,
                final(self).motion,
            ),
            final(self).items == old(self).items,
    {
        invoke_at_selection(&self.items, &mut self.selected_path, &mut self.open_path, &mut self.motion)
    }

    /// React to a navigation key (ignored while closing).
    pub fn handle_key(&mut self, key: NavKey) -> (cmd: MenuCommand)
        ensures
            old(self).motion.closing ==> cmd is Nothing && final(self).motion == old(self).motion
                && final(self).selected_path == old(self).selected_path
                && final(self).open_path == old(self).open_path,
            !old(self).motion.closing && key == NavKey::Escape ==> final(self).motion == after_begin_close(old(self).motion)
                && cmd == match close_command(old(self).motion) {
                    Some(e) => MenuCommand::ArmCloseTimer(e),
                    None => MenuCommand::Nothing,
                } && final(self).selected_path == old(self).selected_path
                && final(self).open_path == old(self).open_path,
            !old(self).motion.closing && (key == NavKey::Up || key == NavKey::Down) ==> moved_selection(
                    old(self).items@,
                    old(self).selected_path@,
                    if key == NavKey::Up { -1 } else { 1 },
                    cmd is Redraw,
                    final(self).selected_path@,
                ) && final(self).motion == old(self).motion
                && (cmd is Redraw ==> final(self).open_path@ == parent_of(final(self).selected_path@))
                && (!(cmd is Redraw) ==> cmd is Nothing && final(self).open_path == old(self).open_path),
            !old(self).motion.closing && key == NavKey::Right ==> entered_submenu(
                old(self).items@,
                old(self).selected_path@,
                old(self).open_path@,
                cmd is Redraw,
                final(self).selected_path@,
                final(self).open_path@,
            ) && final(self).motion == old(self).motion,
            !old(self).motion.closing && key == NavKey::Left ==> cmd is Redraw
                && left_submenu(old(self).selected_path@, final(self).selected_path@, final(self).open_path@)
                && final(self).motion == old(self).motion,
            !old(self).motion.closing && (key == NavKey::Return || key == NavKey::Space) ==> invoked_selected(
                old(self).items@,
                old(self).selected_path@,
                old(self).open_path@,
                old(self).motion,
                cmd,
                final(self).selected_path@,
                final(self).open_path@,
                final(self).motion,
            ),
            !old(self).motion.closing && !(key == NavKey::Escape || key == NavKey::Up || key == NavKey::Down
                || key == NavKey::Right || key == NavKey::Left || key == NavKey::Return || key == NavKey::Space)
                ==> cmd is Nothing && final(self).selected_path == old(self).selected_path
                && final(self).open_path == old(self).open_path && final(self).motion == old(self).motion,
            final(self).items == old(self).items,
    {
        if self.motion.closing {
            return MenuCommand::Nothing;
        }
        match key {
            NavKey::Escape => match self.close() {
                Some(e) => MenuCommand::ArmCloseTimer(e),
                None => MenuCommand::Nothing,
            },
            NavKey::Up => {
                if self.move_selection(-1) {
                    MenuCommand::Redraw
                } else {
                    MenuCommand::Nothing
                }
            },
            NavKey::Down => {
                if self.move_selection(1) {
                    MenuCommand::Redraw
                } else {
                    MenuCommand::Nothing
                }
            },
            NavKey::Right => {
                if self.enter_submenu() {
                    MenuCommand::Redraw
                } else {
                    MenuCommand::Nothing
                }
            },
            NavKey::Left => {
                self.leave_submenu();
                MenuCommand::Redraw
            },
            NavKey::Return | NavKey::Space => self.invoke_selected(),
            _ => MenuCommand::Nothing,
        }
    }
}

fn close_command_exec(m: &PopupMotion) -> (armed: Option<u64>)
    ensures
        armed == close_command(*m),
{
    if m.open && !m.closing {
        Some(m.motion_epoch.wrapping_add(1))
    } else {
        None
    }
}

// ---------------------------------------------------------------------------
// Menu button
// ---------------------------------------------------------------------------

/// The selection a popup opens with: the first (or, from the Up key, the
/// last) enabled top-level entry, or the empty path when there is none.
pub open spec fn opening_selection(items: Seq<ContextMenuItem>, select_last: bool, sel: Seq<usize>) -> bool {
    if crate::menu_tree::has_enabled(items) {
        exists|k: int|
            (if select_last {
                crate::menu_tree::is_last_enabled(items, k)
            } else {
                crate::menu_tree::is_first_enabled(items, k)
            }) && sel == seq![k as usize]
    } else {
        sel.len() == 0
    }
}

fn opening_selection_exec(items: &Vec<ContextMenuItem>, select_last: bool) -> (sel: Vec<usize>)
    ensures
        opening_selection(items@, select_last, sel@),
{
    let empty: Vec<usize> = Vec::new();
    let found = if select_last {
        crate::menu_tree::last_enabled_path(items, &empty)
    } else {
        crate::menu_tree::first_enabled_path(items, &empty)
    };
    match found {
        Some(p) => {
            proof {
                let k = if select_last {
                    choose|k: int| crate::menu_tree::is_last_enabled(items@, k) && p@ == empty@.push(k as usize)
                } else {
                    choose|k: int| crate::menu_tree::is_first_enabled(items@, k) && p@ == empty@.push(k as usize)
                };
                assert(p@ =~= seq![k as usize]);
            }
            p
        },
        None => Vec::new(),
    }
}

/// A compact command trigger with an anchored dropdown menu.
pub struct MenuButton {
    pub id: String,
    pub label: String,
    pub icon: Option<String>,
    pub disabled: bool,
    pub items: Vec<ContextMenuItem>,
    pub motion: PopupMotion,
    pub open_path: Vec<usize>,
    pub selected_path: Vec<usize>,
}

impl MenuButton {
    pub fn new(id: String, label: String) -> (b: Self)
        ensures
            b.id == id,
            b.label == label,
            b.icon is None,
            !b.disabled,
            b.items@.len() == 0,
            b.motion == (PopupMotion { open: false, closing: false, motion_epoch: 0 }),
            b.open_path@.len() == 0,
            b.selected_path@.len() == 0,
    {
        MenuButton {
            id,
            label,
            icon: None,
            disabled: false,
            items: Vec::new(),
            motion: PopupMotion::new(),
            open_path: Vec::new(),
            selected_path: Vec::new(),
        }
    }

    pub fn icon(self, icon: String) -> (b: Self)
        ensures
            b.icon == Some(icon),
            b.items == self.items,
            b.disabled == self.disabled,
            b.motion == self.motion,
    {
        let mut b = self;
        b.icon = Some(icon);
        b
    }

    pub fn disabled(self, disabled: bool) -> (b: Self)
        ensures
            b.disabled == disabled,
            b.items == self.items,
            b.motion == self.motion,
    {
        let mut b = self;
        b.disabled = disabled;
        b
    }

    pub fn item(self, item: ContextMenuItem) -> (b: Self)
        ensures
            b.items@ == self.items@.push(item),
            b.disabled == self.disabled,
            b.motion == self.motion,
            b.selected_path == self.selected_path,
            b.open_path == self.open_path,
    {
        let mut b = self;
        b.items.push(item);
        b
    }

    pub fn items(self, items: Vec<ContextMenuItem>) -> (b: Self)
        ensures
            b.items == items,
            b.disabled == self.disabled,
            b.motion == self.motion,
    {
        let mut b = self;
        b.items = items;
        b
    }

    pub fn separator(self) -> (b: Self)
        ensures
            b.items@ == self.items@.push(ContextMenuItem::Separator),
            b.disabled == self.disabled,
            b.motion == self.motion,
    {
        self.item(ContextMenuItem::Separator)
    }

    pub fn action(self, label: String) -> (b: Self)
        ensures
            b.items@ == self.items@.push(
                ContextMenuItem::Action { label, shortcut: None, icon: None, disabled: false },
            ),
            b.disabled == self.disabled,
            b.motion == self.motion,
    {
        self.item(ContextMenuItem::action(label))
    }

    /// Open the popup selecting the first enabled entry.
    pub fn open_popup(&mut self)
        ensures
            old(self).items@.len() == 0 ==> final(self).motion == old(self).motion
                && final(self).selected_path == old(self).selected_path
                && final(self).open_path == old(self).open_path,
            old(self).items@.len() > 0 ==> final(self).motion == after_open(old(self).motion)
                && final(self).open_path@.len() == 0
                && opening_selection(old(self).items@, false, final(self).selected_path@),
            final(self).items == old(self).items,
            final(self).disabled == old(self).disabled,
    {
        self.open_popup_selecting(false);
    }

    /// Open the popup selecting the first (or last) enabled entry. A button
    /// without entries does not open.
    pub fn open_popup_selecting(&mut self, select_last: bool)
        ensures
            old(self).items@.len() == 0 ==> final(self).motion == old(self).motion
                && final(self).selected_path == old(self).selected_path
                && final(self).open_path == old(self).open_path,
            old(self).items@.len() > 0 ==> final(self).motion == after_open(old(self).motion)
                && final(self).open_path@.len() == 0
                && opening_selection(old(self).items@, select_last, final(self).selected_path@),
            final(self).items == old(self).items,
            final(self).disabled == old(self).disabled,
    {
        if self.items.len() == 0 {
            return;
        }
        self.motion.open();
        self.open_path.clear();
        self.selected_path = opening_selection_exec(&self.items, select_last);
    }

    pub fn close_popup(&mut self) -> (armed: Option<u64>)
        ensures
            final(self).motion == after_begin_close(old(self).motion),
            armed == close_command(old(self).motion),
            final(self).items == old(self).items,
            final(self).open_path == old(self).open_path,
            final(self).selected_path == old(self).selected_path,
            final(self).disabled == old(self).disabled,
    {
        self.motion.begin_close()
    }

    /// The removal timer armed with `epoch` ran out.
    pub fn finish_close(&mut self, epoch: u64) -> (removed: bool)
        ensures
            final(self).motion == after_timer(old(self).motion, epoch),
            removed == (epoch == old(self).motion.motion_epoch && old(self).motion.closing),
            removed ==> final(self).open_path@.len() == 0 && final(self).selected_path@.len() == 0,
            !removed ==> final(self).open_path == old(self).open_path
                && final(self).selected_path == old(self).selected_path,
            final(self).items == old(self).items,
            final(self).disabled == old(self).disabled,
    {
        let removed = self.motion.finish_close(epoch);
        if removed {
            self.open_path.clear();
            self.selected_path.clear();
        }
        removed
    }

    pub fn move_selection(&mut self, delta: isize) -> (moved: bool)
        ensures
            moved_selection(old(self).items@, old(self).selected_path@, delta as int, moved, final(self).selected_path@),
            moved ==> final(self).open_path@ == parent_of(final(self).selected_path@),
            !moved ==> final(self).open_path == old(self).open_path,
            final(self).items == old(self).items,
            final(self).motion == old(self).motion,
            final(self).disabled == old(self).disabled,
    {
        let moved = move_selection(&self.items, &mut self.selected_path, delta);
        if moved {
            self.open_path = parent_path(&self.selected_path);
        }
        moved
    }

    pub fn enter_submenu(&mut self) -> (entered: bool)
        ensures
            entered_submenu(
                old(self).items@,
                old(self).selected_path@,
                old(self).open_path@,
                entered,
                final(self).selected_path@,
                final(self).open_path@,
            ),
            final(self).items == old(self).items,
            final(self).motion == old(self).motion,
            final(self).disabled == old(self).disabled,
    {
        enter_submenu(&self.items, &mut self.selected_path, &mut self.open_path)
    }

    pub fn leave_submenu(&mut self)
        ensures
            left_submenu(old(self).selected_path@, final(self).selected_path@, final(self).open_path@),
            final(self).items == old(self).items,
            final(self).motion == old(self).motion,
            final(self).disabled == old(self).disabled,
    {
        leave_submenu(&mut self.selected_path, &mut self.open_path);
    }

    /// The pointer moved over the row at `path` (ignored while closing, and
    /// on separators and disabled submenus; a disabled entry is selected).
    pub fn hover(&mut self, path: &Vec<usize>) -> (changed: bool)
        ensures
            changed == (!old(self).motion.closing && hover_takes(old(self).items@, path@, false)),
            changed ==> hovered(old(self).items@, path@, final(self).selected_path@, final(self).open_path@),
            !changed ==> final(self).selected_path == old(self).selected_path
                && final(self).open_path == old(self).open_path,
            final(self).items == old(self).items,
            final(self).motion == old(self).motion,
            final(self).disabled == old(self).disabled,
    {
        if self.motion.closing {
            return false;
        }
        hover_row(&self.items, path, false, &mut self.selected_path, &mut self.open_path)
    }

    pub fn invoke_selected(&mut self) -> (cmd: MenuCommand)
        ensures
            invoked_selected(
                old(self).items@,
                old(self).selected_path@,
                old(self).open_path@,
                old(self).motion,
                cmd,
                final(self).selected_path@,
                final(self).open_path@,
                final(self).motion,
            ),
            final(self).items == old(self).items,
            final(self).disabled == old(self).disabled,
    {
        invoke_at_selection(&self.items, &mut self.selected_path, &mut self.open_path, &mut self.motion)
    }

    /// A click on the trigger: closes an open, settled popup; opens a closed
    /// one; does nothing while the popup animates out.
    pub fn click_trigger(&mut self) -> (cmd: MenuCommand)
        ensures
            old(self).motion.open && !old(self).motion.closing ==> final(self).motion == after_begin_close(old(self).motion)
                && cmd == MenuCommand::ArmCloseTimer(next_epoch(old(self).motion.motion_epoch))
                && final(self).selected_path == old(self).selected_path
                && final(self).open_path == old(self).open_path,
            !old(self).motion.open ==> cmd is Redraw && (old(self).items@.len() == 0 ==> final(self).motion == old(self).motion
                && final(self).selected_path == old(self).selected_path
                && final(self).open_path == old(self).open_path)
                && (old(self).items@.len() > 0 ==> final(self).motion == after_open(old(self).motion)
                && final(self).open_path@.len() == 0
                && opening_selection(old(self).items@, false, final(self).selected_path@)),
            old(self).motion.open && old(self).motion.closing ==> cmd is Nothing
                && final(self).motion == old(self).motion
                && final(self).selected_path == old(self).selected_path
                && final(self).open_path == old(self).open_path,
            final(self).items == old(self).items,
            final(self).disabled == old(self).disabled,
    {
        if self.motion.open && !self.motion.closing {
            match self.close_popup() {
                Some(e) => MenuCommand::ArmCloseTimer(e),
                None => MenuCommand::Nothing,
            }
        } else if !self.motion.open {
            self.open_popup();
            MenuCommand::Redraw
        } else {
            MenuCommand::Nothing
        }
    }

    /// React to a key (ignored when disabled or closing). Down/Up/Return/Space
    /// open a closed popup (Up selects the last entry); on an open popup they
    /// move or activate.
    pub fn handle_key(&mut self, key: NavKey) -> (cmd: MenuCommand)
        ensures
            old(self).disabled || old(self).motion.closing ==> cmd is Nothing
                && final(self).motion == old(self).motion
                && final(self).selected_path == old(self).selected_path
                && final(self).open_path == old(self).open_path,
            !old(self).disabled && !old(self).motion.closing ==> match key {
                NavKey::Escape => final(self).motion == after_begin_close(old(self).motion)
                    && cmd == match close_command(old(self).motion) {
                        Some(e) => MenuCommand::ArmCloseTimer(e),
                        None => MenuCommand::Nothing,
                    }
                    && final(self).selected_path == old(self).selected_path
                    && final(self).open_path == old(self).open_path,
                NavKey::Down | NavKey::Up => if old(self).motion.open {
                    moved_selection(
                        old(self).items@,
                        old(self).selected_path@,
                        if key == NavKey::Up { -1 } else { 1 },
                        cmd is Redraw,
                        final(self).selected_path@,
                    ) && final(self).motion == old(self).motion
                    && (cmd is Redraw ==> final(self).open_path@ == parent_of(final(self).selected_path@))
                    && (!(cmd is Redraw) ==> cmd is Nothing && final(self).open_path == old(self).open_path)
                } else {
                    cmd is Redraw && (old(self).items@.len() == 0 ==> final(self).motion == old(self).motion
                        && final(self).selected_path == old(self).selected_path
                        && final(self).open_path == old(self).open_path)
                    && (old(self).items@.len() > 0 ==> final(self).motion == after_open(old(self).motion)
                        && final(self).open_path@.len() == 0
                        && opening_selection(old(self).items@, key == NavKey::Up, final(self).selected_path@))
                },
                NavKey::Right => entered_submenu(
                    old(self).items@,
                    old(self).selected_path@,
                    old(self).open_path@,
                    cmd is Redraw,
                    final(self).selected_path@,
                    final(self).open_path@,
                ) && final(self).motion == old(self).motion,
                NavKey::Left => cmd is Redraw
                    && left_submenu(old(self).selected_path@, final(self).selected_path@, final(self).open_path@)
                    && final(self).motion == old(self).motion,
                NavKey::Return | NavKey::Space => if old(self).motion.open {
                    invoked_selected(
                        old(self).items@,
                        old(self).selected_path@,
                        old(self).open_path@,
                        old(self).motion,
                        cmd,
                        final(self).selected_path@,
                        final(self).open_path@,
                        final(self).motion,
                    )
                } else {
                    cmd is Redraw && (old(self).items@.len() == 0 ==> final(self).motion == old(self).motion
                        && final(self).selected_path == old(self).selected_path
                        && final(self).open_path == old(self).open_path)
                    && (old(self).items@.len() > 0 ==> final(self).motion == after_open(old(self).motion)
                        && final(self).open_path@.len() == 0
                        && opening_selection(old(self).items@, false, final(self).selected_path@))
                },
                _ => cmd is Nothing && final(self).motion == old(self).motion
                    && final(self).selected_path == old(self).selected_path
                    && final(self).open_path == old(self).open_path,
            },
            final(self).items == old(self).items,
            final(self).disabled == old(self).disabled,
    {
        if self.disabled || self.motion.closing {
            return MenuCommand::Nothing;
        }
        match key {
            NavKey::Escape => match self.close_popup() {
                Some(e) => MenuCommand::ArmCloseTimer(e),
                None => MenuCommand::Nothing,
            },
            NavKey::Down => {
                if self.motion.open {
                    if self.move_selection(1) {
                        MenuCommand::Redraw
                    } else {
                        MenuCommand::Nothing
                    }
                } else {
                    self.open_popup();
                    MenuCommand::Redraw
                }
            },
            NavKey::Up => {
                if self.motion.open {
                    if self.move_selection(-1) {
                        MenuCommand::Redraw
                    } else {
                        MenuCommand::Nothing
                    }
                } else {
                    self.open_popup_selecting(true);
                    MenuCommand::Redraw
                }
            },
            NavKey::Right => {
                if self.enter_submenu() {
                    MenuCommand::Redraw
                } else {
                    MenuCommand::Nothing
                }
            },
            NavKey::Left => {
                self.leave_submenu();
                MenuCommand::Redraw
            },
            NavKey::Return | NavKey::Space => {
                if self.motion.open {
                    self.invoke_selected()
                } else {
                    self.open_popup();
                    MenuCommand::Redraw
                }
            },
            _ => MenuCommand::Nothing,
        }
    }
}

// ---------------------------------------------------------------------------
// Menu bar
// ---------------------------------------------------------------------------

/// One top-level menu of the bar.
#[derive(Debug)]
pub struct MenuDef {
    pub label: String,
    pub items: Vec<ContextMenuItem>,
}

/// The horizontal application menu bar (File | Edit | View | ...). At most
/// one menu is open; `active_index` is the keyboard focus among the
/// triggers.
pub struct MenuBar {
    pub menus: Vec<MenuDef>,
    pub open_index: Option<usize>,
    pub motion: PopupMotion,
    pub active_index: usize,
    pub selected_path: Vec<usize>,
    pub open_path: Vec<usize>,
}

/// The selection paths a freshly opened menu starts with.
pub open spec fn opened_menu(bar_menus: Seq<MenuDef>, idx: int, select_last: bool, sel: Seq<usize>, open: Seq<usize>) -> bool {
    open.len() == 0 && opening_selection(bar_menus[idx].items@, select_last, sel)
}

/// The trigger index a move of `delta` leads to, wrapping around.
pub open spec fn wrapped_index(active: int, len: int, delta: int) -> int {
    if delta < 0 {
        if active == 0 {
            len - 1
        } else {
            active - 1
        }
    } else {
        (active + 1) % len
    }
}

/// `new` is `old` after opening menu `idx` (clamped) with the given
/// selection; a bar without menus is unchanged.
pub open spec fn bar_opened(old: MenuBar, new: MenuBar, idx: int, select_last: bool) -> bool {
    &&& new.menus == old.menus
    &&& old.menus@.len() == 0 ==> new.open_index == old.open_index && new.motion == old.motion
        && new.active_index == old.active_index && new.selected_path == old.selected_path
        && new.open_path == old.open_path
    &&& old.menus@.len() > 0 ==> {
        let i = if idx < old.menus@.len() { idx } else { old.menus@.len() - 1 };
        &&& new.active_index == i
        &&& new.open_index == Some(i as usize)
        &&& new.motion == after_open(old.motion)
        &&& opened_menu(old.menus@, i, select_last, new.selected_path@, new.open_path@)
    }
}

/// `new` is `old` after moving the trigger focus by `delta`.
pub open spec fn bar_moved_top(old: MenuBar, new: MenuBar, delta: int) -> bool {
    &&& new.menus == old.menus
    &&& old.menus@.len() == 0 ==> new == old
    &&& old.menus@.len() > 0 ==> {
        let next = wrapped_index(old.active_index as int, old.menus@.len() as int, delta);
        if old.open_index is Some && !old.motion.closing {
            bar_opened(old, new, next, false)
        } else {
            &&& new.active_index == next
            &&& new.open_index == old.open_index
            &&& new.motion == old.motion
            &&& new.selected_path == old.selected_path
            &&& new.open_path == old.open_path
        }
    }
}

impl MenuBar {
    /// The bar's invariant: the popup is open exactly when a menu is open,
    /// and that menu exists.
    pub open spec fn wf(&self) -> bool {
        &&& self.motion.open == (self.open_index is Some)
        &&& self.open_index matches Some(i) ==> i < self.menus@.len()
        &&& self.active_index == 0 || self.active_index < self.menus@.len()
    }

    pub fn new() -> (bar: Self)
        ensures
            bar.wf(),
            bar.menus@.len() == 0,
            bar.open_index is None,
            bar.motion == (PopupMotion { open: false, closing: false, motion_epoch: 0 }),
            bar.active_index == 0,
            bar.selected_path@.len() == 0,
            bar.open_path@.len() == 0,
    {
        MenuBar {
            menus: Vec::new(),
            open_index: None,
            motion: PopupMotion::new(),
            active_index: 0,
            selected_path: Vec::new(),
            open_path: Vec::new(),
        }
    }

    /// Append a top-level menu.
    pub fn menu(self, label: String, items: Vec<ContextMenuItem>) -> (bar: Self)
        requires
            self.wf(),
        ensures
            bar.wf(),
            bar.menus@.len() == self.menus@.len() + 1,
            bar.menus@.take(self.menus@.len() as int) == self.menus@,
            bar.menus@.last().label == label,
            bar.menus@.last().items == items,
            bar.open_index == self.open_index,
            bar.motion == self.motion,
            bar.active_index == self.active_index,
    {
        let mut bar = self;
        bar.menus.push(MenuDef { label, items });
        proof {
            assert(bar.menus@.take(self.menus@.len() as int) =~= self.menus@);
        }
        bar
    }

    /// Start closing the open menu; returns the epoch to arm the removal
    /// timer with, or `None` when no menu is open or it is already closing.
    pub fn close(&mut self) -> (armed: Option<u64>)
        requires
            old(self).wf(),
        ensures
            final(self).wf(),
            final(self).motion == after_begin_close(old(self).motion),
            armed == close_command(old(self).motion),
            final(self).open_index == old(self).open_index,
            final(self).menus == old(self).menus,
            final(self).active_index == old(self).active_index,
            final(self).selected_path == old(self).selected_path,
            final(self).open_path == old(self).open_path,
    {
        self.motion.begin_close()
    }

    /// The removal timer armed with `epoch` ran out: when still current the
    /// menu closes and both paths are cleared.
    pub fn finish_close(&mut self, epoch: u64) -> (removed: bool)
        requires
            old(self).wf(),
        ensures
            final(self).wf(),
            final(self).motion == after_timer(old(self).motion, epoch),
            removed == (epoch == old(self).motion.motion_epoch && old(self).motion.closing),
            removed ==> final(self).open_index is None && final(self).open_path@.len() == 0
                && final(self).selected_path@.len() == 0,
            !removed ==> final(self).open_index == old(self).open_index
                && final(self).open_path == old(self).open_path
                && final(self).selected_path == old(self).selected_path,
            final(self).menus == old(self).menus,
            final(self).active_index == old(self).active_index,
    {
        let removed = self.motion.finish_close(epoch);
        if removed {
            self.open_index = None;
            self.open_path.clear();
            self.selected_path.clear();
        }
        removed
    }

    /// The entries of the open menu, unless it is closing.
    pub fn current_items(&self) -> (items: Option<&Vec<ContextMenuItem>>)
        requires
            self.wf(),
        ensures
            match items {
                Some(v) => !self.motion.closing && self.open_index is Some
                    && *v == self.menus@[self.open_index->0 as int].items,
                None => self.motion.closing || self.open_index is None,
            },
    {
        if self.motion.closing {
            return None;
        }
        match self.open_index {
            Some(i) => Some(&self.menus[i].items),
            None => None,
        }
    }

    /// Open menu `idx` (clamped to the last menu) and select its first (or
    /// last) enabled entry. A bar without menus does nothing.
    pub fn open_menu(&mut self, idx: usize, select_last: bool)
        requires
            old(self).wf(),
        ensures
            final(self).wf(),
            bar_opened(*old(self), *final(self), idx as int, select_last),
    {
        if self.menus.len() == 0 {
            return;
        }
        let i = if idx < self.menus.len() {
            idx
        } else {
            self.menus.len() - 1
        };
        self.active_index = i;
        self.motion.open();
        self.open_index = Some(i);
        self.open_path.clear();
        self.selected_path = opening_selection_exec(&self.menus[i].items, select_last);
    }

    /// Move the trigger focus one menu left (`delta < 0`) or right, wrapping.
    /// While a menu is open and settled the neighbouring menu opens instead.
    pub fn move_top_menu(&mut self, delta: isize)
        requires
            old(self).wf(),
        ensures
            final(self).wf(),
            bar_moved_top(*old(self), *final(self), delta as int),
    {
        let len = self.menus.len();
        if len == 0 {
            return;
        }
        let next = if delta < 0 {
            if self.active_index == 0 {
                len - 1
            } else {
                self.active_index - 1
            }
        } else {
            (self.active_index + 1) % len
        };
        if self.open_index.is_some() && !self.motion.closing {
            self.open_menu(next, false);
        } else {
            self.active_index = next;
        }
    }

    /// Move among enabled siblings of the open menu (ignored while closing
    /// or when no menu is open).
    pub fn move_selection(&mut self, delta: isize) -> (moved: bool)
        requires
            old(self).wf(),
        ensures
            final(self).wf(),
            final(self).menus == old(self).menus,
            final(self).open_index == old(self).open_index,
            final(self).motion == old(self).motion,
            final(self).active_index == old(self).active_index,
            old(self).motion.closing || old(self).open_index is None ==> !moved
                && final(self).selected_path == old(self).selected_path
                && final(self).open_path == old(self).open_path,
            !old(self).motion.closing && old(self).open_index is Some ==> {
                let i = old(self).open_index->0;
                &&& moved_selection(old(self).menus@[i as int].items@, old(self).selected_path@, delta as int, moved, final(self).selected_path@)
                &&& moved ==> final(self).open_path@ == parent_of(final(self).selected_path@)
                &&& !moved ==> final(self).open_path == old(self).open_path
            },
    {
        if self.motion.closing {
            return false;
        }
        let i = match self.open_index {
            Some(i) => i,
            None => {
                return false;
            },
        };
        let moved = move_selection(&self.menus[i].items, &mut self.selected_path, delta);
        if moved {
            self.open_path = parent_path(&self.selected_path);
        }
        moved
    }

    /// Enter the submenu at the selection of the open menu (ignored while
    /// closing or when no menu is open).
    pub fn enter_submenu(&mut self) -> (entered: bool)
        requires
            old(self).wf(),
        ensures
            final(self).wf(),
            final(self).menus == old(self).menus,
            final(self).open_index == old(self).open_index,
            final(self).motion == old(self).motion,
            final(self).active_index == old(self).active_index,
            old(self).motion.closing || old(self).open_index is None ==> !entered
                && final(self).selected_path == old(self).selected_path
                && final(self).open_path == old(self).open_path,
            !old(self).motion.closing && old(self).open_index is Some ==> entered_submenu(
                old(self).menus@[old(self).open_index->0 as int].items@,
                old(self).selected_path@,
                old(self).open_path@,
                entered,
                final(self).selected_path@,
                final(self).open_path@,
            ),
    {
        if self.motion.closing {
            return false;
        }
        let i = match self.open_index {
            Some(i) => i,
            None => {
                return false;
            },
        };
        enter_submenu(&self.menus[i].items, &mut self.selected_path, &mut self.open_path)
    }

    pub fn leave_submenu(&mut self)
        requires
            old(self).wf(),
        ensures
            final(self).wf(),
            left_submenu(old(self).selected_path@, final(self).selected_path@, final(self).open_path@),
            final(self).menus == old(self).menus,
            final(self).open_index == old(self).open_index,
            final(self).motion == old(self).motion,
            final(self).active_index == old(self).active_index,
    {
        leave_submenu(&mut self.selected_path, &mut self.open_path);
    }

    /// The pointer moved over the row at `path` of the open menu (ignored
    /// while closing, when no menu is open, and on separators and disabled
    /// submenus; a disabled entry is selected).
    pub fn hover(&mut self, path: &Vec<usize>) -> (changed: bool)
        requires
            old(self).wf(),
        ensures
            final(self).wf(),
            final(self).menus == old(self).menus,
            final(self).open_index == old(self).open_index,
            final(self).motion == old(self).motion,
            final(self).active_index == old(self).active_index,
            changed == (!old(self).motion.closing && old(self).open_index is Some && hover_takes(
                old(self).menus@[old(self).open_index->0 as int].items@,
                path@,
                false,
            )),
            changed ==> hovered(
                old(self).menus@[old(self).open_index->0 as int].items@,
                path@,
                final(self).selected_path@,
                final(self).open_path@,
            ),
            !changed ==> final(self).selected_path == old(self).selected_path
                && final(self).open_path == old(self).open_path,
    {
        if self.motion.closing {
            return false;
        }
        match self.open_index {
            Some(i) => {
                hover_row(&self.menus[i].items, path, false, &mut self.selected_path, &mut self.open_path)
            },
            None => false,
        }
    }

    /// Activate the selected entry of the open menu (nothing while closing or
    /// when no menu is open).
    pub fn invoke_selected(&mut self) -> (cmd: MenuCommand)
        requires
            old(self).wf(),
        ensures
            final(self).wf(),
            final(self).menus == old(self).menus,
            final(self).open_index == old(self).open_index,
            final(self).active_index == old(self).active_index,
            old(self).motion.closing || old(self).open_index is None ==> cmd is Nothing
                && *final(self) == *old(self),
            !old(self).motion.closing && old(self).open_index is Some ==> invoked_selected(
                old(self).menus@[old(self).open_index->0 as int].items@,
                old(self).selected_path@,
                old(self).open_path@,
                old(self).motion,
                cmd,
                final(self).selected_path@,
                final(self).open_path@,
                final(self).motion,
            ),
    {
        if self.motion.closing {
            return MenuCommand::Nothing;
        }
        match self.open_index {
            Some(i) => invoke_at_selection(&self.menus[i].items, &mut self.selected_path, &mut self.open_path, &mut self.motion),
            None => MenuCommand::Nothing,
        }
    }

    /// Whether the selection of the open menu designates a submenu entry.
    pub fn submenu_selected(&self) -> (b: bool)
        requires
            self.wf(),
        ensures
            b == (!self.motion.closing && self.open_index is Some && (item_at_path_spec(
                self.menus@[self.open_index->0 as int].items@,
                self.selected_path@,
            ) matches Some(ContextMenuItem::Submenu { .. }))),
    {
        match self.current_items() {
            Some(items) => match item_at_path(items, &self.selected_path) {
                Some(item) => item.is_submenu(),
                None => false,
            },
            None => false,
        }
    }

    /// A click on the trigger of menu `idx`: closes it when it is the open,
    /// settled menu; otherwise opens it.
    pub fn click_trigger(&mut self, idx: usize) -> (cmd: MenuCommand)
        requires
            old(self).wf(),
        ensures
            final(self).wf(),
            final(self).menus == old(self).menus,
            old(self).open_index == Some(idx) && !old(self).motion.closing ==> cmd == MenuCommand::ArmCloseTimer(
                next_epoch(old(self).motion.motion_epoch),
            ) && final(self).motion == after_begin_close(old(self).motion)
                && final(self).open_index == old(self).open_index
                && final(self).selected_path == old(self).selected_path
                && final(self).open_path == old(self).open_path,
            !(old(self).open_index == Some(idx) && !old(self).motion.closing) ==> cmd is Redraw
                && bar_opened(*old(self), *final(self), idx as int, false),
    {
        if self.open_index == Some(idx) && !self.motion.closing {
            match self.close() {
                Some(e) => MenuCommand::ArmCloseTimer(e),
                None => MenuCommand::Nothing,
            }
        } else {
            self.open_menu(idx, false);
            MenuCommand::Redraw
        }
    }

    /// Put a "File" menu holding "Exit" (shortcut "Alt+F4") in front of the
    /// bar, unless the first menu is already labelled "File".
    pub fn ensure_file_menu(&mut self)
        requires
            old(self).wf(),
        ensures
            final(self).wf(),
            old(self).menus@.len() > 0 && old(self).menus@[0].label@ == "File"@ ==> final(self).menus == old(self).menus
                && final(self).open_index == old(self).open_index,
            !(old(self).menus@.len() > 0 && old(self).menus@[0].label@ == "File"@) ==> {
                &&& final(self).menus@.len() == old(self).menus@.len() + 1
                &&& final(self).menus@[0].label@ == "File"@
                &&& final(self).menus@[0].items@.len() == 1
                &&& final(self).menus@[0].items@[0] is Action
                &&& final(self).menus@[0].items@[0]->Action_label@ == "Exit"@
                &&& final(self).menus@[0].items@[0]->Action_shortcut is Some
                &&& final(self).menus@[0].items@[0]->Action_shortcut->0@ == "Alt+F4"@
                &&& final(self).menus@[0].items@[0]->Action_icon is None
                &&& !final(self).menus@[0].items@[0]->Action_disabled
                &&& final(self).menus@.skip(1) == old(self).menus@
                &&& final(self).open_index == match old(self).open_index {
                    Some(i) => Some((i + 1) as usize),
                    None => None::<usize>,
                }
            },
            final(self).motion == old(self).motion,
            final(self).selected_path == old(self).selected_path,
            final(self).open_path == old(self).open_path,
    {
        let present = self.menus.len() > 0 && crate::keys::str_eq(self.menus[0].label.as_str(), "File");
        if present {
            return;
        }
        let exit = ContextMenuItem::action(String::from_str("Exit")).shortcut(String::from_str("Alt+F4"));
        let mut items: Vec<ContextMenuItem> = Vec::new();
        items.push(exit);
        let ghost before = self.menus@;
        self.menus.insert(0, MenuDef { label: String::from_str("File"), items });
        proof {
            assert(self.menus@.skip(1) =~= before);
        }
        self.open_index = match self.open_index {
            Some(i) => Some(i + 1),
            None => None,
        };
    }

    /// React to a key (ignored while closing). Left/Right move between
    /// submenus first and between top-level menus otherwise; Down/Up and
    /// Return/Space open the focused menu when none is open.
    pub fn handle_key(&mut self, key: NavKey) -> (cmd: MenuCommand)
        requires
            old(self).wf(),
        ensures
            final(self).wf(),
            final(self).menus == old(self).menus,
            old(self).motion.closing ==> cmd is Nothing && *final(self) == *old(self),
            !old(self).motion.closing ==> match key {
                NavKey::Escape => final(self).motion == after_begin_close(old(self).motion)
                    && cmd == match close_command(old(self).motion) {
                        Some(e) => MenuCommand::ArmCloseTimer(e),
                        None => MenuCommand::Nothing,
                    }
                    && final(self).open_index == old(self).open_index
                    && final(self).active_index == old(self).active_index
                    && final(self).selected_path == old(self).selected_path
                    && final(self).open_path == old(self).open_path,
                NavKey::Left => cmd is Redraw && if old(self).selected_path@.len() > 1 {
                    left_submenu(old(self).selected_path@, final(self).selected_path@, final(self).open_path@)
                        && final(self).motion == old(self).motion
                        && final(self).open_index == old(self).open_index
                        && final(self).active_index == old(self).active_index
                } else {
                    bar_moved_top(*old(self), *final(self), -1)
                },
                NavKey::Right => if old(self).open_index is Some && (item_at_path_spec(
                    old(self).menus@[old(self).open_index->0 as int].items@,
                    old(self).selected_path@,
                ) matches Some(ContextMenuItem::Submenu { .. })) {
                    entered_submenu(
                        old(self).menus@[old(self).open_index->0 as int].items@,
                        old(self).selected_path@,
                        old(self).open_path@,
                        cmd is Redraw,
                        final(self).selected_path@,
                        final(self).open_path@,
                    ) && final(self).motion == old(self).motion
                        && final(self).open_index == old(self).open_index
                        && final(self).active_index == old(self).active_index
                } else {
                    cmd is Redraw && bar_moved_top(*old(self), *final(self), 1)
                },
                NavKey::Down | NavKey::Up => if old(self).open_index is None {
                    cmd is Redraw && bar_opened(*old(self), *final(self), old(self).active_index as int, key == NavKey::Up)
                } else {
                    &&& moved_selection(
                        old(self).menus@[old(self).open_index->0 as int].items@,
                        old(self).selected_path@,
                        if key == NavKey::Up { -1 } else { 1 },
                        cmd is Redraw,
                        final(self).selected_path@,
                    )
                    &&& cmd is Redraw ==> final(self).open_path@ == parent_of(final(self).selected_path@)
                    &&& !(cmd is Redraw) ==> cmd is Nothing && final(self).open_path == old(self).open_path
                    &&& final(self).motion == old(self).motion
                    &&& final(self).open_index == old(self).open_index
                    &&& final(self).active_index == old(self).active_index
                },
                NavKey::Return | NavKey::Space => if old(self).open_index is None {
                    cmd is Redraw && bar_opened(*old(self), *final(self), old(self).active_index as int, false)
                } else {
                    invoked_selected(
                        old(self).menus@[old(self).open_index->0 as int].items@,
                        old(self).selected_path@,
                        old(self).open_path@,
                        old(self).motion,
                        cmd,
                        final(self).selected_path@,
                        final(self).open_path@,
                        final(self).motion,
                    ) && final(self).open_index == old(self).open_index
                        && final(self).active_index == old(self).active_index
                },
                _ => cmd is Nothing && *final(self) == *old(self),
            },
    {
        if self.motion.closing {
            return MenuCommand::Nothing;
        }
        match key {
            NavKey::Escape => match self.close() {
                Some(e) => MenuCommand::ArmCloseTimer(e),
                None => MenuCommand::Nothing,
            },
            NavKey::Left => {
                if self.selected_path.len() > 1 {
                    self.leave_submenu();
                } else {
                    self.move_top_menu(-1);
                }
                MenuCommand::Redraw
            },
            NavKey::Right => {
                if self.submenu_selected() {
                    if self.enter_submenu() {
                        MenuCommand::Redraw
                    } else {
                        MenuCommand::Nothing
                    }
                } else {
                    self.move_top_menu(1);
                    MenuCommand::Redraw
                }
            },
            NavKey::Down => {
                if self.open_index.is_none() {
                    let a = self.active_index;
                    self.open_menu(a, false);
                    MenuCommand::Redraw
                } else if self.move_selection(1) {
                    MenuCommand::Redraw
                } else {
                    MenuCommand::Nothing
                }
            },
            NavKey::Up => {
                if self.open_index.is_none() {
                    let a = self.active_index;
                    self.open_menu(a, true);
                    MenuCommand::Redraw
                } else if self.move_selection(-1) {
                    MenuCommand::Redraw
                } else {
                    MenuCommand::Nothing
                }
            },
            NavKey::Return | NavKey::Space => {
                if self.open_index.is_some() {
                    self.invoke_selected()
                } else {
                    let a = self.active_index;
                    self.open_menu(a, false);
                    MenuCommand::Redraw
                }
            },
            _ => MenuCommand::Nothing,
        }
    }
}

/// Moving the focus among the bar's menus: left goes to the menu before
/// (from the first, to the last), right to the menu after (from the last,
/// to the first), whether or not a menu is open; a move left then right, or
/// right then left, comes back to the same menu.
pub proof fn lemma_move_top_left_right(a: MenuBar, b: MenuBar, c: MenuBar)
    requires
        a.wf(),
        a.menus@.len() > 0,
    ensures
        bar_moved_top(a, b, -1) ==> b.active_index == if a.active_index > 0 {
            a.active_index - 1
        } else {
            a.menus@.len() - 1
        },
        bar_moved_top(a, b, 1) ==> b.active_index == if a.active_index + 1 < a.menus@.len() {
            a.active_index + 1
        } else {
            0
        },
        bar_moved_top(a, b, -1) && bar_moved_top(b, c, 1) ==> c.active_index == a.active_index,
        bar_moved_top(a, b, 1) && bar_moved_top(b, c, -1) ==> c.active_index == a.active_index,
{
    let n = a.menus@.len() as int;
    let i = a.active_index as int;
    assert(i < n);
    if i + 1 < n {
        assert((i + 1) % n == i + 1) by (nonlinear_arith)
            requires 0 <= i + 1 < n;
    } else {
        assert((i + 1) % n == 0) by (nonlinear_arith)
            requires i + 1 == n, n > 0;
    }
    if i > 0 {
        assert(((i - 1) + 1) % n == i) by (nonlinear_arith)
            requires 0 <= i < n;
    } else {
        assert(((n - 1) + 1) % n == 0) by (nonlinear_arith)
            requires n > 0;
    }
}

/// Builder facade for menu bar entries: each gives the entry of the shared
/// item model that the matching `ContextMenuItem` constructor gives.
pub struct MenuItemDef;

impl MenuItemDef {
    pub fn action(label: String) -> (item: ContextMenuItem)
        ensures
            item == (ContextMenuItem::Action { label, shortcut: None, icon: None, disabled: false }),
    {
        ContextMenuItem::action(label)
    }

    pub fn action_with_shortcut(label: String, shortcut: String) -> (item: ContextMenuItem)
        ensures
            item == (ContextMenuItem::Action { label, shortcut: Some(shortcut), icon: None, disabled: false }),
    {
        ContextMenuItem::action(label).shortcut(shortcut)
    }

    pub fn action_with_icon(label: String, icon: String) -> (item: ContextMenuItem)
        ensures
            item == (ContextMenuItem::Action { label, shortcut: None, icon: Some(icon), disabled: false }),
    {
        ContextMenuItem::action_with_icon(label, icon)
    }

    pub fn checkbox(label: String, checked: bool) -> (item: ContextMenuItem)
        ensures
            item == (ContextMenuItem::Checkbox { label, checked, disabled: false }),
    {
        ContextMenuItem::checkbox(label, checked)
    }

    pub fn radio(label: String, selected: bool) -> (item: ContextMenuItem)
        ensures
            item == (ContextMenuItem::Radio { label, selected, disabled: false }),
    {
        ContextMenuItem::radio(label, selected)
    }

    pub fn submenu(label: String, items: Vec<ContextMenuItem>) -> (item: ContextMenuItem)
        ensures
            item == (ContextMenuItem::Submenu { label, icon: None, disabled: false, items }),
    {
        ContextMenuItem::submenu(label, items)
    }

    pub fn separator() -> (item: ContextMenuItem)
        ensures
            item == ContextMenuItem::Separator,
    {
        ContextMenuItem::separator()
    }
}

} // verus!
