use fluent_gui::keys::NavKey;
use fluent_gui::menu_tree::{
    enabled_item_at_path, enter_submenu, items_at_parent, leave_submenu, move_selection, row_id,
    ContextMenuItem,
};
use fluent_gui::menus::{ContextMenu, MenuBar, MenuButton, MenuCommand, MenuItemDef};
use fluent_gui::theme::Theme;

fn item(label: &str) -> ContextMenuItem {
    ContextMenuItem::action(label.to_string())
}

/// Timers armed by closing popups, fired when the simulated clock reaches
/// their deadline.
struct Timers {
    now: u64,
    pending: Vec<(u64, u64)>,
}

impl Timers {
    fn new() -> Self {
        Timers { now: 0, pending: Vec::new() }
    }

    fn arm(&mut self, epoch: u64) {
        let exit = Theme::dark().motion().popup_exit_duration();
        self.pending.push((self.now + exit, epoch));
    }

    /// Advance the clock and return the epochs of the timers that ran out.
    fn advance(&mut self, ms: u64) -> Vec<u64> {
        self.now += ms;
        let now = self.now;
        let due: Vec<u64> = self.pending.iter().filter(|(t, _)| *t <= now).map(|(_, e)| *e).collect();
        self.pending.retain(|(t, _)| *t > now);
        due
    }
}

#[test]
fn moves_selection_across_enabled_siblings() {
    let items = vec![
        item("One"),
        ContextMenuItem::separator(),
        item("Two"),
        item("Three").disabled(true),
    ];
    let mut selected = vec![0];

    assert!(move_selection(&items, &mut selected, 1));
    assert_eq!(selected, vec![2]);

    assert!(move_selection(&items, &mut selected, 1));
    assert_eq!(selected, vec![0]);

    assert!(move_selection(&items, &mut selected, -1));
    assert_eq!(selected, vec![2]);
}

#[test]
fn navigates_submenus_by_path() {
    let items = vec![ContextMenuItem::submenu(
        "File".to_string(),
        vec![item("New"), item("Open")],
    )];
    let mut selected = vec![0];
    let mut open = Vec::new();

    assert!(enter_submenu(&items, &mut selected, &mut open));
    assert_eq!(open, vec![0]);
    assert_eq!(selected, vec![0, 0]);

    leave_submenu(&mut selected, &mut open);
    assert_eq!(selected, vec![0]);
    assert!(open.is_empty());
}

#[test]
fn disabled_items_and_disabled_submenu_children_are_not_actionable() {
    let items = vec![
        item("Disabled").disabled(true),
        ContextMenuItem::submenu("Disabled submenu".to_string(), vec![item("Child")]).disabled(true),
    ];

    assert!(enabled_item_at_path(&items, &vec![0]).is_none());
    assert!(enabled_item_at_path(&items, &vec![1, 0]).is_none());
    assert!(items_at_parent(&items, &vec![1]).is_none());
}

#[test]
fn row_ids_include_the_full_menu_path() {
    assert_eq!(row_id("menu-item", &vec![1]), "menu-item-1");
    assert_eq!(row_id("menu-item", &vec![1, 2]), "menu-item-1-2");
}

#[test]
fn row_ids_of_large_indices() {
    assert_eq!(row_id("ctx-item", &vec![]), "ctx-item");
    assert_eq!(row_id("ctx-item", &vec![10, 0, 305]), "ctx-item-10-0-305");
}

#[test]
fn close_keeps_context_menu_mounted_until_exit_duration() {
    let mut timers = Timers::new();
    let mut menu = ContextMenu::build().action("Open".to_string());
    menu.selected_path = vec![0];
    menu.open_path = vec![0];
    let epoch = menu.close().expect("an open menu starts closing");
    timers.arm(epoch);
    assert!(menu.motion.open);
    assert!(menu.motion.closing);
    assert_eq!(menu.selected_path, vec![0]);
    assert_eq!(menu.open_path, vec![0]);

    for e in timers.advance(159) {
        menu.finish_close(e);
    }
    assert!(menu.motion.open);
    assert!(menu.motion.closing);
    assert_eq!(menu.selected_path, vec![0]);
    assert_eq!(menu.open_path, vec![0]);

    for e in timers.advance(1) {
        menu.finish_close(e);
    }
    assert!(!menu.motion.open);
    assert!(!menu.motion.closing);
    assert!(menu.selected_path.is_empty());
    assert!(menu.open_path.is_empty());
}

#[test]
fn keyboard_move_closes_stale_context_submenu() {
    let mut menu = ContextMenu::build()
        .submenu("More".to_string(), vec![item("Child")])
        .action("Next".to_string());
    menu.selected_path = vec![0];
    menu.open_path = vec![0];
    assert!(menu.move_selection(1));
    assert_eq!(menu.selected_path, vec![1]);
    assert!(menu.open_path.is_empty());
}

#[test]
fn close_keeps_menu_bar_paths_until_exit_duration() {
    let mut timers = Timers::new();
    let mut bar = MenuBar::new().menu(
        "File".to_string(),
        vec![ContextMenuItem::submenu("More".to_string(), vec![item("Open")])],
    );
    bar.open_menu(0, false);
    assert!(bar.enter_submenu());
    assert_eq!(bar.open_path, vec![0]);
    assert_eq!(bar.selected_path, vec![0, 0]);

    let epoch = bar.close().expect("an open menu starts closing");
    timers.arm(epoch);
    assert_eq!(bar.open_index, Some(0));
    assert!(bar.motion.closing);
    assert_eq!(bar.open_path, vec![0]);
    assert_eq!(bar.selected_path, vec![0, 0]);

    for e in timers.advance(159) {
        bar.finish_close(e);
    }
    assert_eq!(bar.open_index, Some(0));
    assert!(bar.motion.closing);
    assert_eq!(bar.open_path, vec![0]);
    assert_eq!(bar.selected_path, vec![0, 0]);

    for e in timers.advance(1) {
        bar.finish_close(e);
    }
    assert_eq!(bar.open_index, None);
    assert!(!bar.motion.closing);
    assert!(bar.open_path.is_empty());
    assert!(bar.selected_path.is_empty());
}

#[test]
fn close_popup_keeps_menu_button_mounted_until_exit_duration() {
    let mut timers = Timers::new();
    let mut button = MenuButton::new("test-menu-button".to_string(), "Actions".to_string()).item(item("One"));
    button.open_popup();
    assert_eq!(button.selected_path, vec![0]);
    let epoch = button.close_popup().expect("an open popup starts closing");
    timers.arm(epoch);
    assert!(button.motion.open);
    assert!(button.motion.closing);
    assert_eq!(button.selected_path, vec![0]);

    for e in timers.advance(159) {
        button.finish_close(e);
    }
    assert!(button.motion.open);
    assert!(button.motion.closing);
    assert_eq!(button.selected_path, vec![0]);

    for e in timers.advance(1) {
        button.finish_close(e);
    }
    assert!(!button.motion.open);
    assert!(!button.motion.closing);
    assert!(button.selected_path.is_empty());
}

#[test]
fn reopening_menu_button_cancels_stale_exit_timer() {
    let mut timers = Timers::new();
    let mut button = MenuButton::new("test-menu-button".to_string(), "Actions".to_string()).item(item("One"));
    button.open_popup();
    let epoch = button.close_popup().expect("an open popup starts closing");
    timers.arm(epoch);
    button.open_popup();
    assert!(button.motion.open);
    assert!(!button.motion.closing);

    for e in timers.advance(160) {
        assert!(!button.finish_close(e));
    }
    assert!(button.motion.open);
    assert!(!button.motion.closing);
}

#[test]
fn opening_menu_button_from_up_selects_last_enabled_item() {
    let mut button = MenuButton::new("test-menu-button".to_string(), "Actions".to_string())
        .item(item("One"))
        .separator()
        .item(item("Two"))
        .item(item("Disabled").disabled(true));
    button.open_popup_selecting(true);
    assert_eq!(button.selected_path, vec![2]);
}

#[test]
fn keyboard_move_closes_stale_menu_button_submenu() {
    let mut button = MenuButton::new("test-menu-button".to_string(), "Actions".to_string())
        .item(ContextMenuItem::submenu("More".to_string(), vec![item("Child")]))
        .item(item("Next"));
    button.selected_path = vec![0];
    button.open_path = vec![0];
    assert!(button.move_selection(1));
    assert_eq!(button.selected_path, vec![1]);
    assert!(button.open_path.is_empty());
}

#[test]
fn invoking_a_checkbox_reports_the_toggled_value_and_closes() {
    let mut menu = ContextMenu::build().checkbox("Wrap".to_string(), true);
    menu.ensure_selection();
    assert_eq!(menu.selected_path, vec![0]);
    match menu.handle_key(NavKey::parse("return")) {
        MenuCommand::Invoke { path, new_checked, close_timer } => {
            assert_eq!(path, vec![0]);
            assert_eq!(new_checked, Some(false));
            assert_eq!(close_timer, Some(1));
        }
        other => panic!("unexpected {:?}", other),
    }
    assert!(menu.motion.closing);
    assert!(matches!(menu.handle_key(NavKey::Down), MenuCommand::Nothing));
}

#[test]
fn menu_bar_keys_walk_menus_and_submenus() {
    let mut bar = MenuBar::new()
        .menu("Edit".to_string(), vec![item("Undo"), ContextMenuItem::submenu("Find".to_string(), vec![item("Next")])])
        .menu("View".to_string(), vec![item("Zoom")]);
    assert!(matches!(bar.handle_key(NavKey::Down), MenuCommand::Redraw));
    assert_eq!(bar.open_index, Some(0));
    assert_eq!(bar.selected_path, vec![0]);
    bar.handle_key(NavKey::Down);
    assert_eq!(bar.selected_path, vec![1]);
    bar.handle_key(NavKey::Right);
    assert_eq!(bar.selected_path, vec![1, 0]);
    assert_eq!(bar.open_path, vec![1]);
    bar.handle_key(NavKey::Left);
    assert_eq!(bar.selected_path, vec![1]);
    bar.handle_key(NavKey::Left);
    assert_eq!(bar.open_index, Some(1));
    assert_eq!(bar.active_index, 1);
    assert_eq!(bar.selected_path, vec![0]);
}

#[test]
fn file_menu_is_prepended_once() {
    let mut bar = MenuBar::new().menu("Edit".to_string(), vec![item("Undo")]);
    bar.ensure_file_menu();
    assert_eq!(bar.menus.len(), 2);
    assert_eq!(bar.menus[0].label, "File");
    bar.ensure_file_menu();
    assert_eq!(bar.menus.len(), 2);
    assert_eq!(bar.menus[1].label, "Edit");
}

#[test]
fn menu_item_def_builds_shared_entries() {
    match MenuItemDef::action_with_shortcut("Exit".to_string(), "Alt+F4".to_string()) {
        ContextMenuItem::Action { label, shortcut, icon, disabled } => {
            assert_eq!(label, "Exit");
            assert_eq!(shortcut.as_deref(), Some("Alt+F4"));
            assert!(icon.is_none());
            assert!(!disabled);
        }
        other => panic!("unexpected entry {:?}", other),
    }
    assert!(matches!(MenuItemDef::separator(), ContextMenuItem::Separator));
    match MenuItemDef::checkbox("Wrap".to_string(), true) {
        ContextMenuItem::Checkbox { label, checked, disabled } => {
            assert_eq!(label, "Wrap");
            assert!(checked);
            assert!(!disabled);
        }
        other => panic!("unexpected entry {:?}", other),
    }
    let sub = MenuItemDef::submenu("More".to_string(), vec![MenuItemDef::action("One".to_string())]);
    match sub {
        ContextMenuItem::Submenu { label, items, disabled, .. } => {
            assert_eq!(label, "More");
            assert_eq!(items.len(), 1);
            assert!(!disabled);
        }
        other => panic!("unexpected entry {:?}", other),
    }
}

#[test]
fn disabled_rows_and_the_pointer() {
    let items = || {
        vec![
            item("Cut"),
            item("Copy").disabled(true),
            ContextMenuItem::separator(),
            ContextMenuItem::submenu("More".to_string(), vec![item("One")]).disabled(true),
        ]
    };
    let mut ctx = ContextMenu::build();
    for it in items() {
        ctx = ctx.item(it);
    }
    // The context menu ignores disabled rows and separators.
    assert!(!ctx.hover(&vec![1]));
    assert!(!ctx.hover(&vec![2]));
    assert!(!ctx.hover(&vec![3]));
    assert!(ctx.hover(&vec![0]));
    assert_eq!(ctx.selected_path, vec![0]);
    // The menu button lets a disabled entry take the selection, but not a
    // disabled submenu or a separator.
    let mut button = MenuButton::new("b".to_string(), "B".to_string()).items(items());
    assert!(button.hover(&vec![1]));
    assert_eq!(button.selected_path, vec![1]);
    assert!(button.open_path.is_empty());
    assert!(!button.hover(&vec![3]));
    assert!(!button.hover(&vec![2]));
    assert_eq!(button.selected_path, vec![1]);
}

#[test]
fn menu_rows_lay_out_separators_and_open_submenus() {
    let items = vec![
        item("A"),
        ContextMenuItem::separator(),
        ContextMenuItem::submenu("More".to_string(), vec![item("One")]),
    ];
    let rows = fluent_gui::menu_tree::menu_rows(&items, &vec![], &vec![2], &vec![2], 2, 28, 1);
    assert_eq!(rows.iter().map(|r| r.top).collect::<Vec<_>>(), vec![2, 30, 35]);
    assert!(rows[2].selected && rows[2].submenu_open);
    assert!(!rows[1].enabled);
}

#[test]
fn menu_bar_keys_without_an_open_menu() {
    let mut bar = MenuBar::new()
        .menu("File".to_string(), vec![item("New")])
        .menu("Edit".to_string(), vec![item("Undo"), item("Redo")]);
    assert!(matches!(bar.handle_key(NavKey::Escape), MenuCommand::Nothing));
    assert_eq!(bar.open_index, None);
    assert_eq!(bar.active_index, 0);
    assert!(bar.selected_path.is_empty() && bar.open_path.is_empty());
    bar.handle_key(NavKey::Left);
    assert_eq!(bar.active_index, 1);
    bar.handle_key(NavKey::Right);
    assert_eq!(bar.active_index, 0);
    assert_eq!(bar.open_index, None);
    bar.handle_key(NavKey::Up);
    assert_eq!(bar.open_index, Some(0));
    assert_eq!(bar.selected_path, vec![0]);
}
