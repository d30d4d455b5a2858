use fluent_gui::command::CommandDef;
use fluent_gui::command_palette::{CommandPalette, PaletteEntry, PaletteKeyOutcome};
use fluent_gui::data_table::{
    sorted_order, DataCell, DataCellAlign, DataColumn, DataRow, DataSortDirection, DataSortKind,
    DataTable, DataTableState, TableKeyAction,
};
use fluent_gui::menu_tree::ContextMenuItem;
use fluent_gui::message_bar::{intent_colors, MessageBar, MessageIntent};
use fluent_gui::modal::{ConfirmModal, MessageDialog, ModalStack};
use fluent_gui::settings_nav::{SettingsNav, SettingsNavItem, SettingsNavSection};
use fluent_gui::theme::ColorScheme;
use fluent_gui::toast::{Toast, ToastPlacement, ToastStack, ToastTimer};
use fluent_gui::toolbar::{Toolbar, ToolbarItem};
use fluent_gui::tree::{Tree, TreeItem, TreeKeyAction};

fn s(x: &str) -> String {
    x.to_string()
}

fn palette() -> CommandPalette {
    CommandPalette::new().entries(vec![
        PaletteEntry::new(s("open"), s("Open File")).subtitle(s("Ctrl+O")),
        PaletteEntry::new(s("save"), s("Save")).keyword(s("write")),
        PaletteEntry::new(s("quit"), s("Quit")),
    ])
}

#[test]
fn palette_lists_everything_for_an_empty_query() {
    let p = palette();
    assert_eq!(p.filtered, vec![0, 1, 2]);
    assert_eq!(p.query_display(), "Type to search\u{2026}");
}

#[test]
fn palette_matches_label_subtitle_and_keywords() {
    let mut p = palette();
    p.show();
    assert_eq!(p.handle_key("w", Some("W"), false, false), PaletteKeyOutcome::Changed);
    assert_eq!(p.filtered, vec![1]);
    assert_eq!(p.query_display(), "W_");
    p.handle_key("backspace", None, false, false);
    p.handle_key("c", Some("c"), false, false);
    assert_eq!(p.filtered, vec![0]);
    // Control-modified keys type nothing.
    assert_eq!(p.handle_key("q", Some("q"), true, false), PaletteKeyOutcome::Ignored);
    assert_eq!(p.query, "c");
}

#[test]
fn palette_moves_and_confirms() {
    let mut p = palette();
    p.show();
    assert!(p.open);
    p.move_up();
    assert_eq!(p.selected, 0);
    p.move_down();
    p.move_down();
    p.move_down();
    assert_eq!(p.selected, 2);
    assert_eq!(p.handle_key("return", None, false, false), PaletteKeyOutcome::Confirmed(Some(2)));
    assert!(!p.open);
    p.show();
    assert_eq!(p.handle_key("escape", None, false, false), PaletteKeyOutcome::Hidden);
    assert!(!p.open);
}

#[test]
fn palette_keys_move_the_selection_and_return_reports_it() {
    let mut p = palette();
    p.handle_key("q", Some("q"), false, false);
    p.show();
    assert_eq!(p.filtered, vec![0, 1, 2]);
    assert_eq!(p.handle_key("down", None, false, false), PaletteKeyOutcome::Changed);
    assert_eq!(p.handle_key("down", None, false, false), PaletteKeyOutcome::Changed);
    assert_eq!(p.handle_key("down", None, false, false), PaletteKeyOutcome::Changed);
    assert_eq!(p.selected, 2);
    assert_eq!(p.handle_key("up", None, false, false), PaletteKeyOutcome::Changed);
    assert_eq!(p.selected, 1);
    assert_eq!(p.handle_key("return", None, false, false), PaletteKeyOutcome::Confirmed(Some(1)));
    assert_eq!(p.selected, 1);
    assert_eq!(p.filtered, vec![0, 1, 2]);
}

#[test]
fn palette_selection_follows_shrinking_results() {
    let mut p = palette();
    p.show();
    p.move_down();
    p.move_down();
    assert_eq!(p.selected, 2);
    p.handle_key("o", Some("o"), false, false);
    // "o" is in "Open File" and "Ctrl+O" (entry 0) only.
    assert_eq!(p.filtered, vec![0]);
    assert_eq!(p.selected, 0);
    p.handle_key("z", Some("z"), false, false);
    assert!(p.filtered.is_empty());
    assert_eq!(p.confirm(), None);
}

#[test]
fn command_def_feeds_palette_menu_and_toolbar() {
    let c = CommandDef::new(s("copy"), s("Copy"))
        .icon(s("icons/copy.svg"))
        .shortcut(s("Ctrl+C"))
        .keyword(s("clipboard"))
        .disabled(true)
        .checked(false);
    let e = c.palette_entry();
    assert_eq!(e.id, "copy");
    assert_eq!(e.keywords, vec![s("clipboard")]);
    assert_eq!(e.icon, Some(s("icons/copy.svg")));
    match c.menu_item() {
        ContextMenuItem::Action { label, shortcut, icon, disabled } => {
            assert_eq!(label, "Copy");
            assert_eq!(shortcut, Some(s("Ctrl+C")));
            assert_eq!(icon, Some(s("icons/copy.svg")));
            assert!(disabled);
        }
        _ => panic!("expected an action"),
    }
    match c.toolbar_item() {
        ToolbarItem::Action { id, disabled, .. } => {
            assert_eq!(id, "copy");
            assert!(disabled);
        }
        _ => panic!("expected an action"),
    }
}

fn sample_tree() -> Tree {
    Tree::new()
        .item(
            TreeItem::new(s("root"), s("Root"))
                .child(TreeItem::new(s("a"), s("Alpha")))
                .child(TreeItem::new(s("b"), s("Beta")).expanded(false).child(TreeItem::new(s("b1"), s("Hidden"))))
                .child(TreeItem::new(s("c"), s("Gamma")).disabled(true)),
        )
        .item(TreeItem::new(s("z"), s("Zeta")))
}

#[test]
fn tree_rows_skip_collapsed_children() {
    let t = sample_tree();
    let ids: Vec<String> = t.rows().into_iter().map(|r| r.id).collect();
    assert_eq!(ids, vec![s("root"), s("a"), s("b"), s("c"), s("z")]);
    let rows = t.rows();
    assert!(rows[2].has_children && !rows[2].expanded);
    assert!(rows[3].disabled);
}

#[test]
fn tree_filter_matches_descendants_case_insensitively() {
    let root = TreeItem::new(s("root"), s("Root")).child(TreeItem::new(s("b1"), s("HiddenLeaf")));
    assert!(Tree::item_matches_filter(&root, "leaf"));
    assert!(Tree::item_matches_filter(&root, "ROO"));
    assert!(!Tree::item_matches_filter(&root, "zzz"));
    let t = Tree::new().filter(s("")).filter(s("x"));
    assert_eq!(t.filter, Some(s("x")));
    assert!(!t.shows(&root));
}

#[test]
fn tree_keys_move_toggle_and_activate() {
    let t = sample_tree().selected(s("b"));
    let rows = t.rows();
    let sel = t.selected_id.clone();
    assert_eq!(Tree::key_action(&rows, &sel, "up", true, false, true), TreeKeyAction::Select(s("a")));
    assert_eq!(Tree::key_action(&rows, &sel, "down", true, false, true), TreeKeyAction::Select(s("c")));
    assert_eq!(Tree::key_action(&rows, &sel, "right", true, false, true), TreeKeyAction::Toggle(s("b"), true));
    assert_eq!(Tree::key_action(&rows, &sel, "left", true, false, true), TreeKeyAction::Nothing);
    assert_eq!(Tree::key_action(&rows, &sel, "return", true, true, true), TreeKeyAction::Activate(s("b")));
    assert_eq!(Tree::key_action(&rows, &sel, "space", true, false, true), TreeKeyAction::Select(s("b")));
    let on_disabled = Some(s("c"));
    assert_eq!(Tree::key_action(&rows, &on_disabled, "return", true, true, true), TreeKeyAction::Nothing);
    let none = None;
    assert_eq!(Tree::key_action(&rows, &none, "up", true, false, true), TreeKeyAction::Select(s("root")));
    assert_eq!(Tree::key_action(&Vec::new(), &none, "up", true, false, true), TreeKeyAction::Nothing);
    assert_eq!(Tree::child_row_index(3, 4), 305);
}

fn table() -> DataTable {
    DataTable::new()
        .column(DataColumn::new(s("name"), s("Name")).sortable(true))
        .column(DataColumn::new(s("size"), s("Size")).align(DataCellAlign::End).sort_kind(DataSortKind::Number))
        .row(DataRow::new(s("r1"), vec![DataCell::new(s("beta")), DataCell::new(s("2"))]))
        .row(DataRow::new(s("r2"), vec![DataCell::new(s("alpha")), DataCell::new(s("10")).align(DataCellAlign::Center)]))
        .row(DataRow::new(s("r3"), vec![DataCell::new(s("beta"))]))
        .row(DataRow::new(s("r4"), vec![DataCell::new(s("Zed")), DataCell::new(s("1"))]))
}

#[test]
fn table_sorts_text_stably_in_both_directions() {
    let t = table().sort(s("name"), DataSortDirection::Ascending);
    assert_eq!(t.sorted_column_index(), Some(0));
    // Upper-case sorts before lower-case; equal keys keep their order.
    assert_eq!(t.text_row_order(), vec![3, 1, 0, 2]);
    let t = t.sort(s("name"), DataSortDirection::Descending);
    assert_eq!(t.text_row_order(), vec![0, 2, 1, 3]);
    let unsorted = table().sort(s("missing"), DataSortDirection::Ascending);
    assert_eq!(unsorted.sorted_column_index(), None);
    assert_eq!(unsorted.text_row_order(), vec![0, 1, 2, 3]);
}

#[test]
fn missing_cells_sort_as_empty_text() {
    let keys: Vec<Vec<char>> = vec!["b".chars().collect(), Vec::new(), "a".chars().collect()];
    assert_eq!(sorted_order(&keys, false), vec![1, 2, 0]);
    assert_eq!(sorted_order(&keys, true), vec![0, 2, 1]);
}

#[test]
fn table_header_directions_and_arrows() {
    let t = table().sort(s("name"), DataSortDirection::Ascending);
    assert_eq!(t.next_direction(0), DataSortDirection::Descending);
    assert_eq!(t.next_direction(1), DataSortDirection::Ascending);
    assert_eq!(t.sort_arrow(0), " \u{2191}");
    assert_eq!(t.sort_arrow(1), "");
    let t = t.sort(s("name"), DataSortDirection::Descending);
    assert_eq!(t.sort_arrow(0), " \u{2193}");
    assert_eq!(DataSortDirection::Ascending.toggle(), DataSortDirection::Descending);
}

#[test]
fn table_messages_and_alignment() {
    assert_eq!(DataTable::new().placeholder_message(), Some(s("No rows")));
    assert_eq!(table().placeholder_message(), None);
    assert_eq!(table().loading(s("Loading…")).placeholder_message(), Some(s("Loading…")));
    assert_eq!(table().error_message(s("Failed")).placeholder_message(), Some(s("Failed")));
    assert_eq!(table().empty_message(s("Nothing")).placeholder_message(), Some(s("Nothing")));
    assert!(matches!(table().state(DataTableState::Ready).state, DataTableState::Ready));
    let t = table();
    assert_eq!(t.cell_align(0, 1), DataCellAlign::End);
    assert_eq!(t.cell_align(1, 1), DataCellAlign::Center);
    assert_eq!(t.cell_align(2, 1), DataCellAlign::End);
    assert_eq!(t.cell_align(0, 0), DataCellAlign::Start);
}

#[test]
fn table_keys_select_and_activate_rows() {
    let ids = vec![s("r4"), s("r2"), s("r1")];
    let sel = Some(s("r2"));
    assert_eq!(DataTable::key_action(&ids, &sel, "up", true, true), TableKeyAction::Select(s("r4")));
    assert_eq!(DataTable::key_action(&ids, &sel, "down", true, true), TableKeyAction::Select(s("r1")));
    assert_eq!(DataTable::key_action(&ids, &sel, "space", true, true), TableKeyAction::Activate(s("r2")));
    assert_eq!(DataTable::key_action(&ids, &sel, "down", false, true), TableKeyAction::Nothing);
    let missing = Some(s("nope"));
    assert_eq!(DataTable::key_action(&ids, &missing, "down", true, true), TableKeyAction::Select(s("r2")));
    assert_eq!(DataTable::key_action(&Vec::new(), &sel, "down", true, true), TableKeyAction::Nothing);
    let t = table().selected(s("r1"));
    assert_eq!(t.selected_id, Some(s("r1")));
}

#[test]
fn toolbar_moves_extra_items_to_overflow() {
    let tb = Toolbar::new()
        .item(ToolbarItem::action(s("a"), s("A")))
        .item(ToolbarItem::separator())
        .item(ToolbarItem::toggle(s("b"), s("B"), true))
        .item(ToolbarItem::action_with_icon(s("c"), s("C"), s("icons/add.svg")).disabled(true))
        .max_visible(2);
    let l = tb.layout();
    assert_eq!((l.inline, l.overflow), (2, 2));
    assert!(l.overflow_button && !l.overflow_menu);
    assert_eq!(tb.overflow_index(1), 3);
    let open = tb.overflow_open(true);
    assert!(open.layout().overflow_menu);
    let all = Toolbar::new().item(ToolbarItem::action(s("a"), s("A"))).layout();
    assert_eq!((all.inline, all.overflow, all.overflow_button), (1, 0, false));
}

#[test]
fn toolbar_clicks_report_toggle_targets() {
    assert_eq!(ToolbarItem::toggle(s("b"), s("B"), true).click(), Some(Some(false)));
    assert_eq!(ToolbarItem::action(s("a"), s("A")).click(), Some(None));
    assert_eq!(ToolbarItem::action(s("a"), s("A")).disabled(true).click(), None);
    assert_eq!(ToolbarItem::separator().click(), None);
}

#[test]
fn toasts_replace_by_id_and_drop_the_oldest() {
    let mut stack = ToastStack::init();
    assert_eq!(stack.max_entries(), 5);
    for i in 0..6 {
        let t = stack.push(Toast::new(format!("t{i}"), s("msg")));
        assert_eq!(t, Some(ToastTimer { timeout_ms: 5000, epoch: i + 1 }));
    }
    let ids: Vec<&str> = stack.entries.iter().map(|t| t.id.as_str()).collect();
    assert_eq!(ids, vec!["t1", "t2", "t3", "t4", "t5"]);
    let t = stack.push(Toast::new(s("t3"), s("again")).persistent().intent(MessageIntent::Error).title(s("T")));
    assert_eq!(t, None);
    let ids: Vec<&str> = stack.entries.iter().map(|t| t.id.as_str()).collect();
    assert_eq!(ids, vec!["t1", "t2", "t4", "t5", "t3"]);
    stack.dismiss(&s("t2"));
    assert_eq!(stack.entries.len(), 4);
    stack.set_max_entries(0);
    assert_eq!(stack.max_entries(), 1);
    assert_eq!(stack.entries.len(), 1);
    assert_eq!(stack.entries[0].id, "t3");
    stack.clear();
    assert!(stack.entries.is_empty());
    assert_eq!(ToastPlacement::default(), ToastPlacement::TopEnd);
    assert_eq!(Toast::new(s("x"), s("m")).timeout(Some(7)).timeout_ms, Some(7));
}

/// Timers armed by toast pushes, run against a clock in milliseconds.
fn run_toast_timers(stack: &mut ToastStack, timers: &mut Vec<(u64, String, u64)>, now: u64) {
    let due: Vec<(u64, String, u64)> = timers.iter().filter(|t| t.0 <= now).cloned().collect();
    timers.retain(|t| t.0 > now);
    for (_, id, epoch) in due {
        stack.expire(&id, epoch);
    }
}

#[test]
fn a_toast_shown_again_stays_for_its_own_timeout() {
    let mut stack = ToastStack::init();
    let mut timers: Vec<(u64, String, u64)> = Vec::new();
    let first = stack.push(Toast::new(s("a"), s("x"))).unwrap();
    timers.push((first.timeout_ms, s("a"), first.epoch));
    run_toast_timers(&mut stack, &mut timers, 4000);
    let second = stack.push(Toast::new(s("a"), s("y"))).unwrap();
    assert_ne!(second.epoch, first.epoch);
    timers.push((4000 + second.timeout_ms, s("a"), second.epoch));
    run_toast_timers(&mut stack, &mut timers, 6000);
    assert_eq!(stack.entries.len(), 1);
    assert_eq!(stack.entries[0].message, "y");
    run_toast_timers(&mut stack, &mut timers, 9000);
    assert!(stack.entries.is_empty());
}

#[test]
fn settings_nav_activates_the_first_item() {
    let nav = SettingsNav::new()
        .section(SettingsNavSection::new(s("Empty")))
        .section(
            SettingsNavSection::new(s("General"))
                .item(SettingsNavItem::new(s("general"), s("General")).icon(s("icons/settings.svg")))
                .item(SettingsNavItem::new(s("display"), s("Display"))),
        )
        .section(SettingsNavSection::new(s("Advanced")).item(SettingsNavItem::new(s("network"), s("Network"))).collapsed());
    assert_eq!(nav.active_id, Some(s("general")));
    assert!(!nav.sections[2].expanded);
    let mut nav = nav;
    assert_eq!(nav.select(2, 0), "network");
    assert!(nav.is_active(&s("network")));
    nav.toggle_section(2);
    assert!(nav.sections[2].expanded);
    nav.set_active(s("display"));
    assert_eq!(nav.active_id, Some(s("display")));
    assert_eq!(SettingsNav::item_index(1, 2), 102);
    assert_eq!(SettingsNav::new().active(s("x")).active_id, Some(s("x")));
}

#[test]
fn modal_stack_pushes_and_pops() {
    let mut m: ModalStack<u32> = ModalStack::init();
    assert!(m.is_empty());
    m.push(1);
    m.push(2);
    assert_eq!(m.top(), Some(&2));
    assert_eq!(m.pop(), Some(2));
    assert_eq!(m.top(), Some(&1));
    assert_eq!(m.pop(), Some(1));
    assert_eq!(m.pop(), None);
    let c = ConfirmModal::new(s("Delete?"), s("Sure")).confirm_label(s("Yes")).cancel_label(s("No"));
    assert_eq!((c.confirm_label.as_str(), c.cancel_label.as_str()), ("Yes", "No"));
    assert_eq!(ConfirmModal::new(s("a"), s("b")).confirm_label, "OK");
    assert_eq!(MessageDialog::new(s("t"), s("m")).dismiss_label, "OK");
    assert_eq!(MessageDialog::new(s("t"), s("m")).dismiss_label(s("Close")).dismiss_label, "Close");
}

#[test]
fn message_intents_pick_status_colours() {
    let c = ColorScheme::light();
    let e = intent_colors(&c, MessageIntent::Error);
    assert_eq!((e.accent, e.background, e.border), (0xC42B1C, 0xFDE7E9, 0xC42B1C));
    let w = intent_colors(&c, MessageIntent::Warning);
    assert_eq!(w.background, 0xFFF4CE);
    let bar = MessageBar::new(s("Saved")).intent(MessageIntent::Success).title(s("Done"));
    assert_eq!(bar.intent, MessageIntent::Success);
    assert_eq!(MessageIntent::default(), MessageIntent::Info);
}

#[test]
fn equal_keys_keep_their_order_in_both_directions() {
    let keys: Vec<Vec<char>> = ["b", "a", "b", "a"].iter().map(|k| k.chars().collect()).collect();
    assert_eq!(sorted_order(&keys, false), vec![1, 3, 0, 2]);
    assert_eq!(sorted_order(&keys, true), vec![0, 2, 1, 3]);
    assert_eq!(sorted_order(&keys, false), sorted_order(&keys, false));
}
