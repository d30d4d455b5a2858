use fluent_gui::text_input::{masked_to_real_offset, real_to_masked_offset, TextInput, TextKeyOutcome};
use fluent_gui::text_edit::{SearchKeyOutcome, Searchbox, Textarea};

fn input(text: &str) -> TextInput {
    TextInput::new().value(text.to_string())
}

#[test]
fn new_input_is_empty_with_caret_at_start() {
    let t = TextInput::new();
    assert_eq!(t.text(), "");
    assert_eq!(t.selected_range, 0..0);
    assert!(!t.selection_reversed);
    assert!(t.marked_range.is_none());
}

#[test]
fn setting_a_value_puts_the_caret_at_its_end() {
    let t = input("héllo");
    assert_eq!(t.text(), "héllo");
    assert_eq!(t.len(), 6);
    assert_eq!(t.selected_range, 6..6);
    assert_eq!(t.cursor_offset(), 6);
}

#[test]
fn left_and_right_step_over_whole_graphemes() {
    // "e" followed by a combining acute accent is one grapheme of 3 bytes.
    let mut t = input("ae\u{301}b");
    assert_eq!(t.len(), 5);
    assert_eq!(t.handle_key("left", false, false), TextKeyOutcome::Moved);
    assert_eq!(t.cursor_offset(), 4);
    t.handle_key("left", false, false);
    assert_eq!(t.cursor_offset(), 1);
    t.handle_key("left", false, false);
    assert_eq!(t.cursor_offset(), 0);
    t.handle_key("left", false, false);
    assert_eq!(t.cursor_offset(), 0);
    t.handle_key("right", false, false);
    assert_eq!(t.cursor_offset(), 1);
    t.handle_key("right", false, false);
    assert_eq!(t.cursor_offset(), 4);
}

#[test]
fn backspace_removes_a_whole_grapheme() {
    let mut t = input("ae\u{301}");
    assert_eq!(t.handle_key("backspace", false, false), TextKeyOutcome::Edited);
    assert_eq!(t.text(), "a");
    assert_eq!(t.selected_range, 1..1);
    t.handle_key("backspace", false, false);
    assert_eq!(t.text(), "");
    // At the start, backspace changes nothing but still reports an edit.
    assert_eq!(t.handle_key("backspace", false, false), TextKeyOutcome::Edited);
    assert_eq!(t.text(), "");
}

#[test]
fn delete_removes_the_grapheme_after_the_caret() {
    let mut t = input("abc");
    t.handle_key("home", false, false);
    assert_eq!(t.handle_key("delete", false, false), TextKeyOutcome::Edited);
    assert_eq!(t.text(), "bc");
    assert_eq!(t.cursor_offset(), 0);
}

#[test]
fn shift_selection_flips_around_its_anchor() {
    let mut t = input("abcd");
    t.move_to(2);
    t.handle_key("right", false, true);
    assert_eq!(t.selected_range, 2..3);
    assert!(!t.selection_reversed);
    t.handle_key("left", false, true);
    t.handle_key("left", false, true);
    assert_eq!(t.selected_range, 1..2);
    assert!(t.selection_reversed);
    assert_eq!(t.cursor_offset(), 1);
    t.handle_key("end", false, true);
    assert_eq!(t.selected_range, 2..4);
    assert!(!t.selection_reversed);
}

#[test]
fn left_and_right_collapse_a_selection_to_its_ends() {
    let mut t = input("abcd");
    t.move_to(1);
    t.select_to(3);
    t.handle_key("left", false, false);
    assert_eq!(t.selected_range, 1..1);
    t.select_to(3);
    t.handle_key("right", false, false);
    assert_eq!(t.selected_range, 3..3);
}

#[test]
fn select_all_copy_cut_and_paste() {
    let mut t = input("hello");
    assert_eq!(t.handle_key("a", true, false), TextKeyOutcome::Moved);
    assert_eq!(t.selected_range, 0..5);
    assert_eq!(t.handle_key("c", true, false), TextKeyOutcome::Copy("hello".to_string()));
    assert_eq!(t.text(), "hello");
    assert_eq!(t.handle_key("x", true, false), TextKeyOutcome::Cut("hello".to_string()));
    assert_eq!(t.text(), "");
    assert_eq!(t.handle_key("c", true, false), TextKeyOutcome::Ignored);
    assert_eq!(t.handle_key("v", true, false), TextKeyOutcome::Paste);
    t.paste("two\nlines");
    assert_eq!(t.text(), "two lines");
    assert_eq!(t.cursor_offset(), 9);
}

#[test]
fn disabled_input_ignores_keys() {
    let mut t = input("abc").disabled(true);
    assert_eq!(t.handle_key("backspace", false, false), TextKeyOutcome::Ignored);
    assert_eq!(t.text(), "abc");
    assert!(!t.replace_text_in_range(None, "x"));
    assert!(t.selected_text_range(false).is_none());
    assert!(t.selected_text_range(true).is_some());
}

#[test]
fn utf16_offsets_round_trip() {
    // "a", then U+1F600 (4 bytes, 2 UTF-16 units), then "é" (2 bytes, 1 unit).
    let t = input("a\u{1F600}é");
    assert_eq!(t.offset_to_utf16(0), 0);
    assert_eq!(t.offset_to_utf16(1), 1);
    assert_eq!(t.offset_to_utf16(5), 3);
    assert_eq!(t.offset_to_utf16(7), 4);
    assert_eq!(t.offset_from_utf16(3), 5);
    assert_eq!(t.offset_from_utf16(4), 7);
    // An offset inside the emoji moves to its end.
    assert_eq!(t.offset_from_utf16(2), 5);
    assert_eq!(t.offset_from_utf16(100), 7);
    for b in [0usize, 1, 5, 7] {
        assert_eq!(t.offset_from_utf16(t.offset_to_utf16(b)), b);
    }
}

#[test]
fn input_method_commits_and_marks_text() {
    let mut t = input("ab");
    assert!(t.replace_and_mark_text_in_range(None, "に", None));
    assert_eq!(t.text(), "abに");
    assert_eq!(t.marked_range, Some(2..5));
    assert_eq!(t.selected_range, 5..5);
    assert_eq!(t.marked_text_range(), Some(2..3));
    assert!(t.replace_text_in_range(None, "日"));
    assert_eq!(t.text(), "ab日");
    assert_eq!(t.marked_range, None);
    assert_eq!(t.selected_range, 5..5);
    let (text, actual) = t.text_for_range(1..3);
    assert_eq!(text, "b日");
    assert_eq!(actual, 1..3);
    let sel = t.selected_text_range(false).unwrap();
    assert_eq!(sel.range, 3..3);
    assert!(!sel.reversed);
}

#[test]
fn input_method_replacement_in_a_utf16_range() {
    let mut t = input("hello");
    assert!(t.replace_text_in_range(Some(1..4), "EY"));
    assert_eq!(t.text(), "hEYo");
    assert_eq!(t.cursor_offset(), 3);
    t.unmark_text();
    assert!(t.marked_range.is_none());
}

#[test]
fn ime_check_rejects_a_selection_inside_a_character() {
    let t = input("ab");
    assert!(t.ime_mark_fits(&None, "に", &Some(1..1)) == false);
    assert!(t.ime_mark_fits(&None, "に", &None));
    assert!(t.ime_mark_fits(&None, "x", &Some(1..1)));
}

#[test]
fn masked_offsets_count_characters() {
    let v = "aé\u{1F600}";
    assert_eq!(real_to_masked_offset(v, 0), 0);
    assert_eq!(real_to_masked_offset(v, 1), 3);
    assert_eq!(real_to_masked_offset(v, 3), 6);
    assert_eq!(real_to_masked_offset(v, 7), 9);
    assert_eq!(masked_to_real_offset(v, 3), 1);
    assert_eq!(masked_to_real_offset(v, 5), 1);
    assert_eq!(masked_to_real_offset(v, 6), 3);
    assert_eq!(masked_to_real_offset(v, 30), 7);
    for b in [0usize, 1, 3, 7] {
        assert_eq!(masked_to_real_offset(v, real_to_masked_offset(v, b)), b);
    }
}

#[test]
fn pointer_drag_selects() {
    let mut t = input("abcdef");
    assert!(t.on_mouse_down(1, false));
    assert!(t.is_selecting);
    assert!(t.on_mouse_move(4));
    assert_eq!(t.selected_range, 1..4);
    t.on_mouse_up();
    assert!(!t.on_mouse_move(5));
    assert_eq!(t.selected_range, 1..4);
    assert!(t.on_mouse_down(100, true));
    assert_eq!(t.selected_range, 1..6);
}

#[test]
fn settings_builders() {
    let t = TextInput::new().placeholder("Name".to_string()).masked(true).error(true);
    assert_eq!(t.placeholder, "Name");
    assert!(t.is_masked());
    assert!(t.error);
    let mut t = t;
    t.set_masked(false);
    t.set_error(false);
    t.set_disabled(true);
    t.set_placeholder("Other".to_string());
    t.set_value("x".to_string());
    assert!(!t.is_masked() && !t.error && t.disabled);
    assert_eq!(t.text(), "x");
    assert_eq!(t.placeholder, "Other");
    assert!(t.accepts_offset(1) && t.accepts_offset(50));
}

#[test]
fn textarea_appends_and_pops() {
    let mut a = Textarea::new().rows(1);
    assert_eq!(a.rows, 2);
    assert!(a.handle_key("h"));
    assert!(a.handle_key("i"));
    assert!(a.handle_key("enter"));
    assert!(a.handle_key("x"));
    assert_eq!(a.text(), "hi\nx");
    assert!(a.handle_key("backspace"));
    assert_eq!(a.text(), "hi\n");
    assert!(!a.handle_key("left"));
    let mut d = Textarea::new().disabled(true);
    assert!(!d.handle_key("a"));
    assert_eq!(Textarea::new().min_height(&fluent_gui::tokens::TypographyTokens::default(), &fluent_gui::tokens::SpacingTokens::default()), 96);
}

#[test]
fn searchbox_types_submits_and_clears() {
    let mut s = Searchbox::new();
    assert_eq!(s.placeholder, "Search");
    assert_eq!(s.handle_key("q"), SearchKeyOutcome::Changed);
    assert_eq!(s.handle_key("enter"), SearchKeyOutcome::Submit("q".to_string()));
    assert!(s.shows_clear());
    s.clear();
    assert_eq!(s.text(), "");
    assert!(!s.shows_clear());
    assert_eq!(s.handle_key("backspace"), SearchKeyOutcome::Changed);
    assert_eq!(s.handle_key("home"), SearchKeyOutcome::Ignored);
}
