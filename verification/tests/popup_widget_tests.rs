use fluent_gui::choice::ChoiceOption;
use fluent_gui::combobox::{Combobox, ComboboxKeyOutcome};
use fluent_gui::dropdown::Dropdown;
use fluent_gui::theme::Theme;

/// Removal timers armed by closing popups, fired when the simulated clock
/// reaches their deadline.
struct Timers {
    now: u64,
    pending: Vec<(u64, u64)>,
}

impl Timers {
    fn new() -> Self {
        Timers { now: 0, pending: Vec::new() }
    }

    fn arm(&mut self, epoch: Option<u64>) {
        if let Some(epoch) = epoch {
            let exit = Theme::dark().motion().popup_exit_duration();
            self.pending.push((self.now + exit, epoch));
        }
    }

    fn advance(&mut self, ms: u64) -> Vec<u64> {
        self.now += ms;
        let now = self.now;
        let due: Vec<u64> = self.pending.iter().filter(|(t, _)| *t <= now).map(|(_, e)| *e).collect();
        self.pending.retain(|(t, _)| *t > now);
        due
    }
}

fn s(x: &str) -> String {
    x.to_string()
}

#[test]
fn close_popup_keeps_combobox_mounted_until_exit_duration() {
    let mut timers = Timers::new();
    let mut combobox = Combobox::new().option(s("one"), s("One"));
    combobox.open_popup();
    let t = combobox.close_popup();
    timers.arm(t);
    assert!(combobox.motion.open);
    assert!(combobox.motion.closing);

    for e in timers.advance(159) {
        combobox.finish_close(e);
    }
    assert!(combobox.motion.open);
    assert!(combobox.motion.closing);

    for e in timers.advance(1) {
        combobox.finish_close(e);
    }
    assert!(!combobox.motion.open);
    assert!(!combobox.motion.closing);
}

#[test]
fn reopening_combobox_cancels_stale_exit_timer() {
    let mut timers = Timers::new();
    let mut combobox = Combobox::new().option(s("one"), s("One"));
    combobox.open_popup();
    let t = combobox.close_popup();
    timers.arm(t);
    combobox.open_popup();
    assert!(combobox.motion.open);
    assert!(!combobox.motion.closing);

    for e in timers.advance(160) {
        combobox.finish_close(e);
    }
    assert!(combobox.motion.open);
    assert!(!combobox.motion.closing);
}

#[test]
fn close_popup_keeps_dropdown_mounted_until_exit_duration() {
    let mut timers = Timers::new();
    let mut dropdown = Dropdown::new(s("test-dropdown")).option(s("one"), s("One"));
    dropdown.open_popup();
    let t = dropdown.close_popup();
    timers.arm(t);
    assert!(dropdown.motion.open);
    assert!(dropdown.motion.closing);

    for e in timers.advance(159) {
        dropdown.finish_close(e);
    }
    assert!(dropdown.motion.open);
    assert!(dropdown.motion.closing);

    for e in timers.advance(1) {
        dropdown.finish_close(e);
    }
    assert!(!dropdown.motion.open);
    assert!(!dropdown.motion.closing);
}

#[test]
fn reopening_dropdown_cancels_stale_exit_timer() {
    let mut timers = Timers::new();
    let mut dropdown = Dropdown::new(s("test-dropdown")).option(s("one"), s("One"));
    dropdown.open_popup();
    let t = dropdown.close_popup();
    timers.arm(t);
    dropdown.open_popup();
    assert!(dropdown.motion.open);
    assert!(!dropdown.motion.closing);

    for e in timers.advance(160) {
        dropdown.finish_close(e);
    }
    assert!(dropdown.motion.open);
    assert!(!dropdown.motion.closing);
}

#[test]
fn dropdown_shows_the_selected_label_value_or_placeholder() {
    let d = Dropdown::new(s("d")).option(s("a"), s("Alpha")).option(s("b"), s("Beta"));
    assert_eq!(d.selected_label(), "Select...");
    let d = d.selected(s("b"));
    assert_eq!(d.selected_label(), "Beta");
    let d = d.selected(s("zzz"));
    assert_eq!(d.selected_label(), "zzz");
    let d = d.placeholder(s("Pick"));
    assert_eq!(d.selected_value(), Some(&s("zzz")));
}

#[test]
fn dropdown_trigger_toggles_and_choosing_selects_and_closes() {
    let mut d = Dropdown::new(s("d")).option(s("a"), s("Alpha")).option(s("b"), s("Beta"));
    assert_eq!(d.click_trigger(), None);
    assert!(d.motion.open);
    let picked = d.select_index(1).unwrap();
    assert_eq!(picked.0, "b");
    assert!(picked.1.is_some());
    assert_eq!(d.selected, Some(s("b")));
    assert!(d.motion.closing);
    // Clicks on a closing list are ignored.
    assert!(d.select_index(0).is_none());
    assert_eq!(d.click_trigger(), None);
    assert!(d.motion.closing);
}

#[test]
fn disabled_dropdown_ignores_its_trigger() {
    let mut d = Dropdown::new(s("d")).disabled(true);
    assert_eq!(d.click_trigger(), None);
    assert!(!d.motion.open);
}

#[test]
fn combobox_filters_by_lower_cased_label() {
    let c = Combobox::new()
        .option(s("ny"), s("New York"))
        .option(s("la"), s("Los Angeles"))
        .option(s("nw"), s("Newark"))
        .query(s("NEW"));
    let f = c.filtered_options();
    let values: Vec<&str> = f.iter().map(|o| o.value.as_str()).collect();
    assert_eq!(values, vec!["ny", "nw"]);
    let all = Combobox::new().option(s("x"), s("X")).option(s("y"), s("Y")).filtered_options();
    assert_eq!(all.len(), 2);
}

#[test]
fn combobox_filter_lower_cases_beyond_ascii() {
    let c = Combobox::new().option(s("z"), s("ZÜRICH")).option(s("b"), s("Bern")).query(s("zü"));
    let f = c.filtered_options();
    assert_eq!(f.len(), 1);
    assert_eq!(f[0].value, "z");
}

#[test]
fn combobox_selected_shows_option_label() {
    let c = Combobox::new().option(s("one"), s("One")).selected(s("one"));
    assert_eq!(c.query, "One");
    assert_eq!(c.selected_value(), Some(&s("one")));
    let c = Combobox::new().selected(s("free"));
    assert_eq!(c.query, "free");
}

#[test]
fn combobox_keys_type_highlight_and_select() {
    let mut c = Combobox::new()
        .option(s("a"), s("Apple"))
        .option(s("b"), s("Banana"))
        .option(s("c"), s("Cherry"));
    assert_eq!(c.handle_key("a"), ComboboxKeyOutcome::Changed);
    assert_eq!(c.query, "a");
    assert!(c.motion.open);
    // "a" is in Apple and Banana.
    assert_eq!(c.handle_key("down"), ComboboxKeyOutcome::Changed);
    assert_eq!(c.highlighted, 1);
    assert_eq!(c.handle_key("down"), ComboboxKeyOutcome::Changed);
    assert_eq!(c.highlighted, 1);
    assert_eq!(c.handle_key("up"), ComboboxKeyOutcome::Changed);
    assert_eq!(c.highlighted, 0);
    match c.handle_key("enter") {
        ComboboxKeyOutcome::Selected { value, close_timer } => {
            assert_eq!(value, "a");
            assert!(close_timer.is_some());
        }
        other => panic!("unexpected {:?}", other),
    }
    assert_eq!(c.query, "Apple");
    assert_eq!(c.value, Some(s("a")));
    assert!(c.motion.closing);
    // Keys are ignored while the list closes.
    assert_eq!(c.handle_key("x"), ComboboxKeyOutcome::Ignored);
}

#[test]
fn combobox_backspace_and_escape() {
    let mut c = Combobox::new().option(s("a"), s("Apple")).query(s("ap"));
    assert_eq!(c.handle_key("backspace"), ComboboxKeyOutcome::Changed);
    assert_eq!(c.query, "a");
    assert_eq!(c.highlighted, 0);
    match c.handle_key("escape") {
        ComboboxKeyOutcome::Closed { close_timer } => assert!(close_timer.is_some()),
        other => panic!("unexpected {:?}", other),
    }
    assert_eq!(c.handle_key("tab"), ComboboxKeyOutcome::Ignored);
}

#[test]
fn combobox_up_with_no_match_is_ignored() {
    let mut c = Combobox::new().option(s("a"), s("Apple")).query(s("zzz"));
    assert_eq!(c.handle_key("up"), ComboboxKeyOutcome::Ignored);
    assert!(!c.motion.open);
    assert_eq!(c.handle_key("down"), ComboboxKeyOutcome::Changed);
    assert!(!c.motion.open);
}

#[test]
fn freeform_combobox_commits_the_query() {
    let mut c = Combobox::new().option(s("a"), s("Apple")).freeform(true).query(s("Kiwi"));
    c.open_popup();
    match c.handle_key("enter") {
        ComboboxKeyOutcome::Selected { value, .. } => assert_eq!(value, "Kiwi"),
        other => panic!("unexpected {:?}", other),
    }
    assert_eq!(c.value, Some(s("Kiwi")));
    let mut strict = Combobox::new().option(s("a"), s("Apple")).query(s("Kiwi"));
    strict.open_popup();
    match strict.handle_key("enter") {
        ComboboxKeyOutcome::Closed { .. } => {}
        other => panic!("unexpected {:?}", other),
    }
    assert_eq!(strict.value, None);
}

#[test]
fn disabled_combobox_ignores_keys_and_presses() {
    let mut c = Combobox::new().option(s("a"), s("Apple")).disabled(true);
    assert_eq!(c.handle_key("a"), ComboboxKeyOutcome::Ignored);
    assert!(!c.on_mouse_down());
    assert!(!c.motion.open);
}

#[test]
fn choice_option_constructor() {
    let o = ChoiceOption::new(s("v"), s("Label"));
    assert_eq!(o.value, "v");
    assert_eq!(o.label, "Label");
}

#[test]
fn combobox_hover_highlights_and_the_highlight_is_clamped() {
    let mut c = Combobox::new().option(s("a"), s("Alpha")).option(s("b"), s("Beta")).option(s("g"), s("Gamma"));
    c.open_popup();
    assert!(c.hover_option(2));
    assert_eq!(c.highlighted, 2);
    assert!(!c.hover_option(2));
    c.clamp_highlight();
    assert_eq!(c.highlighted, 2);
    // Narrowing the results to one leaves the highlight past them.
    c.handle_key("m");
    assert_eq!(c.filtered_options().len(), 1);
    c.highlighted = 2;
    c.clamp_highlight();
    assert_eq!(c.highlighted, 0);
    // No hover while the list closes.
    c.close_popup();
    assert!(!c.hover_option(1));
    assert_eq!(c.highlighted, 0);
}
