use fluent_gui::assets::{asset_source, builtin_icon, builtin_names, AssetSourceChoice, BuiltinIcon};
use fluent_gui::controls::{
    Badge, Button, ButtonAppearance, ButtonShape, ButtonSize, Checkbox, CheckboxState, RadioGroup,
    RadioGroupOrientation, RadioOption, Switch, ToggleButton,
};
use fluent_gui::primitives::{
    ramp_for_size, tab_navigation, validation_color, FieldValidationState, FocusMove, IconButton,
    IconSize, LabelSize,
};
use fluent_gui::ribbon::{
    group_width_of, item_width_of, visible_group_count, ActiveTab, RibbonBar, RibbonGroupBuilder,
    RibbonItemDef, RibbonStackBuilder, RibbonTabBuilder,
};
use fluent_gui::theme::{ColorScheme, Theme};
use fluent_gui::tokens::TypographyTokens;

fn s(x: &str) -> String {
    x.to_string()
}

#[test]
fn button_styles_follow_appearance_shape_and_size() {
    let theme = Theme::light();
    let b = Button::new(s("ok")).label(s("OK")).appearance(ButtonAppearance::Accent);
    let st = b.style(&theme);
    assert_eq!(st.bg, theme.colors.accent);
    assert_eq!(st.fg, theme.colors.on_accent);
    assert_eq!(st.border, None);
    assert_eq!(st.radius, theme.radii.md);
    assert!(st.interactive && st.centered);
    let d = Button::new(s("x"))
        .icon(s("icons/add.svg"))
        .shape(ButtonShape::Circular)
        .size(ButtonSize::Compact)
        .disabled(true)
        .style(&theme);
    assert_eq!(d.bg, theme.colors.neutral_disabled);
    assert_eq!(d.fg, theme.colors.on_neutral_disabled);
    assert_eq!(d.border, Some(theme.colors.stroke_neutral));
    assert_eq!(d.radius, 9999);
    assert_eq!((d.padding_x, d.padding_y, d.icon_size), (4, 2, 12));
    assert!(!d.interactive && !d.centered);
    let danger = Button::new(s("del")).appearance(ButtonAppearance::Danger).style(&theme);
    assert_eq!(danger.bg, theme.colors.status_error);
    let link = Button::new(s("l")).appearance(ButtonAppearance::Hyperlink).style(&theme);
    assert_eq!(link.fg, theme.colors.on_neutral_accent);
    assert_eq!(ButtonAppearance::default(), ButtonAppearance::Neutral);
}

#[test]
fn checkbox_clicks_cycle_to_checked() {
    assert_eq!(CheckboxState::Unchecked.next(), CheckboxState::Checked);
    assert_eq!(CheckboxState::Indeterminate.next(), CheckboxState::Checked);
    assert_eq!(CheckboxState::Checked.next(), CheckboxState::Unchecked);
    let c = Checkbox::new(s("c")).checked(true);
    assert_eq!(c.click(), Some(CheckboxState::Unchecked));
    assert_eq!(c.disabled(true).click(), None);
    let colors = ColorScheme::dark();
    let st = Checkbox::new(s("c")).state(CheckboxState::Indeterminate).style(&colors);
    assert_eq!(st.box_bg, colors.accent);
    let st = Checkbox::new(s("c")).style(&colors);
    assert_eq!(st.box_bg, colors.surface);
    assert_eq!(st.box_border, colors.stroke_neutral);
}

#[test]
fn switch_and_toggle_report_the_opposite_state() {
    let colors = ColorScheme::light();
    let sw = Switch::new(s("s")).on(true);
    assert_eq!(sw.click(), Some(false));
    let st = sw.style(&colors);
    assert_eq!((st.track_bg, st.thumb_offset), (colors.accent, 20));
    assert_eq!(Switch::new(s("s")).style(&colors).thumb_offset, 2);
    assert_eq!(Switch::new(s("s")).disabled(true).click(), None);
    let t = ToggleButton::new(s("t")).label(s("Bold")).icon(s("icons/add.svg")).size(ButtonSize::Compact);
    assert_eq!(t.click(), Some(true));
    assert_eq!(t.style(&colors).bg, colors.subtle);
    let t = t.selected(true);
    assert_eq!(t.style(&colors).bg, colors.neutral_selected);
    assert_eq!(t.disabled(true).style(&colors).fg, colors.on_neutral_disabled);
}

#[test]
fn radio_group_reports_enabled_choices() {
    let g = RadioGroup::new(s("g"))
        .option(s("a"), s("A"))
        .options(vec![RadioOption::new(s("a"), s("A")), RadioOption::new(s("b"), s("B")).disabled(true)])
        .selected(s("a"))
        .orientation(RadioGroupOrientation::Horizontal);
    assert!(g.is_selected(0));
    assert!(!g.is_selected(1));
    assert_eq!(g.click(0), Some(s("a")));
    assert_eq!(g.click(1), None);
    assert_eq!(g.disabled(true).click(0), None);
}

#[test]
fn badge_caps_its_count() {
    assert_eq!(Badge::count(7).text(), Some(s("7")));
    assert_eq!(Badge::count(99).text(), Some(s("99")));
    assert_eq!(Badge::count(100).text(), Some(s("99+")));
    assert_eq!(Badge::dot().text(), None);
}

#[test]
fn icon_sizes_labels_and_fields() {
    assert_eq!(IconSize::Sm.px(), 16);
    assert_eq!(IconSize::default().px(), 20);
    assert_eq!(IconSize::Xl.px(), 32);
    let t = TypographyTokens::default();
    assert_eq!(ramp_for_size(LabelSize::Display, &t).size, 28);
    assert_eq!(ramp_for_size(LabelSize::default(), &t).size, 13);
    let c = ColorScheme::dark();
    assert_eq!(validation_color(&c, FieldValidationState::Warning), c.status_warning);
    assert_eq!(validation_color(&c, FieldValidationState::default()), c.on_subtle);
}

#[test]
fn icon_buttons_size_their_hit_area() {
    let c = ColorScheme::light();
    let b = IconButton::new(s("i"), s("icons/add.svg"));
    let st = b.style(&c);
    assert_eq!((st.icon_size, st.hit_size), (16, 32));
    assert_eq!(st.bg, c.subtle);
    let a = IconButton::new(s("i"), s("icons/add.svg")).appearance(ButtonAppearance::Accent).size(ButtonSize::Compact).disabled(true);
    let st = a.style(&c);
    assert_eq!((st.icon_size, st.hit_size), (12, 24));
    assert_eq!(st.bg, c.accent_disabled);
    assert!(!st.interactive);
}

#[test]
fn tab_moves_focus() {
    assert_eq!(tab_navigation("tab", false), Some(FocusMove::Next));
    assert_eq!(tab_navigation("tab", true), Some(FocusMove::Previous));
    assert_eq!(tab_navigation("a", false), None);
}

#[test]
fn built_in_icons_and_fallbacks() {
    assert_eq!(builtin_icon("icons/add.svg"), Some(BuiltinIcon::Add));
    assert_eq!(builtin_icon("icons/folder_add.svg"), Some(BuiltinIcon::Add));
    assert_eq!(builtin_icon("icons/network.svg"), Some(BuiltinIcon::Plug));
    assert_eq!(builtin_icon("icons/dark_theme.svg"), Some(BuiltinIcon::Generic));
    assert_eq!(builtin_icon("icons/whatever.svg"), Some(BuiltinIcon::Generic));
    assert_eq!(builtin_icon("icons/whatever.png"), None);
    assert_eq!(builtin_icon("images/a.svg"), None);
    assert_eq!(asset_source("logo.png", true), AssetSourceChoice::Fallback);
    assert_eq!(asset_source("logo.png", false), AssetSourceChoice::Missing);
    assert_eq!(asset_source("icons/cut.svg", true), AssetSourceChoice::Builtin(BuiltinIcon::Cut));
    assert_eq!(builtin_names("icons").len(), 15);
    assert_eq!(builtin_names("icons")[0], "add.svg");
    assert!(builtin_names("other").is_empty());
}

fn ribbon() -> RibbonBar {
    RibbonBar::new()
        .tab(
            RibbonTabBuilder::new(s("Home")).group(
                RibbonGroupBuilder::new(s("Clipboard"))
                    .large_button(s("Paste"), s("icons/paste.svg"))
                    .stack(RibbonStackBuilder::new().button(s("Cut"), s("icons/cut.svg")).icon_button(s("icons/copy.svg"), s("Copy")))
                    .toggle_button(s("Bold"), s(""), false)
                    .separator(),
            ),
        )
        .tab(RibbonTabBuilder::new(s("View")))
        .contextual_tab(s("Table"), false, RibbonTabBuilder::new(s("ignored")))
        .contextual_tab(s("Image"), true, RibbonTabBuilder::new(s("ignored")))
}

#[test]
fn ribbon_widths_in_half_pixels() {
    // "Paste": max(5 * 6.5, 56) + 16 = 72 px.
    assert_eq!(item_width_of(&RibbonItemDef::LargeButton { label: s("Paste"), icon: s("i") }, 16), 144);
    // "Bold" without an icon: 4 * 6.5 + 20 = 46 px.
    assert_eq!(item_width_of(&RibbonItemDef::ToggleButton { label: s("Bold"), icon: s(""), selected: false }, 16), 92);
    // "Cut" with a 16 px icon: 3 * 6.5 + 24 + 20 = 63.5 px.
    assert_eq!(item_width_of(&RibbonItemDef::Button { label: s("Cut"), icon: s("i") }, 16), 127);
    assert_eq!(item_width_of(&RibbonItemDef::IconButton { icon: s("i"), tooltip: s("t") }, 16), 80);
    assert_eq!(item_width_of(&RibbonItemDef::Separator, 16), 16);
    // A stack of those two: one column as wide as the widest (at least 72 px).
    let stack = RibbonItemDef::Stack(vec![
        RibbonItemDef::Button { label: s("Cut"), icon: s("i") },
        RibbonItemDef::IconButton { icon: s("i"), tooltip: s("t") },
    ]);
    assert_eq!(item_width_of(&stack, 16), 144);
    let r = ribbon();
    let g = &r.tabs[0].groups[0];
    // Items: 144 + 144 + 92 + 16 = 396; the name needs 9 * 13 + 48 = 165.
    assert_eq!(group_width_of(g, 16), 396 + 24);
}

#[test]
fn ribbon_fits_groups_left_to_right() {
    assert_eq!(visible_group_count(&vec![100, 100, 100], 250), 2);
    assert_eq!(visible_group_count(&vec![300, 10], 250), 1);
    assert_eq!(visible_group_count(&vec![100, 100], 1000), 2);
    assert_eq!(visible_group_count(&Vec::new(), 10), 0);
}

#[test]
fn ribbon_tabs_and_contextual_visibility() {
    let mut r = ribbon();
    assert_eq!(r.visible_contextual_tabs(), vec![1]);
    assert_eq!(r.active_source(), ActiveTab::Normal(0));
    r.click_tab(2);
    assert_eq!(r.active_source(), ActiveTab::Contextual(1));
    r.set_contextual_visible("Table", true);
    assert_eq!(r.visible_contextual_tabs(), vec![0, 1]);
    assert_eq!(r.active_source(), ActiveTab::Contextual(0));
    r.set_contextual_visible("Image", false);
    assert_eq!(r.active_tab, 0);
    r.set_contextual_visible("Nope", false);
    r.click_tab(9);
    assert_eq!(r.active_source(), ActiveTab::Missing);
    r.toggle_overflow();
    assert!(r.overflow_open);
    r.settle_overflow(0);
    assert!(!r.overflow_open);
    r.toggle_collapsed();
    assert!(r.collapsed);
    r.close_overflow();
    assert!(!r.overflow_open);
}

#[test]
fn ribbon_toggle_state_by_path() {
    let mut r = ribbon();
    r.set_toggle_selected(0, 0, 2, true);
    match &r.tabs[0].groups[0].items[2] {
        RibbonItemDef::ToggleButton { selected, .. } => assert!(*selected),
        _ => panic!("expected a toggle"),
    }
    // A path that names no toggle changes nothing.
    r.set_toggle_selected(0, 0, 0, true);
    r.set_toggle_selected(5, 0, 0, true);
    assert_eq!(r.tabs[0].groups[0].items.len(), 4);
    assert_eq!(r.contextual_tabs[1].tab.name, "");
}
