use fluent_gui::tab_strip::{TabItem, TabStrip};
use fluent_gui::theme::{Brightness, ColorScheme, Theme};
use fluent_gui::tokens::{ComponentTokens, MotionTokens, RadiiTokens, SpacingTokens, TypographyTokens};

#[test]
fn spacing_tokens_values() {
    let s = SpacingTokens::default();
    assert_eq!(s.xs, 2);
    assert_eq!(s.sm, 4);
    assert_eq!(s.md, 8);
    assert_eq!(s.lg, 12);
    assert_eq!(s.xl, 16);
    assert_eq!(s.xxl, 24);
}

#[test]
fn radii_tokens_values() {
    let r = RadiiTokens::default();
    assert_eq!(r.sm, 2);
    assert_eq!(r.md, 4);
    assert_eq!(r.lg, 8);
    assert_eq!(r.pill, 9999);
}

#[test]
fn typography_ramp_defaults() {
    let t = TypographyTokens::default();
    assert_eq!(t.caption.size, 11);
    assert_eq!(t.body.size, 13);
    assert_eq!(t.body.line_height, 20);
    assert_eq!(t.body.weight, 400);
    assert_eq!(t.subtitle.size, 15);
    assert_eq!(t.subtitle.weight, 600);
    assert_eq!(t.title.size, 20);
    assert_eq!(t.display.size, 28);
    assert_eq!(t.display.weight, 700);
}

#[test]
fn component_geometry_defaults() {
    let c = ComponentTokens::default();
    assert_eq!(c.menu_bar_height, 28);
    assert_eq!(c.menu_item_height, 28);
    assert_eq!(c.dropdown_height, 32);
    assert_eq!(c.dropdown_option_height, 28);
    assert_eq!(c.text_input_height, 32);
    assert_eq!(c.ribbon_tab_height, 28);
}

#[test]
fn motion_tokens_are_subtle() {
    let m = MotionTokens::default();
    assert_eq!(m.popup_enter_duration_ms, 160);
    assert_eq!(m.popup_exit_duration_ms, 160);
    assert_eq!(m.popup_offset, 2);
    assert_eq!(m.popup_scale_delta_hundredths, 2);
}

#[test]
fn theme_brightness_flag() {
    assert!(Theme::dark().is_dark());
    assert!(!Theme::light().is_dark());
}

#[test]
fn semantic_status_colors_are_distinct() {
    let theme = Theme::light();
    assert_ne!(theme.colors.status_success, theme.colors.status_error);
    assert_ne!(theme.colors.status_warning, theme.colors.status_error);
    assert_ne!(theme.colors.status_info, theme.colors.status_success);
}

#[test]
fn brand_accents_are_the_fluent_blues() {
    assert_eq!(ColorScheme::dark().accent, 0x115EA3);
    assert_eq!(ColorScheme::light().accent, 0x0078D4);
    assert_ne!(Theme::dark().colors.accent, Theme::light().colors.accent);
}

#[test]
fn toggling_twice_restores_the_theme() {
    let dark = Theme::dark();
    let once = dark.toggled();
    assert_eq!(once.brightness, Brightness::Light);
    assert_eq!(once.colors, ColorScheme::light());
    let twice = once.toggled();
    assert_eq!(twice.brightness, Brightness::Dark);
    assert_eq!(twice.colors, ColorScheme::dark());
}

#[test]
fn toggle_switches_in_place_and_back() {
    let mut theme = Theme::light();
    theme.toggle();
    assert!(theme.is_dark());
    assert_eq!(theme, Theme::dark());
    theme.toggle();
    assert_eq!(theme, Theme::light());
}

#[test]
fn exit_duration_comes_from_the_motion_tokens() {
    assert_eq!(Theme::dark().motion().popup_exit_duration(), 160);
}

#[test]
fn remove_tab_before_active_preserves_active_tab_identity() {
    let mut strip = TabStrip::default();
    strip.add_tab(TabItem::new("a".to_string()).label("A".to_string()));
    strip.add_tab(TabItem::new("b".to_string()).label("B".to_string()));
    strip.add_tab(TabItem::new("c".to_string()).label("C".to_string()));
    strip.active = 1;

    strip.remove_tab(0);

    assert_eq!(strip.active, 0);
    assert_eq!(strip.tabs[strip.active].id, "b");
}

#[test]
fn remove_active_last_tab_moves_active_to_previous_tab() {
    let mut strip = TabStrip::default();
    strip.add_tab(TabItem::new("a".to_string()).label("A".to_string()));
    strip.add_tab(TabItem::new("b".to_string()).label("B".to_string()));
    strip.active = 1;

    strip.remove_tab(1);

    assert_eq!(strip.active, 0);
    assert_eq!(strip.tabs[strip.active].id, "a");
}

#[test]
fn removing_a_tab_after_the_active_one_keeps_it() {
    let mut strip = TabStrip::default();
    strip.add_tab(TabItem::new("a".to_string()));
    strip.add_tab(TabItem::new("b".to_string()));
    strip.add_tab(TabItem::new("c".to_string()));
    strip.active = 0;
    strip.remove_tab(2);
    assert_eq!(strip.active, 0);
    assert_eq!(strip.tabs.len(), 2);
    assert_eq!(strip.tabs[0].id, "a");
}

/// Hue, saturation and lightness (each in 0..1) of a 0xRRGGBB colour.
fn hsl(rgb: u32) -> (f32, f32, f32) {
    let r = ((rgb >> 16) & 0xFF) as f32 / 255.0;
    let g = ((rgb >> 8) & 0xFF) as f32 / 255.0;
    let b = (rgb & 0xFF) as f32 / 255.0;
    let max = r.max(g).max(b);
    let min = r.min(g).min(b);
    let l = (max + min) / 2.0;
    if max == min {
        return (0.0, 0.0, l);
    }
    let d = max - min;
    let s = if l > 0.5 { d / (2.0 - max - min) } else { d / (max + min) };
    let h = if max == r {
        (g - b) / d + if g < b { 6.0 } else { 0.0 }
    } else if max == g {
        (b - r) / d + 2.0
    } else {
        (r - g) / d + 4.0
    };
    (h / 6.0, s, l)
}

#[test]
fn dark_theme_surface_is_near_black() {
    let (_, _, l) = hsl(Theme::dark().colors.surface);
    assert!(l < 0.15, "dark surface lightness = {}, expected < 0.15", l);
}

#[test]
fn light_theme_surface_is_near_white() {
    let (_, _, l) = hsl(Theme::light().colors.surface);
    assert!(l > 0.9, "light surface lightness = {}, expected > 0.9", l);
}

#[test]
fn dark_accent_has_blue_hue() {
    let (h, _, _) = hsl(Theme::dark().colors.accent);
    assert!((h - 0.575).abs() < 0.02, "dark accent hue = {h:.3}, expected ~0.575");
}

#[test]
fn light_accent_has_blue_hue() {
    let (h, _, _) = hsl(Theme::light().colors.accent);
    assert!((h - 0.572).abs() < 0.02, "light accent hue = {h:.3}, expected ~0.572");
}

#[test]
fn light_and_dark_accent_differ() {
    let (_, _, dark) = hsl(Theme::dark().colors.accent);
    let (_, _, light) = hsl(Theme::light().colors.accent);
    assert!((dark - light).abs() > 0.05, "dark accent l={} light accent l={}", dark, light);
}
