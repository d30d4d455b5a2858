//! Design tokens: spacing, corner radii, the type ramp, component geometry and
//! popup motion. All geometric values are whole logical pixels (DIPs).

use vstd::prelude::*;

verus! {

/// Spacing scale used for margins, padding and gaps (logical pixels).
#[derive(Clone, Copy, Debug, PartialEq, Eq)]
pub struct SpacingTokens {
    pub xs: u32,
    pub sm: u32,
    pub md: u32,
    pub lg: u32,
    pub xl: u32,
    pub xxl: u32,
}

impl Default for SpacingTokens {
    fn default() -> (s: Self)
        ensures
            s.xs == 2 && s.sm == 4 && s.md == 8,
            s.lg == 12 && s.xl == 16 && s.xxl == 24,
    {
        SpacingTokens { xs: 2, sm: 4, md: 8, lg: 12, xl: 16, xxl: 24 }
    }
}

/// Border-radius tokens (logical pixels). `pill` is effectively circular.
#[derive(Clone, Copy, Debug, PartialEq, Eq)]
pub struct RadiiTokens {
    pub sm: u32,
    pub md: u32,
    pub lg: u32,
    pub pill: u32,
}

impl Default for RadiiTokens {
    fn default() -> (r: Self)
        ensures
            r.sm == 2 && r.md == 4 && r.lg == 8 && r.pill == 9999,
    {
        RadiiTokens { sm: 2, md: 4, lg: 8, pill: 9999 }
    }
}

/// One step of the type ramp: size and line height in logical pixels,
/// weight in CSS font-weight units (400 regular, 600 semibold, 700 bold).
#[derive(Clone, Copy, Debug, PartialEq, Eq)]
pub struct TypeRamp {
    pub size: u32,
    pub line_height: u32,
    pub weight: u32,
}

/// The Fluent 2 type ramp.
#[derive(Clone, Copy, Debug, PartialEq, Eq)]
pub struct TypographyTokens {
    pub caption: TypeRamp,
    pub body: TypeRamp,
    pub subtitle: TypeRamp,
    pub title: TypeRamp,
    pub display: TypeRamp,
}

impl Default for TypographyTokens {
    fn default() -> (t: Self)
        ensures
            t.caption == (TypeRamp { size: 11, line_height: 16, weight: 400 }),
            t.body == (TypeRamp { size: 13, line_height: 20, weight: 400 }),
            t.subtitle == (TypeRamp { size: 15, line_height: 22, weight: 600 }),
            t.title == (TypeRamp { size: 20, line_height: 28, weight: 600 }),
            t.display == (TypeRamp { size: 28, line_height: 36, weight: 700 }),
    {
        TypographyTokens {
            caption: TypeRamp { size: 11, line_height: 16, weight: 400 },
            body: TypeRamp { size: 13, line_height: 20, weight: 400 },
            subtitle: TypeRamp { size: 15, line_height: 22, weight: 600 },
            title: TypeRamp { size: 20, line_height: 28, weight: 600 },
            display: TypeRamp { size: 28, line_height: 36, weight: 700 },
        }
    }
}

/// Component geometry defaults: compact command surfaces, 28px menu rows,
/// 32px form controls and stable icon gutters (logical pixels).
#[derive(Clone, Copy, Debug, PartialEq, Eq)]
pub struct ComponentTokens {
    pub menu_bar_height: u32,
    pub menu_item_height: u32,
    pub menu_min_width: u32,
    pub popup_icon_slot: u32,
    pub popup_separator_height: u32,
    pub dropdown_height: u32,
    pub dropdown_option_height: u32,
    pub dropdown_min_width: u32,
    pub dropdown_max_height: u32,
    pub text_input_height: u32,
    pub text_input_focus_indicator_height: u32,
    pub dock_header_height: u32,
    pub dock_action_size: u32,
    pub settings_nav_width: u32,
    pub settings_nav_section_height: u32,
    pub settings_nav_item_height: u32,
    pub settings_nav_accent_width: u32,
    pub settings_nav_item_indent: u32,
    pub command_palette_search_height: u32,
    pub command_palette_footer_height: u32,
    pub command_palette_icon_slot: u32,
    pub content_tab_strip_height: u32,
    pub content_tab_icon_size: u32,
    pub content_tab_close_size: u32,
    pub ribbon_tab_height: u32,
    pub ribbon_content_button_height: u32,
    pub ribbon_group_label_height: u32,
    pub ribbon_large_icon_size: u32,
    pub ribbon_small_icon_size: u32,
    pub ribbon_contextual_band_height: u32,
}

/// The default component geometry, field by field.
pub open spec fn default_component_tokens() -> ComponentTokens {
    ComponentTokens {
        menu_bar_height: 28,
        menu_item_height: 28,
        menu_min_width: 200,
        popup_icon_slot: 16,
        popup_separator_height: 1,
        dropdown_height: 32,
        dropdown_option_height: 28,
        dropdown_min_width: 180,
        dropdown_max_height: 240,
        text_input_height: 32,
        text_input_focus_indicator_height: 2,
        dock_header_height: 28,
        dock_action_size: 20,
        settings_nav_width: 200,
        settings_nav_section_height: 28,
        settings_nav_item_height: 32,
        settings_nav_accent_width: 3,
        settings_nav_item_indent: 28,
        command_palette_search_height: 44,
        command_palette_footer_height: 28,
        command_palette_icon_slot: 16,
        content_tab_strip_height: 32,
        content_tab_icon_size: 14,
        content_tab_close_size: 14,
        ribbon_tab_height: 28,
        ribbon_content_button_height: 64,
        ribbon_group_label_height: 16,
        ribbon_large_icon_size: 28,
        ribbon_small_icon_size: 16,
        ribbon_contextual_band_height: 3,
    }
}

impl Default for ComponentTokens {
    fn default() -> (c: Self)
        ensures
            c == default_component_tokens(),
    {
        ComponentTokens {
            menu_bar_height: 28,
            menu_item_height: 28,
            menu_min_width: 200,
            popup_icon_slot: 16,
            popup_separator_height: 1,
            dropdown_height: 32,
            dropdown_option_height: 28,
            dropdown_min_width: 180,
            dropdown_max_height: 240,
            text_input_height: 32,
            text_input_focus_indicator_height: 2,
            dock_header_height: 28,
            dock_action_size: 20,
            settings_nav_width: 200,
            settings_nav_section_height: 28,
            settings_nav_item_height: 32,
            settings_nav_accent_width: 3,
            settings_nav_item_indent: 28,
            command_palette_search_height: 44,
            command_palette_footer_height: 28,
            command_palette_icon_slot: 16,
            content_tab_strip_height: 32,
            content_tab_icon_size: 14,
            content_tab_close_size: 14,
            ribbon_tab_height: 28,
            ribbon_content_button_height: 64,
            ribbon_group_label_height: 16,
            ribbon_large_icon_size: 28,
            ribbon_small_icon_size: 16,
            ribbon_contextual_band_height: 3,
        }
    }
}

/// Popup motion: enter/exit durations in milliseconds, the slide offset in
/// logical pixels and the scale change in hundredths (2 means 0.02).
#[derive(Clone, Copy, Debug, PartialEq, Eq)]
pub struct MotionTokens {
    pub popup_enter_duration_ms: u64,
    pub popup_exit_duration_ms: u64,
    pub popup_offset: u32,
    pub popup_scale_delta_hundredths: u32,
}

impl MotionTokens {
    /// How long a closing popup stays mounted before it is removed.
    pub fn popup_exit_duration(&self) -> (ms: u64)
        ensures
            ms == self.popup_exit_duration_ms,
    {
        self.popup_exit_duration_ms
    }
}

impl Default for MotionTokens {
    fn default() -> (m: Self)
        ensures
            m.popup_enter_duration_ms == 160,
            m.popup_exit_duration_ms == 160,
            m.popup_offset == 2,
            m.popup_scale_delta_hundredths == 2,
    {
        MotionTokens {
            popup_enter_duration_ms: 160,
            popup_exit_duration_ms: 160,
            popup_offset: 2,
            popup_scale_delta_hundredths: 2,
        }
    }
}

} // verus!
