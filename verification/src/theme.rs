//! Colour scheme and theme. Colours are 24-bit sRGB values written `0xRRGGBB`;
//! the renderer converts them to its own colour type.

use vstd::prelude::*;

use crate::tokens::{
    default_component_tokens, ComponentTokens, MotionTokens, RadiiTokens, SpacingTokens,
    TypographyTokens,
};

verus! {

/// Semantic surface, fill, foreground, stroke, status and layout colours,
/// following the Fluent 2 token vocabulary.
#[derive(Clone, Copy, Debug, PartialEq, Eq)]
pub struct ColorScheme {
    /// Neutral fill — default state (Fluent: colorNeutralBackground3)
    pub neutral: u32,
    /// Neutral fill — pointer hover
    pub neutral_hover: u32,
    /// Neutral fill — disabled
    pub neutral_disabled: u32,
    /// Neutral fill — selected/pressed
    pub neutral_selected: u32,
    /// Accent fill — default state (brand colour)
    pub accent: u32,
    /// Accent fill — pointer hover
    pub accent_hover: u32,
    /// Accent fill — disabled
    pub accent_disabled: u32,
    /// Accent fill — selected/pressed
    pub accent_selected: u32,
    /// Subtle fill — default state (typically transparent)
    pub subtle: u32,
    /// Subtle fill — pointer hover
    pub subtle_hover: u32,
    /// Subtle fill — disabled
    pub subtle_disabled: u32,
    /// Subtle fill — selected/pressed
    pub subtle_selected: u32,
    /// Page / window background (Fluent: colorNeutralBackground1)
    pub surface: u32,
    /// Dimmed background layer behind surfaces
    pub surface_dim: u32,
    /// Frosted / blurred backdrop layer
    pub surface_blur_layer: u32,
    /// Primary text on neutral fill
    pub on_neutral: u32,
    /// Disabled text on neutral fill
    pub on_neutral_disabled: u32,
    /// Text on selected neutral fill
    pub on_neutral_selected: u32,
    /// Brand-coloured text on neutral surface (links, icons)
    pub on_neutral_accent: u32,
    /// Text / icon on accent fill
    pub on_accent: u32,
    /// Disabled text on accent fill
    pub on_accent_disabled: u32,
    /// Text on selected accent fill
    pub on_accent_selected: u32,
    /// Secondary text on subtle fill
    pub on_subtle: u32,
    /// Disabled text on subtle fill
    pub on_subtle_disabled: u32,
    /// Text on selected subtle fill
    pub on_subtle_selected: u32,
    /// Default border / outline (Fluent: colorNeutralStroke1)
    pub stroke_neutral: u32,
    /// Disabled border
    pub stroke_neutral_disabled: u32,
    /// Secondary / dimmer border
    pub stroke_neutral_dim: u32,
    /// Very subtle border (dividers, separators)
    pub stroke_neutral_subtle: u32,
    /// Brand / accent border
    pub stroke_accent: u32,
    /// Informational status accent
    pub status_info: u32,
    /// Informational status background
    pub status_info_bg: u32,
    /// Informational status border
    pub status_info_border: u32,
    /// Success status accent
    pub status_success: u32,
    /// Success status background
    pub status_success_bg: u32,
    /// Success status border
    pub status_success_border: u32,
    /// Warning status accent
    pub status_warning: u32,
    /// Warning status background
    pub status_warning_bg: u32,
    /// Warning status border
    pub status_warning_border: u32,
    /// Error / danger status accent
    pub status_error: u32,
    /// Error / danger status background
    pub status_error_bg: u32,
    /// Error / danger status border
    pub status_error_border: u32,
    /// Ribbon bar background
    pub ribbon_bg: u32,
    /// Active-tab fill in the ribbon tab strip
    pub ribbon_tab_active_bg: u32,
    /// Active-tab bottom indicator / underline accent
    pub ribbon_tab_indicator: u32,
    /// Vertical separator between ribbon groups
    pub ribbon_group_separator: u32,
    /// Sidebar / dock panel background
    pub panel_bg: u32,
    /// Panel edge border
    pub panel_border: u32,
    /// Tab bar background (content area)
    pub tab_strip_bg: u32,
    /// Active tab in content tab strip
    pub tab_active_bg: u32,
    /// Hovered tab in content tab strip
    pub tab_hover_bg: u32,
}

/// The dark scheme, token by token.
pub open spec fn dark_scheme() -> ColorScheme {
    ColorScheme {
        neutral: 0x272727,
        neutral_hover: 0x303030,
        neutral_disabled: 0x1C1C1C,
        neutral_selected: 0x2D2D2D,
        accent: 0x115EA3,
        accent_hover: 0x0F548C,
        accent_disabled: 0x404040,
        accent_selected: 0x0C3B5E,
        subtle: 0x1C1C1C,
        subtle_hover: 0x252525,
        subtle_disabled: 0x1C1C1C,
        subtle_selected: 0x222222,
        surface: 0x1C1C1C,
        surface_dim: 0x141414,
        surface_blur_layer: 0x292929,
        on_neutral: 0xFFFFFF,
        on_neutral_disabled: 0x5C5C5C,
        on_neutral_selected: 0xFFFFFF,
        on_neutral_accent: 0x479EF5,
        on_accent: 0xFFFFFF,
        on_accent_disabled: 0x9E9E9E,
        on_accent_selected: 0xFFFFFF,
        on_subtle: 0xDEDEDE,
        on_subtle_disabled: 0x5C5C5C,
        on_subtle_selected: 0xFFFFFF,
        stroke_neutral: 0x666666,
        stroke_neutral_disabled: 0x404040,
        stroke_neutral_dim: 0x525252,
        stroke_neutral_subtle: 0x383838,
        stroke_accent: 0x479EF5,
        status_info: 0x479EF5,
        status_info_bg: 0x082338,
        status_info_border: 0x115EA3,
        status_success: 0x54B054,
        status_success_bg: 0x052505,
        status_success_border: 0x2A7D2E,
        status_warning: 0xFCE100,
        status_warning_bg: 0x3A2E00,
        status_warning_border: 0x817400,
        status_error: 0xF85149,
        status_error_bg: 0x3B1010,
        status_error_border: 0xA4262C,
        ribbon_bg: 0x212121,
        ribbon_tab_active_bg: 0x2D2D2D,
        ribbon_tab_indicator: 0x479EF5,
        ribbon_group_separator: 0x3D3D3D,
        panel_bg: 0x1C1C1C,
        panel_border: 0x383838,
        tab_strip_bg: 0x212121,
        tab_active_bg: 0x2D2D2D,
        tab_hover_bg: 0x272727,
    }
}

/// The light scheme, token by token.
pub open spec fn light_scheme() -> ColorScheme {
    ColorScheme {
        neutral: 0xF0F0F0,
        neutral_hover: 0xE8E8E8,
        neutral_disabled: 0xF5F5F5,
        neutral_selected: 0xE3E3E3,
        accent: 0x0078D4,
        accent_hover: 0x006CBF,
        accent_disabled: 0xD1D1D1,
        accent_selected: 0x005AA3,
        subtle: 0xFFFFFF,
        subtle_hover: 0xF5F5F5,
        subtle_disabled: 0xFAFAFA,
        subtle_selected: 0xEBEBEB,
        surface: 0xFFFFFF,
        surface_dim: 0xF0F0F0,
        surface_blur_layer: 0xFAFAFA,
        on_neutral: 0x242424,
        on_neutral_disabled: 0xBDBDBD,
        on_neutral_selected: 0x242424,
        on_neutral_accent: 0x0078D4,
        on_accent: 0xFFFFFF,
        on_accent_disabled: 0x737373,
        on_accent_selected: 0xFFFFFF,
        on_subtle: 0x424242,
        on_subtle_disabled: 0xBDBDBD,
        on_subtle_selected: 0x242424,
        stroke_neutral: 0xD1D1D1,
        stroke_neutral_disabled: 0xE0E0E0,
        stroke_neutral_dim: 0xC7C7C7,
        stroke_neutral_subtle: 0xEBEBEB,
        stroke_accent: 0x0078D4,
        status_info: 0x0078D4,
        status_info_bg: 0xE5F3FF,
        status_info_border: 0x0078D4,
        status_success: 0x107C10,
        status_success_bg: 0xEAF6EA,
        status_success_border: 0x107C10,
        status_warning: 0xF7630C,
        status_warning_bg: 0xFFF4CE,
        status_warning_border: 0xF7630C,
        status_error: 0xC42B1C,
        status_error_bg: 0xFDE7E9,
        status_error_border: 0xC42B1C,
        ribbon_bg: 0xF3F3F3,
        ribbon_tab_active_bg: 0xFFFFFF,
        ribbon_tab_indicator: 0x0078D4,
        ribbon_group_separator: 0xE0E0E0,
        panel_bg: 0xFAFAFA,
        panel_border: 0xE5E5E5,
        tab_strip_bg: 0xF3F3F3,
        tab_active_bg: 0xFFFFFF,
        tab_hover_bg: 0xEBEBEB,
    }
}

impl ColorScheme {
    /// Fluent 2 dark colour scheme (muted brand blue `0x115EA3`).
    pub fn dark() -> (c: Self)
        ensures
            c == dark_scheme(),
    {
        ColorScheme {
            neutral: 0x272727,
            neutral_hover: 0x303030,
            neutral_disabled: 0x1C1C1C,
            neutral_selected: 0x2D2D2D,
            accent: 0x115EA3,
            accent_hover: 0x0F548C,
            accent_disabled: 0x404040,
            accent_selected: 0x0C3B5E,
            subtle: 0x1C1C1C,
            subtle_hover: 0x252525,
            subtle_disabled: 0x1C1C1C,
            subtle_selected: 0x222222,
            surface: 0x1C1C1C,
            surface_dim: 0x141414,
            surface_blur_layer: 0x292929,
            on_neutral: 0xFFFFFF,
            on_neutral_disabled: 0x5C5C5C,
            on_neutral_selected: 0xFFFFFF,
            on_neutral_accent: 0x479EF5,
            on_accent: 0xFFFFFF,
            on_accent_disabled: 0x9E9E9E,
            on_accent_selected: 0xFFFFFF,
            on_subtle: 0xDEDEDE,
            on_subtle_disabled: 0x5C5C5C,
            on_subtle_selected: 0xFFFFFF,
            stroke_neutral: 0x666666,
            stroke_neutral_disabled: 0x404040,
            stroke_neutral_dim: 0x525252,
            stroke_neutral_subtle: 0x383838,
            stroke_accent: 0x479EF5,
            status_info: 0x479EF5,
            status_info_bg: 0x082338,
            status_info_border: 0x115EA3,
            status_success: 0x54B054,
            status_success_bg: 0x052505,
            status_success_border: 0x2A7D2E,
            status_warning: 0xFCE100,
            status_warning_bg: 0x3A2E00,
            status_warning_border: 0x817400,
            status_error: 0xF85149,
            status_error_bg: 0x3B1010,
            status_error_border: 0xA4262C,
            ribbon_bg: 0x212121,
            ribbon_tab_active_bg: 0x2D2D2D,
            ribbon_tab_indicator: 0x479EF5,
            ribbon_group_separator: 0x3D3D3D,
            panel_bg: 0x1C1C1C,
            panel_border: 0x383838,
            tab_strip_bg: 0x212121,
            tab_active_bg: 0x2D2D2D,
            tab_hover_bg: 0x272727,
        }
    }

    /// Fluent 2 light colour scheme (full brand blue `0x0078D4`).
    pub fn light() -> (c: Self)
        ensures
            c == light_scheme(),
    {
        ColorScheme {
            neutral: 0xF0F0F0,
            neutral_hover: 0xE8E8E8,
            neutral_disabled: 0xF5F5F5,
            neutral_selected: 0xE3E3E3,
            accent: 0x0078D4,
            accent_hover: 0x006CBF,
            accent_disabled: 0xD1D1D1,
            accent_selected: 0x005AA3,
            subtle: 0xFFFFFF,
            subtle_hover: 0xF5F5F5,
            subtle_disabled: 0xFAFAFA,
            subtle_selected: 0xEBEBEB,
            surface: 0xFFFFFF,
            surface_dim: 0xF0F0F0,
            surface_blur_layer: 0xFAFAFA,
            on_neutral: 0x242424,
            on_neutral_disabled: 0xBDBDBD,
            on_neutral_selected: 0x242424,
            on_neutral_accent: 0x0078D4,
            on_accent: 0xFFFFFF,
            on_accent_disabled: 0x737373,
            on_accent_selected: 0xFFFFFF,
            on_subtle: 0x424242,
            on_subtle_disabled: 0xBDBDBD,
            on_subtle_selected: 0x242424,
            stroke_neutral: 0xD1D1D1,
            stroke_neutral_disabled: 0xE0E0E0,
            stroke_neutral_dim: 0xC7C7C7,
            stroke_neutral_subtle: 0xEBEBEB,
            stroke_accent: 0x0078D4,
            status_info: 0x0078D4,
            status_info_bg: 0xE5F3FF,
            status_info_border: 0x0078D4,
            status_success: 0x107C10,
            status_success_bg: 0xEAF6EA,
            status_success_border: 0x107C10,
            status_warning: 0xF7630C,
            status_warning_bg: 0xFFF4CE,
            status_warning_border: 0xF7630C,
            status_error: 0xC42B1C,
            status_error_bg: 0xFDE7E9,
            status_error_border: 0xC42B1C,
            ribbon_bg: 0xF3F3F3,
            ribbon_tab_active_bg: 0xFFFFFF,
            ribbon_tab_indicator: 0x0078D4,
            ribbon_group_separator: 0xE0E0E0,
            panel_bg: 0xFAFAFA,
            panel_border: 0xE5E5E5,
            tab_strip_bg: 0xF3F3F3,
            tab_active_bg: 0xFFFFFF,
            tab_hover_bg: 0xEBEBEB,
        }
    }

}
/// Whether the theme is rendered in dark or light mode.
#[derive(Clone, Copy, Debug, PartialEq, Eq)]
pub enum Brightness {
    Dark,
    Light,
}

/// The complete theme: brightness, colours and every token table.
#[derive(Clone, Copy, Debug, PartialEq, Eq)]
pub struct Theme {
    pub brightness: Brightness,
    pub colors: ColorScheme,
    pub spacing: SpacingTokens,
    pub radii: RadiiTokens,
    pub typography: TypographyTokens,
    pub components: ComponentTokens,
}

/// The theme a given brightness stands for: its colour scheme with the
/// default token tables.
pub open spec fn theme_for(b: Brightness) -> Theme {
    Theme {
        brightness: b,
        colors: match b {
            Brightness::Dark => dark_scheme(),
            Brightness::Light => light_scheme(),
        },
        spacing: SpacingTokens { xs: 2, sm: 4, md: 8, lg: 12, xl: 16, xxl: 24 },
        radii: RadiiTokens { sm: 2, md: 4, lg: 8, pill: 9999 },
        typography: TypographyTokens {
            caption: crate::tokens::TypeRamp { size: 11, line_height: 16, weight: 400 },
            body: crate::tokens::TypeRamp { size: 13, line_height: 20, weight: 400 },
            subtitle: crate::tokens::TypeRamp { size: 15, line_height: 22, weight: 600 },
            title: crate::tokens::TypeRamp { size: 20, line_height: 28, weight: 600 },
            display: crate::tokens::TypeRamp { size: 28, line_height: 36, weight: 700 },
        },
        components: default_component_tokens(),
    }
}

impl Theme {
    /// The default dark theme.
    pub fn dark() -> (t: Self)
        ensures
            t == theme_for(Brightness::Dark),
    {
        Theme {
            brightness: Brightness::Dark,
            colors: ColorScheme::dark(),
            spacing: SpacingTokens::default(),
            radii: RadiiTokens::default(),
            typography: TypographyTokens::default(),
            components: ComponentTokens::default(),
        }
    }

    /// The default light theme.
    pub fn light() -> (t: Self)
        ensures
            t == theme_for(Brightness::Light),
    {
        Theme {
            brightness: Brightness::Light,
            colors: ColorScheme::light(),
            spacing: SpacingTokens::default(),
            radii: RadiiTokens::default(),
            typography: TypographyTokens::default(),
            components: ComponentTokens::default(),
        }
    }

    pub fn is_dark(&self) -> (b: bool)
        ensures
            b == (self.brightness == Brightness::Dark),
    {
        match self.brightness {
            Brightness::Dark => true,
            Brightness::Light => false,
        }
    }

    /// The motion tokens every theme uses.
    pub fn motion(&self) -> (m: MotionTokens)
        ensures
            m.popup_enter_duration_ms == 160,
            m.popup_exit_duration_ms == 160,
            m.popup_offset == 2,
            m.popup_scale_delta_hundredths == 2,
    {
        MotionTokens::default()
    }

    /// The theme a toggle switches to: light when this one is dark, dark
    /// otherwise.
    pub fn toggled(&self) -> (t: Self)
        ensures
            t == toggled_theme(*self),
    {
        if self.is_dark() {
            Theme::light()
        } else {
            Theme::dark()
        }
    }

    /// Switch between the default dark and light themes.
    pub fn toggle(&mut self)
        ensures
            *final(self) == toggled_theme(*old(self)),
    {
        *self = self.toggled();
    }
}

/// The other brightness.
pub open spec fn other_brightness(b: Brightness) -> Brightness {
    if b == Brightness::Dark {
        Brightness::Light
    } else {
        Brightness::Dark
    }
}

/// The theme a toggle switches `t` to: the default theme of the other
/// brightness.
pub open spec fn toggled_theme(t: Theme) -> Theme {
    theme_for(other_brightness(t.brightness))
}

/// Toggling a theme flips whether it is dark.
pub proof fn lemma_toggle_flips_brightness(t: Theme)
    ensures
        toggled_theme(t).brightness == other_brightness(t.brightness),
        toggled_theme(t).brightness != t.brightness,
{
}

/// Toggling any theme twice gives the default theme of its brightness, so
/// the brightness comes back (and a default theme comes back whole).
pub proof fn lemma_toggle_twice(t: Theme)
    ensures
        toggled_theme(toggled_theme(t)) == theme_for(t.brightness),
        toggled_theme(toggled_theme(t)).brightness == t.brightness,
        t == theme_for(t.brightness) ==> toggled_theme(toggled_theme(t)) == t,
{
}

/// The status colours of both schemes are pairwise distinct where the design
/// relies on telling them apart.
pub proof fn lemma_status_colors_distinct()
    ensures
        light_scheme().status_success != light_scheme().status_error,
        light_scheme().status_warning != light_scheme().status_error,
        light_scheme().status_info != light_scheme().status_success,
        dark_scheme().status_success != dark_scheme().status_error,
        dark_scheme().status_warning != dark_scheme().status_error,
        dark_scheme().status_info != dark_scheme().status_success,
        dark_scheme().accent != light_scheme().accent,
{
}

} // verus!
