//! Small presentational decisions: icon sizes, the type ramp step a label
//! uses, a field's validation colour, icon buttons, and keyboard focus
//! traversal.

use vstd::prelude::*;
use crate::controls::{ButtonAppearance, ButtonSize};
use crate::keys::str_eq;
use crate::theme::ColorScheme;
use crate::tokens::{TypeRamp, TypographyTokens};

verus! {

/// The icon sizes the toolkit draws.
#[derive(Clone, Copy, Debug, PartialEq, Eq)]
pub enum IconSize {
    Sm,
    Md,
    Lg,
    Xl,
}

impl Default for IconSize {
    fn default() -> (s: Self)
        ensures
            s == IconSize::Md,
    {
        IconSize::Md
    }
}

impl IconSize {
    /// The size in pixels.
    pub fn px(self) -> (p: u32)
        ensures
            p == match self {
                IconSize::Sm => 16u32,
                IconSize::Md => 20u32,
                IconSize::Lg => 24u32,
                IconSize::Xl => 32u32,
            },
    {
        match self {
            IconSize::Sm => 16,
            IconSize::Md => 20,
            IconSize::Lg => 24,
            IconSize::Xl => 32,
        }
    }
}

/// The step of the type ramp a label uses.
#[derive(Clone, Copy, Debug, PartialEq, Eq)]
pub enum LabelSize {
    Caption,
    Body,
    Subtitle,
    Title,
    Display,
}

impl Default for LabelSize {
    fn default() -> (s: Self)
        ensures
            s == LabelSize::Body,
    {
        LabelSize::Body
    }
}

/// The ramp step of a label size.
pub fn ramp_for_size(size: LabelSize, t: &TypographyTokens) -> (r: TypeRamp)
    ensures
        r == match size {
            LabelSize::Caption => t.caption,
            LabelSize::Body => t.body,
            LabelSize::Subtitle => t.subtitle,
            LabelSize::Title => t.title,
            LabelSize::Display => t.display,
        },
{
    match size {
        LabelSize::Caption => t.caption,
        LabelSize::Body => t.body,
        LabelSize::Subtitle => t.subtitle,
        LabelSize::Title => t.title,
        LabelSize::Display => t.display,
    }
}

/// A form field's validation state.
#[derive(Clone, Copy, Debug, PartialEq, Eq)]
pub enum FieldValidationState {
    Neutral,
    Success,
    Warning,
    Error,
}

impl Default for FieldValidationState {
    fn default() -> (s: Self)
        ensures
            s == FieldValidationState::Neutral,
    {
        FieldValidationState::Neutral
    }
}

/// The colour of a field's validation message.
pub fn validation_color(c: &ColorScheme, state: FieldValidationState) -> (color: u32)
    ensures
        color == match state {
            FieldValidationState::Error => c.status_error,
            FieldValidationState::Warning => c.status_warning,
            FieldValidationState::Success => c.status_success,
            FieldValidationState::Neutral => c.on_subtle,
        },
{
    match state {
        FieldValidationState::Error => c.status_error,
        FieldValidationState::Warning => c.status_warning,
        FieldValidationState::Success => c.status_success,
        FieldValidationState::Neutral => c.on_subtle,
    }
}

/// How an icon button draws: colours, and icon and hit-area sizes in
/// pixels.
#[derive(Clone, Copy, Debug, PartialEq, Eq)]
pub struct IconButtonStyle {
    pub bg: u32,
    pub bg_hover: u32,
    pub bg_active: u32,
    pub fg: u32,
    pub icon_size: u32,
    pub hit_size: u32,
    pub interactive: bool,
}

/// An icon-only button; the renderer keeps the click handler.
#[derive(Debug)]
pub struct IconButton {
    pub id: String,
    pub icon: String,
    pub appearance: ButtonAppearance,
    pub size: ButtonSize,
    pub disabled: bool,
}

impl IconButton {
    /// An enabled, subtle, normal-size icon button.
    pub fn new(id: String, icon: String) -> (b: Self)
        ensures
            b.id == id && b.icon == icon && b.appearance == ButtonAppearance::Subtle,
            b.size == ButtonSize::Normal && !b.disabled,
    {
        IconButton { id, icon, appearance: ButtonAppearance::Subtle, size: ButtonSize::Normal, disabled: false }
    }

    pub fn appearance(self, appearance: ButtonAppearance) -> (b: Self)
        ensures
            b == (IconButton { appearance, ..self }),
    {
        IconButton { appearance, ..self }
    }

    pub fn size(self, size: ButtonSize) -> (b: Self)
        ensures
            b == (IconButton { size, ..self }),
    {
        IconButton { size, ..self }
    }

    pub fn disabled(self, disabled: bool) -> (b: Self)
        ensures
            b == (IconButton { disabled, ..self }),
    {
        IconButton { disabled, ..self }
    }

    /// How it draws: accent colours for the accent appearance, subtle ones
    /// for every other.
    pub fn style(&self, c: &ColorScheme) -> (s: IconButtonStyle)
        ensures
            self.appearance == ButtonAppearance::Accent ==> s.bg == (if self.disabled {
                c.accent_disabled
            } else {
                c.accent
            }) && s.bg_hover == c.accent_hover && s.bg_active == c.accent_selected && s.fg == (if self.disabled {
                c.on_accent_disabled
            } else {
                c.on_accent
            }),
            self.appearance != ButtonAppearance::Accent ==> s.bg == c.subtle && s.bg_hover == c.subtle_hover
                && s.bg_active == c.subtle_selected && s.fg == (if self.disabled {
                c.on_subtle_disabled
            } else {
                c.on_subtle
            }),
            (s.icon_size, s.hit_size) == match self.size {
                ButtonSize::Normal => (16u32, 32u32),
                ButtonSize::Compact => (12u32, 24u32),
            },
            s.interactive == !self.disabled,
    {
        let d = self.disabled;
        let (bg, bg_hover, bg_active, fg) = match self.appearance {
            ButtonAppearance::Accent => (
                if d { c.accent_disabled } else { c.accent },
                c.accent_hover,
                c.accent_selected,
                if d { c.on_accent_disabled } else { c.on_accent },
            ),
            _ => (c.subtle, c.subtle_hover, c.subtle_selected, if d { c.on_subtle_disabled } else { c.on_subtle }),
        };
        let (icon_size, hit_size) = match self.size {
            ButtonSize::Normal => (16u32, 32u32),
            ButtonSize::Compact => (12u32, 24u32),
        };
        IconButtonStyle { bg, bg_hover, bg_active, fg, icon_size, hit_size, interactive: !d }
    }
}

/// Where Tab moves keyboard focus.
#[derive(Clone, Copy, Debug, PartialEq, Eq)]
pub enum FocusMove {
    Next,
    Previous,
}

/// The focus move a key asks for: Tab moves to the next control, Shift+Tab
/// to the previous one; any other key is left to the control.
pub fn tab_navigation(key: &str, shift: bool) -> (m: Option<FocusMove>)
    ensures
        m == if key@ == "tab"@ {
            Some(if shift { FocusMove::Previous } else { FocusMove::Next })
        } else {
            None::<FocusMove>
        },
{
    if !str_eq(key, "tab") {
        return None;
    }
    if shift {
        Some(FocusMove::Previous)
    } else {
        Some(FocusMove::Next)
    }
}

} // verus!
