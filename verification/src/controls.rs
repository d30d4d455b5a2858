//! Basic controls: buttons, checkboxes, switches, toggle buttons, radio
//! groups and badges. The caller owns each control's state; what a click
//! asks for and the colours and metrics each state shows in are computed
//! here from the theme.

use vstd::prelude::*;
use vstd::string::*;
use crate::text::{append_decimal, decimal};
use crate::theme::{ColorScheme, Theme};

verus! {

/// A button's visual style.
#[derive(Clone, Copy, Debug, PartialEq, Eq)]
pub enum ButtonAppearance {
    Neutral,
    Accent,
    Danger,
    Subtle,
    Hyperlink,
}

impl Default for ButtonAppearance {
    fn default() -> (a: Self)
        ensures
            a == ButtonAppearance::Neutral,
    {
        ButtonAppearance::Neutral
    }
}

/// A button's corner rounding.
#[derive(Clone, Copy, Debug, PartialEq, Eq)]
pub enum ButtonShape {
    Rounded,
    Square,
    Circular,
}

impl Default for ButtonShape {
    fn default() -> (s: Self)
        ensures
            s == ButtonShape::Rounded,
    {
        ButtonShape::Rounded
    }
}

/// A button's padding and text size.
#[derive(Clone, Copy, Debug, PartialEq, Eq)]
pub enum ButtonSize {
    Normal,
    Compact,
}

impl Default for ButtonSize {
    fn default() -> (s: Self)
        ensures
            s == ButtonSize::Normal,
    {
        ButtonSize::Normal
    }
}

/// How a button draws: colours (0xRRGGBB), border, corner radius and
/// metrics in pixels.
#[derive(Clone, Copy, Debug, PartialEq, Eq)]
pub struct ButtonStyle {
    pub bg: u32,
    pub bg_hover: u32,
    pub bg_active: u32,
    pub fg: u32,
    pub border: Option<u32>,
    pub radius: u32,
    pub padding_x: u32,
    pub padding_y: u32,
    pub font_size: u32,
    pub line_height: u32,
    pub icon_size: u32,
    /// Hover, press and click apply (the button is enabled).
    pub interactive: bool,
    /// The label is centred (there is no icon).
    pub centered: bool,
}

/// A push button; the renderer keeps the click handler.
#[derive(Debug)]
pub struct Button {
    pub id: String,
    pub label: Option<String>,
    pub icon: Option<String>,
    pub appearance: ButtonAppearance,
    pub shape: ButtonShape,
    pub size: ButtonSize,
    pub disabled: bool,
}

/// The colours of an appearance: background, hover, pressed, text, border.
pub open spec fn button_colors(c: ColorScheme, a: ButtonAppearance, disabled: bool) -> (u32, u32, u32, u32, Option<u32>) {
    match a {
        ButtonAppearance::Accent => (
            if disabled { c.accent_disabled } else { c.accent },
            c.accent_hover,
            c.accent_selected,
            if disabled { c.on_accent_disabled } else { c.on_accent },
            None,
        ),
        ButtonAppearance::Neutral => (
            if disabled { c.neutral_disabled } else { c.neutral },
            c.neutral_hover,
            c.neutral_selected,
            if disabled { c.on_neutral_disabled } else { c.on_neutral },
            Some(c.stroke_neutral),
        ),
        ButtonAppearance::Danger => (
            if disabled { c.neutral_disabled } else { c.status_error },
            c.status_error_border,
            c.status_error_bg,
            if disabled { c.on_neutral_disabled } else { c.on_accent },
            None,
        ),
        ButtonAppearance::Subtle => (
            c.subtle,
            c.subtle_hover,
            c.subtle_selected,
            if disabled { c.on_subtle_disabled } else { c.on_subtle },
            None,
        ),
        ButtonAppearance::Hyperlink => (
            c.subtle,
            c.subtle_hover,
            c.subtle_selected,
            if disabled { c.on_neutral_disabled } else { c.on_neutral_accent },
            None,
        ),
    }
}

impl Button {
    /// An enabled neutral, rounded, normal-size button without label or
    /// icon.
    pub fn new(id: String) -> (b: Self)
        ensures
            b.id == id && b.label is None && b.icon is None,
            b.appearance == ButtonAppearance::Neutral && b.shape == ButtonShape::Rounded,
            b.size == ButtonSize::Normal && !b.disabled,
    {
        Button {
            id,
            label: None,
            icon: None,
            appearance: ButtonAppearance::Neutral,
            shape: ButtonShape::Rounded,
            size: ButtonSize::Normal,
            disabled: false,
        }
    }

    pub fn label(self, label: String) -> (b: Self)
        ensures
            b == (Button { label: Some(label), ..self }),
    {
        Button { label: Some(label), ..self }
    }

    pub fn icon(self, path: String) -> (b: Self)
        ensures
            b == (Button { icon: Some(path), ..self }),
    {
        Button { icon: Some(path), ..self }
    }

    pub fn appearance(self, appearance: ButtonAppearance) -> (b: Self)
        ensures
            b == (Button { appearance, ..self }),
    {
        Button { appearance, ..self }
    }

    pub fn shape(self, shape: ButtonShape) -> (b: Self)
        ensures
            b == (Button { shape, ..self }),
    {
        Button { shape, ..self }
    }

    pub fn size(self, size: ButtonSize) -> (b: Self)
        ensures
            b == (Button { size, ..self }),
    {
        Button { size, ..self }
    }

    pub fn disabled(self, disabled: bool) -> (b: Self)
        ensures
            b == (Button { disabled, ..self }),
    {
        Button { disabled, ..self }
    }

    /// How the button draws in a theme.
    pub fn style(&self, theme: &Theme) -> (s: ButtonStyle)
        ensures
            (s.bg, s.bg_hover, s.bg_active, s.fg, s.border) == button_colors(theme.colors, self.appearance, self.disabled),
            s.radius == match self.shape {
                ButtonShape::Rounded => theme.radii.md,
                ButtonShape::Square => theme.radii.sm,
                ButtonShape::Circular => theme.radii.pill,
            },
            self.size == ButtonSize::Normal ==> s.padding_x == theme.spacing.md && s.padding_y == theme.spacing.sm
                && s.font_size == theme.typography.body.size && s.line_height == theme.typography.body.line_height
                && s.icon_size == 16,
            self.size == ButtonSize::Compact ==> s.padding_x == theme.spacing.sm && s.padding_y == theme.spacing.xs
                && s.font_size == theme.typography.caption.size && s.line_height
                == theme.typography.caption.line_height && s.icon_size == 12,
            s.interactive == !self.disabled,
            s.centered == (self.icon is None),
    {
        let c = &theme.colors;
        let d = self.disabled;
        let (bg, bg_hover, bg_active, fg, border) = match self.appearance {
            ButtonAppearance::Accent => (
                if d { c.accent_disabled } else { c.accent },
                c.accent_hover,
                c.accent_selected,
                if d { c.on_accent_disabled } else { c.on_accent },
                None,
            ),
            ButtonAppearance::Neutral => (
                if d { c.neutral_disabled } else { c.neutral },
                c.neutral_hover,
                c.neutral_selected,
                if d { c.on_neutral_disabled } else { c.on_neutral },
                Some(c.stroke_neutral),
            ),
            ButtonAppearance::Danger => (
                if d { c.neutral_disabled } else { c.status_error },
                c.status_error_border,
                c.status_error_bg,
                if d { c.on_neutral_disabled } else { c.on_accent },
                None,
            ),
            ButtonAppearance::Subtle => (
                c.subtle,
                c.subtle_hover,
                c.subtle_selected,
                if d { c.on_subtle_disabled } else { c.on_subtle },
                None,
            ),
            ButtonAppearance::Hyperlink => (
                c.subtle,
                c.subtle_hover,
                c.subtle_selected,
                if d { c.on_neutral_disabled } else { c.on_neutral_accent },
                None,
            ),
        };
        let radius = match self.shape {
            ButtonShape::Rounded => theme.radii.md,
            ButtonShape::Square => theme.radii.sm,
            ButtonShape::Circular => theme.radii.pill,
        };
        let (padding_x, padding_y, font_size, line_height, icon_size) = match self.size {
            ButtonSize::Normal => (
                theme.spacing.md,
                theme.spacing.sm,
                theme.typography.body.size,
                theme.typography.body.line_height,
                16u32,
            ),
            ButtonSize::Compact => (
                theme.spacing.sm,
                theme.spacing.xs,
                theme.typography.caption.size,
                theme.typography.caption.line_height,
                12u32,
            ),
        };
        ButtonStyle {
            bg,
            bg_hover,
            bg_active,
            fg,
            border,
            radius,
            padding_x,
            padding_y,
            font_size,
            line_height,
            icon_size,
            interactive: !d,
            centered: self.icon.is_none(),
        }
    }
}

/// A checkbox's value.
#[derive(Clone, Copy, Debug, PartialEq, Eq)]
pub enum CheckboxState {
    Unchecked,
    Checked,
    Indeterminate,
}

impl Default for CheckboxState {
    fn default() -> (s: Self)
        ensures
            s == CheckboxState::Unchecked,
    {
        CheckboxState::Unchecked
    }
}

impl CheckboxState {
    /// What a click asks for: checked, unless it is checked.
    pub fn next(self) -> (n: Self)
        ensures
            n == next_state(self),
    {
        match self {
            CheckboxState::Unchecked | CheckboxState::Indeterminate => CheckboxState::Checked,
            CheckboxState::Checked => CheckboxState::Unchecked,
        }
    }
}

/// How a checkbox's box draws.
#[derive(Clone, Copy, Debug, PartialEq, Eq)]
pub struct CheckboxStyle {
    pub box_bg: u32,
    pub box_border: u32,
    pub mark: u32,
}

/// A checkbox; the renderer keeps the click handler.
#[derive(Debug)]
pub struct Checkbox {
    pub id: String,
    pub state: CheckboxState,
    pub disabled: bool,
}

impl Checkbox {
    pub fn new(id: String) -> (c: Self)
        ensures
            c.id == id && c.state == CheckboxState::Unchecked && !c.disabled,
    {
        Checkbox { id, state: CheckboxState::Unchecked, disabled: false }
    }

    pub fn state(self, state: CheckboxState) -> (c: Self)
        ensures
            c == (Checkbox { state, ..self }),
    {
        Checkbox { state, ..self }
    }

    pub fn checked(self, checked: bool) -> (c: Self)
        ensures
            c == (Checkbox { state: if checked { CheckboxState::Checked } else { CheckboxState::Unchecked }, ..self }),
    {
        Checkbox {
            state: if checked {
                CheckboxState::Checked
            } else {
                CheckboxState::Unchecked
            },
            ..self
        }
    }

    pub fn disabled(self, disabled: bool) -> (c: Self)
        ensures
            c == (Checkbox { disabled, ..self }),
    {
        Checkbox { disabled, ..self }
    }

    /// The state a click reports; none when disabled.
    pub fn click(&self) -> (n: Option<CheckboxState>)
        ensures
            n == if self.disabled {
                None
            } else {
                Some(
                    match self.state {
                        CheckboxState::Checked => CheckboxState::Unchecked,
                        _ => CheckboxState::Checked,
                    },
                )
            },
    {
        if self.disabled {
            None
        } else {
            Some(self.state.next())
        }
    }

    /// How the box draws: filled with the accent when checked or
    /// indeterminate.
    pub fn style(&self, c: &ColorScheme) -> (s: CheckboxStyle)
        ensures
            s.box_bg == if self.state != CheckboxState::Unchecked {
                if self.disabled { c.accent_disabled } else { c.accent }
            } else {
                c.surface
            },
            s.box_border == if self.state != CheckboxState::Unchecked {
                c.accent
            } else if self.disabled {
                c.stroke_neutral_disabled
            } else {
                c.stroke_neutral
            },
            s.mark == if self.disabled { c.on_accent_disabled } else { c.on_accent },
    {
        let active = match self.state {
            CheckboxState::Unchecked => false,
            _ => true,
        };
        CheckboxStyle {
            box_bg: if active {
                if self.disabled {
                    c.accent_disabled
                } else {
                    c.accent
                }
            } else {
                c.surface
            },
            box_border: if active {
                c.accent
            } else if self.disabled {
                c.stroke_neutral_disabled
            } else {
                c.stroke_neutral
            },
            mark: if self.disabled {
                c.on_accent_disabled
            } else {
                c.on_accent
            },
        }
    }
}

/// How a switch draws; the thumb sits 20 pixels in when on, 2 when off.
#[derive(Clone, Copy, Debug, PartialEq, Eq)]
pub struct SwitchStyle {
    pub track_bg: u32,
    pub track_border: u32,
    pub thumb: u32,
    pub thumb_offset: u32,
}

/// An on/off switch; the renderer keeps the click handler.
#[derive(Debug)]
pub struct Switch {
    pub id: String,
    pub on: bool,
    pub disabled: bool,
}

impl Switch {
    pub fn new(id: String) -> (s: Self)
        ensures
            s.id == id && !s.on && !s.disabled,
    {
        Switch { id, on: false, disabled: false }
    }

    pub fn on(self, on: bool) -> (s: Self)
        ensures
            s == (Switch { on, ..self }),
    {
        Switch { on, ..self }
    }

    pub fn disabled(self, disabled: bool) -> (s: Self)
        ensures
            s == (Switch { disabled, ..self }),
    {
        Switch { disabled, ..self }
    }

    /// The state a click reports; none when disabled.
    pub fn click(&self) -> (n: Option<bool>)
        ensures
            n == if self.disabled { None } else { Some(!self.on) },
    {
        if self.disabled {
            None
        } else {
            Some(!self.on)
        }
    }

    pub fn style(&self, c: &ColorScheme) -> (s: SwitchStyle)
        ensures
            s.track_bg == if self.on {
                if self.disabled { c.accent_disabled } else { c.accent }
            } else {
                c.neutral
            },
            s.track_border == if self.on { c.accent } else { c.stroke_neutral },
            s.thumb == if self.on { c.on_accent } else { c.on_neutral },
            s.thumb_offset == if self.on { 20u32 } else { 2u32 },
    {
        SwitchStyle {
            track_bg: if self.on {
                if self.disabled {
                    c.accent_disabled
                } else {
                    c.accent
                }
            } else {
                c.neutral
            },
            track_border: if self.on {
                c.accent
            } else {
                c.stroke_neutral
            },
            thumb: if self.on {
                c.on_accent
            } else {
                c.on_neutral
            },
            thumb_offset: if self.on {
                20
            } else {
                2
            },
        }
    }
}

/// How a toggle button draws.
#[derive(Clone, Copy, Debug, PartialEq, Eq)]
pub struct ToggleStyle {
    pub bg: u32,
    pub bg_hover: u32,
    pub fg: u32,
}

/// A button that stays pressed; the renderer keeps the click handler.
#[derive(Debug)]
pub struct ToggleButton {
    pub id: String,
    pub label: Option<String>,
    pub icon: Option<String>,
    pub selected: bool,
    pub disabled: bool,
    pub size: ButtonSize,
}

impl ToggleButton {
    pub fn new(id: String) -> (t: Self)
        ensures
            t.id == id && t.label is None && t.icon is None && !t.selected && !t.disabled,
            t.size == ButtonSize::Normal,
    {
        ToggleButton { id, label: None, icon: None, selected: false, disabled: false, size: ButtonSize::Normal }
    }

    pub fn label(self, label: String) -> (t: Self)
        ensures
            t == (ToggleButton { label: Some(label), ..self }),
    {
        ToggleButton { label: Some(label), ..self }
    }

    pub fn icon(self, path: String) -> (t: Self)
        ensures
            t == (ToggleButton { icon: Some(path), ..self }),
    {
        ToggleButton { icon: Some(path), ..self }
    }

    pub fn selected(self, selected: bool) -> (t: Self)
        ensures
            t == (ToggleButton { selected, ..self }),
    {
        ToggleButton { selected, ..self }
    }

    pub fn disabled(self, disabled: bool) -> (t: Self)
        ensures
            t == (ToggleButton { disabled, ..self }),
    {
        ToggleButton { disabled, ..self }
    }

    pub fn size(self, size: ButtonSize) -> (t: Self)
        ensures
            t == (ToggleButton { size, ..self }),
    {
        ToggleButton { size, ..self }
    }

    /// The state a click reports; none when disabled.
    pub fn click(&self) -> (n: Option<bool>)
        ensures
            n == if self.disabled { None } else { Some(!self.selected) },
    {
        if self.disabled {
            None
        } else {
            Some(!self.selected)
        }
    }

    pub fn style(&self, c: &ColorScheme) -> (s: ToggleStyle)
        ensures
            s.bg == if self.selected { c.neutral_selected } else { c.subtle },
            s.bg_hover == if self.selected { c.neutral_hover } else { c.subtle_hover },
            s.fg == if self.disabled {
                c.on_neutral_disabled
            } else if self.selected {
                c.on_neutral_selected
            } else {
                c.on_subtle
            },
    {
        let (bg, bg_hover, fg) = if self.selected {
            (c.neutral_selected, c.neutral_hover, c.on_neutral_selected)
        } else {
            (c.subtle, c.subtle_hover, c.on_subtle)
        };
        ToggleStyle {
            bg,
            bg_hover,
            fg: if self.disabled {
                c.on_neutral_disabled
            } else {
                fg
            },
        }
    }
}

#[derive(Clone, Copy, Debug, PartialEq, Eq)]
pub enum RadioGroupOrientation {
    Vertical,
    Horizontal,
}

impl Default for RadioGroupOrientation {
    fn default() -> (o: Self)
        ensures
            o == RadioGroupOrientation::Vertical,
    {
        RadioGroupOrientation::Vertical
    }
}

#[derive(Debug)]
pub struct RadioOption {
    pub value: String,
    pub label: String,
    pub disabled: bool,
}

impl RadioOption {
    pub fn new(value: String, label: String) -> (o: Self)
        ensures
            o.value == value && o.label == label && !o.disabled,
    {
        RadioOption { value, label, disabled: false }
    }

    pub fn disabled(self, disabled: bool) -> (o: Self)
        ensures
            o == (RadioOption { disabled, ..self }),
    {
        RadioOption { disabled, ..self }
    }
}

/// A group of mutually exclusive options; the renderer keeps the handler.
#[derive(Debug)]
pub struct RadioGroup {
    pub id: String,
    pub options: Vec<RadioOption>,
    pub selected: Option<String>,
    pub orientation: RadioGroupOrientation,
    pub disabled: bool,
}

impl RadioGroup {
    pub fn new(id: String) -> (g: Self)
        ensures
            g.id == id && g.options@.len() == 0 && g.selected is None,
            g.orientation == RadioGroupOrientation::Vertical && !g.disabled,
    {
        RadioGroup { id, options: Vec::new(), selected: None, orientation: RadioGroupOrientation::Vertical, disabled: false }
    }

    pub fn option(self, value: String, label: String) -> (g: Self)
        ensures
            g.options@ == self.options@.push(RadioOption { value, label, disabled: false }),
            g.id == self.id && g.selected == self.selected,
            g.orientation == self.orientation && g.disabled == self.disabled,
    {
        let mut g = self;
        g.options.push(RadioOption::new(value, label));
        g
    }

    pub fn options(self, options: Vec<RadioOption>) -> (g: Self)
        ensures
            g == (RadioGroup { options, ..self }),
    {
        RadioGroup { options, ..self }
    }

    pub fn selected(self, value: String) -> (g: Self)
        ensures
            g == (RadioGroup { selected: Some(value), ..self }),
    {
        RadioGroup { selected: Some(value), ..self }
    }

    pub fn orientation(self, orientation: RadioGroupOrientation) -> (g: Self)
        ensures
            g == (RadioGroup { orientation, ..self }),
    {
        RadioGroup { orientation, ..self }
    }

    pub fn disabled(self, disabled: bool) -> (g: Self)
        ensures
            g == (RadioGroup { disabled, ..self }),
    {
        RadioGroup { disabled, ..self }
    }

    /// Whether option `i` is the selected one.
    pub fn is_selected(&self, i: usize) -> (b: bool)
        requires
            i < self.options@.len(),
        ensures
            b == (self.selected matches Some(v) && v@ == self.options@[i as int].value@),
    {
        match &self.selected {
            Some(v) => *v == self.options[i].value,
            None => false,
        }
    }

    /// The value a click on option `i` reports: none when the group or the
    /// option is disabled.
    pub fn click(&self, i: usize) -> (v: Option<String>)
        requires
            i < self.options@.len(),
        ensures
            v == if self.disabled || self.options@[i as int].disabled {
                None
            } else {
                Some(self.options@[i as int].value)
            },
    {
        if self.disabled || self.options[i].disabled {
            None
        } else {
            Some(self.options[i].value.clone())
        }
    }
}

/// What a badge shows.
#[derive(Clone, Copy, Debug, PartialEq, Eq)]
pub enum BadgeVariant {
    /// A count, shown up to 99.
    Count(u32),
    /// A dot without text.
    Dot,
}

/// A notification badge.
#[derive(Debug)]
pub struct Badge {
    pub variant: BadgeVariant,
}

impl Badge {
    pub fn count(n: u32) -> (b: Self)
        ensures
            b.variant == BadgeVariant::Count(n),
    {
        Badge { variant: BadgeVariant::Count(n) }
    }

    pub fn dot() -> (b: Self)
        ensures
            b.variant == BadgeVariant::Dot,
    {
        Badge { variant: BadgeVariant::Dot }
    }

    /// The badge's text: the count, "99+" above 99, none for a dot.
    pub fn text(&self) -> (t: Option<String>)
        ensures
            match self.variant {
                BadgeVariant::Dot => t is None,
                BadgeVariant::Count(n) => t matches Some(s) && s@ == if n > 99 {
                    "99+"@
                } else {
                    decimal(n as nat)
                },
            },
    {
        match self.variant {
            BadgeVariant::Dot => None,
            BadgeVariant::Count(n) => if n > 99 {
                Some(String::from_str("99+"))
            } else {
                let mut s = String::new();
                append_decimal(&mut s, n as usize);
                assert(s@ =~= decimal(n as nat));
                Some(s)
            },
        }
    }
}

/// Two clicks on a checked or unchecked box return it to its state; an
/// indeterminate box becomes checked, then unchecked.
pub proof fn lemma_checkbox_two_clicks(st: CheckboxState)
    ensures
        st != CheckboxState::Indeterminate ==> next_state(next_state(st)) == st,
        next_state(next_state(CheckboxState::Indeterminate)) == CheckboxState::Unchecked,
{
}

/// The state a click on a checkbox asks for.
pub open spec fn next_state(st: CheckboxState) -> CheckboxState {
    match st {
        CheckboxState::Checked => CheckboxState::Unchecked,
        _ => CheckboxState::Checked,
    }
}

} // verus!
