//! Inline status messages and the colours of their intents.

use vstd::prelude::*;
use crate::theme::ColorScheme;

verus! {

/// The visual intent of an inline message or toast.
#[derive(Clone, Copy, Debug, PartialEq, Eq)]
pub enum MessageIntent {
    Info,
    Success,
    Warning,
    Error,
}

impl Default for MessageIntent {
    fn default() -> (i: Self)
        ensures
            i == MessageIntent::Info,
    {
        MessageIntent::Info
    }
}

/// The colours a message shows in: accent (icon and stripe), background and
/// border.
#[derive(Clone, Copy, Debug, PartialEq, Eq)]
pub struct IntentColors {
    pub accent: u32,
    pub background: u32,
    pub border: u32,
}

pub open spec fn intent_colors_spec(c: ColorScheme, intent: MessageIntent) -> IntentColors {
    match intent {
        MessageIntent::Info => IntentColors {
            accent: c.status_info,
            background: c.status_info_bg,
            border: c.status_info_border,
        },
        MessageIntent::Success => IntentColors {
            accent: c.status_success,
            background: c.status_success_bg,
            border: c.status_success_border,
        },
        MessageIntent::Warning => IntentColors {
            accent: c.status_warning,
            background: c.status_warning_bg,
            border: c.status_warning_border,
        },
        MessageIntent::Error => IntentColors {
            accent: c.status_error,
            background: c.status_error_bg,
            border: c.status_error_border,
        },
    }
}

/// The colours of an intent in a colour scheme.
pub fn intent_colors(colors: &ColorScheme, intent: MessageIntent) -> (c: IntentColors)
    ensures
        c == intent_colors_spec(*colors, intent),
{
    match intent {
        MessageIntent::Info => IntentColors {
            accent: colors.status_info,
            background: colors.status_info_bg,
            border: colors.status_info_border,
        },
        MessageIntent::Success => IntentColors {
            accent: colors.status_success,
            background: colors.status_success_bg,
            border: colors.status_success_border,
        },
        MessageIntent::Warning => IntentColors {
            accent: colors.status_warning,
            background: colors.status_warning_bg,
            border: colors.status_warning_border,
        },
        MessageIntent::Error => IntentColors {
            accent: colors.status_error,
            background: colors.status_error_bg,
            border: colors.status_error_border,
        },
    }
}

/// An inline status message; the renderer keeps the dismiss handler.
#[derive(Debug)]
pub struct MessageBar {
    pub intent: MessageIntent,
    pub title: Option<String>,
    pub message: String,
}

impl MessageBar {
    pub fn new(message: String) -> (m: Self)
        ensures
            m.message == message && m.intent == MessageIntent::Info && m.title is None,
    {
        MessageBar { intent: MessageIntent::Info, title: None, message }
    }

    pub fn intent(self, intent: MessageIntent) -> (m: Self)
        ensures
            m == (MessageBar { intent, ..self }),
    {
        MessageBar { intent, ..self }
    }

    pub fn title(self, title: String) -> (m: Self)
        ensures
            m == (MessageBar { title: Some(title), ..self }),
    {
        MessageBar { title: Some(title), ..self }
    }
}

} // verus!
