//! The modal stack: modals open on top of each other, the top one shows
//! above a backdrop, and dismissing it (or pressing the backdrop) uncovers
//! the one beneath. Also the confirm and message dialogs' texts.

use vstd::prelude::*;
use vstd::string::*;
use crate::theme::ColorScheme;

verus! {

/// Open modals, bottom to top. `T` is the renderer's handle for a modal's
/// view and size.
#[derive(Debug)]
pub struct ModalStack<T> {
    pub entries: Vec<T>,
}

impl<T> ModalStack<T> {
    /// No modal open.
    pub fn init() -> (s: Self)
        ensures
            s.entries@.len() == 0,
    {
        ModalStack { entries: Vec::new() }
    }

    /// Open a modal on top.
    pub fn push(&mut self, entry: T)
        ensures
            final(self).entries@ == old(self).entries@.push(entry),
    {
        self.entries.push(entry);
    }

    /// Dismiss the top modal, if any; returns it.
    pub fn pop(&mut self) -> (top: Option<T>)
        ensures
            old(self).entries@.len() == 0 ==> top is None && final(self).entries@ == old(self).entries@,
            old(self).entries@.len() > 0 ==> top == Some(old(self).entries@.last())
                && final(self).entries@ == old(self).entries@.drop_last(),
    {
        self.entries.pop()
    }

    pub fn is_empty(&self) -> (b: bool)
        ensures
            b == (self.entries@.len() == 0),
    {
        self.entries.len() == 0
    }

    /// The modal that shows.
    pub fn top(&self) -> (t: Option<&T>)
        ensures
            self.entries@.len() == 0 ==> t is None,
            self.entries@.len() > 0 ==> t == Some(&self.entries@.last()),
    {
        let n = self.entries.len();
        if n == 0 {
            None
        } else {
            Some(&self.entries[n - 1])
        }
    }
}

/// Opening a modal and dismissing it leaves the stack as it was, and the
/// dismissed modal is the one opened.
pub proof fn lemma_push_then_pop<T>(entries: Seq<T>, entry: T)
    ensures
        entries.push(entry).drop_last() == entries,
        entries.push(entry).last() == entry,
        entries.push(entry).len() > 0,
{
    assert(entries.push(entry).drop_last() =~= entries);
}

/// A yes/no confirmation.
#[derive(Debug)]
pub struct ConfirmModal {
    pub title: String,
    pub message: String,
    pub confirm_label: String,
    pub cancel_label: String,
}

impl ConfirmModal {
    pub fn new(title: String, message: String) -> (m: Self)
        ensures
            m.title == title && m.message == message,
            m.confirm_label@ == "OK"@ && m.cancel_label@ == "Cancel"@,
    {
        ConfirmModal {
            title,
            message,
            confirm_label: String::from_str("OK"),
            cancel_label: String::from_str("Cancel"),
        }
    }

    pub fn confirm_label(self, label: String) -> (m: Self)
        ensures
            m == (ConfirmModal { confirm_label: label, ..self }),
    {
        ConfirmModal { confirm_label: label, ..self }
    }

    pub fn cancel_label(self, label: String) -> (m: Self)
        ensures
            m == (ConfirmModal { cancel_label: label, ..self }),
    {
        ConfirmModal { cancel_label: label, ..self }
    }
}

/// An informational message with one dismiss action.
#[derive(Debug)]
pub struct MessageDialog {
    pub title: String,
    pub message: String,
    pub dismiss_label: String,
}

impl MessageDialog {
    pub fn new(title: String, message: String) -> (m: Self)
        ensures
            m.title == title && m.message == message && m.dismiss_label@ == "OK"@,
    {
        MessageDialog { title, message, dismiss_label: String::from_str("OK") }
    }

    pub fn dismiss_label(self, label: String) -> (m: Self)
        ensures
            m == (MessageDialog { dismiss_label: label, ..self }),
    {
        MessageDialog { dismiss_label: label, ..self }
    }
}

/// A dialog's button; the renderer keeps its click handler.
#[derive(Debug)]
pub struct DialogAction {
    pub label: String,
    /// Drawn with the accent colours.
    pub primary: bool,
}

impl DialogAction {
    pub fn new(label: String) -> (a: Self)
        ensures
            a.label == label && !a.primary,
    {
        DialogAction { label, primary: false }
    }

    pub fn primary(self, primary: bool) -> (a: Self)
        ensures
            a == (DialogAction { primary, ..self }),
    {
        DialogAction { primary, ..self }
    }

    /// Background, hover background and text colours: accent for the
    /// primary action, neutral for the others.
    pub fn colors(&self, c: &ColorScheme) -> (r: (u32, u32, u32))
        ensures
            r == if self.primary {
                (c.accent, c.accent_hover, c.on_accent)
            } else {
                (c.neutral, c.neutral_hover, c.on_neutral)
            },
    {
        if self.primary {
            (c.accent, c.accent_hover, c.on_accent)
        } else {
            (c.neutral, c.neutral_hover, c.on_neutral)
        }
    }
}

} // verus!
