//! Simple appending text editors: a multi-line text area and a search box.
//! Typing a single character appends it, Backspace removes the last
//! character, Enter adds a line (text area) or submits (search box).

use vstd::prelude::*;
use vstd::string::*;
use crate::keys::{is_single_char, nav_key_of, NavKey};
use crate::text::{pop_char, push_char, without_last};
use crate::tokens::{SpacingTokens, TypographyTokens};

verus! {

/// A multi-line text area; the renderer keeps focus and the change handler.
#[derive(Debug)]
pub struct Textarea {
    pub value: String,
    pub placeholder: String,
    /// Visible rows, at least 2.
    pub rows: usize,
    pub disabled: bool,
}

/// The text after a key in a text area: Backspace removes the last
/// character, Enter adds a line break, a single-character key is typed.
pub open spec fn textarea_key(value: Seq<char>, key: Seq<char>) -> Option<Seq<char>> {
    match nav_key_of(key) {
        NavKey::Backspace => Some(without_last(value)),
        NavKey::Enter => Some(value.push('\n')),
        _ => if key.len() == 1 {
            Some(value + key)
        } else {
            None
        },
    }
}

impl Textarea {
    /// An empty, enabled text area of four rows.
    pub fn new() -> (t: Self)
        ensures
            t.value@.len() == 0 && t.placeholder@.len() == 0 && t.rows == 4 && !t.disabled,
    {
        Textarea { value: String::new(), placeholder: String::new(), rows: 4, disabled: false }
    }

    pub fn value(self, value: String) -> (t: Self)
        ensures
            t == (Textarea { value, ..self }),
    {
        Textarea { value, ..self }
    }

    pub fn placeholder(self, placeholder: String) -> (t: Self)
        ensures
            t == (Textarea { placeholder, ..self }),
    {
        Textarea { placeholder, ..self }
    }

    /// The number of visible rows, at least 2.
    pub fn rows(self, rows: usize) -> (t: Self)
        ensures
            t == (Textarea { rows: if rows < 2 { 2 } else { rows }, ..self }),
    {
        Textarea {
            rows: if rows < 2 {
                2
            } else {
                rows
            },
            ..self
        }
    }

    pub fn disabled(self, disabled: bool) -> (t: Self)
        ensures
            t == (Textarea { disabled, ..self }),
    {
        Textarea { disabled, ..self }
    }

    pub fn text(&self) -> (t: &str)
        ensures
            t@ == self.value@,
    {
        self.value.as_str()
    }

    /// React to a key (Tab is the host's). Returns whether the text
    /// changed, which the host reports.
    pub fn handle_key(&mut self, key: &str) -> (changed: bool)
        ensures
            final(self).placeholder == old(self).placeholder,
            final(self).rows == old(self).rows,
            final(self).disabled == old(self).disabled,
            changed == (!old(self).disabled && textarea_key(old(self).value@, key@) is Some),
            changed ==> final(self).value@ == textarea_key(old(self).value@, key@)->0,
            !changed ==> final(self).value == old(self).value,
    {
        if self.disabled {
            return false;
        }
        match NavKey::parse(key) {
            NavKey::Backspace => {
                pop_char(&mut self.value);
                true
            },
            NavKey::Enter => {
                push_char(&mut self.value, '\n');
                true
            },
            _ => {
                if is_single_char(key) {
                    self.value.append(key);
                    true
                } else {
                    false
                }
            },
        }
    }

    /// The smallest height in pixels: the rows' line heights plus padding.
    pub fn min_height(&self, typography: &TypographyTokens, spacing: &SpacingTokens) -> (h: u128)
        ensures
            h == typography.body.line_height * self.rows + spacing.md * 2,
    {
        assert(typography.body.line_height * self.rows <= u32::MAX * usize::MAX) by (nonlinear_arith)
            requires
                typography.body.line_height <= u32::MAX,
                self.rows <= usize::MAX,
        ;
        (typography.body.line_height as u128) * (self.rows as u128) + (spacing.md as u128) * 2
    }
}

/// What a key asks of the host.
#[derive(Debug, PartialEq, Eq)]
pub enum SearchKeyOutcome {
    Ignored,
    /// The query changed; report it.
    Changed,
    /// Enter: submit this query.
    Submit(String),
}

/// A search box; the renderer keeps focus and the handlers.
#[derive(Debug)]
pub struct Searchbox {
    pub value: String,
    pub placeholder: String,
    pub disabled: bool,
}

impl Searchbox {
    /// An empty, enabled search box with the placeholder "Search".
    pub fn new() -> (s: Self)
        ensures
            s.value@.len() == 0 && s.placeholder@ == "Search"@ && !s.disabled,
    {
        Searchbox { value: String::new(), placeholder: String::from_str("Search"), disabled: false }
    }

    pub fn value(self, value: String) -> (s: Self)
        ensures
            s == (Searchbox { value, ..self }),
    {
        Searchbox { value, ..self }
    }

    pub fn placeholder(self, placeholder: String) -> (s: Self)
        ensures
            s == (Searchbox { placeholder, ..self }),
    {
        Searchbox { placeholder, ..self }
    }

    pub fn disabled(self, disabled: bool) -> (s: Self)
        ensures
            s == (Searchbox { disabled, ..self }),
    {
        Searchbox { disabled, ..self }
    }

    pub fn text(&self) -> (t: &str)
        ensures
            t@ == self.value@,
    {
        self.value.as_str()
    }

    /// React to a key (Tab is the host's).
    pub fn handle_key(&mut self, key: &str) -> (out: SearchKeyOutcome)
        ensures
            final(self).placeholder == old(self).placeholder,
            final(self).disabled == old(self).disabled,
            old(self).disabled ==> out == SearchKeyOutcome::Ignored && final(self).value == old(self).value,
            !old(self).disabled ==> match nav_key_of(key@) {
                NavKey::Backspace => out == SearchKeyOutcome::Changed && final(self).value@ == without_last(
                    old(self).value@,
                ),
                NavKey::Enter => final(self).value == old(self).value && (out matches SearchKeyOutcome::Submit(q)
                    && q@ == old(self).value@),
                _ => if key@.len() == 1 {
                    out == SearchKeyOutcome::Changed && final(self).value@ == old(self).value@ + key@
                } else {
                    out == SearchKeyOutcome::Ignored && final(self).value == old(self).value
                },
            },
    {
        if self.disabled {
            return SearchKeyOutcome::Ignored;
        }
        match NavKey::parse(key) {
            NavKey::Backspace => {
                pop_char(&mut self.value);
                SearchKeyOutcome::Changed
            },
            NavKey::Enter => SearchKeyOutcome::Submit(self.value.clone()),
            _ => {
                if is_single_char(key) {
                    self.value.append(key);
                    SearchKeyOutcome::Changed
                } else {
                    SearchKeyOutcome::Ignored
                }
            },
        }
    }

    /// The clear affordance: the query empties (a change to report).
    pub fn clear(&mut self)
        ensures
            final(self).value@.len() == 0,
            final(self).placeholder == old(self).placeholder,
            final(self).disabled == old(self).disabled,
    {
        self.value = String::new();
    }

    /// Whether the clear affordance shows: there is a query and the box is
    /// enabled.
    pub fn shows_clear(&self) -> (b: bool)
        ensures
            b == (self.value@.len() > 0 && !self.disabled),
    {
        self.value.as_str().unicode_len() > 0 && !self.disabled
    }
}

} // verus!
