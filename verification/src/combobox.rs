//! A combobox: a text query that filters a popup list of options, with
//! keyboard highlighting, and optionally free-form values.

use vstd::prelude::*;
use vstd::string::*;
use crate::choice::{filter_options, filtered, find_label, label_of, ChoiceOption};
use crate::keys::{is_single_char, nav_key_of, NavKey};
use crate::popup::{after_begin_close, after_open_if_needed, after_timer, PopupMotion};
use crate::text::{pop_char, without_last};

verus! {

pub type ComboboxOption = ChoiceOption;

/// What a key press asks of the host.
#[derive(Debug, PartialEq, Eq)]
pub enum ComboboxKeyOutcome {
    /// Nothing to do.
    Ignored,
    /// The state changed; redraw.
    Changed,
    /// A value was chosen: report it, and arm the removal timer (if any).
    Selected { value: String, close_timer: Option<u64> },
    /// The list started closing with nothing chosen.
    Closed { close_timer: Option<u64> },
}

/// The removal timer a close arms, given the motion before it.
pub open spec fn close_timer(m: PopupMotion) -> Option<u64> {
    if m.open && !m.closing {
        Some(after_begin_close(m).motion_epoch)
    } else {
        None
    }
}

/// A combobox's state.
#[derive(Debug)]
pub struct Combobox {
    pub options: Vec<ComboboxOption>,
    pub value: Option<String>,
    pub query: String,
    pub placeholder: String,
    pub disabled: bool,
    /// Enter commits the typed query when no option is highlighted.
    pub freeform: bool,
    pub motion: PopupMotion,
    /// Index into the filtered options.
    pub highlighted: usize,
}

impl Combobox {
    /// The options the current query keeps.
    pub open spec fn filtered_spec(&self) -> Seq<ComboboxOption> {
        filtered(self.options@, self.query@)
    }

    /// An empty, enabled combobox.
    pub fn new() -> (c: Self)
        ensures
            c.options@.len() == 0,
            c.value is None,
            c.query@.len() == 0,
            c.placeholder@ == "Select or type"@,
            !c.disabled && !c.freeform,
            c.motion == (PopupMotion { open: false, closing: false, motion_epoch: 0 }),
            c.highlighted == 0,
    {
        Combobox {
            options: Vec::new(),
            value: None,
            query: String::new(),
            placeholder: String::from_str("Select or type"),
            disabled: false,
            freeform: false,
            motion: PopupMotion::new(),
            highlighted: 0,
        }
    }

    pub fn options(self, options: Vec<ComboboxOption>) -> (c: Self)
        ensures
            c.options == options,
            c.value == self.value && c.query == self.query && c.placeholder == self.placeholder,
            c.disabled == self.disabled && c.freeform == self.freeform,
            c.motion == self.motion && c.highlighted == self.highlighted,
    {
        Combobox { options, ..self }
    }

    /// Add an option at the end.
    pub fn option(self, value: String, label: String) -> (c: Self)
        ensures
            c.options@ == self.options@.push(ChoiceOption { value, label }),
            c.value == self.value && c.query == self.query && c.placeholder == self.placeholder,
            c.disabled == self.disabled && c.freeform == self.freeform,
            c.motion == self.motion && c.highlighted == self.highlighted,
    {
        let mut c = self;
        c.options.push(ChoiceOption::new(value, label));
        c
    }

    /// Select a value; the query shows its option's label, or the value
    /// itself when no option has it.
    pub fn selected(self, value: String) -> (c: Self)
        ensures
            c.value == Some(value),
            c.query@ == match find_label(self.options@, value@) {
                Some(l) => l,
                None => value@,
            },
            c.options == self.options && c.placeholder == self.placeholder,
            c.disabled == self.disabled && c.freeform == self.freeform,
            c.motion == self.motion && c.highlighted == self.highlighted,
    {
        let query = match label_of(&self.options, &value) {
            Some(l) => l,
            None => value.clone(),
        };
        Combobox { query, value: Some(value), ..self }
    }

    pub fn placeholder(self, placeholder: String) -> (c: Self)
        ensures
            c.placeholder == placeholder,
            c.options == self.options && c.value == self.value && c.query == self.query,
            c.disabled == self.disabled && c.freeform == self.freeform,
            c.motion == self.motion && c.highlighted == self.highlighted,
    {
        Combobox { placeholder, ..self }
    }

    pub fn disabled(self, disabled: bool) -> (c: Self)
        ensures
            c.disabled == disabled,
            c.options == self.options && c.value == self.value && c.query == self.query,
            c.placeholder == self.placeholder && c.freeform == self.freeform,
            c.motion == self.motion && c.highlighted == self.highlighted,
    {
        Combobox { disabled, ..self }
    }

    pub fn freeform(self, freeform: bool) -> (c: Self)
        ensures
            c.freeform == freeform,
            c.options == self.options && c.value == self.value && c.query == self.query,
            c.placeholder == self.placeholder && c.disabled == self.disabled,
            c.motion == self.motion && c.highlighted == self.highlighted,
    {
        Combobox { freeform, ..self }
    }

    pub fn query(self, query: String) -> (c: Self)
        ensures
            c.query == query,
            c.options == self.options && c.value == self.value && c.freeform == self.freeform,
            c.placeholder == self.placeholder && c.disabled == self.disabled,
            c.motion == self.motion && c.highlighted == self.highlighted,
    {
        Combobox { query, ..self }
    }

    pub fn selected_value(&self) -> (v: Option<&String>)
        ensures
            v == match self.value {
                Some(s) => Some(&s),
                None => None,
            },
    {
        self.value.as_ref()
    }

    /// The options the query keeps: all for an empty query, else those whose
    /// lower-cased label contains the lower-cased query.
    pub fn filtered_options(&self) -> (r: Vec<ComboboxOption>)
        ensures
            r@ == self.filtered_spec(),
    {
        filter_options(&self.options, &self.query)
    }

    /// The pointer moved over result `idx` of the open list: it becomes the
    /// highlighted one (nothing happens while the list closes). Returns
    /// whether the highlight changed, to redraw.
    pub fn hover_option(&mut self, idx: usize) -> (changed: bool)
        ensures
            changed == (!old(self).motion.closing && old(self).highlighted != idx),
            *final(self) == (Combobox {
                highlighted: if old(self).motion.closing { old(self).highlighted } else { idx },
                ..*old(self)
            }),
    {
        if self.motion.closing || self.highlighted == idx {
            return false;
        }
        self.highlighted = idx;
        true
    }

    /// Before the list is drawn: a highlight at or past the end of the
    /// results (or of one empty row) goes back to the first result.
    pub fn clamp_highlight(&mut self)
        ensures
            *final(self) == (Combobox {
                highlighted: if old(self).highlighted >= (if old(self).filtered_spec().len() > 1 {
                    old(self).filtered_spec().len()
                } else {
                    1
                }) {
                    0
                } else {
                    old(self).highlighted
                },
                ..*old(self)
            }),
    {
        let n = self.filtered_options().len();
        let limit = if n > 1 {
            n
        } else {
            1
        };
        if self.highlighted >= limit {
            self.highlighted = 0;
        }
    }

    /// Open the list (a settled open list keeps its epoch).
    pub fn open_popup(&mut self)
        ensures
            final(self).motion == after_open_if_needed(old(self).motion),
            final(self).options == old(self).options && final(self).value == old(self).value,
            final(self).query == old(self).query && final(self).highlighted == old(self).highlighted,
            final(self).disabled == old(self).disabled && final(self).freeform == old(self).freeform,
            final(self).placeholder == old(self).placeholder,
    {
        self.motion.open_if_needed();
    }

    /// Start closing the list; the epoch to arm the removal timer with.
    pub fn close_popup(&mut self) -> (timer: Option<u64>)
        ensures
            final(self).motion == after_begin_close(old(self).motion),
            timer == close_timer(old(self).motion),
            final(self).options == old(self).options && final(self).value == old(self).value,
            final(self).query == old(self).query && final(self).highlighted == old(self).highlighted,
            final(self).disabled == old(self).disabled && final(self).freeform == old(self).freeform,
            final(self).placeholder == old(self).placeholder,
    {
        self.motion.begin_close()
    }

    /// The removal timer armed with `epoch` ran out.
    pub fn finish_close(&mut self, epoch: u64) -> (removed: bool)
        ensures
            final(self).motion == after_timer(old(self).motion, epoch),
            removed == (epoch == old(self).motion.motion_epoch && old(self).motion.closing),
            final(self).options == old(self).options && final(self).value == old(self).value,
            final(self).query == old(self).query && final(self).highlighted == old(self).highlighted,
    {
        self.motion.finish_close(epoch)
    }

    /// Choose an option: its value becomes the selection and its label the
    /// query, and the list starts closing. Returns the removal timer's epoch.
    pub fn select_option(&mut self, option: ComboboxOption) -> (timer: Option<u64>)
        ensures
            final(self).value == Some(option.value),
            final(self).query == option.label,
            final(self).highlighted == 0,
            final(self).motion == after_begin_close(old(self).motion),
            timer == close_timer(old(self).motion),
            final(self).options == old(self).options,
            final(self).disabled == old(self).disabled && final(self).freeform == old(self).freeform,
            final(self).placeholder == old(self).placeholder,
    {
        self.value = Some(option.value);
        self.query = option.label;
        self.highlighted = 0;
        self.close_popup()
    }

    /// Enter with nothing highlighted: a free-form combobox with a query
    /// takes the query as its value; the list starts closing either way.
    /// Returns the value to report, if one was taken, and the timer's epoch.
    pub fn commit_freeform(&mut self) -> (r: (Option<String>, Option<u64>))
        ensures
            final(self).motion == after_begin_close(old(self).motion),
            r.1 == close_timer(old(self).motion),
            (!old(self).freeform || old(self).query@.len() == 0) ==> r.0 is None && final(self).value
                == old(self).value && final(self).highlighted == old(self).highlighted,
            (old(self).freeform && old(self).query@.len() > 0) ==> (r.0 matches Some(v) && v
                == old(self).query && final(self).value == Some(v) && final(self).highlighted
                == 0),
            final(self).query == old(self).query && final(self).options == old(self).options,
            final(self).disabled == old(self).disabled && final(self).freeform == old(self).freeform,
            final(self).placeholder == old(self).placeholder,
    {
        if !self.freeform || self.query.as_str().unicode_len() == 0 {
            let t = self.close_popup();
            return (None, t);
        }
        let value = self.query.clone();
        self.value = Some(value.clone());
        self.highlighted = 0;
        let t = self.close_popup();
        (Some(value), t)
    }

    /// A press on the field: opens the list unless disabled or closing.
    /// Returns whether it did (the host then focuses the field).
    pub fn on_mouse_down(&mut self) -> (opened: bool)
        ensures
            opened == !(old(self).disabled || old(self).motion.closing),
            final(self).motion == if opened {
                after_open_if_needed(old(self).motion)
            } else {
                old(self).motion
            },
            final(self).options == old(self).options && final(self).value == old(self).value,
            final(self).query == old(self).query && final(self).highlighted == old(self).highlighted,
    {
        if self.disabled || self.motion.closing {
            return false;
        }
        self.open_popup();
        true
    }

    /// React to a key (Tab is the host's, for focus navigation).
    pub fn handle_key(&mut self, key: &str) -> (out: ComboboxKeyOutcome)
        ensures
            final(self).options == old(self).options,
            final(self).disabled == old(self).disabled && final(self).freeform == old(self).freeform,
            final(self).placeholder == old(self).placeholder,
            (old(self).disabled || old(self).motion.closing) ==> out is Ignored && final(self).value
                == old(self).value && final(self).query == old(self).query && final(self).motion
                == old(self).motion && final(self).highlighted == old(self).highlighted,
            !(old(self).disabled || old(self).motion.closing) ==> key_effect(*old(self), *final(self), key@, out),
    {
        if self.disabled || self.motion.closing {
            return ComboboxKeyOutcome::Ignored;
        }
        match NavKey::parse(key) {
            NavKey::Backspace => {
                pop_char(&mut self.query);
                self.open_popup();
                self.highlighted = 0;
                ComboboxKeyOutcome::Changed
            },
            NavKey::Escape => {
                let t = self.close_popup();
                ComboboxKeyOutcome::Closed { close_timer: t }
            },
            NavKey::Down => {
                let len = self.filtered_options().len();
                if len > 0 {
                    self.open_popup();
                    self.highlighted = if self.highlighted < len - 1 {
                        self.highlighted + 1
                    } else {
                        len - 1
                    };
                }
                ComboboxKeyOutcome::Changed
            },
            NavKey::Up => {
                if self.filtered_options().len() == 0 {
                    return ComboboxKeyOutcome::Ignored;
                }
                self.open_popup();
                self.highlighted = if self.highlighted > 0 {
                    self.highlighted - 1
                } else {
                    0
                };
                ComboboxKeyOutcome::Changed
            },
            NavKey::Enter => {
                let filtered = self.filtered_options();
                if self.highlighted < filtered.len() {
                    let option = filtered[self.highlighted].clone();
                    let value = option.value.clone();
                    let t = self.select_option(option);
                    return ComboboxKeyOutcome::Selected { value, close_timer: t };
                }
                let (v, t) = self.commit_freeform();
                match v {
                    Some(value) => ComboboxKeyOutcome::Selected { value, close_timer: t },
                    None => ComboboxKeyOutcome::Closed { close_timer: t },
                }
            },
            _ => {
                if is_single_char(key) {
                    self.query.append(key);
                    self.open_popup();
                    self.highlighted = 0;
                    ComboboxKeyOutcome::Changed
                } else {
                    ComboboxKeyOutcome::Ignored
                }
            },
        }
    }
}

/// What a key does to an enabled combobox that is not closing, from state
/// `a` to state `b`, with outcome `out`.
pub open spec fn key_effect(a: Combobox, b: Combobox, key: Seq<char>, out: ComboboxKeyOutcome) -> bool {
    let f = a.filtered_spec();
    match nav_key_of(key) {
        NavKey::Backspace => {
            &&& b.query@ == without_last(a.query@)
            &&& b.motion == after_open_if_needed(a.motion)
            &&& b.highlighted == 0
            &&& b.value == a.value
            &&& out is Changed
        },
        NavKey::Escape => {
            &&& b.motion == after_begin_close(a.motion)
            &&& b.query == a.query && b.value == a.value && b.highlighted == a.highlighted
            &&& out == (ComboboxKeyOutcome::Closed { close_timer: close_timer(a.motion) })
        },
        NavKey::Down => {
            &&& b.query == a.query && b.value == a.value
            &&& out is Changed
            &&& if f.len() > 0 {
                &&& b.motion == after_open_if_needed(a.motion)
                &&& b.highlighted == if a.highlighted < f.len() - 1 {
                    a.highlighted + 1
                } else {
                    f.len() - 1
                }
            } else {
                b.motion == a.motion && b.highlighted == a.highlighted
            }
        },
        NavKey::Up => {
            &&& b.query == a.query && b.value == a.value
            &&& if f.len() > 0 {
                &&& b.motion == after_open_if_needed(a.motion)
                &&& b.highlighted == if a.highlighted > 0 {
                    a.highlighted - 1
                } else {
                    0
                }
                &&& out is Changed
            } else {
                b.motion == a.motion && b.highlighted == a.highlighted && out is Ignored
            }
        },
        NavKey::Enter => {
            &&& b.motion == after_begin_close(a.motion)
            &&& if a.highlighted < f.len() {
                &&& b.value == Some(f[a.highlighted as int].value)
                &&& b.query == f[a.highlighted as int].label
                &&& b.highlighted == 0
                &&& out == (ComboboxKeyOutcome::Selected {
                    value: f[a.highlighted as int].value,
                    close_timer: close_timer(a.motion),
                })
            } else if a.freeform && a.query@.len() > 0 {
                &&& b.value == Some(a.query)
                &&& b.query == a.query
                &&& b.highlighted == 0
                &&& out == (ComboboxKeyOutcome::Selected { value: a.query, close_timer: close_timer(a.motion) })
            } else {
                &&& b.value == a.value && b.query == a.query && b.highlighted == a.highlighted
                &&& out == (ComboboxKeyOutcome::Closed { close_timer: close_timer(a.motion) })
            }
        },
        _ => if key.len() == 1 {
            &&& b.query@ == a.query@ + key
            &&& b.motion == after_open_if_needed(a.motion)
            &&& b.highlighted == 0
            &&& b.value == a.value
            &&& out is Changed
        } else {
            &&& b.query == a.query && b.value == a.value && b.motion == a.motion
            &&& b.highlighted == a.highlighted
            &&& out is Ignored
        },
    }
}

} // verus!
