//! A dropdown: a trigger showing the selected option's label and a popup
//! list to choose another from.

use vstd::prelude::*;
use vstd::string::*;
use crate::choice::{find_label, label_of, ChoiceOption};
use crate::popup::{after_begin_close, after_open, after_timer, PopupMotion};

verus! {

pub type DropdownOption = ChoiceOption;

/// The label a dropdown shows: the selected option's, the selected value
/// itself when no option has it, or the placeholder.
pub open spec fn shown_label(d: Dropdown) -> Seq<char> {
    match d.selected {
        None => d.placeholder@,
        Some(v) => match find_label(d.options@, v@) {
            Some(l) => l,
            None => v@,
        },
    }
}

/// A dropdown's state.
#[derive(Debug)]
pub struct Dropdown {
    pub id: String,
    pub selected: Option<String>,
    pub placeholder: String,
    pub disabled: bool,
    pub options: Vec<DropdownOption>,
    pub motion: PopupMotion,
}

impl Dropdown {
    /// An enabled dropdown with no options, nothing selected, closed.
    pub fn new(id: String) -> (d: Self)
        ensures
            d.id == id,
            d.selected is None,
            d.placeholder@ == "Select..."@,
            !d.disabled,
            d.options@.len() == 0,
            d.motion == (PopupMotion { open: false, closing: false, motion_epoch: 0 }),
    {
        Dropdown {
            id,
            selected: None,
            placeholder: String::from_str("Select..."),
            disabled: false,
            options: Vec::new(),
            motion: PopupMotion::new(),
        }
    }

    pub fn selected(self, value: String) -> (d: Self)
        ensures
            d.selected == Some(value),
            d.id == self.id && d.placeholder == self.placeholder && d.disabled == self.disabled,
            d.options == self.options && d.motion == self.motion,
    {
        Dropdown { selected: Some(value), ..self }
    }

    pub fn placeholder(self, text: String) -> (d: Self)
        ensures
            d.placeholder == text,
            d.id == self.id && d.selected == self.selected && d.disabled == self.disabled,
            d.options == self.options && d.motion == self.motion,
    {
        Dropdown { placeholder: text, ..self }
    }

    pub fn disabled(self, disabled: bool) -> (d: Self)
        ensures
            d.disabled == disabled,
            d.id == self.id && d.selected == self.selected && d.placeholder == self.placeholder,
            d.options == self.options && d.motion == self.motion,
    {
        Dropdown { disabled, ..self }
    }

    /// Add an option at the end.
    pub fn option(self, value: String, label: String) -> (d: Self)
        ensures
            d.options@ == self.options@.push(ChoiceOption { value, label }),
            d.id == self.id && d.selected == self.selected && d.placeholder == self.placeholder,
            d.disabled == self.disabled && d.motion == self.motion,
    {
        let mut d = self;
        d.options.push(ChoiceOption::new(value, label));
        d
    }

    /// Replace the options.
    pub fn options(self, options: Vec<DropdownOption>) -> (d: Self)
        ensures
            d.options == options,
            d.id == self.id && d.selected == self.selected && d.placeholder == self.placeholder,
            d.disabled == self.disabled && d.motion == self.motion,
    {
        Dropdown { options, ..self }
    }

    pub fn set_selected(&mut self, value: String)
        ensures
            final(self).selected == Some(value),
            final(self).options == old(self).options,
            final(self).placeholder == old(self).placeholder,
            final(self).disabled == old(self).disabled,
            final(self).motion == old(self).motion,
            final(self).id == old(self).id,
    {
        self.selected = Some(value);
    }

    pub fn selected_value(&self) -> (v: Option<&String>)
        ensures
            v == match self.selected {
                Some(s) => Some(&s),
                None => None,
            },
    {
        self.selected.as_ref()
    }

    pub fn set_options(&mut self, options: Vec<DropdownOption>)
        ensures
            final(self).options == options,
            final(self).selected == old(self).selected,
            final(self).placeholder == old(self).placeholder,
            final(self).disabled == old(self).disabled,
            final(self).motion == old(self).motion,
            final(self).id == old(self).id,
    {
        self.options = options;
    }

    /// The text the trigger shows (see [`shown_label`]).
    pub fn selected_label(&self) -> (l: String)
        ensures
            l@ == shown_label(*self),
    {
        match &self.selected {
            None => self.placeholder.clone(),
            Some(v) => match label_of(&self.options, v) {
                Some(l) => l,
                None => v.clone(),
            },
        }
    }

    /// Open the list, starting its entrance animation.
    pub fn open_popup(&mut self)
        ensures
            final(self).motion == after_open(old(self).motion),
            final(self).selected == old(self).selected,
            final(self).options == old(self).options,
            final(self).disabled == old(self).disabled,
    {
        self.motion.open();
    }

    /// Start closing the list; the epoch to arm the removal timer with, if
    /// it was open and settled.
    pub fn close_popup(&mut self) -> (timer: Option<u64>)
        ensures
            final(self).motion == after_begin_close(old(self).motion),
            timer == if old(self).motion.open && !old(self).motion.closing {
                Some(final(self).motion.motion_epoch)
            } else {
                None::<u64>
            },
            final(self).selected == old(self).selected,
            final(self).options == old(self).options,
            final(self).disabled == old(self).disabled,
    {
        self.motion.begin_close()
    }

    /// The removal timer armed with `epoch` ran out.
    pub fn finish_close(&mut self, epoch: u64) -> (removed: bool)
        ensures
            final(self).motion == after_timer(old(self).motion, epoch),
            removed == (epoch == old(self).motion.motion_epoch && old(self).motion.closing),
            final(self).selected == old(self).selected,
            final(self).options == old(self).options,
    {
        self.motion.finish_close(epoch)
    }

    /// A click on the trigger: an open list starts closing, a closed one
    /// opens; a disabled dropdown or a list already closing ignores it.
    /// Returns the epoch to arm the removal timer with, when closing.
    pub fn click_trigger(&mut self) -> (timer: Option<u64>)
        ensures
            final(self).motion == if old(self).disabled {
                old(self).motion
            } else if old(self).motion.open && !old(self).motion.closing {
                after_begin_close(old(self).motion)
            } else if !old(self).motion.open {
                after_open(old(self).motion)
            } else {
                old(self).motion
            },
            timer == if !old(self).disabled && old(self).motion.open && !old(self).motion.closing {
                Some(final(self).motion.motion_epoch)
            } else {
                None::<u64>
            },
            final(self).selected == old(self).selected,
            final(self).options == old(self).options,
            final(self).disabled == old(self).disabled,
    {
        if self.disabled {
            return None;
        }
        if self.motion.open && !self.motion.closing {
            self.close_popup()
        } else {
            if !self.motion.open {
                self.open_popup();
            }
            None
        }
    }

    /// A click on option `index` of the list: selects it and starts closing,
    /// unless the list is already closing. Returns the value to report and
    /// the epoch to arm the removal timer with.
    pub fn select_index(&mut self, index: usize) -> (r: Option<(String, Option<u64>)>)
        requires
            index < old(self).options@.len(),
        ensures
            old(self).motion.closing ==> r is None && final(self).motion == old(self).motion
                && final(self).selected == old(self).selected,
            !old(self).motion.closing ==> (r matches Some(p) && p.0 == old(self).options@[index as int].value
                && final(self).selected == Some(p.0)
                && final(self).motion == after_begin_close(old(self).motion)
                && p.1 == if old(self).motion.open {
                    Some(final(self).motion.motion_epoch)
                } else {
                    None::<u64>
                }),
            final(self).options == old(self).options,
            final(self).disabled == old(self).disabled,
    {
        if self.motion.closing {
            return None;
        }
        let value = self.options[index].value.clone();
        self.selected = Some(value.clone());
        let timer = self.close_popup();
        Some((value, timer))
    }
}

} // verus!
