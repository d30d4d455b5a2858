//! Open/close motion shared by every popup surface (dropdowns, comboboxes,
//! context menus, menu bars and menu buttons).
//!
//! Closing is animated: a popup that starts closing stays mounted while its
//! exit animation runs. Each transition bumps the motion epoch; the renderer
//! arms a timer for the exit duration and reports back with the epoch it was
//! armed with. Only a timer whose epoch is still current removes the popup,
//! so reopening during the exit animation cancels the stale timer.

use vstd::prelude::*;

verus! {

/// The epoch after `e`, wrapping at the top of the range.
pub open spec fn next_epoch(e: u64) -> u64 {
    if e == u64::MAX {
        0
    } else {
        (e + 1) as u64
    }
}

/// The visible state of a popup.
#[derive(Clone, Copy, Debug, PartialEq, Eq)]
pub struct PopupMotion {
    /// The popup is mounted (possibly animating out).
    pub open: bool,
    /// The exit animation is running.
    pub closing: bool,
    /// Bumped by every open and every close; identifies the current timer.
    pub motion_epoch: u64,
}

/// A closing popup is always still open.
pub open spec fn motion_wf(m: PopupMotion) -> bool {
    m.closing ==> m.open
}

/// The state after opening: mounted, settled, new epoch.
pub open spec fn after_open(m: PopupMotion) -> PopupMotion {
    PopupMotion { open: true, closing: false, motion_epoch: next_epoch(m.motion_epoch) }
}

/// The state after opening without restarting a settled popup: a closed or
/// closing popup opens in a new epoch; an open, settled one is unchanged.
pub open spec fn after_open_if_needed(m: PopupMotion) -> PopupMotion {
    if !m.open || m.closing {
        after_open(m)
    } else {
        m
    }
}

/// The state after asking to close: an open, settled popup starts its exit
/// animation in a new epoch; otherwise nothing changes.
pub open spec fn after_begin_close(m: PopupMotion) -> PopupMotion {
    if m.open && !m.closing {
        PopupMotion { open: true, closing: true, motion_epoch: next_epoch(m.motion_epoch) }
    } else {
        m
    }
}

/// The state after the removal timer armed with `epoch` runs out.
pub open spec fn after_timer(m: PopupMotion, epoch: u64) -> PopupMotion {
    if epoch == m.motion_epoch && m.closing {
        PopupMotion { open: false, closing: false, motion_epoch: m.motion_epoch }
    } else {
        m
    }
}

impl PopupMotion {
    /// A closed popup at epoch zero.
    pub fn new() -> (m: Self)
        ensures
            m == (PopupMotion { open: false, closing: false, motion_epoch: 0 }),
    {
        PopupMotion { open: false, closing: false, motion_epoch: 0 }
    }

    /// An open popup at epoch zero.
    pub fn opened() -> (m: Self)
        ensures
            m == (PopupMotion { open: true, closing: false, motion_epoch: 0 }),
    {
        PopupMotion { open: true, closing: false, motion_epoch: 0 }
    }

    /// Whether the popup is open and not animating out.
    pub fn is_active(&self) -> (b: bool)
        ensures
            b == (self.open && !self.closing),
    {
        self.open && !self.closing
    }

    /// Open (or reopen) the popup, starting a new motion epoch.
    pub fn open(&mut self)
        ensures
            *final(self) == after_open(*old(self)),
    {
        self.open = true;
        self.closing = false;
        self.motion_epoch = self.motion_epoch.wrapping_add(1);
    }

    /// Open the popup; a new epoch starts only when it was not already open
    /// and settled, so an open popup keeps its entrance animation.
    pub fn open_if_needed(&mut self)
        ensures
            *final(self) == after_open_if_needed(*old(self)),
            final(self).open,
            !final(self).closing,
            final(self).motion_epoch == if !old(self).open || old(self).closing {
                next_epoch(old(self).motion_epoch)
            } else {
                old(self).motion_epoch
            },
    {
        if !self.open || self.closing {
            self.motion_epoch = self.motion_epoch.wrapping_add(1);
        }
        self.open = true;
        self.closing = false;
    }

    /// Start the exit animation. Returns the epoch to arm the removal timer
    /// with, or `None` when the popup is closed or already closing (nothing
    /// changes then).
    pub fn begin_close(&mut self) -> (armed: Option<u64>)
        ensures
            *final(self) == after_begin_close(*old(self)),
            armed == if old(self).open && !old(self).closing {
                Some(final(self).motion_epoch)
            } else {
                None::<u64>
            },
    {
        if !self.open || self.closing {
            return None;
        }
        self.closing = true;
        self.motion_epoch = self.motion_epoch.wrapping_add(1);
        Some(self.motion_epoch)
    }

    /// The removal timer armed with `epoch` has run out. The popup is removed
    /// only when that epoch is still current and the popup is still closing;
    /// returns whether it was removed.
    pub fn finish_close(&mut self, epoch: u64) -> (removed: bool)
        ensures
            removed == (epoch == old(self).motion_epoch && old(self).closing),
            *final(self) == after_timer(*old(self), epoch),
    {
        if self.motion_epoch == epoch && self.closing {
            self.open = false;
            self.closing = false;
            true
        } else {
            false
        }
    }
}

/// Every transition keeps a closing popup open.
pub proof fn lemma_transitions_keep_wf(m: PopupMotion, e: u64)
    requires
        motion_wf(m),
    ensures
        motion_wf(after_open(m)),
        motion_wf(after_begin_close(m)),
        motion_wf(after_timer(m, e)),
{
}

/// Closing an open popup and letting the timer it armed run out removes it;
/// before the timer runs out the popup stays mounted.
pub proof fn lemma_close_then_timer_removes(m: PopupMotion)
    requires
        m.open,
        !m.closing,
    ensures
        after_begin_close(m).open,
        after_begin_close(m).closing,
        !after_timer(after_begin_close(m), after_begin_close(m).motion_epoch).open,
        !after_timer(after_begin_close(m), after_begin_close(m).motion_epoch).closing,
{
}

/// Reopening a closing popup cancels its removal: the timer armed by the
/// close finds a stale epoch and leaves the popup open and settled.
pub proof fn lemma_reopen_cancels_timer(m: PopupMotion)
    requires
        m.open,
        !m.closing,
    ensures
        ({
            let closing = after_begin_close(m);
            let reopened = after_open(closing);
            let fired = after_timer(reopened, closing.motion_epoch);
            fired.open && !fired.closing && fired == reopened
        }),
{
}

/// A timer that fires while the popup is settled (not closing) changes
/// nothing.
pub proof fn lemma_timer_needs_closing(m: PopupMotion, e: u64)
    requires
        !m.closing,
    ensures
        after_timer(m, e) == m,
{
}

} // verus!
