//! Transient notifications: a bounded stack of toasts keyed by id. A toast
//! pushed with an id already shown replaces the old one; when the stack is
//! full the oldest toasts are dropped. Auto-dismissal is driven by a timer
//! the renderer arms with the toast's timeout and the epoch of the push; when
//! it runs out, the toast goes only if that push is still the one shown, so
//! each push stays its own timeout.

use vstd::prelude::*;
use crate::message_bar::MessageIntent;
use crate::popup::next_epoch;

verus! {

/// Where toasts are stacked in the window.
#[derive(Clone, Copy, Debug, PartialEq, Eq)]
pub enum ToastPlacement {
    TopStart,
    TopCenter,
    TopEnd,
    BottomStart,
    BottomCenter,
    BottomEnd,
}

impl Default for ToastPlacement {
    fn default() -> (p: Self)
        ensures
            p == ToastPlacement::TopEnd,
    {
        ToastPlacement::TopEnd
    }
}

/// One notification. `timeout_ms` is how long it stays before it dismisses
/// itself; `None` keeps it until dismissed.
#[derive(Debug)]
pub struct Toast {
    pub id: String,
    pub intent: MessageIntent,
    pub title: Option<String>,
    pub message: String,
    pub timeout_ms: Option<u64>,
    /// The push that showed it; the stack sets it.
    pub epoch: u64,
}

/// The dismissal timer a push asks for: after `timeout_ms`, expire the
/// toast shown by the push with this epoch.
#[derive(Clone, Copy, Debug, PartialEq, Eq, Structural)]
pub struct ToastTimer {
    pub timeout_ms: u64,
    pub epoch: u64,
}

impl Toast {
    /// An informational toast that dismisses itself after five seconds.
    pub fn new(id: String, message: String) -> (t: Self)
        ensures
            t.id == id,
            t.message == message,
            t.intent == MessageIntent::Info,
            t.title is None,
            t.timeout_ms == Some(5000u64),
            t.epoch == 0,
    {
        Toast { id, intent: MessageIntent::Info, title: None, message, timeout_ms: Some(5000), epoch: 0 }
    }

    pub fn intent(self, intent: MessageIntent) -> (t: Self)
        ensures
            t.intent == intent,
            t.id == self.id,
            t.title == self.title,
            t.message == self.message,
            t.timeout_ms == self.timeout_ms,
            t.epoch == self.epoch,
    {
        Toast { intent, ..self }
    }

    pub fn title(self, title: String) -> (t: Self)
        ensures
            t.title == Some(title),
            t.id == self.id,
            t.intent == self.intent,
            t.message == self.message,
            t.timeout_ms == self.timeout_ms,
            t.epoch == self.epoch,
    {
        Toast { title: Some(title), ..self }
    }

    pub fn timeout(self, timeout_ms: Option<u64>) -> (t: Self)
        ensures
            t.timeout_ms == timeout_ms,
            t.id == self.id,
            t.intent == self.intent,
            t.title == self.title,
            t.message == self.message,
            t.epoch == self.epoch,
    {
        Toast { timeout_ms, ..self }
    }

    /// Keep the toast until it is dismissed.
    pub fn persistent(self) -> (t: Self)
        ensures
            t.timeout_ms is None,
            t.id == self.id,
            t.intent == self.intent,
            t.title == self.title,
            t.message == self.message,
            t.epoch == self.epoch,
    {
        Toast { timeout_ms: None, ..self }
    }
}

/// The toasts whose id is not `id`, in order.
pub open spec fn without_id(entries: Seq<Toast>, id: Seq<char>) -> Seq<Toast>
    decreases entries.len(),
{
    if entries.len() == 0 {
        entries
    } else {
        let rest = without_id(entries.drop_last(), id);
        if entries.last().id@ != id {
            rest.push(entries.last())
        } else {
            rest
        }
    }
}

/// Every toast kept by [`without_id`] comes from the original entries.
proof fn lemma_without_id_from(entries: Seq<Toast>, id: Seq<char>, k: int)
    requires
        0 <= k < without_id(entries, id).len(),
    ensures
        exists|m: int| 0 <= m < entries.len() && entries[m] == without_id(entries, id)[k],
        without_id(entries, id)[k].id@ != id,
    decreases entries.len(),
{
    let rest = without_id(entries.drop_last(), id);
    if entries.len() > 0 {
        if k < rest.len() {
            lemma_without_id_from(entries.drop_last(), id, k);
            let m = choose|m: int| 0 <= m < entries.drop_last().len() && entries.drop_last()[m] == rest[k];
            assert(entries[m] == rest[k]);
        } else {
            assert(entries[entries.len() - 1] == entries.last());
        }
    }
}

/// Removing toasts never lengthens the sequence.
proof fn lemma_without_id_len(entries: Seq<Toast>, id: Seq<char>)
    ensures
        without_id(entries, id).len() <= entries.len(),
    decreases entries.len(),
{
    if entries.len() > 0 {
        lemma_without_id_len(entries.drop_last(), id);
    }
}

/// No two toasts share an id.
pub open spec fn ids_unique(entries: Seq<Toast>) -> bool {
    forall|i: int, j: int|
        0 <= i < j < entries.len() ==> #[trigger] entries[i].id@ != #[trigger] entries[j].id@
}

/// The entries after pushing `t` onto `entries` with room for `max`.
pub open spec fn pushed(entries: Seq<Toast>, t: Toast, max: int) -> Seq<Toast> {
    let grown = without_id(entries, t.id@).push(t);
    if grown.len() > max {
        grown.skip(grown.len() - max)
    } else {
        grown
    }
}

/// The toast `t` as shown by the push with epoch `e`.
pub open spec fn stamped(t: Toast, e: u64) -> Toast {
    Toast { epoch: e, ..t }
}

/// The push with epoch `epoch` of the toast `id` is still the one shown.
pub open spec fn shown_by(entries: Seq<Toast>, id: Seq<char>, epoch: u64) -> bool {
    exists|i: int| 0 <= i < entries.len() && #[trigger] entries[i].id@ == id && entries[i].epoch == epoch
}

/// The entries after the timer of the push with epoch `epoch` of toast `id`
/// ran out: that toast goes if it is still the one that push showed.
pub open spec fn expired(entries: Seq<Toast>, id: Seq<char>, epoch: u64) -> Seq<Toast> {
    if shown_by(entries, id, epoch) {
        without_id(entries, id)
    } else {
        entries
    }
}

/// The stack of visible toasts, oldest first. `epoch` is that of the last
/// push.
#[derive(Debug)]
pub struct ToastStack {
    pub entries: Vec<Toast>,
    pub max_entries: usize,
    pub epoch: u64,
}

proof fn lemma_without_id_step(s: Seq<Toast>, id: Seq<char>, j: int)
    requires
        0 <= j < s.len(),
    ensures
        without_id(s.take(j + 1), id) == if s[j].id@ != id {
            without_id(s.take(j), id).push(s[j])
        } else {
            without_id(s.take(j), id)
        },
{
    assert(s.take(j + 1).drop_last() =~= s.take(j));
}

fn remove_id(entries: &mut Vec<Toast>, id: &String)
    ensures
        final(entries)@ == without_id(old(entries)@, id@),
{
    let ghost orig = entries@;
    let mut i: usize = 0;
    let ghost mut j: int = 0;
    proof {
        assert(orig.take(0) =~= Seq::<Toast>::empty());
        assert(entries@.skip(0) =~= orig.skip(0));
    }
    while i < entries.len()
        invariant
            0 <= j <= orig.len(),
            i <= entries@.len(),
            entries@.take(i as int) == without_id(orig.take(j), id@),
            entries@.skip(i as int) == orig.skip(j),
            entries@.len() - i == orig.len() - j,
        decreases entries@.len() - i,
    {
        proof {
            assert(orig[j] == entries@[i as int]) by {
                assert(orig.skip(j)[0] == entries@.skip(i as int)[0]);
            }
        }
        let same = entries[i].id == *id;
        proof {
            lemma_without_id_step(orig, id@, j);
            assert(same == (orig[j].id@ == id@));
            assert(same ==> without_id(orig.take(j + 1), id@) == without_id(orig.take(j), id@));
            assert(!same ==> without_id(orig.take(j + 1), id@) == without_id(orig.take(j), id@).push(orig[j]));
        }
        if same {
            let ghost before = entries@;
            entries.remove(i);
            proof {
                assert(entries@.take(i as int) =~= before.take(i as int));
                assert(entries@.skip(i as int) =~= before.skip(i as int + 1));
                assert(orig.skip(j + 1) =~= orig.skip(j).drop_first());
                assert(before.skip(i as int + 1) =~= before.skip(i as int).drop_first());
                j = j + 1;
            }
        } else {
            proof {
                assert(entries@.take(i as int + 1) =~= entries@.take(i as int).push(entries@[i as int]));
                assert(entries@.skip(i as int + 1) =~= entries@.skip(i as int).drop_first());
                assert(orig.skip(j + 1) =~= orig.skip(j).drop_first());
                j = j + 1;
            }
            i = i + 1;
        }
    }
    proof {
        assert(j == orig.len());
        assert(orig.take(j) =~= orig);
        assert(entries@.take(i as int) =~= entries@);
    }
}

fn drop_oldest(entries: &mut Vec<Toast>, max: usize)
    ensures
        final(entries)@ == if old(entries)@.len() > max {
            old(entries)@.skip(old(entries)@.len() - max)
        } else {
            old(entries)@
        },
{
    let ghost orig = entries@;
    if entries.len() <= max {
        return;
    }
    let overflow = entries.len() - max;
    let mut k: usize = 0;
    assert(orig.skip(0) =~= orig);
    while k < overflow
        invariant
            overflow == orig.len() - max,
            k <= overflow,
            entries@ == orig.skip(k as int),
        decreases overflow - k,
    {
        entries.remove(0);
        k = k + 1;
        assert(entries@ =~= orig.skip(k as int));
    }
}

/// Removing an id keeps ids unique and leaves no toast with that id.
pub proof fn lemma_without_id_unique(entries: Seq<Toast>, id: Seq<char>)
    requires
        ids_unique(entries),
    ensures
        ids_unique(without_id(entries, id)),
        forall|i: int| 0 <= i < without_id(entries, id).len() ==> #[trigger] without_id(entries, id)[i].id@ != id,
    decreases entries.len(),
{
    let out = without_id(entries, id);
    assert forall|i: int| 0 <= i < out.len() implies #[trigger] out[i].id@ != id by {
        lemma_without_id_from(entries, id, i);
    }
    if entries.len() > 0 {
        let rest = entries.drop_last();
        assert(ids_unique(rest));
        lemma_without_id_unique(rest, id);
        let sub = without_id(rest, id);
        if entries.last().id@ != id {
            assert(out == sub.push(entries.last()));
            assert forall|i: int, j: int| 0 <= i < j < out.len() implies #[trigger] out[i].id@ != #[trigger] out[j].id@ by {
                if j == out.len() - 1 {
                    assert(sub[i] == out[i]);
                    lemma_without_id_from(rest, id, i);
                    let k = choose|k: int| 0 <= k < rest.len() && rest[k] == sub[i];
                    assert(entries[k] == rest[k]);
                    assert(entries[entries.len() - 1] == entries.last());
                } else {
                    assert(sub[i] == out[i]);
                    assert(sub[j] == out[j]);
                }
            }
        }
    }
}

/// A pushed stack keeps ids unique, keeps the pushed toast on top, holds a
/// single toast with its id and never exceeds its capacity.
pub proof fn lemma_push_keeps_invariant(entries: Seq<Toast>, t: Toast, max: int)
    requires
        ids_unique(entries),
        max >= 1,
    ensures
        ids_unique(pushed(entries, t, max)),
        pushed(entries, t, max).len() <= max,
        pushed(entries, t, max).last() == t,
        forall|i: int|
            0 <= i < pushed(entries, t, max).len() - 1 ==> #[trigger] pushed(entries, t, max)[i].id@ != t.id@,
{
    lemma_without_id_unique(entries, t.id@);
    let grown = without_id(entries, t.id@).push(t);
    assert(ids_unique(grown));
}

/// Each push stays its own timeout: once a toast is shown by the push with
/// epoch `e`, the timer of any other push of the same id (an earlier one in
/// particular, since each push takes the epoch after the last) leaves the
/// stack as it is, while the timer of push `e` removes that toast.
pub proof fn lemma_only_latest_push_expires(entries: Seq<Toast>, t: Toast, e: u64, max: int, other: u64)
    requires
        ids_unique(entries),
        max >= 1,
        other != e,
    ensures
        next_epoch(e) != e,
        expired(pushed(entries, stamped(t, e), max), t.id@, other) == pushed(entries, stamped(t, e), max),
        expired(pushed(entries, stamped(t, e), max), t.id@, e) == without_id(pushed(entries, stamped(t, e), max), t.id@),
{
    let st = stamped(t, e);
    let p = pushed(entries, st, max);
    lemma_push_keeps_invariant(entries, st, max);
    assert(!shown_by(p, t.id@, other)) by {
        if shown_by(p, t.id@, other) {
            let i = choose|i: int| 0 <= i < p.len() && #[trigger] p[i].id@ == t.id@ && p[i].epoch == other;
            if i < p.len() - 1 {
                assert(p[i].id@ != st.id@);
            } else {
                assert(p[i] == p.last());
            }
        }
    }
    assert(p[p.len() - 1] == p.last());
    assert(shown_by(p, t.id@, e));
}

impl ToastStack {
    /// The stack's invariant: room for at least one toast, within capacity,
    /// ids unique.
    pub open spec fn wf(&self) -> bool {
        &&& self.max_entries >= 1
        &&& self.entries@.len() <= self.max_entries
        &&& ids_unique(self.entries@)
    }

    /// An empty stack with room for five toasts.
    pub fn init() -> (s: Self)
        ensures
            s.wf(),
            s.entries@.len() == 0,
            s.max_entries == 5,
            s.epoch == 0,
    {
        ToastStack { entries: Vec::new(), max_entries: 5, epoch: 0 }
    }

    /// Show a toast in a new epoch: an older toast with the same id is
    /// replaced, and the oldest toasts are dropped beyond capacity. Returns
    /// the dismissal timer to arm (the toast's own timeout and the push's
    /// epoch); none for a persistent toast.
    pub fn push(&mut self, toast: Toast) -> (timer: Option<ToastTimer>)
        requires
            old(self).wf(),
        ensures
            final(self).wf(),
            final(self).max_entries == old(self).max_entries,
            final(self).epoch == next_epoch(old(self).epoch),
            final(self).entries@ == pushed(
                old(self).entries@,
                stamped(toast, final(self).epoch),
                old(self).max_entries as int,
            ),
            timer == match toast.timeout_ms {
                Some(ms) => Some(ToastTimer { timeout_ms: ms, epoch: final(self).epoch }),
                None => None,
            },
    {
        let e = self.epoch.wrapping_add(1);
        self.epoch = e;
        let mut toast = toast;
        toast.epoch = e;
        let timer = match toast.timeout_ms {
            Some(ms) => Some(ToastTimer { timeout_ms: ms, epoch: e }),
            None => None,
        };
        let ghost t = toast;
        remove_id(&mut self.entries, &toast.id);
        self.entries.push(toast);
        let max = self.max_entries;
        drop_oldest(&mut self.entries, max);
        proof {
            lemma_push_keeps_invariant(old(self).entries@, t, max as int);
        }
        timer
    }

    /// The dismissal timer of the push with epoch `epoch` of toast `id` ran
    /// out: the toast goes if that push is still the one shown; a toast shown
    /// again since then stays for its own timeout.
    pub fn expire(&mut self, id: &String, epoch: u64)
        requires
            old(self).wf(),
        ensures
            final(self).wf(),
            final(self).max_entries == old(self).max_entries,
            final(self).epoch == old(self).epoch,
            final(self).entries@ == expired(old(self).entries@, id@, epoch),
    {
        let mut found = false;
        let mut i: usize = 0;
        while i < self.entries.len()
            invariant
                i <= self.entries@.len(),
                found == exists|k: int| 0 <= k < i && #[trigger] self.entries@[k].id@ == id@
                    && self.entries@[k].epoch == epoch,
            decreases self.entries@.len() - i,
        {
            if self.entries[i].id == *id && self.entries[i].epoch == epoch {
                found = true;
            }
            i = i + 1;
        }
        if found {
            self.dismiss(id);
        }
    }

    /// Change the capacity (at least one), dropping the oldest toasts that no
    /// longer fit.
    pub fn set_max_entries(&mut self, max_entries: usize)
        requires
            old(self).wf(),
        ensures
            final(self).wf(),
            final(self).epoch == old(self).epoch,
            final(self).max_entries == if max_entries < 1 { 1 } else { max_entries },
            final(self).entries@ == if old(self).entries@.len() > final(self).max_entries {
                old(self).entries@.skip(old(self).entries@.len() - final(self).max_entries)
            } else {
                old(self).entries@
            },
    {
        self.max_entries = if max_entries < 1 {
            1
        } else {
            max_entries
        };
        let max = self.max_entries;
        drop_oldest(&mut self.entries, max);
    }

    pub fn max_entries(&self) -> (m: usize)
        ensures
            m == self.max_entries,
    {
        self.max_entries
    }

    /// Remove the toast with this id (it was closed).
    pub fn dismiss(&mut self, id: &String)
        requires
            old(self).wf(),
        ensures
            final(self).wf(),
            final(self).max_entries == old(self).max_entries,
            final(self).epoch == old(self).epoch,
            final(self).entries@ == without_id(old(self).entries@, id@),
    {
        remove_id(&mut self.entries, id);
        proof {
            lemma_without_id_unique(old(self).entries@, id@);
            lemma_without_id_len(old(self).entries@, id@);
        }
    }

    pub fn clear(&mut self)
        requires
            old(self).wf(),
        ensures
            final(self).wf(),
            final(self).max_entries == old(self).max_entries,
            final(self).epoch == old(self).epoch,
            final(self).entries@.len() == 0,
    {
        self.entries.clear();
    }
}

} // verus!
