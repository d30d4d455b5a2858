//! The menu item model shared by context menus, the menu bar and menu
//! buttons, and the path-based keyboard navigation over it.
//!
//! A path is a sequence of indices: `[i]` is the `i`-th top-level item,
//! `[i, j]` the `j`-th item of the submenu at `[i]`, and so on. Only enabled,
//! non-separator items can be selected; submenus can be entered only when
//! they are enabled and hold an enabled item.

use vstd::prelude::*;
use vstd::string::*;

use crate::text::{append_decimal, decimal};

verus! {

/// One entry of a menu. Click handlers are kept by the renderer, keyed by the
/// entry's path; the model holds what navigation and layout read.
#[derive(Debug)]
pub enum ContextMenuItem {
    Action {
        label: String,
        shortcut: Option<String>,
        icon: Option<String>,
        disabled: bool,
    },
    Checkbox {
        label: String,
        checked: bool,
        disabled: bool,
    },
    Radio {
        label: String,
        selected: bool,
        disabled: bool,
    },
    Submenu {
        label: String,
        icon: Option<String>,
        disabled: bool,
        items: Vec<ContextMenuItem>,
    },
    Separator,
}

/// An entry can be selected and invoked: it is not a separator and not
/// disabled.
pub open spec fn item_enabled(item: ContextMenuItem) -> bool {
    match item {
        ContextMenuItem::Action { disabled, .. } => !disabled,
        ContextMenuItem::Checkbox { disabled, .. } => !disabled,
        ContextMenuItem::Radio { disabled, .. } => !disabled,
        ContextMenuItem::Submenu { disabled, .. } => !disabled,
        ContextMenuItem::Separator => false,
    }
}

/// The entry with its `disabled` flag replaced; separators stay separators.
pub open spec fn with_disabled(item: ContextMenuItem, d: bool) -> ContextMenuItem {
    match item {
        ContextMenuItem::Action { label, shortcut, icon, .. } => ContextMenuItem::Action {
            label,
            shortcut,
            icon,
            disabled: d,
        },
        ContextMenuItem::Checkbox { label, checked, .. } => ContextMenuItem::Checkbox {
            label,
            checked,
            disabled: d,
        },
        ContextMenuItem::Radio { label, selected, .. } => ContextMenuItem::Radio {
            label,
            selected,
            disabled: d,
        },
        ContextMenuItem::Submenu { label, icon, items, .. } => ContextMenuItem::Submenu {
            label,
            icon,
            disabled: d,
            items,
        },
        ContextMenuItem::Separator => ContextMenuItem::Separator,
    }
}

impl ContextMenuItem {
    pub fn action(label: String) -> (item: Self)
        ensures
            item == (ContextMenuItem::Action { label, shortcut: None, icon: None, disabled: false }),
    {
        ContextMenuItem::Action { label, shortcut: None, icon: None, disabled: false }
    }

    pub fn action_with_icon(label: String, icon: String) -> (item: Self)
        ensures
            item == (ContextMenuItem::Action {
                label,
                shortcut: None,
                icon: Some(icon),
                disabled: false,
            }),
    {
        ContextMenuItem::Action { label, shortcut: None, icon: Some(icon), disabled: false }
    }

    pub fn checkbox(label: String, checked: bool) -> (item: Self)
        ensures
            item == (ContextMenuItem::Checkbox { label, checked, disabled: false }),
    {
        ContextMenuItem::Checkbox { label, checked, disabled: false }
    }

    pub fn radio(label: String, selected: bool) -> (item: Self)
        ensures
            item == (ContextMenuItem::Radio { label, selected, disabled: false }),
    {
        ContextMenuItem::Radio { label, selected, disabled: false }
    }

    pub fn submenu(label: String, items: Vec<ContextMenuItem>) -> (item: Self)
        ensures
            item == (ContextMenuItem::Submenu { label, icon: None, disabled: false, items }),
    {
        ContextMenuItem::Submenu { label, icon: None, disabled: false, items }
    }

    pub fn separator() -> (item: Self)
        ensures
            item == ContextMenuItem::Separator,
    {
        ContextMenuItem::Separator
    }

    /// Attach a shortcut hint; only actions carry one, other entries are
    /// returned unchanged.
    pub fn shortcut(self, shortcut: String) -> (item: Self)
        ensures
            item == (match self {
                ContextMenuItem::Action { label, icon, disabled, .. } => ContextMenuItem::Action {
                    label,
                    shortcut: Some(shortcut),
                    icon,
                    disabled,
                },
                other => other,
            }),
    {
        match self {
            ContextMenuItem::Action { label, icon, disabled, .. } => ContextMenuItem::Action {
                label,
                shortcut: Some(shortcut),
                icon,
                disabled,
            },
            other => other,
        }
    }

    /// Set whether the entry is disabled.
    pub fn disabled(self, disabled: bool) -> (item: Self)
        ensures
            item == with_disabled(self, disabled),
    {
        match self {
            ContextMenuItem::Action { label, shortcut, icon, .. } => ContextMenuItem::Action {
                label,
                shortcut,
                icon,
                disabled,
            },
            ContextMenuItem::Checkbox { label, checked, .. } => ContextMenuItem::Checkbox {
                label,
                checked,
                disabled,
            },
            ContextMenuItem::Radio { label, selected, .. } => ContextMenuItem::Radio {
                label,
                selected,
                disabled,
            },
            ContextMenuItem::Submenu { label, icon, items, .. } => ContextMenuItem::Submenu {
                label,
                icon,
                disabled,
                items,
            },
            ContextMenuItem::Separator => ContextMenuItem::Separator,
        }
    }

    pub fn enabled(&self) -> (b: bool)
        ensures
            b == item_enabled(*self),
    {
        match self {
            ContextMenuItem::Action { disabled, .. } => !*disabled,
            ContextMenuItem::Checkbox { disabled, .. } => !*disabled,
            ContextMenuItem::Radio { disabled, .. } => !*disabled,
            ContextMenuItem::Submenu { disabled, .. } => !*disabled,
            ContextMenuItem::Separator => false,
        }
    }

    pub fn is_submenu(&self) -> (b: bool)
        ensures
            b == (*self is Submenu),
    {
        match self {
            ContextMenuItem::Submenu { .. } => true,
            _ => false,
        }
    }
}

/// The entries listed under `parent`: the whole menu for the empty path,
/// otherwise the children of the enabled submenu found by following `parent`.
/// `None` when a step leaves the menu or passes a non-submenu or a disabled
/// submenu.
pub open spec fn items_at_parent_spec(
    items: Seq<ContextMenuItem>,
    parent: Seq<usize>,
) -> Option<Seq<ContextMenuItem>>
    decreases parent.len(),
{
    if parent.len() == 0 {
        Some(items)
    } else {
        let idx = parent[0] as int;
        if 0 <= idx < items.len() {
            match items[idx] {
                ContextMenuItem::Submenu { items: sub, disabled, .. } => {
                    if disabled {
                        None
                    } else {
                        items_at_parent_spec(sub@, parent.drop_first())
                    }
                },
                _ => None,
            }
        } else {
            None
        }
    }
}

/// The path without its last index (the empty path for the empty path).
pub open spec fn parent_of(path: Seq<usize>) -> Seq<usize> {
    if path.len() == 0 {
        path
    } else {
        path.drop_last()
    }
}

/// The entry a non-empty path designates, if its parent exists and the last
/// index is in range.
pub open spec fn item_at_path_spec(items: Seq<ContextMenuItem>, path: Seq<usize>) -> Option<
    ContextMenuItem,
> {
    if path.len() == 0 {
        None
    } else {
        match items_at_parent_spec(items, path.drop_last()) {
            Some(sibs) => {
                let last = path.last() as int;
                if 0 <= last < sibs.len() {
                    Some(sibs[last])
                } else {
                    None
                }
            },
            None => None,
        }
    }
}

/// The path designates an enabled entry.
pub open spec fn path_enabled(items: Seq<ContextMenuItem>, path: Seq<usize>) -> bool {
    match item_at_path_spec(items, path) {
        Some(item) => item_enabled(item),
        None => false,
    }
}

/// `k` is the first enabled entry of `items`.
pub open spec fn is_first_enabled(items: Seq<ContextMenuItem>, k: int) -> bool {
    &&& 0 <= k < items.len()
    &&& item_enabled(items[k])
    &&& forall|j: int| 0 <= j < k ==> !item_enabled(#[trigger] items[j])
}

/// `k` is the last enabled entry of `items`.
pub open spec fn is_last_enabled(items: Seq<ContextMenuItem>, k: int) -> bool {
    &&& 0 <= k < items.len()
    &&& item_enabled(items[k])
    &&& forall|j: int| k < j < items.len() ==> !item_enabled(#[trigger] items[j])
}

pub open spec fn has_enabled(items: Seq<ContextMenuItem>) -> bool {
    exists|k: int| 0 <= k < items.len() && item_enabled(#[trigger] items[k])
}

/// The enabled sibling that follows `cur`, wrapping to the first enabled one
/// (which is `cur` itself when it is the only enabled sibling).
pub open spec fn is_next_enabled(items: Seq<ContextMenuItem>, cur: int, k: int) -> bool {
    ||| (cur < k < items.len() && item_enabled(items[k]) && forall|j: int|
        cur < j < k ==> !item_enabled(#[trigger] items[j]))
    ||| (0 <= k <= cur && k < items.len() && item_enabled(items[k]) && (forall|j: int|
        cur < j < items.len() ==> !item_enabled(#[trigger] items[j])) && forall|j: int|
        0 <= j < k ==> !item_enabled(#[trigger] items[j]))
}

/// The enabled sibling that precedes `cur`, wrapping to the last enabled one.
pub open spec fn is_prev_enabled(items: Seq<ContextMenuItem>, cur: int, k: int) -> bool {
    ||| (0 <= k < cur && item_enabled(items[k]) && forall|j: int|
        k < j < cur ==> !item_enabled(#[trigger] items[j]))
    ||| (cur <= k < items.len() && item_enabled(items[k]) && (forall|j: int|
        0 <= j < cur ==> !item_enabled(#[trigger] items[j])) && forall|j: int|
        k < j < items.len() ==> !item_enabled(#[trigger] items[j]))
}

/// `prefix` is an initial segment of `path`.
pub open spec fn starts_with(path: Seq<usize>, prefix: Seq<usize>) -> bool {
    prefix.len() <= path.len() && path.take(prefix.len() as int) =~= prefix
}

/// A copy of a path.
pub fn copy_path(path: &Vec<usize>) -> (out: Vec<usize>)
    ensures
        out@ == path@,
{
    let mut out: Vec<usize> = Vec::new();
    let mut i: usize = 0;
    while i < path.len()
        invariant
            i <= path.len(),
            out@ == path@.take(i as int),
        decreases path.len() - i,
    {
        out.push(path[i]);
        i = i + 1;
        assert(out@ =~= path@.take(i as int));
    }
    assert(out@ =~= path@);
    out
}

proof fn lemma_parent_step(items: Seq<ContextMenuItem>, parent: Seq<usize>, i: int)
    requires
        0 <= i < parent.len(),
    ensures
        parent.skip(i).drop_first() =~= parent.skip(i + 1),
        parent.skip(i)[0] == parent[i],
        parent.skip(i).len() > 0,
{
}

/// The entries listed under `parent` (see [`items_at_parent_spec`]).
pub fn items_at_parent<'a>(
    items: &'a Vec<ContextMenuItem>,
    parent: &Vec<usize>,
) -> (res: Option<&'a Vec<ContextMenuItem>>)
    ensures
        match res {
            Some(v) => items_at_parent_spec(items@, parent@) == Some(v@),
            None => items_at_parent_spec(items@, parent@) is None,
        },
{
    let mut current: &'a Vec<ContextMenuItem> = items;
    let mut i: usize = 0;
    assert(parent@.skip(0) =~= parent@);
    while i < parent.len()
        invariant
            i <= parent.len(),
            items_at_parent_spec(items@, parent@) == items_at_parent_spec(
                current@,
                parent@.skip(i as int),
            ),
        decreases parent.len() - i,
    {
        proof {
            lemma_parent_step(items@, parent@, i as int);
        }
        let idx = parent[i];
        if idx >= current.len() {
            return None;
        }
        match &current[idx] {
            ContextMenuItem::Submenu { items: sub, disabled, .. } => {
                if *disabled {
                    return None;
                }
                current = sub;
            },
            _ => {
                return None;
            },
        }
        i = i + 1;
    }
    assert(parent@.skip(i as int).len() == 0);
    Some(current)
}

/// The entry a path designates (see [`item_at_path_spec`]).
pub fn item_at_path<'a>(items: &'a Vec<ContextMenuItem>, path: &Vec<usize>) -> (res: Option<
    &'a ContextMenuItem,
>)
    ensures
        match res {
            Some(item) => item_at_path_spec(items@, path@) == Some(*item),
            None => item_at_path_spec(items@, path@) is None,
        },
{
    if path.len() == 0 {
        return None;
    }
    let parent = parent_path(path);
    let last = path[path.len() - 1];
    match items_at_parent(items, &parent) {
        Some(sibs) => {
            if last < sibs.len() {
                Some(&sibs[last])
            } else {
                None
            }
        },
        None => None,
    }
}

/// The entry a path designates, only when it is enabled.
pub fn enabled_item_at_path<'a>(items: &'a Vec<ContextMenuItem>, path: &Vec<usize>) -> (res:
    Option<&'a ContextMenuItem>)
    ensures
        match res {
            Some(item) => item_at_path_spec(items@, path@) == Some(*item) && item_enabled(*item),
            None => !path_enabled(items@, path@),
        },
{
    match item_at_path(items, path) {
        Some(item) => {
            if item.enabled() {
                Some(item)
            } else {
                None
            }
        },
        None => None,
    }
}

/// The path without its last index.
pub fn parent_path(path: &Vec<usize>) -> (out: Vec<usize>)
    ensures
        out@ == parent_of(path@),
{
    let mut out: Vec<usize> = Vec::new();
    if path.len() == 0 {
        assert(out@ =~= path@);
        return out;
    }
    let n = path.len() - 1;
    let mut i: usize = 0;
    while i < n
        invariant
            n == path.len() - 1,
            i <= n,
            out@ == path@.take(i as int),
        decreases n - i,
    {
        out.push(path[i]);
        i = i + 1;
        assert(out@ =~= path@.take(i as int));
    }
    assert(out@ =~= path@.drop_last());
    out
}

/// Whether `prefix` is an initial segment of `path`.
pub fn path_starts_with(path: &Vec<usize>, prefix: &Vec<usize>) -> (b: bool)
    ensures
        b == starts_with(path@, prefix@),
{
    if prefix.len() > path.len() {
        return false;
    }
    let mut i: usize = 0;
    while i < prefix.len()
        invariant
            prefix.len() <= path.len(),
            i <= prefix.len(),
            forall|j: int| 0 <= j < i ==> path@[j] == prefix@[j],
        decreases prefix.len() - i,
    {
        if path[i] != prefix[i] {
            assert(path@.take(prefix.len() as int)[i as int] != prefix@[i as int]);
            return false;
        }
        i = i + 1;
    }
    assert(path@.take(prefix.len() as int) =~= prefix@);
    true
}

/// The path of the first enabled entry among `items`, which are listed under
/// `parent`.
pub fn first_enabled_path(items: &Vec<ContextMenuItem>, parent: &Vec<usize>) -> (res: Option<
    Vec<usize>,
>)
    ensures
        match res {
            Some(p) => exists|k: int|
                is_first_enabled(items@, k) && p@ == parent@.push(k as usize),
            None => !has_enabled(items@),
        },
{
    let mut i: usize = 0;
    while i < items.len()
        invariant
            i <= items.len(),
            forall|j: int| 0 <= j < i ==> !item_enabled(#[trigger] items@[j]),
        decreases items.len() - i,
    {
        if items[i].enabled() {
            let mut p = copy_path(parent);
            p.push(i);
            assert(is_first_enabled(items@, i as int));
            return Some(p);
        }
        i = i + 1;
    }
    None
}

/// The path of the last enabled entry among `items`, which are listed under
/// `parent`.
pub fn last_enabled_path(items: &Vec<ContextMenuItem>, parent: &Vec<usize>) -> (res: Option<
    Vec<usize>,
>)
    ensures
        match res {
            Some(p) => exists|k: int|
                is_last_enabled(items@, k) && p@ == parent@.push(k as usize),
            None => !has_enabled(items@),
        },
{
    let mut i: usize = items.len();
    while i > 0
        invariant
            i <= items.len(),
            forall|j: int| i <= j < items.len() ==> !item_enabled(#[trigger] items@[j]),
        decreases i,
    {
        if items[i - 1].enabled() {
            let mut p = copy_path(parent);
            p.push(i - 1);
            assert(is_last_enabled(items@, i - 1));
            return Some(p);
        }
        i = i - 1;
    }
    None
}

/// The selection after `ensure_selection`: kept when it designates an
/// enabled entry, otherwise the first enabled top-level entry, or the empty
/// path when there is none.
pub open spec fn ensured_selection(
    items: Seq<ContextMenuItem>,
    selected: Seq<usize>,
    result: Seq<usize>,
) -> bool {
    if path_enabled(items, selected) {
        result == selected
    } else if has_enabled(items) {
        exists|k: int| is_first_enabled(items, k) && result == seq![k as usize]
    } else {
        result.len() == 0
    }
}

/// Make sure the selection designates an enabled entry.
pub fn ensure_selection(items: &Vec<ContextMenuItem>, selected_path: &mut Vec<usize>)
    ensures
        ensured_selection(items@, old(selected_path)@, final(selected_path)@),
{
    let keep = match item_at_path(items, selected_path) {
        Some(item) => item.enabled(),
        None => false,
    };
    if !keep {
        let empty: Vec<usize> = Vec::new();
        match first_enabled_path(items, &empty) {
            Some(p) => {
                proof {
                    let k = choose|k: int| is_first_enabled(items@, k) && p@ == empty@.push(k as usize);
                    assert(p@ =~= seq![k as usize]);
                }
                *selected_path = p;
            },
            None => {
                *selected_path = Vec::new();
            },
        }
    }
}

/// A selection that designates an enabled entry lies in a menu that exists.
proof fn lemma_enabled_path_parent(items: Seq<ContextMenuItem>, path: Seq<usize>)
    requires
        path_enabled(items, path),
    ensures
        path.len() > 0,
        items_at_parent_spec(items, path.drop_last()) is Some,
        (path.last() as int) < items_at_parent_spec(items, path.drop_last())->0.len(),
        item_enabled(items_at_parent_spec(items, path.drop_last())->0[path.last() as int]),
{
}

/// The first enabled top-level entry's path designates an enabled entry.
proof fn lemma_first_enabled_path_enabled(items: Seq<ContextMenuItem>, k: int)
    requires
        is_first_enabled(items, k),
        items.len() <= usize::MAX,
    ensures
        path_enabled(items, seq![k as usize]),
        seq![k as usize].drop_last() =~= Seq::<usize>::empty(),
{
    let p = seq![k as usize];
    assert(p.drop_last() =~= Seq::<usize>::empty());
    assert(items_at_parent_spec(items, p.drop_last()) == Some(items));
    assert(p.last() == k as usize);
}

/// The outcome of moving the selection among siblings: `moved` is whether a
/// sibling was selected; `result` is the selection afterwards.
pub open spec fn moved_selection(
    items: Seq<ContextMenuItem>,
    selected: Seq<usize>,
    delta: int,
    moved: bool,
    result: Seq<usize>,
) -> bool {
    exists|ensured: Seq<usize>|
        #![trigger ensured_selection(items, selected, ensured)]
        ensured_selection(items, selected, ensured) && if path_enabled(items, ensured) {
            let sibs = items_at_parent_spec(items, ensured.drop_last())->0;
            let cur = ensured.last() as int;
            moved && exists|k: usize|
                #![trigger ensured.drop_last().push(k)]
                (if delta < 0 {
                    is_prev_enabled(sibs, cur, k as int)
                } else {
                    is_next_enabled(sibs, cur, k as int)
                }) && result == ensured.drop_last().push(k)
        } else {
            !moved && result == ensured
        }
}

/// Move the selection to the next (`delta >= 0`) or previous (`delta < 0`)
/// enabled sibling, wrapping around. The selection is first made valid with
/// [`ensure_selection`]. Returns whether a sibling was selected.
pub fn move_selection(items: &Vec<ContextMenuItem>, selected_path: &mut Vec<usize>, delta: isize) -> (moved: bool)
    ensures
        moved_selection(items@, old(selected_path)@, delta as int, moved, final(selected_path)@),
{
    ensure_selection(items, selected_path);
    let ghost ensured = selected_path@;
    let total = items.len();
    assert(items@.len() == total);
    if selected_path.len() == 0 {
        proof {
            if path_enabled(items@, ensured) {
                lemma_enabled_path_parent(items@, ensured);
            }
        }
        return false;
    }
    proof {
        if !path_enabled(items@, ensured) {
            // The selection was reset to the first enabled top-level entry.
            let k = choose|k: int| is_first_enabled(items@, k) && ensured == seq![k as usize];
            lemma_first_enabled_path_enabled(items@, k);
        }
        lemma_enabled_path_parent(items@, ensured);
    }
    let parent = parent_path(selected_path);
    let current = selected_path[selected_path.len() - 1];
    let siblings = match items_at_parent(items, &parent) {
        Some(s) => s,
        None => {
            return false;
        },
    };
    let ghost sibs = siblings@;
    let n = siblings.len();
    let mut next: usize = current;
    if delta < 0 {
        // Nearest enabled entry before `current`, else the last enabled one.
        let mut j: usize = current;
        while j > 0 && !siblings[j - 1].enabled()
            invariant
                j <= current < n,
                n == sibs.len(),
                sibs == siblings@,
                forall|i: int| j <= i < current ==> !item_enabled(#[trigger] sibs[i]),
            decreases j,
        {
            j = j - 1;
        }
        if j > 0 {
            next = j - 1;
        } else {
            let mut j: usize = n;
            while j > current + 1 && !siblings[j - 1].enabled()
                invariant
                    current < n,
                    current < j <= n,
                    n == sibs.len(),
                    sibs == siblings@,
                    forall|i: int| j <= i < n ==> !item_enabled(#[trigger] sibs[i]),
                decreases j,
            {
                j = j - 1;
            }
            next = j - 1;
        }
        proof {
            assert(is_prev_enabled(sibs, current as int, next as int));
        }
    } else {
        let mut j: usize = current + 1;
        while j < n && !siblings[j].enabled()
            invariant
                current < j <= n,
                n == sibs.len(),
                sibs == siblings@,
                forall|i: int| current < i < j ==> !item_enabled(#[trigger] sibs[i]),
            decreases n - j,
        {
            j = j + 1;
        }
        if j < n {
            next = j;
        } else {
            let mut j: usize = 0;
            while j < current && !siblings[j].enabled()
                invariant
                    j <= current < n,
                    n == sibs.len(),
                    sibs == siblings@,
                    forall|i: int| 0 <= i < j ==> !item_enabled(#[trigger] sibs[i]),
                decreases current - j,
            {
                j = j + 1;
            }
            next = j;
        }
        proof {
            assert(is_next_enabled(sibs, current as int, next as int));
        }
    }
    let mut result = parent;
    result.push(next);
    *selected_path = result;
    proof {
        assert(ensured_selection(items@, old(selected_path)@, ensured));
        assert(final(selected_path)@ == ensured.drop_last().push(next as usize));
    }
    true
}

/// The outcome of entering the submenu at the selection.
pub open spec fn entered_submenu(
    items: Seq<ContextMenuItem>,
    selected: Seq<usize>,
    open: Seq<usize>,
    entered: bool,
    new_selected: Seq<usize>,
    new_open: Seq<usize>,
) -> bool {
    match item_at_path_spec(items, selected) {
        Some(ContextMenuItem::Submenu { items: sub, disabled, .. }) => if !disabled && has_enabled(
            sub@,
        ) {
            &&& entered
            &&& new_open == selected
            &&& exists|k: int| is_first_enabled(sub@, k) && new_selected == selected.push(k as usize)
        } else {
            !entered && new_selected == selected && new_open == open
        },
        _ => !entered && new_selected == selected && new_open == open,
    }
}

/// Open the submenu at the selection and select its first enabled entry.
pub fn enter_submenu(
    items: &Vec<ContextMenuItem>,
    selected_path: &mut Vec<usize>,
    open_path: &mut Vec<usize>,
) -> (entered: bool)
    ensures
        entered_submenu(
            items@,
            old(selected_path)@,
            old(open_path)@,
            entered,
            final(selected_path)@,
            final(open_path)@,
        ),
{
    let first = match item_at_path(items, selected_path) {
        Some(ContextMenuItem::Submenu { items: submenu, disabled, .. }) => {
            if *disabled {
                return false;
            }
            first_enabled_path(submenu, selected_path)
        },
        _ => {
            return false;
        },
    };
    match first {
        Some(f) => {
            *open_path = copy_path(selected_path);
            *selected_path = f;
            true
        },
        None => false,
    }
}

/// Close the innermost open submenu: the selection moves to the submenu
/// entry itself. At the top level only the open path is cleared.
pub fn leave_submenu(selected_path: &mut Vec<usize>, open_path: &mut Vec<usize>)
    ensures
        old(selected_path)@.len() <= 1 ==> final(selected_path)@ == old(selected_path)@
            && final(open_path)@.len() == 0,
        old(selected_path)@.len() > 1 ==> final(selected_path)@ == old(selected_path)@.drop_last()
            && final(open_path)@ == old(selected_path)@.drop_last().drop_last(),
{
    if selected_path.len() <= 1 {
        open_path.clear();
    } else {
        let parent = parent_path(selected_path);
        let grand = parent_path(&parent);
        *selected_path = parent;
        *open_path = grand;
    }
}

/// Following a path in two legs reaches the same menu as following it at
/// once.
pub proof fn lemma_items_at_parent_concat(items: Seq<ContextMenuItem>, q: Seq<usize>, r: Seq<usize>)
    ensures
        items_at_parent_spec(items, q + r) == match items_at_parent_spec(items, q) {
            Some(s) => items_at_parent_spec(s, r),
            None => None,
        },
    decreases q.len(),
{
    if q.len() == 0 {
        assert(q + r =~= r);
    } else {
        assert((q + r).drop_first() =~= q.drop_first() + r);
        assert((q + r)[0] == q[0]);
        let idx = q[0] as int;
        if 0 <= idx < items.len() {
            match items[idx] {
                ContextMenuItem::Submenu { items: sub, disabled, .. } => {
                    if !disabled {
                        lemma_items_at_parent_concat(sub@, q.drop_first(), r);
                    }
                },
                _ => {},
            }
        }
    }
}

/// Nothing beneath a disabled submenu can be reached: its entries are not
/// listed and no deeper path designates an enabled entry.
pub proof fn lemma_disabled_submenu_blocks(items: Seq<ContextMenuItem>, q: Seq<usize>, r: Seq<usize>)
    requires
        item_at_path_spec(items, q) matches Some(ContextMenuItem::Submenu { disabled, .. }) && disabled,
        r.len() > 0,
    ensures
        items_at_parent_spec(items, q) is None,
        !path_enabled(items, q + r),
{
    let parent = q.drop_last();
    let last = q.last();
    assert(q =~= parent + seq![last]);
    lemma_items_at_parent_concat(items, parent, seq![last]);
    let sibs = items_at_parent_spec(items, parent)->0;
    assert(items_at_parent_spec(sibs, seq![last]) is None) by {
        assert(seq![last][0] == last);
    }
    assert((q + r).drop_last() =~= q + r.drop_last());
    lemma_items_at_parent_concat(items, q, r.drop_last());
}

/// A successful move leaves the selection on an enabled entry.
pub proof fn lemma_move_lands_on_enabled(
    items: Seq<ContextMenuItem>,
    selected: Seq<usize>,
    delta: int,
    result: Seq<usize>,
)
    requires
        moved_selection(items, selected, delta, true, result),
    ensures
        path_enabled(items, result),
{
    let ensured = choose|ensured: Seq<usize>|
        #![trigger ensured_selection(items, selected, ensured)]
        ensured_selection(items, selected, ensured) && if path_enabled(items, ensured) {
            let sibs = items_at_parent_spec(items, ensured.drop_last())->0;
            let cur = ensured.last() as int;
            true && exists|k: usize|
                #![trigger ensured.drop_last().push(k)]
                (if delta < 0 {
                    is_prev_enabled(sibs, cur, k as int)
                } else {
                    is_next_enabled(sibs, cur, k as int)
                }) && result == ensured.drop_last().push(k)
        } else {
            !true && result == ensured
        };
    let sibs = items_at_parent_spec(items, ensured.drop_last())->0;
    let cur = ensured.last() as int;
    let k = choose|k: usize|
        #![trigger ensured.drop_last().push(k)]
        (if delta < 0 {
            is_prev_enabled(sibs, cur, k as int)
        } else {
            is_next_enabled(sibs, cur, k as int)
        }) && result == ensured.drop_last().push(k);
    assert(result.drop_last() =~= ensured.drop_last());
}

/// Among siblings, the previous enabled entry of the next enabled entry is
/// where one started.
pub proof fn lemma_prev_of_next(items: Seq<ContextMenuItem>, cur: int, k: int, j: int)
    requires
        0 <= cur < items.len(),
        item_enabled(items[cur]),
        is_next_enabled(items, cur, k),
        is_prev_enabled(items, k, j),
    ensures
        j == cur,
{
}

/// Among siblings, the next enabled entry of the previous enabled entry is
/// where one started.
pub proof fn lemma_next_of_prev(items: Seq<ContextMenuItem>, cur: int, k: int, j: int)
    requires
        0 <= cur < items.len(),
        item_enabled(items[cur]),
        is_prev_enabled(items, cur, k),
        is_next_enabled(items, k, j),
    ensures
        j == cur,
{
}

/// Entering a submenu and leaving it again brings the selection back to the
/// submenu entry and leaves only its ancestors open.
pub proof fn lemma_enter_then_leave(
    items: Seq<ContextMenuItem>,
    selected: Seq<usize>,
    open: Seq<usize>,
    mid_selected: Seq<usize>,
    mid_open: Seq<usize>,
    end_selected: Seq<usize>,
    end_open: Seq<usize>,
)
    requires
        entered_submenu(items, selected, open, true, mid_selected, mid_open),
        mid_selected.len() > 1 ==> end_selected == mid_selected.drop_last()
            && end_open == mid_selected.drop_last().drop_last(),
        mid_selected.len() <= 1 ==> end_selected == mid_selected && end_open.len() == 0,
    ensures
        end_selected == selected,
        end_open == parent_of(selected),
{
    let k = choose|k: int|
        is_first_enabled(
            item_at_path_spec(items, selected)->0->Submenu_items@,
            k,
        ) && mid_selected == selected.push(k as usize);
    assert(mid_selected.drop_last() =~= selected);
    assert(selected.len() > 0);
}

/// Moving down and then up returns the selection to where it was, when it
/// designated an enabled entry (and likewise up then down).
pub proof fn lemma_move_round_trip(
    items: Seq<ContextMenuItem>,
    selected: Seq<usize>,
    first: int,
    mid: Seq<usize>,
    moved_back: bool,
    end: Seq<usize>,
)
    requires
        path_enabled(items, selected),
        moved_selection(items, selected, first, true, mid),
        moved_selection(items, mid, if first < 0 { 1 } else { -1 }, moved_back, end),
    ensures
        moved_back,
        end == selected,
{
    lemma_move_lands_on_enabled(items, selected, first, mid);
    let sibs = items_at_parent_spec(items, selected.drop_last())->0;
    let cur = selected.last() as int;
    let k = choose|k: usize|
        #![trigger selected.drop_last().push(k)]
        (if first < 0 {
            is_prev_enabled(sibs, cur, k as int)
        } else {
            is_next_enabled(sibs, cur, k as int)
        }) && mid == selected.drop_last().push(k);
    assert(mid.drop_last() =~= selected.drop_last());
    assert(mid.last() == k);
    let j = choose|j: usize|
        #![trigger mid.drop_last().push(j)]
        (if first < 0 {
            is_next_enabled(sibs, k as int, j as int)
        } else {
            is_prev_enabled(sibs, k as int, j as int)
        }) && end == mid.drop_last().push(j);
    lemma_enabled_path_parent(items, selected);
    if first < 0 {
        lemma_next_of_prev(sibs, cur, k as int, j as int);
    } else {
        lemma_prev_of_next(sibs, cur, k as int, j as int);
    }
    assert(end =~= selected);
}

/// Whether two paths are equal.
pub fn paths_equal(a: &Vec<usize>, b: &Vec<usize>) -> (same: bool)
    ensures
        same == (a@ == b@),
{
    if a.len() != b.len() {
        return false;
    }
    let mut i: usize = 0;
    while i < a.len()
        invariant
            a.len() == b.len(),
            i <= a.len(),
            forall|j: int| 0 <= j < i ==> a@[j] == b@[j],
        decreases a.len() - i,
    {
        if a[i] != b[i] {
            return false;
        }
        i = i + 1;
    }
    assert(a@ =~= b@);
    true
}

/// The vertical extent of an entry's row: separators take their line plus a
/// gap of `spacing_xs` above and below; other rows take `item_height`.
pub open spec fn row_height(item: ContextMenuItem, spacing_xs: u32, item_height: u32, separator_height: u32) -> int {
    if item is Separator {
        separator_height + 2 * spacing_xs
    } else {
        item_height as int
    }
}

/// The offset of row `i` from the top of its menu: the menu's top padding
/// (`spacing_xs`) plus the heights of the rows above it.
pub open spec fn row_top(items: Seq<ContextMenuItem>, i: int, spacing_xs: u32, item_height: u32, separator_height: u32) -> int
    decreases i,
{
    if i <= 0 {
        spacing_xs as int
    } else {
        row_top(items, i - 1, spacing_xs, item_height, separator_height) + row_height(
            items[i - 1],
            spacing_xs,
            item_height,
            separator_height,
        )
    }
}

/// What a menu level shows for one entry: its path, whether it is the
/// selection, whether it is enabled, whether its submenu is shown, and its
/// offset from the top of the menu (where a submenu is anchored).
#[derive(Debug)]
pub struct MenuRow {
    pub path: Vec<usize>,
    pub selected: bool,
    pub enabled: bool,
    pub submenu_open: bool,
    pub top: u128,
}

/// The rows of one menu level (entries `items`, listed under `prefix`).
pub fn menu_rows(
    items: &Vec<ContextMenuItem>,
    prefix: &Vec<usize>,
    selected_path: &Vec<usize>,
    open_path: &Vec<usize>,
    spacing_xs: u32,
    item_height: u32,
    separator_height: u32,
) -> (rows: Vec<MenuRow>)
    ensures
        rows@.len() == items@.len(),
        forall|i: int|
            #![trigger rows@[i]]
            0 <= i < rows@.len() ==> {
                let r = rows@[i];
                &&& r.path@ == prefix@.push(i as usize)
                &&& r.selected == (selected_path@ == prefix@.push(i as usize))
                &&& r.enabled == item_enabled(items@[i])
                &&& r.submenu_open == (items@[i] is Submenu && !items@[i]->Submenu_disabled
                    && starts_with(open_path@, prefix@.push(i as usize)))
                &&& r.top == row_top(items@, i, spacing_xs, item_height, separator_height)
            },
{
    let mut rows: Vec<MenuRow> = Vec::new();
    let mut top: u128 = spacing_xs as u128;
    assert(items.len() <= usize::MAX);
    let mut i: usize = 0;
    while i < items.len()
        invariant
            i <= items@.len(),
            rows@.len() == i,
            top == row_top(items@, i as int, spacing_xs, item_height, separator_height),
            top <= spacing_xs + i * (0x3_0000_0000 as int),
            items@.len() <= usize::MAX,
            forall|k: int|
                #![trigger rows@[k]]
                0 <= k < i ==> {
                    let r = rows@[k];
                    &&& r.path@ == prefix@.push(k as usize)
                    &&& r.selected == (selected_path@ == prefix@.push(k as usize))
                    &&& r.enabled == item_enabled(items@[k])
                    &&& r.submenu_open == (items@[k] is Submenu && !items@[k]->Submenu_disabled
                        && starts_with(open_path@, prefix@.push(k as usize)))
                    &&& r.top == row_top(items@, k, spacing_xs, item_height, separator_height)
                },
        decreases items@.len() - i,
    {
        let mut path = copy_path(prefix);
        path.push(i);
        let item = &items[i];
        let submenu_open = match item {
            ContextMenuItem::Submenu { disabled, .. } => !*disabled && path_starts_with(open_path, &path),
            _ => false,
        };
        let row = MenuRow {
            path: copy_path(&path),
            selected: paths_equal(selected_path, &path),
            enabled: item.enabled(),
            submenu_open,
            top,
        };
        rows.push(row);
        let h: u128 = match item {
            ContextMenuItem::Separator => separator_height as u128 + 2 * (spacing_xs as u128),
            _ => item_height as u128,
        };
        proof {
            assert(h <= 0x3_0000_0000);
            assert(i * (0x3_0000_0000 as int) + 0x3_0000_0000 == (i + 1) * (0x3_0000_0000 as int)) by (nonlinear_arith);
            assert((i + 1) * (0x3_0000_0000 as int) <= 0x1_0000_0000_0000_0000 * (0x3_0000_0000 as int)) by (nonlinear_arith)
                requires i + 1 <= 0x1_0000_0000_0000_0000;
        }
        top = top + h;
        i = i + 1;
    }
    rows
}

/// The element id of the row at `path`: the prefix followed by `-` and the
/// decimal index for every step of the path (`menu-item-1-2`).
pub open spec fn row_id_text(prefix: Seq<char>, path: Seq<usize>) -> Seq<char>
    decreases path.len(),
{
    if path.len() == 0 {
        prefix
    } else {
        row_id_text(prefix, path.drop_last()) + seq!['-'] + decimal(path.last() as nat)
    }
}

/// The element id of the row at `path` (see [`row_id_text`]).
pub fn row_id(id_prefix: &str, path: &Vec<usize>) -> (id: String)
    ensures
        id@ == row_id_text(id_prefix@, path@),
{
    let mut id = String::from_str(id_prefix);
    let mut i: usize = 0;
    assert(path@.take(0) =~= Seq::<usize>::empty());
    while i < path.len()
        invariant
            i <= path.len(),
            id@ == row_id_text(id_prefix@, path@.take(i as int)),
        decreases path.len() - i,
    {
        proof {
            reveal_strlit("-");
        }
        id.append("-");
        append_decimal(&mut id, path[i]);
        proof {
            let t = path@.take(i as int + 1);
            assert(t.drop_last() =~= path@.take(i as int));
            assert(t.last() == path@[i as int]);
        }
        i = i + 1;
    }
    assert(path@.take(path@.len() as int) =~= path@);
    id
}

} // verus!
