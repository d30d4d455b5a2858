//! A command palette: a query typed into a floating box narrows a list of
//! entries (a case-insensitive substring of the label, the subtitle or a
//! keyword), the arrow keys move through the results and Return confirms.

use vstd::prelude::*;
use vstd::string::*;
use crate::choice::{lowercase, lowercase_chars};
use crate::keys::{nav_key_of, NavKey};
use crate::text::{contains_chars, contains_seq, pop_char, push_char, without_last};

verus! {

/// One searchable entry.
#[derive(Debug)]
pub struct PaletteEntry {
    pub id: String,
    /// The text shown, and searched.
    pub label: String,
    /// A second line (a path, a shortcut), also searched.
    pub subtitle: Option<String>,
    pub icon: Option<String>,
    /// Searched, not shown.
    pub keywords: Vec<String>,
}

impl PaletteEntry {
    pub fn new(id: String, label: String) -> (e: Self)
        ensures
            e.id == id && e.label == label,
            e.subtitle is None && e.icon is None,
            e.keywords@.len() == 0,
    {
        PaletteEntry { id, label, subtitle: None, icon: None, keywords: Vec::new() }
    }

    pub fn subtitle(self, s: String) -> (e: Self)
        ensures
            e.subtitle == Some(s),
            e.id == self.id && e.label == self.label && e.icon == self.icon && e.keywords == self.keywords,
    {
        PaletteEntry { subtitle: Some(s), ..self }
    }

    pub fn icon(self, path: String) -> (e: Self)
        ensures
            e.icon == Some(path),
            e.id == self.id && e.label == self.label && e.subtitle == self.subtitle,
            e.keywords == self.keywords,
    {
        PaletteEntry { icon: Some(path), ..self }
    }

    pub fn keyword(self, kw: String) -> (e: Self)
        ensures
            e.keywords@ == self.keywords@.push(kw),
            e.id == self.id && e.label == self.label && e.subtitle == self.subtitle,
            e.icon == self.icon,
    {
        let mut e = self;
        e.keywords.push(kw);
        e
    }
}

/// The indices below `n` that satisfy `p`, in order.
pub open spec fn indices_where(n: int, p: spec_fn(int) -> bool) -> Seq<usize>
    decreases n,
{
    if n <= 0 {
        Seq::empty()
    } else if p(n - 1) {
        indices_where(n - 1, p).push((n - 1) as usize)
    } else {
        indices_where(n - 1, p)
    }
}

/// Predicates that agree below `n` select the same indices.
pub proof fn lemma_indices_where_ext(n: int, p: spec_fn(int) -> bool, q: spec_fn(int) -> bool)
    requires
        forall|i: int| 0 <= i < n ==> #[trigger] p(i) == q(i),
    ensures
        indices_where(n, p) == indices_where(n, q),
    decreases n,
{
    if n > 0 {
        lemma_indices_where_ext(n - 1, p, q);
    }
}

/// A predicate that holds below `n` selects every index, in order.
pub proof fn lemma_indices_where_all(n: int, p: spec_fn(int) -> bool)
    requires
        0 <= n <= usize::MAX,
        forall|i: int| 0 <= i < n ==> #[trigger] p(i),
    ensures
        indices_where(n, p) == Seq::new(n as nat, |i: int| i as usize),
    decreases n,
{
    if n > 0 {
        lemma_indices_where_all(n - 1, p);
        assert(indices_where(n, p) =~= Seq::new(n as nat, |i: int| i as usize));
    } else {
        assert(indices_where(n, p) =~= Seq::new(n as nat, |i: int| i as usize));
    }
}

/// Every selected index is below `n` and satisfies `p`.
pub proof fn lemma_indices_where_sound(n: int, p: spec_fn(int) -> bool)
    requires
        n <= usize::MAX,
    ensures
        forall|k: int|
            0 <= k < indices_where(n, p).len() ==> #[trigger] indices_where(n, p)[k] < n && p(
                indices_where(n, p)[k] as int,
            ),
        indices_where(n, p).len() <= if n < 0 { 0 } else { n },
    decreases n,
{
    if n > 0 {
        lemma_indices_where_sound(n - 1, p);
        let prev = indices_where(n - 1, p);
        let cur = indices_where(n, p);
        assert forall|k: int| 0 <= k < cur.len() implies #[trigger] cur[k] < n && p(cur[k] as int) by {
            if k < prev.len() {
                assert(cur[k] == prev[k]);
            } else {
                assert(p(n - 1));
                assert(cur[k] == (n - 1) as usize);
            }
        }
    }
}

/// An entry's searchable texts, lower-cased.
#[derive(Debug)]
pub struct LoweredEntry {
    pub label: Vec<char>,
    pub subtitle: Option<Vec<char>>,
    pub keywords: Vec<Vec<char>>,
}

/// Whether lower-cased texts contain the lower-cased query.
pub open spec fn hits(
    label: Seq<char>,
    subtitle: Option<Seq<char>>,
    keywords: Seq<Seq<char>>,
    q: Seq<char>,
) -> bool {
    ||| contains_seq(label, q)
    ||| (subtitle matches Some(s) && contains_seq(s, q))
    ||| exists|k: int| 0 <= k < keywords.len() && contains_seq(#[trigger] keywords[k], q)
}

pub open spec fn lowered_hits(e: LoweredEntry, q: Seq<char>) -> bool {
    hits(
        e.label@,
        match e.subtitle {
            Some(s) => Some(s@),
            None => None,
        },
        e.keywords@.map_values(|k: Vec<char>| k@),
        q,
    )
}

/// Whether an entry matches a lower-cased query.
pub open spec fn entry_matches(e: PaletteEntry, q: Seq<char>) -> bool {
    hits(
        lowercase(e.label@),
        match e.subtitle {
            Some(s) => Some(lowercase(s@)),
            None => None,
        },
        e.keywords@.map_values(|k: String| lowercase(k@)),
        q,
    )
}

/// Whether lower-cased texts contain `q`.
pub fn entry_hits(e: &LoweredEntry, q: &Vec<char>) -> (b: bool)
    ensures
        b == lowered_hits(*e, q@),
{
    if contains_chars(&e.label, q) {
        return true;
    }
    match &e.subtitle {
        Some(s) => {
            if contains_chars(s, q) {
                return true;
            }
        },
        None => {},
    }
    let ghost kws = e.keywords@.map_values(|k: Vec<char>| k@);
    let mut i: usize = 0;
    while i < e.keywords.len()
        invariant
            i <= e.keywords@.len(),
            kws == e.keywords@.map_values(|k: Vec<char>| k@),
            forall|j: int| 0 <= j < i ==> !contains_seq(#[trigger] kws[j], q@),
        decreases e.keywords@.len() - i,
    {
        assert(kws[i as int] == e.keywords@[i as int]@);
        if contains_chars(&e.keywords[i], q) {
            return true;
        }
        i = i + 1;
    }
    false
}

/// The indices of the entries whose lower-cased texts contain `q`.
pub fn matching_entries(lowered: &Vec<LoweredEntry>, q: &Vec<char>) -> (r: Vec<usize>)
    ensures
        r@ == indices_where(lowered@.len() as int, |i: int| lowered_hits(lowered@[i], q@)),
{
    let ghost p = |i: int| lowered_hits(lowered@[i], q@);
    let mut r: Vec<usize> = Vec::new();
    let mut i: usize = 0;
    while i < lowered.len()
        invariant
            i <= lowered@.len(),
            p == (|i: int| lowered_hits(lowered@[i], q@)),
            r@ == indices_where(i as int, p),
        decreases lowered@.len() - i,
    {
        if entry_hits(&lowered[i], q) {
            r.push(i);
        }
        i = i + 1;
    }
    r
}

/// An entry's searchable texts, lower-cased.
fn lower_entry(e: &PaletteEntry) -> (l: LoweredEntry)
    ensures
        l.label@ == lowercase(e.label@),
        match e.subtitle {
            Some(s) => l.subtitle matches Some(t) && t@ == lowercase(s@),
            None => l.subtitle is None,
        },
        l.keywords@.map_values(|k: Vec<char>| k@) == e.keywords@.map_values(|k: String| lowercase(k@)),
{
    let label = lowercase_chars(e.label.as_str());
    let subtitle = match &e.subtitle {
        Some(s) => Some(lowercase_chars(s.as_str())),
        None => None,
    };
    let mut keywords: Vec<Vec<char>> = Vec::new();
    let mut i: usize = 0;
    while i < e.keywords.len()
        invariant
            i <= e.keywords@.len(),
            keywords@.len() == i,
            forall|j: int| 0 <= j < i ==> #[trigger] keywords@[j]@ == lowercase(e.keywords@[j]@),
        decreases e.keywords@.len() - i,
    {
        keywords.push(lowercase_chars(e.keywords[i].as_str()));
        i = i + 1;
    }
    assert(keywords@.map_values(|k: Vec<char>| k@) =~= e.keywords@.map_values(|k: String| lowercase(k@)));
    LoweredEntry { label, subtitle, keywords }
}

/// What a key press asks of the host.
#[derive(Debug, PartialEq, Eq)]
pub enum PaletteKeyOutcome {
    Ignored,
    /// The palette closed without a choice.
    Hidden,
    /// The palette closed; report this entry (an index into the entries)
    /// when there is one.
    Confirmed(Option<usize>),
    /// The query or the selection changed; redraw.
    Changed,
}

/// The palette's state.
#[derive(Debug)]
pub struct CommandPalette {
    pub open: bool,
    pub query: String,
    pub entries: Vec<PaletteEntry>,
    /// Indices into `entries` of the results, in order.
    pub filtered: Vec<usize>,
    /// Index into `filtered`.
    pub selected: usize,
}

/// The results of a query: every entry when the query is empty (so is its
/// lower-cased form then, and only then), else the entries that match the
/// lower-cased query.
pub open spec fn results(entries: Seq<PaletteEntry>, query: Seq<char>) -> Seq<usize> {
    if query.len() == 0 {
        indices_where(entries.len() as int, |i: int| true)
    } else {
        indices_where(entries.len() as int, |i: int| entry_matches(entries[i], lowercase(query)))
    }
}

/// The entry a confirmation reports: that of the selected result, if any.
pub open spec fn chosen_result(p: CommandPalette) -> Option<usize> {
    if p.selected < p.filtered@.len() {
        Some(p.filtered@[p.selected as int])
    } else {
        None
    }
}

/// The selection kept after the results change to `n` entries.
pub open spec fn kept_selection(selected: int, n: int) -> int {
    let top = if n > 0 { n - 1 } else { 0 };
    if selected < top { selected } else { top }
}

impl CommandPalette {
    /// The results are those of the query, and the selection is one of them
    /// (or 0 when there is none).
    pub open spec fn wf(&self) -> bool {
        &&& self.filtered@ == results(self.entries@, self.query@)
        &&& (self.selected == 0 || self.selected < self.filtered@.len())
    }

    /// A hidden palette with no entries.
    pub fn new() -> (p: Self)
        ensures
            p.wf(),
            !p.open,
            p.query@.len() == 0,
            p.entries@.len() == 0,
            p.selected == 0,
    {
        let p = CommandPalette {
            open: false,
            query: String::new(),
            entries: Vec::new(),
            filtered: Vec::new(),
            selected: 0,
        };
        proof {
            assert(p.filtered@ =~= indices_where(0, |i: int| true));
            assert(p.filtered@ =~= indices_where(0, |i: int| entry_matches(p.entries@[i], lowercase(p.query@))));
        }
        p
    }

    /// Recompute the results for the query; the selection moves to the last
    /// result when it fell beyond them.
    pub fn refilter(&mut self)
        ensures
            final(self).wf(),
            final(self).filtered@ == results(old(self).entries@, old(self).query@),
            final(self).selected == kept_selection(
                old(self).selected as int,
                final(self).filtered@.len() as int,
            ),
            final(self).open == old(self).open,
            final(self).query == old(self).query,
            final(self).entries == old(self).entries,
    {
        let q = lowercase_chars(self.query.as_str());
        let n = self.entries.len();
        if q.len() == 0 {
            let mut all: Vec<usize> = Vec::new();
            let mut i: usize = 0;
            while i < n
                invariant
                    n == self.entries@.len(),
                    i <= n,
                    all@ == indices_where(i as int, |i: int| true),
                decreases n - i,
            {
                all.push(i);
                i = i + 1;
            }
            self.filtered = all;
        } else {
            let mut lowered: Vec<LoweredEntry> = Vec::new();
            let mut i: usize = 0;
            while i < n
                invariant
                    n == self.entries@.len(),
                    i <= n,
                    lowered@.len() == i,
                    forall|j: int| 0 <= j < i ==> lowered_hits(#[trigger] lowered@[j], q@) == entry_matches(self.entries@[j], q@),
                decreases n - i,
            {
                let l = lower_entry(&self.entries[i]);
                proof {
                    let e = self.entries@[i as int];
                    assert(l.keywords@.map_values(|k: Vec<char>| k@) == e.keywords@.map_values(|k: String| lowercase(k@)));
                }
                lowered.push(l);
                i = i + 1;
            }
            let r = matching_entries(&lowered, &q);
            proof {
                lemma_indices_where_ext(
                    n as int,
                    |i: int| lowered_hits(lowered@[i], q@),
                    |i: int| entry_matches(self.entries@[i], q@),
                );
            }
            self.filtered = r;
        }
        let len = self.filtered.len();
        let top = if len > 0 {
            len - 1
        } else {
            0
        };
        self.selected = if self.selected < top {
            self.selected
        } else {
            top
        };
    }

    /// The palette with these entries.
    pub fn entries(self, entries: Vec<PaletteEntry>) -> (p: Self)
        ensures
            p.wf(),
            p.entries == entries,
            p.filtered@ == results(entries@, self.query@),
            p.selected == kept_selection(self.selected as int, p.filtered@.len() as int),
            p.open == self.open && p.query == self.query,
    {
        let mut p = CommandPalette { entries, ..self };
        p.refilter();
        p
    }

    pub fn set_entries(&mut self, entries: Vec<PaletteEntry>)
        ensures
            final(self).wf(),
            final(self).entries == entries,
            final(self).filtered@ == results(entries@, old(self).query@),
            final(self).selected == kept_selection(old(self).selected as int, final(self).filtered@.len() as int),
            final(self).open == old(self).open && final(self).query == old(self).query,
    {
        self.entries = entries;
        self.refilter();
    }

    /// Show the palette with an empty query, every entry listed and the
    /// first one selected.
    pub fn show(&mut self)
        ensures
            final(self).wf(),
            final(self).open,
            final(self).query@.len() == 0,
            final(self).selected == 0,
            final(self).entries == old(self).entries,
            final(self).filtered@ == Seq::new(old(self).entries@.len(), |i: int| i as usize),
    {
        self.open = true;
        self.query = String::new();
        self.selected = 0;
        self.refilter();
        assert(self.entries.len() <= usize::MAX);
        proof {
            lemma_indices_where_all(self.entries@.len() as int, |i: int| true);
        }
    }

    pub fn close(&mut self)
        ensures
            !final(self).open,
            final(self).query == old(self).query && final(self).entries == old(self).entries,
            final(self).filtered == old(self).filtered && final(self).selected == old(self).selected,
    {
        self.open = false;
    }

    /// Select the previous result, if any.
    pub fn move_up(&mut self)
        requires
            old(self).wf(),
        ensures
            final(self).wf(),
            final(self).selected == if old(self).filtered@.len() > 0 && old(self).selected > 0 {
                old(self).selected - 1
            } else {
                old(self).selected as int
            },
            final(self).open == old(self).open && final(self).query == old(self).query,
            final(self).entries == old(self).entries && final(self).filtered == old(self).filtered,
    {
        if self.filtered.len() > 0 && self.selected > 0 {
            self.selected = self.selected - 1;
        }
    }

    /// Select the next result, if any.
    pub fn move_down(&mut self)
        requires
            old(self).wf(),
        ensures
            final(self).wf(),
            final(self).selected == if old(self).selected + 1 < old(self).filtered@.len() {
                old(self).selected + 1
            } else {
                old(self).selected as int
            },
            final(self).open == old(self).open && final(self).query == old(self).query,
            final(self).entries == old(self).entries && final(self).filtered == old(self).filtered,
    {
        let len = self.filtered.len();
        if self.selected < len && self.selected + 1 < len {
            self.selected = self.selected + 1;
        }
    }

    /// Close the palette, reporting the selected result's entry.
    pub fn confirm(&mut self) -> (chosen: Option<usize>)
        requires
            old(self).wf(),
        ensures
            !final(self).open,
            chosen == if old(self).selected < old(self).filtered@.len() {
                Some(old(self).filtered@[old(self).selected as int])
            } else {
                None::<usize>
            },
            match chosen {
                Some(i) => i < old(self).entries@.len(),
                None => true,
            },
            final(self).query == old(self).query && final(self).entries == old(self).entries,
            final(self).filtered == old(self).filtered && final(self).selected == old(self).selected,
    {
        assert(self.entries.len() <= usize::MAX);
        proof {
            lemma_indices_where_sound(self.entries@.len() as int, |i: int| true);
            lemma_indices_where_sound(
                self.entries@.len() as int,
                |i: int| entry_matches(self.entries@[i], lowercase(self.query@)),
            );
        }
        let chosen = if self.selected < self.filtered.len() {
            let idx = self.filtered[self.selected];
            assert(idx < self.entries@.len());
            if idx < self.entries.len() {
                Some(idx)
            } else {
                None
            }
        } else {
            None
        };
        self.close();
        chosen
    }

    /// React to a key: `key` is its name, `key_char` the text it types, if
    /// any; text is typed only without control or the platform modifier.
    pub fn handle_key(&mut self, key: &str, key_char: Option<&str>, control: bool, platform: bool) -> (out: PaletteKeyOutcome)
        requires
            old(self).wf(),
        ensures
            final(self).wf(),
            final(self).entries == old(self).entries,
            match nav_key_of(key@) {
                NavKey::Escape => out == PaletteKeyOutcome::Hidden && !final(self).open
                    && final(self).query == old(self).query && final(self).filtered == old(self).filtered
                    && final(self).selected == old(self).selected,
                NavKey::Return => out == PaletteKeyOutcome::Confirmed(chosen_result(*old(self)))
                    && !final(self).open && final(self).query == old(self).query
                    && final(self).filtered == old(self).filtered && final(self).selected == old(self).selected,
                NavKey::Up => out == PaletteKeyOutcome::Changed && final(self).query == old(self).query
                    && final(self).open == old(self).open && final(self).filtered == old(self).filtered
                    && final(self).selected == if old(self).filtered@.len() > 0 && old(self).selected > 0 {
                        old(self).selected - 1
                    } else {
                        old(self).selected as int
                    },
                NavKey::Down => out == PaletteKeyOutcome::Changed && final(self).query == old(self).query
                    && final(self).open == old(self).open && final(self).filtered == old(self).filtered
                    && final(self).selected == if old(self).selected + 1 < old(self).filtered@.len() {
                        old(self).selected + 1
                    } else {
                        old(self).selected as int
                    },
                NavKey::Backspace => out == PaletteKeyOutcome::Changed
                    && final(self).query@ == without_last(old(self).query@)
                    && final(self).open == old(self).open
                    && final(self).selected == kept_selection(old(self).selected as int, final(self).filtered@.len() as int),
                _ => match key_char {
                    Some(ch) => if !control && !platform {
                        out == PaletteKeyOutcome::Changed && final(self).query@ == old(self).query@ + ch@
                            && final(self).open == old(self).open
                            && final(self).selected == kept_selection(
                                old(self).selected as int,
                                final(self).filtered@.len() as int,
                            )
                    } else {
                        out == PaletteKeyOutcome::Ignored && *final(self) == *old(self)
                    },
                    None => out == PaletteKeyOutcome::Ignored && *final(self) == *old(self),
                },
            },
    {
        match NavKey::parse(key) {
            NavKey::Escape => {
                self.close();
                PaletteKeyOutcome::Hidden
            },
            NavKey::Return => {
                let chosen = self.confirm();
                PaletteKeyOutcome::Confirmed(chosen)
            },
            NavKey::Up => {
                self.move_up();
                PaletteKeyOutcome::Changed
            },
            NavKey::Down => {
                self.move_down();
                PaletteKeyOutcome::Changed
            },
            NavKey::Backspace => {
                pop_char(&mut self.query);
                self.refilter();
                PaletteKeyOutcome::Changed
            },
            _ => match key_char {
                Some(ch) => {
                    if !control && !platform {
                        self.query.append(ch);
                        self.refilter();
                        PaletteKeyOutcome::Changed
                    } else {
                        PaletteKeyOutcome::Ignored
                    }
                },
                None => PaletteKeyOutcome::Ignored,
            },
        }
    }

    /// The text shown in the search box: a hint when the query is empty,
    /// else the query followed by a caret mark.
    pub fn query_display(&self) -> (s: String)
        ensures
            s@ == if self.query@.len() == 0 {
                "Type to search\u{2026}"@
            } else {
                self.query@.push('_')
            },
    {
        if self.query.as_str().unicode_len() == 0 {
            String::from_str("Type to search\u{2026}")
        } else {
            let mut s = self.query.clone();
            push_char(&mut s, '_');
            s
        }
    }
}

} // verus!
