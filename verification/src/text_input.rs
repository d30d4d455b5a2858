//! The editing state of a single-line text input: its text, the selection
//! and the input method's marked (composing) range, all as UTF-8 byte
//! offsets that fall between characters. Caret movement steps over whole
//! grapheme clusters. Keyboard edits, pointer selection, password masking and
//! the platform's UTF-16 input protocol are computed here; drawing, focus and
//! the clipboard belong to the host.

use std::ops::Range;
use unicode_segmentation::UnicodeSegmentation;
use vstd::prelude::*;
use vstd::string::*;
use crate::encoding::{
    chars_reaching, convert_offset, encoded_len, is_boundary, lemma_boundary_index,
    lemma_boundary_order, lemma_concat_len, lemma_convert_is_boundary, lemma_convert_monotone,
    lemma_ends_are_boundaries, lemma_reaching_exact, lemma_take_all, reach, slice_text, splice,
    utf8_len, encoded_len_of, Encoding,
};
use crate::keys::{nav_key_of, str_eq, NavKey};
use crate::text::{chars_of, newlines_to_spaces, replace_newlines};

verus! {

/// The byte offsets at which the extended grapheme clusters of a text start.
pub uninterp spec fn grapheme_starts(s: Seq<char>) -> Seq<usize>;

/// `UnicodeSegmentation::grapheme_indices(s, true)`, keeping the byte offset
/// of each extended grapheme cluster. The result is named by
/// [`grapheme_starts`]; the contract adds only that each offset is a
/// character boundary of `s` (each cluster is a slice of `s` starting
/// there). Where clusters start is Unicode's segmentation rule, which is not
/// restated.
#[verifier::external_body]
fn grapheme_offsets(s: &str) -> (v: Vec<usize>)
    ensures
        v@ == grapheme_starts(s@),
        forall|i: int| 0 <= i < v@.len() ==> is_boundary(s@, #[trigger] v@[i] as int),
{
    s.grapheme_indices(true).map(|(i, _)| i).collect()
}

/// Scanning from the end, the first offset below `off`; 0 if there is none.
pub open spec fn last_start_before(g: Seq<usize>, off: int) -> int
    decreases g.len(),
{
    if g.len() == 0 {
        0
    } else if (g.last() as int) < off {
        g.last() as int
    } else {
        last_start_before(g.drop_last(), off)
    }
}

/// Scanning from the start, the first offset above `off`; `end` if there is
/// none.
pub open spec fn first_start_after(g: Seq<usize>, off: int, end: int) -> int
    decreases g.len(),
{
    if g.len() == 0 {
        end
    } else if (g[0] as int) > off {
        g[0] as int
    } else {
        first_start_after(g.drop_first(), off, end)
    }
}

/// Where the caret lands one grapheme cluster left of `off`.
pub open spec fn previous_boundary_of(s: Seq<char>, off: int) -> int {
    last_start_before(grapheme_starts(s), off)
}

/// Where the caret lands one grapheme cluster right of `off`.
pub open spec fn next_boundary_of(s: Seq<char>, off: int) -> int {
    first_start_after(grapheme_starts(s), off, utf8_len(s) as int)
}

proof fn lemma_last_start_before(s: Seq<char>, g: Seq<usize>, off: int)
    requires
        forall|i: int| 0 <= i < g.len() ==> is_boundary(s, #[trigger] g[i] as int),
    ensures
        is_boundary(s, last_start_before(g, off)),
        off > 0 ==> last_start_before(g, off) < off,
    decreases g.len(),
{
    lemma_ends_are_boundaries(s, Encoding::Utf8);
    if g.len() > 0 {
        assert(is_boundary(s, g[g.len() - 1] as int));
        if (g.last() as int) >= off {
            let d = g.drop_last();
            assert forall|i: int| 0 <= i < d.len() implies is_boundary(s, #[trigger] d[i] as int) by {
                assert(d[i] == g[i]);
            }
            lemma_last_start_before(s, d, off);
        }
    }
}

proof fn lemma_first_start_after(s: Seq<char>, g: Seq<usize>, off: int)
    requires
        forall|i: int| 0 <= i < g.len() ==> is_boundary(s, #[trigger] g[i] as int),
    ensures
        is_boundary(s, first_start_after(g, off, utf8_len(s) as int)),
        off < utf8_len(s) ==> first_start_after(g, off, utf8_len(s) as int) > off,
    decreases g.len(),
{
    lemma_ends_are_boundaries(s, Encoding::Utf8);
    if g.len() > 0 {
        assert(is_boundary(s, g[0] as int));
        if (g[0] as int) <= off {
            let d = g.drop_first();
            assert forall|i: int| 0 <= i < d.len() implies is_boundary(s, #[trigger] d[i] as int) by {
                assert(d[i] == g[i + 1]);
            }
            lemma_first_start_after(s, d, off);
        }
    }
}

/// The character that stands for each character of a masked value.
pub const MASK_CHAR: char = '\u{2022}';

/// The UTF-8 width of [`MASK_CHAR`].
pub const MASK_CHAR_BYTES: usize = 3;

/// Where a real byte offset falls in the masked text, which has one
/// [`MASK_CHAR`] per character.
pub open spec fn masked_offset_of(s: Seq<char>, real_off: int) -> int {
    chars_reaching(s, Encoding::Utf8, real_off) * (MASK_CHAR_BYTES as int)
}

/// The real byte offset of the character a masked offset falls in (the end
/// of the text past the last one).
pub open spec fn real_offset_of(s: Seq<char>, masked: int) -> int {
    let k = masked / (MASK_CHAR_BYTES as int);
    if k < s.len() {
        utf8_len(s.take(k)) as int
    } else {
        utf8_len(s) as int
    }
}

/// The masked offset of a real byte offset.
pub fn real_to_masked_offset(value: &str, real_offset: usize) -> (m: usize)
    requires
        is_boundary(value@, real_offset as int),
        utf8_len(value@) <= usize::MAX,
        value@.len() * 3 <= usize::MAX,
    ensures
        m == masked_offset_of(value@, real_offset as int),
{
    let chars = chars_of(value);
    let (k, _) = reach(&chars, Encoding::Utf8, Encoding::Utf8, real_offset);
    proof {
        lemma_boundary_index(value@, Encoding::Utf8, real_offset as int);
    }
    k * MASK_CHAR_BYTES
}

/// The real byte offset of a masked offset.
pub fn masked_to_real_offset(value: &str, masked_offset: usize) -> (r: usize)
    requires
        utf8_len(value@) <= usize::MAX,
    ensures
        r == real_offset_of(value@, masked_offset as int),
        is_boundary(value@, r as int),
{
    let chars = chars_of(value);
    let k = masked_offset / MASK_CHAR_BYTES;
    let n = chars.len();
    if k < n {
        let mut v: Vec<char> = Vec::new();
        let mut i: usize = 0;
        while i < k
            invariant
                chars@ == value@,
                k < n == chars@.len(),
                i <= k,
                v@ == value@.take(i as int),
            decreases k - i,
        {
            v.push(chars[i]);
            i = i + 1;
            assert(v@ =~= value@.take(i as int));
        }
        proof {
            crate::encoding::lemma_prefix_le(value@, k as int, Encoding::Utf8);
            lemma_reaching_exact(value@, Encoding::Utf8, k as int);
        }
        encoded_len_of(&v, Encoding::Utf8)
    } else {
        proof {
            lemma_ends_are_boundaries(value@, Encoding::Utf8);
        }
        encoded_len_of(&chars, Encoding::Utf8)
    }
}

/// Masking and unmasking a real boundary returns it.
pub proof fn lemma_mask_round_trip(s: Seq<char>, real_off: int)
    requires
        is_boundary(s, real_off),
    ensures
        real_offset_of(s, masked_offset_of(s, real_off)) == real_off,
{
    lemma_boundary_index(s, Encoding::Utf8, real_off);
    let k = chars_reaching(s, Encoding::Utf8, real_off);
    assert((k * 3) / 3 == k) by (nonlinear_arith)
        requires
            k >= 0,
    ;
    if k == s.len() {
        lemma_take_all(s, Encoding::Utf8);
    }
}

/// The editing state as contracts see it: the text, the selection (with the
/// caret at `end`, or at `start` when `reversed`) and the marked range.
pub struct EditState {
    pub text: Seq<char>,
    pub start: int,
    pub end: int,
    pub reversed: bool,
    pub marked: Option<(int, int)>,
}

/// `s` with the UTF-8 range `[a, b)` replaced by `t`.
pub open spec fn spliced(s: Seq<char>, a: int, b: int, t: Seq<char>) -> Seq<char> {
    s.take(chars_reaching(s, Encoding::Utf8, a)) + t + s.skip(chars_reaching(s, Encoding::Utf8, b))
}

/// The text between two UTF-8 offsets.
pub open spec fn text_between(s: Seq<char>, a: int, b: int) -> Seq<char> {
    s.subrange(chars_reaching(s, Encoding::Utf8, a), chars_reaching(s, Encoding::Utf8, b))
}

/// An ordered range between two character boundaries.
pub open spec fn range_ok(s: Seq<char>, a: int, b: int) -> bool {
    a <= b && is_boundary(s, a) && is_boundary(s, b)
}

impl EditState {
    pub open spec fn len(self) -> int {
        utf8_len(self.text) as int
    }

    pub open spec fn wf(self) -> bool {
        &&& self.len() <= usize::MAX
        &&& range_ok(self.text, self.start, self.end)
        &&& match self.marked {
            Some(m) => range_ok(self.text, m.0, m.1),
            None => true,
        }
    }

    /// Where the caret is.
    pub open spec fn cursor(self) -> int {
        if self.reversed {
            self.start
        } else {
            self.end
        }
    }

    /// `off` is a place the caret can be put: a boundary, or past the end.
    pub open spec fn accepts(self, off: int) -> bool {
        off >= self.len() || is_boundary(self.text, off)
    }

    pub open spec fn clamp(self, off: int) -> int {
        if off < self.len() {
            off
        } else {
            self.len()
        }
    }

    /// The caret put at `off` (at most the end), nothing selected.
    pub open spec fn moved_to(self, off: int) -> EditState {
        EditState { start: self.clamp(off), end: self.clamp(off), reversed: false, ..self }
    }

    /// The caret end of the selection dragged to `off` (at most the end); the
    /// selection flips direction when the caret crosses its anchor.
    pub open spec fn selected_to(self, off: int) -> EditState {
        let o = self.clamp(off);
        let s = if self.reversed { o } else { self.start };
        let e = if self.reversed { self.end } else { o };
        if e < s {
            EditState { start: e, end: s, reversed: !self.reversed, ..self }
        } else {
            EditState { start: s, end: e, ..self }
        }
    }

    /// The range an edit replaces: the marked range, else the selection.
    pub open spec fn edit_range(self) -> (int, int) {
        match self.marked {
            Some(m) => m,
            None => (self.start, self.end),
        }
    }

    /// `[a, b)` replaced by `t`, the caret after `t`, nothing marked.
    pub open spec fn replaced_at(self, a: int, b: int, t: Seq<char>) -> EditState {
        let c = a + utf8_len(t);
        EditState { text: spliced(self.text, a, b, t), start: c, end: c, reversed: false, marked: None }
    }

    /// The marked range, else the selection, replaced by `t`.
    pub open spec fn replaced(self, t: Seq<char>) -> EditState {
        self.replaced_at(self.edit_range().0, self.edit_range().1, t)
    }

    pub open spec fn selection_empty(self) -> bool {
        !(self.start < self.end)
    }

    pub open spec fn selected_text(self) -> Seq<char> {
        text_between(self.text, self.start, self.end)
    }

    /// The state after a key with the command modifier (control or the
    /// platform key).
    pub open spec fn after_command(self, key: Seq<char>) -> EditState {
        if key == "a"@ {
            self.moved_to(0).selected_to(self.len())
        } else if key == "x"@ && !self.selection_empty() {
            self.replaced(Seq::empty())
        } else {
            self
        }
    }

    /// The state after a key without the command modifier.
    pub open spec fn after_key(self, key: Seq<char>, shift: bool) -> EditState {
        let prev = previous_boundary_of(self.text, self.cursor());
        match nav_key_of(key) {
            NavKey::Backspace => if self.selection_empty() {
                self.selected_to(prev).replaced(Seq::empty())
            } else {
                self.replaced(Seq::empty())
            },
            NavKey::Delete => if self.selection_empty() {
                self.selected_to(next_boundary_of(self.text, self.cursor())).replaced(Seq::empty())
            } else {
                self.replaced(Seq::empty())
            },
            NavKey::Left => if shift {
                self.selected_to(prev)
            } else if self.selection_empty() {
                self.moved_to(prev)
            } else {
                self.moved_to(self.start)
            },
            NavKey::Right => if shift {
                self.selected_to(next_boundary_of(self.text, self.cursor()))
            } else if self.selection_empty() {
                self.moved_to(next_boundary_of(self.text, self.end))
            } else {
                self.moved_to(self.end)
            },
            NavKey::Home => if shift {
                self.selected_to(0)
            } else {
                self.moved_to(0)
            },
            NavKey::End => if shift {
                self.selected_to(self.len())
            } else {
                self.moved_to(self.len())
            },
            _ => self,
        }
    }
}

/// Splicing keeps the text within bounds and puts a boundary after the
/// inserted text.
proof fn lemma_splice(s: Seq<char>, a: int, b: int, t: Seq<char>)
    requires
        is_boundary(s, a),
        is_boundary(s, b),
    ensures
        utf8_len(spliced(s, a, b, t)) == a + utf8_len(t) + (utf8_len(s) - b),
        is_boundary(spliced(s, a, b, t), a + utf8_len(t)),
        is_boundary(spliced(s, a, b, t), a),
        a <= utf8_len(s),
        b <= utf8_len(s),
{
    let e = Encoding::Utf8;
    lemma_boundary_index(s, e, a);
    lemma_boundary_index(s, e, b);
    let ka = chars_reaching(s, e, a);
    let kb = chars_reaching(s, e, b);
    let head = s.take(ka);
    let tail = s.skip(kb);
    let r = spliced(s, a, b, t);
    assert(s.take(kb) + tail =~= s);
    lemma_concat_len(s.take(kb), tail, e);
    lemma_concat_len(head, t, e);
    lemma_concat_len(head + t, tail, e);
    assert(r.take(ka + t.len()) =~= head + t);
    lemma_reaching_exact(r, e, ka + t.len());
    assert(r.take(ka) =~= head);
    lemma_reaching_exact(r, e, ka);
}

proof fn lemma_moves_keep_wf(st: EditState, off: int)
    requires
        st.wf(),
        st.accepts(off),
    ensures
        st.moved_to(off).wf(),
        st.selected_to(off).wf(),
{
    lemma_ends_are_boundaries(st.text, Encoding::Utf8);
}

proof fn lemma_replace_keeps_wf(st: EditState, a: int, b: int, t: Seq<char>)
    requires
        st.wf(),
        is_boundary(st.text, a),
        is_boundary(st.text, b),
        a + utf8_len(t) + (st.len() - b) <= usize::MAX,
    ensures
        st.replaced_at(a, b, t).wf(),
        st.replaced_at(a, b, t).len() == a + utf8_len(t) + (st.len() - b),
{
    lemma_splice(st.text, a, b, t);
}

proof fn lemma_boundaries_of(st: EditState)
    requires
        st.wf(),
    ensures
        st.accepts(0),
        st.accepts(st.len()),
        st.accepts(st.start),
        st.accepts(st.end),
{
    lemma_ends_are_boundaries(st.text, Encoding::Utf8);
}

/// Replacing line breaks by spaces keeps the UTF-8 length.
proof fn lemma_newlines_len(t: Seq<char>)
    ensures
        utf8_len(newlines_to_spaces(t)) == utf8_len(t),
        newlines_to_spaces(t).len() == t.len(),
    decreases t.len(),
{
    if t.len() > 0 {
        lemma_newlines_len(t.drop_last());
        assert(newlines_to_spaces(t).drop_last() =~= newlines_to_spaces(t.drop_last()));
    }
}

/// What a key press asks of the host once the input has handled it.
#[derive(Debug, PartialEq, Eq)]
pub enum TextKeyOutcome {
    /// Nothing happened.
    Ignored,
    /// The caret or the selection moved.
    Moved,
    /// The text was edited; report the change.
    Edited,
    /// Put this text on the clipboard.
    Copy(String),
    /// Put this text on the clipboard; it was removed from the input (an
    /// edit to report).
    Cut(String),
    /// Read the clipboard and hand its text to [`TextInput::paste`].
    Paste,
}

/// The outcome of a key pressed with the command modifier.
pub open spec fn command_outcome(out: TextKeyOutcome, st: EditState, key: Seq<char>) -> bool {
    if key == "a"@ {
        out is Moved
    } else if key == "c"@ && !st.selection_empty() {
        (out matches TextKeyOutcome::Copy(t) && t@ == st.selected_text())
    } else if key == "x"@ && !st.selection_empty() {
        (out matches TextKeyOutcome::Cut(t) && t@ == st.selected_text())
    } else if key == "v"@ {
        out is Paste
    } else {
        out is Ignored
    }
}

/// The outcome of a key pressed without the command modifier.
pub open spec fn key_outcome(out: TextKeyOutcome, key: Seq<char>) -> bool {
    match nav_key_of(key) {
        NavKey::Backspace | NavKey::Delete => out is Edited,
        NavKey::Left | NavKey::Right | NavKey::Home | NavKey::End => out is Moved,
        _ => out is Ignored,
    }
}

/// A selection as the platform's input protocol reports it, in UTF-16
/// code units.
#[derive(Debug)]
pub struct Utf16Selection {
    pub range: Range<usize>,
    pub reversed: bool,
}

/// The UTF-8 range an input-method edit replaces: the given UTF-16 range,
/// else the marked range, else the selection.
pub open spec fn ime_range(st: EditState, range_utf16: Option<Range<usize>>) -> (int, int) {
    match range_utf16 {
        Some(r) => (
            convert_offset(st.text, Encoding::Utf16, Encoding::Utf8, r.start as int) as int,
            convert_offset(st.text, Encoding::Utf16, Encoding::Utf8, r.end as int) as int,
        ),
        None => st.edit_range(),
    }
}

/// The text after an input-method edit still fits in memory.
pub open spec fn ime_fits(st: EditState, range_utf16: Option<Range<usize>>, t: Seq<char>) -> bool {
    ime_range(st, range_utf16).0 + utf8_len(t) + (st.len() - ime_range(st, range_utf16).1)
        <= usize::MAX
}

/// The state after the input method replaces a range with composing text
/// `t`, marks it, and selects `new_sel` (UTF-16 offsets measured in the new
/// text, then shifted by the start of the replaced range).
pub open spec fn marked_state(
    st: EditState,
    range_utf16: Option<Range<usize>>,
    t: Seq<char>,
    new_sel: Option<Range<usize>>,
) -> EditState {
    let a = ime_range(st, range_utf16).0;
    let b = ime_range(st, range_utf16).1;
    let text = spliced(st.text, a, b, t);
    let c = a + utf8_len(t);
    EditState {
        text,
        start: match new_sel {
            Some(r) => convert_offset(text, Encoding::Utf16, Encoding::Utf8, r.start as int) + a,
            None => c,
        },
        end: match new_sel {
            Some(r) => convert_offset(text, Encoding::Utf16, Encoding::Utf8, r.end as int) + a,
            None => c,
        },
        reversed: st.reversed,
        marked: if t.len() > 0 {
            Some((a, c))
        } else {
            None
        },
    }
}

/// A single-line text input's state.
#[derive(Debug)]
pub struct TextInput {
    pub value: String,
    pub placeholder: String,
    pub disabled: bool,
    pub error: bool,
    /// Each character is shown as [`MASK_CHAR`]; the value itself is kept.
    pub masked: bool,
    pub selected_range: Range<usize>,
    pub selection_reversed: bool,
    pub marked_range: Option<Range<usize>>,
    /// A pointer drag is selecting text.
    pub is_selecting: bool,
}

impl View for TextInput {
    type V = EditState;

    open spec fn view(&self) -> EditState {
        EditState {
            text: self.value@,
            start: self.selected_range.start as int,
            end: self.selected_range.end as int,
            reversed: self.selection_reversed,
            marked: match self.marked_range {
                Some(r) => Some((r.start as int, r.end as int)),
                None => None,
            },
        }
    }
}

/// Scanning the cluster starts `starts` from the end, the first one below
/// `offset`; 0 when there is none.
pub fn last_start_below(starts: &Vec<usize>, offset: usize) -> (b: usize)
    ensures
        b == last_start_before(starts@, offset as int),
{
    let mut i: usize = starts.len();
    proof {
        assert(starts@.take(starts@.len() as int) =~= starts@);
    }
    while i > 0
        invariant
            i <= starts@.len(),
            last_start_before(starts@, offset as int) == last_start_before(starts@.take(i as int), offset as int),
        decreases i,
    {
        assert(starts@.take(i as int).drop_last() =~= starts@.take(i - 1));
        assert(starts@.take(i as int).last() == starts@[i - 1]);
        if starts[i - 1] < offset {
            return starts[i - 1];
        }
        i = i - 1;
    }
    0
}

/// Scanning the cluster starts `starts` from the start, the first one above
/// `offset`; `end` when there is none.
pub fn first_start_above(starts: &Vec<usize>, offset: usize, end: usize) -> (b: usize)
    ensures
        b == first_start_after(starts@, offset as int, end as int),
{
    let mut i: usize = 0;
    proof {
        assert(starts@.skip(0) =~= starts@);
    }
    while i < starts.len()
        invariant
            i <= starts@.len(),
            first_start_after(starts@, offset as int, end as int) == first_start_after(
                starts@.skip(i as int),
                offset as int,
                end as int,
            ),
        decreases starts@.len() - i,
    {
        assert(starts@.skip(i as int).drop_first() =~= starts@.skip(i + 1));
        assert(starts@.skip(i as int)[0] == starts@[i as int]);
        if starts[i] > offset {
            return starts[i];
        }
        i = i + 1;
    }
    end
}

impl TextInput {
    /// Offsets fall between characters and the selection is ordered.
    pub open spec fn wf(&self) -> bool {
        self@.wf()
    }

    /// The settings an edit leaves alone.
    pub open spec fn same_settings(&self, other: &TextInput) -> bool {
        &&& self.placeholder@ == other.placeholder@
        &&& self.disabled == other.disabled
        &&& self.error == other.error
        &&& self.masked == other.masked
        &&& self.is_selecting == other.is_selecting
    }

    /// An empty, enabled input.
    pub fn new() -> (t: Self)
        ensures
            t.wf(),
            t@.text.len() == 0,
            t@.start == 0 && t@.end == 0 && !t@.reversed && t@.marked is None,
            t.placeholder@.len() == 0,
            !t.disabled && !t.error && !t.masked && !t.is_selecting,
    {
        let t = TextInput {
            value: String::new(),
            placeholder: String::new(),
            disabled: false,
            error: false,
            masked: false,
            selected_range: 0..0,
            selection_reversed: false,
            marked_range: None,
            is_selecting: false,
        };
        proof {
            lemma_ends_are_boundaries(t.value@, Encoding::Utf8);
        }
        t
    }

    /// The UTF-8 length of the text.
    pub fn len(&self) -> (n: usize)
        requires
            self.wf(),
        ensures
            n == self@.len(),
    {
        let chars = chars_of(self.value.as_str());
        encoded_len_of(&chars, Encoding::Utf8)
    }

    fn set_value_inner(&mut self, value: String)
        requires
            utf8_len(value@) <= usize::MAX,
        ensures
            final(self).wf(),
            final(self)@.text == value@,
            final(self)@.start == utf8_len(value@),
            final(self)@.end == utf8_len(value@),
            !final(self)@.reversed,
            final(self)@.marked is None,
            final(self).same_settings(old(self)),
    {
        let chars = chars_of(value.as_str());
        let n = encoded_len_of(&chars, Encoding::Utf8);
        self.value = value;
        self.selected_range = n..n;
        self.selection_reversed = false;
        self.marked_range = None;
        proof {
            lemma_ends_are_boundaries(self.value@, Encoding::Utf8);
        }
    }

    /// The input with this text, the caret at its end.
    pub fn value(self, value: String) -> (t: Self)
        requires
            utf8_len(value@) <= usize::MAX,
        ensures
            t.wf(),
            t@ == (EditState {
                text: value@,
                start: utf8_len(value@) as int,
                end: utf8_len(value@) as int,
                reversed: false,
                marked: None,
            }),
            t.same_settings(&self),
    {
        let mut t = self;
        t.set_value_inner(value);
        t
    }

    /// Replace the text, the caret at its end.
    pub fn set_value(&mut self, value: String)
        requires
            utf8_len(value@) <= usize::MAX,
        ensures
            final(self).wf(),
            final(self)@ == (EditState {
                text: value@,
                start: utf8_len(value@) as int,
                end: utf8_len(value@) as int,
                reversed: false,
                marked: None,
            }),
            final(self).same_settings(old(self)),
    {
        self.set_value_inner(value);
    }

    pub fn placeholder(self, placeholder: String) -> (t: Self)
        ensures
            t@ == self@,
            t.placeholder@ == placeholder@,
            t.disabled == self.disabled && t.error == self.error && t.masked == self.masked,
            t.is_selecting == self.is_selecting,
    {
        TextInput { placeholder, ..self }
    }

    pub fn set_placeholder(&mut self, placeholder: String)
        ensures
            final(self)@ == old(self)@,
            final(self).placeholder@ == placeholder@,
            final(self).disabled == old(self).disabled && final(self).error == old(self).error,
            final(self).masked == old(self).masked,
            final(self).is_selecting == old(self).is_selecting,
    {
        self.placeholder = placeholder;
    }

    pub fn disabled(self, disabled: bool) -> (t: Self)
        ensures
            t@ == self@,
            t.disabled == disabled,
            t.placeholder@ == self.placeholder@ && t.error == self.error && t.masked == self.masked,
            t.is_selecting == self.is_selecting,
    {
        TextInput { disabled, ..self }
    }

    pub fn set_disabled(&mut self, disabled: bool)
        ensures
            final(self)@ == old(self)@,
            final(self).disabled == disabled,
            final(self).placeholder@ == old(self).placeholder@,
            final(self).error == old(self).error && final(self).masked == old(self).masked,
            final(self).is_selecting == old(self).is_selecting,
    {
        self.disabled = disabled;
    }

    pub fn masked(self, masked: bool) -> (t: Self)
        ensures
            t@ == self@,
            t.masked == masked,
            t.placeholder@ == self.placeholder@ && t.error == self.error,
            t.disabled == self.disabled && t.is_selecting == self.is_selecting,
    {
        TextInput { masked, ..self }
    }

    pub fn is_masked(&self) -> (m: bool)
        ensures
            m == self.masked,
    {
        self.masked
    }

    pub fn set_masked(&mut self, masked: bool)
        ensures
            final(self)@ == old(self)@,
            final(self).masked == masked,
            final(self).placeholder@ == old(self).placeholder@,
            final(self).error == old(self).error && final(self).disabled == old(self).disabled,
            final(self).is_selecting == old(self).is_selecting,
    {
        self.masked = masked;
    }

    pub fn error(self, error: bool) -> (t: Self)
        ensures
            t@ == self@,
            t.error == error,
            t.placeholder@ == self.placeholder@ && t.masked == self.masked,
            t.disabled == self.disabled && t.is_selecting == self.is_selecting,
    {
        TextInput { error, ..self }
    }

    pub fn set_error(&mut self, error: bool)
        ensures
            final(self)@ == old(self)@,
            final(self).error == error,
            final(self).placeholder@ == old(self).placeholder@,
            final(self).masked == old(self).masked && final(self).disabled == old(self).disabled,
            final(self).is_selecting == old(self).is_selecting,
    {
        self.error = error;
    }

    /// The text (the real one, also when masked).
    pub fn text(&self) -> (t: &str)
        ensures
            t@ == self.value@,
    {
        self.value.as_str()
    }

    /// Where the caret is.
    pub fn cursor_offset(&self) -> (c: usize)
        ensures
            c == self@.cursor(),
    {
        if self.selection_reversed {
            self.selected_range.start
        } else {
            self.selected_range.end
        }
    }

    /// Whether the caret can be put at `offset`: a character boundary, or at
    /// or past the end.
    pub fn accepts_offset(&self, offset: usize) -> (ok: bool)
        requires
            self.wf(),
        ensures
            ok == self@.accepts(offset as int),
    {
        let chars = chars_of(self.value.as_str());
        let n = encoded_len_of(&chars, Encoding::Utf8);
        if offset >= n {
            return true;
        }
        let (_, r) = reach(&chars, Encoding::Utf8, Encoding::Utf8, offset);
        r == offset
    }

    /// Put the caret at `offset` (at most the end), selecting nothing.
    pub fn move_to(&mut self, offset: usize)
        requires
            old(self).wf(),
            old(self)@.accepts(offset as int),
        ensures
            final(self).wf(),
            final(self)@ == old(self)@.moved_to(offset as int),
            final(self).same_settings(old(self)),
    {
        let n = self.len();
        let o = if offset < n {
            offset
        } else {
            n
        };
        self.selected_range = o..o;
        self.selection_reversed = false;
        proof {
            lemma_moves_keep_wf(old(self)@, offset as int);
        }
    }

    /// Drag the caret end of the selection to `offset` (at most the end).
    pub fn select_to(&mut self, offset: usize)
        requires
            old(self).wf(),
            old(self)@.accepts(offset as int),
        ensures
            final(self).wf(),
            final(self)@ == old(self)@.selected_to(offset as int),
            final(self).same_settings(old(self)),
    {
        let n = self.len();
        let o = if offset < n {
            offset
        } else {
            n
        };
        if self.selection_reversed {
            self.selected_range.start = o;
        } else {
            self.selected_range.end = o;
        }
        if self.selected_range.end < self.selected_range.start {
            self.selection_reversed = !self.selection_reversed;
            self.selected_range = self.selected_range.end..self.selected_range.start;
        }
        proof {
            lemma_moves_keep_wf(old(self)@, offset as int);
        }
    }

    /// The start of the grapheme cluster before `offset` (0 if none). It also
    /// tells that every cluster start of the text falls between characters.
    pub fn previous_boundary(&self, offset: usize) -> (b: usize)
        requires
            self.wf(),
        ensures
            b == previous_boundary_of(self@.text, offset as int),
            is_boundary(self@.text, b as int),
            offset > 0 ==> b < offset,
            forall|i: int|
                0 <= i < grapheme_starts(self@.text).len() ==> is_boundary(
                    self@.text,
                    #[trigger] grapheme_starts(self@.text)[i] as int,
                ),
    {
        let g = grapheme_offsets(self.value.as_str());
        proof {
            lemma_last_start_before(self@.text, g@, offset as int);
        }
        last_start_below(&g, offset)
    }

    /// The start of the grapheme cluster after `offset` (the end if none).
    pub fn next_boundary(&self, offset: usize) -> (b: usize)
        requires
            self.wf(),
        ensures
            b == next_boundary_of(self@.text, offset as int),
            is_boundary(self@.text, b as int),
            offset < self@.len() ==> b > offset,
            forall|i: int|
                0 <= i < grapheme_starts(self@.text).len() ==> is_boundary(
                    self@.text,
                    #[trigger] grapheme_starts(self@.text)[i] as int,
                ),
    {
        let g = grapheme_offsets(self.value.as_str());
        let n = self.len();
        proof {
            lemma_first_start_after(self@.text, g@, offset as int);
        }
        first_start_above(&g, offset, n)
    }

    /// A UTF-16 offset as a UTF-8 offset.
    pub fn offset_from_utf16(&self, offset: usize) -> (o: usize)
        requires
            self.wf(),
        ensures
            o == convert_offset(self@.text, Encoding::Utf16, Encoding::Utf8, offset as int),
    {
        let chars = chars_of(self.value.as_str());
        reach(&chars, Encoding::Utf16, Encoding::Utf8, offset).1
    }

    /// A UTF-8 offset as a UTF-16 offset.
    pub fn offset_to_utf16(&self, offset: usize) -> (o: usize)
        requires
            self.wf(),
        ensures
            o == convert_offset(self@.text, Encoding::Utf8, Encoding::Utf16, offset as int),
    {
        let chars = chars_of(self.value.as_str());
        reach(&chars, Encoding::Utf8, Encoding::Utf16, offset).1
    }

    pub fn range_to_utf16(&self, range: &Range<usize>) -> (r: Range<usize>)
        requires
            self.wf(),
        ensures
            r.start == convert_offset(self@.text, Encoding::Utf8, Encoding::Utf16, range.start as int),
            r.end == convert_offset(self@.text, Encoding::Utf8, Encoding::Utf16, range.end as int),
    {
        self.offset_to_utf16(range.start)..self.offset_to_utf16(range.end)
    }

    pub fn range_from_utf16(&self, range_utf16: &Range<usize>) -> (r: Range<usize>)
        requires
            self.wf(),
        ensures
            r.start == convert_offset(self@.text, Encoding::Utf16, Encoding::Utf8, range_utf16.start as int),
            r.end == convert_offset(self@.text, Encoding::Utf16, Encoding::Utf8, range_utf16.end as int),
    {
        self.offset_from_utf16(range_utf16.start)..self.offset_from_utf16(range_utf16.end)
    }

    fn replace_range(&mut self, start: usize, end: usize, text: &str)
        requires
            old(self).wf(),
            is_boundary(old(self)@.text, start as int),
            is_boundary(old(self)@.text, end as int),
            start + utf8_len(text@) + (old(self)@.len() - end) <= usize::MAX,
        ensures
            final(self).wf(),
            final(self)@ == old(self)@.replaced_at(start as int, end as int, text@),
            final(self).same_settings(old(self)),
    {
        proof {
            lemma_replace_keeps_wf(old(self)@, start as int, end as int, text@);
            lemma_splice(old(self)@.text, start as int, end as int, text@);
        }
        let chars = chars_of(text);
        let tl = encoded_len_of(&chars, Encoding::Utf8);
        let v = splice(self.value.as_str(), start, end, text);
        self.value = v;
        let c = start + tl;
        self.selected_range = c..c;
        self.selection_reversed = false;
        self.marked_range = None;
    }

    /// Replace the marked range (else the selection) by `text`, the caret
    /// after it.
    pub fn replace_selected_text(&mut self, text: &str)
        requires
            old(self).wf(),
            old(self)@.len() + utf8_len(text@) <= usize::MAX,
        ensures
            final(self).wf(),
            final(self)@ == old(self)@.replaced(text@),
            final(self).same_settings(old(self)),
    {
        let (start, end) = match &self.marked_range {
            Some(r) => (r.start, r.end),
            None => (self.selected_range.start, self.selected_range.end),
        };
        self.replace_range(start, end, text);
    }

    /// Paste clipboard text, its line breaks turned into spaces.
    pub fn paste(&mut self, text: &str)
        requires
            old(self).wf(),
            old(self)@.len() + utf8_len(text@) <= usize::MAX,
        ensures
            final(self).wf(),
            final(self)@ == old(self)@.replaced(newlines_to_spaces(text@)),
            final(self).same_settings(old(self)),
    {
        let line = replace_newlines(text);
        proof {
            lemma_newlines_len(text@);
        }
        self.replace_selected_text(line.as_str());
    }
}

impl TextInput {
    /// React to a key. The host has already given Tab to focus navigation,
    /// and acts on the outcome: it redraws, reports edits, and serves the
    /// clipboard.
    pub fn handle_key(&mut self, key: &str, command: bool, shift: bool) -> (out: TextKeyOutcome)
        requires
            old(self).wf(),
        ensures
            final(self).wf(),
            final(self).same_settings(old(self)),
            old(self).disabled ==> final(self)@ == old(self)@ && out is Ignored,
            !old(self).disabled && command ==> final(self)@ == old(self)@.after_command(key@)
                && command_outcome(out, old(self)@, key@),
            !old(self).disabled && !command ==> final(self)@ == old(self)@.after_key(key@, shift)
                && key_outcome(out, key@),
    {
        if self.disabled {
            return TextKeyOutcome::Ignored;
        }
        let empty = !(self.selected_range.start < self.selected_range.end);
        proof {
            reveal_strlit("");
            reveal_strlit("a");
            reveal_strlit("c");
            reveal_strlit("x");
            reveal_strlit("v");
            assert("a"@[0] == 'a' && "c"@[0] == 'c' && "x"@[0] == 'x' && "v"@[0] == 'v');
            lemma_boundaries_of(self@);
        }
        if command {
            if str_eq(key, "a") {
                self.move_to(0);
                let n = self.len();
                self.select_to(n);
                return TextKeyOutcome::Moved;
            } else if str_eq(key, "c") && !empty {
                let t = slice_text(self.value.as_str(), self.selected_range.start, self.selected_range.end);
                return TextKeyOutcome::Copy(t);
            } else if str_eq(key, "x") && !empty {
                let t = slice_text(self.value.as_str(), self.selected_range.start, self.selected_range.end);
                self.replace_selected_text("");
                return TextKeyOutcome::Cut(t);
            } else if str_eq(key, "v") {
                return TextKeyOutcome::Paste;
            } else {
                return TextKeyOutcome::Ignored;
            }
        }
        match NavKey::parse(key) {
            NavKey::Backspace => {
                if empty {
                    let p = self.previous_boundary(self.cursor_offset());
                    self.select_to(p);
                }
                self.replace_selected_text("");
                TextKeyOutcome::Edited
            },
            NavKey::Delete => {
                if empty {
                    let n = self.next_boundary(self.cursor_offset());
                    self.select_to(n);
                }
                self.replace_selected_text("");
                TextKeyOutcome::Edited
            },
            NavKey::Left => {
                if shift {
                    let p = self.previous_boundary(self.cursor_offset());
                    self.select_to(p);
                } else if empty {
                    let p = self.previous_boundary(self.cursor_offset());
                    self.move_to(p);
                } else {
                    let s = self.selected_range.start;
                    self.move_to(s);
                }
                TextKeyOutcome::Moved
            },
            NavKey::Right => {
                if shift {
                    let n = self.next_boundary(self.cursor_offset());
                    self.select_to(n);
                } else if empty {
                    let n = self.next_boundary(self.selected_range.end);
                    self.move_to(n);
                } else {
                    let e = self.selected_range.end;
                    self.move_to(e);
                }
                TextKeyOutcome::Moved
            },
            NavKey::Home => {
                if shift {
                    self.select_to(0);
                } else {
                    self.move_to(0);
                }
                TextKeyOutcome::Moved
            },
            NavKey::End => {
                let n = self.len();
                if shift {
                    self.select_to(n);
                } else {
                    self.move_to(n);
                }
                TextKeyOutcome::Moved
            },
            _ => TextKeyOutcome::Ignored,
        }
    }

    /// A press of the primary button at text offset `index`: extends the
    /// selection with shift, else puts the caret there, and starts a drag.
    /// Returns whether the input takes focus (it does unless disabled).
    pub fn on_mouse_down(&mut self, index: usize, shift: bool) -> (focus: bool)
        requires
            old(self).wf(),
            old(self)@.accepts(index as int),
        ensures
            final(self).wf(),
            focus == !old(self).disabled,
            old(self).disabled ==> final(self)@ == old(self)@ && final(self).is_selecting
                == old(self).is_selecting,
            !old(self).disabled ==> final(self).is_selecting && final(self)@ == if shift {
                old(self)@.selected_to(index as int)
            } else {
                old(self)@.moved_to(index as int)
            },
            final(self).placeholder@ == old(self).placeholder@,
            final(self).disabled == old(self).disabled,
            final(self).error == old(self).error && final(self).masked == old(self).masked,
    {
        if self.disabled {
            return false;
        }
        self.is_selecting = true;
        if shift {
            self.select_to(index);
        } else {
            self.move_to(index);
        }
        true
    }

    /// The primary button was released: the drag ends.
    pub fn on_mouse_up(&mut self)
        ensures
            final(self)@ == old(self)@,
            !final(self).is_selecting,
            final(self).placeholder@ == old(self).placeholder@,
            final(self).disabled == old(self).disabled,
            final(self).error == old(self).error && final(self).masked == old(self).masked,
    {
        self.is_selecting = false;
    }

    /// The pointer moved over text offset `index`: a drag extends the
    /// selection there. Returns whether it did.
    pub fn on_mouse_move(&mut self, index: usize) -> (moved: bool)
        requires
            old(self).wf(),
            old(self)@.accepts(index as int),
        ensures
            final(self).wf(),
            final(self).same_settings(old(self)),
            moved == (old(self).is_selecting && !old(self).disabled),
            final(self)@ == if moved {
                old(self)@.selected_to(index as int)
            } else {
                old(self)@
            },
    {
        if self.is_selecting && !self.disabled {
            self.select_to(index);
            true
        } else {
            false
        }
    }

    /// The text in a UTF-16 range, and that range as it was read (the
    /// offsets carried to character boundaries).
    pub fn text_for_range(&self, range_utf16: Range<usize>) -> (r: (String, Range<usize>))
        requires
            self.wf(),
            convert_offset(self@.text, Encoding::Utf16, Encoding::Utf8, range_utf16.start as int)
                <= convert_offset(self@.text, Encoding::Utf16, Encoding::Utf8, range_utf16.end as int),
        ensures
            r.0@ == text_between(
                self@.text,
                convert_offset(self@.text, Encoding::Utf16, Encoding::Utf8, range_utf16.start as int) as int,
                convert_offset(self@.text, Encoding::Utf16, Encoding::Utf8, range_utf16.end as int) as int,
            ),
            r.1.start == convert_offset(
                self@.text,
                Encoding::Utf8,
                Encoding::Utf16,
                convert_offset(self@.text, Encoding::Utf16, Encoding::Utf8, range_utf16.start as int) as int,
            ),
            r.1.end == convert_offset(
                self@.text,
                Encoding::Utf8,
                Encoding::Utf16,
                convert_offset(self@.text, Encoding::Utf16, Encoding::Utf8, range_utf16.end as int) as int,
            ),
    {
        let range = self.range_from_utf16(&range_utf16);
        let actual = self.range_to_utf16(&range);
        proof {
            lemma_convert_is_boundary(self@.text, Encoding::Utf16, Encoding::Utf8, range_utf16.start as int);
            lemma_convert_is_boundary(self@.text, Encoding::Utf16, Encoding::Utf8, range_utf16.end as int);
        }
        let t = slice_text(self.value.as_str(), range.start, range.end);
        (t, actual)
    }

    /// The selection in UTF-16 offsets; none for a disabled input unless
    /// asked to ignore that.
    pub fn selected_text_range(&self, ignore_disabled_input: bool) -> (r: Option<Utf16Selection>)
        requires
            self.wf(),
        ensures
            (self.disabled && !ignore_disabled_input) ==> r is None,
            !(self.disabled && !ignore_disabled_input) ==> (r matches Some(sel) && sel.range.start
                == convert_offset(self@.text, Encoding::Utf8, Encoding::Utf16, self@.start)
                && sel.range.end == convert_offset(self@.text, Encoding::Utf8, Encoding::Utf16, self@.end)
                && sel.reversed == self.selection_reversed),
    {
        if self.disabled && !ignore_disabled_input {
            return None;
        }
        Some(
            Utf16Selection {
                range: self.range_to_utf16(&self.selected_range),
                reversed: self.selection_reversed,
            },
        )
    }

    /// The marked range in UTF-16 offsets.
    pub fn marked_text_range(&self) -> (r: Option<Range<usize>>)
        requires
            self.wf(),
        ensures
            match self@.marked {
                Some(m) => r matches Some(x) && x.start == convert_offset(
                    self@.text,
                    Encoding::Utf8,
                    Encoding::Utf16,
                    m.0,
                ) && x.end == convert_offset(self@.text, Encoding::Utf8, Encoding::Utf16, m.1),
                None => r is None,
            },
    {
        match &self.marked_range {
            Some(m) => Some(self.range_to_utf16(m)),
            None => None,
        }
    }

    /// Forget the marked range; the text stays.
    pub fn unmark_text(&mut self)
        requires
            old(self).wf(),
        ensures
            final(self).wf(),
            final(self)@ == (EditState { marked: None, ..old(self)@ }),
            final(self).same_settings(old(self)),
    {
        self.marked_range = None;
    }

    /// The UTF-8 range an input-method edit replaces.
    fn ime_edit_range(&self, range_utf16: &Option<Range<usize>>) -> (r: (usize, usize))
        requires
            self.wf(),
        ensures
            r.0 == ime_range(self@, *range_utf16).0,
            r.1 == ime_range(self@, *range_utf16).1,
            is_boundary(self@.text, r.0 as int),
            is_boundary(self@.text, r.1 as int),
    {
        match range_utf16 {
            Some(r16) => {
                proof {
                    lemma_convert_is_boundary(self@.text, Encoding::Utf16, Encoding::Utf8, r16.start as int);
                    lemma_convert_is_boundary(self@.text, Encoding::Utf16, Encoding::Utf8, r16.end as int);
                }
                let r = self.range_from_utf16(r16);
                (r.start, r.end)
            },
            None => match &self.marked_range {
                Some(m) => (m.start, m.end),
                None => (self.selected_range.start, self.selected_range.end),
            },
        }
    }

    /// The input method commits `new_text` over a UTF-16 range (else the
    /// marked range, else the selection); the caret follows it. Returns
    /// whether the text was edited (not when disabled).
    pub fn replace_text_in_range(&mut self, range_utf16: Option<Range<usize>>, new_text: &str) -> (edited: bool)
        requires
            old(self).wf(),
            !old(self).disabled ==> ime_fits(old(self)@, range_utf16, new_text@),
        ensures
            final(self).wf(),
            final(self).same_settings(old(self)),
            edited == !old(self).disabled,
            old(self).disabled ==> final(self)@ == old(self)@,
            !old(self).disabled ==> final(self)@ == old(self)@.replaced_at(
                ime_range(old(self)@, range_utf16).0,
                ime_range(old(self)@, range_utf16).1,
                new_text@,
            ),
    {
        if self.disabled {
            return false;
        }
        let (a, b) = self.ime_edit_range(&range_utf16);
        self.replace_range(a, b, new_text);
        true
    }

    /// Whether an input-method composition can be applied: the new text
    /// fits and the selection it asks for falls between characters of it.
    pub fn ime_mark_fits(
        &self,
        range_utf16: &Option<Range<usize>>,
        new_text: &str,
        new_selected_range_utf16: &Option<Range<usize>>,
    ) -> (ok: bool)
        requires
            self.wf(),
            utf8_len(new_text@) <= usize::MAX,
        ensures
            ok == (ime_fits(self@, *range_utf16, new_text@) && marked_state(
                self@,
                *range_utf16,
                new_text@,
                *new_selected_range_utf16,
            ).wf()),
    {
        let (a, b) = self.ime_edit_range(range_utf16);
        let n = self.len();
        let tchars = chars_of(new_text);
        let tl = encoded_len_of(&tchars, Encoding::Utf8);
        proof {
            lemma_boundary_index(self@.text, Encoding::Utf8, a as int);
            lemma_boundary_index(self@.text, Encoding::Utf8, b as int);
        }
        let rest = n - b;
        if a > usize::MAX - tl || a + tl > usize::MAX - rest {
            return false;
        }
        proof {
            lemma_splice(self@.text, a as int, b as int, new_text@);
        }
        let v = splice(self.value.as_str(), a, b, new_text);
        let vchars = chars_of(v.as_str());
        let ghost st = marked_state(self@, *range_utf16, new_text@, *new_selected_range_utf16);
        assert(st.text == v@);
        match new_selected_range_utf16 {
            None => {
                proof {
                    crate::encoding::lemma_reaching(new_text@, Encoding::Utf8, 0);
                }
                true
            },
            Some(r16) => {
                let s0 = reach(&vchars, Encoding::Utf16, Encoding::Utf8, r16.start).1;
                let e0 = reach(&vchars, Encoding::Utf16, Encoding::Utf8, r16.end).1;
                proof {
                    lemma_convert_is_boundary(v@, Encoding::Utf16, Encoding::Utf8, r16.start as int);
                    lemma_convert_is_boundary(v@, Encoding::Utf16, Encoding::Utf8, r16.end as int);
                }
                proof {
                    lemma_splice(self@.text, a as int, b as int, new_text@);
                    if st.wf() {
                        lemma_boundary_index(v@, Encoding::Utf8, st.start);
                        lemma_boundary_index(v@, Encoding::Utf8, st.end);
                    }
                }
                if s0 > usize::MAX - a || e0 > usize::MAX - a {
                    return false;
                }
                let s = s0 + a;
                let e = e0 + a;
                if s > e {
                    return false;
                }
                let vn = a + tl + rest;
                if e > vn {
                    return false;
                }
                let ks = reach(&vchars, Encoding::Utf8, Encoding::Utf8, s).1;
                let ke = reach(&vchars, Encoding::Utf8, Encoding::Utf8, e).1;
                proof {
                    lemma_splice(self@.text, a as int, b as int, new_text@);
                }
                ks == s && ke == e
            },
        }
    }

    /// The input method replaces a range (as in
    /// [`TextInput::replace_text_in_range`]) with composing text, marks it
    /// (nothing when it is empty) and selects within it. Returns whether the
    /// text was edited (not when disabled).
    pub fn replace_and_mark_text_in_range(
        &mut self,
        range_utf16: Option<Range<usize>>,
        new_text: &str,
        new_selected_range_utf16: Option<Range<usize>>,
    ) -> (edited: bool)
        requires
            old(self).wf(),
            !old(self).disabled ==> ime_fits(old(self)@, range_utf16, new_text@) && marked_state(
                old(self)@,
                range_utf16,
                new_text@,
                new_selected_range_utf16,
            ).wf(),
        ensures
            final(self).wf(),
            final(self).same_settings(old(self)),
            edited == !old(self).disabled,
            old(self).disabled ==> final(self)@ == old(self)@,
            !old(self).disabled ==> final(self)@ == marked_state(
                old(self)@,
                range_utf16,
                new_text@,
                new_selected_range_utf16,
            ),
    {
        if self.disabled {
            return false;
        }
        let (a, b) = self.ime_edit_range(&range_utf16);
        let tchars = chars_of(new_text);
        proof {
            lemma_splice(old(self)@.text, a as int, b as int, new_text@);
            crate::encoding::lemma_prefix_le(new_text@, new_text@.len() as int, Encoding::Utf8);
        }
        let tl = encoded_len_of(&tchars, Encoding::Utf8);
        let v = splice(self.value.as_str(), a, b, new_text);
        let ghost st = marked_state(old(self)@, range_utf16, new_text@, new_selected_range_utf16);
        proof {
            lemma_boundary_index(v@, Encoding::Utf8, st.start);
            lemma_boundary_index(v@, Encoding::Utf8, st.end);
        }
        let sel = match &new_selected_range_utf16 {
            Some(r16) => {
                let vchars = chars_of(v.as_str());
                let s0 = reach(&vchars, Encoding::Utf16, Encoding::Utf8, r16.start).1;
                let e0 = reach(&vchars, Encoding::Utf16, Encoding::Utf8, r16.end).1;
                s0 + a..e0 + a
            },
            None => a + tl..a + tl,
        };
        self.value = v;
        self.marked_range = if tchars.len() > 0 {
            Some(a..a + tl)
        } else {
            None
        };
        self.selected_range = sel;
        true
    }
}

/// Shift+Home from a collapsed caret keeps the anchor where the caret was
/// and selects everything before it: the selection runs from the start to
/// the old caret, the caret is at the start (the selection is reversed once
/// anything is selected), and the selected text is the prefix of the text
/// whose UTF-8 length is the old caret offset. Shift+End selects everything
/// after the caret the same way, with the caret at the end. Neither changes
/// the text or the marked range.
pub proof fn lemma_shift_home_end_select_from_caret(st: EditState)
    requires
        st.wf(),
        st.start == st.end,
    ensures
        ({
            let home = st.after_key("home"@, true);
            &&& home.text == st.text && home.marked == st.marked
            &&& home.start == 0 && home.end == st.end
            &&& home.cursor() == 0
            &&& st.end > 0 ==> home.reversed
            &&& utf8_len(home.selected_text()) == st.end
            &&& home.selected_text() == st.text.take(home.selected_text().len() as int)
        }),
        ({
            let end = st.after_key("end"@, true);
            &&& end.text == st.text && end.marked == st.marked
            &&& end.start == st.end && end.end == st.len()
            &&& end.cursor() == st.len()
            &&& st.end < st.len() ==> !end.reversed
            &&& utf8_len(end.selected_text()) == st.len() - st.end
            &&& st.text.take(st.text.len() - end.selected_text().len()) + end.selected_text() == st.text
        }),
{
    crate::keys::lemma_nav_key_names();
    let s = st.text;
    let c = st.end;
    lemma_ends_are_boundaries(s, Encoding::Utf8);
    lemma_boundary_index(s, Encoding::Utf8, c);
    let k = chars_reaching(s, Encoding::Utf8, c);
    let n = chars_reaching(s, Encoding::Utf8, st.len());
    let home = st.after_key("home"@, true);
    assert(home.selected_text() =~= s.take(k));
    let end = st.after_key("end"@, true);
    assert(n == s.len());
    assert(end.selected_text() =~= s.skip(k));
    assert(s =~= s.take(k) + s.skip(k));
    lemma_concat_len(s.take(k), s.skip(k), Encoding::Utf8);
    assert(s.take(s.len() - s.skip(k).len()) =~= s.take(k));
}

/// Selecting everything and cutting it empties a non-empty input that is not
/// composing text.
pub proof fn lemma_select_all_then_cut_empties(st: EditState)
    requires
        st.wf(),
        st.marked is None,
        st.text.len() > 0,
    ensures
        !st.after_command("a"@).selection_empty(),
        st.after_command("a"@).after_command("x"@).text.len() == 0,
        st.after_command("a"@).after_command("x"@).start == 0,
{
    reveal_strlit("a");
    reveal_strlit("x");
    assert("a"@[0] == 'a' && "x"@[0] == 'x');
    lemma_ends_are_boundaries(st.text, Encoding::Utf8);
    let e = Encoding::Utf8;
    crate::encoding::lemma_prefix_grows(st.text, 0, st.text.len() as int, e);
    lemma_take_all(st.text, e);
    assert(st.text.take(0) =~= Seq::<char>::empty());
    let all = st.after_command("a"@);
    assert(all.start == 0 && all.end == st.len());
    let cut = all.after_command("x"@);
    assert(cut.text =~= Seq::<char>::empty());
}

/// Backspace with a collapsed caret after the start of a text that is not
/// composing removes something before the caret, and leaves the caret where
/// the removed cluster began. This holds of every segmentation whose cluster
/// starts fall between characters, as the segmentation call guarantees.
pub proof fn lemma_backspace_removes_before_caret(st: EditState)
    requires
        st.wf(),
        st.marked is None,
        st.start == st.end,
        st.end > 0,
        forall|i: int|
            0 <= i < grapheme_starts(st.text).len() ==> is_boundary(st.text, #[trigger] grapheme_starts(st.text)[i] as int),
    ensures
        ({
            let after = st.after_key("backspace"@, false);
            let p = previous_boundary_of(st.text, st.end);
            &&& after.len() < st.len()
            &&& after.start == p && after.end == p
            &&& after.text == st.text.take(chars_reaching(st.text, Encoding::Utf8, p)) + st.text.skip(
                chars_reaching(st.text, Encoding::Utf8, st.end),
            )
        }),
{
    reveal_strlit("backspace");
    lemma_last_start_before(st.text, grapheme_starts(st.text), st.end);
    let p = previous_boundary_of(st.text, st.end);
    crate::keys::lemma_nav_key_names();
    lemma_boundary_index(st.text, Encoding::Utf8, st.end);
    let sel = st.selected_to(p);
    assert(sel.start == p && sel.end == st.end);
    lemma_splice(st.text, p, st.end, Seq::empty());
    assert(st.text.take(chars_reaching(st.text, Encoding::Utf8, p)) + Seq::<char>::empty() =~= st.text.take(
        chars_reaching(st.text, Encoding::Utf8, p),
    ));
}

} // verus!
