//! Offsets into text in UTF-8 bytes and UTF-16 code units. Editing buffers
//! keep byte offsets; the platform's input method speaks UTF-16. Both are
//! measured over the same characters, and an offset that falls inside a
//! character is carried to the end of that character.

use vstd::prelude::*;
use vstd::string::*;

verus! {

/// The unit an offset is counted in.
#[derive(Clone, Copy, Debug, PartialEq, Eq)]
pub enum Encoding {
    Utf8,
    Utf16,
}

/// How many units of `e` encode `c`.
pub open spec fn char_width(c: char, e: Encoding) -> nat {
    match e {
        Encoding::Utf8 => if (c as u32) < 0x80 {
            1
        } else if (c as u32) < 0x800 {
            2
        } else if (c as u32) < 0x10000 {
            3
        } else {
            4
        },
        Encoding::Utf16 => if (c as u32) < 0x10000 {
            1
        } else {
            2
        },
    }
}

/// How many units of `e` encode `s`.
pub open spec fn encoded_len(s: Seq<char>, e: Encoding) -> nat
    decreases s.len(),
{
    if s.len() == 0 {
        0
    } else {
        encoded_len(s.drop_last(), e) + char_width(s.last(), e)
    }
}

/// Starting at character `k`, the first character count whose encoding
/// reaches `off` units (or the whole text).
pub open spec fn chars_reaching_from(s: Seq<char>, e: Encoding, off: int, k: int) -> int
    decreases s.len() - k,
{
    if k >= s.len() || encoded_len(s.take(k), e) >= off {
        k
    } else {
        chars_reaching_from(s, e, off, k + 1)
    }
}

/// The fewest leading characters whose encoding reaches `off` units, or all
/// of them.
pub open spec fn chars_reaching(s: Seq<char>, e: Encoding, off: int) -> int {
    chars_reaching_from(s, e, off, 0)
}

/// The offset `off` (in units of `from`) carried to units of `to`.
pub open spec fn convert_offset(s: Seq<char>, from: Encoding, to: Encoding, off: int) -> nat {
    encoded_len(s.take(chars_reaching(s, from, off)), to)
}

/// `off` falls between two characters of `s` (or at either end) when
/// counted in units of `e`.
pub open spec fn is_boundary_in(s: Seq<char>, e: Encoding, off: int) -> bool {
    0 <= off && encoded_len(s.take(chars_reaching(s, e, off)), e) == off
}

/// `off` is a UTF-8 character boundary of `s`.
pub open spec fn is_boundary(s: Seq<char>, off: int) -> bool {
    is_boundary_in(s, Encoding::Utf8, off)
}

/// The UTF-8 length of `s`.
pub open spec fn utf8_len(s: Seq<char>) -> nat {
    encoded_len(s, Encoding::Utf8)
}

pub proof fn lemma_width_positive(c: char, e: Encoding)
    ensures
        1 <= char_width(c, e) <= 4,
        char_width(c, Encoding::Utf16) <= char_width(c, Encoding::Utf8),
{
}

/// One more character adds its width.
pub proof fn lemma_take_step(s: Seq<char>, k: int, e: Encoding)
    requires
        0 <= k < s.len(),
    ensures
        encoded_len(s.take(k + 1), e) == encoded_len(s.take(k), e) + char_width(s[k], e),
{
    assert(s.take(k + 1).drop_last() =~= s.take(k));
}

/// Longer prefixes encode strictly longer, by at least a unit per character.
pub proof fn lemma_prefix_grows(s: Seq<char>, j: int, k: int, e: Encoding)
    requires
        0 <= j <= k <= s.len(),
    ensures
        encoded_len(s.take(j), e) + (k - j) <= encoded_len(s.take(k), e),
    decreases k - j,
{
    if j < k {
        lemma_prefix_grows(s, j, k - 1, e);
        lemma_take_step(s, k - 1, e);
        lemma_width_positive(s[k - 1], e);
    }
}

/// The whole text is its longest prefix.
pub proof fn lemma_take_all(s: Seq<char>, e: Encoding)
    ensures
        s.take(s.len() as int) == s,
        encoded_len(s.take(s.len() as int), e) == encoded_len(s, e),
{
    assert(s.take(s.len() as int) =~= s);
}

/// Every prefix is no longer than the text.
pub proof fn lemma_prefix_le(s: Seq<char>, k: int, e: Encoding)
    requires
        0 <= k <= s.len(),
    ensures
        encoded_len(s.take(k), e) <= encoded_len(s, e),
{
    lemma_prefix_grows(s, k, s.len() as int, e);
    lemma_take_all(s, e);
}

/// UTF-16 never needs more units than UTF-8.
pub proof fn lemma_utf16_le_utf8(s: Seq<char>)
    ensures
        encoded_len(s, Encoding::Utf16) <= encoded_len(s, Encoding::Utf8),
    decreases s.len(),
{
    if s.len() > 0 {
        lemma_utf16_le_utf8(s.drop_last());
        lemma_width_positive(s.last(), Encoding::Utf8);
    }
}

/// Encoded lengths add up over concatenation.
pub proof fn lemma_concat_len(a: Seq<char>, b: Seq<char>, e: Encoding)
    ensures
        encoded_len(a + b, e) == encoded_len(a, e) + encoded_len(b, e),
    decreases b.len(),
{
    if b.len() == 0 {
        assert(a + b =~= a);
    } else {
        lemma_concat_len(a, b.drop_last(), e);
        assert((a + b).drop_last() =~= a + b.drop_last());
        assert((a + b).last() == b.last());
    }
}

/// What [`chars_reaching_from`] gives: a count in `[k, len]` before which no
/// prefix reaches `off`, and which reaches it unless it is the whole text.
pub proof fn lemma_reaching_from(s: Seq<char>, e: Encoding, off: int, k: int)
    requires
        0 <= k <= s.len(),
    ensures
        k <= chars_reaching_from(s, e, off, k) <= s.len(),
        chars_reaching_from(s, e, off, k) < s.len() ==> encoded_len(
            s.take(chars_reaching_from(s, e, off, k)),
            e,
        ) >= off,
        forall|j: int|
            k <= j < chars_reaching_from(s, e, off, k) ==> #[trigger] encoded_len(s.take(j), e)
                < off,
    decreases s.len() - k,
{
    if k < s.len() && encoded_len(s.take(k), e) < off {
        lemma_reaching_from(s, e, off, k + 1);
    }
}

/// Counting from the start, the result of [`chars_reaching`].
pub proof fn lemma_reaching(s: Seq<char>, e: Encoding, off: int)
    ensures
        0 <= chars_reaching(s, e, off) <= s.len(),
        chars_reaching(s, e, off) < s.len() ==> encoded_len(s.take(chars_reaching(s, e, off)), e)
            >= off,
        forall|j: int|
            0 <= j < chars_reaching(s, e, off) ==> #[trigger] encoded_len(s.take(j), e) < off,
{
    lemma_reaching_from(s, e, off, 0);
}

/// The offset of a prefix is reached exactly by that prefix.
pub proof fn lemma_reaching_exact(s: Seq<char>, e: Encoding, k: int)
    requires
        0 <= k <= s.len(),
    ensures
        chars_reaching(s, e, encoded_len(s.take(k), e) as int) == k,
        is_boundary_in(s, e, encoded_len(s.take(k), e) as int),
{
    let off = encoded_len(s.take(k), e) as int;
    lemma_reaching(s, e, off);
    let r = chars_reaching(s, e, off);
    if r > k {
        assert(encoded_len(s.take(k), e) < off);
    }
    if r < k {
        lemma_prefix_grows(s, r, k, e);
    }
}

/// A boundary is the offset of the prefix that reaches it.
pub proof fn lemma_boundary_index(s: Seq<char>, e: Encoding, off: int)
    requires
        is_boundary_in(s, e, off),
    ensures
        0 <= chars_reaching(s, e, off) <= s.len(),
        encoded_len(s.take(chars_reaching(s, e, off)), e) == off,
        off <= encoded_len(s, e),
{
    lemma_reaching(s, e, off);
    lemma_prefix_le(s, chars_reaching(s, e, off), e);
}

/// Two boundaries are ordered as their character counts are.
pub proof fn lemma_boundary_order(s: Seq<char>, e: Encoding, a: int, b: int)
    requires
        is_boundary_in(s, e, a),
        is_boundary_in(s, e, b),
        a <= b,
    ensures
        chars_reaching(s, e, a) <= chars_reaching(s, e, b),
{
    lemma_boundary_index(s, e, a);
    lemma_boundary_index(s, e, b);
    let ka = chars_reaching(s, e, a);
    let kb = chars_reaching(s, e, b);
    if ka > kb {
        lemma_prefix_grows(s, kb, ka, e);
    }
}

/// Both ends of the text are boundaries.
pub proof fn lemma_ends_are_boundaries(s: Seq<char>, e: Encoding)
    ensures
        is_boundary_in(s, e, 0),
        is_boundary_in(s, e, encoded_len(s, e) as int),
        chars_reaching(s, e, encoded_len(s, e) as int) == s.len(),
        chars_reaching(s, e, 0) == 0,
{
    lemma_reaching_exact(s, e, 0);
    assert(s.take(0) =~= Seq::<char>::empty());
    lemma_reaching_exact(s, e, s.len() as int);
    lemma_take_all(s, e);
}

/// Carrying a boundary to the other encoding and back returns it.
pub proof fn lemma_convert_round_trip(s: Seq<char>, from: Encoding, to: Encoding, off: int)
    requires
        is_boundary_in(s, from, off),
    ensures
        is_boundary_in(s, to, convert_offset(s, from, to, off) as int),
        convert_offset(s, to, from, convert_offset(s, from, to, off) as int) == off,
{
    lemma_boundary_index(s, from, off);
    let k = chars_reaching(s, from, off);
    lemma_reaching_exact(s, to, k);
}

fn width_of(c: char, e: Encoding) -> (w: usize)
    ensures
        w == char_width(c, e),
{
    let code = c as u32;
    match e {
        Encoding::Utf8 => if code < 0x80 {
            1
        } else if code < 0x800 {
            2
        } else if code < 0x10000 {
            3
        } else {
            4
        },
        Encoding::Utf16 => if code < 0x10000 {
            1
        } else {
            2
        },
    }
}

/// The number of `e` units that encode `chars`.
pub fn encoded_len_of(chars: &Vec<char>, e: Encoding) -> (n: usize)
    requires
        utf8_len(chars@) <= usize::MAX,
    ensures
        n == encoded_len(chars@, e),
{
    let ghost s = chars@;
    let mut i: usize = 0;
    let mut n: usize = 0;
    proof {
        assert(s.take(0) =~= Seq::<char>::empty());
    }
    while i < chars.len()
        invariant
            s == chars@,
            utf8_len(s) <= usize::MAX,
            i <= s.len(),
            n == encoded_len(s.take(i as int), e),
        decreases s.len() - i,
    {
        proof {
            lemma_take_step(s, i as int, e);
            lemma_prefix_le(s, i as int + 1, e);
            lemma_utf16_le_utf8(s);
        }
        n = n + width_of(chars[i], e);
        i = i + 1;
    }
    proof {
        lemma_take_all(s, e);
    }
    n
}

/// The character count [`chars_reaching`] gives, and the offset it stands
/// for in units of `to`.
pub fn reach(chars: &Vec<char>, from: Encoding, to: Encoding, off: usize) -> (r: (usize, usize))
    requires
        utf8_len(chars@) <= usize::MAX,
    ensures
        r.0 == chars_reaching(chars@, from, off as int),
        r.1 == convert_offset(chars@, from, to, off as int),
{
    let ghost s = chars@;
    let mut i: usize = 0;
    let mut seen: usize = 0;
    let mut out: usize = 0;
    proof {
        assert(s.take(0) =~= Seq::<char>::empty());
    }
    while i < chars.len() && seen < off
        invariant
            s == chars@,
            utf8_len(s) <= usize::MAX,
            i <= s.len(),
            seen == encoded_len(s.take(i as int), from),
            out == encoded_len(s.take(i as int), to),
            chars_reaching(s, from, off as int) == chars_reaching_from(s, from, off as int, i as int),
        decreases s.len() - i,
    {
        proof {
            lemma_take_step(s, i as int, from);
            lemma_take_step(s, i as int, to);
            lemma_prefix_le(s, i as int + 1, from);
            lemma_prefix_le(s, i as int + 1, to);
            lemma_utf16_le_utf8(s);
        }
        seen = seen + width_of(chars[i], from);
        out = out + width_of(chars[i], to);
        i = i + 1;
    }
    (i, out)
}

/// The text with the units `[start, end)` (UTF-8 boundaries) replaced by
/// `text`.
pub fn splice(value: &str, start: usize, end: usize, text: &str) -> (r: String)
    requires
        is_boundary(value@, start as int),
        is_boundary(value@, end as int),
        utf8_len(value@) <= usize::MAX,
    ensures
        r@ == value@.take(chars_reaching(value@, Encoding::Utf8, start as int)) + text@
            + value@.skip(chars_reaching(value@, Encoding::Utf8, end as int)),
{
    let chars = crate::text::chars_of(value);
    let (ks, _) = reach(&chars, Encoding::Utf8, Encoding::Utf8, start);
    let (ke, _) = reach(&chars, Encoding::Utf8, Encoding::Utf8, end);
    proof {
        lemma_boundary_index(value@, Encoding::Utf8, start as int);
        lemma_boundary_index(value@, Encoding::Utf8, end as int);
    }
    let n = value.unicode_len();
    let head = String::from_str(value.substring_char(0, ks));
    let tail = value.substring_char(ke, n);
    let joined = head.concat(text);
    let r = joined.concat(tail);
    proof {
        assert(value@.subrange(0, ks as int) =~= value@.take(ks as int));
        assert(value@.subrange(ke as int, n as int) =~= value@.skip(ke as int));
    }
    r
}

/// The text between two UTF-8 boundaries.
pub fn slice_text(value: &str, start: usize, end: usize) -> (r: String)
    requires
        is_boundary(value@, start as int),
        is_boundary(value@, end as int),
        start <= end,
        utf8_len(value@) <= usize::MAX,
    ensures
        r@ == value@.subrange(
            chars_reaching(value@, Encoding::Utf8, start as int),
            chars_reaching(value@, Encoding::Utf8, end as int),
        ),
{
    let chars = crate::text::chars_of(value);
    let (ks, _) = reach(&chars, Encoding::Utf8, Encoding::Utf8, start);
    let (ke, _) = reach(&chars, Encoding::Utf8, Encoding::Utf8, end);
    proof {
        lemma_boundary_order(value@, Encoding::Utf8, start as int, end as int);
        lemma_boundary_index(value@, Encoding::Utf8, end as int);
    }
    String::from_str(value.substring_char(ks, ke))
}

/// Offsets are carried between encodings in order.
pub proof fn lemma_convert_monotone(s: Seq<char>, from: Encoding, to: Encoding, a: int, b: int)
    requires
        a <= b,
    ensures
        chars_reaching(s, from, a) <= chars_reaching(s, from, b),
        convert_offset(s, from, to, a) <= convert_offset(s, from, to, b),
{
    lemma_reaching(s, from, a);
    lemma_reaching(s, from, b);
    let ka = chars_reaching(s, from, a);
    let kb = chars_reaching(s, from, b);
    if kb < ka {
        assert(encoded_len(s.take(kb), from) < a);
    }
    lemma_prefix_grows(s, ka, kb, to);
}

/// A converted offset is always a boundary in the target encoding.
pub proof fn lemma_convert_is_boundary(s: Seq<char>, from: Encoding, to: Encoding, off: int)
    ensures
        is_boundary_in(s, to, convert_offset(s, from, to, off) as int),
        convert_offset(s, from, to, off) <= encoded_len(s, to),
{
    lemma_reaching(s, from, off);
    lemma_reaching_exact(s, to, chars_reaching(s, from, off));
    lemma_prefix_le(s, chars_reaching(s, from, off), to);
}

} // verus!
