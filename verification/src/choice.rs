//! The options of a dropdown or a combobox: a value and the label shown for
//! it, looked up by value and filtered by a case-insensitive substring of the
//! label.

use vstd::prelude::*;
use vstd::string::*;
use crate::text::{chars_of, contains_chars, contains_seq};

verus! {

/// One selectable option.
#[derive(Debug)]
pub struct ChoiceOption {
    pub value: String,
    pub label: String,
}

impl Clone for ChoiceOption {
    fn clone(&self) -> (c: Self)
        ensures
            c == *self,
    {
        ChoiceOption { value: self.value.clone(), label: self.label.clone() }
    }
}

impl ChoiceOption {
    pub fn new(value: String, label: String) -> (o: Self)
        ensures
            o.value == value,
            o.label == label,
    {
        ChoiceOption { value, label }
    }
}

/// The label of the first option with value `v`.
pub open spec fn find_label(opts: Seq<ChoiceOption>, v: Seq<char>) -> Option<Seq<char>>
    decreases opts.len(),
{
    if opts.len() == 0 {
        None
    } else if opts[0].value@ == v {
        Some(opts[0].label@)
    } else {
        find_label(opts.drop_first(), v)
    }
}

/// The label of the first option with this value, if any.
pub fn label_of(options: &Vec<ChoiceOption>, value: &String) -> (l: Option<String>)
    ensures
        match find_label(options@, value@) {
            Some(x) => l matches Some(s) && s@ == x,
            None => l is None,
        },
{
    let mut i: usize = 0;
    proof {
        assert(options@.skip(0) =~= options@);
    }
    while i < options.len()
        invariant
            i <= options@.len(),
            find_label(options@, value@) == find_label(options@.skip(i as int), value@),
        decreases options@.len() - i,
    {
        assert(options@.skip(i as int).drop_first() =~= options@.skip(i + 1));
        assert(options@.skip(i as int)[0] == options@[i as int]);
        if options[i].value == *value {
            return Some(options[i].label.clone());
        }
        i = i + 1;
    }
    None
}

/// The Unicode lower-case form of a text.
pub uninterp spec fn lowercase(s: Seq<char>) -> Seq<char>;

/// `str::to_lowercase`, whose result is named by [`lowercase`]: it depends
/// on the text alone (Rust's lower-casing follows the Unicode tables and no
/// locale). Beyond that the contract says only that the result is empty
/// exactly when the text is (every character maps to at least one); the
/// mapping itself is not restated.
#[verifier::external_body]
fn to_lowercase(s: &str) -> (r: String)
    ensures
        r@ == lowercase(s@),
        r@.len() == 0 <==> s@.len() == 0,
{
    s.to_lowercase()
}

/// The characters of the lower-cased text.
pub fn lowercase_chars(s: &str) -> (v: Vec<char>)
    ensures
        v@ == lowercase(s@),
        v@.len() == 0 <==> s@.len() == 0,
{
    let l = to_lowercase(s);
    chars_of(l.as_str())
}

/// The options among the first `k` whose lower-cased label (given in
/// `lowered`) contains `needle`, in order.
pub open spec fn matching_by(
    opts: Seq<ChoiceOption>,
    lowered: Seq<Seq<char>>,
    needle: Seq<char>,
    k: int,
) -> Seq<ChoiceOption>
    decreases k,
{
    if k <= 0 {
        Seq::empty()
    } else {
        let prev = matching_by(opts, lowered, needle, k - 1);
        if contains_seq(lowered[k - 1], needle) {
            prev.push(opts[k - 1])
        } else {
            prev
        }
    }
}

/// The lower-cased labels of the options.
pub open spec fn lowered_labels(opts: Seq<ChoiceOption>) -> Seq<Seq<char>> {
    opts.map_values(|o: ChoiceOption| lowercase(o.label@))
}

/// The options a query keeps: all of them for an empty query, else those
/// whose lower-cased label contains the lower-cased query.
pub open spec fn filtered(opts: Seq<ChoiceOption>, query: Seq<char>) -> Seq<ChoiceOption> {
    if query.len() == 0 {
        opts
    } else {
        matching_by(opts, lowered_labels(opts), lowercase(query), opts.len() as int)
    }
}

/// The options whose label, as given lower-cased in `lowered`, contains
/// `needle`, in their order.
pub fn select_matching(
    options: &Vec<ChoiceOption>,
    lowered: &Vec<Vec<char>>,
    needle: &Vec<char>,
) -> (r: Vec<ChoiceOption>)
    requires
        lowered@.len() == options@.len(),
    ensures
        r@ == matching_by(
            options@,
            lowered@.map_values(|v: Vec<char>| v@),
            needle@,
            options@.len() as int,
        ),
{
    let ghost low = lowered@.map_values(|v: Vec<char>| v@);
    let mut r: Vec<ChoiceOption> = Vec::new();
    let mut i: usize = 0;
    while i < options.len()
        invariant
            lowered@.len() == options@.len(),
            low == lowered@.map_values(|v: Vec<char>| v@),
            i <= options@.len(),
            r@ == matching_by(options@, low, needle@, i as int),
        decreases options@.len() - i,
    {
        assert(low[i as int] == lowered@[i as int]@);
        if contains_chars(&lowered[i], needle) {
            r.push(options[i].clone());
        }
        i = i + 1;
    }
    r
}

/// The options a query keeps (see [`filtered`]).
pub fn filter_options(options: &Vec<ChoiceOption>, query: &String) -> (r: Vec<ChoiceOption>)
    ensures
        r@ == filtered(options@, query@),
{
    if query.as_str().unicode_len() == 0 {
        let mut all: Vec<ChoiceOption> = Vec::new();
        let mut i: usize = 0;
        while i < options.len()
            invariant
                i <= options@.len(),
                all@ == options@.take(i as int),
            decreases options@.len() - i,
        {
            all.push(options[i].clone());
            i = i + 1;
            assert(all@ =~= options@.take(i as int));
        }
        assert(options@.take(options@.len() as int) =~= options@);
        return all;
    }
    let needle = lowercase_chars(query.as_str());
    let mut lowered: Vec<Vec<char>> = Vec::new();
    let mut i: usize = 0;
    while i < options.len()
        invariant
            i <= options@.len(),
            lowered@.len() == i,
            forall|j: int| 0 <= j < i ==> #[trigger] lowered@[j]@ == lowercase(options@[j].label@),
        decreases options@.len() - i,
    {
        lowered.push(lowercase_chars(options[i].label.as_str()));
        i = i + 1;
    }
    let r = select_matching(options, &lowered, &needle);
    assert(lowered@.map_values(|v: Vec<char>| v@) =~= lowered_labels(options@));
    r
}

/// Filtering keeps options in their order and only those whose
/// lower-cased label contains the lower-cased query; an empty query keeps
/// them all.
pub proof fn lemma_filter_sound(opts: Seq<ChoiceOption>, query: Seq<char>)
    ensures
        query.len() == 0 ==> filtered(opts, query) == opts,
        filtered(opts, query).len() <= opts.len(),
        query.len() > 0 ==> forall|k: int|
            0 <= k < filtered(opts, query).len() ==> contains_seq(
                lowercase(#[trigger] filtered(opts, query)[k].label@),
                lowercase(query),
            ) && opts.contains(filtered(opts, query)[k]),
{
    if query.len() > 0 {
        lemma_matching_sound(opts, lowered_labels(opts), lowercase(query), opts.len() as int);
    }
}

proof fn lemma_matching_sound(opts: Seq<ChoiceOption>, lowered: Seq<Seq<char>>, needle: Seq<char>, k: int)
    requires
        0 <= k <= opts.len(),
        lowered == lowered_labels(opts),
    ensures
        matching_by(opts, lowered, needle, k).len() <= k,
        forall|j: int|
            0 <= j < matching_by(opts, lowered, needle, k).len() ==> contains_seq(
                lowercase(#[trigger] matching_by(opts, lowered, needle, k)[j].label@),
                needle,
            ) && opts.contains(matching_by(opts, lowered, needle, k)[j]),
    decreases k,
{
    if k > 0 {
        lemma_matching_sound(opts, lowered, needle, k - 1);
        let prev = matching_by(opts, lowered, needle, k - 1);
        let cur = matching_by(opts, lowered, needle, k);
        assert forall|j: int| 0 <= j < cur.len() implies contains_seq(lowercase(#[trigger] cur[j].label@), needle)
            && opts.contains(cur[j]) by {
            if j < prev.len() {
                assert(cur[j] == prev[j]);
            } else {
                assert(cur[j] == opts[k - 1]);
                assert(lowered[k - 1] == lowercase(opts[k - 1].label@));
            }
        }
    }
}

} // verus!
