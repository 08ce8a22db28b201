//! Tag extraction: scans a message for a fixed vocabulary of diet, cuisine
//! and meal-type keywords, matched case-insensitively as substrings.

use vstd::prelude::*;
use crate::text::{
    contains_sub, contains_substring, lemma_filter_membership, lemma_filter_push, lower,
    to_lower_chars,
};

verus! {

/// The fixed keyword vocabulary, in the order tags are reported.
pub open spec fn vocabulary() -> Seq<Seq<char>> {
    seq![
        "vegetarian"@,
        "vegan"@,
        "dessert"@,
        "keto"@,
        "low carb"@,
        "soup"@,
        "italian"@,
        "spanish"@,
        "mexican"@,
    ]
}

/// A vocabulary word counts as a tag of a message when it occurs in the
/// lowercased message text as a substring.
pub open spec fn is_tag_of(text: Seq<char>, v: Seq<char>) -> bool {
    contains_sub(lower(text), v)
}

/// The tags of a message: the vocabulary words that occur in the lowercased
/// text, in vocabulary order.
pub open spec fn spec_tags(text: Seq<char>) -> Seq<Seq<char>> {
    vocabulary().filter(|v: Seq<char>| is_tag_of(text, v))
}

/// The vocabulary, as text slices, in the order of `vocabulary()`.
fn vocabulary_exec() -> (r: Vec<&'static str>)
    ensures
        r@.map_values(|w: &str| w@) == vocabulary(),
{
    let mut r: Vec<&'static str> = Vec::new();
    r.push("vegetarian");
    r.push("vegan");
    r.push("dessert");
    r.push("keto");
    r.push("low carb");
    r.push("soup");
    r.push("italian");
    r.push("spanish");
    r.push("mexican");
    proof {
        assert(r@.map_values(|w: &str| w@) =~= vocabulary());
    }
    r
}

/// Returns the vocabulary words that occur, case-insensitively, in the text,
/// in vocabulary order. An empty result means "no dietary or cuisine filter".
pub fn extract_tags(text: &str) -> (r: Vec<String>)
    ensures
        r@.map_values(|s: String| s@) == spec_tags(text@),
{
    let low = to_lower_chars(text);
    let voc = vocabulary_exec();
    let mut r: Vec<String> = Vec::new();
    let mut i: usize = 0;
    proof {
        assert(vocabulary().take(0) =~= Seq::<Seq<char>>::empty());
        reveal(Seq::filter);
    }
    while i < voc.len()
        invariant
            voc@.map_values(|w: &str| w@) == vocabulary(),
            low@ == lower(text@),
            i <= voc@.len(),
            r@.map_values(|s: String| s@) == vocabulary().take(i as int).filter(
                |v: Seq<char>| is_tag_of(text@, v),
            ),
        decreases voc@.len() - i,
    {
        let ghost pred = |v: Seq<char>| is_tag_of(text@, v);
        proof {
            assert(voc@.map_values(|w: &str| w@)[i as int] == vocabulary()[i as int]);
            assert(vocabulary().take(i + 1) =~= vocabulary().take(i as int).push(
                vocabulary()[i as int],
            ));
            lemma_filter_push(vocabulary().take(i as int), vocabulary()[i as int], pred);
        }
        let hit = contains_substring(&low, voc[i]);
        proof {
            assert(voc@.map_values(|w: &str| w@)[i as int] == voc@[i as int]@);
            assert(pred(vocabulary()[i as int]) == hit);
        }
        if hit {
            let tag = String::from_str(voc[i]);
            proof {
                assert(r@.push(tag).map_values(|s: String| s@) =~= r@.map_values(
                    |s: String| s@,
                ).push(tag@));
            }
            r.push(tag);
        }
        i = i + 1;
    }
    proof {
        assert(vocabulary().take(voc@.len() as int) =~= vocabulary());
    }
    r
}

/// Law: tag extraction is order-independent. Whether a word is reported as a
/// tag depends only on whether it is a vocabulary word and occurs in the
/// lowercased text — not on where in the text it occurs, nor on any other
/// word.
pub proof fn lemma_tags_membership(text: Seq<char>, v: Seq<char>)
    ensures
        spec_tags(text).contains(v) <==> (vocabulary().contains(v) && is_tag_of(text, v)),
{
    lemma_filter_membership(vocabulary(), |w: Seq<char>| is_tag_of(text, w), v);
}

/// Law: when no vocabulary word occurs in the text, the extracted tag set is
/// empty.
pub proof fn lemma_tags_empty(text: Seq<char>)
    requires
        forall|v: Seq<char>| vocabulary().contains(v) ==> !is_tag_of(text, v),
    ensures
        spec_tags(text) == Seq::<Seq<char>>::empty(),
{
    if spec_tags(text).len() > 0 {
        let x = spec_tags(text)[0];
        assert(spec_tags(text).contains(x));
        lemma_tags_membership(text, x);
    }
    assert(spec_tags(text) =~= Seq::<Seq<char>>::empty());
}

/// Law: tag extraction is a pure function of the text — two runs on the same
/// text yield identical results.
pub proof fn lemma_tags_deterministic(text: Seq<char>, r1: Seq<Seq<char>>, r2: Seq<Seq<char>>)
    requires
        r1 == spec_tags(text),
        r2 == spec_tags(text),
    ensures
        r1 == r2,
{
}

} // verus!
