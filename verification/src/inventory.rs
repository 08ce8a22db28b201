//! Inventory parsing: recognizes an "ingredients I have" style sentence — any
//! text whose lowercased form holds the word "contains" followed by
//! whitespace — and extracts the normalized ingredient list that follows the
//! trigger.

use vstd::prelude::*;
use crate::text::{
    chars_eq_str, is_space, lemma_filter_push, lower, matches_at, split_whitespace_chars, split_ws,
    to_lower_chars, trim_trailing_punct, trim_trailing_punct_exec, chars_to_string,
};

verus! {

/// The inventory trigger stands at position `i` of `s`: the word "contains"
/// followed by a whitespace character.
pub open spec fn trigger_at(s: Seq<char>, i: int) -> bool {
    &&& 0 <= i
    &&& i + 9 <= s.len()
    &&& s.subrange(i, i + 8) == "contains"@
    &&& is_space(s[i + 8])
}

/// The text holds an inventory trigger somewhere.
pub open spec fn has_trigger(s: Seq<char>) -> bool {
    exists|i: int| trigger_at(s, i)
}

/// A message is an inventory statement when its lowercased text holds the
/// trigger.
pub open spec fn spec_is_inventory(text: Seq<char>) -> bool {
    has_trigger(lower(text))
}

/// The position of the leftmost inventory trigger.
pub open spec fn first_trigger(s: Seq<char>) -> int {
    choose|i: int| trigger_at(s, i) && (forall|j: int| 0 <= j < i ==> !trigger_at(s, j))
}

proof fn lemma_first_trigger(s: Seq<char>, i: int)
    requires
        trigger_at(s, i),
        forall|j: int| 0 <= j < i ==> !trigger_at(s, j),
    ensures
        first_trigger(s) == i,
{
    let c = first_trigger(s);
    assert(trigger_at(s, c) && (forall|j: int| 0 <= j < c ==> !trigger_at(s, j)));
    if c < i {
        assert(!trigger_at(s, c));
    }
    if i < c {
        assert(!trigger_at(s, i));
    }
}

/// A cleaned token is kept as an ingredient when it is non-empty and is
/// neither the connector word "and" nor the trigger word "contains".
pub open spec fn keep_token(t: Seq<char>) -> bool {
    t.len() > 0 && t != "and"@ && t != "contains"@
}

/// The ingredient list extracted from the text after the trigger: the
/// whitespace-separated tokens, each with trailing commas and periods
/// removed, without the words "and" and "contains" and without empty tokens.
/// Order and repetition are preserved.
pub open spec fn items_of_rest(rest: Seq<char>) -> Seq<Seq<char>> {
    split_ws(rest).map_values(|t: Seq<char>| trim_trailing_punct(t)).filter(
        |t: Seq<char>| keep_token(t),
    )
}

/// The ingredient list of an inventory statement: what follows the leftmost
/// trigger of the lowercased text, tokenized and cleaned.
pub open spec fn spec_inventory_items(text: Seq<char>) -> Seq<Seq<char>> {
    items_of_rest(lower(text).skip(first_trigger(lower(text)) + 9))
}

fn find_trigger(s: &Vec<char>) -> (r: Option<usize>)
    ensures
        match r {
            Some(i) => trigger_at(s@, i as int) && (forall|j: int|
                0 <= j < i ==> !trigger_at(s@, j)),
            None => !has_trigger(s@),
        },
{
    proof {
        reveal_strlit("contains");
    }
    let n: usize = s.len();
    if n < 9 {
        return None;
    }
    let mut i: usize = 0;
    while i <= n - 9
        invariant
            n == s@.len(),
            9 <= n,
            i <= n - 9 + 1,
            forall|j: int| 0 <= j < i ==> !trigger_at(s@, j),
        decreases n - i,
    {
        proof {
            reveal_strlit("contains");
        }
        let word_hit = matches_at(s, "contains", i, 8);
        if word_hit && is_space_at(s, i + 8) {
            return Some(i);
        }
        proof {
            assert(!trigger_at(s@, i as int));
        }
        i = i + 1;
    }
    None
}

fn is_space_at(s: &Vec<char>, i: usize) -> (r: bool)
    requires
        i < s@.len(),
    ensures
        r == is_space(s@[i as int]),
{
    let c = s[i];
    c == ' ' || c == '\t' || c == '\n' || c == '\r'
}

/// Whether the message is an inventory statement: its lowercased text holds
/// the word "contains" followed by whitespace.
pub fn is_inventory_statement(text: &str) -> (r: bool)
    ensures
        r == spec_is_inventory(text@),
{
    let low = to_lower_chars(text);
    match find_trigger(&low) {
        Some(_) => true,
        None => false,
    }
}

/// Parses an inventory statement: `None` when the text is no inventory
/// statement, otherwise the extracted ingredient list.
pub fn parse_inventory(text: &str) -> (r: Option<Vec<String>>)
    ensures
        match r {
            Some(items) => spec_is_inventory(text@) && items@.map_values(|s: String| s@)
                == spec_inventory_items(text@),
            None => !spec_is_inventory(text@),
        },
{
    let low = to_lower_chars(text);
    let trig = find_trigger(&low);
    match trig {
        None => None,
        Some(t) => {
            proof {
                lemma_first_trigger(low@, t as int);
            }
            let n: usize = low.len();
            let start: usize = t + 9;
            let mut rest: Vec<char> = Vec::new();
            let mut k: usize = start;
            while k < n
                invariant
                    n == low@.len(),
                    start <= k <= n,
                    rest@ == low@.subrange(start as int, k as int),
                decreases n - k,
            {
                rest.push(low[k]);
                proof {
                    assert(low@.subrange(start as int, k + 1) =~= low@.subrange(
                        start as int,
                        k as int,
                    ).push(low@[k as int]));
                }
                k = k + 1;
            }
            proof {
                assert(rest@ =~= low@.skip(start as int));
            }
            let tokens = split_whitespace_chars(&rest);
            let mut items: Vec<String> = Vec::new();
            let mut i: usize = 0;
            let ghost toks = split_ws(rest@);
            let ghost trimmed = toks.map_values(|t: Seq<char>| trim_trailing_punct(t));
            let ghost pred = |t: Seq<char>| keep_token(t);
            proof {
                assert(trimmed.take(0) =~= Seq::<Seq<char>>::empty());
                reveal(Seq::filter);
            }
            while i < tokens.len()
                invariant
                    tokens@.map_values(|t: Vec<char>| t@) == toks,
                    trimmed == toks.map_values(|t: Seq<char>| trim_trailing_punct(t)),
                    pred == (|t: Seq<char>| keep_token(t)),
                    i <= tokens@.len(),
                    items@.map_values(|s: String| s@) == trimmed.take(i as int).filter(pred),
                decreases tokens@.len() - i,
            {
                proof {
                    assert(tokens@.map_values(|t: Vec<char>| t@)[i as int] == tokens@[i as int]@);
                    assert(trimmed[i as int] == trim_trailing_punct(tokens@[i as int]@));
                    assert(trimmed.take(i + 1) =~= trimmed.take(i as int).push(trimmed[i as int]));
                    lemma_filter_push(trimmed.take(i as int), trimmed[i as int], pred);
                }
                let tt = trim_trailing_punct_exec(&tokens[i]);
                let keep = tt.len() > 0 && !chars_eq_str(&tt, "and") && !chars_eq_str(
                    &tt,
                    "contains",
                );
                proof {
                    assert(keep == pred(trimmed[i as int]));
                }
                if keep {
                    let item = chars_to_string(&tt);
                    proof {
                        assert(items@.push(item).map_values(|s: String| s@) =~= items@.map_values(
                            |s: String| s@,
                        ).push(item@));
                    }
                    items.push(item);
                }
                i = i + 1;
            }
            proof {
                assert(trimmed.take(tokens@.len() as int) =~= trimmed);
            }
            Some(items)
        },
    }
}

/// Law: inventory parsing is a pure function of the text — two runs on the
/// same text yield identical results.
pub proof fn lemma_inventory_deterministic(
    text: Seq<char>,
    r1: Seq<Seq<char>>,
    r2: Seq<Seq<char>>,
)
    requires
        r1 == spec_inventory_items(text),
        r2 == spec_inventory_items(text),
    ensures
        r1 == r2,
{
}

} // verus!
