//! Intent classification: every message maps to exactly one of three intents,
//! decided in a fixed priority order.

use vstd::prelude::*;
use crate::inventory::{parse_inventory, spec_inventory_items, spec_is_inventory};
use crate::tags::{extract_tags, spec_tags};
use crate::text::{contains_sub, contains_substring, lower, to_lower_chars};

verus! {

/// The classified purpose of one message.
pub enum Intent {
    RandomRecipeRequest(Vec<String>),
    InventoryStatement(Vec<String>),
    Unrecognized,
}

/// A message asks for a random recipe when its lowercased text holds both the
/// substring "recipe" and the substring "random" — anywhere, also inside
/// another word.
pub open spec fn spec_is_random_request(text: Seq<char>) -> bool {
    contains_sub(lower(text), "recipe"@) && contains_sub(lower(text), "random"@)
}

/// `r` is the intent of the message `text`: the random-recipe check comes
/// first, then the inventory check, and everything else is unrecognized.
pub open spec fn intent_of(text: Seq<char>, r: Intent) -> bool {
    if spec_is_random_request(text) {
        r matches Intent::RandomRecipeRequest(tags) && tags@.map_values(|s: String| s@)
            == spec_tags(text)
    } else if spec_is_inventory(text) {
        r matches Intent::InventoryStatement(items) && items@.map_values(|s: String| s@)
            == spec_inventory_items(text)
    } else {
        r is Unrecognized
    }
}

/// Classifies a message. Classification is total: every text yields exactly
/// one intent, with the random-recipe pattern taking priority over the
/// inventory pattern.
pub fn classify(text: &str) -> (r: Intent)
    ensures
        intent_of(text@, r),
{
    let low = to_lower_chars(text);
    if contains_substring(&low, "recipe") && contains_substring(&low, "random") {
        Intent::RandomRecipeRequest(extract_tags(text))
    } else {
        match parse_inventory(text) {
            Some(items) => Intent::InventoryStatement(items),
            None => Intent::Unrecognized,
        }
    }
}

/// Law: classification is total and exclusive. Any intent that satisfies the
/// classifier's contract is of exactly the one variant that the text's
/// patterns select.
pub proof fn lemma_classify_total(text: Seq<char>, r: Intent)
    requires
        intent_of(text, r),
    ensures
        (r is RandomRecipeRequest) <==> spec_is_random_request(text),
        (r is InventoryStatement) <==> (!spec_is_random_request(text) && spec_is_inventory(text)),
        (r is Unrecognized) <==> (!spec_is_random_request(text) && !spec_is_inventory(text)),
{
}

/// Law: priority. A message that holds both the "random"+"recipe" substrings
/// and an inventory-style "contains" clause classifies as a random-recipe
/// request, never as an inventory statement.
pub proof fn lemma_random_priority(text: Seq<char>, r: Intent)
    requires
        spec_is_random_request(text),
        spec_is_inventory(text),
        intent_of(text, r),
    ensures
        r matches Intent::RandomRecipeRequest(tags) && tags@.map_values(|s: String| s@)
            == spec_tags(text),
{
}

} // verus!
