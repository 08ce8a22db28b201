//! The per-message orchestration: from the classified intent to either an
//! immediate reply or a provider call, and from each provider response to the
//! next step. The surrounding event loop performs the calls and hands their
//! plain-value results back.

use vstd::prelude::*;
use crate::intent::{classify, Intent};
use crate::inventory::spec_inventory_items;
use crate::provider::{
    obtain_information, raw_complete, normalized, MatchRecord, RawRecipe, TransportError,
};
use crate::reply::{Phrasing, ReplyOutcome};
use crate::text::str_eq;

verus! {

/// The fixed admonishment for a dog in the fridge.
pub open spec fn dog_reply_text() -> Seq<char> {
    "Hell no, please get your dog out of your fridge! That is not the right place for him!"@
}

/// The fixed admonishment for a cat in the fridge.
pub open spec fn cat_reply_text() -> Seq<char> {
    "You don't put your cat in the fridge mate! What's wrong with you?"@
}

/// What the orchestrator does next with a message: reply at once, or issue
/// one of the two provider query shapes.
pub enum Step {
    Reply(ReplyOutcome),
    CallRandom(Vec<String>),
    CallIngredients(Vec<String>),
}

/// Whether `w` is one of the items.
fn contains_item(items: &Vec<String>, w: &str) -> (r: bool)
    ensures
        r == items@.map_values(|s: String| s@).contains(w@),
{
    let ghost views = items@.map_values(|s: String| s@);
    let mut i: usize = 0;
    while i < items.len()
        invariant
            views == items@.map_values(|s: String| s@),
            i <= items@.len(),
            forall|j: int| 0 <= j < i ==> views[j] != w@,
        decreases items@.len() - i,
    {
        proof {
            assert(views[i as int] == items@[i as int]@);
        }
        if str_eq(items[i].as_str(), w) {
            proof {
                assert(views[i as int] == w@);
            }
            return true;
        }
        i = i + 1;
    }
    proof {
        if views.contains(w@) {
            let j = choose|j: int| 0 <= j < views.len() && views[j] == w@;
        }
    }
    false
}

/// `s` is the right first step for the message `text`: a random-recipe
/// request becomes the random query with the extracted tags; an inventory
/// statement first passes the dog/cat guard and otherwise becomes the
/// ingredient query; everything else is answered as unrecognized at once.
pub open spec fn step_of(text: Seq<char>, s: Step) -> bool {
    if crate::intent::spec_is_random_request(text) {
        s matches Step::CallRandom(tags) && tags@.map_values(|t: String| t@) == crate::tags::spec_tags(
            text,
        )
    } else if crate::inventory::spec_is_inventory(text) {
        let items = spec_inventory_items(text);
        if items.contains("dog"@) {
            s matches Step::Reply(o) && o matches ReplyOutcome::SpecialCase(t) && t@
                == dog_reply_text()
        } else if items.contains("cat"@) {
            s matches Step::Reply(o) && o matches ReplyOutcome::SpecialCase(t) && t@
                == cat_reply_text()
        } else {
            s matches Step::CallIngredients(is) && is@.map_values(|t: String| t@) == items
        }
    } else {
        s matches Step::Reply(o) && o is Unrecognized
    }
}

/// Decides the first step for a message: classify it, and on the inventory
/// path check the two blocklisted tokens before any provider call is planned.
pub fn plan_message(text: &str) -> (s: Step)
    ensures
        step_of(text@, s),
{
    match classify(text) {
        Intent::RandomRecipeRequest(tags) => Step::CallRandom(tags),
        Intent::InventoryStatement(items) => {
            if contains_item(&items, "dog") {
                Step::Reply(
                    ReplyOutcome::SpecialCase(
                        String::from_str(
                            "Hell no, please get your dog out of your fridge! That is not the right place for him!",
                        ),
                    ),
                )
            } else if contains_item(&items, "cat") {
                Step::Reply(
                    ReplyOutcome::SpecialCase(
                        String::from_str(
                            "You don't put your cat in the fridge mate! What's wrong with you?",
                        ),
                    ),
                )
            } else {
                Step::CallIngredients(items)
            }
        },
        Intent::Unrecognized => Step::Reply(ReplyOutcome::Unrecognized),
    }
}

/// Law: the guard short-circuits. Whenever the extracted items of an
/// inventory statement include "dog", the planned step is the fixed dog
/// admonishment — a reply, not a provider call — whatever other items are
/// present.
pub proof fn lemma_dog_guard(text: Seq<char>, s: Step)
    requires
        !crate::intent::spec_is_random_request(text),
        crate::inventory::spec_is_inventory(text),
        spec_inventory_items(text).contains("dog"@),
        step_of(text, s),
    ensures
        s matches Step::Reply(o) && o matches ReplyOutcome::SpecialCase(t) && t@
            == dog_reply_text(),
{
}

/// `r` is the right outcome for the random-recipe path given the provider's
/// response: a transport failure is a provider error; an empty list is "no
/// results"; otherwise the first record is normalized, and a record with a
/// missing field is a provider error.
pub open spec fn random_outcome_of(resp: Result<Seq<RawRecipe>, TransportError>, r: ReplyOutcome) -> bool {
    match resp {
        Result::Err(_) => r is ProviderError,
        Result::Ok(list) => {
            if list.len() == 0 {
                r matches ReplyOutcome::NoResultsFound(p) && p == Phrasing::Random
            } else if raw_complete(list[0]) {
                r matches ReplyOutcome::Success(rs, p) && p == Phrasing::Random && normalized(
                    list[0],
                    rs,
                )
            } else {
                r is ProviderError
            }
        },
    }
}

/// Turns the random-search response into the terminal outcome for the
/// message.
pub fn random_response_outcome(resp: Result<Vec<RawRecipe>, TransportError>) -> (r: ReplyOutcome)
    ensures
        random_outcome_of(
            match resp {
                Result::Ok(list) => Result::Ok(list@),
                Result::Err(e) => Result::Err(e),
            },
            r,
        ),
{
    match resp {
        Result::Err(_) => ReplyOutcome::ProviderError,
        Result::Ok(mut list) => {
            if list.len() == 0 {
                ReplyOutcome::NoResultsFound(Phrasing::Random)
            } else {
                let first = list.remove(0);
                match obtain_information(first) {
                    Result::Ok(rs) => ReplyOutcome::Success(rs, Phrasing::Random),
                    Result::Err(_) => ReplyOutcome::ProviderError,
                }
            }
        },
    }
}

/// What follows the ingredient-match search: reply at once, or fetch the
/// details of the top match.
pub enum IngredientsNext {
    Reply(ReplyOutcome),
    FetchDetails(i64),
}

/// `nx` is the right continuation for the ingredient path given the match
/// search's response: a transport failure is a provider error; an empty match
/// list is "no results"; otherwise the first match's identifier — and only
/// it — is fetched, and a match without an identifier is a provider error.
pub open spec fn ingredients_next_of(
    resp: Result<Seq<MatchRecord>, TransportError>,
    nx: IngredientsNext,
) -> bool {
    match resp {
        Result::Err(_) => nx matches IngredientsNext::Reply(o) && o is ProviderError,
        Result::Ok(list) => {
            if list.len() == 0 {
                nx matches IngredientsNext::Reply(o) && o matches ReplyOutcome::NoResultsFound(p)
                    && p == Phrasing::Ingredients
            } else {
                match list[0].id {
                    Option::Some(id) => nx matches IngredientsNext::FetchDetails(i) && i == id,
                    Option::None => nx matches IngredientsNext::Reply(o) && o is ProviderError,
                }
            }
        },
    }
}

/// Decides what follows the ingredient-match search: the top match's detail
/// fetch, or an immediate reply.
pub fn ingredients_response_next(resp: Result<Vec<MatchRecord>, TransportError>) -> (nx:
    IngredientsNext)
    ensures
        ingredients_next_of(
            match resp {
                Result::Ok(list) => Result::Ok(list@),
                Result::Err(e) => Result::Err(e),
            },
            nx,
        ),
{
    match resp {
        Result::Err(_) => IngredientsNext::Reply(ReplyOutcome::ProviderError),
        Result::Ok(list) => {
            if list.len() == 0 {
                IngredientsNext::Reply(ReplyOutcome::NoResultsFound(Phrasing::Ingredients))
            } else {
                match list[0].id {
                    Some(id) => IngredientsNext::FetchDetails(id),
                    None => IngredientsNext::Reply(ReplyOutcome::ProviderError),
                }
            }
        },
    }
}

/// `r` is the right outcome for the detail fetch's response: a transport
/// failure or a record with a missing field is a provider error; a complete
/// record is normalized and phrased for the ingredient path.
pub open spec fn details_outcome_of(resp: Result<RawRecipe, TransportError>, r: ReplyOutcome) -> bool {
    match resp {
        Result::Err(_) => r is ProviderError,
        Result::Ok(raw) => {
            if raw_complete(raw) {
                r matches ReplyOutcome::Success(rs, p) && p == Phrasing::Ingredients && normalized(
                    raw,
                    rs,
                )
            } else {
                r is ProviderError
            }
        },
    }
}

/// Turns the detail-fetch response into the terminal outcome for the message.
pub fn details_response_outcome(resp: Result<RawRecipe, TransportError>) -> (r: ReplyOutcome)
    ensures
        details_outcome_of(resp, r),
{
    match resp {
        Result::Err(_) => ReplyOutcome::ProviderError,
        Result::Ok(raw) => match obtain_information(raw) {
            Result::Ok(rs) => ReplyOutcome::Success(rs, Phrasing::Ingredients),
            Result::Err(_) => ReplyOutcome::ProviderError,
        },
    }
}

} // verus!
