//! Reply formatting: the terminal outcome of handling one message and the
//! fixed templates that render it, always prefixed with a greeting to the
//! sender.

use vstd::prelude::*;
use crate::provider::RecipeSummary;

verus! {

/// Which of the two success/no-result phrasings applies: the random-recipe
/// path or the ingredient-search path.
#[derive(Clone, Copy, PartialEq, Eq, Structural)]
pub enum Phrasing {
    Random,
    Ingredients,
}

/// The terminal state of one message, consumed by the reply formatter.
pub enum ReplyOutcome {
    Success(RecipeSummary, Phrasing),
    NoResultsFound(Phrasing),
    ProviderError,
    Unrecognized,
    SpecialCase(String),
}

/// The body of a successful random-recipe reply.
pub open spec fn random_success_body(dish: Seq<char>, summary: Seq<char>, url: Seq<char>) -> Seq<
    char,
> {
    "What about some "@ + dish + " today. "@ + summary
        + " You can find the full recipe here: "@ + url + "."@
}

/// The body of a successful ingredient-search reply.
pub open spec fn ingredient_success_body(dish: Seq<char>, summary: Seq<char>, url: Seq<char>) -> Seq<
    char,
> {
    "You could make some "@ + dish + " today. "@ + summary
        + " The full recipe is right here: "@ + url + "."@
}

/// The fixed template for a random search with no results.
pub open spec fn no_random_results_text() -> Seq<char> {
    "I couldn't find any recipe based on your given tags. Maybe ask for a more general recipe."@
}

/// The fixed template for an ingredient search with no results.
pub open spec fn no_ingredient_results_text() -> Seq<char> {
    "I couldn't find any recipe based on your given ingredients. Maybe ask with less ingredients or just ask for a random recipe."@
}

/// The fixed apology template for a provider error.
pub open spec fn provider_error_text() -> Seq<char> {
    "It seems like something went wrong. I am really sorry."@
}

/// The fixed template for an unrecognized message.
pub open spec fn unrecognized_text() -> Seq<char> {
    "I can not quite understand you. Try asking me for a random recipe or tell me whats left in your fridge."@
}

/// The outcome-specific body of the reply.
pub open spec fn reply_body(outcome: ReplyOutcome) -> Seq<char> {
    match outcome {
        ReplyOutcome::Success(rs, Phrasing::Random) => random_success_body(
            rs.dish@,
            rs.summary@,
            rs.source_url@,
        ),
        ReplyOutcome::Success(rs, Phrasing::Ingredients) => ingredient_success_body(
            rs.dish@,
            rs.summary@,
            rs.source_url@,
        ),
        ReplyOutcome::NoResultsFound(Phrasing::Random) => no_random_results_text(),
        ReplyOutcome::NoResultsFound(Phrasing::Ingredients) => no_ingredient_results_text(),
        ReplyOutcome::ProviderError => provider_error_text(),
        ReplyOutcome::Unrecognized => unrecognized_text(),
        ReplyOutcome::SpecialCase(text) => text@,
    }
}

/// The full reply to one message: the greeting with the sender's display
/// name, then the outcome's body.
pub open spec fn spec_reply(name: Seq<char>, outcome: ReplyOutcome) -> Seq<char> {
    "Hello "@ + name + "! "@ + reply_body(outcome)
}

fn success_body_exec(rs: &RecipeSummary, random: bool) -> (r: String)
    ensures
        random ==> r@ == random_success_body(rs.dish@, rs.summary@, rs.source_url@),
        !random ==> r@ == ingredient_success_body(rs.dish@, rs.summary@, rs.source_url@),
{
    let mut r = if random {
        String::from_str("What about some ")
    } else {
        String::from_str("You could make some ")
    };
    r.append(rs.dish.as_str());
    r.append(" today. ");
    r.append(rs.summary.as_str());
    if random {
        r.append(" You can find the full recipe here: ");
    } else {
        r.append(" The full recipe is right here: ");
    }
    r.append(rs.source_url.as_str());
    r.append(".");
    proof {
        if random {
            assert(r@ =~= random_success_body(rs.dish@, rs.summary@, rs.source_url@));
        } else {
            assert(r@ =~= ingredient_success_body(rs.dish@, rs.summary@, rs.source_url@));
        }
    }
    r
}

/// Renders the final reply: the greeting-prefixed, outcome-specific text.
/// Every outcome has a template; formatting never fails.
pub fn format_reply(name: &str, outcome: &ReplyOutcome) -> (r: String)
    ensures
        r@ == spec_reply(name@, *outcome),
{
    let mut r = String::from_str("Hello ");
    r.append(name);
    r.append("! ");
    let body: String = match outcome {
        ReplyOutcome::Success(rs, Phrasing::Random) => success_body_exec(rs, true),
        ReplyOutcome::Success(rs, Phrasing::Ingredients) => success_body_exec(rs, false),
        ReplyOutcome::NoResultsFound(Phrasing::Random) => String::from_str(
            "I couldn't find any recipe based on your given tags. Maybe ask for a more general recipe.",
        ),
        ReplyOutcome::NoResultsFound(Phrasing::Ingredients) => String::from_str(
            "I couldn't find any recipe based on your given ingredients. Maybe ask with less ingredients or just ask for a random recipe.",
        ),
        ReplyOutcome::ProviderError => String::from_str(
            "It seems like something went wrong. I am really sorry.",
        ),
        ReplyOutcome::Unrecognized => String::from_str(
            "I can not quite understand you. Try asking me for a random recipe or tell me whats left in your fridge.",
        ),
        ReplyOutcome::SpecialCase(text) => text.clone(),
    };
    r.append(body.as_str());
    proof {
        assert(r@ =~= spec_reply(name@, *outcome));
    }
    r
}

} // verus!
