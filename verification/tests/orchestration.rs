use recipe_bot::pipeline::{
    details_response_outcome, ingredients_response_next, plan_message, random_response_outcome,
    IngredientsNext, Step,
};
use recipe_bot::provider::{MatchRecord, RawRecipe, TransportError};
use recipe_bot::reply::{format_reply, Phrasing, ReplyOutcome};

fn stub_recipe() -> RawRecipe {
    RawRecipe {
        title: Some("Bean Stew".to_string()),
        summary: Some("<b>Hearty</b> and warm".to_string()),
        source_url: Some("https://example.com/stew".to_string()),
    }
}

#[test]
fn dog_guard_short_circuits() {
    match plan_message("my fridge contains dog, eggs and rice") {
        Step::Reply(ReplyOutcome::SpecialCase(t)) => assert_eq!(
            t,
            "Hell no, please get your dog out of your fridge! That is not the right place for him!"
        ),
        _ => panic!("the dog guard must answer before any provider call"),
    }
}

#[test]
fn cat_guard_short_circuits() {
    match plan_message("my fridge contains milk and cat") {
        Step::Reply(ReplyOutcome::SpecialCase(t)) => {
            assert_eq!(t, "You don't put your cat in the fridge mate! What's wrong with you?")
        },
        _ => panic!("the cat guard must answer before any provider call"),
    }
}

#[test]
fn dog_guard_wins_over_cat_guard() {
    match plan_message("it contains cat and dog") {
        Step::Reply(ReplyOutcome::SpecialCase(t)) => {
            assert!(t.contains("dog"));
        },
        _ => panic!("the dog guard must answer first"),
    }
}

#[test]
fn inventory_without_blocklist_calls_provider() {
    match plan_message("My fridge contains tomato, egg, rice and oat.") {
        Step::CallIngredients(items) => assert_eq!(items, vec!["tomato", "egg", "rice", "oat"]),
        _ => panic!("expected an ingredient search"),
    }
}

#[test]
fn end_to_end_random_success() {
    let step = plan_message("Give me a random recipe that is vegetarian.");
    let tags = match step {
        Step::CallRandom(tags) => tags,
        _ => panic!("expected a random-recipe call"),
    };
    assert_eq!(tags, vec!["vegetarian"]);
    let outcome = random_response_outcome(Ok(vec![stub_recipe()]));
    let reply = format_reply("Alice", &outcome);
    assert!(reply.starts_with("Hello Alice! What about some "));
    assert!(reply.contains("Bean Stew"));
    assert!(reply.contains("Hearty and warm"));
    assert!(!reply.contains("<b>"));
    assert!(reply.contains("https://example.com/stew"));
}

#[test]
fn end_to_end_unrecognized() {
    match plan_message("blah blah") {
        Step::Reply(outcome) => {
            assert!(matches!(outcome, ReplyOutcome::Unrecognized));
            let reply = format_reply("Alice", &outcome);
            assert_eq!(
                reply,
                "Hello Alice! I can not quite understand you. Try asking me for a \
                 random recipe or tell me whats left in your fridge."
            );
        },
        _ => panic!("an unrecognized message must be answered without a provider call"),
    }
}

#[test]
fn random_empty_result_list() {
    let outcome = random_response_outcome(Ok(vec![]));
    assert!(matches!(outcome, ReplyOutcome::NoResultsFound(Phrasing::Random)));
}

#[test]
fn random_transport_error() {
    let outcome = random_response_outcome(Err(TransportError));
    assert!(matches!(outcome, ReplyOutcome::ProviderError));
}

#[test]
fn random_incomplete_record_is_provider_error() {
    let raw = RawRecipe { title: Some("x".to_string()), summary: None, source_url: None };
    let outcome = random_response_outcome(Ok(vec![raw]));
    assert!(matches!(outcome, ReplyOutcome::ProviderError));
}

#[test]
fn ingredient_search_fetches_top_match_only() {
    let next = ingredients_response_next(Ok(vec![
        MatchRecord { id: Some(7) },
        MatchRecord { id: Some(9) },
    ]));
    assert!(matches!(next, IngredientsNext::FetchDetails(7)));
}

#[test]
fn ingredient_search_empty_list() {
    let next = ingredients_response_next(Ok(vec![]));
    assert!(matches!(
        next,
        IngredientsNext::Reply(ReplyOutcome::NoResultsFound(Phrasing::Ingredients))
    ));
}

#[test]
fn ingredient_search_transport_error() {
    let next = ingredients_response_next(Err(TransportError));
    assert!(matches!(next, IngredientsNext::Reply(ReplyOutcome::ProviderError)));
}

#[test]
fn ingredient_match_without_id_is_provider_error() {
    let next = ingredients_response_next(Ok(vec![MatchRecord { id: None }]));
    assert!(matches!(next, IngredientsNext::Reply(ReplyOutcome::ProviderError)));
}

#[test]
fn details_fetch_success_uses_ingredient_phrasing() {
    let outcome = details_response_outcome(Ok(stub_recipe()));
    match outcome {
        ReplyOutcome::Success(rs, Phrasing::Ingredients) => {
            assert_eq!(rs.dish, "Bean Stew");
            assert_eq!(rs.summary, "Hearty and warm");
        },
        _ => panic!("expected an ingredient-phrased success"),
    }
}

#[test]
fn details_fetch_failure_is_provider_error() {
    assert!(matches!(details_response_outcome(Err(TransportError)), ReplyOutcome::ProviderError));
    let raw = RawRecipe { title: None, summary: None, source_url: None };
    assert!(matches!(details_response_outcome(Ok(raw)), ReplyOutcome::ProviderError));
}
