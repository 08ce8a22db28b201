use recipe_bot::provider::RecipeSummary;
use recipe_bot::reply::{format_reply, Phrasing, ReplyOutcome};

fn summary() -> RecipeSummary {
    RecipeSummary {
        dish: "Tomato Soup".to_string(),
        summary: "Warm and simple.".to_string(),
        source_url: "https://example.com/soup".to_string(),
    }
}

#[test]
fn random_success_template() {
    let r = format_reply("Alice", &ReplyOutcome::Success(summary(), Phrasing::Random));
    assert_eq!(
        r,
        "Hello Alice! What about some Tomato Soup today. Warm and simple. \
         You can find the full recipe here: https://example.com/soup."
    );
}

#[test]
fn ingredient_success_template() {
    let r = format_reply("Bob", &ReplyOutcome::Success(summary(), Phrasing::Ingredients));
    assert_eq!(
        r,
        "Hello Bob! You could make some Tomato Soup today. Warm and simple. \
         The full recipe is right here: https://example.com/soup."
    );
}

#[test]
fn no_random_results_template() {
    let r = format_reply("Alice", &ReplyOutcome::NoResultsFound(Phrasing::Random));
    assert_eq!(
        r,
        "Hello Alice! I couldn't find any recipe based on your given tags. \
         Maybe ask for a more general recipe."
    );
}

#[test]
fn no_ingredient_results_template() {
    let r = format_reply("Alice", &ReplyOutcome::NoResultsFound(Phrasing::Ingredients));
    assert_eq!(
        r,
        "Hello Alice! I couldn't find any recipe based on your given ingredients. \
         Maybe ask with less ingredients or just ask for a random recipe."
    );
}

#[test]
fn provider_error_template() {
    let r = format_reply("Alice", &ReplyOutcome::ProviderError);
    assert_eq!(r, "Hello Alice! It seems like something went wrong. I am really sorry.");
}

#[test]
fn unrecognized_template() {
    let r = format_reply("Alice", &ReplyOutcome::Unrecognized);
    assert_eq!(
        r,
        "Hello Alice! I can not quite understand you. Try asking me for a \
         random recipe or tell me whats left in your fridge."
    );
}

#[test]
fn special_case_text_is_used_verbatim() {
    let r = format_reply("Alice", &ReplyOutcome::SpecialCase("No.".to_string()));
    assert_eq!(r, "Hello Alice! No.");
}
