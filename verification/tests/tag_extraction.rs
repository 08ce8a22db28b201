use recipe_bot::tags::extract_tags;

#[test]
fn vegan_dessert_yields_both_tags() {
    assert_eq!(extract_tags("Give me a vegan dessert"), vec!["vegan", "dessert"]);
}

#[test]
fn no_vocabulary_word_yields_empty_set() {
    assert!(extract_tags("blah blah").is_empty());
    assert!(extract_tags("").is_empty());
}

#[test]
fn matching_is_case_insensitive() {
    assert_eq!(extract_tags("A VEGETARIAN recipe, please"), vec!["vegetarian"]);
}

#[test]
fn two_word_tag_matches() {
    assert_eq!(extract_tags("something Low Carb please"), vec!["low carb"]);
}

#[test]
fn order_of_mention_does_not_matter() {
    let a = extract_tags("a dessert, but vegan");
    let b = extract_tags("a vegan dessert");
    assert_eq!(a, b);
    assert_eq!(a, vec!["vegan", "dessert"]);
}

#[test]
fn extractor_is_idempotent() {
    let text = "Give me a vegan dessert";
    assert_eq!(extract_tags(text), extract_tags(text));
}

#[test]
fn substring_matches_count() {
    // "soup" inside another word still counts: the checks are substring
    // checks, not whole-word checks.
    assert_eq!(extract_tags("I love soups"), vec!["soup"]);
}
