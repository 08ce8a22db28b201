use recipe_bot::inventory::{is_inventory_statement, parse_inventory};

#[test]
fn test_fridge_regex() {
    let message = "My fridge contains tomato, egg, rice and oat.";
    assert!(is_inventory_statement(message));
}

#[test]
fn parses_fridge_sentence() {
    let items = parse_inventory("My fridge contains tomato, egg, rice and oat.").unwrap();
    assert_eq!(items, vec!["tomato", "egg", "rice", "oat"]);
}

#[test]
fn no_contains_clause_is_no_match() {
    assert!(parse_inventory("I have tomato and egg").is_none());
    assert!(!is_inventory_statement("blah blah"));
}

#[test]
fn contains_without_following_whitespace_is_no_match() {
    assert!(parse_inventory("my fridge contains").is_none());
}

#[test]
fn empty_item_list() {
    let items = parse_inventory("my fridge contains ").unwrap();
    assert!(items.is_empty());
}

#[test]
fn single_item() {
    let items = parse_inventory("the box contains egg").unwrap();
    assert_eq!(items, vec!["egg"]);
}

#[test]
fn upper_case_is_lowered() {
    let items = parse_inventory("My Fridge CONTAINS Tomato, EGG.").unwrap();
    assert_eq!(items, vec!["tomato", "egg"]);
}

#[test]
fn duplicates_and_order_are_preserved() {
    let items = parse_inventory("it contains egg, rice, egg").unwrap();
    assert_eq!(items, vec!["egg", "rice", "egg"]);
}

#[test]
fn trigger_word_is_excluded_from_items() {
    let items = parse_inventory("box contains egg contains rice").unwrap();
    assert_eq!(items, vec!["egg", "rice"]);
}

#[test]
fn parser_is_idempotent() {
    let text = "My fridge contains tomato, egg, rice and oat.";
    assert_eq!(parse_inventory(text), parse_inventory(text));
    let text2 = "blah blah";
    assert_eq!(parse_inventory(text2), parse_inventory(text2));
}
