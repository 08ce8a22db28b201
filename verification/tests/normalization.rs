use recipe_bot::provider::{join_comma, obtain_information, RawRecipe};

fn raw(title: Option<&str>, summary: Option<&str>, url: Option<&str>) -> RawRecipe {
    RawRecipe {
        title: title.map(|s| s.to_string()),
        summary: summary.map(|s| s.to_string()),
        source_url: url.map(|s| s.to_string()),
    }
}

#[test]
fn strips_all_markup_from_summary() {
    let r = obtain_information(raw(
        Some("Tasty Dish"),
        Some("<b>Tasty</b> and <i>quick</i>"),
        Some("https://example.com/tasty"),
    ))
    .unwrap_or_else(|_| panic!("complete record must normalize"));
    assert_eq!(r.dish, "Tasty Dish");
    assert_eq!(r.summary, "Tasty and quick");
    assert_eq!(r.source_url, "https://example.com/tasty");
}

#[test]
fn plain_summary_passes_through() {
    let r = obtain_information(raw(Some("Soup"), Some("Warm and good."), Some("u")))
        .unwrap_or_else(|_| panic!("complete record must normalize"));
    assert_eq!(r.summary, "Warm and good.");
}

#[test]
fn missing_title_is_an_error() {
    assert!(obtain_information(raw(None, Some("s"), Some("u"))).is_err());
}

#[test]
fn missing_summary_is_an_error() {
    assert!(obtain_information(raw(Some("t"), None, Some("u"))).is_err());
}

#[test]
fn missing_source_url_is_an_error() {
    assert!(obtain_information(raw(Some("t"), Some("s"), None)).is_err());
}

#[test]
fn join_comma_cases() {
    assert_eq!(join_comma(&vec![]), "");
    assert_eq!(join_comma(&vec!["vegan".to_string()]), "vegan");
    assert_eq!(
        join_comma(&vec!["tomato".to_string(), "egg".to_string(), "oat".to_string()]),
        "tomato,egg,oat"
    );
}
