use jfp::types::{Prompt, Registry};

fn prompt(id: &str, category: Option<&str>, tags: &[&str], featured: bool) -> Prompt {
    let mut p = Prompt::new(id, id, "content");
    p.category = category.map(|c| c.to_string());
    p.tags = tags.iter().map(|t| t.to_string()).collect();
    p.featured = featured;
    p
}

fn registry() -> Registry {
    Registry::new(
        vec![
            prompt("one", Some("Testing"), &["b", "a"], true),
            prompt("two", Some("docs"), &["a", "c", "b"], false),
            prompt("three", None, &["A"], false),
            prompt("four", Some("testing"), &[], true),
            prompt("two", Some("again"), &[], false),
        ],
        "2026-01-01T00:00:00+00:00".to_string(),
    )
}

#[test]
fn a_new_registry_records_its_prompts() {
    let r = registry();
    assert_eq!(r.meta.prompt_count, 5);
    assert_eq!(r.meta.version, "1.0.0");
    assert_eq!(r.meta.etag, None);
    assert_eq!(r.meta.fetched_at, "2026-01-01T00:00:00+00:00");
}

#[test]
fn get_finds_the_first_prompt_of_an_id() {
    let r = registry();
    assert_eq!(r.get("two").unwrap().category, Some("docs".to_string()));
    assert_eq!(r.get("four").unwrap().id, "four");
    assert!(r.get("Two").is_none());
    assert!(r.get("").is_none());
}

#[test]
fn categories_are_counted_and_sorted_by_name() {
    let r = registry();
    assert_eq!(
        r.categories(),
        vec![
            ("Testing".to_string(), 1),
            ("again".to_string(), 1),
            ("docs".to_string(), 1),
            ("testing".to_string(), 1),
        ]
    );
    let twice = Registry::new(
        vec![prompt("a", Some("x"), &[], false), prompt("b", Some("x"), &[], false)],
        String::new(),
    );
    assert_eq!(twice.categories(), vec![("x".to_string(), 2)]);
    assert!(Registry::new(vec![], String::new()).categories().is_empty());
}

#[test]
fn tags_are_ranked_by_count_and_then_by_name() {
    let r = registry();
    assert_eq!(
        r.tags(),
        vec![
            ("a".to_string(), 2),
            ("b".to_string(), 2),
            ("A".to_string(), 1),
            ("c".to_string(), 1),
        ]
    );
}

#[test]
fn filters_keep_the_order_and_ignore_ascii_case() {
    let r = registry();
    let ids = |v: Vec<&Prompt>| v.into_iter().map(|p| p.id.clone()).collect::<Vec<_>>();
    assert_eq!(ids(r.filter_by_category("TESTING")), vec!["one", "four"]);
    assert_eq!(ids(r.filter_by_category("none")), Vec::<String>::new());
    assert_eq!(ids(r.filter_by_tag("a")), vec!["one", "two", "three"]);
    assert_eq!(ids(r.filter_by_tag("C")), vec!["two"]);
    assert_eq!(ids(r.featured()), vec!["one", "four"]);
}
