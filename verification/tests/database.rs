use jfp::storage::{Database, StoreErrorKind};
use jfp::types::{Prompt, PromptVariable, VariableType};

fn tagged(id: &str, title: &str, content: &str, category: Option<&str>, tags: &[&str]) -> Prompt {
    let mut p = Prompt::new(id, title, content);
    p.category = category.map(|c| c.to_string());
    p.tags = tags.iter().map(|t| t.to_string()).collect();
    p
}

#[test]
fn test_open_in_memory() {
    let db = Database::in_memory().unwrap();
    assert!(db.integrity_check().unwrap());
}

#[test]
fn test_upsert_and_get_prompt() {
    let db = Database::in_memory().unwrap();

    let prompt = Prompt {
        id: "test-1".to_string(),
        title: "Test Prompt".to_string(),
        content: "Test content".to_string(),
        description: Some("A test prompt".to_string()),
        category: Some("testing".to_string()),
        tags: vec!["rust".to_string(), "test".to_string()],
        variables: vec![],
        featured: true,
        version: Some("1.0.0".to_string()),
        author: Some("Test Author".to_string()),
        saved_at: None,
        is_local: false,
    };

    db.upsert_prompt(&prompt).unwrap();

    let loaded = db.get_prompt("test-1").unwrap().unwrap();
    assert_eq!(loaded.id, "test-1");
    assert_eq!(loaded.title, "Test Prompt");
    assert_eq!(loaded.tags, vec!["rust", "test"]);
    assert!(loaded.featured);
}

#[test]
fn test_list_prompts_filtered() {
    let db = Database::in_memory().unwrap();

    let prompts = vec![
        Prompt {
            id: "p1".to_string(),
            title: "Prompt 1".to_string(),
            content: "Content 1".to_string(),
            description: None,
            category: Some("cat1".to_string()),
            tags: vec!["tag1".to_string()],
            variables: vec![],
            featured: true,
            version: None,
            author: None,
            saved_at: None,
            is_local: false,
        },
        Prompt {
            id: "p2".to_string(),
            title: "Prompt 2".to_string(),
            content: "Content 2".to_string(),
            description: None,
            category: Some("cat2".to_string()),
            tags: vec!["tag1".to_string(), "tag2".to_string()],
            variables: vec![],
            featured: false,
            version: None,
            author: None,
            saved_at: None,
            is_local: false,
        },
    ];

    for p in &prompts {
        db.upsert_prompt(p).unwrap();
    }

    // Filter by category
    let cat1 = db.list_prompts_filtered(Some("cat1"), None, false).unwrap();
    assert_eq!(cat1.len(), 1);
    assert_eq!(cat1[0].id, "p1");

    // Filter by tag
    let tag2 = db.list_prompts_filtered(None, Some("tag2"), false).unwrap();
    assert_eq!(tag2.len(), 1);
    assert_eq!(tag2[0].id, "p2");

    // Filter featured
    let featured = db.list_prompts_filtered(None, None, true).unwrap();
    assert_eq!(featured.len(), 1);
    assert_eq!(featured[0].id, "p1");
}

#[test]
fn test_category_and_tag_counts() {
    let db = Database::in_memory().unwrap();

    let prompts = vec![Prompt::new("p1", "P1", "C1"), Prompt::new("p2", "P2", "C2")];

    let mut p1 = prompts[0].clone();
    p1.category = Some("cat1".to_string());
    p1.tags = vec!["tag1".to_string(), "tag2".to_string()];

    let mut p2 = prompts[1].clone();
    p2.category = Some("cat1".to_string());
    p2.tags = vec!["tag1".to_string()];

    db.upsert_prompt(&p1).unwrap();
    db.upsert_prompt(&p2).unwrap();

    let cats = db.category_counts().unwrap();
    assert_eq!(cats.len(), 1);
    assert_eq!(cats[0], ("cat1".to_string(), 2));

    let tags = db.tag_counts().unwrap();
    assert_eq!(tags.len(), 2);
    // tag1 should have count 2, tag2 should have count 1
    assert!(tags.iter().any(|(t, c)| t == "tag1" && *c == 2));
    assert!(tags.iter().any(|(t, c)| t == "tag2" && *c == 1));
}

#[test]
fn upsert_twice_is_upsert_once() {
    let once = Database::in_memory().unwrap();
    let twice = Database::in_memory().unwrap();
    let mut p = tagged("p", "Title", "Body {{NAME}}", Some("cat"), &["a", "b"]);
    p.variables = vec![PromptVariable {
        name: "NAME".to_string(),
        var_type: VariableType::Select,
        required: true,
        description: Some("who".to_string()),
        default: None,
    }];
    once.upsert_prompt(&p).unwrap();
    twice.upsert_prompt(&p).unwrap();
    twice.upsert_prompt(&p).unwrap();

    let a = once.get_prompt("p").unwrap().unwrap();
    let b = twice.get_prompt("p").unwrap().unwrap();
    assert_eq!(a.title, b.title);
    assert_eq!(a.content, b.content);
    assert_eq!(a.category, b.category);
    assert_eq!(a.tags, b.tags);
    assert_eq!(a.variables.len(), 1);
    assert_eq!(b.variables.len(), 1);
    assert_eq!(b.variables[0].name, "NAME");
    assert_eq!(b.variables[0].var_type, VariableType::Select);
    assert!(b.variables[0].required);
    assert_eq!(b.variables[0].description, Some("who".to_string()));
    assert_eq!(b.variables[0].default, None);
    assert_eq!(twice.prompt_count().unwrap(), 1);
    assert_eq!(twice.tag_counts().unwrap(), once.tag_counts().unwrap());
    assert_eq!(twice.search("Title", 10).unwrap().len(), 1);
}

#[test]
fn upsert_replaces_tags_and_never_merges() {
    let db = Database::in_memory().unwrap();
    db.upsert_prompt(&tagged("p", "T", "C", None, &["a", "b"])).unwrap();
    db.upsert_prompt(&tagged("p", "T", "C", None, &["c"])).unwrap();
    let loaded = db.get_prompt("p").unwrap().unwrap();
    assert_eq!(loaded.tags, vec!["c"]);
    assert_eq!(db.tag_counts().unwrap(), vec![("c".to_string(), 1)]);
}

#[test]
fn tags_come_back_in_insertion_order() {
    let db = Database::in_memory().unwrap();
    db.upsert_prompt(&tagged("p", "T", "C", None, &["zeta", "alpha", "mid"])).unwrap();
    let loaded = db.get_prompt("p").unwrap().unwrap();
    assert_eq!(loaded.tags, vec!["zeta", "alpha", "mid"]);
}

#[test]
fn a_tag_twice_on_one_prompt_fails_the_write_and_keeps_nothing() {
    let db = Database::in_memory().unwrap();
    let err = db.upsert_prompt(&tagged("p", "T", "C", None, &["a", "a"])).unwrap_err();
    assert_eq!(err.kind, StoreErrorKind::Write);
    assert!(db.get_prompt("p").unwrap().is_none());
    assert_eq!(db.prompt_count().unwrap(), 0);
}

#[test]
fn get_of_an_unknown_id_is_none() {
    let db = Database::in_memory().unwrap();
    assert!(db.get_prompt("nope").unwrap().is_none());
}

#[test]
fn search_ranks_a_title_match_above_a_content_match() {
    let db = Database::in_memory().unwrap();
    db.upsert_prompt(&tagged("one", "All about zebras", "Nothing of note here", None, &[])).unwrap();
    db.upsert_prompt(&tagged("two", "Nothing of note", "A text on zebras and more", None, &[]))
        .unwrap();
    let hits = db.search("zebras", 10).unwrap();
    assert_eq!(hits.len(), 2);
    assert_eq!(hits[0].0.id, "one");
    assert_eq!(hits[1].0.id, "two");
    assert!(hits[0].1 > hits[1].1);
    assert!(hits[1].1 > 0);
}

#[test]
fn search_keeps_to_the_limit() {
    let db = Database::in_memory().unwrap();
    for i in 0..5 {
        db.upsert_prompt(&tagged(&format!("p{i}"), "common word", "body", None, &[])).unwrap();
    }
    assert_eq!(db.search("common", 3).unwrap().len(), 3);
    assert_eq!(db.search("common", 100).unwrap().len(), 5);
    assert_eq!(db.search("absent", 1).unwrap().len(), 0);
}

#[test]
fn search_of_bad_syntax_is_a_syntax_error() {
    let db = Database::in_memory().unwrap();
    db.upsert_prompt(&tagged("p", "T", "C", None, &[])).unwrap();
    let err = db.search("\"unbalanced", 10).unwrap_err();
    assert_eq!(err.kind, StoreErrorKind::SearchSyntax);
}

#[test]
fn list_filters_are_joined_by_and() {
    let db = Database::in_memory().unwrap();
    db.upsert_prompt(&tagged("a", "A", "C", Some("x"), &["y"])).unwrap();
    db.upsert_prompt(&tagged("b", "B", "C", Some("x"), &["z"])).unwrap();
    db.upsert_prompt(&tagged("c", "C", "C", Some("w"), &["y"])).unwrap();
    db.upsert_prompt(&tagged("d", "D", "C", None, &["y"])).unwrap();
    let mut e = tagged("e", "E", "C", Some("x"), &["y", "z"]);
    e.featured = true;
    db.upsert_prompt(&e).unwrap();

    let both = db.list_prompts_filtered(Some("x"), Some("y"), false).unwrap();
    let ids: Vec<&str> = both.iter().map(|p| p.id.as_str()).collect();
    assert_eq!(ids, vec!["a", "e"]);
    let all = db.list_prompts().unwrap();
    for p in &all {
        let in_result = ids.contains(&p.id.as_str());
        let passes = p.category.as_deref() == Some("x") && p.tags.iter().any(|t| t == "y");
        assert_eq!(in_result, passes);
    }
    let three = db.list_prompts_filtered(Some("x"), Some("y"), true).unwrap();
    assert_eq!(three.len(), 1);
    assert_eq!(three[0].id, "e");
    assert_eq!(three[0].tags, vec!["y", "z"]);
    // the category is compared as it stands
    assert!(db.list_prompts_filtered(Some("X"), None, false).unwrap().is_empty());
}

#[test]
fn list_is_by_title_ascending() {
    let db = Database::in_memory().unwrap();
    db.upsert_prompt(&tagged("1", "pear", "C", None, &[])).unwrap();
    db.upsert_prompt(&tagged("2", "Apple", "C", None, &[])).unwrap();
    db.upsert_prompt(&tagged("3", "apple", "C", None, &[])).unwrap();
    db.upsert_prompt(&tagged("4", "Zoo", "C", None, &[])).unwrap();
    let titles: Vec<String> = db.list_prompts().unwrap().into_iter().map(|p| p.title).collect();
    assert_eq!(titles, vec!["Apple", "Zoo", "apple", "pear"]);
}

#[test]
fn tag_counts_break_ties_by_name() {
    let db = Database::in_memory().unwrap();
    db.upsert_prompt(&tagged("1", "T", "C", None, &["b", "c", "a"])).unwrap();
    db.upsert_prompt(&tagged("2", "T", "C", None, &["b", "a"])).unwrap();
    assert_eq!(
        db.tag_counts().unwrap(),
        vec![("a".to_string(), 2), ("b".to_string(), 2), ("c".to_string(), 1)]
    );
}

#[test]
fn category_counts_skip_prompts_without_category_and_sort_by_name() {
    let db = Database::in_memory().unwrap();
    db.upsert_prompt(&tagged("1", "T", "C", Some("zeta"), &[])).unwrap();
    db.upsert_prompt(&tagged("2", "T", "C", Some("alpha"), &[])).unwrap();
    db.upsert_prompt(&tagged("3", "T", "C", Some("zeta"), &[])).unwrap();
    db.upsert_prompt(&tagged("4", "T", "C", None, &[])).unwrap();
    assert_eq!(
        db.category_counts().unwrap(),
        vec![("alpha".to_string(), 1), ("zeta".to_string(), 2)]
    );
    assert_eq!(db.prompt_count().unwrap(), 4);
}

#[test]
fn bulk_upsert_writes_tags_variables_and_search_entries() {
    let mut db = Database::in_memory().unwrap();
    let mut p1 = tagged("p1", "First", "alpha body", Some("c"), &["t1"]);
    p1.variables = vec![PromptVariable {
        name: "V".to_string(),
        var_type: VariableType::File,
        required: false,
        description: None,
        default: Some("d".to_string()),
    }];
    let p2 = tagged("p2", "Second", "beta body", None, &["t1", "t2"]);
    db.bulk_upsert_prompts(&vec![p1, p2]).unwrap();
    assert_eq!(db.prompt_count().unwrap(), 2);
    let loaded = db.get_prompt("p1").unwrap().unwrap();
    assert_eq!(loaded.tags, vec!["t1"]);
    assert_eq!(loaded.variables.len(), 1);
    assert_eq!(loaded.variables[0].var_type, VariableType::File);
    assert_eq!(loaded.variables[0].default, Some("d".to_string()));
    assert_eq!(db.search("beta", 10).unwrap()[0].0.id, "p2");
}

#[test]
fn bulk_upsert_is_all_or_nothing() {
    let mut db = Database::in_memory().unwrap();
    let good = tagged("good", "G", "C", None, &["a"]);
    let bad = tagged("bad", "B", "C", None, &["dup", "dup"]);
    let err = db.bulk_upsert_prompts(&vec![good, bad]).unwrap_err();
    assert_eq!(err.kind, StoreErrorKind::Write);
    assert_eq!(db.prompt_count().unwrap(), 0);
    assert!(db.get_prompt("good").unwrap().is_none());
}

#[test]
fn meta_is_a_key_value_store_with_upsert() {
    let db = Database::in_memory().unwrap();
    assert_eq!(db.get_meta("last_sync").unwrap_err().kind, StoreErrorKind::Read);
    db.set_meta("last_sync", "one").unwrap();
    assert_eq!(db.get_meta("last_sync").unwrap(), "one");
    db.set_meta("last_sync", "two").unwrap();
    assert_eq!(db.get_meta("last_sync").unwrap(), "two");
    assert_eq!(db.get_meta("schema_version").unwrap(), "2");
}

#[test]
fn seeding_fills_an_empty_store_only() {
    let db = Database::in_memory().unwrap();
    assert_eq!(db.seed_if_empty(), 8);
    assert_eq!(db.prompt_count().unwrap(), 8);
    assert_eq!(db.seed_if_empty(), 0);
    assert_eq!(db.prompt_count().unwrap(), 8);
    assert!(db.get_prompt("code-review").unwrap().unwrap().featured);
    assert_eq!(db.path(), ":memory:");
}

#[test]
fn a_stored_flag_and_absent_texts_come_back() {
    let db = Database::in_memory().unwrap();
    let mut p = Prompt::new("p", "T", "C");
    p.is_local = true;
    p.saved_at = Some("2026-01-01T00:00:00Z".to_string());
    db.upsert_prompt(&p).unwrap();
    let loaded = db.get_prompt("p").unwrap().unwrap();
    assert!(loaded.is_local);
    assert!(!loaded.featured);
    assert_eq!(loaded.saved_at, Some("2026-01-01T00:00:00Z".to_string()));
    assert_eq!(loaded.description, None);
    assert_eq!(loaded.author, None);
}

#[test]
fn a_text_that_is_not_utf8_fails_the_read() {
    let at = "file:jfp_text_that_is_not_utf8?mode=memory&cache=shared";
    let raw = rusqlite::Connection::open(at).unwrap();
    let db = Database::open_at(at).unwrap();
    db.upsert_prompt(&Prompt::new("good", "Good", "x")).unwrap();
    assert_eq!(db.get_prompt("good").unwrap().unwrap().title, "Good");
    raw.execute(
        "INSERT INTO prompts (id, title, content) VALUES ('bad', CAST(X'ff' AS TEXT), 'c')",
        [],
    )
    .unwrap();
    assert_eq!(db.get_prompt("bad").unwrap_err().kind, StoreErrorKind::Read);
    assert_eq!(db.list_prompts().unwrap_err().kind, StoreErrorKind::Read);
    assert_eq!(db.list_prompts_full().unwrap_err().kind, StoreErrorKind::Read);
    // what can be read still is
    assert_eq!(db.get_prompt("good").unwrap().unwrap().id, "good");
    assert_eq!(db.prompt_count().unwrap(), 2);
}

#[test]
fn a_tag_count_stands_once() {
    let db = Database::in_memory().unwrap();
    db.upsert_prompt(&tagged("a", "A", "x", None, &["t", "u"])).unwrap();
    db.upsert_prompt(&tagged("b", "B", "y", None, &["u", "v"])).unwrap();
    db.upsert_prompt(&tagged("c", "C", "z", None, &["u", "t", "w"])).unwrap();
    let counts = db.tag_counts().unwrap();
    assert_eq!(
        counts,
        vec![
            ("u".to_string(), 3),
            ("t".to_string(), 2),
            ("v".to_string(), 1),
            ("w".to_string(), 1)
        ]
    );
}
