use jfp::types::Prompt;

#[test]
fn test_prompt_new() {
    let p = Prompt::new("test-id", "Test Title", "Test content");
    assert_eq!(p.id, "test-id");
    assert_eq!(p.title, "Test Title");
    assert_eq!(p.content, "Test content");
    assert!(!p.featured);
    assert!(p.tags.is_empty());
}

#[test]
fn test_matches_category() {
    let mut p = Prompt::new("id", "title", "content");
    p.category = Some("Testing".to_string());
    assert!(p.matches_category("testing"));
    assert!(p.matches_category("Testing"));
    assert!(!p.matches_category("other"));
}

#[test]
fn test_has_tag() {
    let mut p = Prompt::new("id", "title", "content");
    p.tags = vec!["rust".to_string(), "CLI".to_string()];
    assert!(p.has_tag("rust"));
    assert!(p.has_tag("cli"));
    assert!(!p.has_tag("python"));
}

#[test]
fn a_prompt_is_fit_for_the_store() {
    let mut p = Prompt::new("i", "T", "C");
    assert!(p.is_well_formed());
    p.tags = vec!["a".to_string(), "b".to_string(), "A".to_string()];
    assert!(p.is_well_formed());
    p.tags.push("b".to_string());
    assert!(!p.is_well_formed());
    assert!(!Prompt::new("", "T", "C").is_well_formed());
    assert!(!Prompt::new("i", "", "C").is_well_formed());
    assert!(!Prompt::new("i", "T", "").is_well_formed());
    for bundled in jfp::registry::bundled_prompts() {
        assert!(bundled.is_well_formed());
    }
}
