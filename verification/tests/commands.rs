use jfp::cli::shorten;
use jfp::clock::timestamp_text;
use jfp::commands::doctor::{
    all_passed, check_bundled_prompts, check_prompt_count, status_name, status_symbol, Check,
    CheckStatus,
};
use jfp::commands::export::{check_format, exports_all, format_prompt};
use jfp::commands::refresh::{
    load_into, source_name, status_source, store_refreshed, sync_is_stale,
};
use jfp::commands::render::{answered, apply_context, fill_variables, placeholder, substitute};
use jfp::commands::search::{
    check_search, escape_fts_query, search_checked, search_with_retry, SearchFailure, SearchRefusal,
};
use jfp::commands::settings::{
    check_action, infer_value, ConfigAction, ConfigRefusal, ConfigValue,
};
use jfp::commands::suggest::generate_reason;
use jfp::registry::{FetchOutcome, RegistryLoader, RemoteData};
use jfp::storage::Database;
use jfp::text::{first_chars, replace_all};
use jfp::types::{Prompt, PromptVariable, RegistrySource, VariableType};

const NOW: i64 = 1_700_000_000;

#[test]
fn a_query_is_escaped_as_a_phrase() {
    assert_eq!(escape_fts_query("idea"), "\"idea\"");
    assert_eq!(escape_fts_query(""), "\"\"");
    assert_eq!(escape_fts_query("say \"hi\" (now)"), "\"say \"\"hi\"\" (now)\"");
    assert_eq!(escape_fts_query("\""), "\"\"\"\"");
}

#[test]
fn a_search_is_checked_before_it_is_made() {
    assert_eq!(check_search("x", 0), Err(SearchRefusal::InvalidLimit));
    assert_eq!(check_search("x", 101), Err(SearchRefusal::InvalidLimit));
    assert_eq!(check_search("  ", 101), Err(SearchRefusal::InvalidLimit));
    assert_eq!(check_search("", 10), Err(SearchRefusal::EmptyQuery));
    assert_eq!(check_search(" \t\n", 1), Err(SearchRefusal::EmptyQuery));
    assert_eq!(check_search("x", 1), Ok(()));
    assert_eq!(check_search("x", 100), Ok(()));
}

#[test]
fn a_query_of_bad_syntax_is_tried_again_as_a_phrase() {
    let db = Database::in_memory().unwrap();
    db.upsert_prompt(&Prompt::new("p", "fix (this", "body")).unwrap();
    // as it stands the query is no valid expression
    assert!(db.search("(this", 10).is_err());
    let hits = search_with_retry(&db, "(this", 10).unwrap();
    assert_eq!(hits.len(), 1);
    assert_eq!(hits[0].0.id, "p");
    let checked = search_checked(&db, "(this", 10).unwrap();
    assert_eq!(checked.len(), 1);
    assert!(matches!(
        search_checked(&db, "x", 0),
        Err(SearchFailure::Refused(SearchRefusal::InvalidLimit))
    ));
    assert!(matches!(
        search_checked(&db, " ", 5),
        Err(SearchFailure::Refused(SearchRefusal::EmptyQuery))
    ));
}

fn sample() -> Prompt {
    let mut p = Prompt::new("my-id", "My Title", "Do {{THING}}");
    p.description = Some("What it does".to_string());
    p.category = Some("testing".to_string());
    p.tags = vec!["a".to_string(), "b".to_string()];
    p.variables = vec![
        PromptVariable {
            name: "THING".to_string(),
            var_type: VariableType::Text,
            required: true,
            description: Some("the thing".to_string()),
            default: Some("it".to_string()),
        },
        PromptVariable {
            name: "BARE".to_string(),
            var_type: VariableType::Text,
            required: false,
            description: None,
            default: None,
        },
    ];
    p
}

#[test]
fn a_prompt_as_markdown() {
    assert_eq!(
        format_prompt(&sample(), "md"),
        "# My Title\n\nWhat it does\n\n**Category**: testing\n\n**Tags**: a, b\n\n---\n\nDo {{THING}}\n"
    );
    assert_eq!(format_prompt(&Prompt::new("i", "T", "C"), "anything"), "# T\n\n---\n\nC\n");
}

#[test]
fn a_prompt_as_a_skill() {
    assert_eq!(
        format_prompt(&sample(), "skill"),
        "# My Title\n\n> What it does\n\n## Metadata\n\n- **ID**: my-id\n- **Category**: testing\n\
- **Tags**: a, b\n\n## Variables\n\n- `{{THING}}`: the thing (default: it)\n- `{{BARE}}`\n\n\
## Prompt\n\n```\nDo {{THING}}\n```\n"
    );
    assert_eq!(
        format_prompt(&Prompt::new("i", "T", "C"), "skill"),
        "# T\n\n## Metadata\n\n- **ID**: i\n\n## Prompt\n\n```\nC\n```\n"
    );
}

#[test]
fn formats_and_ids_of_an_export() {
    assert!(check_format("md").is_ok());
    assert!(check_format("skill").is_ok());
    assert!(check_format("pdf").is_err());
    assert!(check_format("").is_err());
    assert!(exports_all(&vec![]));
    assert!(exports_all(&vec!["all".to_string()]));
    assert!(!exports_all(&vec!["a".to_string()]));
    assert!(!exports_all(&vec!["all".to_string(), "b".to_string()]));
}

#[test]
fn reasons_for_a_suggestion() {
    let tags = vec!["Debug".to_string(), "api".to_string()];
    assert_eq!(
        generate_reason("Debug Helper", &Some("Systematic DEBUGGING help".to_string()), &tags, "help me debug"),
        "title contains 'help'; description mentions 'help'; tagged as 'Debug'"
    );
    // words of two bytes or fewer do not count in title and description
    assert_eq!(generate_reason("Me and it", &None, &vec![], "me it"), "Related to your task keywords");
    // a tag also matches where it stands in a word
    assert_eq!(
        generate_reason("Title", &None, &tags, "design some apis"),
        "tagged as 'api'"
    );
    assert_eq!(generate_reason("Title", &None, &tags, ""), "Related to your task keywords");
}

#[test]
fn the_checks_of_the_doctor() {
    let bundled = check_bundled_prompts();
    assert_eq!(bundled.name, "Bundled Prompts");
    assert_eq!(bundled.status, CheckStatus::Pass);
    assert_eq!(bundled.message, "8 prompts available");
    let none = check_prompt_count(0);
    assert_eq!(none.status, CheckStatus::Fail);
    assert_eq!(none.message, "No bundled prompts found");
    assert_eq!(check_prompt_count(120).message, "120 prompts available");
    assert!(all_passed(&vec![]));
    assert!(all_passed(&vec![check_bundled_prompts()]));
    let warn = Check { name: "n".to_string(), status: CheckStatus::Warn, message: String::new() };
    assert!(!all_passed(&vec![check_bundled_prompts(), warn]));
    assert_eq!(status_name(CheckStatus::Pass), "PASS");
    assert_eq!(status_name(CheckStatus::Warn), "WARN");
    assert_eq!(status_name(CheckStatus::Fail), "FAIL");
    assert_eq!(status_symbol(CheckStatus::Pass), "+");
    assert_eq!(status_symbol(CheckStatus::Warn), "~");
    assert_eq!(status_symbol(CheckStatus::Fail), "x");
}

#[test]
fn a_refresh_goes_into_the_store() {
    let db = Database::in_memory().unwrap();
    let loader = RegistryLoader::new(None);
    let data = RemoteData {
        prompts: vec![Prompt::new("r1", "R1", "x"), Prompt::new("r2", "R2", "y")],
        etag: None,
        version: None,
    };
    let refreshed = loader.refresh(None, FetchOutcome::Fresh(data), NOW);
    let report = store_refreshed(&db, &refreshed, NOW);
    assert_eq!(report.loaded, 2);
    assert_eq!(report.prompt_count, 2);
    assert_eq!(report.source, "remote");
    assert_eq!(report.message, None);
    assert_eq!(db.get_meta("last_sync").unwrap(), timestamp_text(NOW));

    let failed = loader.refresh(None, FetchOutcome::Failed("offline".to_string()), NOW);
    let report = store_refreshed(&db, &failed, NOW);
    assert_eq!(report.source, "bundled");
    assert_eq!(report.loaded, 8);
    assert_eq!(report.prompt_count, 10);
    assert_eq!(report.message, Some("offline".to_string()));
}

#[test]
fn a_fallback_on_the_cache_is_told_in_fixed_words() {
    let db = Database::in_memory().unwrap();
    let cached = jfp::registry::CachedRegistry { prompts: vec![Prompt::new("c", "C", "x")], meta: None };
    let refreshed =
        RegistryLoader::new(None).refresh(Some(cached), FetchOutcome::Failed("offline".to_string()), NOW);
    let report = store_refreshed(&db, &refreshed, NOW);
    assert_eq!(report.source, "cache");
    assert_eq!(report.message, Some("Remote refresh failed; using cached registry".to_string()));
    assert_eq!(load_into(&db, &vec![]), 0);
}

#[test]
fn the_data_is_stale_an_hour_after_the_last_refresh() {
    let at = timestamp_text(NOW);
    assert!(!sync_is_stale(Some(&at), NOW));
    assert!(!sync_is_stale(Some(&at), NOW + 3599));
    assert!(sync_is_stale(Some(&at), NOW + 3600));
    assert!(sync_is_stale(Some("never"), NOW));
    assert!(sync_is_stale(None, NOW));
    assert_eq!(status_source(false, true), "bundled");
    assert_eq!(status_source(false, false), "bundled");
    assert_eq!(status_source(true, true), "local (stale)");
    assert_eq!(status_source(true, false), "local");
    assert_eq!(source_name(RegistrySource::Remote), "remote");
    assert_eq!(source_name(RegistrySource::Cache), "cache");
    assert_eq!(source_name(RegistrySource::Bundled), "bundled");
    assert_eq!(source_name(RegistrySource::Local), "local");
}

#[test]
fn variables_are_filled_without_asking() {
    let mut p = Prompt::new("i", "T", "Hi {{NAME}}, {{NAME}}! Fix {{WHAT}} in {{WHERE}} {{ NAME }}");
    let var = |name: &str, default: Option<&str>| PromptVariable {
        name: name.to_string(),
        var_type: VariableType::Text,
        required: false,
        description: None,
        default: default.map(|d| d.to_string()),
    };
    p.variables = vec![var("NAME", Some("you")), var("WHAT", None), var("WHERE", Some("here"))];
    let context = vec![
        ("WHERE".to_string(), "there".to_string()),
        ("NAME".to_string(), "{{WHAT}}".to_string()),
        ("WHERE".to_string(), "nowhere".to_string()),
    ];
    let out = fill_variables(&p, &context);
    // a value that holds a placeholder is filled in turn
    assert_eq!(out.content, "Hi , ! Fix  in there {{ NAME }}");
    let listed: Vec<(&str, &str)> =
        out.variables.iter().map(|f| (f.name.as_str(), f.value.as_str())).collect();
    assert_eq!(listed, vec![("NAME", "{{WHAT}}"), ("WHERE", "there")]);

    let none = fill_variables(&p, &vec![]);
    assert_eq!(none.content, "Hi you, you! Fix  in here {{ NAME }}");

    let applied = apply_context("a {{X}} b {{Y}} {{X}}", &vec![
        ("X".to_string(), "1".to_string()),
        ("Z".to_string(), "9".to_string()),
        ("Y".to_string(), "{{Z}}".to_string()),
    ]);
    assert_eq!(applied.content, "a 1 b {{Z}} 1");
    let used: Vec<&str> = applied.variables.iter().map(|f| f.name.as_str()).collect();
    assert_eq!(used, vec!["X", "Y"]);

    assert_eq!(placeholder("CODE"), "{{CODE}}");
    assert_eq!(substitute("{{A}}{{A}}x{{A", "A", "{{A}}"), "{{A}}{{A}}x{{A");
    assert_eq!(answered("typed", Some("d")), "typed");
    assert_eq!(answered("", Some("d")), "d");
    assert_eq!(answered("", None), "");
}

#[test]
fn replace_is_the_replace_of_strings() {
    for (text, needle, with) in [
        ("", "a", "b"),
        ("aaa", "aa", "b"),
        ("abcabc", "bc", ""),
        ("abcabc", "abc", "abcabc"),
        ("xx", "xxx", "y"),
        ("a{{b}}c", "{{b}}", "{{b}}{{b}}"),
        ("ééé", "é", "e"),
    ] {
        assert_eq!(replace_all(text, needle, with), text.replace(needle, with), "for {text:?}");
    }
    assert_eq!(replace_all("abc", "", "x"), "abc");
    assert_eq!(first_chars("héllo", 2), "hé");
    assert_eq!(first_chars("héllo", 9), "héllo");
    assert_eq!(first_chars("", 0), "");
}

#[test]
fn long_descriptions_are_shortened_in_lists() {
    let sixty = "x".repeat(60);
    assert_eq!(shorten(&sixty), sixty);
    let long = "é".repeat(61);
    assert_eq!(shorten(&long), format!("{}...", "é".repeat(57)));
    assert_eq!(shorten(""), "");
}

#[test]
fn the_kind_of_a_setting_is_inferred_in_order() {
    assert!(matches!(infer_value("true", false), ConfigValue::Boolean(true)));
    assert!(matches!(infer_value("false", true), ConfigValue::Boolean(false)));
    assert!(matches!(infer_value("True", false), ConfigValue::Text(t) if t == "True"));
    assert!(matches!(infer_value("42", true), ConfigValue::Integer(42)));
    assert!(matches!(infer_value("-7", true), ConfigValue::Integer(-7)));
    assert!(matches!(infer_value("+7", false), ConfigValue::Integer(7)));
    assert!(matches!(infer_value("9223372036854775807", true), ConfigValue::Integer(i64::MAX)));
    assert!(matches!(infer_value("9223372036854775808", true), ConfigValue::Float(t) if t == "9223372036854775808"));
    assert!(matches!(infer_value("1.5", true), ConfigValue::Float(t) if t == "1.5"));
    assert!(matches!(infer_value("1.5x", false), ConfigValue::Text(t) if t == "1.5x"));
    assert!(matches!(infer_value("", false), ConfigValue::Text(t) if t.is_empty()));
}

#[test]
fn an_action_on_the_settings_needs_its_arguments() {
    assert_eq!(check_action("path", false, false), Ok(ConfigAction::Path));
    assert_eq!(check_action("list", true, true), Ok(ConfigAction::List));
    assert_eq!(check_action("reset", false, false), Ok(ConfigAction::Reset));
    assert_eq!(check_action("get", true, false), Ok(ConfigAction::Read));
    assert_eq!(check_action("get", false, true), Err(ConfigRefusal::MissingKey));
    assert_eq!(check_action("set", true, true), Ok(ConfigAction::Put));
    assert_eq!(check_action("set", true, false), Err(ConfigRefusal::MissingKeyOrValue));
    assert_eq!(check_action("set", false, true), Err(ConfigRefusal::MissingKeyOrValue));
    assert_eq!(check_action("drop", true, true), Err(ConfigRefusal::InvalidAction));
    assert_eq!(check_action("", false, false), Err(ConfigRefusal::InvalidAction));
}

#[test]
fn a_report_is_made_of_what_the_store_took_and_holds() {
    let loader = RegistryLoader::new(None);
    let data = RemoteData { prompts: vec![Prompt::new("r1", "R1", "x")], etag: None, version: None };
    let fresh = loader.refresh(None, FetchOutcome::Fresh(data), NOW);
    let report = jfp::commands::refresh::report_of(&fresh, 1, Some(5));
    assert_eq!((report.loaded, report.prompt_count), (1, 5));
    assert_eq!(report.source, "remote");
    assert_eq!(report.message, None);
    // prompts that cannot be counted: the number that the store took stands in
    let report = jfp::commands::refresh::report_of(&fresh, 1, None);
    assert_eq!((report.loaded, report.prompt_count), (1, 1));

    let failed = loader.refresh(None, FetchOutcome::Failed("offline".to_string()), NOW);
    let report = jfp::commands::refresh::report_of(&failed, 0, Some(0));
    assert_eq!((report.loaded, report.prompt_count), (0, 0));
    assert_eq!(report.source, "bundled");
    assert_eq!(report.message, Some("offline".to_string()));
}

#[test]
fn the_check_of_the_database_tells_the_count_or_the_reason() {
    let passed = jfp::commands::doctor::database_check(&Ok(Some(12)));
    assert_eq!(passed.name, "Database");
    assert_eq!(passed.status, CheckStatus::Pass);
    assert_eq!(passed.message, "OK (12 prompts)");
    let uncounted = jfp::commands::doctor::database_check(&Ok(None));
    assert_eq!(uncounted.status, CheckStatus::Pass);
    assert_eq!(uncounted.message, "OK (0 prompts)");
    let failed = jfp::commands::doctor::database_check(&Err("no such directory".to_string()));
    assert_eq!(failed.name, "Database");
    assert_eq!(failed.status, CheckStatus::Fail);
    assert_eq!(failed.message, "Failed to open: no such directory");
}

#[test]
fn a_store_is_seeded_where_it_is_taken_for_empty() {
    use_taken_for_empty();
    let db = Database::in_memory().unwrap();
    assert_eq!(db.seed_if_empty(), 8);
    assert_eq!(db.prompt_count().unwrap(), 8);
    assert_eq!(db.seed_if_empty(), 0);
    assert_eq!(db.prompt_count().unwrap(), 8);
}

fn use_taken_for_empty() {
    let taken = jfp::storage::database::taken_for_empty;
    assert!(taken(&Ok(0)));
    assert!(!taken(&Ok(1)));
    assert!(!taken(&Ok(usize::MAX)));
    assert!(taken(&Err(jfp::storage::read::unreadable("why"))));
}
