use jfp::clock::timestamp_text;
use jfp::storage::jsonl::{
    classify_line, export_of, collect_records, render_backup, update_data_version, ImportError, ImportLine,
    LineKind,
};
use jfp::storage::{export_jsonl, import_jsonl, Database, StoreErrorKind, SCHEMA_VERSION};
use jfp::types::{Prompt, PromptVariable, VariableType};
use serde_json::Value;

const NOW: i64 = 1_700_000_000;

fn text_or_null(text: &Option<String>) -> Value {
    match text {
        Some(t) => Value::String(t.clone()),
        None => Value::Null,
    }
}

fn kind_name(kind: VariableType) -> &'static str {
    match kind {
        VariableType::Text => "text",
        VariableType::Multiline => "multiline",
        VariableType::File => "file",
        VariableType::Path => "path",
        VariableType::Select => "select",
    }
}

fn record_line(p: &Prompt) -> String {
    let mut o = serde_json::Map::new();
    o.insert("id".to_string(), Value::String(p.id.clone()));
    o.insert("title".to_string(), Value::String(p.title.clone()));
    o.insert("content".to_string(), Value::String(p.content.clone()));
    o.insert("description".to_string(), text_or_null(&p.description));
    o.insert("category".to_string(), text_or_null(&p.category));
    o.insert(
        "tags".to_string(),
        Value::Array(p.tags.iter().map(|t| Value::String(t.clone())).collect()),
    );
    let variables = p
        .variables
        .iter()
        .map(|v| {
            let mut m = serde_json::Map::new();
            m.insert("name".to_string(), Value::String(v.name.clone()));
            m.insert("type".to_string(), Value::String(kind_name(v.var_type).to_string()));
            m.insert("required".to_string(), Value::Bool(v.required));
            m.insert("description".to_string(), text_or_null(&v.description));
            m.insert("default".to_string(), text_or_null(&v.default));
            Value::Object(m)
        })
        .collect();
    o.insert("variables".to_string(), Value::Array(variables));
    o.insert("featured".to_string(), Value::Bool(p.featured));
    o.insert("version".to_string(), text_or_null(&p.version));
    o.insert("author".to_string(), text_or_null(&p.author));
    o.insert("saved_at".to_string(), text_or_null(&p.saved_at));
    o.insert("is_local".to_string(), Value::Bool(p.is_local));
    Value::Object(o).to_string()
}

fn opt_text(o: &serde_json::Map<String, Value>, key: &str) -> Option<String> {
    o.get(key).and_then(|v| v.as_str()).map(|s| s.to_string())
}

fn read_record(line: &str) -> Option<Prompt> {
    let value: Value = serde_json::from_str(line).ok()?;
    let o = value.as_object()?;
    let mut p = Prompt::new(o.get("id")?.as_str()?, o.get("title")?.as_str()?, o.get("content")?.as_str()?);
    p.description = opt_text(o, "description");
    p.category = opt_text(o, "category");
    if let Some(tags) = o.get("tags").and_then(|t| t.as_array()) {
        p.tags = tags.iter().filter_map(|t| t.as_str()).map(|t| t.to_string()).collect();
    }
    if let Some(variables) = o.get("variables").and_then(|t| t.as_array()) {
        for v in variables {
            let m = v.as_object()?;
            p.variables.push(PromptVariable {
                name: m.get("name")?.as_str()?.to_string(),
                var_type: match m.get("type").and_then(|t| t.as_str()) {
                    Some("multiline") => VariableType::Multiline,
                    Some("file") => VariableType::File,
                    Some("path") => VariableType::Path,
                    Some("select") => VariableType::Select,
                    _ => VariableType::Text,
                },
                required: m.get("required").and_then(|r| r.as_bool()).unwrap_or(false),
                description: opt_text(m, "description"),
                default: opt_text(m, "default"),
            });
        }
    }
    p.featured = o.get("featured").and_then(|f| f.as_bool()).unwrap_or(false);
    p.version = opt_text(o, "version");
    p.author = opt_text(o, "author");
    p.saved_at = opt_text(o, "saved_at");
    p.is_local = o.get("is_local").and_then(|f| f.as_bool()).unwrap_or(false);
    Some(p)
}

fn is_header(line: &str) -> bool {
    serde_json::from_str::<Value>(line)
        .ok()
        .and_then(|v| v.get("_meta").map(|m| m.is_object()))
        .unwrap_or(false)
}

fn read_lines(text: &str) -> Vec<ImportLine> {
    text.lines()
        .map(|l| ImportLine { text: l.to_string(), prompt: read_record(l), is_header: is_header(l) })
        .collect()
}

fn header_line(version: &str, count: usize, exported_at: &str, schema_version: i32) -> String {
    let mut meta = serde_json::Map::new();
    meta.insert("version".to_string(), Value::String(version.to_string()));
    meta.insert("count".to_string(), Value::from(count));
    meta.insert("exported_at".to_string(), Value::String(exported_at.to_string()));
    meta.insert("schema_version".to_string(), Value::from(schema_version));
    let mut o = serde_json::Map::new();
    o.insert("_meta".to_string(), Value::Object(meta));
    Value::Object(o).to_string()
}

fn export_text(db: &Database) -> (String, usize) {
    let export = export_jsonl(db, NOW).unwrap();
    let m = &export.header.meta;
    let header = header_line(&m.version, m.count, &m.exported_at, m.schema_version);
    let lines: Vec<String> = export.prompts.iter().map(record_line).collect();
    (render_backup(&header, &lines), export.prompts.len())
}

#[test]
fn test_export_import_roundtrip() {
    // Create DB and add prompts
    let mut db = Database::in_memory().unwrap();
    let prompts = vec![
        Prompt::new("test-1", "Test One", "Content one"),
        Prompt::new("test-2", "Test Two", "Content two"),
    ];
    db.bulk_upsert_prompts(&prompts).unwrap();

    // Export
    let (text, exported) = export_text(&db);
    assert_eq!(exported, 2);

    // Create new DB and import
    let mut db2 = Database::in_memory().unwrap();
    let imported = import_jsonl(&mut db2, &read_lines(&text), NOW).unwrap();
    assert_eq!(imported, 2);

    // Verify
    let loaded = db2.list_prompts().unwrap();
    assert_eq!(loaded.len(), 2);
    assert!(loaded.iter().any(|p| p.id == "test-1"));
    assert!(loaded.iter().any(|p| p.id == "test-2"));
}

#[test]
fn test_export_creates_metadata_header() {
    let db = Database::in_memory().unwrap();
    let (text, _) = export_text(&db);

    // Read first line
    let first_line = text.lines().next().expect("missing JSONL metadata header");
    assert!(first_line.contains("\"_meta\""));
    assert!(first_line.contains("\"exported_at\""));
}

#[test]
fn a_round_trip_keeps_every_field() {
    let mut db = Database::in_memory().unwrap();
    let mut full = Prompt::new("full", "Zed \"quoted\"", "line one\nline {{X}}\n");
    full.description = Some("d".to_string());
    full.category = Some("c".to_string());
    full.tags = vec!["t2".to_string(), "t1".to_string()];
    full.variables = vec![
        PromptVariable {
            name: "X".to_string(),
            var_type: VariableType::Multiline,
            required: true,
            description: Some("what".to_string()),
            default: Some("dflt".to_string()),
        },
        PromptVariable {
            name: "Y".to_string(),
            var_type: VariableType::Path,
            required: false,
            description: None,
            default: None,
        },
    ];
    full.featured = true;
    full.version = Some("1.2".to_string());
    full.author = Some("me".to_string());
    full.saved_at = Some("2026-01-01T00:00:00Z".to_string());
    full.is_local = true;
    let plain = Prompt::new("plain", "Alpha", "body");
    db.bulk_upsert_prompts(&vec![full, plain]).unwrap();

    let (text, count) = export_text(&db);
    assert_eq!(count, 2);
    assert_eq!(text.lines().count(), 3);
    assert!(text.ends_with('\n'));

    let mut fresh = Database::in_memory().unwrap();
    assert_eq!(import_jsonl(&mut fresh, &read_lines(&text), NOW).unwrap(), 2);
    let listed = fresh.list_prompts().unwrap();
    assert_eq!(listed.iter().map(|p| p.id.as_str()).collect::<Vec<_>>(), vec!["plain", "full"]);
    let back = fresh.get_prompt("full").unwrap().unwrap();
    assert_eq!(back.title, "Zed \"quoted\"");
    assert_eq!(back.content, "line one\nline {{X}}\n");
    assert_eq!(back.description, Some("d".to_string()));
    assert_eq!(back.category, Some("c".to_string()));
    assert_eq!(back.tags, vec!["t2", "t1"]);
    assert_eq!(back.variables.len(), 2);
    assert_eq!(back.variables[0].name, "X");
    assert_eq!(back.variables[0].var_type, VariableType::Multiline);
    assert!(back.variables[0].required);
    assert_eq!(back.variables[0].default, Some("dflt".to_string()));
    assert_eq!(back.variables[1].var_type, VariableType::Path);
    assert!(back.featured && back.is_local);
    assert_eq!(back.version, Some("1.2".to_string()));
    assert_eq!(back.author, Some("me".to_string()));
    assert_eq!(back.saved_at, Some("2026-01-01T00:00:00Z".to_string()));
    assert_eq!(fresh.get_meta("data_version").unwrap(), timestamp_text(NOW));
}

#[test]
fn the_header_tells_count_time_and_layout() {
    let db = Database::in_memory().unwrap();
    db.upsert_prompt(&Prompt::new("a", "A", "x")).unwrap();
    let first = export_jsonl(&db, NOW).unwrap();
    assert_eq!(first.header.meta.count, 1);
    assert_eq!(first.header.meta.exported_at, timestamp_text(NOW));
    assert_eq!(first.header.meta.schema_version, SCHEMA_VERSION);
    assert_eq!(first.header.meta.schema_version, 2);
    // no version of the data is kept yet: the present stands in
    assert_eq!(first.header.meta.version, timestamp_text(NOW));
    update_data_version(&db, NOW + 5).unwrap();
    let second = export_jsonl(&db, NOW + 60).unwrap();
    assert_eq!(second.header.meta.version, timestamp_text(NOW + 5));
    assert_eq!(second.header.meta.exported_at, timestamp_text(NOW + 60));
}

#[test]
fn lines_are_told_apart() {
    assert_eq!(classify_line(1, ""), LineKind::Blank);
    assert_eq!(classify_line(3, " \t "), LineKind::Blank);
    assert_eq!(classify_line(1, "{\"_meta\":{}}"), LineKind::Meta);
    assert_eq!(classify_line(2, "{\"_meta\":{}}"), LineKind::Record);
    assert_eq!(classify_line(1, "{\"id\":\"x\"}"), LineKind::Record);
    assert_eq!(classify_line(1, "_meta"), LineKind::Record);
}

fn line(text: &str) -> ImportLine {
    ImportLine { text: text.to_string(), prompt: read_record(text), is_header: is_header(text) }
}

#[test]
fn an_unreadable_line_fails_the_import_with_its_number() {
    let good = record_line(&Prompt::new("a", "A", "x"));
    let lines = vec![
        line(&header_line("v", 2, "t", 2)),
        line(""),
        line(&good),
        line("{not json"),
        line("also bad"),
    ];
    match collect_records(&lines) {
        Err(ImportError::Parse { line }) => assert_eq!(line, 4),
        other => panic!("unexpected: {other:?}"),
    }
    let mut db = Database::in_memory().unwrap();
    match import_jsonl(&mut db, &lines, NOW) {
        Err(ImportError::Parse { line }) => assert_eq!(line, 4),
        other => panic!("unexpected: {other:?}"),
    }
    // nothing was applied
    assert_eq!(db.prompt_count().unwrap(), 0);
    assert_eq!(db.get_meta("data_version").unwrap_err().kind, StoreErrorKind::Read);
}

#[test]
fn a_header_that_cannot_be_read_fails_at_line_one() {
    let lines = vec![line("{\"_meta\": 5"), line(&record_line(&Prompt::new("a", "A", "x")))];
    match collect_records(&lines) {
        Err(ImportError::Parse { line }) => assert_eq!(line, 1),
        other => panic!("unexpected: {other:?}"),
    }
}

#[test]
fn an_import_needs_no_header_and_skips_blank_lines() {
    let a = record_line(&Prompt::new("a", "A", "x"));
    let b = record_line(&Prompt::new("b", "B", "y"));
    let lines = vec![line(&a), line("   "), line(&b), line("")];
    let prompts = collect_records(&lines).unwrap();
    assert_eq!(prompts.iter().map(|p| p.id.as_str()).collect::<Vec<_>>(), vec!["a", "b"]);
    let mut db = Database::in_memory().unwrap();
    assert_eq!(import_jsonl(&mut db, &lines, NOW).unwrap(), 2);
    assert_eq!(db.prompt_count().unwrap(), 2);
    assert_eq!(collect_records(&vec![]).unwrap().len(), 0);
}

#[test]
fn a_refused_import_keeps_nothing() {
    let mut twice = Prompt::new("dup", "D", "x");
    twice.tags = vec!["t".to_string(), "t".to_string()];
    let lines = vec![line(&record_line(&Prompt::new("a", "A", "x"))), line(&record_line(&twice))];
    let mut db = Database::in_memory().unwrap();
    match import_jsonl(&mut db, &lines, NOW) {
        Err(ImportError::Store(e)) => assert_eq!(e.kind, StoreErrorKind::Write),
        other => panic!("unexpected: {other:?}"),
    }
    assert_eq!(db.prompt_count().unwrap(), 0);
}

#[test]
fn a_backup_is_header_and_lines_each_with_a_line_feed() {
    assert_eq!(render_backup("h", &vec![]), "h\n");
    assert_eq!(render_backup("h", &vec!["a".to_string(), "b".to_string()]), "h\na\nb\n");
}

#[test]
fn an_export_holds_the_prompts_as_they_are_and_the_header_for_them() {
    let mut a = Prompt::new("a", "A", "x");
    a.tags = vec!["t".to_string()];
    a.featured = true;
    let b = Prompt::new("b", "B", "y");
    let kept = export_of(vec![a.clone(), b.clone()], Some("v7".to_string()), NOW);
    assert_eq!(kept.prompts.len(), 2);
    assert_eq!(kept.prompts[0].id, "a");
    assert_eq!(kept.prompts[0].tags, vec!["t"]);
    assert!(kept.prompts[0].featured);
    assert_eq!(kept.prompts[1].content, "y");
    assert_eq!(kept.header.meta.count, 2);
    assert_eq!(kept.header.meta.version, "v7");
    assert_eq!(kept.header.meta.exported_at, "2023-11-14T22:13:20+00:00");
    assert_eq!(kept.header.meta.schema_version, 2);

    let fresh = export_of(vec![b], None, NOW + 1);
    assert_eq!(fresh.header.meta.count, 1);
    assert_eq!(fresh.header.meta.version, "2023-11-14T22:13:21+00:00");
    assert_eq!(fresh.header.meta.exported_at, "2023-11-14T22:13:21+00:00");

    let empty = export_of(vec![], Some(String::new()), 0);
    assert_eq!(empty.header.meta.count, 0);
    assert_eq!(empty.header.meta.version, "");
    assert_eq!(empty.header.meta.exported_at, "1970-01-01T00:00:00+00:00");
    assert!(empty.prompts.is_empty());
}

#[test]
fn an_export_reads_every_prompt_and_the_version_that_is_kept() {
    let db = Database::in_memory().unwrap();
    let mut b = Prompt::new("b", "Beta", "y");
    b.tags = vec!["z".to_string(), "a".to_string()];
    b.variables = vec![PromptVariable {
        name: "N".to_string(),
        var_type: VariableType::Text,
        required: false,
        description: None,
        default: None,
    }];
    db.upsert_prompt(&b).unwrap();
    db.upsert_prompt(&Prompt::new("a", "Alpha", "x")).unwrap();
    db.set_meta("data_version", "v7").unwrap();
    let export = export_jsonl(&db, NOW).unwrap();
    assert_eq!(export.header.meta.version, "v7");
    assert_eq!(export.header.meta.count, 2);
    assert_eq!(export.prompts.len(), 2);
    assert_eq!((export.prompts[0].id.as_str(), export.prompts[1].id.as_str()), ("a", "b"));
    assert_eq!(export.prompts[1].tags, vec!["z", "a"]);
    assert_eq!(export.prompts[1].variables.len(), 1);
    assert_eq!(export.prompts[1].variables[0].name, "N");
}
