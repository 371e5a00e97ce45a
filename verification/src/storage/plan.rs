//! What the store hands to SQLite: for each of its operations the statements
//! to run, with the values for their placeholders.

use crate::storage::schema::{
    ADD_INDEX, ADD_TAG, ADD_VARIABLE, CATEGORY_IS, CLEAR_INDEX, CLEAR_TAGS,
    CLEAR_VARIABLES, GET_META, GET_PROMPT, GET_TAGS, GET_VARIABLES, HAS_TAG,
    IS_FEATURED, LIST_HEAD, LIST_TAIL, PUT_PROMPT, SEARCH, SET_META, };
use crate::storage::sql::{param_views, statement_views, Param, ParamView, Statement, StatementView};
use crate::text::{join, joined, opt_text, texts};
use crate::types::prompt::{
    prompt_views, Prompt, PromptVariable, PromptView, VariableType, VariableView,
};
use vstd::prelude::*;
use vstd::string::StringExecFns;

verus! {

/// The name under which a kind of variable is stored.
pub open spec fn var_type_name(kind: VariableType) -> Seq<char> {
    match kind {
        VariableType::Text => "text"@,
        VariableType::Multiline => "multiline"@,
        VariableType::File => "file"@,
        VariableType::Path => "path"@,
        VariableType::Select => "select"@,
    }
}

/// The name under which a kind of variable is stored.
pub fn var_type_to_str(kind: &VariableType) -> (name: &'static str)
    ensures
        name@ == var_type_name(*kind),
{
    match kind {
        VariableType::Text => "text",
        VariableType::Multiline => "multiline",
        VariableType::File => "file",
        VariableType::Path => "path",
        VariableType::Select => "select",
    }
}

/// The kind of variable that is stored under `name`. A name that is none of
/// the five stands for a text.
pub open spec fn var_type_named(name: Seq<char>) -> VariableType {
    if name == "multiline"@ {
        VariableType::Multiline
    } else if name == "file"@ {
        VariableType::File
    } else if name == "path"@ {
        VariableType::Path
    } else if name == "select"@ {
        VariableType::Select
    } else {
        VariableType::Text
    }
}

/// The kind of variable that is stored under `name`.
pub fn str_to_var_type(name: &str) -> (kind: VariableType)
    ensures
        kind == var_type_named(name@),
{
    if *name == *"multiline" {
        VariableType::Multiline
    } else if *name == *"file" {
        VariableType::File
    } else if *name == *"path" {
        VariableType::Path
    } else if *name == *"select" {
        VariableType::Select
    } else {
        VariableType::Text
    }
}

/// Reading back the name of a kind gives the kind.
pub proof fn lemma_var_type_round_trip(kind: VariableType)
    ensures
        var_type_named(var_type_name(kind)) == kind,
{
    reveal_strlit("text");
    reveal_strlit("multiline");
    reveal_strlit("file");
    reveal_strlit("path");
    reveal_strlit("select");
    assert("text"@.len() == 4);
    assert("file"@[0] == 'f' && "path"@[0] == 'p' && "text"@[0] == 't');
    assert("multiline"@.len() == 9 && "select"@.len() == 6);
}

/// The value for a text.
pub open spec fn text_value(text: Seq<char>) -> ParamView {
    ParamView::Text(text)
}

/// The value for a text that may be absent: the text, or null.
pub open spec fn opt_value(text: Option<Seq<char>>) -> ParamView {
    match text {
        Some(t) => ParamView::Text(t),
        None => ParamView::Null,
    }
}

/// The value for a flag: 1 for true, 0 for false.
pub open spec fn flag_value(flag: bool) -> ParamView {
    ParamView::Integer(
        if flag {
            1
        } else {
            0
        },
    )
}

fn text_param(text: &str) -> (p: Param)
    ensures
        p@ == text_value(text@),
{
    Param::Text(text.to_string())
}

fn opt_param(text: &Option<String>) -> (p: Param)
    ensures
        p@ == opt_value(opt_text(*text)),
{
    match text {
        Some(t) => Param::Text(t.clone()),
        None => Param::Null,
    }
}

fn flag_param(flag: bool) -> (p: Param)
    ensures
        p@ == flag_value(flag),
{
    Param::Integer(
        if flag {
            1
        } else {
            0
        },
    )
}

/// The statement `sql` with `params` for its placeholders.
fn statement(sql: &str, params: Vec<Param>) -> (s: Statement)
    ensures
        s@ == (StatementView { sql: sql@, params: param_views(params@) }),
{
    Statement { sql: sql.to_string(), params }
}

/// A setting of a connection.
#[derive(Debug)]
pub struct Setting {
    pub name: String,
    pub value: Param,
}

/// The views of a list of settings.
pub open spec fn setting_views(settings: Seq<Setting>) -> Seq<(Seq<char>, ParamView)> {
    settings.map_values(|s: Setting| (s.name@, s.value@))
}

/// The settings of a connection to a database in a file: a write-ahead log,
/// so that readers go on while a writer writes; syncing as the log needs it;
/// a checkpoint every thousand pages; foreign keys enforced.
pub open spec fn file_setting_views() -> Seq<(Seq<char>, ParamView)> {
    seq![
        ("journal_mode"@, text_value("WAL"@)),
        ("synchronous"@, text_value("NORMAL"@)),
        ("wal_autocheckpoint"@, ParamView::Integer(1000)),
        ("foreign_keys"@, text_value("ON"@)),
    ]
}

/// The settings of a connection to a database in memory: foreign keys
/// enforced.
pub open spec fn memory_setting_views() -> Seq<(Seq<char>, ParamView)> {
    seq![("foreign_keys"@, text_value("ON"@))]
}

fn setting(name: &str, value: Param) -> (s: Setting)
    ensures
        s.name@ == name@,
        s.value == value,
{
    Setting { name: name.to_string(), value }
}

/// The settings of a connection to a database in a file, in the order in
/// which they are made.
pub fn file_settings() -> (settings: Vec<Setting>)
    ensures
        setting_views(settings@) == file_setting_views(),
{
    let settings = vec![
        setting("journal_mode", text_param("WAL")),
        setting("synchronous", text_param("NORMAL")),
        setting("wal_autocheckpoint", Param::Integer(1000)),
        setting("foreign_keys", text_param("ON")),
    ];
    assert(setting_views(settings@) =~= file_setting_views());
    settings
}

/// The settings of a connection to a database in memory.
pub fn memory_settings() -> (settings: Vec<Setting>)
    ensures
        setting_views(settings@) == memory_setting_views(),
{
    let settings = vec![setting("foreign_keys", text_param("ON"))];
    assert(setting_views(settings@) =~= memory_setting_views());
    settings
}

/// The tags of a prompt as one text, for the search entry: the tags with a
/// space between each two.
pub open spec fn tags_text(tags: Seq<Seq<char>>) -> Seq<char> {
    joined(tags, " "@)
}

/// One of the writes that an upsert is made of.
pub enum Write {
    /// The row of the prompt, over the row of the same id where there is one.
    PutPrompt(PromptView),
    /// Every tag of the prompt with this id goes.
    ClearTags(Seq<char>),
    /// The prompt with this id gets this tag.
    AddTag(Seq<char>, Seq<char>),
    /// Every variable of the prompt with this id goes.
    ClearVariables(Seq<char>),
    /// The prompt with this id gets this variable.
    AddVariable(Seq<char>, VariableView),
    /// Every search entry of the prompt with this id goes.
    ClearIndex(Seq<char>),
    /// The search entry of the prompt.
    AddIndex(PromptView),
}

/// The statement that carries out a write.
pub open spec fn rendered(write: Write) -> StatementView {
    match write {
        Write::PutPrompt(p) => StatementView {
            sql: PUT_PROMPT@,
            params: seq![
                text_value(p.id),
                text_value(p.title),
                text_value(p.content),
                opt_value(p.description),
                opt_value(p.category),
                text_value(tags_text(p.tags)),
                flag_value(p.featured),
                opt_value(p.version),
                opt_value(p.author),
                opt_value(p.saved_at),
                flag_value(p.is_local),
            ],
        },
        Write::ClearTags(id) => StatementView { sql: CLEAR_TAGS@, params: seq![text_value(id)] },
        Write::AddTag(id, tag) => StatementView {
            sql: ADD_TAG@,
            params: seq![text_value(id), text_value(tag)],
        },
        Write::ClearVariables(id) => StatementView {
            sql: CLEAR_VARIABLES@,
            params: seq![text_value(id)],
        },
        Write::AddVariable(id, v) => StatementView {
            sql: ADD_VARIABLE@,
            params: seq![
                text_value(id),
                text_value(v.name),
                text_value(var_type_name(v.var_type)),
                flag_value(v.required),
                opt_value(v.description),
                opt_value(v.default),
            ],
        },
        Write::ClearIndex(id) => StatementView { sql: CLEAR_INDEX@, params: seq![text_value(id)] },
        Write::AddIndex(p) => StatementView {
            sql: ADD_INDEX@,
            params: seq![
                text_value(p.id),
                text_value(p.title),
                opt_value(p.description),
                text_value(p.content),
                text_value(tags_text(p.tags)),
            ],
        },
    }
}

/// The writes that add the tags `tags` to the prompt `id`, in their order.
pub open spec fn tag_writes(id: Seq<char>, tags: Seq<Seq<char>>) -> Seq<Write> {
    Seq::new(tags.len(), |i: int| Write::AddTag(id, tags[i]))
}

/// The writes that add the variables `variables` to the prompt `id`, in
/// their order.
pub open spec fn variable_writes(id: Seq<char>, variables: Seq<VariableView>) -> Seq<Write> {
    Seq::new(variables.len(), |i: int| Write::AddVariable(id, variables[i]))
}

/// The writes of an upsert, in their order: the row; the old tags go and the
/// new ones come; the old variables go and the new ones come; the old search
/// entry goes and the new one comes. Nothing of what the store held under the
/// prompt's id is merged with the new.
pub open spec fn upsert_writes(p: PromptView) -> Seq<Write> {
    seq![Write::PutPrompt(p), Write::ClearTags(p.id)] + tag_writes(p.id, p.tags)
        + seq![Write::ClearVariables(p.id)] + variable_writes(p.id, p.variables)
        + seq![Write::ClearIndex(p.id), Write::AddIndex(p)]
}

/// The statements that carry out `writes`, one for each, in their order.
pub open spec fn rendered_all(writes: Seq<Write>) -> Seq<StatementView> {
    writes.map_values(|w: Write| rendered(w))
}

fn put_prompt(p: &Prompt) -> (s: Statement)
    ensures
        s@ == rendered(Write::PutPrompt(p@)),
{
    let tags = join(&p.tags, " ");
    let params = vec![
        text_param(p.id.as_str()),
        text_param(p.title.as_str()),
        text_param(p.content.as_str()),
        opt_param(&p.description),
        opt_param(&p.category),
        text_param(tags.as_str()),
        flag_param(p.featured),
        opt_param(&p.version),
        opt_param(&p.author),
        opt_param(&p.saved_at),
        flag_param(p.is_local),
    ];
    let s = statement(PUT_PROMPT, params);
    assert(s@.params =~= rendered(Write::PutPrompt(p@)).params);
    s
}

fn add_index(p: &Prompt) -> (s: Statement)
    ensures
        s@ == rendered(Write::AddIndex(p@)),
{
    let tags = join(&p.tags, " ");
    let params = vec![
        text_param(p.id.as_str()),
        text_param(p.title.as_str()),
        opt_param(&p.description),
        text_param(p.content.as_str()),
        text_param(tags.as_str()),
    ];
    let s = statement(ADD_INDEX, params);
    assert(s@.params =~= rendered(Write::AddIndex(p@)).params);
    s
}

fn add_tag(id: &str, tag: &str) -> (s: Statement)
    ensures
        s@ == rendered(Write::AddTag(id@, tag@)),
{
    let params = vec![text_param(id), text_param(tag)];
    let s = statement(ADD_TAG, params);
    assert(s@.params =~= rendered(Write::AddTag(id@, tag@)).params);
    s
}

fn add_variable(id: &str, v: &PromptVariable) -> (s: Statement)
    ensures
        s@ == rendered(Write::AddVariable(id@, v@)),
{
    let params = vec![
        text_param(id),
        text_param(v.name.as_str()),
        text_param(var_type_to_str(&v.var_type)),
        flag_param(v.required),
        opt_param(&v.description),
        opt_param(&v.default),
    ];
    let s = statement(ADD_VARIABLE, params);
    assert(s@.params =~= rendered(Write::AddVariable(id@, v@)).params);
    s
}

/// The statement `sql` with the one value `id`.
fn by_id(sql: &str, id: &str) -> (s: Statement)
    ensures
        s@ == (StatementView { sql: sql@, params: seq![text_value(id@)] }),
{
    let params = vec![text_param(id)];
    let s = statement(sql, params);
    assert(s@.params =~= seq![text_value(id@)]);
    s
}

/// The statements of an upsert of `prompt`: those that carry out
/// `upsert_writes`, one for each write, in their order.
pub fn upsert_statements(prompt: &Prompt) -> (out: Vec<Statement>)
    ensures
        statement_views(out@) == rendered_all(upsert_writes(prompt@)),
{
    let ghost p = prompt@;
    let ghost goal = rendered_all(upsert_writes(p));
    let id = prompt.id.as_str();
    let mut out: Vec<Statement> = Vec::new();
    out.push(put_prompt(prompt));
    out.push(by_id(CLEAR_TAGS, id));
    let ghost head = seq![Write::PutPrompt(p), Write::ClearTags(p.id)];
    assert(statement_views(out@) =~= rendered_all(head));
    let mut i: usize = 0;
    while i < prompt.tags.len()
        invariant
            i <= prompt.tags.len(),
            p == prompt@,
            id@ == p.id,
            head == seq![Write::PutPrompt(p), Write::ClearTags(p.id)],
            statement_views(out@) == rendered_all(head + tag_writes(p.id, p.tags).take(i as int)),
        decreases prompt.tags.len() - i,
    {
        let ghost before = out@;
        out.push(add_tag(id, prompt.tags[i].as_str()));
        proof {
            let done = head + tag_writes(p.id, p.tags).take(i as int);
            let next = head + tag_writes(p.id, p.tags).take(i + 1);
            assert(next =~= done.push(Write::AddTag(p.id, p.tags[i as int])));
            assert(statement_views(out@) =~= statement_views(before).push(out@.last()@));
            assert(rendered_all(next) =~= rendered_all(done).push(
                rendered(Write::AddTag(p.id, p.tags[i as int])),
            ));
        }
        i += 1;
    }
    let ghost tagged = head + tag_writes(p.id, p.tags);
    assert(tag_writes(p.id, p.tags).take(prompt.tags.len() as int) =~= tag_writes(p.id, p.tags));
    let ghost before_clear = out@;
    out.push(by_id(CLEAR_VARIABLES, id));
    let ghost cleared = tagged + seq![Write::ClearVariables(p.id)];
    proof {
        assert(cleared =~= tagged.push(Write::ClearVariables(p.id)));
        assert(statement_views(out@) =~= statement_views(before_clear).push(out@.last()@));
        assert(rendered_all(cleared) =~= rendered_all(tagged).push(
            rendered(Write::ClearVariables(p.id)),
        ));
    }
    let mut k: usize = 0;
    while k < prompt.variables.len()
        invariant
            k <= prompt.variables.len(),
            p == prompt@,
            id@ == p.id,
            statement_views(out@) == rendered_all(
                cleared + variable_writes(p.id, p.variables).take(k as int),
            ),
        decreases prompt.variables.len() - k,
    {
        let ghost before = out@;
        out.push(add_variable(id, &prompt.variables[k]));
        proof {
            let done = cleared + variable_writes(p.id, p.variables).take(k as int);
            let next = cleared + variable_writes(p.id, p.variables).take(k + 1);
            assert(next =~= done.push(Write::AddVariable(p.id, p.variables[k as int])));
            assert(statement_views(out@) =~= statement_views(before).push(out@.last()@));
            assert(rendered_all(next) =~= rendered_all(done).push(
                rendered(Write::AddVariable(p.id, p.variables[k as int])),
            ));
        }
        k += 1;
    }
    let ghost filled = cleared + variable_writes(p.id, p.variables);
    assert(variable_writes(p.id, p.variables).take(prompt.variables.len() as int)
        =~= variable_writes(p.id, p.variables));
    let ghost before_index = out@;
    out.push(by_id(CLEAR_INDEX, id));
    let ghost mid = out@;
    out.push(add_index(prompt));
    proof {
        let all = upsert_writes(p);
        assert(all =~= filled.push(Write::ClearIndex(p.id)).push(Write::AddIndex(p)));
        assert(statement_views(mid) =~= statement_views(before_index).push(mid.last()@));
        assert(statement_views(out@) =~= statement_views(mid).push(out@.last()@));
        assert(rendered_all(all) =~= rendered_all(filled).push(
            rendered(Write::ClearIndex(p.id)),
        ).push(rendered(Write::AddIndex(p))));
    }
    out
}

/// The writes of the upserts of `prompts`, one prompt after the other.
pub open spec fn bulk_writes(prompts: Seq<PromptView>) -> Seq<Write>
    decreases prompts.len(),
{
    if prompts.len() == 0 {
        Seq::empty()
    } else {
        bulk_writes(prompts.drop_last()) + upsert_writes(prompts.last())
    }
}

/// The statements of the upserts of `prompts`: for each prompt, in their
/// order, the statements of its upsert.
pub fn bulk_statements(prompts: &Vec<Prompt>) -> (out: Vec<Statement>)
    ensures
        statement_views(out@) == rendered_all(bulk_writes(prompt_views(prompts@))),
{
    let ghost views = prompt_views(prompts@);
    let mut out: Vec<Statement> = Vec::new();
    let mut i: usize = 0;
    assert(views.take(0) =~= Seq::empty());
    assert(statement_views(out@) =~= rendered_all(bulk_writes(views.take(0))));
    while i < prompts.len()
        invariant
            i <= prompts.len(),
            views == prompt_views(prompts@),
            statement_views(out@) == rendered_all(bulk_writes(views.take(i as int))),
        decreases prompts.len() - i,
    {
        let ghost before = out@;
        let ghost next = views.take(i + 1);
        assert(next.drop_last() =~= views.take(i as int));
        assert(next.last() == prompts@[i as int]@);
        let mut part = upsert_statements(&prompts[i]);
        let ghost added = part@;
        out.append(&mut part);
        proof {
            assert(out@ =~= before + added);
            assert(statement_views(out@) =~= statement_views(before) + statement_views(added));
            assert(rendered_all(bulk_writes(next)) =~= rendered_all(
                bulk_writes(views.take(i as int)),
            ) + rendered_all(upsert_writes(prompts@[i as int]@)));
        }
        i += 1;
    }
    assert(views.take(prompts.len() as int) =~= views);
    out
}

/// What a listing is narrowed to. Every part that is given must hold of a
/// prompt for it to be listed.
#[derive(Debug)]
pub struct Filter {
    /// Only prompts of this category.
    pub category: Option<String>,
    /// Only prompts that carry this tag.
    pub tag: Option<String>,
    /// Only featured prompts.
    pub featured_only: bool,
}

/// What a filter holds, as plain values.
pub struct FilterView {
    pub category: Option<Seq<char>>,
    pub tag: Option<Seq<char>>,
    pub featured_only: bool,
}

impl View for Filter {
    type V = FilterView;

    open spec fn view(&self) -> FilterView {
        FilterView {
            category: opt_text(self.category),
            tag: opt_text(self.tag),
            featured_only: self.featured_only,
        }
    }
}

/// One condition of a listing.
pub enum Condition {
    CategoryIs(Seq<char>),
    HasTag(Seq<char>),
    IsFeatured,
}

/// The conditions that a filter stands for: one for each part that is given,
/// category first, then tag, then featured.
pub open spec fn conditions(filter: FilterView) -> Seq<Condition> {
    (match filter.category {
        Some(c) => seq![Condition::CategoryIs(c)],
        None => Seq::empty(),
    }) + (match filter.tag {
        Some(t) => seq![Condition::HasTag(t)],
        None => Seq::empty(),
    }) + (if filter.featured_only {
        seq![Condition::IsFeatured]
    } else {
        Seq::empty()
    })
}

/// The text of a condition in a query.
pub open spec fn condition_text(c: Condition) -> Seq<char> {
    match c {
        Condition::CategoryIs(_) => CATEGORY_IS@,
        Condition::HasTag(_) => HAS_TAG@,
        Condition::IsFeatured => IS_FEATURED@,
    }
}

/// The values that a condition brings for its placeholders.
pub open spec fn condition_values(c: Condition) -> Seq<ParamView> {
    match c {
        Condition::CategoryIs(x) => seq![text_value(x)],
        Condition::HasTag(x) => seq![text_value(x)],
        Condition::IsFeatured => Seq::empty(),
    }
}

/// The texts of `conds`, in their order.
pub open spec fn condition_texts(conds: Seq<Condition>) -> Seq<Seq<char>> {
    conds.map_values(|c: Condition| condition_text(c))
}

/// The values of `conds`, in their order.
pub open spec fn all_condition_values(conds: Seq<Condition>) -> Seq<ParamView>
    decreases conds.len(),
{
    if conds.len() == 0 {
        Seq::empty()
    } else {
        all_condition_values(conds.drop_last()) + condition_values(conds.last())
    }
}

/// The query of a listing under `conds`: every prompt where there is no
/// condition, else those of which all conditions hold; by title, ascending.
pub open spec fn listing(conds: Seq<Condition>) -> StatementView {
    StatementView {
        sql: if conds.len() == 0 {
            LIST_HEAD@ + LIST_TAIL@
        } else {
            LIST_HEAD@ + " WHERE "@ + joined(condition_texts(conds), " AND "@) + LIST_TAIL@
        },
        params: all_condition_values(conds),
    }
}

/// The query that lists the prompts that pass `filter`.
pub fn list_statement(filter: &Filter) -> (s: Statement)
    ensures
        s@ == listing(conditions(filter@)),
{
    let ghost conds = conditions(filter@);
    let mut parts: Vec<String> = Vec::new();
    let mut params: Vec<Param> = Vec::new();
    let ghost mut done: Seq<Condition> = Seq::empty();
    assert(texts(parts@) =~= condition_texts(done));
    assert(param_views(params@) =~= all_condition_values(done));
    match &filter.category {
        Some(c) => {
            let ghost before = (parts@, params@, done);
            parts.push(CATEGORY_IS.to_string());
            params.push(text_param(c.as_str()));
            proof {
                done = done.push(Condition::CategoryIs(c@));
                assert(done.drop_last() =~= before.2);
                assert(texts(parts@) =~= condition_texts(done));
                assert(param_views(params@) =~= all_condition_values(done));
            }
        },
        None => {},
    }
    match &filter.tag {
        Some(t) => {
            let ghost before = (parts@, params@, done);
            parts.push(HAS_TAG.to_string());
            params.push(text_param(t.as_str()));
            proof {
                done = done.push(Condition::HasTag(t@));
                assert(done.drop_last() =~= before.2);
                assert(texts(parts@) =~= texts(before.0).push(HAS_TAG@));
                assert(texts(parts@) =~= condition_texts(done));
                assert(param_views(params@) =~= param_views(before.1).push(text_value(t@)));
                assert(param_views(params@) =~= all_condition_values(done));
            }
        },
        None => {},
    }
    if filter.featured_only {
        let ghost before = (parts@, params@, done);
        parts.push(IS_FEATURED.to_string());
        proof {
            done = done.push(Condition::IsFeatured);
            assert(done.drop_last() =~= before.2);
            assert(texts(parts@) =~= texts(before.0).push(IS_FEATURED@));
            assert(texts(parts@) =~= condition_texts(done));
            assert(param_views(params@) =~= all_condition_values(done));
        }
    }
    assert(done =~= conds);
    let mut sql = LIST_HEAD.to_string();
    if parts.len() > 0 {
        sql.append(" WHERE ");
        let all = join(&parts, " AND ");
        sql.append(all.as_str());
    }
    sql.append(LIST_TAIL);
    Statement { sql, params }
}

/// The query that reads the row of the prompt `id`.
pub fn get_statement(id: &str) -> (s: Statement)
    ensures
        s@ == (StatementView { sql: GET_PROMPT@, params: seq![text_value(id@)] }),
{
    by_id(GET_PROMPT, id)
}

/// The query that reads the tags of the prompt `id`.
pub fn tags_statement(id: &str) -> (s: Statement)
    ensures
        s@ == (StatementView { sql: GET_TAGS@, params: seq![text_value(id@)] }),
{
    by_id(GET_TAGS, id)
}

/// The query that reads the variables of the prompt `id`.
pub fn variables_statement(id: &str) -> (s: Statement)
    ensures
        s@ == (StatementView { sql: GET_VARIABLES@, params: seq![text_value(id@)] }),
{
    by_id(GET_VARIABLES, id)
}

/// The query `sql`, which has no placeholder.
pub fn plain_statement(sql: &str) -> (s: Statement)
    ensures
        s@ == (StatementView { sql: sql@, params: Seq::empty() }),
{
    let s = statement(sql, Vec::new());
    assert(s@.params =~= Seq::empty());
    s
}

/// The ranked search for `query`, of at most `limit` prompts.
pub fn search_statement(query: &str, limit: usize) -> (s: Statement)
    requires
        1 <= limit <= 100,
    ensures
        s@ == (StatementView {
            sql: SEARCH@,
            params: seq![text_value(query@), ParamView::Integer(limit as int)],
        }),
{
    let params = vec![text_param(query), Param::Integer(limit as i64)];
    let s = statement(SEARCH, params);
    assert(s@.params =~= seq![text_value(query@), ParamView::Integer(limit as int)]);
    s
}

/// The query that reads the value kept under `key`.
pub fn get_meta_statement(key: &str) -> (s: Statement)
    ensures
        s@ == (StatementView { sql: GET_META@, params: seq![text_value(key@)] }),
{
    by_id(GET_META, key)
}

/// The statement that keeps `value` under `key`, over what was kept there.
pub fn set_meta_statement(key: &str, value: &str) -> (s: Statement)
    ensures
        s@ == (StatementView {
            sql: SET_META@,
            params: seq![text_value(key@), text_value(value@)],
        }),
{
    let params = vec![text_param(key), text_param(value)];
    let s = statement(SET_META, params);
    assert(s@.params =~= seq![text_value(key@), text_value(value@)]);
    s
}

} // verus!
