//! Filling the placeholders of a prompt.

use crate::text::{
    contains, lemma_replaced_without, look_up, looked_up, occurs_in, pair_views, replace_all,
    replaced,
};
use crate::types::prompt::{variable_views, Prompt, VariableView};
use vstd::prelude::*;
use vstd::string::StringExecFns;

verus! {

/// A variable with the value that was put in its place.
#[derive(Debug)]
pub struct FilledVariable {
    pub name: String,
    pub value: String,
}

/// The views of a list of filled variables.
pub open spec fn filled_views(filled: Seq<FilledVariable>) -> Seq<(Seq<char>, Seq<char>)> {
    filled.map_values(|f: FilledVariable| (f.name@, f.value@))
}

/// A content with the variables that were filled in it.
#[derive(Debug)]
pub struct Filled {
    pub content: String,
    pub variables: Vec<FilledVariable>,
}

/// The placeholder of the variable `name`: the name between double braces.
pub open spec fn placeholder_text(name: Seq<char>) -> Seq<char> {
    "{{"@ + name + "}}"@
}

/// The placeholder of the variable `name`.
pub fn placeholder(name: &str) -> (out: String)
    ensures
        out@ == placeholder_text(name@),
{
    let mut out = "{{".to_string();
    out.append(name);
    out.append("}}");
    out
}

/// `content` with `value` in every place of the variable `name`.
pub open spec fn substituted(content: Seq<char>, name: Seq<char>, value: Seq<char>) -> Seq<char> {
    replaced(content, placeholder_text(name), value)
}

/// `content` with `value` in every place of the variable `name`.
pub fn substitute(content: &str, name: &str, value: &str) -> (out: String)
    ensures
        out@ == substituted(content@, name@, value@),
{
    let mark = placeholder(name);
    replace_all(content, mark.as_str(), value)
}

/// The value that a variable gets where nobody is asked: that of the
/// context, else its default, else the empty text.
pub open spec fn chosen_value(v: VariableView, context: Seq<(Seq<char>, Seq<char>)>) -> Seq<char> {
    match looked_up(context, v.name) {
        Some(x) => x,
        None => match v.default {
            Some(d) => d,
            None => Seq::empty(),
        },
    }
}

/// `content` with each of `variables` filled by its chosen value, one after
/// the other.
pub open spec fn filled_content(
    content: Seq<char>,
    variables: Seq<VariableView>,
    context: Seq<(Seq<char>, Seq<char>)>,
) -> Seq<char>
    decreases variables.len(),
{
    if variables.len() == 0 {
        content
    } else {
        substituted(
            filled_content(content, variables.drop_last(), context),
            variables.last().name,
            chosen_value(variables.last(), context),
        )
    }
}

/// Those of `variables` whose chosen value is not empty, each with that
/// value, in their order.
pub open spec fn filled_list(
    variables: Seq<VariableView>,
    context: Seq<(Seq<char>, Seq<char>)>,
) -> Seq<(Seq<char>, Seq<char>)>
    decreases variables.len(),
{
    if variables.len() == 0 {
        Seq::empty()
    } else {
        let value = chosen_value(variables.last(), context);
        if value.len() == 0 {
            filled_list(variables.drop_last(), context)
        } else {
            filled_list(variables.drop_last(), context).push((variables.last().name, value))
        }
    }
}

/// Fills the variables of `prompt` without asking: each gets the value that
/// `context` holds for it, else its default, else nothing. The variables
/// that got more than nothing are listed.
pub fn fill_variables(prompt: &Prompt, context: &Vec<(String, String)>) -> (out: Filled)
    ensures
        out.content@ == filled_content(
            prompt@.content,
            prompt@.variables,
            pair_views(context@),
        ),
        filled_views(out.variables@) == filled_list(prompt@.variables, pair_views(context@)),
{
    let ghost vars = variable_views(prompt.variables@);
    let ghost ctx = pair_views(context@);
    let mut content = prompt.content.clone();
    let mut filled: Vec<FilledVariable> = Vec::new();
    let mut i: usize = 0;
    assert(vars.take(0) =~= Seq::empty());
    assert(filled_views(filled@) =~= Seq::empty());
    while i < prompt.variables.len()
        invariant
            i <= prompt.variables.len(),
            vars == variable_views(prompt.variables@),
            ctx == pair_views(context@),
            content@ == filled_content(prompt@.content, vars.take(i as int), ctx),
            filled_views(filled@) == filled_list(vars.take(i as int), ctx),
        decreases prompt.variables.len() - i,
    {
        let var = &prompt.variables[i];
        let ghost next = vars.take(i + 1);
        assert(next.drop_last() =~= vars.take(i as int));
        assert(next.last() == var@);
        let value = match look_up(context, var.name.as_str()) {
            Some(x) => x.clone(),
            None => match &var.default {
                Some(d) => d.clone(),
                None => String::new(),
            },
        };
        assert(value@ == chosen_value(var@, ctx));
        content = substitute(content.as_str(), var.name.as_str(), value.as_str());
        if value.as_str().unicode_len() > 0 {
            let ghost before = filled@;
            filled.push(FilledVariable { name: var.name.clone(), value });
            assert(filled_views(filled@) =~= filled_views(before).push((var@.name, value@)));
        }
        i += 1;
    }
    assert(vars.take(prompt.variables.len() as int) =~= vars);
    Filled { content, variables: filled }
}

/// `content` with each name of `context` replaced by its value, one after
/// the other.
pub open spec fn context_applied(content: Seq<char>, context: Seq<(Seq<char>, Seq<char>)>) -> Seq<
    char,
>
    decreases context.len(),
{
    if context.len() == 0 {
        content
    } else {
        substituted(
            context_applied(content, context.drop_last()),
            context.last().0,
            context.last().1,
        )
    }
}

/// The entries of `context` that found their placeholder in the content as
/// it stood when their turn came, in their order.
pub open spec fn context_used(content: Seq<char>, context: Seq<(Seq<char>, Seq<char>)>) -> Seq<
    (Seq<char>, Seq<char>),
>
    decreases context.len(),
{
    if context.len() == 0 {
        Seq::empty()
    } else {
        let front = context_used(content, context.drop_last());
        if occurs_in(
            context_applied(content, context.drop_last()),
            placeholder_text(context.last().0),
        ) {
            front.push(context.last())
        } else {
            front
        }
    }
}

/// Puts the values of `context` in the places of their names in `content`,
/// one entry after the other, and lists the entries that found a place.
pub fn apply_context(content: &str, context: &Vec<(String, String)>) -> (out: Filled)
    ensures
        out.content@ == context_applied(content@, pair_views(context@)),
        filled_views(out.variables@) == context_used(content@, pair_views(context@)),
{
    let ghost ctx = pair_views(context@);
    let mut text = content.to_string();
    let mut filled: Vec<FilledVariable> = Vec::new();
    let mut i: usize = 0;
    assert(ctx.take(0) =~= Seq::empty());
    assert(filled_views(filled@) =~= Seq::empty());
    while i < context.len()
        invariant
            i <= context.len(),
            ctx == pair_views(context@),
            text@ == context_applied(content@, ctx.take(i as int)),
            filled_views(filled@) == context_used(content@, ctx.take(i as int)),
        decreases context.len() - i,
    {
        let ghost next = ctx.take(i + 1);
        assert(next.drop_last() =~= ctx.take(i as int));
        assert(next.last() == (context@[i as int].0@, context@[i as int].1@));
        let name = &context[i].0;
        let value = &context[i].1;
        let mark = placeholder(name.as_str());
        if contains(text.as_str(), mark.as_str()) {
            let ghost before = filled@;
            text = replace_all(text.as_str(), mark.as_str(), value.as_str());
            filled.push(FilledVariable { name: name.clone(), value: value.clone() });
            assert(filled_views(filled@) =~= filled_views(before).push((name@, value@)));
        } else {
            proof {
                lemma_replaced_without(text@, mark@, value@);
            }
        }
        i += 1;
    }
    assert(ctx.take(context.len() as int) =~= ctx);
    Filled { content: text, variables: filled }
}

/// The value of a variable after the user was asked: the answer, or where
/// the answer is empty the value to fall back on, or nothing.
pub fn answered(answer: &str, fallback: Option<&str>) -> (value: String)
    ensures
        value@ == if answer@.len() > 0 {
            answer@
        } else {
            match fallback {
                Some(f) => f@,
                None => Seq::empty(),
            }
        },
{
    if answer.unicode_len() > 0 {
        answer.to_string()
    } else {
        match fallback {
            Some(f) => f.to_string(),
            None => String::new(),
        }
    }
}

} // verus!
