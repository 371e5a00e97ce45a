//! The prompts that ship with the library, for use when neither a cache nor
//! the remote registry can be had.

use crate::types::prompt::{well_formed, Prompt, PromptView};
use vstd::prelude::*;

verus! {

/// The ids of the bundled prompts, in the order in which they are listed.
pub open spec fn bundled_ids() -> Seq<Seq<char>> {
    seq![
        "code-review"@,
        "explain-code"@,
        "write-tests"@,
        "refactor"@,
        "debug"@,
        "documentation"@,
        "optimize"@,
        "api-design"@,
    ]
}

/// What every bundled prompt has: the three required fields filled, a
/// description, a category and two tags, no variables, version 1.0.0, and the
/// registry as its author; none is a local prompt.
pub open spec fn is_bundled_shape(p: PromptView) -> bool {
    &&& p.id.len() > 0
    &&& p.title.len() > 0
    &&& p.content.len() > 0
    &&& p.description is Some
    &&& p.category is Some
    &&& p.tags.len() == 2
    &&& p.variables.len() == 0
    &&& p.version == Some("1.0.0"@)
    &&& p.author == Some("JeffreysPrompts"@)
    &&& p.saved_at is None
    &&& !p.is_local
}

/// Whether `prompts` has what the bundled set has: eight prompts under the
/// ids of `bundled_ids`, no id twice, each in the bundled shape and fit for
/// the store, and the first of them featured.
pub open spec fn is_bundled_set(prompts: Seq<Prompt>) -> bool {
    &&& prompts.len() == 8
    &&& forall|i: int| 0 <= i < 8 ==> (#[trigger] prompts[i])@.id == bundled_ids()[i]
    &&& forall|i: int| 0 <= i < 8 ==> is_bundled_shape((#[trigger] prompts[i])@)
    &&& forall|i: int| 0 <= i < 8 ==> well_formed((#[trigger] prompts[i])@)
    &&& forall|i: int, j: int|
        0 <= i < j < 8 ==> (#[trigger] prompts[i])@.id != (#[trigger] prompts[j])@.id
    &&& prompts[0]@.featured
}

/// One bundled prompt, from its texts.
fn bundled(
    id: &str,
    title: &str,
    content: &str,
    description: &str,
    category: &str,
    first_tag: &str,
    second_tag: &str,
    featured: bool,
) -> (p: Prompt)
    ensures
        p@ == (PromptView {
            id: id@,
            title: title@,
            content: content@,
            description: Some(description@),
            category: Some(category@),
            tags: seq![first_tag@, second_tag@],
            variables: Seq::empty(),
            featured,
            version: Some("1.0.0"@),
            author: Some("JeffreysPrompts"@),
            saved_at: None,
            is_local: false,
        }),
{
    let p = Prompt {
        id: id.to_string(),
        title: title.to_string(),
        content: content.to_string(),
        description: Some(description.to_string()),
        category: Some(category.to_string()),
        tags: vec![first_tag.to_string(), second_tag.to_string()],
        variables: Vec::new(),
        featured,
        version: Some("1.0.0".to_string()),
        author: Some("JeffreysPrompts".to_string()),
        saved_at: None,
        is_local: false,
    };
    assert(p@.tags =~= seq![first_tag@, second_tag@]);
    assert(p@.variables =~= Seq::empty());
    p
}

/// The bundled prompts: eight of them, under the ids of `bundled_ids`, no id
/// twice, each in the bundled shape, and the first of them featured.
pub fn bundled_prompts() -> (prompts: Vec<Prompt>)
    ensures
        is_bundled_set(prompts@),
{
    proof {
        reveal_strlit("review");
        reveal_strlit("quality");
        reveal_strlit("explain");
        reveal_strlit("learning");
        reveal_strlit("tests");
        reveal_strlit("quality");
        reveal_strlit("refactor");
        reveal_strlit("clean-code");
        reveal_strlit("debug");
        reveal_strlit("troubleshoot");
        reveal_strlit("docs");
        reveal_strlit("readme");
        reveal_strlit("performance");
        reveal_strlit("optimization");
        reveal_strlit("api");
        reveal_strlit("design");
        reveal_strlit("code-review");
        reveal_strlit("Code Review Assistant");
        reveal_strlit(r#"Review this code for:
1. Bugs and potential issues
2. Performance problems
3. Security vulnerabilities
4. Code style and readability
5. Best practices

Code to review:
{{CODE}}

Provide specific, actionable feedback."#);
        reveal_strlit("explain-code");
        reveal_strlit("Code Explainer");
        reveal_strlit(r#"Explain this code in detail:

{{CODE}}

Include:
- What the code does overall
- Key functions/methods and their purposes
- Important data structures
- Any notable patterns or techniques used"#);
        reveal_strlit("write-tests");
        reveal_strlit("Test Generator");
        reveal_strlit(r#"Write comprehensive tests for this code:

{{CODE}}

Requirements:
- Cover edge cases
- Include both positive and negative test cases
- Use appropriate testing patterns
- Add meaningful test descriptions"#);
        reveal_strlit("refactor");
        reveal_strlit("Refactoring Assistant");
        reveal_strlit(r#"Refactor this code to improve:
- Readability
- Maintainability
- Performance (where applicable)
- Adherence to {{LANGUAGE}} best practices

Code to refactor:
{{CODE}}

Explain each change you make."#);
        reveal_strlit("debug");
        reveal_strlit("Debug Helper");
        reveal_strlit(r#"Help me debug this issue:

Error message:
{{ERROR}}

Relevant code:
{{CODE}}

What I've tried:
{{ATTEMPTS}}

Please:
1. Analyze the error
2. Identify likely causes
3. Suggest specific fixes
4. Explain why the fix works"#);
        reveal_strlit("documentation");
        reveal_strlit("Documentation Writer");
        reveal_strlit(r#"Write documentation for this code:

{{CODE}}

Include:
- Overview/purpose
- Usage examples
- Parameter descriptions
- Return value documentation
- Any important notes or caveats"#);
        reveal_strlit("optimize");
        reveal_strlit("Performance Optimizer");
        reveal_strlit(r#"Analyze and optimize this code for performance:

{{CODE}}

Focus on:
- Time complexity improvements
- Memory usage optimization
- I/O efficiency
- Caching opportunities
- Parallelization potential

Explain the performance impact of each change."#);
        reveal_strlit("api-design");
        reveal_strlit("API Design Review");
        reveal_strlit(r#"Review this API design:

{{API_SPEC}}

Evaluate:
- RESTful principles adherence
- Naming conventions
- Error handling approach
- Versioning strategy
- Security considerations
- Documentation completeness

Suggest improvements for each area."#);
    }
    let prompts = vec![
        bundled(
            "code-review",
            "Code Review Assistant",
            r#"Review this code for:
1. Bugs and potential issues
2. Performance problems
3. Security vulnerabilities
4. Code style and readability
5. Best practices

Code to review:
{{CODE}}

Provide specific, actionable feedback."#,
            "Comprehensive code review with actionable feedback",
            "debugging",
            "review",
            "quality",
            true,
        ),
        bundled(
            "explain-code",
            "Code Explainer",
            r#"Explain this code in detail:

{{CODE}}

Include:
- What the code does overall
- Key functions/methods and their purposes
- Important data structures
- Any notable patterns or techniques used"#,
            "Get clear explanations of complex code",
            "documentation",
            "explain",
            "learning",
            true,
        ),
        bundled(
            "write-tests",
            "Test Generator",
            r#"Write comprehensive tests for this code:

{{CODE}}

Requirements:
- Cover edge cases
- Include both positive and negative test cases
- Use appropriate testing patterns
- Add meaningful test descriptions"#,
            "Generate comprehensive test suites",
            "testing",
            "tests",
            "quality",
            true,
        ),
        bundled(
            "refactor",
            "Refactoring Assistant",
            r#"Refactor this code to improve:
- Readability
- Maintainability
- Performance (where applicable)
- Adherence to {{LANGUAGE}} best practices

Code to refactor:
{{CODE}}

Explain each change you make."#,
            "Get suggestions for cleaner, better code",
            "refactoring",
            "refactor",
            "clean-code",
            false,
        ),
        bundled(
            "debug",
            "Debug Helper",
            r#"Help me debug this issue:

Error message:
{{ERROR}}

Relevant code:
{{CODE}}

What I've tried:
{{ATTEMPTS}}

Please:
1. Analyze the error
2. Identify likely causes
3. Suggest specific fixes
4. Explain why the fix works"#,
            "Systematic debugging assistance",
            "debugging",
            "debug",
            "troubleshoot",
            true,
        ),
        bundled(
            "documentation",
            "Documentation Writer",
            r#"Write documentation for this code:

{{CODE}}

Include:
- Overview/purpose
- Usage examples
- Parameter descriptions
- Return value documentation
- Any important notes or caveats"#,
            "Generate clear, comprehensive documentation",
            "documentation",
            "docs",
            "readme",
            false,
        ),
        bundled(
            "optimize",
            "Performance Optimizer",
            r#"Analyze and optimize this code for performance:

{{CODE}}

Focus on:
- Time complexity improvements
- Memory usage optimization
- I/O efficiency
- Caching opportunities
- Parallelization potential

Explain the performance impact of each change."#,
            "Get performance optimization suggestions",
            "refactoring",
            "performance",
            "optimization",
            false,
        ),
        bundled(
            "api-design",
            "API Design Review",
            r#"Review this API design:

{{API_SPEC}}

Evaluate:
- RESTful principles adherence
- Naming conventions
- Error handling approach
- Versioning strategy
- Security considerations
- Documentation completeness

Suggest improvements for each area."#,
            "Get expert API design feedback",
            "ideation",
            "api",
            "design",
            false,
        ),
    ];
    proof {
        assert(prompts@[0]@.id.len() == 11 && prompts@[0]@.id[0] == 'c');
        assert(prompts@[1]@.id.len() == 12);
        assert(prompts@[2]@.id.len() == 11 && prompts@[2]@.id[0] == 'w');
        assert(prompts@[3]@.id.len() == 8 && prompts@[3]@.id[0] == 'r');
        assert(prompts@[4]@.id.len() == 5);
        assert(prompts@[5]@.id.len() == 13);
        assert(prompts@[6]@.id.len() == 8 && prompts@[6]@.id[0] == 'o');
        assert(prompts@[7]@.id.len() == 10);
        assert(prompts@[0]@.tags[0].len() == 6 && prompts@[0]@.tags[1].len() == 7);
        assert(prompts@[1]@.tags[0].len() == 7 && prompts@[1]@.tags[1].len() == 8);
        assert(prompts@[2]@.tags[0].len() == 5 && prompts@[2]@.tags[1].len() == 7);
        assert(prompts@[3]@.tags[0].len() == 8 && prompts@[3]@.tags[1].len() == 10);
        assert(prompts@[4]@.tags[0].len() == 5 && prompts@[4]@.tags[1].len() == 12);
        assert(prompts@[5]@.tags[0].len() == 4 && prompts@[5]@.tags[1].len() == 6);
        assert(prompts@[6]@.tags[0].len() == 11 && prompts@[6]@.tags[1].len() == 12);
        assert(prompts@[7]@.tags[0].len() == 3 && prompts@[7]@.tags[1].len() == 6);
    }
    prompts
}

} // verus!
