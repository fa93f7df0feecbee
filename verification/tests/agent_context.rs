use stakpak::agent_context::{format_rulebooks, AgentContext, AgentsMdInfo, AppsMdInfo};
use stakpak::rulebook::{ListRuleBook, RuleBookVisibility};
use stakpak::text::lines_of;

fn make_agents_md() -> AgentsMdInfo {
    AgentsMdInfo {
        content: "## Setup\n- Run tests".to_string(),
        path: "/project/AGENTS.md".to_string(),
    }
}

fn make_apps_md() -> AppsMdInfo {
    AppsMdInfo {
        content: "## My App\n- Port 8080".to_string(),
        path: "/project/APPS.md".to_string(),
    }
}

fn make_rulebooks() -> Vec<ListRuleBook> {
    vec![ListRuleBook {
        id: "rb_test_001".to_string(),
        uri: "stakpak://test/rulebook.md".to_string(),
        description: "Test rulebook".to_string(),
        visibility: RuleBookVisibility::Public,
        tags: vec!["test".to_string()],
        created_at: None,
        updated_at: None,
    }]
}

fn make_context(
    local_context_formatted: Option<&str>,
    rulebooks: Option<Vec<ListRuleBook>>,
    agents_md: Option<AgentsMdInfo>,
    apps_md: Option<AppsMdInfo>,
) -> AgentContext {
    AgentContext {
        local_context_formatted: local_context_formatted.map(String::from),
        rulebooks,
        agents_md,
        apps_md,
    }
}

#[test]
fn enrich_prompt_first_message_full_context() {
    let ctx = make_context(
        Some("# System Details\n\nMachine: test"),
        Some(make_rulebooks()),
        Some(make_agents_md()),
        Some(make_apps_md()),
    );

    let result = ctx.enrich_prompt("Hello agent", true, false);

    assert!(result.starts_with("Hello agent"));
    assert!(result.contains("<local_context>"));
    assert!(result.contains("Machine: test"));
    assert!(result.contains("<rulebooks>"));
    assert!(result.contains("Test rulebook"));
    assert!(result.contains("<agents_md>"));
    assert!(result.contains("<apps_md>"));
}

#[test]
fn enrich_prompt_not_first_message_returns_unchanged() {
    let ctx = make_context(
        Some("# System Details"),
        Some(make_rulebooks()),
        Some(make_agents_md()),
        Some(make_apps_md()),
    );

    let result = ctx.enrich_prompt("Follow-up question", false, false);
    assert_eq!(result, "Follow-up question");
}

#[test]
fn enrich_prompt_force_context_injects_local_and_rulebooks_only() {
    let ctx = make_context(
        Some("# System Details\n\nMachine: test"),
        Some(make_rulebooks()),
        Some(make_agents_md()),
        Some(make_apps_md()),
    );

    let result = ctx.enrich_prompt("Updated question", false, true);

    assert!(result.contains("<local_context>"));
    assert!(result.contains("<rulebooks>"));
    assert!(!result.contains("<agents_md>"));
    assert!(!result.contains("<apps_md>"));
}

#[test]
fn enrich_prompt_empty_context_returns_input_unchanged() {
    let ctx = make_context(None, None, None, None);
    let result = ctx.enrich_prompt("Hello", true, false);
    assert_eq!(result, "Hello");
}

#[test]
fn enrich_prompt_skips_empty_rulebooks_block() {
    let ctx = make_context(None, Some(vec![]), None, None);
    let result = ctx.enrich_prompt("Hello", true, false);
    assert_eq!(result, "Hello");
}

#[test]
fn update_rulebooks_replaces_rulebooks() {
    let mut ctx = make_context(None, None, None, None);
    assert!(ctx.rulebooks.is_none());

    ctx.update_rulebooks(Some(make_rulebooks()));
    assert!(ctx.rulebooks.is_some());
}

#[test]
fn enrich_prompt_first_message_exact_text() {
    let ctx = make_context(
        Some("Machine: test"),
        Some(make_rulebooks()),
        Some(make_agents_md()),
        Some(make_apps_md()),
    );
    let result = ctx.enrich_prompt("Hi", true, false);
    let expected = "Hi\n<local_context>\nMachine: test\n</local_context>\
        \n<rulebooks>\n# My Rule Books:\n\n  - URI: stakpak://test/rulebook.md\
        \n    Description: Test rulebook\n    Tags: test\n</rulebooks>\
        \n<agents_md>\n# AGENTS.md\n\nPath: /project/AGENTS.md\n\n## Setup\n- Run tests\n</agents_md>\
        \n<apps_md>\n# APPS.md\n\nPath: /project/APPS.md\n\n## My App\n- Port 8080\n</apps_md>";
    assert_eq!(result, expected);
}

#[test]
fn from_parts_keeps_parts_and_update_keeps_other_fields() {
    let mut ctx = AgentContext::from_parts(Some("local".to_string()), None, Some(make_agents_md()), None);
    assert_eq!(ctx.local_context_formatted.as_deref(), Some("local"));
    ctx.update_rulebooks(Some(make_rulebooks()));
    assert_eq!(ctx.local_context_formatted.as_deref(), Some("local"));
    assert!(ctx.agents_md.is_some());
    assert_eq!(ctx.rulebooks.as_ref().map(|r| r.len()), Some(1));
}

#[test]
fn format_rulebooks_lists_each_rulebook() {
    let mut rbs = make_rulebooks();
    rbs.push(ListRuleBook {
        id: "rb2".to_string(),
        uri: "stakpak://b".to_string(),
        description: "Second".to_string(),
        visibility: RuleBookVisibility::Private,
        tags: vec!["a".to_string(), "b".to_string()],
        created_at: None,
        updated_at: None,
    });
    assert_eq!(
        format_rulebooks(&rbs),
        "# My Rule Books:\n\n  - URI: stakpak://test/rulebook.md\n    Description: Test rulebook\n    Tags: test\
         \n  - URI: stakpak://b\n    Description: Second\n    Tags: a, b"
    );
    assert_eq!(format_rulebooks(&[]), "# My Rule Books:\n\n");
}

#[test]
fn lines_split_like_str_lines() {
    for text in ["", "\n", "a", "a\n", "a\r\nb", "a\n\nb\n", "x\ry", "end\r", "\r\n\r\n"] {
        let expected: Vec<String> = text.lines().map(String::from).collect();
        assert_eq!(lines_of(text), expected, "text {:?}", text);
    }
}
