use stakpak::rulebook::{ListRuleBook, RuleBookVisibility};
use stakpak::server_context::{map_remote_skills_to_context_files, ContextPriority};

#[test]
fn maps_remote_skills_payload_to_context_file() {
    let files = map_remote_skills_to_context_files(&[ListRuleBook {
        id: "id_1".to_string(),
        uri: "stakpak://skills/k8s".to_string(),
        description: "Kubernetes ops".to_string(),
        visibility: RuleBookVisibility::Public,
        tags: vec!["kubernetes".to_string(), "ops".to_string()],
        created_at: None,
        updated_at: None,
    }]);

    assert_eq!(files.len(), 1);
    assert!(files[0].name.starts_with("remote_skill:"));
    assert!(files[0].content.contains("<remote_skill>"));
    assert!(files[0].content.contains("Kubernetes ops"));
}

#[test]
fn remote_skill_file_fields_are_exact() {
    let entries = vec![
        ListRuleBook {
            id: "a".to_string(),
            uri: "skills/one".to_string(),
            description: "One".to_string(),
            visibility: RuleBookVisibility::Public,
            tags: vec![],
            created_at: None,
            updated_at: None,
        },
        ListRuleBook {
            id: "b".to_string(),
            uri: "skills/two".to_string(),
            description: "Two".to_string(),
            visibility: RuleBookVisibility::Private,
            tags: vec!["x".to_string(), "y".to_string(), "z".to_string()],
            created_at: None,
            updated_at: None,
        },
    ];
    let files = map_remote_skills_to_context_files(&entries);
    assert_eq!(files.len(), 2);
    assert_eq!(files[0].name, "remote_skill:skills/one");
    assert_eq!(files[0].path, "stakpak://skills/one");
    assert_eq!(files[0].content, "<remote_skill>\nURI: skills/one\nDescription: One\nTags: \n</remote_skill>");
    assert_eq!(files[1].content, "<remote_skill>\nURI: skills/two\nDescription: Two\nTags: x, y, z\n</remote_skill>");
    assert_eq!(files[1].priority, ContextPriority::High);
    assert!(map_remote_skills_to_context_files(&[]).is_empty());
}
