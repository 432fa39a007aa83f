use simple_agent::JsonValue;
use simple_agent::Permission;
use simple_agent::PermissionAction;
use simple_agent::PermissionContext;
use simple_agent::PermissionManager;
use simple_agent::PermissionResult;

#[test]
fn test_tool_matches() {
    let manager = PermissionManager::new();

    // Exact match
    assert!(manager.tool_matches("bash", "bash"));
    assert!(!manager.tool_matches("bash", "read"));

    // Wildcard match
    assert!(manager.tool_matches("*", "bash"));
    assert!(manager.tool_matches("*", "read"));

    // Glob patterns
    assert!(manager.tool_matches("file_*", "file_read"));
    assert!(!manager.tool_matches("file_*", "bash_read"));

    // Multiple wildcards
    assert!(manager.tool_matches("file_*.write", "file_test.write"));
    assert!(!manager.tool_matches("file_*.write", "other_test.write"));
}

#[test]
fn double_star_crosses_slashes() {
    let manager = PermissionManager::new();
    assert!(manager.tool_matches("fs/**", "fs/read/deep"));
    assert!(!manager.tool_matches("fs/*", "fs/read/deep"));
    assert!(manager.tool_matches("fs/*", "fs/read"));
}

fn ctx(tool: &str, args: JsonValue) -> PermissionContext {
    PermissionContext {
        tool: tool.to_string(),
        args,
        session_id: "session-1".to_string(),
    }
}

#[test]
fn empty_rule_set_denies() {
    let manager = PermissionManager::new();
    let c = ctx("bash", JsonValue::Str("ls".to_string()));
    assert_eq!(manager.check(&c), PermissionResult::Deny);
}

#[test]
fn first_matching_rule_decides() {
    let mut manager = PermissionManager::new();
    manager.add_rule(Permission {
        tool: "bash".to_string(),
        action: PermissionAction::Allow,
        patterns: None,
    });
    manager.add_rule(Permission {
        tool: "*".to_string(),
        action: PermissionAction::Deny,
        patterns: None,
    });
    assert_eq!(
        manager.check(&ctx("bash", JsonValue::Null)),
        PermissionResult::Allow
    );
    assert_eq!(
        manager.check(&ctx("read", JsonValue::Null)),
        PermissionResult::Deny
    );
}

#[test]
fn ask_rule_currently_denies() {
    let mut manager = PermissionManager::new();
    manager.add_rule(Permission {
        tool: "bash".to_string(),
        action: PermissionAction::Ask,
        patterns: None,
    });
    assert_eq!(
        manager.check(&ctx("bash", JsonValue::Null)),
        PermissionResult::Deny
    );
}

#[test]
fn argument_patterns_filter_matches() {
    let mut manager = PermissionManager::new();
    manager.add_rule(Permission {
        tool: "bash".to_string(),
        action: PermissionAction::Allow,
        patterns: Some(vec!["ls".to_string()]),
    });
    // String argument containing the pattern
    assert_eq!(
        manager.check(&ctx("bash", JsonValue::Str("ls -la".to_string()))),
        PermissionResult::Allow
    );
    // String argument not containing it: the rule does not match, default deny
    assert_eq!(
        manager.check(&ctx("bash", JsonValue::Str("rm -rf".to_string()))),
        PermissionResult::Deny
    );
    // Object argument whose top-level string value contains it
    let args = JsonValue::Obj(vec![(
        "command".to_string(),
        JsonValue::Str("ls /tmp".to_string()),
    )]);
    assert_eq!(manager.check(&ctx("bash", args)), PermissionResult::Allow);
}

#[test]
fn empty_pattern_list_accepts_all_arguments() {
    let manager = PermissionManager::new();
    assert!(manager.args_match(&Vec::new(), &JsonValue::Null));
}
