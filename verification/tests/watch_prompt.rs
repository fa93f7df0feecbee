use stakpak::text::{trim_str, truncate_chars_with_ellipsis};
use stakpak::watch_prompt::{
    assemble_prompt, build_schedule_caller_context, CheckResult, CheckTriggerOn, Schedule,
};
use std::time::Duration;

fn full_schedule() -> Schedule {
    Schedule {
        name: "disk-cleanup".to_string(),
        cron: "*/15 * * * *".to_string(),
        check: Some("~/.stakpak/schedules/check-disk.sh".to_string()),
        check_timeout: Some(Duration::from_secs(30)),
        trigger_on: None,
        prompt: "Analyze disk usage and safely free up space.".to_string(),
        profile: Some("infrastructure".to_string()),
        board_id: Some("board_abc123".to_string()),
        timeout: Some(Duration::from_secs(1800)),
        enable_slack_tools: None,
        enable_subagents: None,
        pause_on_approval: None,
        sandbox: None,
        notify_on: None,
        notify_channel: None,
        notify_chat_id: None,
        enabled: true,
    }
}

fn check_result_with_stdout(stdout: &str) -> CheckResult {
    CheckResult {
        exit_code: Some(0),
        stdout: stdout.to_string(),
        stderr: String::new(),
        timed_out: false,
    }
}

#[test]
fn assemble_prompt_returns_user_prompt_only() {
    let schedule = full_schedule();

    let prompt = assemble_prompt(&schedule);
    assert_eq!(prompt, schedule.prompt);
}

#[test]
fn test_build_schedule_caller_context() {
    let schedule = full_schedule();
    let check_result = check_result_with_stdout("disk usage 92%");

    let context = build_schedule_caller_context(&schedule, Some(&check_result));
    assert_eq!(context.len(), 1);
    assert_eq!(context[0].name, "watch_schedule_context");
    assert_eq!(context[0].priority.as_deref(), Some("high"));
    assert!(context[0].content.contains("Schedule: disk-cleanup"));
    assert!(context[0].content.contains("Check stdout:"));
    assert!(!context[0].content.contains("Check stderr:"));
    assert!(context[0].content.contains("Board: board_abc123"));
}

#[test]
fn build_schedule_caller_context_omits_empty_streams() {
    let schedule = full_schedule();
    let check_result = CheckResult {
        exit_code: Some(2),
        stdout: "   \n".to_string(),
        stderr: "error line".to_string(),
        timed_out: false,
    };

    let context = build_schedule_caller_context(&schedule, Some(&check_result));
    assert_eq!(context.len(), 1);
    assert!(!context[0].content.contains("Check stdout:"));
    assert!(context[0].content.contains("Check stderr:"));
}

#[test]
fn truncate_context_respects_unicode() {
    let value = "é".repeat(10);
    let truncated = truncate_chars_with_ellipsis(&value, 5);
    assert_eq!(truncated, "ééééé...");
}

#[test]
fn truncate_context_exact_boundary() {
    let value = "a".repeat(20_000);
    let truncated = truncate_chars_with_ellipsis(&value, 20_000);
    assert_eq!(truncated.len(), 20_000);
    assert!(!truncated.ends_with("..."));
}

#[test]
fn build_schedule_caller_context_minimal_schedule_without_check() {
    let schedule = Schedule {
        name: "simple-task".to_string(),
        cron: "0 * * * *".to_string(),
        check: None,
        check_timeout: None,
        trigger_on: None,
        prompt: "Do something simple.".to_string(),
        profile: None,
        board_id: None,
        timeout: None,
        enable_slack_tools: None,
        enable_subagents: None,
        pause_on_approval: None,
        sandbox: None,
        notify_on: None,
        notify_channel: None,
        notify_chat_id: None,
        enabled: true,
    };

    let context = build_schedule_caller_context(&schedule, None);
    assert_eq!(context.len(), 1);
    assert!(context[0].content.contains("Schedule: simple-task"));
    assert!(!context[0].content.contains("Check script:"));
}

#[test]
fn schedule_context_full_content_is_exact() {
    let schedule = full_schedule();
    let check_result = CheckResult {
        exit_code: Some(3),
        stdout: "  disk usage 92%\n".to_string(),
        stderr: "\twarning: low space ".to_string(),
        timed_out: false,
    };
    let context = build_schedule_caller_context(&schedule, Some(&check_result));
    assert_eq!(
        context[0].content,
        "Schedule: disk-cleanup\n\n\
         Check script: ~/.stakpak/schedules/check-disk.sh\n\n\
         Check exit code: 3\n\n\
         Check stdout:\ndisk usage 92%\n\n\
         Check stderr:\nwarning: low space\n\n\
         Board: board_abc123"
    );
}

#[test]
fn schedule_context_reports_missing_exit_code_as_minus_one() {
    let schedule = full_schedule();
    let check_result = CheckResult {
        exit_code: None,
        stdout: String::new(),
        stderr: String::new(),
        timed_out: true,
    };
    let context = build_schedule_caller_context(&schedule, Some(&check_result));
    assert!(context[0].content.contains("Check exit code: -1"));
    assert!(!context[0].content.contains("Check stdout:"));
}

#[test]
fn schedule_context_renders_negative_and_large_exit_codes() {
    let schedule = full_schedule();
    for (code, text) in [(-137, "Check exit code: -137"), (i32::MIN, "Check exit code: -2147483648"), (120, "Check exit code: 120")] {
        let check_result = CheckResult {
            exit_code: Some(code),
            stdout: String::new(),
            stderr: String::new(),
            timed_out: false,
        };
        let context = build_schedule_caller_context(&schedule, Some(&check_result));
        assert!(context[0].content.contains(text));
    }
}

#[test]
fn schedule_context_ignores_check_result_without_check_script() {
    let mut schedule = full_schedule();
    schedule.check = None;
    schedule.trigger_on = Some(CheckTriggerOn::Any);
    let check_result = check_result_with_stdout("disk usage 92%");
    let context = build_schedule_caller_context(&schedule, Some(&check_result));
    assert_eq!(context[0].content, "Schedule: disk-cleanup\n\nBoard: board_abc123");
}

#[test]
fn schedule_context_truncates_long_check_output() {
    let schedule = full_schedule();
    let check_result = check_result_with_stdout(&"x".repeat(20_005));
    let context = build_schedule_caller_context(&schedule, Some(&check_result));
    let expected = format!("Check stdout:\n{}...", "x".repeat(20_000));
    assert!(context[0].content.contains(&expected));
    assert!(!context[0].content.contains(&"x".repeat(20_001)));
}

#[test]
fn truncate_keeps_short_and_cuts_long() {
    assert_eq!(truncate_chars_with_ellipsis("abc", 3), "abc");
    assert_eq!(truncate_chars_with_ellipsis("abcd", 3), "abc...");
    assert_eq!(truncate_chars_with_ellipsis("", 0), "");
    assert_eq!(truncate_chars_with_ellipsis("a", 0), "...");
}

#[test]
fn trim_removes_unicode_whitespace_at_both_ends() {
    assert_eq!(trim_str("\u{3000}\t hi there \u{a0}\n"), "hi there");
    assert_eq!(trim_str("   "), "");
    assert_eq!(trim_str("x"), "x");
    assert_eq!(trim_str(" \u{2028}a b\u{85}"), "a b");
}

#[test]
fn schedule_context_starts_with_schedule_name() {
    let schedule = full_schedule();
    for check in [None, Some(check_result_with_stdout("ok"))] {
        let context = build_schedule_caller_context(&schedule, check.as_ref());
        assert!(context[0].content.starts_with("Schedule: disk-cleanup"));
    }
}
