//! Prompt assembly for autopilot schedules.
//!
//! The user-facing prompt stays focused on the requested task; operational
//! metadata (schedule, check, board) goes separately as structured caller
//! context.
use crate::caller_context::CallerContextInput;
use crate::text::{
    contains_text, decimal, i32_to_decimal, join, join_strings, lemma_join_contains,
    lemma_join_ends_with_last, lemma_join_prefix,
    lemma_join_starts_with_first,
    lemma_truncation_bounds, trim, trim_str, truncate_chars_with_ellipsis,
    truncated_with_ellipsis, views,
};
use std::time::Duration;
use vstd::prelude::*;

verus! {

/// When a schedule's check script triggers the agent.
#[derive(Debug, Clone, Copy, PartialEq, Eq)]
pub enum CheckTriggerOn {
    Success,
    Failure,
    Any,
}

/// A cron-driven autopilot schedule.
#[derive(Debug, Clone)]
pub struct Schedule {
    pub name: String,
    pub cron: String,
    pub check: Option<String>,
    pub check_timeout: Option<Duration>,
    pub trigger_on: Option<CheckTriggerOn>,
    pub prompt: String,
    pub profile: Option<String>,
    pub board_id: Option<String>,
    pub timeout: Option<Duration>,
    pub enable_slack_tools: Option<bool>,
    pub enable_subagents: Option<bool>,
    pub pause_on_approval: Option<bool>,
    pub sandbox: Option<bool>,
    pub notify_on: Option<String>,
    pub notify_channel: Option<String>,
    pub notify_chat_id: Option<String>,
    pub enabled: bool,
}

/// The outcome of running a schedule's check script.
#[derive(Debug, Clone)]
pub struct CheckResult {
    pub exit_code: Option<i32>,
    pub stdout: String,
    pub stderr: String,
    pub timed_out: bool,
}

/// The most characters of a check script's output that go into the context.
pub const CHECK_OUTPUT_MAX_CHARS: usize = 20_000;

/// Assemble the user prompt to pass to the agent: the schedule's prompt,
/// with no schedule metadata in it.
pub fn assemble_prompt(schedule: &Schedule) -> (res: String)
    ensures
        res@ == schedule.prompt@,
{
    schedule.prompt.clone()
}

/// The exit code reported for a check: its own, or `-1` when it has none.
pub open spec fn reported_exit_code(result: &CheckResult) -> int {
    match result.exit_code {
        Some(c) => c as int,
        None => -1,
    }
}

/// The context line for one output stream of a check: absent when the
/// trimmed output is empty, else `label` followed by the trimmed output cut
/// to [`CHECK_OUTPUT_MAX_CHARS`] characters.
pub open spec fn stream_line(label: Seq<char>, output: Seq<char>) -> Seq<Seq<char>> {
    let t = trim(output);
    if t.len() == 0 {
        seq![]
    } else {
        seq![label + truncated_with_ellipsis(t, CHECK_OUTPUT_MAX_CHARS as nat)]
    }
}

/// The context lines that describe a check run of the script at `path`.
pub open spec fn check_lines(path: Seq<char>, result: &CheckResult) -> Seq<Seq<char>> {
    seq!["Check script: "@ + path, "Check exit code: "@ + decimal(reported_exit_code(result))]
        + stream_line("Check stdout:\n"@, result.stdout@) + stream_line(
        "Check stderr:\n"@,
        result.stderr@,
    )
}

/// The lines of a schedule run's context: the schedule's name; the check
/// lines when there is both a check result and a check script; the board.
pub open spec fn schedule_context_lines(
    schedule: &Schedule,
    check_result: Option<&CheckResult>,
) -> Seq<Seq<char>> {
    let check = match (check_result, schedule.check) {
        (Some(r), Some(p)) => check_lines(p@, r),
        _ => seq![],
    };
    let board = match schedule.board_id {
        Some(b) => seq!["Board: "@ + b@],
        None => seq![],
    };
    seq!["Schedule: "@ + schedule.name@] + check + board
}

/// The content of a schedule run's context item.
pub open spec fn schedule_context_content(
    schedule: &Schedule,
    check_result: Option<&CheckResult>,
) -> Seq<char> {
    join(schedule_context_lines(schedule, check_result), "\n\n"@)
}

/// Pushes the context line for one output stream, if any.
fn push_stream_line(lines: &mut Vec<String>, label: &str, output: &String)
    ensures
        views(final(lines)@) == views(old(lines)@) + stream_line(label@, output@),
{
    let t = trim_str(output.as_str());
    if t.unicode_len() != 0 {
        let cut = truncate_chars_with_ellipsis(t.as_str(), CHECK_OUTPUT_MAX_CHARS);
        let line = label.to_string().concat(cut.as_str());
        let ghost before = lines@;
        lines.push(line);
        assert(views(lines@) =~= views(before) + stream_line(label@, output@));
    } else {
        assert(views(lines@) =~= views(lines@) + stream_line(label@, output@));
    }
}

/// Build structured caller context for schedule-driven runs: one item named
/// `watch_schedule_context` with priority `high`, whose content is the
/// schedule's context lines separated by blank lines.
pub fn build_schedule_caller_context(
    schedule: &Schedule,
    check_result: Option<&CheckResult>,
) -> (res: Vec<CallerContextInput>)
    ensures
        res.len() == 1,
        res[0].name@ == "watch_schedule_context"@,
        res[0].priority matches Some(p) && p@ == "high"@,
        res[0].content@ == schedule_context_content(schedule, check_result),
{
    let mut lines: Vec<String> = Vec::new();
    lines.push("Schedule: ".to_string().concat(schedule.name.as_str()));
    let ghost head = views(lines@);
    assert(head =~= seq!["Schedule: "@ + schedule.name@]);
    if let Some(result) = check_result {
        if let Some(check_path) = &schedule.check {
            lines.push("Check script: ".to_string().concat(check_path.as_str()));
            let code: i32 = match result.exit_code {
                Some(c) => c,
                None => -1,
            };
            let code_text = i32_to_decimal(code);
            lines.push("Check exit code: ".to_string().concat(code_text.as_str()));
            let ghost fixed = views(lines@);
            assert(fixed =~= head + seq![
                "Check script: "@ + check_path@,
                "Check exit code: "@ + decimal(reported_exit_code(result)),
            ]);
            push_stream_line(&mut lines, "Check stdout:\n", &result.stdout);
            push_stream_line(&mut lines, "Check stderr:\n", &result.stderr);
            assert(views(lines@) =~= head + check_lines(check_path@, result));
        }
    }
    let ghost mid = views(lines@);
    if let Some(board_id) = &schedule.board_id {
        lines.push("Board: ".to_string().concat(board_id.as_str()));
        assert(views(lines@) =~= mid + seq!["Board: "@ + board_id@]);
    }
    assert(views(lines@) =~= schedule_context_lines(schedule, check_result));
    let content = join_strings(&lines, "\n\n");
    let mut res: Vec<CallerContextInput> = Vec::new();
    res.push(
        CallerContextInput {
            name: "watch_schedule_context".to_string(),
            content,
            priority: Some("high".to_string()),
        },
    );
    res
}

/// The context of a schedule run always begins with the schedule's name.
pub proof fn lemma_schedule_context_starts_with_name(
    schedule: &Schedule,
    check_result: Option<&CheckResult>,
)
    ensures
        ("Schedule: "@ + schedule.name@).is_prefix_of(
            schedule_context_content(schedule, check_result),
        ),
{
    let lines = schedule_context_lines(schedule, check_result);
    assert(lines[0] == "Schedule: "@ + schedule.name@);
    lemma_join_starts_with_first(lines, "\n\n"@);
}

/// Without a check result, or without a check script, the context holds
/// only the schedule's name and its board.
pub proof fn lemma_no_check_lines_without_check(
    schedule: &Schedule,
    check_result: Option<&CheckResult>,
)
    requires
        check_result is None || schedule.check is None,
    ensures
        schedule_context_lines(schedule, check_result) == seq!["Schedule: "@ + schedule.name@]
            + match schedule.board_id {
            Some(b) => seq!["Board: "@ + b@],
            None => seq![],
        },
{
    assert(schedule_context_lines(schedule, check_result) =~= seq![
        "Schedule: "@ + schedule.name@,
    ] + match schedule.board_id {
        Some(b) => seq!["Board: "@ + b@],
        None => seq![],
    });
}

/// A check's output line holds at most [`CHECK_OUTPUT_MAX_CHARS`] characters
/// of the output plus the `...` marker, after its label; an output that is
/// only whitespace gives no line.
pub proof fn lemma_check_output_line_bounded(label: Seq<char>, output: Seq<char>)
    ensures
        stream_line(label, output).len() <= 1,
        trim(output).len() == 0 <==> stream_line(label, output).len() == 0,
        stream_line(label, output).len() == 1 ==> stream_line(label, output)[0].len() <= label.len()
            + CHECK_OUTPUT_MAX_CHARS + 3,
{
    lemma_truncation_bounds(trim(output), CHECK_OUTPUT_MAX_CHARS as nat);
}

/// The output of a check stream as it is reported: trimmed, then cut to
/// [`CHECK_OUTPUT_MAX_CHARS`] characters.
pub open spec fn reported_output(output: Seq<char>) -> Seq<char> {
    truncated_with_ellipsis(trim(output), CHECK_OUTPUT_MAX_CHARS as nat)
}

/// A check run is reported in full whenever the schedule has a check
/// script: the context names the script and the exit code (`-1` when
/// there is none), and holds every output stream whose trimmed text is not
/// empty, stdout and stderr alike, whatever the exit code.
pub proof fn lemma_schedule_context_reports_check(schedule: &Schedule, result: &CheckResult)
    requires
        schedule.check is Some,
    ensures
        contains_text(
            schedule_context_content(schedule, Some(result)),
            "Check script: "@ + schedule.check->0@,
        ),
        contains_text(
            schedule_context_content(schedule, Some(result)),
            "Check exit code: "@ + decimal(
                match result.exit_code {
                    Some(c) => c as int,
                    None => -1,
                },
            ),
        ),
        trim(result.stdout@).len() > 0 ==> contains_text(
            schedule_context_content(schedule, Some(result)),
            "Check stdout:\n"@ + reported_output(result.stdout@),
        ),
        trim(result.stderr@).len() > 0 ==> contains_text(
            schedule_context_content(schedule, Some(result)),
            "Check stderr:\n"@ + reported_output(result.stderr@),
        ),
{
    let lines = schedule_context_lines(schedule, Some(result));
    let out = stream_line("Check stdout:\n"@, result.stdout@);
    let err = stream_line("Check stderr:\n"@, result.stderr@);
    assert(lines[1] == "Check script: "@ + schedule.check->0@);
    lemma_join_contains(lines, "\n\n"@, 1);
    assert(lines[2] == "Check exit code: "@ + decimal(reported_exit_code(result)));
    lemma_join_contains(lines, "\n\n"@, 2);
    if trim(result.stdout@).len() > 0 {
        assert(lines[3] == "Check stdout:\n"@ + reported_output(result.stdout@));
        lemma_join_contains(lines, "\n\n"@, 3);
    }
    if trim(result.stderr@).len() > 0 {
        let k: int = 3 + out.len() as int;
        assert(lines[k] == "Check stderr:\n"@ + reported_output(result.stderr@));
        lemma_join_contains(lines, "\n\n"@, k);
    }
}

/// The context names the schedule's board whenever it has one, with or
/// without a check.
pub proof fn lemma_schedule_context_names_board(
    schedule: &Schedule,
    check_result: Option<&CheckResult>,
)
    requires
        schedule.board_id is Some,
    ensures
        contains_text(
            schedule_context_content(schedule, check_result),
            "Board: "@ + schedule.board_id->0@,
        ),
{
    let lines = schedule_context_lines(schedule, check_result);
    let k: int = lines.len() - 1;
    assert(lines[k] == "Board: "@ + schedule.board_id->0@);
    lemma_join_contains(lines, "\n\n"@, k);
}

/// The context opens with the schedule's name and, when there is both a
/// check script and a check result, goes on with the script and the exit
/// code, each after a blank line; with a board it ends with the board after
/// a blank line.
pub proof fn lemma_schedule_context_order(
    schedule: &Schedule,
    check_result: Option<&CheckResult>,
)
    ensures
        schedule.check is Some && check_result is Some ==> ("Schedule: "@ + schedule.name@
            + "\n\n"@ + ("Check script: "@ + schedule.check->0@) + "\n\n"@ + ("Check exit code: "@
            + decimal(
            match check_result->0.exit_code {
                Some(c) => c as int,
                None => -1,
            },
        ))).is_prefix_of(schedule_context_content(schedule, check_result)),
        schedule.board_id is Some ==> ({
            let c = schedule_context_content(schedule, check_result);
            let tail = "\n\n"@ + ("Board: "@ + schedule.board_id->0@);
            c.skip(c.len() - tail.len()) == tail
        }),
{
    let lines = schedule_context_lines(schedule, check_result);
    let sep = "\n\n"@;
    if schedule.check is Some && check_result is Some {
        lemma_join_prefix(lines, sep, 3);
        let t = lines.take(3);
        assert(t.drop_last().drop_last() =~= seq![lines[0]]);
        assert(t.drop_last() =~= seq![lines[0], lines[1]]);
        assert(join(t, sep) == join(t.drop_last(), sep) + sep + lines[2]);
        assert(join(t.drop_last(), sep) == join(t.drop_last().drop_last(), sep) + sep + lines[1]);
    }
    if schedule.board_id is Some {
        lemma_join_ends_with_last(lines, sep);
    }
}

} // verus!
