//! The ask-user popup: a bottom popup in which the agent asks the user
//! structured questions with predefined options and optional custom input.
//!
//! This module decides what the popup shows: its height, its tab bar, the
//! content of a question tab or of the review tab, and the help line, as
//! styled lines. Drawing them on a terminal is left to the caller.
use crate::styled_text::{
    blank, blank_line, fg, fg_bold, fg_on, line_of, lines_view, plain, push_line, push_span,
    span, span_owned, spans_view, style_fg, style_fg_bold, style_fg_on, style_plain, sv,
    PopupColor, PopupLine, SpanView, StyledSpan,
};
use crate::text::{cut_chars, cut_str, decimal, usize_to_decimal, views};
use vstd::prelude::*;

verus! {

/// One predefined answer to a question.
#[derive(Debug, Clone)]
pub struct AskUserOption {
    pub value: String,
    pub label: String,
    pub description: Option<String>,
}

/// A question the agent asks the user.
#[derive(Debug, Clone)]
pub struct AskUserQuestion {
    pub label: String,
    pub question: String,
    pub options: Vec<AskUserOption>,
    pub allow_custom: bool,
    pub required: bool,
}

/// The user's answer to a question.
#[derive(Debug, Clone)]
pub struct AskUserAnswer {
    pub question: String,
    pub answer: String,
    pub is_custom: bool,
}

/// The popup's state: whether it is shown, the questions, the current tab
/// (one per question, then the review tab), the selected option, the answers
/// given so far keyed by question label (one entry per label, see
/// [`answer_labels_unique`]; the first entry for a label is the one read),
/// and the custom input being typed.
#[derive(Debug, Clone)]
pub struct AskUserPopupState {
    pub show_ask_user_popup: bool,
    pub ask_user_questions: Vec<AskUserQuestion>,
    pub ask_user_current_tab: usize,
    pub ask_user_selected_option: usize,
    pub ask_user_answers: Vec<(String, AskUserAnswer)>,
    pub ask_user_custom_input: String,
}

/// Left padding inside the content area.
pub const CONTENT_PAD: &'static str = "  ";

/// The width of [`CONTENT_PAD`].
pub const CONTENT_PAD_LEN: usize = 2;

/// Indent of option descriptions, under the label text after `"[n] "`.
pub const DESC_INDENT: &'static str = "       ";

// ---------------------------------------------------------------------------
// Answers
// ---------------------------------------------------------------------------

/// The answer recorded for the question labelled `label`: the first entry
/// with that key.
pub open spec fn answer_for(answers: Seq<(String, AskUserAnswer)>, label: Seq<char>) -> Option<
    AskUserAnswer,
>
    decreases answers.len(),
{
    if answers.len() == 0 {
        None
    } else if answers[0].0@ == label {
        Some(answers[0].1)
    } else {
        answer_for(answers.drop_first(), label)
    }
}

/// Whether no two answers are recorded under the same question label, as in
/// a map keyed by label.
pub open spec fn answer_labels_unique(answers: Seq<(String, AskUserAnswer)>) -> bool {
    forall|i: int, j: int|
        0 <= i < answers.len() && 0 <= j < answers.len() && i != j ==> #[trigger] answers[i].0@
            != #[trigger] answers[j].0@
}

/// With one answer per label, the answer found for a recorded label is the
/// one recorded under it, wherever it stands: the lookup is that of a map.
pub proof fn lemma_answer_for_recorded(answers: Seq<(String, AskUserAnswer)>, i: int)
    requires
        answer_labels_unique(answers),
        0 <= i < answers.len(),
    ensures
        answer_for(answers, answers[i].0@) == Some(answers[i].1),
    decreases i,
{
    if i > 0 {
        let rest = answers.drop_first();
        assert(answers[0].0@ != answers[i].0@);
        assert(rest[i - 1] == answers[i]);
        assert(answer_labels_unique(rest)) by {
            assert forall|a: int, b: int|
                0 <= a < rest.len() && 0 <= b < rest.len() && a != b implies #[trigger] rest[a].0@
                != #[trigger] rest[b].0@ by {
                assert(rest[a] == answers[a + 1]);
                assert(rest[b] == answers[b + 1]);
            }
        }
        lemma_answer_for_recorded(rest, i - 1);
    }
}

/// No answer is found for a label under which nothing is recorded.
pub proof fn lemma_answer_for_unrecorded(answers: Seq<(String, AskUserAnswer)>, label: Seq<char>)
    requires
        forall|i: int| 0 <= i < answers.len() ==> (#[trigger] answers[i]).0@ != label,
    ensures
        answer_for(answers, label) is None,
    decreases answers.len(),
{
    if answers.len() > 0 {
        let rest = answers.drop_first();
        assert(answers[0].0@ != label);
        assert forall|i: int| 0 <= i < rest.len() implies (#[trigger] rest[i]).0@ != label by {
            assert(rest[i] == answers[i + 1]);
        }
        lemma_answer_for_unrecorded(rest, label);
    }
}

/// Finds the entry of the answer for the question labelled `label`.
pub fn find_answer(answers: &Vec<(String, AskUserAnswer)>, label: &String) -> (res: Option<usize>)
    ensures
        match res {
            Some(i) => i < answers.len() && answer_for(answers@, label@) == Some(answers@[i as int].1),
            None => answer_for(answers@, label@) is None,
        },
{
    let mut i: usize = 0;
    assert(answers@.skip(0) =~= answers@);
    while i < answers.len()
        invariant
            i <= answers.len(),
            answer_for(answers@, label@) == answer_for(answers@.skip(i as int), label@),
        decreases answers.len() - i,
    {
        assert(answers@.skip(i as int)[0] == answers@[i as int]);
        if answers[i].0 == *label {
            return Some(i);
        }
        assert(answers@.skip(i as int).drop_first() =~= answers@.skip(i + 1));
        i = i + 1;
    }
    None
}

/// Whether every required question has an answer.
pub open spec fn all_required_answered(state: AskUserPopupState) -> bool {
    forall|i: int|
        0 <= i < state.ask_user_questions.len() && #[trigger] state.ask_user_questions[i].required
            ==> answer_for(state.ask_user_answers@, state.ask_user_questions[i].label@) is Some
}

/// Check if all required questions have been answered.
pub fn check_all_required_answered(state: &AskUserPopupState) -> (res: bool)
    ensures
        res == all_required_answered(*state),
{
    let qs = &state.ask_user_questions;
    let mut i: usize = 0;
    while i < qs.len()
        invariant
            qs == state.ask_user_questions,
            i <= qs.len(),
            forall|k: int|
                0 <= k < i && #[trigger] qs[k].required ==> answer_for(
                    state.ask_user_answers@,
                    qs[k].label@,
                ) is Some,
        decreases qs.len() - i,
    {
        if qs[i].required {
            if find_answer(&state.ask_user_answers, &qs[i].label).is_none() {
                return false;
            }
        }
        i = i + 1;
    }
    true
}

/// The number of options of a question, the custom input included.
pub open spec fn total_options(q: AskUserQuestion) -> int {
    q.options.len() + if q.allow_custom {
        1int
    } else {
        0int
    }
}

/// Whether a question's options can be numbered in a `usize`, the custom
/// input included.
pub open spec fn options_countable(q: AskUserQuestion) -> bool {
    total_options(q) <= usize::MAX
}

/// Get the total number of options for a question, including custom input
/// if allowed.
pub fn get_total_options(question: &AskUserQuestion) -> (res: usize)
    requires
        options_countable(*question),
    ensures
        res == total_options(*question),
{
    if question.allow_custom {
        question.options.len() + 1
    } else {
        question.options.len()
    }
}

// ---------------------------------------------------------------------------
// Word wrapping
// ---------------------------------------------------------------------------

/// The lines that `textwrap::wrap` breaks `text` into at `width` columns.
pub uninterp spec fn wrapped_lines(text: Seq<char>, width: usize) -> Seq<Seq<char>>;

/// Wraps `text` at `width` columns with `textwrap::wrap` and its default
/// options; the lines are the name [`wrapped_lines`] of the text and width.
#[verifier::external_body]
fn wrap_text(text: &str, width: usize) -> (res: Vec<String>)
    ensures
        views(res@) == wrapped_lines(text@, width),
{
    textwrap::wrap(text, width).into_iter().map(|line| line.into_owned()).collect()
}

// ---------------------------------------------------------------------------
// Height
// ---------------------------------------------------------------------------

/// Whether the current tab is the review tab.
pub open spec fn on_review_tab(state: AskUserPopupState) -> bool {
    state.ask_user_current_tab >= state.ask_user_questions.len()
}

/// Whether the review tab is the current one.
pub fn is_review_tab(state: &AskUserPopupState) -> (res: bool)
    ensures
        res == on_review_tab(*state),
{
    state.ask_user_current_tab >= state.ask_user_questions.len()
}

/// Whether the popup is drawn at all.
pub open spec fn popup_visible(state: AskUserPopupState) -> bool {
    state.show_ask_user_popup && state.ask_user_questions.len() > 0
}

/// Whether the popup is drawn at all: it is shown and has questions.
pub fn is_popup_visible(state: &AskUserPopupState) -> (res: bool)
    ensures
        res == popup_visible(*state),
{
    state.show_ask_user_popup && state.ask_user_questions.len() > 0
}

/// The number of lines the options of a question take: one per option, and
/// one more per option with a description.
pub open spec fn option_line_count(options: Seq<AskUserOption>) -> int
    decreases options.len(),
{
    if options.len() == 0 {
        0
    } else {
        option_line_count(options.drop_last()) + 1 + if options.last().description is Some {
            1int
        } else {
            0int
        }
    }
}

/// The width available for a question's text in a terminal `width` columns
/// wide: less the borders, the inner margin and the content padding.
pub open spec fn question_text_width(width: u16) -> usize {
    if width >= 6 {
        (width - 6) as usize
    } else {
        0
    }
}

/// The unclamped height of the review tab for `n` questions: tab bar,
/// border, padding, three lines per question, warning or padding, help line
/// and border.
pub open spec fn review_height(n: int) -> int {
    6 + 3 * n
}

/// The unclamped height of a question tab: tab bar, border, padding, the
/// wrapped question text, padding, the options, the custom input line,
/// padding, help line and border.
pub open spec fn question_height(q: AskUserQuestion, wrapped: int) -> int {
    7 + wrapped + option_line_count(q.options@) + if q.allow_custom {
        1int
    } else {
        0int
    }
}

/// Three fifths of `width`, rounded down: the most lines the popup takes.
pub open spec fn max_popup_height(width: u16) -> int {
    (width as int) * 3 / 5
}

/// A height cut to 16 bits, capped at three fifths of `width`, and at least
/// ten lines.
pub open spec fn clamp_height(total: int, width: u16) -> int {
    let t = total % 65536;
    let capped = if t < max_popup_height(width) {
        t
    } else {
        max_popup_height(width)
    };
    if capped < 10 {
        10
    } else {
        capped
    }
}

/// The popup's height in a terminal `width` columns wide.
pub open spec fn ask_user_height(state: AskUserPopupState, width: u16) -> int {
    if !popup_visible(state) {
        0
    } else if on_review_tab(state) {
        clamp_height(review_height(state.ask_user_questions.len() as int), width)
    } else {
        let q = state.ask_user_questions[state.ask_user_current_tab as int];
        clamp_height(
            question_height(q, wrapped_lines(q.question@, question_text_width(width)).len() as int),
            width,
        )
    }
}

/// Counts the lines a question's options take.
fn count_option_lines(options: &Vec<AskUserOption>) -> (res: u128)
    ensures
        res == option_line_count(options@),
        res <= 2 * options.len(),
{
    let mut total: u128 = 0;
    let mut i: usize = 0;
    while i < options.len()
        invariant
            i <= options.len(),
            total == option_line_count(options@.take(i as int)),
            total <= 2 * i,
        decreases options.len() - i,
    {
        assert(options@.take(i + 1).drop_last() =~= options@.take(i as int));
        total = total + 1;
        if options[i].description.is_some() {
            total = total + 1;
        }
        i = i + 1;
    }
    assert(options@.take(options.len() as int) =~= options@);
    total
}

/// Caps a height at three fifths of `width` and raises it to at least ten.
fn clamp_popup_height(total: u128, width: u16) -> (res: u16)
    ensures
        res == clamp_height(total as int, width),
{
    let t: u16 = (total % 65536) as u16;
    let max_height: u16 = ((width as u32) * 3 / 5) as u16;
    let capped = if t < max_height {
        t
    } else {
        max_height
    };
    if capped < 10 {
        10
    } else {
        capped
    }
}

/// Calculate the height needed for the ask user popup; 0 when it is not
/// drawn.
pub fn calculate_ask_user_height(state: &AskUserPopupState, terminal_width: u16) -> (res: u16)
    ensures
        res == ask_user_height(*state, terminal_width),
{
    if !state.show_ask_user_popup || state.ask_user_questions.len() == 0 {
        return 0;
    }
    if state.ask_user_current_tab >= state.ask_user_questions.len() {
        let n = state.ask_user_questions.len() as u128;
        return clamp_popup_height(6 + 3 * n, terminal_width);
    }
    let current_q = &state.ask_user_questions[state.ask_user_current_tab];
    let text_width: usize = if terminal_width >= 6 {
        (terminal_width - 6) as usize
    } else {
        0
    };
    let wrapped = wrap_text(current_q.question.as_str(), text_width);
    let question_lines = wrapped.len() as u128;
    assert(question_lines == wrapped_lines(current_q.question@, text_width).len());
    let option_lines = count_option_lines(&current_q.options);
    let custom_lines: u128 = if current_q.allow_custom {
        1
    } else {
        0
    };
    clamp_popup_height(7 + question_lines + option_lines + custom_lines, terminal_width)
}

// ---------------------------------------------------------------------------
// Help line
// ---------------------------------------------------------------------------

/// A key hint: the key in dark gray, then what it does in `color`.
pub open spec fn hint(key: Seq<char>, action: Seq<char>, color: PopupColor) -> Seq<SpanView> {
    seq![sv(key, fg(PopupColor::DarkGray)), sv(action, fg(color))]
}

/// The separator between two key hints.
pub open spec fn hint_sep() -> Seq<SpanView> {
    seq![sv(" · "@, plain())]
}

/// The help line at the bottom of the popup.
pub open spec fn help_line(state: AskUserPopupState) -> Seq<SpanView> {
    let pad = seq![sv(CONTENT_PAD@, plain())];
    let cancel = hint("Esc"@, " cancel"@, PopupColor::Cyan);
    let questions = hint("←/→"@, " questions"@, PopupColor::Cyan);
    let options = hint("↑/↓"@, " options"@, PopupColor::Cyan);
    if on_review_tab(state) && all_required_answered(state) {
        pad + hint("Enter"@, " submit"@, PopupColor::Green) + hint_sep() + questions + hint_sep()
            + cancel
    } else if on_review_tab(state) {
        pad + questions + hint_sep() + cancel
    } else {
        let q = state.ask_user_questions[state.ask_user_current_tab as int];
        if q.allow_custom && state.ask_user_selected_option == q.options.len() {
            pad + hint("Type"@, " your answer"@, PopupColor::Cyan) + hint_sep() + hint(
                "Enter"@,
                " confirm"@,
                PopupColor::Cyan,
            ) + hint_sep() + options + hint_sep() + cancel
        } else {
            pad + hint("Enter"@, " select"@, PopupColor::Cyan) + hint_sep() + options + hint_sep()
                + questions + hint_sep() + hint("1-9"@, " quick select"@, PopupColor::Cyan)
                + hint_sep() + cancel
        }
    }
}

/// Appends a key hint.
fn push_hint(spans: &mut Vec<StyledSpan>, key: &str, action: &str, color: PopupColor)
    ensures
        spans_view(final(spans)@) == spans_view(old(spans)@) + hint(key@, action@, color),
{
    push_span(spans, span(key, style_fg(PopupColor::DarkGray)));
    push_span(spans, span(action, style_fg(color)));
    assert(spans_view(spans@) =~= spans_view(old(spans)@) + hint(key@, action@, color));
}

/// Appends the separator between key hints.
fn push_sep(spans: &mut Vec<StyledSpan>)
    ensures
        spans_view(final(spans)@) == spans_view(old(spans)@) + hint_sep(),
{
    push_span(spans, span(" · ", style_plain()));
    assert(spans_view(spans@) =~= spans_view(old(spans)@) + hint_sep());
}

/// Builds the help line at the bottom of the popup.
pub fn build_help_line(state: &AskUserPopupState) -> (res: PopupLine)
    ensures
        res@ == help_line(*state),
{
    let is_submit_tab = is_review_tab(state);
    let all_required_answered = check_all_required_answered(state);
    let mut spans: Vec<StyledSpan> = Vec::new();
    push_span(&mut spans, span(CONTENT_PAD, style_plain()));
    let ghost pad = spans_view(spans@);
    assert(pad =~= seq![sv(CONTENT_PAD@, plain())]);
    if is_submit_tab && all_required_answered {
        push_hint(&mut spans, "Enter", " submit", PopupColor::Green);
        push_sep(&mut spans);
        push_hint(&mut spans, "←/→", " questions", PopupColor::Cyan);
        push_sep(&mut spans);
        push_hint(&mut spans, "Esc", " cancel", PopupColor::Cyan);
    } else if is_submit_tab {
        push_hint(&mut spans, "←/→", " questions", PopupColor::Cyan);
        push_sep(&mut spans);
        push_hint(&mut spans, "Esc", " cancel", PopupColor::Cyan);
    } else {
        let current_q = &state.ask_user_questions[state.ask_user_current_tab];
        let is_custom_selected = current_q.allow_custom && state.ask_user_selected_option
            == current_q.options.len();
        if is_custom_selected {
            push_hint(&mut spans, "Type", " your answer", PopupColor::Cyan);
            push_sep(&mut spans);
            push_hint(&mut spans, "Enter", " confirm", PopupColor::Cyan);
            push_sep(&mut spans);
            push_hint(&mut spans, "↑/↓", " options", PopupColor::Cyan);
            push_sep(&mut spans);
            push_hint(&mut spans, "Esc", " cancel", PopupColor::Cyan);
        } else {
            push_hint(&mut spans, "Enter", " select", PopupColor::Cyan);
            push_sep(&mut spans);
            push_hint(&mut spans, "↑/↓", " options", PopupColor::Cyan);
            push_sep(&mut spans);
            push_hint(&mut spans, "←/→", " questions", PopupColor::Cyan);
            push_sep(&mut spans);
            push_hint(&mut spans, "1-9", " quick select", PopupColor::Cyan);
            push_sep(&mut spans);
            push_hint(&mut spans, "Esc", " cancel", PopupColor::Cyan);
        }
    }
    line_of(spans)
}

// ---------------------------------------------------------------------------
// Tab bar
// ---------------------------------------------------------------------------

/// Whether question `i` has an answer.
pub open spec fn question_answered(state: AskUserPopupState, i: int) -> bool {
    answer_for(state.ask_user_answers@, state.ask_user_questions[i].label@) is Some
}

/// A question's label as its tab shows it: cut to twelve characters and
/// `...` when longer than fifteen.
pub open spec fn tab_label(label: Seq<char>) -> Seq<char> {
    cut_chars(label, 15, 12, "..."@)
}

/// The style of question `i`'s tab: highlighted when current, cyan when
/// answered, dark gray otherwise.
pub open spec fn tab_style(state: AskUserPopupState, i: int) -> crate::styled_text::SpanStyle {
    if i == state.ask_user_current_tab {
        fg_on(PopupColor::Black, PopupColor::Cyan)
    } else if question_answered(state, i) {
        fg(PopupColor::Cyan)
    } else {
        fg(PopupColor::DarkGray)
    }
}

/// Question `i`'s tab: a check mark or an empty box, its label, then a gap.
pub open spec fn question_tab(state: AskUserPopupState, i: int) -> Seq<SpanView> {
    let checkbox = if question_answered(state, i) {
        "✓ "@
    } else {
        "□ "@
    };
    seq![
        sv(checkbox + tab_label(state.ask_user_questions[i].label@), tab_style(state, i)),
        sv("   "@, plain()),
    ]
}

/// The tabs of the first `k` questions.
pub open spec fn question_tabs(state: AskUserPopupState, k: int) -> Seq<SpanView>
    decreases k,
{
    if k <= 0 {
        seq![]
    } else {
        question_tabs(state, k - 1) + question_tab(state, k - 1)
    }
}

/// The style of the review tab: highlighted when current, green when every
/// required question is answered, dark gray otherwise.
pub open spec fn review_tab_style(state: AskUserPopupState) -> crate::styled_text::SpanStyle {
    if on_review_tab(state) {
        fg_on(PopupColor::Black, PopupColor::Cyan)
    } else if all_required_answered(state) {
        fg(PopupColor::Green)
    } else {
        fg(PopupColor::DarkGray)
    }
}

/// The tab bar: a left arrow, one tab per question, the review tab, a right
/// arrow.
pub open spec fn tab_bar(state: AskUserPopupState) -> Seq<SpanView> {
    seq![sv(" ← "@, fg(PopupColor::DarkGray))] + question_tabs(
        state,
        state.ask_user_questions.len() as int,
    ) + seq![sv("Review"@, review_tab_style(state)), sv(" →"@, fg(PopupColor::DarkGray))]
}

/// Builds the tab bar showing all questions and the review tab.
pub fn build_tab_bar(state: &AskUserPopupState) -> (res: PopupLine)
    ensures
        res@ == tab_bar(*state),
{
    let mut spans: Vec<StyledSpan> = Vec::new();
    push_span(&mut spans, span(" ← ", style_fg(PopupColor::DarkGray)));
    let qs = &state.ask_user_questions;
    let mut i: usize = 0;
    while i < qs.len()
        invariant
            qs == state.ask_user_questions,
            i <= qs.len(),
            spans_view(spans@) == seq![sv(" ← "@, fg(PopupColor::DarkGray))] + question_tabs(
                *state,
                i as int,
            ),
        decreases qs.len() - i,
    {
        let q = &qs[i];
        let is_current = i == state.ask_user_current_tab;
        let is_answered = find_answer(&state.ask_user_answers, &q.label).is_some();
        let checkbox = if is_answered {
            "✓ "
        } else {
            "□ "
        };
        let style = if is_current {
            style_fg_on(PopupColor::Black, PopupColor::Cyan)
        } else if is_answered {
            style_fg(PopupColor::Cyan)
        } else {
            style_fg(PopupColor::DarkGray)
        };
        let label = cut_str(q.label.as_str(), 15, 12, "...");
        let text = checkbox.to_string().concat(label.as_str());
        let ghost before = spans_view(spans@);
        push_span(&mut spans, span_owned(text, style));
        push_span(&mut spans, span("   ", style_plain()));
        assert(spans_view(spans@) =~= before + question_tab(*state, i as int));
        i = i + 1;
    }
    let is_submit_tab = is_review_tab(state);
    let all_required_answered = check_all_required_answered(state);
    let submit_style = if is_submit_tab {
        style_fg_on(PopupColor::Black, PopupColor::Cyan)
    } else if all_required_answered {
        style_fg(PopupColor::Green)
    } else {
        style_fg(PopupColor::DarkGray)
    };
    let ghost before = spans_view(spans@);
    push_span(&mut spans, span("Review", submit_style));
    push_span(&mut spans, span(" →", style_fg(PopupColor::DarkGray)));
    assert(spans_view(spans@) =~= before + seq![
        sv("Review"@, review_tab_style(*state)),
        sv(" →"@, fg(PopupColor::DarkGray)),
    ]);
    line_of(spans)
}

// ---------------------------------------------------------------------------
// Review tab
// ---------------------------------------------------------------------------

/// The label of the first option whose value is `value`.
pub open spec fn option_label_for(options: Seq<AskUserOption>, value: Seq<char>) -> Option<
    Seq<char>,
>
    decreases options.len(),
{
    if options.len() == 0 {
        None
    } else if options[0].value@ == value {
        Some(options[0].label@)
    } else {
        option_label_for(options.drop_first(), value)
    }
}

/// Finds the first option whose value is `value`.
fn find_option(options: &Vec<AskUserOption>, value: &String) -> (res: Option<usize>)
    ensures
        match res {
            Some(i) => i < options.len() && option_label_for(options@, value@) == Some(
                options@[i as int].label@,
            ),
            None => option_label_for(options@, value@) is None,
        },
{
    let mut i: usize = 0;
    assert(options@.skip(0) =~= options@);
    while i < options.len()
        invariant
            i <= options.len(),
            option_label_for(options@, value@) == option_label_for(options@.skip(i as int), value@),
        decreases options.len() - i,
    {
        assert(options@.skip(i as int)[0] == options@[i as int]);
        if options[i].value == *value {
            return Some(i);
        }
        assert(options@.skip(i as int).drop_first() =~= options@.skip(i + 1));
        i = i + 1;
    }
    None
}

/// How an answer is shown: a custom answer as typed, otherwise the label of
/// the option it selected, or its value when no option has that value.
pub open spec fn answer_display(q: AskUserQuestion, a: AskUserAnswer) -> Seq<char> {
    if a.is_custom {
        a.answer@
    } else {
        match option_label_for(q.options@, a.answer@) {
            Some(l) => l,
            None => a.answer@,
        }
    }
}

/// The most characters of an answer that the review tab shows in a content
/// area `width` columns wide.
pub open spec fn max_answer_chars(width: u16) -> int {
    if width >= 4 {
        width - 4
    } else {
        0
    }
}

/// An answer cut to `max` characters, the last of them `…`, when longer.
pub open spec fn cut_answer(display: Seq<char>, max: int) -> Seq<char> {
    cut_chars(
        display,
        max as nat,
        if max >= 1 {
            (max - 1) as nat
        } else {
            0
        },
        "…"@,
    )
}

/// The line under a question's label on the review tab: its answer, or a
/// "not answered" marker when required, or "skipped".
pub open spec fn answer_summary(state: AskUserPopupState, q: AskUserQuestion, width: u16) -> Seq<
    SpanView,
> {
    match answer_for(state.ask_user_answers@, q.label@) {
        Some(a) => seq![
            sv(CONTENT_PAD@, plain()),
            sv(CONTENT_PAD@, plain()),
            sv(cut_answer(answer_display(q, a), max_answer_chars(width)), fg(PopupColor::Cyan)),
        ],
        None => if q.required {
            seq![
                sv(CONTENT_PAD@, plain()),
                sv("  □ "@, fg(PopupColor::Yellow)),
                sv("not answered"@, fg(PopupColor::Yellow)),
            ]
        } else {
            seq![
                sv(CONTENT_PAD@, plain()),
                sv("  — "@, fg(PopupColor::DarkGray)),
                sv("skipped"@, fg(PopupColor::DarkGray)),
            ]
        },
    }
}

/// A question on the review tab: its label (with `*` when required), its
/// answer line, and a blank line.
pub open spec fn question_summary(state: AskUserPopupState, q: AskUserQuestion, width: u16) -> Seq<
    Seq<SpanView>,
> {
    let marker = if q.required {
        " *"@
    } else {
        ""@
    };
    seq![
        seq![
            sv(CONTENT_PAD@, plain()),
            sv(q.label@, fg_bold(PopupColor::White)),
            sv(marker, fg(PopupColor::Red)),
        ],
        answer_summary(state, q, width),
        blank(),
    ]
}

/// The summaries of the first `k` questions.
pub open spec fn question_summaries(state: AskUserPopupState, width: u16, k: int) -> Seq<
    Seq<SpanView>,
>
    decreases k,
{
    if k <= 0 {
        seq![]
    } else {
        question_summaries(state, width, k - 1) + question_summary(
            state,
            state.ask_user_questions[k - 1],
            width,
        )
    }
}

/// The review tab's content in an area `width` columns wide: a blank line,
/// every question with its answer, and a warning while a required question
/// is unanswered.
pub open spec fn review_lines(state: AskUserPopupState, width: u16) -> Seq<Seq<SpanView>> {
    seq![blank()] + question_summaries(state, width, state.ask_user_questions.len() as int) + if all_required_answered(state) {
        seq![]
    } else {
        seq![
            seq![
                sv(CONTENT_PAD@, plain()),
                sv("Answer all required (*) questions to submit"@, fg(PopupColor::Yellow)),
            ],
        ]
    }
}

/// Builds the line under a question's label on the review tab.
fn build_answer_summary(state: &AskUserPopupState, q: &AskUserQuestion, width: u16) -> (res:
    PopupLine)
    ensures
        res@ == answer_summary(*state, *q, width),
{
    let mut spans: Vec<StyledSpan> = Vec::new();
    let found = find_answer(&state.ask_user_answers, &q.label);
    if let Some(k) = found {
        let answer = &state.ask_user_answers[k].1;
        let display: String = if answer.is_custom {
            answer.answer.clone()
        } else {
            match find_option(&q.options, &answer.answer) {
                Some(j) => q.options[j].label.clone(),
                None => answer.answer.clone(),
            }
        };
        let max_display: usize = if width >= 4 {
            (width - 4) as usize
        } else {
            0
        };
        let keep: usize = if max_display >= 1 {
            max_display - 1
        } else {
            0
        };
        let shown = cut_str(display.as_str(), max_display, keep, "…");
        push_span(&mut spans, span(CONTENT_PAD, style_plain()));
        push_span(&mut spans, span(CONTENT_PAD, style_plain()));
        push_span(&mut spans, span_owned(shown, style_fg(PopupColor::Cyan)));
    } else if q.required {
        push_span(&mut spans, span(CONTENT_PAD, style_plain()));
        push_span(&mut spans, span("  □ ", style_fg(PopupColor::Yellow)));
        push_span(&mut spans, span("not answered", style_fg(PopupColor::Yellow)));
    } else {
        push_span(&mut spans, span(CONTENT_PAD, style_plain()));
        push_span(&mut spans, span("  — ", style_fg(PopupColor::DarkGray)));
        push_span(&mut spans, span("skipped", style_fg(PopupColor::DarkGray)));
    }
    let res = line_of(spans);
    assert(res@ =~= answer_summary(*state, *q, width));
    res
}

/// Builds the review tab's content: a full question and answer summary.
pub fn build_review_lines(state: &AskUserPopupState, area_width: u16) -> (res: Vec<PopupLine>)
    ensures
        lines_view(res@) == review_lines(*state, area_width),
{
    let all_required_answered = check_all_required_answered(state);
    let mut lines: Vec<PopupLine> = Vec::new();
    push_line(&mut lines, blank_line());
    let qs = &state.ask_user_questions;
    let mut i: usize = 0;
    while i < qs.len()
        invariant
            qs == state.ask_user_questions,
            i <= qs.len(),
            lines_view(lines@) == seq![blank()] + question_summaries(*state, area_width, i as int),
        decreases qs.len() - i,
    {
        let q = &qs[i];
        let marker = if q.required {
            " *"
        } else {
            ""
        };
        let mut spans: Vec<StyledSpan> = Vec::new();
        push_span(&mut spans, span(CONTENT_PAD, style_plain()));
        push_span(&mut spans, span(q.label.as_str(), style_fg_bold(PopupColor::White)));
        push_span(&mut spans, span(marker, style_fg(PopupColor::Red)));
        assert(spans_view(spans@) =~= question_summary(*state, *q, area_width)[0]);
        let ghost before = lines_view(lines@);
        push_line(&mut lines, line_of(spans));
        push_line(&mut lines, build_answer_summary(state, q, area_width));
        push_line(&mut lines, blank_line());
        assert(lines_view(lines@) =~= before + question_summary(*state, *q, area_width));
        i = i + 1;
    }
    let ghost before = lines_view(lines@);
    if !all_required_answered {
        let mut spans: Vec<StyledSpan> = Vec::new();
        push_span(&mut spans, span(CONTENT_PAD, style_plain()));
        push_span(
            &mut spans,
            span("Answer all required (*) questions to submit", style_fg(PopupColor::Yellow)),
        );
        assert(spans_view(spans@) =~= seq![
            sv(CONTENT_PAD@, plain()),
            sv("Answer all required (*) questions to submit"@, fg(PopupColor::Yellow)),
        ]);
        push_line(&mut lines, line_of(spans));
    }
    assert(lines_view(lines@) =~= review_lines(*state, area_width));
    lines
}

// ---------------------------------------------------------------------------
// Question tab
// ---------------------------------------------------------------------------

/// The question of the current tab.
pub open spec fn current_question(state: AskUserPopupState) -> AskUserQuestion {
    state.ask_user_questions[state.ask_user_current_tab as int]
}

/// The answer already given to the current question, if any.
pub open spec fn previous_answer(state: AskUserPopupState) -> Option<AskUserAnswer> {
    answer_for(state.ask_user_answers@, current_question(state).label@)
}

/// Whether the previous answer selected option `opt`.
pub open spec fn option_chosen(prev: Option<AskUserAnswer>, opt: AskUserOption) -> bool {
    match prev {
        Some(a) => !a.is_custom && a.answer@ == opt.value@,
        None => false,
    }
}

/// Whether the previous answer is a custom one.
pub open spec fn custom_chosen(prev: Option<AskUserAnswer>) -> bool {
    match prev {
        Some(a) => a.is_custom,
        None => false,
    }
}

/// The bracket before the option numbered `number`: a check mark when it is
/// the answer, an arrow when selected, its number otherwise.
pub open spec fn option_bracket(number: int, chosen: bool, selected: bool) -> SpanView {
    if chosen {
        sv("[✓]"@, fg_bold(PopupColor::Green))
    } else if selected {
        sv("[>]"@, fg_bold(PopupColor::Cyan))
    } else {
        sv("["@ + decimal(number) + "]"@, fg(PopupColor::DarkGray))
    }
}

/// The style of an option's label.
pub open spec fn option_label_style(chosen: bool, selected: bool) -> crate::styled_text::SpanStyle {
    if chosen {
        fg(PopupColor::Cyan)
    } else if selected {
        fg_bold(PopupColor::White)
    } else {
        fg(PopupColor::DarkGray)
    }
}

/// The lines of option `i` of the current question: its bracket and label,
/// then its indented description if it has one.
pub open spec fn option_lines(state: AskUserPopupState, i: int) -> Seq<Seq<SpanView>> {
    let q = current_question(state);
    let opt = q.options[i];
    let selected = i == state.ask_user_selected_option;
    let chosen = option_chosen(previous_answer(state), opt);
    seq![
        seq![
            sv(CONTENT_PAD@, plain()),
            option_bracket(i + 1, chosen, selected),
            sv(" "@, plain()),
            sv(opt.label@, option_label_style(chosen, selected)),
        ],
    ] + match opt.description {
        Some(d) => seq![
            seq![
                sv(
                    DESC_INDENT@ + d@,
                    if selected || chosen {
                        fg(PopupColor::Gray)
                    } else {
                        fg(PopupColor::DarkGray)
                    },
                ),
            ],
        ],
        None => seq![],
    }
}

/// The lines of the first `k` options of the current question.
pub open spec fn options_lines(state: AskUserPopupState, k: int) -> Seq<Seq<SpanView>>
    decreases k,
{
    if k <= 0 {
        seq![]
    } else {
        options_lines(state, k - 1) + option_lines(state, k - 1)
    }
}

/// The custom input line of the current question, when it allows one: the
/// input being typed with a cursor (or a placeholder) when selected, the
/// custom answer when there is one, "Other..." otherwise.
pub open spec fn custom_input_lines(state: AskUserPopupState) -> Seq<Seq<SpanView>> {
    let q = current_question(state);
    let prev = previous_answer(state);
    let idx = q.options.len() as int;
    let selected = state.ask_user_selected_option == idx;
    let chosen = custom_chosen(prev);
    let head = seq![
        sv(CONTENT_PAD@, plain()),
        option_bracket(idx + 1, chosen, selected),
        sv(" "@, plain()),
    ];
    if !q.allow_custom {
        seq![]
    } else if selected {
        if state.ask_user_custom_input@.len() == 0 {
            seq![
                head + seq![
                    sv("│"@, fg(PopupColor::Cyan)),
                    sv("Type your answer..."@, fg(PopupColor::DarkGray)),
                ],
            ]
        } else {
            seq![
                head + seq![
                    sv(state.ask_user_custom_input@, fg_bold(PopupColor::White)),
                    sv("│"@, fg(PopupColor::Cyan)),
                ],
            ]
        }
    } else if chosen {
        seq![head + seq![sv(prev->0.answer@, fg(PopupColor::Cyan))]]
    } else {
        seq![head + seq![sv("Other..."@, fg(PopupColor::DarkGray))]]
    }
}

/// A wrapped line of question text, padded and bold white.
pub open spec fn question_text_line(line: Seq<char>) -> Seq<SpanView> {
    seq![sv(CONTENT_PAD@, plain()), sv(line, fg_bold(PopupColor::White))]
}

/// The width for the question text in a content area `width` columns wide.
pub open spec fn content_text_width(width: u16) -> usize {
    if width >= 2 {
        (width - 2) as usize
    } else {
        0
    }
}

/// The current question tab's content in an area `width` columns wide: a
/// blank line, the wrapped question text, a blank line, the options, and
/// the custom input line.
pub open spec fn question_content(state: AskUserPopupState, width: u16) -> Seq<Seq<SpanView>> {
    let q = current_question(state);
    let wrapped = wrapped_lines(q.question@, content_text_width(width));
    seq![blank()] + wrapped.map_values(|l: Seq<char>| question_text_line(l)) + seq![blank()]
        + options_lines(state, q.options.len() as int) + custom_input_lines(state)
}

/// Builds the bracket before an option.
fn build_option_bracket(number: usize, chosen: bool, selected: bool) -> (res: StyledSpan)
    ensures
        res@ == option_bracket(number as int, chosen, selected),
{
    if chosen {
        span("[✓]", style_fg_bold(PopupColor::Green))
    } else if selected {
        span("[>]", style_fg_bold(PopupColor::Cyan))
    } else {
        let n = usize_to_decimal(number);
        span_owned("[".to_string().concat(n.as_str()).concat("]"), style_fg(PopupColor::DarkGray))
    }
}

/// Builds the custom input line of the current question.
fn push_custom_input_lines(lines: &mut Vec<PopupLine>, state: &AskUserPopupState, prev: Option<usize>)
    requires
        state.ask_user_current_tab < state.ask_user_questions.len(),
        options_countable(current_question(*state)),
        match prev {
            Some(k) => k < state.ask_user_answers.len() && previous_answer(*state) == Some(
                state.ask_user_answers@[k as int].1,
            ),
            None => previous_answer(*state) is None,
        },
    ensures
        lines_view(final(lines)@) == lines_view(old(lines)@) + custom_input_lines(*state),
{
    let q = &state.ask_user_questions[state.ask_user_current_tab];
    if !q.allow_custom {
        assert(lines_view(lines@) =~= lines_view(old(lines)@) + custom_input_lines(*state));
        return;
    }
    let custom_idx = q.options.len();
    let is_selected = state.ask_user_selected_option == custom_idx;
    let is_custom_answered = match prev {
        Some(k) => state.ask_user_answers[k].1.is_custom,
        None => false,
    };
    let mut spans: Vec<StyledSpan> = Vec::new();
    push_span(&mut spans, span(CONTENT_PAD, style_plain()));
    push_span(&mut spans, build_option_bracket(custom_idx + 1, is_custom_answered, is_selected));
    push_span(&mut spans, span(" ", style_plain()));
    assert(is_custom_answered == custom_chosen(previous_answer(*state)));
    let ghost head = seq![
        sv(CONTENT_PAD@, plain()),
        option_bracket(custom_idx + 1, is_custom_answered, is_selected),
        sv(" "@, plain()),
    ];
    assert(spans_view(spans@) =~= head);
    if is_selected {
        if state.ask_user_custom_input.as_str().is_empty() {
            push_span(&mut spans, span("│", style_fg(PopupColor::Cyan)));
            push_span(&mut spans, span("Type your answer...", style_fg(PopupColor::DarkGray)));
            assert(spans_view(spans@) =~= head + seq![
                sv("│"@, fg(PopupColor::Cyan)),
                sv("Type your answer..."@, fg(PopupColor::DarkGray)),
            ]);
        } else {
            push_span(
                &mut spans,
                span(state.ask_user_custom_input.as_str(), style_fg_bold(PopupColor::White)),
            );
            push_span(&mut spans, span("│", style_fg(PopupColor::Cyan)));
            assert(spans_view(spans@) =~= head + seq![
                sv(state.ask_user_custom_input@, fg_bold(PopupColor::White)),
                sv("│"@, fg(PopupColor::Cyan)),
            ]);
        }
    } else if is_custom_answered {
        match prev {
            Some(k) => {
                push_span(
                    &mut spans,
                    span(state.ask_user_answers[k].1.answer.as_str(), style_fg(PopupColor::Cyan)),
                );
                assert(spans_view(spans@) =~= head + seq![
                    sv(previous_answer(*state)->0.answer@, fg(PopupColor::Cyan)),
                ]);
            },
            None => {},
        }
    } else {
        push_span(&mut spans, span("Other...", style_fg(PopupColor::DarkGray)));
        assert(spans_view(spans@) =~= head + seq![sv("Other..."@, fg(PopupColor::DarkGray))]);
    }
    assert(seq![spans_view(spans@)] =~= custom_input_lines(*state));
    push_line(lines, line_of(spans));
    assert(lines_view(lines@) =~= lines_view(old(lines)@) + custom_input_lines(*state));
}

/// Builds the lines of option `i` of the current question.
fn push_option_lines(
    lines: &mut Vec<PopupLine>,
    state: &AskUserPopupState,
    prev: Option<usize>,
    i: usize,
)
    requires
        state.ask_user_current_tab < state.ask_user_questions.len(),
        i < current_question(*state).options.len(),
        match prev {
            Some(k) => k < state.ask_user_answers.len() && previous_answer(*state) == Some(
                state.ask_user_answers@[k as int].1,
            ),
            None => previous_answer(*state) is None,
        },
    ensures
        lines_view(final(lines)@) == lines_view(old(lines)@) + option_lines(*state, i as int),
{
    let q = &state.ask_user_questions[state.ask_user_current_tab];
    let opt = &q.options[i];
    let is_selected = i == state.ask_user_selected_option;
    let is_answered = match prev {
        Some(k) => !state.ask_user_answers[k].1.is_custom && state.ask_user_answers[k].1.answer
            == opt.value,
        None => false,
    };
    let label_style = if is_answered {
        style_fg(PopupColor::Cyan)
    } else if is_selected {
        style_fg_bold(PopupColor::White)
    } else {
        style_fg(PopupColor::DarkGray)
    };
    let mut spans: Vec<StyledSpan> = Vec::new();
    push_span(&mut spans, span(CONTENT_PAD, style_plain()));
    push_span(&mut spans, build_option_bracket(i + 1, is_answered, is_selected));
    push_span(&mut spans, span(" ", style_plain()));
    push_span(&mut spans, span(opt.label.as_str(), label_style));
    assert(is_answered == option_chosen(previous_answer(*state), *opt));
    assert(spans_view(spans@) =~= option_lines(*state, i as int)[0]);
    push_line(lines, line_of(spans));
    let ghost mid = lines_view(lines@);
    if let Some(desc) = &opt.description {
        let desc_style = if is_selected || is_answered {
            style_fg(PopupColor::Gray)
        } else {
            style_fg(PopupColor::DarkGray)
        };
        let text = DESC_INDENT.to_string().concat(desc.as_str());
        let mut dspans: Vec<StyledSpan> = Vec::new();
        push_span(&mut dspans, span_owned(text, desc_style));
        assert(spans_view(dspans@) =~= option_lines(*state, i as int)[1]);
        push_line(lines, line_of(dspans));
    }
    assert(lines_view(lines@) =~= lines_view(old(lines)@) + option_lines(*state, i as int));
}

/// Builds the content of the current question tab in an area `area_width`
/// columns wide.
pub fn build_question_lines(state: &AskUserPopupState, area_width: u16) -> (res: Vec<PopupLine>)
    requires
        state.ask_user_current_tab < state.ask_user_questions.len(),
        options_countable(current_question(*state)),
    ensures
        lines_view(res@) == question_content(*state, area_width),
{
    let q = &state.ask_user_questions[state.ask_user_current_tab];
    let prev = find_answer(&state.ask_user_answers, &q.label);
    let mut lines: Vec<PopupLine> = Vec::new();
    push_line(&mut lines, blank_line());
    let text_width: usize = if area_width >= 2 {
        (area_width - 2) as usize
    } else {
        0
    };
    let wrapped = wrap_text(q.question.as_str(), text_width);
    let ghost ws = views(wrapped@);
    let mut j: usize = 0;
    while j < wrapped.len()
        invariant
            ws == views(wrapped@),
            j <= wrapped.len(),
            lines_view(lines@) == seq![blank()] + ws.take(j as int).map_values(
                |l: Seq<char>| question_text_line(l),
            ),
        decreases wrapped.len() - j,
    {
        let mut spans: Vec<StyledSpan> = Vec::new();
        push_span(&mut spans, span(CONTENT_PAD, style_plain()));
        push_span(&mut spans, span(wrapped[j].as_str(), style_fg_bold(PopupColor::White)));
        assert(wrapped@[j as int]@ == ws[j as int]);
        assert(spans_view(spans@) =~= question_text_line(ws[j as int]));
        let ghost before = lines_view(lines@);
        push_line(&mut lines, line_of(spans));
        assert(ws.take(j + 1).map_values(|l: Seq<char>| question_text_line(l)) =~= ws.take(
            j as int,
        ).map_values(|l: Seq<char>| question_text_line(l)).push(question_text_line(ws[j as int])));
        assert(lines_view(lines@) =~= before.push(question_text_line(ws[j as int])));
        j = j + 1;
    }
    assert(ws.take(wrapped.len() as int) =~= ws);
    push_line(&mut lines, blank_line());
    let ghost head = lines_view(lines@);
    let mut i: usize = 0;
    while i < q.options.len()
        invariant
            q == current_question(*state),
            state.ask_user_current_tab < state.ask_user_questions.len(),
            i <= q.options.len(),
            match prev {
                Some(k) => k < state.ask_user_answers.len() && previous_answer(*state) == Some(
                    state.ask_user_answers@[k as int].1,
                ),
                None => previous_answer(*state) is None,
            },
            lines_view(lines@) == head + options_lines(*state, i as int),
        decreases q.options.len() - i,
    {
        push_option_lines(&mut lines, state, prev, i);
        i = i + 1;
    }
    push_custom_input_lines(&mut lines, state, prev);
    assert(lines_view(lines@) =~= question_content(*state, area_width));
    lines
}

// ---------------------------------------------------------------------------
// Popup placement and content
// ---------------------------------------------------------------------------

/// Where the popup is drawn on the terminal.
#[derive(Debug, Clone, Copy, PartialEq, Eq)]
pub struct PopupArea {
    pub x: u16,
    pub y: u16,
    pub width: u16,
    pub height: u16,
}

/// Places a popup `popup_height` lines high at the bottom of a terminal area,
/// full width less a one-column margin on each side.
pub fn ask_user_popup_area(area_x: u16, area_width: u16, area_height: u16, popup_height: u16) -> (res:
    PopupArea)
    requires
        area_x < u16::MAX,
    ensures
        res.x == area_x + 1,
        res.y == if area_height >= popup_height {
            area_height - popup_height
        } else {
            0
        },
        res.width == if area_width >= 2 {
            area_width - 2
        } else {
            0
        },
        res.height == popup_height,
{
    PopupArea {
        x: area_x + 1,
        y: if area_height >= popup_height {
            area_height - popup_height
        } else {
            0
        },
        width: if area_width >= 2 {
            area_width - 2
        } else {
            0
        },
        height: popup_height,
    }
}

/// The content between the tab bar and the help line, in an area `width`
/// columns wide: the review tab's or the current question's.
pub open spec fn popup_content(state: AskUserPopupState, width: u16) -> Seq<Seq<SpanView>> {
    if on_review_tab(state) {
        review_lines(state, width)
    } else {
        question_content(state, width)
    }
}

/// Builds the content between the tab bar and the help line.
pub fn build_popup_content(state: &AskUserPopupState, content_width: u16) -> (res: Vec<PopupLine>)
    requires
        on_review_tab(*state) || options_countable(current_question(*state)),
    ensures
        lines_view(res@) == popup_content(*state, content_width),
{
    if is_review_tab(state) {
        build_review_lines(state, content_width)
    } else {
        build_question_lines(state, content_width)
    }
}

// ---------------------------------------------------------------------------
// Laws
// ---------------------------------------------------------------------------

/// A hidden popup, or one without questions, takes no lines; a drawn one
/// takes at least ten, and no more than three fifths of the width unless
/// that is under ten.
pub proof fn lemma_height_bounds(state: AskUserPopupState, width: u16)
    ensures
        !popup_visible(state) ==> ask_user_height(state, width) == 0,
        popup_visible(state) ==> 10 <= ask_user_height(state, width),
        popup_visible(state) ==> ask_user_height(state, width) <= if (width as int) * 3 / 5 < 10 {
            10
        } else {
            (width as int) * 3 / 5
        },
        !state.show_ask_user_popup || state.ask_user_questions.len() == 0 ==> ask_user_height(
            state,
            width,
        ) == 0,
        state.show_ask_user_popup && state.ask_user_questions.len() > 0 ==> 10 <= ask_user_height(
            state,
            width,
        ),
{
}

/// On the review tab of a drawn popup the height is six lines plus three per
/// question, cut to 16 bits, capped at three fifths of the width, and at
/// least ten.
pub proof fn lemma_review_tab_height(state: AskUserPopupState, width: u16)
    requires
        state.show_ask_user_popup,
        state.ask_user_questions.len() > 0,
        state.ask_user_current_tab >= state.ask_user_questions.len(),
    ensures
        ({
            let t = (6 + 3 * state.ask_user_questions.len()) % 65536;
            let cap = (width as int) * 3 / 5;
            let capped = if t < cap {
                t
            } else {
                cap
            };
            ask_user_height(state, width) == if capped < 10 {
                10
            } else {
                capped
            }
        }),
{
}

/// The popup is drawn exactly when it is shown and has questions; the
/// review tab is current exactly when the current tab is past the last
/// question; a question has one option more than its predefined ones when
/// it allows a custom answer; the content shown is the review tab's there
/// and the current question's otherwise.
pub proof fn lemma_popup_basics(state: AskUserPopupState, q: AskUserQuestion, width: u16)
    ensures
        popup_visible(state) <==> state.show_ask_user_popup && state.ask_user_questions.len() > 0,
        on_review_tab(state) <==> state.ask_user_current_tab >= state.ask_user_questions.len(),
        q.allow_custom ==> total_options(q) == q.options.len() + 1,
        !q.allow_custom ==> total_options(q) == q.options.len(),
        state.ask_user_current_tab >= state.ask_user_questions.len() ==> popup_content(
            state,
            width,
        ) == review_lines(state, width),
        state.ask_user_current_tab < state.ask_user_questions.len() ==> popup_content(
            state,
            width,
        ) == question_content(state, width),
{
}

/// Options take one line each and one more for each description: between
/// one and two lines per option, exactly one without descriptions and two
/// when every option has one.
pub proof fn lemma_option_line_count_bounds(options: Seq<AskUserOption>)
    ensures
        options.len() <= option_line_count(options) <= 2 * options.len(),
        (forall|k: int| 0 <= k < options.len() ==> (#[trigger] options[k]).description is None)
            ==> option_line_count(options) == options.len(),
        (forall|k: int| 0 <= k < options.len() ==> (#[trigger] options[k]).description is Some)
            ==> option_line_count(options) == 2 * options.len(),
    decreases options.len(),
{
    if options.len() > 0 {
        let rest = options.drop_last();
        assert forall|k: int| 0 <= k < rest.len() implies #[trigger] rest[k] == options[k] by {}
        lemma_option_line_count_bounds(rest);
        assert(options.last() == options[options.len() - 1]);
    }
}

/// The tabs of `k` questions are two spans each.
proof fn lemma_question_tabs_len(state: AskUserPopupState, k: int)
    requires
        0 <= k,
    ensures
        question_tabs(state, k).len() == 2 * k,
    decreases k,
{
    if k > 0 {
        lemma_question_tabs_len(state, k - 1);
    }
}

/// The tab bar has one tab (and gap) per question, between the left arrow
/// and the review tab with the right arrow.
pub proof fn lemma_tab_bar_has_tab_per_question(state: AskUserPopupState)
    ensures
        tab_bar(state).len() == 2 * state.ask_user_questions.len() + 3,
        tab_bar(state)[tab_bar(state).len() - 2].text == "Review"@,
{
    lemma_question_tabs_len(state, state.ask_user_questions.len() as int);
}

/// The summaries of `k` questions are three lines each.
proof fn lemma_question_summaries_len(state: AskUserPopupState, width: u16, k: int)
    requires
        0 <= k,
    ensures
        question_summaries(state, width, k).len() == 3 * k,
    decreases k,
{
    if k > 0 {
        lemma_question_summaries_len(state, width, k - 1);
    }
}

/// The review tab shows three lines per question after a blank line, and one
/// warning line exactly when a required question is unanswered.
pub proof fn lemma_review_lines_len(state: AskUserPopupState, width: u16)
    ensures
        review_lines(state, width).len() == 1 + 3 * state.ask_user_questions.len() + if all_required_answered(state) {
            0int
        } else {
            1int
        },
{
    lemma_question_summaries_len(state, width, state.ask_user_questions.len() as int);
}

/// The lines of the first `k` options are counted by [`option_line_count`].
proof fn lemma_options_lines_len(state: AskUserPopupState, k: int)
    requires
        state.ask_user_current_tab < state.ask_user_questions.len(),
        0 <= k <= current_question(state).options.len(),
    ensures
        options_lines(state, k).len() == option_line_count(
            current_question(state).options@.take(k),
        ),
    decreases k,
{
    let opts = current_question(state).options@;
    if k > 0 {
        lemma_options_lines_len(state, k - 1);
        assert(opts.take(k).drop_last() =~= opts.take(k - 1));
    } else {
        assert(opts.take(0) =~= Seq::<AskUserOption>::empty());
    }
}

/// The height the popup asks for fits its content: on a question tab, in a
/// terminal at least four columns wide (the content area being four columns
/// narrower), it is the content's lines plus five (tab bar, two borders,
/// padding, help line); on the review tab the warning line takes the place
/// of the padding.
pub proof fn lemma_height_fits_content(state: AskUserPopupState, width: u16)
    requires
        width >= 4,
    ensures
        !on_review_tab(state) ==> question_height(
            current_question(state),
            wrapped_lines(current_question(state).question@, question_text_width(width)).len() as int,
        ) == question_content(state, (width - 4) as u16).len() + 5,
        on_review_tab(state) ==> review_height(state.ask_user_questions.len() as int) == review_lines(
            state,
            (width - 4) as u16,
        ).len() + if all_required_answered(state) {
            5int
        } else {
            4int
        },
{
    lemma_review_lines_len(state, (width - 4) as u16);
    if !on_review_tab(state) {
        let q = current_question(state);
        assert(question_text_width(width) == content_text_width((width - 4) as u16));
        lemma_options_lines_len(state, q.options.len() as int);
        assert(q.options@.take(q.options.len() as int) =~= q.options@);
    }
}

/// The check of required answers fails as soon as one required question,
/// at any position, has no answer recorded under its label, and passes
/// when every required question has one.
pub proof fn lemma_required_answers_checked_everywhere(state: AskUserPopupState)
    ensures
        forall|i: int|
            0 <= i < state.ask_user_questions.len() && (#[trigger] state.ask_user_questions[i]).required
                && answer_for(state.ask_user_answers@, state.ask_user_questions[i].label@) is None
                ==> !all_required_answered(state),
        (forall|i: int|
            0 <= i < state.ask_user_questions.len() && (#[trigger] state.ask_user_questions[i]).required
                ==> answer_for(state.ask_user_answers@, state.ask_user_questions[i].label@) is Some)
            ==> all_required_answered(state),
{
}

/// Tab `2i` and `2i + 1` of the first `k` question tabs are those of
/// question `i`.
proof fn lemma_question_tabs_index(state: AskUserPopupState, k: int, i: int)
    requires
        0 <= i < k,
    ensures
        question_tabs(state, k).len() == 2 * k,
        question_tabs(state, k)[2 * i] == question_tab(state, i)[0],
        question_tabs(state, k)[2 * i + 1] == question_tab(state, i)[1],
    decreases k,
{
    lemma_question_tabs_len(state, k);
    if i < k - 1 {
        lemma_question_tabs_index(state, k - 1, i);
        lemma_question_tabs_len(state, k - 1);
    } else {
        lemma_question_tabs_len(state, k - 1);
    }
}

/// Question `i`'s tab in the tab bar: a check mark when an answer is
/// recorded under its label, an empty box otherwise, then its label cut to
/// twelve characters and `...` when longer than fifteen; black on cyan when
/// it is the current tab, answered or not; otherwise cyan when answered and
/// dark gray when not; a plain gap after it.
pub proof fn lemma_tab_bar_question_tab(state: AskUserPopupState, i: int)
    requires
        0 <= i < state.ask_user_questions.len(),
    ensures
        ({
            let answered = answer_for(
                state.ask_user_answers@,
                state.ask_user_questions[i].label@,
            ) is Some;
            let tab = tab_bar(state)[1 + 2 * i];
            &&& tab.text == (if answered {
                "✓ "@
            } else {
                "□ "@
            }) + cut_chars(state.ask_user_questions[i].label@, 15, 12, "..."@)
            &&& i == state.ask_user_current_tab ==> tab.style == fg_on(
                PopupColor::Black,
                PopupColor::Cyan,
            )
            &&& i != state.ask_user_current_tab && answered ==> tab.style == fg(PopupColor::Cyan)
            &&& i != state.ask_user_current_tab && !answered ==> tab.style == fg(
                PopupColor::DarkGray,
            )
            &&& tab_bar(state)[2 + 2 * i] == sv("   "@, plain())
        }),
{
    let n = state.ask_user_questions.len() as int;
    lemma_question_tabs_index(state, n, i);
}

/// The review tab in the tab bar, after all question tabs: black on cyan
/// when it is the current tab; otherwise green when every required question
/// is answered and dark gray when not.
pub proof fn lemma_tab_bar_review_tab(state: AskUserPopupState)
    ensures
        ({
            let n = state.ask_user_questions.len() as int;
            let tab = tab_bar(state)[1 + 2 * n];
            &&& tab.text == "Review"@
            &&& state.ask_user_current_tab >= n ==> tab.style == fg_on(
                PopupColor::Black,
                PopupColor::Cyan,
            )
            &&& state.ask_user_current_tab < n && all_required_answered(state) ==> tab.style == fg(
                PopupColor::Green,
            )
            &&& state.ask_user_current_tab < n && !all_required_answered(state) ==> tab.style == fg(
                PopupColor::DarkGray,
            )
        }),
{
    lemma_question_tabs_len(state, state.ask_user_questions.len() as int);
}

/// The help line offers to submit exactly on the review tab with every
/// required question answered; on the review tab otherwise it offers only
/// to move between questions and to cancel.
pub proof fn lemma_help_line_submit(state: AskUserPopupState)
    ensures
        on_review_tab(state) && all_required_answered(state) ==> help_line(state)[1].text
            == "Enter"@ && help_line(state)[2] == sv(" submit"@, fg(PopupColor::Green)),
        on_review_tab(state) && !all_required_answered(state) ==> help_line(state).len() == 6
            && help_line(state)[1].text == "←/→"@ && help_line(state)[4].text == "Esc"@,
{
}

/// The summary lines of question `i` among the first `k` summaries.
proof fn lemma_question_summaries_index(state: AskUserPopupState, width: u16, k: int, i: int)
    requires
        0 <= i < k,
    ensures
        question_summaries(state, width, k).len() == 3 * k,
        question_summaries(state, width, k).subrange(3 * i, 3 * i + 3) == question_summary(
            state,
            state.ask_user_questions[i],
            width,
        ),
    decreases k,
{
    lemma_question_summaries_len(state, width, k);
    lemma_question_summaries_len(state, width, k - 1);
    if i < k - 1 {
        lemma_question_summaries_index(state, width, k - 1, i);
        assert(question_summaries(state, width, k).subrange(3 * i, 3 * i + 3) =~= question_summaries(
            state,
            width,
            k - 1,
        ).subrange(3 * i, 3 * i + 3));
    } else {
        assert(question_summaries(state, width, k).subrange(3 * i, 3 * i + 3) =~= question_summary(
            state,
            state.ask_user_questions[i],
            width,
        ));
    }
}

/// The label of the first option with a given value is that option's label.
proof fn lemma_option_label_for(options: Seq<AskUserOption>, value: Seq<char>, j: int)
    requires
        0 <= j < options.len(),
        options[j].value@ == value,
        forall|k: int| 0 <= k < j ==> (#[trigger] options[k]).value@ != value,
    ensures
        option_label_for(options, value) == Some(options[j].label@),
    decreases j,
{
    if j > 0 {
        let rest = options.drop_first();
        assert(options[0].value@ != value);
        assert forall|k: int| 0 <= k < j - 1 implies (#[trigger] rest[k]).value@ != value by {
            assert(rest[k] == options[k + 1]);
        }
        lemma_option_label_for(rest, value, j - 1);
    }
}

/// No option label is found for a value that no option has.
proof fn lemma_option_label_for_none(options: Seq<AskUserOption>, value: Seq<char>)
    requires
        forall|k: int| 0 <= k < options.len() ==> (#[trigger] options[k]).value@ != value,
    ensures
        option_label_for(options, value) is None,
    decreases options.len(),
{
    if options.len() > 0 {
        let rest = options.drop_first();
        assert forall|k: int| 0 <= k < rest.len() implies (#[trigger] rest[k]).value@ != value by {
            assert(rest[k] == options[k + 1]);
        }
        lemma_option_label_for_none(rest, value);
    }
}

/// On the review tab, question `i` takes three lines after the opening
/// blank one: its label in bold white with a red ` *` when required; then
/// its answer in cyan (a custom answer as typed, otherwise the label of the
/// first option with the answer's value, or the value itself when no option
/// has it), cut to fit the width with `…`, or, without an answer, a yellow
/// "not answered" when required and a dark gray "skipped" when not; then a
/// blank line.
pub proof fn lemma_review_question_lines(state: AskUserPopupState, width: u16, i: int)
    requires
        0 <= i < state.ask_user_questions.len(),
    ensures
        ({
            let q = state.ask_user_questions[i];
            let lines = review_lines(state, width);
            let m: int = if width >= 4 {
                width - 4
            } else {
                0
            };
            &&& lines[1 + 3 * i] == seq![
                sv("  "@, plain()),
                sv(q.label@, fg_bold(PopupColor::White)),
                sv(
                    if q.required {
                        " *"@
                    } else {
                        ""@
                    },
                    fg(PopupColor::Red),
                ),
            ]
            &&& answer_for(state.ask_user_answers@, q.label@) matches Some(a) ==> {
                &&& lines[2 + 3 * i].len() == 3
                &&& lines[2 + 3 * i][2].style == fg(PopupColor::Cyan)
                &&& (a.is_custom ==> lines[2 + 3 * i][2].text == cut_chars(
                    a.answer@,
                    m as nat,
                    if m >= 1 {
                        (m - 1) as nat
                    } else {
                        0
                    },
                    "…"@,
                ))
                &&& (forall|j: int|
                    0 <= j < q.options.len() && !a.is_custom && (#[trigger] q.options[j]).value@
                        == a.answer@ && (forall|k: int|
                        0 <= k < j ==> (#[trigger] q.options[k]).value@ != a.answer@)
                        ==> lines[2 + 3 * i][2].text == cut_chars(
                        q.options[j].label@,
                        m as nat,
                        if m >= 1 {
                            (m - 1) as nat
                        } else {
                            0
                        },
                        "…"@,
                    ))
                &&& (!a.is_custom && (forall|k: int|
                    0 <= k < q.options.len() ==> (#[trigger] q.options[k]).value@ != a.answer@))
                    ==> lines[2 + 3 * i][2].text == cut_chars(
                    a.answer@,
                    m as nat,
                    if m >= 1 {
                        (m - 1) as nat
                    } else {
                        0
                    },
                    "…"@,
                )
            }
            &&& answer_for(state.ask_user_answers@, q.label@) is None && q.required
                ==> lines[2 + 3 * i] == seq![
                sv("  "@, plain()),
                sv("  □ "@, fg(PopupColor::Yellow)),
                sv("not answered"@, fg(PopupColor::Yellow)),
            ]
            &&& answer_for(state.ask_user_answers@, q.label@) is None && !q.required
                ==> lines[2 + 3 * i] == seq![
                sv("  "@, plain()),
                sv("  — "@, fg(PopupColor::DarkGray)),
                sv("skipped"@, fg(PopupColor::DarkGray)),
            ]
            &&& lines[3 + 3 * i].len() == 0
        }),
{
    let n = state.ask_user_questions.len() as int;
    let q = state.ask_user_questions[i];
    lemma_question_summaries_index(state, width, n, i);
    let sub = question_summaries(state, width, n).subrange(3 * i, 3 * i + 3);
    let lines = review_lines(state, width);
    assert(lines[1 + 3 * i] == sub[0]);
    assert(lines[2 + 3 * i] == sub[1]);
    assert(lines[3 + 3 * i] == sub[2]);
    if let Some(a) = answer_for(state.ask_user_answers@, q.label@) {
        if !a.is_custom {
            assert forall|j: int|
                0 <= j < q.options.len() && (#[trigger] q.options[j]).value@ == a.answer@ && (forall|
                    k: int,
                | 0 <= k < j ==> (#[trigger] q.options[k]).value@ != a.answer@) implies answer_display(
                q,
                a,
            ) == q.options[j].label@ by {
                lemma_option_label_for(q.options@, a.answer@, j);
            }
            if forall|k: int| 0 <= k < q.options.len() ==> (#[trigger] q.options[k]).value@ != a.answer@ {
                lemma_option_label_for_none(q.options@, a.answer@);
            }
        }
    }
}

/// The lines of option `i` among those of the first `k` options.
proof fn lemma_options_lines_index(state: AskUserPopupState, k: int, i: int)
    requires
        state.ask_user_current_tab < state.ask_user_questions.len(),
        0 <= i < k <= current_question(state).options.len(),
    ensures
        options_lines(state, k)[option_line_count(current_question(state).options@.take(i))]
            == option_lines(state, i)[0],
        current_question(state).options[i].description is Some ==> options_lines(state, k)[
            option_line_count(current_question(state).options@.take(i)) + 1] == option_lines(
            state,
            i,
        )[1],
    decreases k,
{
    lemma_options_lines_len(state, k - 1);
    lemma_options_lines_len(state, i);
    if i < k - 1 {
        lemma_options_lines_index(state, k - 1, i);
        let opts = current_question(state).options@;
        lemma_options_lines_len(state, i + 1);
        assert(opts.take(i + 1).drop_last() =~= opts.take(i));
        assert(option_lines(state, i).len() == 1 + if opts[i].description is Some {
            1int
        } else {
            0int
        });
        lemma_option_line_count_grows(state, i + 1, k - 1);
    }
}

/// The line count of the first `a` options is at most that of the first `b`.
proof fn lemma_option_line_count_grows(state: AskUserPopupState, a: int, b: int)
    requires
        state.ask_user_current_tab < state.ask_user_questions.len(),
        0 <= a <= b <= current_question(state).options.len(),
    ensures
        option_line_count(current_question(state).options@.take(a)) <= option_line_count(
            current_question(state).options@.take(b),
        ),
    decreases b - a,
{
    if a < b {
        let opts = current_question(state).options@;
        assert(opts.take(b).drop_last() =~= opts.take(b - 1));
        lemma_option_line_count_grows(state, a, b - 1);
    }
}

/// The position of option `i`'s first line in the current question's content.
pub open spec fn option_line_position(state: AskUserPopupState, width: u16, i: int) -> int {
    let q = current_question(state);
    2 + wrapped_lines(q.question@, content_text_width(width)).len() + option_line_count(
        q.options@.take(i),
    )
}

/// On a question tab, option `i` shows as a padded bracket and its label: a
/// green check mark and a cyan label when the recorded answer chose it (not
/// as a custom answer), whether or not it is selected; otherwise a cyan
/// arrow and a bold white label when selected; otherwise its one-based
/// number and a dark gray label. Its description, if any, follows on the
/// next line, indented, gray when the option is selected or chosen and dark
/// gray otherwise.
pub proof fn lemma_question_option_line(state: AskUserPopupState, width: u16, i: int)
    requires
        state.ask_user_current_tab < state.ask_user_questions.len(),
        0 <= i < current_question(state).options.len(),
    ensures
        ({
            let q = current_question(state);
            let opt = q.options[i];
            let lines = question_content(state, width);
            let at = option_line_position(state, width, i);
            let chosen = match answer_for(state.ask_user_answers@, q.label@) {
                Some(a) => !a.is_custom && a.answer@ == opt.value@,
                None => false,
            };
            let selected = i == state.ask_user_selected_option;
            &&& lines[at].len() == 4
            &&& lines[at][0] == sv("  "@, plain())
            &&& lines[at][2] == sv(" "@, plain())
            &&& lines[at][3].text == opt.label@
            &&& chosen ==> lines[at][1] == sv("[✓]"@, fg_bold(PopupColor::Green))
                && lines[at][3].style == fg(PopupColor::Cyan)
            &&& !chosen && selected ==> lines[at][1] == sv("[>]"@, fg_bold(PopupColor::Cyan))
                && lines[at][3].style == fg_bold(PopupColor::White)
            &&& !chosen && !selected ==> lines[at][1] == sv(
                "["@ + decimal(i + 1) + "]"@,
                fg(PopupColor::DarkGray),
            ) && lines[at][3].style == fg(PopupColor::DarkGray)
            &&& opt.description matches Some(d) ==> lines[at + 1] == seq![
                sv(
                    "       "@ + d@,
                    if selected || chosen {
                        fg(PopupColor::Gray)
                    } else {
                        fg(PopupColor::DarkGray)
                    },
                ),
            ]
        }),
{
    let q = current_question(state);
    let n = q.options.len() as int;
    let wrapped = wrapped_lines(q.question@, content_text_width(width));
    let head = seq![blank()] + wrapped.map_values(|l: Seq<char>| question_text_line(l)) + seq![
        blank(),
    ];
    lemma_options_lines_index(state, n, i);
    lemma_options_lines_len(state, n);
    lemma_options_lines_len(state, i + 1);
    lemma_option_line_count_grows(state, i + 1, n);
    let opts = q.options@;
    assert(opts.take(i + 1).drop_last() =~= opts.take(i));
    let lines = question_content(state, width);
    let at = option_line_position(state, width, i);
    assert(head.len() == 2 + wrapped.len());
    assert(lines[at] == options_lines(state, n)[option_line_count(opts.take(i))]);
    if q.options[i].description is Some {
        assert(lines[at + 1] == options_lines(state, n)[option_line_count(opts.take(i)) + 1]);
    }
}

/// On a question tab the content opens with a blank line, then the
/// question's wrapped lines, padded and bold white, then a blank line; it
/// ends with the options' lines and, when a custom answer is allowed, one
/// custom input line.
pub proof fn lemma_question_content_shape(state: AskUserPopupState, width: u16)
    requires
        state.ask_user_current_tab < state.ask_user_questions.len(),
    ensures
        ({
            let q = current_question(state);
            let wrapped = wrapped_lines(q.question@, content_text_width(width));
            let lines = question_content(state, width);
            &&& lines[0].len() == 0
            &&& forall|j: int|
                0 <= j < wrapped.len() ==> lines[1 + j] == seq![
                    sv("  "@, plain()),
                    sv(#[trigger] wrapped[j], fg_bold(PopupColor::White)),
                ]
            &&& lines[1 + wrapped.len() as int].len() == 0
            &&& lines.len() == 2 + wrapped.len() + option_line_count(q.options@) + if q.allow_custom {
                1int
            } else {
                0int
            }
        }),
{
    let q = current_question(state);
    lemma_options_lines_len(state, q.options.len() as int);
    assert(q.options@.take(q.options.len() as int) =~= q.options@);
}

/// When the current question allows a custom answer, its last line is the
/// custom input, numbered after the options: a green check mark when the
/// recorded answer is custom and it is not selected, then that answer in
/// cyan; when selected, a cyan arrow, then the input being typed in bold
/// white followed by a cursor, or a cursor and a placeholder when nothing
/// is typed; otherwise "Other...".
pub proof fn lemma_question_custom_line(state: AskUserPopupState, width: u16)
    requires
        state.ask_user_current_tab < state.ask_user_questions.len(),
        current_question(state).allow_custom,
    ensures
        ({
            let q = current_question(state);
            let lines = question_content(state, width);
            let last = lines[lines.len() - 1];
            let idx = q.options.len() as int;
            let selected = state.ask_user_selected_option == idx;
            let prev = answer_for(state.ask_user_answers@, q.label@);
            let chosen = match prev {
                Some(a) => a.is_custom,
                None => false,
            };
            &&& last[0] == sv("  "@, plain())
            &&& last[2] == sv(" "@, plain())
            &&& chosen ==> last[1] == sv("[✓]"@, fg_bold(PopupColor::Green))
            &&& !chosen && selected ==> last[1] == sv("[>]"@, fg_bold(PopupColor::Cyan))
            &&& !chosen && !selected ==> last[1] == sv(
                "["@ + decimal(idx + 1) + "]"@,
                fg(PopupColor::DarkGray),
            )
            &&& selected && state.ask_user_custom_input@.len() == 0 ==> last.len() == 5 && last[3]
                == sv("│"@, fg(PopupColor::Cyan)) && last[4] == sv(
                "Type your answer..."@,
                fg(PopupColor::DarkGray),
            )
            &&& selected && state.ask_user_custom_input@.len() > 0 ==> last.len() == 5 && last[3]
                == sv(state.ask_user_custom_input@, fg_bold(PopupColor::White)) && last[4] == sv(
                "│"@,
                fg(PopupColor::Cyan),
            )
            &&& !selected && chosen ==> last.len() == 4 && last[3] == sv(
                prev->0.answer@,
                fg(PopupColor::Cyan),
            )
            &&& !selected && !chosen ==> last.len() == 4 && last[3] == sv(
                "Other..."@,
                fg(PopupColor::DarkGray),
            )
        }),
{
}

/// On a question tab the help line offers to type an answer when the
/// custom input is selected, and to select an option otherwise.
pub proof fn lemma_help_line_on_question(state: AskUserPopupState)
    requires
        state.ask_user_current_tab < state.ask_user_questions.len(),
    ensures
        ({
            let q = current_question(state);
            let custom = q.allow_custom && state.ask_user_selected_option == q.options.len();
            &&& custom ==> help_line(state)[1].text == "Type"@ && help_line(state)[2].text
                == " your answer"@
            &&& !custom ==> help_line(state)[1].text == "Enter"@ && help_line(state)[2].text
                == " select"@
        }),
{
}

} // verus!
