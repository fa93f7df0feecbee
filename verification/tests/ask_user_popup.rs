use stakpak::ask_user_popup::{
    ask_user_popup_area, build_help_line, build_popup_content, build_question_lines,
    build_review_lines, build_tab_bar, calculate_ask_user_height, check_all_required_answered,
    get_total_options, is_popup_visible, AskUserAnswer, AskUserOption, AskUserPopupState,
    AskUserQuestion, PopupArea,
};
use stakpak::styled_text::{PopupColor, PopupLine, SpanStyle};

fn option(value: &str, label: &str, description: Option<&str>) -> AskUserOption {
    AskUserOption {
        value: value.to_string(),
        label: label.to_string(),
        description: description.map(String::from),
    }
}

fn question(label: &str, text: &str, options: Vec<AskUserOption>, allow_custom: bool, required: bool) -> AskUserQuestion {
    AskUserQuestion {
        label: label.to_string(),
        question: text.to_string(),
        options,
        allow_custom,
        required,
    }
}

fn answer(label: &str, value: &str, is_custom: bool) -> (String, AskUserAnswer) {
    (
        label.to_string(),
        AskUserAnswer { question: label.to_string(), answer: value.to_string(), is_custom },
    )
}

fn sample_state() -> AskUserPopupState {
    AskUserPopupState {
        show_ask_user_popup: true,
        ask_user_questions: vec![
            question(
                "Visibility",
                "Should academies be public by default?",
                vec![
                    option("public", "Public by default", Some("Visible immediately")),
                    option("approval", "Require approval", None),
                ],
                true,
                true,
            ),
            question("Payment", "How do coaches get paid?", vec![option("stripe", "Stripe", None)], false, false),
        ],
        ask_user_current_tab: 0,
        ask_user_selected_option: 0,
        ask_user_answers: vec![],
        ask_user_custom_input: String::new(),
    }
}

fn texts(line: &PopupLine) -> Vec<String> {
    line.spans.iter().map(|s| s.text.clone()).collect()
}

fn joined(line: &PopupLine) -> String {
    texts(line).concat()
}

fn fg(c: PopupColor) -> SpanStyle {
    SpanStyle { fg: Some(c), bg: None, bold: false }
}

#[test]
fn hidden_or_empty_popup_has_no_height() {
    let mut state = sample_state();
    state.show_ask_user_popup = false;
    assert_eq!(calculate_ask_user_height(&state, 100), 0);
    assert!(!is_popup_visible(&state));
    let mut state = sample_state();
    state.ask_user_questions.clear();
    assert_eq!(calculate_ask_user_height(&state, 100), 0);
}

#[test]
fn question_tab_height_counts_every_part() {
    let state = sample_state();
    // 7 fixed lines + 1 question line + 3 option lines + 1 custom line
    assert_eq!(calculate_ask_user_height(&state, 200), 12);
    // capped at three fifths of a narrow width, but at least ten
    assert_eq!(calculate_ask_user_height(&state, 18), 10);
    assert_eq!(calculate_ask_user_height(&state, 10), 10);
}

#[test]
fn question_height_grows_with_wrapped_text() {
    let mut state = sample_state();
    state.ask_user_questions[0].question = "word ".repeat(40);
    // width 26: text width 20, so the 40 words wrap onto 10 lines
    let lines = textwrap::wrap(&state.ask_user_questions[0].question, 20).len();
    assert_eq!(lines, 10);
    // width 200: text width 194, so the 200 characters wrap onto 2 lines
    assert_eq!(calculate_ask_user_height(&state, 200), 13);
    let h = calculate_ask_user_height(&state, 26);
    assert_eq!(h, 15); // 3/5 of 26
}

#[test]
fn review_tab_height_is_three_lines_per_question() {
    let mut state = sample_state();
    state.ask_user_current_tab = 2;
    assert_eq!(calculate_ask_user_height(&state, 200), 12);
    state.ask_user_questions.extend((0..4).map(|i| question(&format!("Q{}", i), "?", vec![], false, false)));
    state.ask_user_current_tab = 6;
    assert_eq!(calculate_ask_user_height(&state, 200), 6 + 3 * 6);
}

#[test]
fn height_cap_is_three_fifths_of_width_for_every_width() {
    let mut state = sample_state();
    state.ask_user_questions = (0..21_843).map(|_| question("q", "?", vec![], false, false)).collect();
    state.ask_user_current_tab = state.ask_user_questions.len();
    for w in 0..=u16::MAX {
        let scaled = (w as f32 * 0.6) as u16;
        assert_eq!(calculate_ask_user_height(&state, w), scaled.min(65_535).max(10), "width {}", w);
    }
}

#[test]
fn total_options_counts_custom_input() {
    let state = sample_state();
    assert_eq!(get_total_options(&state.ask_user_questions[0]), 3);
    assert_eq!(get_total_options(&state.ask_user_questions[1]), 1);
}

#[test]
fn required_questions_must_be_answered() {
    let mut state = sample_state();
    assert!(!check_all_required_answered(&state));
    state.ask_user_answers.push(answer("Payment", "stripe", false));
    assert!(!check_all_required_answered(&state));
    state.ask_user_answers.push(answer("Visibility", "public", false));
    assert!(check_all_required_answered(&state));
    state.ask_user_questions.iter_mut().for_each(|q| q.required = false);
    state.ask_user_answers.clear();
    assert!(check_all_required_answered(&state));
}

#[test]
fn tab_bar_marks_current_and_answered_tabs() {
    let mut state = sample_state();
    state.ask_user_questions[1].label = "A rather long question label".to_string();
    state.ask_user_answers.push(answer("A rather long question label", "stripe", false));
    let bar = build_tab_bar(&state);
    assert_eq!(
        texts(&bar),
        vec![" ← ", "□ Visibility", "   ", "✓ A rather lon...", "   ", "Review", " →"]
    );
    assert_eq!(bar.spans[1].style, SpanStyle { fg: Some(PopupColor::Black), bg: Some(PopupColor::Cyan), bold: false });
    assert_eq!(bar.spans[3].style, fg(PopupColor::Cyan));
    assert_eq!(bar.spans[5].style, fg(PopupColor::DarkGray));
}

#[test]
fn question_content_shows_options_and_custom_input() {
    let mut state = sample_state();
    state.ask_user_selected_option = 1;
    state.ask_user_answers.push(answer("Visibility", "public", false));
    let lines = build_question_lines(&state, 80);
    let shown: Vec<String> = lines.iter().map(joined).collect();
    assert_eq!(
        shown,
        vec![
            "",
            "  Should academies be public by default?",
            "",
            "  [✓] Public by default",
            "       Visible immediately",
            "  [>] Require approval",
            "  [3] Other...",
        ]
    );
    state.ask_user_selected_option = 2;
    let lines = build_question_lines(&state, 80);
    assert_eq!(joined(&lines[6]), "  [>] │Type your answer...");
    state.ask_user_custom_input = "Invite only".to_string();
    let lines = build_question_lines(&state, 80);
    assert_eq!(joined(&lines[6]), "  [>] Invite only│");
    state.ask_user_selected_option = 0;
    state.ask_user_answers = vec![answer("Visibility", "Invite only", true)];
    let lines = build_question_lines(&state, 80);
    assert_eq!(joined(&lines[3]), "  [>] Public by default");
    assert_eq!(joined(&lines[6]), "  [✓] Invite only");
}

#[test]
fn question_text_wraps_to_content_width() {
    let mut state = sample_state();
    state.ask_user_questions[0].question = "alpha beta gamma delta".to_string();
    let lines = build_question_lines(&state, 14);
    assert_eq!(joined(&lines[1]), "  alpha beta");
    assert_eq!(joined(&lines[2]), "  gamma delta");
    assert_eq!(joined(&lines[3]), "");
}

#[test]
fn review_tab_summarises_answers() {
    let mut state = sample_state();
    state.ask_user_current_tab = 2;
    let lines = build_review_lines(&state, 40);
    let shown: Vec<String> = lines.iter().map(joined).collect();
    assert_eq!(
        shown,
        vec![
            "",
            "  Visibility *",
            "    □ not answered",
            "",
            "  Payment",
            "    — skipped",
            "",
            "  Answer all required (*) questions to submit",
        ]
    );
    state.ask_user_answers.push(answer("Visibility", "approval", false));
    state.ask_user_answers.push(answer("Payment", "A custom answer that is far too long to fit", true));
    let lines = build_review_lines(&state, 20);
    assert_eq!(lines.len(), 7);
    assert_eq!(joined(&lines[2]), "    Require approval");
    assert_eq!(joined(&lines[5]), "    A custom answer…");
    let content = build_popup_content(&state, 20);
    assert_eq!(content.len(), 7);
}

#[test]
fn help_line_depends_on_tab_and_answers() {
    let mut state = sample_state();
    assert_eq!(
        joined(&build_help_line(&state)),
        "  Enter select · ↑/↓ options · ←/→ questions · 1-9 quick select · Esc cancel"
    );
    state.ask_user_selected_option = 2;
    assert_eq!(
        joined(&build_help_line(&state)),
        "  Type your answer · Enter confirm · ↑/↓ options · Esc cancel"
    );
    state.ask_user_current_tab = 2;
    assert_eq!(joined(&build_help_line(&state)), "  ←/→ questions · Esc cancel");
    state.ask_user_answers.push(answer("Visibility", "public", false));
    assert_eq!(
        joined(&build_help_line(&state)),
        "  Enter submit · ←/→ questions · Esc cancel"
    );
}

#[test]
fn popup_sits_at_the_bottom_with_side_margins() {
    assert_eq!(
        ask_user_popup_area(0, 100, 40, 12),
        PopupArea { x: 1, y: 28, width: 98, height: 12 }
    );
    assert_eq!(
        ask_user_popup_area(0, 1, 5, 12),
        PopupArea { x: 1, y: 0, width: 0, height: 12 }
    );
}

#[test]
fn height_is_content_plus_chrome() {
    let mut state = sample_state();
    let width = 200u16;
    let content = build_popup_content(&state, width - 4);
    assert_eq!(calculate_ask_user_height(&state, width) as usize, content.len() + 5);
    state.ask_user_current_tab = 2;
    state.ask_user_questions.extend((0..3).map(|i| question(&format!("Q{}", i), "?", vec![], false, false)));
    state.ask_user_current_tab = 5;
    let content = build_popup_content(&state, width - 4);
    // a required question is unanswered: the warning line replaces the padding
    assert_eq!(calculate_ask_user_height(&state, width) as usize, content.len() + 4);
    state.ask_user_answers.push(answer("Visibility", "public", false));
    let content = build_popup_content(&state, width - 4);
    assert_eq!(calculate_ask_user_height(&state, width) as usize, content.len() + 5);
}

#[test]
fn answers_are_read_by_label_whatever_their_order() {
    let mut state = sample_state();
    state.ask_user_current_tab = 2;
    state.ask_user_answers = vec![answer("Visibility", "approval", false), answer("Payment", "stripe", false)];
    let forward: Vec<String> = build_review_lines(&state, 60).iter().map(joined).collect();
    state.ask_user_answers.reverse();
    let backward: Vec<String> = build_review_lines(&state, 60).iter().map(joined).collect();
    assert_eq!(forward, backward);
    assert_eq!(forward[2], "    Require approval");
}
