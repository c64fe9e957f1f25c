use cp_checker::session::{CachedInputs, Session, OUTPUT};
use cp_checker::status::{PaneStyle, Tint};
use cp_checker::text::{decimal_string, join_lines, lines_match, same_normalized, split_lines};
use cp_checker::verdict::{finish_run, judge_output, prepare_run, RunOutcome, TIME_LIMIT_MS};
use cp_checker::keys::{command_of, is_movement, Command, KeyInput, Key};
use cp_checker::Status;

fn strings(v: &[&str]) -> Vec<String> {
    v.iter().map(|s| s.to_string()).collect()
}

fn chars(s: &str) -> Vec<char> {
    s.chars().collect()
}

fn key(k: Key) -> KeyInput {
    KeyInput { key: k, ctrl: false, alt: false, shift: false }
}

fn ctrl(c: char) -> KeyInput {
    KeyInput { key: Key::Char(c), ctrl: true, alt: false, shift: false }
}

#[test]
fn echo_matching_expected_passes() {
    let input = join_lines(&strings(&["1 2", "3"]));
    let v = judge_output(&input, &strings(&["1 2", "3"]), 12);
    assert_eq!(v.status, Status::Pass);
    assert_eq!(v.message, "AC | 12 ms");
    assert_eq!(v.output, Some(strings(&["1 2", "3"])));
}

#[test]
fn echo_differing_expected_fails() {
    let input = join_lines(&strings(&["1 2", "3"]));
    let v = judge_output(&input, &strings(&["1 2", "4"]), 7);
    assert_eq!(v.status, Status::Fail);
    assert_eq!(v.message, "WA | 7 ms");
}

#[test]
fn trailing_blank_line_compares_equal() {
    assert!(lines_match(&strings(&["5"]), &strings(&["5", ""])));
    assert!(lines_match(&strings(&["5", ""]), &strings(&["5"])));
    let v = judge_output("5\n", &strings(&["5", ""]), 0);
    assert_eq!(v.status, Status::Pass);
    assert_eq!(v.message, "AC | 0 ms");
}

#[test]
fn leading_zero_compares_unequal() {
    assert!(!lines_match(&strings(&["5"]), &strings(&["05"])));
    let v = judge_output("5\n", &strings(&["05"]), 3);
    assert_eq!(v.status, Status::Fail);
    assert_eq!(v.message, "WA | 3 ms");
}

#[test]
fn inner_blank_lines_and_trailing_spaces_count() {
    assert!(!lines_match(&strings(&["a", "", "b"]), &strings(&["a", "b"])));
    assert!(!lines_match(&strings(&["a ", "b"]), &strings(&["a", "b"])));
    assert!(lines_match(&strings(&["  a", "b \t"]), &strings(&["a", "b"])));
}

#[test]
fn unicode_whitespace_is_trimmed() {
    assert!(same_normalized(&chars("\u{3000} x\u{a0}\n\n"), &chars("x")));
    assert!(!same_normalized(&chars("x y"), &chars("xy")));
    assert!(same_normalized(&chars(""), &chars(" \n\t")));
}

#[test]
fn empty_input_is_an_error() {
    let v = prepare_run(&Vec::new()).unwrap_err();
    assert_eq!(v.status, Status::Error);
    assert_eq!(v.message, "ERR: Empty Input");
    assert!(v.output.is_none());
    assert!(prepare_run(&strings(&[""])).is_err());
    assert_eq!(prepare_run(&strings(&["", ""])).ok(), Some("\n".to_string()));
}

#[test]
fn empty_session_does_not_run() {
    let mut s = Session::new();
    let v = s.prepare().unwrap_err();
    let (status, message) = s.conclude(v);
    assert_eq!(status, Status::Error);
    assert_eq!(message, "ERR: Empty Input");
    assert_eq!(s.status, Status::Error);
    assert_eq!(s.output.area.lines(), [""]);
}

#[test]
fn input_text_joins_lines() {
    let mut s = Session::new();
    s.restore(&CachedInputs { input: strings(&["3", "1 2 3"]), expected: strings(&["6"]) });
    assert_eq!(s.prepare().ok(), Some("3\n1 2 3".to_string()));
}

#[test]
fn spawn_failure_names_the_path() {
    let v = finish_run(&RunOutcome::SpawnFailed, &strings(&["x"]), "/no/such/binary");
    assert_eq!(v.status, Status::Error);
    assert_eq!(v.message, "ERR: Failed to execute /no/such/binary");
    assert!(v.message.contains("/no/such/binary"));
    assert!(v.output.is_none());
}

#[test]
fn timeout_reports_limit_and_partial_output() {
    let out = RunOutcome::TimedOut { stdout: b"partial\nmore".to_vec() };
    let v = finish_run(&out, &strings(&["partial", "more"]), "./a.out");
    assert_eq!(v.status, Status::Error);
    assert_eq!(v.message, "ERR: Time Limit Exceeded (2000 ms)");
    assert_eq!(v.output, Some(strings(&["partial", "more"])));
    assert_eq!(TIME_LIMIT_MS, 2000);
}

#[test]
fn timeout_without_output() {
    let v = finish_run(&RunOutcome::TimedOut { stdout: Vec::new() }, &Vec::new(), "./a.out");
    assert_eq!(v.status, Status::Error);
    assert_eq!(v.output, Some(Vec::new()));
}

#[test]
fn completed_run_is_judged() {
    let out = RunOutcome::Completed { stdout: b"6\n".to_vec(), elapsed_ms: 41 };
    let v = finish_run(&out, &strings(&["6"]), "./a.out");
    assert_eq!(v.status, Status::Pass);
    assert_eq!(v.message, "AC | 41 ms");
    assert_eq!(v.output, Some(strings(&["6"])));
    let out = RunOutcome::Completed { stdout: b"7\n".to_vec(), elapsed_ms: 1999 };
    let v = finish_run(&out, &strings(&["6"]), "./a.out");
    assert_eq!(v.status, Status::Fail);
    assert_eq!(v.message, "WA | 1999 ms");
}

#[test]
fn invalid_bytes_are_replaced() {
    let out = RunOutcome::Completed { stdout: vec![0xff, b'a', b'\n'], elapsed_ms: 1 };
    let v = finish_run(&out, &strings(&["a"]), "./a.out");
    assert_eq!(v.output, Some(strings(&["\u{fffd}a"])));
    assert_eq!(v.status, Status::Fail);
}

#[test]
fn run_result_fills_output_pane() {
    let mut s = Session::new();
    s.restore(&CachedInputs { input: strings(&["1"]), expected: strings(&["1"]) });
    let out = RunOutcome::Completed { stdout: b"1\n2\n".to_vec(), elapsed_ms: 5 };
    let v = s.judge(&out, "./echo");
    let (status, message) = s.conclude(v);
    assert_eq!(status, Status::Fail);
    assert_eq!(message, "WA | 5 ms");
    assert_eq!(s.output.area.lines(), ["1", "2"]);
    assert_eq!(s.input.area.lines(), ["1"]);
    assert_eq!(s.expected.area.lines(), ["1"]);
    assert_eq!(s.status, Status::Fail);
}

#[test]
fn split_follows_line_endings() {
    assert_eq!(split_lines(&chars("a\r\nb\n")), strings(&["a", "b"]));
    assert_eq!(split_lines(&chars("a\n\nb")), strings(&["a", "", "b"]));
    assert_eq!(split_lines(&chars("a\n\n")), strings(&["a", ""]));
    assert_eq!(split_lines(&chars("a\rb\r")), strings(&["a\rb\r"]));
    assert_eq!(split_lines(&chars("")), Vec::<String>::new());
    assert_eq!(split_lines(&chars("\n")), strings(&[""]));
}

#[test]
fn join_uses_single_newlines() {
    assert_eq!(join_lines(&strings(&["a", "b", ""])), "a\nb\n");
    assert_eq!(join_lines(&Vec::new()), "");
    assert_eq!(join_lines(&strings(&["x"])), "x");
}

#[test]
fn decimal_notation() {
    assert_eq!(decimal_string(0), "0");
    assert_eq!(decimal_string(2000), "2000");
    assert_eq!(decimal_string(u64::MAX), "18446744073709551615");
}

#[test]
fn three_switches_return_focus() {
    let mut s = Session::new();
    s.restore(&CachedInputs { input: strings(&["in"]), expected: strings(&["ex"]) });
    assert_eq!(s.focus, 0);
    s.switch_focus();
    assert_eq!(s.focus, 1);
    s.switch_focus();
    assert_eq!(s.focus, OUTPUT);
    s.switch_focus();
    assert_eq!(s.focus, 0);
    assert_eq!(s.input.area.lines(), ["in"]);
    assert_eq!(s.expected.area.lines(), ["ex"]);
    assert_eq!(s.output.area.lines(), [""]);
}

#[test]
fn output_pane_takes_movement_only() {
    let mut s = Session::new();
    s.switch_focus();
    s.switch_focus();
    assert!(!s.accepts(&key(Key::Char('a'))));
    assert!(!s.accepts(&key(Key::Backspace)));
    assert!(!s.accepts(&key(Key::Enter)));
    assert!(s.accepts(&key(Key::Up)));
    assert!(s.accepts(&key(Key::MouseScrollDown)));
    s.switch_focus();
    assert!(s.accepts(&key(Key::Char('a'))));
}

#[test]
fn typing_in_output_pane_changes_nothing() {
    let mut s = Session::new();
    s.restore(&CachedInputs { input: strings(&["1"]), expected: strings(&["1"]) });
    let v = s.judge(&RunOutcome::Completed { stdout: b"1\n".to_vec(), elapsed_ms: 2 }, "./x");
    s.conclude(v);
    s.switch_focus();
    s.switch_focus();
    s.edit(&key(Key::Char('z')));
    s.edit(&key(Key::Enter));
    assert_eq!(s.output.area.lines(), ["1"]);
    assert_eq!(s.status, Status::Idle);
    s.switch_focus();
    s.edit(&key(Key::Char('z')));
    assert_eq!(s.input.area.lines(), ["z1"]);
    assert_eq!(s.expected.area.lines(), ["1"]);
}

#[test]
fn switch_after_run_shows_focus() {
    let mut s = Session::new();
    s.restore(&CachedInputs { input: strings(&["1"]), expected: strings(&["2"]) });
    let v = s.judge(&RunOutcome::Completed { stdout: b"1\n".to_vec(), elapsed_ms: 2 }, "./x");
    s.conclude(v);
    assert_eq!(s.pane_style(0), PaneStyle { border: Tint::Red, emphasis: false });
    s.switch_focus();
    assert_eq!(s.status, Status::Idle);
    assert_eq!(s.pane_style(1), PaneStyle { border: Tint::Plain, emphasis: true });
    assert_eq!(s.pane_style(0), PaneStyle { border: Tint::DarkGray, emphasis: false });
    assert_eq!(s.pane_style(2), PaneStyle { border: Tint::DarkGray, emphasis: false });
    s.switch_focus();
    s.switch_focus();
    assert_eq!(s.focus, 0);
    assert_eq!(s.pane_style(0), PaneStyle { border: Tint::Plain, emphasis: true });
    assert_eq!(s.output.area.lines(), ["1"]);
}

#[test]
fn movement_keys() {
    for k in [Key::Up, Key::Down, Key::Left, Key::Right, Key::Home, Key::End, Key::PageUp,
        Key::PageDown, Key::MouseScrollDown, Key::MouseScrollUp] {
        assert!(is_movement(&key(k)));
    }
    for k in [Key::Char('x'), Key::F(1), Key::Tab, Key::Delete, Key::Esc, Key::Paste, Key::Null] {
        assert!(!is_movement(&key(k)));
    }
}

#[test]
fn keybindings() {
    assert_eq!(command_of(&key(Key::Esc)), Command::Quit);
    assert_eq!(command_of(&ctrl('r')), Command::Run);
    assert_eq!(command_of(&ctrl('x')), Command::Switch);
    assert_eq!(command_of(&key(Key::Char('x'))), Command::Edit);
    assert_eq!(command_of(&ctrl('a')), Command::Edit);
}

#[test]
fn cache_round_trip() {
    let mut s = Session::new();
    s.restore(&CachedInputs { input: strings(&["a", "b"]), expected: strings(&["c"]) });
    let saved = s.snapshot();
    let mut fresh = Session::new();
    fresh.restore(&saved);
    let again = fresh.snapshot();
    assert_eq!(again.input, strings(&["a", "b"]));
    assert_eq!(again.expected, strings(&["c"]));
}

#[test]
fn empty_cache_leaves_one_empty_line() {
    let mut s = Session::new();
    s.restore(&CachedInputs { input: Vec::new(), expected: Vec::new() });
    assert_eq!(s.snapshot().input, strings(&[""]));
}

#[test]
fn pane_styles_follow_status_and_focus() {
    let mut s = Session::new();
    assert_eq!(s.pane_style(0), PaneStyle { border: Tint::Plain, emphasis: true });
    assert_eq!(s.pane_style(1), PaneStyle { border: Tint::DarkGray, emphasis: false });
    s.restore(&CachedInputs { input: strings(&["1"]), expected: strings(&["2"]) });
    let v = s.judge(&RunOutcome::SpawnFailed, "./x");
    s.conclude(v);
    for p in 0..3 {
        assert_eq!(s.pane_style(p), PaneStyle { border: Tint::Yellow, emphasis: false });
    }
    s.edit(&key(Key::Up));
    assert_eq!(s.status, Status::Idle);
    assert_eq!(s.pane_style(2), PaneStyle { border: Tint::DarkGray, emphasis: false });
}
