use tuigreet::editor::{char_count, delete_index, insert_char, remove_char};
use tuigreet::greeter::{Greeter, Key, Mode, Outcome, Request};
use tuigreet::keyboard::{delete_key, finish_power_action, handle, insert_key, session_index};
use tuigreet::power::{
    power_call, power_failure_message, power_option, PowerCall, PowerControl, PowerError,
    PowerOption,
};

struct Recorder {
    calls: Vec<PowerCall>,
    failure: Option<String>,
}

impl PowerControl for Recorder {
    fn perform(&mut self, call: PowerCall) -> Result<(), PowerError> {
        self.calls.push(call);
        match &self.failure {
            Some(d) => Err(PowerError { description: d.clone() }),
            None => Ok(()),
        }
    }
}

fn recorder() -> Recorder {
    Recorder { calls: Vec::new(), failure: None }
}

fn sessions() -> Vec<(String, String)> {
    vec![("a".to_string(), "cmdA".to_string()), ("b".to_string(), "cmdB".to_string())]
}

fn greeter() -> Greeter {
    Greeter::new(sessions())
}

fn press(g: &mut Greeter, keys: &[Key]) -> Outcome {
    let mut p = recorder();
    let mut last = Outcome::Continue;
    for k in keys {
        last = handle(g, *k, &mut p);
    }
    last
}

fn type_text(g: &mut Greeter, text: &str) {
    for c in text.chars() {
        press(g, &[Key::Char(c)]);
    }
}

#[test]
fn typing_builds_username() {
    let mut g = greeter();
    type_text(&mut g, "alice");
    assert_eq!(g.username, "alice");
    assert_eq!(g.cursor_offset, 0);
}

#[test]
fn insert_in_middle_counts_characters() {
    let mut g = greeter();
    type_text(&mut g, "héllo");
    press(&mut g, &[Key::Left, Key::Left]);
    type_text(&mut g, "ß");
    assert_eq!(g.username, "hélßlo");
    assert_eq!(g.cursor_offset, -2);
}

#[test]
fn insert_then_forward_delete_restores_buffer() {
    let mut g = greeter();
    type_text(&mut g, "abc");
    press(&mut g, &[Key::Left]);
    let before = g.cursor_offset;
    insert_key(&mut g, 'c');
    assert_eq!(g.username, "abcc");
    delete_key(&mut g, Key::Delete);
    assert_eq!(g.username, "abc");
    assert_eq!(g.cursor_offset, before + 1);
}

#[test]
fn insert_then_backspace_restores_buffer() {
    let mut g = greeter();
    type_text(&mut g, "abc");
    press(&mut g, &[Key::Left, Key::Left]);
    press(&mut g, &[Key::Char('x'), Key::Backspace]);
    assert_eq!(g.username, "abc");
    assert_eq!(g.cursor_offset, -2);
}

#[test]
fn move_to_start_and_end() {
    let mut g = greeter();
    type_text(&mut g, "añb");
    press(&mut g, &[Key::Ctrl('a')]);
    assert_eq!(g.cursor_offset, -3);
    type_text(&mut g, "z");
    assert_eq!(g.username, "zañb");
    press(&mut g, &[Key::Ctrl('e')]);
    assert_eq!(g.cursor_offset, 0);
}

#[test]
fn move_to_start_uses_command_buffer() {
    let mut g = greeter();
    type_text(&mut g, "al");
    press(&mut g, &[Key::F(2)]);
    type_text(&mut g, "sway");
    press(&mut g, &[Key::Ctrl('a')]);
    assert_eq!(g.cursor_offset, -4);
}

#[test]
fn overlay_remembers_base_mode() {
    let mut g = greeter();
    g.mode = Mode::Password;
    press(&mut g, &[Key::F(3)]);
    assert_eq!(g.mode, Mode::Sessions);
    assert_eq!(g.previous_mode, Mode::Password);
    press(&mut g, &[Key::F(12)]);
    assert_eq!(g.mode, Mode::Power);
    assert_eq!(g.previous_mode, Mode::Password);
    assert_eq!(press(&mut g, &[Key::Esc]), Outcome::Continue);
    assert_eq!(g.mode, Mode::Password);
}

#[test]
fn escape_in_base_mode_cancels() {
    let mut g = greeter();
    type_text(&mut g, "bob");
    assert_eq!(press(&mut g, &[Key::Esc]), Outcome::Cancel);
    assert_eq!(g.mode, Mode::Username);
    assert_eq!(g.username, "bob");
}

#[test]
fn committed_command_selects_matching_session() {
    let mut g = greeter();
    press(&mut g, &[Key::F(2), Key::Ctrl('u')]);
    type_text(&mut g, "cmdB");
    press(&mut g, &[Key::Char('\n')]);
    assert_eq!(g.selected_session, 1);
    assert_eq!(g.command.as_deref(), Some("cmdB"));
    assert_eq!(g.mode, Mode::Username);
}

#[test]
fn unmatched_command_selects_first_session() {
    let mut g = greeter();
    g.selected_session = 1;
    press(&mut g, &[Key::F(2)]);
    type_text(&mut g, "startx");
    press(&mut g, &[Key::Char('\t')]);
    assert_eq!(g.selected_session, 0);
    assert_eq!(g.command.as_deref(), Some("startx"));
}

#[test]
fn command_overlay_starts_from_committed_command() {
    let mut g = greeter();
    g.command = Some("cmdA".to_string());
    g.new_command = "stale".to_string();
    press(&mut g, &[Key::F(2)]);
    assert_eq!(g.new_command, "cmdA");
}

#[test]
fn session_index_finds_first_match() {
    let s = vec![
        ("x".to_string(), "one".to_string()),
        ("y".to_string(), "two".to_string()),
        ("z".to_string(), "two".to_string()),
    ];
    assert_eq!(session_index(&s, &"two".to_string()), 1);
    assert_eq!(session_index(&s, &"three".to_string()), 0);
}

#[test]
fn session_selection_stops_at_ends() {
    let mut g = greeter();
    press(&mut g, &[Key::F(3), Key::Up]);
    assert_eq!(g.selected_session, 0);
    press(&mut g, &[Key::Down]);
    assert_eq!(g.selected_session, 1);
    press(&mut g, &[Key::Down]);
    assert_eq!(g.selected_session, 1);
    press(&mut g, &[Key::Char('\n')]);
    assert_eq!(g.command.as_deref(), Some("cmdB"));
    assert_eq!(g.mode, Mode::Username);
}

#[test]
fn power_selection_stops_at_ends() {
    let mut g = greeter();
    press(&mut g, &[Key::F(12), Key::Up]);
    assert_eq!(g.selected_power_option, 0);
    press(&mut g, &[Key::Down, Key::Down]);
    assert_eq!(g.selected_power_option, 1);
}

#[test]
fn selection_keys_ignored_in_base_mode() {
    let mut g = greeter();
    press(&mut g, &[Key::Down]);
    assert_eq!(g.selected_session, 0);
    assert_eq!(g.selected_power_option, 0);
}

#[test]
fn delete_on_empty_buffer_is_noop() {
    let mut g = greeter();
    for offset in [-3i64, -1, 0, 2] {
        g.cursor_offset = offset;
        press(&mut g, &[Key::Backspace, Key::Delete]);
        assert_eq!(g.username, "");
        assert_eq!(g.cursor_offset, offset);
    }
}

#[test]
fn backspace_and_delete_remove_around_cursor() {
    let mut g = greeter();
    type_text(&mut g, "abcd");
    press(&mut g, &[Key::Left, Key::Left, Key::Backspace]);
    assert_eq!(g.username, "acd");
    assert_eq!(g.cursor_offset, -2);
    press(&mut g, &[Key::Delete]);
    assert_eq!(g.username, "ad");
    assert_eq!(g.cursor_offset, -1);
}

#[test]
fn cursor_moves_without_clamping() {
    let mut g = greeter();
    type_text(&mut g, "ab");
    press(&mut g, &[Key::Left, Key::Left, Key::Left, Key::Left]);
    assert_eq!(g.cursor_offset, -4);
    type_text(&mut g, "c");
    assert_eq!(g.username, "abc");
    press(&mut g, &[Key::Ctrl('e'), Key::Right, Key::Right]);
    assert_eq!(g.cursor_offset, 2);
    type_text(&mut g, "d");
    assert_eq!(g.username, "abcd");
}

#[test]
fn clear_keeps_offset() {
    let mut g = greeter();
    type_text(&mut g, "abc");
    press(&mut g, &[Key::Left, Key::Ctrl('u')]);
    assert_eq!(g.username, "");
    assert_eq!(g.cursor_offset, -1);
}

#[test]
fn submit_username_creates_session() {
    let mut g = greeter();
    g.answer = "old".to_string();
    g.message = Some("hello".to_string());
    type_text(&mut g, "carol");
    press(&mut g, &[Key::Char('\n')]);
    assert!(g.working);
    assert!(g.message.is_none());
    assert!(matches!(&g.request, Some(Request::CreateSession { username }) if username == "carol"));
    assert_eq!(g.answer, "");
}

#[test]
fn submit_password_posts_answer() {
    let mut g = greeter();
    g.mode = Mode::Password;
    type_text(&mut g, "s3cret");
    press(&mut g, &[Key::Char('\t')]);
    assert!(g.working);
    assert!(matches!(
        &g.request,
        Some(Request::PostAuthMessageResponse { response: Some(r) }) if r == "s3cret"
    ));
    assert_eq!(g.answer, "");
}

#[test]
fn power_action_failure_sets_message() {
    let mut g = greeter();
    g.mode = Mode::Password;
    let mut p = Recorder { calls: Vec::new(), failure: Some("EPERM: Operation not permitted".to_string()) };
    handle(&mut g, Key::F(12), &mut p);
    let outcome = handle(&mut g, Key::Char('\n'), &mut p);
    assert_eq!(outcome, Outcome::Continue);
    assert_eq!(p.calls, vec![PowerCall::Restart]);
    assert_eq!(
        g.message.as_deref(),
        Some("Failed to perform power action: EPERM: Operation not permitted")
    );
    assert_eq!(g.mode, Mode::Password);
}

#[test]
fn power_action_success_returns_to_base_mode() {
    let mut g = greeter();
    let mut p = recorder();
    handle(&mut g, Key::F(12), &mut p);
    handle(&mut g, Key::Down, &mut p);
    handle(&mut g, Key::Char('\n'), &mut p);
    assert_eq!(p.calls, vec![PowerCall::PowerOff]);
    assert!(g.message.is_none());
    assert_eq!(g.mode, Mode::Username);
}

#[test]
fn finish_power_action_reports_error() {
    let mut g = greeter();
    g.mode = Mode::Power;
    g.previous_mode = Mode::Password;
    finish_power_action(&mut g, Err(PowerError { description: String::new() }));
    assert_eq!(g.message.as_deref(), Some("Failed to perform power action: "));
    assert_eq!(g.mode, Mode::Password);
}

#[test]
fn power_options_map_to_calls() {
    assert_eq!(power_option(0), PowerOption::Shutdown);
    assert_eq!(power_option(1), PowerOption::Reboot);
    assert_eq!(power_call(PowerOption::Shutdown), PowerCall::Restart);
    assert_eq!(power_call(PowerOption::Reboot), PowerCall::PowerOff);
    let m = power_failure_message(&PowerError { description: "x".to_string() });
    assert_eq!(m, "Failed to perform power action: x");
}

#[test]
fn editor_helpers_work_on_characters() {
    let s = "añc".to_string();
    assert_eq!(char_count(&s), 3);
    assert_eq!(insert_char(&s, -1, 'é'), "añéc");
    assert_eq!(insert_char(&s, -9, 'z'), "añcz");
    assert_eq!(remove_char(&s, 1), "ac");
    assert_eq!(delete_index(3, -1, false), Some(1));
    assert_eq!(delete_index(3, 0, true), None);
    assert_eq!(delete_index(0, 0, false), None);
}

#[test]
fn ignored_keys_change_nothing() {
    let mut g = greeter();
    type_text(&mut g, "ab");
    press(&mut g, &[Key::Other, Key::F(5), Key::Ctrl('x')]);
    assert_eq!(g.username, "ab");
    assert_eq!(g.mode, Mode::Username);
    assert_eq!(g.cursor_offset, 0);
}
