use zero::keys::{map_key, Command, KeyCode, KeyEvent, KeyModifiers};
use zero::tui::{AppState, FocusArea, RuntimeEvent, UiRole};

fn app() -> AppState {
    AppState::new_with_context("p".to_string(), "m".to_string())
}

#[test]
fn session_creation_and_switching_works() {
    let mut app = app();
    assert_eq!(app.sessions.len(), 1);

    app.add_session();
    assert_eq!(app.sessions.len(), 2);
    assert_eq!(app.active_session, 1);

    app.prev_session();
    assert_eq!(app.active_session, 0);

    app.next_session();
    assert_eq!(app.active_session, 1);
}

#[test]
fn focus_cycles() {
    let mut app = app();
    assert_eq!(app.focus, FocusArea::Input);
    app.cycle_focus();
    assert_eq!(app.focus, FocusArea::Sessions);
    app.cycle_focus();
    assert_eq!(app.focus, FocusArea::Messages);
    app.cycle_focus();
    assert_eq!(app.focus, FocusArea::Input);
}

#[test]
fn scroll_saturates_at_zero() {
    let mut app = app();
    app.scroll_up();
    assert_eq!(app.active_session().scroll, 0);
    assert!(!app.active_session().auto_follow);
    app.scroll_down();
    assert_eq!(app.active_session().scroll, 1);
    app.page_down();
    assert_eq!(app.active_session().scroll, 11);
    app.page_up();
    assert_eq!(app.active_session().scroll, 1);
    app.follow_bottom();
    assert!(app.active_session().auto_follow);
}

#[test]
fn runtime_event_applies_streaming_and_finalize() {
    let mut app = app();
    app.start_submit("hi".to_string());
    app.apply_runtime_event(RuntimeEvent::TokenDelta { session_id: 0, text: "hel".to_string() });
    app.apply_runtime_event(RuntimeEvent::TokenDelta { session_id: 0, text: "lo".to_string() });
    assert_eq!(app.active_session().streaming, "hello");

    app.apply_runtime_event(RuntimeEvent::Done { session_id: 0 });
    let session = app.active_session();
    assert!(!session.busy);
    assert!(session.streaming.is_empty());
    assert_eq!(session.messages.last().map(|m| m.content.as_str()), Some("hello"));
}

#[test]
fn runtime_event_targets_correct_session() {
    let mut app = app();
    app.add_session();
    app.active_session = 0;
    app.start_submit("a".to_string());
    app.active_session = 1;
    app.start_submit("b".to_string());

    app.apply_runtime_event(RuntimeEvent::TokenDelta { session_id: 0, text: "s0".to_string() });
    app.apply_runtime_event(RuntimeEvent::Done { session_id: 0 });
    app.apply_runtime_event(RuntimeEvent::TokenDelta { session_id: 1, text: "s1".to_string() });
    app.apply_runtime_event(RuntimeEvent::Done { session_id: 1 });

    assert_eq!(app.sessions[0].messages.last().map(|m| m.content.as_str()), Some("s0"));
    assert_eq!(app.sessions[1].messages.last().map(|m| m.content.as_str()), Some("s1"));
}

#[test]
fn submit_enables_auto_follow() {
    let mut app = app();
    app.scroll_down();
    assert!(!app.active_session().auto_follow);
    app.start_submit("hi".to_string());
    assert!(app.active_session().auto_follow);
}

#[test]
fn key_translation() {
    let none = KeyModifiers::none();
    assert_eq!(map_key(KeyEvent::new(KeyCode::Char('q'), none)), Command::Quit);
    assert_eq!(map_key(KeyEvent::new(KeyCode::Tab, none)), Command::CycleFocus);
    assert_eq!(map_key(KeyEvent::new(KeyCode::Left, none)), Command::PrevSession);
    assert_eq!(map_key(KeyEvent::new(KeyCode::Right, none)), Command::NextSession);
    assert_eq!(map_key(KeyEvent::new(KeyCode::Down, none)), Command::ScrollDown);
    assert_eq!(map_key(KeyEvent::new(KeyCode::Up, none)), Command::ScrollUp);
    assert_eq!(map_key(KeyEvent::new(KeyCode::PageUp, none)), Command::PageUp);
    assert_eq!(map_key(KeyEvent::new(KeyCode::PageDown, none)), Command::PageDown);
    assert_eq!(map_key(KeyEvent::new(KeyCode::End, none)), Command::FollowBottom);
    assert_eq!(map_key(KeyEvent::new(KeyCode::Enter, none)), Command::Submit);
    assert_eq!(map_key(KeyEvent::new(KeyCode::Enter, KeyModifiers::shift())), Command::Newline);
    assert_eq!(map_key(KeyEvent::new(KeyCode::Char('c'), KeyModifiers::control())), Command::Quit);
}

#[test]
fn other_keys_type_or_do_nothing() {
    let none = KeyModifiers::none();
    assert_eq!(map_key(KeyEvent::new(KeyCode::Char('x'), none)), Command::InputChar('x'));
    assert_eq!(map_key(KeyEvent::new(KeyCode::Char('c'), none)), Command::InputChar('c'));
    assert_eq!(map_key(KeyEvent::new(KeyCode::Char('?'), none)), Command::ToggleHelp);
    assert_eq!(map_key(KeyEvent::new(KeyCode::Char('n'), none)), Command::NewSession);
    assert_eq!(map_key(KeyEvent::new(KeyCode::Char('h'), none)), Command::PrevSession);
    assert_eq!(map_key(KeyEvent::new(KeyCode::Char('k'), none)), Command::ScrollUp);
    assert_eq!(map_key(KeyEvent::new(KeyCode::Backspace, none)), Command::Backspace);
    assert_eq!(map_key(KeyEvent::new(KeyCode::Other, none)), Command::Noop);
}

#[test]
fn new_sessions_are_numbered() {
    let mut app = app();
    app.add_session();
    app.add_session();
    assert_eq!(app.sessions[0].title, "Session 1");
    assert_eq!(app.sessions[1].title, "Session 2");
    assert_eq!(app.sessions[2].title, "Session 3");
    assert_eq!(app.active_session, 2);
    app.next_session();
    assert_eq!(app.active_session, 2);
}

#[test]
fn events_for_missing_sessions_are_ignored() {
    let mut app = app();
    app.apply_runtime_event(RuntimeEvent::TokenDelta { session_id: 7, text: "x".to_string() });
    assert!(app.active_session().streaming.is_empty());
    assert_eq!(app.status, "ready");
}

#[test]
fn tool_and_error_events_leave_notes() {
    let mut app = app();
    app.start_submit("go".to_string());
    assert_eq!(app.status, "thinking...");
    app.apply_runtime_event(RuntimeEvent::ToolEvent { session_id: 0, name: "bash".to_string() });
    app.apply_runtime_event(RuntimeEvent::TokenDelta { session_id: 0, text: "part".to_string() });
    app.apply_runtime_event(RuntimeEvent::Error { session_id: 0, message: "boom".to_string() });
    let s = app.active_session();
    let texts: Vec<(UiRole, &str)> = s.messages.iter().map(|m| (m.role, m.content.as_str())).collect();
    assert_eq!(
        texts,
        vec![
            (UiRole::User, "go"),
            (UiRole::System, "[tool] bash"),
            (UiRole::Assistant, "part [interrupted]"),
            (UiRole::System, "error: boom"),
        ]
    );
    assert!(!s.busy);
    assert_eq!(app.status, "error");
}

#[test]
fn commands_edit_and_submit_input() {
    let mut app = app();
    assert_eq!(app.apply_command(Command::InputChar(' ')), None);
    assert_eq!(app.apply_command(Command::InputChar('h')), None);
    assert_eq!(app.apply_command(Command::InputChar('i')), None);
    assert_eq!(app.apply_command(Command::InputChar('x')), None);
    assert_eq!(app.apply_command(Command::Backspace), None);
    assert_eq!(app.apply_command(Command::Newline), None);
    assert_eq!(app.active_session().input, " hi\n");
    assert_eq!(app.apply_command(Command::Submit), Some((0, "hi".to_string())));
    assert!(app.active_session().busy);
    assert!(app.active_session().input.is_empty());
    // a busy session sends nothing
    app.apply_command(Command::InputChar('y'));
    assert_eq!(app.apply_command(Command::Submit), None);
}

#[test]
fn blank_input_is_not_submitted() {
    let mut app = app();
    app.apply_command(Command::InputChar(' '));
    assert_eq!(app.apply_command(Command::Submit), None);
    assert!(!app.active_session().busy);
    assert_eq!(app.active_session().input, " ");
}

#[test]
fn commands_switch_views() {
    let mut app = app();
    app.apply_command(Command::ToggleHelp);
    assert!(app.show_help);
    app.apply_command(Command::ToggleHelp);
    assert!(!app.show_help);
    app.apply_command(Command::NewSession);
    assert_eq!(app.sessions.len(), 2);
    app.apply_command(Command::PrevSession);
    assert_eq!(app.active_session, 0);
    app.apply_command(Command::PageDown);
    assert_eq!(app.active_session().scroll, 10);
    app.apply_command(Command::Quit);
    assert!(app.should_quit);
}

#[test]
fn screen_texts() {
    let mut app = app();
    assert_eq!(app.status_line(), "ready | provider=p model=m | session=1/1 | idle follow");
    app.add_session();
    assert_eq!(app.session_items(), vec!["  Session 1".to_string(), "> Session 2".to_string()]);
    app.start_submit("hi".to_string());
    app.apply_runtime_event(RuntimeEvent::TokenDelta { session_id: 1, text: "yo".to_string() });
    assert_eq!(app.status_line(), "thinking... | provider=p model=m | session=2/2 | busy follow");
    assert_eq!(
        app.chat_lines(),
        vec![
            ("[You] ".to_string(), "hi".to_string()),
            ("[AI*] ".to_string(), "yo".to_string()),
        ]
    );
    app.scroll_up();
    assert!(app.status_line().ends_with("busy manual"));
    assert!(zero::tui::help_text().starts_with("Enter send | Shift+Enter newline"));
}

#[test]
fn a_second_submit_waits_for_done() {
    let mut app = app();
    app.apply_command(Command::InputChar('a'));
    assert_eq!(app.apply_command(Command::Submit), Some((0, "a".to_string())));
    app.apply_command(Command::InputChar('b'));
    assert_eq!(app.apply_command(Command::Submit), None);
    app.apply_runtime_event(RuntimeEvent::Done { session_id: 0 });
    assert!(!app.active_session().busy);
    assert_eq!(app.apply_command(Command::Submit), Some((0, "b".to_string())));
}
