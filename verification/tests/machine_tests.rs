use tmm::app::{Action, App, AppState, ExitAction};
use tmm::buffer::TextBuffer;
use tmm::handler::{handle_key_events, KeyEvent};
use tmm::hotkeys::hotkeys;

fn lines(v: &[&str]) -> Vec<String> {
    v.iter().map(|s| s.to_string()).collect()
}

fn app_with(rows: &[&str]) -> App {
    let mut app = App::new(false);
    app.refresh(&lines(rows));
    app
}

fn type_text(app: &mut App, text: &str) {
    for c in text.chars() {
        assert!(handle_key_events(KeyEvent::Char(c), app).is_none());
    }
}

#[test]
fn initial_refresh_populates_the_registry() {
    let app = app_with(&["work: 1 windows", "play: 2 windows"]);
    assert_eq!(app.registry.len(), 2);
    assert_eq!(app.registry.selected, 0);
    assert!(app.running);
    assert!(matches!(app.state, AppState::Sessions));
}

#[test]
fn empty_snapshot_is_no_change() {
    let mut app = app_with(&["work: 1 windows"]);
    app.refresh(&lines(&[]));
    assert_eq!(app.registry.len(), 1);
    assert_eq!(app.registry.current().unwrap().name, "work");
}

#[test]
fn quit_key_stops_the_loop_with_no_outcome() {
    let mut app = app_with(&["work: 1"]);
    assert!(handle_key_events(KeyEvent::Char('q'), &mut app).is_none());
    assert!(!app.running);
    assert_eq!(app.on_exit, ExitAction::Nothing);
}

#[test]
fn control_c_quits_in_every_non_entry_mode() {
    let mut app = app_with(&["work: 1"]);
    handle_key_events(KeyEvent::Char('x'), &mut app);
    assert!(matches!(app.state, AppState::Deleting));
    handle_key_events(KeyEvent::Ctrl('c'), &mut app);
    assert!(!app.running);
}

#[test]
fn navigation_clamps_in_browsing() {
    let mut app = app_with(&["a: 1", "b: 2", "c: 3"]);
    handle_key_events(KeyEvent::Up, &mut app);
    assert_eq!(app.registry.selected, 0);
    handle_key_events(KeyEvent::Char('j'), &mut app);
    assert_eq!(app.registry.selected, 1);
    handle_key_events(KeyEvent::Char('G'), &mut app);
    assert_eq!(app.registry.selected, 2);
    handle_key_events(KeyEvent::Down, &mut app);
    assert_eq!(app.registry.selected, 2);
    handle_key_events(KeyEvent::Char('g'), &mut app);
    assert_eq!(app.registry.selected, 0);
}

#[test]
fn attach_emits_the_attach_outcome() {
    let mut app = app_with(&["work: 1", "play: 2"]);
    handle_key_events(KeyEvent::Char('j'), &mut app);
    handle_key_events(KeyEvent::Enter, &mut app);
    assert!(!app.running);
    assert_eq!(app.on_exit, ExitAction::AttachSession("play".to_string(), true));
}

#[test]
fn attach_when_nested_emits_the_switch_outcome() {
    let mut app = App::new(true);
    app.refresh(&lines(&["work: 1"]));
    handle_key_events(KeyEvent::Char('a'), &mut app);
    assert!(!app.running);
    assert_eq!(app.on_exit, ExitAction::SwitchSession("work".to_string()));
}

#[test]
fn attach_on_an_empty_registry_is_a_no_op() {
    let mut app = App::new(false);
    handle_key_events(KeyEvent::Enter, &mut app);
    assert!(app.running);
    assert_eq!(app.on_exit, ExitAction::Nothing);
}

#[test]
fn delete_scenario_runs_kill_and_reselects() {
    // Registry = [("work","1 windows"), ("play","2 windows")], selected = 0.
    let mut app = app_with(&["work: 1 windows", "play: 2 windows"]);
    assert_eq!(app.registry.selected, 0);
    assert!(handle_key_events(KeyEvent::Char('x'), &mut app).is_none());
    assert!(matches!(app.state, AppState::Deleting));
    let act = handle_key_events(KeyEvent::Char('y'), &mut app);
    assert_eq!(act, Some(Action::KillSession("work".to_string())));
    assert!(matches!(app.state, AppState::Sessions));
    // the store reports the remaining session; reconcile
    app.refresh(&lines(&["play: 2 windows"]));
    assert_eq!(app.registry.len(), 1);
    assert_eq!(app.registry.selected, 0);
    assert_eq!(app.registry.current().unwrap().name, "play");
}

#[test]
fn delete_request_on_empty_registry_is_a_no_op() {
    let mut app = App::new(false);
    handle_key_events(KeyEvent::Char('x'), &mut app);
    assert!(matches!(app.state, AppState::Sessions));
}

#[test]
fn delete_can_be_cancelled() {
    let mut app = app_with(&["work: 1"]);
    handle_key_events(KeyEvent::Char('x'), &mut app);
    assert!(handle_key_events(KeyEvent::Char('n'), &mut app).is_none());
    assert!(matches!(app.state, AppState::Sessions));
    assert_eq!(app.registry.len(), 1);
}

#[test]
fn rename_commit_emits_the_rename_command() {
    let mut app = app_with(&["work: 1"]);
    handle_key_events(KeyEvent::Char('r'), &mut app);
    assert!(matches!(app.state, AppState::Renaming));
    assert!(app.rename_session_ta.is_some());
    type_text(&mut app, "jobs");
    let act = handle_key_events(KeyEvent::Enter, &mut app);
    assert_eq!(
        act,
        Some(Action::RenameSession("work".to_string(), "jobs".to_string()))
    );
    assert!(matches!(app.state, AppState::Sessions));
    assert!(app.rename_session_ta.is_none());
    // the store reports the renamed session; the old index is kept
    app.refresh(&lines(&["jobs: 1"]));
    assert_eq!(app.registry.current().unwrap().name, "jobs");
}

#[test]
fn rename_commit_with_empty_line_does_nothing() {
    let mut app = app_with(&["work: 1"]);
    handle_key_events(KeyEvent::Char('r'), &mut app);
    let act = handle_key_events(KeyEvent::Enter, &mut app);
    assert!(act.is_none());
    assert!(matches!(app.state, AppState::Renaming));
}

#[test]
fn rename_cancel_releases_the_buffer_and_discards_the_text() {
    let mut app = app_with(&["work: 1"]);
    handle_key_events(KeyEvent::Char('r'), &mut app);
    type_text(&mut app, "half");
    handle_key_events(KeyEvent::Esc, &mut app);
    assert!(matches!(app.state, AppState::Sessions));
    assert!(app.rename_session_ta.is_none());
    // reopening starts from an empty line
    handle_key_events(KeyEvent::Char('r'), &mut app);
    assert!(app.rename_session_ta.as_ref().unwrap().is_empty());
}

#[test]
fn quit_keys_are_literal_text_while_renaming() {
    let mut app = app_with(&["work: 1"]);
    handle_key_events(KeyEvent::Char('r'), &mut app);
    handle_key_events(KeyEvent::Char('q'), &mut app);
    assert!(app.running);
    assert_eq!(app.rename_session_ta.as_ref().unwrap().text(), "q");
}

#[test]
fn create_scenario_with_normalized_name_selects_the_new_session() {
    // create("8.1"); the store normalizes the identifier to "8_1"
    let mut app = app_with(&["work: 1 windows"]);
    handle_key_events(KeyEvent::Char('n'), &mut app);
    assert!(matches!(app.state, AppState::NewSession));
    type_text(&mut app, "8.1");
    let act = handle_key_events(KeyEvent::Enter, &mut app);
    assert_eq!(act, Some(Action::CreateSession("8.1".to_string())));
    assert!(matches!(app.state, AppState::Sessions));
    app.refresh_with_discovery(&lines(&["work: 1 windows", "8_1: 1 windows"]));
    assert_eq!(app.registry.selected, 1);
    assert_eq!(app.registry.current().unwrap().name, "8_1");
}

#[test]
fn create_commit_with_empty_line_exits_to_create_and_enter() {
    let mut app = app_with(&["work: 1"]);
    handle_key_events(KeyEvent::Char('n'), &mut app);
    let act = handle_key_events(KeyEvent::Enter, &mut app);
    assert!(act.is_none());
    assert!(!app.running);
    assert_eq!(app.on_exit, ExitAction::NewSession);
}

#[test]
fn create_request_warns_when_nested() {
    let mut app = App::new(true);
    app.refresh(&lines(&["work: 1"]));
    handle_key_events(KeyEvent::Char('n'), &mut app);
    assert!(matches!(app.state, AppState::WarnNested));
    assert!(app.new_session_ta.is_none());
    // any key dismisses the warning
    handle_key_events(KeyEvent::Char('z'), &mut app);
    assert!(matches!(app.state, AppState::Sessions));
    assert!(app.running);
}

#[test]
fn counter_saturates_at_both_ends() {
    let mut app = App::new(false);
    app.decrement_counter();
    assert_eq!(app.counter, 0);
    app.increment_counter();
    assert_eq!(app.counter, 1);
    app.counter = 255;
    app.increment_counter();
    assert_eq!(app.counter, 255);
}

#[test]
fn buffer_edits_insert_delete_and_move() {
    let mut b = TextBuffer::new();
    b.insert_char('a');
    b.insert_char('c');
    b.move_left();
    b.insert_char('b');
    assert_eq!(b.text(), "abc");
    b.move_right();
    b.backspace();
    assert_eq!(b.text(), "ab");
    b.move_left();
    b.move_left();
    b.backspace();
    assert_eq!(b.text(), "ab");
}

#[test]
fn hotkey_legend_is_complete_and_falls_back_for_the_create_prompt() {
    let browsing = hotkeys(&AppState::Sessions);
    assert_eq!(browsing[0], ("q".to_string(), "Quit".to_string()));
    assert_eq!(browsing.len(), 6);
    assert_eq!(hotkeys(&AppState::NewSession), browsing);
    assert_eq!(hotkeys(&AppState::Renaming).len(), 2);
    assert_eq!(hotkeys(&AppState::Deleting).len(), 4);
    assert_eq!(hotkeys(&AppState::WarnNested).len(), 2);
    assert_eq!(hotkeys(&AppState::SessionsSearch).len(), 4);
}

#[test]
fn max_session_name_width_reports_the_widest() {
    let app = app_with(&["ab: x", "abcd: y", "c: z"]);
    assert_eq!(app.max_session_name_width(), 4);
}
