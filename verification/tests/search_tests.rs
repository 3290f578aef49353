use tmm::app::{App, AppState};
use tmm::handler::{handle_key_events, KeyEvent};

fn lines(v: &[&str]) -> Vec<String> {
    v.iter().map(|s| s.to_string()).collect()
}

fn app_with(rows: &[&str]) -> App {
    let mut app = App::new(false);
    app.refresh(&lines(rows));
    app
}

fn type_text(app: &mut App, text: &str) {
    for c in text.chars() {
        assert!(handle_key_events(KeyEvent::Char(c), app).is_none());
    }
}

#[test]
fn opening_the_filter_starts_with_an_empty_match_set() {
    let mut app = app_with(&["work: 1", "play: 2"]);
    handle_key_events(KeyEvent::Char('/'), &mut app);
    assert!(matches!(app.state, AppState::SessionsSearch));
    assert!(app.search_session_ta.is_some());
    assert!(app.matching_rows.is_empty());
    assert!(app.search_session_selected.is_none());
}

#[test]
fn filter_scenario_wo_matches_only_the_work_row() {
    // rows: ["work: ...", "play: ..."]; filter "wo" => match set {0}, pointed-at 0
    let mut app = app_with(&["work: 1 windows", "play: 2 windows"]);
    handle_key_events(KeyEvent::Char('/'), &mut app);
    type_text(&mut app, "wo");
    assert_eq!(app.matching_rows, vec![0]);
    assert_eq!(app.search_session_selected, Some(0));
}

#[test]
fn filtering_twice_with_the_same_text_changes_nothing() {
    let mut app = app_with(&["alpha: 1", "beta: 2", "gamma: 3"]);
    handle_key_events(KeyEvent::Char('/'), &mut app);
    type_text(&mut app, "a");
    let ms1 = app.matching_rows.clone();
    let p1 = app.search_session_selected;
    // an unchanged registry and an unchanged filter text: a second
    // recomputation must leave both the set and the pointer as they were
    app.update_search_matches();
    assert_eq!(app.matching_rows, ms1);
    assert_eq!(app.search_session_selected, p1);
}

#[test]
fn pointer_keeps_its_row_while_it_still_matches() {
    let mut app = app_with(&["alpha: 1", "beta: 2", "gamma: 3"]);
    handle_key_events(KeyEvent::Char('/'), &mut app);
    type_text(&mut app, "a");
    assert_eq!(app.matching_rows, vec![0, 1, 2]);
    handle_key_events(KeyEvent::Ctrl('n'), &mut app);
    assert_eq!(app.search_session_selected, Some(1));
    // narrowing to "am" keeps no match at row 1; the pointer falls back to
    // the first element of the new match set
    type_text(&mut app, "m");
    assert_eq!(app.matching_rows, vec![2]);
    assert_eq!(app.search_session_selected, Some(2));
    // widening again: row 2 still matches "a", pointer is kept
    handle_key_events(KeyEvent::Backspace, &mut app);
    assert_eq!(app.matching_rows, vec![0, 1, 2]);
    assert_eq!(app.search_session_selected, Some(2));
}

#[test]
fn pointer_vanishes_when_nothing_matches() {
    let mut app = app_with(&["work: 1"]);
    handle_key_events(KeyEvent::Char('/'), &mut app);
    type_text(&mut app, "zz");
    assert!(app.matching_rows.is_empty());
    assert!(app.search_session_selected.is_none());
}

#[test]
fn pointer_steps_through_matches_and_clamps() {
    let mut app = app_with(&["alpha: 1", "beta: 2", "gamma: 3"]);
    handle_key_events(KeyEvent::Char('/'), &mut app);
    type_text(&mut app, "a");
    assert_eq!(app.search_session_selected, Some(0));
    handle_key_events(KeyEvent::Ctrl('p'), &mut app);
    assert_eq!(app.search_session_selected, Some(0));
    handle_key_events(KeyEvent::Down, &mut app);
    handle_key_events(KeyEvent::Down, &mut app);
    assert_eq!(app.search_session_selected, Some(2));
    handle_key_events(KeyEvent::Ctrl('n'), &mut app);
    assert_eq!(app.search_session_selected, Some(2));
    handle_key_events(KeyEvent::Home, &mut app);
    assert_eq!(app.search_session_selected, Some(0));
    handle_key_events(KeyEvent::End, &mut app);
    assert_eq!(app.search_session_selected, Some(2));
}

#[test]
fn commit_adopts_the_pointed_at_match_as_selection() {
    let mut app = app_with(&["work: 1", "play: 2"]);
    handle_key_events(KeyEvent::Char('/'), &mut app);
    type_text(&mut app, "pl");
    assert_eq!(app.search_session_selected, Some(1));
    handle_key_events(KeyEvent::Enter, &mut app);
    assert!(matches!(app.state, AppState::Sessions));
    assert_eq!(app.registry.selected, 1);
    assert!(app.search_session_ta.is_none());
    assert!(app.matching_rows.is_empty());
}

#[test]
fn commit_without_a_match_keeps_the_selection() {
    let mut app = app_with(&["work: 1", "play: 2"]);
    handle_key_events(KeyEvent::Char('/'), &mut app);
    type_text(&mut app, "zz");
    handle_key_events(KeyEvent::Enter, &mut app);
    assert!(matches!(app.state, AppState::Sessions));
    assert_eq!(app.registry.selected, 0);
}

#[test]
fn escape_discards_the_pointed_at_match() {
    let mut app = app_with(&["work: 1", "play: 2"]);
    handle_key_events(KeyEvent::Char('/'), &mut app);
    type_text(&mut app, "pl");
    handle_key_events(KeyEvent::Esc, &mut app);
    assert!(matches!(app.state, AppState::Sessions));
    assert_eq!(app.registry.selected, 0);
    assert!(app.search_session_ta.is_none());
    assert!(app.search_session_selected.is_none());
}

#[test]
fn quit_keys_are_literal_text_while_filtering() {
    let mut app = app_with(&["quick: 1", "play: 2"]);
    handle_key_events(KeyEvent::Char('/'), &mut app);
    handle_key_events(KeyEvent::Char('q'), &mut app);
    assert!(app.running);
    assert_eq!(app.matching_rows, vec![0]);
}

#[test]
fn refresh_while_filtering_recomputes_the_match_set() {
    let mut app = app_with(&["work: 1", "play: 2"]);
    handle_key_events(KeyEvent::Char('/'), &mut app);
    type_text(&mut app, "wo");
    assert_eq!(app.matching_rows, vec![0]);
    // the store changes under the filter
    app.refresh(&lines(&["other: 9", "work: 1"]));
    assert_eq!(app.matching_rows, vec![1]);
    assert_eq!(app.search_session_selected, Some(1));
}
