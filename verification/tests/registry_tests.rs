use tmm::registry::Registry;
use tmm::session::{parse_session, parse_sessions, Session};

fn sess(name: &str, desc: &str) -> Session {
    Session { name: name.to_string(), desc: desc.to_string() }
}

fn lines(v: &[&str]) -> Vec<String> {
    v.iter().map(|s| s.to_string()).collect()
}

#[test]
fn parse_splits_on_first_colon() {
    let s = parse_session(&"work: 1 windows (created ...)".to_string());
    assert_eq!(s.name, "work");
    assert_eq!(s.desc, " 1 windows (created ...)");
}

#[test]
fn parse_keeps_inner_colons_in_description() {
    let s = parse_session(&"a:b:c".to_string());
    assert_eq!(s.name, "a");
    assert_eq!(s.desc, "b:c");
}

#[test]
fn parse_line_without_colon_is_all_identifier() {
    let s = parse_session(&"plain".to_string());
    assert_eq!(s.name, "plain");
    assert_eq!(s.desc, "");
}

#[test]
fn parse_snapshot_keeps_order() {
    let v = parse_sessions(&lines(&["b: two", "a: one"]));
    assert_eq!(v.len(), 2);
    assert_eq!(v[0].name, "b");
    assert_eq!(v[1].name, "a");
}

#[test]
fn replace_keeps_selection_in_range() {
    let mut r = Registry::new();
    r.replace(vec![sess("a", ""), sess("b", ""), sess("c", "")]);
    assert!(r.selected < 3);
    r.selected = 2;
    r.replace(vec![sess("x", "")]);
    assert_eq!(r.selected, 0);
    assert_eq!(r.len(), 1);
}

#[test]
fn replace_with_empty_snapshot_clamps_to_sentinel() {
    let mut r = Registry::new();
    r.replace(vec![sess("a", "")]);
    r.replace(vec![]);
    assert_eq!(r.len(), 0);
    assert_eq!(r.selected, 0);
    assert!(r.current().is_none());
}

#[test]
fn selection_follows_identifier_to_new_position() {
    let mut r = Registry::new();
    r.replace(vec![sess("work", "1"), sess("play", "2")]);
    r.selected = 0;
    r.replace(vec![sess("play", "2"), sess("work", "1")]);
    assert_eq!(r.selected, 1);
    assert_eq!(r.current().unwrap().name, "work");
}

#[test]
fn selection_after_removal_lands_on_same_row_index() {
    let mut r = Registry::new();
    r.replace(vec![sess("work", "1"), sess("play", "2")]);
    r.selected = 0;
    // "work" is gone; the new list is still longer than index 0
    r.replace(vec![sess("play", "2"), sess("games", "3")]);
    assert_eq!(r.selected, 0);
    assert_eq!(r.current().unwrap().name, "play");
}

#[test]
fn discovery_selects_the_single_new_identifier() {
    let mut r = Registry::new();
    r.replace(vec![sess("a", ""), sess("b", "")]);
    r.selected = 0;
    let before = vec!["a".to_string(), "b".to_string()];
    r.replace_with_discovery(vec![sess("a", ""), sess("b", ""), sess("c", "")], &before);
    assert_eq!(r.selected, 2);
    assert_eq!(r.current().unwrap().name, "c");
}

#[test]
fn discovery_with_two_new_identifiers_makes_no_guess() {
    let mut r = Registry::new();
    r.replace(vec![sess("a", "")]);
    r.selected = 0;
    let before = vec!["a".to_string()];
    r.replace_with_discovery(vec![sess("a", ""), sess("b", ""), sess("c", "")], &before);
    // the previously selected "a" is still selected
    assert_eq!(r.selected, 0);
    assert_eq!(r.current().unwrap().name, "a");
}

#[test]
fn discovery_with_no_new_identifier_keeps_plain_rule() {
    let mut r = Registry::new();
    r.replace(vec![sess("a", ""), sess("b", "")]);
    r.selected = 1;
    let before = vec!["a".to_string(), "b".to_string()];
    r.replace_with_discovery(vec![sess("b", ""), sess("a", "")], &before);
    assert_eq!(r.current().unwrap().name, "b");
    assert_eq!(r.selected, 0);
}

#[test]
fn move_selection_clamps_at_both_ends() {
    let mut r = Registry::new();
    r.replace(vec![sess("a", ""), sess("b", ""), sess("c", "")]);
    r.selected = 0;
    r.move_selection(-1);
    assert_eq!(r.selected, 0);
    r.selected = 2;
    r.move_selection(1);
    assert_eq!(r.selected, 2);
    r.move_selection(-2);
    assert_eq!(r.selected, 0);
    r.move_selection(100);
    assert_eq!(r.selected, 2);
}

#[test]
fn move_selection_is_a_no_op_on_an_empty_registry() {
    let mut r = Registry::new();
    r.move_selection(-1);
    assert_eq!(r.selected, 0);
    r.move_selection(1);
    assert_eq!(r.selected, 0);
}

#[test]
fn jumps_go_to_the_ends() {
    let mut r = Registry::new();
    r.replace(vec![sess("a", ""), sess("b", ""), sess("c", "")]);
    r.jump_last();
    assert_eq!(r.selected, 2);
    r.jump_first();
    assert_eq!(r.selected, 0);
}
