use powermenu::cursor::step_cursor;
use powermenu::session::key_op;
use powermenu::{Dir, Handler, Key, KeyPress, Op, Outcome, State};

fn names(s: &State) -> Vec<String> {
    s.filtered().iter().map(|h| h.name.clone()).collect()
}

fn loaded() -> State {
    let mut s = State::new();
    s.load();
    s
}

fn press(key: Key) -> KeyPress {
    KeyPress { key, ctrl: false, pressed: true }
}

fn type_str(s: &mut State, text: &str) {
    for c in text.chars() {
        s.enter_char(c);
    }
}

#[test]
fn new_state_is_empty() {
    let s = State::new();
    assert_eq!(s.input(), "");
    assert!(s.handlers().is_empty());
    assert!(s.filtered().is_empty());
    assert_eq!(s.selected(), None);
    assert!(s.confirm().is_none());
}

#[test]
fn load_offers_builtin_actions() {
    let s = loaded();
    let hs = s.handlers();
    assert_eq!(hs.len(), 3);
    assert_eq!(hs[0].name, "shutdown");
    assert_eq!(hs[0].cmd, vec!["systemctl", "poweroff"]);
    assert_eq!(hs[1].name, "reboot");
    assert_eq!(hs[1].cmd, vec!["systemctl", "reboot"]);
    assert_eq!(hs[2].name, "logout");
    assert_eq!(hs[2].cmd, vec!["hyprctl", "dispatch", "exit"]);
}

#[test]
fn empty_query_shows_whole_registry() {
    let s = loaded();
    assert_eq!(names(&s), vec!["shutdown", "reboot", "logout"]);
    assert_eq!(s.selected(), Some(0));
}

#[test]
fn typing_re_narrows_to_reboot() {
    let mut s = loaded();
    s.enter_char('r');
    s.enter_char('e');
    assert_eq!(s.input(), "re");
    assert_eq!(names(&s), vec!["reboot"]);
    assert_eq!(s.selected(), Some(0));
    let h = s.confirm().unwrap();
    assert_eq!(h.name, "reboot");
    assert_eq!(h.cmd, vec!["systemctl", "reboot"]);
}

#[test]
fn down_twice_then_wraps() {
    let mut s = loaded();
    s.move_index(Dir::Down);
    s.move_index(Dir::Down);
    assert_eq!(s.selected(), Some(2));
    assert_eq!(s.confirm().unwrap().name, "logout");
    s.move_index(Dir::Down);
    assert_eq!(s.selected(), Some(0));
    assert_eq!(s.confirm().unwrap().name, "shutdown");
}

#[test]
fn up_from_first_wraps_to_last() {
    let mut s = loaded();
    s.move_index(Dir::Up);
    assert_eq!(s.selected(), Some(2));
    s.move_index(Dir::Up);
    assert_eq!(s.selected(), Some(1));
}

#[test]
fn same_keeps_cursor() {
    let mut s = loaded();
    s.move_index(Dir::Down);
    s.move_index(Dir::Same);
    assert_eq!(s.selected(), Some(1));
}

#[test]
fn query_matching_nothing_gives_no_selection() {
    let mut s = loaded();
    type_str(&mut s, "xyz");
    assert!(s.filtered().is_empty());
    assert_eq!(s.selected(), Some(0));
    assert!(s.confirm().is_none());
}

#[test]
fn moves_on_empty_list_stay_at_zero() {
    let mut s = loaded();
    type_str(&mut s, "xyz");
    for d in [Dir::Down, Dir::Up, Dir::Same, Dir::Down] {
        s.move_index(d);
        assert_eq!(s.selected(), Some(0));
    }
}

#[test]
fn delete_on_empty_query_changes_nothing() {
    let mut s = loaded();
    s.move_index(Dir::Down);
    s.delete_char();
    assert_eq!(s.input(), "");
    assert_eq!(names(&s), vec!["shutdown", "reboot", "logout"]);
    assert_eq!(s.selected(), Some(1));
}

#[test]
fn delete_removes_last_character() {
    let mut s = loaded();
    type_str(&mut s, "xyz");
    s.delete_char();
    assert_eq!(s.input(), "xy");
    s.delete_char();
    s.delete_char();
    assert_eq!(s.input(), "");
    assert_eq!(names(&s), vec!["shutdown", "reboot", "logout"]);
}

#[test]
fn delete_removes_a_multibyte_character_whole() {
    let mut s = loaded();
    s.enter_char('é');
    s.enter_char('ü');
    s.delete_char();
    assert_eq!(s.input(), "é");
}

#[test]
fn shrinking_list_clamps_cursor() {
    let mut s = loaded();
    s.move_index(Dir::Down);
    s.move_index(Dir::Down);
    s.enter_char('r');
    assert_eq!(names(&s), vec!["reboot"]);
    assert_eq!(s.selected(), Some(0));
    assert_eq!(s.confirm().unwrap().name, "reboot");
}

#[test]
fn cursor_kept_when_still_in_range() {
    let mut s = loaded();
    s.move_index(Dir::Down);
    s.enter_char('t');
    assert_eq!(names(&s), vec!["shutdown", "reboot", "logout"]);
    assert_eq!(s.selected(), Some(1));
}

#[test]
fn filtered_keeps_registry_order() {
    let mut s = loaded();
    type_str(&mut s, "ot");
    assert_eq!(names(&s), vec!["reboot", "logout"]);
    s.delete_char();
    type_str(&mut s, "u");
    assert_eq!(names(&s), vec!["logout"]);
}

#[test]
fn uppercase_query_matches_case_sensitively() {
    let mut s = loaded();
    s.enter_char('R');
    assert!(s.filtered().is_empty());
    s.delete_char();
    s.enter_char('r');
    assert_eq!(names(&s), vec!["reboot"]);
}

#[test]
fn apply_matches_keeps_marked_entries() {
    let mut s = loaded();
    s.move_index(Dir::Up);
    s.apply_matches(&vec![true, false, true]);
    assert_eq!(names(&s), vec!["shutdown", "logout"]);
    assert_eq!(s.selected(), Some(1));
    s.apply_matches(&vec![false, false, false]);
    assert!(s.filtered().is_empty());
    assert_eq!(s.selected(), Some(0));
}

#[test]
fn step_cursor_values() {
    assert_eq!(step_cursor(None, 3, Dir::Down), 0);
    assert_eq!(step_cursor(None, 3, Dir::Up), 0);
    assert_eq!(step_cursor(Some(1), 3, Dir::Down), 2);
    assert_eq!(step_cursor(Some(2), 3, Dir::Down), 0);
    assert_eq!(step_cursor(Some(0), 3, Dir::Up), 2);
    assert_eq!(step_cursor(Some(7), 3, Dir::Same), 2);
    assert_eq!(step_cursor(Some(7), 3, Dir::Down), 0);
    assert_eq!(step_cursor(Some(4), 0, Dir::Up), 0);
}

#[test]
fn keymap() {
    assert_eq!(key_op(press(Key::Down)), Op::Move(Dir::Down));
    assert_eq!(key_op(press(Key::Up)), Op::Move(Dir::Up));
    assert_eq!(key_op(KeyPress { key: Key::Char('j'), ctrl: true, pressed: true }), Op::Move(Dir::Down));
    assert_eq!(key_op(KeyPress { key: Key::Char('k'), ctrl: true, pressed: true }), Op::Move(Dir::Up));
    assert_eq!(key_op(press(Key::Char('j'))), Op::Insert('j'));
    assert_eq!(key_op(KeyPress { key: Key::Char('x'), ctrl: true, pressed: true }), Op::Insert('x'));
    assert_eq!(key_op(press(Key::Backspace)), Op::Delete);
    assert_eq!(key_op(press(Key::Enter)), Op::Confirm);
    assert_eq!(key_op(press(Key::Esc)), Op::Cancel);
    assert_eq!(key_op(press(Key::Other)), Op::Ignore);
    assert_eq!(key_op(KeyPress { key: Key::Enter, ctrl: false, pressed: false }), Op::Ignore);
}

#[test]
fn session_picks_with_keys() {
    let mut s = loaded();
    assert!(matches!(s.handle_key(press(Key::Char('o'))), Outcome::Continue));
    assert!(matches!(s.handle_key(KeyPress { key: Key::Char('j'), ctrl: true, pressed: true }), Outcome::Continue));
    assert_eq!(s.input(), "o");
    assert_eq!(s.selected(), Some(1));
    match s.handle_key(press(Key::Enter)) {
        Outcome::Chosen(h) => assert_eq!(h.name, "reboot"),
        _ => panic!("expected a chosen action"),
    }
}

#[test]
fn session_ignores_key_release() {
    let mut s = loaded();
    let r = s.handle_key(KeyPress { key: Key::Char('x'), ctrl: false, pressed: false });
    assert!(matches!(r, Outcome::Continue));
    assert_eq!(s.input(), "");
    assert_eq!(s.filtered().len(), 3);
}

#[test]
fn session_enter_on_empty_list_continues() {
    let mut s = loaded();
    type_str(&mut s, "xyz");
    assert!(matches!(s.handle_key(press(Key::Enter)), Outcome::Continue));
    assert!(matches!(s.handle_key(press(Key::Backspace)), Outcome::Continue));
    assert_eq!(s.input(), "xy");
}

#[test]
fn session_escape_cancels() {
    let mut s = loaded();
    assert!(matches!(s.handle_key(press(Key::Esc)), Outcome::Cancelled));
    assert_eq!(s.selected(), Some(0));
}

#[test]
fn duplicate_copies_name_and_command() {
    let h = Handler::new(String::from("lock"), vec![String::from("loginctl"), String::from("lock-session")]);
    let d = h.duplicate();
    assert_eq!(d.name, "lock");
    assert_eq!(d.cmd, vec!["loginctl", "lock-session"]);
}
