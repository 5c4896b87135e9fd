use rusty_todo::screen::{Event, Key, KeyKind, Layout, ScreenState};

const KEYS: [Key; 16] = [
    Key::Esc,
    Key::Tab,
    Key::BackTab,
    Key::Left,
    Key::Right,
    Key::Up,
    Key::Down,
    Key::Enter,
    Key::Delete,
    Key::Backspace,
    Key::Char('n'),
    Key::Char('N'),
    Key::Char('q'),
    Key::Char('Q'),
    Key::Char('x'),
    Key::Other,
];

#[test]
fn exiting_has_no_way_out() {
    for key in KEYS.iter() {
        assert_eq!(ScreenState::Exiting.transition(Layout::Bar, *key), ScreenState::Exiting);
        assert_eq!(ScreenState::Exiting.transition(Layout::Modal, *key), ScreenState::Exiting);
    }
}

#[test]
fn bar_layout_leaves_browsing_on_escape_only() {
    for key in KEYS.iter() {
        let want = if *key == Key::Esc { ScreenState::Exiting } else { ScreenState::Browsing };
        assert_eq!(ScreenState::Browsing.transition(Layout::Bar, *key), want);
    }
}

#[test]
fn modal_layout_leaves_browsing_for_the_editor_or_the_exit() {
    for key in KEYS.iter() {
        let want = match *key {
            Key::Esc | Key::Char('q') | Key::Char('Q') => ScreenState::Exiting,
            Key::Char('n') | Key::Char('N') => ScreenState::Editing,
            _ => ScreenState::Browsing,
        };
        assert_eq!(ScreenState::Browsing.transition(Layout::Modal, *key), want);
    }
}

#[test]
fn editor_closes_on_escape_and_enter_only() {
    for key in KEYS.iter() {
        let want = match *key {
            Key::Esc | Key::Enter => ScreenState::Browsing,
            _ => ScreenState::Editing,
        };
        assert_eq!(ScreenState::Editing.transition(Layout::Modal, *key), want);
    }
}

#[test]
fn new_item_and_quit_keys_are_the_letters_n_and_q() {
    assert!(Key::Char('n').is_new_item());
    assert!(Key::Char('N').is_new_item());
    assert!(!Key::Char('q').is_new_item());
    assert!(!Key::Enter.is_new_item());
    assert!(Key::Char('q').is_quit());
    assert!(Key::Char('Q').is_quit());
    assert!(!Key::Char('n').is_quit());
    assert!(!Key::Esc.is_quit());
}

#[test]
fn only_a_press_presses_a_key() {
    assert_eq!(Event::Key { key: Key::Tab, kind: KeyKind::Press }.pressed_key(), Some(Key::Tab));
    assert_eq!(Event::Key { key: Key::Tab, kind: KeyKind::Release }.pressed_key(), None);
    assert_eq!(Event::Key { key: Key::Tab, kind: KeyKind::Repeat }.pressed_key(), None);
    assert_eq!(Event::Other.pressed_key(), None);
}
