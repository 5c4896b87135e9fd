use rusty_todo::widgets::input::{Emphasis, TextInput, TextInputState};

#[test]
fn default_input_is_empty_and_unfocused() {
    let state = TextInputState::default();
    assert_eq!(state.text().as_str(), "");
    assert_eq!(state.placeholder().as_str(), "Enter text...");
    assert_eq!(state.title(), None);
    assert!(!state.is_focused());
}

#[test]
fn set_placeholder_replaces_the_placeholder_only() {
    let state = TextInputState::default().set_title("T").set_placeholder("Search todo by title");
    assert_eq!(state.placeholder().as_str(), "Search todo by title");
    assert_eq!(state.title().map(|t| t.as_str()), Some("T"));
    assert_eq!(state.text().as_str(), "");
    assert!(!state.is_focused());
    let state = state.set_placeholder("");
    assert_eq!(state.placeholder().as_str(), "");
}

#[test]
fn set_title_replaces_the_title_only() {
    let state = TextInputState::default().set_title("[Search]");
    assert_eq!(state.title().map(|t| t.as_str()), Some("[Search]"));
    assert_eq!(state.placeholder().as_str(), "Enter text...");
    let state = state.set_title("other");
    assert_eq!(state.title().map(|t| t.as_str()), Some("other"));
}

#[test]
fn set_focused_is_idempotent() {
    let mut state = TextInputState::default();
    state.set_focused(true);
    assert!(state.is_focused());
    state.set_focused(true);
    assert!(state.is_focused());
    state.set_focused(false);
    assert!(!state.is_focused());
    state.set_focused(false);
    assert!(!state.is_focused());
    assert_eq!(state.text().as_str(), "");
}

#[test]
fn append_puts_characters_at_the_end() {
    let mut state = TextInputState::default();
    state.append('a');
    assert_eq!(state.text().as_str(), "a");
    state.append('b');
    state.append(' ');
    state.append('\u{e9}');
    assert_eq!(state.text().as_str(), "ab \u{e9}");
    assert_eq!(state.placeholder().as_str(), "Enter text...");
}

#[test]
fn remove_last_takes_one_character_off() {
    let mut state = TextInputState::default();
    state.append('a');
    state.append('\u{e9}');
    state.append('c');
    state.remove_last();
    assert_eq!(state.text().as_str(), "a\u{e9}");
    state.remove_last();
    assert_eq!(state.text().as_str(), "a");
    state.remove_last();
    assert_eq!(state.text().as_str(), "");
}

#[test]
fn remove_last_leaves_an_empty_text_alone() {
    let mut state = TextInputState::default().set_title("t");
    state.remove_last();
    state.remove_last();
    assert_eq!(state.text().as_str(), "");
    assert_eq!(state.title().map(|t| t.as_str()), Some("t"));
}

#[test]
fn clear_empties_the_text_only() {
    let mut state = TextInputState::default().set_placeholder("p").set_title("t");
    state.set_focused(true);
    state.append('x');
    state.append('y');
    state.clear();
    assert_eq!(state.text().as_str(), "");
    assert_eq!(state.placeholder().as_str(), "p");
    assert_eq!(state.title().map(|t| t.as_str()), Some("t"));
    assert!(state.is_focused());
    state.clear();
    assert_eq!(state.text().as_str(), "");
}

#[test]
fn render_shows_the_placeholder_of_an_empty_input() {
    let state = TextInputState::default().set_placeholder("What?").set_title("[T]");
    let frame = TextInput::new().render(&state);
    assert_eq!(frame.content, "What?");
    assert_eq!(frame.title.as_deref(), Some("[T]"));
    assert_eq!(frame.emphasis, Emphasis::UnfocusedEmpty);
}

#[test]
fn render_shows_the_text_once_there_is_some() {
    let mut state = TextInputState::default().set_placeholder("What?");
    state.append('h');
    state.append('i');
    let frame = TextInput::new().render(&state);
    assert_eq!(frame.content, "hi");
    assert_eq!(frame.title, None);
    assert_eq!(frame.emphasis, Emphasis::UnfocusedFilled);
    state.remove_last();
    state.remove_last();
    let frame = TextInput::new().render(&state);
    assert_eq!(frame.content, "What?");
}

#[test]
fn render_tells_the_four_states_apart() {
    let widget = TextInput::new();
    let mut state = TextInputState::default();
    assert_eq!(widget.render(&state).emphasis, Emphasis::UnfocusedEmpty);
    state.set_focused(true);
    assert_eq!(widget.render(&state).emphasis, Emphasis::FocusedEmpty);
    state.append('x');
    assert_eq!(widget.render(&state).emphasis, Emphasis::FocusedFilled);
    state.set_focused(false);
    assert_eq!(widget.render(&state).emphasis, Emphasis::UnfocusedFilled);
}

#[test]
fn render_leaves_the_state_as_it_is() {
    let mut state = TextInputState::default().set_placeholder("p");
    state.append('x');
    state.set_focused(true);
    let _ = TextInput::new().render(&state);
    let _ = TextInput::new().render(&state);
    assert_eq!(state.text().as_str(), "x");
    assert_eq!(state.placeholder().as_str(), "p");
    assert!(state.is_focused());
}
