//! Keys, and the screens between which they lead.

use vstd::prelude::*;

verus! {

/// A key of the keyboard, as far as the application tells keys apart.
#[derive(Clone, Copy, Debug, PartialEq, Eq, Structural)]
pub enum Key {
    Esc,
    Tab,
    BackTab,
    Left,
    Right,
    Up,
    Down,
    Enter,
    Delete,
    Backspace,
    Char(char),
    Other,
}

/// What happened to a key.
#[derive(Clone, Copy, Debug, PartialEq, Eq, Structural)]
pub enum KeyKind {
    Press,
    Repeat,
    Release,
}

/// An input event: a key event, or anything else that the terminal reports.
#[derive(Clone, Copy, Debug, PartialEq, Eq, Structural)]
pub enum Event {
    Key { key: Key, kind: KeyKind },
    Other,
}

impl Event {
    /// The key that the event presses, if it presses one.
    pub open spec fn pressed(self) -> Option<Key> {
        match self {
            Event::Key { key, kind: KeyKind::Press } => Some(key),
            _ => None,
        }
    }

    /// The key that the event presses, if it presses one. Releases, repeats
    /// and other events press none.
    pub fn pressed_key(&self) -> (key: Option<Key>)
        ensures
            key == self.pressed(),
    {
        match *self {
            Event::Key { key, kind: KeyKind::Press } => Some(key),
            _ => None,
        }
    }
}

/// The two arrangements of the screen. `Bar` shows a search input and an
/// entry input above the list all the time, and the keys go round a focus
/// ring. `Modal` shows the list alone, and opens an entry input over it for
/// each new item.
#[derive(Clone, Copy, Debug, PartialEq, Eq, Structural)]
pub enum Layout {
    Bar,
    Modal,
}

/// The mode of interaction. `Exiting` is final: the event loop ends on it.
#[derive(Clone, Copy, Debug, PartialEq, Eq, Structural)]
pub enum ScreenState {
    Browsing,
    Editing,
    Exiting,
}

/// What the caller is to do after an event was handled.
#[derive(Clone, Copy, Debug, PartialEq, Eq, Structural)]
pub enum Action {
    /// Nothing: the list is as it was.
    Idle,
    /// Save the list: it has changed.
    Persist,
}

/// Whether `key` asks for a new item while the list is browsed.
pub open spec fn is_new_item_key(key: Key) -> bool {
    key == Key::Char('n') || key == Key::Char('N')
}

/// Whether `key` is one of the letters that quit while the list is browsed.
pub open spec fn is_quit_key(key: Key) -> bool {
    key == Key::Char('q') || key == Key::Char('Q')
}

/// The screen to which `key` leads from `screen`.
///
/// In either layout the escape key ends the browsing. In the modal layout
/// the quit key does so too, the new-item key opens the editor, and both the
/// escape key and the enter key close it again. No key leads away from
/// `Exiting`, and no other key changes the screen.
pub open spec fn next_screen(layout: Layout, screen: ScreenState, key: Key) -> ScreenState {
    match screen {
        ScreenState::Browsing => {
            if key == Key::Esc {
                ScreenState::Exiting
            } else if layout == Layout::Modal && is_quit_key(key) {
                ScreenState::Exiting
            } else if layout == Layout::Modal && is_new_item_key(key) {
                ScreenState::Editing
            } else {
                ScreenState::Browsing
            }
        },
        ScreenState::Editing => {
            if key == Key::Esc || key == Key::Enter {
                ScreenState::Browsing
            } else {
                ScreenState::Editing
            }
        },
        ScreenState::Exiting => ScreenState::Exiting,
    }
}

impl Key {
    /// Whether the key asks for a new item while the list is browsed: the
    /// letter N, in either case.
    pub fn is_new_item(&self) -> (yes: bool)
        ensures
            yes == is_new_item_key(*self),
    {
        match *self {
            Key::Char(c) => c == 'n' || c == 'N',
            _ => false,
        }
    }

    /// Whether the key is a letter that quits while the list is browsed: the
    /// letter Q, in either case.
    pub fn is_quit(&self) -> (yes: bool)
        ensures
            yes == is_quit_key(*self),
    {
        match *self {
            Key::Char(c) => c == 'q' || c == 'Q',
            _ => false,
        }
    }
}

impl ScreenState {
    /// The screen to which `key` leads from this one.
    pub fn transition(self, layout: Layout, key: Key) -> (next: ScreenState)
        ensures
            next == next_screen(layout, self, key),
    {
        match self {
            ScreenState::Browsing => {
                let modal = match layout {
                    Layout::Modal => true,
                    Layout::Bar => false,
                };
                match key {
                    Key::Esc => ScreenState::Exiting,
                    _ => {
                        if modal && key.is_quit() {
                            ScreenState::Exiting
                        } else if modal && key.is_new_item() {
                            ScreenState::Editing
                        } else {
                            ScreenState::Browsing
                        }
                    },
                }
            },
            ScreenState::Editing => {
                match key {
                    Key::Esc | Key::Enter => ScreenState::Browsing,
                    _ => ScreenState::Editing,
                }
            },
            ScreenState::Exiting => ScreenState::Exiting,
        }
    }
}

/// No key leads away from `Exiting`.
pub proof fn lemma_exiting_is_final(layout: Layout, key: Key)
    ensures
        next_screen(layout, ScreenState::Exiting, key) == ScreenState::Exiting,
{
}

/// The editor opens in the modal layout only, and only from the browsing of
/// the list.
pub proof fn lemma_editor_opens_from_modal_browsing(layout: Layout, screen: ScreenState, key: Key)
    requires
        screen != ScreenState::Editing,
        next_screen(layout, screen, key) == ScreenState::Editing,
    ensures
        layout == Layout::Modal,
        screen == ScreenState::Browsing,
        is_new_item_key(key),
{
}

} // verus!
