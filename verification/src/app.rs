//! The application: the inputs, the focus ring and the list, and the
//! handling of each input event.

use vstd::prelude::*;
use crate::focus::{lemma_ring_step, FocusController, FocusTarget, FocusView, Vertical};
use crate::ident::is_random_id;
use crate::screen::{
    is_new_item_key, is_quit_key, next_screen, Action, Event, Key, Layout, ScreenState,
};
use crate::store::{item_views, Direction, TodoItem, TodoItemView, TodoListView, TodoStore};
use crate::text::trimmed;
use crate::widgets::input::{TextInputState, TextInputView};

verus! {

/// The state of the application: what an `Application` stands for in
/// contracts.
#[verifier::ext_equal]
pub struct ApplicationView {
    pub layout: Layout,
    pub screen: ScreenState,
    pub focus: FocusView,
    pub inputs: Seq<TextInputView>,
    pub todos: TodoListView,
}

/// The search input of the bar layout, as it is at the start.
pub open spec fn search_input() -> TextInputView {
    TextInputView {
        text: Seq::empty(),
        title: Some("[Search]"@),
        focused: false,
        placeholder: "Search todo by title"@,
    }
}

/// The entry input of the bar layout, as it is at the start.
pub open spec fn entry_input() -> TextInputView {
    TextInputView {
        text: Seq::empty(),
        title: None,
        focused: true,
        placeholder: "What is your name?"@,
    }
}

/// The entry input of the modal layout, as it is at the start.
pub open spec fn editor_input() -> TextInputView {
    TextInputView {
        text: Seq::empty(),
        title: Some("Create a new todo!"@),
        focused: false,
        placeholder: "Enter a text..."@,
    }
}

impl ApplicationView {
    /// The state in which the application starts: the list empty and
    /// browsed. The bar layout has the search input and the entry input,
    /// the focus on the second; the modal layout has its entry input, the
    /// focus on the list.
    pub open spec fn initial(layout: Layout) -> ApplicationView {
        match layout {
            Layout::Bar => ApplicationView {
                layout,
                screen: ScreenState::Browsing,
                focus: FocusView { inputs: 2, current: 1 },
                inputs: seq![search_input(), entry_input()],
                todos: TodoListView::empty(),
            },
            Layout::Modal => ApplicationView {
                layout,
                screen: ScreenState::Browsing,
                focus: FocusView { inputs: 1, current: 1 },
                inputs: seq![editor_input()],
                todos: TodoListView::empty(),
            },
        }
    }

    /// Each input is marked as focused exactly if the focus is on it.
    pub open spec fn focus_shown(self) -> bool {
        forall|i: int|
            0 <= i < self.inputs.len() ==> (#[trigger] self.inputs[i]).focused == (i
                == self.focus.current)
    }

    /// The validity of a state. The focus is on one of the inputs or on the
    /// list, and the inputs are marked accordingly; the cursor of the list
    /// is valid. The bar layout has two inputs and no editing screen. The
    /// modal layout has one input, which has the focus exactly while the
    /// editing screen is shown.
    pub open spec fn wf(self) -> bool {
        &&& self.focus.wf()
        &&& self.focus.inputs == self.inputs.len()
        &&& self.todos.wf()
        &&& self.focus_shown()
        &&& match self.layout {
            Layout::Bar => self.inputs.len() == 2 && self.screen != ScreenState::Editing,
            Layout::Modal => self.inputs.len() == 1 && (self.focus.current == 0
                <==> self.screen == ScreenState::Editing),
        }
    }

    /// The position of the input from which new items are submitted: the
    /// last one.
    pub open spec fn entry(self) -> int {
        self.inputs.len() - 1
    }

    /// The state with the focus at `focus`, and the inputs marked
    /// accordingly.
    pub open spec fn with_focus(self, focus: FocusView) -> ApplicationView {
        ApplicationView {
            focus,
            inputs: Seq::new(
                self.inputs.len(),
                |i: int| self.inputs[i].with_focus(i == focus.current),
            ),
            ..self
        }
    }

    /// The state with `input` in the place of the input `i`.
    pub open spec fn with_input(self, i: int, input: TextInputView) -> ApplicationView {
        ApplicationView { inputs: self.inputs.update(i, input), ..self }
    }

    /// The state with `todos` as its list.
    pub open spec fn with_todos(self, todos: TodoListView) -> ApplicationView {
        ApplicationView { todos, ..self }
    }

    /// The state with `screen` as its screen.
    pub open spec fn with_screen(self, screen: ScreenState) -> ApplicationView {
        ApplicationView { screen, ..self }
    }

    /// The state after the list was replaced by the loaded `items`.
    pub open spec fn loaded(self, items: Seq<TodoItemView>) -> ApplicationView {
        self.with_todos(TodoListView::loaded(items))
    }

    /// The state after the text of the entry input was submitted: the list
    /// has the new item, if the text held more than white space, and then
    /// the input is empty again. A text of white space stays in the input.
    pub open spec fn submitted(self, id: Seq<char>) -> ApplicationView {
        let entry = self.entry();
        let text = self.inputs[entry].text;
        if trimmed(text).len() > 0 {
            self.with_todos(self.todos.added(id, text)).with_input(
                entry,
                self.inputs[entry].cleared(),
            )
        } else {
            self
        }
    }

    /// The state after the selected item was toggled.
    pub open spec fn toggled(self) -> ApplicationView {
        self.with_todos(self.todos.toggled())
    }

    /// The bar layout, browsing: the state after `key` was pressed.
    ///
    /// Escape ends the browsing. Tab and the right arrow move the focus
    /// forward, the back tab and the left arrow move it back. A character
    /// goes to the end of the focused input, and is dropped while the list
    /// has the focus. Delete and backspace take the last character off the
    /// focused input, or delete the selected item while the list has the
    /// focus. The down arrow takes the focus from the first input to a list
    /// that is not empty, and moves the cursor of a focused list. The up
    /// arrow takes the focus to the last input while the first item is
    /// selected, and else moves the cursor of a focused list. Enter submits
    /// the entry input if that has the focus, and else toggles the selected
    /// item.
    pub open spec fn bar_pressed(self, key: Key, id: Seq<char>) -> ApplicationView {
        let nonempty = self.todos.items.len() > 0;
        let first = self.todos.selection == Some(0int);
        let current = self.focus.current;
        match key {
            Key::Esc => self.with_screen(ScreenState::Exiting),
            Key::Tab | Key::Right => self.with_focus(self.focus.advanced()),
            Key::BackTab | Key::Left => self.with_focus(self.focus.retreated()),
            Key::Char(c) => if self.focus.on_list() {
                self
            } else {
                self.with_input(current, self.inputs[current].appended(c))
            },
            Key::Delete | Key::Backspace => if self.focus.on_list() {
                self.with_todos(self.todos.deleted())
            } else {
                self.with_input(current, self.inputs[current].removed_last())
            },
            Key::Down => if self.focus.leaves_on_down(nonempty) {
                self.with_focus(self.focus.after_down(nonempty))
            } else if self.focus.on_list() {
                self.with_todos(self.todos.moved(Direction::Next))
            } else {
                self
            },
            Key::Up => if self.focus.leaves_on_up(nonempty, first) {
                self.with_focus(self.focus.after_up(nonempty, first))
            } else if self.focus.on_list() {
                self.with_todos(self.todos.moved(Direction::Previous))
            } else {
                self
            },
            Key::Enter => if current == self.entry() {
                self.submitted(id)
            } else {
                self.toggled()
            },
            Key::Other => self,
        }
    }

    /// The modal layout, browsing: the state after `key` was pressed.
    ///
    /// The arrows move the cursor, enter toggles the selected item, delete
    /// and backspace delete it. The new-item key opens the editor and gives
    /// its input the focus. Escape and the quit key end the browsing.
    pub open spec fn modal_pressed(self, key: Key) -> ApplicationView {
        match key {
            Key::Up => self.with_todos(self.todos.moved(Direction::Previous)),
            Key::Down => self.with_todos(self.todos.moved(Direction::Next)),
            Key::Enter => self.toggled(),
            Key::Delete | Key::Backspace => self.with_todos(self.todos.deleted()),
            Key::Esc => self.with_screen(ScreenState::Exiting),
            _ => if is_quit_key(key) {
                self.with_screen(ScreenState::Exiting)
            } else if is_new_item_key(key) {
                self.with_screen(ScreenState::Editing).with_focus(self.focus.at(0))
            } else {
                self
            },
        }
    }

    /// The modal layout, editing: the state after `key` was pressed.
    ///
    /// A character goes to the end of the input, delete and backspace take
    /// the last one off. Enter submits the text, and escape discards it:
    /// both empty the input, close the editor and give the focus back to
    /// the list. No key reaches the list or the focus ring otherwise.
    pub open spec fn editor_pressed(self, key: Key, id: Seq<char>) -> ApplicationView {
        let input = self.inputs[0];
        match key {
            Key::Char(c) => self.with_input(0, input.appended(c)),
            Key::Delete | Key::Backspace => self.with_input(0, input.removed_last()),
            Key::Enter => self.with_todos(self.todos.added(id, input.text)).with_input(
                0,
                input.cleared(),
            ).with_screen(ScreenState::Browsing).with_focus(self.focus.at(self.focus.inputs)),
            Key::Esc => self.with_input(0, input.cleared()).with_screen(
                ScreenState::Browsing,
            ).with_focus(self.focus.at(self.focus.inputs)),
            _ => self,
        }
    }

    /// The state after `key` was pressed. Once the application is exiting,
    /// no key changes anything.
    pub open spec fn pressed(self, key: Key, id: Seq<char>) -> ApplicationView {
        match self.screen {
            ScreenState::Exiting => self,
            ScreenState::Editing => self.editor_pressed(key, id),
            ScreenState::Browsing => match self.layout {
                Layout::Bar => self.bar_pressed(key, id),
                Layout::Modal => self.modal_pressed(key),
            },
        }
    }

    /// The state after `event`: that after the key which the event presses,
    /// and the same state after any other event. `id` is the identifier
    /// that a new item takes.
    pub open spec fn handled(self, event: Event, id: Seq<char>) -> ApplicationView {
        match event.pressed() {
            Some(key) => self.pressed(key, id),
            None => self,
        }
    }
}

/// What the reading of the saved list came to.
pub enum Saved {
    /// Nothing has been saved yet.
    Absent,
    /// There is a saved list, and it could not be read.
    Unreadable,
    /// What was read is not a list of items.
    Malformed,
    /// The saved items, in their order.
    Items(Vec<TodoItem>),
}

/// Why a saved list was not taken over.
#[derive(Clone, Copy, Debug, PartialEq, Eq, Structural)]
pub enum LoadError {
    /// The saved list could not be read.
    Io,
    /// What was saved is not a list of items.
    Parse,
}

/// The todo list application.
pub struct Application {
    layout: Layout,
    screen: ScreenState,
    focus: FocusController,
    text_input_states: Vec<TextInputState>,
    todos: TodoStore,
}

/// The views of the inputs of `inputs`, in their order.
pub open spec fn input_views(inputs: Seq<TextInputState>) -> Seq<TextInputView> {
    Seq::new(inputs.len(), |i: int| inputs[i]@)
}

impl View for Application {
    type V = ApplicationView;

    closed spec fn view(&self) -> ApplicationView {
        ApplicationView {
            layout: self.layout,
            screen: self.screen,
            focus: self.focus@,
            inputs: input_views(self.text_input_states@),
            todos: self.todos@,
        }
    }
}

impl Application {
    /// The validity of an application: that of its state.
    pub open spec fn wf(&self) -> bool {
        self@.wf()
    }

    /// The application in the bar layout, as it starts.
    pub fn new() -> (app: Application)
        ensures
            app.wf(),
            app@ == ApplicationView::initial(Layout::Bar),
    {
        Application::with_layout(Layout::Bar)
    }

    /// The application in the given layout, as it starts.
    pub fn with_layout(layout: Layout) -> (app: Application)
        ensures
            app.wf(),
            app@ == ApplicationView::initial(layout),
    {
        let mut text_input_states: Vec<TextInputState> = Vec::new();
        let focus = match layout {
            Layout::Bar => {
                text_input_states.push(
                    TextInputState::default().set_placeholder("Search todo by title").set_title(
                        "[Search]",
                    ),
                );
                let mut entry = TextInputState::default().set_placeholder("What is your name?");
                entry.set_focused(true);
                text_input_states.push(entry);
                FocusController::new(2, 1)
            },
            Layout::Modal => {
                text_input_states.push(
                    TextInputState::default().set_placeholder("Enter a text...").set_title(
                        "Create a new todo!",
                    ),
                );
                FocusController::new(1, 1)
            },
        };
        let app = Application {
            layout,
            screen: ScreenState::Browsing,
            focus: focus.unwrap(),
            text_input_states,
            todos: TodoStore::new(),
        };
        assert(app@.inputs =~= ApplicationView::initial(layout).inputs);
        app
    }

    /// The arrangement of the screen.
    pub fn layout(&self) -> (layout: Layout)
        ensures
            layout == self@.layout,
    {
        self.layout
    }

    /// The screen that is shown.
    pub fn screen(&self) -> (screen: ScreenState)
        ensures
            screen == self@.screen,
    {
        self.screen
    }

    /// Whether the event loop is to go on: it is, until the application is
    /// exiting.
    pub fn is_running(&self) -> (running: bool)
        ensures
            running == (self@.screen != ScreenState::Exiting),
    {
        match self.screen {
            ScreenState::Exiting => false,
            _ => true,
        }
    }

    /// The focus ring.
    pub fn focus(&self) -> (focus: FocusController)
        ensures
            focus@ == self@.focus,
    {
        self.focus
    }

    /// Whether the list has the keyboard focus, and so is to be drawn with
    /// its cursor set off.
    pub fn list_focused(&self) -> (focused: bool)
        ensures
            focused == self@.focus.on_list(),
    {
        self.focus.on_list()
    }

    /// The text inputs, in the order of their positions in the focus ring.
    pub fn inputs(&self) -> (inputs: &Vec<TextInputState>)
        ensures
            input_views(inputs@) == self@.inputs,
    {
        &self.text_input_states
    }

    /// The list.
    pub fn todos(&self) -> (todos: &TodoStore)
        ensures
            todos@ == self@.todos,
    {
        &self.todos
    }

    /// Replaces the list by `items`, as after loading them, the cursor on
    /// the first.
    pub fn load(&mut self, items: Vec<TodoItem>)
        requires
            old(self).wf(),
        ensures
            final(self).wf(),
            final(self)@ == old(self)@.loaded(item_views(items@)),
    {
        self.todos = TodoStore::from_items(items);
    }

    /// Takes over the saved list at the start. Where nothing has been saved
    /// yet, the list is empty, and that is no error. A saved list that
    /// could not be read, or that is not a list of items, is an error and
    /// leaves the application as it was.
    pub fn read_todo_list(&mut self, saved: Saved) -> (result: Result<(), LoadError>)
        requires
            old(self).wf(),
        ensures
            final(self).wf(),
            match saved {
                Saved::Absent => result.is_ok() && final(self)@ == old(self)@.loaded(Seq::empty()),
                Saved::Items(items) => result.is_ok() && final(self)@ == old(self)@.loaded(
                    item_views(items@),
                ),
                Saved::Unreadable => final(self)@ == old(self)@ && result == Err::<(), LoadError>(
                    LoadError::Io,
                ),
                Saved::Malformed => final(self)@ == old(self)@ && result == Err::<(), LoadError>(
                    LoadError::Parse,
                ),
            },
    {
        match saved {
            Saved::Absent => {
                self.load(Vec::new());
                Ok(())
            },
            Saved::Items(items) => {
                self.load(items);
                Ok(())
            },
            Saved::Unreadable => Err(LoadError::Io),
            Saved::Malformed => Err(LoadError::Parse),
        }
    }

    /// Marks each input as focused or not, as the focus ring says.
    fn sync_focus(&mut self)
        ensures
            final(self)@ == old(self)@.with_focus(old(self)@.focus),
    {
        let current = self.focus.current();
        let n = self.text_input_states.len();
        let mut i: usize = 0;
        while i < n
            invariant
                i <= n,
                n == self.text_input_states@.len(),
                n == old(self).text_input_states@.len(),
                self.layout == old(self).layout,
                self.screen == old(self).screen,
                self.focus == old(self).focus,
                self.todos == old(self).todos,
                current == self.focus@.current,
                forall|j: int|
                    0 <= j < i ==> (#[trigger] self.text_input_states@[j])@ == old(
                        self,
                    ).text_input_states@[j]@.with_focus(j == current),
                forall|j: int|
                    i <= j < n ==> #[trigger] self.text_input_states@[j] == old(
                        self,
                    ).text_input_states@[j],
            decreases n - i,
        {
            self.text_input_states[i].set_focused(i == current);
            i += 1;
        }
        assert(self@.inputs =~= old(self)@.with_focus(old(self)@.focus).inputs);
    }

    /// Submits the text of the entry input: trims it and, unless nothing is
    /// left, puts a new open item of the trimmed text at the end of the
    /// list and empties the input. Returns whether an item was added. The
    /// identifier of the new item is drawn at random.
    pub fn add_todo(&mut self) -> (added: bool)
        requires
            old(self).wf(),
        ensures
            final(self).wf(),
            final(self)@ == old(self)@.submitted(final(self)@.todos.newest_id()),
            added == (trimmed(old(self)@.inputs[old(self)@.entry()].text).len() > 0),
            added ==> is_random_id(final(self)@.todos.newest_id()),
    {
        let entry = self.text_input_states.len() - 1;
        let added = self.todos.add(self.text_input_states[entry].text().as_str());
        if added {
            self.text_input_states[entry].clear();
            assert(self@.inputs =~= old(self)@.inputs.update(
                entry as int,
                old(self)@.inputs[entry as int].cleared(),
            ));
        } else {
            assert(self@.inputs =~= old(self)@.inputs);
        }
        added
    }

    /// Flips the completion flag of the selected item. Returns whether there
    /// was one, and so whether the list changed.
    pub fn toggle_todo(&mut self) -> (changed: bool)
        requires
            old(self).wf(),
        ensures
            final(self).wf(),
            final(self)@ == old(self)@.toggled(),
            changed == old(self)@.todos.selection.is_some(),
    {
        self.todos.toggle_selected()
    }

    /// Whether the items of the list differ between two states.
    pub open spec fn list_changed(before: ApplicationView, after: ApplicationView) -> bool {
        after.todos.items != before.todos.items
    }

    /// The bar layout, browsing: handles the press of `key`.
    fn bar_key(&mut self, key: Key) -> (action: Action)
        requires
            old(self).wf(),
            old(self)@.layout == Layout::Bar,
            old(self)@.screen == ScreenState::Browsing,
        ensures
            final(self).wf(),
            final(self)@ == old(self)@.bar_pressed(key, final(self)@.todos.newest_id()),
            (action == Action::Persist) == Self::list_changed(old(self)@, final(self)@),
            final(self)@.todos.items.len() > old(self)@.todos.items.len() ==> is_random_id(
                final(self)@.todos.newest_id(),
            ),
    {
        match key {
            Key::Esc => {
                self.screen = self.screen.transition(self.layout, key);
                Action::Idle
            },
            Key::Tab | Key::Right => {
                self.focus.advance();
                self.sync_focus();
                Action::Idle
            },
            Key::BackTab | Key::Left => {
                self.focus.retreat();
                self.sync_focus();
                Action::Idle
            },
            Key::Char(c) => {
                match self.focus.target() {
                    FocusTarget::Input(i) => {
                        self.text_input_states[i].append(c);
                        assert(self@.inputs =~= old(self)@.inputs.update(
                            i as int,
                            old(self)@.inputs[i as int].appended(c),
                        ));
                    },
                    FocusTarget::List => {},
                }
                Action::Idle
            },
            Key::Delete | Key::Backspace => {
                match self.focus.target() {
                    FocusTarget::Input(i) => {
                        self.text_input_states[i].remove_last();
                        assert(self@.inputs =~= old(self)@.inputs.update(
                            i as int,
                            old(self)@.inputs[i as int].removed_last(),
                        ));
                        Action::Idle
                    },
                    FocusTarget::List => {
                        if self.todos.delete_selected() {
                            Action::Persist
                        } else {
                            Action::Idle
                        }
                    },
                }
            },
            Key::Down => {
                match self.focus.down(!self.todos.is_empty()) {
                    Vertical::Focus => self.sync_focus(),
                    Vertical::Cursor => self.todos.move_selection(Direction::Next),
                    Vertical::Ignored => {},
                }
                Action::Idle
            },
            Key::Up => {
                let first = match self.todos.selection() {
                    Some(i) => i == 0,
                    None => false,
                };
                match self.focus.up(!self.todos.is_empty(), first) {
                    Vertical::Focus => self.sync_focus(),
                    Vertical::Cursor => self.todos.move_selection(Direction::Previous),
                    Vertical::Ignored => {},
                }
                Action::Idle
            },
            Key::Enter => {
                let changed = if self.focus.current() + 1 == self.text_input_states.len() {
                    self.add_todo()
                } else {
                    self.toggle_todo()
                };
                if changed {
                    Action::Persist
                } else {
                    Action::Idle
                }
            },
            Key::Other => Action::Idle,
        }
    }

    /// The modal layout, browsing: handles the press of `key`.
    fn modal_key(&mut self, key: Key) -> (action: Action)
        requires
            old(self).wf(),
            old(self)@.layout == Layout::Modal,
            old(self)@.screen == ScreenState::Browsing,
        ensures
            final(self).wf(),
            final(self)@ == old(self)@.modal_pressed(key),
            (action == Action::Persist) == Self::list_changed(old(self)@, final(self)@),
            final(self)@.todos.items.len() <= old(self)@.todos.items.len(),
    {
        match key {
            Key::Up => {
                self.todos.move_selection(Direction::Previous);
                Action::Idle
            },
            Key::Down => {
                self.todos.move_selection(Direction::Next);
                Action::Idle
            },
            Key::Enter => {
                if self.toggle_todo() {
                    Action::Persist
                } else {
                    Action::Idle
                }
            },
            Key::Delete | Key::Backspace => {
                if self.todos.delete_selected() {
                    Action::Persist
                } else {
                    Action::Idle
                }
            },
            _ => {
                self.screen = self.screen.transition(self.layout, key);
                match self.screen {
                    ScreenState::Editing => {
                        self.focus.focus_on(0);
                        self.sync_focus();
                    },
                    _ => {},
                }
                Action::Idle
            },
        }
    }

    /// Empties the input of the editor, closes the editor and gives the
    /// focus back to the list.
    fn close_editor(&mut self, key: Key)
        requires
            old(self)@.focus.wf(),
            old(self)@.focus.inputs == old(self)@.inputs.len(),
            old(self)@.inputs.len() == 1,
            old(self)@.screen == ScreenState::Editing,
            key == Key::Enter || key == Key::Esc,
        ensures
            final(self)@ == old(self)@.with_input(0, old(self)@.inputs[0].cleared()).with_screen(
                ScreenState::Browsing,
            ).with_focus(old(self)@.focus.at(old(self)@.focus.inputs)),
    {
        self.text_input_states[0].clear();
        self.screen = self.screen.transition(self.layout, key);
        self.focus.focus_on(self.focus.inputs());
        self.sync_focus();
        assert(self@.inputs =~= old(self)@.with_input(
            0,
            old(self)@.inputs[0].cleared(),
        ).with_focus(old(self)@.focus.at(old(self)@.focus.inputs)).inputs);
    }

    /// The modal layout, editing: handles the press of `key`.
    fn editor_key(&mut self, key: Key) -> (action: Action)
        requires
            old(self).wf(),
            old(self)@.layout == Layout::Modal,
            old(self)@.screen == ScreenState::Editing,
        ensures
            final(self).wf(),
            final(self)@ == old(self)@.editor_pressed(key, final(self)@.todos.newest_id()),
            (action == Action::Persist) == Self::list_changed(old(self)@, final(self)@),
            final(self)@.todos.items.len() > old(self)@.todos.items.len() ==> is_random_id(
                final(self)@.todos.newest_id(),
            ),
    {
        match key {
            Key::Char(c) => {
                self.text_input_states[0].append(c);
                assert(self@.inputs =~= old(self)@.inputs.update(
                    0,
                    old(self)@.inputs[0].appended(c),
                ));
                Action::Idle
            },
            Key::Delete | Key::Backspace => {
                self.text_input_states[0].remove_last();
                assert(self@.inputs =~= old(self)@.inputs.update(
                    0,
                    old(self)@.inputs[0].removed_last(),
                ));
                Action::Idle
            },
            Key::Enter => {
                let added = self.todos.add(self.text_input_states[0].text().as_str());
                self.close_editor(key);
                if added {
                    Action::Persist
                } else {
                    Action::Idle
                }
            },
            Key::Esc => {
                self.close_editor(key);
                Action::Idle
            },
            _ => Action::Idle,
        }
    }

    /// Handles one input event, and says whether the list is to be saved.
    ///
    /// Only the press of a key has an effect, and none has once the
    /// application is exiting. Otherwise the key goes to the screen that is
    /// shown: to the editor while that is open, and else to the browsing of
    /// the list as the layout has it. The list is to be saved exactly when
    /// its items have changed. The identifier of a new item is drawn at
    /// random.
    pub fn handle_events(&mut self, event: &Event) -> (action: Action)
        requires
            old(self).wf(),
        ensures
            final(self).wf(),
            final(self)@ == old(self)@.handled(*event, final(self)@.todos.newest_id()),
            (action == Action::Persist) == Self::list_changed(old(self)@, final(self)@),
            final(self)@.todos.items.len() > old(self)@.todos.items.len() ==> is_random_id(
                final(self)@.todos.newest_id(),
            ),
    {
        match event.pressed_key() {
            Some(key) => {
                match self.screen {
                    ScreenState::Exiting => Action::Idle,
                    ScreenState::Editing => self.editor_key(key),
                    ScreenState::Browsing => {
                        match self.layout {
                            Layout::Bar => self.bar_key(key),
                            Layout::Modal => self.modal_key(key),
                        }
                    },
                }
            },
            None => Action::Idle,
        }
    }
}

/// Whatever the event, a valid state stays valid.
pub proof fn lemma_handled_keeps_validity(state: ApplicationView, event: Event, id: Seq<char>)
    requires
        state.wf(),
    ensures
        state.handled(event, id).wf(),
{
    lemma_ring_step(state.focus.current, state.focus.inputs);
}

/// The screen after the press of a key is the one to which the key leads
/// from the screen before it.
pub proof fn lemma_screen_follows_the_key(state: ApplicationView, key: Key, id: Seq<char>)
    requires
        state.wf(),
    ensures
        state.pressed(key, id).screen == next_screen(state.layout, state.screen, key),
{
}

/// Once the application is exiting, no event changes its state.
pub proof fn lemma_exiting_changes_nothing(state: ApplicationView, event: Event, id: Seq<char>)
    requires
        state.screen == ScreenState::Exiting,
    ensures
        state.handled(event, id) == state,
{
}

/// In the bar layout, delete and backspace go where the focus is: on the
/// list they delete the selected item and leave the inputs alone, on an
/// input they take its last character off and leave the list and the other
/// inputs alone.
pub proof fn lemma_delete_goes_where_the_focus_is(state: ApplicationView, key: Key, id: Seq<char>)
    requires
        state.wf(),
        state.layout == Layout::Bar,
        state.screen == ScreenState::Browsing,
        key == Key::Delete || key == Key::Backspace,
    ensures
        state.focus.on_list() ==> state.pressed(key, id) == state.with_todos(state.todos.deleted()),
        !state.focus.on_list() ==> state.pressed(key, id).todos == state.todos
            && state.pressed(key, id).inputs == state.inputs.update(
            state.focus.current,
            state.inputs[state.focus.current].removed_last(),
        ),
        state.pressed(key, id).focus == state.focus,
{
}

/// In the bar layout, a character goes to the input that has the focus, and
/// nowhere while the list has it; the list is never touched.
pub proof fn lemma_characters_go_to_the_focused_input(
    state: ApplicationView,
    c: char,
    id: Seq<char>,
)
    requires
        state.wf(),
        state.layout == Layout::Bar,
        state.screen == ScreenState::Browsing,
    ensures
        state.focus.on_list() ==> state.pressed(Key::Char(c), id) == state,
        !state.focus.on_list() ==> state.pressed(Key::Char(c), id) == state.with_input(
            state.focus.current,
            state.inputs[state.focus.current].appended(c),
        ),
        state.pressed(Key::Char(c), id).todos == state.todos,
{
}

/// In the bar layout, the up arrow on a list whose first item is selected
/// gives the focus to the input before the list, and leaves the cursor on
/// the first item.
pub proof fn lemma_up_at_the_first_item_leaves_the_list(state: ApplicationView, id: Seq<char>)
    requires
        state.wf(),
        state.layout == Layout::Bar,
        state.screen == ScreenState::Browsing,
        state.focus.on_list(),
        state.todos.selection == Some(0int),
    ensures
        state.pressed(Key::Up, id).focus.current == state.focus.inputs - 1,
        state.pressed(Key::Up, id).todos == state.todos,
        state.pressed(Key::Up, id).inputs[state.focus.inputs - 1].focused,
{
}

/// While the editor is open, no key but enter reaches the list, and no key
/// but enter and escape moves the focus or changes the screen.
pub proof fn lemma_editor_keeps_the_keys(state: ApplicationView, key: Key, id: Seq<char>)
    requires
        state.wf(),
        state.screen == ScreenState::Editing,
    ensures
        key != Key::Enter ==> state.pressed(key, id).todos == state.todos,
        key != Key::Enter && key != Key::Esc ==> state.pressed(key, id).focus == state.focus
            && state.pressed(key, id).screen == state.screen,
{
}

} // verus!
