//! A one-line text input: its state, and what is drawn of it.

use vstd::prelude::*;

verus! {

/// The state of a text input: what a `TextInputState` stands for in
/// contracts.
#[verifier::ext_equal]
pub struct TextInputView {
    pub text: Seq<char>,
    pub title: Option<Seq<char>>,
    pub focused: bool,
    pub placeholder: Seq<char>,
}

impl TextInputView {
    /// The input with `c` at the end of its text.
    pub open spec fn appended(self, c: char) -> TextInputView {
        TextInputView { text: self.text.push(c), ..self }
    }

    /// The input without the last character of its text; an empty text
    /// stays empty.
    pub open spec fn removed_last(self) -> TextInputView {
        if self.text.len() > 0 {
            TextInputView { text: self.text.drop_last(), ..self }
        } else {
            self
        }
    }

    /// The input with an empty text.
    pub open spec fn cleared(self) -> TextInputView {
        TextInputView { text: Seq::empty(), ..self }
    }

    /// The input with the given focus flag.
    pub open spec fn with_focus(self, focused: bool) -> TextInputView {
        TextInputView { focused, ..self }
    }
}

/// The editable state of a text input: the text typed so far, the
/// placeholder shown while there is none, an optional title for the border,
/// and whether the input has the keyboard focus.
pub struct TextInputState {
    text: String,
    title: Option<String>,
    focused: bool,
    placeholder: String,
}

impl View for TextInputState {
    type V = TextInputView;

    closed spec fn view(&self) -> TextInputView {
        TextInputView {
            text: self.text@,
            title: match self.title {
                Some(title) => Some(title@),
                None => None,
            },
            focused: self.focused,
            placeholder: self.placeholder@,
        }
    }
}

impl TextInputState {
    /// An empty, unfocused input without a title, with the placeholder
    /// "Enter text...".
    pub fn default() -> (state: TextInputState)
        ensures
            state@ == (TextInputView {
                text: Seq::empty(),
                title: None,
                focused: false,
                placeholder: "Enter text..."@,
            }),
    {
        TextInputState {
            title: None,
            text: String::new(),
            focused: false,
            placeholder: "Enter text...".to_owned(),
        }
    }

    /// The same input with `text` as its placeholder.
    pub fn set_placeholder(self, text: &str) -> (state: TextInputState)
        ensures
            state@ == (TextInputView { placeholder: text@, ..self@ }),
    {
        let mut state = self;
        state.placeholder = text.to_owned();
        state
    }

    /// The same input with `text` as its title.
    pub fn set_title(self, text: &str) -> (state: TextInputState)
        ensures
            state@ == (TextInputView { title: Some(text@), ..self@ }),
    {
        let mut state = self;
        state.title = Some(text.to_owned());
        state
    }

    /// Notes whether the input has the keyboard focus.
    pub fn set_focused(&mut self, state: bool)
        ensures
            final(self)@ == old(self)@.with_focus(state),
    {
        self.focused = state;
    }

    /// Puts `c` at the end of the text.
    pub fn append(&mut self, c: char)
        ensures
            final(self)@ == old(self)@.appended(c),
    {
        self.text.push(c);
    }

    /// Takes the last character off the text, if there is one.
    pub fn remove_last(&mut self)
        ensures
            final(self)@ == old(self)@.removed_last(),
    {
        let _ = self.text.pop();
    }

    /// Empties the text.
    pub fn clear(&mut self)
        ensures
            final(self)@ == old(self)@.cleared(),
    {
        self.text.clear();
    }

    /// The text typed so far.
    pub fn text(&self) -> (text: &String)
        ensures
            text@ == self@.text,
    {
        &self.text
    }

    /// The text shown while nothing is typed.
    pub fn placeholder(&self) -> (placeholder: &String)
        ensures
            placeholder@ == self@.placeholder,
    {
        &self.placeholder
    }

    /// The title on the border, if the input has one.
    pub fn title(&self) -> (title: Option<&String>)
        ensures
            match title {
                Some(t) => self@.title == Some(t@),
                None => self@.title.is_none(),
            },
    {
        self.title.as_ref()
    }

    /// Whether the input has the keyboard focus.
    pub fn is_focused(&self) -> (focused: bool)
        ensures
            focused == self@.focused,
    {
        self.focused
    }
}

/// How an input is set off from the others: by whether it has the focus,
/// and by whether it shows typed text or, for want of it, the placeholder.
#[derive(Clone, Copy, Debug, PartialEq, Eq, Structural)]
pub enum Emphasis {
    FocusedEmpty,
    FocusedFilled,
    UnfocusedEmpty,
    UnfocusedFilled,
}

/// The emphasis of an input with the given focus flag whose text is or is
/// not empty.
pub open spec fn emphasis_of(focused: bool, empty: bool) -> Emphasis {
    if focused {
        if empty {
            Emphasis::FocusedEmpty
        } else {
            Emphasis::FocusedFilled
        }
    } else {
        if empty {
            Emphasis::UnfocusedEmpty
        } else {
            Emphasis::UnfocusedFilled
        }
    }
}

/// What is drawn of an input: what an `InputFrame` stands for in contracts.
#[verifier::ext_equal]
pub struct InputFrameView {
    pub title: Option<Seq<char>>,
    pub content: Seq<char>,
    pub emphasis: Emphasis,
}

/// What is drawn of an input in the given state: its title, the typed text
/// or, where there is none, the placeholder, and the emphasis.
pub open spec fn rendered(state: TextInputView) -> InputFrameView {
    InputFrameView {
        title: state.title,
        content: if state.text.len() == 0 {
            state.placeholder
        } else {
            state.text
        },
        emphasis: emphasis_of(state.focused, state.text.len() == 0),
    }
}

/// What is drawn of an input: the title for the border, the line of text
/// inside it, and how both are set off.
pub struct InputFrame {
    pub title: Option<String>,
    pub content: String,
    pub emphasis: Emphasis,
}

impl View for InputFrame {
    type V = InputFrameView;

    open spec fn view(&self) -> InputFrameView {
        InputFrameView {
            title: match self.title {
                Some(title) => Some(title@),
                None => None,
            },
            content: self.content@,
            emphasis: self.emphasis,
        }
    }
}

/// The widget that draws a `TextInputState`. It holds no state of its own.
pub struct TextInput;

impl TextInput {
    /// The widget.
    pub fn new() -> (widget: TextInput) {
        TextInput
    }

    /// What is to be drawn of `state`.
    pub fn render(&self, state: &TextInputState) -> (frame: InputFrame)
        ensures
            frame@ == rendered(state@),
    {
        let empty = state.text.as_str().is_empty();
        let title = match &state.title {
            Some(title) => Some(title.clone()),
            None => None,
        };
        let content = if empty {
            state.placeholder.clone()
        } else {
            state.text.clone()
        };
        let emphasis = if state.focused {
            if empty {
                Emphasis::FocusedEmpty
            } else {
                Emphasis::FocusedFilled
            }
        } else {
            if empty {
                Emphasis::UnfocusedEmpty
            } else {
                Emphasis::UnfocusedFilled
            }
        };
        InputFrame { title, content, emphasis }
    }
}

/// Two inputs are drawn with the same emphasis exactly when they agree both
/// in having the focus and in having text: the four combinations are told
/// apart.
pub proof fn lemma_emphasis_tells_four_apart(a: TextInputView, b: TextInputView)
    ensures
        rendered(a).emphasis == rendered(b).emphasis <==> (a.focused == b.focused && (a.text.len()
            == 0) == (b.text.len() == 0)),
{
}

/// An input is drawn with its text, unless it has none: then with its
/// placeholder.
pub proof fn lemma_placeholder_stands_in(state: TextInputView)
    ensures
        state.text.len() > 0 ==> rendered(state).content == state.text,
        state.text.len() == 0 ==> rendered(state).content == state.placeholder,
{
}

} // verus!
