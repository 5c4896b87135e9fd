//! The todo list and its selection cursor.

use vstd::prelude::*;
use crate::ident::{fresh_id, is_random_id};
use crate::text::{is_whitespace, lemma_trimmed_empty_iff_blank, lemma_trimmed_twice, trimmed};

verus! {

/// One todo: what a `TodoItem` stands for in contracts.
#[verifier::ext_equal]
pub struct TodoItemView {
    pub id: Seq<char>,
    pub text: Seq<char>,
    pub checked: bool,
}

/// One entry of the list.
pub struct TodoItem {
    id: String,
    text: String,
    checked: bool,
}

impl View for TodoItem {
    type V = TodoItemView;

    closed spec fn view(&self) -> TodoItemView {
        TodoItemView { id: self.id@, text: self.text@, checked: self.checked }
    }
}

impl TodoItem {
    /// An item with the given identifier, text and completion flag.
    pub fn from_parts(id: String, text: String, checked: bool) -> (item: TodoItem)
        ensures
            item@ == (TodoItemView { id: id@, text: text@, checked }),
    {
        TodoItem { id, text, checked }
    }

    /// An open item with the given text and a newly drawn identifier.
    pub fn new(text: &str) -> (item: TodoItem)
        ensures
            item@.text == text@,
            !item@.checked,
            is_random_id(item@.id),
    {
        TodoItem { id: fresh_id(), text: text.to_owned(), checked: false }
    }

    /// The identifier.
    pub fn id(&self) -> (id: &String)
        ensures
            id@ == self@.id,
    {
        &self.id
    }

    /// The text.
    pub fn text(&self) -> (text: &String)
        ensures
            text@ == self@.text,
    {
        &self.text
    }

    /// Whether the item is completed.
    pub fn checked(&self) -> (checked: bool)
        ensures
            checked == self@.checked,
    {
        self.checked
    }

    /// The mark that stands before the text of the item in the list: a
    /// ticked box for a completed item, an empty box for an open one.
    pub fn marker(&self) -> (marker: &'static str)
        ensures
            marker@ == if self@.checked {
                " - [x] "@
            } else {
                " - [ ] "@
            },
    {
        if self.checked {
            " - [x] "
        } else {
            " - [ ] "
        }
    }
}

/// The way in which the selection cursor moves.
#[derive(Clone, Copy, Debug, PartialEq, Eq, Structural)]
pub enum Direction {
    Next,
    Previous,
}

/// The list and its cursor: what a `TodoStore` stands for in contracts.
#[verifier::ext_equal]
pub struct TodoListView {
    pub items: Seq<TodoItemView>,
    pub selection: Option<int>,
}

impl TodoListView {
    /// The cursor is on an item of the list, or the list is empty and there
    /// is no cursor.
    pub open spec fn wf(self) -> bool {
        match self.selection {
            Some(i) => 0 <= i < self.items.len(),
            None => self.items.len() == 0,
        }
    }

    /// The list without items.
    pub open spec fn empty() -> TodoListView {
        TodoListView { items: Seq::empty(), selection: None }
    }

    /// The list of the given items, the cursor on the first of them.
    pub open spec fn loaded(items: Seq<TodoItemView>) -> TodoListView {
        TodoListView { items, selection: if items.len() > 0 { Some(0) } else { None } }
    }

    /// The identifier of the item that was added last: that of the last
    /// item. The empty list has none, and gives the empty text.
    pub open spec fn newest_id(self) -> Seq<char> {
        if self.items.len() > 0 {
            self.items.last().id
        } else {
            Seq::empty()
        }
    }

    /// The position of the cursor, where it is on an item.
    pub open spec fn selected(self) -> Option<int> {
        match self.selection {
            Some(i) if 0 <= i < self.items.len() => Some(i),
            _ => None,
        }
    }

    /// The list with `item` at its end. The cursor stays; a list that had
    /// none gets it on the first item.
    pub open spec fn inserted(self, item: TodoItemView) -> TodoListView {
        TodoListView {
            items: self.items.push(item),
            selection: match self.selected() {
                Some(i) => Some(i),
                None => Some(0),
            },
        }
    }

    /// The list after the submission of `text`: with a new open item of the
    /// trimmed text and the identifier `id` at its end, or unchanged where
    /// nothing but white space was submitted.
    pub open spec fn added(self, id: Seq<char>, text: Seq<char>) -> TodoListView {
        if trimmed(text).len() > 0 {
            self.inserted(TodoItemView { id, text: trimmed(text), checked: false })
        } else {
            self
        }
    }

    /// The list with the completion flag of the selected item flipped.
    pub open spec fn toggled(self) -> TodoListView {
        match self.selected() {
            Some(i) => TodoListView {
                items: self.items.update(
                    i,
                    TodoItemView { checked: !self.items[i].checked, ..self.items[i] },
                ),
                ..self
            },
            None => self,
        }
    }

    /// The list without the selected item. The cursor keeps its position,
    /// and so moves to the item that followed; where the last item went, it
    /// moves to the new last item; where the only item went, it is gone.
    pub open spec fn deleted(self) -> TodoListView {
        match self.selected() {
            Some(i) => TodoListView {
                items: self.items.remove(i),
                selection: if self.items.len() == 1 {
                    None
                } else if i == self.items.len() - 1 {
                    Some(i - 1)
                } else {
                    Some(i)
                },
            },
            None => self,
        }
    }

    /// The list with the cursor one item further in the given direction,
    /// unless it is on the last item in that direction already.
    pub open spec fn moved(self, direction: Direction) -> TodoListView {
        match self.selected() {
            Some(i) => TodoListView {
                selection: Some(
                    match direction {
                        Direction::Next => if i + 1 < self.items.len() {
                            i + 1
                        } else {
                            i
                        },
                        Direction::Previous => if i > 0 {
                            i - 1
                        } else {
                            i
                        },
                    },
                ),
                ..self
            },
            None => self,
        }
    }

    /// The list after the submissions of `texts` one after another, the
    /// first first, the new item of the `k`-th taking `ids[k]`.
    pub open spec fn added_all(self, ids: Seq<Seq<char>>, texts: Seq<Seq<char>>) -> TodoListView
        decreases texts.len(),
    {
        if texts.len() == 0 || ids.len() != texts.len() {
            self
        } else {
            self.added_all(ids.drop_last(), texts.drop_last()).added(ids.last(), texts.last())
        }
    }

    /// The list after `n` moves of the cursor in the given direction.
    pub open spec fn moved_by(self, direction: Direction, n: nat) -> TodoListView
        decreases n,
    {
        if n == 0 {
            self
        } else {
            self.moved_by(direction, (n - 1) as nat).moved(direction)
        }
    }
}

/// The views of the items of `items`, in their order.
pub open spec fn item_views(items: Seq<TodoItem>) -> Seq<TodoItemView> {
    Seq::new(items.len(), |i: int| items[i]@)
}

/// The ordered list of todo items with the cursor that selects one of them.
pub struct TodoStore {
    items: Vec<TodoItem>,
    selection: Option<usize>,
}

impl View for TodoStore {
    type V = TodoListView;

    closed spec fn view(&self) -> TodoListView {
        TodoListView {
            items: item_views(self.items@),
            selection: match self.selection {
                Some(i) => Some(i as int),
                None => None,
            },
        }
    }
}

impl TodoStore {
    /// The validity of a store: its cursor selects an item whenever there is
    /// one, and is absent otherwise.
    pub open spec fn wf(&self) -> bool {
        self@.wf()
    }

    /// The empty store.
    pub fn new() -> (store: TodoStore)
        ensures
            store.wf(),
            store@ == TodoListView::empty(),
    {
        TodoStore { items: Vec::new(), selection: None }
    }

    /// The store that holds `items` in their order, as after loading them,
    /// the cursor on the first.
    pub fn from_items(items: Vec<TodoItem>) -> (store: TodoStore)
        ensures
            store.wf(),
            store@ == TodoListView::loaded(item_views(items@)),
    {
        let selection = if items.len() > 0 { Some(0) } else { None };
        TodoStore { items, selection }
    }

    /// The items in their order: what is to be written when the list is
    /// saved.
    pub fn items(&self) -> (items: &Vec<TodoItem>)
        ensures
            item_views(items@) == self@.items,
    {
        &self.items
    }

    /// The number of items.
    pub fn len(&self) -> (n: usize)
        ensures
            n == self@.items.len(),
    {
        self.items.len()
    }

    /// Whether the list holds no item.
    pub fn is_empty(&self) -> (empty: bool)
        ensures
            empty == (self@.items.len() == 0),
    {
        self.items.len() == 0
    }

    /// The position of the cursor.
    pub fn selection(&self) -> (selection: Option<usize>)
        ensures
            match selection {
                Some(i) => self@.selection == Some(i as int),
                None => self@.selection.is_none(),
            },
    {
        self.selection
    }

    /// Puts `item` at the end of the list.
    pub fn insert(&mut self, item: TodoItem)
        requires
            old(self).wf(),
        ensures
            final(self).wf(),
            final(self)@ == old(self)@.inserted(item@),
    {
        self.items.push(item);
        if self.selection.is_none() {
            self.selection = Some(0);
        }
    }

    /// Submits `text`: trims it and, unless nothing is left, puts a new open
    /// item of the trimmed text at the end of the list. Returns whether an
    /// item was added. The identifier of the new item is drawn at random.
    pub fn add(&mut self, text: &str) -> (added: bool)
        requires
            old(self).wf(),
        ensures
            final(self).wf(),
            added == (trimmed(text@).len() > 0),
            final(self)@ == old(self)@.added(final(self)@.newest_id(), text@),
            added ==> is_random_id(final(self)@.newest_id()),
    {
        let entry = text.trim();
        if entry.is_empty() {
            false
        } else {
            self.insert(TodoItem::new(entry));
            true
        }
    }

    /// Flips the completion flag of the selected item. Returns whether there
    /// was one, and so whether the list changed.
    pub fn toggle_selected(&mut self) -> (changed: bool)
        requires
            old(self).wf(),
        ensures
            final(self).wf(),
            final(self)@ == old(self)@.toggled(),
            changed == old(self)@.selection.is_some(),
    {
        match self.selection {
            Some(i) => {
                let flipped = !self.items[i].checked;
                self.items[i].checked = flipped;
                true
            },
            None => false,
        }
    }

    /// Removes the selected item. Returns whether there was one, and so
    /// whether the list changed.
    pub fn delete_selected(&mut self) -> (changed: bool)
        requires
            old(self).wf(),
        ensures
            final(self).wf(),
            final(self)@ == old(self)@.deleted(),
            changed == old(self)@.selection.is_some(),
    {
        match self.selection {
            Some(i) => {
                self.items.remove(i);
                let left = self.items.len();
                if left == 0 {
                    self.selection = None;
                } else if i == left {
                    self.selection = Some(i - 1);
                }
                true
            },
            None => false,
        }
    }

    /// Moves the cursor by one item, stopping at either end of the list.
    pub fn move_selection(&mut self, direction: Direction)
        requires
            old(self).wf(),
        ensures
            final(self).wf(),
            final(self)@ == old(self)@.moved(direction),
    {
        match self.selection {
            Some(i) => {
                let n = self.items.len();
                match direction {
                    Direction::Next => {
                        if i < n - 1 {
                            self.selection = Some(i + 1);
                        }
                    },
                    Direction::Previous => {
                        if i > 0 {
                            self.selection = Some(i - 1);
                        }
                    },
                }
            },
            None => {},
        }
    }
}

/// Every operation keeps a valid list valid.
pub proof fn lemma_operations_keep_validity(
    list: TodoListView,
    item: TodoItemView,
    id: Seq<char>,
    text: Seq<char>,
    direction: Direction,
)
    requires
        list.wf(),
    ensures
        TodoListView::empty().wf(),
        TodoListView::loaded(list.items).wf(),
        list.inserted(item).wf(),
        list.added(id, text).wf(),
        list.toggled().wf(),
        list.deleted().wf(),
        list.moved(direction).wf(),
{
}

/// The item that a submission adds is the last of the list. It is open, it
/// has the identifier that was drawn for it, and its text is not empty and
/// has no white space left to trim.
pub proof fn lemma_added_item_is_trimmed(list: TodoListView, id: Seq<char>, text: Seq<char>)
    requires
        trimmed(text).len() > 0,
    ensures
        list.added(id, text).items.last() == (TodoItemView {
            id,
            text: trimmed(text),
            checked: false,
        }),
        list.added(id, text).items.last().text.len() > 0,
        trimmed(list.added(id, text).items.last().text) == list.added(id, text).items.last().text,
{
    lemma_trimmed_twice(text);
}

/// No operation changes the identifier or the text of an item that stays,
/// and only toggling changes a completion flag, that of the selected item.
pub proof fn lemma_items_keep_their_identity(
    list: TodoListView,
    id: Seq<char>,
    text: Seq<char>,
    direction: Direction,
    k: int,
)
    requires
        list.wf(),
        0 <= k < list.items.len(),
    ensures
        list.added(id, text).items[k] == list.items[k],
        list.moved(direction).items[k] == list.items[k],
        list.toggled().items[k].id == list.items[k].id,
        list.toggled().items[k].text == list.items[k].text,
        list.toggled().items[k].checked == (list.items[k].checked != (list.selection == Some(k))),
        list.selection is Some && k < list.selection->0 ==> list.deleted().items[k]
            == list.items[k],
        list.selection is Some && k > list.selection->0 ==> list.deleted().items[k - 1]
            == list.items[k],
{
}

/// The items of a list change exactly when an operation reports a change: a
/// submission changes them if the text holds more than white space, toggling
/// and deleting change them if an item is selected, and moving the cursor
/// never does.
pub proof fn lemma_changes_are_reported(
    list: TodoListView,
    id: Seq<char>,
    text: Seq<char>,
    direction: Direction,
)
    requires
        list.wf(),
    ensures
        (list.added(id, text).items != list.items) == (trimmed(text).len() > 0),
        (list.toggled().items != list.items) == list.selection.is_some(),
        (list.deleted().items != list.items) == list.selection.is_some(),
        list.moved(direction).items == list.items,
{
    if trimmed(text).len() > 0 {
        assert(list.added(id, text).items.len() != list.items.len());
    }
    match list.selection {
        Some(i) => {
            assert(list.toggled().items[i].checked != list.items[i].checked);
            assert(list.deleted().items.len() != list.items.len());
        },
        None => {},
    }
}

/// Submissions that each hold more than white space make the list longer by
/// one item each: the old items stay in front, and behind them stand the new
/// ones, open, with the trimmed texts, in the order of the calls.
pub proof fn lemma_adds_in_call_order(
    list: TodoListView,
    ids: Seq<Seq<char>>,
    texts: Seq<Seq<char>>,
)
    requires
        ids.len() == texts.len(),
        forall|k: int| 0 <= k < texts.len() ==> trimmed(#[trigger] texts[k]).len() > 0,
    ensures
        list.added_all(ids, texts).items.len() == list.items.len() + texts.len(),
        list.added_all(ids, texts).items.take(list.items.len() as int) == list.items,
        forall|k: int|
            0 <= k < texts.len() ==> #[trigger] list.added_all(ids, texts).items[list.items.len()
                + k] == (TodoItemView { id: ids[k], text: trimmed(texts[k]), checked: false }),
        list.wf() ==> list.added_all(ids, texts).wf(),
    decreases texts.len(),
{
    if texts.len() > 0 {
        let before = list.added_all(ids.drop_last(), texts.drop_last());
        assert forall|k: int| 0 <= k < texts.drop_last().len() implies trimmed(
            #[trigger] texts.drop_last()[k],
        ).len() > 0 by {
            assert(texts.drop_last()[k] == texts[k]);
        }
        lemma_adds_in_call_order(list, ids.drop_last(), texts.drop_last());
        let after = list.added_all(ids, texts);
        assert(trimmed(texts.last()).len() > 0);
        assert(after.items == before.items.push(
            TodoItemView { id: ids.last(), text: trimmed(texts.last()), checked: false },
        ));
        assert(after.items.take(list.items.len() as int) =~= before.items.take(
            list.items.len() as int,
        ));
        assert forall|k: int| 0 <= k < texts.len() implies #[trigger] after.items[list.items.len()
            + k] == (TodoItemView { id: ids[k], text: trimmed(texts[k]), checked: false }) by {
            if k < texts.len() - 1 {
                assert(after.items[list.items.len() + k] == before.items[list.items.len() + k]);
                assert(ids.drop_last()[k] == ids[k]);
                assert(texts.drop_last()[k] == texts[k]);
            }
        }
    } else {
        assert(list.items.take(list.items.len() as int) =~= list.items);
    }
}

/// The submission of an empty text, or of one that holds nothing but white
/// space, changes nothing.
pub proof fn lemma_blank_adds_nothing(list: TodoListView, id: Seq<char>, text: Seq<char>)
    ensures
        (forall|i: int| 0 <= i < text.len() ==> is_whitespace(#[trigger] text[i])) ==> list.added(
            id,
            text,
        ) == list,
{
    lemma_trimmed_empty_iff_blank(text);
}

/// Toggling the selected item twice gives the list back as it was.
pub proof fn lemma_toggle_twice(list: TodoListView)
    ensures
        list.toggled().toggled() == list,
{
    assert(list.toggled().toggled().items =~= list.items);
}

/// Deleting the selected item of a list that holds one item leaves the empty
/// list, without a cursor.
pub proof fn lemma_delete_only_item(list: TodoListView)
    requires
        list.wf(),
        list.items.len() == 1,
    ensures
        list.deleted() == TodoListView::empty(),
{
    assert(list.deleted().items =~= Seq::<TodoItemView>::empty());
}

/// However often the cursor is moved, it stops at the end of the list: from
/// the item `i`, `n` moves to the next item bring it to `i + n`, or to the
/// last item where the list ends before that, and `n` moves to the previous
/// item to `i - n`, or to the first item. The items stay as they are.
pub proof fn lemma_moves_stop_at_the_ends(list: TodoListView, direction: Direction, n: nat)
    requires
        list.wf(),
    ensures
        list.moved_by(direction, n).wf(),
        list.moved_by(direction, n).items == list.items,
        match list.selection {
            Some(i) => list.moved_by(direction, n).selection == Some(
                match direction {
                    Direction::Next => if i + n < list.items.len() {
                        i + n
                    } else {
                        list.items.len() - 1
                    },
                    Direction::Previous => if i - n >= 0 {
                        i - n
                    } else {
                        0
                    },
                },
            ),
            None => list.moved_by(direction, n).selection.is_none(),
        },
    decreases n,
{
    if n > 0 {
        lemma_moves_stop_at_the_ends(list, direction, (n - 1) as nat);
    }
}

/// A list that is loaded from the items of another holds the same items in
/// the same order.
pub proof fn lemma_reload_keeps_items(list: TodoListView)
    ensures
        TodoListView::loaded(list.items).items == list.items,
        TodoListView::loaded(list.items).wf(),
{
}

} // verus!
