//! The modal state machine that routes key presses.
//!
//! A session holds the item list, the selection over it, the text-edit
//! buffer, and the current interaction mode. One key press is dispatched at
//! a time; the transition table below says, for every mode and key, which
//! component is mutated and which mode comes next. Acting on an absent
//! selection is always a no-op, never a fault.

use vstd::prelude::*;
use crate::input::{spec_delete_before, spec_insert_char, UserInput};
use crate::selector::{spec_reclamped, spec_scrolled_down, spec_scrolled_up, ListSelector};
use crate::todo::{spec_toggled, Todo, TodoView};

verus! {

/// The three mutually exclusive interaction modes. `Remove` is transient:
/// it is entered and left within a single dispatch step.
#[derive(Clone, Copy, Debug, PartialEq, Eq)]
pub enum Mode {
    Browse,
    Add,
    Remove,
}

/// A key press, already filtered down to what the machine distinguishes.
#[derive(Clone, Copy, Debug, PartialEq, Eq)]
pub enum Key {
    Up,
    Down,
    Enter,
    Esc,
    Backspace,
    Char(char),
    Other,
}

/// Ghost model of a whole session: the items, the selection, the mode, and
/// the buffer's content and cursor.
#[verifier::ext_equal]
pub struct AppView {
    pub items: Seq<TodoView>,
    pub selected: Option<usize>,
    pub mode: Mode,
    pub content: Seq<char>,
    pub cursor: nat,
}

/// Toggling the completion flag at the selection: a no-op when the
/// selection is absent or out of range.
pub open spec fn spec_toggle_selected(items: Seq<TodoView>, sel: Option<usize>) -> Seq<TodoView> {
    match sel {
        Some(i) => if (i as nat) < items.len() {
            items.update(i as int, spec_toggled(items[i as int]))
        } else {
            items
        },
        None => items,
    }
}

/// Removing the item at the selection and re-clamping the selection against
/// the shortened list: a no-op on the list when the selection is absent or
/// out of range.
pub open spec fn spec_remove_selected(pre: AppView) -> AppView {
    let items = match pre.selected {
        Some(i) => if (i as nat) < pre.items.len() {
            pre.items.remove(i as int)
        } else {
            pre.items
        },
        None => pre.items,
    };
    AppView {
        items,
        selected: spec_reclamped(pre.selected, items.len()),
        mode: Mode::Browse,
        content: pre.content,
        cursor: pre.cursor,
    }
}

/// Committing the buffer: a new not-done item with the buffer's content is
/// appended, the selection is re-clamped against the grown list, and the
/// buffer is reset.
pub open spec fn spec_commit(pre: AppView) -> AppView {
    let items = pre.items.push(TodoView { message: pre.content, done: false });
    AppView {
        items,
        selected: spec_reclamped(pre.selected, items.len()),
        mode: Mode::Browse,
        content: Seq::<char>::empty(),
        cursor: 0nat,
    }
}

/// The transition table: what one dispatched key press does to the session,
/// and whether it ends the session.
///
/// In `Browse`, arrow keys move the selection, `Enter` toggles the selected
/// item, `'a'` opens the add box, `'d'` removes the selected item (the
/// transient `Remove` mode: entered and left within this same step), `Esc`
/// does nothing, and every other key ends the session. In `Add`, printable
/// characters and `Backspace` edit the buffer, `Enter` commits it, `Esc`
/// discards it, and any unrecognized key silently falls back to `Browse`
/// with the buffer kept. A session resting in `Remove` removes on whatever
/// key comes next.
pub open spec fn spec_step(pre: AppView, key: Key) -> (AppView, bool)
    recommends
        pre.cursor <= pre.content.len(),
{
    match pre.mode {
        Mode::Browse => match key {
            Key::Down => (
                AppView {
                    selected: spec_scrolled_down(pre.selected, 1, pre.items.len()),
                    ..pre
                },
                false,
            ),
            Key::Up => (
                AppView {
                    selected: spec_scrolled_up(pre.selected, 1, pre.items.len()),
                    ..pre
                },
                false,
            ),
            Key::Enter => (
                AppView { items: spec_toggle_selected(pre.items, pre.selected), ..pre },
                false,
            ),
            Key::Esc => (pre, false),
            Key::Char(c) => if c == 'a' {
                (
                    AppView {
                        mode: Mode::Add,
                        content: Seq::<char>::empty(),
                        cursor: 0nat,
                        ..pre
                    },
                    false,
                )
            } else if c == 'd' {
                (spec_remove_selected(pre), false)
            } else {
                (pre, true)
            },
            _ => (pre, true),
        },
        Mode::Add => match key {
            Key::Char(c) => (
                AppView {
                    content: spec_insert_char(pre.content, pre.cursor, c).0,
                    cursor: spec_insert_char(pre.content, pre.cursor, c).1,
                    ..pre
                },
                false,
            ),
            Key::Backspace => (
                AppView {
                    content: spec_delete_before(pre.content, pre.cursor).0,
                    cursor: spec_delete_before(pre.content, pre.cursor).1,
                    ..pre
                },
                false,
            ),
            Key::Enter => (spec_commit(pre), false),
            Key::Esc => (
                AppView {
                    mode: Mode::Browse,
                    content: Seq::<char>::empty(),
                    cursor: 0nat,
                    ..pre
                },
                false,
            ),
            _ => (AppView { mode: Mode::Browse, ..pre }, false),
        },
        Mode::Remove => (spec_remove_selected(pre), false),
    }
}

/// One session: the item list, the selection over it, the current mode, and
/// the text-edit buffer.
pub struct App {
    pub todos: Vec<Todo>,
    pub selector: ListSelector,
    pub mode: Mode,
    pub input: UserInput,
}

impl View for App {
    type V = AppView;

    open spec fn view(&self) -> AppView {
        AppView {
            items: self.todos@.map_values(|t: Todo| t@),
            selected: self.selector.selected,
            mode: self.mode,
            content: self.input.input@,
            cursor: self.input.char_index as nat,
        }
    }
}

impl App {
    /// The selection is valid for the list and the cursor is inside the
    /// buffer's content.
    pub open spec fn wf(self) -> bool {
        &&& self.selector.wf(self.todos@.len())
        &&& self.input.wf()
    }

    /// A session over the given initial items: selection clamped against
    /// them, `Browse` mode, an empty buffer.
    pub fn new(todos: Vec<Todo>) -> (app: App)
        ensures
            app.wf(),
            app@.items == todos@.map_values(|t: Todo| t@),
            app@.selected == spec_reclamped(None, todos@.len()),
            app@.mode == Mode::Browse,
            app@.content == Seq::<char>::empty(),
            app@.cursor == 0,
    {
        let len: usize = todos.len();
        let mut selector = ListSelector::new();
        selector.reclamp(len);
        App { todos, selector, mode: Mode::Browse, input: UserInput::new() }
    }

    /// Removes the item at the selection, if one is selected, and re-clamps
    /// the selection against the shortened list. With the selection absent
    /// — the empty list — nothing changes but the mode, which comes to rest
    /// in `Browse`.
    pub fn remove_selected(&mut self)
        requires
            old(self).wf(),
        ensures
            final(self).wf(),
            final(self)@ == spec_remove_selected(old(self)@),
    {
        match self.selector.selected() {
            Some(i) => {
                if i < self.todos.len() {
                    self.todos.remove(i);
                }
            },
            None => {},
        }
        let len: usize = self.todos.len();
        self.selector.reclamp(len);
        self.mode = Mode::Browse;
        proof {
            assert(self@ =~~= spec_remove_selected(old(self)@));
        }
    }

    /// Dispatches one key press according to the transition table
    /// [`spec_step`]; the result says whether the session is over.
    pub fn handle_key(&mut self, key: Key) -> (quit: bool)
        requires
            old(self).wf(),
        ensures
            final(self).wf(),
            final(self)@ == spec_step(old(self)@, key).0,
            quit == spec_step(old(self)@, key).1,
    {
        let quit: bool = match self.mode {
            Mode::Browse => match key {
                Key::Down => {
                    let len: usize = self.todos.len();
                    self.selector.scroll_down(1, len);
                    false
                },
                Key::Up => {
                    let len: usize = self.todos.len();
                    self.selector.scroll_up(1, len);
                    false
                },
                Key::Enter => {
                    self.toggle_selected();
                    false
                },
                Key::Esc => false,
                Key::Char(c) => {
                    if c == 'a' {
                        self.input.reset();
                        self.mode = Mode::Add;
                        false
                    } else if c == 'd' {
                        self.remove_selected();
                        false
                    } else {
                        true
                    }
                },
                _ => true,
            },
            Mode::Add => match key {
                Key::Char(c) => {
                    self.input.enter_char(c);
                    false
                },
                Key::Backspace => {
                    self.input.delete_char();
                    false
                },
                Key::Enter => {
                    self.commit_input();
                    false
                },
                Key::Esc => {
                    self.input.reset();
                    self.mode = Mode::Browse;
                    false
                },
                _ => {
                    self.mode = Mode::Browse;
                    false
                },
            },
            Mode::Remove => {
                self.remove_selected();
                false
            },
        };
        proof {
            assert(self@ =~~= spec_step(old(self)@, key).0);
        }
        quit
    }

    /// Toggles the completion flag of the selected item; a no-op when the
    /// selection is absent.
    pub fn toggle_selected(&mut self)
        requires
            old(self).wf(),
        ensures
            final(self).wf(),
            final(self)@ == (AppView {
                items: spec_toggle_selected(old(self)@.items, old(self)@.selected),
                ..old(self)@
            }),
    {
        match self.selector.selected() {
            Some(i) => {
                if i < self.todos.len() {
                    let message: String = self.todos[i].message.clone();
                    let was_done: bool = self.todos[i].is_finished();
                    self.todos[i] = Todo::new(message, !was_done);
                }
            },
            None => {},
        }
        proof {
            assert(self@ =~~= (AppView {
                items: spec_toggle_selected(old(self)@.items, old(self)@.selected),
                ..old(self)@
            }));
        }
    }

    /// Commits the buffer: appends a new not-done item carrying the
    /// buffer's content, re-clamps the selection against the grown list,
    /// resets the buffer, and returns to `Browse`.
    pub fn commit_input(&mut self)
        requires
            old(self).wf(),
        ensures
            final(self).wf(),
            final(self)@ == spec_commit(old(self)@),
    {
        let message: String = self.input.input.clone();
        let todo = Todo::new(message, false);
        self.todos.push(todo);
        let len: usize = self.todos.len();
        self.selector.reclamp(len);
        self.input.reset();
        self.mode = Mode::Browse;
        proof {
            assert(self@ =~~= spec_commit(old(self)@));
        }
    }
}

/// Removing at a valid selected index shrinks the list by exactly one and
/// takes out that position alone: items before it keep their places, items
/// after it move up by one.
pub proof fn lemma_remove_selected_removes_position(pre: AppView)
    requires
        pre.selected.is_some(),
        (pre.selected.unwrap() as nat) < pre.items.len(),
    ensures
        spec_remove_selected(pre).items.len() == pre.items.len() - 1,
        forall|j: int|
            0 <= j < pre.selected.unwrap() as int ==> spec_remove_selected(pre).items[j]
                == pre.items[j],
        forall|j: int|
            pre.selected.unwrap() as int <= j < pre.items.len() - 1
                ==> spec_remove_selected(pre).items[j] == pre.items[j + 1],
{
    let i = pre.selected.unwrap() as int;
    pre.items.remove_ensures(i);
}

} // verus!
