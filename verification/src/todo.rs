//! A single list entry: a message together with a completion flag.

use vstd::prelude::*;
use vstd::string::*;

verus! {

/// Ghost model of a [`Todo`]: the message as a sequence of characters and
/// the completion flag.
pub struct TodoView {
    pub message: Seq<char>,
    pub done: bool,
}

/// What toggling the completion flag does to the model.
pub open spec fn spec_toggled(t: TodoView) -> TodoView {
    TodoView { message: t.message, done: !t.done }
}

/// Toggling an item's completion flag twice returns it to its original value.
pub proof fn lemma_toggle_twice(t: TodoView)
    ensures
        spec_toggled(spec_toggled(t)) == t,
{
}

/// A list entry.
#[derive(Debug, Clone)]
pub struct Todo {
    pub message: String,
    pub done: bool,
}

impl View for Todo {
    type V = TodoView;

    open spec fn view(&self) -> TodoView {
        TodoView { message: self.message@, done: self.done }
    }
}

impl Todo {
    pub fn new(message: String, done: bool) -> (t: Todo)
        ensures
            t@ == (TodoView { message: message@, done }),
    {
        Todo { message, done }
    }

    pub fn get_message(&self) -> (m: &str)
        ensures
            m@ == self@.message,
    {
        self.message.as_str()
    }

    pub fn is_finished(&self) -> (f: bool)
        ensures
            f == self@.done,
    {
        self.done
    }

    pub fn toggle(&mut self) -> (r: &mut Self)
        ensures
            *r == spec_toggled_todo(*old(self)),
            *final(self) == *final(r),
    {
        self.done = !self.done;
        self
    }

    /// The one-line rendering of the entry: a checkbox marker followed by
    /// the message.
    pub fn display_line(&self) -> (r: String)
        ensures
            r@ == spec_display_line(self@),
    {
        let mut line: String = if self.done {
            "- [x] ".to_owned()
        } else {
            "- [ ] ".to_owned()
        };
        line.append(self.message.as_str());
        line
    }
}

/// The one-line rendering of an entry: `- [x] ` or `- [ ] ` according to
/// the completion flag, then the message.
pub open spec fn spec_display_line(t: TodoView) -> Seq<char> {
    (if t.done {
        "- [x] "@
    } else {
        "- [ ] "@
    }) + t.message
}

/// Toggling at the level of the concrete type: only the flag changes.
pub open spec fn spec_toggled_todo(t: Todo) -> Todo {
    Todo { message: t.message, done: !t.done }
}

} // verus!
