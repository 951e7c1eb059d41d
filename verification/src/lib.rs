//! A verified core for an interactive terminal todo-list editor.
//!
//! The library holds the session logic: the list of items, the
//! character-addressed text-edit buffer, the selection over the list, and
//! the modal state machine that routes key presses to the right mutation.
//! Terminal setup and rendering are left to the surrounding application.

pub mod input;
pub mod machine;
pub mod selector;
pub mod todo;
