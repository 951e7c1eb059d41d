//! The character-addressed text-edit buffer.
//!
//! The buffer owns a text value and a cursor counted in characters (Unicode
//! scalar values). The text is stored UTF-8 encoded, so every mutation at a
//! character position first translates that position to a byte offset; the
//! cursor itself always stays within `[0, character_count]`, so it addresses
//! a valid insertion point between characters.

use vstd::prelude::*;
use vstd::string::*;

verus! {

/// The smaller of a candidate cursor position and the character count:
/// the clamp that keeps the cursor inside `[0, count]`.
pub open spec fn spec_clamped(pos: nat, count: nat) -> nat {
    if pos <= count {
        pos
    } else {
        count
    }
}

/// What inserting `c` at cursor `cursor` does to the model: the character
/// goes in at the cursor and the cursor advances past it.
pub open spec fn spec_insert_char(content: Seq<char>, cursor: nat, c: char) -> (Seq<char>, nat)
    recommends
        cursor <= content.len(),
{
    (content.insert(cursor as int, c), (cursor + 1) as nat)
}

/// What deleting before the cursor does to the model: a no-op at the left
/// edge, otherwise the character left of the cursor goes and the cursor
/// moves onto its place.
pub open spec fn spec_delete_before(content: Seq<char>, cursor: nat) -> (Seq<char>, nat)
    recommends
        cursor <= content.len(),
{
    if cursor == 0 {
        (content, 0nat)
    } else {
        (content.remove(cursor - 1), (cursor - 1) as nat)
    }
}

/// Inserting a character and immediately deleting before the cursor
/// restores both the content and the cursor, for any cursor position and
/// any character.
pub proof fn lemma_insert_then_delete(content: Seq<char>, cursor: nat, c: char)
    requires
        cursor <= content.len(),
    ensures
        spec_delete_before(
            spec_insert_char(content, cursor, c).0,
            spec_insert_char(content, cursor, c).1,
        ).0 == content,
        spec_delete_before(
            spec_insert_char(content, cursor, c).0,
            spec_insert_char(content, cursor, c).1,
        ).1 == cursor,
{
    let inserted = content.insert(cursor as int, c);
    assert(inserted.remove(cursor as int) =~= content);
}

/// The text-edit buffer: the content and the character-indexed cursor.
pub struct UserInput {
    pub input: String,
    pub char_index: usize,
}

impl UserInput {
    /// The cursor addresses an insertion point of the content: somewhere
    /// between before-first and after-last.
    pub open spec fn wf(self) -> bool {
        self.char_index <= self.input@.len()
    }

    /// An empty buffer with the cursor at the start.
    pub fn new() -> (u: UserInput)
        ensures
            u.input@ == Seq::<char>::empty(),
            u.char_index == 0,
            u.wf(),
    {
        UserInput { input: String::new(), char_index: 0 }
    }

    /// Clears content and cursor back to the initial empty state.
    pub fn reset(&mut self)
        ensures
            final(self).input@ == Seq::<char>::empty(),
            final(self).char_index == 0,
            final(self).wf(),
    {
        self.input = String::new();
        self.reset_cursor();
    }

    /// Puts the cursor back to the start of the content.
    pub fn reset_cursor(&mut self)
        ensures
            final(self).input == old(self).input,
            final(self).char_index == 0,
    {
        self.char_index = 0;
    }

    /// Clamps a candidate cursor position into `[0, character_count]`.
    pub fn clamp_cursor(&self, new_cursor_pos: usize) -> (r: usize)
        ensures
            r == spec_clamped(new_cursor_pos as nat, self.input@.len()),
            self.input@.len() <= usize::MAX,
    {
        let count: usize = self.input.as_str().unicode_len();
        if new_cursor_pos > count {
            count
        } else {
            new_cursor_pos
        }
    }

    /// Moves the cursor one character left, saturating at the left edge.
    pub fn move_cursor_left(&mut self)
        ensures
            final(self).input == old(self).input,
            final(self).char_index == spec_clamped(
                if old(self).char_index > 0 {
                    (old(self).char_index - 1) as nat
                } else {
                    0nat
                },
                old(self).input@.len(),
            ),
            final(self).wf(),
    {
        let cursor_moved_left: usize = self.char_index.saturating_sub(1);
        self.char_index = self.clamp_cursor(cursor_moved_left);
    }

    /// Moves the cursor one character right, clamped to the end of the
    /// content.
    pub fn move_cursor_right(&mut self)
        ensures
            final(self).input == old(self).input,
            final(self).char_index == spec_clamped(
                (old(self).char_index + 1) as nat,
                old(self).input@.len(),
            ),
            final(self).wf(),
    {
        let cursor_moved_right: usize = self.char_index.saturating_add(1);
        self.char_index = self.clamp_cursor(cursor_moved_right);
    }

    /// Translates the cursor's character position into the byte offset where
    /// the next character would be stored: the UTF-8 length of the content
    /// before the cursor.
    pub fn byte_index(&self) -> (r: usize)
        requires
            self.wf(),
        ensures
            r == vstd::utf8::encode_utf8(
                self.input@.subrange(0, self.char_index as int),
            ).len(),
    {
        let prefix: &str = self.input.as_str().substring_char(0, self.char_index);
        prefix.as_bytes().len()
    }

    /// Inserts `c` at the cursor's byte offset and advances the cursor past
    /// the inserted character.
    pub fn enter_char(&mut self, c: char)
        requires
            old(self).wf(),
        ensures
            final(self).input@ == spec_insert_char(
                old(self).input@,
                old(self).char_index as nat,
                c,
            ).0,
            final(self).char_index == spec_insert_char(
                old(self).input@,
                old(self).char_index as nat,
                c,
            ).1,
            final(self).wf(),
    {
        let count: usize = self.input.as_str().unicode_len();
        let before: &str = self.input.as_str().substring_char(0, self.char_index);
        let after: &str = self.input.as_str().substring_char(self.char_index, count);
        let mut rebuilt: String = before.to_owned();
        push_char(&mut rebuilt, c);
        rebuilt.append(after);
        self.input = rebuilt;
        proof {
            assert(self.input@ =~= old(self).input@.insert(old(self).char_index as int, c));
        }
        self.move_cursor_right();
    }

    /// Removes the character immediately left of the cursor and moves the
    /// cursor onto its place; a no-op when the cursor is at the left edge.
    pub fn delete_char(&mut self)
        requires
            old(self).wf(),
        ensures
            final(self).input@ == spec_delete_before(
                old(self).input@,
                old(self).char_index as nat,
            ).0,
            final(self).char_index == spec_delete_before(
                old(self).input@,
                old(self).char_index as nat,
            ).1,
            final(self).wf(),
    {
        let is_not_cursor_leftmost: bool = self.char_index != 0;
        if is_not_cursor_leftmost {
            let count: usize = self.input.as_str().unicode_len();
            let before: &str = self.input.as_str().substring_char(0, self.char_index - 1);
            let after: &str = self.input.as_str().substring_char(self.char_index, count);
            let mut rebuilt: String = before.to_owned();
            rebuilt.append(after);
            self.input = rebuilt;
            proof {
                assert(self.input@ =~= old(self).input@.remove(
                    old(self).char_index - 1,
                ));
            }
            self.move_cursor_left();
        }
    }
}

/// Relies on `String::push`: appends the given character to the end of the
/// string.
#[verifier::external_body]
fn push_char(s: &mut String, c: char)
    ensures
        final(s)@ == old(s)@.push(c),
{
    s.push(c);
}

} // verus!
