//! The cursor and navigation state machine.
//!
//! A key intent, together with the current cursor position and the buffer
//! geometry, determines the next cursor position and, for edit intents, the
//! buffer mutation. Each intent is handled to completion; for edit intents
//! the cursor move is computed against the geometry *after* the mutation, so
//! the cursor invariant is re-established against the new buffer.

use vstd::prelude::*;

use crate::document::Document;
use crate::document::add_row_spec;
use crate::document::insert_into_row_spec;
use crate::document::merge_with_previous_spec;
use crate::document::remove_from_row_spec;
use crate::document::remove_row_spec;
use crate::document::row_len_of;

verus! {

/// A discrete key intent, as decoded by the input collaborator.
#[derive(Clone, Copy)]
pub enum Key {
    Left,
    Right,
    Up,
    Down,
    Home,
    End,
    PageUp,
    PageDown,
    Char(char),
    Enter,
    Backspace,
    Delete,
    Quit,
    Other,
}

/// The cursor position: `x` is the column (the next insertion point, so it
/// may equal the row's length), `y` the row, both zero-based.
#[derive(Clone, Copy, Debug, PartialEq, Eq, Structural)]
pub struct Position {
    pub x: usize,
    pub y: usize,
}

/// `x` clamped so that it does not exceed `limit`.
pub open spec fn clamped(x: int, limit: int) -> int {
    if x <= limit {
        x
    } else {
        limit
    }
}

/// The cursor position that a navigation intent yields, as `(x, y)`, given
/// the buffer geometry. Edit intents and unknown intents leave the cursor
/// where it is.
pub open spec fn moved_cursor(doc: Seq<Seq<char>>, x: int, y: int, key: Key) -> (int, int) {
    match key {
        Key::Left => if x > 0 {
            (x - 1, y)
        } else if y > 0 {
            (row_len_of(doc, y - 1), y - 1)
        } else {
            (x, y)
        },
        Key::Right => if x < row_len_of(doc, y) {
            (x + 1, y)
        } else if doc.len() > 0 && y < doc.len() - 1 {
            (0int, y + 1)
        } else {
            (x, y)
        },
        Key::Up => {
            let ny = if y > 0 {
                y - 1
            } else {
                y
            };
            (clamped(x, row_len_of(doc, ny)), ny)
        },
        Key::Down => {
            let ny = if doc.len() > 0 && y < doc.len() - 1 {
                y + 1
            } else {
                y
            };
            (clamped(x, row_len_of(doc, ny)), ny)
        },
        Key::PageUp => (0int, 0int),
        Key::PageDown => {
            let ny = if doc.len() > 0 {
                doc.len() - 1
            } else {
                0int
            };
            (row_len_of(doc, ny), ny)
        },
        Key::Home => (0int, y),
        Key::End => (row_len_of(doc, y), y),
        _ => (x, y),
    }
}

/// The buffer that an edit intent yields, given the cursor position.
/// Navigation and unknown intents leave the buffer unchanged.
pub open spec fn edited_doc(doc: Seq<Seq<char>>, x: int, y: int, key: Key) -> Seq<Seq<char>> {
    match key {
        Key::Char(c) => insert_into_row_spec(doc, y, x, c),
        Key::Enter => add_row_spec(doc, y),
        Key::Backspace => if x == 0 {
            if row_len_of(doc, y) != 0 {
                merge_with_previous_spec(doc, y)
            } else {
                remove_row_spec(doc, y)
            }
        } else {
            remove_from_row_spec(doc, y, x)
        },
        Key::Delete => if x < row_len_of(doc, y) {
            remove_from_row_spec(doc, y, x + 1)
        } else {
            merge_with_previous_spec(doc, y + 1)
        },
        _ => doc,
    }
}

/// The cursor position that an edit intent yields: inserting moves right,
/// backspace moves left, both against the geometry after the mutation;
/// delete leaves the cursor in place.
pub open spec fn edited_cursor(doc: Seq<Seq<char>>, x: int, y: int, key: Key) -> (int, int) {
    let after = edited_doc(doc, x, y, key);
    match key {
        Key::Char(_) => moved_cursor(after, x, y, Key::Right),
        Key::Enter => moved_cursor(after, x, y, Key::Right),
        Key::Backspace => moved_cursor(after, x, y, Key::Left),
        _ => (x, y),
    }
}

/// Whether `key` is a navigation intent.
pub open spec fn is_nav_key(key: Key) -> bool {
    match key {
        Key::Left | Key::Right | Key::Up | Key::Down | Key::Home | Key::End | Key::PageUp
            | Key::PageDown => true,
        _ => false,
    }
}

/// Whether `key` is an edit intent.
pub open spec fn is_edit_key(key: Key) -> bool {
    match key {
        Key::Char(_) | Key::Enter | Key::Backspace | Key::Delete => true,
        _ => false,
    }
}

/// The buffer after one keystroke is handled.
pub open spec fn step_doc(doc: Seq<Seq<char>>, x: int, y: int, key: Key) -> Seq<Seq<char>> {
    if is_edit_key(key) {
        edited_doc(doc, x, y, key)
    } else {
        doc
    }
}

/// The cursor after one keystroke is handled.
pub open spec fn step_cursor(doc: Seq<Seq<char>>, x: int, y: int, key: Key) -> (int, int) {
    if is_nav_key(key) {
        moved_cursor(doc, x, y, key)
    } else if is_edit_key(key) {
        edited_cursor(doc, x, y, key)
    } else {
        (x, y)
    }
}

/// The cursor invariant: the buffer has at least one row, the cursor sits on
/// one of them, and its column is at most that row's length.
pub open spec fn cursor_ok(doc: Seq<Seq<char>>, x: int, y: int) -> bool {
    &&& doc.len() >= 1
    &&& 0 <= y < doc.len()
    &&& 0 <= x <= row_len_of(doc, y)
}

/// The editor state: the buffer, the cursor, and the termination flag. The
/// input and rendering collaborators live outside: they hand keystrokes in
/// through [`Editor::process_key`] and read the state back out.
pub struct Editor {
    pub should_quit: bool,
    pub cursor_position: Position,
    pub document: Document,
}

impl Editor {
    /// A freshly opened editor: cursor at the top left, not quitting.
    pub fn new(document: Document) -> (e: Editor)
        ensures
            e.document == document,
            e.cursor_position.x == 0,
            e.cursor_position.y == 0,
            !e.should_quit,
    {
        Editor { should_quit: false, cursor_position: Position { x: 0, y: 0 }, document }
    }

    /// Repositions the cursor for a navigation intent, clamping at the
    /// buffer's edges; the buffer itself is untouched.
    pub fn move_cursor(&mut self, key: Key)
        ensures
            final(self).document == old(self).document,
            final(self).should_quit == old(self).should_quit,
            (final(self).cursor_position.x as int, final(self).cursor_position.y as int)
                == moved_cursor(
                old(self).document@,
                old(self).cursor_position.x as int,
                old(self).cursor_position.y as int,
                key,
            ),
    {
        let mut x = self.cursor_position.x;
        let mut y = self.cursor_position.y;
        match key {
            Key::Left => {
                if x > 0 {
                    x = x - 1;
                } else if y > 0 {
                    y = y - 1;
                    x = self.document.row_len(y);
                }
            },
            Key::Right => {
                if x < self.document.row_len(y) {
                    x = x + 1;
                } else if self.document.line_count() > 0 && y < self.document.line_count() - 1 {
                    y = y + 1;
                    x = 0;
                }
            },
            Key::Up => {
                if y > 0 {
                    y = y - 1;
                }
                let limit = self.document.row_len(y);
                if x > limit {
                    x = limit;
                }
            },
            Key::Down => {
                if self.document.line_count() > 0 && y < self.document.line_count() - 1 {
                    y = y + 1;
                }
                let limit = self.document.row_len(y);
                if x > limit {
                    x = limit;
                }
            },
            Key::PageUp => {
                x = 0;
                y = 0;
            },
            Key::PageDown => {
                let count = self.document.line_count();
                y = if count > 0 {
                    count - 1
                } else {
                    0
                };
                x = self.document.row_len(y);
            },
            Key::Home => {
                x = 0;
            },
            Key::End => {
                x = self.document.row_len(y);
            },
            _ => {},
        }
        self.cursor_position.x = x;
        self.cursor_position.y = y;
    }

    /// Applies an edit intent: mutates the buffer at the cursor, then
    /// recomputes the cursor against the post-mutation geometry.
    pub fn edit_text(&mut self, key: Key)
        ensures
            final(self).should_quit == old(self).should_quit,
            final(self).document@ == edited_doc(
                old(self).document@,
                old(self).cursor_position.x as int,
                old(self).cursor_position.y as int,
                key,
            ),
            (final(self).cursor_position.x as int, final(self).cursor_position.y as int)
                == edited_cursor(
                old(self).document@,
                old(self).cursor_position.x as int,
                old(self).cursor_position.y as int,
                key,
            ),
    {
        let x = self.cursor_position.x;
        let y = self.cursor_position.y;
        match key {
            Key::Backspace => {
                if x == 0 {
                    if self.document.row_len(y) != 0 {
                        self.document.remove_and_append_to_previous_row(y);
                    } else {
                        self.document.remove_row(y);
                    }
                } else {
                    self.document.remove_from_row(y, x);
                }
                self.move_cursor(Key::Left);
            },
            Key::Delete => {
                if x < self.document.row_len(y) {
                    self.document.remove_from_row(y, x + 1);
                } else if y < self.document.line_count() {
                    self.document.remove_and_append_to_previous_row(y + 1);
                }
            },
            Key::Enter => {
                self.document.add_row(y);
                self.move_cursor(Key::Right);
            },
            Key::Char(c) => {
                self.document.insert_into_row(y, x, c);
                self.move_cursor(Key::Right);
            },
            _ => {},
        }
    }

    /// Handles one keystroke to completion: navigation intents move the
    /// cursor, edit intents mutate the buffer and then move the cursor, the
    /// quit intent raises the termination flag, and anything else is
    /// ignored.
    pub fn process_key(&mut self, key: Key)
        ensures
            final(self).document@ == step_doc(
                old(self).document@,
                old(self).cursor_position.x as int,
                old(self).cursor_position.y as int,
                key,
            ),
            (final(self).cursor_position.x as int, final(self).cursor_position.y as int)
                == step_cursor(
                old(self).document@,
                old(self).cursor_position.x as int,
                old(self).cursor_position.y as int,
                key,
            ),
            final(self).should_quit == (old(self).should_quit || key is Quit),
    {
        match key {
            Key::Quit => {
                self.should_quit = true;
            },
            Key::Left | Key::Right | Key::Up | Key::Down | Key::Home | Key::End | Key::PageUp
                | Key::PageDown => {
                self.move_cursor(key);
            },
            Key::Char(_) | Key::Enter | Key::Backspace | Key::Delete => {
                self.edit_text(key);
            },
            Key::Other => {},
        }
    }
}

/// A keystroke never empties the buffer, with a single exception: backspace
/// at the start of the only row while that row is empty, which deletes the
/// buffer's last row.
pub proof fn lemma_line_count_stays_positive(doc: Seq<Seq<char>>, x: int, y: int, key: Key)
    requires
        doc.len() >= 1,
        0 <= x,
        0 <= y,
        !(key is Backspace && x == 0 && y == 0 && doc.len() == 1 && doc[0].len() == 0),
    ensures
        step_doc(doc, x, y, key).len() >= 1,
{
}

/// Home is idempotent: it always lands the cursor at column zero, and a
/// second Home from there changes nothing.
pub proof fn lemma_home_idempotent(doc: Seq<Seq<char>>, x: int, y: int)
    ensures
        moved_cursor(doc, x, y, Key::Home).0 == 0,
        moved_cursor(
            doc,
            moved_cursor(doc, x, y, Key::Home).0,
            moved_cursor(doc, x, y, Key::Home).1,
            Key::Home,
        ) == moved_cursor(doc, x, y, Key::Home),
{
}

/// End is idempotent: it always lands the cursor at the end of its row, and
/// a second End from there changes nothing.
pub proof fn lemma_end_idempotent(doc: Seq<Seq<char>>, x: int, y: int)
    ensures
        moved_cursor(doc, x, y, Key::End).0 == row_len_of(doc, y),
        moved_cursor(
            doc,
            moved_cursor(doc, x, y, Key::End).0,
            moved_cursor(doc, x, y, Key::End).1,
            Key::End,
        ) == moved_cursor(doc, x, y, Key::End),
{
}

/// Backspace at the start of a non-empty row that has a predecessor merges
/// the row into the one above: the buffer loses exactly one row, and the
/// merged row's text is the previous row's text followed by the current
/// row's text.
pub proof fn lemma_backspace_merges_rows(doc: Seq<Seq<char>>, y: int)
    requires
        0 < y < doc.len(),
        doc[y].len() != 0,
    ensures
        step_doc(doc, 0, y, Key::Backspace).len() == doc.len() - 1,
        step_doc(doc, 0, y, Key::Backspace)[y - 1] == doc[y - 1] + doc[y],
{
}

/// Every keystroke re-establishes the cursor invariant, except the one that
/// empties the buffer (backspace at the start of the only row while that row
/// is empty): the cursor always ends on an existing row, at a column no
/// greater than that row's length.
pub proof fn lemma_cursor_invariant_preserved(doc: Seq<Seq<char>>, x: int, y: int, key: Key)
    requires
        cursor_ok(doc, x, y),
        !(key is Backspace && x == 0 && y == 0 && doc.len() == 1 && doc[0].len() == 0),
    ensures
        cursor_ok(
            step_doc(doc, x, y, key),
            step_cursor(doc, x, y, key).0,
            step_cursor(doc, x, y, key).1,
        ),
{
    let after = step_doc(doc, x, y, key);
    match key {
        Key::Char(c) => {
            assert(row_len_of(after, y) == doc[y].len() + 1);
        },
        Key::Enter => {
            doc.insert_ensures(crate::document::add_row_pos(doc, y), Seq::<char>::empty());
        },
        Key::Backspace => {
            if x == 0 && row_len_of(doc, y) != 0 && y > 0 {
                assert(row_len_of(after, y - 1) == doc[y - 1].len() + doc[y].len());
            }
        },
        Key::Delete => {
            if x < row_len_of(doc, y) {
                assert(row_len_of(after, y) == doc[y].len() - 1);
            } else if 0 < y + 1 < doc.len() {
                assert(row_len_of(after, y) == doc[y].len() + doc[y + 1].len());
            }
        },
        _ => {},
    }
}

} // verus!
