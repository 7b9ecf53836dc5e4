//! A single line of text, indexed by character position.

use vstd::prelude::*;

verus! {

/// Start of the visible window of `s` once `begin` and `end` are clamped:
/// `end` is clamped to the length of `s`, then `begin` is clamped to `end`.
pub open spec fn render_begin(s: Seq<char>, begin: int, end: int) -> int {
    let e = render_end(s, end);
    if begin <= e {
        begin
    } else {
        e
    }
}

/// End of the visible window of `s`: `end` clamped to the length of `s`.
pub open spec fn render_end(s: Seq<char>, end: int) -> int {
    if end <= s.len() {
        end
    } else {
        s.len() as int
    }
}

/// Relies on String::push: appends the character to the end of the string.
#[verifier::external_body]
fn push_char(s: &mut String, c: char)
    ensures
        final(s)@ == old(s)@.push(c),
{
    s.push(c)
}

/// One line of text. It is held as a sequence of characters, so every index
/// in the interface counts characters, never bytes, and an index can never
/// point into the middle of a multi-byte character.
pub struct Row {
    chars: Vec<char>,
}

impl View for Row {
    type V = Seq<char>;

    closed spec fn view(&self) -> Seq<char> {
        self.chars@
    }
}

impl Default for Row {
    /// An empty line.
    fn default() -> (r: Row)
        ensures
            r@ == Seq::<char>::empty(),
    {
        Row { chars: Vec::new() }
    }
}

impl Row {
    /// A line holding exactly the given characters, in order.
    pub fn from_chars(chars: Vec<char>) -> (r: Row)
        ensures
            r@ == chars@,
    {
        Row { chars }
    }

    /// The part of the line visible in a viewport window: the characters from
    /// `begin` (inclusive) to `end` (exclusive), both clamped so that the
    /// window always lies inside the line. Never fails; an inverted or
    /// out-of-range window yields an empty string.
    pub fn render(&self, begin: usize, end: usize) -> (r: String)
        ensures
            r@ == self@.subrange(
                render_begin(self@, begin as int, end as int),
                render_end(self@, end as int),
            ),
    {
        let e: usize = if end <= self.chars.len() {
            end
        } else {
            self.chars.len()
        };
        let b: usize = if begin <= e {
            begin
        } else {
            e
        };
        let mut r = String::new();
        let mut i: usize = b;
        while i < e
            invariant
                b <= i <= e,
                e <= self.chars.len(),
                r@ == self@.subrange(b as int, i as int),
            decreases e - i,
        {
            push_char(&mut r, self.chars[i]);
            i = i + 1;
            assert(r@ =~= self@.subrange(b as int, i as int));
        }
        r
    }

    /// The number of characters in the line.
    pub fn len(&self) -> (n: usize)
        ensures
            n == self@.len(),
    {
        self.chars.len()
    }

    /// Whether the line holds no characters.
    pub fn is_empty(&self) -> (b: bool)
        ensures
            b == (self@.len() == 0),
    {
        self.chars.len() == 0
    }

    /// Inserts `c` immediately before position `column_index`, which may
    /// equal the length (insertion at the end of the line). The caller is
    /// responsible for the bound.
    pub fn insert_char(&mut self, column_index: usize, c: char)
        requires
            column_index <= old(self)@.len(),
        ensures
            final(self)@ == old(self)@.insert(column_index as int, c),
    {
        self.chars.insert(column_index, c);
    }

    /// Removes the character at position `column_index`. The caller is
    /// responsible for the bound.
    pub fn remove_char(&mut self, column_index: usize)
        requires
            column_index < old(self)@.len(),
        ensures
            final(self)@ == old(self)@.remove(column_index as int),
    {
        self.chars.remove(column_index);
    }

    /// Appends another line's full text to this line, consuming the other
    /// line; used when two rows are merged.
    pub fn append(&mut self, other: Row)
        ensures
            final(self)@ == old(self)@ + other@,
    {
        let mut tail = other.chars;
        self.chars.append(&mut tail);
    }
}

} // verus!
