//! An ordered sequence of rows: the in-memory text buffer.
//!
//! Every mutating operation clamps or ignores out-of-range coordinates
//! instead of failing: the cursor is maintained by a separate component and
//! may hand in transiently stale coordinates after the buffer shrinks, and
//! those must never corrupt the buffer.

use vstd::prelude::*;

use crate::row::Row;

verus! {

/// The length of row `row_index`, or 0 if there is no such row.
pub open spec fn row_len_of(doc: Seq<Seq<char>>, row_index: int) -> int {
    if 0 <= row_index < doc.len() {
        doc[row_index].len() as int
    } else {
        0
    }
}

/// Buffer after inserting `c` before position `column_index` of row
/// `row_index`; the buffer is unchanged unless the row exists and the column
/// is at most its length.
pub open spec fn insert_into_row_spec(
    doc: Seq<Seq<char>>,
    row_index: int,
    column_index: int,
    c: char,
) -> Seq<Seq<char>> {
    if 0 <= row_index < doc.len() && 0 <= column_index <= doc[row_index].len() {
        doc.update(row_index, doc[row_index].insert(column_index, c))
    } else {
        doc
    }
}

/// Buffer after removing one character of row `row_index`: the one at
/// `column_index` if that is in range, else the last one. An absent row or an
/// empty row leaves the buffer unchanged.
pub open spec fn remove_from_row_spec(
    doc: Seq<Seq<char>>,
    row_index: int,
    column_index: int,
) -> Seq<Seq<char>> {
    if 0 <= row_index < doc.len() && doc[row_index].len() > 0 {
        let j = if 0 <= column_index < doc[row_index].len() {
            column_index
        } else {
            doc[row_index].len() - 1
        };
        doc.update(row_index, doc[row_index].remove(j))
    } else {
        doc
    }
}

/// Buffer after merging row `row_index` into its predecessor: the
/// predecessor becomes the concatenation of the two rows and row `row_index`
/// disappears. Unchanged unless `row_index` names an existing row with a
/// predecessor.
pub open spec fn merge_with_previous_spec(doc: Seq<Seq<char>>, row_index: int) -> Seq<Seq<char>> {
    if 0 < row_index < doc.len() {
        doc.remove(row_index).update(row_index - 1, doc[row_index - 1] + doc[row_index])
    } else {
        doc
    }
}

/// Buffer after deleting row `row_index` outright; unchanged if out of range.
pub open spec fn remove_row_spec(doc: Seq<Seq<char>>, row_index: int) -> Seq<Seq<char>> {
    if 0 <= row_index < doc.len() {
        doc.remove(row_index)
    } else {
        doc
    }
}

/// Where a new row lands: `row_index`, clamped so that it never exceeds the
/// index of the last row (a new row can land before the final slot, never
/// past it).
pub open spec fn add_row_pos(doc: Seq<Seq<char>>, row_index: int) -> int {
    if doc.len() == 0 {
        0
    } else if row_index < doc.len() - 1 {
        row_index
    } else {
        doc.len() - 1
    }
}

/// Buffer after inserting a new empty row at the clamped position.
pub open spec fn add_row_spec(doc: Seq<Seq<char>>, row_index: int) -> Seq<Seq<char>> {
    doc.insert(add_row_pos(doc, row_index), Seq::empty())
}

/// The text of each row of `rows`, in order.
pub open spec fn rows_view(rows: Seq<Row>) -> Seq<Seq<char>> {
    Seq::new(rows.len(), |i: int| rows[i]@)
}

/// An ordered sequence of rows; the index of a row is its zero-based line
/// number, top to bottom.
pub struct Document {
    rows: Vec<Row>,
}

impl View for Document {
    type V = Seq<Seq<char>>;

    closed spec fn view(&self) -> Seq<Seq<char>> {
        rows_view(self.rows@)
    }
}

impl Document {
    /// The buffer for an opened file, one row per line of the file, in
    /// order. An empty file still yields a single empty row, so an open
    /// buffer never has fewer than one row.
    pub fn from_rows(rows: Vec<Row>) -> (d: Document)
        ensures
            d@ == if rows@.len() == 0 {
                seq![Seq::<char>::empty()]
            } else {
                rows_view(rows@)
            },
            d@.len() >= 1,
    {
        let mut rows = rows;
        if rows.len() == 0 {
            rows.push(Row::default());
            assert(rows_view(rows@) =~= seq![Seq::<char>::empty()]);
        }
        Document { rows }
    }

    /// The row at `index`, or `None` past the end of the buffer.
    pub fn row(&self, index: usize) -> (r: Option<&Row>)
        ensures
            match r {
                Some(row) => index < self@.len() && row@ == self@[index as int],
                None => index >= self@.len(),
            },
    {
        if index < self.rows.len() {
            Some(&self.rows[index])
        } else {
            None
        }
    }

    /// The number of rows.
    pub fn line_count(&self) -> (n: usize)
        ensures
            n == self@.len(),
    {
        self.rows.len()
    }

    /// The length of row `row_index`, or 0 if there is no such row.
    pub fn row_len(&self, row_index: usize) -> (n: usize)
        ensures
            n as int == row_len_of(self@, row_index as int),
    {
        if row_index < self.rows.len() {
            self.rows[row_index].len()
        } else {
            0
        }
    }

    /// Inserts `c` before position `column_index` of row `row_index`;
    /// silently ignored unless the row exists and the column is at most its
    /// length.
    pub fn insert_into_row(&mut self, row_index: usize, column_index: usize, c: char)
        ensures
            final(self)@ == insert_into_row_spec(
                old(self)@,
                row_index as int,
                column_index as int,
                c,
            ),
    {
        if row_index < self.rows.len() {
            let len = self.rows[row_index].len();
            if column_index <= len {
                let row = &mut self.rows[row_index];
                row.insert_char(column_index, c);
            }
        }
        assert(self@ =~= insert_into_row_spec(
            old(self)@,
            row_index as int,
            column_index as int,
            c,
        ));
    }

    /// Removes the character at `column_index` of row `row_index`; a column
    /// at or past the row's end removes the row's last character instead.
    /// An absent or empty row is left alone.
    pub fn remove_from_row(&mut self, row_index: usize, column_index: usize)
        ensures
            final(self)@ == remove_from_row_spec(old(self)@, row_index as int, column_index as int),
    {
        if row_index < self.rows.len() {
            let len = self.rows[row_index].len();
            if column_index < len {
                let row = &mut self.rows[row_index];
                row.remove_char(column_index);
            } else if len > 0 {
                let row = &mut self.rows[row_index];
                row.remove_char(len - 1);
            }
        }
        assert(self@ =~= remove_from_row_spec(old(self)@, row_index as int, column_index as int));
    }

    /// Merges row `row_index` into the row above it: the predecessor gains
    /// the row's text and the row itself disappears, shifting all later rows
    /// up by one. A row without a predecessor, or an absent row, is left
    /// alone.
    pub fn remove_and_append_to_previous_row(&mut self, row_index: usize)
        ensures
            final(self)@ == merge_with_previous_spec(old(self)@, row_index as int),
    {
        if row_index > 0 && row_index < self.rows.len() {
            let curr = self.rows.remove(row_index);
            let prev = &mut self.rows[row_index - 1];
            prev.append(curr);
        }
        assert(self@ =~= merge_with_previous_spec(old(self)@, row_index as int));
    }

    /// Deletes row `row_index` outright; ignored if out of range.
    pub fn remove_row(&mut self, row_index: usize)
        ensures
            final(self)@ == remove_row_spec(old(self)@, row_index as int),
    {
        if row_index < self.rows.len() {
            self.rows.remove(row_index);
        }
        assert(self@ =~= remove_row_spec(old(self)@, row_index as int));
    }

    /// Inserts a new empty row at `row_index`, clamped so that the insertion
    /// index never exceeds the index of the last row.
    pub fn add_row(&mut self, row_index: usize)
        ensures
            final(self)@ == add_row_spec(old(self)@, row_index as int),
    {
        let count = self.rows.len();
        let pos = if count == 0 {
            0
        } else if row_index < count - 1 {
            row_index
        } else {
            count - 1
        };
        self.rows.insert(pos, Row::default());
        assert(self@ =~= add_row_spec(old(self)@, row_index as int));
    }
}

/// Inserting a character and then removing one at the same coordinates
/// restores the buffer exactly, whenever the coordinates name a row and a
/// column at most that row's length.
pub proof fn lemma_insert_remove_round_trip(
    doc: Seq<Seq<char>>,
    row_index: int,
    column_index: int,
    c: char,
)
    requires
        0 <= row_index < doc.len(),
        0 <= column_index <= doc[row_index].len(),
    ensures
        remove_from_row_spec(
            insert_into_row_spec(doc, row_index, column_index, c),
            row_index,
            column_index,
        ) == doc,
{
    let grown = insert_into_row_spec(doc, row_index, column_index, c);
    assert(grown[row_index] == doc[row_index].insert(column_index, c));
    assert(grown[row_index].remove(column_index) =~= doc[row_index]);
    assert(remove_from_row_spec(grown, row_index, column_index) =~= doc);
}

/// Adding a row grows the buffer by exactly one and leaves the text of every
/// row that was already there unchanged: the rows below the insertion point
/// keep their place, the rest shift down by one.
pub proof fn lemma_add_row_preserves_rows(doc: Seq<Seq<char>>, row_index: int)
    requires
        0 <= row_index,
    ensures
        add_row_spec(doc, row_index).len() == doc.len() + 1,
        add_row_spec(doc, row_index)[add_row_pos(doc, row_index)] == Seq::<char>::empty(),
        forall|i: int|
            0 <= i < add_row_pos(doc, row_index) ==> #[trigger] add_row_spec(doc, row_index)[i]
                == doc[i],
        forall|i: int|
            add_row_pos(doc, row_index) <= i < doc.len() ==> add_row_spec(doc, row_index)[i + 1]
                == #[trigger] doc[i],
{
    doc.insert_ensures(add_row_pos(doc, row_index), Seq::<char>::empty());
}

} // verus!
