//! The line as mathematics: two spans of characters that meet at the cursor.
//!
//! Every operation of the editor is first a function on this model. The
//! executable line is specified by it, and what must hold of every sequence
//! of edits is proved here once.

use vstd::prelude::*;
use crate::words::word_start_after;

verus! {

/// Screen columns taken by the prompt `"> "`, left of the logical line.
pub const PROMPT_WIDTH: u16 = 2;

/// The longest line whose every column, prompt included, is a `u16`.
pub const MAX_LENGTH: usize = 65533;

/// A line under edit. `before` is the text left of the cursor, `after` the
/// text at and right of it.
#[verifier::ext_equal]
pub struct Line {
    pub before: Seq<char>,
    pub after: Seq<char>,
    pub column: nat,
    pub row: nat,
}

/// One edit of a line.
pub enum Edit {
    InsertChar(char),
    DeleteBefore,
    DeleteAfterOne,
    MoveLeft,
    MoveRight,
    SetColumn(nat),
    ToStart,
    ToEnd,
    Clear,
    KillAfter,
    DeleteWord,
    AdvanceRow,
    ResetRow,
}

impl Line {
    /// The empty line with its cursor at column 0 of `row`.
    pub open spec fn empty(row: nat) -> Line {
        Line { before: Seq::empty(), after: Seq::empty(), column: 0, row }
    }

    /// The whole line.
    pub open spec fn text(self) -> Seq<char> {
        self.before + self.after
    }

    /// How many characters the whole line has.
    pub open spec fn length(self) -> nat {
        self.before.len() + self.after.len()
    }

    /// The split point is the cursor.
    pub open spec fn split(self) -> bool {
        self.before.len() == self.column
    }

    /// The split point is the cursor, and the line is short enough for every
    /// screen column it takes to be a `u16`.
    pub open spec fn wf(self) -> bool {
        self.split() && self.length() <= MAX_LENGTH
    }

    /// The same text, cut anew at `column`.
    pub open spec fn resplit(self, column: nat) -> Line
        recommends
            column <= self.length(),
    {
        Line {
            before: self.text().take(column as int),
            after: self.text().skip(column as int),
            column,
            row: self.row,
        }
    }

    /// `c` is added left of the cursor, and the cursor moves past it.
    pub open spec fn insert_char(self, c: char) -> Line {
        Line { before: self.before.push(c), column: self.column + 1, ..self }
    }

    /// Drops the last character left of the cursor, without moving the cursor.
    pub open spec fn pop_before(self) -> Line {
        Line {
            before: if self.before.len() > 0 {
                self.before.drop_last()
            } else {
                self.before
            },
            ..self
        }
    }

    /// The character left of the cursor goes, and the cursor moves one
    /// column to the left; at column 0 it stays.
    pub open spec fn delete_before(self) -> Line {
        Line {
            column: if self.column > 0 {
                (self.column - 1) as nat
            } else {
                0
            },
            ..self.pop_before()
        }
    }

    /// The character under the cursor goes, if there is one.
    pub open spec fn delete_after_one(self) -> Line {
        Line {
            after: if self.after.len() > 0 {
                self.after.drop_first()
            } else {
                self.after
            },
            ..self
        }
    }

    /// The cursor is not at column 0.
    pub open spec fn can_move_left(self) -> bool {
        self.column > 0
    }

    /// The cursor is not at the end of the line.
    pub open spec fn can_move_right(self) -> bool {
        self.column != self.length()
    }

    /// The text is cut anew one column to the left; at column 0 nothing
    /// changes.
    pub open spec fn move_left(self) -> Line {
        if self.can_move_left() {
            self.resplit((self.column - 1) as nat)
        } else {
            self
        }
    }

    /// The text is cut anew one column to the right; at the end of the
    /// line nothing changes.
    pub open spec fn move_right(self) -> Line {
        if self.can_move_right() {
            self.resplit(self.column + 1)
        } else {
            self
        }
    }

    /// The cursor jumps to `column`.
    pub open spec fn set_column(self, column: nat) -> Line
        recommends
            column <= self.length(),
    {
        self.resplit(column)
    }

    /// The cursor jumps to the start: the whole text is after it.
    pub open spec fn to_start(self) -> Line {
        self.resplit(0)
    }

    /// The cursor jumps to the end: the whole text is before it.
    pub open spec fn to_end(self) -> Line {
        self.resplit(self.length())
    }

    /// The text goes, and the cursor is at column 0 of its row.
    pub open spec fn clear(self) -> Line {
        Line::empty(self.row)
    }

    /// All that is right of the cursor goes.
    pub open spec fn kill_after(self) -> Line {
        Line { after: Seq::empty(), ..self }
    }

    /// How many characters lie between the cursor and the next word start,
    /// or the end of the line where no word starts right of the cursor.
    pub open spec fn word_span(self) -> int {
        word_start_after(self.after, 0)
    }

    /// What lies between the cursor and the next word start goes.
    pub open spec fn delete_word(self) -> Line {
        Line { after: self.after.skip(self.word_span()), ..self }
    }

    /// The cursor is one row down.
    pub open spec fn advance_row(self) -> Line {
        Line { row: self.row + 1, ..self }
    }

    /// The cursor is on row 0.
    pub open spec fn reset_row(self) -> Line {
        Line { row: 0, ..self }
    }

    /// Whether `edit` is defined on this line: a column to jump to must lie
    /// within the text.
    pub open spec fn admits(self, edit: Edit) -> bool {
        match edit {
            Edit::SetColumn(column) => column <= self.length(),
            _ => true,
        }
    }

    /// The line after `edit`.
    pub open spec fn apply(self, edit: Edit) -> Line {
        match edit {
            Edit::InsertChar(c) => self.insert_char(c),
            Edit::DeleteBefore => self.delete_before(),
            Edit::DeleteAfterOne => self.delete_after_one(),
            Edit::MoveLeft => self.move_left(),
            Edit::MoveRight => self.move_right(),
            Edit::SetColumn(column) => self.set_column(column),
            Edit::ToStart => self.to_start(),
            Edit::ToEnd => self.to_end(),
            Edit::Clear => self.clear(),
            Edit::KillAfter => self.kill_after(),
            Edit::DeleteWord => self.delete_word(),
            Edit::AdvanceRow => self.advance_row(),
            Edit::ResetRow => self.reset_row(),
        }
    }

    /// Whether each of `edits`, taken in order, is defined on the line that
    /// the edits before it have made.
    pub open spec fn admits_all(self, edits: Seq<Edit>) -> bool
        decreases edits.len(),
    {
        edits.len() == 0 || (self.admits(edits[0]) && self.apply(edits[0]).admits_all(
            edits.drop_first(),
        ))
    }

    /// The line after `edits`, taken in order.
    pub open spec fn apply_all(self, edits: Seq<Edit>) -> Line
        decreases edits.len(),
    {
        if edits.len() == 0 {
            self
        } else {
            self.apply(edits[0]).apply_all(edits.drop_first())
        }
    }

    /// Cutting a line at a column within it gives a line that is split at
    /// its cursor and has the same text.
    pub proof fn lemma_resplit(self, column: nat)
        requires
            column <= self.length(),
        ensures
            self.resplit(column).split(),
            self.resplit(column).text() == self.text(),
            self.resplit(column).length() == self.length(),
            self.resplit(column).row == self.row,
    {
        assert(self.resplit(column).text() =~= self.text());
    }

    /// On a line split at its cursor, a move to the left hands the last
    /// character left of the cursor over to the right of it.
    pub proof fn lemma_move_left(self)
        requires
            self.split(),
            self.can_move_left(),
        ensures
            self.move_left().before == self.before.drop_last(),
            self.move_left().after == seq![self.before.last()] + self.after,
            self.move_left().column == self.column - 1,
    {
        assert(self.move_left().before =~= self.before.drop_last());
        assert(self.move_left().after =~= seq![self.before.last()] + self.after);
    }

    /// On a line split at its cursor, a move to the right hands the
    /// character under the cursor over to the left of it.
    pub proof fn lemma_move_right(self)
        requires
            self.split(),
            self.can_move_right(),
        ensures
            self.move_right().before == self.before.push(self.after.first()),
            self.move_right().after == self.after.drop_first(),
            self.move_right().column == self.column + 1,
    {
        assert(self.move_right().before =~= self.before.push(self.after.first()));
        assert(self.move_right().after =~= self.after.drop_first());
    }

    /// The span that a word deletion removes lies within the text right of
    /// the cursor, and on a line split at its cursor it ends where the next
    /// word of the whole line starts.
    pub proof fn lemma_word_span(self)
        ensures
            0 <= self.word_span() <= self.after.len(),
            self.after.len() > 0 ==> self.word_span() > 0,
            self.split() ==> word_start_after(self.text(), self.column as int) == self.column
                + self.word_span(),
    {
        crate::words::lemma_word_start_after(self.after, 0);
        if self.split() {
            lemma_word_start_shift(self.before, self.after, 0);
        }
    }

    /// An edit keeps a line split at its cursor.
    pub proof fn lemma_edit_keeps_split(self, edit: Edit)
        requires
            self.split(),
            self.admits(edit),
        ensures
            self.apply(edit).split(),
    {
        match edit {
            Edit::MoveLeft => {
                if self.can_move_left() {
                    self.lemma_resplit((self.column - 1) as nat);
                }
            },
            Edit::MoveRight => {
                if self.can_move_right() {
                    self.lemma_resplit(self.column + 1);
                }
            },
            Edit::SetColumn(column) => {
                self.lemma_resplit(column);
            },
            Edit::ToStart => {
                self.lemma_resplit(0);
            },
            Edit::ToEnd => {
                self.lemma_resplit(self.length());
            },
            _ => {},
        }
    }

    /// The split invariant: after every one of a sequence of edits that
    /// starts from a line split at its cursor, the line is split at its
    /// cursor.
    pub proof fn lemma_split_invariant(self, edits: Seq<Edit>, n: int)
        requires
            self.split(),
            self.admits_all(edits),
            0 <= n <= edits.len(),
        ensures
            self.apply_all(edits.take(n)).split(),
        decreases n,
    {
        if n > 0 {
            self.lemma_edit_keeps_split(edits[0]);
            assert(edits.take(n).drop_first() =~= edits.drop_first().take(n - 1));
            assert(edits.take(n)[0] == edits[0]);
            self.apply(edits[0]).lemma_split_invariant(edits.drop_first(), n - 1);
        }
    }

    /// A move to the left at column 0, and a move to the right at the end of
    /// the line, leave the line as it is.
    pub proof fn lemma_moves_stop_at_the_ends(self)
        ensures
            self.column == 0 ==> !self.can_move_left() && self.move_left() == self,
            self.column == self.length() ==> !self.can_move_right() && self.move_right() == self,
    {
    }

    /// Inserting a character and then deleting before the cursor gives the
    /// line back, text and column.
    pub proof fn lemma_insert_then_delete(self, c: char)
        ensures
            self.insert_char(c).delete_before() == self,
    {
        assert(self.insert_char(c).delete_before() =~= self);
    }

    /// Going to the end of the line and then to its start leaves the cursor
    /// at column 0 with nothing before it and the whole line after it.
    pub proof fn lemma_end_then_start(self)
        ensures
            self.to_end().to_start().column == 0,
            self.to_end().to_start().before == Seq::<char>::empty(),
            self.to_end().to_start().after == self.text(),
            self.to_end().to_start().row == self.row,
    {
        self.lemma_resplit(self.length());
        assert(self.to_end().to_start().before =~= Seq::<char>::empty());
        assert(self.to_end().to_start().after =~= self.text());
    }
}

/// Word starts right of a column do not depend on the text left of it: in
/// `before + after`, the next word start right of `before.len() + column` is
/// the one of `after` right of `column`, shifted by `before.len()`.
pub proof fn lemma_word_start_shift(before: Seq<char>, after: Seq<char>, column: int)
    requires
        column >= 0,
    ensures
        word_start_after(before + after, before.len() + column) == before.len() + word_start_after(
            after,
            column,
        ),
    decreases after.len() - column,
{
    let text = before + after;
    if column < after.len() {
        let i = column + 1;
        if i < after.len() {
            assert(text[before.len() + i - 1] == after[i - 1]);
            assert(text[before.len() + i] == after[i]);
        }
        lemma_word_start_shift(before, after, column + 1);
    }
}

} // verus!
