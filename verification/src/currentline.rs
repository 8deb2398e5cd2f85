//! The line under edit: two strings that meet at the cursor.

use vstd::prelude::*;
use vstd::string::*;
use crate::model::{Line, MAX_LENGTH, PROMPT_WIDTH};
use crate::position::Position;
use crate::screen::{repaint, Action, ClearType};
use crate::words::{
    next_word_start, previous_word_start, word_start_after, word_start_before,
};

verus! {

/// The editable line and its cursor.
///
/// Text removed by an edit is discarded: there is no kill buffer.
#[derive(Debug)]
pub struct CurrentLine {
    pub position: Position,
    leftbuffer: String,
    rightbuffer: String,
}

impl View for CurrentLine {
    type V = Line;

    closed spec fn view(&self) -> Line {
        Line {
            before: self.leftbuffer@,
            after: self.rightbuffer@,
            column: self.position.column(),
            row: self.position.row(),
        }
    }
}

impl CurrentLine {
    /// The column of the cursor.
    pub fn column(&self) -> (x: u16)
        ensures
            x == self@.column,
    {
        self.position.x()
    }

    /// The row of the cursor.
    pub fn row(&self) -> (y: u16)
        ensures
            y == self@.row,
    {
        self.position.y()
    }

    /// Whether the cursor is where the text is split, and the line short
    /// enough for each of its screen columns to be a `u16`.
    pub fn well_formed(&self) -> (ok: bool)
        ensures
            ok == self@.wf(),
    {
        let before: usize = self.leftbuffer.as_str().unicode_len();
        let after: usize = self.rightbuffer.as_str().unicode_len();
        before == self.position.x() as usize && before <= MAX_LENGTH && after <= MAX_LENGTH
            - before
    }

    /// Drops the last character left of the cursor and leaves the cursor
    /// where it is: the caller moves it.
    pub fn pop_left(&mut self)
        ensures
            final(self)@ == old(self)@.pop_before(),
    {
        self.leftbuffer.pop();
    }

    /// The whole line: what is before the cursor, then what is after it.
    pub fn collect(&self) -> (text: String)
        ensures
            text@ == self@.text(),
            text@ == self@.before + self@.after,
    {
        let mut text = self.leftbuffer.clone();
        text.append(self.rightbuffer.as_str());
        text
    }

    /// Empties the line and puts the cursor at column 0 of its row.
    pub fn clear(&mut self)
        ensures
            final(self)@ == old(self)@.clear(),
    {
        self.leftbuffer = String::new();
        self.rightbuffer = String::new();
        self.position.set_x(0);
    }

    /// An empty line with its cursor at column `x` of row `y`. The cursor
    /// is where the text is split only for `x == 0`.
    pub fn new(x: u16, y: u16) -> (line: Self)
        ensures
            line@ == (Line { column: x as nat, ..Line::empty(y as nat) }),
            line@.wf() <==> x == 0,
    {
        CurrentLine {
            position: Position::new(x, y),
            leftbuffer: String::new(),
            rightbuffer: String::new(),
        }
    }

    /// Puts the cursor one row down.
    pub fn position_down(&mut self)
        requires
            old(self)@.row < u16::MAX,
        ensures
            final(self)@ == old(self)@.advance_row(),
    {
        self.position.down();
    }

    /// Deletes the character left of the cursor and moves the cursor one
    /// column to the left; at the start of the line nothing changes.
    pub fn delete_left(&mut self)
        ensures
            final(self)@ == old(self)@.delete_before(),
    {
        self.leftbuffer.pop();
        self.position.move_left();
    }

    /// Deletes the character under the cursor. With nothing right of the
    /// cursor the line stays as it is and the answer is `false`.
    pub fn delete_right(&mut self) -> (deleted: bool)
        ensures
            deleted == (old(self)@.after.len() > 0),
            final(self)@ == old(self)@.delete_after_one(),
    {
        let n: usize = self.rightbuffer.as_str().unicode_len();
        if n > 0 {
            let rest = self.rightbuffer.as_str().substring_char(1, n).to_owned();
            self.rightbuffer = rest;
            true
        } else {
            false
        }
    }

    /// Inserts `c` at the cursor, moves the cursor past it, and hands back
    /// the operations that repaint the line.
    pub fn add_char(&mut self, c: char) -> (actions: Vec<Action>)
        requires
            old(self)@.column + PROMPT_WIDTH < u16::MAX,
        ensures
            final(self)@ == old(self)@.insert_char(c),
            actions.deep_view() == repaint(final(self)@),
    {
        self.position.move_right();
        self.leftbuffer.push(c);
        self.display()
    }

    /// The operations that repaint the line on its row and put the cursor
    /// back where the line has it. The line itself does not change.
    pub fn display(&self) -> (actions: Vec<Action>)
        requires
            self@.column + PROMPT_WIDTH <= u16::MAX,
        ensures
            actions.deep_view() == repaint(self@),
    {
        let x: u16 = self.position.x();
        let y: u16 = self.position.y();
        let mut text = String::from_str("\r> ");
        text.append(self.leftbuffer.as_str());
        text.append(self.rightbuffer.as_str());
        let mut actions: Vec<Action> = Vec::new();
        actions.push(Action::MoveTo(PROMPT_WIDTH, y));
        actions.push(Action::Clear(ClearType::UntilNewLine));
        actions.push(Action::Print(text));
        actions.push(Action::Flush);
        actions.push(Action::MoveTo(x + PROMPT_WIDTH, y));
        assert(actions.deep_view() =~= repaint(self@));
        actions
    }

    /// Deletes all that is right of the cursor.
    pub fn clear_rightbuffer(&mut self)
        ensures
            final(self)@ == old(self)@.kill_after(),
    {
        self.rightbuffer = String::new();
    }

    /// Puts the cursor at the start of the line.
    pub fn set_position_start_x(&mut self)
        ensures
            final(self)@ == old(self)@.to_start(),
            final(self)@.column == 0,
            final(self)@.before == Seq::<char>::empty(),
            final(self)@.after == old(self)@.text(),
    {
        self.position.set_x(0);
        self.rightbuffer = self.collect();
        self.leftbuffer = String::new();
        assert(final(self)@ =~= old(self)@.to_start());
    }

    /// Puts the cursor on row 0.
    pub fn set_position_start_y(&mut self)
        ensures
            final(self)@ == old(self)@.reset_row(),
    {
        self.position.set_y(0);
    }

    /// Puts the cursor at the end of the line.
    pub fn set_position_end(&mut self)
        requires
            old(self)@.length() <= u16::MAX,
        ensures
            final(self)@ == old(self)@.to_end(),
            final(self)@.column == old(self)@.length(),
            final(self)@.before == old(self)@.text(),
            final(self)@.after == Seq::<char>::empty(),
    {
        self.leftbuffer = self.collect();
        let n: usize = self.leftbuffer.as_str().unicode_len();
        self.position.set_x(n as u16);
        self.rightbuffer = String::new();
        assert(final(self)@ =~= old(self)@.to_end());
    }

    /// Puts the cursor at column `x`, which lies within the line.
    pub fn set_position_x(&mut self, x: u16)
        requires
            x <= old(self)@.length(),
        ensures
            final(self)@ == old(self)@.set_column(x as nat),
            final(self)@.split(),
            final(self)@.text() == old(self)@.text(),
    {
        let text = self.collect();
        let n: usize = text.as_str().unicode_len();
        self.leftbuffer = text.as_str().substring_char(0, x as usize).to_owned();
        self.rightbuffer = text.as_str().substring_char(x as usize, n).to_owned();
        self.position.set_x(x);
        proof {
            old(self)@.lemma_resplit(x as nat);
        }
    }

    /// Moves the cursor one column to the left. At column 0 the line stays
    /// as it is and the answer is `false`.
    pub fn move_left(&mut self) -> (moved: bool)
        requires
            old(self)@.split(),
        ensures
            moved == old(self)@.can_move_left(),
            final(self)@ == old(self)@.move_left(),
            final(self)@.split(),
            final(self)@.text() == old(self)@.text(),
            !moved ==> final(self)@ == old(self)@,
            moved ==> final(self)@.before == old(self)@.before.drop_last() && final(self)@.after
                == seq![old(self)@.before.last()] + old(self)@.after,
    {
        let x: u16 = self.position.x();
        if x == 0 {
            false
        } else {
            proof {
                self@.lemma_resplit((x - 1) as nat);
                self@.lemma_move_left();
            }
            self.set_position_x(x - 1);
            true
        }
    }

    /// How many characters the whole line has.
    pub fn length(&self) -> (n: usize)
        ensures
            n == self@.length(),
    {
        self.collect().as_str().unicode_len()
    }

    /// Moves the cursor one column to the right. At the end of the line the
    /// line stays as it is and the answer is `false`.
    pub fn move_right(&mut self) -> (moved: bool)
        requires
            old(self)@.split(),
            old(self)@.length() <= u16::MAX,
        ensures
            moved == old(self)@.can_move_right(),
            final(self)@ == old(self)@.move_right(),
            final(self)@.split(),
            final(self)@.text() == old(self)@.text(),
            !moved ==> final(self)@ == old(self)@,
            moved ==> final(self)@.before == old(self)@.before.push(old(self)@.after.first())
                && final(self)@.after == old(self)@.after.drop_first(),
    {
        let x: u16 = self.position.x();
        if x as usize == self.length() {
            false
        } else {
            proof {
                self@.lemma_resplit((x + 1) as nat);
                self@.lemma_move_right();
            }
            self.set_position_x(x + 1);
            true
        }
    }

    /// Deletes from the cursor to the start of the next word, or to the end
    /// of the line where no word starts right of the cursor.
    pub fn delete_word_right(&mut self)
        ensures
            final(self)@ == old(self)@.delete_word(),
    {
        let n: usize = self.rightbuffer.as_str().unicode_len();
        let span: usize = next_word_start(self.rightbuffer.as_str(), 0);
        let rest = self.rightbuffer.as_str().substring_char(span, n).to_owned();
        self.rightbuffer = rest;
    }

    /// The column where the word left of the cursor starts; `None` at
    /// column 0.
    pub fn left_word(&self) -> (start: Option<u16>)
        ensures
            start is None <==> self@.column == 0,
            match start {
                Some(x) => word_start_before(self@.text(), self@.column as int) == Some(x as int),
                None => word_start_before(self@.text(), self@.column as int) is None,
            },
            start matches Some(x) ==> x < self@.column,
    {
        let text = self.collect();
        match previous_word_start(text.as_str(), self.position.x() as usize) {
            Some(i) => Some(i as u16),
            None => None,
        }
    }

    /// The column where the next word right of the cursor starts, or the
    /// length of the line where none does. The answer is never `None`.
    pub fn right_word(&self) -> (start: Option<u16>)
        requires
            self@.length() <= u16::MAX,
        ensures
            start matches Some(x) && x == word_start_after(self@.text(), self@.column as int),
            start matches Some(x) && x <= self@.length(),
    {
        let text = self.collect();
        let next: usize = next_word_start(text.as_str(), self.position.x() as usize);
        Some(next as u16)
    }
}

} // verus!
