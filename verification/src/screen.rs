//! What is asked of the terminal: a handful of operations, and the one
//! sequence of them that repaints the line.
//!
//! Nothing here is carried out. The operations are values; whoever owns the
//! terminal performs them in order.

use vstd::prelude::*;
use crate::model::{Line, PROMPT_WIDTH};

verus! {

/// Which part of the screen to clear.
#[derive(Debug, Clone, Copy, PartialEq, Eq, Structural)]
pub enum ClearType {
    All,
    CurrentLine,
    UntilNewLine,
}

/// A condition at an edge of the line. It is shown to the user and changes
/// nothing.
#[derive(Debug, Clone, Copy, PartialEq, Eq, Structural)]
pub enum Notice {
    CannotMoveLeft,
    CannotMoveRight,
    NoPreviousWord,
    NothingToDelete,
}

/// The colours of the status area.
#[derive(Debug, Clone, Copy, PartialEq, Eq, Structural)]
pub enum Color {
    Black,
    Cyan,
    Green,
    Magenta,
}

/// One operation on the terminal.
#[derive(Debug, PartialEq, Eq)]
pub enum Action {
    /// Put the cursor at a column and a row of the screen.
    MoveTo(u16, u16),
    Clear(ClearType),
    /// Write text at the cursor.
    Print(String),
    Flush,
    Background(Color),
    Foreground(Color),
    ResetColor,
    /// Show a notice in the status area.
    Report(Notice),
}

/// One operation on the terminal, as mathematics.
pub enum Paint {
    MoveTo(int, int),
    Clear(ClearType),
    Print(Seq<char>),
    Flush,
    Background(Color),
    Foreground(Color),
    ResetColor,
    Report(Notice),
}

impl DeepView for Action {
    type V = Paint;

    open spec fn deep_view(&self) -> Paint {
        match self {
            Action::MoveTo(column, row) => Paint::MoveTo(*column as int, *row as int),
            Action::Clear(what) => Paint::Clear(*what),
            Action::Print(text) => Paint::Print(text@),
            Action::Flush => Paint::Flush,
            Action::Background(color) => Paint::Background(*color),
            Action::Foreground(color) => Paint::Foreground(*color),
            Action::ResetColor => Paint::ResetColor,
            Action::Report(notice) => Paint::Report(*notice),
        }
    }
}

/// The prompt, written from the left edge of the screen.
pub open spec fn prompt_text() -> Seq<char> {
    "\r> "@
}

/// The operations that bring the screen in step with `line`: clear what
/// is right of the prompt on the line's row, write the prompt and the whole
/// text, and put the cursor where the line has it.
pub open spec fn repaint(line: Line) -> Seq<Paint> {
    seq![
        Paint::MoveTo(PROMPT_WIDTH as int, line.row as int),
        Paint::Clear(ClearType::UntilNewLine),
        Paint::Print(prompt_text() + line.before + line.after),
        Paint::Flush,
        Paint::MoveTo(line.column + PROMPT_WIDTH, line.row as int),
    ]
}

/// Adds one operation at the end.
pub fn put(actions: &mut Vec<Action>, action: Action)
    ensures
        final(actions).deep_view() == old(actions).deep_view().push(action.deep_view()),
{
    let ghost before = actions.deep_view();
    let ghost paint = action.deep_view();
    actions.push(action);
    assert(actions.deep_view() =~= before.push(paint));
}

/// Adds operations at the end, in their order.
pub fn put_all(actions: &mut Vec<Action>, more: Vec<Action>)
    ensures
        final(actions).deep_view() == old(actions).deep_view() + more.deep_view(),
{
    let ghost before = actions.deep_view();
    let ghost added = more.deep_view();
    let mut more = more;
    actions.append(&mut more);
    assert(actions.deep_view() =~= before + added);
}

/// Where to leave the cursor when the session is over: on the row where
/// it stands, in the column where the session found it, or where it stands
/// if the session found it at the left edge.
pub fn resting_place(found_column: u16, cursor: (u16, u16)) -> (action: Action)
    ensures
        action.deep_view() == Paint::MoveTo(
            if found_column == 0 {
                cursor.0 as int
            } else {
                found_column as int
            },
            cursor.1 as int,
        ),
{
    if found_column == 0 {
        Action::MoveTo(cursor.0, cursor.1)
    } else {
        Action::MoveTo(found_column, cursor.1)
    }
}

impl Notice {
    /// The words in which the notice is shown.
    pub open spec fn words(self) -> Seq<char> {
        match self {
            Notice::CannotMoveLeft => "Cannot move left"@,
            Notice::CannotMoveRight => "could not move right"@,
            Notice::NoPreviousWord => "Could not move back word"@,
            Notice::NothingToDelete => "Right buffer empty"@,
        }
    }

    pub fn message(&self) -> (text: &'static str)
        ensures
            text@ == self.words(),
    {
        match self {
            Notice::CannotMoveLeft => "Cannot move left",
            Notice::CannotMoveRight => "could not move right",
            Notice::NoPreviousWord => "Could not move back word",
            Notice::NothingToDelete => "Right buffer empty",
        }
    }
}

} // verus!
