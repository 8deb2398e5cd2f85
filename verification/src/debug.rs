//! The status area: three rows at the foot of the screen, one for notices,
//! one for the last event and one for the line.
//!
//! A status row is written in its own colours over the full width of the
//! screen, and the cursor is then put back where it stood.

use vstd::prelude::*;
use vstd::string::*;
use crate::screen::{put, Action, ClearType, Color, Paint};
use crate::text::{chars_of, string_of};

verus! {

/// `text`, cut to one character less than the width where it is longer.
pub open spec fn clipped(text: Seq<char>, width: int) -> Seq<char> {
    if text.len() > width - 1 {
        text.take(width - 1)
    } else {
        text
    }
}

/// `text`, filled up with spaces to the width where it is shorter.
pub open spec fn padded(text: Seq<char>, width: int) -> Seq<char> {
    if text.len() < width {
        text + Seq::new((width - text.len()) as nat, |i: int| ' ')
    } else {
        text
    }
}

/// What is written on a status row: from the left edge, the text cut and
/// filled to the width of the screen.
pub open spec fn status_text(text: Seq<char>, width: int) -> Seq<char> {
    "\r"@ + padded(clipped(text, width), width)
}

/// The operations that write `text` on the status row `offset` rows above
/// the foot of the screen, and nothing where the cursor or the size of the
/// screen is not known.
pub open spec fn status(
    text: Seq<char>,
    offset: int,
    color: Color,
    cursor: Option<(u16, u16)>,
    size: Option<(u16, u16)>,
) -> Seq<Paint> {
    match (cursor, size) {
        (Some((x, y)), Some((width, height))) => seq![
            Paint::MoveTo(0, height - offset),
            Paint::Clear(ClearType::CurrentLine),
            Paint::Background(color),
            Paint::Foreground(Color::Black),
            Paint::Print(status_text(text, width as int)),
            Paint::Flush,
            Paint::MoveTo(x as int, y as int),
            Paint::ResetColor,
        ],
        _ => Seq::empty(),
    }
}

/// Whether a screen of this size has room for the status row `offset` rows
/// above its foot. A size that is not known asks for nothing.
pub open spec fn has_room(size: Option<(u16, u16)>, offset: int) -> bool {
    size matches Some(s) ==> s.0 >= 1 && s.1 >= offset
}

/// The number of status rows.
pub const STATUS_ROWS: u16 = 3;

/// The operations that empty the lowest `rows` rows of a screen of the
/// given height, from the lowest up.
pub open spec fn rows_emptied(height: int, rows: nat) -> Seq<Paint>
    decreases rows,
{
    if rows == 0 {
        Seq::empty()
    } else {
        rows_emptied(height, (rows - 1) as nat) + seq![
            Paint::MoveTo(0, height - rows),
            Paint::Clear(ClearType::CurrentLine),
        ]
    }
}

/// The operations that empty the status area and put the colours back,
/// and nothing where the size of the screen is not known.
pub open spec fn cleared(size: Option<(u16, u16)>) -> Seq<Paint> {
    match size {
        Some((_, height)) => rows_emptied(height as int, STATUS_ROWS as nat).push(
            Paint::ResetColor,
        ),
        None => Seq::empty(),
    }
}

/// The text of a status row of the given width.
pub fn fit(text: &str, width: u16) -> (row: String)
    requires
        width >= 1,
    ensures
        row@ == status_text(text@, width as int),
{
    let chars = chars_of(text);
    let n: usize = chars.len();
    let limit: usize = (width - 1) as usize;
    let kept: usize = if n > limit {
        limit
    } else {
        n
    };
    let mut row = String::from_str("\r");
    let body = string_of(chars.as_slice(), 0, kept);
    row.append(body.as_str());
    assert(body@ =~= clipped(text@, width as int));
    let ghost body_text = body@;
    let mut i: usize = kept;
    while i < width as usize
        invariant
            kept <= i,
            kept < width,
            kept == body_text.len(),
            i <= width || i == kept,
            row@ == "\r"@ + (body_text + Seq::new((i - kept) as nat, |j: int| ' ')),
        decreases width - i,
    {
        row.push(' ');
        i += 1;
        assert(row@ =~= "\r"@ + (body_text + Seq::new((i - kept) as nat, |j: int| ' ')));
    }
    row
}

/// The operations for one status row.
fn status_row(
    label: &str,
    message: &str,
    offset: u16,
    color: Color,
    cursor: Option<(u16, u16)>,
    size: Option<(u16, u16)>,
) -> (actions: Vec<Action>)
    requires
        has_room(size, offset as int),
    ensures
        actions.deep_view() == status(label@ + message@, offset as int, color, cursor, size),
{
    let mut actions: Vec<Action> = Vec::new();
    match (cursor, size) {
        (Some((x, y)), Some((width, height))) => {
            let mut text = String::from_str(label);
            text.append(message);
            actions.push(Action::MoveTo(0, height - offset));
            actions.push(Action::Clear(ClearType::CurrentLine));
            actions.push(Action::Background(color));
            actions.push(Action::Foreground(Color::Black));
            actions.push(Action::Print(fit(text.as_str(), width)));
            actions.push(Action::Flush);
            actions.push(Action::MoveTo(x, y));
            actions.push(Action::ResetColor);
        },
        _ => {},
    }
    assert(actions.deep_view() =~= status(
        label@ + message@,
        offset as int,
        color,
        cursor,
        size,
    ));
    actions
}

/// The operations that show a notice, on the third row from the foot.
pub fn debug_message(message: &str, cursor: Option<(u16, u16)>, size: Option<(u16, u16)>) -> (actions:
    Vec<Action>)
    requires
        has_room(size, 3),
    ensures
        actions.deep_view() == status(
            "DEBUG: message: "@ + message@,
            3,
            Color::Cyan,
            cursor,
            size,
        ),
{
    status_row("DEBUG: message: ", message, 3, Color::Cyan, cursor, size)
}

/// The operations that show an event, given as text, on the second row
/// from the foot.
pub fn debug_event(event: &str, cursor: Option<(u16, u16)>, size: Option<(u16, u16)>) -> (actions:
    Vec<Action>)
    requires
        has_room(size, 2),
    ensures
        actions.deep_view() == status("DEBUG: event: "@ + event@, 2, Color::Green, cursor, size),
{
    status_row("DEBUG: event: ", event, 2, Color::Green, cursor, size)
}

/// The operations that show the line, given as text, on the last row.
pub fn debug_line(line: &str, cursor: Option<(u16, u16)>, size: Option<(u16, u16)>) -> (actions:
    Vec<Action>)
    requires
        has_room(size, 1),
    ensures
        actions.deep_view() == status(
            "DEBUG: currentline "@ + line@,
            1,
            Color::Magenta,
            cursor,
            size,
        ),
{
    status_row("DEBUG: currentline ", line, 1, Color::Magenta, cursor, size)
}

/// The operations that empty the status area.
pub fn debug_clear(size: Option<(u16, u16)>) -> (actions: Vec<Action>)
    requires
        size matches Some(s) ==> s.1 >= STATUS_ROWS,
    ensures
        actions.deep_view() == cleared(size),
{
    let mut actions: Vec<Action> = Vec::new();
    match size {
        Some((_, height)) => {
            let mut i: u16 = 1;
            assert(actions.deep_view() =~= rows_emptied(height as int, 0));
            while i <= STATUS_ROWS
                invariant
                    1 <= i <= STATUS_ROWS + 1,
                    height >= STATUS_ROWS,
                    actions.deep_view() == rows_emptied(height as int, (i - 1) as nat),
                decreases STATUS_ROWS + 1 - i,
            {
                put(&mut actions, Action::MoveTo(0, height - i));
                put(&mut actions, Action::Clear(ClearType::CurrentLine));
                assert(actions.deep_view() =~= rows_emptied(height as int, i as nat));
                i += 1;
            }
            put(&mut actions, Action::ResetColor);
        },
        None => {
            assert(actions.deep_view() =~= cleared(size));
        },
    }
    actions
}

} // verus!
