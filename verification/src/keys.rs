//! Key bindings: which events act on the line, and what each does.
//!
//! Every binding is a function of its own. It looks at one event; where the
//! event is its own it edits the line and says what the terminal has to do,
//! and else it does nothing. No two bindings answer to the same event, so
//! an event may be offered to all of them in turn.

use vstd::prelude::*;
use vstd::string::*;
use crate::currentline::CurrentLine;
use crate::model::{Line, MAX_LENGTH, PROMPT_WIDTH};
use crate::my_parser::{help_shown, meaning, parse, print_help, Command, Verdict};
use crate::screen::{prompt_text, put, put_all, repaint, Action, ClearType, Notice, Paint};
use crate::words::{word_start_after, word_start_before};

verus! {

/// No modifier key held.
pub const NONE: u8 = 0;

/// The bit of the shift key in a set of modifiers.
pub const SHIFT: u8 = 1;

/// The bit of the control key in a set of modifiers.
pub const CONTROL: u8 = 2;

/// The bit of the alt key in a set of modifiers.
pub const ALT: u8 = 4;

/// The key of an event, as far as the bindings tell keys apart.
#[derive(Debug, Clone, Copy, PartialEq, Eq)]
pub enum KeyCode {
    Backspace,
    Enter,
    Char(char),
    Other,
}

/// Whether a key went down, is held, or came up.
#[derive(Debug, Clone, Copy, PartialEq, Eq)]
pub enum KeyEventKind {
    Press,
    Repeat,
    Release,
}

/// One key with the modifiers held, a set of bits.
#[derive(Debug, Clone, Copy, PartialEq, Eq)]
pub struct KeyEvent {
    pub code: KeyCode,
    pub modifiers: u8,
    pub kind: KeyEventKind,
}

/// What the terminal reports.
#[derive(Debug, Clone, Copy, PartialEq, Eq)]
pub enum Event {
    Key(KeyEvent),
    Other,
}

/// The bindings, in the order in which an event is offered to them.
pub enum Binding {
    RegularCharacter,
    Backspace,
    AltB,
    AltF,
    AltD,
    ControlK,
    ControlL,
    ControlA,
    ControlE,
    ControlB,
    ControlF,
    ControlD,
    ParseLine,
    ControlC,
}

/// The character that the event types: a character key pressed with no
/// modifier, or with shift alone.
pub open spec fn typed(event: Event) -> Option<char> {
    match event {
        Event::Key(key) => match key.code {
            KeyCode::Char(c) => if key.kind is Press && (key.modifiers == NONE || key.modifiers
                == SHIFT) {
                Some(c)
            } else {
                None
            },
            _ => None,
        },
        Event::Other => None,
    }
}

/// The event is the release of the character key `c` with exactly
/// `modifiers` held.
pub open spec fn chord(event: Event, c: char, modifiers: u8) -> bool {
    event matches Event::Key(key) && key.code == KeyCode::Char(c) && key.kind is Release
        && key.modifiers == modifiers
}

/// The event is a press of the backspace key, whatever the modifiers.
pub open spec fn backspace_pressed(event: Event) -> bool {
    event matches Event::Key(key) && key.code is Backspace && key.kind is Press
}

/// The event is a press of the enter key, whatever the modifiers.
pub open spec fn enter_pressed(event: Event) -> bool {
    event matches Event::Key(key) && key.code is Enter && key.kind is Press
}

impl Binding {
    /// Whether the binding answers to the event.
    pub open spec fn matches(self, event: Event) -> bool {
        match self {
            Binding::RegularCharacter => typed(event) is Some,
            Binding::Backspace => backspace_pressed(event),
            Binding::AltB => chord(event, 'b', ALT),
            Binding::AltF => chord(event, 'f', ALT),
            Binding::AltD => chord(event, 'd', ALT),
            Binding::ControlK => chord(event, 'k', CONTROL),
            Binding::ControlL => chord(event, 'l', CONTROL),
            Binding::ControlA => chord(event, 'a', CONTROL),
            Binding::ControlE => chord(event, 'e', CONTROL),
            Binding::ControlB => chord(event, 'b', CONTROL),
            Binding::ControlF => chord(event, 'f', CONTROL),
            Binding::ControlD => chord(event, 'd', CONTROL),
            Binding::ParseLine => enter_pressed(event),
            Binding::ControlC => chord(event, 'c', CONTROL),
        }
    }
}

/// No event has two bindings.
pub proof fn lemma_bindings_disjoint(event: Event, a: Binding, b: Binding)
    requires
        a.matches(event),
        b.matches(event),
    ensures
        a == b,
{
}

/// What a binding does: the line that it leaves, the operations that it
/// asks of the terminal, and whether the session is over.
pub struct Effect {
    pub line: Line,
    pub paints: Seq<Paint>,
    pub stop: bool,
}

impl Effect {
    /// Nothing happens.
    pub open spec fn none(line: Line) -> Effect {
        Effect { line, paints: Seq::empty(), stop: false }
    }

    /// The session is over; the line stays as it is.
    pub open spec fn over(line: Line) -> Effect {
        Effect { line, paints: Seq::empty(), stop: true }
    }

    /// The line has become `line` and is repainted.
    pub open spec fn edited(line: Line) -> Effect {
        Effect { line, paints: repaint(line), stop: false }
    }

    /// The cursor has jumped within the text, and only the cursor of the
    /// terminal has to follow.
    pub open spec fn jumped(line: Line) -> Effect {
        Effect {
            line,
            paints: seq![Paint::MoveTo(line.column + PROMPT_WIDTH, line.row as int)],
            stop: false,
        }
    }
}

/// The notice, where there is one to give.
pub open spec fn noticed(wanted: bool, notice: Notice) -> Seq<Paint> {
    if wanted {
        seq![Paint::Report(notice)]
    } else {
        Seq::empty()
    }
}

/// The operations that empty the cursor's row and write the prompt anew,
/// with the cursor first put at `(column, row)`.
pub open spec fn wiped(column: int, row: int) -> Seq<Paint> {
    seq![
        Paint::MoveTo(column, row),
        Paint::Clear(ClearType::CurrentLine),
        Paint::Print(prompt_text()),
        Paint::Flush,
    ]
}

/// A typed character is inserted at the cursor, and the line repainted.
pub open spec fn on_regular_character(event: Event, line: Line) -> Effect {
    match typed(event) {
        Some(c) => Effect::edited(line.insert_char(c)),
        None => Effect::none(line),
    }
}

/// Backspace deletes left of the cursor, and the line is repainted.
pub open spec fn on_backspace(event: Event, line: Line) -> Effect {
    if Binding::Backspace.matches(event) {
        Effect::edited(line.delete_before())
    } else {
        Effect::none(line)
    }
}

/// Alt-B jumps to the last word start left of the cursor. At column 0
/// there is none: the line stays as it is and a notice is given.
pub open spec fn on_alt_b(event: Event, line: Line) -> Effect {
    if Binding::AltB.matches(event) {
        match word_start_before(line.text(), line.column as int) {
            Some(start) => Effect::jumped(line.set_column(start as nat)),
            None => Effect { paints: noticed(true, Notice::NoPreviousWord), ..Effect::none(line) },
        }
    } else {
        Effect::none(line)
    }
}

/// Alt-F jumps to the next word start, or to the end of the line.
pub open spec fn on_alt_f(event: Event, line: Line) -> Effect {
    if Binding::AltF.matches(event) {
        Effect::jumped(line.set_column(word_start_after(line.text(), line.column as int) as nat))
    } else {
        Effect::none(line)
    }
}

/// Alt-D deletes up to the next word start, and the line is repainted.
pub open spec fn on_alt_d(event: Event, line: Line) -> Effect {
    if Binding::AltD.matches(event) {
        Effect::edited(line.delete_word())
    } else {
        Effect::none(line)
    }
}

/// Control-K clears the screen right of the cursor, deletes what the line
/// has there, and the line is repainted.
pub open spec fn on_control_k(event: Event, line: Line) -> Effect {
    if Binding::ControlK.matches(event) {
        Effect {
            line: line.kill_after(),
            paints: seq![Paint::Clear(ClearType::UntilNewLine)] + repaint(line.kill_after()),
            stop: false,
        }
    } else {
        Effect::none(line)
    }
}

/// Control-L empties the line and the screen; the prompt is written at
/// the top, and the line is on row 0.
pub open spec fn on_control_l(event: Event, line: Line) -> Effect {
    if Binding::ControlL.matches(event) {
        Effect {
            line: Line::empty(0),
            paints: seq![
                Paint::MoveTo(0, 0),
                Paint::Clear(ClearType::All),
                Paint::Print(prompt_text()),
                Paint::Flush,
            ],
            stop: false,
        }
    } else {
        Effect::none(line)
    }
}

/// Control-A jumps to the start of the line, and the line is repainted.
pub open spec fn on_control_a(event: Event, line: Line) -> Effect {
    if Binding::ControlA.matches(event) {
        Effect::edited(line.to_start())
    } else {
        Effect::none(line)
    }
}

/// Control-E jumps to the end of the line, and the line is repainted.
pub open spec fn on_control_e(event: Event, line: Line) -> Effect {
    if Binding::ControlE.matches(event) {
        Effect::edited(line.to_end())
    } else {
        Effect::none(line)
    }
}

/// Whether the cursor of the terminal is known and stands right of the
/// column that follows the prompt.
pub open spec fn right_of_prompt(cursor: Option<(u16, u16)>) -> bool {
    cursor matches Some(at) && at.0 > PROMPT_WIDTH
}

/// Control-B, with the cursor of the terminal right of the prompt: the row
/// is wiped with the cursor one column to the left, the line moves left or
/// a notice says that it cannot, and the line is repainted. Else nothing.
pub open spec fn on_control_b(event: Event, cursor: Option<(u16, u16)>, line: Line) -> Effect {
    if Binding::ControlB.matches(event) && right_of_prompt(cursor) {
        let at = cursor->0;
        Effect {
            line: line.move_left(),
            paints: wiped(at.0 - 1, at.1 as int) + noticed(
                !line.can_move_left(),
                Notice::CannotMoveLeft,
            ) + repaint(line.move_left()),
            stop: false,
        }
    } else {
        Effect::none(line)
    }
}

/// Control-F, with the cursor of the terminal right of the prompt: the row
/// is wiped with the cursor one column to the right, the line moves right or
/// a notice says that it cannot, and the line is repainted. Else nothing.
pub open spec fn on_control_f(event: Event, cursor: Option<(u16, u16)>, line: Line) -> Effect {
    if Binding::ControlF.matches(event) && right_of_prompt(cursor) {
        let at = cursor->0;
        Effect {
            line: line.move_right(),
            paints: wiped(at.0 + 1, at.1 as int) + noticed(
                !line.can_move_right(),
                Notice::CannotMoveRight,
            ) + repaint(line.move_right()),
            stop: false,
        }
    } else {
        Effect::none(line)
    }
}

/// Control-D deletes under the cursor, or a notice says that nothing is
/// there; the line is repainted.
pub open spec fn on_control_d(event: Event, line: Line) -> Effect {
    if Binding::ControlD.matches(event) {
        Effect {
            line: line.delete_after_one(),
            paints: noticed(line.after.len() == 0, Notice::NothingToDelete) + repaint(
                line.delete_after_one(),
            ),
            stop: false,
        }
    } else {
        Effect::none(line)
    }
}

/// Control-C ends the session.
pub open spec fn on_control_c(event: Event, line: Line) -> Effect {
    if Binding::ControlC.matches(event) {
        Effect::over(line)
    } else {
        Effect::none(line)
    }
}

/// The text that answers a verdict other than the one to quit.
pub open spec fn answer(verdict: Verdict) -> Seq<char> {
    match verdict {
        Verdict::Load(text) => text + "\n"@,
        Verdict::Help => Seq::empty(),
        _ => "Could not parse\n"@,
    }
}

/// What the submission of a line does, given what the interpreter made of
/// it. To quit ends the session and changes nothing. Any other verdict is
/// answered below the line, with the help text first where help was asked;
/// then the prompt is written anew, two rows down, for an empty line.
pub open spec fn submitted(line: Line, verdict: Verdict) -> Effect {
    if verdict is Quit {
        Effect::over(line)
    } else {
        Effect {
            line: Line::empty(line.row + 2),
            paints: (if verdict is Help {
                help_shown()
            } else {
                Seq::empty()
            }) + seq![
                Paint::Print("\n\r"@ + answer(verdict) + prompt_text()),
                Paint::MoveTo(PROMPT_WIDTH as int, (line.row + 2) as int),
                Paint::Flush,
            ],
            stop: false,
        }
    }
}

/// Enter submits the line: the effect is that of what the line means.
pub open spec fn on_parse_line(event: Event, line: Line) -> Effect {
    if Binding::ParseLine.matches(event) {
        submitted(line, meaning(line.text()))
    } else {
        Effect::none(line)
    }
}

/// What an event does to a line: what its binding does, and nothing where
/// it has none.
pub open spec fn reaction(event: Event, cursor: Option<(u16, u16)>, line: Line) -> Effect {
    if Binding::RegularCharacter.matches(event) {
        on_regular_character(event, line)
    } else if Binding::Backspace.matches(event) {
        on_backspace(event, line)
    } else if Binding::AltB.matches(event) {
        on_alt_b(event, line)
    } else if Binding::AltF.matches(event) {
        on_alt_f(event, line)
    } else if Binding::AltD.matches(event) {
        on_alt_d(event, line)
    } else if Binding::ControlK.matches(event) {
        on_control_k(event, line)
    } else if Binding::ControlL.matches(event) {
        on_control_l(event, line)
    } else if Binding::ControlA.matches(event) {
        on_control_a(event, line)
    } else if Binding::ControlE.matches(event) {
        on_control_e(event, line)
    } else if Binding::ControlB.matches(event) {
        on_control_b(event, cursor, line)
    } else if Binding::ControlF.matches(event) {
        on_control_f(event, cursor, line)
    } else if Binding::ControlD.matches(event) {
        on_control_d(event, line)
    } else if Binding::ParseLine.matches(event) {
        on_parse_line(event, line)
    } else if Binding::ControlC.matches(event) {
        on_control_c(event, line)
    } else {
        Effect::none(line)
    }
}

/// Whatever the verdict, a line that is submitted is split at its cursor
/// afterwards, and no longer than before.
pub proof fn lemma_submitted_keeps_split(line: Line, verdict: Verdict)
    requires
        line.split(),
    ensures
        submitted(line, verdict).line.split(),
        submitted(line, verdict).line.length() <= line.length(),
{
}

/// Whatever the event, a line that is split at its cursor stays so, and
/// grows by one character at most.
pub proof fn lemma_reaction_keeps_split(event: Event, cursor: Option<(u16, u16)>, line: Line)
    requires
        line.split(),
    ensures
        reaction(event, cursor, line).line.split(),
        reaction(event, cursor, line).line.length() <= line.length() + 1,
{
    let text = line.text();
    let column = line.column as int;
    if Binding::AltB.matches(event) {
        crate::words::lemma_word_start_before(text, column);
        match word_start_before(text, column) {
            Some(start) => {
                line.lemma_resplit(start as nat);
            },
            None => {},
        }
    } else if Binding::AltF.matches(event) {
        crate::words::lemma_word_start_after(text, column);
        line.lemma_resplit(word_start_after(text, column) as nat);
    } else if Binding::AltD.matches(event) {
        line.lemma_word_span();
    } else if Binding::ControlA.matches(event) {
        line.lemma_resplit(0);
    } else if Binding::ControlE.matches(event) {
        line.lemma_resplit(line.length());
    } else if Binding::ControlB.matches(event) {
        if line.can_move_left() {
            line.lemma_resplit((line.column - 1) as nat);
        }
    } else if Binding::ControlF.matches(event) {
        if line.can_move_right() {
            line.lemma_resplit(line.column + 1);
        }
    } else if Binding::ParseLine.matches(event) {
        lemma_submitted_keeps_split(line, meaning(text));
    }
}

/// What the width of the integers asks of an event and a line: room for
/// the character that is typed, two more rows below a line that is
/// submitted, and a column right of the cursor of the terminal to go to.
pub open spec fn within_limits(event: Event, cursor: Option<(u16, u16)>, line: Line) -> bool {
    &&& Binding::RegularCharacter.matches(event) ==> line.length() < MAX_LENGTH
    &&& Binding::ParseLine.matches(event) ==> line.row + 2 <= u16::MAX
    &&& Binding::ControlF.matches(event) ==> (cursor matches Some(at) ==> at.0 < u16::MAX)
}

/// What a binding hands back: the operations for the terminal, in order,
/// and whether the session is over.
#[derive(Debug, PartialEq, Eq)]
pub struct Outcome {
    pub actions: Vec<Action>,
    pub stop: bool,
}

impl Outcome {
    /// The outcome carries out `effect`, which leaves `line`.
    pub open spec fn carries(&self, effect: Effect, line: Line) -> bool {
        &&& self.actions.deep_view() == effect.paints
        &&& self.stop == effect.stop
        &&& line == effect.line
    }

    fn none() -> (outcome: Outcome)
        ensures
            outcome.actions.deep_view() == Seq::<Paint>::empty(),
            !outcome.stop,
    {
        let outcome = Outcome { actions: Vec::new(), stop: false };
        assert(outcome.actions.deep_view() =~= Seq::<Paint>::empty());
        outcome
    }

    fn over() -> (outcome: Outcome)
        ensures
            outcome.actions.deep_view() == Seq::<Paint>::empty(),
            outcome.stop,
    {
        let outcome = Outcome { actions: Vec::new(), stop: true };
        assert(outcome.actions.deep_view() =~= Seq::<Paint>::empty());
        outcome
    }

    fn of(actions: Vec<Action>) -> (outcome: Outcome)
        ensures
            outcome.actions == actions,
            !outcome.stop,
    {
        Outcome { actions, stop: false }
    }

    /// Takes the outcome of the binding that was offered the event next.
    fn follow(&mut self, next: Outcome)
        ensures
            final(self).actions.deep_view() == old(self).actions.deep_view()
                + next.actions.deep_view(),
            final(self).stop == (old(self).stop || next.stop),
    {
        put_all(&mut self.actions, next.actions);
        self.stop = self.stop || next.stop;
    }
}

/// The character that the event types, if it types one.
pub fn typed_char(event: &Event) -> (c: Option<char>)
    ensures
        c == typed(*event),
{
    match event {
        Event::Key(key) => match key.code {
            KeyCode::Char(c) => match key.kind {
                KeyEventKind::Press => if key.modifiers == NONE || key.modifiers == SHIFT {
                    Some(c)
                } else {
                    None
                },
                _ => None,
            },
            _ => None,
        },
        Event::Other => None,
    }
}

/// Whether the event is the release of the character key `c` with exactly
/// `modifiers` held.
pub fn is_chord(event: &Event, c: char, modifiers: u8) -> (b: bool)
    ensures
        b == chord(*event, c, modifiers),
{
    match event {
        Event::Key(key) => match key.code {
            KeyCode::Char(code) => match key.kind {
                KeyEventKind::Release => code == c && key.modifiers == modifiers,
                _ => false,
            },
            _ => false,
        },
        Event::Other => false,
    }
}

/// Whether the event is a press of the backspace key.
pub fn is_backspace(event: &Event) -> (b: bool)
    ensures
        b == backspace_pressed(*event),
{
    match event {
        Event::Key(key) => match key.code {
            KeyCode::Backspace => match key.kind {
                KeyEventKind::Press => true,
                _ => false,
            },
            _ => false,
        },
        Event::Other => false,
    }
}

/// Whether the event is a press of the enter key.
pub fn is_enter(event: &Event) -> (b: bool)
    ensures
        b == enter_pressed(*event),
{
    match event {
        Event::Key(key) => match key.code {
            KeyCode::Enter => match key.kind {
                KeyEventKind::Press => true,
                _ => false,
            },
            _ => false,
        },
        Event::Other => false,
    }
}

/// The operations that empty the cursor's row and write the prompt anew.
fn wipe(column: u16, row: u16) -> (actions: Vec<Action>)
    ensures
        actions.deep_view() == wiped(column as int, row as int),
{
    let mut actions: Vec<Action> = Vec::new();
    actions.push(Action::MoveTo(column, row));
    actions.push(Action::Clear(ClearType::CurrentLine));
    actions.push(Action::Print(String::from_str("\r> ")));
    actions.push(Action::Flush);
    assert(actions.deep_view() =~= wiped(column as int, row as int));
    actions
}

/// The operations that write the prompt.
pub fn prompt() -> (actions: Vec<Action>)
    ensures
        actions.deep_view() == seq![Paint::Print(prompt_text()), Paint::Flush],
{
    let mut actions: Vec<Action> = Vec::new();
    actions.push(Action::Print(String::from_str("\r> ")));
    actions.push(Action::Flush);
    assert(actions.deep_view() =~= seq![Paint::Print(prompt_text()), Paint::Flush]);
    actions
}

/// A typed character is inserted at the cursor.
pub fn regular_character(event: &Event, line: &mut CurrentLine) -> (outcome: Outcome)
    requires
        old(line)@.wf(),
        typed(*event) is Some ==> old(line)@.length() < MAX_LENGTH,
    ensures
        outcome.carries(on_regular_character(*event, old(line)@), final(line)@),
        final(line)@.wf(),
{
    match typed_char(event) {
        Some(c) => Outcome::of(line.add_char(c)),
        None => Outcome::none(),
    }
}

/// Backspace deletes the character left of the cursor.
pub fn backspace(event: &Event, line: &mut CurrentLine) -> (outcome: Outcome)
    requires
        old(line)@.wf(),
    ensures
        outcome.carries(on_backspace(*event, old(line)@), final(line)@),
        final(line)@.wf(),
{
    if is_backspace(event) {
        line.delete_left();
        Outcome::of(line.display())
    } else {
        Outcome::none()
    }
}

/// Alt-B puts the cursor where the word left of it starts. At column 0
/// there is none: the line stays and a notice is given.
pub fn alt_b(event: &Event, line: &mut CurrentLine) -> (outcome: Outcome)
    requires
        old(line)@.wf(),
    ensures
        outcome.carries(on_alt_b(*event, old(line)@), final(line)@),
        final(line)@.wf(),
{
    if is_chord(event, 'b', ALT) {
        let mut actions: Vec<Action> = Vec::new();
        match line.left_word() {
            None => {
                put(&mut actions, Action::Report(Notice::NoPreviousWord));
            },
            Some(x) => {
                proof {
                    line@.lemma_resplit(x as nat);
                }
                line.set_position_x(x);
                put(&mut actions, Action::MoveTo(x + PROMPT_WIDTH, line.row()));
            },
        }
        assert(actions.deep_view() =~= on_alt_b(*event, old(line)@).paints);
        Outcome::of(actions)
    } else {
        Outcome::none()
    }
}

/// Alt-F puts the cursor where the next word starts, or at the end of the
/// line where none does.
pub fn alt_f(event: &Event, line: &mut CurrentLine) -> (outcome: Outcome)
    requires
        old(line)@.wf(),
    ensures
        outcome.carries(on_alt_f(*event, old(line)@), final(line)@),
        final(line)@.wf(),
{
    if is_chord(event, 'f', ALT) {
        let mut actions: Vec<Action> = Vec::new();
        match line.right_word() {
            None => {},
            Some(x) => {
                proof {
                    line@.lemma_resplit(x as nat);
                }
                line.set_position_x(x);
                put(&mut actions, Action::MoveTo(x + PROMPT_WIDTH, line.row()));
            },
        }
        assert(actions.deep_view() =~= on_alt_f(*event, old(line)@).paints);
        Outcome::of(actions)
    } else {
        Outcome::none()
    }
}

/// Alt-D deletes from the cursor to the start of the next word.
pub fn alt_d(event: &Event, line: &mut CurrentLine) -> (outcome: Outcome)
    requires
        old(line)@.wf(),
    ensures
        outcome.carries(on_alt_d(*event, old(line)@), final(line)@),
        final(line)@.wf(),
{
    if is_chord(event, 'd', ALT) {
        proof {
            line@.lemma_word_span();
        }
        line.delete_word_right();
        Outcome::of(line.display())
    } else {
        Outcome::none()
    }
}

/// Control-K deletes all that is right of the cursor.
pub fn control_k(event: &Event, line: &mut CurrentLine) -> (outcome: Outcome)
    requires
        old(line)@.wf(),
    ensures
        outcome.carries(on_control_k(*event, old(line)@), final(line)@),
        final(line)@.wf(),
{
    if is_chord(event, 'k', CONTROL) {
        let mut actions: Vec<Action> = Vec::new();
        put(&mut actions, Action::Clear(ClearType::UntilNewLine));
        line.clear_rightbuffer();
        put_all(&mut actions, line.display());
        assert(actions.deep_view() =~= on_control_k(*event, old(line)@).paints);
        Outcome::of(actions)
    } else {
        Outcome::none()
    }
}

/// Control-L empties the line and the screen and starts again at the top.
pub fn control_l(event: &Event, line: &mut CurrentLine) -> (outcome: Outcome)
    ensures
        outcome.carries(on_control_l(*event, old(line)@), final(line)@),
        old(line)@.wf() ==> final(line)@.wf(),
{
    if is_chord(event, 'l', CONTROL) {
        line.clear();
        line.set_position_start_y();
        let mut actions: Vec<Action> = Vec::new();
        actions.push(Action::MoveTo(0, 0));
        actions.push(Action::Clear(ClearType::All));
        actions.push(Action::Print(String::from_str("\r> ")));
        actions.push(Action::Flush);
        assert(actions.deep_view() =~= on_control_l(*event, old(line)@).paints);
        Outcome::of(actions)
    } else {
        Outcome::none()
    }
}

/// Control-A puts the cursor at the start of the line.
pub fn control_a(event: &Event, line: &mut CurrentLine) -> (outcome: Outcome)
    requires
        old(line)@.wf(),
    ensures
        outcome.carries(on_control_a(*event, old(line)@), final(line)@),
        final(line)@.wf(),
{
    if is_chord(event, 'a', CONTROL) {
        proof {
            line@.lemma_resplit(0);
        }
        line.set_position_start_x();
        Outcome::of(line.display())
    } else {
        Outcome::none()
    }
}

/// Control-E puts the cursor at the end of the line.
pub fn control_e(event: &Event, line: &mut CurrentLine) -> (outcome: Outcome)
    requires
        old(line)@.wf(),
    ensures
        outcome.carries(on_control_e(*event, old(line)@), final(line)@),
        final(line)@.wf(),
{
    if is_chord(event, 'e', CONTROL) {
        proof {
            line@.lemma_resplit(line@.length());
        }
        line.set_position_end();
        Outcome::of(line.display())
    } else {
        Outcome::none()
    }
}

/// Control-B moves the cursor one column to the left, where the cursor of
/// the terminal is known to stand right of the column after the prompt. A
/// move that cannot be made is given notice of.
pub fn control_b(event: &Event, cursor: Option<(u16, u16)>, line: &mut CurrentLine) -> (outcome:
    Outcome)
    requires
        old(line)@.wf(),
    ensures
        outcome.carries(on_control_b(*event, cursor, old(line)@), final(line)@),
        final(line)@.wf(),
{
    if is_chord(event, 'b', CONTROL) {
        match cursor {
            Some((x, y)) => {
                if x > PROMPT_WIDTH {
                    let mut actions = wipe(x - 1, y);
                    if !line.move_left() {
                        put(&mut actions, Action::Report(Notice::CannotMoveLeft));
                    }
                    put_all(&mut actions, line.display());
                    assert(actions.deep_view() =~= on_control_b(*event, cursor, old(line)@).paints);
                    Outcome::of(actions)
                } else {
                    Outcome::none()
                }
            },
            None => Outcome::none(),
        }
    } else {
        Outcome::none()
    }
}

/// Control-F moves the cursor one column to the right, where the cursor of
/// the terminal is known to stand right of the column after the prompt. A
/// move that cannot be made is given notice of.
pub fn control_f(event: &Event, cursor: Option<(u16, u16)>, line: &mut CurrentLine) -> (outcome:
    Outcome)
    requires
        old(line)@.wf(),
        Binding::ControlF.matches(*event) ==> (cursor matches Some(at) ==> at.0 < u16::MAX),
    ensures
        outcome.carries(on_control_f(*event, cursor, old(line)@), final(line)@),
        final(line)@.wf(),
{
    if is_chord(event, 'f', CONTROL) {
        match cursor {
            Some((x, y)) => {
                if x > PROMPT_WIDTH {
                    let mut actions = wipe(x + 1, y);
                    if !line.move_right() {
                        put(&mut actions, Action::Report(Notice::CannotMoveRight));
                    }
                    put_all(&mut actions, line.display());
                    assert(actions.deep_view() =~= on_control_f(*event, cursor, old(line)@).paints);
                    Outcome::of(actions)
                } else {
                    Outcome::none()
                }
            },
            None => Outcome::none(),
        }
    } else {
        Outcome::none()
    }
}

/// Control-D deletes the character under the cursor. With nothing right
/// of the cursor a notice is given.
pub fn control_d(event: &Event, line: &mut CurrentLine) -> (outcome: Outcome)
    requires
        old(line)@.wf(),
    ensures
        outcome.carries(on_control_d(*event, old(line)@), final(line)@),
        final(line)@.wf(),
{
    if is_chord(event, 'd', CONTROL) {
        let mut actions: Vec<Action> = Vec::new();
        if !line.delete_right() {
            put(&mut actions, Action::Report(Notice::NothingToDelete));
        }
        put_all(&mut actions, line.display());
        assert(actions.deep_view() =~= on_control_d(*event, old(line)@).paints);
        Outcome::of(actions)
    } else {
        Outcome::none()
    }
}

/// Control-C ends the session.
pub fn control_c(event: &Event) -> (outcome: Outcome)
    ensures
        outcome.actions.deep_view() == Seq::<Paint>::empty(),
        outcome.stop == Binding::ControlC.matches(*event),
{
    if is_chord(event, 'c', CONTROL) {
        Outcome::over()
    } else {
        Outcome::none()
    }
}

/// Acts on what the interpreter made of the line that was submitted.
pub fn submit(line: &mut CurrentLine, command: &Command) -> (outcome: Outcome)
    requires
        old(line)@.row + 2 <= u16::MAX,
    ensures
        outcome.carries(submitted(old(line)@, command@), final(line)@),
        !(command@ is Quit) ==> final(line)@.wf(),
        old(line)@.wf() ==> final(line)@.wf(),
{
    let mut actions: Vec<Action> = Vec::new();
    let mut text = String::from_str("\n\r");
    match command {
        Command::Quit => {
            return Outcome::over();
        },
        Command::Help => {
            put_all(&mut actions, print_help());
            assert(text@ =~= "\n\r"@ + answer(command@));
        },
        Command::Load(file) => {
            text.append(file.as_str());
            text.append("\n");
            assert(text@ =~= "\n\r"@ + answer(command@));
        },
        Command::Invalid => {
            text.append("Could not parse\n");
        },
        Command::Command(_) => {
            text.append("Could not parse\n");
        },
    }
    text.append("\r> ");
    line.clear();
    line.position_down();
    line.position_down();
    line.set_position_start_x();
    put(&mut actions, Action::Print(text));
    put(&mut actions, Action::MoveTo(PROMPT_WIDTH, line.row()));
    put(&mut actions, Action::Flush);
    proof {
        assert(final(line)@ =~= Line::empty(old(line)@.row + 2));
        assert(actions.deep_view() =~= submitted(old(line)@, command@).paints);
    }
    Outcome::of(actions)
}

/// Enter submits the line: the interpreter is asked what it means, and
/// `submit` acts on the answer.
pub fn parse_line(event: &Event, line: &mut CurrentLine) -> (outcome: Outcome)
    requires
        enter_pressed(*event) ==> old(line)@.row + 2 <= u16::MAX,
    ensures
        outcome.carries(on_parse_line(*event, old(line)@), final(line)@),
        old(line)@.wf() ==> final(line)@.wf(),
{
    if is_enter(event) {
        let command = parse(line.collect());
        submit(line, &command)
    } else {
        Outcome::none()
    }
}

/// The empty line that a session starts with, on the row where the cursor
/// of the terminal stands, or on row 0 where that is not known.
pub fn start(cursor: Option<(u16, u16)>) -> (line: CurrentLine)
    ensures
        line@ == Line::empty(
            match cursor {
                Some(at) => at.1 as nat,
                None => 0,
            },
        ),
        line@.wf(),
{
    match cursor {
        Some((_, y)) => CurrentLine::new(0, y),
        None => CurrentLine::new(0, 0),
    }
}

/// Whether `dispatch` takes this event on this line: the line is split at
/// its cursor and short enough, and the event stays within the limits.
pub fn admits(event: &Event, cursor: Option<(u16, u16)>, line: &CurrentLine) -> (ok: bool)
    ensures
        ok == (line@.wf() && within_limits(*event, cursor, line@)),
{
    if !line.well_formed() {
        return false;
    }
    if typed_char(event).is_some() && line.length() >= MAX_LENGTH {
        return false;
    }
    if is_enter(event) && line.row() > u16::MAX - 2 {
        return false;
    }
    if is_chord(event, 'f', CONTROL) {
        match cursor {
            Some((x, _)) => {
                if x == u16::MAX {
                    return false;
                }
            },
            None => {},
        }
    }
    true
}

/// Offers the event to every binding in turn. At most one of them acts, so
/// the line and the operations are those of the one binding of the event,
/// and nothing happens where it has none.
pub fn dispatch(event: &Event, cursor: Option<(u16, u16)>, line: &mut CurrentLine) -> (outcome:
    Outcome)
    requires
        old(line)@.wf(),
        within_limits(*event, cursor, old(line)@),
    ensures
        outcome.carries(reaction(*event, cursor, old(line)@), final(line)@),
        final(line)@.wf(),
{
    let mut outcome = regular_character(event, line);
    outcome.follow(backspace(event, line));
    outcome.follow(alt_b(event, line));
    outcome.follow(alt_f(event, line));
    outcome.follow(alt_d(event, line));
    outcome.follow(control_k(event, line));
    outcome.follow(control_l(event, line));
    outcome.follow(control_a(event, line));
    outcome.follow(control_e(event, line));
    outcome.follow(control_b(event, cursor, line));
    outcome.follow(control_f(event, cursor, line));
    outcome.follow(control_d(event, line));
    outcome.follow(parse_line(event, line));
    outcome.follow(control_c(event));
    assert(outcome.actions.deep_view() =~= reaction(*event, cursor, old(line)@).paints);
    outcome
}

} // verus!
