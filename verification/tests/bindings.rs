use crispy_repl::currentline::CurrentLine;
use crispy_repl::keys::{
    admits, alt_b, alt_d, alt_f, backspace, control_a, control_b, control_c, control_d, control_e,
    control_f, control_k, control_l, dispatch, is_backspace, is_chord, is_enter, parse_line,
    prompt, regular_character, start, submit, typed_char, Event, KeyCode, KeyEvent, KeyEventKind,
    Outcome, ALT, CONTROL, NONE, SHIFT,
};
use crispy_repl::my_parser::Command;
use crispy_repl::screen::{Action, ClearType, Notice};

fn key(code: KeyCode, modifiers: u8, kind: KeyEventKind) -> Event {
    Event::Key(KeyEvent { code, modifiers, kind })
}

fn press(c: char) -> Event {
    key(KeyCode::Char(c), NONE, KeyEventKind::Press)
}

fn ctrl(c: char) -> Event {
    key(KeyCode::Char(c), CONTROL, KeyEventKind::Release)
}

fn alt(c: char) -> Event {
    key(KeyCode::Char(c), ALT, KeyEventKind::Release)
}

fn enter() -> Event {
    key(KeyCode::Enter, NONE, KeyEventKind::Press)
}

fn typed_line(before: &str, after: &str, row: u16) -> CurrentLine {
    let mut line = CurrentLine::new(0, row);
    for c in before.chars().chain(after.chars()) {
        line.add_char(c);
    }
    line.set_position_x(before.chars().count() as u16);
    line
}

fn repainted(text: &str, column: u16, row: u16) -> Vec<Action> {
    vec![
        Action::MoveTo(2, row),
        Action::Clear(ClearType::UntilNewLine),
        Action::Print(format!("\r> {}", text)),
        Action::Flush,
        Action::MoveTo(column + 2, row),
    ]
}

fn wiped_at(column: u16, row: u16) -> Vec<Action> {
    vec![
        Action::MoveTo(column, row),
        Action::Clear(ClearType::CurrentLine),
        Action::Print(String::from("\r> ")),
        Action::Flush,
    ]
}

fn nothing() -> Outcome {
    Outcome { actions: vec![], stop: false }
}

fn all_events() -> Vec<Event> {
    let mut events = vec![Event::Other];
    let codes = [
        KeyCode::Backspace,
        KeyCode::Enter,
        KeyCode::Other,
        KeyCode::Char('a'),
        KeyCode::Char('b'),
        KeyCode::Char('c'),
        KeyCode::Char('d'),
        KeyCode::Char('e'),
        KeyCode::Char('f'),
        KeyCode::Char('k'),
        KeyCode::Char('l'),
        KeyCode::Char('x'),
        KeyCode::Char('B'),
    ];
    let kinds = [KeyEventKind::Press, KeyEventKind::Repeat, KeyEventKind::Release];
    for code in codes {
        for kind in kinds {
            for modifiers in 0..16u8 {
                events.push(key(code, modifiers, kind));
            }
        }
    }
    events
}

#[test]
fn modifier_bits() {
    assert_eq!((NONE, SHIFT, CONTROL, ALT), (0, 1, 2, 4));
}

#[test]
fn typed_char_takes_a_press_with_no_modifier_or_shift() {
    assert_eq!(typed_char(&press('a')), Some('a'));
    assert_eq!(typed_char(&key(KeyCode::Char('A'), SHIFT, KeyEventKind::Press)), Some('A'));
    assert_eq!(typed_char(&key(KeyCode::Char('a'), CONTROL, KeyEventKind::Press)), None);
    assert_eq!(typed_char(&key(KeyCode::Char('a'), ALT, KeyEventKind::Press)), None);
    assert_eq!(typed_char(&key(KeyCode::Char('a'), SHIFT | ALT, KeyEventKind::Press)), None);
    assert_eq!(typed_char(&key(KeyCode::Char('a'), NONE, KeyEventKind::Release)), None);
    assert_eq!(typed_char(&key(KeyCode::Char('a'), NONE, KeyEventKind::Repeat)), None);
    assert_eq!(typed_char(&enter()), None);
    assert_eq!(typed_char(&Event::Other), None);
}

#[test]
fn is_chord_wants_the_release_and_the_exact_modifiers() {
    assert!(is_chord(&ctrl('b'), 'b', CONTROL));
    assert!(!is_chord(&ctrl('b'), 'f', CONTROL));
    assert!(!is_chord(&ctrl('b'), 'b', ALT));
    assert!(!is_chord(&key(KeyCode::Char('b'), CONTROL | SHIFT, KeyEventKind::Release), 'b', CONTROL));
    assert!(!is_chord(&key(KeyCode::Char('b'), CONTROL | 8, KeyEventKind::Release), 'b', CONTROL));
    assert!(!is_chord(&key(KeyCode::Char('b'), CONTROL, KeyEventKind::Press), 'b', CONTROL));
    assert!(!is_chord(&key(KeyCode::Char('B'), CONTROL, KeyEventKind::Release), 'b', CONTROL));
    assert!(!is_chord(&Event::Other, 'b', CONTROL));
}

#[test]
fn is_backspace_and_is_enter_want_a_press() {
    assert!(is_backspace(&key(KeyCode::Backspace, NONE, KeyEventKind::Press)));
    assert!(is_backspace(&key(KeyCode::Backspace, CONTROL, KeyEventKind::Press)));
    assert!(!is_backspace(&key(KeyCode::Backspace, NONE, KeyEventKind::Release)));
    assert!(!is_backspace(&enter()));
    assert!(is_enter(&enter()));
    assert!(is_enter(&key(KeyCode::Enter, ALT, KeyEventKind::Press)));
    assert!(!is_enter(&key(KeyCode::Enter, NONE, KeyEventKind::Repeat)));
    assert!(!is_enter(&Event::Other));
}

#[test]
fn at_most_one_binding_answers_an_event() {
    for event in all_events() {
        let cursor = Some((5, 0));
        let mut answers = 0;
        let mut line = typed_line("ab ", "cd", 0);
        let offered: Vec<Outcome> = vec![
            regular_character(&event, &mut line),
            backspace(&event, &mut line),
            alt_b(&event, &mut line),
            alt_f(&event, &mut line),
            alt_d(&event, &mut line),
            control_k(&event, &mut line),
            control_l(&event, &mut line),
            control_a(&event, &mut line),
            control_e(&event, &mut line),
            control_b(&event, cursor, &mut line),
            control_f(&event, cursor, &mut line),
            control_d(&event, &mut line),
            parse_line(&event, &mut line),
            control_c(&event),
        ];
        for outcome in offered {
            if outcome != nothing() {
                answers += 1;
            }
        }
        assert!(answers <= 1, "{:?}", event);
    }
}

#[test]
fn dispatch_is_the_one_binding_of_the_event() {
    for event in all_events() {
        let cursor = Some((5, 0));
        let mut line = typed_line("ab ", "cd", 0);
        let mut alone = typed_line("ab ", "cd", 0);
        let mut expected = nothing();
        let offered: Vec<Outcome> = vec![
            regular_character(&event, &mut alone),
            backspace(&event, &mut alone),
            alt_b(&event, &mut alone),
            alt_f(&event, &mut alone),
            alt_d(&event, &mut alone),
            control_k(&event, &mut alone),
            control_l(&event, &mut alone),
            control_a(&event, &mut alone),
            control_e(&event, &mut alone),
            control_b(&event, cursor, &mut alone),
            control_f(&event, cursor, &mut alone),
            control_d(&event, &mut alone),
            parse_line(&event, &mut alone),
            control_c(&event),
        ];
        for outcome in offered {
            if outcome != nothing() {
                expected = outcome;
            }
        }
        assert!(admits(&event, cursor, &line));
        assert_eq!(dispatch(&event, cursor, &mut line), expected, "{:?}", event);
        assert_eq!(line.collect(), alone.collect());
        assert_eq!(line.position.x(), alone.position.x());
        assert_eq!(line.position.y(), alone.position.y());
        assert!(line.well_formed());
    }
}

#[test]
fn an_event_without_a_binding_does_nothing() {
    let mut line = typed_line("ab", "cd", 3);
    for event in [
        Event::Other,
        key(KeyCode::Other, NONE, KeyEventKind::Press),
        key(KeyCode::Char('z'), CONTROL, KeyEventKind::Release),
        key(KeyCode::Char('a'), CONTROL, KeyEventKind::Press),
        key(KeyCode::Char('a'), NONE, KeyEventKind::Release),
        key(KeyCode::Enter, NONE, KeyEventKind::Release),
    ] {
        assert_eq!(dispatch(&event, Some((4, 3)), &mut line), nothing());
        assert_eq!(line.collect(), "abcd");
        assert_eq!((line.position.x(), line.position.y()), (2, 3));
    }
}

#[test]
fn a_typed_character_is_inserted_and_the_line_repainted() {
    let mut line = typed_line("ab", "cd", 3);
    let outcome = dispatch(&press('x'), None, &mut line);
    assert_eq!(outcome, Outcome { actions: repainted("abxcd", 3, 3), stop: false });
    assert_eq!(line.collect(), "abxcd");
    assert_eq!(line.position.x(), 3);
}

#[test]
fn a_shifted_character_is_inserted() {
    let mut line = start(Some((0, 1)));
    let outcome = regular_character(&key(KeyCode::Char('Q'), SHIFT, KeyEventKind::Press), &mut line);
    assert_eq!(outcome.actions, repainted("Q", 1, 1));
    assert_eq!(line.collect(), "Q");
}

#[test]
fn backspace_deletes_before_the_cursor() {
    let mut line = typed_line("ab", "cd", 0);
    let outcome = dispatch(&key(KeyCode::Backspace, NONE, KeyEventKind::Press), None, &mut line);
    assert_eq!(outcome, Outcome { actions: repainted("acd", 1, 0), stop: false });
    assert_eq!(line.collect(), "acd");
}

#[test]
fn backspace_at_the_start_only_repaints() {
    let mut line = typed_line("", "cd", 0);
    let outcome = backspace(&key(KeyCode::Backspace, SHIFT, KeyEventKind::Press), &mut line);
    assert_eq!(outcome.actions, repainted("cd", 0, 0));
    assert_eq!(line.collect(), "cd");
}

#[test]
fn control_a_goes_to_the_start() {
    let mut line = typed_line("ab", "cd", 2);
    let outcome = dispatch(&ctrl('a'), None, &mut line);
    assert_eq!(outcome, Outcome { actions: repainted("abcd", 0, 2), stop: false });
    assert_eq!(line.position.x(), 0);
    assert_eq!(line.collect(), "abcd");
}

#[test]
fn control_e_goes_to_the_end() {
    let mut line = typed_line("ab", "cd", 2);
    let outcome = dispatch(&ctrl('e'), None, &mut line);
    assert_eq!(outcome, Outcome { actions: repainted("abcd", 4, 2), stop: false });
    assert_eq!(line.position.x(), 4);
}

#[test]
fn control_b_moves_left_where_the_cursor_is_right_of_the_prompt() {
    let mut line = typed_line("ab", "cd", 1);
    let outcome = dispatch(&ctrl('b'), Some((4, 1)), &mut line);
    let mut expected = wiped_at(3, 1);
    expected.extend(repainted("abcd", 1, 1));
    assert_eq!(outcome, Outcome { actions: expected, stop: false });
    assert_eq!(line.position.x(), 1);
}

#[test]
fn control_b_does_nothing_at_the_prompt_or_without_a_cursor() {
    let mut line = typed_line("", "cd", 1);
    assert_eq!(dispatch(&ctrl('b'), Some((2, 1)), &mut line), nothing());
    assert_eq!(dispatch(&ctrl('b'), Some((0, 1)), &mut line), nothing());
    assert_eq!(dispatch(&ctrl('b'), None, &mut line), nothing());
    let mut line = typed_line("ab", "cd", 1);
    assert_eq!(dispatch(&ctrl('b'), None, &mut line), nothing());
    assert_eq!(line.position.x(), 2);
}

#[test]
fn control_b_that_cannot_move_gives_notice() {
    let mut line = typed_line("", "cd", 1);
    let outcome = control_b(&ctrl('b'), Some((3, 1)), &mut line);
    let mut expected = wiped_at(2, 1);
    expected.push(Action::Report(Notice::CannotMoveLeft));
    expected.extend(repainted("cd", 0, 1));
    assert_eq!(outcome, Outcome { actions: expected, stop: false });
    assert_eq!(line.position.x(), 0);
    assert_eq!(line.collect(), "cd");
}

#[test]
fn control_f_moves_right_where_the_cursor_is_right_of_the_prompt() {
    let mut line = typed_line("ab", "cd", 1);
    let outcome = dispatch(&ctrl('f'), Some((4, 1)), &mut line);
    let mut expected = wiped_at(5, 1);
    expected.extend(repainted("abcd", 3, 1));
    assert_eq!(outcome, Outcome { actions: expected, stop: false });
    assert_eq!(line.position.x(), 3);
}

#[test]
fn control_f_does_nothing_at_the_prompt() {
    let mut line = typed_line("", "cd", 1);
    assert_eq!(dispatch(&ctrl('f'), Some((2, 1)), &mut line), nothing());
    assert_eq!(dispatch(&ctrl('f'), None, &mut line), nothing());
    assert_eq!(line.position.x(), 0);
}

#[test]
fn control_f_that_cannot_move_gives_notice() {
    let mut line = typed_line("cd", "", 1);
    let outcome = control_f(&ctrl('f'), Some((4, 1)), &mut line);
    let mut expected = wiped_at(5, 1);
    expected.push(Action::Report(Notice::CannotMoveRight));
    expected.extend(repainted("cd", 2, 1));
    assert_eq!(outcome, Outcome { actions: expected, stop: false });
    assert_eq!(line.position.x(), 2);
}

#[test]
fn control_k_discards_what_is_right_of_the_cursor() {
    let mut line = typed_line("ab", "cd", 0);
    let outcome = dispatch(&ctrl('k'), None, &mut line);
    let mut expected = vec![Action::Clear(ClearType::UntilNewLine)];
    expected.extend(repainted("ab", 2, 0));
    assert_eq!(outcome, Outcome { actions: expected, stop: false });
    assert_eq!(line.collect(), "ab");
}

#[test]
fn control_d_deletes_under_the_cursor() {
    let mut line = typed_line("ab", "cd", 0);
    let outcome = dispatch(&ctrl('d'), None, &mut line);
    assert_eq!(outcome, Outcome { actions: repainted("abd", 2, 0), stop: false });
}

#[test]
fn control_d_on_an_empty_tail_gives_notice() {
    let mut line = typed_line("ab", "", 0);
    let outcome = control_d(&ctrl('d'), &mut line);
    let mut expected = vec![Action::Report(Notice::NothingToDelete)];
    expected.extend(repainted("ab", 2, 0));
    assert_eq!(outcome, Outcome { actions: expected, stop: false });
    assert_eq!(line.collect(), "ab");
}

#[test]
fn control_l_clears_the_line_and_the_screen() {
    let mut line = typed_line("ab", "cd", 9);
    let outcome = dispatch(&ctrl('l'), None, &mut line);
    assert_eq!(
        outcome,
        Outcome {
            actions: vec![
                Action::MoveTo(0, 0),
                Action::Clear(ClearType::All),
                Action::Print(String::from("\r> ")),
                Action::Flush,
            ],
            stop: false,
        }
    );
    assert_eq!(line.collect(), "");
    assert_eq!((line.position.x(), line.position.y()), (0, 0));
}

#[test]
fn alt_b_jumps_to_the_previous_word() {
    let mut line = typed_line("ab  cd e", "f", 4);
    let outcome = dispatch(&alt('b'), None, &mut line);
    assert_eq!(outcome, Outcome { actions: vec![Action::MoveTo(9, 4)], stop: false });
    assert_eq!(line.position.x(), 7);
    let outcome = alt_b(&alt('b'), &mut line);
    assert_eq!(outcome.actions, vec![Action::MoveTo(6, 4)]);
    let outcome = alt_b(&alt('b'), &mut line);
    assert_eq!(outcome.actions, vec![Action::MoveTo(2, 4)]);
    assert_eq!(line.position.x(), 0);
    assert_eq!(line.collect(), "ab  cd ef");
}

#[test]
fn alt_b_at_column_zero_gives_notice_and_leaves_the_cursor() {
    let mut line = typed_line("", "ab cd", 4);
    let outcome = dispatch(&alt('b'), None, &mut line);
    assert_eq!(outcome, Outcome { actions: vec![Action::Report(Notice::NoPreviousWord)], stop: false });
    assert_eq!(line.position.x(), 0);
    assert_eq!(line.collect(), "ab cd");
}

#[test]
fn alt_f_jumps_to_the_next_word_or_the_end() {
    let mut line = typed_line("", "ab  cd ef", 4);
    let outcome = dispatch(&alt('f'), None, &mut line);
    assert_eq!(outcome, Outcome { actions: vec![Action::MoveTo(6, 4)], stop: false });
    let outcome = alt_f(&alt('f'), &mut line);
    assert_eq!(outcome.actions, vec![Action::MoveTo(9, 4)]);
    let outcome = alt_f(&alt('f'), &mut line);
    assert_eq!(outcome.actions, vec![Action::MoveTo(11, 4)]);
    assert_eq!(line.position.x(), 9);
    let outcome = alt_f(&alt('f'), &mut line);
    assert_eq!(outcome.actions, vec![Action::MoveTo(11, 4)]);
    assert_eq!(line.collect(), "ab  cd ef");
}

#[test]
fn alt_d_deletes_to_the_next_word() {
    let mut line = typed_line("x ", "ab  cd", 0);
    let outcome = dispatch(&alt('d'), None, &mut line);
    assert_eq!(outcome, Outcome { actions: repainted("x cd", 2, 0), stop: false });
    let outcome = alt_d(&alt('d'), &mut line);
    assert_eq!(outcome.actions, repainted("x ", 2, 0));
}

#[test]
fn control_c_ends_the_session() {
    let mut line = typed_line("ab", "cd", 0);
    assert_eq!(control_c(&ctrl('c')), Outcome { actions: vec![], stop: true });
    assert_eq!(control_c(&ctrl('d')), nothing());
    assert_eq!(dispatch(&ctrl('c'), None, &mut line), Outcome { actions: vec![], stop: true });
    assert_eq!(line.collect(), "abcd");
}

#[test]
fn submitting_x_resets_the_line_two_rows_down() {
    let mut line = start(Some((0, 3)));
    dispatch(&press('x'), None, &mut line);
    let outcome = dispatch(&enter(), None, &mut line);
    assert_eq!(
        outcome,
        Outcome {
            actions: vec![
                Action::Print(String::from("\n\rCould not parse\n\r> ")),
                Action::MoveTo(2, 5),
                Action::Flush,
            ],
            stop: false,
        }
    );
    assert_eq!(line.collect(), "");
    assert_eq!(line.length(), 0);
    assert_eq!(line.position.x(), 0);
    assert!(line.position.y() >= 4);
    assert_eq!(line.position.y(), 5);
}

#[test]
fn submitting_key_value_prints_the_structured_text_and_resets() {
    let mut line = start(None);
    for c in "key:value arg".chars() {
        assert!(!dispatch(&press(c), None, &mut line).stop);
    }
    let outcome = dispatch(&enter(), None, &mut line);
    assert_eq!(
        outcome,
        Outcome {
            actions: vec![
                Action::Print(String::from("\n\r{key: key, args: value arg }\n\r> ")),
                Action::MoveTo(2, 2),
                Action::Flush,
            ],
            stop: false,
        }
    );
    assert_eq!(line.collect(), "");
    assert_eq!((line.position.x(), line.position.y()), (0, 2));
}

#[test]
fn submitting_quit_ends_the_session_and_prints_nothing() {
    let mut line = start(Some((0, 6)));
    for c in ":q".chars() {
        dispatch(&press(c), None, &mut line);
    }
    let outcome = dispatch(&enter(), None, &mut line);
    assert_eq!(outcome, Outcome { actions: vec![], stop: true });
    assert_eq!(line.collect(), ":q");
    assert_eq!((line.position.x(), line.position.y()), (2, 6));
}

#[test]
fn a_session_stops_at_quit_and_leaves_later_events_alone() {
    let mut line = start(None);
    let mut events = vec![press(':'), press('q'), enter(), press('z'), enter()];
    events.reverse();
    let mut handled = 0;
    while let Some(event) = events.pop() {
        handled += 1;
        if dispatch(&event, None, &mut line).stop {
            break;
        }
    }
    assert_eq!(handled, 3);
    assert_eq!(events.len(), 2);
    assert_eq!(line.collect(), ":q");
}

#[test]
fn submitting_help_shows_the_help_text() {
    let mut line = start(Some((0, 0)));
    for c in ":h".chars() {
        dispatch(&press(c), None, &mut line);
    }
    let outcome = parse_line(&enter(), &mut line);
    assert_eq!(
        outcome,
        Outcome {
            actions: vec![
                Action::Print(String::from("\nHelp!")),
                Action::Flush,
                Action::Print(String::from("\n\r\r> ")),
                Action::MoveTo(2, 2),
                Action::Flush,
            ],
            stop: false,
        }
    );
    assert_eq!(line.collect(), "");
}

#[test]
fn submit_answers_each_verdict() {
    let mut line = typed_line("ab", "cd", 1);
    let outcome = submit(&mut line, &Command::Load(String::from("{key: k}")));
    assert_eq!(
        outcome.actions,
        vec![
            Action::Print(String::from("\n\r{key: k}\n\r> ")),
            Action::MoveTo(2, 3),
            Action::Flush,
        ]
    );
    assert_eq!((line.collect(), line.position.x(), line.position.y()), (String::new(), 0, 3));
    let outcome = submit(&mut line, &Command::Command(Box::new(Command::Help)));
    assert_eq!(
        outcome.actions,
        vec![
            Action::Print(String::from("\n\rCould not parse\n\r> ")),
            Action::MoveTo(2, 5),
            Action::Flush,
        ]
    );
    let outcome = submit(&mut line, &Command::Invalid);
    assert_eq!(outcome.actions[1], Action::MoveTo(2, 7));
    assert!(!outcome.stop);
    line.add_char('x');
    let outcome = submit(&mut line, &Command::Quit);
    assert_eq!(outcome, Outcome { actions: vec![], stop: true });
    assert_eq!((line.collect(), line.position.x(), line.position.y()), (String::from("x"), 1, 7));
}

#[test]
fn enter_with_a_modifier_submits_too() {
    let mut line = typed_line(":k", "", 0);
    let outcome = dispatch(&key(KeyCode::Enter, CONTROL, KeyEventKind::Press), None, &mut line);
    assert_eq!(outcome.actions[0], Action::Print(String::from("\n\r{key: k}\n\r> ")));
}

#[test]
fn start_puts_the_line_on_the_row_of_the_cursor() {
    let line = start(Some((9, 4)));
    assert_eq!((line.position.x(), line.position.y()), (0, 4));
    let line = start(None);
    assert_eq!((line.position.x(), line.position.y()), (0, 0));
    assert_eq!(line.collect(), "");
    assert!(line.well_formed());
}

#[test]
fn prompt_is_written_from_the_left_edge() {
    assert_eq!(prompt(), vec![Action::Print(String::from("\r> ")), Action::Flush]);
}

#[test]
fn admits_refuses_what_is_beyond_the_limits() {
    let line = typed_line("ab", "cd", u16::MAX - 1);
    assert!(admits(&press('x'), None, &line));
    assert!(!admits(&enter(), None, &line));
    assert!(admits(&key(KeyCode::Enter, NONE, KeyEventKind::Release), None, &line));
    let line = typed_line("ab", "cd", u16::MAX - 2);
    assert!(admits(&enter(), None, &line));
    assert!(admits(&ctrl('f'), Some((u16::MAX - 1, 0)), &line));
    assert!(!admits(&ctrl('f'), Some((u16::MAX, 0)), &line));
    assert!(admits(&ctrl('b'), Some((u16::MAX, 0)), &line));
    assert!(admits(&ctrl('f'), None, &line));
    let mut broken = typed_line("ab", "cd", 0);
    broken.position.set_x(1);
    assert!(!admits(&Event::Other, None, &broken));
    assert!(!admits(&press('x'), None, &CurrentLine::new(1, 0)));
}
