use crispy_repl::words::{next_word_start, previous_word_start, SEPARATOR};

#[test]
fn the_separator_is_the_space() {
    assert_eq!(SEPARATOR, ' ');
}

#[test]
fn next_word_start_from_the_first_word() {
    assert_eq!(next_word_start("ab cd", 0), 3);
}

#[test]
fn next_word_start_at_the_end_is_the_end() {
    assert_eq!(next_word_start("ab cd", 5), 5);
}

#[test]
fn next_word_start_within_the_last_word_is_the_end() {
    assert_eq!(next_word_start("ab cd", 3), 5);
    assert_eq!(next_word_start("ab cd", 4), 5);
}

#[test]
fn next_word_start_skips_a_run_of_separators() {
    assert_eq!(next_word_start("ab   cd", 0), 5);
    assert_eq!(next_word_start("ab   cd", 2), 5);
    assert_eq!(next_word_start("ab   cd", 3), 5);
    assert_eq!(next_word_start("  ab", 0), 2);
}

#[test]
fn next_word_start_with_trailing_separators_is_the_end() {
    assert_eq!(next_word_start("ab  ", 0), 4);
    assert_eq!(next_word_start("ab  ", 2), 4);
}

#[test]
fn next_word_start_knows_no_other_separator() {
    assert_eq!(next_word_start("ab\tcd,ef", 0), 8);
}

#[test]
fn next_word_start_of_the_empty_line() {
    assert_eq!(next_word_start("", 0), 0);
}

#[test]
fn next_word_start_past_the_end_is_the_end() {
    assert_eq!(next_word_start("ab cd", 9), 5);
}

#[test]
fn previous_word_start_from_the_second_word() {
    assert_eq!(previous_word_start("ab cd", 3), Some(0));
}

#[test]
fn previous_word_start_skips_a_doubled_separator() {
    assert_eq!(previous_word_start("ab  cd", 4), Some(0));
}

#[test]
fn previous_word_start_at_column_zero_is_none() {
    assert_eq!(previous_word_start("ab cd", 0), None);
    assert_eq!(previous_word_start("", 0), None);
}

#[test]
fn previous_word_start_within_a_word_is_its_start() {
    assert_eq!(previous_word_start("ab cd", 4), Some(3));
    assert_eq!(previous_word_start("ab cd", 5), Some(3));
    assert_eq!(previous_word_start("ab cd", 1), Some(0));
    assert_eq!(previous_word_start("ab cd", 2), Some(0));
}

#[test]
fn previous_word_start_with_leading_separators_is_column_zero() {
    assert_eq!(previous_word_start("  ab", 2), Some(0));
    assert_eq!(previous_word_start("  ab", 3), Some(2));
    assert_eq!(previous_word_start("   ", 3), Some(0));
}

#[test]
fn previous_word_start_past_the_end() {
    assert_eq!(previous_word_start("ab cd", 9), Some(3));
    assert_eq!(previous_word_start("", 4), Some(0));
}

#[test]
fn word_starts_count_characters() {
    assert_eq!(next_word_start("äö üß", 0), 3);
    assert_eq!(previous_word_start("äö üß", 5), Some(3));
}
