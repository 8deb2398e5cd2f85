//! Word boundaries: where the previous and the next word start.
//!
//! Words are separated by the space character and by nothing else. A run of
//! spaces is one boundary, so a word start never lies inside such a run.

use vstd::prelude::*;
use crate::text::chars_of;

verus! {

/// The one character that separates words.
pub const SEPARATOR: char = ' ';

/// Column `i` starts a word: it is the start of the line, or it holds a
/// character other than the separator that follows a separator.
pub open spec fn is_word_start(text: Seq<char>, i: int) -> bool {
    i == 0 || (0 < i < text.len() && text[i - 1] == SEPARATOR && text[i] != SEPARATOR)
}

/// The last word start left of `column`, if there is one.
pub open spec fn word_start_before(text: Seq<char>, column: int) -> Option<int>
    decreases column,
{
    if column <= 0 {
        None
    } else if is_word_start(text, column - 1) {
        Some(column - 1)
    } else {
        word_start_before(text, column - 1)
    }
}

/// The first word start right of `column`, or the end of the line where no
/// word starts right of it.
pub open spec fn word_start_after(text: Seq<char>, column: int) -> int
    decreases text.len() - column,
{
    if column >= text.len() {
        text.len() as int
    } else if is_word_start(text, column + 1) {
        column + 1
    } else {
        word_start_after(text, column + 1)
    }
}

/// Left of a cursor past column 0 there is always a word start, and
/// `word_start_before` is the greatest of them; at column 0 or left of it
/// there is none.
pub proof fn lemma_word_start_before(text: Seq<char>, column: int)
    ensures
        column <= 0 ==> word_start_before(text, column) is None,
        column > 0 ==> {
            &&& word_start_before(text, column) matches Some(start)
            &&& 0 <= start < column
            &&& is_word_start(text, start)
            &&& forall|j: int| start < j < column ==> !is_word_start(text, j)
        },
    decreases column,
{
    if column > 0 && !is_word_start(text, column - 1) {
        lemma_word_start_before(text, column - 1);
    }
}

/// `word_start_after` is the least word start right of `column`; where
/// there is none it is the end of the line.
pub proof fn lemma_word_start_after(text: Seq<char>, column: int)
    ensures
        forall|j: int| column < j < word_start_after(text, column) ==> !is_word_start(text, j),
        word_start_after(text, column) == text.len() || {
            &&& column < word_start_after(text, column) < text.len()
            &&& is_word_start(text, word_start_after(text, column))
        },
        column < text.len() ==> column < word_start_after(text, column),
        column >= 0 && word_start_after(text, column) == text.len() ==> forall|j: int|
            column < j ==> !is_word_start(text, j),
    decreases text.len() - column,
{
    if column < text.len() && !is_word_start(text, column + 1) {
        lemma_word_start_after(text, column + 1);
    }
}

/// No word starts at or past the end of a line, so a cursor past the end
/// finds the same previous word start as one at the end.
pub proof fn lemma_word_start_before_past_end(text: Seq<char>, column: int)
    requires
        column >= text.len(),
        text.len() > 0,
    ensures
        word_start_before(text, column) == word_start_before(text, text.len() as int),
    decreases column,
{
    if column > text.len() {
        lemma_word_start_before_past_end(text, column - 1);
    }
}

/// Whether column `i` of `chars` starts a word.
fn starts_word(chars: &[char], i: usize) -> (b: bool)
    ensures
        b == is_word_start(chars@, i as int),
{
    i == 0 || (i < chars.len() && chars[i - 1] == SEPARATOR && chars[i] != SEPARATOR)
}

/// The column of the last word start left of `column`; `None` at column 0,
/// where nothing lies to the left.
pub fn previous_word_start(text: &str, column: usize) -> (start: Option<usize>)
    ensures
        start is None <==> column == 0,
        match start {
            Some(i) => word_start_before(text@, column as int) == Some(i as int),
            None => word_start_before(text@, column as int) is None,
        },
        start matches Some(i) ==> {
            &&& i < column
            &&& is_word_start(text@, i as int)
            &&& forall|j: int| i < j < column ==> !is_word_start(text@, j)
        },
{
    proof {
        lemma_word_start_before(text@, column as int);
    }
    if column == 0 {
        return None;
    }
    let chars = chars_of(text);
    let n: usize = chars.len();
    if n == 0 {
        proof {
            lemma_word_start_before(text@, column as int);
        }
        return Some(0);
    }
    let mut i: usize = if column < n {
        column
    } else {
        n
    };
    proof {
        if column >= n {
            lemma_word_start_before_past_end(text@, column as int);
        }
    }
    while !starts_word(chars.as_slice(), i - 1)
        invariant
            chars@ == text@,
            0 < i <= column,
            word_start_before(text@, column as int) == word_start_before(text@, i as int),
        decreases i,
    {
        i -= 1;
    }
    Some(i - 1)
}

/// The column of the first word start right of `column`, or the length of
/// the line where no word starts right of it: the end of the line is a
/// boundary too.
pub fn next_word_start(text: &str, column: usize) -> (next: usize)
    ensures
        next == word_start_after(text@, column as int),
        next <= text@.len(),
        column < text@.len() ==> column < next,
        forall|j: int| column < j < next ==> !is_word_start(text@, j),
        next < text@.len() ==> is_word_start(text@, next as int),
{
    proof {
        lemma_word_start_after(text@, column as int);
    }
    let chars = chars_of(text);
    let n: usize = chars.len();
    let mut i: usize = column;
    while i < n && !starts_word(chars.as_slice(), i + 1)
        invariant
            chars@ == text@,
            n == text@.len(),
            column <= i,
            i <= n || i == column,
            word_start_after(text@, column as int) == word_start_after(text@, i as int),
        decreases n - i,
    {
        i += 1;
    }
    if i < n {
        i + 1
    } else {
        n
    }
}

} // verus!
