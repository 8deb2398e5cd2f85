//! Text as sequences of characters: the few operations of `String` and `char`
//! that are taken on trust, and the verified helpers built on them.

use vstd::prelude::*;
use vstd::string::*;

verus! {

/// Whether `char::is_whitespace` holds of a character: membership in
/// Unicode's White_Space property, a table too long to write out here.
pub uninterp spec fn white_space(c: char) -> bool;

/// `char::is_whitespace`: the answer depends on the character alone.
pub assume_specification[ char::is_whitespace ](c: char) -> (b: bool)
    ensures
        b == white_space(c),
;

/// `String::push`: the character is appended, and nothing else changes.
pub assume_specification[ String::push ](s: &mut String, ch: char)
    ensures
        final(s)@ == old(s)@.push(ch),
;

/// `String::pop`: the last character is removed and returned; an empty
/// string stays empty and gives `None`.
pub assume_specification[ String::pop ](s: &mut String) -> (last: Option<char>)
    ensures
        old(s)@.len() == 0 ==> last is None && final(s)@ == old(s)@,
        old(s)@.len() > 0 ==> last == Some(old(s)@.last()) && final(s)@ == old(s)@.drop_last(),
;

/// The characters of a string, in order.
pub fn chars_of(s: &str) -> (chars: Vec<char>)
    ensures
        chars@ == s@,
{
    let mut chars: Vec<char> = Vec::new();
    for c in it: s.chars()
        invariant
            it.seq() == s@,
            chars@ == it.seq().take(it.index() as int),
    {
        chars.push(c);
    }
    chars
}

/// The string made of the characters `chars[from..to]`.
pub fn string_of(chars: &[char], from: usize, to: usize) -> (s: String)
    requires
        from <= to <= chars@.len(),
    ensures
        s@ == chars@.subrange(from as int, to as int),
{
    let mut s = String::new();
    let mut i: usize = from;
    while i < to
        invariant
            from <= i <= to <= chars@.len(),
            s@ == chars@.subrange(from as int, i as int),
        decreases to - i,
    {
        s.push(chars[i]);
        i += 1;
    }
    s
}

/// The index of the first `c` in `s`, or the length of `s` where it holds
/// none.
pub open spec fn first_index(s: Seq<char>, c: char) -> int
    decreases s.len(),
{
    if s.len() == 0 || s[0] == c {
        0
    } else {
        1 + first_index(s.drop_first(), c)
    }
}

/// `first_index` lies within `s` or at its end; no `c` stands before it,
/// and where it lies within `s` a `c` stands at it.
pub proof fn lemma_first_index(s: Seq<char>, c: char)
    ensures
        0 <= first_index(s, c) <= s.len(),
        forall|j: int| 0 <= j < first_index(s, c) ==> s[j] != c,
        first_index(s, c) < s.len() ==> s[first_index(s, c)] == c,
    decreases s.len(),
{
    if s.len() > 0 && s[0] != c {
        let rest = s.drop_first();
        lemma_first_index(rest, c);
        assert forall|j: int| 0 <= j < first_index(s, c) implies s[j] != c by {
            if j > 0 {
                assert(s[j] == rest[j - 1]);
            }
        }
    }
}

/// The parts of `s` between occurrences of `sep`, in order. There is one
/// part more than there are separators, so the empty text has one empty
/// part.
pub open spec fn split(s: Seq<char>, sep: char) -> Seq<Seq<char>>
    decreases s.len(),
{
    let i = first_index(s, sep);
    if 0 <= i < s.len() {
        seq![s.take(i)] + split(s.skip(i + 1), sep)
    } else {
        seq![s]
    }
}

/// Whether `pattern` occurs in `s` as a run of adjacent characters.
pub open spec fn contains(s: Seq<char>, pattern: Seq<char>) -> bool {
    exists|i: int| occurs_at(s, pattern, i)
}

/// Whether `pattern` occurs in `s` at index `i`.
pub open spec fn occurs_at(s: Seq<char>, pattern: Seq<char>, i: int) -> bool {
    0 <= i && i + pattern.len() <= s.len() && s.subrange(i, i + pattern.len()) == pattern
}

/// How many of `flags` hold at the start, one after the other.
pub open spec fn leading(flags: Seq<bool>) -> int
    decreases flags.len(),
{
    if flags.len() > 0 && flags.first() {
        1 + leading(flags.drop_first())
    } else {
        0
    }
}

/// How many of `flags` hold at the end, one after the other.
pub open spec fn trailing(flags: Seq<bool>) -> int
    decreases flags.len(),
{
    if flags.len() > 0 && flags.last() {
        1 + trailing(flags.drop_last())
    } else {
        0
    }
}

/// For each character of `s`, whether it is white space.
pub open spec fn blank(s: Seq<char>) -> Seq<bool> {
    s.map_values(|c: char| white_space(c))
}

/// Where what is left of `flags` starts and ends, once the flags that hold
/// are dropped from the start and then from the end.
pub open spec fn inner(flags: Seq<bool>) -> (int, int) {
    let from = leading(flags);
    (from, flags.len() - trailing(flags.skip(from)))
}

/// `s` without the white space at its start and at its end.
pub open spec fn trimmed(s: Seq<char>) -> Seq<char> {
    s.subrange(inner(blank(s)).0, inner(blank(s)).1)
}

/// The index of the first `c` in `chars` at or after `from`, or the number
/// of characters where there is none.
pub fn find(chars: &[char], from: usize, c: char) -> (i: usize)
    requires
        from <= chars@.len(),
    ensures
        i == from + first_index(chars@.skip(from as int), c),
        from <= i <= chars@.len(),
        forall|j: int| from <= j < i ==> chars@[j] != c,
        i < chars@.len() ==> chars@[i as int] == c,
{
    let n: usize = chars.len();
    let mut i: usize = from;
    assert(chars@.skip(from as int).skip(0) =~= chars@.skip(from as int));
    while i < n && chars[i] != c
        invariant
            n == chars@.len(),
            from <= i <= n,
            first_index(chars@.skip(from as int), c) == (i - from) + first_index(
                chars@.skip(i as int),
                c,
            ),
            forall|j: int| from <= j < i ==> chars@[j] != c,
        decreases n - i,
    {
        assert(chars@.skip(i as int).drop_first() =~= chars@.skip(i + 1));
        i += 1;
    }
    i
}

/// Whether the two runs of characters are the same.
pub fn same(a: &[char], b: &[char]) -> (equal: bool)
    ensures
        equal == (a@ == b@),
{
    if a.len() != b.len() {
        return false;
    }
    let n: usize = a.len();
    let mut i: usize = 0;
    while i < n
        invariant
            n == a@.len(),
            n == b@.len(),
            i <= n,
            a@.take(i as int) == b@.take(i as int),
        decreases n - i,
    {
        if a[i] != b[i] {
            return false;
        }
        assert(a@.take(i + 1) =~= a@.take(i as int).push(a@[i as int]));
        assert(b@.take(i + 1) =~= b@.take(i as int).push(b@[i as int]));
        i += 1;
    }
    assert(a@ =~= a@.take(n as int));
    assert(b@ =~= b@.take(n as int));
    true
}

/// Whether `pattern` stands in `chars` at index `at`.
fn matches_at(chars: &[char], pattern: &[char], at: usize) -> (found: bool)
    requires
        at + pattern@.len() <= chars@.len(),
    ensures
        found == occurs_at(chars@, pattern@, at as int),
{
    let n: usize = chars.len();
    let m: usize = pattern.len();
    let mut k: usize = 0;
    while k < m
        invariant
            n == chars@.len(),
            m == pattern@.len(),
            at + m <= n,
            k <= m,
            chars@.subrange(at as int, at + k) == pattern@.take(k as int),
        decreases m - k,
    {
        if chars[at + k] != pattern[k] {
            assert(chars@.subrange(at as int, at + m)[k as int] != pattern@[k as int]);
            return false;
        }
        assert(chars@.subrange(at as int, at + k + 1) =~= chars@.subrange(
            at as int,
            at + k,
        ).push(chars@[at + k]));
        assert(pattern@.take(k + 1) =~= pattern@.take(k as int).push(pattern@[k as int]));
        k += 1;
    }
    assert(pattern@ =~= pattern@.take(m as int));
    true
}

/// Whether `pattern` occurs in `chars`.
pub fn has(chars: &[char], pattern: &[char]) -> (found: bool)
    ensures
        found == contains(chars@, pattern@),
{
    let n: usize = chars.len();
    let m: usize = pattern.len();
    if m > n {
        return false;
    }
    let last: usize = n - m;
    let mut i: usize = 0;
    loop
        invariant
            n == chars@.len(),
            m == pattern@.len(),
            last == n - m,
            i <= last,
            forall|j: int| 0 <= j < i ==> !occurs_at(chars@, pattern@, j),
        decreases last - i,
    {
        if matches_at(chars, pattern, i) {
            return true;
        }
        if i == last {
            return false;
        }
        i += 1;
    }
}

/// The parts of `text` between occurrences of `sep`, in order.
pub fn split_on(text: &str, sep: char) -> (parts: Vec<String>)
    ensures
        parts.deep_view() == split(text@, sep),
        parts@.len() > 0,
{
    let chars = chars_of(text);
    let n: usize = chars.len();
    let mut parts: Vec<String> = Vec::new();
    let mut start: usize = 0;
    assert(chars@.skip(0) =~= chars@);
    assert(parts.deep_view() + split(chars@, sep) =~= split(chars@, sep));
    loop
        invariant_except_break
            split(text@, sep) == parts.deep_view() + split(chars@.skip(start as int), sep),
        invariant
            chars@ == text@,
            n == chars@.len(),
            start <= n,
        ensures
            parts.deep_view() == split(text@, sep),
            parts@.len() > 0,
        decreases n - start,
    {
        let ghost rest = chars@.skip(start as int);
        let ghost before = parts.deep_view();
        let i: usize = find(chars.as_slice(), start, sep);
        let part = string_of(chars.as_slice(), start, i);
        parts.push(part);
        proof {
            lemma_first_index(rest, sep);
            assert(first_index(rest, sep) == i - start);
            assert(part@ =~= rest.take(i - start));
            assert(parts.deep_view() =~= before.push(part@));
            if i < n {
                assert(rest.skip(i - start + 1) =~= chars@.skip(i + 1));
                assert(split(rest, sep) == seq![rest.take(i - start)] + split(
                    rest.skip(i - start + 1),
                    sep,
                ));
                assert(before + (seq![part@] + split(chars@.skip(i + 1), sep)) =~= before.push(
                    part@,
                ) + split(chars@.skip(i + 1), sep));
            } else {
                assert(rest.take(i - start) =~= rest);
                assert(split(rest, sep) == seq![rest]);
                assert(before + seq![rest] =~= before.push(part@));
            }
        }
        if i < n {
            start = i + 1;
        } else {
            break;
        }
    }
    parts
}

/// For each character, whether it is white space.
pub fn blanks(chars: &[char]) -> (flags: Vec<bool>)
    ensures
        flags@ == blank(chars@),
{
    let n: usize = chars.len();
    let mut flags: Vec<bool> = Vec::new();
    let mut i: usize = 0;
    while i < n
        invariant
            n == chars@.len(),
            i <= n,
            flags@ == blank(chars@).take(i as int),
        decreases n - i,
    {
        flags.push(chars[i].is_whitespace());
        assert(flags@ =~= blank(chars@).take(i + 1));
        i += 1;
    }
    assert(flags@ =~= blank(chars@));
    flags
}

/// Where what is left of `flags` starts and ends, once the flags that hold
/// are dropped from the start and then from the end.
pub fn margins(flags: &[bool]) -> (bounds: (usize, usize))
    ensures
        bounds.0 == inner(flags@).0,
        bounds.1 == inner(flags@).1,
        bounds.0 <= bounds.1 <= flags@.len(),
{
    let n: usize = flags.len();
    let mut from: usize = 0;
    assert(flags@.skip(0) =~= flags@);
    while from < n && flags[from]
        invariant
            n == flags@.len(),
            from <= n,
            leading(flags@) == from + leading(flags@.skip(from as int)),
        decreases n - from,
    {
        assert(flags@.skip(from as int).drop_first() =~= flags@.skip(from + 1));
        from += 1;
    }
    let ghost rest = flags@.skip(from as int);
    let mut to: usize = n;
    assert(flags@.subrange(from as int, n as int) =~= rest);
    while to > from && flags[to - 1]
        invariant
            n == flags@.len(),
            from <= to <= n,
            leading(flags@) == from,
            rest == flags@.skip(from as int),
            trailing(rest) == (n - to) + trailing(flags@.subrange(from as int, to as int)),
        decreases to,
    {
        assert(flags@.subrange(from as int, to as int).drop_last() =~= flags@.subrange(
            from as int,
            to - 1,
        ));
        to -= 1;
    }
    (from, to)
}

/// `text` without the white space at its start and at its end.
pub fn trim(text: &str) -> (inner: String)
    ensures
        inner@ == trimmed(text@),
{
    let chars = chars_of(text);
    let flags = blanks(chars.as_slice());
    let bounds = margins(flags.as_slice());
    string_of(chars.as_slice(), bounds.0, bounds.1)
}

} // verus!
