//! Text as the protocol carries it: the characters of paths and of directory
//! records.

use vstd::prelude::*;
use vstd::std_specs::iter::IteratorSpec;
use vstd::string::StringExecFns;
use vstd::utf8::{decode_utf8, valid_utf8};

verus! {

/// The characters of a string, one by one.
pub fn chars_of(s: &str) -> (chars: Vec<char>)
    ensures
        chars@ == s@,
{
    broadcast use vstd::string::group_string_axioms;

    let mut chars: Vec<char> = Vec::new();
    for c in it: s.chars()
        invariant
            it.seq() == s@,
            chars@ == s@.take(it.index()),
    {
        assert(s@.take(it.index() + 1) =~= s@.take(it.index()).push(c));
        chars.push(c);
    }
    assert(s@.take(s@.len() as int) =~= s@);
    chars
}

/// Where the field that starts at `from` ends: at the first tab from there
/// on, or at the end of the text where no tab follows.
pub open spec fn field_end(s: Seq<char>, from: int) -> int
    decreases s.len() - from,
{
    if from >= s.len() {
        s.len() as int
    } else if s[from] == '\t' {
        from
    } else {
        field_end(s, from + 1)
    }
}

/// A field ends at or after its start, holds no tab, and ends on a tab
/// unless the text ends there.
pub proof fn lemma_field_end(s: Seq<char>, from: int)
    requires
        0 <= from <= s.len(),
    ensures
        from <= field_end(s, from) <= s.len(),
        forall|i: int| from <= i < field_end(s, from) ==> s[i] != '\t',
        field_end(s, from) < s.len() ==> s[field_end(s, from)] == '\t',
    decreases s.len() - from,
{
    if from < s.len() && s[from] != '\t' {
        lemma_field_end(s, from + 1);
    }
}

/// Finds the end of the field that starts at `from`.
pub fn find_field_end(chars: &[char], from: usize) -> (end: usize)
    requires
        from <= chars@.len(),
    ensures
        end == field_end(chars@, from as int),
        from <= end <= chars@.len(),
{
    let mut end: usize = from;
    while end < chars.len() && chars[end] != '\t'
        invariant
            from <= end <= chars@.len(),
            field_end(chars@, from as int) == field_end(chars@, end as int),
        decreases chars@.len() - end,
    {
        end = end + 1;
    }
    end
}

/// Whether a character is a decimal digit.
pub open spec fn is_digit(c: char) -> bool {
    '0' <= c <= '9'
}

/// The number that a run of decimal digits stands for.
pub open spec fn decimal_value(digits: Seq<char>) -> nat
    decreases digits.len(),
{
    if digits.len() == 0 {
        0
    } else {
        decimal_value(digits.drop_last()) * 10 + (digits.last() as nat - '0' as nat) as nat
    }
}

/// The digits of a field that states a size: the field itself, without the
/// plus sign that may stand in front.
pub open spec fn digits_of_field(field: Seq<char>) -> Seq<char> {
    if field.len() > 0 && field[0] == '+' {
        field.skip(1)
    } else {
        field
    }
}

/// The size that a field of a directory record states: decimal digits, at
/// least one, with a plus sign in front if one likes, and a value that fits
/// in 32 bits. Anything else states no size.
pub open spec fn size_of_field(field: Seq<char>) -> Option<u32> {
    let digits = digits_of_field(field);
    if digits.len() > 0 && (forall|i: int| 0 <= i < digits.len() ==> is_digit(#[trigger] digits[i]))
        && decimal_value(digits) <= u32::MAX {
        Some(decimal_value(digits) as u32)
    } else {
        None
    }
}

/// A run of digits stands for no less than any run it starts with.
pub proof fn lemma_decimal_value_grows(digits: Seq<char>, n: int)
    requires
        0 <= n <= digits.len(),
        forall|i: int| 0 <= i < digits.len() ==> is_digit(#[trigger] digits[i]),
    ensures
        decimal_value(digits.take(n)) <= decimal_value(digits),
    decreases digits.len() - n,
{
    if n == digits.len() {
        assert(digits.take(n) =~= digits);
    } else {
        lemma_decimal_value_grows(digits, n + 1);
        assert(digits.take(n + 1).drop_last() =~= digits.take(n));
    }
}

/// Reads the size that the characters from `from` to `to` state.
pub fn parse_size(chars: &[char], from: usize, to: usize) -> (size: Option<u32>)
    requires
        from <= to <= chars@.len(),
    ensures
        size == size_of_field(chars@.subrange(from as int, to as int)),
{
    let ghost field = chars@.subrange(from as int, to as int);
    let start: usize = if from < to && chars[from] == '+' {
        from + 1
    } else {
        from
    };
    let ghost digits = chars@.subrange(start as int, to as int);
    assert(digits =~= digits_of_field(field));
    if start == to {
        return None;
    }
    let mut value: u64 = 0;
    let mut i: usize = start;
    while i < to
        invariant
            start <= i <= to <= chars@.len(),
            field == chars@.subrange(from as int, to as int),
            digits == chars@.subrange(start as int, to as int),
            digits == digits_of_field(field),
            forall|k: int| 0 <= k < i - start ==> is_digit(#[trigger] digits[k]),
            value == decimal_value(digits.take(i - start)),
            value <= u32::MAX,
        decreases to - i,
    {
        let c: char = chars[i];
        assert(c == digits[i - start]);
        if c < '0' || c > '9' {
            assert(!is_digit(digits[i - start]));
            return None;
        }
        let digit: u64 = (c as u32 - '0' as u32) as u64;
        value = value * 10 + digit;
        assert(digits.take(i - start + 1).drop_last() =~= digits.take(i - start));
        assert(value == decimal_value(digits.take(i - start + 1)));
        if value > 0xffff_ffff {
            proof {
                if forall|k: int| 0 <= k < digits.len() ==> is_digit(#[trigger] digits[k]) {
                    lemma_decimal_value_grows(digits, i - start + 1);
                }
            }
            return None;
        }
        i = i + 1;
    }
    assert(digits.take(to - start) =~= digits);
    Some(value as u32)
}

/// Where the last segment of a path starts: behind its last slash, or at
/// its start where it holds none.
pub open spec fn segment_start(path: Seq<char>) -> int
    decreases path.len(),
{
    if path.len() == 0 {
        0
    } else if path.last() == '/' {
        path.len() as int
    } else {
        segment_start(path.drop_last())
    }
}

/// The last segment of a path: what follows its last slash.
pub open spec fn final_segment(path: Seq<char>) -> Seq<char> {
    path.skip(segment_start(path))
}

/// The last segment holds no slash, and a slash stands before it unless the
/// path starts with it.
pub proof fn lemma_segment_start(path: Seq<char>)
    ensures
        0 <= segment_start(path) <= path.len(),
        forall|i: int| segment_start(path) <= i < path.len() ==> path[i] != '/',
        segment_start(path) > 0 ==> path[segment_start(path) - 1] == '/',
    decreases path.len(),
{
    if path.len() > 0 && path.last() != '/' {
        let front = path.drop_last();
        lemma_segment_start(front);
        assert forall|i: int| segment_start(path) <= i < path.len() implies path[i] != '/' by {
            if i < front.len() {
                assert(front[i] == path[i]);
            }
        }
    }
}

/// Only one place is behind a slash, or at the start, with no slash after it.
pub proof fn lemma_segment_start_is(path: Seq<char>, start: int)
    requires
        0 <= start <= path.len(),
        forall|i: int| start <= i < path.len() ==> path[i] != '/',
        start > 0 ==> path[start - 1] == '/',
    ensures
        segment_start(path) == start,
    decreases path.len(),
{
    if path.len() > 0 && path.last() != '/' {
        let front = path.drop_last();
        assert forall|i: int| start <= i < front.len() implies front[i] != '/' by {
            assert(front[i] == path[i]);
        }
        lemma_segment_start_is(front, start);
    }
}

/// The last segment of a path, as a string of its own.
pub fn last_segment(path: &str) -> (name: String)
    ensures
        name@ == final_segment(path@),
{
    let chars = chars_of(path);
    let mut start: usize = chars.len();
    while start > 0 && chars[start - 1] != '/'
        invariant
            start <= chars@.len(),
            forall|i: int| start <= i < chars@.len() ==> chars@[i] != '/',
        decreases start,
    {
        start = start - 1;
    }
    proof {
        lemma_segment_start_is(chars@, start as int);
    }
    path.substring_char(start, chars.len()).to_owned()
}

/// A directory's path and an entry's name under it: the two joined by a
/// slash.
pub open spec fn joined(dir: Seq<char>, name: Seq<char>) -> Seq<char> {
    dir + seq!['/'] + name
}

/// Joins a directory's path and an entry's name by a slash.
pub fn join_path(dir: &str, name: &str) -> (full: String)
    ensures
        full@ == joined(dir@, name@),
{
    proof {
        reveal_strlit("/");
    }
    let mut full: String = dir.to_owned();
    full.append("/");
    full.append(name);
    assert(full@ =~= joined(dir@, name@));
    full
}

/// The text that bytes are read as where they may be no text at all: every
/// stretch that is not UTF-8 gives way to the replacement character.
pub uninterp spec fn utf8_lossy(bytes: Seq<u8>) -> Seq<char>;

/// Reads bytes as text through `String::from_utf8_lossy`. Trusted: that the
/// result depends on the bytes alone, and that bytes that are UTF-8 are read
/// as the text that they encode.
#[verifier::external_body]
pub(crate) fn lossy_text(bytes: &[u8]) -> (text: String)
    ensures
        text@ == utf8_lossy(bytes@),
        valid_utf8(bytes@) ==> text@ == decode_utf8(bytes@),
{
    String::from_utf8_lossy(bytes).into_owned()
}

} // verus!
