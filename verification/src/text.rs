//! Texts as sequences of characters: numbers written in decimal, and the
//! few tests and cuts that the bot's commands need.
use vstd::prelude::*;

verus! {

/// The characters of a text.
pub fn chars_of(text: &str) -> (chars: Vec<char>)
    ensures
        chars@ == text@,
{
    let mut chars: Vec<char> = Vec::new();
    for c in it: text.chars()
        invariant
            it.seq() == text@,
            chars@ == it.seq().take(it.index() as int),
    {
        chars.push(c);
        assert(it.seq().take(it.index() + 1) =~= it.seq().take(it.index() as int).push(c));
    }
    assert(chars@ =~= text@);
    chars
}

/// The character that writes a digit.
pub open spec fn digit_char(digit: nat) -> char {
    if digit == 0 {
        '0'
    } else if digit == 1 {
        '1'
    } else if digit == 2 {
        '2'
    } else if digit == 3 {
        '3'
    } else if digit == 4 {
        '4'
    } else if digit == 5 {
        '5'
    } else if digit == 6 {
        '6'
    } else if digit == 7 {
        '7'
    } else if digit == 8 {
        '8'
    } else {
        '9'
    }
}

/// A number written in decimal, without leading zeros.
pub open spec fn decimal_text(n: nat) -> Seq<char>
    decreases n,
{
    if n < 10 {
        seq![digit_char(n)]
    } else {
        decimal_text(n / 10).push(digit_char(n % 10))
    }
}

/// The text of one digit.
fn digit_str(digit: u64) -> (text: &'static str)
    requires
        digit < 10,
    ensures
        text@ == seq![digit_char(digit as nat)],
{
    proof {
        reveal_strlit("0");
        reveal_strlit("1");
        reveal_strlit("2");
        reveal_strlit("3");
        reveal_strlit("4");
        reveal_strlit("5");
        reveal_strlit("6");
        reveal_strlit("7");
        reveal_strlit("8");
        reveal_strlit("9");
    }
    let text = if digit == 0 {
        "0"
    } else if digit == 1 {
        "1"
    } else if digit == 2 {
        "2"
    } else if digit == 3 {
        "3"
    } else if digit == 4 {
        "4"
    } else if digit == 5 {
        "5"
    } else if digit == 6 {
        "6"
    } else if digit == 7 {
        "7"
    } else if digit == 8 {
        "8"
    } else {
        "9"
    };
    assert(text@ =~= seq![digit_char(digit as nat)]);
    text
}

/// Appends `n`, written in decimal, to `out`.
pub fn append_decimal(out: &mut String, n: u64)
    ensures
        final(out)@ == old(out)@ + decimal_text(n as nat),
    decreases n,
{
    if n >= 10 {
        append_decimal(out, n / 10);
    }
    out.append(digit_str(n % 10));
    assert(out@ =~= old(out)@ + decimal_text(n as nat));
}

/// A number written in decimal with its sign: `-` before a negative number,
/// nothing before any other.
pub open spec fn signed_text(n: int) -> Seq<char> {
    if n < 0 {
        seq!['-'] + decimal_text((-n) as nat)
    } else {
        decimal_text(n as nat)
    }
}

/// Appends `n`, written in decimal with its sign, to `out`.
pub fn append_signed(out: &mut String, n: i64)
    ensures
        final(out)@ == old(out)@ + signed_text(n as int),
{
    if n < 0 {
        proof {
            reveal_strlit("-");
        }
        out.append("-");
        let size: u64 = if n == i64::MIN {
            0x8000_0000_0000_0000
        } else {
            (-n) as u64
        };
        append_decimal(out, size);
        assert(out@ =~= old(out)@ + signed_text(n as int));
    } else {
        append_decimal(out, n as u64);
    }
}

/// The value of a decimal digit.
pub open spec fn digit_value(c: char) -> Option<nat> {
    if '0' <= c <= '9' {
        Some((c as nat - '0' as nat) as nat)
    } else {
        None
    }
}

/// The number that a run of decimal digits writes, or `None` where the run
/// is empty or a character is no digit.
pub open spec fn decimal_value(digits: Seq<char>) -> Option<nat>
    decreases digits.len(),
{
    if digits.len() == 0 {
        None
    } else if digits.len() == 1 {
        digit_value(digits[0])
    } else {
        match (decimal_value(digits.drop_last()), digit_value(digits.last())) {
            (Some(value), Some(digit)) => Some(10 * value + digit),
            _ => None,
        }
    }
}

/// The number that a text writes in decimal: an optional `+`, then one or
/// more digits and nothing else, with a value that 32 bits can hold.
pub open spec fn parsed_u32(text: Seq<char>) -> Option<u32> {
    let digits = if text.len() > 0 && text[0] == '+' {
        text.drop_first()
    } else {
        text
    };
    match decimal_value(digits) {
        Some(value) => if value <= u32::MAX {
            Some(value as u32)
        } else {
            None
        },
        None => None,
    }
}

/// The number that a text writes in decimal: an optional `+` or `-`, then
/// one or more digits and nothing else, with a value that 64 bits can hold
/// with a sign.
pub open spec fn parsed_i64(text: Seq<char>) -> Option<i64> {
    if text.len() > 0 && text[0] == '-' {
        match decimal_value(text.drop_first()) {
            Some(value) => if value <= -(i64::MIN as int) {
                Some((-(value as int)) as i64)
            } else {
                None
            },
            None => None,
        }
    } else {
        let digits = if text.len() > 0 && text[0] == '+' {
            text.drop_first()
        } else {
            text
        };
        match decimal_value(digits) {
            Some(value) => if value <= i64::MAX {
                Some(value as i64)
            } else {
                None
            },
            None => None,
        }
    }
}

/// A run of digits writes at least what each of its beginnings writes.
proof fn lemma_decimal_value_grows(digits: Seq<char>, k: int)
    requires
        0 < k <= digits.len(),
        decimal_value(digits) is Some,
    ensures
        decimal_value(digits.take(k)) is Some,
        decimal_value(digits.take(k))->Some_0 <= decimal_value(digits)->Some_0,
    decreases digits.len() - k,
{
    if k == digits.len() {
        assert(digits.take(k) =~= digits);
    } else {
        lemma_decimal_value_grows(digits.drop_last(), k);
        assert(digits.drop_last().take(k) =~= digits.take(k));
    }
}

/// A run with a character that is no digit writes no number.
proof fn lemma_decimal_value_needs_digits(digits: Seq<char>, k: int)
    requires
        0 <= k < digits.len(),
        digit_value(digits[k]) is None,
    ensures
        decimal_value(digits) is None,
    decreases digits.len(),
{
    if k < digits.len() - 1 {
        lemma_decimal_value_needs_digits(digits.drop_last(), k);
    }
}

/// Reads the run of digits that `chars` holds from position `from` on, where
/// it writes a number up to `limit`.
fn read_digits(chars: &Vec<char>, from: usize, limit: u64) -> (r: Option<u64>)
    requires
        from <= chars.len(),
    ensures
        r == match decimal_value(chars@.skip(from as int)) {
            Some(value) => if value <= limit {
                Some(value as u64)
            } else {
                None
            },
            None => None,
        },
{
    let len = chars.len();
    if from == len {
        return None;
    }
    let ghost digits = chars@.skip(from as int);
    let mut value: u64 = 0;
    let mut i: usize = from;
    while i < len
        invariant
            from <= i <= len,
            from < len,
            len == chars.len(),
            digits == chars@.skip(from as int),
            i > from ==> decimal_value(digits.take(i - from)) == Some(value as nat),
            i == from ==> value == 0,
            value <= limit,
        decreases len - i,
    {
        let c = chars[i];
        assert(digits[i - from] == c);
        if c < '0' || c > '9' {
            proof {
                lemma_decimal_value_needs_digits(digits, i - from);
            }
            return None;
        }
        let digit: u128 = (c as u32 - '0' as u32) as u128;
        let next: u128 = 10 * (value as u128) + digit;
        proof {
            let run = digits.take(i + 1 - from);
            assert(run.last() == c);
            if i > from {
                assert(run.drop_last() =~= digits.take(i - from));
            }
            assert(decimal_value(run) == Some(next as nat));
        }
        if next > limit as u128 {
            proof {
                if decimal_value(digits) is Some {
                    lemma_decimal_value_grows(digits, i + 1 - from);
                }
            }
            return None;
        }
        value = next as u64;
        i += 1;
    }
    assert(digits.take(i - from) =~= digits);
    Some(value)
}

/// Reads a number written in decimal.
pub fn parse_u32(text: &str) -> (r: Option<u32>)
    ensures
        r == parsed_u32(text@),
{
    let chars = chars_of(text);
    let from: usize = if chars.len() > 0 && chars[0] == '+' {
        1
    } else {
        0
    };
    assert(chars@.skip(0) =~= chars@);
    match read_digits(&chars, from, u32::MAX as u64) {
        Some(value) => Some(value as u32),
        None => None,
    }
}

/// The number that a text writes in decimal: an optional `+`, then one or
/// more digits and nothing else, with a value that 64 bits can hold.
pub open spec fn parsed_u64(text: Seq<char>) -> Option<u64> {
    let digits = if text.len() > 0 && text[0] == '+' {
        text.drop_first()
    } else {
        text
    };
    match decimal_value(digits) {
        Some(value) => if value <= u64::MAX {
            Some(value as u64)
        } else {
            None
        },
        None => None,
    }
}

/// Reads a number written in decimal.
pub fn parse_u64(text: &str) -> (r: Option<u64>)
    ensures
        r == parsed_u64(text@),
{
    let chars = chars_of(text);
    let from: usize = if chars.len() > 0 && chars[0] == '+' {
        1
    } else {
        0
    };
    assert(chars@.skip(0) =~= chars@);
    read_digits(&chars, from, u64::MAX)
}

/// Reads a number written in decimal, with its sign.
pub fn parse_i64(text: &str) -> (r: Option<i64>)
    ensures
        r == parsed_i64(text@),
{
    let chars = chars_of(text);
    assert(chars@.skip(0) =~= chars@);
    if chars.len() > 0 && chars[0] == '-' {
        match read_digits(&chars, 1, 0x8000_0000_0000_0000) {
            Some(value) => {
                if value == 0x8000_0000_0000_0000 {
                    Some(i64::MIN)
                } else {
                    Some(-(value as i64))
                }
            },
            None => None,
        }
    } else {
        let from: usize = if chars.len() > 0 && chars[0] == '+' {
            1
        } else {
            0
        };
        match read_digits(&chars, from, i64::MAX as u64) {
            Some(value) => Some(value as i64),
            None => None,
        }
    }
}

/// Whether `pattern` stands in `text` at position `at`.
pub open spec fn occurs_at(text: Seq<char>, pattern: Seq<char>, at: int) -> bool {
    0 <= at && at + pattern.len() <= text.len() && text.subrange(at, at + pattern.len())
        == pattern
}

/// Whether `text` begins with `prefix`.
pub open spec fn starts_with(text: Seq<char>, prefix: Seq<char>) -> bool {
    occurs_at(text, prefix, 0)
}

/// Whether `text` ends with `suffix`.
pub open spec fn ends_with(text: Seq<char>, suffix: Seq<char>) -> bool {
    occurs_at(text, suffix, text.len() - suffix.len())
}

/// Whether `pattern` stands somewhere in `text`.
pub open spec fn contains_text(text: Seq<char>, pattern: Seq<char>) -> bool {
    exists|at: int| occurs_at(text, pattern, at)
}

/// The position of the last `sep` in `text`, or -1 where there is none.
pub open spec fn last_index_of(text: Seq<char>, sep: char) -> int
    decreases text.len(),
{
    if text.len() == 0 {
        -1
    } else if text.last() == sep {
        text.len() - 1
    } else {
        last_index_of(text.drop_last(), sep)
    }
}

/// The position of the first `sep` in `text`, or the length of `text` where
/// there is none.
pub open spec fn first_index_of(text: Seq<char>, sep: char) -> int
    decreases text.len(),
{
    if text.len() == 0 {
        0
    } else if text.first() == sep {
        0
    } else {
        1 + first_index_of(text.drop_first(), sep)
    }
}

/// What stands behind the last `sep` of `text`; all of `text` where there
/// is no `sep`.
pub open spec fn last_segment(text: Seq<char>, sep: char) -> Seq<char> {
    text.skip(last_index_of(text, sep) + 1)
}

/// What stands before the last `sep` of `text`, or `None` where there is no
/// `sep`.
pub open spec fn before_last_segment(text: Seq<char>, sep: char) -> Option<Seq<char>> {
    if last_index_of(text, sep) < 0 {
        None
    } else {
        Some(text.take(last_index_of(text, sep)))
    }
}

/// What stands before the first `sep` of `text`; all of `text` where there
/// is no `sep`.
pub open spec fn first_segment(text: Seq<char>, sep: char) -> Seq<char> {
    text.take(first_index_of(text, sep))
}

/// What stands behind the first `sep` of `text`, or `None` where there is
/// no `sep`.
pub open spec fn after_first_segment(text: Seq<char>, sep: char) -> Option<Seq<char>> {
    if first_index_of(text, sep) >= text.len() {
        None
    } else {
        Some(text.skip(first_index_of(text, sep) + 1))
    }
}

/// The first position of `sep` lies within the text or just behind it, and
/// no `sep` stands before it.
pub proof fn lemma_first_index_of(text: Seq<char>, sep: char)
    ensures
        0 <= first_index_of(text, sep) <= text.len(),
        first_index_of(text, sep) < text.len() ==> text[first_index_of(text, sep)] == sep,
        forall|i: int| 0 <= i < first_index_of(text, sep) ==> text[i] != sep,
    decreases text.len(),
{
    if text.len() > 0 && text.first() != sep {
        lemma_first_index_of(text.drop_first(), sep);
        assert forall|i: int| 0 <= i < first_index_of(text, sep) implies text[i] != sep by {
            if i > 0 {
                assert(text[i] == text.drop_first()[i - 1]);
            }
        }
    }
}

/// The last position of `sep` lies within the text or just before it, and
/// no `sep` stands behind it.
pub proof fn lemma_last_index_of(text: Seq<char>, sep: char)
    ensures
        -1 <= last_index_of(text, sep) < text.len(),
        last_index_of(text, sep) >= 0 ==> text[last_index_of(text, sep)] == sep,
        forall|i: int| last_index_of(text, sep) < i < text.len() ==> text[i] != sep,
    decreases text.len(),
{
    if text.len() > 0 && text.last() != sep {
        lemma_last_index_of(text.drop_last(), sep);
        assert forall|i: int| last_index_of(text, sep) < i < text.len() implies text[i] != sep by {
            if i < text.len() - 1 {
                assert(text[i] == text.drop_last()[i]);
            }
        }
    }
}

/// Whether `pattern` stands in `chars` at position `at`.
pub fn matches_at(chars: &Vec<char>, pattern: &Vec<char>, at: usize) -> (r: bool)
    ensures
        r == occurs_at(chars@, pattern@, at as int),
{
    if pattern.len() > chars.len() || at > chars.len() - pattern.len() {
        return false;
    }
    let mut i: usize = 0;
    while i < pattern.len()
        invariant
            i <= pattern.len(),
            at + pattern.len() <= chars.len(),
            chars@.subrange(at as int, at + i) == pattern@.take(i as int),
        decreases pattern.len() - i,
    {
        if chars[at + i] != pattern[i] {
            assert(chars@.subrange(at as int, at + pattern.len())[i as int] != pattern@[i as int]);
            return false;
        }
        assert(chars@.subrange(at as int, at + i + 1) =~= chars@.subrange(at as int, at + i).push(
            chars@[at + i],
        ));
        assert(pattern@.take(i + 1) =~= pattern@.take(i as int).push(pattern@[i as int]));
        i += 1;
    }
    assert(pattern@.take(i as int) =~= pattern@);
    true
}

/// Whether `text` begins with `prefix`.
pub fn text_starts_with(text: &str, prefix: &str) -> (r: bool)
    ensures
        r == starts_with(text@, prefix@),
{
    matches_at(&chars_of(text), &chars_of(prefix), 0)
}

/// Whether `text` ends with `suffix`.
pub fn text_ends_with(text: &str, suffix: &str) -> (r: bool)
    ensures
        r == ends_with(text@, suffix@),
{
    let chars = chars_of(text);
    let pattern = chars_of(suffix);
    if pattern.len() > chars.len() {
        false
    } else {
        matches_at(&chars, &pattern, chars.len() - pattern.len())
    }
}

/// Whether `pattern` stands somewhere in `text`.
pub fn text_contains(text: &str, pattern: &str) -> (r: bool)
    ensures
        r == contains_text(text@, pattern@),
{
    let chars = chars_of(text);
    let wanted = chars_of(pattern);
    if wanted.len() > chars.len() {
        return false;
    }
    if wanted.len() == 0 {
        assert(occurs_at(text@, pattern@, 0)) by {
            assert(text@.subrange(0, 0) =~= pattern@);
        }
        return true;
    }
    let last = chars.len() - wanted.len();
    let mut at: usize = 0;
    while at <= last
        invariant
            at <= last + 1,
            last == chars.len() - wanted.len(),
            wanted.len() > 0,
            chars@ == text@,
            wanted@ == pattern@,
            forall|k: int| 0 <= k < at ==> !occurs_at(text@, pattern@, k),
        decreases last + 1 - at,
    {
        if matches_at(&chars, &wanted, at) {
            return true;
        }
        at += 1;
    }
    false
}

/// The position of the last `sep` among the first `end` characters.
fn find_last(chars: &Vec<char>, end: usize, sep: char) -> (at: Option<usize>)
    requires
        end <= chars.len(),
    ensures
        at is None ==> last_index_of(chars@.take(end as int), sep) == -1,
        at is Some ==> last_index_of(chars@.take(end as int), sep) == at->Some_0,
{
    let mut i: usize = end;
    while i > 0
        invariant
            i <= end <= chars.len(),
            last_index_of(chars@.take(end as int), sep) == last_index_of(
                chars@.take(i as int),
                sep,
            ),
        decreases i,
    {
        if chars[i - 1] == sep {
            return Some(i - 1);
        }
        assert(chars@.take(i as int).drop_last() =~= chars@.take(i - 1));
        i -= 1;
    }
    None
}

/// The position of the first `sep` from position `from` on.
fn find_first(chars: &Vec<char>, from: usize, sep: char) -> (at: usize)
    requires
        from <= chars.len(),
    ensures
        from <= at <= chars.len(),
        at - from == first_index_of(chars@.skip(from as int), sep),
{
    let mut i: usize = from;
    while i < chars.len()
        invariant
            from <= i <= chars.len(),
            first_index_of(chars@.skip(from as int), sep) == i - from + first_index_of(
                chars@.skip(i as int),
                sep,
            ),
        decreases chars.len() - i,
    {
        if chars[i] == sep {
            return i;
        }
        assert(chars@.skip(i as int).drop_first() =~= chars@.skip(i + 1));
        i += 1;
    }
    i
}

/// What stands behind the last `sep` of `text`, and what stands before it.
pub fn split_last(text: &str, sep: char) -> (r: (Option<String>, String))
    ensures
        r.1@ == last_segment(text@, sep),
        r.0 is Some <==> before_last_segment(text@, sep) is Some,
        r.0 is Some ==> r.0->Some_0@ == before_last_segment(text@, sep)->Some_0,
{
    let chars = chars_of(text);
    let len = chars.len();
    assert(chars@.take(len as int) =~= chars@);
    proof {
        lemma_last_index_of(chars@, sep);
    }
    match find_last(&chars, len, sep) {
        Some(at) => {
            let last = text.substring_char(at + 1, len).to_owned();
            let before = text.substring_char(0, at).to_owned();
            assert(text@.subrange(at + 1, len as int) =~= text@.skip(at + 1));
            assert(text@.subrange(0, at as int) =~= text@.take(at as int));
            (Some(before), last)
        },
        None => {
            assert(text@.skip(0) =~= text@);
            (None, text.to_owned())
        },
    }
}

/// What stands before the first `sep` of `text`, and what stands behind it.
pub fn split_first(text: &str, sep: char) -> (r: (String, Option<String>))
    ensures
        r.0@ == first_segment(text@, sep),
        r.1 is Some <==> after_first_segment(text@, sep) is Some,
        r.1 is Some ==> r.1->Some_0@ == after_first_segment(text@, sep)->Some_0,
{
    let chars = chars_of(text);
    let len = chars.len();
    assert(chars@.skip(0) =~= chars@);
    let at = find_first(&chars, 0, sep);
    let first = text.substring_char(0, at).to_owned();
    assert(text@.subrange(0, at as int) =~= text@.take(at as int));
    if at < len {
        let rest = text.substring_char(at + 1, len).to_owned();
        assert(text@.subrange(at + 1, len as int) =~= text@.skip(at + 1));
        (first, Some(rest))
    } else {
        (first, None)
    }
}

/// A number written in decimal reads back as itself: its text is made of
/// digits, one at least, and these write the number.
pub proof fn lemma_decimal_text_reads_back(n: nat)
    ensures
        decimal_text(n).len() >= 1,
        forall|i: int| 0 <= i < decimal_text(n).len() ==> digit_value(decimal_text(n)[i]) is Some,
        decimal_value(decimal_text(n)) == Some(n),
    decreases n,
{
    if n >= 10 {
        lemma_decimal_text_reads_back(n / 10);
        let text = decimal_text(n);
        assert(text.drop_last() =~= decimal_text(n / 10));
        assert(digit_value(digit_char(n % 10)) == Some(n % 10));
        assert forall|i: int| 0 <= i < text.len() implies digit_value(text[i]) is Some by {
            if i < text.len() - 1 {
                assert(text[i] == decimal_text(n / 10)[i]);
            }
        }
    } else {
        assert(digit_value(digit_char(n)) == Some(n));
    }
}

/// Where a text is put together from a beginning, a separator and an end
/// that holds no separator, the last separator is the one in the middle:
/// the last segment is the end, and the beginning stands before it.
pub proof fn lemma_segments_of_joined(before: Seq<char>, sep: char, last: Seq<char>)
    requires
        forall|i: int| 0 <= i < last.len() ==> last[i] != sep,
    ensures
        last_index_of(before + seq![sep] + last, sep) == before.len(),
        last_segment(before + seq![sep] + last, sep) == last,
        before_last_segment(before + seq![sep] + last, sep) == Some(before),
    decreases last.len(),
{
    let joined = before + seq![sep] + last;
    if last.len() == 0 {
        assert(joined.last() == sep);
    } else {
        assert(joined.last() == last.last());
        assert(joined.drop_last() =~= before + seq![sep] + last.drop_last());
        lemma_segments_of_joined(before, sep, last.drop_last());
    }
    assert(joined.skip(before.len() as int + 1) =~= last);
    assert(joined.take(before.len() as int) =~= before);
}

/// A text ends with what was put at its end, begins with what was put at
/// its beginning, and holds what was put in its middle.
pub proof fn lemma_joined_holds_parts(before: Seq<char>, middle: Seq<char>, after: Seq<char>)
    ensures
        starts_with(before + middle + after, before),
        contains_text(before + middle + after, middle),
        ends_with(before + middle + after, after),
{
    let joined = before + middle + after;
    assert(joined.subrange(0, before.len() as int) =~= before);
    assert(joined.subrange(before.len() as int, before.len() as int + middle.len()) =~= middle);
    assert(occurs_at(joined, middle, before.len() as int));
    assert(joined.subrange(joined.len() - after.len(), joined.len() as int) =~= after);
}

/// `text` with each `from` in it replaced by `to`, reading from the left
/// and going on behind each replacement. An empty `from` replaces nothing.
pub open spec fn replaced(text: Seq<char>, from: Seq<char>, to: Seq<char>) -> Seq<char>
    decreases text.len(),
{
    if from.len() == 0 || text.len() < from.len() {
        text
    } else if text.take(from.len() as int) == from {
        to + replaced(text.skip(from.len() as int), from, to)
    } else {
        seq![text[0]] + replaced(text.skip(1), from, to)
    }
}

/// Replaces each `from` in `text` by `to`.
pub fn replace_all(text: &str, from: &str, to: &str) -> (r: String)
    ensures
        r@ == replaced(text@, from@, to@),
{
    let chars = chars_of(text);
    let pattern = chars_of(from);
    let len = chars.len();
    let width = pattern.len();
    if width == 0 || width > len {
        return text.to_owned();
    }
    let mut out = String::new();
    let mut kept: usize = 0;
    let mut i: usize = 0;
    assert(text@.subrange(0, 0) + replaced(text@.skip(0), from@, to@) =~= replaced(
        text@,
        from@,
        to@,
    )) by {
        assert(text@.skip(0) =~= text@);
    }
    while i <= len - width
        invariant
            kept <= i <= len,
            0 < width <= len,
            len == text@.len(),
            width == from@.len(),
            chars@ == text@,
            pattern@ == from@,
            replaced(text@, from@, to@) == out@ + text@.subrange(kept as int, i as int) + replaced(
                text@.skip(i as int),
                from@,
                to@,
            ),
        decreases len - i,
    {
        let ghost rest = text@.skip(i as int);
        assert(rest.take(width as int) =~= text@.subrange(i as int, i + width));
        if matches_at(&chars, &pattern, i) {
            out.append(text.substring_char(kept, i));
            out.append(to);
            assert(rest.skip(width as int) =~= text@.skip(i + width));
            i += width;
            kept = i;
            assert(text@.subrange(kept as int, i as int) =~= Seq::<char>::empty());
            assert(replaced(text@, from@, to@) =~= out@ + text@.subrange(kept as int, i as int)
                + replaced(text@.skip(i as int), from@, to@));
        } else {
            assert(rest.skip(1) =~= text@.skip(i + 1));
            assert(text@.subrange(kept as int, i + 1) =~= text@.subrange(kept as int, i as int)
                + seq![text@[i as int]]);
            i += 1;
            assert(replaced(text@, from@, to@) =~= out@ + text@.subrange(kept as int, i as int)
                + replaced(text@.skip(i as int), from@, to@));
        }
    }
    out.append(text.substring_char(kept, len));
    assert(text@.subrange(kept as int, i as int) + text@.skip(i as int) =~= text@.subrange(
        kept as int,
        len as int,
    ));
    out
}

/// The number of bytes that a character takes in UTF-8.
pub open spec fn utf8_width(c: char) -> nat {
    if (c as u32) < 0x80 {
        1
    } else if (c as u32) < 0x800 {
        2
    } else if (c as u32) < 0x10000 {
        3
    } else {
        4
    }
}

/// The number of characters at the beginning of `text` that fit into
/// `limit` bytes of UTF-8.
pub open spec fn fitting(text: Seq<char>, limit: nat) -> nat
    decreases text.len(),
{
    if text.len() == 0 || utf8_width(text[0]) > limit {
        0
    } else {
        1 + fitting(text.drop_first(), (limit - utf8_width(text[0])) as nat)
    }
}

/// No more characters fit than there are.
pub proof fn lemma_fitting_bound(text: Seq<char>, limit: nat)
    ensures
        fitting(text, limit) <= text.len(),
    decreases text.len(),
{
    if text.len() > 0 && utf8_width(text[0]) <= limit {
        lemma_fitting_bound(text.drop_first(), (limit - utf8_width(text[0])) as nat);
    }
}

/// The number of bytes that a character takes in UTF-8.
fn char_width(c: char) -> (width: usize)
    ensures
        width == utf8_width(c),
{
    let code = c as u32;
    if code < 0x80 {
        1
    } else if code < 0x800 {
        2
    } else if code < 0x10000 {
        3
    } else {
        4
    }
}

/// The beginning of `text` that fits into `limit` bytes of UTF-8, cut
/// between characters.
pub fn truncate_text(text: &str, limit: usize) -> (r: String)
    ensures
        r@ == text@.take(fitting(text@, limit as nat) as int),
{
    let chars = chars_of(text);
    let mut used: usize = 0;
    let mut i: usize = 0;
    assert(text@.skip(0) =~= text@);
    while i < chars.len() && char_width(chars[i]) <= limit - used
        invariant
            i <= chars.len(),
            used <= limit,
            chars@ == text@,
            fitting(text@, limit as nat) == i + fitting(
                text@.skip(i as int),
                (limit - used) as nat,
            ),
        decreases chars.len() - i,
    {
        assert(text@.skip(i as int)[0] == chars@[i as int]);
        assert(text@.skip(i as int).drop_first() =~= text@.skip(i + 1));
        used += char_width(chars[i]);
        i += 1;
    }
    proof {
        if i < chars.len() {
            assert(text@.skip(i as int)[0] == chars@[i as int]);
        }
        assert(text@.subrange(0, i as int) =~= text@.take(i as int));
    }
    text.substring_char(0, i).to_owned()
}

} // verus!
