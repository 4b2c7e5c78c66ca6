//! Which release a Cilium version belongs to.

use vstd::prelude::*;

use crate::text::chars_of;

verus! {

/// A text without the `v`s it starts with.
pub open spec fn without_v(s: Seq<char>) -> Seq<char>
    decreases s.len(),
{
    if s.len() > 0 && s[0] == 'v' {
        without_v(s.skip(1))
    } else {
        s
    }
}

/// Where the first dot stands, at `from` or behind it; the end if there is none.
pub open spec fn dot_from(s: Seq<char>, from: int) -> int
    decreases s.len() - from,
{
    if from >= s.len() {
        s.len() as int
    } else if s[from] == '.' {
        from
    } else {
        dot_from(s, from + 1)
    }
}

/// What stands between the first dot and the second, or the end.
pub open spec fn second_field(s: Seq<char>) -> Option<Seq<char>> {
    let first = dot_from(s, 0);
    if first >= s.len() {
        None
    } else {
        Some(s.subrange(first + 1, dot_from(s, first + 1)))
    }
}

/// A decimal digit.
pub open spec fn is_digit(c: char) -> bool {
    '0' <= c <= '9'
}

/// The number that digits stand for.
pub open spec fn digits_value(s: Seq<char>) -> nat
    decreases s.len(),
{
    if s.len() == 0 {
        0
    } else {
        digits_value(s.drop_last()) * 10 + (s.last() as nat - '0' as nat) as nat
    }
}

/// Digits and nothing else.
pub open spec fn all_digits(s: Seq<char>) -> bool {
    forall|i: int| 0 <= i < s.len() ==> is_digit(#[trigger] s[i])
}

/// The number that digits read as in 32 bits.
pub open spec fn read_digits(digits: Seq<char>) -> Option<u32> {
    if digits.len() > 0 && all_digits(digits) && digits_value(digits) <= u32::MAX {
        Some(digits_value(digits) as u32)
    } else {
        None
    }
}

/// A text without the plus it may start with.
pub open spec fn without_plus(s: Seq<char>) -> Seq<char> {
    if s.len() > 0 && s[0] == '+' {
        s.skip(1)
    } else {
        s
    }
}

/// The number that a text reads as in 32 bits: digits, with a plus before them
/// or not.
pub open spec fn read_u32(s: Seq<char>) -> Option<u32> {
    read_digits(without_plus(s))
}

/// The minor version in `1.19.6` or `v1.19.6`.
pub open spec fn minor_of(version: Seq<char>) -> Option<u32> {
    match second_field(without_v(version)) {
        Some(field) => read_u32(field),
        None => None,
    }
}

/// Digits in front only make a number larger.
proof fn lemma_digits_grow(s: Seq<char>, n: int)
    requires
        0 <= n <= s.len(),
    ensures
        digits_value(s.take(n)) <= digits_value(s),
    decreases s.len(),
{
    if n == s.len() {
        assert(s.take(n) =~= s);
    } else {
        lemma_digits_grow(s.drop_last(), n);
        assert(s.drop_last().take(n) =~= s.take(n));
    }
}

fn value_of_digit(c: char) -> (r: u64)
    requires
        is_digit(c),
    ensures
        r == c as nat - '0' as nat,
        r < 10,
{
    (c as u64) - ('0' as u64)
}

/// Read a number in 32 bits out of characters `from..to`.
fn parse_u32(chars: &Vec<char>, from: usize, to: usize) -> (r: Option<u32>)
    requires
        from <= to <= chars.len(),
    ensures
        r == read_u32(chars@.subrange(from as int, to as int)),
{
    let ghost s = chars@.subrange(from as int, to as int);
    let start: usize = if from < to && chars[from] == '+' {
        from + 1
    } else {
        from
    };
    let ghost digits = chars@.subrange(start as int, to as int);
    assert(digits =~= without_plus(s));
    if start == to {
        return None;
    }
    let mut value: u64 = 0;
    let mut i: usize = start;
    assert(digits.take(0) =~= Seq::empty());
    while i < to
        invariant
            start <= i <= to <= chars.len(),
            start < to,
            digits == chars@.subrange(start as int, to as int),
            s == chars@.subrange(from as int, to as int),
            read_u32(s) == read_digits(digits),
            forall|j: int| 0 <= j < i - start ==> is_digit(#[trigger] digits[j]),
            value == digits_value(digits.take(i - start)),
            value <= u32::MAX,
        decreases to - i,
    {
        let c: char = chars[i];
        assert(c == digits[i - start]);
        if !('0' <= c && c <= '9') {
            assert(!is_digit(digits[i - start]));
            return None;
        }
        assert(digits.take(i - start + 1).drop_last() =~= digits.take(i - start));
        value = value * 10 + value_of_digit(c);
        if value > u32::MAX as u64 {
            proof {
                lemma_digits_grow(digits, i - start + 1);
            }
            return None;
        }
        i = i + 1;
    }
    assert(digits.take(to - start) =~= digits);
    Some(value as u32)
}

/// The first dot in `chars`, at `from` or behind it.
fn find_dot(chars: &Vec<char>, from: usize) -> (r: usize)
    requires
        from <= chars.len(),
    ensures
        r == dot_from(chars@, from as int),
        from <= r <= chars.len(),
{
    let mut i: usize = from;
    while i < chars.len() && chars[i] != '.'
        invariant
            from <= i <= chars.len(),
            dot_from(chars@, from as int) == dot_from(chars@, i as int),
        decreases chars.len() - i,
    {
        i = i + 1;
    }
    i
}

/// Minor version out of `1.19.6` / `v1.19.6`. `None` for anything unparseable,
/// which resolves to the modern group version.
pub fn minor(version: &str) -> (r: Option<u32>)
    ensures
        r == minor_of(version@),
{
    let mut chars = chars_of(version);
    while chars.len() > 0 && chars[0] == 'v'
        invariant
            without_v(version@) == without_v(chars@),
        decreases chars.len(),
    {
        let ghost before = chars@;
        chars.remove(0);
        assert(chars@ =~= before.skip(1));
    }
    let first: usize = find_dot(&chars, 0);
    if first >= chars.len() {
        return None;
    }
    let second: usize = find_dot(&chars, first + 1);
    parse_u32(&chars, first + 1, second)
}

// --- laws ------------------------------------------------------------------

/// The first dot of a text that has one at `at` and none before.
proof fn lemma_dot(s: Seq<char>, from: int, at: int)
    requires
        0 <= from <= at < s.len(),
        s[at] == '.',
        forall|i: int| from <= i < at ==> s[i] != '.',
    ensures
        dot_from(s, from) == at,
    decreases at - from,
{
    if from < at {
        lemma_dot(s, from + 1, at);
    }
}

/// A text without a dot has none to find.
proof fn lemma_no_dot(s: Seq<char>, from: int)
    requires
        0 <= from <= s.len(),
        forall|i: int| from <= i < s.len() ==> s[i] != '.',
    ensures
        dot_from(s, from) == s.len(),
    decreases s.len() - from,
{
    if from < s.len() {
        lemma_no_dot(s, from + 1);
    }
}

/// The minor version is the number between the first dot and the second, or the
/// end: `major.minor` and `major.minor.rest`, with a `v` before it or not, all read
/// as the minor that stands there in digits.
pub proof fn law_the_minor_is_read(major: Seq<char>, digits: Seq<char>, rest: Seq<char>)
    requires
        major.len() > 0,
        major[0] != 'v',
        forall|i: int| 0 <= i < major.len() ==> major[i] != '.',
        digits.len() > 0,
        forall|i: int| 0 <= i < digits.len() ==> '0' <= #[trigger] digits[i] <= '9',
        digits_value(digits) <= u32::MAX,
    ensures
        minor_of(major + seq!['.'] + digits) == Some(digits_value(digits) as u32),
        minor_of(major + seq!['.'] + digits + seq!['.'] + rest) == Some(
            digits_value(digits) as u32,
        ),
        minor_of(seq!['v'] + (major + seq!['.'] + digits + seq!['.'] + rest)) == Some(
            digits_value(digits) as u32,
        ),
{
    let short = major + seq!['.'] + digits;
    let long = short + seq!['.'] + rest;
    let m = major.len() as int;
    let d = digits.len() as int;
    lemma_dot(short, 0, m);
    assert forall|i: int| m + 1 <= i < short.len() implies short[i] != '.' by {
        assert(short[i] == digits[i - m - 1]);
    }
    lemma_no_dot(short, m + 1);
    assert(short.subrange(m + 1, short.len() as int) =~= digits);
    lemma_dot(long, 0, m);
    assert forall|i: int| m + 1 <= i < m + 1 + d implies long[i] != '.' by {
        assert(long[i] == digits[i - m - 1]);
    }
    lemma_dot(long, m + 1, m + 1 + d);
    assert(long.subrange(m + 1, m + 1 + d) =~= digits);
    assert(short[0] == major[0] && long[0] == major[0]);
    assert(digits[0] != '+');
    assert(without_plus(digits) == digits);
    let tagged = seq!['v'] + long;
    assert(tagged.skip(1) =~= long);
    reveal_with_fuel(without_v, 2);
}

/// A version without a dot has no minor.
pub proof fn law_no_dot_no_minor(version: Seq<char>)
    requires
        forall|i: int| 0 <= i < version.len() ==> version[i] != '.',
    ensures
        minor_of(version) is None,
    decreases version.len(),
{
    if version.len() > 0 && version[0] == 'v' {
        law_no_dot_no_minor(version.skip(1));
    } else {
        lemma_no_dot(version, 0);
    }
}

/// Digits stand for a number in base ten.
pub proof fn law_digits_are_decimal(s: Seq<char>, d: char)
    requires
        '0' <= d <= '9',
    ensures
        digits_value(s.push(d)) == 10 * digits_value(s) + (d as nat - '0' as nat),
        digits_value(Seq::empty()) == 0,
{
    assert(s.push(d).drop_last() =~= s);
}

/// A `v` before a version makes no difference.
pub proof fn law_a_leading_v_does_not_count(version: Seq<char>)
    ensures
        minor_of(seq!['v'] + version) == minor_of(version),
{
    assert((seq!['v'] + version).skip(1) =~= version);
}

/// A version whose second field is no number has no minor: one that is empty, one
/// with anything but digits in it, and one that does not fit 32 bits.
pub proof fn law_no_number_no_minor(major: Seq<char>, field: Seq<char>, rest: Seq<char>)
    requires
        major.len() > 0,
        major[0] != 'v',
        forall|i: int| 0 <= i < major.len() ==> major[i] != '.',
        forall|i: int| 0 <= i < field.len() ==> field[i] != '.',
        field.len() == 0 || (field[0] != '+' && ((exists|i: int|
            0 <= i < field.len() && !('0' <= #[trigger] field[i] <= '9')) || digits_value(field)
            > u32::MAX)),
    ensures
        minor_of(major + seq!['.'] + field + seq!['.'] + rest) is None,
{
    let long = major + seq!['.'] + field + seq!['.'] + rest;
    let m = major.len() as int;
    let d = field.len() as int;
    lemma_dot(long, 0, m);
    assert forall|i: int| m + 1 <= i < m + 1 + d implies long[i] != '.' by {
        assert(long[i] == field[i - m - 1]);
    }
    lemma_dot(long, m + 1, m + 1 + d);
    assert(long.subrange(m + 1, m + 1 + d) =~= field);
    assert(long[0] == major[0]);
    assert(without_plus(field) == field);
    if exists|i: int| 0 <= i < field.len() && !('0' <= #[trigger] field[i] <= '9') {
        let i = choose|i: int| 0 <= i < field.len() && !('0' <= #[trigger] field[i] <= '9');
        assert(!is_digit(field[i]));
    }
}

} // verus!
