//! Strings, read as sequences of characters: decimal numbers, joining,
//! searching and comparing.

use vstd::prelude::*;
use vstd::string::*;

verus! {

// --- numbers ---------------------------------------------------------------

/// The character of a decimal digit.
pub open spec fn digit(d: nat) -> char {
    ((48 + d) as u8) as char
}

/// A natural number in decimal, without leading zeros.
pub open spec fn decimal(n: nat) -> Seq<char>
    decreases n,
{
    if n < 10 {
        seq![digit(n)]
    } else {
        decimal(n / 10).push(digit(n % 10))
    }
}

/// An integer in decimal, with a leading minus when it is negative.
pub open spec fn signed_decimal(n: int) -> Seq<char> {
    if n < 0 {
        seq!['-'] + decimal((-n) as nat)
    } else {
        decimal(n as nat)
    }
}

fn digit_str(d: u64) -> (r: &'static str)
    requires
        d < 10,
    ensures
        r@ == seq![digit(d as nat)],
{
    proof {
        reveal_strlit("0");
        reveal_strlit("1");
        reveal_strlit("2");
        reveal_strlit("3");
        reveal_strlit("4");
        reveal_strlit("5");
        reveal_strlit("6");
        reveal_strlit("7");
        reveal_strlit("8");
        reveal_strlit("9");
    }
    let r = match d {
        0 => "0",
        1 => "1",
        2 => "2",
        3 => "3",
        4 => "4",
        5 => "5",
        6 => "6",
        7 => "7",
        8 => "8",
        _ => "9",
    };
    assert(r@ =~= seq![digit(d as nat)]);
    r
}

/// `n` in decimal.
pub fn decimal_string(n: u64) -> (r: String)
    ensures
        r@ == decimal(n as nat),
    decreases n,
{
    if n < 10 {
        digit_str(n).to_string()
    } else {
        let mut s = decimal_string(n / 10);
        s.append(digit_str(n % 10));
        assert(s@ =~= decimal(n as nat));
        s
    }
}

/// `n` in decimal, signed.
pub fn signed_decimal_string(n: i64) -> (r: String)
    ensures
        r@ == signed_decimal(n as int),
{
    if n < 0 {
        let magnitude: u64 = (-(n + 1)) as u64 + 1;
        let mut s = "-".to_string();
        proof {
            reveal_strlit("-");
        }
        s.append(decimal_string(magnitude).as_str());
        assert(s@ =~= signed_decimal(n as int));
        s
    } else {
        decimal_string(n as u64)
    }
}

// --- characters ------------------------------------------------------------

/// The characters of a string.
pub fn chars_of(s: &str) -> (r: Vec<char>)
    ensures
        r@ == s@,
{
    let mut out: Vec<char> = Vec::new();
    for c in iter: s.chars()
        invariant
            iter.seq() == s@,
            out@ == s@.take(iter.index() as int),
    {
        out.push(c);
    }
    assert(out@ =~= s@);
    out
}

/// Whether two strings hold the same characters.
pub fn str_eq(a: &str, b: &str) -> (r: bool)
    ensures
        r == (a@ == b@),
{
    a.to_owned() == b.to_owned()
}

/// Whether a string holds no character.
pub fn is_empty(s: &str) -> (r: bool)
    ensures
        r == (s@.len() == 0),
{
    chars_of(s).len() == 0
}

/// The characters of Unicode's `White_Space` property.
pub open spec fn is_white_space(c: char) -> bool {
    ||| '\u{9}' <= c <= '\u{d}'
    ||| c == '\u{20}'
    ||| c == '\u{85}'
    ||| c == '\u{a0}'
    ||| c == '\u{1680}'
    ||| '\u{2000}' <= c <= '\u{200a}'
    ||| c == '\u{2028}'
    ||| c == '\u{2029}'
    ||| c == '\u{202f}'
    ||| c == '\u{205f}'
    ||| c == '\u{3000}'
}

/// Nothing but white space: what is left of it after trimming is empty.
pub open spec fn blank(s: Seq<char>) -> bool {
    forall|i: int| 0 <= i < s.len() ==> is_white_space(#[trigger] s[i])
}

/// Whether a string is empty once its surrounding white space is trimmed.
pub fn is_blank(s: &str) -> (r: bool)
    ensures
        r == blank(s@),
{
    let cs = chars_of(s);
    let mut i: usize = 0;
    while i < cs.len()
        invariant
            cs@ == s@,
            i <= cs.len(),
            forall|j: int| 0 <= j < i ==> is_white_space(#[trigger] s@[j]),
        decreases cs.len() - i,
    {
        let c: char = cs[i];
        let white = ('\u{9}' <= c && c <= '\u{d}') || c == '\u{20}' || c == '\u{85}' || c
            == '\u{a0}' || c == '\u{1680}' || ('\u{2000}' <= c && c <= '\u{200a}') || c
            == '\u{2028}' || c == '\u{2029}' || c == '\u{202f}' || c == '\u{205f}' || c
            == '\u{3000}';
        if !white {
            assert(!is_white_space(s@[i as int]));
            return false;
        }
        i = i + 1;
    }
    true
}

// --- searching and joining -------------------------------------------------

/// `needle` stands at position `at` of `hay`.
pub open spec fn occurs_at(hay: Seq<char>, needle: Seq<char>, at: int) -> bool {
    0 <= at && at + needle.len() <= hay.len() && hay.subrange(at, at + needle.len()) == needle
}

/// `needle` stands somewhere in `hay`.
pub open spec fn occurs_in(hay: Seq<char>, needle: Seq<char>) -> bool {
    exists|at: int| occurs_at(hay, needle, at)
}

/// Whether `needle` is part of `hay`.
pub fn contains(hay: &str, needle: &str) -> (r: bool)
    ensures
        r == occurs_in(hay@, needle@),
{
    let h = chars_of(hay);
    let n = chars_of(needle);
    if n.len() > h.len() {
        return false;
    }
    let last: usize = h.len() - n.len();
    let mut at: usize = 0;
    while at <= last
        invariant
            h@ == hay@,
            n@ == needle@,
            n.len() <= h.len(),
            last == h.len() - n.len(),
            at <= last + 1,
            forall|k: int| 0 <= k < at ==> !occurs_at(hay@, needle@, k),
        decreases last + 1 - at,
    {
        let mut j: usize = 0;
        while j < n.len() && h[at + j] == n[j]
            invariant
                h@ == hay@,
                n@ == needle@,
                n.len() <= h.len(),
                last == h.len() - n.len(),
                at <= last,
                j <= n.len(),
                forall|k: int| 0 <= k < j ==> h@[at + k] == #[trigger] n@[k],
            decreases n.len() - j,
        {
            j = j + 1;
        }
        if j == n.len() {
            assert(hay@.subrange(at as int, at + needle@.len()) =~= needle@);
            assert(occurs_at(hay@, needle@, at as int));
            return true;
        }
        assert(!occurs_at(hay@, needle@, at as int)) by {
            if occurs_at(hay@, needle@, at as int) {
                assert(hay@.subrange(at as int, at + needle@.len())[j as int] == needle@[j as int]);
            }
        }
        if at == last {
            return false;
        }
        at = at + 1;
    }
    false
}

/// The parts in order, with `sep` between each two.
pub open spec fn joined(parts: Seq<Seq<char>>, sep: Seq<char>) -> Seq<char>
    decreases parts.len(),
{
    if parts.len() == 0 {
        Seq::empty()
    } else if parts.len() == 1 {
        parts[0]
    } else {
        joined(parts.drop_last(), sep) + sep + parts.last()
    }
}

/// Join strings with a separator.
pub fn join(parts: &Vec<String>, sep: &str) -> (r: String)
    ensures
        r@ == joined(parts.deep_view(), sep@),
{
    let mut out = String::new();
    let ghost all = parts.deep_view();
    assert(all.take(0) =~= Seq::empty());
    let mut i: usize = 0;
    while i < parts.len()
        invariant
            i <= parts.len(),
            all == parts.deep_view(),
            out@ == joined(all.take(i as int), sep@),
        decreases parts.len() - i,
    {
        assert(all.take(i + 1).drop_last() =~= all.take(i as int));
        assert(all.take(i + 1).last() == parts[i as int]@);
        if i > 0 {
            out.append(sep);
        }
        out.append(parts[i].as_str());
        assert(out@ =~= joined(all.take(i + 1), sep@));
        i = i + 1;
    }
    assert(all.take(parts.len() as int) =~= all);
    out
}

/// Two strings, one after the other.
pub fn cat(a: &str, b: &str) -> (r: String)
    ensures
        r@ == a@ + b@,
{
    let mut out = a.to_string();
    out.append(b);
    out
}

/// Three strings, one after the other.
pub fn cat3(a: &str, b: &str, c: &str) -> (r: String)
    ensures
        r@ == a@ + b@ + c@,
{
    let mut out = a.to_string();
    out.append(b);
    out.append(c);
    out
}

/// A copy of a list of strings.
pub fn clone_strings(list: &Vec<String>) -> (r: Vec<String>)
    ensures
        r.deep_view() == list.deep_view(),
{
    let mut out: Vec<String> = Vec::new();
    let mut i: usize = 0;
    while i < list.len()
        invariant
            i <= list.len(),
            out@.len() == i,
            forall|j: int| 0 <= j < i ==> (#[trigger] out@[j])@ == list@[j]@,
        decreases list.len() - i,
    {
        out.push(list[i].clone());
        i = i + 1;
    }
    assert(out.deep_view() =~= list.deep_view());
    out
}

/// A copy of an optional string.
pub fn clone_option(text: &Option<String>) -> (r: Option<String>)
    ensures
        r.deep_view() == text.deep_view(),
{
    match text {
        Some(t) => Some(t.clone()),
        None => None,
    }
}

/// The value if there is one, otherwise the fallback.
pub open spec fn given<T>(value: Option<T>, fallback: T) -> T {
    match value {
        Some(v) => v,
        None => fallback,
    }
}

/// A copy of the string if there is one, otherwise of the fallback.
pub fn string_or(text: &Option<String>, fallback: &str) -> (r: String)
    ensures
        r@ == given(text.deep_view(), fallback@),
{
    match text {
        Some(t) => t.clone(),
        None => fallback.to_string(),
    }
}

/// An address as it may stand in a DNS label: dots and colons become dashes.
pub open spec fn dashed(s: Seq<char>) -> Seq<char> {
    Seq::new(s.len(), |i: int| if s[i] == '.' || s[i] == ':' { '-' } else { s[i] })
}

/// Replace every dot and colon with a dash.
pub fn dash_separators(s: &str) -> (r: String)
    ensures
        r@ == dashed(s@),
{
    let cs = chars_of(s);
    let mut out = String::new();
    let mut i: usize = 0;
    proof {
        reveal_strlit("-");
    }
    while i < cs.len()
        invariant
            cs@ == s@,
            "-"@ == seq!['-'],
            i <= cs.len(),
            out@ == dashed(s@).take(i as int),
        decreases cs.len() - i,
    {
        if cs[i] == '.' || cs[i] == ':' {
            out.append("-");
        } else {
            out.append(s.substring_char(i, i + 1));
        }
        assert(out@ =~= dashed(s@).take(i + 1));
        i = i + 1;
    }
    assert(dashed(s@).take(cs.len() as int) =~= dashed(s@));
    out
}

// --- quoting ----------------------------------------------------------------

/// A text as the standard library's `Debug` writes it: in double quotes, with
/// escapes.
pub uninterp spec fn debug_quoted(text: Seq<char>) -> Seq<char>;

/// Calls `Debug` of `str`. Claimed: what it writes depends on the text alone,
/// and is what [`debug_quoted`] names.
#[verifier::external_body]
pub(crate) fn quote(text: &str) -> (r: String)
    ensures
        r@ == debug_quoted(text@),
{
    format!("{text:?}")
}

// --- order -----------------------------------------------------------------

/// `a` stands strictly before `b` in the order of strings: by the first
/// character in which they differ, a prefix before what it begins.
pub open spec fn precedes(a: Seq<char>, b: Seq<char>) -> bool {
    exists|k: int| differs_first_at(a, b, k)
}

/// `a` and `b` agree up to `k`, and there `a` ends or holds the smaller
/// character.
pub open spec fn differs_first_at(a: Seq<char>, b: Seq<char>, k: int) -> bool {
    &&& 0 <= k <= a.len()
    &&& k < b.len()
    &&& forall|i: int| 0 <= i < k ==> a[i] == b[i]
    &&& k == a.len() || a[k] < b[k]
}

/// How two strings stand to each other.
#[derive(Clone, Copy, Debug, PartialEq, Eq, Structural)]
pub enum Standing {
    Before,
    Same,
    After,
}

/// Compare two strings in their order.
pub fn standing(a: &str, b: &str) -> (r: Standing)
    ensures
        r == Standing::Before <==> precedes(a@, b@),
        r == Standing::Same <==> a@ == b@,
        r == Standing::After <==> precedes(b@, a@),
{
    proof {
        lemma_precedes_excludes(a@, b@);
        lemma_precedes_excludes(b@, a@);
    }
    let x = chars_of(a);
    let y = chars_of(b);
    let mut k: usize = 0;
    while k < x.len() && k < y.len() && x[k] == y[k]
        invariant
            x@ == a@,
            y@ == b@,
            k <= x.len(),
            k <= y.len(),
            forall|i: int| 0 <= i < k ==> a@[i] == b@[i],
        decreases x.len() - k,
    {
        k = k + 1;
    }
    if k == x.len() && k == y.len() {
        assert(a@ =~= b@);
        Standing::Same
    } else if k == x.len() || (k < y.len() && x[k] < y[k]) {
        assert(differs_first_at(a@, b@, k as int));
        Standing::Before
    } else {
        assert(differs_first_at(b@, a@, k as int));
        Standing::After
    }
}

/// A string that stands before another is neither equal to it nor after it.
pub proof fn lemma_precedes_excludes(a: Seq<char>, b: Seq<char>)
    ensures
        precedes(a, b) ==> a != b && !precedes(b, a),
{
    if precedes(a, b) {
        let k = choose|k: int| differs_first_at(a, b, k);
        if precedes(b, a) {
            let m = choose|m: int| differs_first_at(b, a, m);
            if k < m {
                assert(b[k] == a[k]);
            } else if m < k {
                assert(a[m] == b[m]);
            }
        }
    }
}

/// The order of strings is transitive.
pub proof fn lemma_precedes_transitive(a: Seq<char>, b: Seq<char>, c: Seq<char>)
    requires
        precedes(a, b),
        precedes(b, c),
    ensures
        precedes(a, c),
{
    let k = choose|k: int| differs_first_at(a, b, k);
    let m = choose|m: int| differs_first_at(b, c, m);
    let at = if k < m { k } else { m };
    assert(differs_first_at(a, c, at));
}

// --- laws ------------------------------------------------------------------

/// The number that digits read as.
pub open spec fn value_of(digits: Seq<char>) -> nat
    decreases digits.len(),
{
    if digits.len() == 0 {
        0
    } else {
        10 * value_of(digits.drop_last()) + (digits.last() as nat - '0' as nat) as nat
    }
}

/// A number is written in digits, without leading zeros, and reads as itself.
pub proof fn law_decimal_reads_back(n: nat)
    ensures
        value_of(decimal(n)) == n,
        decimal(n).len() > 0,
        forall|i: int| 0 <= i < decimal(n).len() ==> '0' <= #[trigger] decimal(n)[i] <= '9',
        decimal(n)[0] == '0' ==> n == 0,
    decreases n,
{
    lemma_digit(n % 10);
    if n < 10 {
        lemma_digit(n);
        assert(decimal(n).drop_last() =~= Seq::empty());
        assert(value_of(decimal(n).drop_last()) == 0);
    } else {
        law_decimal_reads_back(n / 10);
        assert(decimal(n).drop_last() =~= decimal(n / 10));
        assert(decimal(n)[0] == decimal(n / 10)[0]);
    }
}

proof fn lemma_digit(d: nat)
    requires
        d < 10,
    ensures
        digit(d) as nat == '0' as nat + d,
        '0' <= digit(d) <= '9',
{
    assert(48 + d < 58);
    let b = (48 + d) as u8;
    assert(b as nat == 48 + d);
    assert((b as char) as nat == b as nat);
}

/// A signed number is its amount, with a minus before it where it is negative.
pub proof fn law_signed_decimals(n: int)
    ensures
        n >= 0 ==> signed_decimal(n) == decimal(n as nat),
        n < 0 ==> signed_decimal(n) == seq!['-'] + decimal((0 - n) as nat),
{
}

/// Joining puts the separator between every two parts, and nowhere else.
pub proof fn law_joining(parts: Seq<Seq<char>>, part: Seq<char>, sep: Seq<char>)
    ensures
        joined(Seq::empty(), sep) == Seq::<char>::empty(),
        joined(seq![part], sep) == part,
        parts.len() > 0 ==> joined(parts.push(part), sep) == joined(parts, sep) + sep + part,
{
    assert(parts.push(part).drop_last() =~= parts);
}

/// A text is blank exactly if there is nothing to see in it. Spaces, tabs and line
/// breaks are nothing; letters, digits and every other visible ASCII character are
/// something.
pub proof fn law_what_is_blank(s: Seq<char>, c: char)
    ensures
        blank(s) <==> forall|i: int| 0 <= i < s.len() ==> is_white_space(#[trigger] s[i]),
        '\u{21}' <= c <= '\u{7e}' ==> !is_white_space(c),
        c == ' ' || c == '\t' || c == '\n' || c == '\r' ==> is_white_space(c),
{
}

/// A text holds another exactly if it is something, the other, and something more.
pub proof fn law_what_occurs(before: Seq<char>, needle: Seq<char>, behind: Seq<char>)
    ensures
        occurs_in(before + needle + behind, needle),
{
    let hay = before + needle + behind;
    let at = before.len() as int;
    assert(hay.subrange(at, at + needle.len()) =~= needle);
    assert(occurs_at(hay, needle, at));
}

/// What a text holds can be cut out of it.
pub proof fn law_what_occurs_is_there(hay: Seq<char>, needle: Seq<char>) -> (r: (
    Seq<char>,
    Seq<char>,
))
    requires
        occurs_in(hay, needle),
    ensures
        hay == r.0 + needle + r.1,
{
    let at = choose|at: int| occurs_at(hay, needle, at);
    let before = hay.subrange(0, at);
    let behind = hay.subrange(at + needle.len(), hay.len() as int);
    assert(hay =~= before + hay.subrange(at, at + needle.len()) + behind);
    (before, behind)
}

/// What is given counts, and otherwise what stands in for it.
pub proof fn law_what_is_given_counts<T>(value: T, fallback: T)
    ensures
        given(Some(value), fallback) == value,
        given(None, fallback) == fallback,
{
}

} // verus!
