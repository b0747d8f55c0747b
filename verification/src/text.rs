//! Reading and writing small texts.

use vstd::prelude::*;
use vstd::string::*;

verus! {

/// `String::push` appends one character at the end.
pub assume_specification[ String::push ](s: &mut String, ch: char)
    ensures
        final(s)@ == old(s)@.push(ch),
;

/// Whether two texts are the same.
pub fn same_text(a: &str, b: &str) -> (r: bool)
    ensures
        r == (a@ == b@),
{
    a.to_owned() == b.to_owned()
}

/// The characters of a text.
pub fn chars_of(s: &str) -> (r: Vec<char>)
    ensures
        r@ == s@,
{
    let n: usize = s.unicode_len();
    let mut out: Vec<char> = Vec::new();
    let mut i: usize = 0;
    while i < n
        invariant
            n == s@.len(),
            i <= n,
            out@ == s@.subrange(0, i as int),
        decreases n - i,
    {
        out.push(s.get_char(i));
        i = i + 1;
        assert(s@.subrange(0, i as int) =~= s@.subrange(0, i - 1).push(s@[i - 1]));
    }
    assert(s@.subrange(0, n as int) =~= s@);
    out
}

/// A decimal digit.
pub open spec fn is_digit(c: char) -> bool {
    '0' <= c <= '9'
}

/// What a digit is worth.
pub open spec fn digit_of(c: char) -> int {
    c as int - '0' as int
}

/// The number that a row of digits stands for.
pub open spec fn digits_value(s: Seq<char>) -> int
    decreases s.len(),
{
    if s.len() == 0 {
        0
    } else {
        digits_value(s.drop_last()) * 10 + digit_of(s.last())
    }
}

/// Digits only, and one at least.
pub open spec fn all_digits(s: Seq<char>) -> bool {
    s.len() > 0 && forall|i: int| 0 <= i < s.len() ==> is_digit(#[trigger] s[i])
}

/// A text without a leading plus sign.
pub open spec fn without_plus(s: Seq<char>) -> Seq<char> {
    if s.len() > 0 && s[0] == '+' {
        s.subrange(1, s.len() as int)
    } else {
        s
    }
}

/// The number that a text stands for, where it is an unsigned number no larger than `max`: digits
/// with at most a plus sign before them.
pub open spec fn unsigned_value(s: Seq<char>, max: int) -> Option<int> {
    let digits = without_plus(s);
    if all_digits(digits) && digits_value(digits) <= max {
        Some(digits_value(digits))
    } else {
        None
    }
}

/// The number that a text stands for, where it is a number of 64 bits with its sign.
pub open spec fn signed_value(s: Seq<char>) -> Option<int> {
    if s.len() > 0 && s[0] == '-' {
        let digits = s.subrange(1, s.len() as int);
        if all_digits(digits) && digits_value(digits) <= -(i64::MIN as int) {
            Some(-digits_value(digits))
        } else {
            None
        }
    } else {
        unsigned_value(s, i64::MAX as int)
    }
}

proof fn prefix_is_no_larger(s: Seq<char>, n: int)
    requires
        0 <= n <= s.len(),
        forall|i: int| 0 <= i < s.len() ==> is_digit(#[trigger] s[i]),
    ensures
        0 <= digits_value(s.subrange(0, n)) <= digits_value(s),
    decreases s.len() - n, n,
{
    if n == s.len() {
        assert(s.subrange(0, n) =~= s);
        if n > 0 {
            let shorter = s.drop_last();
            assert(shorter.subrange(0, n - 1) =~= shorter);
            prefix_is_no_larger(shorter, n - 1);
            assert(is_digit(s.last()));
        }
    } else {
        prefix_is_no_larger(s, n + 1);
        let p = s.subrange(0, n + 1);
        assert(p.drop_last() =~= s.subrange(0, n));
        assert(is_digit(s[n]));
        let q = s.subrange(0, n);
        assert forall|i: int| 0 <= i < q.len() implies is_digit(#[trigger] q[i]) by {
            assert(is_digit(s[i]));
        }
        nonnegative(q);
    }
}

proof fn nonnegative(s: Seq<char>)
    requires
        forall|i: int| 0 <= i < s.len() ==> is_digit(#[trigger] s[i]),
    ensures
        digits_value(s) >= 0,
    decreases s.len(),
{
    if s.len() > 0 {
        assert forall|i: int| 0 <= i < s.drop_last().len() implies is_digit(
            #[trigger] s.drop_last()[i],
        ) by {
            assert(is_digit(s[i]));
        }
        nonnegative(s.drop_last());
        assert(is_digit(s[s.len() - 1]));
    }
}

/// Reads the digits from `from` on.
fn read_digits(s: &Vec<char>, from: usize, max: u64) -> (r: Option<u64>)
    requires
        from <= s@.len(),
    ensures
        ({
            let digits = s@.subrange(from as int, s@.len() as int);
            match r {
                Some(v) => all_digits(digits) && digits_value(digits) == v && v <= max,
                None => !(all_digits(digits) && digits_value(digits) <= max),
            }
        }),
{
    let ghost digits = s@.subrange(from as int, s@.len() as int);
    let n: usize = s.len();
    if from == n {
        return None;
    }
    let mut value: u128 = 0;
    let mut i: usize = from;
    while i < n
        invariant
            n == s@.len(),
            from <= i <= n,
            digits == s@.subrange(from as int, s@.len() as int),
            forall|k: int| 0 <= k < i - from ==> is_digit(#[trigger] digits[k]),
            value == digits_value(digits.subrange(0, i - from)),
            value <= max,
        decreases n - i,
    {
        let c: char = s[i];
        assert(c == digits[i - from]);
        if !('0' <= c && c <= '9') {
            assert(!is_digit(digits[i - from]));
            return None;
        }
        let d: u128 = c as u128 - '0' as u128;
        let next: u128 = value * 10 + d;
        proof {
            let p = digits.subrange(0, i - from + 1);
            assert(p.drop_last() =~= digits.subrange(0, i - from));
            assert(p.last() == c);
            assert(digits_value(p) == next);
        }
        if next > max as u128 {
            proof {
                if all_digits(digits) {
                    prefix_is_no_larger(digits, i - from + 1);
                }
            }
            return None;
        }
        value = next;
        i = i + 1;
    }
    assert(digits.subrange(0, n - from) =~= digits);
    Some(value as u64)
}

/// Reads an unsigned number.
pub fn parse_u64(s: &str) -> (r: Option<u64>)
    ensures
        match r {
            Some(v) => unsigned_value(s@, u64::MAX as int) == Some(v as int),
            None => unsigned_value(s@, u64::MAX as int) is None,
        },
{
    let c: Vec<char> = chars_of(s);
    let from: usize = if c.len() > 0 && c[0] == '+' {
        1
    } else {
        0
    };
    assert(s@.subrange(from as int, s@.len() as int) =~= without_plus(s@));
    read_digits(&c, from, u64::MAX)
}

/// Reads an unsigned number of 32 bits from a stretch of characters.
pub fn parse_u32(c: &Vec<char>) -> (r: Option<u32>)
    ensures
        match r {
            Some(v) => unsigned_value(c@, u32::MAX as int) == Some(v as int),
            None => unsigned_value(c@, u32::MAX as int) is None,
        },
{
    let from: usize = if c.len() > 0 && c[0] == '+' {
        1
    } else {
        0
    };
    assert(c@.subrange(from as int, c@.len() as int) =~= without_plus(c@));
    match read_digits(c, from, u32::MAX as u64) {
        Some(v) => Some(v as u32),
        None => None,
    }
}

/// Reads a number with its sign.
pub fn parse_i64(s: &str) -> (r: Option<i64>)
    ensures
        match r {
            Some(v) => signed_value(s@) == Some(v as int),
            None => signed_value(s@) is None,
        },
{
    let c: Vec<char> = chars_of(s);
    if c.len() > 0 && c[0] == '-' {
        match read_digits(&c, 1, 0x8000_0000_0000_0000) {
            Some(v) => {
                if v == 0x8000_0000_0000_0000 {
                    Some(i64::MIN)
                } else {
                    Some(-(v as i64))
                }
            },
            None => None,
        }
    } else {
        let from: usize = if c.len() > 0 && c[0] == '+' {
            1
        } else {
            0
        };
        assert(s@.subrange(from as int, s@.len() as int) =~= without_plus(s@));
        match read_digits(&c, from, i64::MAX as u64) {
            Some(v) => Some(v as i64),
            None => None,
        }
    }
}

/// The character of a digit.
pub open spec fn char_of_digit(d: int) -> char {
    ('0' as int + d) as char
}

/// A number in decimal digits, without leading zeros.
pub open spec fn decimal_digits(n: int) -> Seq<char>
    decreases n,
{
    if n < 10 {
        seq![char_of_digit(n)]
    } else {
        decimal_digits(n / 10).push(char_of_digit(n % 10))
    }
}

/// A number in decimal, with a minus sign where it is negative.
pub open spec fn decimal(n: int) -> Seq<char> {
    if n < 0 {
        seq!['-'] + decimal_digits(-n)
    } else {
        decimal_digits(n)
    }
}

fn digit_char(d: u64) -> (r: char)
    requires
        d < 10,
    ensures
        r == char_of_digit(d as int),
{
    match d {
        0 => '0',
        1 => '1',
        2 => '2',
        3 => '3',
        4 => '4',
        5 => '5',
        6 => '6',
        7 => '7',
        8 => '8',
        _ => '9',
    }
}

fn push_digits(out: &mut String, n: u64)
    ensures
        final(out)@ == old(out)@ + decimal_digits(n as int),
    decreases n,
{
    if n < 10 {
        out.push(digit_char(n));
        assert(out@ =~= old(out)@ + decimal_digits(n as int));
    } else {
        push_digits(out, n / 10);
        out.push(digit_char(n % 10));
        assert(out@ =~= old(out)@ + decimal_digits(n as int));
    }
}

/// Writes an unsigned number at the end of a text.
pub fn push_u64(out: &mut String, n: u64)
    ensures
        final(out)@ == old(out)@ + decimal(n as int),
{
    push_digits(out, n);
}

/// Writes a number at the end of a text.
pub fn push_i64(out: &mut String, n: i64)
    ensures
        final(out)@ == old(out)@ + decimal(n as int),
{
    if n < 0 {
        let size: u64 = if n == i64::MIN {
            0x8000_0000_0000_0000
        } else {
            (-n) as u64
        };
        out.push('-');
        push_digits(out, size);
        assert(out@ =~= old(out)@ + decimal(n as int));
    } else {
        push_digits(out, n as u64);
    }
}

/// Writes a text at the end of another.
pub fn push_text(out: &mut String, s: &str)
    ensures
        final(out)@ == old(out)@ + s@,
{
    out.append(s);
}

/// Reading a number back from its digits gives the number.
pub proof fn digits_read_back(n: int)
    requires
        n >= 0,
    ensures
        all_digits(decimal_digits(n)),
        digits_value(decimal_digits(n)) == n,
        decimal_digits(n)[0] != '+' && decimal_digits(n)[0] != '-',
    decreases n,
{
    if n < 10 {
        let s = decimal_digits(n);
        assert(s.drop_last() =~= Seq::<char>::empty());
        assert(s.last() == char_of_digit(n));
        assert(digits_value(s.drop_last()) == 0);
    } else {
        digits_read_back(n / 10);
        let p = decimal_digits(n / 10);
        let s = decimal_digits(n);
        assert(s.drop_last() =~= p);
        assert(s[0] == p[0]);
        assert forall|i: int| 0 <= i < s.len() implies is_digit(#[trigger] s[i]) by {
            if i < p.len() {
                assert(s[i] == p[i]);
                assert(is_digit(p[i]));
            }
        }
    }
}

/// Every number of 64 bits is read back from its decimal writing.
pub proof fn decimal_reads_back(n: i64)
    ensures
        signed_value(decimal(n as int)) == Some(n as int),
{
    if n < 0 {
        digits_read_back(-(n as int));
        let s = decimal(n as int);
        assert(s[0] == '-');
        assert(s.subrange(1, s.len() as int) =~= decimal_digits(-(n as int)));
    } else {
        digits_read_back(n as int);
        let s = decimal(n as int);
        assert(without_plus(s) =~= s);
    }
}

/// White space in the sense of Unicode.
pub open spec fn is_space(c: char) -> bool {
    ('\u{9}' <= c <= '\u{d}') || c == ' ' || c == '\u{85}' || c == '\u{a0}' || c == '\u{1680}' || (
    '\u{2000}' <= c <= '\u{200a}') || c == '\u{2028}' || c == '\u{2029}' || c == '\u{202f}' || c
        == '\u{205f}' || c == '\u{3000}'
}

fn space(c: char) -> (r: bool)
    ensures
        r == is_space(c),
{
    ('\u{9}' <= c && c <= '\u{d}') || c == ' ' || c == '\u{85}' || c == '\u{a0}' || c == '\u{1680}'
        || ('\u{2000}' <= c && c <= '\u{200a}') || c == '\u{2028}' || c == '\u{2029}' || c
        == '\u{202f}' || c == '\u{205f}' || c == '\u{3000}'
}

/// A text without its leading characters of a kind.
pub open spec fn without_leading(s: Seq<char>, drop: spec_fn(char) -> bool) -> Seq<char>
    decreases s.len(),
{
    if s.len() > 0 && drop(s[0]) {
        without_leading(s.subrange(1, s.len() as int), drop)
    } else {
        s
    }
}

/// A text without its trailing characters of a kind.
pub open spec fn without_trailing(s: Seq<char>, drop: spec_fn(char) -> bool) -> Seq<char>
    decreases s.len(),
{
    if s.len() > 0 && drop(s.last()) {
        without_trailing(s.drop_last(), drop)
    } else {
        s
    }
}

/// A text without white space around it.
pub open spec fn trimmed(s: Seq<char>) -> Seq<char> {
    without_trailing(without_leading(s, |c: char| is_space(c)), |c: char| is_space(c))
}

/// A text without double quotes around it.
pub open spec fn unquoted(s: Seq<char>) -> Seq<char> {
    without_trailing(without_leading(s, |c: char| c == '"'), |c: char| c == '"')
}

/// A text without white space around it.
pub fn trim(s: &str) -> (r: String)
    ensures
        r@ == trimmed(s@),
{
    let ghost kind = |c: char| is_space(c);
    let c: Vec<char> = chars_of(s);
    let mut from: usize = 0;
    assert(s@.subrange(0, s@.len() as int) =~= s@);
    while from < c.len() && space(c[from])
        invariant
            c@ == s@,
            from <= c@.len(),
            kind == (|c: char| is_space(c)),
            without_leading(s@.subrange(from as int, s@.len() as int), kind) == without_leading(
                s@,
                kind,
            ),
        decreases c.len() - from,
    {
        assert(s@.subrange(from as int, s@.len() as int).subrange(
            1,
            s@.len() - from,
        ) =~= s@.subrange(from + 1, s@.len() as int));
        from = from + 1;
    }
    let ghost head = s@.subrange(from as int, s@.len() as int);
    assert(head == without_leading(s@, kind));
    let mut to: usize = c.len();
    while to > from && space(c[to - 1])
        invariant
            c@ == s@,
            from <= to <= c@.len(),
            kind == (|c: char| is_space(c)),
            without_trailing(s@.subrange(from as int, to as int), kind) == without_trailing(
                head,
                kind,
            ),
        decreases to - from,
    {
        assert(s@.subrange(from as int, to as int).drop_last() =~= s@.subrange(
            from as int,
            to - 1,
        ));
        to = to - 1;
    }
    s.substring_char(from, to).to_owned()
}

/// A text without double quotes around it.
pub fn trim_quotes(s: &str) -> (r: String)
    ensures
        r@ == unquoted(s@),
{
    let ghost kind = |c: char| c == '"';
    let c: Vec<char> = chars_of(s);
    let mut from: usize = 0;
    assert(s@.subrange(0, s@.len() as int) =~= s@);
    while from < c.len() && c[from] == '"'
        invariant
            c@ == s@,
            from <= c@.len(),
            kind == (|c: char| c == '"'),
            without_leading(s@.subrange(from as int, s@.len() as int), kind) == without_leading(
                s@,
                kind,
            ),
        decreases c.len() - from,
    {
        assert(s@.subrange(from as int, s@.len() as int).subrange(
            1,
            s@.len() - from,
        ) =~= s@.subrange(from + 1, s@.len() as int));
        from = from + 1;
    }
    let ghost head = s@.subrange(from as int, s@.len() as int);
    assert(head == without_leading(s@, kind));
    let mut to: usize = c.len();
    while to > from && c[to - 1] == '"'
        invariant
            c@ == s@,
            from <= to <= c@.len(),
            kind == (|c: char| c == '"'),
            without_trailing(s@.subrange(from as int, to as int), kind) == without_trailing(
                head,
                kind,
            ),
        decreases to - from,
    {
        assert(s@.subrange(from as int, to as int).drop_last() =~= s@.subrange(
            from as int,
            to - 1,
        ));
        to = to - 1;
    }
    s.substring_char(from, to).to_owned()
}

/// A text with every single quote turned into a double quote.
pub open spec fn requoted(s: Seq<char>) -> Seq<char> {
    Seq::new(
        s.len(),
        |i: int|
            if s[i] == '\'' {
                '"'
            } else {
                s[i]
            },
    )
}

/// A text with every single quote turned into a double quote.
pub fn requote(s: &str) -> (r: String)
    ensures
        r@ == requoted(s@),
{
    let c: Vec<char> = chars_of(s);
    let mut out: String = String::new();
    let mut i: usize = 0;
    while i < c.len()
        invariant
            c@ == s@,
            i <= c@.len(),
            out@ == requoted(s@).subrange(0, i as int),
        decreases c.len() - i,
    {
        if c[i] == '\'' {
            out.push('"');
        } else {
            out.push(c[i]);
        }
        i = i + 1;
        assert(requoted(s@).subrange(0, i as int) =~= requoted(s@).subrange(0, i - 1).push(
            requoted(s@)[i - 1],
        ));
    }
    assert(requoted(s@).subrange(0, c@.len() as int) =~= requoted(s@));
    out
}

/// An unsigned number is read back from its decimal writing, with or without a plus sign, unless it
/// is too large; with a minus sign it is not read.
pub proof fn unsigned_reads_back(n: int, max: int)
    requires
        n >= 0,
    ensures
        unsigned_value(decimal(n), max) == (if n <= max {
            Some(n)
        } else {
            None
        }),
        unsigned_value(seq!['+'] + decimal(n), max) == (if n <= max {
            Some(n)
        } else {
            None
        }),
        unsigned_value(seq!['-'] + decimal(n), max) is None,
        unsigned_value(Seq::empty(), max) is None,
{
    digits_read_back(n);
    let s = decimal(n);
    assert(without_plus(s) =~= s);
    let plus = seq!['+'] + s;
    assert(plus[0] == '+');
    assert(plus.subrange(1, plus.len() as int) =~= s);
    let minus = seq!['-'] + s;
    assert(minus[0] == '-');
    assert(!is_digit(minus[0]));
}

/// A text with a character that is no digit is no number, but for a sign at its beginning.
pub proof fn other_characters_are_no_number(s: Seq<char>, i: int, max: int)
    requires
        1 <= i < s.len(),
        !('0' <= s[i] <= '9'),
    ensures
        unsigned_value(s, max) is None,
        signed_value(s) is None,
{
    let tail = s.subrange(1, s.len() as int);
    assert(tail[i - 1] == s[i]);
    assert(!is_digit(s[i]));
}

/// `inner` is what is left of `s` when characters of a kind are taken away at both ends, as many as
/// there are, and nothing else is.
pub open spec fn stripped(s: Seq<char>, inner: Seq<char>, kind: spec_fn(char) -> bool) -> bool {
    exists|a: int, b: int| #[trigger] stripped_at(s, inner, kind, a, b)
}

/// `inner` lies from `a` to `b` in `s`.
pub open spec fn stripped_at(
    s: Seq<char>,
    inner: Seq<char>,
    kind: spec_fn(char) -> bool,
    a: int,
    b: int,
) -> bool {
    &&& 0 <= a <= b <= s.len()
    &&& inner == s.subrange(a, b)
    &&& forall|i: int| 0 <= i < a ==> kind(#[trigger] s[i])
    &&& forall|i: int| b <= i < s.len() ==> kind(#[trigger] s[i])
    &&& a < b ==> !kind(s[a]) && !kind(s[b - 1])
}

proof fn leading_ones_go(s: Seq<char>, kind: spec_fn(char) -> bool)
    ensures
        ({
            let rest = without_leading(s, kind);
            let a = s.len() - rest.len();
            &&& 0 <= a <= s.len()
            &&& rest == s.subrange(a, s.len() as int)
            &&& forall|i: int| 0 <= i < a ==> kind(#[trigger] s[i])
            &&& rest.len() > 0 ==> !kind(rest[0])
        }),
    decreases s.len(),
{
    if s.len() > 0 && kind(s[0]) {
        let next = s.subrange(1, s.len() as int);
        leading_ones_go(next, kind);
        let rest = without_leading(next, kind);
        let a = s.len() - rest.len();
        assert(next.subrange(next.len() - rest.len(), next.len() as int) =~= s.subrange(
            a,
            s.len() as int,
        ));
        assert forall|i: int| 0 <= i < a implies kind(#[trigger] s[i]) by {
            if i > 0 {
                assert(next[i - 1] == s[i]);
            }
        }
    } else {
        assert(s.subrange(0, s.len() as int) =~= s);
    }
}

proof fn trailing_ones_go(s: Seq<char>, kind: spec_fn(char) -> bool)
    ensures
        ({
            let rest = without_trailing(s, kind);
            &&& rest.len() <= s.len()
            &&& rest == s.subrange(0, rest.len() as int)
            &&& forall|i: int| rest.len() <= i < s.len() ==> kind(#[trigger] s[i])
            &&& rest.len() > 0 ==> !kind(rest.last())
        }),
    decreases s.len(),
{
    if s.len() > 0 && kind(s.last()) {
        let next = s.drop_last();
        trailing_ones_go(next, kind);
        let rest = without_trailing(next, kind);
        assert(next.subrange(0, rest.len() as int) =~= s.subrange(0, rest.len() as int));
        assert forall|i: int| rest.len() <= i < s.len() implies kind(#[trigger] s[i]) by {
            if i < next.len() {
                assert(next[i] == s[i]);
            }
        }
    } else {
        assert(s.subrange(0, s.len() as int) =~= s);
    }
}

proof fn both_ends_go(s: Seq<char>, kind: spec_fn(char) -> bool)
    ensures
        stripped(s, without_trailing(without_leading(s, kind), kind), kind),
{
    leading_ones_go(s, kind);
    let head = without_leading(s, kind);
    trailing_ones_go(head, kind);
    let inner = without_trailing(head, kind);
    let a = s.len() - head.len();
    let b = a + inner.len();
    assert(inner =~= s.subrange(a, b));
    assert forall|i: int| b <= i < s.len() implies kind(#[trigger] s[i]) by {
        assert(head[i - a] == s[i]);
    }
    if a < b {
        assert(inner[0] == head[0] && head[0] == s[a]);
        assert(inner.last() == s[b - 1]);
    }
    assert(stripped_at(s, inner, kind, a, b));
}

/// A trimmed text is the text without the white space around it, and an unquoted one without the
/// double quotes around it: inside nothing is taken away.
pub proof fn only_the_ends_are_taken_away(s: Seq<char>)
    ensures
        stripped(s, trimmed(s), |c: char| is_space(c)),
        stripped(s, unquoted(s), |c: char| c == '"'),
{
    both_ends_go(s, |c: char| is_space(c));
    both_ends_go(s, |c: char| c == '"');
}

/// Blanks, tabs and line ends are white space, and no character that is printed in plain text is.
pub proof fn blanks_are_space(c: char)
    ensures
        c == ' ' || c == '\t' || c == '\n' || c == '\r' ==> is_space(c),
        '!' <= c <= '~' ==> !is_space(c),
{
}

/// Single quotes become double quotes, and every other character stays in its place.
pub proof fn only_single_quotes_change(s: Seq<char>, i: int)
    ensures
        requoted(s).len() == s.len(),
        0 <= i < s.len() && s[i] == '\'' ==> requoted(s)[i] == '"',
        0 <= i < s.len() && s[i] != '\'' ==> requoted(s)[i] == s[i],
{
}

} // verus!
