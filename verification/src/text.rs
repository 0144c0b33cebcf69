//! Decimal digits and the `HH:MM:SS` rendering shared by every display.

use vstd::prelude::*;

verus! {

/// Nanoseconds in one second.
pub const NANOS_PER_SEC: u128 = 1_000_000_000;

/// The character of one decimal digit.
pub open spec fn digit_char(d: nat) -> char {
    if d == 0 {
        '0'
    } else if d == 1 {
        '1'
    } else if d == 2 {
        '2'
    } else if d == 3 {
        '3'
    } else if d == 4 {
        '4'
    } else if d == 5 {
        '5'
    } else if d == 6 {
        '6'
    } else if d == 7 {
        '7'
    } else if d == 8 {
        '8'
    } else {
        '9'
    }
}

/// The decimal numeral of `n`, without leading zeros.
pub open spec fn decimal(n: nat) -> Seq<char>
    decreases n,
{
    if n < 10 {
        seq![digit_char(n)]
    } else {
        decimal(n / 10).push(digit_char(n % 10))
    }
}

/// The numeral of `n` padded with a zero to at least two digits.
pub open spec fn two_digits(n: nat) -> Seq<char> {
    if n < 10 {
        seq!['0'] + decimal(n)
    } else {
        decimal(n)
    }
}

/// `HH:MM:SS` for a whole number of seconds; the hours are not bounded.
pub open spec fn hhmmss(secs: nat) -> Seq<char> {
    two_digits(secs / 3600) + seq![':'] + two_digits((secs / 60) % 60) + seq![':'] + two_digits(
        secs % 60,
    )
}

fn digit_str(d: u128) -> (r: &'static str)
    requires
        d < 10,
    ensures
        r@ == seq![digit_char(d as nat)],
{
    proof {
        reveal_strlit("0");
        reveal_strlit("1");
        reveal_strlit("2");
        reveal_strlit("3");
        reveal_strlit("4");
        reveal_strlit("5");
        reveal_strlit("6");
        reveal_strlit("7");
        reveal_strlit("8");
        reveal_strlit("9");
    }
    let r = if d == 0 {
        "0"
    } else if d == 1 {
        "1"
    } else if d == 2 {
        "2"
    } else if d == 3 {
        "3"
    } else if d == 4 {
        "4"
    } else if d == 5 {
        "5"
    } else if d == 6 {
        "6"
    } else if d == 7 {
        "7"
    } else if d == 8 {
        "8"
    } else {
        "9"
    };
    assert(r@ =~= seq![digit_char(d as nat)]);
    r
}

/// Appends the decimal numeral of `n` to `out`.
pub fn push_decimal(out: &mut String, n: u128)
    ensures
        final(out)@ == old(out)@ + decimal(n as nat),
    decreases n,
{
    if n >= 10 {
        push_decimal(out, n / 10);
    }
    out.append(digit_str(n % 10));
    assert(out@ =~= old(out)@ + decimal(n as nat));
}

/// Appends `n` with at least two digits to `out`.
pub fn push_two_digits(out: &mut String, n: u128)
    ensures
        final(out)@ == old(out)@ + two_digits(n as nat),
{
    if n < 10 {
        out.append("0");
        proof {
            reveal_strlit("0");
        }
    }
    push_decimal(out, n);
    assert(out@ =~= old(out)@ + two_digits(n as nat));
}

/// The decimal numeral of `n` as a string.
pub fn decimal_string(n: u128) -> (r: String)
    ensures
        r@ == decimal(n as nat),
{
    let mut out = String::new();
    push_decimal(&mut out, n);
    assert(out@ =~= decimal(n as nat));
    out
}

/// Renders a span of nanoseconds as `HH:MM:SS`, cutting off the part
/// below one second.
pub fn format_instant_to_hhmmss(time_gained: u128) -> (r: String)
    ensures
        r@ == hhmmss((time_gained / NANOS_PER_SEC) as nat),
{
    let secs: u128 = time_gained / NANOS_PER_SEC;
    let mut out = String::new();
    push_two_digits(&mut out, secs / 3600);
    out.append(":");
    push_two_digits(&mut out, (secs / 60) % 60);
    out.append(":");
    push_two_digits(&mut out, secs % 60);
    proof {
        reveal_strlit(":");
        assert(":"@ =~= seq![':']);
        assert(out@ =~= hhmmss(secs as nat));
    }
    out
}

/// Whether two strings hold the same characters.
pub fn str_equal(a: &str, b: &str) -> (r: bool)
    ensures
        r == (a@ == b@),
{
    let n = a.unicode_len();
    if n != b.unicode_len() {
        return false;
    }
    let mut i: usize = 0;
    while i < n
        invariant
            i <= n,
            n == a@.len(),
            n == b@.len(),
            forall|j: int| 0 <= j < i ==> a@[j] == b@[j],
        decreases n - i,
    {
        if a.get_char(i) != b.get_char(i) {
            return false;
        }
        i += 1;
    }
    assert(a@ =~= b@);
    true
}

/// White space as Unicode defines it: the characters that `trim` takes
/// off the ends of a string.
pub open spec fn is_whitespace(c: char) -> bool {
    let n = c as u32;
    (0x09 <= n <= 0x0d) || n == 0x20 || n == 0x85 || n == 0xa0 || n == 0x1680 || (0x2000 <= n
        <= 0x200a) || n == 0x2028 || n == 0x2029 || n == 0x202f || n == 0x205f || n == 0x3000
}

/// Whether `c` is white space.
pub fn char_is_whitespace(c: char) -> (r: bool)
    ensures
        r == is_whitespace(c),
{
    let n = c as u32;
    (0x09 <= n && n <= 0x0d) || n == 0x20 || n == 0x85 || n == 0xa0 || n == 0x1680 || (0x2000 <= n
        && n <= 0x200a) || n == 0x2028 || n == 0x2029 || n == 0x202f || n == 0x205f || n == 0x3000
}

/// The number of white-space characters at the start of `s`.
pub open spec fn leading_blank(s: Seq<char>) -> nat
    decreases s.len(),
{
    if s.len() > 0 && is_whitespace(s[0]) {
        1 + leading_blank(s.drop_first())
    } else {
        0
    }
}

/// The number of characters at the start of `s` that are not white space.
pub open spec fn leading_word(s: Seq<char>) -> nat
    decreases s.len(),
{
    if s.len() > 0 && !is_whitespace(s[0]) {
        1 + leading_word(s.drop_first())
    } else {
        0
    }
}

/// The first word of `s`: what stands between the white space at its
/// start and the next white space, or the end.
pub open spec fn first_token(s: Seq<char>) -> Seq<char> {
    let rest = s.skip(leading_blank(s) as int);
    rest.take(leading_word(rest) as int)
}

/// Counting white space from position `from` on.
proof fn lemma_leading_blank_step(s: Seq<char>, from: int)
    requires
        0 <= from <= s.len(),
    ensures
        leading_blank(s.skip(from)) <= s.len() - from,
        from < s.len() && is_whitespace(s[from]) ==> leading_blank(s.skip(from)) == 1
            + leading_blank(s.skip(from + 1)),
        from == s.len() || !is_whitespace(s[from]) ==> leading_blank(s.skip(from)) == 0,
    decreases s.len() - from,
{
    if from < s.len() {
        assert(s.skip(from).drop_first() =~= s.skip(from + 1));
        lemma_leading_blank_step(s, from + 1);
    }
}

/// Counting the characters of a word from position `from` on.
proof fn lemma_leading_word_step(s: Seq<char>, from: int)
    requires
        0 <= from <= s.len(),
    ensures
        leading_word(s.skip(from)) <= s.len() - from,
        from < s.len() && !is_whitespace(s[from]) ==> leading_word(s.skip(from)) == 1
            + leading_word(s.skip(from + 1)),
        from == s.len() || is_whitespace(s[from]) ==> leading_word(s.skip(from)) == 0,
    decreases s.len() - from,
{
    if from < s.len() {
        assert(s.skip(from).drop_first() =~= s.skip(from + 1));
        lemma_leading_word_step(s, from + 1);
    }
}

/// Where the first word of `text` begins and ends, counted in characters.
pub fn first_token_bounds(text: &str) -> (r: (usize, usize))
    ensures
        r.0 <= r.1 <= text@.len(),
        r.0 == leading_blank(text@),
        r.1 - r.0 == leading_word(text@.skip(r.0 as int)),
        first_token(text@) == text@.subrange(r.0 as int, r.1 as int),
{
    let n = text.unicode_len();
    let mut start: usize = 0;
    proof {
        assert(text@.skip(0) =~= text@);
    }
    while start < n && char_is_whitespace(text.get_char(start))
        invariant
            start <= n,
            n == text@.len(),
            leading_blank(text@) == start + leading_blank(text@.skip(start as int)),
        decreases n - start,
    {
        proof {
            lemma_leading_blank_step(text@, start as int);
        }
        start += 1;
    }
    proof {
        lemma_leading_blank_step(text@, start as int);
    }
    let mut end: usize = start;
    while end < n && !char_is_whitespace(text.get_char(end))
        invariant
            start <= end <= n,
            n == text@.len(),
            leading_word(text@.skip(start as int)) == (end - start) + leading_word(
                text@.skip(end as int),
            ),
        decreases n - end,
    {
        proof {
            lemma_leading_word_step(text@, end as int);
        }
        end += 1;
    }
    proof {
        lemma_leading_word_step(text@, end as int);
        assert(text@.skip(start as int).take(end - start) =~= text@.subrange(
            start as int,
            end as int,
        ));
    }
    (start, end)
}

/// Whether `c` is one of the digits `0` to `9`.
pub open spec fn is_digit(c: char) -> bool {
    0x30 <= c as u32 <= 0x39
}

/// The number that a digit stands for.
pub open spec fn digit_value(c: char) -> nat {
    (c as u32 - 0x30) as nat
}

/// Whether `s` holds digits only.
pub open spec fn all_digits(s: Seq<char>) -> bool {
    forall|i: int| 0 <= i < s.len() ==> is_digit(#[trigger] s[i])
}

/// The number that a string of digits stands for in base ten.
pub open spec fn decimal_value(s: Seq<char>) -> nat
    decreases s.len(),
{
    if s.len() == 0 {
        0
    } else {
        decimal_value(s.drop_last()) * 10 + digit_value(s.last())
    }
}

/// The amount that `s` states: `s` is one or more digits `0` to `9` and
/// nothing else, and the number fits in 64 bits.
pub open spec fn parse_amount(s: Seq<char>) -> Option<u64> {
    if s.len() > 0 && all_digits(s) && decimal_value(s) <= u64::MAX {
        Some(decimal_value(s) as u64)
    } else {
        None
    }
}

/// Reads an amount of minutes: a plain decimal number with no sign and no
/// white space. Anything else is turned away.
pub fn parse_minutes(text: &str) -> (r: Option<u64>)
    ensures
        r == parse_amount(text@),
{
    let n = text.unicode_len();
    if n == 0 {
        return None;
    }
    let mut acc: Option<u64> = Some(0);
    let mut i: usize = 0;
    while i < n
        invariant
            i <= n,
            n == text@.len(),
            all_digits(text@.take(i as int)),
            match acc {
                Some(v) => v == decimal_value(text@.take(i as int)),
                None => decimal_value(text@.take(i as int)) > u64::MAX,
            },
        decreases n - i,
    {
        let c = text.get_char(i);
        let code = c as u32;
        proof {
            assert(text@.take(i + 1).drop_last() =~= text@.take(i as int));
            assert(text@.take(i + 1).last() == c);
        }
        if code < 0x30 || code > 0x39 {
            assert(!is_digit(text@[i as int]));
            return None;
        }
        let digit: u64 = (code - 0x30) as u64;
        acc = match acc {
            Some(v) => match v.checked_mul(10) {
                Some(tens) => tens.checked_add(digit),
                None => None,
            },
            None => None,
        };
        proof {
            assert forall|j: int| 0 <= j < i + 1 implies is_digit(
                #[trigger] text@.take(i + 1)[j],
            ) by {
                if j < i {
                    assert(text@.take(i as int)[j] == text@.take(i + 1)[j]);
                }
            }
        }
        i += 1;
    }
    proof {
        assert(text@.take(n as int) =~= text@);
    }
    acc
}

} // verus!
