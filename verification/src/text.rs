//! Numbers as text: decimal output, digit parsing, and the `0x` prefix.

use vstd::prelude::*;

verus! {

/// The decimal digit `d`, as a character.
pub open spec fn digit_char(d: int) -> char {
    ('0' as int + d) as char
}

/// `n` written in decimal, without leading zeros.
pub open spec fn decimal(n: nat) -> Seq<char>
    decreases n,
{
    if n < 10 {
        seq![digit_char(n as int)]
    } else {
        decimal(n / 10).push(digit_char((n % 10) as int))
    }
}

/// `n` written in decimal, with a minus sign where it is below zero.
pub open spec fn signed_decimal(n: int) -> Seq<char> {
    if n < 0 {
        "-"@ + decimal((-n) as nat)
    } else {
        decimal(n as nat)
    }
}

/// The value of a digit in any radix up to 36; `36` for a character that is no digit.
pub open spec fn digit_value(c: char) -> int {
    if '0' <= c <= '9' {
        c as int - '0' as int
    } else if 'a' <= c <= 'z' {
        c as int - 'a' as int + 10
    } else if 'A' <= c <= 'Z' {
        c as int - 'A' as int + 10
    } else {
        36
    }
}

/// The number that the digits `s` stand for, most significant digit first.
pub open spec fn digits_value(s: Seq<char>, radix: int) -> int
    decreases s.len(),
{
    if s.len() == 0 {
        0
    } else {
        digits_value(s.drop_last(), radix) * radix + digit_value(s.last())
    }
}

/// `s` is one or more digits of the radix.
pub open spec fn is_digits(s: Seq<char>, radix: int) -> bool {
    &&& s.len() > 0
    &&& forall|i: int| 0 <= i < s.len() ==> digit_value(#[trigger] s[i]) < radix
}

/// `s` without one leading plus sign.
pub open spec fn unsigned_part(s: Seq<char>) -> Seq<char> {
    if s.len() > 0 && s[0] == '+' {
        s.skip(1)
    } else {
        s
    }
}

/// The number that `s` reads as: an optional plus sign and then digits only,
/// of a value that is at most `max`.
pub open spec fn parsed_number(s: Seq<char>, radix: int, max: int) -> Option<int> {
    let digits = unsigned_part(s);
    if is_digits(digits, radix) && digits_value(digits, radix) <= max {
        Some(digits_value(digits, radix))
    } else {
        None
    }
}

/// `s` with every leading `0x` removed, repeatedly.
pub open spec fn without_0x(s: Seq<char>) -> Seq<char>
    decreases s.len(),
{
    if s.len() >= 2 && s[0] == '0' && s[1] == 'x' {
        without_0x(s.skip(2))
    } else {
        s
    }
}

/// A longer run of digits never reads as a smaller number.
proof fn lemma_digits_value_grows(s: Seq<char>, k: int, radix: int)
    requires
        0 <= k <= s.len(),
        radix >= 1,
    ensures
        0 <= digits_value(s.take(k), radix) <= digits_value(s, radix),
    decreases s.len(),
{
    if s.len() == 0 {
        assert(s.take(k) =~= s);
    } else {
        let front = s.drop_last();
        if k == s.len() {
            assert(s.take(k) =~= s);
            lemma_digits_value_grows(front, front.len() as int, radix);
            assert(front.take(front.len() as int) =~= front);
        } else {
            lemma_digits_value_grows(front, k, radix);
            assert(front.take(k) =~= s.take(k));
        }
        let v = digits_value(front, radix);
        assert(v * radix >= v) by (nonlinear_arith)
            requires
                v >= 0,
                radix >= 1,
        ;
    }
}

/// One decimal digit.
fn digit_text(d: u64) -> (r: &'static str)
    requires
        d < 10,
    ensures
        r@ == seq![digit_char(d as int)],
{
    proof {
        reveal_strlit("0");
        reveal_strlit("1");
        reveal_strlit("2");
        reveal_strlit("3");
        reveal_strlit("4");
        reveal_strlit("5");
        reveal_strlit("6");
        reveal_strlit("7");
        reveal_strlit("8");
        reveal_strlit("9");
    }
    match d {
        0 => "0",
        1 => "1",
        2 => "2",
        3 => "3",
        4 => "4",
        5 => "5",
        6 => "6",
        7 => "7",
        8 => "8",
        _ => "9",
    }
}

/// `n` in decimal.
pub fn decimal_text(n: u64) -> (r: String)
    ensures
        r@ == decimal(n as nat),
    decreases n,
{
    if n < 10 {
        digit_text(n).to_string()
    } else {
        let mut s = decimal_text(n / 10);
        s.append(digit_text(n % 10));
        s
    }
}

/// The value of a digit, or `36`.
fn digit_number(c: char) -> (r: u64)
    ensures
        r == digit_value(c),
{
    if '0' <= c && c <= '9' {
        c as u64 - '0' as u64
    } else if 'a' <= c && c <= 'z' {
        c as u64 - 'a' as u64 + 10
    } else if 'A' <= c && c <= 'Z' {
        c as u64 - 'A' as u64 + 10
    } else {
        36
    }
}

/// Reads an unsigned number: an optional plus sign, then digits of the radix and
/// nothing else, with a value of at most `max`.
pub fn parse_number(s: &str, radix: u64, max: u64) -> (r: Option<u64>)
    requires
        2 <= radix <= 36,
    ensures
        match r {
            Some(n) => parsed_number(s@, radix as int, max as int) == Some(n as int),
            None => parsed_number(s@, radix as int, max as int) is None,
        },
{
    let n: usize = s.unicode_len();
    let start: usize = if n > 0 && s.get_char(0) == '+' {
        1
    } else {
        0
    };
    let digits = s.substring_char(start, n);
    assert(digits@ =~= unsigned_part(s@));
    if start == n {
        return None;
    }
    let mut value: u64 = 0;
    let ghost total = digits@;
    for c in it: digits.chars()
        invariant
            it.seq() == total,
            2 <= radix <= 36,
            total == unsigned_part(s@),
            value <= max,
            value == digits_value(total.take(it.index() as int), radix as int),
            forall|i: int| 0 <= i < it.index() ==> digit_value(#[trigger] total[i]) < radix,
    {
        let d: u64 = digit_number(c);
        let ghost k = it.index() as int;
        proof {
            assert(total.take(k + 1).drop_last() =~= total.take(k));
            assert(total.take(k + 1).last() == c);
            lemma_digits_value_grows(total, k + 1, radix as int);
        }
        if d >= radix {
            return None;
        }
        if d > max || value > (max - d) / radix {
            proof {
                assert(value * radix + d > max) by (nonlinear_arith)
                    requires
                        d > max || value > (max - d) / (radix as int),
                        radix >= 2,
                        value >= 0,
                        d >= 0,
                ;
            }
            return None;
        }
        assert(value * radix + d <= max) by (nonlinear_arith)
            requires
                d <= max,
                value <= (max - d) / (radix as int),
                radix >= 2,
        ;
        value = value * radix + d;
    }
    assert(total.take(total.len() as int) =~= total);
    Some(value)
}

/// Removes every leading `0x`.
pub fn trim_0x(s: &str) -> (r: &str)
    ensures
        r@ == without_0x(s@),
{
    let n: usize = s.unicode_len();
    let mut i: usize = 0;
    assert(s@.skip(0) =~= s@);
    while n - i >= 2 && s.get_char(i) == '0' && s.get_char(i + 1) == 'x'
        invariant
            n == s@.len(),
            i <= n,
            without_0x(s@) == without_0x(s@.skip(i as int)),
        decreases n - i,
    {
        assert(s@.skip(i as int).skip(2) =~= s@.skip(i + 2));
        i = i + 2;
    }
    assert(s@.subrange(i as int, n as int) =~= s@.skip(i as int));
    s.substring_char(i, n)
}

/// `n` written in decimal, with a minus sign where it is below zero.
pub fn signed_text(n: i64) -> (r: String)
    ensures
        r@ == signed_decimal(n as int),
{
    if n < 0 {
        let magnitude: u64 = (-(n + 1)) as u64 + 1;
        let mut s = "-".to_string();
        s.append(decimal_text(magnitude).as_str());
        s
    } else {
        decimal_text(n as u64)
    }
}

/// A decimal text is a run of digits whose value is the number.
proof fn lemma_decimal_digits(n: nat)
    ensures
        is_digits(decimal(n), 10),
        digits_value(decimal(n), 10) == n,
    decreases n,
{
    let s = decimal(n);
    if n < 10 {
        assert(s.drop_last() =~= Seq::empty());
        assert(digits_value(s.drop_last(), 10) == 0);
    } else {
        lemma_decimal_digits(n / 10);
        assert(s.drop_last() =~= decimal(n / 10));
        assert forall|i: int| 0 <= i < s.len() implies digit_value(#[trigger] s[i]) < 10 by {
            if i < s.len() - 1 {
                assert(s[i] == decimal(n / 10)[i]);
            }
        }
    }
}

/// A number that is written in decimal is read back as that number.
pub proof fn law_decimal_round_trip(n: nat, max: int)
    requires
        n <= max,
    ensures
        parsed_number(decimal(n), 10, max) == Some(n as int),
{
    lemma_decimal_digits(n);
    let first = decimal(n)[0];
    assert(digit_value(first) < 10);
}

/// The k-th digit and the k-th letter have the value that their place gives them, a
/// letter in either case; no other character is a digit.
pub proof fn law_digit_values(k: int, c: char)
    ensures
        0 <= k < 10 ==> digit_value(('0' as int + k) as char) == k,
        0 <= k < 26 ==> digit_value(('a' as int + k) as char) == 10 + k,
        0 <= k < 26 ==> digit_value(('A' as int + k) as char) == 10 + k,
        !('0' <= c <= '9') && !('a' <= c <= 'z') && !('A' <= c <= 'Z') ==> digit_value(c) >= 36,
{
}

/// Digits count by their place: what stands before a run of digits is worth as many
/// powers of the radix as the run is long.
pub proof fn law_digits_count_by_place(high: Seq<char>, low: Seq<char>, radix: int)
    ensures
        digits_value(high + low, radix) == digits_value(high, radix)
            * vstd::arithmetic::power::pow(radix, low.len()) + digits_value(low, radix),
    decreases low.len(),
{
    if low.len() == 0 {
        assert(high + low =~= high);
        vstd::arithmetic::power::lemma_pow0(radix);
    } else {
        law_digits_count_by_place(high, low.drop_last(), radix);
        assert((high + low).drop_last() =~= high + low.drop_last());
        let n = (low.len() - 1) as nat;
        vstd::arithmetic::power::lemma_pow1(radix);
        vstd::arithmetic::power::lemma_pow_adds(radix, n, 1);
        let h = digits_value(high, radix);
        let l = digits_value(low.drop_last(), radix);
        let p = vstd::arithmetic::power::pow(radix, n);
        assert((h * p + l) * radix == h * (p * radix) + l * radix) by (nonlinear_arith);
    }
}

/// A number is written in digits alone, and without a leading zero unless it is zero.
pub proof fn law_decimal_has_no_leading_zero(n: nat)
    ensures
        decimal(n).len() >= 1,
        forall|i: int| 0 <= i < decimal(n).len() ==> '0' <= #[trigger] decimal(n)[i] <= '9',
        decimal(n)[0] == '0' <==> n == 0,
        digits_value(decimal(n), 10) == n,
    decreases n,
{
    lemma_decimal_digits(n);
    if n >= 10 {
        law_decimal_has_no_leading_zero(n / 10);
        let s = decimal(n);
        assert forall|i: int| 0 <= i < s.len() implies '0' <= #[trigger] s[i] <= '9' by {
            if i < s.len() - 1 {
                assert(s[i] == decimal(n / 10)[i]);
            }
        }
        assert(s[0] == decimal(n / 10)[0]);
    }
}

/// A number below zero is written as its magnitude behind a minus sign.
pub proof fn law_signed_decimal(n: nat)
    ensures
        signed_decimal(n as int) == decimal(n),
        n > 0 ==> signed_decimal(-n).len() == 1 + decimal(n).len() && signed_decimal(-n)[0] == '-'
            && signed_decimal(-n).skip(1) == decimal(n),
{
    reveal_strlit("-");
    if n > 0 {
        assert(signed_decimal(-n).skip(1) =~= decimal(n));
    }
}

/// A run of digits is read as its value, with or without one plus sign before it, as long
/// as the value is within bounds.
pub proof fn law_digits_are_read(digits: Seq<char>, radix: int, max: int)
    requires
        digits.len() > 0,
        radix <= 36,
        forall|i: int| 0 <= i < digits.len() ==> digit_value(#[trigger] digits[i]) < radix,
    ensures
        digits_value(digits, radix) <= max ==> parsed_number(digits, radix, max) == Some(
            digits_value(digits, radix),
        ),
        digits_value(digits, radix) > max ==> parsed_number(digits, radix, max) is None,
        parsed_number(seq!['+'] + digits, radix, max) == parsed_number(digits, radix, max),
{
    assert(digit_value(digits[0]) < radix);
    assert((seq!['+'] + digits).skip(1) =~= digits);
}

/// Nothing, a plus sign alone, and a text with any other character in it are not read.
pub proof fn law_other_texts_are_not_read(s: Seq<char>, i: int, radix: int, max: int)
    requires
        s.len() == 0 || s == seq!['+'] || (0 <= i < s.len() && digit_value(s[i]) >= radix && (i > 0
            || s[i] != '+')),
    ensures
        parsed_number(s, radix, max) is None,
{
    if 0 <= i < s.len() && s[0] == '+' && i > 0 {
        assert(s.skip(1)[i - 1] == s[i]);
    }
}

/// A prefix `0x` comes off, however often it stands there; a text without one stays.
pub proof fn law_prefixes_come_off(s: Seq<char>)
    ensures
        without_0x(seq!['0', 'x'] + s) == without_0x(s),
        s.len() < 2 || s[0] != '0' || s[1] != 'x' ==> without_0x(s) == s,
{
    assert((seq!['0', 'x'] + s).skip(2) =~= s);
}

} // verus!
