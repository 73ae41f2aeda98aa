//! Hexadecimal text of byte strings.

use crate::text;
use vstd::prelude::*;
use vstd::utf8;

verus! {

/// Why a byte string is not hexadecimal text.
#[derive(Clone, Copy, Debug, PartialEq, Eq, Structural)]
pub enum HexError {
    /// The byte at `index`, shown as the character `c`, is no hexadecimal digit.
    InvalidCharacter { c: char, index: usize },
    /// The number of digits is odd.
    OddLength,
    /// The number of digits does not fit a container of fixed size.
    InvalidLength,
}

/// The lower-case hexadecimal digit of value `d`.
pub open spec fn hex_digit(d: int) -> char {
    if d < 10 {
        text::digit_char(d)
    } else {
        ('a' as int + d - 10) as char
    }
}

/// Two lower-case digits for each byte, the high half first.
pub open spec fn hex_of(data: Seq<u8>) -> Seq<char> {
    Seq::new(
        2 * data.len(),
        |i: int|
            if i % 2 == 0 {
                hex_digit(data[i / 2] as int / 16)
            } else {
                hex_digit(data[i / 2] as int % 16)
            },
    )
}

/// `0x` and then the digits.
pub open spec fn prefixed_hex_of(data: Seq<u8>) -> Seq<char> {
    "0x"@ + hex_of(data)
}

/// The value of an ASCII hexadecimal digit of either case; `16` for any other byte.
pub open spec fn hex_value(b: u8) -> int {
    if 0x30 <= b <= 0x39 {
        b - 0x30
    } else if 0x61 <= b <= 0x66 {
        b - 0x61 + 10
    } else if 0x41 <= b <= 0x46 {
        b - 0x41 + 10
    } else {
        16
    }
}

/// The first index from `k` on whose byte is no digit; the length if there is none.
pub open spec fn bad_digit_from(s: Seq<u8>, k: int) -> int
    decreases s.len() - k,
{
    if k >= s.len() || hex_value(s[k]) >= 16 {
        k
    } else {
        bad_digit_from(s, k + 1)
    }
}

/// The bytes that pairs of digits stand for.
pub open spec fn unhex(s: Seq<u8>) -> Seq<u8> {
    Seq::new(s.len() / 2, |i: int| (16 * hex_value(s[2 * i]) + hex_value(s[2 * i + 1])) as u8)
}

/// What hexadecimal text decodes to: an odd length is refused first, then the
/// first byte that is no digit.
pub open spec fn hex_decoded(s: Seq<u8>) -> Result<Seq<u8>, HexError> {
    let bad = bad_digit_from(s, 0);
    if s.len() % 2 != 0 {
        Err(HexError::OddLength)
    } else if bad < s.len() {
        Err(HexError::InvalidCharacter { c: s[bad] as char, index: bad as usize })
    } else {
        Ok(unhex(s))
    }
}

/// What `{:?}` shows for a character.
pub uninterp spec fn char_debug_of(c: char) -> Seq<char>;

/// The message of a decoding error.
pub open spec fn hex_error_text(e: HexError) -> Seq<char> {
    match e {
        HexError::InvalidCharacter { c, index } => "Invalid character "@ + char_debug_of(c)
            + " at position "@ + text::decimal(index as nat),
        HexError::OddLength => "Odd number of digits"@,
        HexError::InvalidLength => "Invalid string length"@,
    }
}

/// Calls `hex::encode`. Claims that the result is two lower-case digits for each
/// byte, in order.
#[verifier::external_body]
pub(crate) fn hex_text(data: &[u8]) -> (r: String)
    ensures
        r@ == hex_of(data@),
{
    hex::encode(data)
}

/// Calls `hex::decode`. Claims that text of odd length is refused as such, that
/// otherwise the first byte that is no digit is reported with its index, and that
/// text without such a byte gives one byte for each pair of digits.
#[verifier::external_body]
pub(crate) fn hex_bytes(data: &[u8]) -> (r: Result<Vec<u8>, HexError>)
    ensures
        r is Ok ==> hex_decoded(data@) == Ok::<Seq<u8>, HexError>(r->Ok_0@),
        r is Err ==> hex_decoded(data@) == Err::<Seq<u8>, HexError>(r->Err_0),
{
    match hex::decode(data) {
        Ok(bytes) => Ok(bytes),
        Err(hex::FromHexError::InvalidHexCharacter { c, index }) => {
            Err(HexError::InvalidCharacter { c, index })
        },
        Err(hex::FromHexError::OddLength) => Err(HexError::OddLength),
        Err(hex::FromHexError::InvalidStringLength) => Err(HexError::InvalidLength),
    }
}

/// Formats a character with the `{:?}` of std. Claims only that the text depends
/// on the character alone.
#[verifier::external_body]
fn char_debug(c: char) -> (r: String)
    ensures
        r@ == char_debug_of(c),
{
    format!("{:?}", c)
}

impl HexError {
    /// The message that is shown for the error.
    pub fn message(&self) -> (r: String)
        ensures
            r@ == hex_error_text(*self),
    {
        match self {
            HexError::InvalidCharacter { c, index } => {
                let mut s = "Invalid character ".to_string();
                s.append(char_debug(*c).as_str());
                s.append(" at position ");
                s.append(text::decimal_text(*index as u64).as_str());
                s
            },
            HexError::OddLength => "Odd number of digits".to_string(),
            HexError::InvalidLength => "Invalid string length".to_string(),
        }
    }
}

/// `0x` and the digits of `data`.
pub fn prefixed_hex(data: &[u8]) -> (r: String)
    ensures
        r@ == prefixed_hex_of(data@),
{
    let mut s = "0x".to_string();
    s.append(hex_text(data).as_str());
    s
}

/// Where every byte from `k` on is a digit, none is reported.
proof fn lemma_no_bad_digit(s: Seq<u8>, k: int)
    requires
        0 <= k <= s.len(),
        forall|i: int| k <= i < s.len() ==> hex_value(#[trigger] s[i]) < 16,
    ensures
        bad_digit_from(s, k) == s.len(),
    decreases s.len() - k,
{
    if k < s.len() {
        lemma_no_bad_digit(s, k + 1);
    }
}

/// Hexadecimal text of any bytes decodes to those bytes.
pub proof fn law_hex_round_trip(data: Seq<u8>)
    ensures
        hex_decoded(utf8::encode_utf8(hex_of(data))) == Ok::<Seq<u8>, HexError>(data),
{
    let t = hex_of(data);
    assert(utf8::is_ascii_chars(t)) by {
        assert forall|i: int| 0 <= i < t.len() implies '\0' <= #[trigger] t[i] <= '\u{7f}' by {
            let d = data[i / 2] as int;
        }
    }
    utf8::is_ascii_chars_encode_utf8(t);
    let e = utf8::encode_utf8(t);
    assert forall|i: int| 0 <= i < e.len() implies hex_value(#[trigger] e[i]) < 16 by {
        assert(e[i] == t[i] as u8);
        let d = data[i / 2] as int;
    }
    lemma_no_bad_digit(e, 0);
    assert(unhex(e) =~= data) by {
        assert forall|i: int| 0 <= i < data.len() implies #[trigger] unhex(e)[i] == data[i] by {
            assert((2 * i) / 2 == i && (2 * i + 1) / 2 == i);
            assert(e[2 * i] == t[2 * i] as u8);
            assert(e[2 * i + 1] == t[2 * i + 1] as u8);
        }
    }
}

/// Removing the prefix from prefixed hexadecimal text leaves exactly the digits.
pub proof fn law_prefix_is_removed_once(data: Seq<u8>)
    ensures
        text::without_0x(prefixed_hex_of(data)) == hex_of(data),
{
    reveal_strlit("0x");
    let t = prefixed_hex_of(data);
    assert(t.skip(2) =~= hex_of(data));
    if data.len() > 0 {
        assert(hex_of(data)[1] == hex_digit(data[0] as int % 16));
    }
    assert(text::without_0x(t) == text::without_0x(t.skip(2)));
}

/// Each byte is written in two digits, of which the first counts sixteen, in small
/// letters.
pub proof fn law_hex_digits_of_a_byte(data: Seq<u8>, i: int)
    requires
        0 <= i < data.len(),
    ensures
        hex_of(data).len() == 2 * data.len(),
        16 * text::digit_value(hex_of(data)[2 * i]) + text::digit_value(hex_of(data)[2 * i + 1])
            == data[i],
        !('A' <= hex_of(data)[2 * i] <= 'Z'),
        !('A' <= hex_of(data)[2 * i + 1] <= 'Z'),
{
    assert((2 * i) / 2 == i && (2 * i + 1) / 2 == i);
    let high = data[i] as int / 16;
    let low = data[i] as int % 16;
    assert(hex_of(data)[2 * i] == hex_digit(high));
    assert(hex_of(data)[2 * i + 1] == hex_digit(low));
    assert(data[i] as int == 16 * high + low);
}

/// Prefixed hexadecimal text is `0x` and then the digits.
pub proof fn law_prefix_stands_before_the_digits(data: Seq<u8>)
    ensures
        prefixed_hex_of(data).len() == 2 + 2 * data.len(),
        prefixed_hex_of(data)[0] == '0',
        prefixed_hex_of(data)[1] == 'x',
        prefixed_hex_of(data).skip(2) == hex_of(data),
{
    reveal_strlit("0x");
    assert(prefixed_hex_of(data).skip(2) =~= hex_of(data));
}

/// Different bytes have different names.
pub proof fn law_names_of_different_bytes_differ(a: Seq<u8>, b: Seq<u8>)
    requires
        a != b,
    ensures
        hex_of(a) != hex_of(b),
        prefixed_hex_of(a) != prefixed_hex_of(b),
{
    law_hex_round_trip(a);
    law_hex_round_trip(b);
    law_prefix_is_removed_once(a);
    law_prefix_is_removed_once(b);
}

/// The message of a decoding error names what is wrong: the character and its place, or
/// the count of digits.
pub proof fn law_decoding_error_says_what_is_wrong(c: char, index: usize)
    ensures
        hex_error_text(HexError::InvalidCharacter { c, index }) == "Invalid character "@
            + char_debug_of(c) + " at position "@ + text::decimal(index as nat),
        hex_error_text(HexError::OddLength) == "Odd number of digits"@,
        hex_error_text(HexError::InvalidLength) == "Invalid string length"@,
{
}

} // verus!
