//! Reading a node's answers: blocks, the base fee, and configuration objects.

use crate::compute::ObjectId;
use crate::crypto::Digest;
use crate::encoding;
use crate::json::{Json, JsonView};
use crate::text;
use crate::text::{decimal_text, parse_number, trim_0x};
use vstd::prelude::*;
use vstd::utf8;

verus! {

/// How many blocks behind the latest one the random block lies.
pub const STABLE_DEPTH: u64 = 2;

/// A result that holds bytes, mathematically.
pub open spec fn bytes_result_view(r: Result<Vec<u8>, String>) -> Result<Seq<u8>, Seq<char>> {
    match r {
        Ok(b) => Ok(b@),
        Err(e) => Err(e@),
    }
}

/// The hexadecimal number that a text reads as once its prefix is removed.
pub open spec fn hex_number(s: Seq<char>) -> Option<u64> {
    match text::parsed_number(text::without_0x(s), 16, u64::MAX as int) {
        Some(n) => Some(n as u64),
        None => None,
    }
}

/// The hexadecimal number that a member holds as text.
pub open spec fn hex_member(v: JsonView, name: Seq<char>) -> Option<u64> {
    match v.text_member(name) {
        Some(s) => hex_number(s),
        None => None,
    }
}

/// The height that a block states; zero where it states none.
pub open spec fn block_number(block: JsonView) -> u64 {
    match hex_member(block, "number"@) {
        Some(n) => n,
        None => 0,
    }
}

/// The height of the block that a random number is taken from: two below the latest,
/// and at least one.
pub open spec fn stable_number_of(latest: u64) -> u64 {
    if latest - STABLE_DEPTH > 1 {
        (latest - STABLE_DEPTH) as u64
    } else {
        1
    }
}

/// The hash of the random block, as text and as bytes, or why there is none.
pub open spec fn stable_hash_of(block: JsonView, number: u64) -> Result<
    (Seq<char>, Seq<u8>),
    Seq<char>,
> {
    if block == JsonView::Null {
        Err("stable block "@ + text::decimal(number as nat) + " not found"@)
    } else {
        match block.text_member("hash"@) {
            None => Err("stable block missing hash"@),
            Some(hash) => match encoding::hex_decoded(utf8::encode_utf8(text::without_0x(hash))) {
                Err(e) => Err("block hash hex: "@ + encoding::hex_error_text(e)),
                Ok(bytes) => if bytes.len() == 32 {
                    Ok((hash, bytes))
                } else {
                    Err("bad block hash len"@)
                },
            },
        }
    }
}

/// The base fee that a gas price answer states: `base_fee` as hexadecimal text if it
/// reads as such, else the number `base_fee_shc`.
pub open spec fn base_fee_of(answer: JsonView) -> Option<u64> {
    match hex_member(answer, "base_fee"@) {
        Some(n) => Some(n),
        None => match answer.get("base_fee_shc"@) {
            Some(v) => v.as_u64(),
            None => None,
        },
    }
}

/// The bytes of a configuration object's state, or why they cannot be had. `what`
/// names the object in the message.
pub open spec fn config_bytes(object: JsonView, what: Seq<char>) -> Result<Seq<u8>, Seq<char>> {
    match object.text_member("state"@) {
        None => Err(what + ": missing state"@),
        Some(state) => match encoding::hex_decoded(utf8::encode_utf8(text::without_0x(state))) {
            Ok(bytes) => Ok(bytes),
            Err(e) => Err(what + ": state hex decode: "@ + encoding::hex_error_text(e)),
        },
    }
}

/// The hexadecimal number that a member holds as text.
fn hex_text_member(v: &Json, name: &str) -> (r: Option<u64>)
    ensures
        r == hex_member(v@, name@),
{
    match v.text_member(name) {
        Some(s) => parse_number(trim_0x(s.as_str()), 16, u64::MAX),
        None => None,
    }
}

/// The height that a block states; zero where it states none.
pub fn latest_number(block: &Json) -> (r: u64)
    ensures
        r == block_number(block@),
{
    match hex_text_member(block, "number") {
        Some(n) => n,
        None => 0,
    }
}

/// The height of the block that a random number is taken from.
pub fn stable_number(latest: u64) -> (r: u64)
    ensures
        r == stable_number_of(latest),
{
    if latest > STABLE_DEPTH + 1 {
        latest - STABLE_DEPTH
    } else {
        1
    }
}

/// The hash of the random block, as text and as bytes.
pub fn stable_block_hash(block: &Json, number: u64) -> (r: Result<(String, Digest), String>)
    ensures
        match r {
            Ok(h) => stable_hash_of(block@, number) == Ok::<(Seq<char>, Seq<u8>), Seq<char>>(
                (h.0@, h.1@),
            ),
            Err(e) => stable_hash_of(block@, number) == Err::<(Seq<char>, Seq<u8>), Seq<char>>(e@),
        },
{
    if block.is_null() {
        let mut e = "stable block ".to_string();
        e.append(decimal_text(number).as_str());
        e.append(" not found");
        return Err(e);
    }
    match block.text_member("hash") {
        None => Err("stable block missing hash".to_string()),
        Some(hash) => match encoding::hex_bytes(trim_0x(hash.as_str()).as_bytes()) {
            Err(e) => {
                let mut s = "block hash hex: ".to_string();
                s.append(e.message().as_str());
                Err(s)
            },
            Ok(bytes) => match Digest::from_slice(bytes.as_slice()) {
                Some(digest) => Ok((hash.clone(), digest)),
                None => Err("bad block hash len".to_string()),
            },
        },
    }
}

/// The base fee that a gas price answer states.
pub fn base_fee(answer: &Json) -> (r: Option<u64>)
    ensures
        r == base_fee_of(answer@),
{
    match hex_text_member(answer, "base_fee") {
        Some(n) => Some(n),
        None => match answer.get("base_fee_shc") {
            Some(v) => v.as_u64(),
            None => None,
        },
    }
}

/// The bytes of a configuration object's state. A broken object is an error: to fall
/// back on a default would make local results differ from those of the chain.
pub fn parse_config_obj(object: &Json, what: &str) -> (r: Result<Vec<u8>, String>)
    ensures
        bytes_result_view(r) == config_bytes(object@, what@),
{
    match object.text_member("state") {
        None => {
            let mut e = what.to_string();
            e.append(": missing state");
            Err(e)
        },
        Some(state) => match encoding::hex_bytes(trim_0x(state.as_str()).as_bytes()) {
            Ok(bytes) => Ok(bytes),
            Err(e) => {
                let mut s = what.to_string();
                s.append(": state hex decode: ");
                s.append(e.message().as_str());
                Err(s)
            },
        },
    }
}

/// The name under which a node looks an object up.
pub fn object_id_hex(id: ObjectId) -> (r: String)
    ensures
        r@ == encoding::prefixed_hex_of(id@),
{
    encoding::prefixed_hex(&id.0.bytes)
}

/// A configuration object whose state is the prefixed hexadecimal text of some bytes
/// is read back as exactly those bytes.
pub proof fn law_config_round_trip(object: JsonView, what: Seq<char>, data: Seq<u8>)
    requires
        object.text_member("state"@) == Some(encoding::prefixed_hex_of(data)),
    ensures
        config_bytes(object, what) == Ok::<Seq<u8>, Seq<char>>(data),
{
    encoding::law_prefix_is_removed_once(data);
    encoding::law_hex_round_trip(data);
}

/// The random block is never the latest one on a chain of more than one block, and is
/// never below height one.
pub proof fn law_random_block_is_settled(latest: u64)
    ensures
        stable_number_of(latest) >= 1,
        latest >= 3 ==> stable_number_of(latest) + STABLE_DEPTH == latest,
        latest >= 2 ==> stable_number_of(latest) < latest,
{
}

/// A block whose hash is the prefixed hexadecimal text of 32 bytes is taken with exactly
/// that text and exactly those bytes, every one of them.
pub proof fn law_block_hash_round_trip(block: JsonView, number: u64, data: Seq<u8>)
    requires
        block.text_member("hash"@) == Some(encoding::prefixed_hex_of(data)),
        data.len() == 32,
    ensures
        stable_hash_of(block, number) == Ok::<(Seq<char>, Seq<u8>), Seq<char>>(
            (encoding::prefixed_hex_of(data), data),
        ),
{
    encoding::law_prefix_is_removed_once(data);
    encoding::law_hex_round_trip(data);
}

/// A block is taken exactly where it states a hash that decodes to 32 bytes. Then the text
/// is the block's own, and the bytes are what it decodes to.
pub proof fn law_block_hash_is_the_blocks(block: JsonView, number: u64)
    ensures
        match stable_hash_of(block, number) {
            Ok((hash, digest)) => {
                &&& block != JsonView::Null
                &&& block.text_member("hash"@) == Some(hash)
                &&& digest.len() == 32
                &&& encoding::hex_decoded(utf8::encode_utf8(text::without_0x(hash))) == Ok::<
                    Seq<u8>,
                    encoding::HexError,
                >(digest)
            },
            Err(e) => match block.text_member("hash"@) {
                Some(hash) => match encoding::hex_decoded(
                    utf8::encode_utf8(text::without_0x(hash)),
                ) {
                    Ok(bytes) => bytes.len() != 32 && e == "bad block hash len"@,
                    Err(cause) => e == "block hash hex: "@ + encoding::hex_error_text(cause),
                },
                None => if block == JsonView::Null {
                    e == "stable block "@ + text::decimal(number as nat) + " not found"@
                } else {
                    e == "stable block missing hash"@
                },
            },
        },
{
}

/// Different hashes lead to different digests.
pub proof fn law_different_hashes_give_different_digests(
    first: JsonView,
    second: JsonView,
    number: u64,
    a: Seq<u8>,
    b: Seq<u8>,
)
    requires
        first.text_member("hash"@) == Some(encoding::prefixed_hex_of(a)),
        second.text_member("hash"@) == Some(encoding::prefixed_hex_of(b)),
        a.len() == 32,
        b.len() == 32,
        a != b,
    ensures
        stable_hash_of(first, number)->Ok_0.1 != stable_hash_of(second, number)->Ok_0.1,
{
    law_block_hash_round_trip(first, number, a);
    law_block_hash_round_trip(second, number, b);
}

/// A run of hexadecimal digits behind `0x` is read as its value where that fits 64 bits,
/// and is not read where it does not.
pub proof fn law_hexadecimal_numbers_are_read(digits: Seq<char>)
    requires
        digits.len() > 0,
        forall|i: int| 0 <= i < digits.len() ==> text::digit_value(#[trigger] digits[i]) < 16,
    ensures
        text::digits_value(digits, 16) <= u64::MAX ==> (hex_number("0x"@ + digits) matches Some(n)
            && n == text::digits_value(digits, 16)),
        text::digits_value(digits, 16) > u64::MAX ==> hex_number("0x"@ + digits) is None,
        hex_number(digits) == hex_number("0x"@ + digits),
{
    reveal_strlit("0x");
    assert("0x"@ =~= seq!['0', 'x']);
    assert(text::digit_value(digits[0]) < 16);
    if digits.len() > 1 {
        assert(text::digit_value(digits[1]) < 16);
    }
    text::law_prefixes_come_off(digits);
    text::law_digits_are_read(digits, 16, u64::MAX as int);
    lemma_digits_are_not_negative(digits);
}

/// The value of hexadecimal digits is not below zero.
proof fn lemma_digits_are_not_negative(digits: Seq<char>)
    ensures
        text::digits_value(digits, 16) >= 0,
    decreases digits.len(),
{
    if digits.len() > 0 {
        lemma_digits_are_not_negative(digits.drop_last());
    }
}

/// A block's height is the hexadecimal number that its `number` holds as text, and zero
/// where that is missing or cannot be read.
pub proof fn law_height_is_what_the_block_states(block: JsonView, s: Seq<char>, n: u64)
    ensures
        block.text_member("number"@) == Some(s) && hex_number(s) == Some(n) ==> block_number(block)
            == n,
        block.text_member("number"@) == Some(s) && hex_number(s) is None ==> block_number(block)
            == 0,
        block.text_member("number"@) is None ==> block_number(block) == 0,
{
}

/// The random block lies exactly two below the latest, and is the first block where the
/// chain is too short for that.
pub proof fn law_random_block_is_two_below(latest: u64)
    ensures
        latest >= 3 ==> stable_number_of(latest) == latest - 2,
        latest < 3 ==> stable_number_of(latest) == 1,
{
}

/// The base fee is the hexadecimal text `base_fee` where that can be read, else the number
/// `base_fee_shc`; without either there is none.
pub proof fn law_base_fee_is_what_the_node_states(answer: JsonView, s: Seq<char>, n: u64)
    ensures
        answer.text_member("base_fee"@) == Some(s) && hex_number(s) == Some(n) ==> base_fee_of(
            answer,
        ) == Some(n),
        (answer.text_member("base_fee"@) is None || hex_number(
            answer.text_member("base_fee"@)->0,
        ) is None) ==> {
            &&& answer.get("base_fee_shc"@) == Some(JsonView::Unsigned(n)) ==> base_fee_of(answer)
                == Some(n)
            &&& !(answer.get("base_fee_shc"@) is Some && answer.get("base_fee_shc"@)->0
                is Unsigned) ==> base_fee_of(answer) is None
        },
{
}

/// A table's bytes are what its state decodes to, all of them; a table without a state, or
/// with one that does not decode, is an error that names the table and what is wrong.
pub proof fn law_table_is_what_its_state_decodes_to(object: JsonView, what: Seq<char>)
    ensures
        match config_bytes(object, what) {
            Ok(bytes) => {
                &&& object.text_member("state"@) is Some
                &&& encoding::hex_decoded(
                    utf8::encode_utf8(text::without_0x(object.text_member("state"@)->0)),
                ) == Ok::<Seq<u8>, encoding::HexError>(bytes)
            },
            Err(e) => match object.text_member("state"@) {
                None => e == what + ": missing state"@,
                Some(state) => encoding::hex_decoded(
                    utf8::encode_utf8(text::without_0x(state)),
                ) matches Err(cause) && e == what + ": state hex decode: "@
                    + encoding::hex_error_text(cause),
            },
        },
{
}

/// What is left of a text once its prefixes are off is read as a hexadecimal number as a
/// whole or not at all: nothing left, a plus sign alone, or any character that is no
/// hexadecimal digit makes it unreadable.
pub proof fn law_other_texts_are_no_hexadecimal_numbers(s: Seq<char>, i: int)
    ensures
        ({
            let left = text::without_0x(s);
            left.len() == 0 || left == seq!['+'] || (0 <= i < left.len() && text::digit_value(
                left[i],
            ) >= 16 && (i > 0 || left[i] != '+'))
        }) ==> hex_number(s) is None,
        text::parsed_number(text::without_0x(s), 16, u64::MAX as int) matches Some(n) ==> (0 <= n
            <= u64::MAX ==> (hex_number(s) matches Some(m) && m == n)),
{
    let left = text::without_0x(s);
    if left.len() == 0 || left == seq!['+'] || (0 <= i < left.len() && text::digit_value(left[i])
        >= 16 && (i > 0 || left[i] != '+')) {
        text::law_other_texts_are_not_read(left, i, 16, u64::MAX as int);
    }
}

} // verus!
