use shanhai_client::compute::ObjectId;
use shanhai_client::crypto::Digest;
use shanhai_client::encoding::{prefixed_hex, HexError};
use shanhai_client::json::{json_debug, Json};
use shanhai_client::node::{
    base_fee, latest_number, object_id_hex, parse_config_obj, stable_block_hash, stable_number,
};
use shanhai_client::nonce::{nonce_at, session_created_at, session_created_now, NonceSource};
use shanhai_client::text::{decimal_text, parse_number, signed_text, trim_0x};

fn object(members: &[(&str, Json)]) -> Json {
    Json::Object(members.iter().map(|(k, v)| (k.to_string(), v.copy())).collect())
}

fn text(s: &str) -> Json {
    Json::Text(s.to_string())
}

#[test]
fn parse_config_obj_roundtrips_monster_table() {
    let state = br#"{"version":1,"monsters":[]}"#.to_vec();
    let obj = object(&[
        ("object_id", text("0xab")),
        ("state", text(&format!("0x{}", hex::encode(&state)))),
    ]);
    let parsed = parse_config_obj(&obj, "monster config").expect("parse");
    assert_eq!(parsed, state);
    assert!(parse_config_obj(&object(&[]), "monster config").is_err());
    assert!(parse_config_obj(&object(&[("state", text("0xzz"))]), "monster config").is_err());
}

#[test]
fn broken_config_says_what_is_wrong() {
    assert_eq!(
        parse_config_obj(&object(&[]), "monster config"),
        Err("monster config: missing state".to_string())
    );
    assert_eq!(
        parse_config_obj(&object(&[("state", Json::Unsigned(1))]), "enhance config"),
        Err("enhance config: missing state".to_string())
    );
    assert_eq!(
        parse_config_obj(&object(&[("state", text("0xzz"))]), "monster config"),
        Err("monster config: state hex decode: Invalid character 'z' at position 0".to_string())
    );
    assert_eq!(
        parse_config_obj(&object(&[("state", text("abc"))]), "monster config"),
        Err("monster config: state hex decode: Odd number of digits".to_string())
    );
    assert_eq!(HexError::InvalidLength.message(), "Invalid string length");
    assert_eq!(parse_config_obj(&object(&[("state", text("0x0xAb"))]), "x"), Ok(vec![0xab]));
}

#[test]
fn random_block_lies_two_below_the_latest() {
    assert_eq!(stable_number(0), 1);
    assert_eq!(stable_number(2), 1);
    assert_eq!(stable_number(3), 1);
    assert_eq!(stable_number(4), 2);
    assert_eq!(stable_number(u64::MAX), u64::MAX - 2);
}

#[test]
fn block_height_is_hexadecimal_text() {
    assert_eq!(latest_number(&object(&[("number", text("0x1f"))])), 31);
    assert_eq!(latest_number(&object(&[("number", text("1F"))])), 31);
    assert_eq!(latest_number(&object(&[("number", text("0x"))])), 0);
    assert_eq!(latest_number(&object(&[("number", Json::Unsigned(9))])), 0);
    assert_eq!(latest_number(&object(&[("number", text("0x10000000000000000"))])), 0);
    assert_eq!(latest_number(&object(&[("number", text("ffffffffffffffff"))])), u64::MAX);
    assert_eq!(latest_number(&Json::Null), 0);
}

#[test]
fn random_block_needs_a_full_hash() {
    let hash = format!("0x{}", "0c".repeat(32));
    assert_eq!(
        stable_block_hash(&object(&[("hash", text(&hash))]), 5),
        Ok((hash, Digest { bytes: [0x0c; 32] }))
    );
    assert_eq!(
        stable_block_hash(&Json::Null, 5),
        Err("stable block 5 not found".to_string())
    );
    assert_eq!(
        stable_block_hash(&object(&[]), 5),
        Err("stable block missing hash".to_string())
    );
    assert_eq!(
        stable_block_hash(&object(&[("hash", text("0x0g"))]), 5),
        Err("block hash hex: Invalid character 'g' at position 1".to_string())
    );
    assert_eq!(
        stable_block_hash(&object(&[("hash", text("0x0c"))]), 5),
        Err("bad block hash len".to_string())
    );
}

#[test]
fn base_fee_is_text_or_else_a_number() {
    assert_eq!(base_fee(&object(&[("base_fee", text("0x10"))])), Some(16));
    assert_eq!(
        base_fee(&object(&[("base_fee", text("?")), ("base_fee_shc", Json::Unsigned(3))])),
        Some(3)
    );
    assert_eq!(
        base_fee(&object(&[("base_fee", text("7")), ("base_fee_shc", Json::Unsigned(3))])),
        Some(7)
    );
    assert_eq!(base_fee(&object(&[("base_fee", Json::Unsigned(7))])), None);
    assert_eq!(base_fee(&object(&[("base_fee_shc", Json::Negative(-1))])), None);
    assert_eq!(base_fee(&Json::Null), None);
}

#[test]
fn objects_are_named_in_prefixed_hexadecimal() {
    let id = ObjectId(Digest { bytes: [0xa5; 32] });
    assert_eq!(object_id_hex(id), format!("0x{}", "a5".repeat(32)));
    assert_eq!(prefixed_hex(&[]), "0x");
    assert_eq!(prefixed_hex(&[0x00, 0x9f]), "0x009f");
}

#[test]
fn next_nonce_is_unique_across_calls() {
    let mut source = NonceSource::new();
    let mut seen = std::collections::HashSet::new();
    for _ in 0..10_000 {
        let n = source.next_nonce();
        assert!(seen.insert(n), "nonce {n}");
    }
}

#[test]
fn nonce_holds_the_time_above_the_running_number() {
    assert_eq!(nonce_at(1, 0), 65_536);
    assert_eq!(nonce_at(3, 5), 196_613);
    assert_eq!(nonce_at(3, 65_536 + 5), 196_613);
    assert_eq!(nonce_at(-9, 7), 7);
    assert_eq!(nonce_at(1 << 48, 7), 7);
    assert_ne!(nonce_at(3, 65_535), nonce_at(4, 0));
}

#[test]
fn nonce_follows_the_clock() {
    let before = chrono::Utc::now().timestamp_millis() as u64;
    let n = NonceSource { counter: 9 }.next_nonce();
    let after = chrono::Utc::now().timestamp_millis() as u64;
    assert!(before <= n >> 16 && n >> 16 <= after);
    assert_eq!(n & 0xffff, 9);
}

#[test]
fn running_number_starts_again_after_the_largest() {
    let mut source = NonceSource { counter: u64::MAX };
    assert_eq!(source.next_nonce() & 0xffff, 0xffff);
    assert_eq!(source.counter, 0);
}

#[test]
fn session_is_dated_two_minutes_back() {
    assert_eq!(session_created_at(1_700_000_120), 1_700_000_000);
    assert_eq!(session_created_at(121), 1);
    assert_eq!(session_created_at(122), 2);
    assert_eq!(session_created_at(0), 1);
    assert_eq!(session_created_at(i64::MIN), 1);
    let now = chrono::Utc::now().timestamp() as u64;
    let created = session_created_now();
    assert!(now - 120 <= created && created <= now - 110);
}

#[test]
fn numbers_are_written_and_read() {
    assert_eq!(decimal_text(0), "0");
    assert_eq!(decimal_text(u64::MAX), "18446744073709551615");
    assert_eq!(signed_text(-7), "-7");
    for n in [0u64, 9, 10, 10088, u64::MAX] {
        assert_eq!(parse_number(&decimal_text(n), 10, u64::MAX), Some(n));
    }
    assert_eq!(parse_number("+15", 10, u64::MAX), Some(15));
    assert_eq!(parse_number("-0", 10, u64::MAX), None);
    assert_eq!(parse_number("+", 10, u64::MAX), None);
    assert_eq!(parse_number("", 10, u64::MAX), None);
    assert_eq!(parse_number("1 ", 10, u64::MAX), None);
    assert_eq!(parse_number("18446744073709551616", 10, u64::MAX), None);
    assert_eq!(parse_number("fF", 16, u64::MAX), Some(255));
    assert_eq!(parse_number("4294967296", 10, u32::MAX as u64), None);
}

#[test]
fn every_prefix_is_removed() {
    assert_eq!(trim_0x("0x0x1"), "1");
    assert_eq!(trim_0x("00x1"), "00x1");
    assert_eq!(trim_0x("0x"), "");
    assert_eq!(trim_0x("0X1"), "0X1");
    assert_eq!(trim_0x("0"), "0");
}

#[test]
fn members_are_found_by_name() {
    let v = object(&[("a", Json::Unsigned(1)), ("b", text("x")), ("c", Json::Bool(true))]);
    assert_eq!(v.get("a").and_then(|x| x.as_u64()), Some(1));
    assert_eq!(v.get("z"), None);
    assert_eq!(v.text_member("b").unwrap(), "x");
    assert!(v.flag("c"));
    assert!(!v.flag("a"));
    assert_eq!(Json::Array(vec![Json::Null]).array_len(), Some(1));
    assert_eq!(v.array_len(), None);
    assert_eq!(text("x").get("a"), None);
    assert_eq!(Json::Bool(false).as_bool(), Some(false));
    assert_eq!(Json::Fraction("1.5".to_string()).as_u64(), None);
    let nested = Json::Array(vec![v.copy(), Json::Negative(-3), Json::Fraction("0.5".to_string())]);
    assert_eq!(nested.copy(), nested);
}

#[test]
fn values_have_compact_text() {
    let v = object(&[
        ("z", Json::Array(vec![Json::Null, Json::Bool(true), Json::Fraction("1.5".to_string())])),
        ("a", object(&[("n", Json::Unsigned(u64::MAX)), ("m", Json::Negative(i64::MIN))])),
        ("t", text("\n")),
    ]);
    assert_eq!(
        v.text(),
        r#"{"a":{"m":-9223372036854775808,"n":18446744073709551615},"t":"\n","z":[null,true,1.5]}"#
    );
    assert_eq!(Json::Fraction("half".to_string()).text(), "\"half\"");
    assert_eq!(json_debug(&None), "None");
    assert_eq!(json_debug(&Some(Json::Bool(true))), "Some(Bool(true))");
}
