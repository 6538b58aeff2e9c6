use base64::Engine;
use nt_payments::json::{json_object, json_to_base64, text_to_base64};
use nt_payments::markdown::{encode_to_markdown, readable_key};
use nt_payments::text::{parse_u128, parse_u64, trim};

#[test]
fn readable_key_of_snake_and_camel_keys() {
    assert_eq!(readable_key("proposal_action"), "Proposal Action");
    assert_eq!(readable_key("notes"), "Notes");
    assert_eq!(readable_key("destinationNetwork"), "Destination Network");
    assert_eq!(readable_key("networkFee"), "Network Fee");
    assert_eq!(readable_key("depositAddress"), "Deposit Address");
    assert_eq!(readable_key(""), "");
    assert_eq!(readable_key("_x"), " X");
    assert_eq!(readable_key("a__b"), "A  B");
}

#[test]
fn readable_key_has_no_underscore() {
    for key in ["a_b_c", "__", "snake_caseKey", "x_"] {
        assert!(!readable_key(key).contains('_'));
    }
}

#[test]
fn markdown_single_pair() {
    assert_eq!(encode_to_markdown(&[("notes", "Rent for May")]), "* Notes: Rent for May");
}

#[test]
fn markdown_joins_and_skips_empty_values() {
    let text = encode_to_markdown(&[
        ("proposal_action", "payment-transfer"),
        ("notes", ""),
        ("recipient", "bob.near"),
        ("networkFee", ""),
    ]);
    assert_eq!(
        text,
        "* Proposal Action: payment-transfer <br>* Recipient: bob.near"
    );
}

#[test]
fn markdown_is_empty_when_all_values_are() {
    assert_eq!(encode_to_markdown(&[("notes", ""), ("recipient", "")]), "");
    assert_eq!(encode_to_markdown(&[]), "");
}

#[test]
fn json_object_matches_serde_json() {
    let mut map = serde_json::Map::new();
    map.insert("receiver_id".to_string(), serde_json::Value::String("dep\"osit\n".to_string()));
    map.insert("amount".to_string(), serde_json::Value::String("1000\u{1}é".to_string()));
    let expected = serde_json::to_string(&serde_json::Value::Object(map)).unwrap();
    let fields = vec![("amount", "1000\u{1}é"), ("receiver_id", "dep\"osit\n")];
    assert_eq!(json_object(&fields), expected);
    assert_eq!(json_object(&fields), "{\"amount\":\"1000\\u0001é\",\"receiver_id\":\"dep\\\"osit\\n\"}");
}

#[test]
fn json_to_base64_of_empty_object() {
    assert_eq!(json_to_base64(&Vec::new()), "e30=");
}

#[test]
fn json_to_base64_is_base64_of_text() {
    let fields = vec![("amount", "5"), ("receiver_id", "a.near")];
    let text = "{\"amount\":\"5\",\"receiver_id\":\"a.near\"}";
    let expected = base64::engine::general_purpose::STANDARD.encode(text.as_bytes());
    assert_eq!(json_to_base64(&fields), expected);
    assert_ne!(json_to_base64(&fields), text);
    assert_eq!(text_to_base64(text), expected);
}

#[test]
fn trim_removes_unicode_white_space() {
    assert_eq!(trim("  a b \t\n"), "a b");
    assert_eq!(trim("\u{2003}x\u{85}"), "x");
    assert_eq!(trim("   "), "");
    assert_eq!(trim(""), "");
}

#[test]
fn parse_unsigned_like_from_str() {
    assert_eq!(parse_u128("100000000000000000000000"), Some(100000000000000000000000u128));
    assert_eq!(parse_u128("+7"), Some(7));
    assert_eq!(parse_u128("+"), None);
    assert_eq!(parse_u128("-1"), None);
    assert_eq!(parse_u128(""), None);
    assert_eq!(parse_u128(" 1"), None);
    assert_eq!(parse_u128("007"), Some(7));
    assert_eq!(parse_u128("340282366920938463463374607431768211455"), Some(u128::MAX));
    assert_eq!(parse_u128("340282366920938463463374607431768211456"), None);
    assert_eq!(parse_u64("18446744073709551615"), Some(u64::MAX));
    assert_eq!(parse_u64("18446744073709551616"), None);
    for s in ["0", "12", "+99", "1x", "١"] {
        assert_eq!(parse_u128(s), s.parse::<u128>().ok());
    }
}

#[test]
fn readable_keys_are_kept() {
    assert_eq!(readable_key("Key Name"), "Key Name");
    assert_eq!(readable_key("Notes"), "Notes");
    assert_eq!(readable_key("a_B"), "A  B");
    assert_eq!(encode_to_markdown(&[("Key Name", "value")]), "* Key Name: value");
}

#[test]
fn snake_and_camel_keys_read_the_same() {
    for (w1, w2) in [("deposit", "address"), ("a", "b"), ("network", "fee")] {
        let cap = |w: &str| format!("{}{}", w[..1].to_ascii_uppercase(), &w[1..]);
        let snake = readable_key(&format!("{}_{}", w1, w2));
        let camel = readable_key(&format!("{}{}", w1, cap(w2)));
        assert_eq!(snake, camel);
        assert_eq!(snake, format!("{} {}", cap(w1), cap(w2)));
    }
}

#[test]
fn base64_pads_short_groups_and_decodes_back() {
    assert_eq!(text_to_base64(""), "");
    assert_eq!(text_to_base64("a"), "YQ==");
    assert_eq!(text_to_base64("ab"), "YWI=");
    assert_eq!(text_to_base64("abc"), "YWJj");
    assert_eq!(text_to_base64("abcd"), "YWJjZA==");
    for text in ["", "a", "ab", "abc", "{\"x\":\"é\"}"] {
        let decoded = base64::engine::general_purpose::STANDARD
            .decode(text_to_base64(text))
            .unwrap();
        assert_eq!(decoded, text.as_bytes());
    }
}
