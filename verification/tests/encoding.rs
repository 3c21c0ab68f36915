use hc_vault::encode::json_array;
use hc_vault::encode::json_array_string;
use hc_vault::encode::json_array_u32;
use hc_vault::encode::json_array_u64;
use hc_vault::encode::json_bool;
use hc_vault::encode::json_field;
use hc_vault::encode::json_object;
use hc_vault::encode::json_string;
use hc_vault::encode::json_u64;

#[test]
fn renders_plain_strings() {
    assert_eq!(json_string("plain"), "\"plain\"".to_string());
    assert_eq!(json_string(""), "\"\"".to_string());
    assert_eq!(json_string("with space"), "\"with space\"".to_string());
}

#[test]
fn escapes_quotes_and_backslashes() {
    assert_eq!(json_string("a\"b"), "\"a\\\"b\"".to_string());
    assert_eq!(json_string("a\\b"), "\"a\\\\b\"".to_string());
    assert_eq!(json_string("\"\\\""), "\"\\\"\\\\\\\"\"".to_string());
}

#[test]
fn escapes_control_characters() {
    assert_eq!(json_string("\n"), "\"\\u000a\"".to_string());
    assert_eq!(json_string("\t"), "\"\\u0009\"".to_string());
    assert_eq!(json_string("a\u{1f}b"), "\"a\\u001fb\"".to_string());
    // The escaped text parses back to the original string.
    let parsed: serde_json::Value = serde_json::from_str(&json_string("a\nb\t\"c\\d")).unwrap();
    assert_eq!(parsed.as_str().unwrap(), "a\nb\t\"c\\d");
}

#[test]
fn keeps_multibyte_characters() {
    assert_eq!(json_string("caf\u{e9}"), "\"caf\u{e9}\"".to_string());
    let parsed: serde_json::Value = serde_json::from_str(&json_string("\u{2603} snow")).unwrap();
    assert_eq!(parsed.as_str().unwrap(), "\u{2603} snow");
}

#[test]
fn renders_decimal_numbers() {
    assert_eq!(json_u64(0), "0".to_string());
    assert_eq!(json_u64(7), "7".to_string());
    assert_eq!(json_u64(10), "10".to_string());
    assert_eq!(json_u64(120), "120".to_string());
    assert_eq!(json_u64(18446744073709551615), "18446744073709551615".to_string());
}

#[test]
fn renders_booleans() {
    assert_eq!(json_bool(true), "true".to_string());
    assert_eq!(json_bool(false), "false".to_string());
}

#[test]
fn renders_fields_objects_and_arrays() {
    assert_eq!(json_field("key", "123"), "\"key\":123".to_string());
    assert_eq!(json_object(&Vec::new()), "{}".to_string());
    assert_eq!(json_array(&Vec::new()), "[]".to_string());

    let fields = vec![
        json_field("a", "1"),
        json_field("b", "true"),
    ];
    assert_eq!(json_object(&fields), "{\"a\":1,\"b\":true}".to_string());

    assert_eq!(json_array_u32(&vec![0, 4, 6]), "[0,4,6]".to_string());
    assert_eq!(json_array_u64(&vec![9]), "[9]".to_string());
    assert_eq!(
        json_array_string(&vec!["a".to_string(), "b\"c".to_string()]),
        "[\"a\",\"b\\\"c\"]".to_string()
    );
}

#[test]
fn request_headers_carry_token_and_marker() {
    let plain = hc_vault::request_headers("testToken", false);
    assert_eq!(plain.len(), 2);
    assert_eq!(plain[0].0, "X-Vault-Token".to_string());
    assert_eq!(plain[0].1, "testToken".to_string());
    assert_eq!(plain[1].0, "X-Vault-Request".to_string());
    assert_eq!(plain[1].1, "true".to_string());

    let with_body = hc_vault::request_headers("otherToken", true);
    assert_eq!(with_body.len(), 3);
    assert_eq!(with_body[0].1, "otherToken".to_string());
    assert_eq!(with_body[2].0, "Content-Type".to_string());
    assert_eq!(with_body[2].1, "application/json".to_string());
}
