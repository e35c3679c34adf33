use koe::ffi::c_message;
use koe::json::{Json, JsonNumber};
use koe::proxy::connect_request;
use koe::logging::{format_clock, timestamp};
use koe::text::{decimal_string, zero_padded_string};

#[test]
fn base64_credentials() {
    let auth = |u: &str, p: &str| {
        let req = connect_request("h", 1, u, p);
        let line = req.lines().find(|l| l.starts_with("Proxy-Authorization: Basic ")).unwrap();
        line["Proxy-Authorization: Basic ".len()..].to_string()
    };
    assert_eq!(auth("f", ""), "Zjo=");
    assert_eq!(auth("fo", "o"), "Zm86bw==");
    assert_eq!(auth("user", "pass"), "dXNlcjpwYXNz");
    assert_eq!(auth("用户", "päss"), "55So5oi3OnDDpHNz");
    assert_eq!(auth("a", "bcdefg"), "YTpiY2RlZmc=");
}

#[test]
fn c_messages() {
    assert_eq!(c_message("hello"), "hello");
    assert_eq!(c_message("a\0b"), "");
    assert_eq!(c_message(""), "");
}

#[test]
fn clock_format() {
    assert_eq!(format_clock(0, 0), "00:00:00.000");
    assert_eq!(format_clock(3600 * 25 + 61, 7), "01:01:01.007");
    assert_eq!(format_clock(86399, 999), "23:59:59.999");
    let t = timestamp();
    assert_eq!(t.len(), 12);
    assert_eq!(&t[2..3], ":");
    assert_eq!(&t[8..9], ".");
}

#[test]
fn numbers() {
    assert_eq!(decimal_string(0), "0");
    assert_eq!(decimal_string(45000001), "45000001");
    assert_eq!(decimal_string(u64::MAX), "18446744073709551615");
    assert_eq!(zero_padded_string(7, 3), "007");
    assert_eq!(zero_padded_string(1234, 2), "1234");
}

#[test]
fn json_lookup() {
    let j = Json::Object(vec![
        (
            "b".to_string(),
            Json::Array(vec![
                Json::Number(JsonNumber::PosInt(1)),
                Json::Number(JsonNumber::NegInt(-2)),
                Json::Number(JsonNumber::Float("1.5".to_string())),
                Json::Str("x".to_string()),
                Json::Null,
                Json::Bool(true),
            ]),
        ),
        ("a".to_string(), Json::Object(vec![])),
        ("a".to_string(), Json::Null),
    ]);
    assert_eq!(j.get("a"), Some(&Json::Object(vec![])));
    assert_eq!(j.get("zz"), None);
    assert_eq!(j.get("b").and_then(|b| b.as_array()).map(|v| v.len()), Some(6));
    assert_eq!(Json::Str("s".into()).get("a"), None);
    assert_eq!(Json::Str("s".into()).as_str(), Some("s"));
    assert_eq!(Json::Bool(false).as_bool(), Some(false));
    assert_eq!(Json::Null.as_bool(), None);
}
