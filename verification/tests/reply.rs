use diagnostic_console::reply::decode_reply;
use diagnostic_console::reply::parse_reply;
use diagnostic_console::status::ServerResponse;

#[test]
fn parse_plain_codes() {
    assert_eq!(parse_reply(b"0"), Some(0));
    assert_eq!(parse_reply(b"1"), Some(1));
    assert_eq!(parse_reply(b"2"), Some(2));
    assert_eq!(parse_reply(b"3"), Some(3));
    assert_eq!(parse_reply(b"42"), Some(42));
}

#[test]
fn parse_negative_codes() {
    assert_eq!(parse_reply(b"-1"), Some(-1));
    assert_eq!(parse_reply(b"-0"), Some(0));
    assert_eq!(parse_reply(b"-987654"), Some(-987654));
}

#[test]
fn parse_extreme_codes() {
    assert_eq!(parse_reply(b"2147483647"), Some(i32::MAX));
    assert_eq!(parse_reply(b"-2147483648"), Some(i32::MIN));
    assert_eq!(parse_reply(b"2147483648"), None);
    assert_eq!(parse_reply(b"-2147483649"), None);
    assert_eq!(parse_reply(b"99999999999999999999"), None);
    assert_eq!(parse_reply(b"-99999999999999999999"), None);
}

#[test]
fn parse_rejects_malformed() {
    assert_eq!(parse_reply(b""), None);
    assert_eq!(parse_reply(b"-"), None);
    assert_eq!(parse_reply(b"01"), None);
    assert_eq!(parse_reply(b"007"), None);
    assert_eq!(parse_reply(b"-01"), None);
    assert_eq!(parse_reply(b"12a"), None);
    assert_eq!(parse_reply(b" 2"), None);
    assert_eq!(parse_reply(b"2 "), None);
    assert_eq!(parse_reply(b"+2"), None);
    assert_eq!(parse_reply(b"{\"status\":2}"), None);
    assert_eq!(parse_reply(b"null"), None);
}

#[test]
fn decode_reply_valid_bodies() {
    assert_eq!(decode_reply(b"0"), ServerResponse::Idle);
    assert_eq!(decode_reply(b"1"), ServerResponse::Awake);
    assert_eq!(decode_reply(b"2"), ServerResponse::InProgress);
    assert_eq!(decode_reply(b"3"), ServerResponse::Done);
    assert_eq!(decode_reply(b"-1"), ServerResponse::Error);
    assert_eq!(decode_reply(b"4"), ServerResponse::Error);
}

#[test]
fn decode_reply_malformed_bodies() {
    assert_eq!(decode_reply(b""), ServerResponse::Error);
    assert_eq!(decode_reply(b"<html>bad gateway</html>"), ServerResponse::Error);
    assert_eq!(decode_reply(b"2147483648"), ServerResponse::Error);
}
