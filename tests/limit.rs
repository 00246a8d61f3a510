use libdocker_rl::err::ExitCode;
use libdocker_rl::limit::{limit_from_headers, limit_status, parse_header, Limit};
use libdocker_rl::number::{parse_decimal, NumberError};

fn parse_err(value: Option<&[u8]>) -> (String, ExitCode) {
    let e = parse_header(value).unwrap_err();
    (e.msg, e.ret)
}

#[test]
fn header_truncated_at_semicolon() {
    assert_eq!(parse_header(Some(b"100;w=21600")).unwrap(), 100);
}

#[test]
fn header_plain_number() {
    assert_eq!(parse_header(Some(b"42")).unwrap(), 42);
    assert_eq!(parse_header(Some(b"+7;w=1")).unwrap(), 7);
    assert_eq!(parse_header(Some(b"0")).unwrap(), 0);
}

#[test]
fn header_largest_value() {
    let text = usize::MAX.to_string();
    assert_eq!(parse_header(Some(text.as_bytes())).unwrap(), usize::MAX);
}

#[test]
fn header_missing() {
    assert_eq!(parse_err(None), ("error parsing rate limit".to_string(), ExitCode::Parsing));
}

#[test]
fn header_not_text() {
    assert_eq!(
        parse_err(Some(&[49, 0x80])),
        ("error parsing rate limit: failed to convert header to a str".to_string(), ExitCode::Parsing)
    );
    assert_eq!(
        parse_err(Some(&[49, 10])).0,
        "error parsing rate limit: failed to convert header to a str"
    );
}

#[test]
fn header_tab_is_text_but_no_digit() {
    assert_eq!(parse_err(Some(b"\t1")).0, "error parsing rate limit: invalid digit found in string");
}

#[test]
fn header_empty_field() {
    assert_eq!(
        parse_err(Some(b";w=21600")),
        ("error parsing rate limit: cannot parse integer from empty string".to_string(), ExitCode::Parsing)
    );
    assert_eq!(parse_err(Some(b"")).0, "error parsing rate limit: cannot parse integer from empty string");
}

#[test]
fn header_invalid_digit() {
    assert_eq!(parse_err(Some(b"abc")).0, "error parsing rate limit: invalid digit found in string");
    assert_eq!(parse_err(Some(b"+")).0, "error parsing rate limit: invalid digit found in string");
    assert_eq!(parse_err(Some(b"-5")).0, "error parsing rate limit: invalid digit found in string");
    assert_eq!(parse_err(Some(b" 5")).0, "error parsing rate limit: invalid digit found in string");
}

#[test]
fn header_too_large() {
    assert_eq!(
        parse_err(Some(b"99999999999999999999999x")).0,
        "error parsing rate limit: number too large to fit in target type"
    );
}

#[test]
fn decimal_agrees_with_std() {
    let cases: [&str; 14] = [
        "", "+", "-", "0", "+0", "00012", "12a", "a12", "-0", "18446744073709551615",
        "18446744073709551616", "99999999999999999999x", "1 ", "+-1",
    ];
    for s in cases {
        let ours = parse_decimal(s.as_bytes());
        let std_result = s.parse::<usize>();
        match (ours, std_result) {
            (Ok(a), Ok(b)) => assert_eq!(a, b, "{:?}", s),
            (Err(a), Err(b)) => assert_eq!(a.text(), b.to_string(), "{:?}", s),
            (a, b) => panic!("{:?}: {:?} against {:?}", s, a, b),
        }
    }
}

#[test]
fn decimal_errors() {
    assert_eq!(parse_decimal(b""), Err(NumberError::Empty));
    assert_eq!(parse_decimal(b"x"), Err(NumberError::InvalidDigit));
    assert_eq!(parse_decimal(b"999999999999999999999"), Err(NumberError::TooLarge));
    assert_eq!(parse_decimal(b"12345"), Ok(12345));
}

#[test]
fn limit_from_both_headers() {
    let l = limit_from_headers(Some(b"100;w=21600"), Some(b"97;w=21600")).unwrap();
    assert_eq!(l, Limit { remaining: 97, total: 100 });
}

#[test]
fn limit_total_read_first() {
    let e = limit_from_headers(None, Some(b"x")).unwrap_err();
    assert_eq!(e.msg, "error parsing rate limit");
    assert_eq!(e.ret, ExitCode::Parsing);
    let e = limit_from_headers(Some(b"x"), None).unwrap_err();
    assert_eq!(e.msg, "error parsing rate limit: invalid digit found in string");
}

#[test]
fn limit_remaining_missing() {
    let e = limit_from_headers(Some(b"100"), None).unwrap_err();
    assert_eq!(e.msg, "error parsing rate limit");
    assert_eq!(e.ret, ExitCode::Parsing);
}

#[test]
fn limit_text() {
    assert_eq!(Limit { remaining: 97, total: 100 }.text(), "97/100");
    assert_eq!(Limit { remaining: 0, total: 0 }.text(), "0/0");
    assert_eq!(Limit::default().text(), "0/0");
}

#[test]
fn limit_status_ok() {
    assert!(limit_status(200, Some("OK")).is_ok());
}

#[test]
fn limit_status_over_limit() {
    let e = limit_status(429, Some("Too Many Requests")).unwrap_err();
    assert_eq!(e.msg, "over limit");
    assert_eq!(e.ret, ExitCode::OverLimit);
}

#[test]
fn limit_status_other() {
    let e = limit_status(500, Some("Internal Server Error")).unwrap_err();
    assert_eq!(e.msg, "error connecting to docker.io: 500 Internal Server Error");
    assert_eq!(e.ret, ExitCode::Connection);
    let e = limit_status(599, None).unwrap_err();
    assert_eq!(e.msg, "error connecting to docker.io: 599 <unknown status code>");
}
