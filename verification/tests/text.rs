use tauri_dev_mcp::text::{decimal, parse_u16};

#[test]
fn parse_u16_reads_plain_numbers() {
    assert_eq!(parse_u16("0"), Some(0));
    assert_eq!(parse_u16("7"), Some(7));
    assert_eq!(parse_u16("3001"), Some(3001));
    assert_eq!(parse_u16("65535"), Some(65535));
}

#[test]
fn parse_u16_takes_a_plus_sign_and_leading_zeros() {
    assert_eq!(parse_u16("+80"), Some(80));
    assert_eq!(parse_u16("0080"), Some(80));
    assert_eq!(parse_u16("+0"), Some(0));
    assert_eq!(parse_u16("0000000000000000000065535"), Some(65535));
}

#[test]
fn parse_u16_refuses_what_is_no_port() {
    assert_eq!(parse_u16(""), None);
    assert_eq!(parse_u16("+"), None);
    assert_eq!(parse_u16("-"), None);
    assert_eq!(parse_u16("-1"), None);
    assert_eq!(parse_u16("-0"), None);
    assert_eq!(parse_u16("++1"), None);
    assert_eq!(parse_u16("1+"), None);
    assert_eq!(parse_u16(" 80"), None);
    assert_eq!(parse_u16("80 "), None);
    assert_eq!(parse_u16("8_0"), None);
    assert_eq!(parse_u16("80a"), None);
    assert_eq!(parse_u16("abc"), None);
    assert_eq!(parse_u16("0x50"), None);
    assert_eq!(parse_u16("٣"), None);
    assert_eq!(parse_u16("8é"), None);
}

#[test]
fn parse_u16_refuses_numbers_that_do_not_fit() {
    assert_eq!(parse_u16("65536"), None);
    assert_eq!(parse_u16("70000"), None);
    assert_eq!(parse_u16("655350"), None);
    assert_eq!(parse_u16("99999999999999999999999999"), None);
    assert_eq!(parse_u16("65536x"), None);
}

#[test]
fn parse_u16_agrees_with_the_standard_parser() {
    let samples = [
        "", "+", "-", "0", "1", "+1", "-1", "00", "+00", "65535", "65536", "+65535", "+65536",
        "6553 5", "123456", "12a", "a12", " 12", "12 ", "1_2", "+-1", "4294967296", "0.5", "1e3",
        "\t1", "１２",
    ];
    for sample in samples {
        assert_eq!(parse_u16(sample), sample.parse::<u16>().ok(), "{:?}", sample);
    }
}

#[test]
fn decimal_writes_without_leading_zeros() {
    assert_eq!(decimal(0), "0");
    assert_eq!(decimal(9), "9");
    assert_eq!(decimal(10), "10");
    assert_eq!(decimal(80), "80");
    assert_eq!(decimal(3001), "3001");
    assert_eq!(decimal(65535), "65535");
}

#[test]
fn decimal_agrees_with_the_standard_rendering_and_reads_back() {
    let mut n: u16 = 0;
    loop {
        let text = decimal(n);
        assert_eq!(text, n.to_string());
        assert_eq!(parse_u16(&text), Some(n));
        if n == u16::MAX {
            break;
        }
        n += 1;
    }
}
