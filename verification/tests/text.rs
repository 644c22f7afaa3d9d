use clamav_rs::text::{c_string, decode, decode_valid, push_decimal};

#[test]
fn c_string_appends_the_terminator() {
    assert_eq!(c_string("test_data/database/"), Some(b"test_data/database/\0".to_vec()));
    assert_eq!(c_string(""), Some(vec![0]));
    assert_eq!(c_string("é"), Some(vec![0xc3, 0xa9, 0]));
}

#[test]
fn c_string_refuses_a_zero_byte() {
    assert_eq!(c_string("a\0b"), None);
    assert_eq!(c_string("\0"), None);
    assert_eq!(c_string("ab\0"), None);
}

#[test]
fn decode_reads_valid_text() {
    assert_eq!(decode(b"naughty_file.UNOFFICIAL"), Some("naughty_file.UNOFFICIAL".to_string()));
    assert_eq!(decode(b""), Some(String::new()));
    assert_eq!(decode(&[0xc3, 0xa9]), Some("é".to_string()));
    assert_eq!(decode_valid(b"/var/lib/clamav"), "/var/lib/clamav");
}

#[test]
fn decode_refuses_malformed_text() {
    assert_eq!(decode(&[0xff]), None);
    assert_eq!(decode(&[b'a', 0xc3]), None);
    assert_eq!(decode(&[0xed, 0xa0, 0x80]), None);
}

#[test]
fn decimal_text_of_numbers() {
    let render = |n: u32| {
        let mut out = String::new();
        push_decimal(&mut out, n);
        out
    };
    assert_eq!(render(0), "0");
    assert_eq!(render(7), "7");
    assert_eq!(render(9), "9");
    assert_eq!(render(10), "10");
    assert_eq!(render(26), "26");
    assert_eq!(render(33), "33");
    assert_eq!(render(100), "100");
    assert_eq!(render(1234567890), "1234567890");
    assert_eq!(render(u32::MAX), "4294967295");
}

#[test]
fn decimal_text_is_appended() {
    let mut out = String::from("cl_error ");
    push_decimal(&mut out, 405);
    assert_eq!(out, "cl_error 405");
}
