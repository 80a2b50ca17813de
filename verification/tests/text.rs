use telegram_jung2_bot::text::to_c_string;

#[test]
fn to_c_string_appends_the_terminator() {
    assert_eq!(to_c_string(b"abc"), Some(vec![b'a', b'b', b'c', 0]));
    assert_eq!(
        to_c_string("Response placeholder.".as_bytes()),
        Some(b"Response placeholder.\0".to_vec())
    );
}

#[test]
fn to_c_string_of_empty_text_is_the_terminator_alone() {
    assert_eq!(to_c_string(b""), Some(vec![0u8]));
}

#[test]
fn to_c_string_keeps_bytes_that_are_not_utf8() {
    assert_eq!(to_c_string(&[0xff, 0x01, 0x80]), Some(vec![0xff, 0x01, 0x80, 0]));
}

#[test]
fn to_c_string_refuses_a_zero_byte() {
    assert_eq!(to_c_string(b"ab\0cd"), None);
    assert_eq!(to_c_string(b"\0"), None);
    assert_eq!(to_c_string(b"\0abc"), None);
    assert_eq!(to_c_string(b"abc\0"), None);
}
