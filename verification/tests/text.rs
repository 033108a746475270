use devices::le::{push_le, read_le32, read_le64};
use devices::text::{append_i32, append_u64, parse_i32};

#[test]
fn decimal_text() {
    let mut out = String::from("n=");
    append_u64(&mut out, 0);
    out.push(' ');
    append_u64(&mut out, u64::MAX);
    out.push(' ');
    append_i32(&mut out, i32::MIN);
    out.push(' ');
    append_i32(&mut out, 1205);
    assert_eq!(out, "n=0 18446744073709551615 -2147483648 1205");
}

#[test]
fn parsed_integers() {
    assert_eq!(parse_i32("17"), Some(17));
    assert_eq!(parse_i32("+17"), Some(17));
    assert_eq!(parse_i32("-17"), Some(-17));
    assert_eq!(parse_i32("0017"), Some(17));
    assert_eq!(parse_i32("-2147483648"), Some(i32::MIN));
    assert_eq!(parse_i32("2147483648"), None);
    assert_eq!(parse_i32(""), None);
    assert_eq!(parse_i32("-"), None);
    assert_eq!(parse_i32("1 "), None);
    assert_eq!(parse_i32("99999999999999999999"), None);
}

#[test]
fn decimal_text_reads_back() {
    for i in [0, 7, -7, 1234567, i32::MIN, i32::MAX] {
        let mut out = String::new();
        append_i32(&mut out, i);
        assert_eq!(out, i.to_string());
        assert_eq!(parse_i32(&out), Some(i));
    }
}

#[test]
fn little_endian_reads_back() {
    let mut out = vec![9u8];
    push_le(&mut out, 0x1122_3344, 4);
    push_le(&mut out, 0x0102_0304_0506_0708, 8);
    push_le(&mut out, 0x1_ff, 1);
    assert_eq!(out, vec![9, 0x44, 0x33, 0x22, 0x11, 8, 7, 6, 5, 4, 3, 2, 1, 0xff]);
    assert_eq!(read_le32(&out, 1), 0x1122_3344);
    assert_eq!(read_le64(&out, 5), 0x0102_0304_0506_0708);
    assert_eq!(read_le64(&[0xff; 8], 0), u64::MAX);
}
