use neo::console::num_digits;
use neo::console::push_decimal;
use neo::console::push_padded_decimal;

#[test]
fn decimal_rendering() {
    let mut out: Vec<u8> = Vec::new();
    push_decimal(&mut out, 0);
    push_decimal(&mut out, 42);
    push_decimal(&mut out, 4_294_967_295);
    assert_eq!(out, b"0424294967295".to_vec());
}

#[test]
fn digit_counts() {
    assert_eq!(num_digits(0), 1);
    assert_eq!(num_digits(9), 1);
    assert_eq!(num_digits(10), 2);
    assert_eq!(num_digits(123_456), 6);
}

#[test]
fn zero_padding_widths() {
    let mut out: Vec<u8> = Vec::new();
    push_padded_decimal(&mut out, 7, 4);
    assert_eq!(out, b"0007".to_vec());
    out.clear();
    push_padded_decimal(&mut out, 12345, 4);
    assert_eq!(out, b"12345".to_vec());
    out.clear();
    push_padded_decimal(&mut out, 345, 5);
    assert_eq!(out, b"00345".to_vec());
}
