use memory_simulator::hexload::{load_hex_text, HexError};

#[test]
fn loads_values_with_address_line_and_separators() {
    // `@10` moves the cursor to 16; `FF` lands there; the comment line is
    // ignored; `1_0` has its underscore stripped and lands at 17.
    let mut arr = vec![0u64; 32];
    load_hex_text(&mut arr, b"@10\nFF\n// comment\n1_0", u64::MAX).unwrap();
    assert_eq!(arr[16], 0xff);
    assert_eq!(arr[17], 0x10);
    for (i, v) in arr.iter().enumerate() {
        if i != 16 && i != 17 {
            assert_eq!(*v, 0);
        }
    }
}

#[test]
fn cursor_starts_at_zero_and_auto_increments() {
    let mut arr = vec![0u64; 4];
    load_hex_text(&mut arr, b"a\nb\nc", u64::MAX).unwrap();
    assert_eq!(arr, vec![0xa, 0xb, 0xc, 0]);
}

#[test]
fn blank_lines_and_trailing_comments_are_ignored() {
    let mut arr = vec![0u64; 4];
    load_hex_text(&mut arr, b"\n  \n12 // twelve\n\t34\t\n", u64::MAX).unwrap();
    assert_eq!(arr, vec![0x12, 0x34, 0, 0]);
}

#[test]
fn upper_and_lower_case_digits_parse() {
    let mut arr = vec![0u64; 2];
    load_hex_text(&mut arr, b"DeAd\nBEEF", u64::MAX).unwrap();
    assert_eq!(arr, vec![0xdead, 0xbeef]);
}

#[test]
fn bad_hex_is_fatal_with_line_number() {
    let mut arr = vec![0u64; 4];
    let err = load_hex_text(&mut arr, b"12\nzz\n34", u64::MAX).unwrap_err();
    assert_eq!(err, HexError::Malformed { line: 2 });
}

#[test]
fn underscores_only_line_is_malformed() {
    let mut arr = vec![0u64; 4];
    let err = load_hex_text(&mut arr, b"___", u64::MAX).unwrap_err();
    assert_eq!(err, HexError::Malformed { line: 1 });
}

#[test]
fn empty_address_line_is_malformed() {
    let mut arr = vec![0u64; 4];
    let err = load_hex_text(&mut arr, b"@\n12", u64::MAX).unwrap_err();
    assert_eq!(err, HexError::Malformed { line: 1 });
}

#[test]
fn value_outside_array_is_fatal() {
    let mut arr = vec![0u64; 4];
    let err = load_hex_text(&mut arr, b"@5\n12", u64::MAX).unwrap_err();
    assert_eq!(err, HexError::OutOfRange { line: 2, addr: 5 });
}

#[test]
fn value_above_the_register_limit_is_malformed() {
    // A 33-bit value cannot land in a 32-bit register: fatal, not truncated.
    let mut arr = vec![0u64; 2];
    let err = load_hex_text(&mut arr, b"1_0000_0000", u32::MAX as u64).unwrap_err();
    assert_eq!(err, HexError::Malformed { line: 1 });
    let mut arr = vec![0u64; 2];
    load_hex_text(&mut arr, b"ffff_ffff", u32::MAX as u64).unwrap();
    assert_eq!(arr[0], 0xffff_ffff);
}

#[test]
fn value_too_large_is_malformed() {
    let mut arr = vec![0u64; 2];
    // Seventeen hex digits exceed the 64-bit value type.
    let err = load_hex_text(&mut arr, b"10000000000000000", u64::MAX).unwrap_err();
    assert_eq!(err, HexError::Malformed { line: 1 });
    // The largest value that fits is accepted.
    let mut arr = vec![0u64; 2];
    load_hex_text(&mut arr, b"ffff_ffff_ffff_ffff", u64::MAX).unwrap();
    assert_eq!(arr[0], u64::MAX);
}

#[test]
fn address_line_may_use_underscores() {
    let mut arr = vec![0u64; 32];
    load_hex_text(&mut arr, b"@1_0\n7", u64::MAX).unwrap();
    assert_eq!(arr[16], 7);
}

#[test]
fn empty_text_loads_nothing() {
    let mut arr = vec![9u64; 3];
    load_hex_text(&mut arr, b"", u64::MAX).unwrap();
    assert_eq!(arr, vec![9, 9, 9]);
}
