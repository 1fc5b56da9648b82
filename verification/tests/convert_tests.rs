use memory_simulator::convert::ValueCastTo;

#[test]
fn widening_unsigned_casts_keep_the_value() {
    assert_eq!(ValueCastTo::<u16>::cast(&200u8), 200u16);
    assert_eq!(ValueCastTo::<u64>::cast(&0xffff_ffffu32), 0xffff_ffffu64);
    assert_eq!(ValueCastTo::<i64>::cast(&40000u16), 40000i64);
}

#[test]
fn narrowing_casts_truncate() {
    assert_eq!(ValueCastTo::<u16>::cast(&0x1_2345u32), 0x2345u16);
    assert_eq!(ValueCastTo::<u8>::cast(&0x1ffu64), 0xffu8);
    assert_eq!(ValueCastTo::<i8>::cast(&0x180u16), -128i8);
}

#[test]
fn signed_unsigned_casts_reinterpret_twos_complement() {
    assert_eq!(ValueCastTo::<i32>::cast(&0xffff_ffffu32), -1i32);
    assert_eq!(ValueCastTo::<u32>::cast(&-1i32), 0xffff_ffffu32);
    assert_eq!(ValueCastTo::<u64>::cast(&-1i32), u64::MAX);
    assert_eq!(ValueCastTo::<i16>::cast(&0x8000u16), i16::MIN);
}

#[test]
fn bool_casts_use_zero_and_one() {
    assert_eq!(ValueCastTo::<u8>::cast(&true), 1u8);
    assert_eq!(ValueCastTo::<i64>::cast(&false), 0i64);
    assert!(ValueCastTo::<bool>::cast(&3u32));
    assert!(!ValueCastTo::<bool>::cast(&0u32));
    assert!(ValueCastTo::<bool>::cast(&-1i16));
    assert!(ValueCastTo::<bool>::cast(&true));
}

#[test]
fn identity_casts_are_identity() {
    assert_eq!(ValueCastTo::<u32>::cast(&7u32), 7u32);
    assert_eq!(ValueCastTo::<i64>::cast(&-9i64), -9i64);
}
