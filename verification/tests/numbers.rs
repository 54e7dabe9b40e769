use claxon::{One, Zero};

#[test]
fn zero_of_each_width() {
    assert_eq!(i8::zero(), 0i8);
    assert_eq!(i16::zero(), 0i16);
    assert_eq!(i32::zero(), 0i32);
    assert_eq!(i64::zero(), 0i64);
}

#[test]
fn one_of_each_width() {
    assert_eq!(i8::one(), 1i8);
    assert_eq!(i16::one(), 1i16);
    assert_eq!(i32::one(), 1i32);
    assert_eq!(i64::one(), 1i64);
}
