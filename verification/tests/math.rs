//! Tests of `math`.

use cc_core::math::{fixed_from_i32};

#[test]
fn round_trip_i32() {
    for v in [-100, -1, 0, 1, 42, 1000] {
        let f = fixed_from_i32(v);
        assert_eq!(f.floor_to_int(), v);
    }
}

#[test]
fn basic_arithmetic() {
    let a = fixed_from_i32(10);
    let b = fixed_from_i32(3);
    assert_eq!(a.add(b).floor_to_int(), 13);
    assert_eq!(a.sub(b).floor_to_int(), 7);
    assert_eq!(a.mul(b).floor_to_int(), 30);
}
