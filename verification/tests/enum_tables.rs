//! Tests for the bounds-checked integer-to-variant conversions and the
//! delegating wrapper pair.

use ap_ro_errs::{Inner, Outer, TestI32, TestU16, TestU64, TestU8, TestUsize};

#[test]
fn test_u8_enum_conversion() {
    assert_eq!(TestU8::from_u8(1), Some(TestU8::One));
    assert_eq!(TestU8::from_u8(8), Some(TestU8::Eight));
    assert_eq!(TestU8::from_u8(32), Some(TestU8::ThirtyTwo));
    assert_eq!(TestU8::END, 33);

    for i in 0..u8::MAX {
        if matches!(i, 1 | 8 | 32) {
            continue;
        }
        assert!(TestU8::from_u8(i).is_none());
    }
}

#[test]
fn test_u8_enum_equals() {
    assert_eq!(TestU8::One, TestU8::One);
    assert_eq!(TestU8::Eight, TestU8::Eight);
    assert_eq!(TestU8::ThirtyTwo, TestU8::ThirtyTwo);

    assert_ne!(TestU8::One, TestU8::Eight);
    assert_ne!(TestU8::Eight, TestU8::ThirtyTwo);
    assert_ne!(TestU8::ThirtyTwo, TestU8::One);
}

#[test]
fn test_u16_enum_conversion() {
    assert_eq!(TestU16::from_u16(0), Some(TestU16::Zero));
    assert_eq!(TestU16::from_u16(1), Some(TestU16::One));
    assert_eq!(TestU16::from_u16(10), Some(TestU16::Ten));
    assert_eq!(TestU16::from_u16(u16::MAX), Some(TestU16::Max));
    assert_eq!(TestU16::END, (u16::MAX as usize) + 1);

    for i in 0..u16::MAX {
        if matches!(i, 0 | 1 | 10) {
            continue;
        }
        assert!(TestU16::from_u16(i).is_none());
    }
}

#[test]
fn test_u16_enum_equals() {
    assert_eq!(TestU16::Zero, TestU16::Zero);
    assert_eq!(TestU16::One, TestU16::One);
    assert_eq!(TestU16::Ten, TestU16::Ten);

    assert_ne!(TestU16::Zero, TestU16::One);
    assert_ne!(TestU16::One, TestU16::Ten);
    assert_ne!(TestU16::Ten, TestU16::Zero);
}

#[test]
fn test_usize_enum_conversion() {
    assert_eq!(TestUsize::from_usize(0), Some(TestUsize::Zero));
    assert_eq!(TestUsize::from_usize(1), Some(TestUsize::One));
    assert_eq!(TestUsize::from_usize(2), Some(TestUsize::Two));
    assert_eq!(TestUsize::END, 3);

    // Too expensive to test all cases
    for i in 3..100 {
        assert!(TestUsize::from_usize(i).is_none());
    }
    assert!(TestUsize::from_usize(usize::MAX).is_none());
}

#[test]
fn test_usize_enum_equals() {
    assert_eq!(TestUsize::Zero, TestUsize::Zero);
    assert_eq!(TestUsize::One, TestUsize::One);
    assert_eq!(TestUsize::Two, TestUsize::Two);

    assert_ne!(TestUsize::Zero, TestUsize::One);
    assert_ne!(TestUsize::One, TestUsize::Two);
    assert_ne!(TestUsize::Two, TestUsize::Zero);
}

#[test]
fn test_u64_enum_conversion() {
    assert_eq!(TestU64::from_u64(0), Some(TestU64::Zero));
    assert_eq!(TestU64::from_u64(0xFFFF_FFFF), Some(TestU64::MaxU32));
    assert_eq!(TestU64::from_u64(0x1_0000_0000), Some(TestU64::U64));
    assert_eq!(TestU64::END, 0x1_0000_0001);

    // Too expensive to test all cases
    for i in 1..100 {
        assert!(TestU64::from_u64(i).is_none());
    }
    assert!(TestU64::from_u64(u64::MAX).is_none());
}

#[test]
fn test_u64_enum_equals() {
    assert_eq!(TestU64::Zero, TestU64::Zero);
    assert_eq!(TestU64::MaxU32, TestU64::MaxU32);
    assert_eq!(TestU64::U64, TestU64::U64);

    assert_ne!(TestU64::Zero, TestU64::MaxU32);
    assert_ne!(TestU64::MaxU32, TestU64::U64);
    assert_ne!(TestU64::U64, TestU64::Zero);
}

#[test]
fn test_ui32_enum_conversion() {
    assert_eq!(TestI32::from_i32(-4), Some(TestI32::NegativeFour));
    assert_eq!(TestI32::from_i32(-1), Some(TestI32::NegativeOne));
    assert_eq!(TestI32::from_i32(1), Some(TestI32::One));
    assert_eq!(TestI32::from_i32(2), Some(TestI32::Two));
    assert_eq!(TestI32::END, 3);

    // Too expensive to test all cases
    for i in [-6, -5, -3, -2, 0, 3, 4] {
        assert!(TestI32::from_i32(i).is_none());
    }
}

#[test]
fn test_ui32_enum_equals() {
    assert_eq!(TestI32::NegativeFour, TestI32::NegativeFour);
    assert_eq!(TestI32::NegativeOne, TestI32::NegativeOne);
    assert_eq!(TestI32::One, TestI32::One);
    assert_eq!(TestI32::Two, TestI32::Two);

    assert_ne!(TestI32::NegativeFour, TestI32::NegativeOne);
    assert_ne!(TestI32::NegativeFour, TestI32::One);
    assert_ne!(TestI32::NegativeFour, TestI32::Two);
    assert_ne!(TestI32::One, TestI32::Two);
}

#[test]
fn test_passthru() {
    let mut outer = Outer { inner: Inner(1) };

    assert_eq!(outer.increment(4), 5);
    assert_eq!(outer.increment(5), 10);
    assert_eq!(outer.read(), 10);
}

#[test]
fn test_round_trip_through_assigned_values() {
    for v in [TestU8::One, TestU8::Eight, TestU8::ThirtyTwo] {
        assert_eq!(TestU8::from_u8(v.as_u8()), Some(v));
    }
    for v in [TestU16::Zero, TestU16::One, TestU16::Ten, TestU16::Max] {
        assert_eq!(TestU16::from_u16(v.as_u16()), Some(v));
    }
    for v in [TestI32::NegativeFour, TestI32::NegativeOne, TestI32::One, TestI32::Two] {
        assert_eq!(TestI32::from_i32(v.as_i32()), Some(v));
    }
}
