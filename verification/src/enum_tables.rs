//! Representative enums exercising the bounds-checked integer-to-variant
//! conversion pattern used throughout this crate.
//!
//! The status enums all pair `as_*` with a total, bounds-checked `from_*`
//! over an ordered table of assigned values.  The enums here cover the
//! layouts that pattern must support: gaps between values, values starting
//! above zero, negative values, and values spanning the full width of the
//! representation.  A small delegating pair rounds the module off.

use vstd::prelude::*;

verus! {

/// Assigned values starting above zero, with gaps.
#[derive(Clone, Copy, Debug, PartialEq, Eq, Hash, Structural)]
pub enum TestU8 {
    /// One Value
    One,
    /// Eight
    Eight,
    /// Thirty-two
    ThirtyTwo,
}

impl TestU8 {
    /// Exclusive upper bound of the assigned values.
    pub const END: usize = 33;

    /// The assigned value of this variant.
    pub open spec fn spec_as_u8(self) -> u8 {
        match self {
            TestU8::One => 1,
            TestU8::Eight => 8,
            TestU8::ThirtyTwo => 32,
        }
    }

    /// The variant carrying an assigned value, if any.
    pub open spec fn spec_from_u8(v: u8) -> Option<TestU8> {
        match v {
            1u8 => Some(TestU8::One),
            8u8 => Some(TestU8::Eight),
            32u8 => Some(TestU8::ThirtyTwo),
            _ => None,
        }
    }

    /// Returns the assigned value of this variant.
    pub fn as_u8(self) -> (r: u8)
        ensures
            r == self.spec_as_u8(),
    {
        match self {
            TestU8::One => 1,
            TestU8::Eight => 8,
            TestU8::ThirtyTwo => 32,
        }
    }

    /// Bounds-checked conversion from a value to a variant.
    pub fn from_u8(v: u8) -> (r: Option<TestU8>)
        ensures
            r == Self::spec_from_u8(v),
            r matches Some(x) ==> x.spec_as_u8() == v,
            r is Some <==> (v == 1 || v == 8 || v == 32),
    {
        match v {
            1u8 => Some(TestU8::One),
            8u8 => Some(TestU8::Eight),
            32u8 => Some(TestU8::ThirtyTwo),
            _ => None,
        }
    }
}

/// Assigned values starting at zero and reaching the top of the
/// representation.
#[derive(Clone, Copy, Debug, PartialEq, Eq, Hash, Structural)]
pub enum TestU16 {
    /// Zero
    Zero,
    /// One
    One,
    /// Ten
    Ten,
    /// The largest 16-bit value
    Max,
}

impl TestU16 {
    /// Exclusive upper bound of the assigned values.
    pub const END: usize = 65536;

    /// The assigned value of this variant.
    pub open spec fn spec_as_u16(self) -> u16 {
        match self {
            TestU16::Zero => 0,
            TestU16::One => 1,
            TestU16::Ten => 10,
            TestU16::Max => 0xffff,
        }
    }

    /// The variant carrying an assigned value, if any.
    pub open spec fn spec_from_u16(v: u16) -> Option<TestU16> {
        match v {
            0u16 => Some(TestU16::Zero),
            1u16 => Some(TestU16::One),
            10u16 => Some(TestU16::Ten),
            0xffffu16 => Some(TestU16::Max),
            _ => None,
        }
    }

    /// Returns the assigned value of this variant.
    pub fn as_u16(self) -> (r: u16)
        ensures
            r == self.spec_as_u16(),
    {
        match self {
            TestU16::Zero => 0,
            TestU16::One => 1,
            TestU16::Ten => 10,
            TestU16::Max => 0xffff,
        }
    }

    /// Bounds-checked conversion from a value to a variant.
    pub fn from_u16(v: u16) -> (r: Option<TestU16>)
        ensures
            r == Self::spec_from_u16(v),
            r matches Some(x) ==> x.spec_as_u16() == v,
            r is Some <==> (v == 0 || v == 1 || v == 10 || v == 0xffff),
    {
        match v {
            0u16 => Some(TestU16::Zero),
            1u16 => Some(TestU16::One),
            10u16 => Some(TestU16::Ten),
            0xffffu16 => Some(TestU16::Max),
            _ => None,
        }
    }
}

/// Contiguous assigned values starting at zero.
#[derive(Clone, Copy, Debug, PartialEq, Eq, Hash, Structural)]
pub enum TestUsize {
    /// Zero
    Zero,
    /// One
    One,
    /// Two
    Two,
}

impl TestUsize {
    /// Exclusive upper bound of the assigned values.
    pub const END: usize = 3;

    /// The assigned value of this variant.
    pub open spec fn spec_as_usize(self) -> usize {
        match self {
            TestUsize::Zero => 0,
            TestUsize::One => 1,
            TestUsize::Two => 2,
        }
    }

    /// The variant carrying an assigned value, if any.
    pub open spec fn spec_from_usize(v: usize) -> Option<TestUsize> {
        match v {
            0usize => Some(TestUsize::Zero),
            1usize => Some(TestUsize::One),
            2usize => Some(TestUsize::Two),
            _ => None,
        }
    }

    /// Returns the assigned value of this variant.
    pub fn as_usize(self) -> (r: usize)
        ensures
            r == self.spec_as_usize(),
    {
        match self {
            TestUsize::Zero => 0,
            TestUsize::One => 1,
            TestUsize::Two => 2,
        }
    }

    /// Bounds-checked conversion from a value to a variant.
    pub fn from_usize(v: usize) -> (r: Option<TestUsize>)
        ensures
            r == Self::spec_from_usize(v),
            r matches Some(x) ==> x.spec_as_usize() == v,
            r is Some <==> v < Self::END,
    {
        match v {
            0usize => Some(TestUsize::Zero),
            1usize => Some(TestUsize::One),
            2usize => Some(TestUsize::Two),
            _ => None,
        }
    }
}

/// Assigned values wider than 32 bits.
#[derive(Clone, Copy, Debug, PartialEq, Eq, Hash, Structural)]
pub enum TestU64 {
    /// Zero
    Zero,
    /// The largest 32-bit value
    MaxU32,
    /// One past the largest 32-bit value
    U64,
}

impl TestU64 {
    /// Exclusive upper bound of the assigned values.
    pub const END: u64 = 0x1_0000_0001;

    /// The assigned value of this variant.
    pub open spec fn spec_as_u64(self) -> u64 {
        match self {
            TestU64::Zero => 0,
            TestU64::MaxU32 => 0xFFFF_FFFF,
            TestU64::U64 => 0x1_0000_0000,
        }
    }

    /// The variant carrying an assigned value, if any.
    pub open spec fn spec_from_u64(v: u64) -> Option<TestU64> {
        match v {
            0u64 => Some(TestU64::Zero),
            0xFFFF_FFFFu64 => Some(TestU64::MaxU32),
            0x1_0000_0000u64 => Some(TestU64::U64),
            _ => None,
        }
    }

    /// Returns the assigned value of this variant.
    pub fn as_u64(self) -> (r: u64)
        ensures
            r == self.spec_as_u64(),
    {
        match self {
            TestU64::Zero => 0,
            TestU64::MaxU32 => 0xFFFF_FFFF,
            TestU64::U64 => 0x1_0000_0000,
        }
    }

    /// Bounds-checked conversion from a value to a variant.
    pub fn from_u64(v: u64) -> (r: Option<TestU64>)
        ensures
            r == Self::spec_from_u64(v),
            r matches Some(x) ==> x.spec_as_u64() == v,
            r is Some <==> (v == 0 || v == 0xFFFF_FFFF || v == 0x1_0000_0000),
    {
        match v {
            0u64 => Some(TestU64::Zero),
            0xFFFF_FFFFu64 => Some(TestU64::MaxU32),
            0x1_0000_0000u64 => Some(TestU64::U64),
            _ => None,
        }
    }
}

/// Negative assigned values, with gaps.
#[derive(Clone, Copy, Debug, PartialEq, Eq, Hash, Structural)]
pub enum TestI32 {
    /// Minus four
    NegativeFour,
    /// Minus one
    NegativeOne,
    /// One
    One,
    /// Two
    Two,
}

impl TestI32 {
    /// Exclusive upper bound of the assigned values.
    pub const END: usize = 3;

    /// The assigned value of this variant.
    pub open spec fn spec_as_i32(self) -> i32 {
        match self {
            TestI32::NegativeFour => -4i32,
            TestI32::NegativeOne => -1i32,
            TestI32::One => 1i32,
            TestI32::Two => 2i32,
        }
    }

    /// The variant carrying an assigned value, if any.
    pub open spec fn spec_from_i32(v: i32) -> Option<TestI32> {
        if v == -4 {
            Some(TestI32::NegativeFour)
        } else if v == -1 {
            Some(TestI32::NegativeOne)
        } else if v == 1 {
            Some(TestI32::One)
        } else if v == 2 {
            Some(TestI32::Two)
        } else {
            None
        }
    }

    /// Returns the assigned value of this variant.
    pub fn as_i32(self) -> (r: i32)
        ensures
            r == self.spec_as_i32(),
    {
        match self {
            TestI32::NegativeFour => -4,
            TestI32::NegativeOne => -1,
            TestI32::One => 1,
            TestI32::Two => 2,
        }
    }

    /// Bounds-checked conversion from a value to a variant.
    pub fn from_i32(v: i32) -> (r: Option<TestI32>)
        ensures
            r == Self::spec_from_i32(v),
            r matches Some(x) ==> x.spec_as_i32() == v,
            r is Some <==> (v == -4 || v == -1 || v == 1 || v == 2),
    {
        if v == -4 {
            Some(TestI32::NegativeFour)
        } else if v == -1 {
            Some(TestI32::NegativeOne)
        } else if v == 1 {
            Some(TestI32::One)
        } else if v == 2 {
            Some(TestI32::Two)
        } else {
            None
        }
    }
}

/// A counter whose operations the wrapper below hands through unchanged.
pub struct Inner(pub usize);

impl Inner {
    /// Adds `by` to the counter and returns the new count.
    pub fn increment(&mut self, by: usize) -> (r: usize)
        requires
            old(self).0 + by <= usize::MAX,
        ensures
            final (self).0 == old(self).0 + by,
            r == final (self).0,
    {
        self.0 += by;
        self.0
    }

    /// Returns the current count.
    pub fn read(&self) -> (r: usize)
        ensures
            r == self.0,
    {
        self.0
    }
}

/// A wrapper that delegates every operation to its inner counter.
pub struct Outer {
    /// The counter the wrapper hands its operations to.
    pub inner: Inner,
}

impl Outer {
    /// Adds `by` to the inner counter and returns the new count.
    pub fn increment(&mut self, by: usize) -> (r: usize)
        requires
            old(self).inner.0 + by <= usize::MAX,
        ensures
            final (self).inner.0 == old(self).inner.0 + by,
            r == final (self).inner.0,
    {
        self.inner.increment(by)
    }

    /// Returns the current count of the inner counter.
    pub fn read(&self) -> (r: usize)
        ensures
            r == self.inner.0,
    {
        self.inner.read()
    }
}

} // verus!
