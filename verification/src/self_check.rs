//! Self-checking bytes and the write-protect descriptor built from them.
//!
//! A value stored in write-once memory is kept as the pair
//! `(value, !value)`.  Unwritten memory reads as all ones and a write can
//! only clear bits, so a byte whose stored inverse does not match is either
//! still blank or has been corrupted by a partial or spurious write; it is
//! never silently accepted as a plausible value.

use vstd::prelude::*;

use crate::hex::{bytes_to_hex, spec_hex_of};

verus! {

/// Why a stored value could not be used.
#[derive(Clone, Copy, Debug, PartialEq, Eq, Hash, Structural)]
pub enum BadValue {
    /// The value was unset/blank.  This is an expected state.
    Blank,
    /// The value was corrupted: its stored inverse did not match the value
    /// and the pair was not blank.  This is an unexpected state.
    Corrupted,
    /// The value was outside the range of valid values for the type.
    Invalid,
}

impl BadValue {
    /// The wire value of this variant.
    pub open spec fn spec_as_u8(self) -> u8 {
        match self {
            BadValue::Blank => 1,
            BadValue::Corrupted => 2,
            BadValue::Invalid => 3,
        }
    }

    /// Exclusive upper bound of the wire values.
    pub const END: usize = 4;

    /// Returns the wire value of this variant.
    pub fn as_u8(self) -> (r: u8)
        ensures
            r == self.spec_as_u8(),
    {
        match self {
            BadValue::Blank => 1,
            BadValue::Corrupted => 2,
            BadValue::Invalid => 3,
        }
    }

    /// The variant carried by a wire value, if any.
    pub open spec fn spec_from_u8(v: u8) -> Option<BadValue> {
        match v {
            1u8 => Some(BadValue::Blank),
            2u8 => Some(BadValue::Corrupted),
            3u8 => Some(BadValue::Invalid),
            _ => None,
        }
    }

    /// Bounds-checked conversion from a wire value to a variant.
    pub fn from_u8(v: u8) -> (r: Option<BadValue>)
        ensures
            r == Self::spec_from_u8(v),
            r matches Some(b) ==> b.spec_as_u8() == v,
            r is None <==> !(1 <= v < 4),
    {
        match v {
            1u8 => Some(BadValue::Blank),
            2u8 => Some(BadValue::Corrupted),
            3u8 => Some(BadValue::Invalid),
            _ => None,
        }
    }

    /// The short name of the state.
    pub open spec fn spec_name(self) -> Seq<char> {
        match self {
            BadValue::Blank => "Blank"@,
            BadValue::Corrupted => "Corrupted"@,
            BadValue::Invalid => "Invalid"@,
        }
    }

    /// A short name for the state, for diagnostics.
    pub fn to_string(self) -> (r: &'static str)
        ensures
            r@ == self.spec_name(),
    {
        match self {
            BadValue::Blank => "Blank",
            BadValue::Corrupted => "Corrupted",
            BadValue::Invalid => "Invalid",
        }
    }
}

/// A byte value stored along with its bit-inverted value.
///
/// This protects against a spurious write causing a reduction in security
/// without first erasing, since writes can only clear bits.  It also allows
/// for more flexible filling in of individual values than a checksum.
#[derive(Clone, Copy)]
pub struct ByteWithInverse {
    value: u8,
    /// `value`, but with the bits inverted.
    ///
    /// If it does not equal `!value`, this value is unset (all 1's) or
    /// corrupted.
    inv_value: u8,
}

impl ByteWithInverse {
    /// The stored byte.
    pub closed spec fn spec_value(self) -> u8 {
        self.value
    }

    /// The stored inverse byte.
    pub closed spec fn spec_inverse(self) -> u8 {
        self.inv_value
    }

    /// The pair a fresh write of `value` stores.
    pub closed spec fn spec_new(value: u8) -> ByteWithInverse {
        ByteWithInverse { value, inv_value: !value }
    }

    /// A validly written pair: the stored inverse matches the value.
    pub open spec fn spec_is_valid(self) -> bool {
        self.spec_value() == !self.spec_inverse()
    }

    /// Never-written memory: both bytes read all ones.
    pub open spec fn spec_is_blank(self) -> bool {
        self.spec_value() == 0xFF && self.spec_inverse() == 0xFF
    }

    /// What reading the pair back yields: the value if the pair is
    /// consistent, otherwise which bad state was found.
    pub open spec fn spec_get(self) -> Result<u8, BadValue> {
        if self.spec_is_valid() {
            Ok(self.spec_value())
        } else if self.spec_is_blank() {
            Err(BadValue::Blank)
        } else {
            Err(BadValue::Corrupted)
        }
    }

    /// Stores `value` together with its bitwise complement.
    pub fn new(value: u8) -> (r: ByteWithInverse)
        ensures
            r == Self::spec_new(value),
            r.spec_value() == value,
            r.spec_is_valid(),
    {
        let r = ByteWithInverse { value, inv_value: !value };
        proof {
            assert(value == !(!value)) by (bit_vector);
        }
        r
    }

    /// Reinterprets a raw stored pair, however memory holds it: the value
    /// byte and the byte meant to be its inverse.
    pub fn from_bytes(value: u8, inv_value: u8) -> (r: ByteWithInverse)
        ensures
            r.spec_value() == value,
            r.spec_inverse() == inv_value,
    {
        ByteWithInverse { value, inv_value }
    }

    /// Has this never been written to?
    pub fn is_blank(self) -> (r: bool)
        ensures
            r == self.spec_is_blank(),
    {
        proof {
            assert(!0u8 == 0xFFu8) by (bit_vector);
        }
        self.value == !0u8 && self.inv_value == !0u8
    }

    /// The diagnostic rendering of the pair: the value as two hex digits
    /// when the pair is consistent, else the name of the bad state.
    pub open spec fn spec_display(self) -> Seq<char> {
        match self.spec_get() {
            Ok(v) => spec_hex_of(seq![v]),
            Err(e) => e.spec_name(),
        }
    }

    /// Renders the pair for diagnostics.
    pub fn to_display_string(&self) -> (r: String)
        ensures
            r@ == self.spec_display(),
    {
        match self.get() {
            Ok(v) => {
                let raw = [v];
                let r = bytes_to_hex(raw.as_slice());
                proof {
                    assert(raw@ =~= seq![v]);
                }
                r
            },
            Err(e) => String::from_str(e.to_string()),
        }
    }

    /// Returns the stored value, so long as the pair is consistent.
    pub fn get(self) -> (r: Result<u8, BadValue>)
        ensures
            r == self.spec_get(),
    {
        proof {
            let (v, i) = (self.value, self.inv_value);
            assert(v == !i <==> i == !v) by (bit_vector);
        }
        if self.value == !self.inv_value {
            Ok(self.value)
        } else {
            Err(if self.is_blank() {
                BadValue::Blank
            } else {
                BadValue::Corrupted
            })
        }
    }
}

/// A freshly written pair always reads back as the written value.
pub proof fn lemma_fresh_byte_reads_back(v: u8)
    ensures
        ByteWithInverse::spec_new(v).spec_get() == Ok::<u8, BadValue>(v),
{
    assert(v == !(!v)) by (bit_vector);
}

/// Blank and corrupted detection: a pair reads back its value exactly
/// when the stored inverse matches; the all-ones pair of never-written
/// memory reads as blank, and every other mismatched pair reads as
/// corrupted.  A blank pair is never mistaken for a validly written one.
pub proof fn lemma_bad_state_detection(b: ByteWithInverse)
    ensures
        b.spec_is_valid() ==> b.spec_get() == Ok::<u8, BadValue>(b.spec_value()),
        !b.spec_is_valid() && b.spec_is_blank() ==> b.spec_get() == Err::<u8, BadValue>(
            BadValue::Blank,
        ),
        !b.spec_is_valid() && !b.spec_is_blank() ==> b.spec_get() == Err::<u8, BadValue>(
            BadValue::Corrupted,
        ),
        b.spec_is_blank() ==> !b.spec_is_valid(),
{
    let v = b.spec_value();
    assert(v == 0xFF ==> v != !v) by (bit_vector);
}

/// A 4-byte matcher for hardware write-protect register contents: bits
/// selected by `mask` must equal `expected_value`.  Both halves are stored
/// as self-checking pairs, and the all-ones pattern denotes an
/// unprovisioned descriptor.
#[derive(Clone, Copy)]
pub struct WriteProtectDescriptor {
    expected_value: ByteWithInverse,
    mask: ByteWithInverse,
}

impl WriteProtectDescriptor {
    /// The self-checking pair holding the expected value.
    pub closed spec fn spec_expected(self) -> ByteWithInverse {
        self.expected_value
    }

    /// The self-checking pair holding the mask.
    pub closed spec fn spec_mask(self) -> ByteWithInverse {
        self.mask
    }

    /// The descriptor provisioning `(expected_value, mask)` stores.
    pub closed spec fn spec_new(expected_value: u8, mask: u8) -> WriteProtectDescriptor {
        WriteProtectDescriptor {
            expected_value: ByteWithInverse::spec_new(expected_value),
            mask: ByteWithInverse::spec_new(mask),
        }
    }

    /// The all-ones descriptor of never-written memory.
    pub open spec fn spec_is_blank(self) -> bool {
        self.spec_expected().spec_is_blank() && self.spec_mask().spec_is_blank()
    }

    /// What reading the descriptor back yields.  A corrupted half corrupts
    /// the whole; otherwise an unreadable descriptor is blank.
    pub open spec fn spec_get(self) -> Result<(u8, u8), BadValue> {
        match (self.spec_expected().spec_get(), self.spec_mask().spec_get()) {
            (Ok(expected_value), Ok(mask)) => Ok((expected_value, mask)),
            (Err(BadValue::Corrupted), _) => Err(BadValue::Corrupted),
            (_, Err(BadValue::Corrupted)) => Err(BadValue::Corrupted),
            _ => Err(BadValue::Blank),
        }
    }

    /// Whether `value` satisfies the stored policy: an unreadable
    /// descriptor never matches, a readable one matches iff the masked
    /// bits agree.
    pub open spec fn spec_matches(self, value: u8) -> bool {
        match self.spec_get() {
            Ok((expected_value, mask)) => expected_value & mask == value & mask,
            _ => false,
        }
    }

    /// Wraps both inputs as self-checking bytes.
    pub fn new(expected_value: u8, mask: u8) -> (r: WriteProtectDescriptor)
        ensures
            r == Self::spec_new(expected_value, mask),
            r.spec_get() == Ok::<(u8, u8), BadValue>((expected_value, mask)),
    {
        proof {
            lemma_fresh_byte_reads_back(expected_value);
            lemma_fresh_byte_reads_back(mask);
        }
        WriteProtectDescriptor {
            expected_value: ByteWithInverse::new(expected_value),
            mask: ByteWithInverse::new(mask),
        }
    }

    /// Returns a blank/unset `WriteProtectDescriptor`: all four bytes ones.
    pub fn blank() -> (r: WriteProtectDescriptor)
        ensures
            r.spec_is_blank(),
            r.spec_get() == Err::<(u8, u8), BadValue>(BadValue::Blank),
            forall|value: u8| !r.spec_matches(value),
    {
        let r = WriteProtectDescriptor {
            expected_value: ByteWithInverse { value: 0xFF, inv_value: 0xFF },
            mask: ByteWithInverse { value: 0xFF, inv_value: 0xFF },
        };
        proof {
            assert(0xFFu8 != !0xFFu8) by (bit_vector);
        }
        r
    }

    /// Reinterprets the four raw stored bytes of the NVRAM wire format
    /// `[expected_value, ~expected_value, mask, ~mask]`.
    pub fn from_bytes(bytes: [u8; 4]) -> (r: WriteProtectDescriptor)
        ensures
            r.spec_expected().spec_value() == bytes[0],
            r.spec_expected().spec_inverse() == bytes[1],
            r.spec_mask().spec_value() == bytes[2],
            r.spec_mask().spec_inverse() == bytes[3],
    {
        WriteProtectDescriptor {
            expected_value: ByteWithInverse::from_bytes(bytes[0], bytes[1]),
            mask: ByteWithInverse::from_bytes(bytes[2], bytes[3]),
        }
    }

    /// The four raw bytes of the NVRAM wire format
    /// `[expected_value, ~expected_value, mask, ~mask]`.
    pub fn to_bytes(self) -> (r: [u8; 4])
        ensures
            r == [
                self.spec_expected().spec_value(),
                self.spec_expected().spec_inverse(),
                self.spec_mask().spec_value(),
                self.spec_mask().spec_inverse(),
            ],
    {
        [self.expected_value.value, self.expected_value.inv_value, self.mask.value, self.mask.inv_value]
    }

    /// Returns the (expected value, mask), so long as both halves are valid.
    pub fn get(self) -> (r: Result<(u8, u8), BadValue>)
        ensures
            r == self.spec_get(),
    {
        match (self.expected_value.get(), self.mask.get()) {
            (Ok(expected_value), Ok(mask)) => Ok((expected_value, mask)),
            (Err(BadValue::Corrupted), _) => Err(BadValue::Corrupted),
            (_, Err(BadValue::Corrupted)) => Err(BadValue::Corrupted),
            // A self-checking byte never reports `Invalid`
            _ => Err(BadValue::Blank),
        }
    }

    /// Has this never been written to?
    pub fn is_blank(self) -> (r: bool)
        ensures
            r == self.spec_is_blank(),
    {
        self.expected_value.is_blank() && self.mask.is_blank()
    }

    /// Does this descriptor have a mask of all 0's, making it always match?
    pub fn is_empty_mask(self) -> (r: bool)
        ensures
            r == (self.spec_mask().spec_get() == Ok::<u8, BadValue>(0)),
    {
        matches!(self.mask.get(), Ok(0))
    }

    /// Renders the descriptor for diagnostics: both halves joined by
    /// ` & `.
    pub fn to_display_string(&self) -> (r: String)
        ensures
            r@ == self.spec_expected().spec_display() + " & "@ + self.spec_mask().spec_display(),
    {
        let mut out = self.expected_value.to_display_string();
        out.append(" & ");
        let mask = self.mask.to_display_string();
        out.append(mask.as_str());
        proof {
            assert(out@ =~= self.spec_expected().spec_display() + " & "@
                + self.spec_mask().spec_display());
        }
        out
    }

    /// Is the given value from the protection register considered
    /// "matching" this descriptor, meaning it's verified.
    pub fn matches(self, value: u8) -> (r: bool)
        ensures
            r == self.spec_matches(value),
    {
        match self.get() {
            Ok((expected_value, mask)) => expected_value & mask == value & mask,
            _ => false,
        }
    }
}

/// A provisioned descriptor with a non-zero mask matches exactly the
/// observed values that agree with the expected value on the masked bits;
/// this holds for a zero mask as well, where it makes every value match.
pub proof fn lemma_descriptor_matches(expected_value: u8, mask: u8, observed: u8)
    ensures
        WriteProtectDescriptor::spec_new(expected_value, mask).spec_matches(observed) == (
        expected_value & mask == observed & mask),
{
    lemma_fresh_byte_reads_back(expected_value);
    lemma_fresh_byte_reads_back(mask);
}

/// A provisioned descriptor with an all-zero mask is a vacuous policy:
/// every observed value matches it.
pub proof fn lemma_zero_mask_always_matches(expected_value: u8, observed: u8)
    ensures
        WriteProtectDescriptor::spec_new(expected_value, 0).spec_matches(observed),
{
    lemma_descriptor_matches(expected_value, 0, observed);
    assert(expected_value & 0 == observed & 0) by (bit_vector);
}

/// A blank descriptor never matches any observed value.
pub proof fn lemma_blank_never_matches(d: WriteProtectDescriptor, observed: u8)
    requires
        d.spec_is_blank(),
    ensures
        !d.spec_matches(observed),
{
    let v = d.spec_expected().spec_value();
    assert(v == 0xFF ==> v != !v) by (bit_vector);
}

} // verus!
