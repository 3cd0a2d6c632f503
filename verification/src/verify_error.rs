//! The verification error value and its lossless 32-bit codec.
//!
//! A [`VerifyError`] is one byte of top-level [`VerifyErrorCode`] plus
//! three bytes of kind-specific detail, packed big-endian into a `u32`
//! with the code in the most significant byte.  The code byte `0` is
//! reserved so a zeroed word never reads as a specific error, and the
//! code byte of every real error lies in `1..VerifyErrorCode::END`.

use vstd::prelude::*;

use crate::codes::{
    CryptoAlgorithmSource, DigestLocation, InternalErrorSource, SignatureLocation, StatusRegister,
    VerifyErrorCode, VersionMismatchSource, lemma_code_value_round_trip,
};
use crate::self_check::WriteProtectDescriptor;

verus! {

/// The big-endian 32-bit word formed of the four bytes, most significant
/// first.
pub open spec fn spec_u32_from_be_bytes(b0: u8, b1: u8, b2: u8, b3: u8) -> u32 {
    ((b0 as u32) << 24) | ((b1 as u32) << 16) | ((b2 as u32) << 8) | (b3 as u32)
}

/// The most significant byte of a 32-bit word.
pub open spec fn spec_be_byte0(v: u32) -> u8 {
    (v >> 24) as u8
}

/// The second most significant byte of a 32-bit word.
pub open spec fn spec_be_byte1(v: u32) -> u8 {
    ((v >> 16) & 0xFF) as u8
}

/// The third most significant byte of a 32-bit word.
pub open spec fn spec_be_byte2(v: u32) -> u8 {
    ((v >> 8) & 0xFF) as u8
}

/// The least significant byte of a 32-bit word.
pub open spec fn spec_be_byte3(v: u32) -> u8 {
    (v & 0xFF) as u8
}

/// Packing four bytes and taking the bytes of the packed word are
/// mutually inverse.
pub proof fn lemma_be_bytes_round_trip(b0: u8, b1: u8, b2: u8, b3: u8, v: u32)
    by (bit_vector)
    ensures
        spec_be_byte0(spec_u32_from_be_bytes(b0, b1, b2, b3)) == b0,
        spec_be_byte1(spec_u32_from_be_bytes(b0, b1, b2, b3)) == b1,
        spec_be_byte2(spec_u32_from_be_bytes(b0, b1, b2, b3)) == b2,
        spec_be_byte3(spec_u32_from_be_bytes(b0, b1, b2, b3)) == b3,
        spec_u32_from_be_bytes(
            spec_be_byte0(v),
            spec_be_byte1(v),
            spec_be_byte2(v),
            spec_be_byte3(v),
        ) == v,
{
}

/// Details for the [`VerifyErrorCode::FailedVerification`] error.
#[derive(Debug)]
pub enum FailedVerificationDetail {
    /// A computed digest did not match the expected digest.
    DigestMismatch {
        /// Which digest failed.
        location: DigestLocation,
        /// First byte of the computed digest.
        got: u8,
        /// First byte of the expected digest.
        expected: u8,
    },
    /// A signature failed cryptographic verification.
    SignatureVerifyFail,
}

/// The number of hard-coded trusted root-key hashes recorded in the top
/// nibble of a digest-mismatch detail (as `1 + NUM_VALID_ROOT_KEY_HASHES`).
pub const NUM_VALID_ROOT_KEY_HASHES: u8 = 2;

impl FailedVerificationDetail {
    /// Marker for the top byte's high nibble: non-zero means digest
    /// mismatch.
    const DIGEST_MISMATCH: u8 = 0x10;

    /// Top byte of a signature-verification failure.
    const SIGNATURE_VERIFY: u8 = 0;

    /// The three detail bytes this value packs to.  The top byte of a
    /// digest mismatch carries `1 + NUM_VALID_ROOT_KEY_HASHES` in its high
    /// nibble and the digest location in its low nibble.
    pub open spec fn spec_to_details(self) -> [u8; 3] {
        match self {
            FailedVerificationDetail::DigestMismatch { location, got, expected } => [
                (0x10 + (NUM_VALID_ROOT_KEY_HASHES * 0x10) + location.spec_as_u8()) as u8,
                got,
                expected,
            ],
            FailedVerificationDetail::SignatureVerifyFail => [0u8, 0u8, 0u8],
        }
    }

    /// Packs this value into the three detail bytes.
    pub fn to_details(self) -> (r: [u8; 3])
        ensures
            r == self.spec_to_details(),
    {
        match self {
            FailedVerificationDetail::DigestMismatch { location, got, expected } => {
                proof {
                    assert(NUM_VALID_ROOT_KEY_HASHES << 4 == NUM_VALID_ROOT_KEY_HASHES
                        * 0x10) by (bit_vector);
                }
                // The top byte carries three pieces of info:
                // - The top nibble being non-zero indicates a digest mismatch.
                // - The top nibble is 1 + NUM_VALID_ROOT_KEY_HASHES.
                // - The bottom nibble is the digest location, at most 15.
                let top_byte = FailedVerificationDetail::DIGEST_MISMATCH
                    + (NUM_VALID_ROOT_KEY_HASHES << 4) + location.as_u8();
                [top_byte, got, expected]
            },
            FailedVerificationDetail::SignatureVerifyFail => {
                // Code structure requires the location be set after the fact.
                // See [`VerifyError::with_failed_signature_location`].
                [FailedVerificationDetail::SIGNATURE_VERIFY, 0, 0]
            },
        }
    }
}

/// An error that occurred verifying the application processor's read-only
/// flash contents: a top-level code plus three bytes of detail.
#[derive(Clone, Copy, Debug)]
pub struct VerifyError {
    code: VerifyErrorCode,
    /// Detail data stored in big-endian byte order: the most significant
    /// value is first in the array.
    detail: [u8; 3],
}

/// Indicates that input data could not be converted to a valid
/// [`VerifyError`].
#[derive(Debug)]
pub struct InvalidVerifyError;

impl VerifyError {
    /// The top-level code of this error.
    pub closed spec fn spec_code(self) -> VerifyErrorCode {
        self.code
    }

    /// The three detail bytes of this error.
    pub closed spec fn spec_detail(self) -> [u8; 3] {
        self.detail
    }

    /// The error holding `code` and `detail`.
    pub closed spec fn spec_with(code: VerifyErrorCode, detail: [u8; 3]) -> VerifyError {
        VerifyError { code, detail }
    }

    /// An error is exactly its code and its detail bytes.
    pub proof fn lemma_spec_with(code: VerifyErrorCode, detail: [u8; 3], e: VerifyError)
        ensures
            Self::spec_with(code, detail).spec_code() == code,
            Self::spec_with(code, detail).spec_detail() == detail,
            Self::spec_with(e.spec_code(), e.spec_detail()) == e,
    {
    }

    /// The error holds exactly this code and these detail bytes.
    pub open spec fn spec_is(self, code: VerifyErrorCode, detail: [u8; 3]) -> bool {
        &&& self.spec_code() == code
        &&& self.spec_detail() == detail
        &&& self == Self::spec_with(code, detail)
    }

    /// The 32-bit word this error packs to: the code in the most
    /// significant byte, then the detail bytes.
    pub open spec fn spec_to_u32(self) -> u32 {
        spec_u32_from_be_bytes(
            self.spec_code().spec_as_u8(),
            self.spec_detail()[0],
            self.spec_detail()[1],
            self.spec_detail()[2],
        )
    }

    /// The error a 32-bit word unpacks to, if its most significant byte is
    /// a recognized code.
    pub open spec fn spec_try_from_u32(value: u32) -> Result<VerifyError, InvalidVerifyError> {
        match VerifyErrorCode::spec_from_u8(spec_be_byte0(value)) {
            Some(code) => Ok(
                Self::spec_with(
                    code,
                    [spec_be_byte1(value), spec_be_byte2(value), spec_be_byte3(value)],
                ),
            ),
            None => Err(InvalidVerifyError),
        }
    }

    /// An error with the given code and empty details.
    fn new(code: VerifyErrorCode) -> (r: VerifyError)
        ensures
            r.spec_is(code, [0u8, 0u8, 0u8]),
    {
        VerifyError { code, detail: [0, 0, 0] }
    }

    /// Replaces the detail bytes.
    pub fn with_detail(self, detail: [u8; 3]) -> (r: VerifyError)
        ensures
            r.spec_is(self.spec_code(), detail),
    {
        VerifyError { code: self.code, detail }
    }

    /// The top-level code.
    pub fn code(self) -> (r: VerifyErrorCode)
        ensures
            r == self.spec_code(),
    {
        self.code
    }

    /// The detail bytes, most significant first.
    pub fn detail(self) -> (r: [u8; 3])
        ensures
            r == self.spec_detail(),
    {
        self.detail
    }

    /// Failures in validating the write protect status registers.
    ///
    /// The detail records the observed register value, then the
    /// provisioned expected value and mask.  An unreadable descriptor is
    /// represented with a mask of 0 (which would normally always pass) and
    /// the [`crate::self_check::BadValue`] wire value in the middle byte.
    #[allow(non_snake_case)]
    pub fn FailedStatusRegister(
        register: StatusRegister,
        got: u8,
        expected: WriteProtectDescriptor,
    ) -> (r: VerifyError)
        ensures
            r.spec_is(
                match register {
                    StatusRegister::Register1 => VerifyErrorCode::FailedStatusRegister1,
                    StatusRegister::Register2 => VerifyErrorCode::FailedStatusRegister2,
                    StatusRegister::Register3 => VerifyErrorCode::FailedStatusRegister3,
                },
                match expected.spec_get() {
                    Ok((value, mask)) => [got, value, mask],
                    Err(e) => [got, e.spec_as_u8(), 0u8],
                },
            ),
    {
        let code = match register {
            StatusRegister::Register1 => VerifyErrorCode::FailedStatusRegister1,
            StatusRegister::Register2 => VerifyErrorCode::FailedStatusRegister2,
            StatusRegister::Register3 => VerifyErrorCode::FailedStatusRegister3,
        };
        // Invalid descriptors are represented with masks of 0, as this would
        // normally pass.
        let (value, mask) = match expected.get() {
            Ok((value, mask)) => (value, mask),
            Err(e) => (e.as_u8(), 0),
        };
        Self::new(code).with_detail([got, value, mask])
    }

    /// Attaches the location of the failing signature to a
    /// signature-verification failure.
    pub fn with_failed_signature_location(self, location: SignatureLocation) -> (r: VerifyError)
        ensures
            r.spec_is(
                self.spec_code(),
                [self.spec_detail()[0], location.spec_as_u8(), self.spec_detail()[2]],
            ),
    {
        let d = self.detail;
        VerifyError { code: self.code, detail: [d[0], location.as_u8(), d[2]] }
    }

    /// Error with the [`VerifyErrorCode::InconsistentGscvd`] code and
    /// empty details.
    #[allow(non_snake_case)]
    pub fn InconsistentGscvd() -> (r: VerifyError)
        ensures
            r.spec_is(VerifyErrorCode::InconsistentGscvd, [0u8, 0u8, 0u8]),
    {
        Self::new(VerifyErrorCode::InconsistentGscvd)
    }

    /// Error with the [`VerifyErrorCode::InconsistentKeyblock`] code and
    /// empty details.  This is currently only used for if the keyblock is
    /// too big.
    #[allow(non_snake_case)]
    pub fn InconsistentKeyblock() -> (r: VerifyError)
        ensures
            r.spec_is(VerifyErrorCode::InconsistentKeyblock, [0u8, 0u8, 0u8]),
    {
        Self::new(VerifyErrorCode::InconsistentKeyblock)
    }

    /// Error with the [`VerifyErrorCode::InconsistentKey`] code and empty
    /// details.
    #[allow(non_snake_case)]
    pub fn InconsistentKey() -> (r: VerifyError)
        ensures
            r.spec_is(VerifyErrorCode::InconsistentKey, [0u8, 0u8, 0u8]),
    {
        Self::new(VerifyErrorCode::InconsistentKey)
    }

    /// Error with the [`VerifyErrorCode::SpiRead`] code and empty details.
    #[allow(non_snake_case)]
    pub fn SpiRead() -> (r: VerifyError)
        ensures
            r.spec_is(VerifyErrorCode::SpiRead, [0u8, 0u8, 0u8]),
    {
        Self::new(VerifyErrorCode::SpiRead)
    }

    /// Error with the [`VerifyErrorCode::OutOfMemory`] code and empty
    /// details.
    #[allow(non_snake_case)]
    pub fn OutOfMemory() -> (r: VerifyError)
        ensures
            r.spec_is(VerifyErrorCode::OutOfMemory, [0u8, 0u8, 0u8]),
    {
        Self::new(VerifyErrorCode::OutOfMemory)
    }

    /// Error with the [`VerifyErrorCode::TooBig`] code and empty details.
    #[allow(non_snake_case)]
    pub fn TooBig() -> (r: VerifyError)
        ensures
            r.spec_is(VerifyErrorCode::TooBig, [0u8, 0u8, 0u8]),
    {
        Self::new(VerifyErrorCode::TooBig)
    }

    /// Error with the [`VerifyErrorCode::MissingGscvd`] code and empty
    /// details.
    #[allow(non_snake_case)]
    pub fn MissingGscvd() -> (r: VerifyError)
        ensures
            r.spec_is(VerifyErrorCode::MissingGscvd, [0u8, 0u8, 0u8]),
    {
        Self::new(VerifyErrorCode::MissingGscvd)
    }

    /// Error with the [`VerifyErrorCode::SettingNotProvisioned`] code and
    /// empty details.  This will only trigger if either none or just SPI
    /// settings are not provisioned.
    #[allow(non_snake_case)]
    pub fn SettingNotProvisioned() -> (r: VerifyError)
        ensures
            r.spec_is(VerifyErrorCode::SettingNotProvisioned, [0u8, 0u8, 0u8]),
    {
        Self::new(VerifyErrorCode::SettingNotProvisioned)
    }

    /// Error with the [`VerifyErrorCode::NonZeroGbbFlags`] code and empty
    /// details.
    #[allow(non_snake_case)]
    pub fn NonZeroGbbFlags() -> (r: VerifyError)
        ensures
            r.spec_is(VerifyErrorCode::NonZeroGbbFlags, [0u8, 0u8, 0u8]),
    {
        Self::new(VerifyErrorCode::NonZeroGbbFlags)
    }

    /// Error with the [`VerifyErrorCode::WrongRootKey`] code and empty
    /// details.
    #[allow(non_snake_case)]
    pub fn WrongRootKey() -> (r: VerifyError)
        ensures
            r.spec_is(VerifyErrorCode::WrongRootKey, [0u8, 0u8, 0u8]),
    {
        Self::new(VerifyErrorCode::WrongRootKey)
    }

    /// Error with the [`VerifyErrorCode::FailedVerification`] code and the
    /// packed [`FailedVerificationDetail`].
    #[allow(non_snake_case)]
    pub fn FailedVerification(details: FailedVerificationDetail) -> (r: VerifyError)
        ensures
            r.spec_is(VerifyErrorCode::FailedVerification, details.spec_to_details()),
    {
        let d = details.to_details();
        Self::new(VerifyErrorCode::FailedVerification).with_detail(d)
    }

    /// Error with the [`VerifyErrorCode::VersionMismatch`] code; the first
    /// detail byte names the structure carrying the unsupported version.
    #[allow(non_snake_case)]
    pub fn VersionMismatch(source: VersionMismatchSource) -> (r: VerifyError)
        ensures
            r.spec_is(VerifyErrorCode::VersionMismatch, [source.spec_as_u8(), 0u8, 0u8]),
    {
        Self::new(VerifyErrorCode::VersionMismatch).with_detail([source.as_u8(), 0, 0])
    }

    /// Error with the [`VerifyErrorCode::UnsupportedCryptoAlgorithm`]
    /// code; the detail holds the source and the big-endian algorithm
    /// identifier.
    #[allow(non_snake_case)]
    pub fn UnsupportedCryptoAlgorithm(source: CryptoAlgorithmSource, alg: u16) -> (r: VerifyError)
        ensures
            r.spec_is(
                VerifyErrorCode::UnsupportedCryptoAlgorithm,
                [source.spec_as_u8(), (alg >> 8) as u8, (alg & 0xFF) as u8],
            ),
    {
        let hi = (alg >> 8) as u8;
        let lo = (alg & 0xFF) as u8;
        Self::new(VerifyErrorCode::UnsupportedCryptoAlgorithm).with_detail([source.as_u8(), hi, lo])
    }

    /// Error with the [`VerifyErrorCode::Internal`] code; the detail holds
    /// the source and the big-endian source-specific code.
    #[allow(non_snake_case)]
    pub fn Internal(source: InternalErrorSource, code: u16) -> (r: VerifyError)
        ensures
            r.spec_is(
                VerifyErrorCode::Internal,
                [source.spec_as_u8(), (code >> 8) as u8, (code & 0xFF) as u8],
            ),
    {
        let hi = (code >> 8) as u8;
        let lo = (code & 0xFF) as u8;
        Self::new(VerifyErrorCode::Internal).with_detail([source.as_u8(), hi, lo])
    }

    /// Error with the [`VerifyErrorCode::BoardIdMismatch`] code.  `got`
    /// and `expected` both get 3 nibbles of data: only the top 12 bits of
    /// each 32-bit board ID survive, the low 20 bits are discarded.
    #[allow(non_snake_case)]
    pub fn BoardIdMismatch(got: u32, expected: u32) -> (r: VerifyError)
        ensures
            r.spec_is(
                VerifyErrorCode::BoardIdMismatch,
                [
                    spec_be_byte1(got >> 20 << 12 | expected >> 20),
                    spec_be_byte2(got >> 20 << 12 | expected >> 20),
                    spec_be_byte3(got >> 20 << 12 | expected >> 20),
                ],
            ),
    {
        let packed = got >> 20 << 12 | expected >> 20;
        let a = ((packed >> 16) & 0xFF) as u8;
        let b = ((packed >> 8) & 0xFF) as u8;
        let c = (packed & 0xFF) as u8;
        Self::new(VerifyErrorCode::BoardIdMismatch).with_detail([a, b, c])
    }
}

impl PartialEq for VerifyError {
    /// Two errors are equal when their codes and their detail bytes are.
    fn eq(&self, other: &VerifyError) -> (r: bool)
        ensures
            r == (*self == *other),
    {
        let r = self.code == other.code && self.detail[0] == other.detail[0] && self.detail[1]
            == other.detail[1] && self.detail[2] == other.detail[2];
        proof {
            if r {
                assert(self.detail =~= other.detail);
            }
        }
        r
    }
}

impl Eq for VerifyError {

}

impl vstd::std_specs::cmp::PartialEqSpecImpl for VerifyError {
    open spec fn obeys_eq_spec() -> bool {
        true
    }

    open spec fn eq_spec(&self, other: &VerifyError) -> bool {
        *self == *other
    }
}

impl core::convert::From<VerifyError> for u32 {
    /// Packs the error: the error code is the most significant byte, so
    /// the detailed code can be bound to a range of values that belong to
    /// a top-level [`VerifyErrorCode`].  Details are stored as big-endian
    /// bytes.
    fn from(value: VerifyError) -> (r: u32) {
        let d = value.detail;
        ((value.code.as_u8() as u32) << 24) | ((d[0] as u32) << 16) | ((d[1] as u32) << 8) | (
        d[2] as u32)
    }
}

impl vstd::std_specs::convert::FromSpecImpl<VerifyError> for u32 {
    open spec fn obeys_from_spec() -> bool {
        true
    }

    open spec fn from_spec(v: VerifyError) -> u32 {
        v.spec_to_u32()
    }
}

impl core::convert::TryFrom<u32> for VerifyError {
    type Error = InvalidVerifyError;

    /// Unpacks a 32-bit word; fails if the most significant byte is not a
    /// recognized [`VerifyErrorCode`].
    fn try_from(value: u32) -> (r: Result<VerifyError, InvalidVerifyError>) {
        let code = (value >> 24) as u8;
        let d0 = ((value >> 16) & 0xFF) as u8;
        let d1 = ((value >> 8) & 0xFF) as u8;
        let d2 = (value & 0xFF) as u8;
        match VerifyErrorCode::from_u8(code) {
            Some(c) => Ok(VerifyError::new(c).with_detail([d0, d1, d2])),
            None => Err(InvalidVerifyError),
        }
    }
}

impl vstd::std_specs::convert::TryFromSpecImpl<u32> for VerifyError {
    open spec fn obeys_try_from_spec() -> bool {
        true
    }

    open spec fn try_from_spec(v: u32) -> Result<VerifyError, InvalidVerifyError> {
        VerifyError::spec_try_from_u32(v)
    }
}

/// Round-trip: unpacking the 32-bit packing of any error yields a value
/// equal to the error in code and detail.
pub proof fn lemma_verify_error_round_trip(e: VerifyError)
    ensures
        VerifyError::spec_try_from_u32(e.spec_to_u32()) == Ok::<VerifyError, InvalidVerifyError>(e),
{
    let b0 = e.spec_code().spec_as_u8();
    let d = e.spec_detail();
    lemma_be_bytes_round_trip(b0, d[0], d[1], d[2], 0);
    lemma_code_value_round_trip(e.spec_code());
    assert([d[0], d[1], d[2]] =~= d);
}

/// Unpacking fails exactly when the most significant byte is outside the
/// assigned code range `1..VerifyErrorCode::END`.
pub proof fn lemma_unpack_fails_iff_unassigned_code(value: u32)
    ensures
        VerifyError::spec_try_from_u32(value) is Err <==> !(1 <= spec_be_byte0(value)
            < VerifyErrorCode::END),
{
}

/// No error packs to the reserved success word or to zero: the most
/// significant byte of a packed error is its code, which lies in
/// `1..VerifyErrorCode::END`, while the reserved word carries `0xFF`
/// there and the zero word carries `0`.
pub proof fn lemma_error_packing_avoids_success_and_zero(e: VerifyError)
    ensures
        e.spec_to_u32() != 0xFFFF_F000u32,
        e.spec_to_u32() != 0u32,
{
    let b0 = e.spec_code().spec_as_u8();
    let d = e.spec_detail();
    lemma_be_bytes_round_trip(b0, d[0], d[1], d[2], 0);
    assert(spec_be_byte0(0xFFFF_F000u32) == 0xFFu8) by (bit_vector);
    assert(spec_be_byte0(0u32) == 0u8) by (bit_vector);
}

} // verus!
