//! The top-level verification error codes and the enums embedded in their
//! detail payloads.
//!
//! Every enum here names its wire values through a pair of total,
//! bounds-checked conversions: `spec_as_u8` (the numeric value of a
//! variant) and `from_u8` (the variant of a numeric value, if any), with
//! `END` as the exclusive upper bound of the assigned values.  Wire values
//! cannot change; they can only be appended.

use vstd::prelude::*;

verus! {

/// All of the verification errors that can occur while validating the
/// application processor's read-only flash region.
#[derive(Clone, Copy, Debug, PartialEq, Eq, Hash, Structural)]
pub enum VerifyErrorCode {
    /// Consistent verification data was found, but it failed cryptographic
    /// verification.
    FailedVerification,
    /// Failed write-protect status register verification on
    /// [`StatusRegister::Register1`].
    FailedStatusRegister1,
    /// Failed write-protect status register verification on
    /// [`StatusRegister::Register2`].
    FailedStatusRegister2,
    /// Failed write-protect status register verification on
    /// [`StatusRegister::Register3`].
    FailedStatusRegister3,
    /// The GSC verification data wasn't correctly laid out.
    InconsistentGscvd,
    /// The keyblock wasn't correctly laid out.
    InconsistentKeyblock,
    /// The key stored wasn't in a valid format.
    InconsistentKey,
    /// A SPI read operation failed while communicating with AP flash.
    SpiRead,
    /// The data uses a crypto algorithm that is unsupported.
    UnsupportedCryptoAlgorithm,
    /// A structure version is unsupported.
    VersionMismatch,
    /// There was not enough reserved memory to perform the operation as
    /// requested.
    OutOfMemory,
    /// A miscellaneous internal error occurred.
    Internal,
    /// A data structure was too large.
    TooBig,
    /// There was no GSCVD present in flash.
    MissingGscvd,
    /// The Board ID for this GSCVD is not correct for this board.
    BoardIdMismatch,
    /// A necessary setting was not provisioned or was invalid.
    SettingNotProvisioned,
    /// Verification failed solely because the GBB flags are non-zero.
    NonZeroGbbFlags,
    /// The verification root key hash matched, but the key use is not
    /// authorized any more because only the MP prod key is allowed at this
    /// point.
    WrongRootKey,
}

impl VerifyErrorCode {
    /// Exclusive upper bound of the wire values; `0` is reserved and never
    /// valid, so the values run `1..END`.
    pub const END: usize = 19;

    /// The wire value of this code.
    pub open spec fn spec_as_u8(self) -> u8 {
        match self {
            VerifyErrorCode::FailedVerification => 1,
            VerifyErrorCode::FailedStatusRegister1 => 2,
            VerifyErrorCode::FailedStatusRegister2 => 3,
            VerifyErrorCode::FailedStatusRegister3 => 4,
            VerifyErrorCode::InconsistentGscvd => 5,
            VerifyErrorCode::InconsistentKeyblock => 6,
            VerifyErrorCode::InconsistentKey => 7,
            VerifyErrorCode::SpiRead => 8,
            VerifyErrorCode::UnsupportedCryptoAlgorithm => 9,
            VerifyErrorCode::VersionMismatch => 10,
            VerifyErrorCode::OutOfMemory => 11,
            VerifyErrorCode::Internal => 12,
            VerifyErrorCode::TooBig => 13,
            VerifyErrorCode::MissingGscvd => 14,
            VerifyErrorCode::BoardIdMismatch => 15,
            VerifyErrorCode::SettingNotProvisioned => 16,
            VerifyErrorCode::NonZeroGbbFlags => 17,
            VerifyErrorCode::WrongRootKey => 18,
        }
    }

    /// The code carried by a wire value, if any.
    pub open spec fn spec_from_u8(v: u8) -> Option<VerifyErrorCode> {
        match v {
            1u8 => Some(VerifyErrorCode::FailedVerification),
            2u8 => Some(VerifyErrorCode::FailedStatusRegister1),
            3u8 => Some(VerifyErrorCode::FailedStatusRegister2),
            4u8 => Some(VerifyErrorCode::FailedStatusRegister3),
            5u8 => Some(VerifyErrorCode::InconsistentGscvd),
            6u8 => Some(VerifyErrorCode::InconsistentKeyblock),
            7u8 => Some(VerifyErrorCode::InconsistentKey),
            8u8 => Some(VerifyErrorCode::SpiRead),
            9u8 => Some(VerifyErrorCode::UnsupportedCryptoAlgorithm),
            10u8 => Some(VerifyErrorCode::VersionMismatch),
            11u8 => Some(VerifyErrorCode::OutOfMemory),
            12u8 => Some(VerifyErrorCode::Internal),
            13u8 => Some(VerifyErrorCode::TooBig),
            14u8 => Some(VerifyErrorCode::MissingGscvd),
            15u8 => Some(VerifyErrorCode::BoardIdMismatch),
            16u8 => Some(VerifyErrorCode::SettingNotProvisioned),
            17u8 => Some(VerifyErrorCode::NonZeroGbbFlags),
            18u8 => Some(VerifyErrorCode::WrongRootKey),
            _ => None,
        }
    }

    /// Returns the wire value of this code.
    pub fn as_u8(self) -> (r: u8)
        ensures
            r == self.spec_as_u8(),
            1 <= r < Self::END,
    {
        match self {
            VerifyErrorCode::FailedVerification => 1,
            VerifyErrorCode::FailedStatusRegister1 => 2,
            VerifyErrorCode::FailedStatusRegister2 => 3,
            VerifyErrorCode::FailedStatusRegister3 => 4,
            VerifyErrorCode::InconsistentGscvd => 5,
            VerifyErrorCode::InconsistentKeyblock => 6,
            VerifyErrorCode::InconsistentKey => 7,
            VerifyErrorCode::SpiRead => 8,
            VerifyErrorCode::UnsupportedCryptoAlgorithm => 9,
            VerifyErrorCode::VersionMismatch => 10,
            VerifyErrorCode::OutOfMemory => 11,
            VerifyErrorCode::Internal => 12,
            VerifyErrorCode::TooBig => 13,
            VerifyErrorCode::MissingGscvd => 14,
            VerifyErrorCode::BoardIdMismatch => 15,
            VerifyErrorCode::SettingNotProvisioned => 16,
            VerifyErrorCode::NonZeroGbbFlags => 17,
            VerifyErrorCode::WrongRootKey => 18,
        }
    }

    /// Bounds-checked conversion from a wire value to a code.
    pub fn from_u8(v: u8) -> (r: Option<VerifyErrorCode>)
        ensures
            r == Self::spec_from_u8(v),
            r matches Some(c) ==> c.spec_as_u8() == v,
            r is Some <==> 1 <= v < Self::END,
    {
        match v {
            1u8 => Some(VerifyErrorCode::FailedVerification),
            2u8 => Some(VerifyErrorCode::FailedStatusRegister1),
            3u8 => Some(VerifyErrorCode::FailedStatusRegister2),
            4u8 => Some(VerifyErrorCode::FailedStatusRegister3),
            5u8 => Some(VerifyErrorCode::InconsistentGscvd),
            6u8 => Some(VerifyErrorCode::InconsistentKeyblock),
            7u8 => Some(VerifyErrorCode::InconsistentKey),
            8u8 => Some(VerifyErrorCode::SpiRead),
            9u8 => Some(VerifyErrorCode::UnsupportedCryptoAlgorithm),
            10u8 => Some(VerifyErrorCode::VersionMismatch),
            11u8 => Some(VerifyErrorCode::OutOfMemory),
            12u8 => Some(VerifyErrorCode::Internal),
            13u8 => Some(VerifyErrorCode::TooBig),
            14u8 => Some(VerifyErrorCode::MissingGscvd),
            15u8 => Some(VerifyErrorCode::BoardIdMismatch),
            16u8 => Some(VerifyErrorCode::SettingNotProvisioned),
            17u8 => Some(VerifyErrorCode::NonZeroGbbFlags),
            18u8 => Some(VerifyErrorCode::WrongRootKey),
            _ => None,
        }
    }
}

/// A code's wire value converts back to the code itself.
pub proof fn lemma_code_value_round_trip(c: VerifyErrorCode)
    ensures
        VerifyErrorCode::spec_from_u8(c.spec_as_u8()) == Some(c),
{
}

/// The write-protect status registers whose contents are validated.
#[derive(Clone, Copy, Debug)]
pub enum StatusRegister {
    /// Read Status Register-1 (05h)
    Register1,
    /// Read Status Register-2 (35h)
    Register2,
    /// Read Status Register-3 (15h)
    Register3,
}

/// Details for the [`VerifyErrorCode::Internal`] error.
#[derive(Clone, Copy, Debug, PartialEq, Eq, Hash, Structural)]
pub enum InternalErrorSource {
    /// The lower bytes are a kernel error code.
    Kernel,
    /// The lower bytes are a crypto error code.  Note the values are all
    /// negative.
    Crypto,
    /// Should never happen.
    VerifyFlashRanges,
    /// The cached verification result value was not parsable into a valid
    /// result again.
    CouldNotDeserialize,
}

impl InternalErrorSource {
    /// Exclusive upper bound of the wire values.
    pub const END: usize = 5;

    /// The wire value of this source.
    pub open spec fn spec_as_u8(self) -> u8 {
        match self {
            InternalErrorSource::Kernel => 1,
            InternalErrorSource::Crypto => 2,
            InternalErrorSource::VerifyFlashRanges => 3,
            InternalErrorSource::CouldNotDeserialize => 4,
        }
    }

    /// The source carried by a wire value, if any.
    pub open spec fn spec_from_u8(v: u8) -> Option<InternalErrorSource> {
        match v {
            1u8 => Some(InternalErrorSource::Kernel),
            2u8 => Some(InternalErrorSource::Crypto),
            3u8 => Some(InternalErrorSource::VerifyFlashRanges),
            4u8 => Some(InternalErrorSource::CouldNotDeserialize),
            _ => None,
        }
    }

    /// Returns the wire value of this source.
    pub fn as_u8(self) -> (r: u8)
        ensures
            r == self.spec_as_u8(),
    {
        match self {
            InternalErrorSource::Kernel => 1,
            InternalErrorSource::Crypto => 2,
            InternalErrorSource::VerifyFlashRanges => 3,
            InternalErrorSource::CouldNotDeserialize => 4,
        }
    }

    /// Bounds-checked conversion from a wire value to a source.
    pub fn from_u8(v: u8) -> (r: Option<InternalErrorSource>)
        ensures
            r == Self::spec_from_u8(v),
            r matches Some(s) ==> s.spec_as_u8() == v,
            r is Some <==> 1 <= v < Self::END,
    {
        match v {
            1u8 => Some(InternalErrorSource::Kernel),
            2u8 => Some(InternalErrorSource::Crypto),
            3u8 => Some(InternalErrorSource::VerifyFlashRanges),
            4u8 => Some(InternalErrorSource::CouldNotDeserialize),
            _ => None,
        }
    }
}

/// Details for the [`VerifyErrorCode::VersionMismatch`] error.
#[derive(Clone, Copy, Debug, PartialEq, Eq, Hash, Structural)]
pub enum VersionMismatchSource {
    /// The GSC verification data carried the unsupported version.
    Gscvd,
    /// The keyblock carried the unsupported version.
    Keyblock,
}

impl VersionMismatchSource {
    /// Exclusive upper bound of the wire values.
    pub const END: usize = 3;

    /// The wire value of this source.
    pub open spec fn spec_as_u8(self) -> u8 {
        match self {
            VersionMismatchSource::Gscvd => 1,
            VersionMismatchSource::Keyblock => 2,
        }
    }

    /// The source carried by a wire value, if any.
    pub open spec fn spec_from_u8(v: u8) -> Option<VersionMismatchSource> {
        match v {
            1u8 => Some(VersionMismatchSource::Gscvd),
            2u8 => Some(VersionMismatchSource::Keyblock),
            _ => None,
        }
    }

    /// Returns the wire value of this source.
    pub fn as_u8(self) -> (r: u8)
        ensures
            r == self.spec_as_u8(),
    {
        match self {
            VersionMismatchSource::Gscvd => 1,
            VersionMismatchSource::Keyblock => 2,
        }
    }

    /// Bounds-checked conversion from a wire value to a source.
    pub fn from_u8(v: u8) -> (r: Option<VersionMismatchSource>)
        ensures
            r == Self::spec_from_u8(v),
            r matches Some(s) ==> s.spec_as_u8() == v,
            r is Some <==> 1 <= v < Self::END,
    {
        match v {
            1u8 => Some(VersionMismatchSource::Gscvd),
            2u8 => Some(VersionMismatchSource::Keyblock),
            _ => None,
        }
    }
}

/// Details for the [`VerifyErrorCode::UnsupportedCryptoAlgorithm`] error.
#[derive(Clone, Copy, Debug, PartialEq, Eq, Hash, Structural)]
pub enum CryptoAlgorithmSource {
    /// The GSC verification data named the unsupported algorithm.
    Gscvd,
    /// A packed key, either the root key or platform key, named it.
    Vb2PackedKey,
}

impl CryptoAlgorithmSource {
    /// Exclusive upper bound of the wire values; the values `2` and `3`
    /// are skipped.
    pub const END: usize = 5;

    /// The wire value of this source.
    pub open spec fn spec_as_u8(self) -> u8 {
        match self {
            CryptoAlgorithmSource::Gscvd => 1,
            CryptoAlgorithmSource::Vb2PackedKey => 4,
        }
    }

    /// The source carried by a wire value, if any.
    pub open spec fn spec_from_u8(v: u8) -> Option<CryptoAlgorithmSource> {
        match v {
            1u8 => Some(CryptoAlgorithmSource::Gscvd),
            4u8 => Some(CryptoAlgorithmSource::Vb2PackedKey),
            _ => None,
        }
    }

    /// Returns the wire value of this source.
    pub fn as_u8(self) -> (r: u8)
        ensures
            r == self.spec_as_u8(),
    {
        match self {
            CryptoAlgorithmSource::Gscvd => 1,
            CryptoAlgorithmSource::Vb2PackedKey => 4,
        }
    }

    /// Bounds-checked conversion from a wire value to a source.
    pub fn from_u8(v: u8) -> (r: Option<CryptoAlgorithmSource>)
        ensures
            r == Self::spec_from_u8(v),
            r matches Some(s) ==> s.spec_as_u8() == v,
            r is Some <==> v == 1 || v == 4,
    {
        match v {
            1u8 => Some(CryptoAlgorithmSource::Gscvd),
            4u8 => Some(CryptoAlgorithmSource::Vb2PackedKey),
            _ => None,
        }
    }
}

/// Part of the top byte of the detail for
/// [`VerifyErrorCode::FailedVerification`].
#[derive(Clone, Copy, Debug, PartialEq, Eq, Hash, Structural)]
pub enum SignatureLocation {
    /// The signature over the GSC verification data failed.
    Gscvd,
    /// The signature over the keyblock failed.
    Keyblock,
}

impl SignatureLocation {
    /// Exclusive upper bound of the wire values.
    pub const END: usize = 3;

    /// The wire value of this location.
    pub open spec fn spec_as_u8(self) -> u8 {
        match self {
            SignatureLocation::Gscvd => 1,
            SignatureLocation::Keyblock => 2,
        }
    }

    /// The location carried by a wire value, if any.
    pub open spec fn spec_from_u8(v: u8) -> Option<SignatureLocation> {
        match v {
            1u8 => Some(SignatureLocation::Gscvd),
            2u8 => Some(SignatureLocation::Keyblock),
            _ => None,
        }
    }

    /// Returns the wire value of this location.
    pub fn as_u8(self) -> (r: u8)
        ensures
            r == self.spec_as_u8(),
    {
        match self {
            SignatureLocation::Gscvd => 1,
            SignatureLocation::Keyblock => 2,
        }
    }

    /// Bounds-checked conversion from a wire value to a location.
    pub fn from_u8(v: u8) -> (r: Option<SignatureLocation>)
        ensures
            r == Self::spec_from_u8(v),
            r matches Some(s) ==> s.spec_as_u8() == v,
            r is Some <==> 1 <= v < Self::END,
    {
        match v {
            1u8 => Some(SignatureLocation::Gscvd),
            2u8 => Some(SignatureLocation::Keyblock),
            _ => None,
        }
    }
}

/// Part of the top byte of the detail for
/// [`VerifyErrorCode::FailedVerification`].
///
/// The wire value lives in a nibble, so its maximum is 15.
#[derive(Clone, Copy, Debug, PartialEq, Eq, Hash, Structural)]
pub enum DigestLocation {
    /// The protected regions of AP flash covered by the GSCVD.
    ProtectedRegions,
    /// The cache for the GSCVD header.
    GvdCache,
    /// The root key.
    RootKey,
}

impl DigestLocation {
    /// Exclusive upper bound of the wire values; must stay at most 16 so a
    /// value fits in the low nibble of the detail's top byte.
    pub const END: usize = 4;

    /// The wire value of this location.
    pub open spec fn spec_as_u8(self) -> u8 {
        match self {
            DigestLocation::ProtectedRegions => 1,
            DigestLocation::GvdCache => 2,
            DigestLocation::RootKey => 3,
        }
    }

    /// The location carried by a wire value, if any.
    pub open spec fn spec_from_u8(v: u8) -> Option<DigestLocation> {
        match v {
            1u8 => Some(DigestLocation::ProtectedRegions),
            2u8 => Some(DigestLocation::GvdCache),
            3u8 => Some(DigestLocation::RootKey),
            _ => None,
        }
    }

    /// Returns the wire value of this location.
    pub fn as_u8(self) -> (r: u8)
        ensures
            r == self.spec_as_u8(),
            1 <= r < Self::END,
    {
        match self {
            DigestLocation::ProtectedRegions => 1,
            DigestLocation::GvdCache => 2,
            DigestLocation::RootKey => 3,
        }
    }

    /// Bounds-checked conversion from a wire value to a location.
    pub fn from_u8(v: u8) -> (r: Option<DigestLocation>)
        ensures
            r == Self::spec_from_u8(v),
            r matches Some(s) ==> s.spec_as_u8() == v,
            r is Some <==> 1 <= v < Self::END,
    {
        match v {
            1u8 => Some(DigestLocation::ProtectedRegions),
            2u8 => Some(DigestLocation::GvdCache),
            3u8 => Some(DigestLocation::RootKey),
            _ => None,
        }
    }
}

} // verus!
