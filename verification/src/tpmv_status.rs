//! The one-byte status space used on the secondary reporting channel.
//!
//! Its numbering is independent of [`crate::codes::VerifyErrorCode`]: the
//! two are parallel taxonomies over an overlapping but not identical set
//! of outcomes, and must never be assumed numerically comparable.  The
//! values `34` and `35` are permanently reserved because an earlier
//! placeholder for the unknown state once aliased them; they must stay
//! unassigned rather than be reused.

use vstd::prelude::*;

verus! {

/// Status of the read-only region verification as reported on the
/// one-byte channel.
#[derive(Clone, Copy, Debug, PartialEq, Eq, Hash, Structural)]
pub enum ApRoVerificationTpmvStatus {
    /// Success.
    Success,
    /// Consistent verification data was found, but it failed cryptographic
    /// verification.
    FailedVerification,
    /// The GSC verification data wasn't correctly laid out.
    InconsistentGscvd,
    /// The keyblock wasn't correctly laid out.
    InconsistentKeyblock,
    /// The key stored wasn't in a valid format.
    InconsistentKey,
    /// A SPI read operation failed while communicating with AP flash.
    SpiRead,
    /// The data uses a crypto algorithm that is unsupported.
    UnsupportedCryptoAlgorithm,
    /// A structure version is unsupported.
    VersionMismatch,
    /// There was not enough reserved memory to perform the operation as
    /// requested.
    OutOfMemory,
    /// A miscellaneous internal error occurred.
    Internal,
    /// A data structure was too large.
    TooBig,
    /// There was no GSCVD present in flash.
    MissingGscvd,
    /// The Board ID for this GSCVD is not correct for this board.
    BoardIdMismatch,
    /// A necessary setting was not provisioned or was invalid.
    SettingNotProvisioned,
    /// Verification failed solely because the GBB flags are non-zero.
    NonZeroGbbFlags,
    /// The root key was recognized, but is disabled by security policy.
    WrongRootkey,
    /// Unknown error.
    Unknown,
}

impl ApRoVerificationTpmvStatus {
    /// Exclusive upper bound of the wire values.
    pub const END: usize = 256;

    /// The wire value of this status.  The assigned values run `20..34`
    /// and `36..38`, plus the `255` sentinel for the unknown state.
    pub open spec fn spec_as_u8(self) -> u8 {
        match self {
            ApRoVerificationTpmvStatus::Success => 20,
            ApRoVerificationTpmvStatus::FailedVerification => 21,
            ApRoVerificationTpmvStatus::InconsistentGscvd => 22,
            ApRoVerificationTpmvStatus::InconsistentKeyblock => 23,
            ApRoVerificationTpmvStatus::InconsistentKey => 24,
            ApRoVerificationTpmvStatus::SpiRead => 25,
            ApRoVerificationTpmvStatus::UnsupportedCryptoAlgorithm => 26,
            ApRoVerificationTpmvStatus::VersionMismatch => 27,
            ApRoVerificationTpmvStatus::OutOfMemory => 28,
            ApRoVerificationTpmvStatus::Internal => 29,
            ApRoVerificationTpmvStatus::TooBig => 30,
            ApRoVerificationTpmvStatus::MissingGscvd => 31,
            ApRoVerificationTpmvStatus::BoardIdMismatch => 32,
            ApRoVerificationTpmvStatus::SettingNotProvisioned => 33,
            ApRoVerificationTpmvStatus::NonZeroGbbFlags => 36,
            ApRoVerificationTpmvStatus::WrongRootkey => 37,
            ApRoVerificationTpmvStatus::Unknown => 255,
        }
    }

    /// The status carried by a wire value, if any.
    pub open spec fn spec_from_u8(v: u8) -> Option<ApRoVerificationTpmvStatus> {
        match v {
            20u8 => Some(ApRoVerificationTpmvStatus::Success),
            21u8 => Some(ApRoVerificationTpmvStatus::FailedVerification),
            22u8 => Some(ApRoVerificationTpmvStatus::InconsistentGscvd),
            23u8 => Some(ApRoVerificationTpmvStatus::InconsistentKeyblock),
            24u8 => Some(ApRoVerificationTpmvStatus::InconsistentKey),
            25u8 => Some(ApRoVerificationTpmvStatus::SpiRead),
            26u8 => Some(ApRoVerificationTpmvStatus::UnsupportedCryptoAlgorithm),
            27u8 => Some(ApRoVerificationTpmvStatus::VersionMismatch),
            28u8 => Some(ApRoVerificationTpmvStatus::OutOfMemory),
            29u8 => Some(ApRoVerificationTpmvStatus::Internal),
            30u8 => Some(ApRoVerificationTpmvStatus::TooBig),
            31u8 => Some(ApRoVerificationTpmvStatus::MissingGscvd),
            32u8 => Some(ApRoVerificationTpmvStatus::BoardIdMismatch),
            33u8 => Some(ApRoVerificationTpmvStatus::SettingNotProvisioned),
            36u8 => Some(ApRoVerificationTpmvStatus::NonZeroGbbFlags),
            37u8 => Some(ApRoVerificationTpmvStatus::WrongRootkey),
            255u8 => Some(ApRoVerificationTpmvStatus::Unknown),
            _ => None,
        }
    }

    /// Returns the wire value of this status.
    pub fn as_u8(self) -> (r: u8)
        ensures
            r == self.spec_as_u8(),
    {
        match self {
            ApRoVerificationTpmvStatus::Success => 20,
            ApRoVerificationTpmvStatus::FailedVerification => 21,
            ApRoVerificationTpmvStatus::InconsistentGscvd => 22,
            ApRoVerificationTpmvStatus::InconsistentKeyblock => 23,
            ApRoVerificationTpmvStatus::InconsistentKey => 24,
            ApRoVerificationTpmvStatus::SpiRead => 25,
            ApRoVerificationTpmvStatus::UnsupportedCryptoAlgorithm => 26,
            ApRoVerificationTpmvStatus::VersionMismatch => 27,
            ApRoVerificationTpmvStatus::OutOfMemory => 28,
            ApRoVerificationTpmvStatus::Internal => 29,
            ApRoVerificationTpmvStatus::TooBig => 30,
            ApRoVerificationTpmvStatus::MissingGscvd => 31,
            ApRoVerificationTpmvStatus::BoardIdMismatch => 32,
            ApRoVerificationTpmvStatus::SettingNotProvisioned => 33,
            ApRoVerificationTpmvStatus::NonZeroGbbFlags => 36,
            ApRoVerificationTpmvStatus::WrongRootkey => 37,
            ApRoVerificationTpmvStatus::Unknown => 255,
        }
    }

    /// Bounds-checked conversion from a wire value to a status.  The
    /// reserved values `34` and `35` and every unassigned value yield
    /// `None`; consumers report them as unknown rather than silently
    /// accepting them.
    pub fn from_u8(v: u8) -> (r: Option<ApRoVerificationTpmvStatus>)
        ensures
            r == Self::spec_from_u8(v),
            r matches Some(s) ==> s.spec_as_u8() == v,
            r is Some <==> (20 <= v < 34 || v == 36 || v == 37 || v == 255),
    {
        match v {
            20u8 => Some(ApRoVerificationTpmvStatus::Success),
            21u8 => Some(ApRoVerificationTpmvStatus::FailedVerification),
            22u8 => Some(ApRoVerificationTpmvStatus::InconsistentGscvd),
            23u8 => Some(ApRoVerificationTpmvStatus::InconsistentKeyblock),
            24u8 => Some(ApRoVerificationTpmvStatus::InconsistentKey),
            25u8 => Some(ApRoVerificationTpmvStatus::SpiRead),
            26u8 => Some(ApRoVerificationTpmvStatus::UnsupportedCryptoAlgorithm),
            27u8 => Some(ApRoVerificationTpmvStatus::VersionMismatch),
            28u8 => Some(ApRoVerificationTpmvStatus::OutOfMemory),
            29u8 => Some(ApRoVerificationTpmvStatus::Internal),
            30u8 => Some(ApRoVerificationTpmvStatus::TooBig),
            31u8 => Some(ApRoVerificationTpmvStatus::MissingGscvd),
            32u8 => Some(ApRoVerificationTpmvStatus::BoardIdMismatch),
            33u8 => Some(ApRoVerificationTpmvStatus::SettingNotProvisioned),
            36u8 => Some(ApRoVerificationTpmvStatus::NonZeroGbbFlags),
            37u8 => Some(ApRoVerificationTpmvStatus::WrongRootkey),
            255u8 => Some(ApRoVerificationTpmvStatus::Unknown),
            _ => None,
        }
    }

    /// A short human-readable description of this status.
    pub fn to_str(self) -> (r: &'static str)
        ensures
            self is Success ==> r@ == "OK"@,
            self is FailedVerification ==> r@ == "FAIL"@,
            self is InconsistentGscvd ==> r@ == "bad gvd"@,
            self is InconsistentKeyblock ==> r@ == "bad keyblock"@,
            self is InconsistentKey ==> r@ == "bad key"@,
            self is SpiRead ==> r@ == "spi err"@,
            self is UnsupportedCryptoAlgorithm ==> r@ == "bad crypto"@,
            self is VersionMismatch ==> r@ == "bad version"@,
            self is OutOfMemory ==> r@ == "oom"@,
            self is Internal ==> r@ == "internal"@,
            self is TooBig ==> r@ == "too big"@,
            self is MissingGscvd ==> r@ == "no gvd"@,
            self is BoardIdMismatch ==> r@ == "wrong board id"@,
            self is SettingNotProvisioned ==> r@ == "setting unprovisioned"@,
            self is NonZeroGbbFlags ==> r@ == "Would pass with zeroed GBB flags"@,
            self is WrongRootkey ==> r@ == "Only MP prod root key is accepted"@,
            self is Unknown ==> r@ == "unknown"@,
    {
        match self {
            ApRoVerificationTpmvStatus::Success => "OK",
            ApRoVerificationTpmvStatus::FailedVerification => "FAIL",
            ApRoVerificationTpmvStatus::InconsistentGscvd => "bad gvd",
            ApRoVerificationTpmvStatus::InconsistentKeyblock => "bad keyblock",
            ApRoVerificationTpmvStatus::InconsistentKey => "bad key",
            ApRoVerificationTpmvStatus::SpiRead => "spi err",
            ApRoVerificationTpmvStatus::UnsupportedCryptoAlgorithm => "bad crypto",
            ApRoVerificationTpmvStatus::VersionMismatch => "bad version",
            ApRoVerificationTpmvStatus::OutOfMemory => "oom",
            ApRoVerificationTpmvStatus::Internal => "internal",
            ApRoVerificationTpmvStatus::TooBig => "too big",
            ApRoVerificationTpmvStatus::MissingGscvd => "no gvd",
            ApRoVerificationTpmvStatus::BoardIdMismatch => "wrong board id",
            ApRoVerificationTpmvStatus::SettingNotProvisioned => "setting unprovisioned",
            ApRoVerificationTpmvStatus::NonZeroGbbFlags => "Would pass with zeroed GBB flags",
            ApRoVerificationTpmvStatus::WrongRootkey => "Only MP prod root key is accepted",
            ApRoVerificationTpmvStatus::Unknown => "unknown",
        }
    }
}

} // verus!
