//! The 32-bit status word wrapping success or a [`VerifyError`].
//!
//! One reserved bit pattern means success.  Its most significant byte is
//! `0xFF`, outside the assigned code range, so no packed error can alias
//! it; and it differs from `0`, so zero-initialized or power-on-reset
//! storage reads as a failure, never as spurious success.

use vstd::prelude::*;

use crate::codes::{InternalErrorSource, VerifyErrorCode};
use crate::verify_error::{
    InvalidVerifyError, VerifyError, lemma_error_packing_avoids_success_and_zero,
    lemma_verify_error_round_trip,
};

verus! {

/// Represents success or failure of the read-only region verification.
#[derive(Clone, Copy)]
pub struct ApRoVerificationResult(Result<(), VerifyError>);

/// The word a verification outcome serializes to: the reserved success
/// pattern for success, the packed error otherwise.
pub open spec fn spec_serialized(r: Result<(), VerifyError>) -> u32 {
    match r {
        Ok(_) => ApRoVerificationResult::SERIALIZED_SUCCESS,
        Err(e) => e.spec_to_u32(),
    }
}

/// The outcome a word deserializes to.  The reserved pattern means
/// success; any other word unpacks as an error, falling back to
/// `Internal(CouldNotDeserialize, 0)` when its code byte is unassigned.
pub open spec fn spec_deserialized(value: u32) -> Result<(), VerifyError> {
    if value == ApRoVerificationResult::SERIALIZED_SUCCESS {
        Ok(())
    } else {
        match VerifyError::spec_try_from_u32(value) {
            Ok(e) => Err(e),
            Err(_) => Err(
                VerifyError::spec_with(
                    VerifyErrorCode::Internal,
                    [InternalErrorSource::CouldNotDeserialize.spec_as_u8(), 0u8, 0u8],
                ),
            ),
        }
    }
}

impl ApRoVerificationResult {
    /// Value that represents the success value both in long life scratch
    /// and the detailed telemetry value.  We do not want to use `0`, `!0`,
    /// or any value that aliases to a detailed error.
    pub const SERIALIZED_SUCCESS: u32 = 0xFFFF_F000;

    /// The wrapped outcome.
    pub closed spec fn spec_result(self) -> Result<(), VerifyError> {
        self.0
    }

    /// The wrapper around an outcome.
    pub closed spec fn spec_wrap(r: Result<(), VerifyError>) -> ApRoVerificationResult {
        ApRoVerificationResult(r)
    }

    /// A wrapper is exactly its wrapped outcome.
    pub proof fn lemma_spec_wrap(r: Result<(), VerifyError>, w: ApRoVerificationResult)
        ensures
            Self::spec_wrap(r).spec_result() == r,
            Self::spec_wrap(w.spec_result()) == w,
    {
    }

    /// Returns true if the read-only region verification successfully
    /// passed.
    pub fn is_success(self) -> (r: bool)
        ensures
            r == (self.spec_result() is Ok),
    {
        self.0.is_ok()
    }
}

impl core::convert::From<u32> for ApRoVerificationResult {
    /// Deserializes a status word; an unrecognized word becomes the
    /// `Internal(CouldNotDeserialize, 0)` fallback error rather than a
    /// fault, so persisted data stays decodable across firmware versions.
    fn from(value: u32) -> (r: ApRoVerificationResult) {
        proof {
            assert(0u16 >> 8 == 0 && 0u16 & 0xFF == 0) by (bit_vector);
        }
        ApRoVerificationResult(
            if value == Self::SERIALIZED_SUCCESS {
                Ok(())
            } else {
                Err(
                    match VerifyError::try_from(value) {
                        Ok(e) => e,
                        Err(_) => VerifyError::Internal(InternalErrorSource::CouldNotDeserialize, 0),
                    },
                )
            },
        )
    }
}

impl vstd::std_specs::convert::FromSpecImpl<u32> for ApRoVerificationResult {
    open spec fn obeys_from_spec() -> bool {
        true
    }

    open spec fn from_spec(v: u32) -> ApRoVerificationResult {
        ApRoVerificationResult::spec_wrap(spec_deserialized(v))
    }
}

impl core::convert::From<Result<(), VerifyError>> for ApRoVerificationResult {
    /// Wraps an outcome unchanged.
    fn from(value: Result<(), VerifyError>) -> (r: ApRoVerificationResult) {
        ApRoVerificationResult(value)
    }
}

impl vstd::std_specs::convert::FromSpecImpl<Result<(), VerifyError>> for ApRoVerificationResult {
    open spec fn obeys_from_spec() -> bool {
        true
    }

    open spec fn from_spec(v: Result<(), VerifyError>) -> ApRoVerificationResult {
        ApRoVerificationResult::spec_wrap(v)
    }
}

impl core::convert::From<ApRoVerificationResult> for Result<(), VerifyError> {
    /// Unwraps the outcome unchanged.
    fn from(value: ApRoVerificationResult) -> (r: Result<(), VerifyError>) {
        value.0
    }
}

impl vstd::std_specs::convert::FromSpecImpl<ApRoVerificationResult> for Result<(), VerifyError> {
    open spec fn obeys_from_spec() -> bool {
        true
    }

    open spec fn from_spec(v: ApRoVerificationResult) -> Result<(), VerifyError> {
        v.spec_result()
    }
}

impl core::convert::From<ApRoVerificationResult> for u32 {
    /// Serializes the outcome: the reserved success pattern for success,
    /// the packed error otherwise.
    fn from(value: ApRoVerificationResult) -> (r: u32) {
        match value.0 {
            Ok(_) => ApRoVerificationResult::SERIALIZED_SUCCESS,
            Err(e) => u32::from(e),
        }
    }
}

impl vstd::std_specs::convert::FromSpecImpl<ApRoVerificationResult> for u32 {
    open spec fn obeys_from_spec() -> bool {
        true
    }

    open spec fn from_spec(v: ApRoVerificationResult) -> u32 {
        spec_serialized(v.spec_result())
    }
}

/// Success niche disjointness: a word deserializes to success exactly
/// when it is the reserved pattern; every other word, zero included, is a
/// failure.
pub proof fn lemma_success_niche_disjoint(value: u32)
    ensures
        (spec_deserialized(value) is Ok) <==> value == ApRoVerificationResult::SERIALIZED_SUCCESS,
        spec_deserialized(0) is Err,
{
}

/// Round-trip: deserializing the serialization of any outcome, success or
/// any constructible error, yields the outcome unchanged.
pub proof fn lemma_outcome_round_trip(r: Result<(), VerifyError>)
    ensures
        spec_deserialized(spec_serialized(r)) == r,
{
    match r {
        Ok(u) => {
            assert(u == ());
            assert(r == Ok::<(), VerifyError>(()));
        },
        Err(e) => {
            lemma_error_packing_avoids_success_and_zero(e);
            lemma_verify_error_round_trip(e);
        },
    }
}

/// Rejection: a non-success word whose code byte lies outside the
/// assigned range `1..VerifyErrorCode::END` fails to unpack and
/// deserializes to the `Internal(CouldNotDeserialize, 0)` fallback.
pub proof fn lemma_unrecognized_word_substituted(value: u32)
    requires
        value != ApRoVerificationResult::SERIALIZED_SUCCESS,
        !(1 <= crate::verify_error::spec_be_byte0(value) < VerifyErrorCode::END),
    ensures
        VerifyError::spec_try_from_u32(value) is Err,
        spec_deserialized(value) == Err::<(), VerifyError>(
            VerifyError::spec_with(
                VerifyErrorCode::Internal,
                [InternalErrorSource::CouldNotDeserialize.spec_as_u8(), 0u8, 0u8],
            ),
        ),
{
}

} // verus!
