//! Tests for the 32-bit status word codec and its literal encodings.

use ap_ro_errs::{
    ApRoVerificationResult, CryptoAlgorithmSource, DigestLocation, FailedVerificationDetail,
    InternalErrorSource, SignatureLocation, VerifyError, VersionMismatchSource,
};

#[test]
fn test_serialized_success_is_invalid_verification_failure() {
    assert!(
        VerifyError::try_from(ApRoVerificationResult::SERIALIZED_SUCCESS).is_err(),
        "Serialized success value cannot overlap with any valid verify error"
    );
}

#[test]
fn test_zero_is_invalid_verification_failure() {
    // Block 0 from being the successful value since we serialize this to long
    // life scratch, and the power on reset value for it is 0
    assert!(
        !ApRoVerificationResult::from(0).is_success(),
        "0 must be a failure since 0 is PoR default for LLV scratch"
    );
}

#[test]
fn test_setting_not_provisioned() {
    let error = VerifyError::SettingNotProvisioned();
    let error = u32::from(error);
    // 0x10 is the SettingNotProvisioned code,
    // 0x000000 is unused
    assert_eq!(error, 0x10_000000);
}

#[test]
fn test_failed_verification() {
    let error = VerifyError::FailedVerification(FailedVerificationDetail::SignatureVerifyFail);
    let error = u32::from(error);
    // 0x01 is the FailedVerification code,
    // 0x00 is SignatureVerifyFail,
    // 0x0000 is unused
    assert_eq!(error, 0x01_00_0000);

    let error = VerifyError::FailedVerification(FailedVerificationDetail::DigestMismatch {
        location: DigestLocation::GvdCache,
        got: 0x11,
        expected: 0x22,
    });
    let error = u32::from(error);
    // 0x01 is the FailedVerification code,
    // 0x10 DigestMismatch + 0x20 is for num valid root keys + 0x02 for GvdCache
    // 0x11 is for got
    // 0x22 is for expected
    assert_eq!(error, 0x01_32_11_22);

    let error = VerifyError::FailedVerification(FailedVerificationDetail::DigestMismatch {
        location: DigestLocation::ProtectedRegions,
        got: 0x09,
        expected: 0x80,
    });
    let error = u32::from(error);
    // 0x01 is the FailedVerification code,
    // 0x10 DigestMismatch + 0x20 is for num valid root keys + 0x01 for ProtectedRegions
    // 0x09 is for got
    // 0x80 is for expected
    assert_eq!(error, 0x01_31_09_80);

    let error = VerifyError::FailedVerification(FailedVerificationDetail::DigestMismatch {
        location: DigestLocation::RootKey,
        got: 0x10,
        expected: 0x02,
    });
    let error = u32::from(error);
    // 0x01 is the FailedVerification code,
    // 0x10 DigestMismatch + 0x20 is for num valid root keys + 0x03 for Rootkey
    // 0x10 is for got
    // 0x02 is for expected
    assert_eq!(error, 0x01_33_10_02);

    let error = VerifyError::FailedVerification(FailedVerificationDetail::SignatureVerifyFail)
        .with_failed_signature_location(SignatureLocation::Gscvd);
    let error = u32::from(error);
    // 0x01 is the FailedVerification code,
    // 0x00 is SignatureVerifyFail,
    // 0x01 is Gscvd signature location
    // 0x00 is unused
    assert_eq!(error, 0x01_00_01_00);

    let error = VerifyError::FailedVerification(FailedVerificationDetail::SignatureVerifyFail)
        .with_failed_signature_location(SignatureLocation::Keyblock);
    let error = u32::from(error);
    // 0x01 is the FailedVerification code,
    // 0x00 is SignatureVerifyFail,
    // 0x02 is Keyblock signature location
    // 0x00 is unused
    assert_eq!(error, 0x01_00_02_00);
}

#[test]
fn test_version_mismatch() {
    let error = VerifyError::VersionMismatch(VersionMismatchSource::Gscvd);
    let error = u32::from(error);
    // 0x0A is the VersionMismatch code,
    // 0x01 is VersionMismatchSource::Gscvd,
    // 0x0000 is unused
    assert_eq!(error, 0x0A_01_0000);

    let error = VerifyError::VersionMismatch(VersionMismatchSource::Keyblock);
    let error = u32::from(error);
    // 0x0A is the VersionMismatch code,
    // 0x02 is VersionMismatchSource::Keyblock,
    // 0x0000 is unused
    assert_eq!(error, 0x0A_02_0000);
}

#[test]
fn test_unsupported_crypto_algorithm() {
    let error = VerifyError::UnsupportedCryptoAlgorithm(CryptoAlgorithmSource::Gscvd, 0x123);
    let error = u32::from(error);
    // 0x09 is the UnsupportedCryptoAlgorithm code,
    // 0x01 is CryptoAlgorithmSource::Gscvd,
    // 0x0123 is detailed code
    assert_eq!(error, 0x09_01_0123);

    let error = VerifyError::UnsupportedCryptoAlgorithm(CryptoAlgorithmSource::Vb2PackedKey, 0x3);
    let error = u32::from(error);
    // 0x09 is the UnsupportedCryptoAlgorithm code,
    // 0x04 is CryptoAlgorithmSource::Vb2PackedKey,
    // 0x003 is detailed code
    assert_eq!(error, 0x09_04_0003);
}

#[test]
fn test_internal() {
    let error = VerifyError::Internal(InternalErrorSource::Crypto, 0x9876);
    let error = u32::from(error);
    // 0x0C is the Internal code,
    // 0x02 is InternalErrorSource::Crypto,
    // 0x9876 is detailed code
    assert_eq!(error, 0x0C_02_9876);

    let error = VerifyError::Internal(InternalErrorSource::Kernel, 0x0011);
    let error = u32::from(error);
    // 0x0C is the Internal code,
    // 0x01 is InternalErrorSource::Kernel,
    // 0x0011 is detailed code
    assert_eq!(error, 0x0C_01_0011);

    let error = VerifyError::Internal(InternalErrorSource::VerifyFlashRanges, 0x9900);
    let error = u32::from(error);
    // 0x0C is the Internal code,
    // 0x03 is InternalErrorSource::VerifyFlashRanges,
    // 0x9900 is detailed code
    assert_eq!(error, 0x0C_03_9900);
}

#[test]
fn test_board_id_mismatch() {
    let error = VerifyError::BoardIdMismatch(0x01234567, 0x89abcdef);
    let error = u32::from(error);
    // 0x0F is the BoardIdMismatch code,
    // 0x012 is most significant 3 nibbles of got,
    // 0x89a is most significant 3 nibbles of expected
    assert_eq!(error, 0x0F_012_89a);
}

#[test]
fn test_error_round_trip() {
    let samples = [
        VerifyError::SettingNotProvisioned(),
        VerifyError::InconsistentGscvd(),
        VerifyError::InconsistentKeyblock(),
        VerifyError::InconsistentKey(),
        VerifyError::SpiRead(),
        VerifyError::OutOfMemory(),
        VerifyError::TooBig(),
        VerifyError::MissingGscvd(),
        VerifyError::NonZeroGbbFlags(),
        VerifyError::WrongRootKey(),
        VerifyError::FailedVerification(FailedVerificationDetail::DigestMismatch {
            location: DigestLocation::RootKey,
            got: 0xAB,
            expected: 0xCD,
        }),
        VerifyError::FailedVerification(FailedVerificationDetail::SignatureVerifyFail)
            .with_failed_signature_location(SignatureLocation::Keyblock),
        VerifyError::VersionMismatch(VersionMismatchSource::Gscvd),
        VerifyError::UnsupportedCryptoAlgorithm(CryptoAlgorithmSource::Vb2PackedKey, 0xBEEF),
        VerifyError::Internal(InternalErrorSource::Kernel, 0x0102),
        VerifyError::BoardIdMismatch(0xFFFF_FFFF, 0x0000_0000),
    ];
    for error in samples {
        let decoded = VerifyError::try_from(u32::from(error));
        assert!(decoded.is_ok());
        let decoded = decoded.unwrap();
        assert_eq!(decoded, error);
        assert_eq!(decoded.code(), error.code());
        assert_eq!(decoded.detail(), error.detail());
    }
}

#[test]
fn test_unassigned_code_bytes_rejected() {
    // Code byte 0 is reserved, 19 and above are unassigned so far.
    for code_byte in [0u32, 19, 20, 0x42, 0xFE, 0xFF] {
        let word = (code_byte << 24) | 0x00_123456;
        assert!(VerifyError::try_from(word).is_err());
        let result = ApRoVerificationResult::from(word);
        assert!(!result.is_success());
        let unwrapped = Result::<(), VerifyError>::from(result);
        assert_eq!(
            unwrapped,
            Err(VerifyError::Internal(InternalErrorSource::CouldNotDeserialize, 0))
        );
    }
}

#[test]
fn test_success_niche_is_the_single_success_word() {
    assert!(ApRoVerificationResult::from(0xFFFF_F000u32).is_success());
    for word in [
        0u32,
        1,
        0xFFFF_F001,
        0xFFFF_EFFF,
        0x1000_0000,
        0x0100_0000,
        0xFFFF_FFFF,
        0x7FFF_F000,
    ] {
        assert!(!ApRoVerificationResult::from(word).is_success());
    }
}

#[test]
fn test_result_round_trip() {
    let outcomes = [
        Ok(()),
        Err(VerifyError::SettingNotProvisioned()),
        Err(VerifyError::Internal(InternalErrorSource::Crypto, 0x9876)),
        Err(VerifyError::FailedVerification(FailedVerificationDetail::SignatureVerifyFail)),
        Err(VerifyError::BoardIdMismatch(0x01234567, 0x89abcdef)),
    ];
    for outcome in outcomes {
        let word = u32::from(ApRoVerificationResult::from(outcome));
        let back = Result::<(), VerifyError>::from(ApRoVerificationResult::from(word));
        assert_eq!(back, outcome);
    }
}
