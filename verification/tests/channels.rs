//! Tests for the status-register error details, the one-byte status
//! channel, and the TPM helpers.

use ap_ro_errs::{
    ApRoVerificationTpmvStatus, BadValue, StatusRegister, TpmError, VerifyError,
    VerifyErrorCode, WriteProtectDescriptor, bytes_to_hex,
};

#[test]
fn test_failed_status_register_with_readable_descriptor() {
    let descriptor = WriteProtectDescriptor::new(0xA0, 0xF0);
    let error = VerifyError::FailedStatusRegister(StatusRegister::Register1, 0x5C, descriptor);
    assert_eq!(error.code(), VerifyErrorCode::FailedStatusRegister1);
    // [observed, expected value, mask]
    assert_eq!(error.detail(), [0x5C, 0xA0, 0xF0]);
    assert_eq!(u32::from(error), 0x02_5C_A0_F0);

    let error = VerifyError::FailedStatusRegister(StatusRegister::Register2, 0x00, descriptor);
    assert_eq!(error.code(), VerifyErrorCode::FailedStatusRegister2);

    let error = VerifyError::FailedStatusRegister(StatusRegister::Register3, 0x00, descriptor);
    assert_eq!(error.code(), VerifyErrorCode::FailedStatusRegister3);
}

#[test]
fn test_failed_status_register_with_unreadable_descriptor() {
    // An unreadable descriptor is encoded with a mask of 0 and the reason in
    // the middle byte: 1 for blank, 2 for corrupted.
    let blank = WriteProtectDescriptor::blank();
    let error = VerifyError::FailedStatusRegister(StatusRegister::Register1, 0x12, blank);
    assert_eq!(error.detail(), [0x12, 0x01, 0x00]);

    let corrupted = WriteProtectDescriptor::from_bytes([0x34, 0x34, 0x0F, 0xF0]);
    let error = VerifyError::FailedStatusRegister(StatusRegister::Register1, 0x12, corrupted);
    assert_eq!(error.detail(), [0x12, 0x02, 0x00]);
}

#[test]
fn test_tpmv_status_conversion() {
    assert_eq!(
        ApRoVerificationTpmvStatus::from_u8(20),
        Some(ApRoVerificationTpmvStatus::Success)
    );
    assert_eq!(
        ApRoVerificationTpmvStatus::from_u8(33),
        Some(ApRoVerificationTpmvStatus::SettingNotProvisioned)
    );
    assert_eq!(
        ApRoVerificationTpmvStatus::from_u8(36),
        Some(ApRoVerificationTpmvStatus::NonZeroGbbFlags)
    );
    assert_eq!(
        ApRoVerificationTpmvStatus::from_u8(37),
        Some(ApRoVerificationTpmvStatus::WrongRootkey)
    );
    assert_eq!(
        ApRoVerificationTpmvStatus::from_u8(255),
        Some(ApRoVerificationTpmvStatus::Unknown)
    );
    assert_eq!(ApRoVerificationTpmvStatus::END, 256);

    // The slots 34 and 35 are permanently reserved, and values outside the
    // assigned ranges are rejected rather than silently accepted.
    for i in 0..=u8::MAX {
        let expect_some = (20..34).contains(&i) || i == 36 || i == 37 || i == 255;
        assert_eq!(ApRoVerificationTpmvStatus::from_u8(i).is_some(), expect_some);
        if let Some(status) = ApRoVerificationTpmvStatus::from_u8(i) {
            assert_eq!(status.as_u8(), i);
        }
    }
}

#[test]
fn test_tpmv_status_strings() {
    assert_eq!(ApRoVerificationTpmvStatus::Success.to_str(), "OK");
    assert_eq!(ApRoVerificationTpmvStatus::FailedVerification.to_str(), "FAIL");
    assert_eq!(ApRoVerificationTpmvStatus::InconsistentGscvd.to_str(), "bad gvd");
    assert_eq!(ApRoVerificationTpmvStatus::InconsistentKeyblock.to_str(), "bad keyblock");
    assert_eq!(ApRoVerificationTpmvStatus::InconsistentKey.to_str(), "bad key");
    assert_eq!(ApRoVerificationTpmvStatus::SpiRead.to_str(), "spi err");
    assert_eq!(ApRoVerificationTpmvStatus::UnsupportedCryptoAlgorithm.to_str(), "bad crypto");
    assert_eq!(ApRoVerificationTpmvStatus::VersionMismatch.to_str(), "bad version");
    assert_eq!(ApRoVerificationTpmvStatus::OutOfMemory.to_str(), "oom");
    assert_eq!(ApRoVerificationTpmvStatus::Internal.to_str(), "internal");
    assert_eq!(ApRoVerificationTpmvStatus::TooBig.to_str(), "too big");
    assert_eq!(ApRoVerificationTpmvStatus::MissingGscvd.to_str(), "no gvd");
    assert_eq!(ApRoVerificationTpmvStatus::BoardIdMismatch.to_str(), "wrong board id");
    assert_eq!(
        ApRoVerificationTpmvStatus::SettingNotProvisioned.to_str(),
        "setting unprovisioned"
    );
    assert_eq!(
        ApRoVerificationTpmvStatus::NonZeroGbbFlags.to_str(),
        "Would pass with zeroed GBB flags"
    );
    assert_eq!(
        ApRoVerificationTpmvStatus::WrongRootkey.to_str(),
        "Only MP prod root key is accepted"
    );
    assert_eq!(ApRoVerificationTpmvStatus::Unknown.to_str(), "unknown");
}

#[test]
fn test_bad_value_status_register_round_trip() {
    // The reason byte a status-register error stores for an unreadable
    // descriptor converts back to the reason.
    for reason in [BadValue::Blank, BadValue::Corrupted, BadValue::Invalid] {
        assert_eq!(BadValue::from_u8(reason.as_u8()), Some(reason));
    }
}

#[test]
fn test_tpm_error_from_return_code() {
    assert!(TpmError::from_tpm_return_code(0).is_none());
    for code in [1u32, 0x101, 0x8000_0001, u32::MAX] {
        let error = TpmError::from_tpm_return_code(code);
        assert!(error.is_some());
        assert_eq!(error.unwrap().return_code(), code);
    }
}

#[test]
fn test_display_strings() {
    assert_eq!(
        TpmError::from_tpm_return_code(0x101).unwrap().to_display_string(),
        "0x101"
    );
    assert_eq!(
        TpmError::from_tpm_return_code(0xdead_beef).unwrap().to_display_string(),
        "0xdeadbeef"
    );
    assert_eq!(TpmError::from_tpm_return_code(7).unwrap().to_display_string(), "0x7");

    let byte = ap_ro_errs::ByteWithInverse::new(0xA5);
    assert_eq!(byte.to_display_string(), "a5");
    assert_eq!(
        ap_ro_errs::ByteWithInverse::from_bytes(0xFF, 0xFF).to_display_string(),
        "Blank"
    );
    assert_eq!(
        ap_ro_errs::ByteWithInverse::from_bytes(0x12, 0x12).to_display_string(),
        "Corrupted"
    );

    let descriptor = WriteProtectDescriptor::new(0xA5, 0x0F);
    assert_eq!(descriptor.to_display_string(), "a5 & 0f");
    assert_eq!(WriteProtectDescriptor::blank().to_display_string(), "Blank & Blank");
}

#[test]
fn test_bytes_to_hex() {
    assert_eq!(bytes_to_hex(&[]), "");
    assert_eq!(bytes_to_hex(&[0x00]), "00");
    assert_eq!(bytes_to_hex(&[0x0f, 0xa5]), "0fa5");
    assert_eq!(bytes_to_hex(&[0xde, 0xad, 0xbe, 0xef]), "deadbeef");
    assert_eq!(
        bytes_to_hex(&[0x01, 0x23, 0x45, 0x67, 0x89, 0xab, 0xcd, 0xef]),
        "0123456789abcdef"
    );
}
