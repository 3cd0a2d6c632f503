//! Status and diagnostic codes for a boot-time firmware integrity check.
//!
//! The outcome of verifying an application processor's read-only firmware
//! region is reported as a single 32-bit word: one reserved bit pattern means
//! success, every other word carries a typed error with a packed detail
//! payload.  A companion one-byte status space serves a second reporting
//! channel, and self-checking byte pairs guard settings kept in write-once
//! memory where writes can only clear bits.

pub mod codes;
pub mod enum_tables;
pub mod hex;
pub mod parse;
pub mod self_check;
pub mod status_word;
pub mod tpm;
pub mod tpmv_status;
pub mod verify_error;

pub use codes::CryptoAlgorithmSource;
pub use codes::DigestLocation;
pub use codes::InternalErrorSource;
pub use codes::SignatureLocation;
pub use codes::StatusRegister;
pub use codes::VerifyErrorCode;
pub use codes::VersionMismatchSource;
pub use enum_tables::Inner;
pub use enum_tables::Outer;
pub use enum_tables::TestI32;
pub use enum_tables::TestU16;
pub use enum_tables::TestU64;
pub use enum_tables::TestU8;
pub use enum_tables::TestUsize;
pub use hex::bytes_to_hex;
pub use parse::parse_arg;
pub use self_check::BadValue;
pub use self_check::ByteWithInverse;
pub use self_check::WriteProtectDescriptor;
pub use status_word::ApRoVerificationResult;
pub use tpm::TpmError;
pub use tpmv_status::ApRoVerificationTpmvStatus;
pub use verify_error::FailedVerificationDetail;
pub use verify_error::InvalidVerifyError;
pub use verify_error::VerifyError;
