use dpe_crypto::types::{DpeErrorCode, PlatformError, ValidationError};
use dpe_crypto::CryptoError;

#[test]
fn crypto_error_codes() {
    assert_eq!(CryptoError::AbstractionLayer(9).discriminant(), 1);
    assert_eq!(CryptoError::CryptoLibError(9).discriminant(), 2);
    assert_eq!(CryptoError::Size.discriminant(), 3);
    assert_eq!(CryptoError::NotImplemented.discriminant(), 4);
    assert_eq!(CryptoError::HashError(9).discriminant(), 5);
    assert_eq!(CryptoError::InvalidExportedCdiHandle.discriminant(), 6);
    assert_eq!(CryptoError::ExportedCdiHandleDuplicateCdi.discriminant(), 7);
    assert_eq!(CryptoError::ExportedCdiHandleLimitExceeded.discriminant(), 8);
}

#[test]
fn crypto_error_details() {
    assert_eq!(CryptoError::AbstractionLayer(11).get_error_detail(), Some(11));
    assert_eq!(CryptoError::CryptoLibError(12).get_error_detail(), Some(12));
    assert_eq!(CryptoError::HashError(13).get_error_detail(), Some(13));
    assert_eq!(CryptoError::Size.get_error_detail(), None);
    assert_eq!(CryptoError::NotImplemented.get_error_detail(), None);
    assert_eq!(CryptoError::InvalidExportedCdiHandle.get_error_detail(), None);
}

#[test]
fn validation_error_codes() {
    assert_eq!(ValidationError::MultipleNormalConnectedComponents.discriminant(), 0x0);
    assert_eq!(ValidationError::SimulationNotSupported.discriminant(), 0x9);
    assert_eq!(ValidationError::ParentDoesNotExist.discriminant(), 0xA);
    assert_eq!(ValidationError::DanglingRetiredContext.discriminant(), 0x10);
    assert_eq!(ValidationError::VersionMismatch.discriminant(), 0x1A);
}

#[test]
fn dpe_error_discriminants() {
    assert_eq!(DpeErrorCode::NoError.discriminant(), 0);
    assert_eq!(DpeErrorCode::X509AlgorithmMismatch.discriminant(), 9);
    assert_eq!(DpeErrorCode::InvalidHandle.discriminant(), 0x1000);
    assert_eq!(DpeErrorCode::MaxTcis.discriminant(), 0x1003);
    assert_eq!(DpeErrorCode::InvalidParentLocality.discriminant(), 0x85);
    assert_eq!(DpeErrorCode::Crypto(CryptoError::Size).discriminant(), 0x02000000);
}

#[test]
fn dpe_error_full_codes() {
    assert_eq!(DpeErrorCode::InvalidLocality.get_error_code(), 0x1001);
    assert_eq!(DpeErrorCode::Crypto(CryptoError::Size).get_error_code(), 0x02000003);
    assert_eq!(
        DpeErrorCode::Validation(ValidationError::VersionMismatch).get_error_code(),
        0x0300001A
    );
    let platform = PlatformError { code: 0x1234, detail: Some(77) };
    assert_eq!(DpeErrorCode::Platform(platform).get_error_code(), 0x01001234);
}

#[test]
fn dpe_error_details() {
    let platform = PlatformError { code: 0x2, detail: Some(77) };
    assert_eq!(platform.discriminant(), 0x2);
    assert_eq!(DpeErrorCode::Platform(platform).get_error_detail(), Some(77));
    assert_eq!(DpeErrorCode::Crypto(CryptoError::HashError(5)).get_error_detail(), Some(5));
    assert_eq!(DpeErrorCode::Crypto(CryptoError::Size).get_error_detail(), None);
    assert_eq!(
        DpeErrorCode::Validation(ValidationError::CyclesInTree).get_error_detail(),
        None
    );
    assert_eq!(DpeErrorCode::InternalError.get_error_detail(), None);
}

#[test]
fn dpe_error_conversions() {
    assert_eq!(DpeErrorCode::from(CryptoError::Size), DpeErrorCode::Crypto(CryptoError::Size));
    assert_eq!(
        DpeErrorCode::from(ValidationError::InactiveChild),
        DpeErrorCode::Validation(ValidationError::InactiveChild)
    );
    let platform = PlatformError { code: 1, detail: None };
    assert_eq!(DpeErrorCode::from(platform), DpeErrorCode::Platform(platform));
}

#[test]
fn rustcrypto_error_conversions() {
    assert_eq!(CryptoError::from(ecdsa::Error::new()), CryptoError::CryptoLibError(1));
    assert_eq!(CryptoError::from(sec1::Error::Crypto), CryptoError::CryptoLibError(2));
}
