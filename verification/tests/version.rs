use spdm_lib::error::SpdmError;
use spdm_lib::protocol::version::{validate_supported_versions, SpdmVersion};

#[test]
fn test_validate_supported_versions() {
    let supported_versions: [SpdmVersion; 4] = [
        SpdmVersion::V10,
        SpdmVersion::V11,
        SpdmVersion::V12,
        SpdmVersion::V13,
    ];
    assert_eq!(
        validate_supported_versions(&supported_versions).unwrap(),
        ()
    );
}

#[test]
fn validate_supported_versions_rejects_empty_and_too_many() {
    assert_eq!(validate_supported_versions(&[]), Err(SpdmError::InvalidParam));
    let five = [
        SpdmVersion::V10,
        SpdmVersion::V11,
        SpdmVersion::V12,
        SpdmVersion::V13,
        SpdmVersion::V14,
    ];
    assert_eq!(validate_supported_versions(&five), Err(SpdmError::InvalidParam));
    assert_eq!(validate_supported_versions(&five[1..]), Ok(()));
    assert_eq!(validate_supported_versions(&[SpdmVersion::V14]), Ok(()));
}

#[test]
fn is_compatible_examples() {
    assert!(SpdmVersion::V14.is_compatible(&SpdmVersion::V10));
    assert!(!SpdmVersion::V12.is_compatible(&SpdmVersion::V13));
    assert!(SpdmVersion::V12.is_compatible(&SpdmVersion::V12));
}

#[test]
fn version_text_and_numbers() {
    assert_eq!(SpdmVersion::V10.to_str(), "1.0.*");
    assert_eq!(SpdmVersion::V13.to_str(), "1.3.*");
    assert_eq!(SpdmVersion::V14.to_str(), "1.4.*");
    assert_eq!(SpdmVersion::V12.major(), 1);
    assert_eq!(SpdmVersion::V12.minor(), 2);
    assert_eq!(SpdmVersion::V14.minor(), 4);
    assert_eq!(SpdmVersion::V11.to_u8(), 0x11);
    assert_eq!(u8::from(SpdmVersion::V13), 0x13);
    assert_eq!(SpdmVersion::default(), SpdmVersion::V10);
}

#[test]
fn version_byte_roundtrip() {
    for v in [
        SpdmVersion::V10,
        SpdmVersion::V11,
        SpdmVersion::V12,
        SpdmVersion::V13,
        SpdmVersion::V14,
    ] {
        assert_eq!(SpdmVersion::try_from(v.to_u8()), Ok(v));
        assert_eq!(v.major() * 16 + v.minor(), v.to_u8());
    }
    assert_eq!(SpdmVersion::try_from(0x15), Err(SpdmError::UnsupportedVersion));
    assert_eq!(SpdmVersion::try_from_u8(0x09), Err(SpdmError::UnsupportedVersion));
}

#[test]
fn version_order_follows_bytes() {
    assert!(SpdmVersion::V10 < SpdmVersion::V11);
    assert!(SpdmVersion::V14 > SpdmVersion::V12);
    assert!(SpdmVersion::V12 <= SpdmVersion::V12);
    assert!(!(SpdmVersion::V13 < SpdmVersion::V12));
}
