use spdm_lib::codec::{CodecError, MessageBuf};
use spdm_lib::commands::error::request::decode_error_response;
use spdm_lib::commands::error::{
    ErrorCode, ErrorResponse, LargeResponseData, ResponseNotReadyData, ResponseTooLargeData,
};
use spdm_lib::context::SpdmContext;
use spdm_lib::error::CommandError;
use spdm_lib::protocol::capabilities::DeviceCapabilities;
use spdm_lib::protocol::version::SpdmVersion;

fn buf_with(bytes: &[u8], cap: usize) -> MessageBuf {
    let mut b = MessageBuf::new(cap);
    b.encode_bytes(bytes).unwrap();
    b.push_data(bytes.len()).unwrap();
    b
}

#[test]
fn error_code_conversions() {
    assert_eq!(u8::from(ErrorCode::InvalidRequest), 0x01);
    assert_eq!(u8::from(ErrorCode::LargeResponse), 0x0F);
    assert_eq!(u8::from(ErrorCode::VendorDefined), 0xFF);
    assert_eq!(ErrorCode::try_from(0x42), Ok(ErrorCode::ResponseNotReady));
    assert_eq!(ErrorCode::try_from(0x02), Err(()));
    assert_eq!(ErrorCode::try_from(0x13), Err(()));
    for b in 0..=255u8 {
        if let Ok(c) = ErrorCode::try_from(b) {
            assert_eq!(u8::from(c), b);
        }
    }
}

#[test]
fn error_response_fields() {
    let e = ErrorResponse::new(ErrorCode::Busy, 7);
    assert_eq!(e.error_code(), 0x03);
    assert_eq!(e.error_data(), 7);
}

#[test]
fn decode_error_response_ok_leaves_extended_data() {
    let mut buf = buf_with(&[0x12, 0x7F, 0x0F, 0x05, 0xAA], 8);
    let e = decode_error_response(&mut buf).unwrap();
    assert_eq!(e.error_code(), 0x0F);
    assert_eq!(e.error_data(), 0x05);
    let ext = LargeResponseData::decode(&mut buf).unwrap();
    assert_eq!(ext.handle(), 0xAA);
}

#[test]
fn decode_error_response_errors() {
    let mut buf = buf_with(&[0x12, 0x60, 0x0F, 0x05], 8);
    assert!(matches!(decode_error_response(&mut buf), Err((false, CommandError::InvalidResponse))));
    let mut buf = buf_with(&[0x12, 0x7F, 0x02, 0x00], 8);
    assert!(matches!(decode_error_response(&mut buf), Err((false, CommandError::InvalidResponse))));
    let mut buf = buf_with(&[0x12], 8);
    assert!(matches!(
        decode_error_response(&mut buf),
        Err((false, CommandError::Codec(CodecError::BufferTooSmall)))
    ));
    let mut buf = buf_with(&[0x12, 0x7F, 0x01], 8);
    assert!(matches!(
        decode_error_response(&mut buf),
        Err((false, CommandError::Codec(CodecError::BufferTooSmall)))
    ));
}

#[test]
fn extended_error_data() {
    let mut buf = buf_with(&[3, 0xE0, 9, 2], 8);
    let d = ResponseNotReadyData::decode(&mut buf).unwrap();
    assert_eq!(d.rdt_exponent(), 3);
    assert_eq!(d.request_code(), 0xE0);
    assert_eq!(d.token(), 9);
    assert_eq!(d.rdtm(), 2);
    let mut buf = buf_with(&[0x00, 0x10, 0x00, 0x00], 8);
    let t = ResponseTooLargeData::decode(&mut buf).unwrap();
    assert_eq!(t.actual_size(), 0x1000);
}

#[test]
fn generated_error_response_decodes_back() {
    let ctx = SpdmContext::new(&[SpdmVersion::V12], DeviceCapabilities::default(), 2).unwrap();
    let mut buf = MessageBuf::new(16);
    let r = ctx.generate_error_response(&mut buf, ErrorCode::RequestResynch, 9);
    assert_eq!(r, (true, CommandError::ErrorCode(ErrorCode::RequestResynch)));
    assert_eq!(buf.message(), vec![0x10, 0x7F, 0x43, 9]);
    let e = decode_error_response(&mut buf).unwrap();
    assert_eq!(e.error_code(), 0x43);
    assert_eq!(e.error_data(), 9);

    let mut tiny = MessageBuf::new(1);
    assert_eq!(
        ctx.generate_error_response(&mut tiny, ErrorCode::Busy, 0),
        (false, CommandError::BufferTooSmall)
    );
    let mut small = MessageBuf::new(5);
    assert_eq!(
        ctx.generate_error_response(&mut small, ErrorCode::Busy, 0),
        (false, CommandError::Codec(CodecError::BufferTooSmall))
    );
}
