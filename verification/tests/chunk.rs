use spdm_lib::chunk_ctx::{ChunkError, ChunkInfo, LargeRequestCtx, LargeResponse, LargeResponseCtx};
use spdm_lib::codec::{CodecError, MessageBuf};
use spdm_lib::commands::chunk::request::{
    check_chunk_get_preconditions, generate_chunk_get_request, generate_chunk_send_request,
    handle_chunk_response,
};
use spdm_lib::commands::chunk::response::{
    encode_chunk_data, encode_chunk_resp_fixed_fields, generate_chunk_response, handle_chunk_get,
    process_chunk_get,
};
use spdm_lib::commands::chunk::{
    max_chunked_resp_size, ChunkResponseFixed, ChunkSendFixed, ChunkSenderAttr,
};
use spdm_lib::commands::error::ErrorCode;
use spdm_lib::context::SpdmContext;
use spdm_lib::error::CommandError;
use spdm_lib::protocol::capabilities::{CapabilityFlags, DeviceCapabilities};
use spdm_lib::protocol::version::SpdmVersion;
use spdm_lib::protocol::SpdmMsgHdr;
use spdm_lib::state::ConnectionState;

fn test_ctx(version: SpdmVersion, dts: u32) -> SpdmContext {
    let mut caps = DeviceCapabilities::default();
    caps.flags.set_chunk_cap(1);
    caps.data_transfer_size = dts;
    let mut c = SpdmContext::new(&[version], caps, 0).unwrap();
    c.state.connection_info.version_number = version;
    c.state.connection_info.state = ConnectionState::AfterCapabilities;
    c.state.connection_info.peer_capabilities.data_transfer_size = dts;
    c
}

fn buf_with(bytes: &[u8], cap: usize) -> MessageBuf {
    let mut b = MessageBuf::new(cap);
    b.encode_bytes(bytes).unwrap();
    b.push_data(bytes.len()).unwrap();
    b
}

#[test]
fn chunk_info_reset_and_init() {
    let mut info = ChunkInfo::default();
    assert_eq!(info.init(100, Some(7)), 7);
    info.reset(false);
    assert_eq!(info.init(5, None), 8);
    info.reset(true);
    assert_eq!(info.init(5, None), 0);
    assert_eq!(info.init(0, Some(255)), 255);
    info.reset(false);
    assert_eq!(info.init(0, None), 0);
}

#[test]
fn large_response_ctx_lifecycle() {
    let mut ctx = LargeResponseCtx::default();
    assert!(!ctx.in_progress());
    assert_eq!(ctx.last_chunk(5), (false, 0));
    let handle = ctx.init(LargeResponse::Measurements(vec![1u8; 10]), 10);
    assert_eq!(handle, 0);
    assert!(ctx.in_progress());
    assert!(ctx.valid(0, 0));
    assert!(!ctx.valid(1, 0));
    assert!(!ctx.valid(0, 1));
    assert_eq!(ctx.large_response_size(), 10);
    assert_eq!(ctx.bytes_transferred(), 0);
    assert_eq!(ctx.seq_no(), 0);
    assert_eq!(ctx.last_chunk(4), (false, 10));
    assert_eq!(ctx.last_chunk(10), (true, 10));
    assert!(ctx.response().is_some());
    ctx.reset();
    assert_eq!(ctx.handle(), 1);
    assert!(!ctx.in_progress());
    assert!(!ctx.valid(1, 0));
    assert!(ctx.response().is_none());
    assert_eq!(ctx.last_chunk(5), (false, 0));
}

#[test]
fn large_request_ctx_lifecycle() {
    let mut ctx = LargeRequestCtx::default();
    assert!(!ctx.in_progress());
    ctx.init(3);
    assert!(ctx.in_progress());
    assert_eq!(ctx.handle(), 3);
    assert_eq!(ctx.current_seq_num(), 0);
    ctx.advance(5);
    assert_eq!(ctx.current_seq_num(), 1);
    assert_eq!(ctx.bytes_received(), 5);
    ctx.set_total_size(20);
    assert_eq!(ctx.total_size(), 20);
    ctx.reset();
    assert!(!ctx.in_progress());
    assert_eq!(ctx.handle(), 0);
    assert_eq!(ctx.bytes_received(), 0);
}

#[test]
fn large_response_get_chunk() {
    let rsp = LargeResponse::Measurements(vec![0, 1, 2, 3, 4]);
    assert_eq!(rsp.get_chunk(1, 3), Ok(vec![1, 2, 3]));
    assert_eq!(rsp.get_chunk(3, 3), Err(ChunkError::InvalidMessageOffset));
}

#[test]
fn sender_attr_bits() {
    let mut a = ChunkSenderAttr(0xF0);
    a.set_last_chunk(3);
    assert_eq!(a.0, 0xF1);
    assert_eq!(a.last_chunk(), 1);
    a.set_last_chunk(0);
    assert_eq!(a.0, 0xF0);
    assert_eq!(a.last_chunk(), 0);
    assert_eq!(a.reserved(), 0x78);
}

#[test]
fn capability_chunk_bit() {
    let mut f = CapabilityFlags(0);
    assert_eq!(f.chunk_cap(), 0);
    f.set_chunk_cap(1);
    assert_eq!(f.0, 1 << 17);
    assert_eq!(f.chunk_cap(), 1);
    let mut g = CapabilityFlags(0xFFFF_FFFF);
    g.set_chunk_cap(0);
    assert_eq!(g.0, 0xFFFF_FFFF & !(1 << 17));
}

#[test]
fn chunk_send_fixed_bytes() {
    let f = ChunkSendFixed::new(9, 0x01020304, 0x10, true);
    let mut buf = MessageBuf::new(16);
    assert_eq!(f.encode(&mut buf), Ok(10));
    buf.push_data(10).unwrap();
    assert_eq!(buf.message(), vec![1, 9, 4, 3, 2, 1, 0x10, 0, 0, 0]);
    let decoded = ChunkSendFixed::decode(&mut buf).unwrap();
    let mut again = MessageBuf::new(16);
    decoded.encode(&mut again).unwrap();
    again.push_data(10).unwrap();
    assert_eq!(again.message(), vec![1, 9, 4, 3, 2, 1, 0x10, 0, 0, 0]);
}

#[test]
fn chunk_response_fixed_roundtrip() {
    let mut buf = MessageBuf::new(16);
    assert_eq!(encode_chunk_resp_fixed_fields(true, 4, 0x0203, 0x0A0B0C0D, &mut buf), Ok(10));
    buf.push_data(10).unwrap();
    assert_eq!(buf.message(), vec![1, 4, 3, 2, 0, 0, 0x0D, 0x0C, 0x0B, 0x0A]);
    let f = ChunkResponseFixed::decode(&mut buf).unwrap();
    assert_eq!(f.handle(), 4);
    assert_eq!(f.chunk_seq_no(), 0x0203);
    assert_eq!(f.chunk_size(), 0x0A0B0C0D);
    assert_eq!(f.chunk_sender_attr().last_chunk(), 1);
    let mut small = MessageBuf::new(9);
    assert_eq!(
        encode_chunk_resp_fixed_fields(false, 0, 0, 0, &mut small),
        Err((false, CommandError::Codec(CodecError::BufferTooSmall)))
    );
}

#[test]
fn chunk_get_request_bytes() {
    let mut ctx = test_ctx(SpdmVersion::V12, 64);
    ctx.large_req_context.init(9);
    ctx.large_req_context.advance(0);
    let mut buf = MessageBuf::new(16);
    assert_eq!(generate_chunk_get_request(&mut ctx, &mut buf), Ok(()));
    assert_eq!(buf.message(), vec![0x12, 0x86, 0, 9, 1, 0]);
    let mut small = MessageBuf::new(5);
    assert_eq!(
        generate_chunk_get_request(&mut ctx, &mut small),
        Err((false, CommandError::Codec(CodecError::BufferTooSmall)))
    );
}

#[test]
fn chunk_get_preconditions() {
    let mut ctx = test_ctx(SpdmVersion::V12, 64);
    assert_eq!(
        check_chunk_get_preconditions(&ctx),
        Err((false, CommandError::UnexpectedRequest))
    );
    ctx.large_req_context.init(1);
    assert_eq!(check_chunk_get_preconditions(&ctx), Ok(()));
    ctx.state.connection_info.state = ConnectionState::AfterVersion;
    assert_eq!(
        check_chunk_get_preconditions(&ctx),
        Err((false, CommandError::UnexpectedRequest))
    );
}

#[test]
fn chunk_response_single_chunk() {
    let mut ctx = test_ctx(SpdmVersion::V12, 64);
    ctx.large_req_context.init(5);
    let mut resp = buf_with(&[1, 5, 0, 0, 0, 0, 3, 0, 0, 0, 3, 0, 0, 0, 7, 8, 9], 32);
    let mut output = MessageBuf::new(8);
    let hdr = SpdmMsgHdr::from_raw(0x12, 0x06);
    assert_eq!(handle_chunk_response(&mut ctx, &hdr, &mut resp, &mut output), Ok(true));
    assert_eq!(output.message(), vec![7, 8, 9]);
    assert_eq!(ctx.large_req_context.bytes_received(), 3);
    assert_eq!(ctx.large_req_context.current_seq_num(), 1);
    assert_eq!(ctx.large_req_context.total_size(), 3);
    assert_eq!(resp.data_len(), 0);
}

#[test]
fn chunk_response_two_chunks() {
    let mut ctx = test_ctx(SpdmVersion::V12, 64);
    ctx.large_req_context.init(2);
    let mut output = MessageBuf::new(8);
    let hdr = SpdmMsgHdr::from_raw(0x12, 0x06);
    let mut first = buf_with(&[0, 2, 0, 0, 0, 0, 2, 0, 0, 0, 4, 0, 0, 0, 1, 2], 32);
    assert_eq!(handle_chunk_response(&mut ctx, &hdr, &mut first, &mut output), Ok(false));
    let mut second = buf_with(&[1, 2, 1, 0, 0, 0, 2, 0, 0, 0, 3, 4], 32);
    assert_eq!(handle_chunk_response(&mut ctx, &hdr, &mut second, &mut output), Ok(true));
    assert_eq!(output.message(), vec![1, 2, 3, 4]);
    assert_eq!(ctx.large_req_context.bytes_received(), 4);
    assert_eq!(ctx.large_req_context.current_seq_num(), 2);
}

#[test]
fn chunk_response_errors() {
    let hdr = SpdmMsgHdr::from_raw(0x12, 0x06);
    let body = [1u8, 5, 0, 0, 0, 0, 3, 0, 0, 0, 3, 0, 0, 0, 7, 8, 9];

    let mut ctx = test_ctx(SpdmVersion::V12, 64);
    ctx.large_req_context.init(5);
    let wrong_version = SpdmMsgHdr::from_raw(0x11, 0x06);
    let mut resp = buf_with(&body, 32);
    let mut output = MessageBuf::new(8);
    assert_eq!(
        handle_chunk_response(&mut ctx, &wrong_version, &mut resp, &mut output),
        Err((false, CommandError::InvalidResponse))
    );

    let mut idle = test_ctx(SpdmVersion::V12, 64);
    let mut resp = buf_with(&body, 32);
    assert_eq!(
        handle_chunk_response(&mut idle, &hdr, &mut resp, &mut output),
        Err((false, CommandError::UnexpectedRequest))
    );

    let mut other = test_ctx(SpdmVersion::V12, 64);
    other.large_req_context.init(6);
    let mut resp = buf_with(&body, 32);
    assert_eq!(
        handle_chunk_response(&mut other, &hdr, &mut resp, &mut output),
        Err((false, CommandError::InvalidChunkContext))
    );

    let mut ctx = test_ctx(SpdmVersion::V12, 64);
    ctx.large_req_context.init(5);
    let mut resp = buf_with(&body, 32);
    let mut tiny = MessageBuf::new(2);
    assert_eq!(
        handle_chunk_response(&mut ctx, &hdr, &mut resp, &mut tiny),
        Err((false, CommandError::BufferTooSmall))
    );
    assert_eq!(ctx.large_req_context.total_size(), 3);

    let mut ctx = test_ctx(SpdmVersion::V12, 64);
    ctx.large_req_context.init(5);
    let mut short = buf_with(&body[..16], 32);
    assert_eq!(
        handle_chunk_response(&mut ctx, &hdr, &mut short, &mut output),
        Err((false, CommandError::InvalidResponse))
    );

    let mut truncated = buf_with(&body[..6], 32);
    assert_eq!(
        handle_chunk_response(&mut ctx, &hdr, &mut truncated, &mut output),
        Err((false, CommandError::Codec(CodecError::BufferTooSmall)))
    );
}

fn responder_ctx(dts: u32, size: usize) -> SpdmContext {
    let mut ctx = test_ctx(SpdmVersion::V12, dts);
    let data: Vec<u8> = (0..size).map(|i| i as u8).collect();
    ctx.large_resp_context.init(LargeResponse::Measurements(data), size);
    ctx
}

#[test]
fn process_chunk_get_accepts_matching_request() {
    let mut ctx = responder_ctx(64, 100);
    let mut req = buf_with(&[0, 0, 0, 0], 16);
    let hdr = SpdmMsgHdr::from_raw(0x12, 0x86);
    assert_eq!(process_chunk_get(&mut ctx, hdr, &mut req), Ok((0, 0)));
}

#[test]
fn process_chunk_get_errors() {
    let hdr = SpdmMsgHdr::from_raw(0x12, 0x86);

    let mut ctx = responder_ctx(64, 100);
    let mut req = buf_with(&[0, 1, 0, 0], 16);
    assert_eq!(
        process_chunk_get(&mut ctx, hdr, &mut req),
        Err((true, CommandError::ErrorCode(ErrorCode::InvalidRequest)))
    );
    assert_eq!(req.message(), vec![0x12, 0x7F, 0x01, 0]);

    let mut req = buf_with(&[0, 0, 0, 0], 16);
    let wrong = SpdmMsgHdr::from_raw(0x13, 0x86);
    assert_eq!(
        process_chunk_get(&mut ctx, wrong, &mut req),
        Err((true, CommandError::ErrorCode(ErrorCode::VersionMismatch)))
    );
    assert_eq!(req.message(), vec![0x12, 0x7F, 0x41, 0]);

    let mut old = test_ctx(SpdmVersion::V11, 64);
    old.large_resp_context.init(LargeResponse::Measurements(vec![0; 4]), 4);
    let mut req = buf_with(&[0, 0, 0, 0], 16);
    assert_eq!(
        process_chunk_get(&mut old, SpdmMsgHdr::from_raw(0x11, 0x86), &mut req),
        Err((true, CommandError::ErrorCode(ErrorCode::UnsupportedRequest)))
    );

    let mut big = responder_ctx(13, 0);
    big.large_resp_context.init(LargeResponse::Measurements(vec![]), 70000);
    let mut req = buf_with(&[0, 0, 0, 0], 16);
    assert_eq!(
        process_chunk_get(&mut big, hdr, &mut req),
        Err((true, CommandError::ErrorCode(ErrorCode::ResponseTooLarge)))
    );

    let mut req = buf_with(&[0, 0], 16);
    assert_eq!(
        process_chunk_get(&mut ctx, hdr, &mut req),
        Err((true, CommandError::ErrorCode(ErrorCode::InvalidRequest)))
    );
}

#[test]
fn max_chunked_size() {
    let ctx = test_ctx(SpdmVersion::V12, 64);
    assert_eq!(max_chunked_resp_size(&ctx), 52 * 65535 - 4);
    let ctx = test_ctx(SpdmVersion::V12, 13);
    assert_eq!(max_chunked_resp_size(&ctx), 65531);
}

#[test]
fn chunk_sizes() {
    let ctx = responder_ctx(64, 100);
    assert_eq!(ChunkResponseFixed::compute_chunk_size(&ctx, 0), (48, false));
    assert_eq!(ChunkResponseFixed::compute_chunk_size(&ctx, 1), (52, false));
    assert_eq!(ChunkSendFixed::compute_chunk_size(&ctx, 0), (48, false));
    let small = responder_ctx(64, 30);
    assert_eq!(ChunkResponseFixed::compute_chunk_size(&small, 0), (30, true));
    let idle = test_ctx(SpdmVersion::V12, 10);
    assert_eq!(ChunkResponseFixed::compute_chunk_size(&idle, 0), (0, false));
}

#[test]
fn chunk_data_encoding() {
    let mut ctx = responder_ctx(64, 10);
    let mut rsp = MessageBuf::new(16);
    assert_eq!(encode_chunk_data(&mut ctx, 4, &mut rsp), Ok(4));
    assert_eq!(rsp.data_len(), 0);
    rsp.push_data(4).unwrap();
    assert_eq!(rsp.message(), vec![0, 1, 2, 3]);
    let mut rsp = MessageBuf::new(16);
    assert_eq!(
        encode_chunk_data(&mut ctx, 11, &mut rsp),
        Err((false, CommandError::Chunk(ChunkError::InvalidMessageOffset)))
    );
    let mut idle = test_ctx(SpdmVersion::V12, 64);
    let mut rsp = MessageBuf::new(16);
    assert_eq!(
        encode_chunk_data(&mut idle, 4, &mut rsp),
        Err((false, CommandError::Chunk(ChunkError::NoLargeResponseInProgress)))
    );
}

fn first_chunk_response() -> Vec<u8> {
    let mut expected = vec![0x12, 0x06, 0, 0, 0, 0, 0, 0, 48, 0, 0, 0, 100, 0, 0, 0];
    expected.extend(0..48u8);
    expected
}

#[test]
fn chunk_response_generation() {
    let mut ctx = responder_ctx(64, 100);
    let mut rsp = MessageBuf::new(256);
    assert_eq!(generate_chunk_response(&mut ctx, 0, 0, &mut rsp), Ok(()));
    assert_eq!(rsp.message(), first_chunk_response());

    let mut rsp = MessageBuf::new(256);
    rsp.reserve(8).unwrap();
    assert_eq!(generate_chunk_response(&mut ctx, 0, 0, &mut rsp), Ok(()));
    assert_eq!(rsp.message(), first_chunk_response());

    // A later chunk carries no size field and has room for four more bytes.
    let mut rsp = MessageBuf::new(256);
    assert_eq!(generate_chunk_response(&mut ctx, 0, 1, &mut rsp), Ok(()));
    let msg = rsp.message();
    assert_eq!(msg.len(), 64);
    assert_eq!(msg[..12].to_vec(), vec![0x12, 0x06, 0, 0, 1, 0, 0, 0, 52, 0, 0, 0]);

    // Too small for the chunk.
    let mut rsp = MessageBuf::new(40);
    assert_eq!(
        generate_chunk_response(&mut ctx, 0, 0, &mut rsp),
        Err((false, CommandError::Codec(CodecError::BufferTooSmall)))
    );

    // The last chunk is flagged.
    let mut small = responder_ctx(64, 30);
    let mut rsp = MessageBuf::new(256);
    assert_eq!(generate_chunk_response(&mut small, 0, 0, &mut rsp), Ok(()));
    let msg = rsp.message();
    assert_eq!(msg.len(), 46);
    assert_eq!(msg[..16].to_vec(), vec![0x12, 0x06, 1, 0, 0, 0, 0, 0, 30, 0, 0, 0, 30, 0, 0, 0]);
}

#[test]
fn chunk_response_roundtrip() {
    let mut responder = responder_ctx(64, 100);
    let mut rsp = MessageBuf::new(256);
    generate_chunk_response(&mut responder, 0, 0, &mut rsp).unwrap();
    let hdr = SpdmMsgHdr::decode(&mut rsp).unwrap();

    let mut requester = test_ctx(SpdmVersion::V12, 64);
    requester.large_req_context.init(0);
    let mut output = MessageBuf::new(128);
    assert_eq!(handle_chunk_response(&mut requester, &hdr, &mut rsp, &mut output), Ok(false));
    let expected: Vec<u8> = (0..48).collect();
    assert_eq!(output.message(), expected);
    assert_eq!(requester.large_req_context.total_size(), 100);
    assert_eq!(requester.large_req_context.current_seq_num(), 1);
}

#[test]
fn chunk_get_handling() {
    let hdr = SpdmMsgHdr::from_raw(0x12, 0x86);

    let mut idle = test_ctx(SpdmVersion::V12, 64);
    let mut req = buf_with(&[0, 0, 0, 0], 32);
    assert_eq!(
        handle_chunk_get(&mut idle, hdr, &mut req),
        Err((true, CommandError::ErrorCode(ErrorCode::UnexpectedRequest)))
    );
    assert_eq!(req.message(), vec![0x12, 0x7F, 0x04, 0]);

    let mut ctx = responder_ctx(64, 100);
    let mut req = buf_with(&[0, 0, 0, 0], 256);
    assert_eq!(handle_chunk_get(&mut ctx, hdr, &mut req), Ok(()));
    assert_eq!(req.message(), first_chunk_response());

    let mut ctx = responder_ctx(64, 100);
    ctx.transport_header_size = 8;
    let mut req = buf_with(&[0, 0, 0, 0], 256);
    assert_eq!(handle_chunk_get(&mut ctx, hdr, &mut req), Ok(()));
    assert_eq!(req.message(), first_chunk_response());
    req.push_data(8).unwrap();
    assert_eq!(req.data_len(), 72);
}

#[test]
fn chunk_send_request_bytes() {
    let mut ctx = responder_ctx(64, 100);
    ctx.large_req_context.init(0);
    let large: Vec<u8> = (0..100).map(|i| (i + 1) as u8).collect();
    let mut data = buf_with(&large, 128);
    let mut req = MessageBuf::new(128);
    assert_eq!(generate_chunk_send_request(&mut ctx, &mut data, &mut req), Ok(()));
    let mut expected = vec![0x12, 0x85, 0, 0, 0, 0, 0, 0, 48, 0, 0, 0, 100, 0, 0, 0];
    expected.extend(1..=48u8);
    assert_eq!(req.message(), expected);
    assert_eq!(data.data_len(), 52);
    assert_eq!(data.decode_bytes(1), Ok(vec![49]));

    let mut short = buf_with(&large[..10], 128);
    let mut req = MessageBuf::new(128);
    assert_eq!(
        generate_chunk_send_request(&mut ctx, &mut short, &mut req),
        Err((false, CommandError::Codec(CodecError::BufferUnderflow)))
    );
    assert_eq!(short.data_len(), 10);

    let mut idle = responder_ctx(64, 100);
    let mut req = MessageBuf::new(32);
    assert_eq!(
        generate_chunk_send_request(&mut idle, &mut data, &mut req),
        Err((false, CommandError::UnexpectedRequest))
    );
}

#[test]
fn encoded_bytes_read_back() {
    let mut buf = MessageBuf::new(8);
    buf.reserve(2).unwrap();
    assert_eq!(buf.encode_bytes(&[5, 6, 7]), Ok(3));
    buf.push_data(3).unwrap();
    assert_eq!(buf.data_len(), 3);
    assert_eq!(buf.decode_bytes(3), Ok(vec![5, 6, 7]));
    assert_eq!(buf.decode_bytes(1), Err(CodecError::BufferTooSmall));
    assert_eq!(buf.push_data(6), Err(CodecError::BufferOverflow));
    assert_eq!(buf.encode_bytes(&[0; 4]), Err(CodecError::BufferTooSmall));
}
