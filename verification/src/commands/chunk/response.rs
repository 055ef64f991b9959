//! The responder's side of chunked transfers: answering `CHUNK_GET` with
//! `CHUNK_RESPONSE`.
use vstd::prelude::*;

use crate::chunk_ctx::{large_response_bytes, ChunkError, LargeResponse};
use crate::codec::{lemma_encoded_concat, u32_le, CodecError, MessageBuf, MessageBufView};
use crate::commands::chunk::{
    chunk_get_fields, chunk_response_fixed_bytes, low_bit, chunk_size_for, max_chunked_resp_size,
    max_chunked_resp_size_defined, spec_max_chunked_resp_size, ChunkGet, ChunkResponseFixed,
    ChunkSenderAttr, LargeResponseSize, CHUNK_RESPONSE_FIXED_SIZE, LARGE_RESPONSE_SIZE_SIZE,
};
use crate::commands::error::ErrorCode;
use crate::context::{error_outcome, SpdmContext};
use crate::error::{CommandError, CommandResult};
use crate::protocol::version::{version_byte, version_from_byte, SpdmVersion};
use crate::protocol::{code_byte, hdr_bytes, ReqRespCode, SpdmMsgHdr};
use crate::state::{state_rank, ConnectionState};

verus! {

/// An error outcome of [SpdmContext::generate_error_response] as a command result.
pub open spec fn error_result<T>(
    ctx: &SpdmContext,
    buf: MessageBufView,
    code: ErrorCode,
) -> (CommandResult<T>, MessageBufView) {
    let (e, b) = error_outcome(ctx, buf, code, 0);
    (Err(e), b)
}

/// Whether [process_chunk_get] gets as far as comparing the size of the large
/// response with the largest one that can be chunked.
pub open spec fn chunk_get_reaches_size_check(
    ctx: &SpdmContext,
    hdr: (u8, u8),
    req: MessageBufView,
) -> bool {
    &&& version_from_byte(hdr.0) == Some(ctx.version())
    &&& version_byte(ctx.version()) >= version_byte(SpdmVersion::V12)
    &&& req.data_len() >= 4
    &&& {
        let cg = chunk_get_fields(req.bytes.subrange(req.data, req.data + 4));
        ctx.large_resp_context@.accepts(cg.1, cg.2)
    }
}

/// What [process_chunk_get] returns, and the request buffer after it.
pub open spec fn process_chunk_get_outcome(
    ctx: &SpdmContext,
    hdr: (u8, u8),
    req: MessageBufView,
) -> (CommandResult<(u8, u16)>, MessageBufView) {
    let v = ctx.version();
    if version_from_byte(hdr.0) != Some(v) {
        error_result(ctx, req, ErrorCode::VersionMismatch)
    } else if version_byte(v) < version_byte(SpdmVersion::V12) {
        error_result(ctx, req, ErrorCode::UnsupportedRequest)
    } else if req.data_len() < 4 {
        error_result(ctx, req, ErrorCode::InvalidRequest)
    } else {
        let cg = chunk_get_fields(req.bytes.subrange(req.data, req.data + 4));
        let r1 = req.pulled(4);
        if !ctx.large_resp_context@.accepts(cg.1, cg.2) {
            error_result(ctx, r1, ErrorCode::InvalidRequest)
        } else if ctx.large_resp_context@.info.large_msg_size > spec_max_chunked_resp_size(ctx) {
            error_result(ctx, r1, ErrorCode::ResponseTooLarge)
        } else {
            (Ok((cg.1, cg.2)), r1)
        }
    }
}

/// Validates a `CHUNK_GET` request in `req_payload` (whose header was already
/// decoded into `spdm_hdr`) against the large response in progress and
/// returns its handle and chunk sequence number. On failure, an `ERROR`
/// response is written into `req_payload`.
pub fn process_chunk_get(ctx: &mut SpdmContext, spdm_hdr: SpdmMsgHdr, req_payload: &mut MessageBuf) -> (r:
    CommandResult<(u8, u16)>)
    requires
        chunk_get_reaches_size_check(old(ctx), spdm_hdr@, old(req_payload)@)
            ==> max_chunked_resp_size_defined(old(ctx)),
    ensures
        *final(ctx) == *old(ctx),
        (r, final(req_payload)@) == process_chunk_get_outcome(old(ctx), spdm_hdr@, old(req_payload)@),
{
    // The version must be the connection's, and at least 1.2.
    let connection_version = ctx.state.connection_info.version_number();
    let version_ok = match spdm_hdr.version() {
        Ok(v) => v == connection_version,
        Err(_) => false,
    };
    if !version_ok {
        return Err(ctx.generate_error_response(req_payload, ErrorCode::VersionMismatch, 0));
    }
    if connection_version < SpdmVersion::V12 {
        return Err(ctx.generate_error_response(req_payload, ErrorCode::UnsupportedRequest, 0));
    }

    let chunk_get_req = match ChunkGet::decode(req_payload) {
        Ok(c) => c,
        Err(_) => {
            return Err(ctx.generate_error_response(req_payload, ErrorCode::InvalidRequest, 0));
        },
    };

    if !ctx.large_resp_context.valid(chunk_get_req.handle(), chunk_get_req.chunk_seq_no()) {
        return Err(ctx.generate_error_response(req_payload, ErrorCode::InvalidRequest, 0));
    }

    // The large response must not exceed what can be transferred in chunks.
    let max_large_rsp_size = max_chunked_resp_size(ctx);

    if ctx.large_resp_context.large_response_size() > max_large_rsp_size {
        return Err(ctx.generate_error_response(req_payload, ErrorCode::ResponseTooLarge, 0));
    }

    Ok((chunk_get_req.handle(), chunk_get_req.chunk_seq_no()))
}

/// A `CHUNK_GET` request that a requester builds for chunk `seq` of
/// transfer `handle` ([generate_chunk_get_request]), once its header is
/// decoded, is accepted by a responder with the same version (1.2 or newer)
/// whose large response in progress is at that handle and chunk and not too
/// large to chunk: [process_chunk_get] returns that handle and chunk number.
/// A responder at another handle or chunk answers `InvalidRequest`.
pub proof fn law_chunk_get_request_accepted(
    ctx: &SpdmContext,
    req: MessageBufView,
    handle: u8,
    seq: u16,
)
    requires
        req.wf(),
        req.data_len() >= 6,
        req.payload().subrange(0, 6) == crate::commands::chunk::request::chunk_get_message(
            version_byte(ctx.version()),
            handle,
            seq,
        ),
        version_byte(ctx.version()) >= version_byte(SpdmVersion::V12),
    ensures
        ({
            let msg = req.payload();
            let outcome = process_chunk_get_outcome(ctx, (msg[0], msg[1]), req.pulled(2));
            &&& ctx.large_resp_context@.accepts(handle, seq) && ctx.large_resp_context@.info.large_msg_size
                <= spec_max_chunked_resp_size(ctx) ==> outcome == (
                Ok::<(u8, u16), (bool, CommandError)>((handle, seq)),
                req.pulled(6),
            )
            &&& !ctx.large_resp_context@.accepts(handle, seq) ==> outcome == error_result::<(u8, u16)>(
                ctx,
                req.pulled(6),
                ErrorCode::InvalidRequest,
            )
        }),
{
    let msg = req.payload();
    let r1 = req.pulled(2);
    crate::protocol::version::law_version_byte_roundtrip(ctx.version(), msg[0]);
    crate::commands::chunk::law_chunk_get_roundtrip((0, handle, seq));
    let m = crate::commands::chunk::request::chunk_get_message(version_byte(ctx.version()), handle, seq);
    assert(m.subrange(2, 6) =~= crate::commands::chunk::chunk_get_bytes((0, handle, seq)));
    assert(r1.bytes.subrange(r1.data, r1.data + 4) =~= msg.subrange(0, 6).subrange(2, 6));
    assert(msg[0] == m[0]);
}

/// The sender attributes for a chunk: bit 0 set for the last one.
pub open spec fn sender_attr_byte(last_chunk: bool) -> u8 {
    if last_chunk { 1 } else { 0 }
}

/// Encodes the fixed fields of a `CHUNK_RESPONSE` into `rsp`.
pub fn encode_chunk_resp_fixed_fields(
    last_chunk: bool,
    handle: u8,
    chunk_seq_num: u16,
    chunk_size: usize,
    rsp: &mut MessageBuf,
) -> (r: CommandResult<usize>)
    ensures
        ({
            let b = old(rsp)@;
            let bytes = chunk_response_fixed_bytes(
                (sender_attr_byte(last_chunk), handle, chunk_seq_num, 0, chunk_size as u32),
            );
            &&& b.fits(10) ==> r == Ok::<usize, (bool, CommandError)>(10) && final(rsp)@
                == b.encoded(bytes)
            &&& !b.fits(10) ==> r == Err::<usize, (bool, CommandError)>(
                (false, CommandError::Codec(CodecError::BufferTooSmall)),
            ) && final(rsp)@ == b
        }),
{
    let chunk_sender_attr = if last_chunk {
        ChunkSenderAttr(1)
    } else {
        ChunkSenderAttr(0)
    };

    let chunk_response_fixed = ChunkResponseFixed::new(
        chunk_sender_attr,
        handle,
        chunk_seq_num,
        0,
        chunk_size as u32,
    );

    match chunk_response_fixed.encode(rsp) {
        Ok(n) => Ok(n),
        Err(e) => Err((false, CommandError::Codec(e))),
    }
}

/// The `chunk_size` bytes of the large response in progress that follow the
/// bytes transferred so far, if there is a response and it holds them.
pub open spec fn next_chunk(ctx: &SpdmContext, chunk_size: int) -> Option<Seq<u8>> {
    let l = ctx.large_resp_context@;
    let offset = l.info.bytes_transferred as int;
    match l.response {
        None => None,
        Some(resp) => {
            let bytes = large_response_bytes(resp);
            if offset + chunk_size > bytes.len() {
                None
            } else {
                Some(bytes.subrange(offset, offset + chunk_size))
            }
        },
    }
}

/// What [encode_chunk_data] returns, and the response buffer after it.
pub open spec fn chunk_data_outcome(ctx: &SpdmContext, chunk_size: usize, rsp: MessageBufView) -> (
    CommandResult<usize>,
    MessageBufView,
) {
    let l = ctx.large_resp_context@;
    if !rsp.fits(chunk_size as int) {
        (Err((false, CommandError::Codec(CodecError::BufferTooSmall))), rsp)
    } else if l.response is None {
        (
            Err((false, CommandError::Chunk(ChunkError::NoLargeResponseInProgress))),
            rsp.put(chunk_size as int),
        )
    } else {
        match next_chunk(ctx, chunk_size as int) {
            None => (
                Err((false, CommandError::Chunk(ChunkError::InvalidMessageOffset))),
                rsp.put(chunk_size as int),
            ),
            Some(chunk) => (Ok(chunk_size), rsp.encoded(chunk)),
        }
    }
}

/// Encodes the next `chunk_size` bytes of the large response in progress
/// (from the offset of the bytes transferred so far) into `rsp`, at the start
/// of its data window, and moves the window's front past them, as every
/// encoding into a buffer does. This is what lets [generate_chunk_response]
/// move the window back over the whole message, so that the chunk follows
/// the fixed fields; a chunk left in front of the window would put the
/// message's start `chunk_size` bytes before its header.
pub fn encode_chunk_data(ctx: &mut SpdmContext, chunk_size: usize, rsp: &mut MessageBuf) -> (r:
    CommandResult<usize>)
    ensures
        *final(ctx) == *old(ctx),
        (r, final(rsp)@) == chunk_data_outcome(old(ctx), chunk_size, old(rsp)@),
{
    let ghost m0 = rsp@;
    let offset = ctx.large_resp_context.bytes_transferred();
    match rsp.put_data(chunk_size) {
        Ok(()) => {},
        Err(e) => return Err((false, CommandError::Codec(e))),
    }

    match ctx.large_resp_context.response() {
        Some(response) => {
            match response {
                LargeResponse::Measurements(_) => {
                    let chunk = match response.get_chunk(offset, chunk_size) {
                        Ok(c) => c,
                        Err(e) => return Err((false, CommandError::Chunk(e))),
                    };
                    match rsp.write_data(chunk_size, chunk.as_slice()) {
                        Ok(()) => {},
                        Err(e) => return Err((false, CommandError::Codec(e))),
                    }
                    match rsp.pull_data(chunk_size) {
                        Ok(()) => {},
                        Err(e) => return Err((false, CommandError::Codec(e))),
                    }
                    proof {
                        assert(rsp@ == m0.encoded(chunk@));
                    }
                },
            }
        },
        None => {
            return Err((false, CommandError::Chunk(ChunkError::NoLargeResponseInProgress)));
        },
    }
    Ok(chunk_size)
}

/// The size of the fixed part of a `CHUNK_RESPONSE` for chunk `seq`: header,
/// fixed fields, and in the first chunk the `LargeResponseSize` field.
pub open spec fn chunk_response_overhead(seq: u16) -> int {
    2 + CHUNK_RESPONSE_FIXED_SIZE + if seq == 0 { LARGE_RESPONSE_SIZE_SIZE as int } else { 0 }
}

/// The size of chunk `seq` of the large response in `ctx`, and whether it is
/// the last one.
pub open spec fn response_chunk_size(ctx: &SpdmContext, seq: u16) -> (usize, bool) {
    chunk_size_for(
        ctx,
        CHUNK_RESPONSE_FIXED_SIZE + if seq == 0 { LARGE_RESPONSE_SIZE_SIZE as int } else { 0 },
    )
}

/// The `CHUNK_RESPONSE` message for chunk `seq` of transfer `handle` of the
/// large response in `ctx`, carrying `chunk`: header, fixed fields, in the
/// first chunk the size of the large response, then the chunk.
pub open spec fn chunk_response_message(
    ctx: &SpdmContext,
    handle: u8,
    seq: u16,
    chunk: Seq<u8>,
) -> Seq<u8> {
    let (cs, last) = response_chunk_size(ctx, seq);
    hdr_bytes((version_byte(ctx.version()), code_byte(ReqRespCode::ChunkResponse)))
        + chunk_response_fixed_bytes((sender_attr_byte(last), handle, seq, 0, cs as u32)) + (if seq
        == 0 {
        u32_le(ctx.large_resp_context@.info.large_msg_size as u32)
    } else {
        Seq::empty()
    }) + chunk
}

/// What [generate_chunk_response] returns, and the response buffer after it.
/// On success the data window holds exactly the `CHUNK_RESPONSE` message,
/// written where the window started; on failure, the buffer holds what was
/// written of the message before the step that failed.
pub open spec fn chunk_response_gen_outcome(
    ctx: &SpdmContext,
    handle: u8,
    seq: u16,
    rsp: MessageBufView,
) -> (CommandResult<()>, MessageBufView) {
    let l = ctx.large_resp_context@;
    let (cs, last) = response_chunk_size(ctx, seq);
    let k = chunk_response_overhead(seq);
    let head = chunk_response_message(ctx, handle, seq, Seq::empty());
    let codec_err = Err::<(), (bool, CommandError)>(
        (false, CommandError::Codec(CodecError::BufferTooSmall)),
    );
    if !rsp.fits(2) {
        (codec_err, rsp)
    } else if cs > l.info.large_msg_size {
        (Err((false, CommandError::InvalidChunkContext)), rsp.encoded(head.subrange(0, 2)))
    } else if !rsp.fits(12) {
        (codec_err, rsp.encoded(head.subrange(0, 2)))
    } else if seq == 0 && !rsp.fits(16) {
        (codec_err, rsp.encoded(head.subrange(0, 12)))
    } else if !rsp.fits(k + cs) {
        (codec_err, rsp.encoded(head))
    } else if l.response is None {
        (
            Err((false, CommandError::Chunk(ChunkError::NoLargeResponseInProgress))),
            rsp.encoded(head).put(cs as int),
        )
    } else {
        match next_chunk(ctx, cs as int) {
            None => (
                Err((false, CommandError::Chunk(ChunkError::InvalidMessageOffset))),
                rsp.encoded(head).put(cs as int),
            ),
            Some(chunk) => {
                let msg = chunk_response_message(ctx, handle, seq, chunk);
                (Ok(()), rsp.encoded(msg).pushed(msg.len() as int))
            },
        }
    }
}

/// Encodes a `CHUNK_RESPONSE` carrying chunk `chunk_seq_num` of the large
/// response in progress into `rsp`: header, fixed fields, in the first chunk
/// the size of the large response, then the chunk's data. Every part, the
/// chunk included (see [encode_chunk_data]), moves the window's front past
/// what it wrote, and the window is then moved back over all of it, so on
/// success the data window holds exactly the message, the chunk following the
/// fixed fields.
#[verifier::rlimit(40)]
#[verifier::spinoff_prover]
pub fn generate_chunk_response(
    ctx: &mut SpdmContext,
    handle: u8,
    chunk_seq_num: u16,
    rsp: &mut MessageBuf,
) -> (r: CommandResult<()>)
    ensures
        *final(ctx) == *old(ctx),
        (r, final(rsp)@) == chunk_response_gen_outcome(old(ctx), handle, chunk_seq_num, old(rsp)@),
{
    let ghost m0 = rsp@;
    let ghost head = chunk_response_message(ctx, handle, chunk_seq_num, Seq::empty());
    let spdm_hdr = SpdmMsgHdr::new(
        ctx.state.connection_info.version_number(),
        ReqRespCode::ChunkResponse,
    );
    proof { assert(head.subrange(0, 2) =~= hdr_bytes(spdm_hdr@)); }
    let mut payload_len = match spdm_hdr.encode(rsp) {
        Ok(n) => n,
        Err(e) => return Err((false, CommandError::Codec(e))),
    };

    let (chunk_size, last_chunk) = ChunkResponseFixed::compute_chunk_size(ctx, chunk_seq_num);
    if chunk_size > ctx.large_resp_context.large_response_size() {
        return Err((false, CommandError::InvalidChunkContext));
    }
    let ghost fixed = chunk_response_fixed_bytes(
        (sender_attr_byte(last_chunk), handle, chunk_seq_num, 0, chunk_size as u32),
    );
    proof {
        assert(head.subrange(0, 12) =~= hdr_bytes(spdm_hdr@) + fixed);
        if m0.fits(12) {
            lemma_encoded_concat(m0, hdr_bytes(spdm_hdr@), fixed);
        }
    }
    payload_len += encode_chunk_resp_fixed_fields(
        last_chunk,
        handle,
        chunk_seq_num,
        chunk_size,
        rsp,
    )?;

    if chunk_seq_num == 0 {
        // The first chunk carries the size of the large response.
        let large_response_size = LargeResponseSize(
            ctx.large_resp_context.large_response_size() as u32,
        );
        let ghost sz = u32_le(large_response_size.0);
        proof {
            assert(head =~= head.subrange(0, 12) + sz);
            if m0.fits(16) {
                lemma_encoded_concat(m0, head.subrange(0, 12), sz);
            }
        }
        payload_len += match large_response_size.encode(rsp) {
            Ok(n) => n,
            Err(e) => return Err((false, CommandError::Codec(e))),
        };
    } else {
        proof { assert(head =~= head.subrange(0, 12)); }
    }
    let ghost m3 = rsp@;
    assert(m3 == m0.encoded(head));
    assert(m3.tail == m0.tail + payload_len);
    assert(payload_len == head.len());

    payload_len += encode_chunk_data(ctx, chunk_size, rsp)?;
    proof {
        let chunk = next_chunk(ctx, chunk_size as int)->0;
        let msg = chunk_response_message(ctx, handle, chunk_seq_num, chunk);
        assert(msg =~= head + chunk);
        lemma_encoded_concat(m0, head, chunk);
    }

    match rsp.push_data(payload_len) {
        Ok(()) => Ok(()),
        Err(e) => Err((false, CommandError::Codec(e))),
    }
}

/// Whether [handle_chunk_get] accepts a `CHUNK_GET` at all: capabilities have
/// been negotiated, the local device supports chunking, and a large response
/// is in progress.
pub open spec fn chunk_get_expected(ctx: &SpdmContext) -> bool {
    &&& state_rank(ctx.state.connection_info.state) >= state_rank(
        ConnectionState::AfterCapabilities,
    )
    &&& (ctx.local_capabilities.flags.0 / 131072) % 2 != 0
    &&& ctx.large_resp_context@.info.in_use
}

/// What [handle_chunk_get] returns, and the buffer after it.
pub open spec fn chunk_get_outcome(ctx: &SpdmContext, hdr: (u8, u8), buf: MessageBufView) -> (
    CommandResult<()>,
    MessageBufView,
) {
    if !chunk_get_expected(ctx) {
        error_result(ctx, buf, ErrorCode::UnexpectedRequest)
    } else {
        let (pr, b1) = process_chunk_get_outcome(ctx, hdr, buf);
        match pr {
            Err(e) => (Err(e), b1),
            Ok((handle, seq)) => {
                let h = ctx.transport_header_size as int;
                if h > b1.capacity() {
                    (Err((false, CommandError::BufferTooSmall)), b1.cleared())
                } else {
                    chunk_response_gen_outcome(ctx, handle, seq, b1.with_message(h, Seq::empty()))
                }
            },
        }
    }
}

/// Answers a `CHUNK_GET` request in `req_payload` (whose header was already
/// decoded into `spdm_hdr`): the `CHUNK_RESPONSE`, or an `ERROR` response,
/// is written into `req_payload`. Fails with `UnexpectedRequest` unless
/// capabilities have been negotiated, chunking is supported and a large
/// response is in progress. By the protocol's rules, `GET_VERSION`,
/// `VERSION`, `GET_CAPABILITIES`, `CAPABILITIES` answering a
/// `GET_CAPABILITIES` with `Param1` 0, and `ERROR` shall not be transferred
/// in chunks; keeping such messages out of a large response is the duty of
/// whoever starts it, and this function does not check it.
#[verifier::rlimit(40)]
#[verifier::spinoff_prover]
pub fn handle_chunk_get(ctx: &mut SpdmContext, spdm_hdr: SpdmMsgHdr, req_payload: &mut MessageBuf) -> (r:
    CommandResult<()>)
    requires
        chunk_get_expected(old(ctx)) && chunk_get_reaches_size_check(
            old(ctx),
            spdm_hdr@,
            old(req_payload)@,
        ) ==> max_chunked_resp_size_defined(old(ctx)),
    ensures
        *final(ctx) == *old(ctx),
        (r, final(req_payload)@) == chunk_get_outcome(old(ctx), spdm_hdr@, old(req_payload)@),
{
    // The request must come after CAPABILITIES, chunking must be supported,
    // and a large response must be in progress.
    if ctx.state.connection_info.state().is_before(ConnectionState::AfterCapabilities)
        || ctx.local_capabilities.flags.chunk_cap() == 0 || !ctx.large_resp_context.in_progress() {
        return Err(ctx.generate_error_response(req_payload, ErrorCode::UnexpectedRequest, 0));
    }

    let (handle, chunk_seq_num) = process_chunk_get(ctx, spdm_hdr, req_payload)?;

    ctx.prepare_response_buffer(req_payload)?;
    generate_chunk_response(ctx, handle, chunk_seq_num, req_payload)?;

    Ok(())
}

/// When [generate_chunk_response] succeeds, the data window holds exactly the
/// `CHUNK_RESPONSE` message with the next chunk of the large response.
pub proof fn lemma_chunk_response_sent(ctx: &SpdmContext, handle: u8, seq: u16, rsp: MessageBufView)
    requires
        chunk_response_gen_outcome(ctx, handle, seq, rsp).0 is Ok,
    ensures
        next_chunk(ctx, response_chunk_size(ctx, seq).0 as int) is Some,
        ({
            let chunk = next_chunk(ctx, response_chunk_size(ctx, seq).0 as int)->0;
            let msg = chunk_response_message(ctx, handle, seq, chunk);
            &&& chunk.len() == response_chunk_size(ctx, seq).0
            &&& chunk_response_gen_outcome(ctx, handle, seq, rsp).1 == rsp.encoded(msg).pushed(
                msg.len() as int,
            )
            &&& rsp.fits(msg.len() as int)
        }),
{
    let cs = response_chunk_size(ctx, seq).0;
    let k = chunk_response_overhead(seq);
    let head = chunk_response_message(ctx, handle, seq, Seq::empty());
    let chunk = next_chunk(ctx, cs as int)->0;
    assert(chunk_response_message(ctx, handle, seq, chunk) =~= head + chunk);
}

/// What a responder writes with [generate_chunk_response] a requester takes
/// in with [handle_chunk_response]: when both sides speak the same version,
/// the requester expects that chunk of that transfer and has room for it, the
/// header read off the message and the rest of it make the requester copy
/// the responder's chunk into its output at the offset of the bytes received
/// so far, and report whether the chunk was the last one.
#[verifier::rlimit(50)]
pub proof fn law_chunk_response_roundtrip(
    responder: &SpdmContext,
    requester: &SpdmContext,
    handle: u8,
    seq: u16,
    rsp: MessageBufView,
    output: MessageBufView,
)
    requires
        rsp.wf(),
        output.wf(),
        responder.large_resp_context@.wf(),
        chunk_response_gen_outcome(responder, handle, seq, rsp).0 is Ok,
        crate::commands::chunk::request::chunk_get_allowed(requester),
        requester.version() == responder.version(),
        requester.large_req_context@.handle == handle,
        requester.large_req_context@.seq_num == seq,
        output.fits(response_chunk_size(responder, seq).0 as int),
        requester.large_req_context@.bytes_transferred <= output.data_len(),
        seq == 0 ==> responder.large_resp_context@.info.large_msg_size as u32 <= output.capacity(),
    ensures
        ({
            let sent = chunk_response_gen_outcome(responder, handle, seq, rsp).1;
            let (cs, last) = response_chunk_size(responder, seq);
            let chunk = next_chunk(responder, cs as int)->0;
            let o1 = output.put(cs as int);
            let taken = crate::commands::chunk::request::chunk_response_outcome(
                requester,
                (sent.bytes[sent.data], sent.bytes[sent.data + 1]),
                sent.pulled(2),
                output,
            );
            &&& taken.0 == Ok::<bool, (bool, CommandError)>(last)
            &&& taken.3 == (MessageBufView {
                bytes: o1.written(o1.data + requester.large_req_context@.bytes_transferred, chunk),
                data: o1.data,
                tail: o1.tail,
            })
        }),
{
    let (cs, last) = response_chunk_size(responder, seq);
    let chunk = next_chunk(responder, cs as int)->0;
    let msg = chunk_response_message(responder, handle, seq, chunk);
    lemma_chunk_response_sent(responder, handle, seq, rsp);
    let sent = rsp.encoded(msg).pushed(msg.len() as int);
    assert(sent == chunk_response_gen_outcome(responder, handle, seq, rsp).1);
    let total = responder.large_resp_context@.info.large_msg_size as u32;
    let attr = sender_attr_byte(last);
    crate::commands::chunk::law_chunk_size_bounded(
        responder,
        CHUNK_RESPONSE_FIXED_SIZE + if seq == 0 { LARGE_RESPONSE_SIZE_SIZE as int } else { 0 },
    );
    let body = crate::commands::chunk::request::chunk_response_body(attr, handle, seq, total, chunk);
    assert(msg =~= hdr_bytes((version_byte(responder.version()), code_byte(ReqRespCode::ChunkResponse))) + body);
    assert(sent.bytes.subrange(sent.data, sent.data + msg.len()) =~= msg);
    assert(sent.bytes[sent.data] == msg[0]);
    assert(sent.bytes[sent.data + 1] == msg[1]);
    let r = sent.pulled(2);
    assert(r.payload().subrange(0, body.len() as int) =~= body);
    assert(low_bit(attr) == 1 <==> last);
    crate::commands::chunk::request::law_chunk_response_taken_in(
        requester,
        r,
        output,
        attr,
        total,
        chunk,
    );
}

} // verus!
