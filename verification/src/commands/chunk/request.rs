//! The requester's side of chunked transfers: `CHUNK_GET` requests and the
//! `CHUNK_RESPONSE`s that answer them, and `CHUNK_SEND` requests.
use vstd::prelude::*;

use crate::chunk_ctx::{next_seq_num, ChunkInfoView};
use crate::codec::{le_u32, lemma_encoded_concat, u32_le, CodecError, MessageBuf, MessageBufView};
use crate::commands::chunk::{
    chunk_get_bytes, chunk_response_fixed_bytes, chunk_response_fixed_fields, chunk_send_fixed_bytes, chunk_size_for, low_bit,
    ChunkGet, ChunkResponseFixed, ChunkSendFixed, LargeMessageSize, LargeResponseSize,
    CHUNK_SEND_FIXED_SIZE,
    LARGE_MESSAGE_SIZE_SIZE,
};
use crate::context::SpdmContext;
use crate::error::{CommandError, CommandResult};
use crate::protocol::version::{version_byte, version_from_byte};
use crate::protocol::{code_byte, hdr_bytes, ReqRespCode, SpdmMsgHdr};
use crate::state::{state_rank, ConnectionState};

verus! {

/// `a` and `b` agree on everything but the requester's large message context.
pub open spec fn same_except_large_req(a: &SpdmContext, b: &SpdmContext) -> bool {
    &&& a.supported_versions@ == b.supported_versions@
    &&& a.state == b.state
    &&& a.local_capabilities == b.local_capabilities
    &&& a.large_resp_context@ == b.large_resp_context@
    &&& a.transport_header_size == b.transport_header_size
}

/// Whether a chunk may be retrieved or sent: capabilities have been
/// negotiated, the local device supports chunking, and a large response
/// retrieval is in progress.
pub open spec fn chunk_get_allowed(ctx: &SpdmContext) -> bool {
    &&& state_rank(ctx.state.connection_info.state) >= state_rank(
        ConnectionState::AfterCapabilities,
    )
    &&& (ctx.local_capabilities.flags.0 / 131072) % 2 != 0
    &&& ctx.large_req_context@.in_use
}

/// The bytes of a `CHUNK_GET` request for chunk `seq` of transfer `handle`.
pub open spec fn chunk_get_message(version: u8, handle: u8, seq: u16) -> Seq<u8> {
    hdr_bytes((version, code_byte(ReqRespCode::ChunkGet))) + chunk_get_bytes((0, handle, seq))
}

/// Build and encode a `CHUNK_GET` request into `req_buf`, for the handle and
/// chunk sequence number tracked in `ctx.large_req_context` (initialised when
/// `ERROR(LargeResponse)` was received). On success the data window of
/// `req_buf` starts at the request.
pub fn generate_chunk_get_request(ctx: &mut SpdmContext, req_buf: &mut MessageBuf) -> (r:
    CommandResult<()>)
    ensures
        *final(ctx) == *old(ctx),
        ({
            let b = old(req_buf)@;
            let msg = chunk_get_message(
                version_byte(old(ctx).version()),
                old(ctx).large_req_context@.handle,
                old(ctx).large_req_context@.seq_num,
            );
            &&& b.fits(6) ==> r is Ok && final(req_buf)@ == b.encoded(msg).pushed(6)
            &&& !b.fits(2) ==> r == Err::<(), (bool, CommandError)>(
                (false, CommandError::Codec(CodecError::BufferTooSmall)),
            ) && final(req_buf)@ == b
            &&& b.fits(2) && !b.fits(6) ==> r == Err::<(), (bool, CommandError)>(
                (false, CommandError::Codec(CodecError::BufferTooSmall)),
            ) && final(req_buf)@ == b.encoded(msg.subrange(0, 2))
        }),
{
    let ghost b = req_buf@;
    let spdm_hdr = SpdmMsgHdr::new(
        ctx.state.connection_info.version_number(),
        ReqRespCode::ChunkGet,
    );
    let ghost msg = chunk_get_message(
        version_byte(ctx.version()),
        ctx.large_req_context@.handle,
        ctx.large_req_context@.seq_num,
    );
    proof { assert(msg.subrange(0, 2) =~= hdr_bytes(spdm_hdr@)); }

    let mut payload_len = match spdm_hdr.encode(req_buf) {
        Ok(n) => n,
        Err(e) => return Err((false, CommandError::Codec(e))),
    };

    let chunk_get = ChunkGet::new(
        0,
        ctx.large_req_context.handle(),
        ctx.large_req_context.current_seq_num(),
    );
    payload_len += match chunk_get.encode(req_buf) {
        Ok(n) => n,
        Err(e) => return Err((false, CommandError::Codec(e))),
    };
    proof {
        assert(msg =~= hdr_bytes(spdm_hdr@) + chunk_get_bytes(chunk_get@));
        lemma_encoded_concat(b, hdr_bytes(spdm_hdr@), chunk_get_bytes(chunk_get@));
    }

    match req_buf.push_data(payload_len) {
        Ok(()) => {},
        Err(e) => return Err((false, CommandError::Codec(e))),
    }

    Ok(())
}

/// What [handle_chunk_response] does: its result, and the requester's large
/// message context, the response buffer and the output buffer after it.
pub open spec fn chunk_response_outcome(
    ctx: &SpdmContext,
    hdr: (u8, u8),
    resp: MessageBufView,
    output: MessageBufView,
) -> (CommandResult<bool>, ChunkInfoView, MessageBufView, MessageBufView) {
    let rq = ctx.large_req_context@;
    if version_from_byte(hdr.0) != Some(ctx.version()) {
        (Err((false, CommandError::InvalidResponse)), rq, resp, output)
    } else if !chunk_get_allowed(ctx) {
        (Err((false, CommandError::UnexpectedRequest)), rq, resp, output)
    } else if resp.data_len() < 10 {
        (Err((false, CommandError::Codec(CodecError::BufferTooSmall))), rq, resp, output)
    } else {
        let fixed = chunk_response_fixed_fields(resp.bytes.subrange(resp.data, resp.data + 10));
        let r1 = resp.pulled(10);
        if fixed.1 != rq.handle || fixed.2 != rq.seq_num {
            (Err((false, CommandError::InvalidChunkContext)), rq, r1, output)
        } else if fixed.2 == 0 && r1.data_len() < 4 {
            (Err((false, CommandError::Codec(CodecError::BufferTooSmall))), rq, r1, output)
        } else {
            let r2 = if fixed.2 == 0 { r1.pulled(4) } else { r1 };
            let rq1 = if fixed.2 == 0 {
                ChunkInfoView {
                    large_msg_size: le_u32(r1.bytes.subrange(r1.data, r1.data + 4)) as usize,
                    ..rq
                }
            } else {
                rq
            };
            let cs = fixed.4 as int;
            let offset = rq1.bytes_transferred as int;
            if fixed.2 == 0 && rq1.large_msg_size > output.capacity() {
                (Err((false, CommandError::BufferTooSmall)), rq1, r2, output)
            } else if r2.data_len() < cs {
                (Err((false, CommandError::InvalidResponse)), rq1, r2, output)
            } else if !output.fits(cs) {
                (Err((false, CommandError::Codec(CodecError::BufferTooSmall))), rq1, r2, output)
            } else if offset + cs > output.put(cs).data_len() {
                (
                    Err((false, CommandError::Codec(CodecError::BufferUnderflow))),
                    rq1,
                    r2,
                    output.put(cs),
                )
            } else {
                let o1 = output.put(cs);
                let chunk = r2.bytes.subrange(r2.data, r2.data + cs);
                let o2 = MessageBufView {
                    bytes: o1.written(o1.data + offset, chunk),
                    data: o1.data,
                    tail: o1.tail,
                };
                let rq2 = ChunkInfoView {
                    bytes_transferred: (rq1.bytes_transferred + cs) as usize,
                    seq_num: next_seq_num(rq1.seq_num),
                    ..rq1
                };
                (Ok(low_bit(fixed.0) == 1), rq2, r2.pulled(cs), o2)
            }
        }
    }
}

/// Whether [handle_chunk_response] gets as far as copying the chunk: every
/// check before it passes and the output has room for the chunk. The chunk's
/// size is then the last field of the fixed fields at the front of `resp`.
pub open spec fn chunk_response_reaches_copy(
    ctx: &SpdmContext,
    hdr: (u8, u8),
    resp: MessageBufView,
    output: MessageBufView,
) -> bool {
    let rq = ctx.large_req_context@;
    let fixed = chunk_response_fixed_fields(resp.bytes.subrange(resp.data, resp.data + 10));
    let extra = if fixed.2 == 0 { 4int } else { 0 };
    &&& version_from_byte(hdr.0) == Some(ctx.version())
    &&& chunk_get_allowed(ctx)
    &&& resp.data_len() >= 10
    &&& fixed.1 == rq.handle && fixed.2 == rq.seq_num
    &&& resp.data_len() >= 10 + extra
    &&& fixed.2 == 0 ==> le_u32(resp.bytes.subrange(resp.data + 10, resp.data + 14))
        <= output.capacity()
    &&& resp.data_len() >= 10 + extra + fixed.4
    &&& output.fits(fixed.4 as int)
}

/// Decode and validate one `CHUNK_RESPONSE` message, copying its chunk into
/// `output` at the offset of the bytes received so far. Returns `Ok(true)`
/// for the last chunk (the caller then reads the bytes received and resets
/// the context) and `Ok(false)` while more chunks are expected. Fails if the
/// version, handle or sequence number is wrong, if the output buffer is too
/// small, or if decoding fails.
#[verifier::rlimit(40)]
#[verifier::spinoff_prover]
pub fn handle_chunk_response(
    ctx: &mut SpdmContext,
    spdm_hdr: &SpdmMsgHdr,
    resp: &mut MessageBuf,
    output: &mut MessageBuf,
) -> (r: CommandResult<bool>)
    requires
        chunk_response_reaches_copy(old(ctx), spdm_hdr@, old(resp)@, old(output)@)
            ==> old(ctx).large_req_context@.bytes_transferred + chunk_response_fixed_fields(
            old(resp)@.bytes.subrange(old(resp)@.data, old(resp)@.data + 10),
        ).4 <= usize::MAX,
    ensures
        same_except_large_req(final(ctx), old(ctx)),
        (r, final(ctx).large_req_context@, final(resp)@, final(output)@) == chunk_response_outcome(
            old(ctx),
            spdm_hdr@,
            old(resp)@,
            old(output)@,
        ),
{
    let ghost r0 = resp@;
    let ghost o0 = output@;
    let connection_version = ctx.state.connection_info.version_number();
    match spdm_hdr.version() {
        Ok(v) => {
            if v != connection_version {
                return Err((false, CommandError::InvalidResponse));
            }
        },
        Err(_) => return Err((false, CommandError::InvalidResponse)),
    }

    check_chunk_get_preconditions(ctx)?;

    let chunk_fixed = match ChunkResponseFixed::decode(resp) {
        Ok(c) => c,
        Err(e) => return Err((false, CommandError::Codec(e))),
    };

    // Validate handle and sequence number against our tracked state.
    if chunk_fixed.handle() != ctx.large_req_context.handle() || chunk_fixed.chunk_seq_no()
        != ctx.large_req_context.current_seq_num() {
        return Err((false, CommandError::InvalidChunkContext));
    }

    // The first chunk (ChunkSeqNo == 0) carries the total large response size.
    if chunk_fixed.chunk_seq_no() == 0 {
        let large_rsp_size = match LargeResponseSize::decode(resp) {
            Ok(s) => s,
            Err(e) => return Err((false, CommandError::Codec(e))),
        };
        ctx.large_req_context.set_total_size(large_rsp_size.0 as usize);

        // The caller's buffer must be large enough for the whole response.
        if ctx.large_req_context.total_size() > output.capacity() {
            return Err((false, CommandError::BufferTooSmall));
        }
    }

    let chunk_size = chunk_fixed.chunk_size() as usize;
    if resp.data_len() < chunk_size {
        return Err((false, CommandError::InvalidResponse));
    }

    // Extend the output tail to make room for this chunk, then copy the
    // chunk into the newly reserved range at the correct byte offset.
    let offset = ctx.large_req_context.bytes_received();
    match output.put_data(chunk_size) {
        Ok(()) => {},
        Err(e) => return Err((false, CommandError::Codec(e))),
    }
    let chunk_data = match resp.data(chunk_size) {
        Ok(d) => d,
        Err(e) => return Err((false, CommandError::Codec(e))),
    };
    match output.write_data(offset + chunk_size, chunk_data.as_slice()) {
        Ok(()) => {},
        Err(e) => return Err((false, CommandError::Codec(e))),
    }
    match resp.pull_data(chunk_size) {
        Ok(()) => {},
        Err(e) => return Err((false, CommandError::Codec(e))),
    }

    // Advance sequence number and byte count for the next iteration.
    ctx.large_req_context.advance(chunk_size);

    Ok(chunk_fixed.chunk_sender_attr().last_chunk() == 1)
}

/// The body of a `CHUNK_RESPONSE` (what follows its header): fixed fields for
/// chunk `seq` of transfer `handle`, the size of the large response in the
/// first chunk, then the chunk.
pub open spec fn chunk_response_body(
    attr: u8,
    handle: u8,
    seq: u16,
    total: u32,
    chunk: Seq<u8>,
) -> Seq<u8> {
    chunk_response_fixed_bytes((attr, handle, seq, 0, chunk.len() as u32)) + (if seq == 0 {
        u32_le(total)
    } else {
        Seq::empty()
    }) + chunk
}

/// A `CHUNK_RESPONSE` for the chunk a requester asked for is taken in: with
/// the connection's version in the header, capabilities negotiated, chunking
/// supported, the transfer's handle and sequence number, and room in the
/// output, [handle_chunk_response] copies the chunk into the output at the
/// offset of the bytes received so far, records the size of the large
/// response from the first chunk, counts the chunk's bytes, moves to the next
/// sequence number, and reports whether the chunk was the last one.
pub proof fn law_chunk_response_taken_in(
    ctx: &SpdmContext,
    resp: MessageBufView,
    output: MessageBufView,
    attr: u8,
    total: u32,
    chunk: Seq<u8>,
)
    requires
        resp.wf(),
        output.wf(),
        chunk_get_allowed(ctx),
        chunk.len() <= u32::MAX,
        ({
            let rq = ctx.large_req_context@;
            let body = chunk_response_body(attr, rq.handle, rq.seq_num, total, chunk);
            &&& resp.data_len() >= body.len()
            &&& resp.payload().subrange(0, body.len() as int) == body
            &&& output.fits(chunk.len() as int)
            &&& rq.bytes_transferred <= output.data_len()
            &&& rq.seq_num == 0 ==> total <= output.capacity()
        }),
    ensures
        ({
            let rq = ctx.large_req_context@;
            let body = chunk_response_body(attr, rq.handle, rq.seq_num, total, chunk);
            let rq1 = if rq.seq_num == 0 {
                ChunkInfoView { large_msg_size: total as usize, ..rq }
            } else {
                rq
            };
            let o1 = output.put(chunk.len() as int);
            chunk_response_outcome(
                ctx,
                (version_byte(ctx.version()), code_byte(ReqRespCode::ChunkResponse)),
                resp,
                output,
            ) == (
                Ok::<bool, (bool, CommandError)>(low_bit(attr) == 1),
                ChunkInfoView {
                    bytes_transferred: (rq.bytes_transferred + chunk.len()) as usize,
                    seq_num: next_seq_num(rq.seq_num),
                    ..rq1
                },
                resp.pulled(body.len() as int),
                MessageBufView {
                    bytes: o1.written(o1.data + rq.bytes_transferred, chunk),
                    data: o1.data,
                    tail: o1.tail,
                },
            )
        }),
{
    let rq = ctx.large_req_context@;
    let cs = chunk.len() as u32;
    let body = chunk_response_body(attr, rq.handle, rq.seq_num, total, chunk);
    let fixed = (attr, rq.handle, rq.seq_num, 0u16, cs);
    crate::protocol::version::law_version_byte_roundtrip(ctx.version(), 0);
    crate::commands::chunk::law_chunk_response_fixed_roundtrip(fixed);
    let d = resp.data;
    assert(resp.bytes.subrange(d, d + 10) =~= body.subrange(0, 10));
    assert(body.subrange(0, 10) =~= chunk_response_fixed_bytes(fixed));
    let r1 = resp.pulled(10);
    if rq.seq_num == 0 {
        crate::codec::lemma_u32_roundtrip(total);
        assert(r1.bytes.subrange(r1.data, r1.data + 4) =~= body.subrange(10, 14));
        assert(body.subrange(10, 14) =~= u32_le(total));
        let n = chunk.len() as int;
        assert(body.subrange(14, 14 + n) =~= chunk);
        assert(resp.bytes.subrange(d + 14, d + 14 + n) =~= body.subrange(14, 14 + n));
    } else {
        let n = chunk.len() as int;
        assert(body.subrange(10, 10 + n) =~= chunk);
        assert(resp.bytes.subrange(d + 10, d + 10 + n) =~= body.subrange(10, 10 + n));
    }
}

/// Validate that preconditions for issuing a `CHUNK_GET` are met; if not,
/// fails with an `UnexpectedRequest` error, to be propagated back to the
/// caller: when capabilities have not yet been negotiated, chunking
/// capability is not advertised, or no large response retrieval is in
/// progress.
pub fn check_chunk_get_preconditions(ctx: &SpdmContext) -> (r: CommandResult<()>)
    ensures
        chunk_get_allowed(ctx) ==> r is Ok,
        !chunk_get_allowed(ctx) ==> r == Err::<(), (bool, CommandError)>(
            (false, CommandError::UnexpectedRequest),
        ),
{
    if ctx.state.connection_info.state().is_before(ConnectionState::AfterCapabilities)
        || ctx.local_capabilities.flags.chunk_cap() == 0 || !ctx.large_req_context.in_progress() {
        return Err((false, CommandError::UnexpectedRequest));
    }
    Ok(())
}

/// The size of the next `CHUNK_SEND` chunk of the large message in `ctx`,
/// and whether it is the last one.
pub open spec fn send_chunk_size(ctx: &SpdmContext) -> (usize, bool) {
    chunk_size_for(
        ctx,
        CHUNK_SEND_FIXED_SIZE + if ctx.large_resp_context@.info.seq_num == 0 {
            LARGE_MESSAGE_SIZE_SIZE as int
        } else {
            0
        },
    )
}

/// The `CHUNK_SEND` request carrying `chunk` as the next chunk of the large
/// message in `ctx.large_resp_context`: header, fixed fields, in the first
/// chunk the size of the large message, then the chunk.
pub open spec fn chunk_send_message(ctx: &SpdmContext, chunk: Seq<u8>) -> Seq<u8> {
    let (size, last) = send_chunk_size(ctx);
    let l = ctx.large_resp_context@.info;
    hdr_bytes((version_byte(ctx.version()), code_byte(ReqRespCode::ChunkSend)))
        + chunk_send_fixed_bytes(
        (if last { 1u8 } else { 0u8 }, l.handle, l.seq_num as u32, size as u32),
    ) + (if l.seq_num == 0 {
        u32_le(l.large_msg_size as u32)
    } else {
        Seq::empty()
    }) + chunk
}

/// What [generate_chunk_send_request] returns, and the request buffer and the
/// large message's buffer after it. On success the request buffer's data
/// window holds exactly the `CHUNK_SEND` message, and the chunk it carries
/// has been consumed from the front of the large message's data window.
pub open spec fn chunk_send_outcome(ctx: &SpdmContext, data: MessageBufView, req: MessageBufView) -> (
    CommandResult<()>,
    MessageBufView,
    MessageBufView,
) {
    let (cs, last) = send_chunk_size(ctx);
    let first = ctx.large_resp_context@.info.seq_num == 0;
    let head = chunk_send_message(ctx, Seq::empty());
    let codec_err = Err::<(), (bool, CommandError)>(
        (false, CommandError::Codec(CodecError::BufferTooSmall)),
    );
    if !chunk_get_allowed(ctx) {
        (Err((false, CommandError::UnexpectedRequest)), data, req)
    } else if !req.fits(2) {
        (codec_err, data, req)
    } else if !req.fits(12) {
        (codec_err, data, req.encoded(head.subrange(0, 2)))
    } else if first && !req.fits(16) {
        (codec_err, data, req.encoded(head.subrange(0, 12)))
    } else if data.data_len() < cs {
        (
            Err((false, CommandError::Codec(CodecError::BufferUnderflow))),
            data,
            req.encoded(head),
        )
    } else if !req.fits(head.len() + cs) {
        (codec_err, data, req.encoded(head))
    } else {
        let chunk = data.bytes.subrange(data.data, data.data + cs);
        let msg = chunk_send_message(ctx, chunk);
        (Ok(()), data.pulled(cs as int), req.encoded(msg).pushed(msg.len() as int))
    }
}

/// Generate a `CHUNK_SEND` request for the large message tracked in
/// `ctx.large_resp_context` (which has to be reset before). `data` holds the
/// entire large SPDM message, including its header; the next chunk is
/// consumed from the front of its data window and written into `req_buf`
/// after the header, the fixed fields and, in the first chunk, the size of
/// the large message. On success the data window of `req_buf` holds exactly
/// the request.
#[verifier::rlimit(40)]
#[verifier::spinoff_prover]
pub fn generate_chunk_send_request(
    ctx: &mut SpdmContext,
    data: &mut MessageBuf,
    req_buf: &mut MessageBuf,
) -> (r: CommandResult<()>)
    ensures
        *final(ctx) == *old(ctx),
        (r, final(data)@, final(req_buf)@) == chunk_send_outcome(old(ctx), old(data)@, old(req_buf)@),
{
    let ghost b = req_buf@;
    let ghost head = chunk_send_message(ctx, Seq::empty());
    check_chunk_get_preconditions(ctx)?;

    let spdm_hdr = SpdmMsgHdr::new(
        ctx.state.connection_info.version_number(),
        ReqRespCode::ChunkSend,
    );
    proof { assert(head.subrange(0, 2) =~= hdr_bytes(spdm_hdr@)); }
    let mut payload_len = match spdm_hdr.encode(req_buf) {
        Ok(n) => n,
        Err(e) => return Err((false, CommandError::Codec(e))),
    };

    let seq_no = ctx.large_resp_context.seq_no();
    let (chunk_size, last) = ChunkSendFixed::compute_chunk_size(ctx, seq_no);

    let chunk_send_fixed = ChunkSendFixed::new(
        ctx.large_resp_context.handle(),
        seq_no as u32,
        chunk_size as u32,
        last,
    );
    proof {
        assert(head.subrange(0, 12) =~= hdr_bytes(spdm_hdr@) + chunk_send_fixed_bytes(
            chunk_send_fixed@,
        ));
        if b.fits(12) {
            lemma_encoded_concat(b, hdr_bytes(spdm_hdr@), chunk_send_fixed_bytes(chunk_send_fixed@));
        }
    }
    payload_len += match chunk_send_fixed.encode(req_buf) {
        Ok(n) => n,
        Err(e) => return Err((false, CommandError::Codec(e))),
    };

    if seq_no == 0 {
        // The first chunk carries the size of the large message.
        let large_message_size = LargeMessageSize(
            ctx.large_resp_context.large_response_size() as u32,
        );
        let ghost sz = u32_le(large_message_size.0);
        proof {
            assert(head =~= head.subrange(0, 12) + sz);
            if b.fits(16) {
                lemma_encoded_concat(b, head.subrange(0, 12), sz);
            }
        }
        payload_len += match large_message_size.encode(req_buf) {
            Ok(n) => n,
            Err(e) => return Err((false, CommandError::Codec(e))),
        };
    } else {
        proof { assert(head =~= head.subrange(0, 12)); }
    }
    assert(req_buf@ == b.encoded(head));
    assert(payload_len == head.len());

    // Write the next chunk of the large message into the request.
    let chunk = match data.data(chunk_size) {
        Ok(c) => c,
        Err(e) => return Err((false, CommandError::Codec(e))),
    };
    payload_len += match req_buf.encode_bytes(chunk.as_slice()) {
        Ok(n) => n,
        Err(e) => return Err((false, CommandError::Codec(e))),
    };
    proof {
        let msg = chunk_send_message(ctx, chunk@);
        assert(msg =~= head + chunk@);
        lemma_encoded_concat(b, head, chunk@);
    }
    match data.pull_data(chunk_size) {
        Ok(()) => {},
        Err(e) => return Err((false, CommandError::Codec(e))),
    }

    match req_buf.push_data(payload_len) {
        Ok(()) => Ok(()),
        Err(e) => Err((false, CommandError::Codec(e))),
    }
}

/// Only the chunk asked for is taken in: a `CHUNK_RESPONSE` whose handle
/// (byte 1 of its fixed fields) or little-endian chunk sequence number (bytes
/// 2 and 3) is not the one the requester expects is refused with
/// `InvalidChunkContext`, its fixed fields are consumed, and the requester's
/// chunk state and the output are left as they were.
pub proof fn law_chunk_response_wrong_chunk_refused(
    ctx: &SpdmContext,
    hdr: (u8, u8),
    resp: MessageBufView,
    output: MessageBufView,
)
    requires
        resp.wf(),
        version_from_byte(hdr.0) == Some(ctx.version()),
        chunk_get_allowed(ctx),
        resp.data_len() >= 10,
        resp.bytes[resp.data + 1] != ctx.large_req_context@.handle || resp.bytes[resp.data + 2]
            + resp.bytes[resp.data + 3] * 256 != ctx.large_req_context@.seq_num,
    ensures
        chunk_response_outcome(ctx, hdr, resp, output) == (
            Err::<bool, (bool, CommandError)>((false, CommandError::InvalidChunkContext)),
            ctx.large_req_context@,
            resp.pulled(10),
            output,
        ),
{
    let b = resp.bytes.subrange(resp.data, resp.data + 10);
    assert(b.subrange(2, 4)[0] == resp.bytes[resp.data + 2]);
    assert(b.subrange(2, 4)[1] == resp.bytes[resp.data + 3]);
}

/// Chunks may be retrieved or sent exactly when the connection is past
/// version negotiation (capabilities or anything after them), the local
/// device advertises chunking (bit 17 of its capability flags), and a large
/// response retrieval is in progress.
pub proof fn law_chunk_get_allowed_states(ctx: &SpdmContext)
    ensures
        chunk_get_allowed(ctx) <==> ({
            let s = ctx.state.connection_info.state;
            &&& s != ConnectionState::NotStarted
            &&& s != ConnectionState::AfterVersion
            &&& (ctx.local_capabilities.flags.0 / 131072) % 2 == 1
            &&& ctx.large_req_context@.in_use
        }),
{
}

/// A successful `CHUNK_SEND` request flags its chunk as the last one (bit 0
/// of `Param1`, byte 2 of the message) exactly when the rest of the large
/// message fits into the room that a message of the minimal data transfer
/// size leaves after the header, the fixed fields and, on the first chunk,
/// the size field; and the chunk size field (bytes 8 to 11, little-endian)
/// is then that rest, and the room otherwise.
#[verifier::rlimit(50)]
pub proof fn law_chunk_send_last_flag(ctx: &SpdmContext, data: MessageBufView, req: MessageBufView)
    requires
        data.wf(),
        req.wf(),
        ctx.large_resp_context@.wf(),
        chunk_send_outcome(ctx, data, req).0 is Ok,
    ensures
        ({
            let l = ctx.large_resp_context@.info;
            let m = ctx.spec_min_data_transfer_size() as int;
            let overhead = 12 + if l.seq_num == 0 { 4int } else { 0 };
            let room = if m >= overhead { m - overhead } else { 0 };
            let rest = l.large_msg_size - l.bytes_transferred;
            let last = l.in_use && rest <= room;
            let p = chunk_send_outcome(ctx, data, req).2.payload();
            &&& p.len() >= 12
            &&& p[2] == (if last { 1u8 } else { 0u8 })
            &&& p[8] + p[9] * 256 + p[10] * 65536 + p[11] * 16777216 == (if last { rest } else { room })
        }),
{
    let (cs, last) = send_chunk_size(ctx);
    let cs_data = cs;
    let chunk = data.bytes.subrange(data.data, data.data + cs);
    let msg = chunk_send_message(ctx, chunk);
    let out = req.encoded(msg).pushed(msg.len() as int);
    let fixed = (if last { 1u8 } else { 0u8 }, ctx.large_resp_context@.info.handle,
        ctx.large_resp_context@.info.seq_num as u32, cs as u32);
    crate::commands::chunk::law_chunk_send_fixed_roundtrip(fixed);
    crate::codec::lemma_u32_roundtrip(cs as u32);
    assert(out.payload().subrange(0, msg.len() as int) =~= msg);
    assert(msg.subrange(2, 12) =~= chunk_send_fixed_bytes(fixed));
    assert(msg.subrange(2, 12).subrange(6, 10) =~= u32_le(cs as u32));
    let p = out.payload();
    assert(p[8] == msg[8] && p[9] == msg[9] && p[10] == msg[10] && p[11] == msg[11]);
    assert(p[2] == msg[2]);
}

} // verus!
