//! Chunked transfer of large SPDM messages: the fixed fields of `CHUNK_GET`,
//! `CHUNK_RESPONSE`, `CHUNK_SEND` and `CHUNK_SEND_ACK`, and the sizing of chunks.
use vstd::prelude::*;

use crate::codec::{
    le_to_u16, le_to_u32, le_u16, le_u32, lemma_u16_roundtrip, lemma_u32_roundtrip, u16_le,
    u16_to_le, u32_le, u32_to_le, CodecError, CodecResult, MessageBuf,
};
use crate::context::SpdmContext;
use crate::protocol::SPDM_MSG_HDR_SIZE;

pub mod request;
pub mod response;

verus! {

/// The maximum number of chunks that can be transferred for a large response,
/// set by the width of the chunk sequence number field.
pub const MAX_NUM_CHUNKS: u16 = 65535;

/// Size of the fixed fields of `CHUNK_GET`.
pub const CHUNK_GET_SIZE: usize = 4;

/// Size of the fixed fields of `CHUNK_RESPONSE`.
pub const CHUNK_RESPONSE_FIXED_SIZE: usize = 10;

/// Size of the `LargeResponseSize` field.
pub const LARGE_RESPONSE_SIZE_SIZE: usize = 4;

/// Size of the fixed fields of `CHUNK_SEND`.
pub const CHUNK_SEND_FIXED_SIZE: usize = 10;

/// Size of the `LargeMessageSize` field.
pub const LARGE_MESSAGE_SIZE_SIZE: usize = 4;

/// Size of the fixed fields of `CHUNK_SEND_ACK`.
pub const CHUNK_SEND_ACK_SIZE: usize = 6;

/// Bit 0 of a byte.
pub open spec fn low_bit(b: u8) -> u8 {
    b % 2
}

/// The byte `b` with bit 0 replaced by the lowest bit of `v`.
pub open spec fn with_low_bit(b: u8, v: u8) -> u8 {
    ((b / 2) * 2 + v % 2) as u8
}

/// Setting bit 0 to the lowest bit of `v` and reading it back gives that
/// bit, and the other bits stay as they were.
pub proof fn law_low_bit_set_get(b: u8, v: u8)
    ensures
        low_bit(with_low_bit(b, v)) == v % 2,
        with_low_bit(b, v) / 2 == b / 2,
{
}

/// The chunk sender attributes (`Param1` of `CHUNK_RESPONSE` and
/// `CHUNK_SEND`). Bit 0, if set, marks the chunk as the last one of the
/// large message; bits 7..1 are reserved.
#[derive(Debug, Clone, Copy, PartialEq, Eq, Structural)]
pub struct ChunkSenderAttr(pub u8);

impl ChunkSenderAttr {
    pub fn last_chunk(&self) -> (r: u8)
        ensures
            r == low_bit(self.0),
    {
        self.0 % 2
    }

    pub fn set_last_chunk(&mut self, value: u8)
        ensures
            final(self).0 == with_low_bit(old(self).0, value),
    {
        self.0 = (self.0 / 2) * 2 + value % 2;
    }

    pub fn reserved(&self) -> (r: u8)
        ensures
            r == self.0 / 2,
    {
        self.0 / 2
    }
}

/// The chunk receiver attributes (`Param1` of `CHUNK_SEND_ACK`). Bit 0, if
/// set, means the receiver of a large request detected an error before the
/// last chunk was received, and the sender shall stop sending chunks.
#[derive(Debug, Clone, Copy, PartialEq, Eq, Structural)]
pub struct ChunkReceiverAttr(pub u8);

impl ChunkReceiverAttr {
    pub fn early_error_detected(&self) -> (r: u8)
        ensures
            r == low_bit(self.0),
    {
        self.0 % 2
    }

    pub fn set_early_error_detected(&mut self, value: u8)
        ensures
            final(self).0 == with_low_bit(old(self).0, value),
    {
        self.0 = (self.0 / 2) * 2 + value % 2;
    }
}

/// The fixed fields of a `CHUNK_GET` request.
#[derive(Debug, Clone, Copy)]
pub struct ChunkGet {
    /// Reserved.
    param1: u8,
    /// The handle given in the `ERROR(LargeResponse)` message (`Param2`).
    handle: u8,
    /// The chunk sequence number of the large response to retrieve.
    chunk_seq_no: u16,
}

impl View for ChunkGet {
    /// (param1, handle, chunk sequence number)
    type V = (u8, u8, u16);

    closed spec fn view(&self) -> (u8, u8, u16) {
        (self.param1, self.handle, self.chunk_seq_no)
    }
}

/// The wire bytes of a `CHUNK_GET`'s fixed fields.
pub open spec fn chunk_get_bytes(c: (u8, u8, u16)) -> Seq<u8> {
    seq![c.0, c.1] + u16_le(c.2)
}

/// The fields a `CHUNK_GET`'s fixed bytes hold.
pub open spec fn chunk_get_fields(b: Seq<u8>) -> (u8, u8, u16) {
    (b[0], b[1], le_u16(b.subrange(2, 4)))
}

impl ChunkGet {
    pub fn new(param1: u8, handle: u8, chunk_seq_no: u16) -> (r: ChunkGet)
        ensures
            r@ == (param1, handle, chunk_seq_no),
    {
        ChunkGet { param1, handle, chunk_seq_no }
    }

    pub fn handle(&self) -> (r: u8)
        ensures
            r == self@.1,
    {
        self.handle
    }

    pub fn chunk_seq_no(&self) -> (r: u16)
        ensures
            r == self@.2,
    {
        self.chunk_seq_no
    }

    pub fn encode(&self, buf: &mut MessageBuf) -> (r: CodecResult<usize>)
        ensures
            old(buf)@.wf(),
            final(buf)@.wf(),
            old(buf)@.fits(4) ==> r == Ok::<usize, CodecError>(4) && final(buf)@ == old(buf)@.encoded(
                chunk_get_bytes(self@),
            ),
            !old(buf)@.fits(4) ==> r == Err::<usize, CodecError>(CodecError::BufferTooSmall)
                && final(buf)@ == old(buf)@,
    {
        let s = u16_to_le(self.chunk_seq_no);
        let bytes = [self.param1, self.handle, s[0], s[1]];
        proof { assert(bytes@ =~= chunk_get_bytes(self@)); }
        buf.encode_bytes(&bytes)
    }

    pub fn decode(buf: &mut MessageBuf) -> (r: CodecResult<ChunkGet>)
        ensures
            old(buf)@.wf(),
            final(buf)@.wf(),
            4 <= old(buf)@.data_len() ==> (r matches Ok(c) && c@ == chunk_get_fields(
                old(buf)@.bytes.subrange(old(buf)@.data, old(buf)@.data + 4),
            ) && final(buf)@ == old(buf)@.pulled(4)),
            4 > old(buf)@.data_len() ==> r == Err::<ChunkGet, CodecError>(CodecError::BufferTooSmall)
                && final(buf)@ == old(buf)@,
    {
        let v = match buf.decode_bytes(4) {
            Ok(v) => v,
            Err(e) => return Err(e),
        };
        let c = ChunkGet { param1: v[0], handle: v[1], chunk_seq_no: le_to_u16(v.as_slice(), 2) };
        Ok(c)
    }
}

/// Decoding the bytes of a `CHUNK_GET` gives back its fields.
pub proof fn law_chunk_get_roundtrip(c: (u8, u8, u16))
    ensures
        chunk_get_bytes(c).len() == CHUNK_GET_SIZE,
        chunk_get_fields(chunk_get_bytes(c)) == c,
{
    lemma_u16_roundtrip(c.2);
    assert(chunk_get_bytes(c).subrange(2, 4) =~= u16_le(c.2));
}

/// The fixed fields of a `CHUNK_RESPONSE`; the chunk follows them, preceded
/// in the first chunk (`ChunkSeqNo` 0) by the `LargeResponseSize` field.
#[derive(Debug, Clone, Copy)]
pub struct ChunkResponseFixed {
    /// `Param1`.
    chunk_sender_attr: ChunkSenderAttr,
    /// `Param2`.
    handle: u8,
    chunk_seq_no: u16,
    reserved: u16,
    chunk_size: u32,
}

impl View for ChunkResponseFixed {
    /// (sender attributes, handle, chunk sequence number, reserved, chunk size)
    type V = (u8, u8, u16, u16, u32);

    closed spec fn view(&self) -> (u8, u8, u16, u16, u32) {
        (self.chunk_sender_attr.0, self.handle, self.chunk_seq_no, self.reserved, self.chunk_size)
    }
}

/// The wire bytes of a `CHUNK_RESPONSE`'s fixed fields.
pub open spec fn chunk_response_fixed_bytes(c: (u8, u8, u16, u16, u32)) -> Seq<u8> {
    seq![c.0, c.1] + u16_le(c.2) + u16_le(c.3) + u32_le(c.4)
}

/// The fields a `CHUNK_RESPONSE`'s fixed bytes hold.
pub open spec fn chunk_response_fixed_fields(b: Seq<u8>) -> (u8, u8, u16, u16, u32) {
    (b[0], b[1], le_u16(b.subrange(2, 4)), le_u16(b.subrange(4, 6)), le_u32(b.subrange(6, 10)))
}

impl ChunkResponseFixed {
    pub fn new(
        chunk_sender_attr: ChunkSenderAttr,
        handle: u8,
        chunk_seq_no: u16,
        reserved: u16,
        chunk_size: u32,
    ) -> (r: ChunkResponseFixed)
        ensures
            r@ == (chunk_sender_attr.0, handle, chunk_seq_no, reserved, chunk_size),
    {
        ChunkResponseFixed { chunk_sender_attr, handle, chunk_seq_no, reserved, chunk_size }
    }

    pub fn chunk_sender_attr(&self) -> (r: ChunkSenderAttr)
        ensures
            r.0 == self@.0,
    {
        self.chunk_sender_attr
    }

    pub fn handle(&self) -> (r: u8)
        ensures
            r == self@.1,
    {
        self.handle
    }

    pub fn chunk_seq_no(&self) -> (r: u16)
        ensures
            r == self@.2,
    {
        self.chunk_seq_no
    }

    pub fn chunk_size(&self) -> (r: u32)
        ensures
            r == self@.4,
    {
        self.chunk_size
    }

    pub fn encode(&self, buf: &mut MessageBuf) -> (r: CodecResult<usize>)
        ensures
            old(buf)@.wf(),
            final(buf)@.wf(),
            old(buf)@.fits(10) ==> r == Ok::<usize, CodecError>(10) && final(buf)@
                == old(buf)@.encoded(chunk_response_fixed_bytes(self@)),
            !old(buf)@.fits(10) ==> r == Err::<usize, CodecError>(CodecError::BufferTooSmall)
                && final(buf)@ == old(buf)@,
    {
        let s = u16_to_le(self.chunk_seq_no);
        let rs = u16_to_le(self.reserved);
        let z = u32_to_le(self.chunk_size);
        let bytes = [
            self.chunk_sender_attr.0,
            self.handle,
            s[0],
            s[1],
            rs[0],
            rs[1],
            z[0],
            z[1],
            z[2],
            z[3],
        ];
        proof { assert(bytes@ =~= chunk_response_fixed_bytes(self@)); }
        buf.encode_bytes(&bytes)
    }

    pub fn decode(buf: &mut MessageBuf) -> (r: CodecResult<ChunkResponseFixed>)
        ensures
            old(buf)@.wf(),
            final(buf)@.wf(),
            10 <= old(buf)@.data_len() ==> (r matches Ok(c) && c@ == chunk_response_fixed_fields(
                old(buf)@.bytes.subrange(old(buf)@.data, old(buf)@.data + 10),
            ) && final(buf)@ == old(buf)@.pulled(10)),
            10 > old(buf)@.data_len() ==> r == Err::<ChunkResponseFixed, CodecError>(
                CodecError::BufferTooSmall,
            ) && final(buf)@ == old(buf)@,
    {
        let v = match buf.decode_bytes(10) {
            Ok(v) => v,
            Err(e) => return Err(e),
        };
        let c = ChunkResponseFixed {
            chunk_sender_attr: ChunkSenderAttr(v[0]),
            handle: v[1],
            chunk_seq_no: le_to_u16(v.as_slice(), 2),
            reserved: le_to_u16(v.as_slice(), 4),
            chunk_size: le_to_u32(v.as_slice(), 6),
        };
        Ok(c)
    }

    /// The size of the next `CHUNK_RESPONSE` chunk and whether it is the last
    /// one, for chunk `chunk_seq_num` of the large response in `ctx`.
    pub fn compute_chunk_size(ctx: &SpdmContext, chunk_seq_num: u16) -> (r: (usize, bool))
        ensures
            r == chunk_size_for(
                ctx,
                CHUNK_RESPONSE_FIXED_SIZE + if chunk_seq_num == 0 {
                    LARGE_RESPONSE_SIZE_SIZE
                } else {
                    0
                },
            ),
    {
        let extra_field_size = if chunk_seq_num == 0 {
            LARGE_RESPONSE_SIZE_SIZE
        } else {
            0
        };
        let chunk_size = ctx.min_data_transfer_size().saturating_sub(
            SPDM_MSG_HDR_SIZE + CHUNK_RESPONSE_FIXED_SIZE + extra_field_size,
        );
        let (is_last_chunk, remaining_len) = ctx.large_resp_context.last_chunk(chunk_size);
        if is_last_chunk {
            (remaining_len, true)
        } else {
            (chunk_size, false)
        }
    }
}

/// Decoding the bytes of a `CHUNK_RESPONSE`'s fixed fields gives back the fields.
pub proof fn law_chunk_response_fixed_roundtrip(c: (u8, u8, u16, u16, u32))
    ensures
        chunk_response_fixed_bytes(c).len() == CHUNK_RESPONSE_FIXED_SIZE,
        chunk_response_fixed_fields(chunk_response_fixed_bytes(c)) == c,
{
    lemma_u16_roundtrip(c.2);
    lemma_u16_roundtrip(c.3);
    lemma_u32_roundtrip(c.4);
    let b = chunk_response_fixed_bytes(c);
    assert(b.subrange(2, 4) =~= u16_le(c.2));
    assert(b.subrange(4, 6) =~= u16_le(c.3));
    assert(b.subrange(6, 10) =~= u32_le(c.4));
}

/// The room for chunk data in a message of `ctx`'s minimal data transfer
/// size after the header and `fixed` bytes of fixed fields (none if they do
/// not fit).
pub open spec fn chunk_room(ctx: &SpdmContext, fixed: int) -> usize {
    let m = ctx.spec_min_data_transfer_size() as int;
    if m >= SPDM_MSG_HDR_SIZE + fixed {
        (m - SPDM_MSG_HDR_SIZE - fixed) as usize
    } else {
        0
    }
}

/// The size of the next chunk of the large message in `ctx`, and whether it
/// is the last one: the remaining bytes when they fit into the room, the room
/// otherwise.
pub open spec fn chunk_size_for(ctx: &SpdmContext, fixed: int) -> (usize, bool) {
    let room = chunk_room(ctx, fixed);
    let l = ctx.large_resp_context@;
    if l.info.in_use && l.remaining() <= room {
        (l.remaining() as usize, true)
    } else {
        (room, false)
    }
}

/// The `LargeResponseSize` field of the first `CHUNK_RESPONSE`.
#[derive(Debug, Clone, Copy)]
pub struct LargeResponseSize(pub u32);

impl LargeResponseSize {
    pub fn encode(&self, buf: &mut MessageBuf) -> (r: CodecResult<usize>)
        ensures
            old(buf)@.wf(),
            final(buf)@.wf(),
            old(buf)@.fits(4) ==> r == Ok::<usize, CodecError>(4) && final(buf)@ == old(buf)@.encoded(
                u32_le(self.0),
            ),
            !old(buf)@.fits(4) ==> r == Err::<usize, CodecError>(CodecError::BufferTooSmall)
                && final(buf)@ == old(buf)@,
    {
        let bytes = u32_to_le(self.0);
        buf.encode_bytes(&bytes)
    }

    pub fn decode(buf: &mut MessageBuf) -> (r: CodecResult<LargeResponseSize>)
        ensures
            old(buf)@.wf(),
            final(buf)@.wf(),
            4 <= old(buf)@.data_len() ==> (r matches Ok(s) && s.0 == le_u32(
                old(buf)@.bytes.subrange(old(buf)@.data, old(buf)@.data + 4),
            ) && final(buf)@ == old(buf)@.pulled(4)),
            4 > old(buf)@.data_len() ==> r == Err::<LargeResponseSize, CodecError>(
                CodecError::BufferTooSmall,
            ) && final(buf)@ == old(buf)@,
    {
        let v = match buf.decode_bytes(4) {
            Ok(v) => v,
            Err(e) => return Err(e),
        };
        proof { assert(v@.subrange(0, 4) =~= v@); }
        Ok(LargeResponseSize(le_to_u32(v.as_slice(), 0)))
    }
}

/// The fixed fields of a `CHUNK_SEND` request; in the first chunk
/// (`ChunkSeqNo` 0) the `LargeMessageSize` field follows them.
#[derive(Debug, Clone, Copy)]
pub struct ChunkSendFixed {
    param1: ChunkSenderAttr,
    /// `Param2`.
    handle: u8,
    /// The chunk sequence number of the chunk carried.
    chunk_seq_no: u32,
    chunk_size: u32,
}

impl View for ChunkSendFixed {
    /// (sender attributes, handle, chunk sequence number, chunk size)
    type V = (u8, u8, u32, u32);

    closed spec fn view(&self) -> (u8, u8, u32, u32) {
        (self.param1.0, self.handle, self.chunk_seq_no, self.chunk_size)
    }
}

/// The wire bytes of a `CHUNK_SEND`'s fixed fields.
pub open spec fn chunk_send_fixed_bytes(c: (u8, u8, u32, u32)) -> Seq<u8> {
    seq![c.0, c.1] + u32_le(c.2) + u32_le(c.3)
}

/// The fields a `CHUNK_SEND`'s fixed bytes hold.
pub open spec fn chunk_send_fixed_fields(b: Seq<u8>) -> (u8, u8, u32, u32) {
    (b[0], b[1], le_u32(b.subrange(2, 6)), le_u32(b.subrange(6, 10)))
}

impl ChunkSendFixed {
    pub fn new(handle: u8, chunk_seq_no: u32, chunk_size: u32, last_chunk: bool) -> (r: ChunkSendFixed)
        ensures
            r@ == (if last_chunk { 1u8 } else { 0u8 }, handle, chunk_seq_no, chunk_size),
    {
        let mut sender_attr = ChunkSenderAttr(0);
        sender_attr.set_last_chunk(last_chunk as u8);
        ChunkSendFixed { param1: sender_attr, handle, chunk_seq_no, chunk_size }
    }

    pub fn encode(&self, buf: &mut MessageBuf) -> (r: CodecResult<usize>)
        ensures
            old(buf)@.wf(),
            final(buf)@.wf(),
            old(buf)@.fits(10) ==> r == Ok::<usize, CodecError>(10) && final(buf)@
                == old(buf)@.encoded(chunk_send_fixed_bytes(self@)),
            !old(buf)@.fits(10) ==> r == Err::<usize, CodecError>(CodecError::BufferTooSmall)
                && final(buf)@ == old(buf)@,
    {
        let s = u32_to_le(self.chunk_seq_no);
        let z = u32_to_le(self.chunk_size);
        let bytes = [self.param1.0, self.handle, s[0], s[1], s[2], s[3], z[0], z[1], z[2], z[3]];
        proof { assert(bytes@ =~= chunk_send_fixed_bytes(self@)); }
        buf.encode_bytes(&bytes)
    }

    pub fn decode(buf: &mut MessageBuf) -> (r: CodecResult<ChunkSendFixed>)
        ensures
            old(buf)@.wf(),
            final(buf)@.wf(),
            10 <= old(buf)@.data_len() ==> (r matches Ok(c) && c@ == chunk_send_fixed_fields(
                old(buf)@.bytes.subrange(old(buf)@.data, old(buf)@.data + 10),
            ) && final(buf)@ == old(buf)@.pulled(10)),
            10 > old(buf)@.data_len() ==> r == Err::<ChunkSendFixed, CodecError>(
                CodecError::BufferTooSmall,
            ) && final(buf)@ == old(buf)@,
    {
        let v = match buf.decode_bytes(10) {
            Ok(v) => v,
            Err(e) => return Err(e),
        };
        Ok(ChunkSendFixed {
            param1: ChunkSenderAttr(v[0]),
            handle: v[1],
            chunk_seq_no: le_to_u32(v.as_slice(), 2),
            chunk_size: le_to_u32(v.as_slice(), 6),
        })
    }

    /// The size of the next `CHUNK_SEND` chunk and whether it is the last one,
    /// for chunk `chunk_seq_num` of the large message in `ctx`.
    pub fn compute_chunk_size(ctx: &SpdmContext, chunk_seq_num: u16) -> (r: (usize, bool))
        ensures
            r == chunk_size_for(
                ctx,
                CHUNK_SEND_FIXED_SIZE + if chunk_seq_num == 0 {
                    LARGE_MESSAGE_SIZE_SIZE
                } else {
                    0
                },
            ),
    {
        let extra_field_size = if chunk_seq_num == 0 {
            LARGE_MESSAGE_SIZE_SIZE
        } else {
            0
        };
        let chunk_size = ctx.min_data_transfer_size().saturating_sub(
            SPDM_MSG_HDR_SIZE + CHUNK_SEND_FIXED_SIZE + extra_field_size,
        );
        let (is_last_chunk, remaining_len) = ctx.large_resp_context.last_chunk(chunk_size);
        if is_last_chunk {
            (remaining_len, true)
        } else {
            (chunk_size, false)
        }
    }
}

/// Decoding the bytes of a `CHUNK_SEND`'s fixed fields gives back the fields.
pub proof fn law_chunk_send_fixed_roundtrip(c: (u8, u8, u32, u32))
    ensures
        chunk_send_fixed_bytes(c).len() == CHUNK_SEND_FIXED_SIZE,
        chunk_send_fixed_fields(chunk_send_fixed_bytes(c)) == c,
{
    lemma_u32_roundtrip(c.2);
    lemma_u32_roundtrip(c.3);
    let b = chunk_send_fixed_bytes(c);
    assert(b.subrange(2, 6) =~= u32_le(c.2));
    assert(b.subrange(6, 10) =~= u32_le(c.3));
}

/// The size of a chunk is never more than the room for data in a message of
/// the minimal data transfer size, and the chunk is the last one exactly
/// when the rest of the large message fits into that room, in which case the
/// chunk is the rest.
pub proof fn law_chunk_size_bounded(ctx: &SpdmContext, fixed: int)
    requires
        ctx.large_resp_context@.wf(),
    ensures
        chunk_size_for(ctx, fixed).0 <= chunk_room(ctx, fixed),
        chunk_size_for(ctx, fixed).1 <==> (ctx.large_resp_context@.info.in_use
            && ctx.large_resp_context@.remaining() <= chunk_room(ctx, fixed)),
        chunk_size_for(ctx, fixed).1 ==> chunk_size_for(ctx, fixed).0
            == ctx.large_resp_context@.remaining(),
{
}

/// The `LargeMessageSize` field of the first `CHUNK_SEND`: the size of the
/// large message being transferred.
#[derive(Debug, Clone, Copy)]
pub struct LargeMessageSize(pub u32);

impl LargeMessageSize {
    pub fn encode(&self, buf: &mut MessageBuf) -> (r: CodecResult<usize>)
        ensures
            old(buf)@.wf(),
            final(buf)@.wf(),
            old(buf)@.fits(4) ==> r == Ok::<usize, CodecError>(4) && final(buf)@ == old(buf)@.encoded(
                u32_le(self.0),
            ),
            !old(buf)@.fits(4) ==> r == Err::<usize, CodecError>(CodecError::BufferTooSmall)
                && final(buf)@ == old(buf)@,
    {
        let bytes = u32_to_le(self.0);
        buf.encode_bytes(&bytes)
    }
}

/// The fixed fields of a `CHUNK_SEND_ACK`. It may be followed by
/// `ResponseToLargeRequest`, present on the last chunk or when
/// `EarlyErrorDetected` is set.
#[derive(Debug, Clone, Copy)]
pub struct ChunkSendAck {
    param1: ChunkReceiverAttr,
    /// `Param2`.
    handle: u8,
    chunk_seq_no: u32,
}

impl View for ChunkSendAck {
    /// (receiver attributes, handle, chunk sequence number)
    type V = (u8, u8, u32);

    closed spec fn view(&self) -> (u8, u8, u32) {
        (self.param1.0, self.handle, self.chunk_seq_no)
    }
}

/// The fields a `CHUNK_SEND_ACK`'s fixed bytes hold.
pub open spec fn chunk_send_ack_fields(b: Seq<u8>) -> (u8, u8, u32) {
    (b[0], b[1], le_u32(b.subrange(2, 6)))
}

impl ChunkSendAck {
    pub fn decode(buf: &mut MessageBuf) -> (r: CodecResult<ChunkSendAck>)
        ensures
            old(buf)@.wf(),
            final(buf)@.wf(),
            6 <= old(buf)@.data_len() ==> (r matches Ok(c) && c@ == chunk_send_ack_fields(
                old(buf)@.bytes.subrange(old(buf)@.data, old(buf)@.data + 6),
            ) && final(buf)@ == old(buf)@.pulled(6)),
            6 > old(buf)@.data_len() ==> r == Err::<ChunkSendAck, CodecError>(
                CodecError::BufferTooSmall,
            ) && final(buf)@ == old(buf)@,
    {
        let v = match buf.decode_bytes(6) {
            Ok(v) => v,
            Err(e) => return Err(e),
        };
        Ok(ChunkSendAck {
            param1: ChunkReceiverAttr(v[0]),
            handle: v[1],
            chunk_seq_no: le_to_u32(v.as_slice(), 2),
        })
    }
}

/// The largest large response that can be transferred in chunks: the room
/// for data in a `CHUNK_RESPONSE` of the minimal data transfer size, times the
/// number of chunks, less the `LargeResponseSize` field.
pub open spec fn spec_max_chunked_resp_size(ctx: &SpdmContext) -> int {
    (ctx.spec_min_data_transfer_size() - (SPDM_MSG_HDR_SIZE + CHUNK_RESPONSE_FIXED_SIZE))
        * MAX_NUM_CHUNKS - 4
}

/// Whether [max_chunked_resp_size] can be computed for `ctx` without
/// overflow: the minimal data transfer size leaves room for chunk data, and
/// the product fits in a `usize`.
pub open spec fn max_chunked_resp_size_defined(ctx: &SpdmContext) -> bool {
    &&& ctx.spec_min_data_transfer_size() > SPDM_MSG_HDR_SIZE + CHUNK_RESPONSE_FIXED_SIZE
    &&& (ctx.spec_min_data_transfer_size() - (SPDM_MSG_HDR_SIZE + CHUNK_RESPONSE_FIXED_SIZE))
        * MAX_NUM_CHUNKS <= usize::MAX
}

/// Maximal size of the large response that can be transferred in chunks. A
/// larger response cannot be transferred in chunks.
pub fn max_chunked_resp_size(ctx: &SpdmContext) -> (r: usize)
    requires
        max_chunked_resp_size_defined(ctx),
    ensures
        r == spec_max_chunked_resp_size(ctx),
{
    let min_data_transfer_size = ctx.min_data_transfer_size();
    let fixed_chunk_resp_size = SPDM_MSG_HDR_SIZE + CHUNK_RESPONSE_FIXED_SIZE;
    let room = min_data_transfer_size.saturating_sub(fixed_chunk_resp_size);
    proof {
        assert(room * 65535 >= 65535) by (nonlinear_arith)
            requires room >= 1;
    }
    room * (MAX_NUM_CHUNKS as usize) - LARGE_RESPONSE_SIZE_SIZE
}

} // verus!
