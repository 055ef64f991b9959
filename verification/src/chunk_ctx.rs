//! State of large messages that are transferred in chunks.
use vstd::prelude::*;

verus! {

#[derive(Debug, Clone, Copy, PartialEq, Eq, Structural)]
pub enum ChunkError {
    /// Signals to the client application that the chunking process has started
    /// and that it now has to retrieve the chunked data.
    Started,
    LargeResponseInitError,
    NoLargeResponseInProgress,
    InvalidChunkHandle,
    InvalidChunkSeqNum,
    InvalidMessageOffset,
}

pub type ChunkResult<T> = Result<T, ChunkError>;

/// Stores state and metadata for managing ongoing large message requests and responses.
pub struct ChunkInfo {
    chunk_in_use: bool,
    chunk_handle: u8,
    chunk_seq_num: u16,
    bytes_transferred: usize,
    large_msg_size: usize,
}

/// The abstract state of a [ChunkInfo].
pub struct ChunkInfoView {
    pub in_use: bool,
    pub handle: u8,
    pub seq_num: u16,
    pub bytes_transferred: usize,
    pub large_msg_size: usize,
}

impl View for ChunkInfo {
    type V = ChunkInfoView;

    closed spec fn view(&self) -> ChunkInfoView {
        ChunkInfoView {
            in_use: self.chunk_in_use,
            handle: self.chunk_handle,
            seq_num: self.chunk_seq_num,
            bytes_transferred: self.bytes_transferred,
            large_msg_size: self.large_msg_size,
        }
    }
}

/// The handle that follows `h`, wrapping from 255 to 0.
pub open spec fn next_handle(h: u8) -> u8 {
    ((h + 1) % 256) as u8
}

/// The sequence number that follows `s`, wrapping from 65535 to 0.
pub open spec fn next_seq_num(s: u16) -> u16 {
    ((s + 1) % 65536) as u16
}

/// The state of a fresh [ChunkInfo].
pub open spec fn initial_chunk_info() -> ChunkInfoView {
    ChunkInfoView { in_use: false, handle: 0, seq_num: 0, bytes_transferred: 0, large_msg_size: 0 }
}

/// The state after [ChunkInfo::reset].
pub open spec fn chunk_info_after_reset(c: ChunkInfoView, reset_handle: bool) -> ChunkInfoView {
    ChunkInfoView {
        in_use: false,
        handle: if reset_handle { 0 } else { next_handle(c.handle) },
        seq_num: 0,
        bytes_transferred: 0,
        large_msg_size: c.large_msg_size,
    }
}

/// The state after [ChunkInfo::init].
pub open spec fn chunk_info_after_init(
    c: ChunkInfoView,
    large_msg_size: usize,
    handle: Option<u8>,
) -> ChunkInfoView {
    ChunkInfoView {
        in_use: true,
        handle: match handle {
            Some(h) => h,
            None => c.handle,
        },
        seq_num: 0,
        bytes_transferred: 0,
        large_msg_size,
    }
}

impl Default for ChunkInfo {
    fn default() -> (r: ChunkInfo)
        ensures
            r@ == initial_chunk_info(),
    {
        ChunkInfo {
            chunk_in_use: false,
            chunk_handle: 0,
            chunk_seq_num: 0,
            bytes_transferred: 0,
            large_msg_size: 0,
        }
    }
}

impl ChunkInfo {
    /// Reset the chunk info. If `reset_handle` is set, the handle is set to `0`;
    /// if not, it is incremented to be ready for the next chunk operation.
    pub fn reset(&mut self, reset_handle: bool)
        ensures
            final(self)@ == chunk_info_after_reset(old(self)@, reset_handle),
    {
        self.chunk_in_use = false;
        if reset_handle {
            self.chunk_handle = 0;
        } else {
            self.chunk_handle = self.chunk_handle.wrapping_add(1);
        }
        self.chunk_seq_num = 0;
        self.bytes_transferred = 0;
    }

    /// Starts a transfer of a message of `large_msg_size` bytes, under `handle`
    /// if one is given and under the current handle otherwise; returns the handle.
    pub fn init(&mut self, large_msg_size: usize, handle: Option<u8>) -> (r: u8)
        ensures
            final(self)@ == chunk_info_after_init(old(self)@, large_msg_size, handle),
            r == final(self)@.handle,
    {
        self.chunk_in_use = true;
        self.chunk_seq_num = 0;
        self.bytes_transferred = 0;
        self.large_msg_size = large_msg_size;
        if let Some(h) = handle {
            self.chunk_handle = h;
        }
        self.chunk_handle
    }
}

/// A large message response that can be split into chunks, held as its
/// encoded bytes.
#[derive(Debug, PartialEq, Eq)]
pub enum LargeResponse {
    Measurements(Vec<u8>),
}

/// The encoded bytes of a large response.
pub open spec fn large_response_bytes(r: LargeResponse) -> Seq<u8> {
    match r {
        LargeResponse::Measurements(v) => v@,
    }
}

impl LargeResponse {
    /// The `len` bytes of the response that start at `offset`.
    pub fn get_chunk(&self, offset: usize, len: usize) -> (r: Result<Vec<u8>, ChunkError>)
        ensures
            offset + len <= large_response_bytes(*self).len() ==> (r matches Ok(v) && v@
                == large_response_bytes(*self).subrange(offset as int, offset + len)),
            offset + len > large_response_bytes(*self).len() ==> r == Err::<Vec<u8>, ChunkError>(
                ChunkError::InvalidMessageOffset,
            ),
    {
        match self {
            LargeResponse::Measurements(bytes) => {
                if offset > bytes.len() || len > bytes.len() - offset {
                    return Err(ChunkError::InvalidMessageOffset);
                }
                let mut out: Vec<u8> = Vec::new();
                let mut i: usize = 0;
                while i < len
                    invariant
                        i <= len,
                        offset + len <= bytes@.len(),
                        offset + len <= usize::MAX,
                        out@ == bytes@.subrange(offset as int, offset + i),
                    decreases len - i,
                {
                    out.push(bytes[offset + i]);
                    i = i + 1;
                }
                Ok(out)
            },
        }
    }
}

/// Manages the context for ongoing large message responses. It is re-used
/// for both requester and responder: the requester tracks `CHUNK_SEND`
/// commands with it, the responder `CHUNK_RESPONSE` commands.
pub struct LargeResponseCtx {
    chunk_info: ChunkInfo,
    response: Option<LargeResponse>,
}

/// The abstract state of a [LargeResponseCtx].
pub struct LargeResponseCtxView {
    pub info: ChunkInfoView,
    pub response: Option<LargeResponse>,
}

impl View for LargeResponseCtx {
    type V = LargeResponseCtxView;

    closed spec fn view(&self) -> LargeResponseCtxView {
        LargeResponseCtxView { info: self.chunk_info@, response: self.response }
    }
}

impl LargeResponseCtxView {
    /// No more bytes have been transferred than the message holds.
    pub open spec fn wf(self) -> bool {
        self.info.bytes_transferred <= self.info.large_msg_size
    }

    /// Whether a request for chunk `chunk_seq_num` of transfer `handle` fits
    /// the transfer in progress.
    pub open spec fn accepts(self, handle: u8, chunk_seq_num: u16) -> bool {
        self.info.in_use && self.info.handle == handle && self.info.seq_num == chunk_seq_num
    }

    /// The bytes of the message that remain to be transferred.
    pub open spec fn remaining(self) -> int {
        self.info.large_msg_size - self.info.bytes_transferred
    }
}

/// A large response that was just initialised accepts a request for its
/// first chunk under the handle `init` returned, and no request for another
/// chunk or handle.
pub proof fn law_init_accepts_first_chunk(
    c: LargeResponseCtxView,
    rsp: LargeResponse,
    size: usize,
    handle: u8,
    seq: u16,
)
    ensures
        ({
            let after = LargeResponseCtxView {
                info: chunk_info_after_init(c.info, size, None),
                response: Some(rsp),
            };
            after.accepts(handle, seq) <==> handle == c.info.handle && seq == 0
        }),
{
}

/// A reset large response accepts no request, and the next transfer gets the
/// next handle (wrapping from 255 to 0).
pub proof fn law_reset_refuses_and_advances_handle(c: LargeResponseCtxView, handle: u8, seq: u16)
    ensures
        ({
            let after = LargeResponseCtxView {
                info: chunk_info_after_reset(c.info, false),
                response: None,
            };
            &&& !after.accepts(handle, seq)
            &&& after.info.handle == (if c.info.handle == 255 { 0 } else { c.info.handle + 1 })
        }),
{
}

/// A call that changes whether a large response is in progress: `init` with
/// the size of the response, or `reset`.
pub enum ResponseCtxCall {
    Init(usize),
    Reset,
}

/// The chunk state after the calls `calls`, made in order from `c`.
pub open spec fn info_after_calls(c: ChunkInfoView, calls: Seq<ResponseCtxCall>) -> ChunkInfoView
    decreases calls.len(),
{
    if calls.len() == 0 {
        c
    } else {
        let c1 = match calls[0] {
            ResponseCtxCall::Init(n) => chunk_info_after_init(c, n, None),
            ResponseCtxCall::Reset => chunk_info_after_reset(c, false),
        };
        info_after_calls(c1, calls.drop_first())
    }
}

/// After any sequence of `init` and `reset` calls, a large response is in
/// progress exactly when the last call was `init`; with no call, it is as
/// before (for a fresh context: not in progress).
pub proof fn law_in_progress_after_calls(c: ChunkInfoView, calls: Seq<ResponseCtxCall>)
    ensures
        info_after_calls(c, calls).in_use == if calls.len() == 0 {
            c.in_use
        } else {
            calls.last() is Init
        },
    decreases calls.len(),
{
    if calls.len() > 0 {
        let c1 = match calls[0] {
            ResponseCtxCall::Init(n) => chunk_info_after_init(c, n, None),
            ResponseCtxCall::Reset => chunk_info_after_reset(c, false),
        };
        law_in_progress_after_calls(c1, calls.drop_first());
        if calls.len() > 1 {
            assert(calls.drop_first().last() == calls.last());
        }
    }
}

impl Default for LargeResponseCtx {
    fn default() -> (r: LargeResponseCtx)
        ensures
            r@.info == initial_chunk_info(),
            r@.response is None,
    {
        LargeResponseCtx { chunk_info: ChunkInfo::default(), response: None }
    }
}

impl LargeResponseCtx {
    #[verifier::type_invariant]
    spec fn inv(self) -> bool {
        self.chunk_info.bytes_transferred <= self.chunk_info.large_msg_size
    }

    /// Reset the context to its initial state; this increments the chunk handle.
    pub fn reset(&mut self)
        ensures
            final(self)@.info == chunk_info_after_reset(old(self)@.info, false),
            final(self)@.response is None,
            old(self)@.wf(),
            final(self)@.wf(),
    {
        proof { use_type_invariant(&*self); }
        let mut info = ChunkInfo::default();
        std::mem::swap(&mut info, &mut self.chunk_info);
        info.reset(false);
        self.chunk_info = info;
        self.response = None;
    }

    /// Initialize the context for a large response `large_rsp` of
    /// `large_rsp_size` bytes; returns the chunk handle.
    pub fn init(&mut self, large_rsp: LargeResponse, large_rsp_size: usize) -> (r: u8)
        ensures
            final(self)@.info == chunk_info_after_init(old(self)@.info, large_rsp_size, None),
            final(self)@.response == Some(large_rsp),
            r == old(self)@.info.handle,
            old(self)@.wf(),
            final(self)@.wf(),
    {
        proof { use_type_invariant(&*self); }
        self.response = Some(large_rsp);
        let mut info = ChunkInfo::default();
        std::mem::swap(&mut info, &mut self.chunk_info);
        let handle = info.init(large_rsp_size, None);
        self.chunk_info = info;
        handle
    }

    /// Whether a large response is currently in progress.
    pub fn in_progress(&self) -> (r: bool)
        ensures
            r == self@.info.in_use,
            self@.wf(),
    {
        proof { use_type_invariant(self); }
        self.chunk_info.chunk_in_use
    }

    pub fn valid(&self, handle: u8, chunk_seq_num: u16) -> (r: bool)
        ensures
            r == self@.accepts(handle, chunk_seq_num),
            self@.wf(),
    {
        proof { use_type_invariant(self); }
        self.chunk_info.chunk_in_use && self.chunk_info.chunk_handle == handle
            && self.chunk_info.chunk_seq_num == chunk_seq_num
    }

    pub fn large_response_size(&self) -> (r: usize)
        ensures
            r == self@.info.large_msg_size,
            self@.wf(),
    {
        proof { use_type_invariant(self); }
        self.chunk_info.large_msg_size
    }

    /// Whether the remaining bytes fit into a chunk of `chunk_size` bytes,
    /// and how many remain; `(false, 0)` when no transfer is in progress.
    pub fn last_chunk(&self, chunk_size: usize) -> (r: (bool, usize))
        ensures
            !self@.info.in_use ==> r == (false, 0usize),
            self@.info.in_use ==> r == (self@.remaining() <= chunk_size, self@.remaining() as usize),
            self@.wf(),
    {
        proof { use_type_invariant(self); }
        if !self.chunk_info.chunk_in_use {
            return (false, 0);
        }
        let rem_len = self.chunk_info.large_msg_size - self.chunk_info.bytes_transferred;
        (rem_len <= chunk_size, rem_len)
    }

    pub fn response(&self) -> (r: Option<&LargeResponse>)
        ensures
            r == (match self@.response {
                Some(x) => Some(&x),
                None => None::<&LargeResponse>,
            }),
            self@.wf(),
    {
        proof { use_type_invariant(self); }
        match &self.response {
            Some(x) => Some(x),
            None => None,
        }
    }

    pub fn bytes_transferred(&self) -> (r: usize)
        ensures
            r == self@.info.bytes_transferred,
            self@.wf(),
    {
        proof { use_type_invariant(self); }
        self.chunk_info.bytes_transferred
    }

    pub fn seq_no(&self) -> (r: u16)
        ensures
            r == self@.info.seq_num,
            self@.wf(),
    {
        proof { use_type_invariant(self); }
        self.chunk_info.chunk_seq_num
    }

    pub fn handle(&self) -> (r: u8)
        ensures
            r == self@.info.handle,
            self@.wf(),
    {
        proof { use_type_invariant(self); }
        self.chunk_info.chunk_handle
    }
}

/// Manages the context for ongoing large message retrievals on the requester
/// side. Initialized when the requester receives `ERROR(LargeResponse)`, it
/// tracks progress across successive `CHUNK_GET` / `CHUNK_RESPONSE` exchanges
/// until the last chunk has been received.
pub struct LargeRequestCtx {
    chunk_info: ChunkInfo,
}

impl View for LargeRequestCtx {
    type V = ChunkInfoView;

    closed spec fn view(&self) -> ChunkInfoView {
        self.chunk_info@
    }
}

impl Default for LargeRequestCtx {
    fn default() -> (r: LargeRequestCtx)
        ensures
            r@ == initial_chunk_info(),
    {
        LargeRequestCtx { chunk_info: ChunkInfo::default() }
    }
}

impl LargeRequestCtx {
    /// Initialize the context for a new large response retrieval under
    /// `handle` (the handle in `Param2` of the `ERROR` message); the total size
    /// is unknown until the first `CHUNK_RESPONSE` arrives.
    pub fn init(&mut self, handle: u8)
        ensures
            final(self)@ == chunk_info_after_init(old(self)@, 0, Some(handle)),
    {
        self.chunk_info.init(0, Some(handle));
    }

    /// Discard any in-progress retrieval and reset to the initial state.
    pub fn reset(&mut self)
        ensures
            final(self)@ == chunk_info_after_reset(old(self)@, true),
    {
        self.chunk_info.reset(true);
    }

    /// Whether a large response retrieval is currently in progress.
    pub fn in_progress(&self) -> (r: bool)
        ensures
            r == self@.in_use,
    {
        self.chunk_info.chunk_in_use
    }

    /// The handle identifying the current large response transfer.
    pub fn handle(&self) -> (r: u8)
        ensures
            r == self@.handle,
    {
        self.chunk_info.chunk_handle
    }

    /// The `ChunkSeqNo` that shall appear in the next `CHUNK_GET`.
    pub fn current_seq_num(&self) -> (r: u16)
        ensures
            r == self@.seq_num,
    {
        self.chunk_info.chunk_seq_num
    }

    /// The number of bytes successfully received so far.
    pub fn bytes_received(&self) -> (r: usize)
        ensures
            r == self@.bytes_transferred,
    {
        self.chunk_info.bytes_transferred
    }

    /// The total size of the large response, once the first `CHUNK_RESPONSE`
    /// has recorded it.
    pub fn total_size(&self) -> (r: usize)
        ensures
            r == self@.large_msg_size,
    {
        self.chunk_info.large_msg_size
    }

    /// Record the total response size decoded from the first `CHUNK_RESPONSE`.
    pub fn set_total_size(&mut self, size: usize)
        ensures
            final(self)@ == (ChunkInfoView { large_msg_size: size, ..old(self)@ }),
    {
        self.chunk_info.large_msg_size = size;
    }

    /// Advance after a chunk of `chunk_size` bytes was received: the byte
    /// count grows by it and the sequence number moves to the next chunk.
    pub fn advance(&mut self, chunk_size: usize)
        requires
            old(self)@.bytes_transferred + chunk_size <= usize::MAX,
        ensures
            final(self)@ == (ChunkInfoView {
                bytes_transferred: (old(self)@.bytes_transferred + chunk_size) as usize,
                seq_num: next_seq_num(old(self)@.seq_num),
                ..old(self)@
            }),
    {
        self.chunk_info.bytes_transferred += chunk_size;
        self.chunk_info.chunk_seq_num = self.chunk_info.chunk_seq_num.wrapping_add(1);
    }
}

} // verus!
