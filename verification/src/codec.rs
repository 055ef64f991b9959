//! A message buffer with a data window `[data, tail)` inside a fixed-size byte
//! buffer, and the little-endian byte layout of integers.
use vstd::prelude::*;

verus! {

/// Errors of buffer operations.
#[derive(Debug, Clone, Copy, PartialEq, Eq, Structural)]
pub enum CodecError {
    BufferTooSmall,
    BufferOverflow,
    BufferUnderflow,
}

pub type CodecResult<T> = Result<T, CodecError>;

/// Little-endian bytes of a 16-bit value.
pub open spec fn u16_le(x: u16) -> Seq<u8> {
    seq![(x % 256) as u8, (x / 256) as u8]
}

/// Little-endian bytes of a 32-bit value.
pub open spec fn u32_le(x: u32) -> Seq<u8> {
    seq![(x % 256) as u8, ((x / 256) % 256) as u8, ((x / 65536) % 256) as u8, (x / 16777216) as u8]
}

/// The 16-bit value whose little-endian bytes are `b[0], b[1]`.
pub open spec fn le_u16(b: Seq<u8>) -> u16 {
    (b[0] + b[1] * 256) as u16
}

/// The 32-bit value whose little-endian bytes are `b[0..4]`.
pub open spec fn le_u32(b: Seq<u8>) -> u32 {
    (b[0] + b[1] * 256 + b[2] * 65536 + b[3] * 16777216) as u32
}

pub proof fn lemma_u16_roundtrip(x: u16)
    ensures
        u16_le(x).len() == 2,
        le_u16(u16_le(x)) == x,
{
}

pub proof fn lemma_u32_roundtrip(x: u32)
    ensures
        u32_le(x).len() == 4,
        le_u32(u32_le(x)) == x,
{
    let b0 = x % 256;
    let b1 = (x / 256) % 256;
    let b2 = (x / 65536) % 256;
    let b3 = x / 16777216;
    assert(x / 256 == b1 + (x / 65536) * 256);
    assert(x / 65536 == b2 + b3 * 256);
    assert(x == b0 + (x / 256) * 256);
}

/// Writes the little-endian bytes of `x`.
pub fn u16_to_le(x: u16) -> (r: [u8; 2])
    ensures
        r@ == u16_le(x),
{
    [(x % 256) as u8, (x / 256) as u8]
}

/// Writes the little-endian bytes of `x`.
pub fn u32_to_le(x: u32) -> (r: [u8; 4])
    ensures
        r@ == u32_le(x),
{
    [(x % 256) as u8, ((x / 256) % 256) as u8, ((x / 65536) % 256) as u8, (x / 16777216) as u8]
}

/// Reads a 16-bit value from its little-endian bytes `b[at..at + 2]`.
pub fn le_to_u16(b: &[u8], at: usize) -> (r: u16)
    requires
        at + 2 <= b@.len(),
    ensures
        r == le_u16(b@.subrange(at as int, at + 2)),
{
    b[at] as u16 + (b[at + 1] as u16) * 256
}

/// Reads a 32-bit value from its little-endian bytes `b[at..at + 4]`.
pub fn le_to_u32(b: &[u8], at: usize) -> (r: u32)
    requires
        at + 4 <= b@.len(),
    ensures
        r == le_u32(b@.subrange(at as int, at + 4)),
{
    b[at] as u32 + (b[at + 1] as u32) * 256 + (b[at + 2] as u32) * 65536 + (b[at + 3] as u32)
        * 16777216
}

/// The abstract state of a [MessageBuf]: its bytes, and the data window
/// `[data, tail)`.
pub struct MessageBufView {
    pub bytes: Seq<u8>,
    pub data: int,
    pub tail: int,
}

impl MessageBufView {
    pub open spec fn wf(self) -> bool {
        0 <= self.data <= self.tail <= self.bytes.len()
    }

    pub open spec fn capacity(self) -> int {
        self.bytes.len() as int
    }

    pub open spec fn data_len(self) -> int {
        self.tail - self.data
    }

    /// The bytes in the data window.
    pub open spec fn payload(self) -> Seq<u8> {
        self.bytes.subrange(self.data, self.tail)
    }

    /// `bytes` with `src` written from position `at`.
    pub open spec fn written(self, at: int, src: Seq<u8>) -> Seq<u8> {
        self.bytes.subrange(0, at) + src + self.bytes.subrange(at + src.len(), self.bytes.len() as int)
    }

    /// Whether `n` more bytes fit behind the tail.
    pub open spec fn fits(self, n: int) -> bool {
        self.tail + n <= self.capacity()
    }

    /// The buffer after `src` is encoded into it: written at `data`, with
    /// both `data` and `tail` moved forward by its length.
    pub open spec fn encoded(self, src: Seq<u8>) -> MessageBufView {
        MessageBufView {
            bytes: self.written(self.data, src),
            data: self.data + src.len(),
            tail: self.tail + src.len(),
        }
    }

    /// The buffer holding exactly `msg` in its data window, written from
    /// position `at`.
    pub open spec fn with_message(self, at: int, msg: Seq<u8>) -> MessageBufView {
        MessageBufView { bytes: self.written(at, msg), data: at, tail: at + msg.len() }
    }

    /// The buffer after its data window was emptied and moved to the start.
    pub open spec fn cleared(self) -> MessageBufView {
        MessageBufView { bytes: self.bytes, data: 0, tail: 0 }
    }

    /// The buffer after `n` bytes were consumed from the front of the data window.
    pub open spec fn pulled(self, n: int) -> MessageBufView {
        MessageBufView { bytes: self.bytes, data: self.data + n, tail: self.tail }
    }

    /// The buffer after the data window was extended `n` bytes to the front.
    pub open spec fn pushed(self, n: int) -> MessageBufView {
        MessageBufView { bytes: self.bytes, data: self.data - n, tail: self.tail }
    }

    /// The buffer after the data window was extended `n` bytes behind the tail.
    pub open spec fn put(self, n: int) -> MessageBufView {
        MessageBufView { bytes: self.bytes, data: self.data, tail: self.tail + n }
    }
}

/// Encoding `a` and then `b` is encoding `a + b`.
pub proof fn lemma_encoded_concat(v: MessageBufView, a: Seq<u8>, b: Seq<u8>)
    requires
        v.wf(),
        v.fits((a.len() + b.len()) as int),
    ensures
        v.encoded(a).encoded(b) == v.encoded(a + b),
{
    let w = v.encoded(a);
    assert(w.encoded(b).bytes =~= v.encoded(a + b).bytes);
}

/// Bytes encoded into a buffer are read back from it: once the data window
/// is moved back over them, its first bytes are exactly those encoded, and
/// the bytes outside the written range are untouched.
pub proof fn law_encoded_reads_back(v: MessageBufView, src: Seq<u8>)
    requires
        v.wf(),
        v.fits(src.len() as int),
    ensures
        ({
            let w = v.encoded(src).pushed(src.len() as int);
            &&& w.wf()
            &&& w.data == v.data
            &&& w.data_len() == v.data_len() + src.len()
            &&& w.bytes.subrange(w.data, w.data + src.len()) == src
            &&& forall|i: int|
                0 <= i < v.bytes.len() && !(v.data <= i < v.data + src.len()) ==> #[trigger] w.bytes[i]
                    == v.bytes[i]
        }),
{
    let w = v.encoded(src).pushed(src.len() as int);
    assert(w.bytes.subrange(w.data, w.data + src.len()) =~= src);
}

/// A byte buffer with a data window `[data, tail)`: messages are encoded at
/// `data`, decoded from `data`, and the window is moved with `put_data`,
/// `pull_data` and `push_data`.
pub struct MessageBuf {
    buffer: Vec<u8>,
    data: usize,
    tail: usize,
}

impl View for MessageBuf {
    type V = MessageBufView;

    closed spec fn view(&self) -> MessageBufView {
        MessageBufView { bytes: self.buffer@, data: self.data as int, tail: self.tail as int }
    }
}

impl MessageBuf {
    #[verifier::type_invariant]
    spec fn inv(self) -> bool {
        self.data <= self.tail <= self.buffer.len()
    }

    /// A buffer of `capacity` zero bytes with an empty data window at 0.
    pub fn new(capacity: usize) -> (r: MessageBuf)
        ensures
            r@.bytes == Seq::new(capacity as nat, |i: int| 0u8),
            r@.data == 0,
            r@.tail == 0,
    {
        let mut buffer: Vec<u8> = Vec::new();
        let mut i: usize = 0;
        while i < capacity
            invariant
                i <= capacity,
                buffer@ == Seq::new(i as nat, |j: int| 0u8),
            decreases capacity - i,
        {
            buffer.push(0u8);
            i = i + 1;
        }
        MessageBuf { buffer, data: 0, tail: 0 }
    }

    pub fn capacity(&self) -> (r: usize)
        ensures
            self@.wf(),
            r == self@.capacity(),
    {
        proof { use_type_invariant(self); }
        self.buffer.len()
    }

    pub fn data_len(&self) -> (r: usize)
        ensures
            self@.wf(),
            r == self@.data_len(),
    {
        proof { use_type_invariant(self); }
        self.tail - self.data
    }

    /// Empties the data window and moves it to the start of the buffer.
    pub fn reset(&mut self)
        ensures
            old(self)@.wf(),
            final(self)@.wf(),
            final(self)@ == (MessageBufView { bytes: old(self)@.bytes, data: 0, tail: 0 }),
    {
        proof { use_type_invariant(&*self); }
        self.data = 0;
        self.tail = 0;
    }

    /// Reserves `len` bytes in front of an empty data window (room for a header).
    pub fn reserve(&mut self, len: usize) -> (r: CodecResult<()>)
        ensures
            old(self)@.wf(),
            final(self)@.wf(),
            old(self)@.fits(len as int) ==> r is Ok && final(self)@ == (MessageBufView {
                bytes: old(self)@.bytes,
                data: old(self)@.data + len,
                tail: old(self)@.tail + len,
            }),
            !old(self)@.fits(len as int) ==> r == Err::<(), CodecError>(CodecError::BufferTooSmall)
                && final(self)@ == old(self)@,
    {
        proof { use_type_invariant(&*self); }
        if len > self.buffer.len() - self.tail {
            return Err(CodecError::BufferTooSmall);
        }
        self.tail = self.tail + len;
        self.data = self.data + len;
        Ok(())
    }

    /// Extends the data window `len` bytes behind the tail.
    pub fn put_data(&mut self, len: usize) -> (r: CodecResult<()>)
        ensures
            old(self)@.wf(),
            final(self)@.wf(),
            old(self)@.fits(len as int) ==> r is Ok && final(self)@ == old(self)@.put(len as int),
            !old(self)@.fits(len as int) ==> r == Err::<(), CodecError>(CodecError::BufferTooSmall)
                && final(self)@ == old(self)@,
    {
        proof { use_type_invariant(&*self); }
        if len > self.buffer.len() - self.tail {
            return Err(CodecError::BufferTooSmall);
        }
        self.tail = self.tail + len;
        Ok(())
    }

    /// Consumes `len` bytes from the front of the data window.
    pub fn pull_data(&mut self, len: usize) -> (r: CodecResult<()>)
        ensures
            old(self)@.wf(),
            final(self)@.wf(),
            len <= old(self)@.data_len() ==> r is Ok && final(self)@ == old(self)@.pulled(len as int),
            len > old(self)@.data_len() ==> r == Err::<(), CodecError>(CodecError::BufferUnderflow)
                && final(self)@ == old(self)@,
    {
        proof { use_type_invariant(&*self); }
        if len > self.tail - self.data {
            return Err(CodecError::BufferUnderflow);
        }
        self.data = self.data + len;
        Ok(())
    }

    /// Extends the data window `len` bytes to the front.
    pub fn push_data(&mut self, len: usize) -> (r: CodecResult<()>)
        ensures
            old(self)@.wf(),
            final(self)@.wf(),
            len <= old(self)@.data ==> r is Ok && final(self)@ == old(self)@.pushed(len as int),
            len > old(self)@.data ==> r == Err::<(), CodecError>(CodecError::BufferOverflow)
                && final(self)@ == old(self)@,
    {
        proof { use_type_invariant(&*self); }
        if len > self.data {
            return Err(CodecError::BufferOverflow);
        }
        self.data = self.data - len;
        Ok(())
    }

    /// A copy of the first `len` bytes of the data window.
    pub fn data(&self, len: usize) -> (r: CodecResult<Vec<u8>>)
        ensures
            self@.wf(),
            len <= self@.data_len() ==> (r matches Ok(v) && v@ == self@.bytes.subrange(
                self@.data,
                self@.data + len,
            )),
            len > self@.data_len() ==> r == Err::<Vec<u8>, CodecError>(CodecError::BufferUnderflow),
    {
        proof { use_type_invariant(self); }
        if len > self.tail - self.data {
            return Err(CodecError::BufferUnderflow);
        }
        let mut out: Vec<u8> = Vec::new();
        let mut i: usize = 0;
        while i < len
            invariant
                i <= len,
                self.data + len <= self.buffer.len(),
                out@ == self.buffer@.subrange(self.data as int, self.data + i),
            decreases len - i,
        {
            out.push(self.buffer[self.data + i]);
            i = i + 1;
        }
        Ok(out)
    }

    /// The whole data window.
    pub fn message(&self) -> (r: Vec<u8>)
        ensures
            self@.wf(),
            r@ == self@.payload(),
    {
        proof { use_type_invariant(self); }
        let len = self.tail - self.data;
        match self.data(len) {
            Ok(v) => v,
            Err(_) => Vec::new(),
        }
    }

    /// Writes `src` into the last `src.len()` bytes of the first `len` bytes of
    /// the data window (the region that `data_mut(len)[len - src.len()..]` names).
    pub fn write_data(&mut self, len: usize, src: &[u8]) -> (r: CodecResult<()>)
        requires
            src@.len() <= len,
        ensures
            old(self)@.wf(),
            final(self)@.wf(),
            len <= old(self)@.data_len() ==> r is Ok && final(self)@ == (MessageBufView {
                bytes: old(self)@.written(old(self)@.data + len - src@.len(), src@),
                data: old(self)@.data,
                tail: old(self)@.tail,
            }),
            len > old(self)@.data_len() ==> r == Err::<(), CodecError>(CodecError::BufferUnderflow)
                && final(self)@ == old(self)@,
    {
        proof { use_type_invariant(&*self); }
        if len > self.tail - self.data {
            return Err(CodecError::BufferUnderflow);
        }
        let start = self.data + len - src.len();
        let total = self.buffer.len();
        let mut out: Vec<u8> = Vec::new();
        let mut k: usize = 0;
        while k < total
            invariant
                k <= total,
                total == self.buffer@.len(),
                start + src@.len() <= total,
                out@.len() == k,
                forall|j: int|
                    0 <= j < k ==> #[trigger] out@[j] == if start <= j < start + src@.len() {
                        src@[j - start]
                    } else {
                        self.buffer@[j]
                    },
            decreases total - k,
        {
            if start <= k && k < start + src.len() {
                out.push(src[k - start]);
            } else {
                out.push(self.buffer[k]);
            }
            k = k + 1;
        }
        proof {
            assert(out@ =~= self@.written(start as int, src@));
        }
        self.buffer = out;
        Ok(())
    }

    /// Encodes `src` at the start of the data window: the window is extended by
    /// `src.len()` behind the tail, `src` is written, and the window's front is
    /// moved past it. Returns the number of bytes written.
    pub fn encode_bytes(&mut self, src: &[u8]) -> (r: CodecResult<usize>)
        ensures
            old(self)@.wf(),
            final(self)@.wf(),
            old(self)@.fits(src@.len() as int) ==> r == Ok::<usize, CodecError>(src@.len() as usize)
                && final(self)@ == old(self)@.encoded(src@),
            !old(self)@.fits(src@.len() as int) ==> r == Err::<usize, CodecError>(
                CodecError::BufferTooSmall,
            ) && final(self)@ == old(self)@,
    {
        proof { use_type_invariant(&*self); }
        let ghost old_view = self@;
        let len = src.len();
        self.put_data(len)?;
        let w = self.write_data(len, src);
        assert(w is Ok);
        let p = self.pull_data(len);
        assert(p is Ok);
        assert(self@ == old_view.encoded(src@));
        Ok(len)
    }

    /// Decodes `len` bytes from the start of the data window, consuming them.
    pub fn decode_bytes(&mut self, len: usize) -> (r: CodecResult<Vec<u8>>)
        ensures
            old(self)@.wf(),
            final(self)@.wf(),
            len <= old(self)@.data_len() ==> (r matches Ok(v) && v@ == old(self)@.bytes.subrange(
                old(self)@.data,
                old(self)@.data + len,
            ) && final(self)@ == old(self)@.pulled(len as int)),
            len > old(self)@.data_len() ==> r == Err::<Vec<u8>, CodecError>(
                CodecError::BufferTooSmall,
            ) && final(self)@ == old(self)@,
    {
        if self.data_len() < len {
            return Err(CodecError::BufferTooSmall);
        }
        let v = self.data(len)?;
        let p = self.pull_data(len);
        Ok(v)
    }
}

} // verus!
