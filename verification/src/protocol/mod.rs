//! SPDM message header and request/response codes.
use vstd::prelude::*;

use crate::codec::{CodecError, CodecResult, MessageBuf};
use crate::error::{SpdmError, SpdmResult};

pub mod capabilities;
pub mod version;

use version::{version_byte, SpdmVersion};

verus! {

/// Size of the SPDM message header.
pub const SPDM_MSG_HDR_SIZE: usize = 2;

/// SPDM request and response codes.
#[derive(Debug, PartialEq, Eq, Clone, Copy, Structural)]
pub enum ReqRespCode {
    GetVersion,
    Version,
    GetCapabilities,
    Capabilities,
    NegotiateAlgorithms,
    Algorithms,
    GetDigests,
    Digests,
    GetCertificate,
    Certificate,
    Challenge,
    ChallengeAuth,
    GetMeasurements,
    Measurements,
    ChunkSend,
    ChunkSendAck,
    ChunkGet,
    ChunkResponse,
    Error,
}

/// The wire byte of a request/response code.
pub open spec fn code_byte(c: ReqRespCode) -> u8 {
    match c {
        ReqRespCode::GetVersion => 0x84,
        ReqRespCode::Version => 0x04,
        ReqRespCode::GetCapabilities => 0xE1,
        ReqRespCode::Capabilities => 0x61,
        ReqRespCode::NegotiateAlgorithms => 0xE3,
        ReqRespCode::Algorithms => 0x63,
        ReqRespCode::GetDigests => 0x81,
        ReqRespCode::Digests => 0x01,
        ReqRespCode::GetCertificate => 0x82,
        ReqRespCode::Certificate => 0x02,
        ReqRespCode::Challenge => 0x83,
        ReqRespCode::ChallengeAuth => 0x03,
        ReqRespCode::GetMeasurements => 0xE0,
        ReqRespCode::Measurements => 0x60,
        ReqRespCode::ChunkSend => 0x85,
        ReqRespCode::ChunkSendAck => 0x05,
        ReqRespCode::ChunkGet => 0x86,
        ReqRespCode::ChunkResponse => 0x06,
        ReqRespCode::Error => 0x7F,
    }
}

/// The code a byte denotes, if any.
pub open spec fn code_from_byte(b: u8) -> Option<ReqRespCode> {
    if b == 0x84 { Some(ReqRespCode::GetVersion) }
    else if b == 0x04 { Some(ReqRespCode::Version) }
    else if b == 0xE1 { Some(ReqRespCode::GetCapabilities) }
    else if b == 0x61 { Some(ReqRespCode::Capabilities) }
    else if b == 0xE3 { Some(ReqRespCode::NegotiateAlgorithms) }
    else if b == 0x63 { Some(ReqRespCode::Algorithms) }
    else if b == 0x81 { Some(ReqRespCode::GetDigests) }
    else if b == 0x01 { Some(ReqRespCode::Digests) }
    else if b == 0x82 { Some(ReqRespCode::GetCertificate) }
    else if b == 0x02 { Some(ReqRespCode::Certificate) }
    else if b == 0x83 { Some(ReqRespCode::Challenge) }
    else if b == 0x03 { Some(ReqRespCode::ChallengeAuth) }
    else if b == 0xE0 { Some(ReqRespCode::GetMeasurements) }
    else if b == 0x60 { Some(ReqRespCode::Measurements) }
    else if b == 0x85 { Some(ReqRespCode::ChunkSend) }
    else if b == 0x05 { Some(ReqRespCode::ChunkSendAck) }
    else if b == 0x86 { Some(ReqRespCode::ChunkGet) }
    else if b == 0x06 { Some(ReqRespCode::ChunkResponse) }
    else if b == 0x7F { Some(ReqRespCode::Error) }
    else { None }
}

impl ReqRespCode {
    pub fn to_u8(self) -> (r: u8)
        ensures
            r == code_byte(self),
    {
        match self {
            ReqRespCode::GetVersion => 0x84,
            ReqRespCode::Version => 0x04,
            ReqRespCode::GetCapabilities => 0xE1,
            ReqRespCode::Capabilities => 0x61,
            ReqRespCode::NegotiateAlgorithms => 0xE3,
            ReqRespCode::Algorithms => 0x63,
            ReqRespCode::GetDigests => 0x81,
            ReqRespCode::Digests => 0x01,
            ReqRespCode::GetCertificate => 0x82,
            ReqRespCode::Certificate => 0x02,
            ReqRespCode::Challenge => 0x83,
            ReqRespCode::ChallengeAuth => 0x03,
            ReqRespCode::GetMeasurements => 0xE0,
            ReqRespCode::Measurements => 0x60,
            ReqRespCode::ChunkSend => 0x85,
            ReqRespCode::ChunkSendAck => 0x05,
            ReqRespCode::ChunkGet => 0x86,
            ReqRespCode::ChunkResponse => 0x06,
            ReqRespCode::Error => 0x7F,
        }
    }

    /// Decodes a code byte; an unknown byte is an unsupported request.
    pub fn try_from_u8(value: u8) -> (r: SpdmResult<ReqRespCode>)
        ensures
            r == (match code_from_byte(value) {
                Some(c) => Ok(c),
                None => Err(SpdmError::UnsupportedRequest),
            }),
    {
        match value {
            0x84 => Ok(ReqRespCode::GetVersion),
            0x04 => Ok(ReqRespCode::Version),
            0xE1 => Ok(ReqRespCode::GetCapabilities),
            0x61 => Ok(ReqRespCode::Capabilities),
            0xE3 => Ok(ReqRespCode::NegotiateAlgorithms),
            0x63 => Ok(ReqRespCode::Algorithms),
            0x81 => Ok(ReqRespCode::GetDigests),
            0x01 => Ok(ReqRespCode::Digests),
            0x82 => Ok(ReqRespCode::GetCertificate),
            0x02 => Ok(ReqRespCode::Certificate),
            0x83 => Ok(ReqRespCode::Challenge),
            0x03 => Ok(ReqRespCode::ChallengeAuth),
            0xE0 => Ok(ReqRespCode::GetMeasurements),
            0x60 => Ok(ReqRespCode::Measurements),
            0x85 => Ok(ReqRespCode::ChunkSend),
            0x05 => Ok(ReqRespCode::ChunkSendAck),
            0x86 => Ok(ReqRespCode::ChunkGet),
            0x06 => Ok(ReqRespCode::ChunkResponse),
            0x7F => Ok(ReqRespCode::Error),
            _ => Err(SpdmError::UnsupportedRequest),
        }
    }
}

/// Decoding a code's byte gives the code back, and a byte that decodes to a
/// code is that code's byte.
pub proof fn law_code_byte_roundtrip(c: ReqRespCode, b: u8)
    ensures
        code_from_byte(code_byte(c)) == Some(c),
        code_from_byte(b) == Some(c) ==> code_byte(c) == b,
{
}

/// The SPDM message header: version byte and request/response code byte.
#[derive(Debug, Clone, Copy)]
pub struct SpdmMsgHdr {
    version: u8,
    req_resp_code: u8,
}

impl View for SpdmMsgHdr {
    /// (version byte, request/response code byte)
    type V = (u8, u8);

    closed spec fn view(&self) -> (u8, u8) {
        (self.version, self.req_resp_code)
    }
}

/// The wire bytes of a header.
pub open spec fn hdr_bytes(h: (u8, u8)) -> Seq<u8> {
    seq![h.0, h.1]
}

impl SpdmMsgHdr {
    pub fn new(version: SpdmVersion, req_resp_code: ReqRespCode) -> (r: SpdmMsgHdr)
        ensures
            r@ == (version_byte(version), code_byte(req_resp_code)),
    {
        SpdmMsgHdr { version: version.to_u8(), req_resp_code: req_resp_code.to_u8() }
    }

    /// A header from its two raw bytes.
    pub fn from_raw(version: u8, req_resp_code: u8) -> (r: SpdmMsgHdr)
        ensures
            r@ == (version, req_resp_code),
    {
        SpdmMsgHdr { version, req_resp_code }
    }

    pub fn version(&self) -> (r: SpdmResult<SpdmVersion>)
        ensures
            r == (match version::version_from_byte(self@.0) {
                Some(v) => Ok(v),
                None => Err(SpdmError::UnsupportedVersion),
            }),
    {
        SpdmVersion::try_from_u8(self.version)
    }

    pub fn req_resp_code(&self) -> (r: SpdmResult<ReqRespCode>)
        ensures
            r == (match code_from_byte(self@.1) {
                Some(c) => Ok(c),
                None => Err(SpdmError::UnsupportedRequest),
            }),
    {
        ReqRespCode::try_from_u8(self.req_resp_code)
    }

    pub fn encode(&self, buf: &mut MessageBuf) -> (r: CodecResult<usize>)
        ensures
            old(buf)@.wf(),
            final(buf)@.wf(),
            old(buf)@.fits(2) ==> r == Ok::<usize, CodecError>(2) && final(buf)@ == old(buf)@.encoded(
                hdr_bytes(self@),
            ),
            !old(buf)@.fits(2) ==> r == Err::<usize, CodecError>(CodecError::BufferTooSmall)
                && final(buf)@ == old(buf)@,
    {
        let bytes = [self.version, self.req_resp_code];
        proof { assert(bytes@ =~= hdr_bytes(self@)); }
        buf.encode_bytes(&bytes)
    }

    pub fn decode(buf: &mut MessageBuf) -> (r: CodecResult<SpdmMsgHdr>)
        ensures
            old(buf)@.wf(),
            final(buf)@.wf(),
            2 <= old(buf)@.data_len() ==> (r matches Ok(h) && hdr_bytes(h@) == old(buf)@.bytes.subrange(
                old(buf)@.data,
                old(buf)@.data + 2,
            ) && final(buf)@ == old(buf)@.pulled(2)),
            2 > old(buf)@.data_len() ==> r == Err::<SpdmMsgHdr, CodecError>(CodecError::BufferTooSmall)
                && final(buf)@ == old(buf)@,
    {
        let ghost old_buf = buf@;
        let v = match buf.decode_bytes(2) {
            Ok(v) => v,
            Err(e) => return Err(e),
        };
        assert(v@.len() == 2);
        let h = SpdmMsgHdr { version: v[0], req_resp_code: v[1] };
        proof { assert(hdr_bytes(h@) =~= v@); }
        Ok(h)
    }
}

} // verus!
