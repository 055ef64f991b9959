//! Decoding of `ERROR` responses on the requester side.
use vstd::prelude::*;

use crate::codec::{CodecError, MessageBuf, MessageBufView};
use crate::context::{error_message, error_outcome, SpdmContext};
use crate::commands::error::{error_code_byte, error_code_from_byte, ErrorCode, ErrorResponse};
use crate::protocol::version::SpdmVersion;
use crate::error::{CommandError, CommandResult};
use crate::protocol::{code_byte, ReqRespCode, SpdmMsgHdr};

verus! {

/// Every byte that names an error code is that code's byte.
pub proof fn lemma_error_code_byte_roundtrip(b: u8)
    ensures
        error_code_from_byte(b) matches Some(c) ==> error_code_byte(c) == b,
{
}

/// Every error code's byte names that code.
pub proof fn lemma_error_code_from_byte_roundtrip(c: ErrorCode)
    ensures
        error_code_from_byte(error_code_byte(c)) == Some(c),
{
}

/// What [decode_error_response] returns (the error response by its fields),
/// and the buffer after it.
pub open spec fn decode_error_outcome(b: MessageBufView) -> (
    Result<(u8, u8), (bool, CommandError)>,
    MessageBufView,
) {
    let d = b.data;
    if b.data_len() < 2 {
        (Err((false, CommandError::Codec(CodecError::BufferTooSmall))), b)
    } else if b.bytes[d + 1] != code_byte(ReqRespCode::Error) {
        (Err((false, CommandError::InvalidResponse)), b.pulled(2))
    } else if b.data_len() < 4 {
        (Err((false, CommandError::Codec(CodecError::BufferTooSmall))), b.pulled(2))
    } else if error_code_from_byte(b.bytes[d + 2]) is None {
        (Err((false, CommandError::InvalidResponse)), b.pulled(4))
    } else {
        (Ok((b.bytes[d + 2], b.bytes[d + 3])), b.pulled(4))
    }
}

/// Decode an error response and return the contained error code and error
/// data as an [ErrorResponse]. After this decoding, the message buffer still
/// holds the extended error data, if any; the caller retrieves it if needed.
pub fn decode_error_response(resp_buf: &mut MessageBuf) -> (r: CommandResult<ErrorResponse>)
    ensures
        ((match r {
            Ok(e) => Ok(e@),
            Err(x) => Err(x),
        }), final(resp_buf)@) == decode_error_outcome(old(resp_buf)@),
{
    let ghost b = resp_buf@;
    let spdm_hdr = match SpdmMsgHdr::decode(resp_buf) {
        Ok(hdr) => hdr,
        Err(e) => return Err((false, CommandError::Codec(e))),
    };
    proof {
        assert(spdm_hdr@.1 == b.bytes.subrange(b.data, b.data + 2)[1]);
    }

    match spdm_hdr.req_resp_code() {
        Ok(ReqRespCode::Error) => {},
        _ => return Err((false, CommandError::InvalidResponse)),
    }

    let error_resp = match ErrorResponse::decode(resp_buf) {
        Ok(r) => r,
        Err(e) => return Err((false, CommandError::Codec(e))),
    };
    proof {
        let s = b.bytes.subrange(b.data + 2, b.data + 4);
        assert(error_resp@.0 == s[0]);
        assert(error_resp@.1 == s[1]);
    }

    let error_code = match ErrorCode::try_from(error_resp.error_code()) {
        Ok(code) => code,
        Err(_) => return Err((false, CommandError::InvalidResponse)),
    };
    proof { lemma_error_code_byte_roundtrip(error_resp@.0); }

    Ok(ErrorResponse::new(error_code, error_resp.error_data()))
}

/// Decoding an `ERROR` message gives back the error code and data it was
/// made of, and consumes its four bytes.
pub proof fn law_error_message_decodes(
    b: MessageBufView,
    version: SpdmVersion,
    code: ErrorCode,
    data: u8,
)
    requires
        b.wf(),
        b.data_len() >= 4,
        b.bytes.subrange(b.data, b.data + 4) == error_message(version, code, data),
    ensures
        decode_error_outcome(b) == (
            Ok::<(u8, u8), (bool, CommandError)>((error_code_byte(code), data)),
            b.pulled(4),
        ),
{
    let m = error_message(version, code, data);
    assert(b.bytes[b.data + 1] == m[1]);
    assert(b.bytes[b.data + 2] == m[2]);
    assert(b.bytes[b.data + 3] == m[3]);
    lemma_error_code_from_byte_roundtrip(code);
}

/// What a responder writes with [SpdmContext::generate_error_response] the
/// requester reads back with [decode_error_response], once the transport
/// header in front of it is taken off: the same error code and data.
pub proof fn law_error_response_roundtrip(
    ctx: &SpdmContext,
    buf: MessageBufView,
    code: ErrorCode,
    data: u8,
)
    requires
        buf.wf(),
    ensures
        ({
            let (e, b) = error_outcome(ctx, buf, code, data);
            e.0 ==> decode_error_outcome(b) == (
                Ok::<(u8, u8), (bool, CommandError)>((error_code_byte(code), data)),
                b.pulled(4),
            )
        }),
{
    let (e, b) = error_outcome(ctx, buf, code, data);
    if e.0 {
        let h = ctx.transport_header_size as int;
        let m = error_message(ctx.version(), code, data);
        assert(b.bytes.subrange(b.data, b.data + 4) =~= m);
        law_error_message_decodes(b, ctx.version(), code, data);
    }
}

} // verus!
