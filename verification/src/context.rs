//! The state a device keeps for one SPDM connection.
use vstd::prelude::*;

use crate::chunk_ctx::{initial_chunk_info, LargeRequestCtx, LargeResponseCtx};
use crate::codec::{CodecError, MessageBuf, MessageBufView};
use crate::commands::error::{error_code_byte, error_response_bytes, ErrorCode, ErrorResponse};
use crate::error::{CommandError, CommandResult, SpdmError, SpdmResult};
use crate::protocol::capabilities::{zero_capabilities, DeviceCapabilities};
use crate::protocol::version::{
    validate_supported_versions, version_byte, versions_valid, SpdmVersion,
};
use crate::protocol::{code_byte, hdr_bytes, ReqRespCode, SpdmMsgHdr};
use crate::state::{ConnectionInfo, ConnectionState, State};

verus! {

/// The bytes of an `ERROR` response: header of version `version`, then the
/// error code and error data.
pub open spec fn error_message(version: SpdmVersion, code: ErrorCode, data: u8) -> Seq<u8> {
    hdr_bytes((version_byte(version), code_byte(ReqRespCode::Error))) + error_response_bytes(
        (error_code_byte(code), data),
    )
}

/// What [SpdmContext::generate_error_response] returns, and the buffer
/// after it: the `ERROR` message stands alone in the data window behind the
/// transport header, or, where the buffer is too small, what was written of it.
pub open spec fn error_outcome(
    ctx: &SpdmContext,
    buf: MessageBufView,
    code: ErrorCode,
    data: u8,
) -> ((bool, CommandError), MessageBufView) {
    let h = ctx.transport_header_size as int;
    let cap = buf.capacity();
    let msg = error_message(ctx.version(), code, data);
    if h > cap {
        ((false, CommandError::BufferTooSmall), buf.cleared())
    } else if cap < h + 2 {
        ((false, CommandError::Codec(CodecError::BufferTooSmall)), buf.with_message(h, Seq::empty()))
    } else if cap < h + 4 {
        (
            (false, CommandError::Codec(CodecError::BufferTooSmall)),
            buf.with_message(h, Seq::empty()).encoded(msg.subrange(0, 2)),
        )
    } else {
        ((true, CommandError::ErrorCode(code)), buf.with_message(h, msg))
    }
}

/// The connection state of one SPDM endpoint.
pub struct SpdmContext {
    pub supported_versions: Vec<SpdmVersion>,
    pub state: State,
    pub local_capabilities: DeviceCapabilities,
    pub large_resp_context: LargeResponseCtx,
    pub large_req_context: LargeRequestCtx,
    /// Bytes the transport reserves in front of each SPDM message.
    pub transport_header_size: usize,
}

impl SpdmContext {
    /// The smaller of the local and the peer's data transfer size.
    pub open spec fn spec_min_data_transfer_size(&self) -> u32 {
        if self.local_capabilities.data_transfer_size
            <= self.state.connection_info.peer_capabilities.data_transfer_size {
            self.local_capabilities.data_transfer_size
        } else {
            self.state.connection_info.peer_capabilities.data_transfer_size
        }
    }

    /// The negotiated version.
    pub open spec fn version(&self) -> SpdmVersion {
        self.state.connection_info.version_number
    }

    /// A context for a connection that has not started, supporting
    /// `supported_versions`, which must be a valid set of versions.
    pub fn new(
        supported_versions: &[SpdmVersion],
        local_capabilities: DeviceCapabilities,
        transport_header_size: usize,
    ) -> (r: SpdmResult<SpdmContext>)
        ensures
            !versions_valid(supported_versions@) ==> r == Err::<SpdmContext, SpdmError>(
                SpdmError::InvalidParam,
            ),
            versions_valid(supported_versions@) ==> (r matches Ok(c) && c.supported_versions@
                == supported_versions@ && c.state.connection_info.version_number
                == SpdmVersion::V10 && c.state.connection_info.state
                == ConnectionState::NotStarted && c.state.connection_info.peer_capabilities
                == zero_capabilities() && c.local_capabilities == local_capabilities
                && c.large_resp_context@.info == initial_chunk_info()
                && c.large_resp_context@.response is None && c.large_req_context@
                == initial_chunk_info() && c.transport_header_size == transport_header_size),
    {
        validate_supported_versions(supported_versions)?;
        let mut versions: Vec<SpdmVersion> = Vec::new();
        let mut i: usize = 0;
        while i < supported_versions.len()
            invariant
                i <= supported_versions@.len(),
                versions@ == supported_versions@.subrange(0, i as int),
            decreases supported_versions@.len() - i,
        {
            versions.push(supported_versions[i]);
            i = i + 1;
        }
        proof { assert(versions@ =~= supported_versions@); }
        Ok(SpdmContext {
            supported_versions: versions,
            state: State { connection_info: ConnectionInfo::new() },
            local_capabilities,
            large_resp_context: LargeResponseCtx::default(),
            large_req_context: LargeRequestCtx::default(),
            transport_header_size,
        })
    }

    /// The smaller of the local and the peer's data transfer size.
    pub fn min_data_transfer_size(&self) -> (r: usize)
        ensures
            r == self.spec_min_data_transfer_size(),
    {
        let local = self.local_capabilities.data_transfer_size;
        let peer = self.state.connection_info.peer_capabilities.data_transfer_size;
        if local <= peer {
            local as usize
        } else {
            peer as usize
        }
    }

    /// Empties `buf` and reserves room for the transport header in front of
    /// the response.
    pub fn prepare_response_buffer(&self, buf: &mut MessageBuf) -> (r: CommandResult<()>)
        ensures
            self.transport_header_size <= old(buf)@.capacity() ==> r is Ok && final(buf)@
                == old(buf)@.with_message(self.transport_header_size as int, Seq::empty()),
            self.transport_header_size > old(buf)@.capacity() ==> r == Err::<
                (),
                (bool, CommandError),
            >((false, CommandError::BufferTooSmall)) && final(buf)@ == old(buf)@.cleared(),
    {
        buf.reset();
        match buf.reserve(self.transport_header_size) {
            Ok(()) => {
                proof {
                    let ghost v = buf@;
                    assert(v.bytes =~= v.written(self.transport_header_size as int, Seq::empty()));
                }
                Ok(())
            },
            Err(_) => Err((false, CommandError::BufferTooSmall)),
        }
    }

    /// Writes an `ERROR` response with `error_code` and `error_data` into
    /// `buf` (after the transport header) and returns the error to hand back
    /// to the caller: `(true, ErrorCode(error_code))` when the response was
    /// written, `(false, ..)` when `buf` is too small for it.
    pub fn generate_error_response(
        &self,
        buf: &mut MessageBuf,
        error_code: ErrorCode,
        error_data: u8,
    ) -> (r: (bool, CommandError))
        ensures
            (r, final(buf)@) == error_outcome(self, old(buf)@, error_code, error_data),
    {
        let ghost b0 = buf@;
        if let Err(e) = self.prepare_response_buffer(buf) {
            return e;
        }
        let ghost b1 = buf@;
        let hdr = SpdmMsgHdr::new(self.state.connection_info.version_number(), ReqRespCode::Error);
        if let Err(e) = hdr.encode(buf) {
            return (false, CommandError::Codec(e));
        }
        let ghost b2 = buf@;
        let rsp = ErrorResponse::new(error_code, error_data);
        if let Err(e) = rsp.encode(buf) {
            proof {
                let msg = error_message(self.version(), error_code, error_data);
                assert(msg.subrange(0, 2) =~= hdr_bytes(hdr@));
            }
            return (false, CommandError::Codec(e));
        }
        if let Err(e) = buf.push_data(4) {
            return (false, CommandError::Codec(e));
        }
        proof {
            let h = self.transport_header_size as int;
            let msg = error_message(self.version(), error_code, error_data);
            let target = b0.with_message(h, msg);
            assert(buf@.bytes =~= target.bytes);
        }
        (true, CommandError::ErrorCode(error_code))
    }
}

} // verus!
