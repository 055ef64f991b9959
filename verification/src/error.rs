//! Error types shared by the library.
use vstd::prelude::*;

use crate::chunk_ctx::ChunkError;
use crate::codec::CodecError;
use crate::commands::error::ErrorCode;

verus! {

/// Errors of the library's general operations.
#[derive(Debug, Clone, Copy, PartialEq, Eq, Structural)]
pub enum SpdmError {
    UnsupportedVersion,
    InvalidParam,
    UnsupportedRequest,
}

pub type SpdmResult<T> = Result<T, SpdmError>;

/// Errors of command processing.
#[derive(Debug, Clone, Copy, PartialEq, Eq, Structural)]
pub enum CommandError {
    /// A buffer operation failed.
    Codec(CodecError),
    /// An `ERROR` response with this code was written for the peer.
    ErrorCode(ErrorCode),
    InvalidResponse,
    InvalidChunkContext,
    BufferTooSmall,
    UnexpectedRequest,
    Chunk(ChunkError),
}

/// The result of command processing. The error carries whether a response
/// was prepared for the peer, and what went wrong.
pub type CommandResult<T> = Result<T, (bool, CommandError)>;

} // verus!
