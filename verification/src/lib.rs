//! SPDM message handling: version negotiation helpers, error responses,
//! chunked transfer of large messages, and the requester's flow state machine.
pub mod chunk_ctx;
pub mod codec;
pub mod commands;
pub mod context;
pub mod error;
pub mod protocol;
pub mod requester;
pub mod state;
