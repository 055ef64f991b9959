//! SPDM commands.
pub mod chunk;
pub mod error;
