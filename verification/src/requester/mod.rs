//! The requester: the state machine that tracks the negotiated state of the
//! remote responder along the protocol flows, and the client
//! that drives it.
pub mod flows;
pub mod requester_client;
