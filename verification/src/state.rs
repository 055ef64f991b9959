//! The negotiated state of a connection.
use vstd::prelude::*;

use crate::protocol::capabilities::{zero_capabilities, DeviceCapabilities};
use crate::protocol::version::SpdmVersion;

verus! {

/// How far the connection has progressed, in protocol order.
#[derive(Debug, Clone, Copy, PartialEq, Eq, Structural)]
pub enum ConnectionState {
    NotStarted,
    AfterVersion,
    AfterCapabilities,
    AfterNegotiateAlgorithms,
    AfterDigest,
    AfterCertificate,
    Authenticated,
}

/// The position of a state in protocol order.
pub open spec fn state_rank(s: ConnectionState) -> u8 {
    match s {
        ConnectionState::NotStarted => 0,
        ConnectionState::AfterVersion => 1,
        ConnectionState::AfterCapabilities => 2,
        ConnectionState::AfterNegotiateAlgorithms => 3,
        ConnectionState::AfterDigest => 4,
        ConnectionState::AfterCertificate => 5,
        ConnectionState::Authenticated => 6,
    }
}

/// The ranks follow protocol order: each state ranks strictly below the
/// next one.
pub proof fn law_state_rank_protocol_order()
    ensures
        state_rank(ConnectionState::NotStarted) < state_rank(ConnectionState::AfterVersion),
        state_rank(ConnectionState::AfterVersion) < state_rank(ConnectionState::AfterCapabilities),
        state_rank(ConnectionState::AfterCapabilities) < state_rank(
            ConnectionState::AfterNegotiateAlgorithms,
        ),
        state_rank(ConnectionState::AfterNegotiateAlgorithms) < state_rank(
            ConnectionState::AfterDigest,
        ),
        state_rank(ConnectionState::AfterDigest) < state_rank(ConnectionState::AfterCertificate),
        state_rank(ConnectionState::AfterCertificate) < state_rank(ConnectionState::Authenticated),
{
}

/// Distinct states have distinct ranks.
pub proof fn law_state_rank_injective(a: ConnectionState, b: ConnectionState)
    ensures
        state_rank(a) == state_rank(b) ==> a == b,
{
}

impl ConnectionState {
    pub fn rank(self) -> (r: u8)
        ensures
            r == state_rank(self),
    {
        match self {
            ConnectionState::NotStarted => 0,
            ConnectionState::AfterVersion => 1,
            ConnectionState::AfterCapabilities => 2,
            ConnectionState::AfterNegotiateAlgorithms => 3,
            ConnectionState::AfterDigest => 4,
            ConnectionState::AfterCertificate => 5,
            ConnectionState::Authenticated => 6,
        }
    }

    /// Whether `self` comes strictly before `other` in protocol order.
    pub fn is_before(self, other: ConnectionState) -> (r: bool)
        ensures
            r == (state_rank(self) < state_rank(other)),
    {
        self.rank() < other.rank()
    }
}

/// What is known of the connection: negotiated version, progress, and the
/// peer's capabilities.
#[derive(Debug, Clone, Copy)]
pub struct ConnectionInfo {
    pub version_number: SpdmVersion,
    pub state: ConnectionState,
    pub peer_capabilities: DeviceCapabilities,
}

impl ConnectionInfo {
    pub fn new() -> (r: ConnectionInfo)
        ensures
            r.version_number == SpdmVersion::V10,
            r.state == ConnectionState::NotStarted,
            r.peer_capabilities == zero_capabilities(),
    {
        ConnectionInfo {
            version_number: SpdmVersion::V10,
            state: ConnectionState::NotStarted,
            peer_capabilities: DeviceCapabilities::default(),
        }
    }

    pub fn version_number(&self) -> (r: SpdmVersion)
        ensures
            r == self.version_number,
    {
        self.version_number
    }

    pub fn state(&self) -> (r: ConnectionState)
        ensures
            r == self.state,
    {
        self.state
    }
}

/// The state of a connection.
#[derive(Debug, Clone, Copy)]
pub struct State {
    pub connection_info: ConnectionInfo,
}

} // verus!
