//! The requester client.
use vstd::prelude::*;

use crate::context;
use crate::error::{SpdmError as ContextError, SpdmResult};
use crate::chunk_ctx::initial_chunk_info;
use crate::protocol::capabilities::{zero_capabilities, DeviceCapabilities};
use crate::state::ConnectionState;
use crate::protocol::version::{versions_valid, SpdmVersion};
use crate::requester::flows::{next_state, SpdmContext, SpdmError, SpdmEvents, SpdmStateMachine, SpdmStates};

verus! {

/// A requester: the tracked state of the remote responder and the local
/// connection context.
pub struct Requester {
    pub responder_state: SpdmStateMachine,
    pub context_local: context::SpdmContext,
}

impl Requester {
    /// A requester that supports `supported_versions`, which must be a valid
    /// set of versions, with the responder not started.
    pub fn new(
        supported_versions: &[SpdmVersion],
        local_capabilities: DeviceCapabilities,
        transport_header_size: usize,
    ) -> (r: SpdmResult<Requester>)
        ensures
            !versions_valid(supported_versions@) ==> r == Err::<Requester, ContextError>(
                ContextError::InvalidParam,
            ),
            versions_valid(supported_versions@) ==> (r matches Ok(req) && req.responder_state@
                == SpdmStates::NotStarted && req.context_local.supported_versions@
                == supported_versions@ && req.context_local.local_capabilities == local_capabilities
                && req.context_local.transport_header_size == transport_header_size
                && req.context_local.state.connection_info.version_number == SpdmVersion::V10
                && req.context_local.state.connection_info.state == ConnectionState::NotStarted
                && req.context_local.state.connection_info.peer_capabilities == zero_capabilities()
                && req.context_local.large_resp_context@.info == initial_chunk_info()
                && req.context_local.large_resp_context@.response is None
                && req.context_local.large_req_context@ == initial_chunk_info()),
    {
        let context_local = context::SpdmContext::new(
            supported_versions,
            local_capabilities,
            transport_header_size,
        )?;
        Ok(Requester { responder_state: SpdmStateMachine::new(SpdmContext), context_local })
    }

    /// Feeds `event` to the responder's state machine.
    pub fn handle_event(&mut self, event: SpdmEvents) -> (r: Result<&SpdmStates, SpdmError>)
        ensures
            final(self).context_local == old(self).context_local,
            next_state(old(self).responder_state@, event) matches Some(t) ==> (r matches Ok(s)
                && *s == t && final(self).responder_state@ == t),
            next_state(old(self).responder_state@, event) is None ==> (r matches Err(e) && e
                == SpdmError::InvalidEvent && final(self).responder_state@
                == old(self).responder_state@),
    {
        self.responder_state.process_event(event)
    }
}

} // verus!
