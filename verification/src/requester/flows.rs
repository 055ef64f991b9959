//! The flows of a requester, as a state machine over the responses received
//! from the responder.
use vstd::prelude::*;

verus! {

/// The states of the responder as the requester tracks them.
#[derive(Debug, Clone, Copy, PartialEq, Eq, Structural)]
pub enum SpdmStates {
    NotStarted,
    VersionReceived,
    CapabilitiesReceived,
    AlgorithmsNegotiated,
    DigestReceived,
    CertificateReceived,
    Challenged,
}

/// The events that drive the state machine.
#[derive(Debug, Clone, Copy, PartialEq, Eq, Structural)]
pub enum SpdmEvents {
    GetVersionResp,
    GetCapabilitiesResp,
    NegotiateAlgorithmsResp,
    GetVersionReq,
    GetDigestResp,
    GetCertificateResp,
    ChallengeResp,
    GetMeasurementResp,
}

/// Errors of event processing.
#[derive(Debug, Clone, Copy, PartialEq, Eq)]
pub enum SpdmError {
    /// The event is not expected in the current state.
    InvalidEvent,
    /// None of the transitions for the event happened.
    TransitionsFailed,
    /// A guard failed.
    GuardFailed(()),
    /// An action failed.
    ActionFailed(()),
}

/// The validation run on a transition.
#[derive(Debug, Clone, Copy, PartialEq, Eq, Structural)]
pub enum SpdmAction {
    ValidateVersion,
    ValidateCaps,
    ValidateAlgos,
    ValidateDigest,
    ValidateCertificate,
    ValidateChallenge,
}

/// The transition table: for a state and an event, the next state and the
/// validation run on the way, if the event is expected in the state.
pub open spec fn transition(s: SpdmStates, e: SpdmEvents) -> Option<(SpdmStates, Option<SpdmAction>)> {
    match (s, e) {
        // VCA
        (SpdmStates::NotStarted, SpdmEvents::GetVersionResp) => Some(
            (SpdmStates::VersionReceived, Some(SpdmAction::ValidateVersion)),
        ),
        (SpdmStates::VersionReceived, SpdmEvents::GetCapabilitiesResp) => Some(
            (SpdmStates::CapabilitiesReceived, Some(SpdmAction::ValidateCaps)),
        ),
        (SpdmStates::CapabilitiesReceived, SpdmEvents::NegotiateAlgorithmsResp) => Some(
            (SpdmStates::AlgorithmsNegotiated, Some(SpdmAction::ValidateAlgos)),
        ),
        // A GET_VERSION request restarts the session from any state.
        (_, SpdmEvents::GetVersionReq) => Some((SpdmStates::NotStarted, None)),
        // Post-VCA
        (SpdmStates::AlgorithmsNegotiated, SpdmEvents::GetDigestResp) => Some(
            (SpdmStates::DigestReceived, Some(SpdmAction::ValidateDigest)),
        ),
        (SpdmStates::DigestReceived, SpdmEvents::GetDigestResp) => Some(
            (SpdmStates::DigestReceived, Some(SpdmAction::ValidateDigest)),
        ),
        (SpdmStates::AlgorithmsNegotiated, SpdmEvents::GetCertificateResp) => Some(
            (SpdmStates::CertificateReceived, Some(SpdmAction::ValidateCertificate)),
        ),
        (SpdmStates::AlgorithmsNegotiated, SpdmEvents::ChallengeResp) => Some(
            (SpdmStates::Challenged, Some(SpdmAction::ValidateChallenge)),
        ),
        (SpdmStates::DigestReceived, SpdmEvents::GetCertificateResp) => Some(
            (SpdmStates::CertificateReceived, Some(SpdmAction::ValidateCertificate)),
        ),
        (SpdmStates::DigestReceived, SpdmEvents::ChallengeResp) => Some(
            (SpdmStates::Challenged, Some(SpdmAction::ValidateChallenge)),
        ),
        (SpdmStates::CertificateReceived, SpdmEvents::GetCertificateResp) => Some(
            (SpdmStates::CertificateReceived, Some(SpdmAction::ValidateCertificate)),
        ),
        (SpdmStates::CertificateReceived, SpdmEvents::GetDigestResp) => Some(
            (SpdmStates::DigestReceived, Some(SpdmAction::ValidateDigest)),
        ),
        (SpdmStates::CertificateReceived, SpdmEvents::ChallengeResp) => Some(
            (SpdmStates::Challenged, Some(SpdmAction::ValidateChallenge)),
        ),
        // A GET_VERSION response outside NotStarted (session restart).
        (_, SpdmEvents::GetVersionResp) => Some((SpdmStates::AlgorithmsNegotiated, None)),
        // Post-Challenge
        (SpdmStates::Challenged, SpdmEvents::GetMeasurementResp) => Some(
            (SpdmStates::Challenged, None),
        ),
        _ => None,
    }
}

/// The state after `event` in `s`, if the event is expected there.
pub open spec fn next_state(s: SpdmStates, e: SpdmEvents) -> Option<SpdmStates> {
    match transition(s, e) {
        Some((t, _)) => Some(t),
        None => None,
    }
}

/// The state the machine is in after the events `events`, starting in `s`:
/// an event that is not expected leaves the state as it is.
pub open spec fn state_after(s: SpdmStates, events: Seq<SpdmEvents>) -> SpdmStates
    decreases events.len(),
{
    if events.len() == 0 {
        s
    } else {
        let t = match next_state(s, events[0]) {
            Some(t) => t,
            None => s,
        };
        state_after(t, events.drop_first())
    }
}

/// A `GET_VERSION` request restarts the session from every state.
pub proof fn law_get_version_request_restarts(s: SpdmStates)
    ensures
        next_state(s, SpdmEvents::GetVersionReq) == Some(SpdmStates::NotStarted),
{
}

/// A `GET_VERSION` response is expected in every state: it moves a machine
/// that has not started to `VersionReceived`, and any other to
/// `AlgorithmsNegotiated`.
pub proof fn law_get_version_response_accepted(s: SpdmStates)
    ensures
        next_state(s, SpdmEvents::GetVersionResp) == Some(
            if s == SpdmStates::NotStarted {
                SpdmStates::VersionReceived
            } else {
                SpdmStates::AlgorithmsNegotiated
            },
        ),
{
}

/// The version, capabilities and algorithms responses, in this order, take a
/// machine that has not started to `AlgorithmsNegotiated`.
pub proof fn law_vca_flow()
    ensures
        state_after(
            SpdmStates::NotStarted,
            seq![
                SpdmEvents::GetVersionResp,
                SpdmEvents::GetCapabilitiesResp,
                SpdmEvents::NegotiateAlgorithmsResp,
            ],
        ) == SpdmStates::AlgorithmsNegotiated,
{
    let e = seq![
        SpdmEvents::GetVersionResp,
        SpdmEvents::GetCapabilitiesResp,
        SpdmEvents::NegotiateAlgorithmsResp,
    ];
    assert(e.drop_first() =~= seq![SpdmEvents::GetCapabilitiesResp, SpdmEvents::NegotiateAlgorithmsResp]);
    assert(e.drop_first().drop_first() =~= seq![SpdmEvents::NegotiateAlgorithmsResp]);
    assert(e.drop_first().drop_first().drop_first() =~= Seq::<SpdmEvents>::empty());
    reveal_with_fuel(state_after, 4);
}

/// After the algorithms are negotiated, digests, certificates and challenges
/// may come in any order: from each of `AlgorithmsNegotiated`,
/// `DigestReceived` and `CertificateReceived`, a certificate response leads to
/// `CertificateReceived`, a digest response to `DigestReceived`, and a
/// challenge response to `Challenged`, each after its validation; other
/// VCA responses and measurement responses are refused there.
pub proof fn law_post_vca_flows(s: SpdmStates)
    requires
        s == SpdmStates::AlgorithmsNegotiated || s == SpdmStates::DigestReceived || s
            == SpdmStates::CertificateReceived,
    ensures
        transition(s, SpdmEvents::GetCertificateResp) == Some(
            (SpdmStates::CertificateReceived, Some(SpdmAction::ValidateCertificate)),
        ),
        transition(s, SpdmEvents::GetDigestResp) == Some(
            (SpdmStates::DigestReceived, Some(SpdmAction::ValidateDigest)),
        ),
        transition(s, SpdmEvents::ChallengeResp) == Some(
            (SpdmStates::Challenged, Some(SpdmAction::ValidateChallenge)),
        ),
        next_state(s, SpdmEvents::GetCapabilitiesResp) is None,
        next_state(s, SpdmEvents::NegotiateAlgorithmsResp) is None,
        next_state(s, SpdmEvents::GetMeasurementResp) is None,
{
}

/// The VCA stage goes step by step: a version response is accepted only to
/// start (or restart) it, a capabilities response only right after the
/// version, and an algorithms response only right after the capabilities.
pub proof fn law_vca_steps(s: SpdmStates)
    ensures
        next_state(s, SpdmEvents::GetCapabilitiesResp) is Some <==> s
            == SpdmStates::VersionReceived,
        next_state(s, SpdmEvents::NegotiateAlgorithmsResp) is Some <==> s
            == SpdmStates::CapabilitiesReceived,
        s == SpdmStates::VersionReceived ==> next_state(s, SpdmEvents::GetCapabilitiesResp)
            == Some(SpdmStates::CapabilitiesReceived),
        s == SpdmStates::CapabilitiesReceived ==> next_state(
            s,
            SpdmEvents::NegotiateAlgorithmsResp,
        ) == Some(SpdmStates::AlgorithmsNegotiated),
{
}

/// A `CHALLENGE` response received after the algorithms were negotiated (with
/// or without digests and certificates in between) leads to `Challenged`,
/// where measurement responses are accepted and keep the machine there.
pub proof fn law_challenge_then_measurements(s: SpdmStates)
    requires
        s == SpdmStates::AlgorithmsNegotiated || s == SpdmStates::DigestReceived || s
            == SpdmStates::CertificateReceived,
    ensures
        next_state(s, SpdmEvents::ChallengeResp) == Some(SpdmStates::Challenged),
        next_state(SpdmStates::Challenged, SpdmEvents::GetMeasurementResp) == Some(
            SpdmStates::Challenged,
        ),
{
}

/// The full flow, version, capabilities, algorithms, challenge, then
/// measurements, takes a machine that has not started to `Challenged`.
pub proof fn law_challenge_flow()
    ensures
        state_after(
            SpdmStates::NotStarted,
            seq![
                SpdmEvents::GetVersionResp,
                SpdmEvents::GetCapabilitiesResp,
                SpdmEvents::NegotiateAlgorithmsResp,
                SpdmEvents::ChallengeResp,
                SpdmEvents::GetMeasurementResp,
            ],
        ) == SpdmStates::Challenged,
{
    let e = seq![
        SpdmEvents::GetVersionResp,
        SpdmEvents::GetCapabilitiesResp,
        SpdmEvents::NegotiateAlgorithmsResp,
        SpdmEvents::ChallengeResp,
        SpdmEvents::GetMeasurementResp,
    ];
    assert(e.drop_first() =~= e.subrange(1, 5));
    assert(e.subrange(1, 5).drop_first() =~= e.subrange(2, 5));
    assert(e.subrange(2, 5).drop_first() =~= e.subrange(3, 5));
    assert(e.subrange(3, 5).drop_first() =~= e.subrange(4, 5));
    assert(e.subrange(4, 5).drop_first() =~= Seq::<SpdmEvents>::empty());
    reveal_with_fuel(state_after, 6);
}

/// Only a `CHALLENGE` response leads into `Challenged` from another state.
pub proof fn law_challenged_only_by_challenge(s: SpdmStates, e: SpdmEvents)
    requires
        s != SpdmStates::Challenged,
        next_state(s, e) == Some(SpdmStates::Challenged),
    ensures
        e == SpdmEvents::ChallengeResp,
{
}

/// The validations run on the transitions of the requester's flows.
#[derive(Debug)]
pub struct SpdmContext;

impl SpdmContext {
    pub fn validate_version(&mut self) -> (r: Result<(), ()>)
        ensures
            r is Ok,
    {
        Ok(())
    }

    pub fn validate_algos(&mut self) -> (r: Result<(), ()>)
        ensures
            r is Ok,
    {
        Ok(())
    }

    pub fn validate_caps(&mut self) -> (r: Result<(), ()>)
        ensures
            r is Ok,
    {
        Ok(())
    }

    pub fn validate_challenge(&mut self) -> (r: Result<(), ()>)
        ensures
            r is Ok,
    {
        Ok(())
    }

    pub fn validate_certificate(&mut self) -> (r: Result<(), ()>)
        ensures
            r is Ok,
    {
        Ok(())
    }

    pub fn validate_digest(&mut self) -> (r: Result<(), ()>)
        ensures
            r is Ok,
    {
        Ok(())
    }

    /// Runs one validation.
    pub fn run(&mut self, action: SpdmAction) -> (r: Result<(), ()>)
        ensures
            r is Ok,
    {
        match action {
            SpdmAction::ValidateVersion => self.validate_version(),
            SpdmAction::ValidateCaps => self.validate_caps(),
            SpdmAction::ValidateAlgos => self.validate_algos(),
            SpdmAction::ValidateDigest => self.validate_digest(),
            SpdmAction::ValidateCertificate => self.validate_certificate(),
            SpdmAction::ValidateChallenge => self.validate_challenge(),
        }
    }
}

/// Looks up the transition for `state` and `event`.
pub fn lookup_transition(state: SpdmStates, event: SpdmEvents) -> (r: Option<(SpdmStates, Option<SpdmAction>)>)
    ensures
        r == transition(state, event),
{
    match (state, event) {
        (SpdmStates::NotStarted, SpdmEvents::GetVersionResp) => Some(
            (SpdmStates::VersionReceived, Some(SpdmAction::ValidateVersion)),
        ),
        (SpdmStates::VersionReceived, SpdmEvents::GetCapabilitiesResp) => Some(
            (SpdmStates::CapabilitiesReceived, Some(SpdmAction::ValidateCaps)),
        ),
        (SpdmStates::CapabilitiesReceived, SpdmEvents::NegotiateAlgorithmsResp) => Some(
            (SpdmStates::AlgorithmsNegotiated, Some(SpdmAction::ValidateAlgos)),
        ),
        (_, SpdmEvents::GetVersionReq) => Some((SpdmStates::NotStarted, None)),
        (SpdmStates::AlgorithmsNegotiated, SpdmEvents::GetDigestResp) => Some(
            (SpdmStates::DigestReceived, Some(SpdmAction::ValidateDigest)),
        ),
        (SpdmStates::DigestReceived, SpdmEvents::GetDigestResp) => Some(
            (SpdmStates::DigestReceived, Some(SpdmAction::ValidateDigest)),
        ),
        (SpdmStates::AlgorithmsNegotiated, SpdmEvents::GetCertificateResp) => Some(
            (SpdmStates::CertificateReceived, Some(SpdmAction::ValidateCertificate)),
        ),
        (SpdmStates::AlgorithmsNegotiated, SpdmEvents::ChallengeResp) => Some(
            (SpdmStates::Challenged, Some(SpdmAction::ValidateChallenge)),
        ),
        (SpdmStates::DigestReceived, SpdmEvents::GetCertificateResp) => Some(
            (SpdmStates::CertificateReceived, Some(SpdmAction::ValidateCertificate)),
        ),
        (SpdmStates::DigestReceived, SpdmEvents::ChallengeResp) => Some(
            (SpdmStates::Challenged, Some(SpdmAction::ValidateChallenge)),
        ),
        (SpdmStates::CertificateReceived, SpdmEvents::GetCertificateResp) => Some(
            (SpdmStates::CertificateReceived, Some(SpdmAction::ValidateCertificate)),
        ),
        (SpdmStates::CertificateReceived, SpdmEvents::GetDigestResp) => Some(
            (SpdmStates::DigestReceived, Some(SpdmAction::ValidateDigest)),
        ),
        (SpdmStates::CertificateReceived, SpdmEvents::ChallengeResp) => Some(
            (SpdmStates::Challenged, Some(SpdmAction::ValidateChallenge)),
        ),
        (_, SpdmEvents::GetVersionResp) => Some((SpdmStates::AlgorithmsNegotiated, None)),
        (SpdmStates::Challenged, SpdmEvents::GetMeasurementResp) => Some(
            (SpdmStates::Challenged, None),
        ),
        _ => None,
    }
}

/// The state machine of the requester's flows.
pub struct SpdmStateMachine {
    state: SpdmStates,
    context: SpdmContext,
}

impl View for SpdmStateMachine {
    type V = SpdmStates;

    closed spec fn view(&self) -> SpdmStates {
        self.state
    }
}

impl SpdmStateMachine {
    /// A state machine in the starting state, `NotStarted`.
    pub fn new(context: SpdmContext) -> (r: SpdmStateMachine)
        ensures
            r@ == SpdmStates::NotStarted,
    {
        SpdmStateMachine { state: SpdmStates::NotStarted, context }
    }

    /// A state machine in `initial_state`.
    pub fn new_with_state(context: SpdmContext, initial_state: SpdmStates) -> (r: SpdmStateMachine)
        ensures
            r@ == initial_state,
    {
        SpdmStateMachine { state: initial_state, context }
    }

    /// The current state.
    pub fn state(&self) -> (r: &SpdmStates)
        ensures
            *r == self@,
    {
        &self.state
    }

    /// The validations the machine runs.
    pub fn context(&self) -> (r: &SpdmContext) {
        &self.context
    }

    /// Process an event: if it is expected in the current state, run the
    /// transition's validation and move to the next state, returning it;
    /// otherwise fail with `InvalidEvent` and stay.
    pub fn process_event(&mut self, event: SpdmEvents) -> (r: Result<&SpdmStates, SpdmError>)
        ensures
            next_state(old(self)@, event) matches Some(t) ==> (r matches Ok(s) && *s == t
                && final(self)@ == t),
            next_state(old(self)@, event) is None ==> (r matches Err(e) && e
                == SpdmError::InvalidEvent && final(self)@ == old(self)@),
    {
        match lookup_transition(self.state, event) {
            Some((next, action)) => {
                if let Some(a) = action {
                    if let Err(e) = self.context.run(a) {
                        return Err(SpdmError::ActionFailed(e));
                    }
                }
                self.state = next;
                Ok(&self.state)
            },
            None => Err(SpdmError::InvalidEvent),
        }
    }
}

} // verus!
