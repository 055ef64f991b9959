use spdm_lib::protocol::capabilities::DeviceCapabilities;
use spdm_lib::protocol::version::SpdmVersion;
use spdm_lib::requester::flows::{
    SpdmContext, SpdmError, SpdmEvents, SpdmStateMachine, SpdmStates,
};
use spdm_lib::requester::requester_client::Requester;

fn default_requester() -> Requester {
    let versions = [
        SpdmVersion::V10,
        SpdmVersion::V11,
        SpdmVersion::V12,
        SpdmVersion::V13,
    ];
    Requester::new(&versions, DeviceCapabilities::default(), 0)
        .expect("Failed to create default Test Requester")
}

#[test]
fn test_requester_flow_vca_full() {
    let mut req_client = default_requester();
    assert_eq!(req_client.responder_state.state(), &SpdmStates::NotStarted);

    let next_state = req_client.handle_event(SpdmEvents::GetVersionResp).unwrap();
    assert_eq!(next_state, &SpdmStates::VersionReceived);
    assert_eq!(
        req_client.responder_state.state(),
        &SpdmStates::VersionReceived
    );

    let next_state = req_client
        .handle_event(SpdmEvents::GetCapabilitiesResp)
        .unwrap();
    assert_eq!(next_state, &SpdmStates::CapabilitiesReceived);
    assert_eq!(
        req_client.responder_state.state(),
        &SpdmStates::CapabilitiesReceived
    );

    let next_state = req_client
        .handle_event(SpdmEvents::NegotiateAlgorithmsResp)
        .unwrap();
    assert_eq!(next_state, &SpdmStates::AlgorithmsNegotiated);
    assert_eq!(
        req_client.responder_state.state(),
        &SpdmStates::AlgorithmsNegotiated
    );

    // Test invalid events
    let next_state = req_client.handle_event(SpdmEvents::NegotiateAlgorithmsResp);
    assert_eq!(next_state, Err(SpdmError::InvalidEvent));
}

#[test]
fn test_requester_flow_vca_early_abort() {
    let mut req_client = default_requester();
    assert_eq!(req_client.responder_state.state(), &SpdmStates::NotStarted);

    let next_state = req_client.handle_event(SpdmEvents::GetVersionResp).unwrap();
    assert_eq!(next_state, &SpdmStates::VersionReceived);
    assert_eq!(
        req_client.responder_state.state(),
        &SpdmStates::VersionReceived
    );

    let next_state = req_client
        .handle_event(SpdmEvents::GetCapabilitiesResp)
        .unwrap();
    assert_eq!(next_state, &SpdmStates::CapabilitiesReceived);
    assert_eq!(
        req_client.responder_state.state(),
        &SpdmStates::CapabilitiesReceived
    );

    let broken_state = req_client.handle_event(SpdmEvents::GetVersionReq).unwrap();
    assert_eq!(broken_state, &SpdmStates::NotStarted);
    assert_eq!(req_client.responder_state.state(), &SpdmStates::NotStarted);
}

#[test]
fn requester_new_rejects_invalid_versions() {
    assert!(Requester::new(&[], DeviceCapabilities::default(), 0).is_err());
}

const ALL_STATES: [SpdmStates; 7] = [
    SpdmStates::NotStarted,
    SpdmStates::VersionReceived,
    SpdmStates::CapabilitiesReceived,
    SpdmStates::AlgorithmsNegotiated,
    SpdmStates::DigestReceived,
    SpdmStates::CertificateReceived,
    SpdmStates::Challenged,
];

const ALL_EVENTS: [SpdmEvents; 8] = [
    SpdmEvents::GetVersionResp,
    SpdmEvents::GetCapabilitiesResp,
    SpdmEvents::NegotiateAlgorithmsResp,
    SpdmEvents::GetVersionReq,
    SpdmEvents::GetDigestResp,
    SpdmEvents::GetCertificateResp,
    SpdmEvents::ChallengeResp,
    SpdmEvents::GetMeasurementResp,
];

#[test]
fn get_version_request_restarts_from_every_state() {
    for s in ALL_STATES {
        let mut sm = SpdmStateMachine::new_with_state(SpdmContext, s);
        assert_eq!(sm.process_event(SpdmEvents::GetVersionReq), Ok(&SpdmStates::NotStarted));
        assert_eq!(sm.state(), &SpdmStates::NotStarted);
    }
}

#[test]
fn get_version_response_is_always_accepted() {
    for s in ALL_STATES {
        let mut sm = SpdmStateMachine::new_with_state(SpdmContext, s);
        let expected = if s == SpdmStates::NotStarted {
            SpdmStates::VersionReceived
        } else {
            SpdmStates::AlgorithmsNegotiated
        };
        assert_eq!(sm.process_event(SpdmEvents::GetVersionResp), Ok(&expected));
    }
}

#[test]
fn invalid_event_keeps_state() {
    let mut sm = SpdmStateMachine::new_with_state(SpdmContext, SpdmStates::Challenged);
    assert_eq!(sm.process_event(SpdmEvents::GetCapabilitiesResp), Err(SpdmError::InvalidEvent));
    assert_eq!(sm.state(), &SpdmStates::Challenged);
    let mut sm = SpdmStateMachine::new(SpdmContext);
    assert_eq!(sm.process_event(SpdmEvents::ChallengeResp), Err(SpdmError::InvalidEvent));
    assert_eq!(sm.state(), &SpdmStates::NotStarted);
}

#[test]
fn post_vca_transitions() {
    let mut sm = SpdmStateMachine::new_with_state(SpdmContext, SpdmStates::AlgorithmsNegotiated);
    assert_eq!(sm.process_event(SpdmEvents::GetDigestResp), Ok(&SpdmStates::DigestReceived));
    assert_eq!(sm.process_event(SpdmEvents::GetDigestResp), Ok(&SpdmStates::DigestReceived));
    assert_eq!(
        sm.process_event(SpdmEvents::GetCertificateResp),
        Ok(&SpdmStates::CertificateReceived)
    );
    assert_eq!(
        sm.process_event(SpdmEvents::GetCertificateResp),
        Ok(&SpdmStates::CertificateReceived)
    );
    assert_eq!(sm.process_event(SpdmEvents::ChallengeResp), Ok(&SpdmStates::Challenged));
    let mut sm = SpdmStateMachine::new_with_state(SpdmContext, SpdmStates::Challenged);
    assert_eq!(sm.process_event(SpdmEvents::GetMeasurementResp), Ok(&SpdmStates::Challenged));
}

#[test]
fn challenge_then_measurements() {
    let mut req_client = default_requester();
    req_client.handle_event(SpdmEvents::GetVersionResp).unwrap();
    req_client.handle_event(SpdmEvents::GetCapabilitiesResp).unwrap();
    req_client.handle_event(SpdmEvents::NegotiateAlgorithmsResp).unwrap();
    assert_eq!(req_client.handle_event(SpdmEvents::ChallengeResp), Ok(&SpdmStates::Challenged));
    assert_eq!(
        req_client.handle_event(SpdmEvents::GetMeasurementResp),
        Ok(&SpdmStates::Challenged)
    );
}

#[test]
fn only_a_challenge_leads_to_challenged() {
    for s in ALL_STATES {
        if s == SpdmStates::Challenged {
            continue;
        }
        for e in ALL_EVENTS {
            let mut sm = SpdmStateMachine::new_with_state(SpdmContext, s);
            if sm.process_event(e) == Ok(&SpdmStates::Challenged) {
                assert_eq!(e, SpdmEvents::ChallengeResp);
            }
        }
    }
}
