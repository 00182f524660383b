//! Tests of the one-to-one call state machine.

use call_core::events::Event;
use call_core::manager::CallManager;
use call_core::session::{SessionState, TerminationReason};
use call_core::types::{CallError, CallMediaType, DataMode, HangupType};

fn session_state(m: &CallManager) -> SessionState {
    m.session.as_ref().expect("a session should exist").state
}

#[test]
fn video_call_full_lifecycle() {
    let mut m = CallManager::new();
    let id = m.call(7, CallMediaType::Video, 3).expect("call from idle succeeds");
    assert_eq!(session_state(&m), SessionState::Proceeding);
    assert!(m.session.as_ref().unwrap().video_enabled);

    m.proceed(id, DataMode::Normal, 200).expect("proceed from Proceeding succeeds");
    assert_eq!(session_state(&m), SessionState::Connecting);
    assert_eq!(m.session.as_ref().unwrap().data_mode, DataMode::Normal);

    m.received_answer(id, 2, vec![1], vec![2]).expect("matching answer succeeds");
    assert_eq!(session_state(&m), SessionState::Connected);
    assert_eq!(m.session.as_ref().unwrap().remote_device, Some(2));

    m.received_hangup(id, HangupType::Normal, 2).expect("hangup event succeeds");
    assert_eq!(
        session_state(&m),
        SessionState::Terminated(TerminationReason::RemoteHangup {
            hangup: HangupType::Normal,
            device: 2,
        })
    );

    // A subsequent local hangup is a no-op, not an error.
    let events_before = m.events.len();
    m.hangup().expect("hangup after termination is a no-op");
    assert_eq!(
        session_state(&m),
        SessionState::Terminated(TerminationReason::RemoteHangup {
            hangup: HangupType::Normal,
            device: 2,
        })
    );
    assert_eq!(m.events.len(), events_before);
}

#[test]
fn second_call_while_active_fails() {
    let mut m = CallManager::new();
    let id = m.call(7, CallMediaType::Audio, 1).unwrap();
    assert_eq!(id, 1);
    assert_eq!(m.call(8, CallMediaType::Audio, 1), Err(CallError::InvalidState));
    assert_eq!(m.session.as_ref().unwrap().call_id, 1);
    assert_eq!(session_state(&m), SessionState::Proceeding);
}

#[test]
fn call_after_terminal_session_gets_fresh_id() {
    let mut m = CallManager::new();
    let first = m.call(7, CallMediaType::Audio, 1).unwrap();
    m.hangup().unwrap();
    let second = m.call(8, CallMediaType::Video, 1).unwrap();
    assert_ne!(first, second);
    assert_eq!(second, 2);
    assert_eq!(session_state(&m), SessionState::Proceeding);
}

#[test]
fn received_hangup_twice_is_idempotent() {
    let mut m = CallManager::new();
    let id = m.call(7, CallMediaType::Audio, 1).unwrap();
    m.received_hangup(id, HangupType::Declined, 4).unwrap();
    let state_after_first = session_state(&m);
    let events_after_first = m.events.len();

    m.received_hangup(id, HangupType::Declined, 4)
        .expect("second hangup signals no error");
    assert_eq!(session_state(&m), state_after_first);
    assert_eq!(m.events.len(), events_after_first);
}

#[test]
fn received_busy_terminates_and_is_idempotent() {
    let mut m = CallManager::new();
    let id = m.call(7, CallMediaType::Audio, 1).unwrap();
    m.received_busy(id, 2).unwrap();
    assert_eq!(session_state(&m), SessionState::Terminated(TerminationReason::RemoteBusy));
    let events = m.events.len();
    m.received_busy(id, 2).unwrap();
    assert_eq!(session_state(&m), SessionState::Terminated(TerminationReason::RemoteBusy));
    assert_eq!(m.events.len(), events);
}

#[test]
fn ice_buffered_before_connecting_applied_in_arrival_order() {
    let mut m = CallManager::new();
    let id = m.call(7, CallMediaType::Audio, 1).unwrap();

    // Candidates arrive from two devices before the transport exists.
    m.received_ice(id, 2, vec![vec![0xa], vec![0xb]]).unwrap();
    m.received_ice(id, 3, vec![vec![0xc]]).unwrap();
    {
        let s = m.session.as_ref().unwrap();
        assert_eq!(s.applied_ice.len(), 0);
        assert_eq!(s.pending_ice.len(), 3);
    }

    // Reaching Connecting applies them in original arrival order.
    m.proceed(id, DataMode::Normal, 0).unwrap();
    {
        let s = m.session.as_ref().unwrap();
        assert_eq!(s.pending_ice.len(), 0);
        let applied: Vec<(u32, Vec<u8>)> =
            s.applied_ice.iter().map(|c| (c.device, c.opaque.clone())).collect();
        assert_eq!(
            applied,
            vec![(2, vec![0xa]), (2, vec![0xb]), (3, vec![0xc])]
        );
    }

    // After Connecting, candidates are applied directly, behind the rest.
    m.received_ice(id, 2, vec![vec![0xd]]).unwrap();
    {
        let s = m.session.as_ref().unwrap();
        assert_eq!(s.applied_ice.len(), 4);
        assert_eq!(s.applied_ice[3].opaque, vec![0xd]);
    }
}

#[test]
fn mismatched_call_id_drops_event_with_unknown_call() {
    let mut m = CallManager::new();
    let id = m.call(7, CallMediaType::Audio, 1).unwrap();
    m.proceed(id, DataMode::Normal, 0).unwrap();
    assert_eq!(
        m.received_answer(id + 1, 2, vec![], vec![]),
        Err(CallError::UnknownCall)
    );
    assert_eq!(m.received_ice(id + 1, 2, vec![vec![1]]), Err(CallError::UnknownCall));
    assert_eq!(
        m.received_hangup(id + 1, HangupType::Normal, 2),
        Err(CallError::UnknownCall)
    );
    assert_eq!(session_state(&m), SessionState::Connecting);
}

#[test]
fn proceed_nonpositive_interval_disables_audio_levels() {
    let mut m = CallManager::new();
    let id = m.call(7, CallMediaType::Audio, 1).unwrap();
    m.proceed(id, DataMode::Low, 0).unwrap();
    assert_eq!(m.session.as_ref().unwrap().audio_levels_interval_ms, None);

    let mut m2 = CallManager::new();
    let id2 = m2.call(7, CallMediaType::Audio, 1).unwrap();
    m2.proceed(id2, DataMode::High, 250).unwrap();
    assert_eq!(m2.session.as_ref().unwrap().audio_levels_interval_ms, Some(250));
}

#[test]
fn proceed_out_of_order_fails() {
    let mut m = CallManager::new();
    let id = m.call(7, CallMediaType::Audio, 1).unwrap();
    m.proceed(id, DataMode::Normal, 0).unwrap();
    assert_eq!(m.proceed(id, DataMode::Normal, 0), Err(CallError::InvalidState));
    assert_eq!(m.proceed(id + 1, DataMode::Normal, 0), Err(CallError::UnknownCall));
}

#[test]
fn drop_call_only_affects_matching_id() {
    let mut m = CallManager::new();
    let id = m.call(7, CallMediaType::Audio, 1).unwrap();
    m.drop_call(id + 5).expect("stale id is ignored");
    assert_eq!(session_state(&m), SessionState::Proceeding);
    m.drop_call(id).unwrap();
    assert_eq!(session_state(&m), SessionState::Terminated(TerminationReason::Dropped));
}

#[test]
fn reset_forces_idle_from_any_state() {
    let mut m = CallManager::new();
    let id = m.call(7, CallMediaType::Audio, 1).unwrap();
    m.proceed(id, DataMode::Normal, 0).unwrap();
    m.reset().unwrap();
    assert!(m.session.is_none());
    assert_eq!(*m.events.last().unwrap(), Event::CallReset { call_id: id });
    // Idle again: a new call is accepted.
    assert!(m.call(9, CallMediaType::Audio, 1).is_ok());
}

#[test]
fn close_is_terminal_for_the_orchestrator() {
    let mut m = CallManager::new();
    m.call(7, CallMediaType::Audio, 1).unwrap();
    m.close();
    assert!(!m.open);
    assert!(m.session.is_none());
    assert_eq!(m.call(8, CallMediaType::Audio, 1), Err(CallError::InvalidState));
    assert_eq!(m.hangup(), Err(CallError::InvalidState));
    m.close();
    assert!(!m.open);
}

#[test]
fn message_send_results_are_surfaced_not_fatal() {
    let mut m = CallManager::new();
    let id = m.call(7, CallMediaType::Audio, 1).unwrap();
    m.message_sent(id).unwrap();
    assert_eq!(*m.events.last().unwrap(), Event::SendResult { call_id: id, success: true });

    m.message_send_failure(id).unwrap();
    assert_eq!(*m.events.last().unwrap(), Event::SendResult { call_id: id, success: false });
    let s = m.session.as_ref().unwrap();
    assert!(s.send_failure_flagged);
    // The failure did not terminate the call.
    assert_eq!(s.state, SessionState::Proceeding);

    // Stale acknowledgments race local teardown and are absorbed.
    let events = m.events.len();
    m.message_sent(id + 1).expect("stale acknowledgment is absorbed");
    m.message_send_failure(id + 1).expect("stale failure report is absorbed");
    assert_eq!(m.events.len(), events);
}

#[test]
fn live_session_parameters_mutable_without_transition() {
    let mut m = CallManager::new();
    let id = m.call(7, CallMediaType::Audio, 1).unwrap();
    m.set_video_enable(true).unwrap();
    m.update_data_mode(DataMode::High).unwrap();
    let s = m.session.as_ref().unwrap();
    assert!(s.video_enabled);
    assert_eq!(s.data_mode, DataMode::High);
    assert_eq!(s.state, SessionState::Proceeding);

    m.received_hangup(id, HangupType::Busy, 2).unwrap();
    assert_eq!(m.set_video_enable(false), Err(CallError::InvalidState));
    assert_eq!(m.update_data_mode(DataMode::Low), Err(CallError::InvalidState));
}

#[test]
fn incoming_offer_creates_session_and_accept_connects() {
    let mut m = CallManager::new();
    m.received_offer(42, 9, 2, 5, CallMediaType::Video, 1, true, vec![7], vec![8])
        .expect("offer from idle starts an incoming call");
    let s = m.session.as_ref().unwrap();
    assert_eq!(s.call_id, 42);
    assert_eq!(s.state, SessionState::Proceeding);
    assert_eq!(s.offer_age_sec, Some(5));
    assert_eq!(s.remote_device, Some(2));
    assert_eq!(s.sender_identity_key, vec![7]);
    assert_eq!(s.receiver_identity_key, vec![8]);

    // Duplicate delivery of the same offer is tolerated unchanged.
    m.received_offer(42, 9, 2, 5, CallMediaType::Video, 1, true, vec![7], vec![8])
        .expect("duplicate offer is absorbed");
    // An offer for a different call while busy is dropped.
    assert_eq!(
        m.received_offer(43, 9, 2, 5, CallMediaType::Video, 1, true, vec![], vec![]),
        Err(CallError::UnknownCall)
    );

    m.proceed(42, DataMode::Normal, 0).unwrap();
    m.accept_call(42).unwrap();
    assert_eq!(session_state(&m), SessionState::Connected);
    // Accepting again is tolerated.
    m.accept_call(42).unwrap();
    assert_eq!(session_state(&m), SessionState::Connected);
}

#[test]
fn events_delivered_in_application_order() {
    let mut m = CallManager::new();
    let id = m.call(7, CallMediaType::Audio, 1).unwrap();
    m.proceed(id, DataMode::Normal, 0).unwrap();
    m.received_answer(id, 2, vec![], vec![]).unwrap();
    m.hangup().unwrap();
    let expected = vec![
        Event::CallState { call_id: id, state: SessionState::Proceeding },
        Event::CallState { call_id: id, state: SessionState::Connecting },
        Event::CallState { call_id: id, state: SessionState::Connected },
        Event::CallState {
            call_id: id,
            state: SessionState::Terminated(TerminationReason::LocalHangup),
        },
    ];
    assert_eq!(m.events, expected);
}

#[test]
fn take_events_drains_the_backlog_in_order() {
    let mut m = CallManager::new();
    let id = m.call(7, CallMediaType::Audio, 1).unwrap();
    m.proceed(id, DataMode::Normal, 0).unwrap();
    let drained = m.take_events();
    assert_eq!(
        drained,
        vec![
            Event::CallState { call_id: id, state: SessionState::Proceeding },
            Event::CallState { call_id: id, state: SessionState::Connecting },
        ]
    );
    assert!(m.events.is_empty());
    // New transitions start a fresh backlog.
    m.hangup().unwrap();
    assert_eq!(m.events.len(), 1);
}

#[test]
fn call_id_allocation_exhaustion_reports_failure() {
    let mut m = CallManager::new();
    m.next_call_id = u64::MAX;
    assert_eq!(m.call(7, CallMediaType::Audio, 1), Err(CallError::AllocationFailed));
    assert!(m.session.is_none());
}

#[test]
fn set_self_uuid_stores_identifier() {
    let mut m = CallManager::new();
    m.set_self_uuid(vec![1, 2, 3]).unwrap();
    assert_eq!(m.self_uuid, vec![1, 2, 3]);
    m.close();
    assert_eq!(m.set_self_uuid(vec![4]), Err(CallError::InvalidState));
}
