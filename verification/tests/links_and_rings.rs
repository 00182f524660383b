//! Tests of the request correlator, the call-link flows, ring ids, and the
//! wire-code decoders.

use call_core::events::Event;
use call_core::manager::{CallManager, RequestKind};
use call_core::ring::RingId;
use call_core::types::{
    CallError, CallMediaType, DataMode, HangupType, LinkRestrictions, RingCancelReason,
};

#[test]
fn duplicate_read_call_link_request_id_fails_while_pending() {
    let mut m = CallManager::new();
    m.read_call_link(String::from("sfu.example"), vec![1], vec![2], 9).unwrap();
    assert_eq!(
        m.read_call_link(String::from("sfu.example"), vec![1], vec![2], 9),
        Err(CallError::DuplicateRequest)
    );
    assert_eq!(m.pending.len(), 1);

    // Once resolved, the id may be used again.
    m.received_http_response(9, 200, vec![]).unwrap();
    assert_eq!(m.pending.len(), 0);
    m.read_call_link(String::from("sfu.example"), vec![1], vec![2], 9).unwrap();
}

#[test]
fn request_ids_are_unique_across_kinds() {
    let mut m = CallManager::new();
    m.peek_group_call(5, String::from("sfu.example"), vec![], vec![]).unwrap();
    assert_eq!(
        m.create_call_link(String::from("sfu.example"), vec![], vec![], vec![], vec![], 5),
        Err(CallError::DuplicateRequest)
    );
    assert_eq!(
        m.update_call_link(
            String::from("sfu.example"),
            vec![],
            vec![],
            vec![],
            Some(String::from("name")),
            Some(LinkRestrictions::AdminApproval),
            Some(false),
            5,
        ),
        Err(CallError::DuplicateRequest)
    );
    assert_eq!(
        m.peek_call_link_call(5, String::from("sfu.example"), vec![], vec![]),
        Err(CallError::DuplicateRequest)
    );
    assert_eq!(m.pending.len(), 1);
}

#[test]
fn responses_resolve_their_request_and_reach_the_delegate() {
    let mut m = CallManager::new();
    m.peek_group_call(5, String::from("sfu.example"), vec![], vec![]).unwrap();
    m.read_call_link(String::from("sfu.example"), vec![], vec![], 6).unwrap();
    assert_eq!(m.pending[0].kind, RequestKind::PeekQuery);
    assert_eq!(m.pending[1].kind, RequestKind::HttpCorrelated);

    m.received_http_response(5, 200, vec![1, 2, 3]).unwrap();
    assert_eq!(m.pending.len(), 1);
    assert_eq!(m.pending[0].request_id, 6);
    assert_eq!(
        *m.events.last().unwrap(),
        Event::RequestCompleted { request_id: 5, status_code: 200, body: vec![1, 2, 3] }
    );

    m.http_request_failed(6).unwrap();
    assert!(m.pending.is_empty());
    assert_eq!(*m.events.last().unwrap(), Event::RequestFailed { request_id: 6 });
}

#[test]
fn link_requests_reach_the_delegate_with_their_credentials() {
    let mut m = CallManager::new();
    m.read_call_link(String::from("sfu.example"), vec![1], vec![2], 9).unwrap();
    assert_eq!(
        *m.events.last().unwrap(),
        Event::LinkReadRequested {
            request_id: 9,
            sfu_url: String::from("sfu.example"),
            auth_credential_presentation: vec![1],
            root_key: vec![2],
        }
    );

    m.create_call_link(String::from("sfu.example"), vec![3], vec![4], vec![5], vec![6], 10)
        .unwrap();
    assert_eq!(
        *m.events.last().unwrap(),
        Event::LinkCreateRequested {
            request_id: 10,
            sfu_url: String::from("sfu.example"),
            create_credential_presentation: vec![3],
            root_key: vec![4],
            admin_passkey: vec![5],
            call_link_public_params: vec![6],
        }
    );

    m.update_call_link(
        String::from("sfu.example"),
        vec![7],
        vec![8],
        vec![9],
        Some(String::from("team call")),
        Some(LinkRestrictions::AdminApproval),
        Some(false),
        11,
    )
    .unwrap();
    assert_eq!(
        *m.events.last().unwrap(),
        Event::LinkUpdateRequested {
            request_id: 11,
            sfu_url: String::from("sfu.example"),
            auth_credential_presentation: vec![7],
            root_key: vec![8],
            admin_passkey: vec![9],
            new_name: Some(String::from("team call")),
            new_restrictions: Some(LinkRestrictions::AdminApproval),
            new_revoked: Some(false),
        }
    );

    m.peek_group_call(12, String::from("sfu.example"), vec![10], vec![11]).unwrap();
    assert_eq!(
        *m.events.last().unwrap(),
        Event::GroupPeekRequested {
            request_id: 12,
            sfu_url: String::from("sfu.example"),
            membership_proof: vec![10],
            group_members: vec![11],
        }
    );

    m.peek_call_link_call(13, String::from("sfu.example"), vec![12], vec![13]).unwrap();
    assert_eq!(
        *m.events.last().unwrap(),
        Event::LinkPeekRequested {
            request_id: 13,
            sfu_url: String::from("sfu.example"),
            auth_credential_presentation: vec![12],
            root_key: vec![13],
        }
    );

    // A refused duplicate issues nothing.
    let events = m.events.len();
    assert_eq!(
        m.read_call_link(String::from("sfu.example"), vec![1], vec![2], 9),
        Err(CallError::DuplicateRequest)
    );
    assert_eq!(m.events.len(), events);
}

#[test]
fn stale_response_is_absorbed_as_a_no_op() {
    let mut m = CallManager::new();
    let events = m.events.len();
    m.received_http_response(42, 404, vec![]).expect("stale response is not an error");
    m.http_request_failed(42).expect("stale failure is not an error");
    assert_eq!(m.events.len(), events);
    assert!(m.pending.is_empty());
}

#[test]
fn pending_requests_are_stamped_in_registration_order() {
    let mut m = CallManager::new();
    m.read_call_link(String::from("sfu.example"), vec![], vec![], 1).unwrap();
    m.peek_group_call(2, String::from("sfu.example"), vec![], vec![]).unwrap();
    assert!(m.pending[0].created_at < m.pending[1].created_at);
    assert!(m.request_pending(1));
    assert!(m.request_pending(2));
    assert!(!m.request_pending(3));
}

#[test]
fn closed_orchestrator_refuses_link_operations() {
    let mut m = CallManager::new();
    m.close();
    assert_eq!(
        m.read_call_link(String::from("sfu.example"), vec![], vec![], 1),
        Err(CallError::InvalidState)
    );
    assert_eq!(
        m.peek_group_call(2, String::from("sfu.example"), vec![], vec![]),
        Err(CallError::InvalidState)
    );
}

#[test]
fn cancel_group_ring_reaches_the_delegate() {
    let mut m = CallManager::new();
    let ring_id = RingId::from_era_id("era-7");
    m.cancel_group_ring(vec![1, 2], ring_id, RingCancelReason::Busy).unwrap();
    assert_eq!(
        *m.events.last().unwrap(),
        Event::RingCancelled { group_id: vec![1, 2], ring_id, reason: RingCancelReason::Busy }
    );
}

#[test]
fn received_call_message_is_routed_with_its_payload() {
    let mut m = CallManager::new();
    m.received_call_message(vec![1], 4, 1, vec![9, 9], 30).unwrap();
    assert_eq!(
        *m.events.last().unwrap(),
        Event::CallMessage {
            sender_uuid: vec![1],
            sender_device: 4,
            local_device: 1,
            message: vec![9, 9],
            age_sec: 30,
        }
    );
}

#[test]
fn ring_id_is_deterministic() {
    let a = RingId::from_era_id("era-2024-01");
    let b = RingId::from_era_id("era-2024-01");
    assert_eq!(a, b);

    let c = RingId::from_era_id("era-2024-02");
    assert_ne!(a, c);
    assert_ne!(RingId::from_era_id(""), RingId::from_era_id("x"));
}

#[test]
fn ring_id_matches_the_documented_hash() {
    // The empty string hashes to the offset basis; one byte folds once.
    assert_eq!(RingId::from_era_id("").value, 0xcbf2_9ce4_8422_2325);
    assert_eq!(
        RingId::from_era_id("a").value,
        (0xcbf2_9ce4_8422_2325u64 ^ 0x61).wrapping_mul(0x0000_0100_0000_01b3)
    );
    assert_eq!(RingId::from_era_id("a").value, 0xaf63_dc4c_8601_ec8c);
}

#[test]
fn wire_codes_decode_as_documented() {
    assert_eq!(CallMediaType::from_code(0), CallMediaType::Audio);
    assert_eq!(CallMediaType::from_code(1), CallMediaType::Video);
    assert_eq!(CallMediaType::from_code(99), CallMediaType::Audio);

    assert_eq!(DataMode::from_code(0), DataMode::Low);
    assert_eq!(DataMode::from_code(1), DataMode::Normal);
    assert_eq!(DataMode::from_code(2), DataMode::High);
    assert_eq!(DataMode::from_code(-1), DataMode::Normal);

    assert_eq!(HangupType::from_code(0), Some(HangupType::Normal));
    assert_eq!(HangupType::from_code(1), Some(HangupType::Accepted));
    assert_eq!(HangupType::from_code(2), Some(HangupType::Declined));
    assert_eq!(HangupType::from_code(3), Some(HangupType::Busy));
    assert_eq!(HangupType::from_code(4), Some(HangupType::NeedPermission));
    assert_eq!(HangupType::from_code(5), None);

    assert_eq!(RingCancelReason::from_code(0), Some(RingCancelReason::DeclinedOnAnotherDevice));
    assert_eq!(RingCancelReason::from_code(1), Some(RingCancelReason::Busy));
    assert_eq!(RingCancelReason::from_code(2), None);

    assert_eq!(LinkRestrictions::from_code(0), Some(LinkRestrictions::Unrestricted));
    assert_eq!(LinkRestrictions::from_code(1), Some(LinkRestrictions::AdminApproval));
    assert_eq!(LinkRestrictions::from_code(-1), None);
}
