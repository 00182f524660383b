//! Tests of the group-call client registry: lifecycle, deletion, media
//! flags, and moderation.

use call_core::events::{BroadcastKind, Event, GroupClientState, ModerationAction, ModerationTarget};
use call_core::group::VideoRequest;
use call_core::manager::CallManager;
use call_core::types::{CallError, DataMode, INVALID_CLIENT_ID};

fn group_client(m: &mut CallManager) -> u32 {
    m.create_group_call_client(vec![1, 2], String::from("sfu.example"), vec![], 0, 10, 11, 12)
        .expect("creation succeeds")
}

fn link_client(m: &mut CallManager, admin_passkey: Vec<u8>) -> u32 {
    m.create_call_link_call_client(
        String::from("sfu.example"),
        vec![3],
        vec![4],
        admin_passkey,
        vec![],
        0,
        10,
        11,
        12,
    )
    .expect("creation succeeds")
}

#[test]
fn join_requires_connect_first() {
    let mut m = CallManager::new();
    let id = group_client(&mut m);
    assert_ne!(id, INVALID_CLIENT_ID);

    assert_eq!(m.join(id), Err(CallError::InvalidState));
    assert_eq!(m.client_state(id), Ok(GroupClientState::Created));

    m.connect(id).unwrap();
    assert_eq!(m.client_state(id), Ok(GroupClientState::Connected));

    m.join(id).unwrap();
    assert_eq!(m.client_state(id), Ok(GroupClientState::Joined));
}

#[test]
fn connect_out_of_order_fails() {
    let mut m = CallManager::new();
    let id = group_client(&mut m);
    m.connect(id).unwrap();
    assert_eq!(m.connect(id), Err(CallError::InvalidState));
    m.join(id).unwrap();
    assert_eq!(m.join(id), Err(CallError::InvalidState));
}

#[test]
fn delete_requires_ended_and_retires_the_id() {
    let mut m = CallManager::new();
    let id = group_client(&mut m);
    m.connect(id).unwrap();
    m.join(id).unwrap();

    // Not yet ended: deletion fails and the client is untouched.
    assert_eq!(m.delete_group_call_client(id), Err(CallError::InvalidState));
    assert_eq!(m.client_state(id), Ok(GroupClientState::Joined));

    m.disconnect(id).unwrap();
    assert_eq!(m.client_state(id), Ok(GroupClientState::Ended));
    m.delete_group_call_client(id).unwrap();

    // Every operation referencing the deleted id now fails.
    assert_eq!(m.client_state(id), Err(CallError::UnknownClient));
    assert_eq!(m.connect(id), Err(CallError::UnknownClient));
    assert_eq!(m.set_data_mode(id, DataMode::Low), Err(CallError::UnknownClient));
    assert_eq!(m.delete_group_call_client(id), Err(CallError::UnknownClient));

    // The id is never reused for a new client.
    let fresh = group_client(&mut m);
    assert_ne!(fresh, id);
    assert_eq!(m.client_state(id), Err(CallError::UnknownClient));
}

#[test]
fn leave_transitions_toward_ended() {
    let mut m = CallManager::new();
    let id = group_client(&mut m);
    assert_eq!(m.leave(id), Err(CallError::InvalidState));
    m.connect(id).unwrap();
    assert_eq!(m.leave(id), Err(CallError::InvalidState));
    m.join(id).unwrap();
    m.leave(id).unwrap();
    assert_eq!(m.client_state(id), Ok(GroupClientState::Ended));
    assert_eq!(m.disconnect(id), Err(CallError::InvalidState));
}

#[test]
fn several_clients_are_independent() {
    let mut m = CallManager::new();
    let a = group_client(&mut m);
    let b = group_client(&mut m);
    assert_ne!(a, b);
    m.connect(a).unwrap();
    assert_eq!(m.client_state(a), Ok(GroupClientState::Connected));
    assert_eq!(m.client_state(b), Ok(GroupClientState::Created));
    m.connect(b).unwrap();
    m.join(b).unwrap();
    assert_eq!(m.client_state(a), Ok(GroupClientState::Connected));
    assert_eq!(m.client_state(b), Ok(GroupClientState::Joined));
}

#[test]
fn mute_flags_apply_in_any_lifecycle_state() {
    let mut m = CallManager::new();
    let id = group_client(&mut m);
    m.set_outgoing_audio_muted(id, true).unwrap();
    m.set_outgoing_video_muted(id, true).unwrap();
    assert!(m.clients[0].audio_muted);
    assert!(m.clients[0].video_muted);

    m.connect(id).unwrap();
    m.join(id).unwrap();
    m.disconnect(id).unwrap();
    // Still applicable once ended.
    m.set_outgoing_audio_muted(id, false).unwrap();
    m.set_data_mode(id, DataMode::High).unwrap();
    assert!(!m.clients[0].audio_muted);
    assert_eq!(m.clients[0].data_mode, DataMode::High);
    assert_eq!(m.client_state(id), Ok(GroupClientState::Ended));
}

#[test]
fn moderation_requires_admin_role() {
    let mut m = CallManager::new();
    let plain = group_client(&mut m);
    assert_eq!(m.approve_user(plain, vec![9]), Err(CallError::PermissionDenied));
    assert_eq!(m.deny_user(plain, vec![9]), Err(CallError::PermissionDenied));
    assert_eq!(m.remove_client(plain, 77), Err(CallError::PermissionDenied));
    assert_eq!(m.block_client(plain, 77), Err(CallError::PermissionDenied));

    // A call-link client without an admin passkey has no admin role either.
    let non_admin = link_client(&mut m, vec![]);
    assert_eq!(m.approve_user(non_admin, vec![9]), Err(CallError::PermissionDenied));

    let admin = link_client(&mut m, vec![0x5e]);
    m.approve_user(admin, vec![9]).unwrap();
    assert_eq!(
        *m.events.last().unwrap(),
        Event::Moderation {
            client_id: admin,
            action: ModerationAction::Approve,
            target: ModerationTarget::User { user_id: vec![9] },
        }
    );
    m.deny_user(admin, vec![8, 7]).unwrap();
    assert_eq!(
        *m.events.last().unwrap(),
        Event::Moderation {
            client_id: admin,
            action: ModerationAction::Deny,
            target: ModerationTarget::User { user_id: vec![8, 7] },
        }
    );
    m.remove_client(admin, 77).unwrap();
    assert_eq!(
        *m.events.last().unwrap(),
        Event::Moderation {
            client_id: admin,
            action: ModerationAction::Remove,
            target: ModerationTarget::Participant { demux_id: 77 },
        }
    );
    m.block_client(admin, 78).unwrap();
    assert_eq!(
        *m.events.last().unwrap(),
        Event::Moderation {
            client_id: admin,
            action: ModerationAction::Block,
            target: ModerationTarget::Participant { demux_id: 78 },
        }
    );
}

#[test]
fn membership_material_is_stored() {
    let mut m = CallManager::new();
    let id = group_client(&mut m);
    m.set_group_members(id, vec![1, 1, 2]).unwrap();
    m.set_membership_proof(id, vec![3, 4]).unwrap();
    assert_eq!(m.clients[0].group_members, vec![1, 1, 2]);
    assert_eq!(m.clients[0].membership_proof, vec![3, 4]);
}

#[test]
fn raise_hand_sets_flag_and_broadcasts() {
    let mut m = CallManager::new();
    let id = group_client(&mut m);
    m.raise_hand(id, true).unwrap();
    assert!(m.clients[0].raised_hand);
    assert_eq!(
        *m.events.last().unwrap(),
        Event::Broadcast { client_id: id, kind: BroadcastKind::HandRaised(true) }
    );
    m.raise_hand(id, false).unwrap();
    assert!(!m.clients[0].raised_hand);
}

#[test]
fn react_broadcasts_without_state_impact() {
    let mut m = CallManager::new();
    let id = group_client(&mut m);
    m.react(id, String::from("+1")).unwrap();
    assert_eq!(
        *m.events.last().unwrap(),
        Event::Broadcast {
            client_id: id,
            kind: BroadcastKind::Reaction { value: String::from("+1") },
        }
    );
    assert_eq!(m.client_state(id), Ok(GroupClientState::Created));
    assert_eq!(m.react(id + 1, String::from("+1")), Err(CallError::UnknownClient));
}

#[test]
fn resend_media_keys_requires_joined() {
    let mut m = CallManager::new();
    let id = group_client(&mut m);
    assert_eq!(m.resend_media_keys(id), Err(CallError::InvalidState));
    m.connect(id).unwrap();
    m.join(id).unwrap();
    m.resend_media_keys(id).unwrap();
    assert_eq!(*m.events.last().unwrap(), Event::MediaKeysResent { client_id: id });
}

#[test]
fn group_ring_requires_joined() {
    let mut m = CallManager::new();
    let id = group_client(&mut m);
    assert_eq!(m.group_ring(id, None), Err(CallError::InvalidState));
    m.connect(id).unwrap();
    m.join(id).unwrap();
    m.group_ring(id, Some(vec![1])).unwrap();
    assert_eq!(
        *m.events.last().unwrap(),
        Event::Broadcast {
            client_id: id,
            kind: BroadcastKind::Ring { recipient: Some(vec![1]) },
        }
    );
}

#[test]
fn request_video_records_rendering_demand() {
    let mut m = CallManager::new();
    let id = group_client(&mut m);
    let demand = vec![
        VideoRequest { demux_id: 100, width: 320, height: 240 },
        VideoRequest { demux_id: 200, width: 1280, height: 720 },
    ];
    m.request_video(id, demand.clone(), 720).unwrap();
    assert_eq!(m.clients[0].video_requests, demand);
    assert_eq!(m.clients[0].active_speaker_height, 720);
}

#[test]
fn client_id_allocation_exhaustion_reports_failure() {
    let mut m = CallManager::new();
    m.next_client_id = u32::MAX;
    assert_eq!(
        m.create_group_call_client(vec![], String::new(), vec![], 0, 1, 2, 3),
        Err(CallError::AllocationFailed)
    );
    assert!(m.clients.is_empty());
}

#[test]
fn connect_reports_intermediate_transition_in_order() {
    let mut m = CallManager::new();
    let id = group_client(&mut m);
    m.connect(id).unwrap();
    m.join(id).unwrap();
    let expected = vec![
        Event::GroupState { client_id: id, state: GroupClientState::Created },
        Event::GroupState { client_id: id, state: GroupClientState::Connecting },
        Event::GroupState { client_id: id, state: GroupClientState::Connected },
        Event::GroupState { client_id: id, state: GroupClientState::Joining },
        Event::GroupState { client_id: id, state: GroupClientState::Joined },
    ];
    assert_eq!(m.events, expected);
}

#[test]
fn creation_stores_configuration() {
    let mut m = CallManager::new();
    let id = m
        .create_group_call_client(
            vec![0xa1; 2],
            String::from("https://sfu.example"),
            vec![9, 9],
            150,
            21,
            22,
            23,
        )
        .unwrap();
    let c = &m.clients[0];
    assert_eq!(c.client_id, id);
    assert_eq!(c.sfu_url, "https://sfu.example");
    assert_eq!(c.hkdf_extra_info, vec![9, 9]);
    assert_eq!(c.audio_levels_interval_ms, Some(150));
    assert_eq!((c.factory_handle, c.audio_track_handle, c.video_track_handle), (21, 22, 23));
    assert_eq!(c.data_mode, DataMode::Normal);
}
