//! Events emitted toward the completion/delegate sink.
//!
//! Each state-mutating operation appends the events it caused to the
//! manager's event sequence, so delivery order to the sink always matches
//! the order in which transitions were applied internally.  An event
//! carries everything the delegate needs to act: an outbound request event
//! carries the full authenticated request, a moderation event its target,
//! a completion the response body.

use vstd::prelude::*;

use crate::ring::RingId;
use crate::session::SessionState;
use crate::types::{CallId, ClientId, DeviceId, LinkRestrictions, RingCancelReason};

verus! {

/// Lifecycle state of one group-call client.  `Reconnecting` is entered by
/// the media transport's observer when an established connection drops, a
/// path that belongs to the transport collaborator; `leave` handles it like
/// the joined states.
#[derive(Clone, Copy, PartialEq, Eq, Structural, Debug)]
pub enum GroupClientState {
    Created,
    Connecting,
    Connected,
    Joining,
    Joined,
    Reconnecting,
    Ended,
}

/// A moderation action performed by an administrator of a client.
#[derive(Clone, Copy, PartialEq, Eq, Structural, Debug)]
pub enum ModerationAction {
    Approve,
    Deny,
    Remove,
    Block,
}

/// Whom a moderation action concerns.
#[derive(PartialEq, Eq, Debug)]
pub enum ModerationTarget {
    /// A user asking to join, identified by opaque user-id bytes.
    User { user_id: Vec<u8> },
    /// A participant already in the call, identified by demux id — a
    /// per-session media identity distinct from any client id.
    Participant { demux_id: u64 },
}

/// A lightweight signal broadcast to the other participants of a group
/// call, with its payload.
#[derive(PartialEq, Eq, Debug)]
pub enum BroadcastKind {
    /// A reaction, with the value shown to the others.
    Reaction { value: String },
    /// The local user raised or lowered their hand.
    HandRaised(bool),
    /// A ring, aimed at one recipient or at the whole group.
    Ring { recipient: Option<Vec<u8>> },
}

/// One event owed to the delegate sink, in the order transitions were
/// applied.  Byte buffers are opaque credential or payload material passed
/// through uninterpreted.
#[derive(PartialEq, Eq, Debug)]
pub enum Event {
    /// The one-to-one session entered the given state.
    CallState { call_id: CallId, state: SessionState },
    /// The one-to-one session was discarded by a forced reset.
    CallReset { call_id: CallId },
    /// An outbound signaling message was acknowledged or failed.
    SendResult { call_id: CallId, success: bool },
    /// A group-call client entered the given state.
    GroupState { client_id: ClientId, state: GroupClientState },
    /// A moderation action was issued by the given client against the
    /// given target.
    Moderation { client_id: ClientId, action: ModerationAction, target: ModerationTarget },
    /// A fresh media-key distribution round was requested.
    MediaKeysResent { client_id: ClientId },
    /// A lightweight signal was broadcast by the given client.
    Broadcast { client_id: ClientId, kind: BroadcastKind },
    /// An outgoing group ring was cancelled.
    RingCancelled { group_id: Vec<u8>, ring_id: RingId, reason: RingCancelReason },
    /// An authenticated call-link read is owed to the external service.
    LinkReadRequested {
        request_id: u64,
        sfu_url: String,
        auth_credential_presentation: Vec<u8>,
        root_key: Vec<u8>,
    },
    /// An authenticated call-link creation is owed to the external service.
    LinkCreateRequested {
        request_id: u64,
        sfu_url: String,
        create_credential_presentation: Vec<u8>,
        root_key: Vec<u8>,
        admin_passkey: Vec<u8>,
        call_link_public_params: Vec<u8>,
    },
    /// An authenticated call-link mutation is owed to the external service;
    /// absent options leave the corresponding attribute untouched.
    LinkUpdateRequested {
        request_id: u64,
        sfu_url: String,
        auth_credential_presentation: Vec<u8>,
        root_key: Vec<u8>,
        admin_passkey: Vec<u8>,
        new_name: Option<String>,
        new_restrictions: Option<LinkRestrictions>,
        new_revoked: Option<bool>,
    },
    /// A peek of an ordinary group call is owed to the SFU.
    GroupPeekRequested {
        request_id: u64,
        sfu_url: String,
        membership_proof: Vec<u8>,
        group_members: Vec<u8>,
    },
    /// An authenticated peek of a call link's call is owed to the SFU.
    LinkPeekRequested {
        request_id: u64,
        sfu_url: String,
        auth_credential_presentation: Vec<u8>,
        root_key: Vec<u8>,
    },
    /// The outstanding request completed; the waiting operation resumes
    /// with the HTTP status and the response body.
    RequestCompleted { request_id: u64, status_code: i32, body: Vec<u8> },
    /// The outstanding request failed without a response.
    RequestFailed { request_id: u64 },
    /// An opaque call message arrived and is routed by sender, sender
    /// device and local device, with its age as freshness input.
    CallMessage {
        sender_uuid: Vec<u8>,
        sender_device: DeviceId,
        local_device: DeviceId,
        message: Vec<u8>,
        age_sec: u64,
    },
}

} // verus!
