//! The single one-to-one call session: its lifecycle state, media
//! configuration, buffered ICE candidates, and the identity key material
//! carried by offers and answers.

use vstd::prelude::*;

use crate::types::{CallId, CallMediaType, DataMode, DeviceId, HangupType};

verus! {

/// Why a session reached `Terminated`.
#[derive(Clone, Copy, PartialEq, Eq, Structural, Debug)]
pub enum TerminationReason {
    /// The local user hung up.
    LocalHangup,
    /// A remote device hung up, with the signaled type and its device id.
    RemoteHangup { hangup: HangupType, device: DeviceId },
    /// A remote device reported busy.
    RemoteBusy,
    /// A critical signaling message could not be sent and the caller aborted.
    SendFailure,
    /// The orchestrator was force-reset while the call was live.
    Reset,
    /// The caller dropped the call by id.
    Dropped,
}

/// Lifecycle state of the session.  `Idle` is represented by the absence of
/// a session; a present session starts in `Proceeding`.  `Reconnecting` is
/// entered by the media transport's observer when an established connection
/// drops, a path that belongs to the transport collaborator; answers and
/// local acceptance handle it like `Connecting`.
#[derive(Clone, Copy, PartialEq, Eq, Structural, Debug)]
pub enum SessionState {
    Proceeding,
    Connecting,
    Reconnecting,
    Connected,
    Terminated(TerminationReason),
}

/// Who initiated the call.
#[derive(Clone, Copy, PartialEq, Eq, Structural, Debug)]
pub enum CallDirection {
    Outgoing,
    Incoming,
}

/// One ICE candidate received from a remote device.  The payload is opaque
/// to the orchestrator and handed to the media transport unchanged.
#[derive(Clone, Debug)]
pub struct IceCandidate {
    pub device: DeviceId,
    pub opaque: Vec<u8>,
}

/// The singular one-to-one call context.  At most one session exists per
/// orchestrator; creating another while this one is non-terminal fails.
#[derive(Debug)]
pub struct CallSession {
    /// Correlates all signaling for this call attempt.
    pub call_id: CallId,
    /// Opaque handle to the platform's remote-peer object; never dereferenced.
    pub remote_peer: u64,
    pub direction: CallDirection,
    pub media_type: CallMediaType,
    /// The remote device the session is signaling with: the sender of an
    /// incoming offer, or whichever device answered an outgoing call.
    pub remote_device: Option<DeviceId>,
    pub local_device: DeviceId,
    /// Whether the local device is the user's primary device.
    pub local_primary: bool,
    pub data_mode: DataMode,
    pub state: SessionState,
    /// Period of audio-level sampling; absence disables sampling.
    pub audio_levels_interval_ms: Option<u32>,
    pub video_enabled: bool,
    /// Candidates that arrived before the transport existed, in arrival order.
    pub pending_ice: Vec<IceCandidate>,
    /// Candidates handed to the transport, in the order they were applied.
    pub applied_ice: Vec<IceCandidate>,
    /// Age of the received offer, stored for the caller's freshness policy.
    pub offer_age_sec: Option<u64>,
    /// Identity key material forwarded to the caller's verification step.
    pub sender_identity_key: Vec<u8>,
    pub receiver_identity_key: Vec<u8>,
    /// Set when an outbound signaling message failed; surfaced, not fatal.
    pub send_failure_flagged: bool,
}

impl CallSession {
    /// Whether the session has reached a terminal state.
    pub open spec fn is_terminal(self) -> bool {
        self.state is Terminated
    }

    /// Executable check for a terminal state.
    pub fn terminal(&self) -> (r: bool)
        ensures
            r == self.is_terminal(),
    {
        matches!(self.state, SessionState::Terminated(_))
    }
}

/// What a session looks like the moment it is created, before any further
/// signaling: state `Proceeding`, default media configuration, no buffered
/// candidates, and the identity key material carried by the triggering
/// message.
pub open spec fn fresh_session(
    s: CallSession,
    call_id: CallId,
    remote_peer: u64,
    direction: CallDirection,
    media_type: CallMediaType,
    remote_device: Option<DeviceId>,
    local_device: DeviceId,
    local_primary: bool,
    offer_age_sec: Option<u64>,
    sender_identity_key: Seq<u8>,
    receiver_identity_key: Seq<u8>,
) -> bool {
    &&& s.call_id == call_id
    &&& s.remote_peer == remote_peer
    &&& s.direction == direction
    &&& s.media_type == media_type
    &&& s.remote_device == remote_device
    &&& s.local_device == local_device
    &&& s.local_primary == local_primary
    &&& s.data_mode == DataMode::Normal
    &&& s.state == SessionState::Proceeding
    &&& s.audio_levels_interval_ms is None
    &&& s.video_enabled == (media_type is Video)
    &&& s.pending_ice@ == Seq::<IceCandidate>::empty()
    &&& s.applied_ice@ == Seq::<IceCandidate>::empty()
    &&& s.offer_age_sec == offer_age_sec
    &&& s.sender_identity_key@ == sender_identity_key
    &&& s.receiver_identity_key@ == receiver_identity_key
    &&& s.send_failure_flagged == false
}

/// The candidates of one signaling message as they are buffered or applied:
/// each payload tagged with the sending device, in the order received.
pub open spec fn ice_seq(candidates: Seq<Vec<u8>>, device: DeviceId) -> Seq<IceCandidate> {
    candidates.map_values(|c: Vec<u8>| IceCandidate { device: device, opaque: c })
}

/// The state a remote hangup leaves a session in: terminal states absorb the
/// event unchanged, every other state becomes `Terminated` with the given
/// reason.  Applying the same hangup twice therefore changes nothing after
/// the first application.
pub open spec fn hangup_applied(state: SessionState, reason: TerminationReason) -> SessionState {
    match state {
        SessionState::Terminated(_) => state,
        _ => SessionState::Terminated(reason),
    }
}

} // verus!
