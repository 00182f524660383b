//! One group-call client: its lifecycle state, media flags, moderation
//! role, and the opaque authorization material used when joining.

use vstd::prelude::*;

use crate::events::GroupClientState;
use crate::types::{ClientId, DataMode};

verus! {

/// What a client was created for: an ordinary group call, or a call joined
/// through a shareable call link.  The byte buffers are opaque credential
/// material passed through to the external verification collaborator.
#[derive(Debug)]
pub enum GroupCallKind {
    Group {
        /// Identifies the group the call belongs to.
        group_id: Vec<u8>,
    },
    CallLink {
        /// Root key bytes of the call link.
        root_key: Vec<u8>,
        /// Credential presentation authenticating the local user.
        auth_presentation: Vec<u8>,
        /// Admin passkey; non-empty grants the administrative role.
        admin_passkey: Vec<u8>,
    },
}

/// One rendered-resolution demand for a remote video source, keyed by the
/// source's demux id.
#[derive(Clone, Copy, PartialEq, Eq, Structural, Debug)]
pub struct VideoRequest {
    pub demux_id: u64,
    pub width: u16,
    pub height: u16,
}

/// One active group-call client.  Many may coexist, each independent; the
/// registry keys them by [`ClientId`].
#[derive(Debug)]
pub struct GroupCallClient {
    /// Unique for the lifetime of the client; never reused after deletion.
    pub client_id: ClientId,
    pub kind: GroupCallKind,
    pub sfu_url: String,
    /// Extra key-derivation salt bound at creation.
    pub hkdf_extra_info: Vec<u8>,
    /// Period of audio-level sampling; absence disables sampling.
    pub audio_levels_interval_ms: Option<u32>,
    /// Borrowed media-transport handles; held by reference, never owned or
    /// dereferenced by the orchestrator.
    pub factory_handle: u64,
    pub audio_track_handle: u64,
    pub video_track_handle: u64,
    pub state: GroupClientState,
    pub audio_muted: bool,
    pub video_muted: bool,
    pub data_mode: DataMode,
    pub raised_hand: bool,
    /// Serialized group membership used to validate who may join; opaque.
    pub group_members: Vec<u8>,
    /// Membership proof verified by the external credential collaborator.
    pub membership_proof: Vec<u8>,
    /// Current UI rendering demand, one entry per remote source.
    pub video_requests: Vec<VideoRequest>,
    /// Requested height for the active speaker's stream.
    pub active_speaker_height: u32,
}

/// What a client looks like the moment it is created: state `Created`,
/// nothing muted, default bandwidth mode, and no authorization material or
/// rendering demand yet.
pub open spec fn fresh_client(
    c: GroupCallClient,
    client_id: ClientId,
    kind: GroupCallKind,
    sfu_url: String,
    hkdf_extra_info: Seq<u8>,
    audio_levels_interval_ms: Option<u32>,
    factory_handle: u64,
    audio_track_handle: u64,
    video_track_handle: u64,
) -> bool {
    &&& c.client_id == client_id
    &&& c.kind == kind
    &&& c.sfu_url == sfu_url
    &&& c.hkdf_extra_info@ == hkdf_extra_info
    &&& c.audio_levels_interval_ms == audio_levels_interval_ms
    &&& c.factory_handle == factory_handle
    &&& c.audio_track_handle == audio_track_handle
    &&& c.video_track_handle == video_track_handle
    &&& c.state == GroupClientState::Created
    &&& !c.audio_muted
    &&& !c.video_muted
    &&& c.data_mode == DataMode::Normal
    &&& !c.raised_hand
    &&& c.group_members@ == Seq::<u8>::empty()
    &&& c.membership_proof@ == Seq::<u8>::empty()
    &&& c.video_requests@ == Seq::<VideoRequest>::empty()
    &&& c.active_speaker_height == 0
}

impl GroupCallClient {
    /// Whether this client holds the administrative role: it was created
    /// through a call link with a non-empty admin passkey.
    pub open spec fn is_admin(self) -> bool {
        match self.kind {
            GroupCallKind::CallLink { admin_passkey, .. } => admin_passkey@.len() > 0,
            GroupCallKind::Group { .. } => false,
        }
    }

    /// Executable check for the administrative role.
    pub fn has_admin_rights(&self) -> (r: bool)
        ensures
            r == self.is_admin(),
    {
        match &self.kind {
            GroupCallKind::CallLink { admin_passkey, .. } => admin_passkey.len() > 0,
            GroupCallKind::Group { .. } => false,
        }
    }
}

} // verus!
