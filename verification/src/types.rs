//! Small value types threaded through the orchestrator: identifiers,
//! configuration enums, signaling reasons, and the error kind returned by
//! every fallible operation.

use vstd::prelude::*;

verus! {

/// Opaque 64-bit identifier correlating all signaling messages for one call
/// attempt.  Assigned by the call's initiator and immutable after creation.
pub type CallId = u64;

/// Identifies one device belonging to a user; a user may have several
/// devices, each signaling independently.
pub type DeviceId = u32;

/// Opaque handle identifying one active group-call client instance.
pub type ClientId = u32;

/// Sentinel returned to callers that expect a handle when client creation
/// fails; never identifies a live client.
pub const INVALID_CLIENT_ID: ClientId = 0;

/// Media type fixed at call creation; informs media setup and is not
/// renegotiated mid-call.
#[derive(Clone, Copy, PartialEq, Eq, Structural, Debug)]
pub enum CallMediaType {
    Audio,
    Video,
}

/// Bandwidth-adaptation mode; mutable at any time during an active call or
/// per group-call client.
#[derive(Clone, Copy, PartialEq, Eq, Structural, Debug)]
pub enum DataMode {
    Low,
    Normal,
    High,
}

/// Terminal signal kind for a one-to-one call, as sent by a remote device.
#[derive(Clone, Copy, PartialEq, Eq, Structural, Debug)]
pub enum HangupType {
    Normal,
    Accepted,
    Declined,
    Busy,
    NeedPermission,
}

/// Why an outgoing group ring is being cancelled.
#[derive(Clone, Copy, PartialEq, Eq, Structural, Debug)]
pub enum RingCancelReason {
    DeclinedOnAnotherDevice,
    Busy,
}

/// Who may join a call link's call without approval.
#[derive(Clone, Copy, PartialEq, Eq, Structural, Debug)]
pub enum LinkRestrictions {
    /// Anyone holding the link joins directly.
    Unrestricted,
    /// Joining requires an administrator's approval.
    AdminApproval,
}

/// Error kinds surfaced by the orchestrator.  Id-mismatch conditions are
/// reported as `UnknownCall`/`UnknownClient` and leave all state unchanged.
#[derive(Clone, Copy, PartialEq, Eq, Structural, Debug)]
pub enum CallError {
    /// The operation is not valid in the current lifecycle state.
    InvalidState,
    /// The call id does not match any tracked session; the event is dropped.
    UnknownCall,
    /// The client id does not resolve to a live group-call client.
    UnknownClient,
    /// A moderation action was attempted without an administrative role.
    PermissionDenied,
    /// The request id is already in use by an outstanding request.
    DuplicateRequest,
    /// A resource or identifier could not be allocated.
    AllocationFailed,
}

impl CallMediaType {
    /// Decodes the wire integer used by platform surfaces; unknown values
    /// fall back to `Audio`.
    pub fn from_code(code: i32) -> (r: CallMediaType)
        ensures
            r == (if code == 1 { CallMediaType::Video } else { CallMediaType::Audio }),
    {
        if code == 1 {
            CallMediaType::Video
        } else {
            CallMediaType::Audio
        }
    }
}

impl DataMode {
    /// Decodes the wire integer used by platform surfaces; unknown values
    /// fall back to `Normal`.
    pub fn from_code(code: i32) -> (r: DataMode)
        ensures
            r == (if code == 0 {
                DataMode::Low
            } else if code == 2 {
                DataMode::High
            } else {
                DataMode::Normal
            }),
    {
        if code == 0 {
            DataMode::Low
        } else if code == 2 {
            DataMode::High
        } else {
            DataMode::Normal
        }
    }
}

impl HangupType {
    /// Decodes the wire integer used by platform surfaces; an unknown value
    /// yields no hangup type and the caller applies its own default.
    pub fn from_code(code: i32) -> (r: Option<HangupType>)
        ensures
            r == (if code == 0 {
                Some(HangupType::Normal)
            } else if code == 1 {
                Some(HangupType::Accepted)
            } else if code == 2 {
                Some(HangupType::Declined)
            } else if code == 3 {
                Some(HangupType::Busy)
            } else if code == 4 {
                Some(HangupType::NeedPermission)
            } else {
                Option::<HangupType>::None
            }),
    {
        match code {
            0 => Some(HangupType::Normal),
            1 => Some(HangupType::Accepted),
            2 => Some(HangupType::Declined),
            3 => Some(HangupType::Busy),
            4 => Some(HangupType::NeedPermission),
            _ => Option::<HangupType>::None,
        }
    }
}

impl LinkRestrictions {
    /// Decodes the wire integer used by platform surfaces; a negative or
    /// unknown value yields no restriction change.
    pub fn from_code(code: i32) -> (r: Option<LinkRestrictions>)
        ensures
            r == (if code == 0 {
                Some(LinkRestrictions::Unrestricted)
            } else if code == 1 {
                Some(LinkRestrictions::AdminApproval)
            } else {
                Option::<LinkRestrictions>::None
            }),
    {
        match code {
            0 => Some(LinkRestrictions::Unrestricted),
            1 => Some(LinkRestrictions::AdminApproval),
            _ => Option::<LinkRestrictions>::None,
        }
    }
}

impl RingCancelReason {
    /// Decodes the wire integer used by platform surfaces; an unknown value
    /// yields no reason and the caller rejects the request.
    pub fn from_code(code: i32) -> (r: Option<RingCancelReason>)
        ensures
            r == (if code == 0 {
                Some(RingCancelReason::DeclinedOnAnotherDevice)
            } else if code == 1 {
                Some(RingCancelReason::Busy)
            } else {
                Option::<RingCancelReason>::None
            }),
    {
        match code {
            0 => Some(RingCancelReason::DeclinedOnAnotherDevice),
            1 => Some(RingCancelReason::Busy),
            _ => Option::<RingCancelReason>::None,
        }
    }
}

} // verus!
