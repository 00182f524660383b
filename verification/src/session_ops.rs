//! Operations of the one-to-one call state machine: local commands and
//! remote signaling events, each all-or-nothing and each described by a
//! case-complete contract over the previous state.

use vstd::prelude::*;

use crate::events::Event;
use crate::manager::CallManager;
use crate::session::{
    fresh_session, hangup_applied, ice_seq, CallDirection, CallSession, IceCandidate, SessionState,
    TerminationReason,
};
use crate::types::{CallError, CallId, CallMediaType, DataMode, DeviceId, HangupType};

verus! {

/// Converts one signaling message's candidate payloads into the buffered
/// form, preserving their order.
fn build_ice_batch(candidates: Vec<Vec<u8>>, device: DeviceId) -> (r: Vec<IceCandidate>)
    ensures
        r@ == ice_seq(candidates@, device),
{
    let n = candidates.len();
    let ghost orig: Seq<Vec<u8>> = candidates@;
    let mut cs = candidates;
    let mut out: Vec<IceCandidate> = Vec::new();
    let mut k: usize = 0;
    proof {
        assert(orig.take(0) =~= Seq::<Vec<u8>>::empty());
        assert(out@ =~= ice_seq(orig.take(0), device));
    }
    while cs.len() > 0
        invariant
            k + cs@.len() == n,
            n == orig.len(),
            cs@ =~= orig.subrange(k as int, orig.len() as int),
            out@ == ice_seq(orig.take(k as int), device),
        decreases cs@.len(),
    {
        let c = cs.remove(0);
        proof {
            assert(c == orig[k as int]);
        }
        out.push(IceCandidate { device, opaque: c });
        proof {
            assert(orig.take(k + 1).map_values(
                |cc: Vec<u8>| IceCandidate { device: device, opaque: cc },
            ) =~= orig.take(k as int).map_values(
                |cc: Vec<u8>| IceCandidate { device: device, opaque: cc },
            ).push(IceCandidate { device: device, opaque: orig[k as int] }));
            assert(cs@ =~= orig.subrange(k + 1, orig.len() as int));
        }
        k = k + 1;
    }
    proof {
        assert(orig.take(orig.len() as int) =~= orig);
    }
    out
}

impl CallManager {
    /// Stores the local user's identifier.
    pub fn set_self_uuid(&mut self, uuid: Vec<u8>) -> (r: Result<(), CallError>)
        requires
            old(self).wf(),
        ensures
            final(self).wf(),
            CallManager::ids_evolve(*old(self), *final(self)),
            !old(self).open ==> r == Err::<(), CallError>(CallError::InvalidState)
                && CallManager::state_eq(*old(self), *final(self)),
            old(self).open ==> {
                &&& r == Ok::<(), CallError>(())
                &&& final(self).self_uuid == uuid
                &&& final(self).session == old(self).session
                &&& final(self).next_call_id == old(self).next_call_id
                &&& final(self).clients == old(self).clients
                &&& final(self).next_client_id == old(self).next_client_id
                &&& final(self).pending == old(self).pending
                &&& final(self).clock == old(self).clock
                &&& final(self).open
                &&& final(self).events == old(self).events
            },
    {
        if !self.open {
            return Err(CallError::InvalidState);
        }
        self.self_uuid = uuid;
        Ok(())
    }

    /// Starts an outgoing call.  Only valid from idle: if a session exists
    /// and has not reached a terminal state this fails with `InvalidState`,
    /// so at most one call is ever active.  On success a fresh call id is
    /// allocated, the session enters `Proceeding`, and the transition is
    /// owed to the delegate.
    pub fn call(&mut self, remote_peer: u64, media_type: CallMediaType, local_device: DeviceId) -> (
        r: Result<CallId, CallError>)
        requires
            old(self).wf(),
        ensures
            final(self).wf(),
            CallManager::ids_evolve(*old(self), *final(self)),
            !old(self).open ==> r == Err::<CallId, CallError>(CallError::InvalidState)
                && CallManager::state_eq(*old(self), *final(self)),
            old(self).open && old(self).has_active_session() ==> r == Err::<CallId, CallError>(
                CallError::InvalidState,
            ) && CallManager::state_eq(*old(self), *final(self)),
            old(self).open && !old(self).has_active_session() && old(self).next_call_id
                == u64::MAX ==> r == Err::<CallId, CallError>(CallError::AllocationFailed)
                && CallManager::state_eq(*old(self), *final(self)),
            old(self).open && !old(self).has_active_session() && old(self).next_call_id
                < u64::MAX ==> {
                &&& r == Ok::<CallId, CallError>(old(self).next_call_id)
                &&& final(self).session matches Some(s) && fresh_session(
                    s,
                    old(self).next_call_id,
                    remote_peer,
                    CallDirection::Outgoing,
                    media_type,
                    Option::<DeviceId>::None,
                    local_device,
                    true,
                    Option::<u64>::None,
                    Seq::<u8>::empty(),
                    Seq::<u8>::empty(),
                )
                &&& final(self).next_call_id == old(self).next_call_id + 1
                &&& final(self).open == old(self).open
                &&& final(self).self_uuid == old(self).self_uuid
                &&& final(self).clients == old(self).clients
                &&& final(self).next_client_id == old(self).next_client_id
                &&& final(self).pending == old(self).pending
                &&& final(self).clock == old(self).clock
                &&& final(self).events@ == old(self).events@.push(
                    Event::CallState {
                        call_id: old(self).next_call_id,
                        state: SessionState::Proceeding,
                    },
                )
            },
    {
        if !self.open {
            return Err(CallError::InvalidState);
        }
        match &self.session {
            Some(s) => {
                if !s.terminal() {
                    return Err(CallError::InvalidState);
                }
            },
            None => {},
        }
        if self.next_call_id == u64::MAX {
            return Err(CallError::AllocationFailed);
        }
        let call_id = self.next_call_id;
        self.next_call_id = self.next_call_id + 1;
        self.session = Some(
            CallSession {
                call_id,
                remote_peer,
                direction: CallDirection::Outgoing,
                media_type,
                remote_device: Option::<DeviceId>::None,
                local_device,
                local_primary: true,
                data_mode: DataMode::Normal,
                state: SessionState::Proceeding,
                audio_levels_interval_ms: Option::<u32>::None,
                video_enabled: matches!(media_type, CallMediaType::Video),
                pending_ice: Vec::new(),
                applied_ice: Vec::new(),
                offer_age_sec: Option::<u64>::None,
                sender_identity_key: Vec::new(),
                receiver_identity_key: Vec::new(),
                send_failure_flagged: false,
            },
        );
        self.events.push(Event::CallState { call_id, state: SessionState::Proceeding });
        Ok(call_id)
    }

    /// Handles an incoming offer.  From idle (no session, or a terminal
    /// one) this creates the incoming session in `Proceeding`, storing the
    /// message age for the caller's freshness policy and the identity key
    /// material for its verification step.  A duplicate offer for the
    /// session already in progress is tolerated unchanged; an offer for a
    /// different call while one is active is dropped with `UnknownCall`.
    pub fn received_offer(
        &mut self,
        call_id: CallId,
        remote_peer: u64,
        remote_device: DeviceId,
        message_age_sec: u64,
        media_type: CallMediaType,
        local_device: DeviceId,
        is_local_primary: bool,
        sender_identity_key: Vec<u8>,
        receiver_identity_key: Vec<u8>,
    ) -> (r: Result<(), CallError>)
        requires
            old(self).wf(),
        ensures
            final(self).wf(),
            CallManager::ids_evolve(*old(self), *final(self)),
            !old(self).open ==> r == Err::<(), CallError>(CallError::InvalidState)
                && CallManager::state_eq(*old(self), *final(self)),
            old(self).open && old(self).has_active_session() && old(self).session_matches(
                call_id,
            ) ==> r == Ok::<(), CallError>(()) && CallManager::state_eq(*old(self), *final(self)),
            old(self).open && old(self).has_active_session() && !old(self).session_matches(
                call_id,
            ) ==> r == Err::<(), CallError>(CallError::UnknownCall) && CallManager::state_eq(
                *old(self),
                *final(self),
            ),
            old(self).open && !old(self).has_active_session() ==> {
                &&& r == Ok::<(), CallError>(())
                &&& final(self).session matches Some(s) && fresh_session(
                    s,
                    call_id,
                    remote_peer,
                    CallDirection::Incoming,
                    media_type,
                    Some(remote_device),
                    local_device,
                    is_local_primary,
                    Some(message_age_sec),
                    sender_identity_key@,
                    receiver_identity_key@,
                )
                &&& CallManager::same_except_session(*old(self), *final(self))
                &&& final(self).events@ == old(self).events@.push(
                    Event::CallState { call_id, state: SessionState::Proceeding },
                )
            },
    {
        if !self.open {
            return Err(CallError::InvalidState);
        }
        match &self.session {
            Some(s) => {
                if !s.terminal() {
                    if s.call_id == call_id {
                        return Ok(());
                    }
                    return Err(CallError::UnknownCall);
                }
            },
            None => {},
        }
        self.session = Some(
            CallSession {
                call_id,
                remote_peer,
                direction: CallDirection::Incoming,
                media_type,
                remote_device: Some(remote_device),
                local_device,
                local_primary: is_local_primary,
                data_mode: DataMode::Normal,
                state: SessionState::Proceeding,
                audio_levels_interval_ms: Option::<u32>::None,
                video_enabled: matches!(media_type, CallMediaType::Video),
                pending_ice: Vec::new(),
                applied_ice: Vec::new(),
                offer_age_sec: Some(message_age_sec),
                sender_identity_key,
                receiver_identity_key,
                send_failure_flagged: false,
            },
        );
        self.events.push(Event::CallState { call_id, state: SessionState::Proceeding });
        Ok(())
    }

    /// Binds the local call context: transitions `Proceeding` to
    /// `Connecting`, fixes the media-adaptation policy, and applies every
    /// candidate buffered so far, in its original arrival order, now that
    /// the transport exists.  An interval at or below zero disables
    /// periodic audio-level sampling; that is configuration, not an error.
    pub fn proceed(
        &mut self,
        call_id: CallId,
        data_mode: DataMode,
        audio_levels_interval_ms: i32,
    ) -> (r: Result<(), CallError>)
        requires
            old(self).wf(),
        ensures
            final(self).wf(),
            CallManager::ids_evolve(*old(self), *final(self)),
            !old(self).open ==> r == Err::<(), CallError>(CallError::InvalidState)
                && CallManager::state_eq(*old(self), *final(self)),
            old(self).open && !old(self).session_matches(call_id) ==> r == Err::<(), CallError>(
                CallError::UnknownCall,
            ) && CallManager::state_eq(*old(self), *final(self)),
            old(self).session matches Some(t) ==> ((old(self).open && t.call_id == call_id
                && t.state != SessionState::Proceeding) ==> r == Err::<(), CallError>(
                CallError::InvalidState,
            ) && CallManager::state_eq(*old(self), *final(self))),
            old(self).session matches Some(t) ==> ((old(self).open && t.call_id == call_id
                && t.state == SessionState::Proceeding) ==> {
                &&& r == Ok::<(), CallError>(())
                &&& CallManager::same_except_session(*old(self), *final(self))
                &&& final(self).session matches Some(s) && {
                    &&& s == (CallSession {
                        state: SessionState::Connecting,
                        data_mode: data_mode,
                        audio_levels_interval_ms: s.audio_levels_interval_ms,
                        pending_ice: s.pending_ice,
                        applied_ice: s.applied_ice,
                        ..t
                    })
                    &&& s.audio_levels_interval_ms == (if audio_levels_interval_ms <= 0 {
                        Option::<u32>::None
                    } else {
                        Some(audio_levels_interval_ms as u32)
                    })
                    &&& s.applied_ice@ == t.applied_ice@ + t.pending_ice@
                    &&& s.pending_ice@ == Seq::<IceCandidate>::empty()
                }
                &&& final(self).events@ == old(self).events@.push(
                    Event::CallState { call_id, state: SessionState::Connecting },
                )
            }),
    {
        if !self.open {
            return Err(CallError::InvalidState);
        }
        match &mut self.session {
            Some(s) => {
                if s.call_id != call_id {
                    return Err(CallError::UnknownCall);
                }
                if !matches!(s.state, SessionState::Proceeding) {
                    return Err(CallError::InvalidState);
                }
                s.state = SessionState::Connecting;
                s.data_mode = data_mode;
                s.audio_levels_interval_ms = if audio_levels_interval_ms <= 0 {
                    Option::<u32>::None
                } else {
                    Some(audio_levels_interval_ms as u32)
                };
                s.applied_ice.append(&mut s.pending_ice);
            },
            None => {
                return Err(CallError::UnknownCall);
            },
        }
        self.events.push(Event::CallState { call_id, state: SessionState::Connecting });
        Ok(())
    }

    /// Handles an incoming answer for the session in progress.  From
    /// `Connecting` or `Reconnecting` the session becomes `Connected`,
    /// remembers which remote device answered, and stores the identity key
    /// material for the caller's verification step.  A duplicate answer
    /// after connection is tolerated unchanged; an answer in `Proceeding`
    /// is out of order and surfaced as `InvalidState`; one for a terminal
    /// session is absorbed.
    pub fn received_answer(
        &mut self,
        call_id: CallId,
        remote_device: DeviceId,
        sender_identity_key: Vec<u8>,
        receiver_identity_key: Vec<u8>,
    ) -> (r: Result<(), CallError>)
        requires
            old(self).wf(),
        ensures
            final(self).wf(),
            CallManager::ids_evolve(*old(self), *final(self)),
            !old(self).open ==> r == Err::<(), CallError>(CallError::InvalidState)
                && CallManager::state_eq(*old(self), *final(self)),
            old(self).open && !old(self).session_matches(call_id) ==> r == Err::<(), CallError>(
                CallError::UnknownCall,
            ) && CallManager::state_eq(*old(self), *final(self)),
            old(self).session matches Some(t) ==> ((old(self).open && t.call_id == call_id) ==> match t
                .state {
                SessionState::Connecting | SessionState::Reconnecting => {
                    &&& r == Ok::<(), CallError>(())
                    &&& CallManager::same_except_session(*old(self), *final(self))
                    &&& final(self).session == Some(
                        (CallSession {
                            state: SessionState::Connected,
                            remote_device: Some(remote_device),
                            sender_identity_key: sender_identity_key,
                            receiver_identity_key: receiver_identity_key,
                            ..t
                        }),
                    )
                    &&& final(self).events@ == old(self).events@.push(
                        Event::CallState { call_id, state: SessionState::Connected },
                    )
                },
                SessionState::Connected | SessionState::Terminated(_) => r == Ok::<(), CallError>(
                    (),
                ) && CallManager::state_eq(*old(self), *final(self)),
                SessionState::Proceeding => r == Err::<(), CallError>(CallError::InvalidState)
                    && CallManager::state_eq(*old(self), *final(self)),
            }),
    {
        if !self.open {
            return Err(CallError::InvalidState);
        }
        match &mut self.session {
            Some(s) => {
                if s.call_id != call_id {
                    return Err(CallError::UnknownCall);
                }
                match s.state {
                    SessionState::Connecting | SessionState::Reconnecting => {
                        s.state = SessionState::Connected;
                        s.remote_device = Some(remote_device);
                        s.sender_identity_key = sender_identity_key;
                        s.receiver_identity_key = receiver_identity_key;
                    },
                    SessionState::Connected | SessionState::Terminated(_) => {
                        return Ok(());
                    },
                    SessionState::Proceeding => {
                        return Err(CallError::InvalidState);
                    },
                }
            },
            None => {
                return Err(CallError::UnknownCall);
            },
        }
        self.events.push(Event::CallState { call_id, state: SessionState::Connected });
        Ok(())
    }

    /// Handles incoming ICE candidates.  Before the transport exists (state
    /// `Proceeding`) they are buffered; afterwards they are applied
    /// directly.  Either way candidates from one message keep their arrival
    /// order.  Candidates for a terminal session are absorbed; a mismatched
    /// call id drops the event with `UnknownCall`.
    pub fn received_ice(
        &mut self,
        call_id: CallId,
        remote_device: DeviceId,
        candidates: Vec<Vec<u8>>,
    ) -> (r: Result<(), CallError>)
        requires
            old(self).wf(),
        ensures
            final(self).wf(),
            CallManager::ids_evolve(*old(self), *final(self)),
            !old(self).open ==> r == Err::<(), CallError>(CallError::InvalidState)
                && CallManager::state_eq(*old(self), *final(self)),
            old(self).open && !old(self).session_matches(call_id) ==> r == Err::<(), CallError>(
                CallError::UnknownCall,
            ) && CallManager::state_eq(*old(self), *final(self)),
            old(self).session matches Some(t) ==> ((old(self).open && t.call_id == call_id) ==> {
                &&& r == Ok::<(), CallError>(())
                &&& CallManager::same_except_session(*old(self), *final(self))
                &&& final(self).events == old(self).events
                &&& match t.state {
                    SessionState::Proceeding => final(self).session matches Some(s) && {
                        &&& s == (CallSession { pending_ice: s.pending_ice, ..t })
                        &&& s.pending_ice@ == t.pending_ice@ + ice_seq(candidates@, remote_device)
                    },
                    SessionState::Terminated(_) => final(self).session == old(self).session,
                    _ => final(self).session matches Some(s) && {
                        &&& s == (CallSession { applied_ice: s.applied_ice, ..t })
                        &&& s.applied_ice@ == t.applied_ice@ + ice_seq(candidates@, remote_device)
                    },
                }
            }),
    {
        if !self.open {
            return Err(CallError::InvalidState);
        }
        match &mut self.session {
            Some(s) => {
                if s.call_id != call_id {
                    return Err(CallError::UnknownCall);
                }
                match s.state {
                    SessionState::Proceeding => {
                        let mut batch = build_ice_batch(candidates, remote_device);
                        s.pending_ice.append(&mut batch);
                        Ok(())
                    },
                    SessionState::Terminated(_) => Ok(()),
                    _ => {
                        let mut batch = build_ice_batch(candidates, remote_device);
                        s.applied_ice.append(&mut batch);
                        Ok(())
                    },
                }
            },
            None => Err(CallError::UnknownCall),
        }
    }

    /// Handles a remote hangup: any non-terminal state becomes `Terminated`
    /// with the remote reason.  Idempotent: for an already-terminated
    /// session nothing changes and no error is signaled.
    pub fn received_hangup(
        &mut self,
        call_id: CallId,
        hangup: HangupType,
        hangup_device: DeviceId,
    ) -> (r: Result<(), CallError>)
        requires
            old(self).wf(),
        ensures
            final(self).wf(),
            CallManager::ids_evolve(*old(self), *final(self)),
            !old(self).open ==> r == Err::<(), CallError>(CallError::InvalidState)
                && CallManager::state_eq(*old(self), *final(self)),
            old(self).open && !old(self).session_matches(call_id) ==> r == Err::<(), CallError>(
                CallError::UnknownCall,
            ) && CallManager::state_eq(*old(self), *final(self)),
            old(self).session matches Some(t) ==> ((old(self).open && t.call_id == call_id) ==> {
                let reason = TerminationReason::RemoteHangup { hangup, device: hangup_device };
                &&& r == Ok::<(), CallError>(())
                &&& CallManager::same_except_session(*old(self), *final(self))
                &&& final(self).session == Some(
                    (CallSession { state: hangup_applied(t.state, reason), ..t }),
                )
                &&& final(self).events@ == (if t.is_terminal() {
                    old(self).events@
                } else {
                    old(self).events@.push(
                        Event::CallState { call_id, state: SessionState::Terminated(reason) },
                    )
                })
            }),
    {
        if !self.open {
            return Err(CallError::InvalidState);
        }
        match &mut self.session {
            Some(s) => {
                if s.call_id != call_id {
                    return Err(CallError::UnknownCall);
                }
                if matches!(s.state, SessionState::Terminated(_)) {
                    return Ok(());
                }
                let reason = TerminationReason::RemoteHangup { hangup, device: hangup_device };
                s.state = SessionState::Terminated(reason);
                self.events.push(
                    Event::CallState { call_id, state: SessionState::Terminated(reason) },
                );
                Ok(())
            },
            None => Err(CallError::UnknownCall),
        }
    }

    /// Handles a remote busy signal: like a hangup with reason
    /// `RemoteBusy`, and likewise idempotent on a terminated session.
    pub fn received_busy(&mut self, call_id: CallId, remote_device: DeviceId) -> (r: Result<
        (),
        CallError,
    >)
        requires
            old(self).wf(),
        ensures
            final(self).wf(),
            CallManager::ids_evolve(*old(self), *final(self)),
            !old(self).open ==> r == Err::<(), CallError>(CallError::InvalidState)
                && CallManager::state_eq(*old(self), *final(self)),
            old(self).open && !old(self).session_matches(call_id) ==> r == Err::<(), CallError>(
                CallError::UnknownCall,
            ) && CallManager::state_eq(*old(self), *final(self)),
            old(self).session matches Some(t) ==> ((old(self).open && t.call_id == call_id) ==> {
                &&& r == Ok::<(), CallError>(())
                &&& CallManager::same_except_session(*old(self), *final(self))
                &&& final(self).session == Some(
                    (CallSession {
                        state: hangup_applied(t.state, TerminationReason::RemoteBusy),
                        ..t
                    }),
                )
                &&& final(self).events@ == (if t.is_terminal() {
                    old(self).events@
                } else {
                    old(self).events@.push(
                        Event::CallState {
                            call_id,
                            state: SessionState::Terminated(TerminationReason::RemoteBusy),
                        },
                    )
                })
            }),
    {
        if !self.open {
            return Err(CallError::InvalidState);
        }
        match &mut self.session {
            Some(s) => {
                if s.call_id != call_id {
                    return Err(CallError::UnknownCall);
                }
                if matches!(s.state, SessionState::Terminated(_)) {
                    return Ok(());
                }
                s.state = SessionState::Terminated(TerminationReason::RemoteBusy);
                self.events.push(
                    Event::CallState {
                        call_id,
                        state: SessionState::Terminated(TerminationReason::RemoteBusy),
                    },
                );
                Ok(())
            },
            None => Err(CallError::UnknownCall),
        }
    }

    /// Acknowledges that an outbound signaling message was delivered.  The
    /// lifecycle state is untouched; the acknowledgment is owed to the
    /// delegate.  An acknowledgment for a stale call id races local
    /// teardown and is absorbed without error or effect.
    pub fn message_sent(&mut self, call_id: CallId) -> (r: Result<(), CallError>)
        requires
            old(self).wf(),
        ensures
            final(self).wf(),
            CallManager::ids_evolve(*old(self), *final(self)),
            !old(self).open ==> r == Err::<(), CallError>(CallError::InvalidState)
                && CallManager::state_eq(*old(self), *final(self)),
            old(self).open && !old(self).session_matches(call_id) ==> r == Ok::<(), CallError>(())
                && CallManager::state_eq(*old(self), *final(self)),
            old(self).open && old(self).session_matches(call_id) ==> {
                &&& r == Ok::<(), CallError>(())
                &&& CallManager::same_except_session(*old(self), *final(self))
                &&& final(self).session == old(self).session
                &&& final(self).events@ == old(self).events@.push(
                    Event::SendResult { call_id, success: true },
                )
            },
    {
        if !self.open {
            return Err(CallError::InvalidState);
        }
        match &self.session {
            Some(s) => {
                if s.call_id != call_id {
                    return Ok(());
                }
            },
            None => {
                return Ok(());
            },
        }
        self.events.push(Event::SendResult { call_id, success: true });
        Ok(())
    }

    /// Records that an outbound signaling message failed.  The failure does
    /// not terminate the call: it is flagged on the session and surfaced to
    /// the delegate, which decides between retry and abort.  A failure
    /// report for a stale call id is absorbed without error or effect.
    pub fn message_send_failure(&mut self, call_id: CallId) -> (r: Result<(), CallError>)
        requires
            old(self).wf(),
        ensures
            final(self).wf(),
            CallManager::ids_evolve(*old(self), *final(self)),
            !old(self).open ==> r == Err::<(), CallError>(CallError::InvalidState)
                && CallManager::state_eq(*old(self), *final(self)),
            old(self).open && !old(self).session_matches(call_id) ==> r == Ok::<(), CallError>(())
                && CallManager::state_eq(*old(self), *final(self)),
            old(self).session matches Some(t) ==> ((old(self).open && t.call_id == call_id) ==> {
                &&& r == Ok::<(), CallError>(())
                &&& CallManager::same_except_session(*old(self), *final(self))
                &&& final(self).session == Some((CallSession { send_failure_flagged: true, ..t }))
                &&& final(self).events@ == old(self).events@.push(
                    Event::SendResult { call_id, success: false },
                )
            }),
    {
        if !self.open {
            return Err(CallError::InvalidState);
        }
        match &mut self.session {
            Some(s) => {
                if s.call_id != call_id {
                    return Ok(());
                }
                s.send_failure_flagged = true;
            },
            None => {
                return Ok(());
            },
        }
        self.events.push(Event::SendResult { call_id, success: false });
        Ok(())
    }

    /// Locally accepts the incoming call: from `Connecting` or
    /// `Reconnecting` the session becomes `Connected`.  Accepting an
    /// already-connected call is tolerated unchanged.
    pub fn accept_call(&mut self, call_id: CallId) -> (r: Result<(), CallError>)
        requires
            old(self).wf(),
        ensures
            final(self).wf(),
            CallManager::ids_evolve(*old(self), *final(self)),
            !old(self).open ==> r == Err::<(), CallError>(CallError::InvalidState)
                && CallManager::state_eq(*old(self), *final(self)),
            old(self).open && !old(self).session_matches(call_id) ==> r == Err::<(), CallError>(
                CallError::UnknownCall,
            ) && CallManager::state_eq(*old(self), *final(self)),
            old(self).session matches Some(t) ==> ((old(self).open && t.call_id == call_id) ==> match t
                .state {
                SessionState::Connecting | SessionState::Reconnecting => {
                    &&& r == Ok::<(), CallError>(())
                    &&& CallManager::same_except_session(*old(self), *final(self))
                    &&& final(self).session == Some(
                        (CallSession { state: SessionState::Connected, ..t }),
                    )
                    &&& final(self).events@ == old(self).events@.push(
                        Event::CallState { call_id, state: SessionState::Connected },
                    )
                },
                SessionState::Connected => r == Ok::<(), CallError>(()) && CallManager::state_eq(
                    *old(self),
                    *final(self),
                ),
                _ => r == Err::<(), CallError>(CallError::InvalidState) && CallManager::state_eq(
                    *old(self),
                    *final(self),
                ),
            }),
    {
        if !self.open {
            return Err(CallError::InvalidState);
        }
        match &mut self.session {
            Some(s) => {
                if s.call_id != call_id {
                    return Err(CallError::UnknownCall);
                }
                match s.state {
                    SessionState::Connecting | SessionState::Reconnecting => {
                        s.state = SessionState::Connected;
                    },
                    SessionState::Connected => {
                        return Ok(());
                    },
                    _ => {
                        return Err(CallError::InvalidState);
                    },
                }
            },
            None => {
                return Err(CallError::UnknownCall);
            },
        }
        self.events.push(Event::CallState { call_id, state: SessionState::Connected });
        Ok(())
    }

    /// Locally hangs up.  A live session becomes `Terminated` with reason
    /// `LocalHangup`; with no session, or one already terminated, this is a
    /// no-op, so hanging up twice is always safe.
    pub fn hangup(&mut self) -> (r: Result<(), CallError>)
        requires
            old(self).wf(),
        ensures
            final(self).wf(),
            CallManager::ids_evolve(*old(self), *final(self)),
            !old(self).open ==> r == Err::<(), CallError>(CallError::InvalidState)
                && CallManager::state_eq(*old(self), *final(self)),
            old(self).open && !old(self).has_active_session() ==> r == Ok::<(), CallError>(())
                && CallManager::state_eq(*old(self), *final(self)),
            old(self).session matches Some(t) ==> ((old(self).open && !t.is_terminal()) ==> {
                &&& r == Ok::<(), CallError>(())
                &&& CallManager::same_except_session(*old(self), *final(self))
                &&& final(self).session == Some(
                    (CallSession {
                        state: SessionState::Terminated(TerminationReason::LocalHangup),
                        ..t
                    }),
                )
                &&& final(self).events@ == old(self).events@.push(
                    Event::CallState {
                        call_id: t.call_id,
                        state: SessionState::Terminated(TerminationReason::LocalHangup),
                    },
                )
            }),
    {
        if !self.open {
            return Err(CallError::InvalidState);
        }
        let call_id: CallId;
        match &mut self.session {
            Some(s) => {
                if matches!(s.state, SessionState::Terminated(_)) {
                    return Ok(());
                }
                s.state = SessionState::Terminated(TerminationReason::LocalHangup);
                call_id = s.call_id;
            },
            None => {
                return Ok(());
            },
        }
        self.events.push(
            Event::CallState {
                call_id,
                state: SessionState::Terminated(TerminationReason::LocalHangup),
            },
        );
        Ok(())
    }

    /// Drops the call with the given id.  Only a live session tracking
    /// exactly this id is affected; stale ids are ignored rather than
    /// erroring.
    pub fn drop_call(&mut self, call_id: CallId) -> (r: Result<(), CallError>)
        requires
            old(self).wf(),
        ensures
            final(self).wf(),
            CallManager::ids_evolve(*old(self), *final(self)),
            !old(self).open ==> r == Err::<(), CallError>(CallError::InvalidState)
                && CallManager::state_eq(*old(self), *final(self)),
            old(self).open && !(old(self).has_active_session() && old(self).session_matches(
                call_id,
            )) ==> r == Ok::<(), CallError>(()) && CallManager::state_eq(*old(self), *final(self)),
            old(self).session matches Some(t) ==> ((old(self).open && !t.is_terminal()
                && t.call_id == call_id) ==> {
                &&& r == Ok::<(), CallError>(())
                &&& CallManager::same_except_session(*old(self), *final(self))
                &&& final(self).session == Some(
                    (CallSession {
                        state: SessionState::Terminated(TerminationReason::Dropped),
                        ..t
                    }),
                )
                &&& final(self).events@ == old(self).events@.push(
                    Event::CallState {
                        call_id,
                        state: SessionState::Terminated(TerminationReason::Dropped),
                    },
                )
            }),
    {
        if !self.open {
            return Err(CallError::InvalidState);
        }
        match &mut self.session {
            Some(s) => {
                if s.call_id != call_id || matches!(s.state, SessionState::Terminated(_)) {
                    return Ok(());
                }
                s.state = SessionState::Terminated(TerminationReason::Dropped);
            },
            None => {
                return Ok(());
            },
        }
        self.events.push(
            Event::CallState { call_id, state: SessionState::Terminated(TerminationReason::Dropped) },
        );
        Ok(())
    }

    /// Emergency recovery: forces the call machine back to idle whatever
    /// its state.  A discarded live session is reported to the delegate.
    pub fn reset(&mut self) -> (r: Result<(), CallError>)
        requires
            old(self).wf(),
        ensures
            final(self).wf(),
            CallManager::ids_evolve(*old(self), *final(self)),
            !old(self).open ==> r == Err::<(), CallError>(CallError::InvalidState)
                && CallManager::state_eq(*old(self), *final(self)),
            old(self).open ==> {
                &&& r == Ok::<(), CallError>(())
                &&& CallManager::same_except_session(*old(self), *final(self))
                &&& final(self).session is None
                &&& final(self).events@ == (match old(self).session {
                    Some(t) => old(self).events@.push(Event::CallReset { call_id: t.call_id }),
                    None => old(self).events@,
                })
            },
    {
        if !self.open {
            return Err(CallError::InvalidState);
        }
        match &self.session {
            Some(s) => {
                let call_id = s.call_id;
                self.session = Option::<CallSession>::None;
                self.events.push(Event::CallReset { call_id });
            },
            None => {},
        }
        Ok(())
    }

    /// Tears down the orchestrator: every session, client, and outstanding
    /// request is discarded and every further state-mutating operation
    /// fails.  Closing twice is safe.
    pub fn close(&mut self)
        requires
            old(self).wf(),
        ensures
            final(self).wf(),
            CallManager::ids_evolve(*old(self), *final(self)),
            !final(self).open,
            final(self).session is None,
            final(self).clients@.len() == 0,
            final(self).pending@.len() == 0,
            final(self).self_uuid == old(self).self_uuid,
            final(self).next_call_id == old(self).next_call_id,
            final(self).next_client_id == old(self).next_client_id,
            final(self).clock == old(self).clock,
            final(self).events == old(self).events,
    {
        self.open = false;
        self.session = Option::<CallSession>::None;
        self.clients.clear();
        self.pending.clear();
    }

    /// Enables or disables outgoing video for the live session.  No state
    /// transition; valid in any non-terminal state.
    pub fn set_video_enable(&mut self, enable: bool) -> (r: Result<(), CallError>)
        requires
            old(self).wf(),
        ensures
            final(self).wf(),
            CallManager::ids_evolve(*old(self), *final(self)),
            !(old(self).open && old(self).has_active_session()) ==> r == Err::<(), CallError>(
                CallError::InvalidState,
            ) && CallManager::state_eq(*old(self), *final(self)),
            old(self).session matches Some(t) ==> ((old(self).open && !t.is_terminal()) ==> {
                &&& r == Ok::<(), CallError>(())
                &&& CallManager::same_except_session(*old(self), *final(self))
                &&& final(self).session == Some((CallSession { video_enabled: enable, ..t }))
                &&& final(self).events == old(self).events
            }),
    {
        if !self.open {
            return Err(CallError::InvalidState);
        }
        match &mut self.session {
            Some(s) => {
                if matches!(s.state, SessionState::Terminated(_)) {
                    return Err(CallError::InvalidState);
                }
                s.video_enabled = enable;
                Ok(())
            },
            None => Err(CallError::InvalidState),
        }
    }

    /// Changes the bandwidth-adaptation mode of the live session.  No state
    /// transition; valid in any non-terminal state.
    pub fn update_data_mode(&mut self, data_mode: DataMode) -> (r: Result<(), CallError>)
        requires
            old(self).wf(),
        ensures
            final(self).wf(),
            CallManager::ids_evolve(*old(self), *final(self)),
            !(old(self).open && old(self).has_active_session()) ==> r == Err::<(), CallError>(
                CallError::InvalidState,
            ) && CallManager::state_eq(*old(self), *final(self)),
            old(self).session matches Some(t) ==> ((old(self).open && !t.is_terminal()) ==> {
                &&& r == Ok::<(), CallError>(())
                &&& CallManager::same_except_session(*old(self), *final(self))
                &&& final(self).session == Some((CallSession { data_mode: data_mode, ..t }))
                &&& final(self).events == old(self).events
            }),
    {
        if !self.open {
            return Err(CallError::InvalidState);
        }
        match &mut self.session {
            Some(s) => {
                if matches!(s.state, SessionState::Terminated(_)) {
                    return Err(CallError::InvalidState);
                }
                s.data_mode = data_mode;
                Ok(())
            },
            None => Err(CallError::InvalidState),
        }
    }
}

} // verus!
