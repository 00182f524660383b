//! Asynchronous request flows: call-link reads and mutations, SFU peeks,
//! and the correlator that resumes them when a response or failure
//! arrives.  Registering a request appends the full authenticated request
//! to the event sequence, so the delegate can send it; the library itself
//! never blocks on the network.  A request id must be unique while
//! outstanding; responses for unknown ids race against local cancellation
//! and are absorbed.

use vstd::prelude::*;

use crate::events::Event;
use crate::manager::{
    find_request_index, lemma_request_idx, CallManager, PendingRequest, RequestKind,
};
use crate::types::{CallError, DeviceId, LinkRestrictions};

verus! {

/// The clock value after one registration stamped at `pre`.
pub open spec fn clock_advanced(pre: u64) -> u64 {
    if pre < u64::MAX {
        (pre + 1) as u64
    } else {
        pre
    }
}

impl CallManager {
    /// Whether a request with the given id is outstanding.
    pub fn request_pending(&self, request_id: u64) -> (r: bool)
        ensures
            r == self.request_live(request_id),
    {
        match find_request_index(&self.pending, request_id) {
            Some(_) => true,
            None => false,
        }
    }

    /// Registers an outstanding request under the caller's id, stamped
    /// with the logical clock.  Reusing a live id fails with
    /// `DuplicateRequest` and changes nothing.
    fn register_request(&mut self, request_id: u64, kind: RequestKind) -> (r: Result<
        (),
        CallError,
    >)
        requires
            old(self).wf(),
        ensures
            final(self).wf(),
            CallManager::ids_evolve(*old(self), *final(self)),
            !old(self).open ==> r == Err::<(), CallError>(CallError::InvalidState)
                && CallManager::state_eq(*old(self), *final(self)),
            old(self).open && old(self).request_live(request_id) ==> r == Err::<(), CallError>(
                CallError::DuplicateRequest,
            ) && CallManager::state_eq(*old(self), *final(self)),
            old(self).open && !old(self).request_live(request_id) ==> {
                &&& r == Ok::<(), CallError>(())
                &&& final(self).pending@ == old(self).pending@.push(
                    (PendingRequest { request_id, kind, created_at: old(self).clock }),
                )
                &&& final(self).request_live(request_id)
                &&& final(self).clock == clock_advanced(old(self).clock)
                &&& CallManager::same_except_requests(*old(self), *final(self))
                &&& final(self).events == old(self).events
            },
    {
        if !self.open {
            return Err(CallError::InvalidState);
        }
        match find_request_index(&self.pending, request_id) {
            Some(_) => Err(CallError::DuplicateRequest),
            None => {
                let ghost pre = self.pending@;
                self.pending.push(
                    PendingRequest { request_id, kind, created_at: self.clock },
                );
                proof {
                    assert(self.pending@[pre.len() as int].request_id == request_id);
                    assert forall|i: int, j: int|
                        0 <= i < j < self.pending@.len() implies (
                        #[trigger] self.pending@[i]).request_id != (
                        #[trigger] self.pending@[j]).request_id by {
                        assert(self.pending@[i] == pre[i]);
                        if j < pre.len() {
                            assert(self.pending@[j] == pre[j]);
                        }
                    }
                }
                if self.clock < u64::MAX {
                    self.clock = self.clock + 1;
                }
                Ok(())
            },
        }
    }

    /// Starts reading a call link's current state: registers the pending
    /// entry and owes the delegate the authenticated read, carrying the
    /// root key and credential presentation uninterpreted.  The result
    /// arrives through [`Self::received_http_response`] under the same
    /// request id.
    pub fn read_call_link(
        &mut self,
        sfu_url: String,
        auth_credential_presentation: Vec<u8>,
        root_key: Vec<u8>,
        request_id: u64,
    ) -> (r: Result<(), CallError>)
        requires
            old(self).wf(),
        ensures
            final(self).wf(),
            CallManager::ids_evolve(*old(self), *final(self)),
            !old(self).open ==> r == Err::<(), CallError>(CallError::InvalidState)
                && CallManager::state_eq(*old(self), *final(self)),
            old(self).open && old(self).request_live(request_id) ==> r == Err::<(), CallError>(
                CallError::DuplicateRequest,
            ) && CallManager::state_eq(*old(self), *final(self)),
            old(self).open && !old(self).request_live(request_id) ==> {
                &&& r == Ok::<(), CallError>(())
                &&& final(self).pending@ == old(self).pending@.push(
                    (PendingRequest {
                        request_id,
                        kind: RequestKind::HttpCorrelated,
                        created_at: old(self).clock,
                    }),
                )
                &&& final(self).request_live(request_id)
                &&& final(self).clock == clock_advanced(old(self).clock)
                &&& CallManager::same_except_requests(*old(self), *final(self))
                &&& final(self).events@ == old(self).events@.push(
                    (Event::LinkReadRequested {
                        request_id,
                        sfu_url: sfu_url,
                        auth_credential_presentation: auth_credential_presentation,
                        root_key: root_key,
                    }),
                )
            },
    {
        match self.register_request(request_id, RequestKind::HttpCorrelated) {
            Ok(()) => {
                self.events.push(
                    Event::LinkReadRequested {
                        request_id,
                        sfu_url,
                        auth_credential_presentation,
                        root_key,
                    },
                );
                Ok(())
            },
            Err(e) => Err(e),
        }
    }

    /// Starts creating a call link: registers the pending entry and owes
    /// the delegate the authenticated create, carrying the create
    /// credential, root key, admin passkey and public parameters
    /// uninterpreted.
    pub fn create_call_link(
        &mut self,
        sfu_url: String,
        create_credential_presentation: Vec<u8>,
        root_key: Vec<u8>,
        admin_passkey: Vec<u8>,
        call_link_public_params: Vec<u8>,
        request_id: u64,
    ) -> (r: Result<(), CallError>)
        requires
            old(self).wf(),
        ensures
            final(self).wf(),
            CallManager::ids_evolve(*old(self), *final(self)),
            !old(self).open ==> r == Err::<(), CallError>(CallError::InvalidState)
                && CallManager::state_eq(*old(self), *final(self)),
            old(self).open && old(self).request_live(request_id) ==> r == Err::<(), CallError>(
                CallError::DuplicateRequest,
            ) && CallManager::state_eq(*old(self), *final(self)),
            old(self).open && !old(self).request_live(request_id) ==> {
                &&& r == Ok::<(), CallError>(())
                &&& final(self).pending@ == old(self).pending@.push(
                    (PendingRequest {
                        request_id,
                        kind: RequestKind::HttpCorrelated,
                        created_at: old(self).clock,
                    }),
                )
                &&& final(self).request_live(request_id)
                &&& final(self).clock == clock_advanced(old(self).clock)
                &&& CallManager::same_except_requests(*old(self), *final(self))
                &&& final(self).events@ == old(self).events@.push(
                    (Event::LinkCreateRequested {
                        request_id,
                        sfu_url: sfu_url,
                        create_credential_presentation: create_credential_presentation,
                        root_key: root_key,
                        admin_passkey: admin_passkey,
                        call_link_public_params: call_link_public_params,
                    }),
                )
            },
    {
        match self.register_request(request_id, RequestKind::HttpCorrelated) {
            Ok(()) => {
                self.events.push(
                    Event::LinkCreateRequested {
                        request_id,
                        sfu_url,
                        create_credential_presentation,
                        root_key,
                        admin_passkey,
                        call_link_public_params,
                    },
                );
                Ok(())
            },
            Err(e) => Err(e),
        }
    }

    /// Starts updating a call link's name, restrictions, or revocation:
    /// registers the pending entry and owes the delegate the authenticated
    /// mutation, the admin passkey and every requested change forwarded
    /// uninterpreted.  Absent options leave the corresponding attribute
    /// untouched.
    pub fn update_call_link(
        &mut self,
        sfu_url: String,
        auth_credential_presentation: Vec<u8>,
        root_key: Vec<u8>,
        admin_passkey: Vec<u8>,
        new_name: Option<String>,
        new_restrictions: Option<LinkRestrictions>,
        new_revoked: Option<bool>,
        request_id: u64,
    ) -> (r: Result<(), CallError>)
        requires
            old(self).wf(),
        ensures
            final(self).wf(),
            CallManager::ids_evolve(*old(self), *final(self)),
            !old(self).open ==> r == Err::<(), CallError>(CallError::InvalidState)
                && CallManager::state_eq(*old(self), *final(self)),
            old(self).open && old(self).request_live(request_id) ==> r == Err::<(), CallError>(
                CallError::DuplicateRequest,
            ) && CallManager::state_eq(*old(self), *final(self)),
            old(self).open && !old(self).request_live(request_id) ==> {
                &&& r == Ok::<(), CallError>(())
                &&& final(self).pending@ == old(self).pending@.push(
                    (PendingRequest {
                        request_id,
                        kind: RequestKind::HttpCorrelated,
                        created_at: old(self).clock,
                    }),
                )
                &&& final(self).request_live(request_id)
                &&& final(self).clock == clock_advanced(old(self).clock)
                &&& CallManager::same_except_requests(*old(self), *final(self))
                &&& final(self).events@ == old(self).events@.push(
                    (Event::LinkUpdateRequested {
                        request_id,
                        sfu_url: sfu_url,
                        auth_credential_presentation: auth_credential_presentation,
                        root_key: root_key,
                        admin_passkey: admin_passkey,
                        new_name: new_name,
                        new_restrictions: new_restrictions,
                        new_revoked: new_revoked,
                    }),
                )
            },
    {
        match self.register_request(request_id, RequestKind::HttpCorrelated) {
            Ok(()) => {
                self.events.push(
                    Event::LinkUpdateRequested {
                        request_id,
                        sfu_url,
                        auth_credential_presentation,
                        root_key,
                        admin_passkey,
                        new_name,
                        new_restrictions,
                        new_revoked,
                    },
                );
                Ok(())
            },
            Err(e) => Err(e),
        }
    }

    /// Registers a peek query for an ordinary group call — who is in the
    /// call right now — and owes the delegate the peek, carrying the
    /// membership proof and serialized members uninterpreted.  Answered
    /// asynchronously under the request id.
    pub fn peek_group_call(
        &mut self,
        request_id: u64,
        sfu_url: String,
        membership_proof: Vec<u8>,
        serialized_group_members: Vec<u8>,
    ) -> (r: Result<(), CallError>)
        requires
            old(self).wf(),
        ensures
            final(self).wf(),
            CallManager::ids_evolve(*old(self), *final(self)),
            !old(self).open ==> r == Err::<(), CallError>(CallError::InvalidState)
                && CallManager::state_eq(*old(self), *final(self)),
            old(self).open && old(self).request_live(request_id) ==> r == Err::<(), CallError>(
                CallError::DuplicateRequest,
            ) && CallManager::state_eq(*old(self), *final(self)),
            old(self).open && !old(self).request_live(request_id) ==> {
                &&& r == Ok::<(), CallError>(())
                &&& final(self).pending@ == old(self).pending@.push(
                    (PendingRequest {
                        request_id,
                        kind: RequestKind::PeekQuery,
                        created_at: old(self).clock,
                    }),
                )
                &&& final(self).request_live(request_id)
                &&& final(self).clock == clock_advanced(old(self).clock)
                &&& CallManager::same_except_requests(*old(self), *final(self))
                &&& final(self).events@ == old(self).events@.push(
                    (Event::GroupPeekRequested {
                        request_id,
                        sfu_url: sfu_url,
                        membership_proof: membership_proof,
                        group_members: serialized_group_members,
                    }),
                )
            },
    {
        match self.register_request(request_id, RequestKind::PeekQuery) {
            Ok(()) => {
                self.events.push(
                    Event::GroupPeekRequested {
                        request_id,
                        sfu_url,
                        membership_proof,
                        group_members: serialized_group_members,
                    },
                );
                Ok(())
            },
            Err(e) => Err(e),
        }
    }

    /// Registers a peek query for a call link's call and owes the delegate
    /// the peek, authenticated by the link's root key and a credential
    /// presentation, both forwarded uninterpreted.
    pub fn peek_call_link_call(
        &mut self,
        request_id: u64,
        sfu_url: String,
        auth_credential_presentation: Vec<u8>,
        root_key: Vec<u8>,
    ) -> (r: Result<(), CallError>)
        requires
            old(self).wf(),
        ensures
            final(self).wf(),
            CallManager::ids_evolve(*old(self), *final(self)),
            !old(self).open ==> r == Err::<(), CallError>(CallError::InvalidState)
                && CallManager::state_eq(*old(self), *final(self)),
            old(self).open && old(self).request_live(request_id) ==> r == Err::<(), CallError>(
                CallError::DuplicateRequest,
            ) && CallManager::state_eq(*old(self), *final(self)),
            old(self).open && !old(self).request_live(request_id) ==> {
                &&& r == Ok::<(), CallError>(())
                &&& final(self).pending@ == old(self).pending@.push(
                    (PendingRequest {
                        request_id,
                        kind: RequestKind::PeekQuery,
                        created_at: old(self).clock,
                    }),
                )
                &&& final(self).request_live(request_id)
                &&& final(self).clock == clock_advanced(old(self).clock)
                &&& CallManager::same_except_requests(*old(self), *final(self))
                &&& final(self).events@ == old(self).events@.push(
                    (Event::LinkPeekRequested {
                        request_id,
                        sfu_url: sfu_url,
                        auth_credential_presentation: auth_credential_presentation,
                        root_key: root_key,
                    }),
                )
            },
    {
        match self.register_request(request_id, RequestKind::PeekQuery) {
            Ok(()) => {
                self.events.push(
                    Event::LinkPeekRequested {
                        request_id,
                        sfu_url,
                        auth_credential_presentation,
                        root_key,
                    },
                );
                Ok(())
            },
            Err(e) => Err(e),
        }
    }

    /// Resolves the outstanding request with this id: the entry is removed
    /// exactly once, and the completion — status code and response body —
    /// is owed to the delegate so the waiting operation can resume.  A
    /// response for an unknown id is a stale or duplicate delivery racing
    /// local cancellation: absorbed as a no-op, not an error.
    pub fn received_http_response(
        &mut self,
        request_id: u64,
        status_code: i32,
        body: Vec<u8>,
    ) -> (r: Result<(), CallError>)
        requires
            old(self).wf(),
        ensures
            final(self).wf(),
            CallManager::ids_evolve(*old(self), *final(self)),
            !old(self).open ==> r == Err::<(), CallError>(CallError::InvalidState)
                && CallManager::state_eq(*old(self), *final(self)),
            old(self).open && !old(self).request_live(request_id) ==> r == Ok::<(), CallError>(())
                && CallManager::state_eq(*old(self), *final(self)),
            old(self).open && old(self).request_live(request_id) ==> {
                &&& r == Ok::<(), CallError>(())
                &&& final(self).pending@ == old(self).pending@.remove(
                    old(self).request_idx(request_id),
                )
                &&& !final(self).request_live(request_id)
                &&& CallManager::same_except_requests(*old(self), *final(self))
                &&& final(self).clock == old(self).clock
                &&& final(self).events@ == old(self).events@.push(
                    (Event::RequestCompleted { request_id, status_code, body: body }),
                )
            },
    {
        if !self.open {
            return Err(CallError::InvalidState);
        }
        let idx = match find_request_index(&self.pending, request_id) {
            Some(i) => i,
            None => {
                return Ok(());
            },
        };
        proof {
            lemma_request_idx(*self, request_id);
        }
        let ghost pre = self.pending@;
        let _entry = self.pending.remove(idx);
        proof {
            assert forall|j: int|
                0 <= j < self.pending@.len() implies (#[trigger] self.pending@[j]).request_id
                != request_id by {
                if j < idx {
                    assert(self.pending@[j] == pre[j]);
                } else {
                    assert(self.pending@[j] == pre[j + 1]);
                }
            }
        }
        self.events.push(Event::RequestCompleted { request_id, status_code, body });
        Ok(())
    }

    /// Fails the outstanding request with this id: the entry is removed
    /// and the failure is owed to the delegate.  Unknown ids are absorbed
    /// like stale responses.
    pub fn http_request_failed(&mut self, request_id: u64) -> (r: Result<(), CallError>)
        requires
            old(self).wf(),
        ensures
            final(self).wf(),
            CallManager::ids_evolve(*old(self), *final(self)),
            !old(self).open ==> r == Err::<(), CallError>(CallError::InvalidState)
                && CallManager::state_eq(*old(self), *final(self)),
            old(self).open && !old(self).request_live(request_id) ==> r == Ok::<(), CallError>(())
                && CallManager::state_eq(*old(self), *final(self)),
            old(self).open && old(self).request_live(request_id) ==> {
                &&& r == Ok::<(), CallError>(())
                &&& final(self).pending@ == old(self).pending@.remove(
                    old(self).request_idx(request_id),
                )
                &&& !final(self).request_live(request_id)
                &&& CallManager::same_except_requests(*old(self), *final(self))
                &&& final(self).clock == old(self).clock
                &&& final(self).events@ == old(self).events@.push(
                    Event::RequestFailed { request_id },
                )
            },
    {
        if !self.open {
            return Err(CallError::InvalidState);
        }
        let idx = match find_request_index(&self.pending, request_id) {
            Some(i) => i,
            None => {
                return Ok(());
            },
        };
        proof {
            lemma_request_idx(*self, request_id);
        }
        let ghost pre = self.pending@;
        let _entry = self.pending.remove(idx);
        proof {
            assert forall|j: int|
                0 <= j < self.pending@.len() implies (#[trigger] self.pending@[j]).request_id
                != request_id by {
                if j < idx {
                    assert(self.pending@[j] == pre[j]);
                } else {
                    assert(self.pending@[j] == pre[j + 1]);
                }
            }
        }
        self.events.push(Event::RequestFailed { request_id });
        Ok(())
    }

    /// Routes an opaque call message from another device.  The payload,
    /// the sender's user id, both device ids and the message age are owed
    /// to the delegate uninterpreted, for its ring/group handling and
    /// freshness policy.
    pub fn received_call_message(
        &mut self,
        sender_uuid: Vec<u8>,
        sender_device: DeviceId,
        local_device: DeviceId,
        message: Vec<u8>,
        message_age_sec: u64,
    ) -> (r: Result<(), CallError>)
        requires
            old(self).wf(),
        ensures
            final(self).wf(),
            CallManager::ids_evolve(*old(self), *final(self)),
            !old(self).open ==> r == Err::<(), CallError>(CallError::InvalidState)
                && CallManager::state_eq(*old(self), *final(self)),
            old(self).open ==> {
                &&& r == Ok::<(), CallError>(())
                &&& CallManager::same_except_session(*old(self), *final(self))
                &&& final(self).session == old(self).session
                &&& final(self).events@ == old(self).events@.push(
                    (Event::CallMessage {
                        sender_uuid: sender_uuid,
                        sender_device,
                        local_device,
                        message: message,
                        age_sec: message_age_sec,
                    }),
                )
            },
    {
        if !self.open {
            return Err(CallError::InvalidState);
        }
        self.events.push(
            Event::CallMessage {
                sender_uuid,
                sender_device,
                local_device,
                message,
                age_sec: message_age_sec,
            },
        );
        Ok(())
    }
}

} // verus!
