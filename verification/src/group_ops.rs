//! Operations on the group-call client registry: creation and deletion,
//! lifecycle verbs, media flags, moderation, and ring control.  Client ids
//! are allocated monotonically, so a deleted id can never resolve again.

use vstd::prelude::*;

use crate::events::{BroadcastKind, Event, GroupClientState, ModerationAction, ModerationTarget};
use crate::group::{fresh_client, GroupCallClient, GroupCallKind, VideoRequest};
use crate::manager::{find_client_index, lemma_client_idx, CallManager};
use crate::ring::RingId;
use crate::types::{CallError, ClientId, DataMode, RingCancelReason, INVALID_CLIENT_ID};

verus! {

impl CallManager {
    /// Allocates and registers a client for an ordinary group call.  The
    /// media-transport handles are held by reference only.  Fails with
    /// `AllocationFailed` when the id space is exhausted; the id it returns
    /// is fresh and never the invalid sentinel.
    pub fn create_group_call_client(
        &mut self,
        group_id: Vec<u8>,
        sfu_url: String,
        hkdf_extra_info: Vec<u8>,
        audio_levels_interval_ms: i32,
        factory_handle: u64,
        audio_track_handle: u64,
        video_track_handle: u64,
    ) -> (r: Result<ClientId, CallError>)
        requires
            old(self).wf(),
        ensures
            final(self).wf(),
            CallManager::ids_evolve(*old(self), *final(self)),
            !old(self).open ==> r == Err::<ClientId, CallError>(CallError::InvalidState)
                && CallManager::state_eq(*old(self), *final(self)),
            old(self).open && old(self).next_client_id == u32::MAX ==> r == Err::<
                ClientId,
                CallError,
            >(CallError::AllocationFailed) && CallManager::state_eq(*old(self), *final(self)),
            old(self).open && old(self).next_client_id < u32::MAX ==> {
                &&& r == Ok::<ClientId, CallError>(old(self).next_client_id)
                &&& old(self).next_client_id != INVALID_CLIENT_ID
                &&& final(self).next_client_id == old(self).next_client_id + 1
                &&& final(self).clients@ == old(self).clients@.push(final(self).clients@.last())
                &&& fresh_client(
                    final(self).clients@.last(),
                    old(self).next_client_id,
                    (GroupCallKind::Group { group_id: group_id }),
                    sfu_url,
                    hkdf_extra_info@,
                    if audio_levels_interval_ms <= 0 {
                        Option::<u32>::None
                    } else {
                        Some(audio_levels_interval_ms as u32)
                    },
                    factory_handle,
                    audio_track_handle,
                    video_track_handle,
                )
                &&& final(self).registered(old(self).next_client_id)
                &&& final(self).client_idx(old(self).next_client_id) == old(self).clients@.len()
                &&& CallManager::same_except_clients(*old(self), *final(self))
                &&& final(self).events@ == old(self).events@.push(
                    Event::GroupState {
                        client_id: old(self).next_client_id,
                        state: GroupClientState::Created,
                    },
                )
            },
    {
        if !self.open {
            return Err(CallError::InvalidState);
        }
        if self.next_client_id == u32::MAX {
            return Err(CallError::AllocationFailed);
        }
        let client_id = self.next_client_id;
        self.next_client_id = client_id + 1;
        let interval = if audio_levels_interval_ms <= 0 {
            Option::<u32>::None
        } else {
            Some(audio_levels_interval_ms as u32)
        };
        self.clients.push(
            GroupCallClient {
                client_id,
                kind: GroupCallKind::Group { group_id },
                sfu_url,
                hkdf_extra_info,
                audio_levels_interval_ms: interval,
                factory_handle,
                audio_track_handle,
                video_track_handle,
                state: GroupClientState::Created,
                audio_muted: false,
                video_muted: false,
                data_mode: DataMode::Normal,
                raised_hand: false,
                group_members: Vec::new(),
                membership_proof: Vec::new(),
                video_requests: Vec::new(),
                active_speaker_height: 0,
            },
        );
        proof {
            assert(self.clients@.last().client_id == client_id);
            lemma_client_idx(*self, client_id);
        }
        self.events.push(Event::GroupState { client_id, state: GroupClientState::Created });
        Ok(client_id)
    }

    /// Allocates and registers a client for a call joined through a call
    /// link.  A non-empty admin passkey grants the administrative role for
    /// moderation actions on this client.
    pub fn create_call_link_call_client(
        &mut self,
        sfu_url: String,
        auth_presentation: Vec<u8>,
        root_key: Vec<u8>,
        admin_passkey: Vec<u8>,
        hkdf_extra_info: Vec<u8>,
        audio_levels_interval_ms: i32,
        factory_handle: u64,
        audio_track_handle: u64,
        video_track_handle: u64,
    ) -> (r: Result<ClientId, CallError>)
        requires
            old(self).wf(),
        ensures
            final(self).wf(),
            CallManager::ids_evolve(*old(self), *final(self)),
            !old(self).open ==> r == Err::<ClientId, CallError>(CallError::InvalidState)
                && CallManager::state_eq(*old(self), *final(self)),
            old(self).open && old(self).next_client_id == u32::MAX ==> r == Err::<
                ClientId,
                CallError,
            >(CallError::AllocationFailed) && CallManager::state_eq(*old(self), *final(self)),
            old(self).open && old(self).next_client_id < u32::MAX ==> {
                &&& r == Ok::<ClientId, CallError>(old(self).next_client_id)
                &&& old(self).next_client_id != INVALID_CLIENT_ID
                &&& final(self).next_client_id == old(self).next_client_id + 1
                &&& final(self).clients@ == old(self).clients@.push(final(self).clients@.last())
                &&& fresh_client(
                    final(self).clients@.last(),
                    old(self).next_client_id,
                    (GroupCallKind::CallLink {
                        root_key: root_key,
                        auth_presentation: auth_presentation,
                        admin_passkey: admin_passkey,
                    }),
                    sfu_url,
                    hkdf_extra_info@,
                    if audio_levels_interval_ms <= 0 {
                        Option::<u32>::None
                    } else {
                        Some(audio_levels_interval_ms as u32)
                    },
                    factory_handle,
                    audio_track_handle,
                    video_track_handle,
                )
                &&& final(self).registered(old(self).next_client_id)
                &&& final(self).client_idx(old(self).next_client_id) == old(self).clients@.len()
                &&& CallManager::same_except_clients(*old(self), *final(self))
                &&& final(self).events@ == old(self).events@.push(
                    Event::GroupState {
                        client_id: old(self).next_client_id,
                        state: GroupClientState::Created,
                    },
                )
            },
    {
        if !self.open {
            return Err(CallError::InvalidState);
        }
        if self.next_client_id == u32::MAX {
            return Err(CallError::AllocationFailed);
        }
        let client_id = self.next_client_id;
        self.next_client_id = client_id + 1;
        let interval = if audio_levels_interval_ms <= 0 {
            Option::<u32>::None
        } else {
            Some(audio_levels_interval_ms as u32)
        };
        self.clients.push(
            GroupCallClient {
                client_id,
                kind: GroupCallKind::CallLink { root_key, auth_presentation, admin_passkey },
                sfu_url,
                hkdf_extra_info,
                audio_levels_interval_ms: interval,
                factory_handle,
                audio_track_handle,
                video_track_handle,
                state: GroupClientState::Created,
                audio_muted: false,
                video_muted: false,
                data_mode: DataMode::Normal,
                raised_hand: false,
                group_members: Vec::new(),
                membership_proof: Vec::new(),
                video_requests: Vec::new(),
                active_speaker_height: 0,
            },
        );
        proof {
            assert(self.clients@.last().client_id == client_id);
            lemma_client_idx(*self, client_id);
        }
        self.events.push(Event::GroupState { client_id, state: GroupClientState::Created });
        Ok(client_id)
    }

    /// Deletes a client.  Only valid once it has reached `Ended`; deleting
    /// earlier fails with `InvalidState` and changes nothing.  After
    /// deletion the id resolves to `UnknownClient` forever, because the
    /// allocation cursor never reissues it.
    pub fn delete_group_call_client(&mut self, client_id: ClientId) -> (r: Result<(), CallError>)
        requires
            old(self).wf(),
        ensures
            final(self).wf(),
            CallManager::ids_evolve(*old(self), *final(self)),
            !old(self).open ==> r == Err::<(), CallError>(CallError::InvalidState)
                && CallManager::state_eq(*old(self), *final(self)),
            old(self).open && !old(self).registered(client_id) ==> r == Err::<(), CallError>(
                CallError::UnknownClient,
            ) && CallManager::state_eq(*old(self), *final(self)),
            old(self).open && old(self).registered(client_id) && old(self).client_of(
                client_id,
            ).state != GroupClientState::Ended ==> r == Err::<(), CallError>(
                CallError::InvalidState,
            ) && CallManager::state_eq(*old(self), *final(self)),
            old(self).open && old(self).registered(client_id) && old(self).client_of(
                client_id,
            ).state == GroupClientState::Ended ==> {
                &&& r == Ok::<(), CallError>(())
                &&& final(self).clients@ == old(self).clients@.remove(
                    old(self).client_idx(client_id),
                )
                &&& !final(self).registered(client_id)
                &&& CallManager::same_except_clients(*old(self), *final(self))
                &&& final(self).next_client_id == old(self).next_client_id
                &&& final(self).events == old(self).events
            },
    {
        if !self.open {
            return Err(CallError::InvalidState);
        }
        let idx = match find_client_index(&self.clients, client_id) {
            Some(i) => i,
            None => {
                return Err(CallError::UnknownClient);
            },
        };
        proof {
            lemma_client_idx(*self, client_id);
        }
        if !matches!(self.clients[idx].state, GroupClientState::Ended) {
            return Err(CallError::InvalidState);
        }
        let ghost pre = self.clients@;
        let _removed = self.clients.remove(idx);
        proof {
            assert forall|j: int|
                0 <= j < self.clients@.len() implies (#[trigger] self.clients@[j]).client_id
                != client_id by {
                if j < idx {
                    assert(self.clients@[j] == pre[j]);
                } else {
                    assert(self.clients@[j] == pre[j + 1]);
                }
            }
        }
        Ok(())
    }

    /// Connects the client's transport: valid only from `Created`, after
    /// which the client is `Connected`; the intermediate `Connecting`
    /// transition is reported to the delegate in order.
    pub fn connect(&mut self, client_id: ClientId) -> (r: Result<(), CallError>)
        requires
            old(self).wf(),
        ensures
            final(self).wf(),
            CallManager::ids_evolve(*old(self), *final(self)),
            !old(self).open ==> r == Err::<(), CallError>(CallError::InvalidState)
                && CallManager::state_eq(*old(self), *final(self)),
            old(self).open && !old(self).registered(client_id) ==> r == Err::<(), CallError>(
                CallError::UnknownClient,
            ) && CallManager::state_eq(*old(self), *final(self)),
            old(self).open && old(self).registered(client_id) ==> {
                let i = old(self).client_idx(client_id);
                let c = old(self).clients@[i];
                match c.state {
                    GroupClientState::Created => {
                        &&& r == Ok::<(), CallError>(())
                        &&& final(self).clients@ == old(self).clients@.update(
                            i,
                            (GroupCallClient { state: GroupClientState::Connected, ..c }),
                        )
                        &&& final(self).registered(client_id)
                        &&& final(self).client_idx(client_id) == i
                        &&& CallManager::same_except_clients(*old(self), *final(self))
                        &&& final(self).next_client_id == old(self).next_client_id
                        &&& final(self).events@ == old(self).events@.push(
                            Event::GroupState { client_id, state: GroupClientState::Connecting },
                        ).push(
                            Event::GroupState { client_id, state: GroupClientState::Connected },
                        )
                    },
                    _ => r == Err::<(), CallError>(CallError::InvalidState)
                        && CallManager::state_eq(*old(self), *final(self)),
                }
            },
    {
        if !self.open {
            return Err(CallError::InvalidState);
        }
        let idx = match find_client_index(&self.clients, client_id) {
            Some(i) => i,
            None => {
                return Err(CallError::UnknownClient);
            },
        };
        proof {
            lemma_client_idx(*self, client_id);
        }
        if !matches!(self.clients[idx].state, GroupClientState::Created) {
            return Err(CallError::InvalidState);
        }
        let c = &mut self.clients[idx];
        c.state = GroupClientState::Connected;
        self.events.push(Event::GroupState { client_id, state: GroupClientState::Connecting });
        self.events.push(Event::GroupState { client_id, state: GroupClientState::Connected });
        proof {
            assert(self.clients@[idx as int].client_id == client_id);
            lemma_client_idx(*self, client_id);
        }
        Ok(())
    }

    /// Joins the call: valid only once the client has reached `Connected`,
    /// after which it is `Joined`; the intermediate `Joining` transition is
    /// reported in order.  Joining before connecting fails with
    /// `InvalidState` and leaves the client unchanged.
    pub fn join(&mut self, client_id: ClientId) -> (r: Result<(), CallError>)
        requires
            old(self).wf(),
        ensures
            final(self).wf(),
            CallManager::ids_evolve(*old(self), *final(self)),
            !old(self).open ==> r == Err::<(), CallError>(CallError::InvalidState)
                && CallManager::state_eq(*old(self), *final(self)),
            old(self).open && !old(self).registered(client_id) ==> r == Err::<(), CallError>(
                CallError::UnknownClient,
            ) && CallManager::state_eq(*old(self), *final(self)),
            old(self).open && old(self).registered(client_id) ==> {
                let i = old(self).client_idx(client_id);
                let c = old(self).clients@[i];
                match c.state {
                    GroupClientState::Connected => {
                        &&& r == Ok::<(), CallError>(())
                        &&& final(self).clients@ == old(self).clients@.update(
                            i,
                            (GroupCallClient { state: GroupClientState::Joined, ..c }),
                        )
                        &&& final(self).registered(client_id)
                        &&& final(self).client_idx(client_id) == i
                        &&& CallManager::same_except_clients(*old(self), *final(self))
                        &&& final(self).next_client_id == old(self).next_client_id
                        &&& final(self).events@ == old(self).events@.push(
                            Event::GroupState { client_id, state: GroupClientState::Joining },
                        ).push(Event::GroupState { client_id, state: GroupClientState::Joined })
                    },
                    _ => r == Err::<(), CallError>(CallError::InvalidState)
                        && CallManager::state_eq(*old(self), *final(self)),
                }
            },
    {
        if !self.open {
            return Err(CallError::InvalidState);
        }
        let idx = match find_client_index(&self.clients, client_id) {
            Some(i) => i,
            None => {
                return Err(CallError::UnknownClient);
            },
        };
        proof {
            lemma_client_idx(*self, client_id);
        }
        if !matches!(self.clients[idx].state, GroupClientState::Connected) {
            return Err(CallError::InvalidState);
        }
        let c = &mut self.clients[idx];
        c.state = GroupClientState::Joined;
        self.events.push(Event::GroupState { client_id, state: GroupClientState::Joining });
        self.events.push(Event::GroupState { client_id, state: GroupClientState::Joined });
        proof {
            assert(self.clients@[idx as int].client_id == client_id);
            lemma_client_idx(*self, client_id);
        }
        Ok(())
    }

    /// Leaves the call: valid from `Joining`, `Joined`, or `Reconnecting`,
    /// after which the client is `Ended` and any in-flight completion for
    /// the stale attempt will be discarded on arrival.
    pub fn leave(&mut self, client_id: ClientId) -> (r: Result<(), CallError>)
        requires
            old(self).wf(),
        ensures
            final(self).wf(),
            CallManager::ids_evolve(*old(self), *final(self)),
            !old(self).open ==> r == Err::<(), CallError>(CallError::InvalidState)
                && CallManager::state_eq(*old(self), *final(self)),
            old(self).open && !old(self).registered(client_id) ==> r == Err::<(), CallError>(
                CallError::UnknownClient,
            ) && CallManager::state_eq(*old(self), *final(self)),
            old(self).open && old(self).registered(client_id) ==> {
                let i = old(self).client_idx(client_id);
                let c = old(self).clients@[i];
                match c.state {
                    GroupClientState::Joining | GroupClientState::Joined
                    | GroupClientState::Reconnecting => {
                        &&& r == Ok::<(), CallError>(())
                        &&& final(self).clients@ == old(self).clients@.update(
                            i,
                            (GroupCallClient { state: GroupClientState::Ended, ..c }),
                        )
                        &&& final(self).registered(client_id)
                        &&& final(self).client_idx(client_id) == i
                        &&& CallManager::same_except_clients(*old(self), *final(self))
                        &&& final(self).next_client_id == old(self).next_client_id
                        &&& final(self).events@ == old(self).events@.push(
                            Event::GroupState { client_id, state: GroupClientState::Ended },
                        )
                    },
                    _ => r == Err::<(), CallError>(CallError::InvalidState)
                        && CallManager::state_eq(*old(self), *final(self)),
                }
            },
    {
        if !self.open {
            return Err(CallError::InvalidState);
        }
        let idx = match find_client_index(&self.clients, client_id) {
            Some(i) => i,
            None => {
                return Err(CallError::UnknownClient);
            },
        };
        proof {
            lemma_client_idx(*self, client_id);
        }
        match self.clients[idx].state {
            GroupClientState::Joining | GroupClientState::Joined
            | GroupClientState::Reconnecting => {},
            _ => {
                return Err(CallError::InvalidState);
            },
        }
        let c = &mut self.clients[idx];
        c.state = GroupClientState::Ended;
        self.events.push(Event::GroupState { client_id, state: GroupClientState::Ended });
        proof {
            assert(self.clients@[idx as int].client_id == client_id);
            lemma_client_idx(*self, client_id);
        }
        Ok(())
    }

    /// Disconnects the client's transport: valid from any non-terminal
    /// state, after which the client is `Ended`.
    pub fn disconnect(&mut self, client_id: ClientId) -> (r: Result<(), CallError>)
        requires
            old(self).wf(),
        ensures
            final(self).wf(),
            CallManager::ids_evolve(*old(self), *final(self)),
            !old(self).open ==> r == Err::<(), CallError>(CallError::InvalidState)
                && CallManager::state_eq(*old(self), *final(self)),
            old(self).open && !old(self).registered(client_id) ==> r == Err::<(), CallError>(
                CallError::UnknownClient,
            ) && CallManager::state_eq(*old(self), *final(self)),
            old(self).open && old(self).registered(client_id) ==> {
                let i = old(self).client_idx(client_id);
                let c = old(self).clients@[i];
                match c.state {
                    GroupClientState::Ended => r == Err::<(), CallError>(CallError::InvalidState)
                        && CallManager::state_eq(*old(self), *final(self)),
                    _ => {
                        &&& r == Ok::<(), CallError>(())
                        &&& final(self).clients@ == old(self).clients@.update(
                            i,
                            (GroupCallClient { state: GroupClientState::Ended, ..c }),
                        )
                        &&& final(self).registered(client_id)
                        &&& final(self).client_idx(client_id) == i
                        &&& CallManager::same_except_clients(*old(self), *final(self))
                        &&& final(self).next_client_id == old(self).next_client_id
                        &&& final(self).events@ == old(self).events@.push(
                            Event::GroupState { client_id, state: GroupClientState::Ended },
                        )
                    },
                }
            },
    {
        if !self.open {
            return Err(CallError::InvalidState);
        }
        let idx = match find_client_index(&self.clients, client_id) {
            Some(i) => i,
            None => {
                return Err(CallError::UnknownClient);
            },
        };
        proof {
            lemma_client_idx(*self, client_id);
        }
        if matches!(self.clients[idx].state, GroupClientState::Ended) {
            return Err(CallError::InvalidState);
        }
        let c = &mut self.clients[idx];
        c.state = GroupClientState::Ended;
        self.events.push(Event::GroupState { client_id, state: GroupClientState::Ended });
        proof {
            assert(self.clients@[idx as int].client_id == client_id);
            lemma_client_idx(*self, client_id);
        }
        Ok(())
    }

    /// The lifecycle state of a client, or `UnknownClient` if the id does
    /// not resolve.
    pub fn client_state(&self, client_id: ClientId) -> (r: Result<GroupClientState, CallError>)
        requires
            self.wf(),
        ensures
            self.registered(client_id) ==> r == Ok::<GroupClientState, CallError>(
                self.client_of(client_id).state,
            ),
            !self.registered(client_id) ==> r == Err::<GroupClientState, CallError>(
                CallError::UnknownClient,
            ),
    {
        match find_client_index(&self.clients, client_id) {
            Some(i) => {
                proof {
                    lemma_client_idx(*self, client_id);
                }
                Ok(self.clients[i].state)
            },
            None => Err(CallError::UnknownClient),
        }
    }
}

impl CallManager {
    /// Mutes or unmutes outgoing audio.  Independent of lifecycle state:
    /// applies immediately in every state, `Ended` included.
    pub fn set_outgoing_audio_muted(&mut self, client_id: ClientId, muted: bool) -> (r: Result<
        (),
        CallError,
    >)
        requires
            old(self).wf(),
        ensures
            final(self).wf(),
            CallManager::ids_evolve(*old(self), *final(self)),
            !old(self).open ==> r == Err::<(), CallError>(CallError::InvalidState)
                && CallManager::state_eq(*old(self), *final(self)),
            old(self).open && !old(self).registered(client_id) ==> r == Err::<(), CallError>(
                CallError::UnknownClient,
            ) && CallManager::state_eq(*old(self), *final(self)),
            old(self).open && old(self).registered(client_id) ==> {
                let i = old(self).client_idx(client_id);
                let c = old(self).clients@[i];
                &&& r == Ok::<(), CallError>(())
                &&& final(self).clients@ == old(self).clients@.update(
                    i,
                    (GroupCallClient { audio_muted: muted, ..c }),
                )
                &&& final(self).registered(client_id)
                &&& final(self).client_idx(client_id) == i
                &&& CallManager::same_except_clients(*old(self), *final(self))
                &&& final(self).next_client_id == old(self).next_client_id
                &&& final(self).events == old(self).events
            },
    {
        if !self.open {
            return Err(CallError::InvalidState);
        }
        let idx = match find_client_index(&self.clients, client_id) {
            Some(i) => i,
            None => {
                return Err(CallError::UnknownClient);
            },
        };
        proof {
            lemma_client_idx(*self, client_id);
        }
        let c = &mut self.clients[idx];
        c.audio_muted = muted;
        proof {
            assert(self.clients@[idx as int].client_id == client_id);
            lemma_client_idx(*self, client_id);
        }
        Ok(())
    }

    /// Mutes or unmutes outgoing video.  Independent of lifecycle state.
    pub fn set_outgoing_video_muted(&mut self, client_id: ClientId, muted: bool) -> (r: Result<
        (),
        CallError,
    >)
        requires
            old(self).wf(),
        ensures
            final(self).wf(),
            CallManager::ids_evolve(*old(self), *final(self)),
            !old(self).open ==> r == Err::<(), CallError>(CallError::InvalidState)
                && CallManager::state_eq(*old(self), *final(self)),
            old(self).open && !old(self).registered(client_id) ==> r == Err::<(), CallError>(
                CallError::UnknownClient,
            ) && CallManager::state_eq(*old(self), *final(self)),
            old(self).open && old(self).registered(client_id) ==> {
                let i = old(self).client_idx(client_id);
                let c = old(self).clients@[i];
                &&& r == Ok::<(), CallError>(())
                &&& final(self).clients@ == old(self).clients@.update(
                    i,
                    (GroupCallClient { video_muted: muted, ..c }),
                )
                &&& final(self).registered(client_id)
                &&& final(self).client_idx(client_id) == i
                &&& CallManager::same_except_clients(*old(self), *final(self))
                &&& final(self).next_client_id == old(self).next_client_id
                &&& final(self).events == old(self).events
            },
    {
        if !self.open {
            return Err(CallError::InvalidState);
        }
        let idx = match find_client_index(&self.clients, client_id) {
            Some(i) => i,
            None => {
                return Err(CallError::UnknownClient);
            },
        };
        proof {
            lemma_client_idx(*self, client_id);
        }
        let c = &mut self.clients[idx];
        c.video_muted = muted;
        proof {
            assert(self.clients@[idx as int].client_id == client_id);
            lemma_client_idx(*self, client_id);
        }
        Ok(())
    }

    /// Changes the client's bandwidth-adaptation mode.  Independent of
    /// lifecycle state.
    pub fn set_data_mode(&mut self, client_id: ClientId, data_mode: DataMode) -> (r: Result<
        (),
        CallError,
    >)
        requires
            old(self).wf(),
        ensures
            final(self).wf(),
            CallManager::ids_evolve(*old(self), *final(self)),
            !old(self).open ==> r == Err::<(), CallError>(CallError::InvalidState)
                && CallManager::state_eq(*old(self), *final(self)),
            old(self).open && !old(self).registered(client_id) ==> r == Err::<(), CallError>(
                CallError::UnknownClient,
            ) && CallManager::state_eq(*old(self), *final(self)),
            old(self).open && old(self).registered(client_id) ==> {
                let i = old(self).client_idx(client_id);
                let c = old(self).clients@[i];
                &&& r == Ok::<(), CallError>(())
                &&& final(self).clients@ == old(self).clients@.update(
                    i,
                    (GroupCallClient { data_mode: data_mode, ..c }),
                )
                &&& final(self).registered(client_id)
                &&& final(self).client_idx(client_id) == i
                &&& CallManager::same_except_clients(*old(self), *final(self))
                &&& final(self).next_client_id == old(self).next_client_id
                &&& final(self).events == old(self).events
            },
    {
        if !self.open {
            return Err(CallError::InvalidState);
        }
        let idx = match find_client_index(&self.clients, client_id) {
            Some(i) => i,
            None => {
                return Err(CallError::UnknownClient);
            },
        };
        proof {
            lemma_client_idx(*self, client_id);
        }
        let c = &mut self.clients[idx];
        c.data_mode = data_mode;
        proof {
            assert(self.clients@[idx as int].client_id == client_id);
            lemma_client_idx(*self, client_id);
        }
        Ok(())
    }

    /// Records the UI's current rendering demand: which remote sources are
    /// rendered at which resolution, and the active speaker's height.  A
    /// bandwidth-adaptive signal, not a guarantee of delivery.
    pub fn request_video(
        &mut self,
        client_id: ClientId,
        rendered_resolutions: Vec<VideoRequest>,
        active_speaker_height: u32,
    ) -> (r: Result<(), CallError>)
        requires
            old(self).wf(),
        ensures
            final(self).wf(),
            CallManager::ids_evolve(*old(self), *final(self)),
            !old(self).open ==> r == Err::<(), CallError>(CallError::InvalidState)
                && CallManager::state_eq(*old(self), *final(self)),
            old(self).open && !old(self).registered(client_id) ==> r == Err::<(), CallError>(
                CallError::UnknownClient,
            ) && CallManager::state_eq(*old(self), *final(self)),
            old(self).open && old(self).registered(client_id) ==> {
                let i = old(self).client_idx(client_id);
                let c = old(self).clients@[i];
                &&& r == Ok::<(), CallError>(())
                &&& final(self).clients@ == old(self).clients@.update(
                    i,
                    (GroupCallClient {
                        video_requests: rendered_resolutions,
                        active_speaker_height: active_speaker_height,
                        ..c
                    }),
                )
                &&& final(self).registered(client_id)
                &&& final(self).client_idx(client_id) == i
                &&& CallManager::same_except_clients(*old(self), *final(self))
                &&& final(self).next_client_id == old(self).next_client_id
                &&& final(self).events == old(self).events
            },
    {
        if !self.open {
            return Err(CallError::InvalidState);
        }
        let idx = match find_client_index(&self.clients, client_id) {
            Some(i) => i,
            None => {
                return Err(CallError::UnknownClient);
            },
        };
        proof {
            lemma_client_idx(*self, client_id);
        }
        let c = &mut self.clients[idx];
        c.video_requests = rendered_resolutions;
        c.active_speaker_height = active_speaker_height;
        proof {
            assert(self.clients@[idx as int].client_id == client_id);
            lemma_client_idx(*self, client_id);
        }
        Ok(())
    }

    /// Requests a fresh media-key distribution round, used after
    /// membership changes to re-secure media.  Valid only while joined.
    pub fn resend_media_keys(&mut self, client_id: ClientId) -> (r: Result<(), CallError>)
        requires
            old(self).wf(),
        ensures
            final(self).wf(),
            CallManager::ids_evolve(*old(self), *final(self)),
            !old(self).open ==> r == Err::<(), CallError>(CallError::InvalidState)
                && CallManager::state_eq(*old(self), *final(self)),
            old(self).open && !old(self).registered(client_id) ==> r == Err::<(), CallError>(
                CallError::UnknownClient,
            ) && CallManager::state_eq(*old(self), *final(self)),
            old(self).open && old(self).registered(client_id) ==> {
                let c = old(self).clients@[old(self).client_idx(client_id)];
                match c.state {
                    GroupClientState::Joined => {
                        &&& r == Ok::<(), CallError>(())
                        &&& CallManager::same_except_session(*old(self), *final(self))
                        &&& final(self).session == old(self).session
                        &&& final(self).events@ == old(self).events@.push(
                            Event::MediaKeysResent { client_id },
                        )
                    },
                    _ => r == Err::<(), CallError>(CallError::InvalidState)
                        && CallManager::state_eq(*old(self), *final(self)),
                }
            },
    {
        if !self.open {
            return Err(CallError::InvalidState);
        }
        let idx = match find_client_index(&self.clients, client_id) {
            Some(i) => i,
            None => {
                return Err(CallError::UnknownClient);
            },
        };
        proof {
            lemma_client_idx(*self, client_id);
        }
        if !matches!(self.clients[idx].state, GroupClientState::Joined) {
            return Err(CallError::InvalidState);
        }
        self.events.push(Event::MediaKeysResent { client_id });
        Ok(())
    }

    /// Rings the group's other members.  Valid only while joined; the
    /// recipient, if any, is an opaque user id passed through unread.
    pub fn group_ring(&mut self, client_id: ClientId, recipient: Option<Vec<u8>>) -> (r: Result<
        (),
        CallError,
    >)
        requires
            old(self).wf(),
        ensures
            final(self).wf(),
            CallManager::ids_evolve(*old(self), *final(self)),
            !old(self).open ==> r == Err::<(), CallError>(CallError::InvalidState)
                && CallManager::state_eq(*old(self), *final(self)),
            old(self).open && !old(self).registered(client_id) ==> r == Err::<(), CallError>(
                CallError::UnknownClient,
            ) && CallManager::state_eq(*old(self), *final(self)),
            old(self).open && old(self).registered(client_id) ==> {
                let c = old(self).clients@[old(self).client_idx(client_id)];
                match c.state {
                    GroupClientState::Joined => {
                        &&& r == Ok::<(), CallError>(())
                        &&& CallManager::same_except_session(*old(self), *final(self))
                        &&& final(self).session == old(self).session
                        &&& final(self).events@ == old(self).events@.push(
                            (Event::Broadcast {
                                client_id,
                                kind: (BroadcastKind::Ring { recipient: recipient }),
                            }),
                        )
                    },
                    _ => r == Err::<(), CallError>(CallError::InvalidState)
                        && CallManager::state_eq(*old(self), *final(self)),
                }
            },
    {
        if !self.open {
            return Err(CallError::InvalidState);
        }
        let idx = match find_client_index(&self.clients, client_id) {
            Some(i) => i,
            None => {
                return Err(CallError::UnknownClient);
            },
        };
        proof {
            lemma_client_idx(*self, client_id);
        }
        if !matches!(self.clients[idx].state, GroupClientState::Joined) {
            return Err(CallError::InvalidState);
        }
        self.events.push(
            Event::Broadcast { client_id, kind: BroadcastKind::Ring { recipient } },
        );
        Ok(())
    }

    /// Cancels an outgoing group ring.  The group id is opaque; the
    /// cancellation is owed to the delegate with its reason.
    pub fn cancel_group_ring(
        &mut self,
        group_id: Vec<u8>,
        ring_id: RingId,
        reason: RingCancelReason,
    ) -> (r: Result<(), CallError>)
        requires
            old(self).wf(),
        ensures
            final(self).wf(),
            CallManager::ids_evolve(*old(self), *final(self)),
            !old(self).open ==> r == Err::<(), CallError>(CallError::InvalidState)
                && CallManager::state_eq(*old(self), *final(self)),
            old(self).open ==> {
                &&& r == Ok::<(), CallError>(())
                &&& CallManager::same_except_session(*old(self), *final(self))
                &&& final(self).session == old(self).session
                &&& final(self).events@ == old(self).events@.push(
                    (Event::RingCancelled { group_id: group_id, ring_id, reason }),
                )
            },
    {
        if !self.open {
            return Err(CallError::InvalidState);
        }
        self.events.push(Event::RingCancelled { group_id, ring_id, reason });
        Ok(())
    }

    /// Approves a user asking to join.  A moderation action: fails with
    /// `PermissionDenied` unless this client holds the administrative role.
    /// The target user id is opaque and passed through unread.
    pub fn approve_user(&mut self, client_id: ClientId, other_user_id: Vec<u8>) -> (r: Result<
        (),
        CallError,
    >)
        requires
            old(self).wf(),
        ensures
            final(self).wf(),
            CallManager::ids_evolve(*old(self), *final(self)),
            !old(self).open ==> r == Err::<(), CallError>(CallError::InvalidState)
                && CallManager::state_eq(*old(self), *final(self)),
            old(self).open && !old(self).registered(client_id) ==> r == Err::<(), CallError>(
                CallError::UnknownClient,
            ) && CallManager::state_eq(*old(self), *final(self)),
            old(self).open && old(self).registered(client_id) && !old(self).client_of(
                client_id,
            ).is_admin() ==> r == Err::<(), CallError>(CallError::PermissionDenied)
                && CallManager::state_eq(*old(self), *final(self)),
            old(self).open && old(self).registered(client_id) && old(self).client_of(
                client_id,
            ).is_admin() ==> {
                &&& r == Ok::<(), CallError>(())
                &&& CallManager::same_except_session(*old(self), *final(self))
                &&& final(self).session == old(self).session
                &&& final(self).events@ == old(self).events@.push(
                    (Event::Moderation {
                        client_id,
                        action: ModerationAction::Approve,
                        target: (ModerationTarget::User { user_id: other_user_id }),
                    }),
                )
            },
    {
        if !self.open {
            return Err(CallError::InvalidState);
        }
        let idx = match find_client_index(&self.clients, client_id) {
            Some(i) => i,
            None => {
                return Err(CallError::UnknownClient);
            },
        };
        proof {
            lemma_client_idx(*self, client_id);
        }
        if !self.clients[idx].has_admin_rights() {
            return Err(CallError::PermissionDenied);
        }
        self.events.push(
            Event::Moderation {
                client_id,
                action: ModerationAction::Approve,
                target: ModerationTarget::User { user_id: other_user_id },
            },
        );
        Ok(())
    }

    /// Denies a user asking to join.  Gated like [`Self::approve_user`].
    pub fn deny_user(&mut self, client_id: ClientId, other_user_id: Vec<u8>) -> (r: Result<
        (),
        CallError,
    >)
        requires
            old(self).wf(),
        ensures
            final(self).wf(),
            CallManager::ids_evolve(*old(self), *final(self)),
            !old(self).open ==> r == Err::<(), CallError>(CallError::InvalidState)
                && CallManager::state_eq(*old(self), *final(self)),
            old(self).open && !old(self).registered(client_id) ==> r == Err::<(), CallError>(
                CallError::UnknownClient,
            ) && CallManager::state_eq(*old(self), *final(self)),
            old(self).open && old(self).registered(client_id) && !old(self).client_of(
                client_id,
            ).is_admin() ==> r == Err::<(), CallError>(CallError::PermissionDenied)
                && CallManager::state_eq(*old(self), *final(self)),
            old(self).open && old(self).registered(client_id) && old(self).client_of(
                client_id,
            ).is_admin() ==> {
                &&& r == Ok::<(), CallError>(())
                &&& CallManager::same_except_session(*old(self), *final(self))
                &&& final(self).session == old(self).session
                &&& final(self).events@ == old(self).events@.push(
                    (Event::Moderation {
                        client_id,
                        action: ModerationAction::Deny,
                        target: (ModerationTarget::User { user_id: other_user_id }),
                    }),
                )
            },
    {
        if !self.open {
            return Err(CallError::InvalidState);
        }
        let idx = match find_client_index(&self.clients, client_id) {
            Some(i) => i,
            None => {
                return Err(CallError::UnknownClient);
            },
        };
        proof {
            lemma_client_idx(*self, client_id);
        }
        if !self.clients[idx].has_admin_rights() {
            return Err(CallError::PermissionDenied);
        }
        self.events.push(
            Event::Moderation {
                client_id,
                action: ModerationAction::Deny,
                target: ModerationTarget::User { user_id: other_user_id },
            },
        );
        Ok(())
    }

    /// Removes another participant, identified by demux id.  Gated like
    /// [`Self::approve_user`].
    pub fn remove_client(&mut self, client_id: ClientId, other_client_demux_id: u64) -> (r: Result<
        (),
        CallError,
    >)
        requires
            old(self).wf(),
        ensures
            final(self).wf(),
            CallManager::ids_evolve(*old(self), *final(self)),
            !old(self).open ==> r == Err::<(), CallError>(CallError::InvalidState)
                && CallManager::state_eq(*old(self), *final(self)),
            old(self).open && !old(self).registered(client_id) ==> r == Err::<(), CallError>(
                CallError::UnknownClient,
            ) && CallManager::state_eq(*old(self), *final(self)),
            old(self).open && old(self).registered(client_id) && !old(self).client_of(
                client_id,
            ).is_admin() ==> r == Err::<(), CallError>(CallError::PermissionDenied)
                && CallManager::state_eq(*old(self), *final(self)),
            old(self).open && old(self).registered(client_id) && old(self).client_of(
                client_id,
            ).is_admin() ==> {
                &&& r == Ok::<(), CallError>(())
                &&& CallManager::same_except_session(*old(self), *final(self))
                &&& final(self).session == old(self).session
                &&& final(self).events@ == old(self).events@.push(
                    (Event::Moderation {
                        client_id,
                        action: ModerationAction::Remove,
                        target: (ModerationTarget::Participant { demux_id: other_client_demux_id }),
                    }),
                )
            },
    {
        if !self.open {
            return Err(CallError::InvalidState);
        }
        let idx = match find_client_index(&self.clients, client_id) {
            Some(i) => i,
            None => {
                return Err(CallError::UnknownClient);
            },
        };
        proof {
            lemma_client_idx(*self, client_id);
        }
        if !self.clients[idx].has_admin_rights() {
            return Err(CallError::PermissionDenied);
        }
        self.events.push(
            Event::Moderation {
                client_id,
                action: ModerationAction::Remove,
                target: ModerationTarget::Participant { demux_id: other_client_demux_id },
            },
        );
        Ok(())
    }

    /// Removes and blacklists another participant, identified by demux id.
    /// Gated like [`Self::approve_user`].
    pub fn block_client(&mut self, client_id: ClientId, other_client_demux_id: u64) -> (r: Result<
        (),
        CallError,
    >)
        requires
            old(self).wf(),
        ensures
            final(self).wf(),
            CallManager::ids_evolve(*old(self), *final(self)),
            !old(self).open ==> r == Err::<(), CallError>(CallError::InvalidState)
                && CallManager::state_eq(*old(self), *final(self)),
            old(self).open && !old(self).registered(client_id) ==> r == Err::<(), CallError>(
                CallError::UnknownClient,
            ) && CallManager::state_eq(*old(self), *final(self)),
            old(self).open && old(self).registered(client_id) && !old(self).client_of(
                client_id,
            ).is_admin() ==> r == Err::<(), CallError>(CallError::PermissionDenied)
                && CallManager::state_eq(*old(self), *final(self)),
            old(self).open && old(self).registered(client_id) && old(self).client_of(
                client_id,
            ).is_admin() ==> {
                &&& r == Ok::<(), CallError>(())
                &&& CallManager::same_except_session(*old(self), *final(self))
                &&& final(self).session == old(self).session
                &&& final(self).events@ == old(self).events@.push(
                    (Event::Moderation {
                        client_id,
                        action: ModerationAction::Block,
                        target: (ModerationTarget::Participant { demux_id: other_client_demux_id }),
                    }),
                )
            },
    {
        if !self.open {
            return Err(CallError::InvalidState);
        }
        let idx = match find_client_index(&self.clients, client_id) {
            Some(i) => i,
            None => {
                return Err(CallError::UnknownClient);
            },
        };
        proof {
            lemma_client_idx(*self, client_id);
        }
        if !self.clients[idx].has_admin_rights() {
            return Err(CallError::PermissionDenied);
        }
        self.events.push(
            Event::Moderation {
                client_id,
                action: ModerationAction::Block,
                target: ModerationTarget::Participant { demux_id: other_client_demux_id },
            },
        );
        Ok(())
    }

    /// Replaces the serialized group membership used to validate joins.
    /// The bytes are opaque; their freshness is the external credential
    /// collaborator's concern.
    pub fn set_group_members(&mut self, client_id: ClientId, serialized_members: Vec<u8>) -> (r:
        Result<(), CallError>)
        requires
            old(self).wf(),
        ensures
            final(self).wf(),
            CallManager::ids_evolve(*old(self), *final(self)),
            !old(self).open ==> r == Err::<(), CallError>(CallError::InvalidState)
                && CallManager::state_eq(*old(self), *final(self)),
            old(self).open && !old(self).registered(client_id) ==> r == Err::<(), CallError>(
                CallError::UnknownClient,
            ) && CallManager::state_eq(*old(self), *final(self)),
            old(self).open && old(self).registered(client_id) ==> {
                let i = old(self).client_idx(client_id);
                let c = old(self).clients@[i];
                &&& r == Ok::<(), CallError>(())
                &&& final(self).clients@ == old(self).clients@.update(
                    i,
                    (GroupCallClient { group_members: serialized_members, ..c }),
                )
                &&& final(self).registered(client_id)
                &&& final(self).client_idx(client_id) == i
                &&& CallManager::same_except_clients(*old(self), *final(self))
                &&& final(self).next_client_id == old(self).next_client_id
                &&& final(self).events == old(self).events
            },
    {
        if !self.open {
            return Err(CallError::InvalidState);
        }
        let idx = match find_client_index(&self.clients, client_id) {
            Some(i) => i,
            None => {
                return Err(CallError::UnknownClient);
            },
        };
        proof {
            lemma_client_idx(*self, client_id);
        }
        let c = &mut self.clients[idx];
        c.group_members = serialized_members;
        proof {
            assert(self.clients@[idx as int].client_id == client_id);
            lemma_client_idx(*self, client_id);
        }
        Ok(())
    }

    /// Replaces the membership proof presented when joining.  The bytes
    /// are opaque; their validity window is enforced externally.
    pub fn set_membership_proof(&mut self, client_id: ClientId, proof_bytes: Vec<u8>) -> (r: Result<
        (),
        CallError,
    >)
        requires
            old(self).wf(),
        ensures
            final(self).wf(),
            CallManager::ids_evolve(*old(self), *final(self)),
            !old(self).open ==> r == Err::<(), CallError>(CallError::InvalidState)
                && CallManager::state_eq(*old(self), *final(self)),
            old(self).open && !old(self).registered(client_id) ==> r == Err::<(), CallError>(
                CallError::UnknownClient,
            ) && CallManager::state_eq(*old(self), *final(self)),
            old(self).open && old(self).registered(client_id) ==> {
                let i = old(self).client_idx(client_id);
                let c = old(self).clients@[i];
                &&& r == Ok::<(), CallError>(())
                &&& final(self).clients@ == old(self).clients@.update(
                    i,
                    (GroupCallClient { membership_proof: proof_bytes, ..c }),
                )
                &&& final(self).registered(client_id)
                &&& final(self).client_idx(client_id) == i
                &&& CallManager::same_except_clients(*old(self), *final(self))
                &&& final(self).next_client_id == old(self).next_client_id
                &&& final(self).events == old(self).events
            },
    {
        if !self.open {
            return Err(CallError::InvalidState);
        }
        let idx = match find_client_index(&self.clients, client_id) {
            Some(i) => i,
            None => {
                return Err(CallError::UnknownClient);
            },
        };
        proof {
            lemma_client_idx(*self, client_id);
        }
        let c = &mut self.clients[idx];
        c.membership_proof = proof_bytes;
        proof {
            assert(self.clients@[idx as int].client_id == client_id);
            lemma_client_idx(*self, client_id);
        }
        Ok(())
    }

    /// Broadcasts a reaction to the other participants.  No state-machine
    /// impact; the value itself is passed through unread.
    pub fn react(&mut self, client_id: ClientId, value: String) -> (r: Result<(), CallError>)
        requires
            old(self).wf(),
        ensures
            final(self).wf(),
            CallManager::ids_evolve(*old(self), *final(self)),
            !old(self).open ==> r == Err::<(), CallError>(CallError::InvalidState)
                && CallManager::state_eq(*old(self), *final(self)),
            old(self).open && !old(self).registered(client_id) ==> r == Err::<(), CallError>(
                CallError::UnknownClient,
            ) && CallManager::state_eq(*old(self), *final(self)),
            old(self).open && old(self).registered(client_id) ==> {
                &&& r == Ok::<(), CallError>(())
                &&& CallManager::same_except_session(*old(self), *final(self))
                &&& final(self).session == old(self).session
                &&& final(self).events@ == old(self).events@.push(
                    (Event::Broadcast {
                        client_id,
                        kind: (BroadcastKind::Reaction { value: value }),
                    }),
                )
            },
    {
        if !self.open {
            return Err(CallError::InvalidState);
        }
        match find_client_index(&self.clients, client_id) {
            Some(_) => {},
            None => {
                return Err(CallError::UnknownClient);
            },
        }
        self.events.push(
            Event::Broadcast { client_id, kind: BroadcastKind::Reaction { value } },
        );
        Ok(())
    }

    /// Raises or lowers the local user's hand; the flag is the only
    /// state-machine impact, and the change is broadcast.
    pub fn raise_hand(&mut self, client_id: ClientId, raise: bool) -> (r: Result<(), CallError>)
        requires
            old(self).wf(),
        ensures
            final(self).wf(),
            CallManager::ids_evolve(*old(self), *final(self)),
            !old(self).open ==> r == Err::<(), CallError>(CallError::InvalidState)
                && CallManager::state_eq(*old(self), *final(self)),
            old(self).open && !old(self).registered(client_id) ==> r == Err::<(), CallError>(
                CallError::UnknownClient,
            ) && CallManager::state_eq(*old(self), *final(self)),
            old(self).open && old(self).registered(client_id) ==> {
                let i = old(self).client_idx(client_id);
                let c = old(self).clients@[i];
                &&& r == Ok::<(), CallError>(())
                &&& final(self).clients@ == old(self).clients@.update(
                    i,
                    (GroupCallClient { raised_hand: raise, ..c }),
                )
                &&& final(self).registered(client_id)
                &&& final(self).client_idx(client_id) == i
                &&& CallManager::same_except_clients(*old(self), *final(self))
                &&& final(self).next_client_id == old(self).next_client_id
                &&& final(self).events@ == old(self).events@.push(
                    Event::Broadcast { client_id, kind: BroadcastKind::HandRaised(raise) },
                )
            },
    {
        if !self.open {
            return Err(CallError::InvalidState);
        }
        let idx = match find_client_index(&self.clients, client_id) {
            Some(i) => i,
            None => {
                return Err(CallError::UnknownClient);
            },
        };
        proof {
            lemma_client_idx(*self, client_id);
        }
        let c = &mut self.clients[idx];
        c.raised_hand = raise;
        self.events.push(Event::Broadcast { client_id, kind: BroadcastKind::HandRaised(raise) });
        proof {
            assert(self.clients@[idx as int].client_id == client_id);
            lemma_client_idx(*self, client_id);
        }
        Ok(())
    }
}

} // verus!
