//! The orchestrator instance: the one-to-one call session, the group-call
//! client registry, the pending-request correlator, and the ordered event
//! sequence owed to the delegate sink.
//!
//! All state-mutating operations are methods of [`CallManager`], take the
//! whole instance mutably, and are all-or-nothing: on an error path the
//! instance is left exactly as it was.

use vstd::prelude::*;

use crate::events::Event;
use crate::group::GroupCallClient;
use crate::session::CallSession;
use crate::types::{CallError, CallId, ClientId};

verus! {

/// What a pending entry in the correlator is waiting for.
#[derive(Clone, Copy, PartialEq, Eq, Structural, Debug)]
pub enum RequestKind {
    /// An HTTP-style round trip for a call-link operation.
    HttpCorrelated,
    /// An SFU peek query.
    PeekQuery,
}

/// One outstanding asynchronous request awaiting its completion.  At most
/// one live entry exists per request id.
#[derive(Clone, Copy, PartialEq, Eq, Structural, Debug)]
pub struct PendingRequest {
    /// Caller-supplied correlation id.
    pub request_id: u64,
    pub kind: RequestKind,
    /// Logical creation time: the manager's clock when registered.
    pub created_at: u64,
}

/// The orchestrator.  One instance manages at most one one-to-one call and
/// any number of group-call clients; all its state is in memory and lives
/// exactly as long as the instance.
#[derive(Debug)]
pub struct CallManager {
    /// Cleared by [`CallManager::close`]; a closed instance refuses every
    /// state-mutating operation.
    pub open: bool,
    /// The local user's identifier, opaque bytes.
    pub self_uuid: Vec<u8>,
    /// The single one-to-one call context, if any.
    pub session: Option<CallSession>,
    /// Next call id handed to an outgoing call; ids only grow, so no id is
    /// issued twice by this instance.
    pub next_call_id: CallId,
    /// The group-call client registry, keyed by client id.
    pub clients: Vec<GroupCallClient>,
    /// Next client id to allocate; ids only grow, so a deleted client's id
    /// is never resolved again.
    pub next_client_id: ClientId,
    /// Outstanding peek and call-link requests.
    pub pending: Vec<PendingRequest>,
    /// Logical clock stamped onto pending requests as they are registered.
    pub clock: u64,
    /// Events owed to the delegate sink, in application order.
    pub events: Vec<Event>,
}

impl CallManager {
    /// Well-formedness: client ids are non-sentinel, unique, and below the
    /// allocation cursor; request ids of outstanding requests are unique;
    /// a closed orchestrator holds no session, no clients, and no
    /// outstanding requests.
    pub open spec fn wf(self) -> bool {
        &&& self.next_client_id >= 1
        &&& !self.open ==> {
            &&& self.session is None
            &&& self.clients@.len() == 0
            &&& self.pending@.len() == 0
        }
        &&& forall|i: int|
            0 <= i < self.clients@.len() ==> 0 < (#[trigger] self.clients@[i]).client_id
                < self.next_client_id
        &&& forall|i: int, j: int|
            0 <= i < j < self.clients@.len() ==> (#[trigger] self.clients@[i]).client_id != (
            #[trigger] self.clients@[j]).client_id
        &&& forall|i: int, j: int|
            0 <= i < j < self.pending@.len() ==> (#[trigger] self.pending@[i]).request_id != (
            #[trigger] self.pending@[j]).request_id
    }

    /// A session exists and has not reached a terminal state.
    pub open spec fn has_active_session(self) -> bool {
        match self.session {
            Some(s) => !s.is_terminal(),
            None => false,
        }
    }

    /// A session exists (terminal or not) and tracks the given call id.
    pub open spec fn session_matches(self, call_id: CallId) -> bool {
        match self.session {
            Some(s) => s.call_id == call_id,
            None => false,
        }
    }

    /// A live client with the given id is in the registry.
    pub open spec fn registered(self, client_id: ClientId) -> bool {
        exists|i: int|
            0 <= i < self.clients@.len() && (#[trigger] self.clients@[i]).client_id == client_id
    }

    /// Index of the live client with the given id; meaningful only when
    /// [`Self::registered`] holds, and then unique by well-formedness.
    pub open spec fn client_idx(self, client_id: ClientId) -> int {
        choose|i: int|
            0 <= i < self.clients@.len() && (#[trigger] self.clients@[i]).client_id == client_id
    }

    /// The live client with the given id.
    pub open spec fn client_of(self, client_id: ClientId) -> GroupCallClient {
        self.clients@[self.client_idx(client_id)]
    }

    /// A request with the given id is outstanding.
    pub open spec fn request_live(self, request_id: u64) -> bool {
        exists|i: int|
            0 <= i < self.pending@.len() && (#[trigger] self.pending@[i]).request_id == request_id
    }

    /// Index of the outstanding request with the given id; meaningful only
    /// when [`Self::request_live`] holds, and then unique.
    pub open spec fn request_idx(self, request_id: u64) -> int {
        choose|i: int|
            0 <= i < self.pending@.len() && (#[trigger] self.pending@[i]).request_id == request_id
    }

    /// Every field but the session and the event sequence is unchanged.
    pub open spec fn same_except_session(pre: CallManager, post: CallManager) -> bool {
        &&& post.open == pre.open
        &&& post.self_uuid == pre.self_uuid
        &&& post.next_call_id == pre.next_call_id
        &&& post.clients == pre.clients
        &&& post.next_client_id == pre.next_client_id
        &&& post.pending == pre.pending
        &&& post.clock == pre.clock
    }

    /// Every field but the client registry, its allocation cursor, and the
    /// event sequence is unchanged.
    pub open spec fn same_except_clients(pre: CallManager, post: CallManager) -> bool {
        &&& post.open == pre.open
        &&& post.self_uuid == pre.self_uuid
        &&& post.session == pre.session
        &&& post.next_call_id == pre.next_call_id
        &&& post.pending == pre.pending
        &&& post.clock == pre.clock
    }

    /// Every field but the correlator table, the clock, and the event
    /// sequence is unchanged.
    pub open spec fn same_except_requests(pre: CallManager, post: CallManager) -> bool {
        &&& post.open == pre.open
        &&& post.self_uuid == pre.self_uuid
        &&& post.session == pre.session
        &&& post.next_call_id == pre.next_call_id
        &&& post.clients == pre.clients
        &&& post.next_client_id == pre.next_client_id
    }

    /// Nothing at all changed, the event sequence included.
    pub open spec fn state_eq(pre: CallManager, post: CallManager) -> bool {
        &&& Self::same_except_session(pre, post)
        &&& post.session == pre.session
        &&& post.events == pre.events
    }

    /// How client identifiers may evolve across any operation: the
    /// allocation cursor never moves back, and a client id registered
    /// afterwards was either registered before or freshly allocated at or
    /// beyond the earlier cursor.  A retired id below the cursor can
    /// therefore never come back.
    pub open spec fn ids_evolve(pre: CallManager, post: CallManager) -> bool {
        &&& post.next_client_id >= pre.next_client_id
        &&& forall|id: ClientId|
            #[trigger] post.registered(id) ==> pre.registered(id) || id >= pre.next_client_id
    }

    /// A fresh, open orchestrator with no session, no clients, and no
    /// outstanding requests.
    pub fn new() -> (r: CallManager)
        ensures
            r.wf(),
            r.open,
            r.session is None,
            r.clients@.len() == 0,
            r.pending@.len() == 0,
            r.events@.len() == 0,
            r.self_uuid@.len() == 0,
            r.next_call_id == 1,
            r.next_client_id == 1,
            r.clock == 0,
    {
        CallManager {
            open: true,
            self_uuid: Vec::new(),
            session: Option::<CallSession>::None,
            next_call_id: 1,
            clients: Vec::new(),
            next_client_id: 1,
            pending: Vec::new(),
            clock: 0,
            events: Vec::new(),
        }
    }

    /// The call id of the current session, terminal or not.
    pub fn active_call_id(&self) -> (r: Option<CallId>)
        ensures
            r == (match self.session {
                Some(s) => Some(s.call_id),
                None => Option::<CallId>::None,
            }),
    {
        match &self.session {
            Some(s) => Some(s.call_id),
            None => Option::<CallId>::None,
        }
    }

    /// Hands the events owed to the delegate sink out for delivery, oldest
    /// first, and clears the backlog.  Delivering what this returns, in
    /// order, delivers every transition in the order it was applied.
    pub fn take_events(&mut self) -> (r: Vec<Event>)
        requires
            old(self).wf(),
        ensures
            final(self).wf(),
            r@ == old(self).events@,
            final(self).events@ == Seq::<Event>::empty(),
            CallManager::same_except_session(*old(self), *final(self)),
            final(self).session == old(self).session,
            CallManager::ids_evolve(*old(self), *final(self)),
    {
        let mut drained: Vec<Event> = Vec::new();
        core::mem::swap(&mut drained, &mut self.events);
        drained
    }

    /// The state of the current session, if one exists.
    pub fn session_state(&self) -> (r: Option<crate::session::SessionState>)
        ensures
            r == (match self.session {
                Some(s) => Some(s.state),
                None => Option::<crate::session::SessionState>::None,
            }),
    {
        match &self.session {
            Some(s) => Some(s.state),
            None => Option::<crate::session::SessionState>::None,
        }
    }
}

/// Scans the registry for the client with the given id.
pub(crate) fn find_client_index(clients: &Vec<GroupCallClient>, client_id: ClientId) -> (r: Option<
    usize,
>)
    ensures
        match r {
            Some(i) => i < clients@.len() && clients@[i as int].client_id == client_id,
            None => forall|j: int|
                0 <= j < clients@.len() ==> (#[trigger] clients@[j]).client_id != client_id,
        },
{
    let mut i: usize = 0;
    while i < clients.len()
        invariant
            i <= clients@.len(),
            forall|j: int| 0 <= j < i ==> (#[trigger] clients@[j]).client_id != client_id,
        decreases clients@.len() - i,
    {
        if clients[i].client_id == client_id {
            return Some(i);
        }
        i = i + 1;
    }
    Option::<usize>::None
}

/// Scans the correlator table for the outstanding request with the given id.
pub(crate) fn find_request_index(pending: &Vec<PendingRequest>, request_id: u64) -> (r: Option<
    usize,
>)
    ensures
        match r {
            Some(i) => i < pending@.len() && pending@[i as int].request_id == request_id,
            None => forall|j: int|
                0 <= j < pending@.len() ==> (#[trigger] pending@[j]).request_id != request_id,
        },
{
    let mut i: usize = 0;
    while i < pending.len()
        invariant
            i <= pending@.len(),
            forall|j: int| 0 <= j < i ==> (#[trigger] pending@[j]).request_id != request_id,
        decreases pending@.len() - i,
    {
        if pending[i].request_id == request_id {
            return Some(i);
        }
        i = i + 1;
    }
    Option::<usize>::None
}

/// In a well-formed manager the index of a registered client is unique: any
/// index holding the id is `client_idx`.
pub proof fn lemma_client_idx(m: CallManager, client_id: ClientId)
    requires
        m.wf(),
        m.registered(client_id),
    ensures
        0 <= m.client_idx(client_id) < m.clients@.len(),
        m.clients@[m.client_idx(client_id)].client_id == client_id,
        forall|j: int|
            0 <= j < m.clients@.len() && (#[trigger] m.clients@[j]).client_id == client_id ==> j
                == m.client_idx(client_id),
{
    let idx = m.client_idx(client_id);
    assert(0 <= idx < m.clients@.len() && m.clients@[idx].client_id == client_id);
    assert forall|j: int|
        0 <= j < m.clients@.len() && (#[trigger] m.clients@[j]).client_id == client_id implies j
        == idx by {
        if j < idx {
            assert(m.clients@[j].client_id != m.clients@[idx].client_id);
        } else if idx < j {
            assert(m.clients@[idx].client_id != m.clients@[j].client_id);
        }
    }
}

/// In a well-formed manager the index of an outstanding request is unique.
pub proof fn lemma_request_idx(m: CallManager, request_id: u64)
    requires
        m.wf(),
        m.request_live(request_id),
    ensures
        0 <= m.request_idx(request_id) < m.pending@.len(),
        m.pending@[m.request_idx(request_id)].request_id == request_id,
        forall|j: int|
            0 <= j < m.pending@.len() && (#[trigger] m.pending@[j]).request_id == request_id ==> j
                == m.request_idx(request_id),
{
    let idx = m.request_idx(request_id);
    assert(0 <= idx < m.pending@.len() && m.pending@[idx].request_id == request_id);
    assert forall|j: int|
        0 <= j < m.pending@.len() && (#[trigger] m.pending@[j]).request_id == request_id implies j
        == idx by {
        if j < idx {
            assert(m.pending@[j].request_id != m.pending@[idx].request_id);
        } else if idx < j {
            assert(m.pending@[idx].request_id != m.pending@[j].request_id);
        }
    }
}

} // verus!
