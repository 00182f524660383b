//! Properties of the orchestrator that relate several operations or hold of
//! every state, stated and proved once over the specification functions the
//! operation contracts use.

use vstd::prelude::*;

use crate::manager::CallManager;
use crate::ring::ring_hash;
use crate::session::{hangup_applied, IceCandidate, SessionState, TerminationReason};
use crate::types::{CallId, ClientId};

verus! {

/// Applying the same remote hangup twice is idempotent: the second
/// application leaves the state exactly where the first left it, so a
/// duplicate hangup delivery changes nothing and signals no error.
pub proof fn lemma_hangup_idempotent(state: SessionState, reason: TerminationReason)
    ensures
        hangup_applied(hangup_applied(state, reason), reason) == hangup_applied(state, reason),
{
}

/// Flushing the ICE buffer preserves arrival order: when the applied
/// sequence is extended by the buffered candidates, two candidates
/// buffered at positions `i` before `j` are applied at positions in the
/// same order, whatever the signaling reordering across devices did to the
/// rest of the traffic.
pub proof fn lemma_flush_preserves_arrival_order(
    applied_pre: Seq<IceCandidate>,
    buffered: Seq<IceCandidate>,
    applied_post: Seq<IceCandidate>,
    i: int,
    j: int,
)
    requires
        applied_post == applied_pre + buffered,
        0 <= i <= j < buffered.len(),
    ensures
        applied_post[applied_pre.len() + i] == buffered[i],
        applied_post[applied_pre.len() + j] == buffered[j],
        applied_pre.len() + i <= applied_pre.len() + j,
{
}

/// At most one call session exists at any time: if sessions with call ids
/// `a` and `b` are both tracked, the ids are the same session's.
pub proof fn lemma_at_most_one_session(m: CallManager, a: CallId, b: CallId)
    requires
        m.session_matches(a),
        m.session_matches(b),
    ensures
        a == b,
{
}

/// Ring-id derivation is deterministic: equal era-id byte sequences hash to
/// equal values, in every process and on every device.
pub proof fn lemma_ring_id_deterministic(a: Seq<u8>, b: Seq<u8>)
    requires
        a == b,
    ensures
        ring_hash(a) == ring_hash(b),
{
}

/// Identifier evolution is transitive: chaining any two operations again
/// satisfies [`CallManager::ids_evolve`].
pub proof fn lemma_ids_evolve_trans(m1: CallManager, m2: CallManager, m3: CallManager)
    requires
        CallManager::ids_evolve(m1, m2),
        CallManager::ids_evolve(m2, m3),
    ensures
        CallManager::ids_evolve(m1, m3),
{
    assert forall|id: ClientId| #[trigger] m3.registered(id) implies m1.registered(id) || id
        >= m1.next_client_id by {
        if m2.registered(id) {
        } else {
            assert(id >= m2.next_client_id);
        }
    }
}

/// A retired client id never resolves again: once an id below the
/// allocation cursor is not registered, no chain of operations can register
/// it anew, so every later lookup of it fails.
pub proof fn lemma_retired_id_stays_unknown(m1: CallManager, m2: CallManager, id: ClientId)
    requires
        CallManager::ids_evolve(m1, m2),
        !m1.registered(id),
        id < m1.next_client_id,
    ensures
        !m2.registered(id),
{
}

} // verus!
