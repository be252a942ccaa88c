//! The engine gate under concurrent invocations.
//!
//! Candidate production may be invoked concurrently: the scheduler calls it
//! once per observed primary-chain event, and calls may overlap.  The one
//! shared mutable resource is the authoring engine, guarded by a gate that
//! grants its execution right to one invocation at a time and takes it back
//! when the attempt resolves — exactly what [`crate::orchestrator::AuthoringHandle::attempt`]
//! does around its one engine call.
//!
//! This module states that protocol as a transition system over the phases
//! of any number of concurrent invocations and proves its point: in every
//! reachable state, at most one invocation is inside the engine.

use vstd::prelude::*;

verus! {

/// The phase one invocation is in, as far as the engine gate cares.
pub enum InvocationPhase {
    /// Outside the engine, possibly waiting for its execution right.
    Waiting,
    /// Holding the execution right: inside the engine's attempt call.
    Engaged,
    /// Finished: the right has been released, or was never needed.
    Done,
}

/// The starting state: the phase of each concurrent invocation.
pub open spec fn gate_init(count: nat) -> Seq<InvocationPhase> {
    Seq::new(count, |i: int| InvocationPhase::Waiting)
}

/// One move, taken by invocation `chosen`: the right is granted
/// only while nobody holds it, and an invocation that holds it can only
/// resolve and release it.  Everyone else stands still.
pub open spec fn gate_step(
    pre: Seq<InvocationPhase>,
    post: Seq<InvocationPhase>,
    chosen: int,
) -> bool {
    &&& 0 <= chosen < pre.len()
    &&& post.len() == pre.len()
    &&& (forall|other: int| 0 <= other < pre.len() && other != chosen ==> post[other] == pre[
        other
    ])
    &&& match (pre[chosen], post[chosen]) {
        (InvocationPhase::Waiting, InvocationPhase::Engaged) => forall|other: int|
            0 <= other < pre.len() ==> !(pre[other] is Engaged),
        (InvocationPhase::Engaged, InvocationPhase::Done) => true,
        _ => false,
    }
}

/// Mutual exclusion: no two invocations are inside the engine at once.
pub open spec fn mutually_exclusive(state: Seq<InvocationPhase>) -> bool {
    forall|i: int, j: int|
        0 <= i < state.len() && 0 <= j < state.len() && state[i] is Engaged
            && state[j] is Engaged ==> i == j
}

/// An interleaving of `count` concurrent invocations: successive gate
/// states, starting idle, each reached from the last by one move of one
/// invocation.
pub open spec fn gate_run(states: Seq<Seq<InvocationPhase>>, count: nat) -> bool {
    &&& states.len() > 0
    &&& states[0] == gate_init(count)
    &&& forall|k: int|
        #![trigger states[k]]
        0 <= k < states.len() - 1 ==> exists|chosen: int|
            #[trigger] gate_step(states[k], states[k + 1], chosen)
}

/// Before anything moves, nobody is inside the engine.
pub proof fn lemma_gate_init_exclusive(count: nat)
    ensures
        mutually_exclusive(gate_init(count)),
{
}

/// One move keeps mutual exclusion: granting requires an empty gate, and
/// every other move only leaves the engine.
pub proof fn lemma_gate_step_preserves_exclusion(
    pre: Seq<InvocationPhase>,
    post: Seq<InvocationPhase>,
    chosen: int,
)
    requires
        mutually_exclusive(pre),
        gate_step(pre, post, chosen),
    ensures
        mutually_exclusive(post),
{
    assert forall|i: int, j: int|
        0 <= i < post.len() && 0 <= j < post.len() && post[i] is Engaged
            && post[j] is Engaged implies i == j by {
        if pre[chosen] is Waiting {
            if i != chosen {
                assert(post[i] == pre[i]);
            }
            if j != chosen {
                assert(post[j] == pre[j]);
            }
        } else {
            if i != chosen {
                assert(post[i] == pre[i]);
            }
            if j != chosen {
                assert(post[j] == pre[j]);
            }
        }
    }
}

/// Under any interleaving of any number of concurrent invocations, the
/// engine's attempt call is never active for two invocations at once: every
/// state of every run keeps mutual exclusion.
pub proof fn lemma_gate_run_exclusive(states: Seq<Seq<InvocationPhase>>, count: nat, k: int)
    requires
        gate_run(states, count),
        0 <= k < states.len(),
    ensures
        mutually_exclusive(states[k]),
    decreases k,
{
    if k == 0 {
        lemma_gate_init_exclusive(count);
    } else {
        lemma_gate_run_exclusive(states, count, k - 1);
        assert(exists|chosen: int| #[trigger] gate_step(states[k - 1], states[k - 1 + 1], chosen));
        let chosen = choose|chosen: int| #[trigger] gate_step(states[k - 1], states[k], chosen);
        lemma_gate_step_preserves_exclusion(states[k - 1], states[k], chosen);
    }
}

} // verus!
