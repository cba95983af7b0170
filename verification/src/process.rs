//! Processes that wait for the outside world.
//!
//! A security level cannot finish a request on its own. It asks for a permission check,
//! for a key of the database, for an answer of the KeyMint device, and decides upon each
//! reply what to ask for next. Here such a request is a process: a value whose variants
//! are the calls it can wait for, each with the arguments of the call, and which moves
//! to its next state when the caller hands it the reply.

use vstd::prelude::*;

verus! {

/// The states of a process and how a reply takes it from one to the next.
pub trait Process: Sized {
    /// What the outside world can answer.
    type Reply;

    /// Whether the process moves from this state to `next` upon `reply`.
    spec fn step(self, reply: Self::Reply, next: Self) -> bool;
}

/// Whether reply `i` takes the process from state `i` to state `i + 1`.
pub open spec fn step_at<S: Process>(states: Seq<S>, replies: Seq<S::Reply>, i: int) -> bool {
    states[i].step(replies[i], states[i + 1])
}

/// Whether the process passes through exactly `states` as it gets `replies` in turn.
pub open spec fn is_run<S: Process>(states: Seq<S>, replies: Seq<S::Reply>) -> bool {
    &&& states.len() == replies.len() + 1
    &&& forall|i: int| 0 <= i < replies.len() ==> #[trigger] step_at(states, replies, i)
}

} // verus!
