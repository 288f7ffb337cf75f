use vstd::prelude::*;
use priority_queue::PriorityQueue;
use crate::graph::models::{pos, Pos, FIELD};

verus! {

/// `priority_queue::PriorityQueue`, opaque to the verifier: what a queue
/// holds is known through `frontier_entries` alone.
#[verifier::external_type_specification]
#[verifier::external_body]
#[verifier::reject_recursive_types(I)]
#[verifier::reject_recursive_types(P)]
#[verifier::reject_recursive_types(H)]
pub struct ExPriorityQueue<I, P, H>(PriorityQueue<I, P, H>);

/// What a search frontier holds: positions, each with its priority.
pub type Frontier = Map<Pos, int>;

/// The positions waiting in a search frontier, each with its priority.
pub uninterp spec fn frontier_entries(queue: PriorityQueue<FIELD, i32>) -> Map<Pos, int>;

/// `PriorityQueue::new`: a queue that holds nothing.
#[verifier::external_body]
pub(crate) fn frontier_new() -> (queue: PriorityQueue<FIELD, i32>)
    ensures
        frontier_entries(queue) == Frontier::empty(),
{
    PriorityQueue::new()
}

/// `PriorityQueue::push`: the position enters the queue with the given
/// priority. Where the queue already held it, only its priority changes;
/// the priority it had before is returned.
#[verifier::external_body]
pub(crate) fn frontier_push(queue: &mut PriorityQueue<FIELD, i32>, field: FIELD, priority: i32) -> (before: Option<i32>)
    ensures
        frontier_entries(*final(queue)) == frontier_entries(*old(queue)).insert(
            pos(field),
            priority as int,
        ),
        before.is_some() == frontier_entries(*old(queue)).contains_key(pos(field)),
        before.is_some() ==> before.unwrap() as int == frontier_entries(*old(queue))[pos(field)],
{
    queue.push(field, priority)
}

/// `PriorityQueue::pop`: `None` exactly when the queue is empty, and the
/// queue stays as it is. Otherwise an entry leaves the queue whose priority
/// no other entry exceeds; which one among equals is not fixed.
#[verifier::external_body]
pub(crate) fn frontier_pop(queue: &mut PriorityQueue<FIELD, i32>) -> (top: Option<(FIELD, i32)>)
    ensures
        top.is_none() ==> frontier_entries(*old(queue)) == Frontier::empty()
            && frontier_entries(*final(queue)) == frontier_entries(*old(queue)),
        top.is_some() ==> {
            let (field, priority) = top.unwrap();
            &&& frontier_entries(*old(queue)).contains_key(pos(field))
            &&& frontier_entries(*old(queue))[pos(field)] == priority as int
            &&& forall|other: Pos| #[trigger]
                frontier_entries(*old(queue)).contains_key(other) ==> frontier_entries(
                    *old(queue),
                )[other] <= priority as int
            &&& frontier_entries(*final(queue)) == frontier_entries(*old(queue)).remove(
                pos(field),
            )
        },
{
    queue.pop()
}

} // verus!
