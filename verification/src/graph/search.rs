use vstd::prelude::*;
use crate::graph::graph::Field;
use crate::graph::models::{Figure, Pos};
use crate::graph::state::occupied;
use crate::graph::topology::{adjacent, estimate, on_board};

verus! {

/// The positions that a search does not pass through: those that hold a
/// figure in `state`, and the vertices of `graph` that are flagged as
/// occupied.
pub open spec fn blocked(graph: Map<Pos, Field>, state: Seq<(Pos, Figure)>) -> Set<Pos> {
    Set::new(|p: Pos| occupied(state).contains(p) || (graph.contains_key(p) && graph[p].occupied))
}

/// Every position of `path` is one step away from the one before it.
pub open spec fn is_walk(path: Seq<Pos>) -> bool {
    &&& path.len() >= 1
    &&& forall|i: int| 0 <= i < path.len() - 1 ==> adjacent(#[trigger] path[i], path[i + 1])
}

/// No position strictly between the two ends of `path` is closed.
pub open spec fn is_open(path: Seq<Pos>, closed: Set<Pos>) -> bool {
    forall|i: int| 0 < i < path.len() - 1 ==> !closed.contains(#[trigger] path[i])
}

/// `path` leads from `src` to `dest` and passes through no closed position.
pub open spec fn connects(path: Seq<Pos>, src: Pos, dest: Pos, closed: Set<Pos>) -> bool {
    &&& is_walk(path)
    &&& path[0] == src
    &&& path.last() == dest
    &&& is_open(path, closed)
}

/// Some path leads from `src` to `dest` and passes through no closed
/// position. The two ends may be closed themselves.
pub open spec fn reachable(src: Pos, dest: Pos, closed: Set<Pos>) -> bool {
    exists|path: Seq<Pos>| connects(path, src, dest, closed)
}

/// `frontier` after every position of `items` has been pushed, in order,
/// with its estimate to `goal` as priority.
pub open spec fn pushed_all(frontier: Map<Pos, int>, items: Seq<Pos>, goal: Pos) -> Map<Pos, int>
    decreases items.len(),
{
    if items.len() == 0 {
        frontier
    } else {
        pushed_all(frontier, items.drop_last(), goal).insert(
            items.last(),
            estimate(items.last(), goal),
        )
    }
}

/// The keys after `pushed_all` are the keys before and the pushed items.
pub proof fn lemma_pushed_keys(frontier: Map<Pos, int>, items: Seq<Pos>, goal: Pos, q: Pos)
    ensures
        pushed_all(frontier, items, goal).contains_key(q) <==> (frontier.contains_key(q)
            || items.contains(q)),
        frontier.dom().finite() ==> pushed_all(frontier, items, goal).dom().finite(),
    decreases items.len(),
{
    if items.len() > 0 {
        let front = items.drop_last();
        lemma_pushed_keys(frontier, front, goal, q);
        if items.contains(q) {
            let i = choose|i: int| 0 <= i < items.len() && items[i] == q;
            if i < front.len() {
                assert(front[i] == q);
            }
        }
        if front.contains(q) {
            let i = choose|i: int| 0 <= i < front.len() && front[i] == q;
            assert(items[i] == q);
        }
        assert(items[items.len() - 1] == items.last());
    }
}

/// A path goes on by one step: where `mid` is the start, or is reachable
/// and not closed, every neighbour of `mid` is reachable.
pub proof fn lemma_reach_step(src: Pos, mid: Pos, next: Pos, closed: Set<Pos>)
    requires
        mid == src || (reachable(src, mid, closed) && !closed.contains(mid)),
        adjacent(mid, next),
    ensures
        reachable(src, next, closed),
{
    if mid == src {
        let path = seq![src, next];
        assert(connects(path, src, next, closed));
    } else {
        let path = choose|path: Seq<Pos>| connects(path, src, mid, closed);
        let longer = path.push(next);
        assert forall|i: int| 0 <= i < longer.len() - 1 implies adjacent(
            #[trigger] longer[i],
            longer[i + 1],
        ) by {
            if i < path.len() - 1 {
                assert(longer[i] == path[i]);
                assert(longer[i + 1] == path[i + 1]);
            }
        }
        assert forall|i: int| 0 < i < longer.len() - 1 implies !closed.contains(
            #[trigger] longer[i],
        ) by {
            if i < path.len() - 1 {
                assert(longer[i] == path[i]);
            }
        }
        assert(connects(longer, src, next, closed));
    }
}

/// Every position is reachable from itself.
pub proof fn lemma_reach_self(src: Pos, closed: Set<Pos>)
    ensures
        reachable(src, src, closed),
{
    assert(connects(seq![src], src, src, closed));
}

/// A set of positions is closed under the search when every neighbour of a
/// member is a member, waits in the frontier, or is a closed position other
/// than the goal.
pub open spec fn search_closed(
    done: Set<Pos>,
    frontier: Map<Pos, int>,
    closed: Set<Pos>,
    goal: Pos,
) -> bool {
    forall|e: Pos, q: Pos|
        done.contains(e) && #[trigger] adjacent(e, q) ==> done.contains(q) || frontier.contains_key(
            q,
        ) || (closed.contains(q) && q != goal)
}

/// The first `upto + 1` positions of an open path from a member of a set that
/// is closed under the search, with nothing left in the frontier, are
/// members of the set, as long as they come before the path's end.
proof fn lemma_path_stays(
    path: Seq<Pos>,
    src: Pos,
    dest: Pos,
    closed: Set<Pos>,
    done: Set<Pos>,
    upto: int,
)
    requires
        connects(path, src, dest, closed),
        done.contains(src),
        search_closed(done, Map::<Pos, int>::empty(), closed, dest),
        0 <= upto < path.len() - 1,
    ensures
        done.contains(path[upto]),
    decreases upto,
{
    if upto > 0 {
        lemma_path_stays(path, src, dest, closed, done, upto - 1);
        assert(adjacent(path[upto - 1], path[upto - 1 + 1]));
        assert(!closed.contains(path[upto]));
    }
}

/// When the frontier is empty and the goal was never taken from it, no open
/// path leads to the goal.
pub proof fn lemma_exhausted(src: Pos, dest: Pos, closed: Set<Pos>, done: Set<Pos>)
    requires
        done.contains(src),
        !done.contains(dest),
        search_closed(done, Map::<Pos, int>::empty(), closed, dest),
    ensures
        !reachable(src, dest, closed),
{
    if reachable(src, dest, closed) {
        let path = choose|path: Seq<Pos>| connects(path, src, dest, closed);
        assert(path.len() >= 2);
        let before = path.len() - 2;
        lemma_path_stays(path, src, dest, closed, done, before);
        assert(adjacent(path[before], path[before + 1]));
    }
}

/// The number of a board position, from 0 to 699.
pub open spec fn board_index(p: Pos) -> int {
    p.0 * 70 + p.1 * 10 + p.2
}

/// Positions of the board with the same number are the same.
pub proof fn lemma_board_index(p: Pos, q: Pos)
    requires
        on_board(p),
        on_board(q),
        board_index(p) == board_index(q),
    ensures
        p == q,
        0 <= board_index(p) < 700,
{
}

} // verus!
