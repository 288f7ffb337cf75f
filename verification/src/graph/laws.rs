use vstd::prelude::*;
use crate::graph::graph::Field;
use crate::graph::models::{Figure, Pos};
use crate::graph::search::{blocked, connects, is_walk, reachable};
use crate::graph::topology::{
    adjacent, base_candidates, base_form, neighbors_of, on_board, stop_candidates,
};

verus! {

/// `q` is one of the positions that the derivation rule names for the
/// position that `p` names: adjacency written out.
pub open spec fn named_by(p: Pos, q: Pos) -> bool {
    &&& on_board(base_form(p))
    &&& if p.1 == 0 {
        let near = base_candidates(p.0);
        q == near[0] || q == near[1] || q == near[2] || q == near[3]
    } else {
        let near = stop_candidates(p);
        q == near[0] || q == near[1]
    }
}

/// Adjacency is membership in the list of candidates.
pub proof fn lemma_adjacent_named(p: Pos, q: Pos)
    ensures
        adjacent(p, q) == named_by(p, q),
{
    let near = neighbors_of(p);
    if on_board(base_form(p)) {
        if near.contains(q) {
            let i = choose|i: int| 0 <= i < near.len() && near[i] == q;
            assert(near[i] == q);
        }
        if named_by(p, q) {
            if p.1 == 0 {
                assert(near.len() == 4);
                assert(q == near[0] || q == near[1] || q == near[2] || q == near[3]);
            } else {
                assert(near.len() == 2);
                assert(q == near[0] || q == near[1]);
            }
        }
    }
}

/// Every neighbour is a position of the board.
pub proof fn law_neighbors_on_board(p: Pos, q: Pos)
    requires
        adjacent(p, q),
    ensures
        on_board(q),
{
    lemma_adjacent_named(p, q);
}

/// Every step leads back: where `q` is adjacent to `p`, the position that
/// `p` names is adjacent to `q`.
pub proof fn law_steps_lead_back(p: Pos, q: Pos)
    requires
        adjacent(p, q),
    ensures
        adjacent(q, base_form(p)),
{
    lemma_adjacent_named(p, q);
    lemma_adjacent_named(q, base_form(p));
}

/// Adjacency is symmetric on the board: where `q` is adjacent to the board
/// position `p`, `p` is adjacent to `q`.
pub proof fn law_neighbors_symmetric(p: Pos, q: Pos)
    requires
        on_board(p),
        adjacent(p, q),
    ensures
        adjacent(q, p),
{
    law_steps_lead_back(p, q);
}

/// A base point has four neighbours and a lane stop two, all different;
/// what names no position of the board has none.
pub proof fn law_neighbor_counts(p: Pos)
    ensures
        neighbors_of(p).no_duplicates(),
        !on_board(base_form(p)) ==> neighbors_of(p).len() == 0,
        on_board(base_form(p)) && p.1 == 0 ==> neighbors_of(p).len() == 4,
        on_board(base_form(p)) && p.1 != 0 ==> neighbors_of(p).len() == 2,
{
}

/// Where a walk leads from `src` to `dest` and no position strictly between
/// its two ends is blocked, `dest` is reachable from `src`.
pub proof fn law_free_path_reaches(
    graph: Map<Pos, Field>,
    state: Seq<(Pos, Figure)>,
    path: Seq<Pos>,
    src: Pos,
    dest: Pos,
)
    requires
        is_walk(path),
        path[0] == src,
        path.last() == dest,
        forall|i: int| 0 < i < path.len() - 1 ==> !blocked(graph, state).contains(#[trigger] path[i]),
    ensures
        reachable(src, dest, blocked(graph, state)),
{
    assert(connects(path, src, dest, blocked(graph, state)));
}

/// Where every walk from `src` to `dest` has a blocked position strictly
/// between its two ends, `dest` is not reachable from `src`.
pub proof fn law_blocked_paths_fail(
    graph: Map<Pos, Field>,
    state: Seq<(Pos, Figure)>,
    src: Pos,
    dest: Pos,
)
    requires
        forall|path: Seq<Pos>|
            #[trigger] is_walk(path) && path[0] == src && path.last() == dest ==> exists|i: int|
                0 < i < path.len() - 1 && blocked(graph, state).contains(#[trigger] path[i]),
    ensures
        !reachable(src, dest, blocked(graph, state)),
{
    if reachable(src, dest, blocked(graph, state)) {
        let path = choose|path: Seq<Pos>| connects(path, src, dest, blocked(graph, state));
        assert(is_walk(path));
    }
}

} // verus!
