use vstd::prelude::*;
use crate::graph::models::{pos, Pos, FIELD};

verus! {

/// A base point: a corner (anchors 0 to 4) or a junction (anchors 5 to 9),
/// written with step 0 and third component 0.
pub open spec fn is_base_point(p: Pos) -> bool {
    0 <= p.0 <= 9 && p.1 == 0 && p.2 == 0
}

/// The lanes of the board, each named by its higher anchor `a` and its lower
/// anchor `b`: the corners in a ring, the junctions in a ring, and every
/// junction with the two corners it lies between.
pub open spec fn is_lane(a: int, b: int) -> bool {
    ||| (0 <= b && b < a && a <= 4 && (a - b == 1 || a - b == 4))
    ||| (5 <= b && b < a && a <= 9 && (a - b == 1 || a - b == 4))
    ||| (0 <= b <= 4 && 5 <= a <= 9 && (a - b == 5 || a - b == 4 || a - b == 9))
}

/// The number of stops on the lane between `a` and `b`: five between a
/// junction and a corner, two on the rings.
pub open spec fn lane_length(a: int, b: int) -> int {
    if a >= 5 && b <= 4 {
        5
    } else {
        2
    }
}

/// A lane stop `[a, k, b]`: stop `k` on the lane between `a` and `b`, counted
/// from `a`.
pub open spec fn is_stop(p: Pos) -> bool {
    is_lane(p.0, p.2) && 1 <= p.1 <= lane_length(p.0, p.2)
}

/// The positions of the board: the ten base points and the stops of the
/// twenty lanes.
pub open spec fn on_board(p: Pos) -> bool {
    is_base_point(p) || is_stop(p)
}

/// The position that `p` names: the third component of a base point counts
/// for nothing, so a position with step 0 names the base point of its
/// anchor.
pub open spec fn base_form(p: Pos) -> Pos {
    if p.1 == 0 {
        (p.0, 0, 0)
    } else {
        p
    }
}

/// The four stops next to the base point with anchor `a`, one on each of its
/// lanes: stop 1 where `a` is the lane's higher anchor, the last stop where
/// it is the lower one.
///
/// The ends of the two rings (anchors 0, 4, 5 and 9) have fixed entries.
/// Every other anchor derives them by offsets, one rule for the corners and
/// one for the junctions.
pub open spec fn base_candidates(a: int) -> Seq<Pos> {
    if a == 0 {
        seq![(1, 2, 0), (9, 5, 0), (4, 2, 0), (5, 5, 0)]
    } else if a == 4 {
        seq![(4, 1, 3), (4, 1, 0), (9, 5, 4), (8, 5, 4)]
    } else if a == 5 {
        seq![(5, 1, 0), (9, 2, 5), (5, 1, 1), (6, 2, 5)]
    } else if a == 9 {
        seq![(9, 1, 8), (9, 1, 5), (9, 1, 0), (9, 1, 4)]
    } else if a < 4 {
        seq![(a, 1, a - 1), (a + 1, 2, a), (a + 5, 5, a), (a + 4, 5, a)]
    } else {
        seq![(a, 1, a - 1), (a + 1, 2, a), (a, 1, a - 5), (a, 1, a - 4)]
    }
}

/// Whether the stop `p` is the last of its lane.
pub open spec fn at_lane_end(p: Pos) -> bool {
    p.1 == lane_length(p.0, p.2)
}

/// The two positions next to the lane stop `p`: the stop after it, or the
/// lane's lower base point behind the last stop, and the stop before it, or
/// the lane's higher base point before the first.
pub open spec fn stop_candidates(p: Pos) -> Seq<Pos> {
    let forward = if at_lane_end(p) {
        (p.2, 0, 0)
    } else {
        (p.0, p.1 + 1, p.2)
    };
    let back = if p.1 == 1 {
        (p.0, 0, 0)
    } else {
        (p.0, p.1 - 1, p.2)
    };
    seq![forward, back]
}

/// The positions that the derivation rule names for the board position `p`.
pub open spec fn candidates(p: Pos) -> Seq<Pos> {
    if p.1 == 0 {
        base_candidates(p.0)
    } else {
        stop_candidates(p)
    }
}

/// The positions adjacent to `p`: four stops for a base point, two
/// positions for a stop. What names no position of the board has none.
pub open spec fn neighbors_of(p: Pos) -> Seq<Pos> {
    if on_board(base_form(p)) {
        candidates(base_form(p))
    } else {
        Seq::empty()
    }
}

/// `q` is one step away from `p`.
pub open spec fn adjacent(p: Pos, q: Pos) -> bool {
    neighbors_of(p).contains(q)
}

/// The search estimate from `p` to `goal`. Junctions (anchors above 4) and
/// corners are on different ring halves; from a junction to a corner the
/// estimate carries a fixed surcharge of 6.
pub open spec fn estimate(p: Pos, goal: Pos) -> int {
    if p.0 > 4 && goal.0 <= 4 {
        goal.0 * 4 + p.1 + goal.1 + 6
    } else {
        (p.0 - goal.0) * 4 + p.1 + goal.1
    }
}

/// Whether `a` and `b` are the anchors of a lane.
pub fn is_lane_between(a: i16, b: i16) -> (lane: bool)
    ensures
        lane == is_lane(a as int, b as int),
{
    if 0 <= b && b < a && a <= 4 {
        a - b == 1 || a - b == 4
    } else if 5 <= b && b < a && a <= 9 {
        a - b == 1 || a - b == 4
    } else if 0 <= b && b <= 4 && 5 <= a && a <= 9 {
        a - b == 5 || a - b == 4 || a - b == 9
    } else {
        false
    }
}

/// Whether `field` is a position of the board.
pub fn is_on_board(field: &FIELD) -> (b: bool)
    ensures
        b == on_board(pos(*field)),
{
    if field[1] == 0 {
        0 <= field[0] && field[0] <= 9 && field[2] == 0
    } else if is_lane_between(field[0], field[2]) {
        let length: i16 = if field[0] >= 5 && field[2] <= 4 {
            5
        } else {
            2
        };
        1 <= field[1] && field[1] <= length
    } else {
        false
    }
}

/// The position that `field` names.
pub fn named_position(field: &FIELD) -> (named: FIELD)
    ensures
        pos(named) == base_form(pos(*field)),
{
    if field[1] == 0 {
        [field[0], 0, 0]
    } else {
        *field
    }
}

/// Every neighbour is a position of the board.
pub proof fn lemma_neighbors_on_board(p: Pos, q: Pos)
    requires
        adjacent(p, q),
    ensures
        on_board(q),
{
    let near = neighbors_of(p);
    let i = choose|i: int| 0 <= i < near.len() && near[i] == q;
    assert(near[i] == q);
    if base_form(p).1 == 0 {
        assert(near.len() == 4);
    } else {
        assert(near.len() == 2);
    }
}

} // verus!
