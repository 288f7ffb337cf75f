use vstd::prelude::*;
use crate::graph::models::{pos, Figure, Pos, FIELD, LOCATION, NO_FIGURE};
use crate::graph::topology::base_form;

verus! {

/// The positions of all 35 figures: 25 player pieces, 5 black stoppers and 5
/// gray stoppers, in this order.
#[derive(Debug, Clone, Copy)]
pub struct GraphState(pub [LOCATION; 35]);

/// A board state with growable storage.
#[derive(Debug, Clone)]
pub struct ResizableGraphState {
    pub locations: Vec<LOCATION>,
}

/// Entry `i` of the starting layout: figure `i + 1`. Piece `n` of every
/// player stands on junction `n + 5`; the black stoppers, figures 26 to 30,
/// stand on the corners; the gray stoppers, figures 31 to 35, are off the
/// board.
pub open spec fn start_location(i: int) -> (Pos, Figure) {
    if i < 25 {
        ((i % 5 + 5, 0, 0), (i + 1) as u8)
    } else if i < 30 {
        ((i - 25, 0, 0), (i + 1) as u8)
    } else {
        ((-1, -1, -1), (i + 1) as u8)
    }
}

/// The starting layout.
pub open spec fn start_layout() -> Seq<(Pos, Figure)> {
    Seq::new(35, |i: int| start_location(i))
}

/// The positions that hold a figure which is on the board: what every
/// entry of `state` names, but for the entries whose first component is -1.
pub open spec fn occupied(state: Seq<(Pos, Figure)>) -> Set<Pos> {
    Set::new(
        |p: Pos|
            exists|i: int|
                0 <= i < state.len() && (#[trigger] state[i]).0.0 != -1 && base_form(state[i].0)
                    == p,
    )
}

/// The figure of the last entry of `state` that stands on the position that
/// `at` names, or `NO_FIGURE`.
pub open spec fn occupant_at(state: Seq<(Pos, Figure)>, at: Pos) -> Figure
    decreases state.len(),
{
    if state.len() == 0 {
        NO_FIGURE
    } else if base_form(state.last().0) == base_form(at) {
        state.last().1
    } else {
        occupant_at(state.drop_last(), at)
    }
}

/// The position of the first entry of `state` that belongs to `figure`.
pub open spec fn first_place(state: Seq<(Pos, Figure)>, figure: Figure) -> Option<Pos>
    decreases state.len(),
{
    if state.len() == 0 {
        None
    } else if state[0].1 == figure {
        Some(state[0].0)
    } else {
        first_place(state.drop_first(), figure)
    }
}

impl GraphState {
    /// The entries of this state, positions as triples.
    pub open spec fn view(&self) -> Seq<(Pos, Figure)> {
        Seq::new(35, |i: int| (pos(self.0[i].0), self.0[i].1))
    }

    /// Where the first entry of this state that belongs to `figure` stands.
    pub fn place_of(&self, figure: Figure) -> (place: Option<FIELD>)
        ensures
            match place {
                Some(field) => first_place(self@, figure) == Some(pos(field)),
                None => first_place(self@, figure).is_none(),
            },
    {
        let mut i: usize = 0;
        assert(self@.subrange(0, 35) =~= self@);
        while i < 35
            invariant
                i <= 35,
                first_place(self@, figure) == first_place(self@.subrange(i as int, 35), figure),
            decreases 35 - i,
        {
            let entry: LOCATION = self.0[i];
            proof {
                let rest = self@.subrange(i as int, 35);
                assert(rest[0] == (pos(entry.0), entry.1));
                assert(rest.drop_first() =~= self@.subrange(i + 1, 35));
            }
            if entry.1 == figure {
                return Some(entry.0);
            }
            i = i + 1;
        }
        assert(self@.subrange(35, 35).len() == 0);
        None
    }

    /// The starting layout: no move made, all player figures on the board.
    pub fn empty() -> (state: GraphState)
        ensures
            state@ == start_layout(),
            forall|i: int| 0 <= i < 35 ==> (#[trigger] state@[i]).1 == i + 1,
            forall|i: int, j: int|
                0 <= i < j < 35 ==> (#[trigger] state@[i]).1 != (#[trigger] state@[j]).1,
    {
        let mut figures: [LOCATION; 35] = [([0_i16; 3], 0_u8); 35];
        // adding players
        let mut player: usize = 0;
        let mut figure: u8 = 1;
        while player < 5
            invariant
                player <= 5,
                figure == player * 5 + 1,
                forall|i: int|
                    0 <= i < player * 5 ==> (pos(#[trigger] figures[i].0), figures[i].1)
                        == start_location(i),
            decreases 5 - player,
        {
            let mut index: usize = 0;
            let mut junction: i16 = 5;
            while index < 5
                invariant
                    player < 5,
                    index <= 5,
                    junction == index + 5,
                    figure == player * 5 + index + 1,
                    forall|i: int|
                        0 <= i < player * 5 + index ==> (pos(#[trigger] figures[i].0), figures[i].1)
                            == start_location(i),
                decreases 5 - index,
            {
                figures[player * 5 + index] = ([junction, 0, 0], figure);
                index = index + 1;
                junction = junction + 1;
                figure = figure + 1;
            }
            player = player + 1;
        }
        // adding black stoppers
        let mut slot: usize = 25;
        let mut corner: i16 = 0;
        while slot < 30
            invariant
                25 <= slot <= 30,
                corner == slot - 25,
                figure == slot + 1,
                forall|i: int|
                    0 <= i < slot ==> (pos(#[trigger] figures[i].0), figures[i].1)
                        == start_location(i),
            decreases 30 - slot,
        {
            figures[slot] = ([corner, 0, 0], figure);
            slot = slot + 1;
            corner = corner + 1;
            figure = figure + 1;
        }
        // adding gray stoppers
        while slot < 35
            invariant
                30 <= slot <= 35,
                figure == slot + 1,
                forall|i: int|
                    0 <= i < slot ==> (pos(#[trigger] figures[i].0), figures[i].1)
                        == start_location(i),
            decreases 35 - slot,
        {
            figures[slot] = ([-1, -1, -1], figure);
            slot = slot + 1;
            figure = figure + 1;
        }
        let state = GraphState(figures);
        assert(state@ =~= start_layout());
        state
    }
}

impl ResizableGraphState {
    /// The entries of this state, positions as triples.
    pub open spec fn view(&self) -> Seq<(Pos, Figure)> {
        Seq::new(self.locations@.len(), |i: int| (pos(self.locations@[i].0), self.locations@[i].1))
    }

    /// The entries of `base`, in the same order.
    pub fn from_state(base: &GraphState) -> (out: ResizableGraphState)
        ensures
            out.locations@ == base.0@,
            out@ == base@,
    {
        let mut locations: Vec<LOCATION> = Vec::with_capacity(35);
        let mut i: usize = 0;
        while i < 35
            invariant
                i <= 35,
                locations@ == base.0@.take(i as int),
            decreases 35 - i,
        {
            locations.push(base.0[i]);
            assert(locations@ =~= base.0@.take(i + 1));
            i = i + 1;
        }
        assert(base.0@.take(35) =~= base.0@);
        let out = ResizableGraphState { locations };
        assert(out@ =~= base@);
        out
    }
}

impl vstd::std_specs::convert::FromSpecImpl<GraphState> for ResizableGraphState {
    open spec fn obeys_from_spec() -> bool {
        false
    }

    open spec fn from_spec(base: GraphState) -> ResizableGraphState {
        arbitrary()
    }
}

impl From<GraphState> for ResizableGraphState {
    fn from(base: GraphState) -> (out: ResizableGraphState)
        ensures
            out.locations@ == base.0@,
            out@ == base@,
    {
        ResizableGraphState::from_state(&base)
    }
}

impl<'a> vstd::std_specs::convert::FromSpecImpl<&'a GraphState> for ResizableGraphState {
    open spec fn obeys_from_spec() -> bool {
        false
    }

    open spec fn from_spec(base: &'a GraphState) -> ResizableGraphState {
        arbitrary()
    }
}

impl<'a> From<&'a GraphState> for ResizableGraphState {
    fn from(base: &'a GraphState) -> (out: ResizableGraphState)
        ensures
            out.locations@ == base.0@,
            out@ == base@,
    {
        ResizableGraphState::from_state(base)
    }
}

} // verus!
