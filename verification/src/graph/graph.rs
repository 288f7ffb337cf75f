use vstd::prelude::*;
use dashmap::DashMap;
use priority_queue::PriorityQueue;
use crate::graph::errors::GraphErr;
use crate::graph::frontier::{frontier_entries, frontier_new, frontier_pop, frontier_push};
use crate::graph::models::{pos, same_field, Figure, Pos, FIELD, LOCATION, NO_FIGURE};
use crate::graph::search::{
    blocked, board_index, lemma_board_index, lemma_exhausted, lemma_pushed_keys,
    lemma_reach_self, lemma_reach_step, pushed_all, reachable, search_closed,
};
use crate::graph::state::{occupant_at, occupied, start_layout, GraphState};
use crate::graph::topology::{
    adjacent, base_form, candidates, estimate, is_base_point, is_on_board,
    lemma_neighbors_on_board, named_position, neighbors_of, on_board,
};
use crate::graph::vertices::{
    place_entries, places_insert, places_with_capacity, vertex_entries, vertices_get,
    vertices_insert, vertices_list, vertices_shrink, vertices_with_capacity, visit_entries,
    visits_get, visits_insert, visits_with_capacity, Vertices,
};

verus! {

/// The anchors of the ten base points.
pub const BASE_VERTEX_MAP: [i16; 10] = [0, 1, 2, 3, 4, 5, 6, 7, 8, 9];

/// What a base point carries: whether it is occupied, and by which figure.
#[derive(Hash, PartialEq, Eq, Debug, Clone, Copy)]
pub struct Field {
    pub occupied: bool,
    pub owner: Option<Figure>,
}

/// The persisted part of the board graph: its base points. Lane stops and
/// all edges are derived on demand.
#[derive(Debug)]
pub struct Graph {
    /// Mapping of vertex ids and vertex values.
    pub vertices: DashMap<FIELD, Field>,
}

impl Graph {
    /// The vertices of this graph, each with its value.
    pub open spec fn view(&self) -> Map<Pos, Field> {
        vertex_entries(self.vertices)
    }

    /// A graph without vertices.
    pub fn new() -> (graph: Graph)
        ensures
            graph@ == Vertices::empty(),
    {
        Graph { vertices: vertices_with_capacity(100_usize) }
    }

    /// Gives back what the vertex map holds more room for than it uses.
    pub fn shrink_to_fit(&mut self)
        ensures
            final(self)@ == old(self)@,
    {
        vertices_shrink(&mut self.vertices);
    }

    /// The value of the vertex `id`, or `NoSuchVertex`.
    pub fn fetch(&self, id: FIELD) -> (found: Result<Field, GraphErr>)
        ensures
            match found {
                Ok(value) => self@.contains_key(pos(id)) && value == self@[pos(id)],
                Err(error) => !self@.contains_key(pos(id)) && error == GraphErr::NoSuchVertex,
            },
    {
        match vertices_get(&self.vertices, &id) {
            Some(vertex) => Ok(vertex),
            None => Err(GraphErr::NoSuchVertex),
        }
    }

    /// Adds the vertex `id` with the value `field`. A vertex that the graph
    /// already has keeps its value, and the call fails with
    /// `CannotAddVertex`.
    pub fn add_vertex(&mut self, id: FIELD, field: Field) -> (added: Result<FIELD, GraphErr>)
        ensures
            match added {
                Ok(vertex) => {
                    &&& !old(self)@.contains_key(pos(id))
                    &&& vertex == id
                    &&& final(self)@ == old(self)@.insert(pos(id), field)
                },
                Err(error) => {
                    &&& old(self)@.contains_key(pos(id))
                    &&& error == GraphErr::CannotAddVertex
                    &&& final(self)@ == old(self)@
                },
            },
    {
        match vertices_insert(&mut self.vertices, id, field) {
            Some(value) => {
                // put the old vertex back
                vertices_insert(&mut self.vertices, id, value);
                assert(self@ =~= old(self)@);
                Err(GraphErr::CannotAddVertex)
            },
            None => Ok(id),
        }
    }

    /// The positions adjacent to the position that `src` names, in the order
    /// of the derivation rule.
    pub fn neighbors(src: &FIELD) -> (near: Vec<FIELD>)
        ensures
            fields(near@) == neighbors_of(pos(*src)),
    {
        let named = named_position(src);
        if !is_on_board(&named) {
            let near: Vec<FIELD> = Vec::new();
            assert(fields(near@) =~= neighbors_of(pos(*src)));
            return near;
        }
        let a: i16 = named[0];
        let k: i16 = named[1];
        let b: i16 = named[2];
        let near: Vec<FIELD> = if k == 0 {
            // src is junction or corner
            if a == 0 {
                vec![[1, 2, 0], [9, 5, 0], [4, 2, 0], [5, 5, 0]]
            } else if a == 4 {
                vec![[4, 1, 3], [4, 1, 0], [9, 5, 4], [8, 5, 4]]
            } else if a == 5 {
                vec![[5, 1, 0], [9, 2, 5], [5, 1, 1], [6, 2, 5]]
            } else if a == 9 {
                vec![[9, 1, 8], [9, 1, 5], [9, 1, 0], [9, 1, 4]]
            } else if a < 4 {
                vec![[a, 1, a - 1], [a + 1, 2, a], [a + 5, 5, a], [a + 4, 5, a]]
            } else {
                vec![[a, 1, a - 1], [a + 1, 2, a], [a, 1, a - 5], [a, 1, a - 4]]
            }
        } else {
            // src is stop
            let length: i16 = if a >= 5 && b <= 4 {
                5
            } else {
                2
            };
            let forward: FIELD = if k == length {
                [b, 0, 0]
            } else {
                [a, k + 1, b]
            };
            let back: FIELD = if k == 1 {
                [a, 0, 0]
            } else {
                [a, k - 1, b]
            };
            vec![forward, back]
        };
        assert(fields(near@) =~= candidates(pos(named)));
        near
    }

    /// The search estimate between two positions.
    pub fn heuristic(src: FIELD, dest: FIELD) -> (cost: i32)
        ensures
            cost == estimate(pos(src), pos(dest)),
    {
        let from: i32 = src[0] as i32;
        let to: i32 = dest[0] as i32;
        let steps: i32 = src[1] as i32 + dest[1] as i32;
        if src[0] > 4 {
            // src is a junction
            if dest[0] > 4 {
                (from - to) * 4 + steps
            } else {
                to * 4 + steps + 6
            }
        } else {
            // src is a corner
            (from - to) * 4 + steps
        }
    }
}

/// The vertices of a freshly constructed graph: every base point, free and
/// without owner.
pub open spec fn base_vertices() -> Map<Pos, Field> {
    Map::new(|p: Pos| is_base_point(p), |p: Pos| Field { occupied: false, owner: None })
}

/// The visit marks that a search starts from: one per vertex, set where the
/// vertex is flagged as occupied.
pub open spec fn vertex_marks(graph: Map<Pos, Field>) -> Map<Pos, bool> {
    Map::new(|p: Pos| graph.contains_key(p), |p: Pos| graph[p].occupied)
}

/// The figures of `state`, each with its position; of two entries with one
/// figure the later counts.
pub open spec fn places_of(state: Seq<(Pos, Figure)>) -> Map<Figure, Pos>
    decreases state.len(),
{
    if state.len() == 0 {
        Map::empty()
    } else {
        places_of(state.drop_last()).insert(state.last().1, state.last().0)
    }
}

/// `p` has a mark in `marks`, and the mark is set.
pub open spec fn marked(marks: Map<Pos, bool>, p: Pos) -> bool {
    marks.contains_key(p) && marks[p]
}

/// `p` is the start of the search or a position whose number is in
/// `numbers`.
pub open spec fn in_done(numbers: Set<int>, src: Pos, p: Pos) -> bool {
    p == src || (on_board(p) && numbers.contains(board_index(p)))
}

/// The positions that the search has gone on from.
pub open spec fn done_set(numbers: Set<int>, src: Pos) -> Set<Pos> {
    Set::new(|p: Pos| in_done(numbers, src, p))
}

impl Graph {
    /// The graph of the board: the ten base points, free and without owner.
    pub fn construct_graph() -> (graph: Graph)
        ensures
            graph@ == base_vertices(),
    {
        let mut graph: Graph = Graph::new();
        let mut i: usize = 0;
        while i < 10
            invariant
                i <= 10,
                forall|p: Pos| #[trigger]
                    graph@.contains_key(p) <==> (is_base_point(p) && p.0 < i),
                forall|p: Pos| #[trigger]
                    graph@.contains_key(p) ==> graph@[p] == (Field { occupied: false, owner: None }),
            decreases 10 - i,
        {
            let id: FIELD = [BASE_VERTEX_MAP[i], 0, 0];
            let _ = graph.add_vertex(id, Field { occupied: false, owner: None });
            i = i + 1;
        }
        // ensure only required space is used
        graph.shrink_to_fit();
        assert(graph@ =~= base_vertices());
        graph
    }

    /// The figures of the starting layout, each with its position: one
    /// entry for each of the figures 1 to 35.
    pub fn construct_figure_location(&self) -> (places: DashMap<Figure, FIELD>)
        ensures
            place_entries(places) == places_of(start_layout()),
            forall|figure: Figure| #[trigger]
                place_entries(places).contains_key(figure) <==> 1 <= figure <= 35,
            forall|figure: Figure|
                1 <= figure <= 35 ==> #[trigger] place_entries(places)[figure] == start_layout()[
                    figure - 1
                ].0,
    {
        let mut places = places_with_capacity(35);
        let state = GraphState::empty();
        let mut i: usize = 0;
        while i < 35
            invariant
                i <= 35,
                state@ == start_layout(),
                place_entries(places) == places_of(state@.take(i as int)),
                forall|figure: Figure| #[trigger]
                    place_entries(places).contains_key(figure) <==> 1 <= figure <= i,
                forall|figure: Figure|
                    1 <= figure <= i ==> #[trigger] place_entries(places)[figure] == state@[
                        figure - 1
                    ].0,
            decreases 35 - i,
        {
            let figure: LOCATION = state.0[i];
            proof {
                assert(state@.take(i + 1).drop_last() =~= state@.take(i as int));
                assert(state@.take(i + 1).last() == (pos(figure.0), figure.1));
                assert(state@[i as int] == crate::graph::state::start_location(i as int));
            }
            places_insert(&mut places, figure.1, figure.0);
            i = i + 1;
        }
        assert(state@.take(35) =~= state@);
        places
    }

    /// The visit marks that a search starts from.
    pub fn construct_visited(&self) -> (visited: DashMap<FIELD, bool>)
        ensures
            visit_entries(visited) == vertex_marks(self@),
    {
        let list = vertices_list(&self.vertices);
        let mut visited = visits_with_capacity(list.len());
        let mut i: usize = 0;
        while i < list.len()
            invariant
                i <= list.len(),
                forall|j: int|
                    0 <= j < list@.len() ==> self@.contains_key(pos(#[trigger] list@[j].0))
                        && self@[pos(list@[j].0)] == list@[j].1,
                forall|p: Pos| #[trigger]
                    visit_entries(visited).contains_key(p) <==> exists|j: int|
                        0 <= j < i && pos(#[trigger] list@[j].0) == p,
                forall|p: Pos| #[trigger]
                    visit_entries(visited).contains_key(p) ==> visit_entries(visited)[p]
                        == self@[p].occupied,
            decreases list.len() - i,
        {
            let entry: (FIELD, Field) = list[i];
            let ghost before = visit_entries(visited);
            visits_insert(&mut visited, entry.0, entry.1.occupied);
            proof {
                assert forall|p: Pos| #[trigger]
                    visit_entries(visited).contains_key(p) <==> exists|j: int|
                        0 <= j < i + 1 && pos(#[trigger] list@[j].0) == p by {
                    if before.contains_key(p) {
                        let j = choose|j: int| 0 <= j < i && pos(#[trigger] list@[j].0) == p;
                        assert(0 <= j < i + 1 && pos(list@[j].0) == p);
                    }
                    if p == pos(entry.0) {
                        assert(0 <= i < i + 1 && pos(list@[i as int].0) == p);
                    }
                }
            }
            i = i + 1;
        }
        assert(visit_entries(visited) =~= vertex_marks(self@));
        visited
    }

    /// Pushes the positions adjacent to `src` onto `queue`, each with its
    /// estimate to `dest` as priority.
    pub fn add_neighbors(src: &FIELD, dest: FIELD, queue: &mut PriorityQueue<FIELD, i32>)
        ensures
            frontier_entries(*final(queue)) == pushed_all(
                frontier_entries(*old(queue)),
                neighbors_of(pos(*src)),
                pos(dest),
            ),
    {
        let near = Graph::neighbors(src);
        let mut i: usize = 0;
        while i < near.len()
            invariant
                i <= near.len(),
                frontier_entries(*queue) == pushed_all(
                    frontier_entries(*old(queue)),
                    fields(near@).take(i as int),
                    pos(dest),
                ),
            decreases near.len() - i,
        {
            let field: FIELD = near[i];
            proof {
                let all = fields(near@);
                assert(all.take(i + 1).drop_last() =~= all.take(i as int));
                assert(all.take(i + 1).last() == pos(field));
            }
            frontier_push(queue, field, Graph::heuristic(field, dest));
            i = i + 1;
        }
        assert(fields(near@).take(near.len() as int) =~= fields(near@));
    }
}

impl Graph {
    /// Whether a figure may move from `src` to `dest` on the board `state`,
    /// and which figure stands on `dest`.
    ///
    /// The move is possible when `dest` is `src` or a path leads from `src`
    /// to `dest` that passes through no blocked position; `dest` itself may
    /// be occupied. The figure on `dest` is reported only for a possible
    /// move. A base point may be written with any third component: it is
    /// the base point of its anchor, as source, as destination and where a
    /// figure stands on it. Fails with `NoSuchVertex` when `src` names no
    /// vertex of this graph.
    pub fn validate<'a>(&'a self, src: &'a FIELD, dest: &'a FIELD, state: &'a GraphState) -> (checked:
        Result<(bool, Figure), GraphErr>)
        ensures
            match checked {
                Ok(found) => {
                    &&& self@.contains_key(base_form(pos(*src)))
                    &&& found.0 == reachable(
                        base_form(pos(*src)),
                        base_form(pos(*dest)),
                        blocked(self@, state@),
                    )
                    &&& found.1 == if found.0 {
                        occupant_at(state@, pos(*dest))
                    } else {
                        NO_FIGURE
                    }
                },
                Err(error) => !self@.contains_key(base_form(pos(*src))) && error
                    == GraphErr::NoSuchVertex,
            },
    {
        // check if specified vertices exists
        match self.fetch(named_position(src)) {
            Ok(_) => {},
            Err(error) => {
                return Err(error);
            },
        }
        // test with a* if there's a possible path
        Ok(self.a_star(src, dest, state))
    }

    /// The best-first search behind `validate`.
    fn a_star<'a>(&'a self, src: &'a FIELD, dest: &'a FIELD, state: &'a GraphState) -> (found: (
        bool,
        Figure,
    ))
        ensures
            found.0 == reachable(
                base_form(pos(*src)),
                base_form(pos(*dest)),
                blocked(self@, state@),
            ),
            found.1 == if found.0 {
                occupant_at(state@, pos(*dest))
            } else {
                NO_FIGURE
            },
    {
        let from: FIELD = named_position(src);
        let goal: FIELD = named_position(dest);
        let ghost s = pos(from);
        let ghost d = pos(goal);
        let ghost closed = blocked(self@, state@);
        let mut visited = self.construct_visited();
        // mark every occupied position and find the figure on dest
        let mut owner: Figure = NO_FIGURE;
        let mut i: usize = 0;
        while i < 35
            invariant
                i <= 35,
                d == pos(goal),
                d == base_form(pos(*dest)),
                owner == occupant_at(state@.take(i as int), pos(*dest)),
                forall|p: Pos| #[trigger]
                    marked(visit_entries(visited), p) <==> ((self@.contains_key(p)
                        && self@[p].occupied) || occupied(state@.take(i as int)).contains(p)),
            decreases 35 - i,
        {
            let location: LOCATION = state.0[i];
            let ghost before = visit_entries(visited);
            proof {
                assert(state@.take(i + 1).drop_last() =~= state@.take(i as int));
                assert(state@.take(i + 1).last() == (pos(location.0), location.1));
            }
            let place: FIELD = named_position(&location.0);
            if location.0[0] != -1 {
                visits_insert(&mut visited, place, true);
            }
            if same_field(&place, &goal) {
                owner = location.1;
            }
            proof {
                let shorter = state@.take(i as int);
                let longer = state@.take(i + 1);
                assert forall|p: Pos| #[trigger]
                    marked(visit_entries(visited), p) <==> ((self@.contains_key(p)
                        && self@[p].occupied) || occupied(longer).contains(p)) by {
                    if occupied(shorter).contains(p) {
                        let j = choose|j: int|
                            0 <= j < shorter.len() && (#[trigger] shorter[j]).0.0 != -1
                                && base_form(shorter[j].0) == p;
                        assert(longer[j] == shorter[j]);
                    }
                    if occupied(longer).contains(p) {
                        let j = choose|j: int|
                            0 <= j < longer.len() && (#[trigger] longer[j]).0.0 != -1 && base_form(
                                longer[j].0,
                            ) == p;
                        if j < i {
                            assert(shorter[j] == longer[j]);
                        }
                    }
                    if p == pos(place) && location.0[0] != -1 {
                        assert(longer[i as int].0 == pos(location.0));
                    }
                    assert(marked(before, p) <==> ((self@.contains_key(p) && self@[p].occupied)
                        || occupied(shorter).contains(p)));
                }
            }
            i = i + 1;
        }
        assert(state@.take(35) =~= state@);
        assert forall|p: Pos| #[trigger] marked(visit_entries(visited), p) <==> closed.contains(p) by {
            assert(marked(visit_entries(visited), p) <==> ((self@.contains_key(p)
                && self@[p].occupied) || occupied(state@).contains(p)));
        }
        if same_field(&from, &goal) {
            proof {
                lemma_reach_self(s, closed);
            }
            return (true, owner);
        }
        let mut queue: PriorityQueue<FIELD, i32> = frontier_new();
        // find initial neighbors for src
        Graph::add_neighbors(&from, goal, &mut queue);
        let ghost before = visit_entries(visited);
        visits_insert(&mut visited, from, true);
        let ghost mut numbers: Set<int> = Set::empty();
        proof {
            assert forall|p: Pos| #[trigger]
                marked(visit_entries(visited), p) <==> (closed.contains(p) || in_done(
                    numbers,
                    s,
                    p,
                )) by {
                assert(marked(before, p) <==> closed.contains(p));
            }
            assert forall|q: Pos| #[trigger]
                frontier_entries(queue).contains_key(q) implies on_board(q) && reachable(
                s,
                q,
                closed,
            ) by {
                lemma_pushed_keys(Map::empty(), neighbors_of(s), d, q);
                lemma_neighbors_on_board(s, q);
                lemma_reach_step(s, s, q, closed);
            }
            assert forall|e: Pos, q: Pos|
                done_set(numbers, s).contains(e) && #[trigger] adjacent(e, q) implies done_set(
                numbers,
                s,
            ).contains(q) || frontier_entries(queue).contains_key(q) || (closed.contains(q) && q
                != d) by {
                lemma_pushed_keys(Map::empty(), neighbors_of(s), d, q);
            }
            lemma_pushed_keys(Map::empty(), neighbors_of(s), d, s);
        }
        // search until found
        loop
            invariant
                s == base_form(pos(*src)),
                d == base_form(pos(*dest)),
                d == pos(goal),
                s != d,
                owner == occupant_at(state@, pos(*dest)),
                closed == blocked(self@, state@),
                forall|p: Pos| #[trigger]
                    marked(visit_entries(visited), p) <==> (closed.contains(p) || in_done(
                        numbers,
                        s,
                        p,
                    )),
                forall|q: Pos| #[trigger]
                    frontier_entries(queue).contains_key(q) ==> on_board(q) && reachable(
                        s,
                        q,
                        closed,
                    ),
                search_closed(done_set(numbers, s), frontier_entries(queue), closed, d),
                !in_done(numbers, s, d),
                numbers.finite(),
                numbers.len() <= 700,
                forall|n: int| numbers.contains(n) ==> 0 <= n < 700,
                frontier_entries(queue).dom().finite(),
            decreases 700 - numbers.len(), frontier_entries(queue).dom().len(),
        {
            let ghost waiting = frontier_entries(queue);
            let ghost marks = visit_entries(visited);
            let ghost done = done_set(numbers, s);
            match frontier_pop(&mut queue) {
                None => {
                    proof {
                        assert(done.contains(s));
                        assert(!done.contains(d));
                        lemma_exhausted(s, d, closed, done);
                    }
                    return (false, NO_FIGURE);
                },
                Some((vertex, _)) => {
                    let ghost v = pos(vertex);
                    assert(waiting.contains_key(v));
                    // check if destination is reached
                    if same_field(&vertex, &goal) {
                        return (true, owner);
                    }
                    let seen = match visits_get(&visited, &vertex) {
                        Some(mark) => mark,
                        None => false,
                    };
                    if !seen {
                        // evaluate edges on the fly
                        visits_insert(&mut visited, vertex, true);
                        Graph::add_neighbors(&vertex, goal, &mut queue);
                        proof {
                            let number = board_index(v);
                            let more = numbers.insert(number);
                            lemma_board_index(v, v);
                            assert(!marked(marks, v));
                            assert(!numbers.contains(number));
                            vstd::set_lib::lemma_int_range(0, 700);
                            assert(more.subset_of(vstd::set_lib::set_int_range(0, 700)));
                            vstd::set_lib::lemma_len_subset(
                                more,
                                vstd::set_lib::set_int_range(0, 700),
                            );
                            assert forall|p: Pos| #[trigger]
                                marked(visit_entries(visited), p) <==> (closed.contains(p)
                                    || in_done(more, s, p)) by {
                                assert(marked(marks, p) <==> (closed.contains(p) || in_done(
                                    numbers,
                                    s,
                                    p,
                                )));
                                if on_board(p) && board_index(p) == number {
                                    lemma_board_index(p, v);
                                }
                            }
                            assert forall|q: Pos| #[trigger]
                                frontier_entries(queue).contains_key(q) implies on_board(q)
                                && reachable(s, q, closed) by {
                                lemma_pushed_keys(waiting.remove(v), neighbors_of(v), d, q);
                                if !waiting.remove(v).contains_key(q) {
                                    lemma_neighbors_on_board(v, q);
                                    lemma_reach_step(s, v, q, closed);
                                }
                            }
                            assert forall|e: Pos, q: Pos|
                                done_set(more, s).contains(e) && #[trigger] adjacent(
                                    e,
                                    q,
                                ) implies done_set(more, s).contains(q) || frontier_entries(
                                queue,
                            ).contains_key(q) || (closed.contains(q) && q != d) by {
                                lemma_pushed_keys(waiting.remove(v), neighbors_of(v), d, q);
                                if e != v {
                                    if on_board(e) && board_index(e) == number {
                                        lemma_board_index(e, v);
                                    }
                                    assert(done.contains(e));
                                }
                            }
                            if on_board(d) && board_index(d) == number {
                                lemma_board_index(d, v);
                            }
                            lemma_pushed_keys(waiting.remove(v), neighbors_of(v), d, v);
                            numbers = more;
                        }
                    } else {
                        proof {
                            assert(marked(marks, v));
                            assert forall|e: Pos, q: Pos|
                                done.contains(e) && #[trigger] adjacent(e, q) implies done.contains(
                                q,
                            ) || frontier_entries(queue).contains_key(q) || (closed.contains(q)
                                && q != d) by {}
                        }
                    }
                },
            }
        }
    }
}

/// The stored positions `s` as triples.
pub open spec fn fields(s: Seq<FIELD>) -> Seq<Pos> {
    s.map_values(|field: FIELD| pos(field))
}

} // verus!
