use vstd::prelude::*;
use dashmap::DashMap;
use crate::graph::graph::Field;
use crate::graph::models::{pos, Figure, Pos, FIELD};

verus! {

/// `dashmap::DashMap`, opaque to the verifier: what a map holds is known
/// through the entries named below alone.
#[verifier::external_type_specification]
#[verifier::external_body]
#[verifier::reject_recursive_types(K)]
#[verifier::reject_recursive_types(V)]
#[verifier::reject_recursive_types(S)]
pub struct ExDashMap<K, V, S>(DashMap<K, V, S>);

/// What a map of vertices holds.
pub type Vertices = Map<Pos, Field>;

/// What a map of visit marks holds.
pub type Marks = Map<Pos, bool>;

/// What a map of figure locations holds.
pub type Places = Map<Figure, Pos>;

/// The vertices that a vertex map holds, each with its value.
pub uninterp spec fn vertex_entries(map: DashMap<FIELD, Field>) -> Map<Pos, Field>;

/// The positions that a visit map has a mark for, each with its mark.
pub uninterp spec fn visit_entries(map: DashMap<FIELD, bool>) -> Map<Pos, bool>;

/// The figures that a location map holds, each with its position.
pub uninterp spec fn place_entries(map: DashMap<Figure, FIELD>) -> Map<Figure, Pos>;

/// `DashMap::with_capacity`: a map that holds nothing.
#[verifier::external_body]
pub(crate) fn vertices_with_capacity(capacity: usize) -> (map: DashMap<FIELD, Field>)
    ensures
        vertex_entries(map) == Vertices::empty(),
{
    DashMap::with_capacity(capacity)
}

/// `DashMap::insert`: the key holds the new value afterwards, every other
/// key is as before; the value that the key held before is returned.
#[verifier::external_body]
pub(crate) fn vertices_insert(map: &mut DashMap<FIELD, Field>, key: FIELD, value: Field) -> (before: Option<Field>)
    ensures
        vertex_entries(*final(map)) == vertex_entries(*old(map)).insert(pos(key), value),
        before == if vertex_entries(*old(map)).contains_key(pos(key)) {
            Some(vertex_entries(*old(map))[pos(key)])
        } else {
            None
        },
{
    map.insert(key, value)
}

/// `DashMap::get`: a copy of the value that the key holds, if it holds one.
#[verifier::external_body]
pub(crate) fn vertices_get(map: &DashMap<FIELD, Field>, key: &FIELD) -> (found: Option<Field>)
    ensures
        found == if vertex_entries(*map).contains_key(pos(*key)) {
            Some(vertex_entries(*map)[pos(*key)])
        } else {
            None
        },
{
    map.get(key).map(|entry| *entry.value())
}

/// `DashMap::shrink_to_fit`: the map holds what it held.
#[verifier::external_body]
pub(crate) fn vertices_shrink(map: &mut DashMap<FIELD, Field>)
    ensures
        vertex_entries(*final(map)) == vertex_entries(*old(map)),
{
    map.shrink_to_fit()
}

/// `DashMap::iter`, collected: every entry of the map once, in no fixed
/// order.
#[verifier::external_body]
pub(crate) fn vertices_list(map: &DashMap<FIELD, Field>) -> (list: Vec<(FIELD, Field)>)
    ensures
        forall|i: int|
            0 <= i < list@.len() ==> vertex_entries(*map).contains_key(pos(#[trigger] list@[i].0))
                && vertex_entries(*map)[pos(list@[i].0)] == list@[i].1,
        forall|key: Pos| #[trigger]
            vertex_entries(*map).contains_key(key) ==> exists|i: int|
                0 <= i < list@.len() && pos(#[trigger] list@[i].0) == key,
        forall|i: int, j: int|
            0 <= i < j < list@.len() ==> pos(#[trigger] list@[i].0) != pos(#[trigger] list@[j].0),
{
    map.iter().map(|entry| (*entry.key(), *entry.value())).collect()
}

/// `DashMap::with_capacity`: a map that holds nothing.
#[verifier::external_body]
pub(crate) fn visits_with_capacity(capacity: usize) -> (map: DashMap<FIELD, bool>)
    ensures
        visit_entries(map) == Marks::empty(),
{
    DashMap::with_capacity(capacity)
}

/// `DashMap::insert`: the key holds the new mark afterwards, every other key
/// is as before; the mark that the key held before is returned.
#[verifier::external_body]
pub(crate) fn visits_insert(map: &mut DashMap<FIELD, bool>, key: FIELD, mark: bool) -> (before: Option<bool>)
    ensures
        visit_entries(*final(map)) == visit_entries(*old(map)).insert(pos(key), mark),
        before == if visit_entries(*old(map)).contains_key(pos(key)) {
            Some(visit_entries(*old(map))[pos(key)])
        } else {
            None
        },
{
    map.insert(key, mark)
}

/// `DashMap::get`: a copy of the mark that the key holds, if it holds one.
#[verifier::external_body]
pub(crate) fn visits_get(map: &DashMap<FIELD, bool>, key: &FIELD) -> (found: Option<bool>)
    ensures
        found == if visit_entries(*map).contains_key(pos(*key)) {
            Some(visit_entries(*map)[pos(*key)])
        } else {
            None
        },
{
    map.get(key).map(|entry| *entry.value())
}

/// `DashMap::with_capacity`: a map that holds nothing.
#[verifier::external_body]
pub(crate) fn places_with_capacity(capacity: usize) -> (map: DashMap<Figure, FIELD>)
    ensures
        place_entries(map) == Places::empty(),
{
    DashMap::with_capacity(capacity)
}

/// `DashMap::insert`: the figure holds the new position afterwards, every
/// other figure is as before; the position that it held before is returned.
#[verifier::external_body]
pub(crate) fn places_insert(map: &mut DashMap<Figure, FIELD>, figure: Figure, field: FIELD) -> (before: Option<FIELD>)
    ensures
        place_entries(*final(map)) == place_entries(*old(map)).insert(figure, pos(field)),
        before.is_some() == place_entries(*old(map)).contains_key(figure),
        before.is_some() ==> pos(before.unwrap()) == place_entries(*old(map))[figure],
{
    map.insert(figure, field)
}

} // verus!
