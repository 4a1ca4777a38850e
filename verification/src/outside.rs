//! The items of the engine that the verified code calls or carries, each with
//! the contract that the verified code relies on.

use bevy::color::Color;
use bevy::ecs::entity::Entity;
use bevy::input_focus::directional_navigation::{
    auto_generate_navigation_edges, AutoNavigationConfig, DirectionalNavigationMap, FocusableArea,
};
use bevy::math::{CompassOctant, Vec2};
use vstd::prelude::*;

use crate::nav_map::{is_entity_bits, nav_map_extends, nav_map_wf, slots_of};

verus! {

/// A color of the engine, carried through the library unchanged.
#[verifier::external_type_specification]
#[verifier::external_body]
pub struct ExColor(Color);

/// A two-dimensional point or size of the engine, carried through unchanged.
#[verifier::external_type_specification]
#[verifier::external_body]
pub struct ExVec2(Vec2);

/// The engine's directed navigation graph between entities.
#[verifier::external_type_specification]
#[verifier::external_body]
pub struct ExDirectionalNavigationMap(DirectionalNavigationMap);

/// A navigable UI node with its position and size, as the engine's
/// automatic navigation reads it.
#[verifier::external_type_specification]
#[verifier::external_body]
pub struct ExFocusableArea(FocusableArea);

/// The tuning of the engine's automatic navigation.
#[verifier::external_type_specification]
#[verifier::external_body]
pub struct ExAutoNavigationConfig(AutoNavigationConfig);

/// What a navigation map holds: for each entity (by its 64-bit identifier,
/// `Entity::to_bits`) its eight neighbor slots, indexed as `CompassOctant::to_index`
/// numbers them, each holding the identifier of the neighbor in that direction.
pub uninterp spec fn nav_edges(map: DirectionalNavigationMap) -> Map<u64, Seq<Option<u64>>>;

/// Calls `DirectionalNavigationMap::clear`, which clears the `neighbors` hash map:
/// afterwards the map holds no entity.
#[verifier::external_body]
pub(crate) fn nav_map_clear(map: &mut DirectionalNavigationMap)
    ensures
        nav_edges(*final(map)).dom().is_empty(),
{
    map.clear();
}

/// What `auto_generate_navigation_edges` leaves in a navigation map that held
/// `before`, given the nodes `nodes` and the tuning `config`: the edges that
/// automatic navigation finds between the nodes, added to the empty slots.
/// The engine decides them on the nodes' floating-point positions and sizes,
/// from its arguments alone.
pub uninterp spec fn auto_nav_edges(
    before: Map<u64, Seq<Option<u64>>>,
    nodes: Seq<FocusableArea>,
    config: AutoNavigationConfig,
) -> Map<u64, Seq<Option<u64>>>;

/// Calls `auto_generate_navigation_edges`, which, for each node in order and
/// each direction whose slot is still empty, adds an edge to the best
/// candidate among `nodes` (by `DirectionalNavigationMap::add_edge`).
///
/// Stated: the result is [`auto_nav_edges`] of the map before, the nodes and
/// the configuration; the map stays well formed, and every entity and every
/// filled slot that were there before stay as they were. Which edges are added
/// is left to the name.
#[verifier::external_body]
pub(crate) fn nav_map_auto_generate(
    map: &mut DirectionalNavigationMap,
    nodes: &[FocusableArea],
    config: &AutoNavigationConfig,
)
    ensures
        nav_edges(*final(map)) == auto_nav_edges(nav_edges(*old(map)), nodes@, *config),
        nav_map_wf(nav_edges(*final(map))),
        nav_map_extends(nav_edges(*old(map)), nav_edges(*final(map))),
{
    auto_generate_navigation_edges(map, nodes, config);
}

/// Walks the `neighbors` hash map of the navigation map and hands out each
/// entry, the entity and each neighbor converted by `Entity::to_bits`.
///
/// Stated: the entries are exactly the map's, each entity once. Not stated:
/// their order, which is the hash map's walking order.
#[verifier::external_body]
pub(crate) fn nav_map_entries(map: &DirectionalNavigationMap) -> (entries: Vec<(u64, [Option<u64>; 8])>)
    ensures
        forall|i: int|
            0 <= i < entries.len() ==> #[trigger] nav_edges(*map).contains_key(entries@[i].0)
                && nav_edges(*map)[entries@[i].0] == entries@[i].1@,
        forall|k: u64|
            #[trigger] nav_edges(*map).contains_key(k) ==> exists|i: int|
                0 <= i < entries.len() && #[trigger] entries@[i].0 == k,
        forall|i: int, j: int|
            0 <= i < entries.len() && 0 <= j < entries.len() && i != j ==> entries@[i].0
                != entries@[j].0,
        forall|i: int| 0 <= i < entries.len() ==> is_entity_bits(#[trigger] entries@[i].0),
        forall|i: int, s: int|
            0 <= i < entries.len() && 0 <= s < 8 && (#[trigger] entries@[i].1@[s]) is Some
                ==> is_entity_bits(entries@[i].1@[s].unwrap()),
{
    map.neighbors.iter().map(|(e, n)| (e.to_bits(), n.neighbors.map(|x| x.map(Entity::to_bits)))).collect()
}

/// Calls `DirectionalNavigationMap::get_neighbors` for the entity with the given
/// identifier (`Entity::from_bits`, which panics on bits that no entity has) and
/// hands out its eight slots, converted by `Entity::to_bits`.
#[verifier::external_body]
pub(crate) fn nav_map_get_neighbors(map: &DirectionalNavigationMap, entity: u64) -> (slots: Option<[Option<u64>; 8]>)
    requires
        is_entity_bits(entity),
    ensures
        slots is Some <==> nav_edges(*map).contains_key(entity),
        slots matches Some(s) ==> s@ == nav_edges(*map)[entity],
        slots matches Some(s) ==> forall|i: int|
            0 <= i < 8 && (#[trigger] s@[i]) is Some ==> is_entity_bits(s@[i].unwrap()),
{
    map.get_neighbors(Entity::from_bits(entity)).map(|n| n.neighbors.map(|x| x.map(Entity::to_bits)))
}

/// Calls `DirectionalNavigationMap::add_edge` from the entity `from` to the entity
/// `to` in the direction with slot index `index` (`CompassOctant::from_index`):
/// the slot is overwritten, and an entity not yet in the map first gets eight
/// empty slots.
#[verifier::external_body]
pub(crate) fn nav_map_add_edge(map: &mut DirectionalNavigationMap, from: u64, to: u64, index: usize)
    requires
        is_entity_bits(from),
        is_entity_bits(to),
        index < 8,
    ensures
        nav_edges(*final(map)) == nav_edges(*old(map)).insert(
            from,
            slots_of(nav_edges(*old(map)), from).update(index as int, Some(to)),
        ),
{
    map.add_edge(Entity::from_bits(from), Entity::from_bits(to), CompassOctant::from_index(index).unwrap());
}

} // verus!
