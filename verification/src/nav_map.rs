//! Building the map of navigation edges that the visualization draws: the
//! edges of automatic navigation, with manually defined edges overriding them.

use bevy::input_focus::directional_navigation::{
    AutoNavigationConfig, DirectionalNavigationMap, FocusableArea,
};
use vstd::prelude::*;

use crate::outside::{
    auto_nav_edges, nav_edges, nav_map_add_edge, nav_map_auto_generate, nav_map_clear, nav_map_entries,
    nav_map_get_neighbors,
};

verus! {

/// Whether a 64-bit value is the identifier of some entity: its low half, the
/// bitwise complement of the entity's index, is never zero, since an index is
/// never the largest 32-bit value.
pub open spec fn is_entity_bits(bits: u64) -> bool {
    bits % 0x1_0000_0000 != 0
}

/// Eight empty neighbor slots.
pub open spec fn empty_slots() -> Seq<Option<u64>> {
    Seq::new(8, |i: int| None)
}

/// The neighbor slots of `entity` in `edges`, or eight empty ones when the
/// entity has no entry.
pub open spec fn slots_of(edges: Map<u64, Seq<Option<u64>>>, entity: u64) -> Seq<Option<u64>> {
    if edges.contains_key(entity) {
        edges[entity]
    } else {
        empty_slots()
    }
}

/// A navigation map as one built from entities is: entity identifiers as keys
/// and as neighbors, and eight slots per entity.
pub open spec fn nav_map_wf(edges: Map<u64, Seq<Option<u64>>>) -> bool {
    forall|k: u64|
        #[trigger] edges.contains_key(k) ==> {
            &&& is_entity_bits(k)
            &&& edges[k].len() == 8
            &&& forall|s: int|
                0 <= s < 8 && (#[trigger] edges[k][s]) is Some ==> is_entity_bits(
                    edges[k][s].unwrap(),
                )
        }
}

/// `after` keeps every entity of `before`, and every filled slot of it.
pub open spec fn nav_map_extends(
    before: Map<u64, Seq<Option<u64>>>,
    after: Map<u64, Seq<Option<u64>>>,
) -> bool {
    forall|k: u64|
        #[trigger] before.contains_key(k) ==> {
            &&& after.contains_key(k)
            &&& forall|s: int|
                0 <= s < 8 && (#[trigger] before[k][s]) is Some ==> after[k][s] == before[k][s]
        }
}

/// The slots `base` with every filled slot of `overrides` written over them.
pub open spec fn overlay_slots(base: Seq<Option<u64>>, overrides: Seq<Option<u64>>) -> Seq<
    Option<u64>,
> {
    Seq::new(
        base.len(),
        |s: int|
            if s < overrides.len() && overrides[s] is Some {
                overrides[s]
            } else {
                base[s]
            },
    )
}

/// The map `auto` with the manual edges of `manual` overriding it: the same
/// entities as `auto`, and for an entity that `manual` also holds, each slot
/// that `manual` fills taken from `manual`.
pub open spec fn with_overrides(
    auto: Map<u64, Seq<Option<u64>>>,
    manual: Map<u64, Seq<Option<u64>>>,
) -> Map<u64, Seq<Option<u64>>> {
    Map::new(
        |k: u64| auto.contains_key(k),
        |k: u64|
            if manual.contains_key(k) {
                overlay_slots(auto[k], manual[k])
            } else {
                auto[k]
            },
    )
}

/// The slots `base` with the filled slots of `overrides` among the first `n`
/// written over them.
pub open spec fn overlay_first(base: Seq<Option<u64>>, overrides: Seq<Option<u64>>, n: int) -> Seq<
    Option<u64>,
> {
    Seq::new(
        base.len(),
        |s: int|
            if s < n && s < overrides.len() && overrides[s] is Some {
                overrides[s]
            } else {
                base[s]
            },
    )
}

/// Writes the filled slots of `override_neighbors` over the neighbors of
/// `entity` in `nav_map`, if the map holds that entity; otherwise the map is
/// left as it is.
pub fn add_overrides_to_nav_map(
    nav_map: &mut DirectionalNavigationMap,
    entity: u64,
    override_neighbors: &[Option<u64>; 8],
)
    requires
        is_entity_bits(entity),
        forall|s: int|
            0 <= s < 8 && (#[trigger] override_neighbors@[s]) is Some ==> is_entity_bits(
                override_neighbors@[s].unwrap(),
            ),
    ensures
        nav_edges(*final(nav_map)) == if nav_edges(*old(nav_map)).contains_key(entity) {
            nav_edges(*old(nav_map)).insert(
                entity,
                overlay_slots(nav_edges(*old(nav_map))[entity], override_neighbors@),
            )
        } else {
            nav_edges(*old(nav_map))
        },
{
    let ghost before = nav_edges(*nav_map);
    if let Some(existing) = nav_map_get_neighbors(nav_map, entity) {
        let ghost base = existing@;
        assert(before.insert(entity, overlay_first(base, override_neighbors@, 0)) =~= before) by {
            assert(overlay_first(base, override_neighbors@, 0) =~= base);
        }
        for i in 0..8usize
            invariant
                base == before[entity],
                base.len() == 8,
                before.contains_key(entity),
                is_entity_bits(entity),
                forall|s: int|
                    0 <= s < 8 && (#[trigger] override_neighbors@[s]) is Some ==> is_entity_bits(
                        override_neighbors@[s].unwrap(),
                    ),
                nav_edges(*nav_map) == before.insert(
                    entity,
                    overlay_first(base, override_neighbors@, i as int),
                ),
        {
            let ghost cur = nav_edges(*nav_map);
            if let Some(neighbor_override) = override_neighbors[i] {
                nav_map_add_edge(nav_map, entity, neighbor_override, i);
                assert(slots_of(cur, entity).update(i as int, Some(neighbor_override))
                    =~= overlay_first(base, override_neighbors@, i + 1));
            } else {
                assert(overlay_first(base, override_neighbors@, i as int) =~= overlay_first(
                    base,
                    override_neighbors@,
                    i + 1,
                ));
            }
        }
        assert(overlay_first(base, override_neighbors@, 8) =~= overlay_slots(
            base,
            override_neighbors@,
        ));
    }
}

/// Applies every manual edge of `manual_edge_map` to `nav_map`: each entity
/// of `nav_map` that the manual map also holds gets the manual map's filled
/// slots written over its own. Entities that only the manual map holds are not
/// added.
pub fn apply_manual_overrides(
    nav_map: &mut DirectionalNavigationMap,
    manual_edge_map: &DirectionalNavigationMap,
)
    ensures
        nav_edges(*final(nav_map)) == with_overrides(
            nav_edges(*old(nav_map)),
            nav_edges(*manual_edge_map),
        ),
{
    let ghost before = nav_edges(*nav_map);
    let ghost manual = nav_edges(*manual_edge_map);
    let entries = nav_map_entries(manual_edge_map);
    for i in 0..entries.len()
        invariant
            forall|j: int|
                0 <= j < entries.len() ==> #[trigger] manual.contains_key(entries@[j].0)
                    && manual[entries@[j].0] == entries@[j].1@,
            forall|k: u64|
                #[trigger] manual.contains_key(k) ==> exists|j: int|
                    0 <= j < entries.len() && #[trigger] entries@[j].0 == k,
            forall|j: int, l: int|
                0 <= j < entries.len() && 0 <= l < entries.len() && j != l ==> entries@[j].0
                    != entries@[l].0,
            forall|j: int| 0 <= j < entries.len() ==> is_entity_bits(#[trigger] entries@[j].0),
            forall|j: int, s: int|
                0 <= j < entries.len() && 0 <= s < 8 && (#[trigger] entries@[j].1@[s]) is Some
                    ==> is_entity_bits(entries@[j].1@[s].unwrap()),
            nav_edges(*nav_map).dom() == before.dom(),
            forall|k: u64|
                #[trigger] before.contains_key(k) ==> nav_edges(*nav_map)[k] == if exists|j: int|
                    0 <= j < i && #[trigger] entries@[j].0 == k {
                    overlay_slots(before[k], manual[k])
                } else {
                    before[k]
                },
    {
        let ghost cur = nav_edges(*nav_map);
        let entity = entries[i].0;
        assert forall|s: int|
            0 <= s < 8 && (#[trigger] entries@[i as int].1@[s]) is Some implies is_entity_bits(
            entries@[i as int].1@[s].unwrap(),
        ) by {}
        add_overrides_to_nav_map(nav_map, entity, &entries[i].1);
        assert forall|k: u64| #[trigger] before.contains_key(k) implies nav_edges(*nav_map)[k]
            == if exists|j: int| 0 <= j < i + 1 && #[trigger] entries@[j].0 == k {
            overlay_slots(before[k], manual[k])
        } else {
            before[k]
        } by {
            if k == entity {
                assert(entries@[i as int].0 == k);
                assert(manual.contains_key(entries@[i as int].0));
                assert(manual[k] == entries@[i as int].1@);
                assert forall|j: int| 0 <= j < i implies #[trigger] entries@[j].0 != k by {
                    assert(entries@[j].0 != entries@[i as int].0);
                }
                assert(cur[k] == before[k]);
            } else {
                if exists|j: int| 0 <= j < i + 1 && #[trigger] entries@[j].0 == k {
                    let j = choose|j: int| 0 <= j < i + 1 && #[trigger] entries@[j].0 == k;
                    assert(j < i);
                }
            }
        }
        assert(nav_edges(*nav_map).dom() =~= before.dom());
    }
    assert(nav_edges(*nav_map) =~= with_overrides(before, manual)) by {
        assert forall|k: u64| #[trigger] before.contains_key(k) implies nav_edges(*nav_map)[k]
            == with_overrides(before, manual)[k] by {
            if manual.contains_key(k) {
                let j = choose|j: int| 0 <= j < entries.len() && #[trigger] entries@[j].0 == k;
                assert(entries@[j].0 == k);
            }
        }
    }
}

/// Rebuilds `nav_map` as the visualization needs it: the map is cleared, then
/// filled with the edges that automatic navigation finds between the nodes
/// `focusable_areas`, and then every manual edge of `manual_edge_map` is
/// written over those of the entities it shares with the map.
///
/// The automatic edges are chosen on the nodes' floating-point geometry by the
/// engine; they are named [`auto_nav_edges`] of the empty map, the nodes and
/// the configuration.
pub fn rebuild_nav_map(
    nav_map: &mut DirectionalNavigationMap,
    manual_edge_map: &DirectionalNavigationMap,
    focusable_areas: &[FocusableArea],
    config: &AutoNavigationConfig,
)
    ensures
        nav_edges(*final(nav_map)) == with_overrides(
            auto_nav_edges(Map::empty(), focusable_areas@, *config),
            nav_edges(*manual_edge_map),
        ),
        nav_map_wf(auto_nav_edges(Map::empty(), focusable_areas@, *config)),
{
    nav_map_clear(nav_map);
    assert(nav_edges(*nav_map) =~= Map::empty());
    nav_map_auto_generate(nav_map, focusable_areas, config);
    apply_manual_overrides(nav_map, manual_edge_map);
}

/// Manual edges win: in the map with overrides, an entity also held by the
/// manual map has, in every slot that the manual map fills, the manual
/// neighbor, and in every other slot the automatic one. The map holds exactly
/// the entities of the automatic map: an entity only the manual map holds gets
/// no entry, and an entity the manual map does not hold keeps its slots.
pub proof fn lemma_manual_edges_override(
    auto: Map<u64, Seq<Option<u64>>>,
    manual: Map<u64, Seq<Option<u64>>>,
    entity: u64,
    slot: int,
)
    requires
        nav_map_wf(auto),
        nav_map_wf(manual),
        0 <= slot < 8,
    ensures
        with_overrides(auto, manual).dom() == auto.dom(),
        auto.contains_key(entity) && !manual.contains_key(entity) ==> with_overrides(
            auto,
            manual,
        )[entity] == auto[entity],
        auto.contains_key(entity) && manual.contains_key(entity) ==> {
            &&& with_overrides(auto, manual)[entity].len() == 8
            &&& with_overrides(auto, manual)[entity][slot] == if manual[entity][slot] is Some {
                manual[entity][slot]
            } else {
                auto[entity][slot]
            }
        },
{
    assert(with_overrides(auto, manual).dom() =~= auto.dom());
}

/// Applying the manual edges a second time changes nothing.
pub proof fn lemma_overrides_idempotent(
    auto: Map<u64, Seq<Option<u64>>>,
    manual: Map<u64, Seq<Option<u64>>>,
)
    requires
        nav_map_wf(auto),
        nav_map_wf(manual),
    ensures
        with_overrides(with_overrides(auto, manual), manual) == with_overrides(auto, manual),
{
    let once = with_overrides(auto, manual);
    assert forall|k: u64| #[trigger] once.contains_key(k) implies with_overrides(once, manual)[k]
        == once[k] by {
        if manual.contains_key(k) {
            assert(overlay_slots(once[k], manual[k]) =~= once[k]);
        }
    }
    assert(with_overrides(once, manual) =~= once);
}

/// The map with overrides is well formed when both maps are.
pub proof fn lemma_overrides_wf(auto: Map<u64, Seq<Option<u64>>>, manual: Map<u64, Seq<Option<u64>>>)
    requires
        nav_map_wf(auto),
        nav_map_wf(manual),
    ensures
        nav_map_wf(with_overrides(auto, manual)),
{
    let r = with_overrides(auto, manual);
    assert forall|k: u64| #[trigger] r.contains_key(k) implies {
        &&& is_entity_bits(k)
        &&& r[k].len() == 8
        &&& forall|s: int| 0 <= s < 8 && (#[trigger] r[k][s]) is Some ==> is_entity_bits(r[k][s].unwrap())
    } by {
        if manual.contains_key(k) {
            assert forall|s: int| 0 <= s < 8 && (#[trigger] r[k][s]) is Some implies is_entity_bits(r[k][s].unwrap()) by {
                if manual[k][s] is Some {
                } else {
                    assert(auto[k][s] is Some);
                }
            }
        }
    }
}

} // verus!
