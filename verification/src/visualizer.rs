//! The decisions of the drawing pass: which navigation edges are drawn and in
//! which order, which of them are symmetrical, how each is styled, and which
//! way the two arrows of a spaced-out symmetrical edge are pushed apart.

use bevy::color::Color;
use bevy::input_focus::directional_navigation::DirectionalNavigationMap;
use bevy::math::Vec2;
use vstd::prelude::*;

use crate::nav_map::is_entity_bits;
use crate::octant::{octant_from_index, octant_index, octant_opposite, Octant};
use crate::outside::{nav_edges, nav_map_entries, nav_map_get_neighbors};
use crate::settings::{spec_is_merge, AutoNavVizDrawMode, FloatBits, SymmetricalEdgeSettings};

verus! {

/// What a drawn navigation edge connects: the source entity and the direction
/// in which the edge leaves it, and the destination entity and the direction
/// of the point on it that the edge reaches (a south-east destination
/// direction means the arrow points at the south-east corner of the
/// destination). Entities are given by their 64-bit identifiers.
#[derive(Clone, Copy, Debug, PartialEq, Eq, Hash, Structural)]
pub struct NavVizDrawMetaData {
    pub source_entity: u64,
    pub source_direction: Octant,
    pub destination_entity: u64,
    pub destination_direction: Octant,
}

/// The metadata of the edge going the other way.
pub open spec fn spec_opposite_meta(m: NavVizDrawMetaData) -> NavVizDrawMetaData {
    NavVizDrawMetaData {
        source_entity: m.destination_entity,
        source_direction: m.destination_direction,
        destination_entity: m.source_entity,
        destination_direction: m.source_direction,
    }
}

impl NavVizDrawMetaData {
    /// Creates the metadata of an edge.
    pub fn new(
        source_entity: u64,
        source_direction: Octant,
        destination_entity: u64,
        destination_direction: Octant,
    ) -> (m: Self)
        ensures
            m.source_entity == source_entity,
            m.source_direction == source_direction,
            m.destination_entity == destination_entity,
            m.destination_direction == destination_direction,
    {
        NavVizDrawMetaData { source_entity, source_direction, destination_entity, destination_direction }
    }

    /// Returns the metadata of the hypothetical edge going the other way: the
    /// source and destination fields trade places.
    pub fn opposite(&self) -> (m: Self)
        ensures
            m == spec_opposite_meta(*self),
    {
        NavVizDrawMetaData {
            source_entity: self.destination_entity,
            source_direction: self.destination_direction,
            destination_entity: self.source_entity,
            destination_direction: self.source_direction,
        }
    }
}

/// Taking the opposite of an edge's metadata twice gives it back, and an
/// edge is its own opposite only when it leaves and reaches the same entity
/// in the same direction.
pub proof fn lemma_opposite_meta_involution(m: NavVizDrawMetaData)
    ensures
        spec_opposite_meta(spec_opposite_meta(m)) == m,
        spec_opposite_meta(m) == m <==> (m.source_entity == m.destination_entity
            && m.source_direction == m.destination_direction),
{
}

/// Whether a line is drawn as a plain line, an arrow or a double-ended arrow.
#[derive(Clone, Copy, Debug, PartialEq)]
pub enum DrawLineType {
    /// A line; when a color is given, it is drawn as a gradient from the
    /// line's own color to this one.
    Line(Option<Color>),
    Arrow,
    DoubleEndedArrow,
}

/// A line or arrow to draw, with its end points in world coordinates.
#[derive(Clone, Copy, Debug, PartialEq)]
pub struct DrawLineData {
    pub line_type: DrawLineType,
    pub start: Vec2,
    pub end: Vec2,
    /// The color of the line; for a gradient line, its start color.
    pub color: Color,
}

/// A navigation edge that the drawing pass draws: from `source_entity` in the
/// direction `direction` to `destination_entity`, and whether the destination
/// has an edge back in the opposite direction.
#[derive(Clone, Copy, Debug, PartialEq, Eq, Structural)]
pub struct PlannedEdge {
    pub source_entity: u64,
    pub direction: Octant,
    pub destination_entity: u64,
    pub is_symmetrical: bool,
}

/// An entity with its eight neighbor slots, as listed from a navigation map.
pub type NavEntry = (u64, [Option<u64>; 8]);

/// The entries list exactly the entities of `edges`, each with its slots.
pub open spec fn entries_match(entries: Seq<NavEntry>, edges: Map<u64, Seq<Option<u64>>>) -> bool {
    &&& forall|i: int|
        0 <= i < entries.len() ==> #[trigger] edges.contains_key(entries[i].0)
            && edges[entries[i].0] == entries[i].1@
    &&& forall|k: u64|
        #[trigger] edges.contains_key(k) ==> exists|i: int|
            0 <= i < entries.len() && #[trigger] entries[i].0 == k
}

/// The entries are in strictly increasing order of entity identifier (the
/// order of the engine's entity comparison).
pub open spec fn entries_sorted(entries: Seq<NavEntry>) -> bool {
    forall|i: int, j: int| 0 <= i < j < entries.len() ==> entries[i].0 < entries[j].0
}

/// Every neighbor listed in the entries is an entity identifier.
pub open spec fn entries_wf(entries: Seq<NavEntry>) -> bool {
    &&& forall|i: int| 0 <= i < entries.len() ==> is_entity_bits(#[trigger] entries[i].0)
    &&& forall|i: int, s: int|
        0 <= i < entries.len() && 0 <= s < 8 && (#[trigger] entries[i].1@[s]) is Some
            ==> is_entity_bits(entries[i].1@[s].unwrap())
}

/// Inserts `entry` into the sorted entries at its place.
fn insert_sorted(sorted: &mut Vec<NavEntry>, entry: NavEntry)
    requires
        entries_sorted(old(sorted)@),
        forall|q: int| 0 <= q < old(sorted)@.len() ==> (#[trigger] old(sorted)@[q]).0 != entry.0,
    ensures
        entries_sorted(final(sorted)@),
        forall|x: NavEntry| #[trigger]
            final(sorted)@.contains(x) <==> (old(sorted)@.contains(x) || x == entry),
{
    let mut pos: usize = 0;
    while pos < sorted.len() && sorted[pos].0 < entry.0
        invariant
            pos <= sorted.len(),
            forall|q: int| 0 <= q < pos ==> (#[trigger] sorted@[q]).0 < entry.0,
        decreases sorted.len() - pos,
    {
        pos = pos + 1;
    }
    let ghost before = sorted@;
    sorted.insert(pos, entry);
    assert forall|q: int, r: int| 0 <= q < r < sorted.len() implies sorted@[q].0 < sorted@[r].0 by {
        if r > pos {
            assert(sorted@[r] == before[r - 1]);
            assert(before[r - 1].0 != entry.0);
            if q < pos {
                assert(before[pos as int].0 <= before[r - 1].0);
            } else if q > pos {
                assert(sorted@[q] == before[q - 1]);
            }
        }
    }
    assert forall|x: NavEntry| #[trigger] sorted@.contains(x) <==> (before.contains(x) || x == entry) by {
        if sorted@.contains(x) {
            let q = choose|q: int| 0 <= q < sorted@.len() && sorted@[q] == x;
            if q < pos {
                assert(before[q] == x);
            } else if q > pos {
                assert(before[q - 1] == x);
            }
        }
        if before.contains(x) {
            let r = choose|r: int| 0 <= r < before.len() && before[r] == x;
            if r < pos {
                assert(sorted@[r] == x);
            } else {
                assert(sorted@[r + 1] == x);
            }
        }
        if x == entry {
            assert(sorted@[pos as int] == x);
        }
    }
}

/// Returns the entries of `nav_map` in increasing order of entity.
fn sorted_nav_entries(nav_map: &DirectionalNavigationMap) -> (sorted: Vec<NavEntry>)
    ensures
        entries_match(sorted@, nav_edges(*nav_map)),
        entries_sorted(sorted@),
        entries_wf(sorted@),
{
    let entries = nav_map_entries(nav_map);
    let ghost edges = nav_edges(*nav_map);
    let mut sorted: Vec<NavEntry> = Vec::new();
    for i in 0..entries.len()
        invariant
            forall|a: int|
                0 <= a < entries.len() ==> #[trigger] edges.contains_key(entries@[a].0)
                    && edges[entries@[a].0] == entries@[a].1@,
            forall|k: u64|
                #[trigger] edges.contains_key(k) ==> exists|a: int|
                    0 <= a < entries.len() && #[trigger] entries@[a].0 == k,
            entries_wf(entries@),
            forall|a: int, b: int|
                0 <= a < entries.len() && 0 <= b < entries.len() && a != b ==> entries@[a].0
                    != entries@[b].0,
            entries_sorted(sorted@),
            forall|x: NavEntry| #[trigger]
                sorted@.contains(x) <==> entries@.take(i as int).contains(x),
    {
        let entry = entries[i];
        assert forall|q: int| 0 <= q < sorted@.len() implies (#[trigger] sorted@[q]).0 != entry.0 by {
            assert(sorted@.contains(sorted@[q]));
            let a = choose|a: int| 0 <= a < i && entries@.take(i as int)[a] == sorted@[q];
            assert(entries@[a].0 != entries@[i as int].0);
        }
        let ghost before = sorted@;
        insert_sorted(&mut sorted, entry);
        assert forall|x: NavEntry| #[trigger]
            sorted@.contains(x) <==> entries@.take(i + 1).contains(x) by {
            let prefix = entries@.take(i as int);
            assert(entries@.take(i + 1) =~= prefix.push(entry));
            assert(before.contains(x) <==> prefix.contains(x));
            if prefix.push(entry).contains(x) {
                let a = choose|a: int| 0 <= a < prefix.len() + 1 && prefix.push(entry)[a] == x;
                if a < prefix.len() {
                    assert(prefix[a] == x);
                }
            }
            if prefix.contains(x) {
                let a = choose|a: int| 0 <= a < prefix.len() && prefix[a] == x;
                assert(prefix.push(entry)[a] == x);
            }
            if x == entry {
                assert(prefix.push(entry)[prefix.len() as int] == x);
            }
        }
    }
    assert(entries@.take(entries.len() as int) =~= entries@);
    assert(entries_match(sorted@, edges)) by {
        assert forall|q: int| 0 <= q < sorted.len() implies #[trigger] edges.contains_key(
            sorted@[q].0,
        ) && edges[sorted@[q].0] == sorted@[q].1@ by {
            assert(sorted@.contains(sorted@[q]));
            let a = choose|a: int| 0 <= a < entries.len() && entries@[a] == sorted@[q];
            assert(edges.contains_key(entries@[a].0));
        }
        assert forall|k: u64| #[trigger] edges.contains_key(k) implies exists|q: int|
            0 <= q < sorted.len() && #[trigger] sorted@[q].0 == k by {
            let a = choose|a: int| 0 <= a < entries.len() && #[trigger] entries@[a].0 == k;
            assert(entries@.contains(entries@[a]));
            assert(sorted@.contains(entries@[a]));
            let q = choose|q: int| 0 <= q < sorted.len() && sorted@[q] == entries@[a];
            assert(sorted@[q].0 == k);
        }
    }
    assert(entries_wf(sorted@)) by {
        assert forall|q: int| 0 <= q < sorted.len() implies is_entity_bits(#[trigger] sorted@[q].0) by {
            assert(sorted@.contains(sorted@[q]));
            let a = choose|a: int| 0 <= a < entries.len() && entries@[a] == sorted@[q];
            assert(is_entity_bits(entries@[a].0));
        }
        assert forall|q: int, s: int|
            0 <= q < sorted.len() && 0 <= s < 8 && (#[trigger] sorted@[q].1@[s]) is Some implies is_entity_bits(
            sorted@[q].1@[s].unwrap(),
        ) by {
            assert(sorted@.contains(sorted@[q]));
            let a = choose|a: int| 0 <= a < entries.len() && entries@[a] == sorted@[q];
            assert(entries@[a].1@[s] is Some);
        }
    }
    sorted
}

/// Returns the entries whose edges the drawing pass draws, or `None` when
/// nothing is drawn: for [`AutoNavVizDrawMode::EnabledForCurrentFocus`] only
/// the focused entity's entry (`None` without a focus or when the map does not
/// hold it); for [`AutoNavVizDrawMode::EnabledForAll`] every entry of the map,
/// in increasing order of entity so that the drawing does not flicker.
pub fn nav_viz_entries(
    nav_map: &DirectionalNavigationMap,
    focus: Option<u64>,
    draw_mode: AutoNavVizDrawMode,
) -> (entries: Option<Vec<NavEntry>>)
    requires
        focus matches Some(f) ==> is_entity_bits(f),
    ensures
        draw_mode is EnabledForCurrentFocus ==> {
            &&& entries is Some <==> (focus is Some && nav_edges(*nav_map).contains_key(
                focus.unwrap(),
            ))
            &&& entries matches Some(v) ==> v@.len() == 1 && v@[0].0 == focus.unwrap()
                && v@[0].1@ == nav_edges(*nav_map)[focus.unwrap()]
        },
        draw_mode is EnabledForAll ==> (entries matches Some(v) && entries_match(
            v@,
            nav_edges(*nav_map),
        ) && entries_sorted(v@)),
        entries matches Some(v) ==> entries_wf(v@),
{
    match draw_mode {
        AutoNavVizDrawMode::EnabledForCurrentFocus => {
            match focus {
                Some(entity) => match nav_map_get_neighbors(nav_map, entity) {
                    Some(neighbors) => {
                        let ghost edges = nav_edges(*nav_map);
                        let entries = vec![(entity, neighbors)];
                        assert(entries@[0] == (entity, neighbors));
                        assert(edges.contains_key(entity));
                        Some(entries)
                    },
                    None => None,
                },
                None => None,
            }
        },
        AutoNavVizDrawMode::EnabledForAll(_) => Some(sorted_nav_entries(nav_map)),
    }
}

/// Whether the edge from `from` in the direction with slot index `slot` to
/// `to` is symmetrical: `to` has `from` as its neighbor in the opposite
/// direction.
pub open spec fn edge_is_symmetrical(
    edges: Map<u64, Seq<Option<u64>>>,
    from: u64,
    slot: int,
    to: u64,
) -> bool {
    edges.contains_key(to) && edges[to][octant_index(
        octant_opposite(octant_from_index(slot).unwrap()),
    ) as int] == Some(from)
}

/// Whether the entity `e` is the entity of one of the first `k` entries (the
/// entries the drawing pass has finished with when it reaches entry `k`).
pub open spec fn processed_before(entries: Seq<NavEntry>, k: int, e: u64) -> bool {
    exists|j: int| 0 <= j < k && #[trigger] entries[j].0 == e
}

/// Whether symmetrical edges are merged into one drawn edge in this mode.
pub open spec fn merges_symmetrical(mode: AutoNavVizDrawMode) -> bool {
    mode matches AutoNavVizDrawMode::EnabledForAll(settings) && spec_is_merge(settings)
}

/// The edge that the drawing pass draws for slot `slot` of entry `k`, if any:
/// the slot must hold a neighbor, both entities must have a position, and a
/// symmetrical edge is left out when symmetrical edges are merged and the
/// neighbor's entry came earlier (its edge back has then been drawn).
pub open spec fn slot_plan(
    edges: Map<u64, Seq<Option<u64>>>,
    entries: Seq<NavEntry>,
    positioned: Seq<u64>,
    mode: AutoNavVizDrawMode,
    k: int,
    slot: int,
) -> Option<PlannedEdge> {
    let from = entries[k].0;
    match entries[k].1@[slot] {
        None => None,
        Some(to) => if !positioned.contains(from) || !positioned.contains(to) {
            None
        } else {
            let sym = edge_is_symmetrical(edges, from, slot, to);
            if sym && merges_symmetrical(mode) && processed_before(entries, k, to) {
                None
            } else {
                Some(
                    PlannedEdge {
                        source_entity: from,
                        direction: octant_from_index(slot).unwrap(),
                        destination_entity: to,
                        is_symmetrical: sym,
                    },
                )
            }
        },
    }
}

/// The edges drawn for the first `n` slots, going through the entries in
/// order and through the eight slots of each in order.
pub open spec fn planned_upto(
    edges: Map<u64, Seq<Option<u64>>>,
    entries: Seq<NavEntry>,
    positioned: Seq<u64>,
    mode: AutoNavVizDrawMode,
    n: nat,
) -> Seq<PlannedEdge>
    decreases n,
{
    if n == 0 {
        Seq::empty()
    } else {
        let prev = planned_upto(edges, entries, positioned, mode, (n - 1) as nat);
        match slot_plan(edges, entries, positioned, mode, (n - 1) / 8, (n - 1) % 8) {
            Some(p) => prev.push(p),
            None => prev,
        }
    }
}

/// The edges that the drawing pass draws for the given entries, in order.
pub open spec fn planned_edges(
    edges: Map<u64, Seq<Option<u64>>>,
    entries: Seq<NavEntry>,
    positioned: Seq<u64>,
    mode: AutoNavVizDrawMode,
) -> Seq<PlannedEdge> {
    planned_upto(edges, entries, positioned, mode, (8 * entries.len()) as nat)
}

/// Returns whether `v` holds `e`.
fn contains_entity(v: &Vec<u64>, e: u64) -> (b: bool)
    ensures
        b == v@.contains(e),
{
    for i in 0..v.len()
        invariant
            forall|j: int| 0 <= j < i ==> v@[j] != e,
    {
        if v[i] == e {
            assert(v@[i as int] == e);
            return true;
        }
    }
    false
}

/// Decides which navigation edges the drawing pass draws, in order: for each
/// entry, each of its eight slots that holds a neighbor, when both entities
/// have a position (`positioned` lists the entities that do), with whether the
/// edge is symmetrical in `nav_map`. When the draw mode merges symmetrical
/// edges, a symmetrical edge whose destination's entry came earlier is left
/// out, since it is drawn as part of that entry's edge.
pub fn plan_nav_viz_edges(
    nav_map: &DirectionalNavigationMap,
    entries: &Vec<NavEntry>,
    positioned: &Vec<u64>,
    draw_mode: AutoNavVizDrawMode,
) -> (plan: Vec<PlannedEdge>)
    requires
        entries_wf(entries@),
    ensures
        plan@ == planned_edges(nav_edges(*nav_map), entries@, positioned@, draw_mode),
{
    let ghost edges = nav_edges(*nav_map);
    let merge = match draw_mode {
        AutoNavVizDrawMode::EnabledForAll(settings) => settings.is_merge(),
        AutoNavVizDrawMode::EnabledForCurrentFocus => false,
    };
    let mut plan: Vec<PlannedEdge> = Vec::new();
    // The entities whose entries are done, in order; a list of identifiers
    // with a linear search stands for the set of entities.
    let mut processed_entities: Vec<u64> = Vec::new();
    for k in 0..entries.len()
        invariant
            entries_wf(entries@),
            merge == merges_symmetrical(draw_mode),
            edges == nav_edges(*nav_map),
            processed_entities@.len() == k,
            forall|j: int| 0 <= j < k ==> processed_entities@[j] == #[trigger] entries@[j].0,
            plan@ == planned_upto(edges, entries@, positioned@, draw_mode, (8 * k) as nat),
    {
        let entity = entries[k].0;
        let neighbors = entries[k].1;
        for slot in 0..8usize
            invariant
                entries_wf(entries@),
                0 <= k < entries.len(),
                entity == entries@[k as int].0,
                neighbors == entries@[k as int].1,
                merge == merges_symmetrical(draw_mode),
                edges == nav_edges(*nav_map),
                processed_entities@.len() == k,
                forall|j: int| 0 <= j < k ==> processed_entities@[j] == #[trigger] entries@[j].0,
                plan@ == planned_upto(edges, entries@, positioned@, draw_mode, (8 * k + slot) as nat),
        {
            let ghost n = (8 * k + slot) as nat;
            assert(n / 8 == k && n % 8 == slot);
            let ghost expected = slot_plan(edges, entries@, positioned@, draw_mode, k as int, slot as int);
            if let Some(neighbor) = neighbors[slot] {
                if contains_entity(positioned, entity) && contains_entity(positioned, neighbor) {
                    assert(neighbors@[slot as int] is Some);
                    let dir = Octant::from_index(slot).unwrap();
                    let back = dir.opposite().index();
                    let is_symmetrical = match nav_map_get_neighbors(nav_map, neighbor) {
                        Some(their_neighbors) => match their_neighbors[back] {
                            Some(e) => e == entity,
                            None => false,
                        },
                        None => false,
                    };
                    assert(is_symmetrical == edge_is_symmetrical(edges, entity, slot as int, neighbor));
                    let already_drawn = contains_entity(&processed_entities, neighbor);
                    assert(already_drawn == processed_before(entries@, k as int, neighbor)) by {
                        if already_drawn {
                            let j = choose|j: int| 0 <= j < k && processed_entities@[j] == neighbor;
                            assert(entries@[j].0 == neighbor);
                        }
                        if processed_before(entries@, k as int, neighbor) {
                            let j = choose|j: int| 0 <= j < k && #[trigger] entries@[j].0 == neighbor;
                            assert(processed_entities@[j] == neighbor);
                        }
                    }
                    if !(is_symmetrical && merge && already_drawn) {
                        plan.push(
                            PlannedEdge {
                                source_entity: entity,
                                direction: dir,
                                destination_entity: neighbor,
                                is_symmetrical,
                            },
                        );
                    }
                }
            }
        }
        processed_entities.push(entity);
    }
    plan
}

/// With symmetrical edges merged, an edge between two distinct positioned
/// entities whose edge back exists is drawn once: from the entity whose entry
/// comes first, and not from the other.
pub proof fn lemma_symmetrical_edge_drawn_once(
    edges: Map<u64, Seq<Option<u64>>>,
    entries: Seq<NavEntry>,
    positioned: Seq<u64>,
    mode: AutoNavVizDrawMode,
    first: int,
    second: int,
    slot: int,
)
    requires
        merges_symmetrical(mode),
        0 <= first < second < entries.len(),
        0 <= slot < 8,
        entries_sorted(entries),
        edges.contains_key(entries[first].0),
        edges.contains_key(entries[second].0),
        edges[entries[first].0] == entries[first].1@,
        edges[entries[second].0] == entries[second].1@,
        positioned.contains(entries[first].0),
        positioned.contains(entries[second].0),
        entries[first].1@[slot] == Some(entries[second].0),
        entries[second].1@[(slot + 4) % 8] == Some(entries[first].0),
    ensures
        slot_plan(edges, entries, positioned, mode, first, slot) matches Some(p) && p.is_symmetrical
            && p.source_entity == entries[first].0 && p.destination_entity == entries[second].0,
        slot_plan(edges, entries, positioned, mode, second, (slot + 4) % 8) is None,
{
    let a = entries[first].0;
    let b = entries[second].0;
    lemma_opposite_slot(slot);
    lemma_opposite_slot((slot + 4) % 8);
    assert(edge_is_symmetrical(edges, a, slot, b));
    assert(edge_is_symmetrical(edges, b, (slot + 4) % 8, a));
    assert(entries[first].0 == a);
    assert(processed_before(entries, second, a));
    if processed_before(entries, first, b) {
        let j = choose|j: int| 0 <= j < first && #[trigger] entries[j].0 == b;
        assert(entries[j].0 != entries[second].0);
    }
}

/// The opposite of the direction in slot `slot` is in slot `(slot + 4) % 8`.
pub proof fn lemma_opposite_slot(slot: int)
    requires
        0 <= slot < 8,
    ensures
        octant_index(octant_opposite(octant_from_index(slot).unwrap())) == (slot + 4) % 8,
{
}

/// When symmetrical edges are not merged, every filled slot of an entry whose
/// two entities have a position is drawn.
pub proof fn lemma_unmerged_edges_all_drawn(
    edges: Map<u64, Seq<Option<u64>>>,
    entries: Seq<NavEntry>,
    positioned: Seq<u64>,
    mode: AutoNavVizDrawMode,
    k: int,
    slot: int,
)
    requires
        !merges_symmetrical(mode),
        0 <= k < entries.len(),
        0 <= slot < 8,
        entries[k].1@[slot] is Some,
        positioned.contains(entries[k].0),
        positioned.contains(entries[k].1@[slot].unwrap()),
    ensures
        slot_plan(edges, entries, positioned, mode, k, slot) == Some(
            PlannedEdge {
                source_entity: entries[k].0,
                direction: octant_from_index(slot).unwrap(),
                destination_entity: entries[k].1@[slot].unwrap(),
                is_symmetrical: edge_is_symmetrical(
                    edges,
                    entries[k].0,
                    slot,
                    entries[k].1@[slot].unwrap(),
                ),
            },
        ),
{
}

/// Every drawn edge is a navigation edge of its entry: the entry of its
/// source holds its destination in the slot of its direction, and both its
/// entities have a position.
pub proof fn lemma_planned_edges_are_nav_edges(
    edges: Map<u64, Seq<Option<u64>>>,
    entries: Seq<NavEntry>,
    positioned: Seq<u64>,
    mode: AutoNavVizDrawMode,
    n: nat,
)
    requires
        n <= 8 * entries.len(),
    ensures
        forall|i: int|
            0 <= i < planned_upto(edges, entries, positioned, mode, n).len() ==> {
                let p = #[trigger] planned_upto(edges, entries, positioned, mode, n)[i];
                &&& exists|k: int|
                    0 <= k < entries.len() && entries[k].0 == p.source_entity
                        && #[trigger] entries[k].1@[octant_index(p.direction) as int] == Some(
                        p.destination_entity,
                    )
                &&& positioned.contains(p.source_entity)
                &&& positioned.contains(p.destination_entity)
            },
    decreases n,
{
    if n > 0 {
        lemma_planned_edges_are_nav_edges(edges, entries, positioned, mode, (n - 1) as nat);
        let k = (n - 1) / 8;
        let slot = (n - 1) % 8;
        if let Some(p) = slot_plan(edges, entries, positioned, mode, k, slot) {
            lemma_octant_index_from_slot(slot);
            assert(entries[k].1@[octant_index(p.direction) as int] == Some(p.destination_entity));
        }
    }
}

/// The direction in slot `slot` has index `slot`.
pub proof fn lemma_octant_index_from_slot(slot: int)
    requires
        0 <= slot < 8,
    ensures
        octant_index(octant_from_index(slot).unwrap()) == slot,
{
}

/// The direction in which the start of a spaced-out symmetrical edge leaving
/// in direction `dir` is pushed: a quarter turn counterclockwise from `dir`,
/// after turning a diagonal `dir` counterclockwise onto a side.
pub open spec fn start_nudge_for(dir: Octant) -> Octant {
    match dir {
        Octant::North | Octant::NorthEast => Octant::West,
        Octant::East | Octant::SouthEast => Octant::North,
        Octant::South | Octant::SouthWest => Octant::East,
        Octant::West | Octant::NorthWest => Octant::South,
    }
}

/// The direction in which the end of a spaced-out symmetrical edge arriving
/// at direction `dir` is pushed: a quarter turn clockwise from `dir`, after
/// turning a diagonal `dir` clockwise onto a side.
pub open spec fn end_nudge_for(dir: Octant) -> Octant {
    match dir {
        Octant::North | Octant::NorthWest => Octant::East,
        Octant::NorthEast | Octant::East => Octant::South,
        Octant::SouthEast | Octant::South => Octant::West,
        Octant::SouthWest | Octant::West => Octant::North,
    }
}

/// Returns the directions, in each entity's local frame, in which the start
/// and the end of a symmetrical edge are pushed so that its two arrows are
/// drawn apart: `None` unless the setting is
/// [`SymmetricalEdgeSettings::SpacingBetweenSingleArrows`], where nothing is
/// pushed. The start is pushed counterclockwise around the source entity and
/// the end clockwise around the destination entity; the distance is a
/// proportion of each entity's size along the pushed axis.
pub fn get_local_nudge_directions(
    start_dir: Octant,
    end_dir: Octant,
    symm_edge_settings: SymmetricalEdgeSettings,
) -> (nudge: Option<(Octant, Octant)>)
    ensures
        nudge == if symm_edge_settings is SpacingBetweenSingleArrows {
            Some((start_nudge_for(start_dir), end_nudge_for(end_dir)))
        } else {
            None
        },
{
    match symm_edge_settings {
        SymmetricalEdgeSettings::SpacingBetweenSingleArrows => {
            let start_nudge = match start_dir {
                Octant::North | Octant::NorthEast => Octant::West,
                Octant::East | Octant::SouthEast => Octant::North,
                Octant::South | Octant::SouthWest => Octant::East,
                Octant::West | Octant::NorthWest => Octant::South,
            };
            let end_nudge = match end_dir {
                Octant::North | Octant::NorthWest => Octant::East,
                Octant::NorthEast | Octant::East => Octant::South,
                Octant::SouthEast | Octant::South => Octant::West,
                Octant::SouthWest | Octant::West => Octant::North,
            };
            Some((start_nudge, end_nudge))
        },
        _ => None,
    }
}

/// The nudges point along a side (never diagonally): the start's a quarter
/// turn counterclockwise from the direction rounded counterclockwise to a
/// side, the end's a quarter turn clockwise from the direction rounded
/// clockwise to a side. For an edge between two sides facing each other, both
/// ends are pushed the same way, so the two arrows stay parallel.
pub proof fn lemma_nudge_directions(dir: Octant)
    ensures
        octant_index(start_nudge_for(dir)) % 2 == 0,
        octant_index(end_nudge_for(dir)) % 2 == 0,
        octant_index(start_nudge_for(dir)) == (octant_index(dir) - octant_index(dir) % 2 + 6)
            % 8,
        octant_index(end_nudge_for(dir)) == (octant_index(dir) + octant_index(dir) % 2 + 2) % 8,
        octant_index(dir) % 2 == 0 ==> start_nudge_for(dir) == end_nudge_for(octant_opposite(dir)),
{
}

/// Which of an edge's colors a line or arc takes. The start color is the
/// color of the edge's direction for its source entity; the end color is the
/// start color, or for a merged symmetrical edge the color the edge back would
/// have had; the merged color is the mix of the two.
#[derive(Clone, Copy, Debug, PartialEq, Eq, Structural)]
pub enum EdgeColorRole {
    Start,
    End,
    Merged,
}

/// How a line of an edge is drawn: a plain line (with a gradient towards the
/// given color when there is one), an arrow, or a double-ended arrow.
#[derive(Clone, Copy, Debug, PartialEq, Eq, Structural)]
pub enum LineKind {
    Line(Option<EdgeColorRole>),
    Arrow,
    DoubleEndedArrow,
}

/// How one line of an edge is drawn and colored.
#[derive(Clone, Copy, Debug, PartialEq, Eq, Structural)]
pub struct LineStyle {
    pub kind: LineKind,
    pub color: EdgeColorRole,
}

/// The styling decisions for one navigation edge.
#[derive(Clone, Copy, Debug, PartialEq, Eq, Structural)]
pub struct EdgeStyle {
    /// The edge is drawn as a double-ended arrow (a merged symmetrical edge).
    pub double_ended: bool,
    /// The end color is the color the edge back would have had on its own:
    /// the color of `end_color_direction` going from the destination entity to
    /// the source entity. Otherwise the end color is the start color.
    pub end_color_reversed: bool,
    /// The direction whose color the end takes: the opposite of the edge's
    /// direction (the direction of the edge back) when the end color is
    /// reversed, the edge's own direction otherwise.
    pub end_color_direction: Octant,
    /// The whole edge takes the start color mixed with the end color by this
    /// factor.
    pub merged_factor: Option<FloatBits>,
    /// The ends of the edge are moved by the local nudges of the symmetrical
    /// edge setting (which are zero unless arrows are spaced apart).
    pub nudged: bool,
}

/// The styling of an edge: only a symmetrical edge, drawn while the whole
/// graph is drawn, is styled by the symmetrical edge setting; a merging
/// setting makes it a double-ended arrow whose end takes the color of the edge
/// back (the color of the opposite direction `dir` for the destination
/// entity), and mixing additionally colors it all with the mix of both colors.
pub open spec fn spec_edge_style(
    is_symmetrical: bool,
    mode: AutoNavVizDrawMode,
    dir: Octant,
) -> EdgeStyle {
    match mode {
        AutoNavVizDrawMode::EnabledForAll(s) if is_symmetrical => EdgeStyle {
            double_ended: spec_is_merge(s),
            end_color_reversed: spec_is_merge(s),
            end_color_direction: if spec_is_merge(s) {
                octant_opposite(dir)
            } else {
                dir
            },
            merged_factor: match s {
                SymmetricalEdgeSettings::MergeAndMix(f) => Some(f),
                _ => None,
            },
            nudged: true,
        },
        _ => EdgeStyle {
            double_ended: false,
            end_color_reversed: false,
            end_color_direction: dir,
            merged_factor: None,
            nudged: false,
        },
    }
}

/// The color role of the lines at the source end: the merged color when the
/// edge is merged by mixing, else the start color.
pub open spec fn source_role(style: EdgeStyle) -> EdgeColorRole {
    if style.merged_factor is Some {
        EdgeColorRole::Merged
    } else {
        EdgeColorRole::Start
    }
}

/// The color role of the lines at the destination end.
pub open spec fn destination_role(style: EdgeStyle) -> EdgeColorRole {
    if style.merged_factor is Some {
        EdgeColorRole::Merged
    } else {
        EdgeColorRole::End
    }
}

/// The line between the two ends: a gradient from the start color to the end
/// color, unless the edge takes one merged color.
pub open spec fn middle_style(style: EdgeStyle) -> LineStyle {
    LineStyle {
        kind: LineKind::Line(
            if style.merged_factor is Some {
                None
            } else {
                Some(EdgeColorRole::End)
            },
        ),
        color: source_role(style),
    }
}

/// The line at the source end: an arrow back to the source for a
/// double-ended edge, else a plain line.
pub open spec fn source_line_style(style: EdgeStyle) -> LineStyle {
    LineStyle {
        kind: if style.double_ended {
            LineKind::Arrow
        } else {
            LineKind::Line(None)
        },
        color: source_role(style),
    }
}

/// The arrow at the destination end.
pub open spec fn destination_arrow_style(style: EdgeStyle) -> LineStyle {
    LineStyle { kind: LineKind::Arrow, color: destination_role(style) }
}

/// Decides how a navigation edge leaving in direction `dir` is styled, from
/// whether it is symmetrical and the draw mode.
pub fn get_edge_style(
    is_symmetrical: bool,
    draw_mode: AutoNavVizDrawMode,
    dir: Octant,
) -> (style: EdgeStyle)
    ensures
        style == spec_edge_style(is_symmetrical, draw_mode, dir),
{
    match draw_mode {
        AutoNavVizDrawMode::EnabledForAll(symm_edge_settings) if is_symmetrical => {
            let merge = symm_edge_settings.is_merge();
            let merged_factor = match symm_edge_settings {
                SymmetricalEdgeSettings::MergeAndMix(factor) => Some(factor),
                _ => None,
            };
            EdgeStyle {
                double_ended: merge,
                end_color_reversed: merge,
                end_color_direction: if merge {
                    dir.opposite()
                } else {
                    dir
                },
                merged_factor,
                nudged: true,
            }
        },
        _ => EdgeStyle {
            double_ended: false,
            end_color_reversed: false,
            end_color_direction: dir,
            merged_factor: None,
            nudged: false,
        },
    }
}

/// The three lines of a straight edge long enough to carry a gradient: the
/// line at the source end, the middle line, and the arrow at the destination
/// end.
pub fn straight_line_styles(style: &EdgeStyle) -> (lines: [LineStyle; 3])
    ensures
        lines@ == seq![
            source_line_style(*style),
            middle_style(*style),
            destination_arrow_style(*style),
        ],
{
    let merged = style.merged_factor.is_some();
    let source_color = if merged { EdgeColorRole::Merged } else { EdgeColorRole::Start };
    let destination_color = if merged { EdgeColorRole::Merged } else { EdgeColorRole::End };
    let lines = [
        LineStyle {
            kind: if style.double_ended { LineKind::Arrow } else { LineKind::Line(None) },
            color: source_color,
        },
        LineStyle {
            kind: LineKind::Line(if merged { None } else { Some(EdgeColorRole::End) }),
            color: source_color,
        },
        LineStyle { kind: LineKind::Arrow, color: destination_color },
    ];
    assert(lines@ =~= seq![
        source_line_style(*style),
        middle_style(*style),
        destination_arrow_style(*style),
    ]);
    lines
}

/// The single line of a straight edge too short for a gradient: an arrow, or
/// a double-ended arrow for a merged edge, in the source end's color.
pub fn short_straight_line_style(style: &EdgeStyle) -> (line: LineStyle)
    ensures
        line == (LineStyle {
            kind: if style.double_ended {
                LineKind::DoubleEndedArrow
            } else {
                LineKind::Arrow
            },
            color: source_role(*style),
        }),
{
    LineStyle {
        kind: if style.double_ended { LineKind::DoubleEndedArrow } else { LineKind::Arrow },
        color: if style.merged_factor.is_some() { EdgeColorRole::Merged } else { EdgeColorRole::Start },
    }
}

/// The styling of a looped edge (one that hooks around its entities).
#[derive(Clone, Copy, Debug, PartialEq, Eq, Structural)]
pub struct LoopedStyle {
    /// The line from the source entity to the start arc.
    pub start_line: LineStyle,
    /// The color of the arc near the source entity.
    pub start_arc: EdgeColorRole,
    /// The line between the two arcs.
    pub middle_line: LineStyle,
    /// The color of the arc near the destination entity.
    pub end_arc: EdgeColorRole,
    /// The arrow from the end arc to the destination entity.
    pub end_line: LineStyle,
}

/// Returns the styling of a looped edge: the start line is an arrow for a
/// double-ended edge and a plain line otherwise; the start side takes the
/// source end's color, the end side the destination end's color, and the line
/// between the arcs runs from one to the other.
pub fn looped_line_styles(style: &EdgeStyle) -> (looped: LoopedStyle)
    ensures
        looped == (LoopedStyle {
            start_line: source_line_style(*style),
            start_arc: source_role(*style),
            middle_line: middle_style(*style),
            end_arc: destination_role(*style),
            end_line: destination_arrow_style(*style),
        }),
{
    let lines = straight_line_styles(style);
    LoopedStyle {
        start_line: lines[0],
        start_arc: lines[0].color,
        middle_line: lines[1],
        end_arc: lines[2].color,
        end_line: lines[2],
    }
}

/// An edge that is not symmetrical, or drawn only for the current focus, is a
/// single-ended arrow in its start color (its end color is the start color),
/// with a gradient-free look and no nudging; a symmetrical edge under a
/// merging setting is drawn as a double-ended arrow whose two ends are arrows,
/// and whose end takes the color of the edge back, in the opposite direction.
pub proof fn lemma_edge_style_cases(is_symmetrical: bool, mode: AutoNavVizDrawMode, dir: Octant)
    ensures
        !is_symmetrical || mode is EnabledForCurrentFocus ==> {
            let style = spec_edge_style(is_symmetrical, mode, dir);
            &&& !style.double_ended && !style.end_color_reversed && !style.nudged
            &&& source_role(style) == EdgeColorRole::Start
            &&& source_line_style(style).kind == LineKind::Line(None)
        },
        is_symmetrical && merges_symmetrical(mode) ==> {
            let style = spec_edge_style(is_symmetrical, mode, dir);
            &&& style.double_ended
            &&& style.end_color_reversed
            &&& style.end_color_direction == octant_opposite(dir)
            &&& source_line_style(style).kind == LineKind::Arrow
            &&& destination_arrow_style(style).kind == LineKind::Arrow
        },
{
}

/// A drawn edge is marked symmetrical exactly when its destination has its
/// source as neighbor in the opposite direction (the slot four places round).
pub proof fn lemma_planned_symmetry_exact(
    edges: Map<u64, Seq<Option<u64>>>,
    entries: Seq<NavEntry>,
    positioned: Seq<u64>,
    mode: AutoNavVizDrawMode,
    n: nat,
)
    requires
        n <= 8 * entries.len(),
    ensures
        forall|i: int|
            0 <= i < planned_upto(edges, entries, positioned, mode, n).len() ==> {
                let p = #[trigger] planned_upto(edges, entries, positioned, mode, n)[i];
                p.is_symmetrical <==> (edges.contains_key(p.destination_entity)
                    && edges[p.destination_entity][((octant_index(p.direction) + 4) % 8) as int]
                    == Some(p.source_entity))
            },
    decreases n,
{
    if n > 0 {
        lemma_planned_symmetry_exact(edges, entries, positioned, mode, (n - 1) as nat);
        let k = (n - 1) / 8;
        let slot = (n - 1) % 8;
        if let Some(p) = slot_plan(edges, entries, positioned, mode, k, slot) {
            lemma_octant_index_from_slot(slot);
            lemma_opposite_slot(slot);
            assert(octant_index(p.direction) == slot);
        }
    }
}

/// The lines of an edge, for every style: the source line and the middle line
/// take the source end's color, which is the start color unless the edge is
/// mixed into one merged color; the middle line is a gradient to the end color
/// unless the edge is mixed; the destination arrow takes the end color unless
/// the edge is mixed; the source line is an arrow exactly for a double-ended
/// edge. A looped edge's arcs take the color of their side.
pub proof fn lemma_line_styles(style: EdgeStyle)
    ensures
        style.merged_factor is None ==> {
            &&& middle_style(style) == (LineStyle {
                kind: LineKind::Line(Some(EdgeColorRole::End)),
                color: EdgeColorRole::Start,
            })
            &&& destination_arrow_style(style) == (LineStyle {
                kind: LineKind::Arrow,
                color: EdgeColorRole::End,
            })
            &&& source_line_style(style).color == EdgeColorRole::Start
        },
        style.merged_factor is Some ==> {
            &&& middle_style(style) == (LineStyle {
                kind: LineKind::Line(None),
                color: EdgeColorRole::Merged,
            })
            &&& destination_arrow_style(style) == (LineStyle {
                kind: LineKind::Arrow,
                color: EdgeColorRole::Merged,
            })
            &&& source_line_style(style).color == EdgeColorRole::Merged
        },
        middle_style(style).color == source_line_style(style).color,
        source_line_style(style).kind == (if style.double_ended {
            LineKind::Arrow
        } else {
            LineKind::Line(None)
        }),
        source_role(style) == source_line_style(style).color,
        destination_role(style) == destination_arrow_style(style).color,
{
}

/// The style of an edge leaving in direction `dir`, for every draw mode and
/// setting: only a symmetrical edge drawn with the whole graph is nudged; it
/// is double-ended, with its end color reversed to the opposite direction,
/// exactly when the setting merges (gradient or mixing), and it takes a mixing
/// factor exactly under mixing. Under the spacing and overlapping settings it
/// stays a single-ended arrow with its end colored by its own direction.
pub proof fn lemma_edge_style_by_setting(
    is_symmetrical: bool,
    mode: AutoNavVizDrawMode,
    dir: Octant,
)
    ensures
        ({
            let style = spec_edge_style(is_symmetrical, mode, dir);
            let merging = is_symmetrical && (mode == AutoNavVizDrawMode::EnabledForAll(
                SymmetricalEdgeSettings::MergeAndGradient,
            ) || exists|f: FloatBits|
                mode == AutoNavVizDrawMode::EnabledForAll(SymmetricalEdgeSettings::MergeAndMix(f)));
            &&& style.nudged <==> (is_symmetrical && mode is EnabledForAll)
            &&& style.double_ended <==> merging
            &&& style.end_color_reversed <==> merging
            &&& style.end_color_direction == (if merging {
                octant_opposite(dir)
            } else {
                dir
            })
            &&& (style.merged_factor matches Some(f) ==> is_symmetrical && mode
                == AutoNavVizDrawMode::EnabledForAll(SymmetricalEdgeSettings::MergeAndMix(f)))
            &&& (is_symmetrical && mode is EnabledForAll && (mode->0 is MergeAndMix)
                ==> style.merged_factor is Some)
        }),
        is_symmetrical && (mode == AutoNavVizDrawMode::EnabledForAll(
            SymmetricalEdgeSettings::SpacingBetweenSingleArrows,
        ) || mode == AutoNavVizDrawMode::EnabledForAll(
            SymmetricalEdgeSettings::OverlappingSingleArrows,
        )) ==> spec_edge_style(is_symmetrical, mode, dir) == (EdgeStyle {
            double_ended: false,
            end_color_reversed: false,
            end_color_direction: dir,
            merged_factor: None,
            nudged: true,
        }),
{
    if let AutoNavVizDrawMode::EnabledForAll(s) = mode {
        if let SymmetricalEdgeSettings::MergeAndMix(f) = s {
            assert(mode == AutoNavVizDrawMode::EnabledForAll(SymmetricalEdgeSettings::MergeAndMix(f)));
        }
    }
}

} // verus!
