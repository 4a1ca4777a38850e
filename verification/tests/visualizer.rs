use bevy::ecs::entity::Entity;
use bevy::input_focus::directional_navigation::DirectionalNavigationMap;
use bevy::math::CompassOctant;
use bevy_auto_nav_viz::{
    get_local_nudge_directions, nav_viz_entries, plan_nav_viz_edges, AutoNavVizDrawMode, Octant,
    PlannedEdge, SymmetricalEdgeSettings,
};

fn entity(i: u32) -> Entity {
    Entity::from_raw_u32(i).unwrap()
}

#[test]
fn octants_agree_with_engine_numbering() {
    for i in 0..9usize {
        let ours = Octant::from_index(i);
        let engine = CompassOctant::from_index(i);
        assert_eq!(ours.is_some(), engine.is_some());
        if let (Some(o), Some(e)) = (ours, engine) {
            assert_eq!(o.index(), e.to_index());
            assert_eq!(o.opposite().index(), e.opposite().to_index());
            assert_eq!(o.opposite().opposite(), o);
        }
    }
    assert_eq!(Octant::NorthEast.opposite(), Octant::SouthWest);
    assert_eq!(Octant::West.index(), 6);
}

fn grid_map() -> DirectionalNavigationMap {
    // e1 <-> e2 east/west, e2 -> e3 south (no edge back), e3 -> e1 north-west.
    let mut map = DirectionalNavigationMap::default();
    map.add_symmetrical_edge(entity(1), entity(2), CompassOctant::East);
    map.add_edge(entity(2), entity(3), CompassOctant::South);
    map.add_edge(entity(3), entity(1), CompassOctant::NorthWest);
    map
}

#[test]
fn entries_for_focus_or_all() {
    let map = grid_map();
    let focus = Some(entity(2).to_bits());
    let entries =
        nav_viz_entries(&map, focus, AutoNavVizDrawMode::EnabledForCurrentFocus).unwrap();
    assert_eq!(entries.len(), 1);
    assert_eq!(entries[0].0, entity(2).to_bits());
    assert_eq!(entries[0].1[6], Some(entity(1).to_bits()));
    assert_eq!(entries[0].1[4], Some(entity(3).to_bits()));

    assert!(nav_viz_entries(&map, None, AutoNavVizDrawMode::EnabledForCurrentFocus).is_none());
    assert!(nav_viz_entries(
        &map,
        Some(entity(9).to_bits()),
        AutoNavVizDrawMode::EnabledForCurrentFocus
    )
    .is_none());

    let all = nav_viz_entries(
        &map,
        None,
        AutoNavVizDrawMode::EnabledForAll(SymmetricalEdgeSettings::MergeAndGradient),
    )
    .unwrap();
    let keys: Vec<u64> = all.iter().map(|e| e.0).collect();
    let mut sorted = keys.clone();
    sorted.sort();
    assert_eq!(keys, sorted);
    assert_eq!(keys.len(), 3);
}

fn planned(map: &DirectionalNavigationMap, mode: AutoNavVizDrawMode) -> Vec<PlannedEdge> {
    let entries = nav_viz_entries(map, Some(entity(1).to_bits()), mode).unwrap();
    let positioned = vec![entity(1).to_bits(), entity(2).to_bits(), entity(3).to_bits()];
    plan_nav_viz_edges(map, &entries, &positioned, mode)
}

#[test]
fn merged_symmetrical_edge_planned_once() {
    let map = grid_map();
    let plan = planned(
        &map,
        AutoNavVizDrawMode::EnabledForAll(SymmetricalEdgeSettings::MergeAndGradient),
    );
    // e1 <-> e2 is drawn once, from the entity that comes first in entity
    // order; e2 -> e3 and e3 -> e1 are drawn as they are.
    assert_eq!(plan.len(), 3);
    let (first, second, dir) = if entity(1).to_bits() < entity(2).to_bits() {
        (entity(1), entity(2), Octant::East)
    } else {
        (entity(2), entity(1), Octant::West)
    };
    let symmetrical: Vec<&PlannedEdge> = plan.iter().filter(|p| p.is_symmetrical).collect();
    assert_eq!(symmetrical.len(), 1);
    assert_eq!(
        *symmetrical[0],
        PlannedEdge {
            source_entity: first.to_bits(),
            direction: dir,
            destination_entity: second.to_bits(),
            is_symmetrical: true,
        }
    );
    assert!(plan.contains(&PlannedEdge {
        source_entity: entity(2).to_bits(),
        direction: Octant::South,
        destination_entity: entity(3).to_bits(),
        is_symmetrical: false,
    }));
    assert!(plan.contains(&PlannedEdge {
        source_entity: entity(3).to_bits(),
        direction: Octant::NorthWest,
        destination_entity: entity(1).to_bits(),
        is_symmetrical: false,
    }));
    // Edges come in entity order.
    let sources: Vec<u64> = plan.iter().map(|p| p.source_entity).collect();
    let mut sorted = sources.clone();
    sorted.sort();
    assert_eq!(sources, sorted);
}

#[test]
fn unmerged_symmetrical_edges_planned_twice() {
    let map = grid_map();
    let plan = planned(
        &map,
        AutoNavVizDrawMode::EnabledForAll(SymmetricalEdgeSettings::SpacingBetweenSingleArrows),
    );
    assert_eq!(plan.len(), 4);
    assert_eq!(plan.iter().filter(|p| p.is_symmetrical).count(), 2);
}

#[test]
fn focus_plan_and_missing_positions() {
    let map = grid_map();
    let mode = AutoNavVizDrawMode::EnabledForCurrentFocus;
    let plan = planned(&map, mode);
    assert_eq!(plan.len(), 1);
    assert!(plan[0].is_symmetrical);
    assert_eq!(plan[0].destination_entity, entity(2).to_bits());

    // Without a position for e2, no edge to or from it is drawn.
    let entries = nav_viz_entries(
        &map,
        None,
        AutoNavVizDrawMode::EnabledForAll(SymmetricalEdgeSettings::MergeAndGradient),
    )
    .unwrap();
    let positioned = vec![entity(1).to_bits(), entity(3).to_bits()];
    let plan = plan_nav_viz_edges(
        &map,
        &entries,
        &positioned,
        AutoNavVizDrawMode::EnabledForAll(SymmetricalEdgeSettings::MergeAndGradient),
    );
    assert_eq!(plan.len(), 1);
    assert_eq!(plan[0].source_entity, entity(3).to_bits());
}

#[test]
fn local_nudge_directions() {
    let spacing = SymmetricalEdgeSettings::SpacingBetweenSingleArrows;
    // Not `SpacingBetweenSingleArrows`, so no nudge applied
    assert_eq!(
        get_local_nudge_directions(
            Octant::North,
            Octant::South,
            SymmetricalEdgeSettings::OverlappingSingleArrows
        ),
        None
    );
    // moves west for both
    assert_eq!(
        get_local_nudge_directions(Octant::North, Octant::South, spacing),
        Some((Octant::West, Octant::West))
    );
    // moves east for both
    assert_eq!(
        get_local_nudge_directions(Octant::South, Octant::North, spacing),
        Some((Octant::East, Octant::East))
    );
    // moves north for both
    assert_eq!(
        get_local_nudge_directions(Octant::East, Octant::West, spacing),
        Some((Octant::North, Octant::North))
    );
    // moves south for both
    assert_eq!(
        get_local_nudge_directions(Octant::West, Octant::East, spacing),
        Some((Octant::South, Octant::South))
    );
    // moves west, then north
    assert_eq!(
        get_local_nudge_directions(Octant::NorthEast, Octant::SouthWest, spacing),
        Some((Octant::West, Octant::North))
    );
    // moves east, then south
    assert_eq!(
        get_local_nudge_directions(Octant::SouthWest, Octant::NorthEast, spacing),
        Some((Octant::East, Octant::South))
    );
    // moves south, then west
    assert_eq!(
        get_local_nudge_directions(Octant::NorthWest, Octant::SouthEast, spacing),
        Some((Octant::South, Octant::West))
    );
    // moves north, then east
    assert_eq!(
        get_local_nudge_directions(Octant::SouthEast, Octant::NorthWest, spacing),
        Some((Octant::North, Octant::East))
    );
}



use bevy_auto_nav_viz::{
    get_edge_style, looped_line_styles, short_straight_line_style, straight_line_styles,
    EdgeColorRole, EdgeStyle, FloatBits, LineKind, LineStyle,
};

#[test]
fn plain_edge_style() {
    let merge_all = AutoNavVizDrawMode::EnabledForAll(SymmetricalEdgeSettings::MergeAndGradient);
    let plain = EdgeStyle {
        double_ended: false,
        end_color_reversed: false,
        end_color_direction: Octant::NorthEast,
        merged_factor: None,
        nudged: false,
    };
    assert_eq!(get_edge_style(false, merge_all, Octant::NorthEast), plain);
    assert_eq!(
        get_edge_style(true, AutoNavVizDrawMode::EnabledForCurrentFocus, Octant::NorthEast),
        plain
    );
    assert_eq!(
        straight_line_styles(&plain),
        [
            LineStyle { kind: LineKind::Line(None), color: EdgeColorRole::Start },
            LineStyle {
                kind: LineKind::Line(Some(EdgeColorRole::End)),
                color: EdgeColorRole::Start
            },
            LineStyle { kind: LineKind::Arrow, color: EdgeColorRole::End },
        ]
    );
    assert_eq!(
        short_straight_line_style(&plain),
        LineStyle { kind: LineKind::Arrow, color: EdgeColorRole::Start }
    );
}

#[test]
fn merged_edge_styles() {
    let gradient = get_edge_style(
        true,
        AutoNavVizDrawMode::EnabledForAll(SymmetricalEdgeSettings::MergeAndGradient),
        Octant::East,
    );
    assert!(gradient.double_ended && gradient.end_color_reversed && gradient.nudged);
    // The end takes the color of the edge back, which goes west.
    assert_eq!(gradient.end_color_direction, Octant::West);
    assert_eq!(gradient.merged_factor, None);
    let lines = straight_line_styles(&gradient);
    assert_eq!(lines[0].kind, LineKind::Arrow);
    assert_eq!(lines[1].kind, LineKind::Line(Some(EdgeColorRole::End)));
    assert_eq!(lines[2], LineStyle { kind: LineKind::Arrow, color: EdgeColorRole::End });

    let half = FloatBits { bits: 0.5f32.to_bits() };
    let mix = get_edge_style(
        true,
        AutoNavVizDrawMode::EnabledForAll(SymmetricalEdgeSettings::MergeAndMix(half)),
        Octant::SouthEast,
    );
    assert_eq!(mix.merged_factor, Some(half));
    assert_eq!(mix.end_color_direction, Octant::NorthWest);
    let looped = looped_line_styles(&mix);
    assert_eq!(looped.start_line, LineStyle { kind: LineKind::Arrow, color: EdgeColorRole::Merged });
    assert_eq!(looped.start_arc, EdgeColorRole::Merged);
    assert_eq!(looped.middle_line, LineStyle { kind: LineKind::Line(None), color: EdgeColorRole::Merged });
    assert_eq!(looped.end_arc, EdgeColorRole::Merged);
    assert_eq!(
        short_straight_line_style(&mix),
        LineStyle { kind: LineKind::DoubleEndedArrow, color: EdgeColorRole::Merged }
    );

    let spacing = get_edge_style(
        true,
        AutoNavVizDrawMode::EnabledForAll(SymmetricalEdgeSettings::SpacingBetweenSingleArrows),
        Octant::South,
    );
    assert!(!spacing.double_ended && spacing.nudged && !spacing.end_color_reversed);
    assert_eq!(spacing.end_color_direction, Octant::South);
}
