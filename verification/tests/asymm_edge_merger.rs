use bevy::color::{Color, Mix, Srgba};
use bevy::ecs::entity::Entity;
use bevy::math::Vec2;
use bevy_auto_nav_viz::{
    AsymmetricalStraightEdgeMerger, AutoNavVizDrawMode, DrawLineData, DrawLineType, MergeFinish,
    MergedEdge, NavVizDrawMetaData, Octant, SymmetricalEdgeSettings,
};

fn bits(e: Entity) -> u64 {
    e.to_bits()
}

/// The lines of a handed-out edge once its colors are mixed where asked.
fn finished_lines(edge: &MergedEdge) -> Vec<DrawLineData> {
    match edge.finish {
        MergeFinish::MixColors { other_color, factor } => {
            let mixed = edge.lines[0]
                .color
                .mix(&other_color, f32::from_bits(factor.bits));
            edge.lines
                .iter()
                .map(|l| DrawLineData { color: mixed, ..*l })
                .collect()
        }
        _ => edge.lines.to_vec(),
    }
}

fn all_lines(merger: &AsymmetricalStraightEdgeMerger) -> Vec<DrawLineData> {
    merger.get_line_data().iter().flat_map(finished_lines).collect()
}

fn e1_to_e2() -> [DrawLineData; 3] {
    [
        DrawLineData {
            start: Vec2::new(2., 0.),
            end: Vec2::new(1., 0.),
            line_type: DrawLineType::Line(None),
            color: Color::Srgba(Srgba::RED),
        },
        DrawLineData {
            start: Vec2::new(2., 0.),
            end: Vec2::new(3., 0.),
            line_type: DrawLineType::Line(Some(Color::Srgba(Srgba::GREEN))),
            color: Color::Srgba(Srgba::RED),
        },
        DrawLineData {
            start: Vec2::new(3., 0.),
            end: Vec2::new(4., 0.),
            line_type: DrawLineType::Arrow,
            color: Color::Srgba(Srgba::GREEN),
        },
    ]
}

fn e2_to_e1() -> [DrawLineData; 3] {
    [
        DrawLineData {
            start: Vec2::new(3., 0.),
            end: Vec2::new(4., 0.),
            line_type: DrawLineType::Line(None),
            color: Color::Srgba(Srgba::GREEN),
        },
        DrawLineData {
            start: Vec2::new(2., 0.),
            end: Vec2::new(3., 0.),
            line_type: DrawLineType::Line(Some(Color::Srgba(Srgba::GREEN))),
            color: Color::Srgba(Srgba::RED),
        },
        DrawLineData {
            start: Vec2::new(2., 0.),
            end: Vec2::new(1., 0.),
            line_type: DrawLineType::Arrow,
            color: Color::Srgba(Srgba::RED),
        },
    ]
}

fn sort_by_end_x(lines: &mut [DrawLineData]) {
    lines.sort_by(|d1, d2| d1.end.x.partial_cmp(&d2.end.x).expect("Not using NaN"));
}

#[test]
fn test_merger_one_edge() {
    let mut merger = AsymmetricalStraightEdgeMerger::new();
    let draw_mode = AutoNavVizDrawMode::EnabledForAll(SymmetricalEdgeSettings::MergeAndGradient);
    let e1 = Entity::from_raw_u32(1).unwrap();
    let e2 = Entity::from_raw_u32(2).unwrap();
    let e1_to_e2_meta = NavVizDrawMetaData::new(bits(e1), Octant::East, bits(e2), Octant::West);
    let e1_to_e2 = e1_to_e2();

    merger.clear();
    merger.add_straight_edge(e1_to_e2_meta, e1_to_e2);
    merger.do_merge(draw_mode);
    let lines = all_lines(&merger);
    assert_eq!(lines.len(), 3);
    for (index, line_data) in lines.iter().enumerate() {
        assert_eq!(e1_to_e2[index].start, line_data.start);
        assert_eq!(e1_to_e2[index].end, line_data.end);
        assert_eq!(e1_to_e2[index].line_type, line_data.line_type);
        assert_eq!(e1_to_e2[index].color, line_data.color);
    }
}

#[test]
fn test_merger_merge_gradient() {
    let mut merger = AsymmetricalStraightEdgeMerger::new();
    let draw_mode = AutoNavVizDrawMode::EnabledForAll(SymmetricalEdgeSettings::MergeAndGradient);
    let e1 = Entity::from_raw_u32(1).unwrap();
    let e2 = Entity::from_raw_u32(2).unwrap();
    let e1_to_e2_meta =
        NavVizDrawMetaData::new(bits(e1), Octant::NorthEast, bits(e2), Octant::NorthWest);
    let e2_to_e1_meta =
        NavVizDrawMetaData::new(bits(e2), Octant::NorthWest, bits(e1), Octant::NorthEast);

    merger.clear();
    merger.add_straight_edge(e1_to_e2_meta, e1_to_e2());
    merger.add_straight_edge(e2_to_e1_meta, e2_to_e1());
    merger.do_merge(draw_mode);
    let expected = [
        DrawLineData {
            start: Vec2::new(2., 0.),
            end: Vec2::new(1., 0.),
            line_type: DrawLineType::Arrow,
            color: Color::Srgba(Srgba::RED),
        },
        DrawLineData {
            start: Vec2::new(2., 0.),
            end: Vec2::new(3., 0.),
            line_type: DrawLineType::Line(Some(Color::Srgba(Srgba::RED))),
            color: Color::Srgba(Srgba::GREEN),
        },
        DrawLineData {
            start: Vec2::new(3., 0.),
            end: Vec2::new(4., 0.),
            line_type: DrawLineType::Arrow,
            color: Color::Srgba(Srgba::GREEN),
        },
    ];
    let mut lines = all_lines(&merger);
    assert_eq!(lines.len(), 3);
    sort_by_end_x(&mut lines);
    for (index, line_data) in lines.iter().enumerate() {
        assert_eq!(expected[index].start, line_data.start);
        assert_eq!(expected[index].end, line_data.end);
        if index == 1 {
            // either ordering is ok
            let field_is_red = expected[index].color == Color::Srgba(Srgba::RED);
            assert!(expected[index].color == Color::Srgba(Srgba::GREEN) || field_is_red);
            assert!(
                expected[index].line_type == DrawLineType::Line(Some(Color::Srgba(Srgba::RED)))
                    || (field_is_red
                        && expected[index].line_type
                            == DrawLineType::Line(Some(Color::Srgba(Srgba::GREEN))))
            )
        }
    }
}

#[test]
fn test_merger_merge_mix() {
    let mut merger = AsymmetricalStraightEdgeMerger::new();
    let draw_mode = AutoNavVizDrawMode::EnabledForAll(SymmetricalEdgeSettings::MergeAndMix(
        bevy_auto_nav_viz::FloatBits { bits: 0.5f32.to_bits() },
    ));
    let e1 = Entity::from_raw_u32(1).unwrap();
    let e2 = Entity::from_raw_u32(2).unwrap();
    let e1_to_e2_meta =
        NavVizDrawMetaData::new(bits(e1), Octant::NorthEast, bits(e2), Octant::NorthWest);
    let e2_to_e1_meta =
        NavVizDrawMetaData::new(bits(e2), Octant::NorthWest, bits(e1), Octant::NorthEast);

    merger.clear();
    merger.add_straight_edge(e1_to_e2_meta, e1_to_e2());
    merger.add_straight_edge(e2_to_e1_meta, e2_to_e1());
    merger.do_merge(draw_mode);
    let mixed = Color::Srgba(Srgba::new(0.5, 0.5, 0., 1.0));
    let expected = [
        DrawLineData {
            start: Vec2::new(2., 0.),
            end: Vec2::new(1., 0.),
            line_type: DrawLineType::Arrow,
            color: mixed,
        },
        DrawLineData {
            start: Vec2::new(2., 0.),
            end: Vec2::new(3., 0.),
            line_type: DrawLineType::Line(None),
            color: mixed,
        },
        DrawLineData {
            start: Vec2::new(3., 0.),
            end: Vec2::new(4., 0.),
            line_type: DrawLineType::Arrow,
            color: mixed,
        },
    ];
    let mut lines = all_lines(&merger);
    assert_eq!(lines.len(), 3);
    sort_by_end_x(&mut lines);
    for (index, line_data) in lines.iter().enumerate() {
        assert_eq!(expected[index].start, line_data.start);
        assert_eq!(expected[index].end, line_data.end);
        assert_eq!(expected[index].line_type, line_data.line_type);
        assert_eq!(expected[index].color, line_data.color);
    }
}

#[test]
fn merger_leaves_edges_when_not_merging() {
    let e1 = Entity::from_raw_u32(1).unwrap();
    let e2 = Entity::from_raw_u32(2).unwrap();
    let a = NavVizDrawMetaData::new(bits(e1), Octant::NorthEast, bits(e2), Octant::NorthWest);
    let b = a.opposite();
    for mode in [
        AutoNavVizDrawMode::EnabledForCurrentFocus,
        AutoNavVizDrawMode::EnabledForAll(SymmetricalEdgeSettings::OverlappingSingleArrows),
    ] {
        let mut merger = AsymmetricalStraightEdgeMerger::new();
        merger.add_straight_edge(a, e1_to_e2());
        merger.add_straight_edge(b, e2_to_e1());
        merger.do_merge(mode);
        let out = merger.get_line_data();
        assert_eq!(out.len(), 2);
        assert_eq!(out[0].lines, e1_to_e2());
        assert_eq!(out[1].lines, e2_to_e1());
        assert!(matches!(out[0].finish, MergeFinish::AsIs));
        assert!(matches!(out[1].finish, MergeFinish::AsIs));
    }
}

#[test]
fn merger_spacing_nudges_both_edges() {
    let e1 = Entity::from_raw_u32(1).unwrap();
    let e2 = Entity::from_raw_u32(2).unwrap();
    let e3 = Entity::from_raw_u32(3).unwrap();
    let a = NavVizDrawMetaData::new(bits(e1), Octant::NorthEast, bits(e2), Octant::NorthWest);
    let b = a.opposite();
    let lone = NavVizDrawMetaData::new(bits(e1), Octant::North, bits(e3), Octant::South);
    let mut merger = AsymmetricalStraightEdgeMerger::new();
    merger.add_straight_edge(a, e1_to_e2());
    merger.add_straight_edge(lone, e1_to_e2());
    merger.add_straight_edge(b, e2_to_e1());
    merger.do_merge(AutoNavVizDrawMode::EnabledForAll(
        SymmetricalEdgeSettings::SpacingBetweenSingleArrows,
    ));
    let out = merger.get_line_data();
    assert_eq!(out.len(), 3);
    assert!(matches!(out[0].finish, MergeFinish::Nudge(m) if m == a));
    assert!(matches!(out[1].finish, MergeFinish::AsIs));
    assert!(matches!(out[2].finish, MergeFinish::Nudge(m) if m == b));
    assert_eq!(out[2].lines, e2_to_e1());
}

#[test]
fn merger_replaces_edge_with_same_metadata() {
    let e1 = Entity::from_raw_u32(1).unwrap();
    let e2 = Entity::from_raw_u32(2).unwrap();
    let a = NavVizDrawMetaData::new(bits(e1), Octant::East, bits(e2), Octant::West);
    let mut merger = AsymmetricalStraightEdgeMerger::new();
    merger.add_straight_edge(a, e1_to_e2());
    merger.add_straight_edge(a, e2_to_e1());
    merger.do_merge(AutoNavVizDrawMode::EnabledForAll(
        SymmetricalEdgeSettings::MergeAndGradient,
    ));
    let out = merger.get_line_data();
    assert_eq!(out.len(), 1);
    assert_eq!(out[0].lines, e2_to_e1());
    merger.clear();
    assert!(merger.get_line_data().is_empty());
}

#[test]
fn opposite_metadata_swaps_ends() {
    let a = NavVizDrawMetaData::new(5, Octant::NorthEast, 7, Octant::South);
    let b = a.opposite();
    assert_eq!(b, NavVizDrawMetaData::new(7, Octant::South, 5, Octant::NorthEast));
    assert_eq!(b.opposite(), a);
}
