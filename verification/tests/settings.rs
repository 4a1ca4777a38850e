use bevy::color::{Color, Srgba};
use bevy_auto_nav_viz::{
    AutoNavVizColorMode, AutoNavVizDrawMode, AutoNavVizGizmoConfigGroup, FloatBits, Octant,
    SymmetricalEdgeSettings,
};

fn config() -> AutoNavVizGizmoConfigGroup {
    AutoNavVizGizmoConfigGroup {
        draw_mode: AutoNavVizDrawMode::default(),
        color_mode: AutoNavVizColorMode::default(),
        arrow_tip_length: FloatBits { bits: 10.0f32.to_bits() },
        north_color: Some(Color::Srgba(Srgba::RED)),
        north_east_color: None,
        east_color: Some(Color::Srgba(Srgba::GREEN)),
        south_east_color: None,
        south_color: Some(Color::Srgba(Srgba::BLUE)),
        south_west_color: None,
        west_color: None,
        north_west_color: None,
        default_color: Color::Srgba(Srgba::WHITE),
    }
}

#[test]
fn symmetrical_edge_settings_kinds() {
    assert!(SymmetricalEdgeSettings::MergeAndGradient.is_merge());
    assert!(SymmetricalEdgeSettings::merge_and_mix_evenly().is_merge());
    assert!(!SymmetricalEdgeSettings::SpacingBetweenSingleArrows.is_merge());
    assert!(!SymmetricalEdgeSettings::OverlappingSingleArrows.is_merge());
    assert!(SymmetricalEdgeSettings::OverlappingSingleArrows.is_overlap());
    assert!(!SymmetricalEdgeSettings::MergeAndGradient.is_overlap());
    assert_eq!(
        SymmetricalEdgeSettings::default(),
        SymmetricalEdgeSettings::MergeAndGradient
    );
    assert_eq!(
        SymmetricalEdgeSettings::merge_and_mix_evenly(),
        SymmetricalEdgeSettings::MergeAndMix(FloatBits { bits: 0.5f32.to_bits() })
    );
}

#[test]
fn color_mode_constructors() {
    assert_eq!(
        AutoNavVizColorMode::mix_with_source_entity_evenly(),
        AutoNavVizColorMode::MixedWithSourceEntity(FloatBits { bits: 0.5f32.to_bits() })
    );
    assert_eq!(
        AutoNavVizColorMode::source_entity_color_only(),
        AutoNavVizColorMode::MixedWithSourceEntity(FloatBits { bits: 1.0f32.to_bits() })
    );
    assert_eq!(
        AutoNavVizColorMode::mix_with_destination_entity_evenly(),
        AutoNavVizColorMode::MixedWithDestinationEntity(FloatBits { bits: 0.5f32.to_bits() })
    );
    assert_eq!(
        AutoNavVizColorMode::destination_entity_color_only(),
        AutoNavVizColorMode::MixedWithDestinationEntity(FloatBits { bits: 1.0f32.to_bits() })
    );
    assert_eq!(AutoNavVizColorMode::default(), AutoNavVizColorMode::DirectionalOnly);
    assert_eq!(
        AutoNavVizDrawMode::default(),
        AutoNavVizDrawMode::EnabledForCurrentFocus
    );
}

#[test]
fn toggle_draw_mode_switches() {
    let mut c = config();
    c.toggle_draw_mode();
    assert_eq!(
        c.draw_mode,
        AutoNavVizDrawMode::EnabledForAll(SymmetricalEdgeSettings::MergeAndGradient)
    );
    c.toggle_draw_mode();
    assert_eq!(c.draw_mode, AutoNavVizDrawMode::EnabledForCurrentFocus);
    c.draw_mode =
        AutoNavVizDrawMode::EnabledForAll(SymmetricalEdgeSettings::SpacingBetweenSingleArrows);
    c.toggle_draw_mode();
    assert_eq!(c.draw_mode, AutoNavVizDrawMode::EnabledForCurrentFocus);
    c.toggle_draw_mode();
    assert_eq!(
        c.draw_mode,
        AutoNavVizDrawMode::EnabledForAll(SymmetricalEdgeSettings::MergeAndGradient)
    );
    assert_eq!(c.north_color, Some(Color::Srgba(Srgba::RED)));
}

#[test]
fn setting_colors_by_direction() {
    let c = config();
    assert_eq!(
        c.get_setting_color_for_direction(Octant::North),
        Some(Color::Srgba(Srgba::RED))
    );
    assert_eq!(
        c.get_setting_color_for_direction(Octant::East),
        Some(Color::Srgba(Srgba::GREEN))
    );
    assert_eq!(
        c.get_setting_color_for_direction(Octant::South),
        Some(Color::Srgba(Srgba::BLUE))
    );
    assert_eq!(c.get_setting_color_for_direction(Octant::West), None);
}

#[test]
fn directional_colors_none_and_defaults() {
    let mut c = config();
    c.set_directional_colors_to_none();
    for i in 0..8 {
        let dir = Octant::from_index(i).unwrap();
        assert_eq!(c.get_setting_color_for_direction(dir), None);
    }
    assert_eq!(c.default_color, Color::Srgba(Srgba::WHITE));
    let defaults = config();
    c.set_directional_colors_to_defaults(&defaults);
    for i in 0..8 {
        let dir = Octant::from_index(i).unwrap();
        assert_eq!(
            c.get_setting_color_for_direction(dir),
            defaults.get_setting_color_for_direction(dir)
        );
    }
}

#[test]
fn color_mix_follows_color_mode() {
    let mut c = config();
    let source = Color::Srgba(Srgba::BLACK);
    let destination = Color::Srgba(Srgba::NONE);
    let m = c.get_color_mix_for_direction(source, destination, Octant::North);
    assert_eq!(m.color, Color::Srgba(Srgba::RED));
    assert!(m.mix.is_none());
    let m = c.get_color_mix_for_direction(source, destination, Octant::West);
    assert_eq!(m.color, Color::Srgba(Srgba::WHITE));

    c.color_mode = AutoNavVizColorMode::mix_with_source_entity_evenly();
    let m = c.get_color_mix_for_direction(source, destination, Octant::East);
    assert_eq!(m.color, Color::Srgba(Srgba::GREEN));
    assert_eq!(m.mix, Some((source, FloatBits { bits: 0.5f32.to_bits() })));

    c.color_mode = AutoNavVizColorMode::destination_entity_color_only();
    let m = c.get_color_mix_for_direction(source, destination, Octant::South);
    assert_eq!(m.color, Color::Srgba(Srgba::BLUE));
    assert_eq!(m.mix, Some((destination, FloatBits { bits: 1.0f32.to_bits() })));
}

