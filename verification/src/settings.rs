//! The settings of the visualization: what is drawn, how symmetrical edges are
//! shown, and how arrows are colored.

use bevy::color::Color;
use vstd::prelude::*;

use crate::octant::Octant;

verus! {

/// The bit pattern of a single-precision floating-point number, as the
/// engine's `to_bits` gives it. The library carries such numbers (mixing
/// factors, lengths) unchanged; the arithmetic on them happens where they are
/// rendered.
#[derive(Clone, Copy, Debug, PartialEq, Eq, Hash, Structural)]
pub struct FloatBits {
    pub bits: u32,
}

/// The bits of the number one half.
pub const ONE_HALF_BITS: u32 = 0x3f00_0000;

/// The bits of the number one.
pub const ONE_BITS: u32 = 0x3f80_0000;

/// The bits of the number ten, the default arrow tip length.
pub const TEN_BITS: u32 = 0x4120_0000;

/// Setting for how to render symmetrical navigation edges when the whole
/// navigation graph is drawn. This includes edges that the navigation system
/// does not call symmetrical but that would overlap when drawn (such as an
/// edge between the north-east corner of one node and the north-west corner of
/// another, and its reverse).
#[derive(Clone, Copy, Debug, PartialEq, Eq, Structural)]
pub enum SymmetricalEdgeSettings {
    /// Merge the two single-ended arrows into one double-ended arrow whose color
    /// is a gradient between the colors the two arrows would have had, each
    /// more prominent near its own source entity.
    MergeAndGradient,
    /// Merge the two single-ended arrows into one double-ended arrow colored by
    /// mixing the two arrows' colors with the given factor (0 to 1, where 0 is
    /// the color of the arrow from the source entity to the destination entity).
    MergeAndMix(FloatBits),
    /// Draw two single-ended arrows with space between them.
    SpacingBetweenSingleArrows,
    /// Draw two single-ended arrows over each other, without merging.
    OverlappingSingleArrows,
}

impl Default for SymmetricalEdgeSettings {
    /// The default is [`SymmetricalEdgeSettings::MergeAndGradient`].
    fn default() -> (s: Self)
        ensures
            s == SymmetricalEdgeSettings::MergeAndGradient,
    {
        SymmetricalEdgeSettings::MergeAndGradient
    }
}

/// Whether a symmetrical edge setting merges the two arrows into one.
pub open spec fn spec_is_merge(s: SymmetricalEdgeSettings) -> bool {
    s is MergeAndGradient || s is MergeAndMix
}

impl SymmetricalEdgeSettings {
    /// Returns [`SymmetricalEdgeSettings::MergeAndMix`] with a mixing factor of
    /// one half (equal mixing of the two arrows' colors).
    pub fn merge_and_mix_evenly() -> (s: Self)
        ensures
            s == SymmetricalEdgeSettings::MergeAndMix(FloatBits { bits: ONE_HALF_BITS }),
    {
        SymmetricalEdgeSettings::MergeAndMix(FloatBits { bits: ONE_HALF_BITS })
    }

    /// Returns whether this setting is one of the merging variants.
    pub fn is_merge(&self) -> (b: bool)
        ensures
            b == spec_is_merge(*self),
    {
        match self {
            SymmetricalEdgeSettings::MergeAndGradient => true,
            SymmetricalEdgeSettings::MergeAndMix(_) => true,
            _ => false,
        }
    }

    /// Returns whether this setting is
    /// [`SymmetricalEdgeSettings::OverlappingSingleArrows`].
    pub fn is_overlap(&self) -> (b: bool)
        ensures
            b == (*self is OverlappingSingleArrows),
    {
        *self == SymmetricalEdgeSettings::OverlappingSingleArrows
    }
}

/// Setting for whether the visualization is drawn for the current focus only,
/// or for every navigable entity rendered to the same target as the current
/// focus. The default is the current focus only.
#[derive(Clone, Copy, Debug, PartialEq, Eq, Structural)]
pub enum AutoNavVizDrawMode {
    EnabledForCurrentFocus,
    EnabledForAll(SymmetricalEdgeSettings),
}

impl Default for AutoNavVizDrawMode {
    /// The default is [`AutoNavVizDrawMode::EnabledForCurrentFocus`].
    fn default() -> (m: Self)
        ensures
            m == AutoNavVizDrawMode::EnabledForCurrentFocus,
    {
        AutoNavVizDrawMode::EnabledForCurrentFocus
    }
}

/// Setting for whether the directional colors are mixed with a color unique to
/// the source entity, with one unique to the destination entity, or not at all.
/// The factor is between 0 and 1; a higher factor uses more of the entity's
/// color. The default is not to mix.
#[derive(Clone, Copy, Debug, PartialEq, Eq, Structural)]
pub enum AutoNavVizColorMode {
    MixedWithSourceEntity(FloatBits),
    MixedWithDestinationEntity(FloatBits),
    DirectionalOnly,
}

impl Default for AutoNavVizColorMode {
    /// The default is [`AutoNavVizColorMode::DirectionalOnly`].
    fn default() -> (m: Self)
        ensures
            m == AutoNavVizColorMode::DirectionalOnly,
    {
        AutoNavVizColorMode::DirectionalOnly
    }
}

impl AutoNavVizColorMode {
    /// Mixing with the source entity's color by one half.
    pub fn mix_with_source_entity_evenly() -> (m: Self)
        ensures
            m == AutoNavVizColorMode::MixedWithSourceEntity(FloatBits { bits: ONE_HALF_BITS }),
    {
        AutoNavVizColorMode::MixedWithSourceEntity(FloatBits { bits: ONE_HALF_BITS })
    }

    /// Only the source entity's color (mixing factor one).
    pub fn source_entity_color_only() -> (m: Self)
        ensures
            m == AutoNavVizColorMode::MixedWithSourceEntity(FloatBits { bits: ONE_BITS }),
    {
        AutoNavVizColorMode::MixedWithSourceEntity(FloatBits { bits: ONE_BITS })
    }

    /// Mixing with the destination entity's color by one half.
    pub fn mix_with_destination_entity_evenly() -> (m: Self)
        ensures
            m == AutoNavVizColorMode::MixedWithDestinationEntity(
                FloatBits { bits: ONE_HALF_BITS },
            ),
    {
        AutoNavVizColorMode::MixedWithDestinationEntity(FloatBits { bits: ONE_HALF_BITS })
    }

    /// Only the destination entity's color (mixing factor one).
    pub fn destination_entity_color_only() -> (m: Self)
        ensures
            m == AutoNavVizColorMode::MixedWithDestinationEntity(FloatBits { bits: ONE_BITS }),
    {
        AutoNavVizColorMode::MixedWithDestinationEntity(FloatBits { bits: ONE_BITS })
    }
}

/// How the color of an arrow is obtained: `color`, mixed with the given other
/// color by the given factor when `mix` holds one.
#[derive(Clone, Copy, Debug)]
pub struct ColorMix {
    pub color: Color,
    pub mix: Option<(Color, FloatBits)>,
}

/// The settings of the visualization.
#[derive(Clone, Copy, Debug)]
pub struct AutoNavVizGizmoConfigGroup {
    /// The drawing mode.
    pub draw_mode: AutoNavVizDrawMode,
    /// The coloring mode.
    pub color_mode: AutoNavVizColorMode,
    /// The arrow tip length in world units; it also sets the spacing between
    /// single arrows and the radius of the arcs of looped edges.
    pub arrow_tip_length: FloatBits,
    /// The color of arrows leaving to the north; `None` means `default_color`.
    pub north_color: Option<Color>,
    pub north_east_color: Option<Color>,
    pub east_color: Option<Color>,
    pub south_east_color: Option<Color>,
    pub south_color: Option<Color>,
    pub south_west_color: Option<Color>,
    pub west_color: Option<Color>,
    pub north_west_color: Option<Color>,
    /// The color used for a direction whose color is `None`.
    pub default_color: Color,
}

impl AutoNavVizGizmoConfigGroup {
    /// The color set for the direction `dir`.
    pub open spec fn color_setting(self, dir: Octant) -> Option<Color> {
        match dir {
            Octant::North => self.north_color,
            Octant::NorthEast => self.north_east_color,
            Octant::East => self.east_color,
            Octant::SouthEast => self.south_east_color,
            Octant::South => self.south_color,
            Octant::SouthWest => self.south_west_color,
            Octant::West => self.west_color,
            Octant::NorthWest => self.north_west_color,
        }
    }

    /// The two configurations agree on everything but the directional colors.
    pub open spec fn same_but_directional_colors(self, other: Self) -> bool {
        &&& self.draw_mode == other.draw_mode
        &&& self.color_mode == other.color_mode
        &&& self.arrow_tip_length == other.arrow_tip_length
        &&& self.default_color == other.default_color
    }

    /// The color an arrow in direction `dir` gets before any mixing.
    pub open spec fn directional_color(self, dir: Octant) -> Color {
        match self.color_setting(dir) {
            Some(c) => c,
            None => self.default_color,
        }
    }

    /// How the color of an arrow from an entity colored `source_color` to one
    /// colored `destination_color` in direction `dir` is obtained.
    pub open spec fn color_mix_for(
        self,
        source_color: Color,
        destination_color: Color,
        dir: Octant,
    ) -> ColorMix {
        let color = self.directional_color(dir);
        match self.color_mode {
            AutoNavVizColorMode::MixedWithSourceEntity(factor) => ColorMix {
                color,
                mix: Some((source_color, factor)),
            },
            AutoNavVizColorMode::MixedWithDestinationEntity(factor) => ColorMix {
                color,
                mix: Some((destination_color, factor)),
            },
            AutoNavVizColorMode::DirectionalOnly => ColorMix { color, mix: None },
        }
    }

    /// Toggles the draw mode between drawing for the current focus and drawing
    /// for all entities, using the default symmetrical edge setting for the
    /// latter.
    pub fn toggle_draw_mode(&mut self)
        ensures
            final(self).draw_mode == if old(self).draw_mode
                == AutoNavVizDrawMode::EnabledForCurrentFocus {
                AutoNavVizDrawMode::EnabledForAll(SymmetricalEdgeSettings::MergeAndGradient)
            } else {
                AutoNavVizDrawMode::EnabledForCurrentFocus
            },
            final(self).color_mode == old(self).color_mode,
            final(self).arrow_tip_length == old(self).arrow_tip_length,
            final(self).default_color == old(self).default_color,
            forall|d: Octant| #[trigger] final(self).color_setting(d) == old(self).color_setting(d),
    {
        if self.draw_mode == AutoNavVizDrawMode::EnabledForCurrentFocus {
            self.draw_mode = AutoNavVizDrawMode::EnabledForAll(SymmetricalEdgeSettings::default());
        } else {
            self.draw_mode = AutoNavVizDrawMode::EnabledForCurrentFocus;
        }
    }

    /// Returns the color set for the given direction.
    pub fn get_setting_color_for_direction(&self, dir: Octant) -> (c: Option<Color>)
        ensures
            c == self.color_setting(dir),
    {
        match dir {
            Octant::North => self.north_color,
            Octant::NorthEast => self.north_east_color,
            Octant::East => self.east_color,
            Octant::SouthEast => self.south_east_color,
            Octant::South => self.south_color,
            Octant::SouthWest => self.south_west_color,
            Octant::West => self.west_color,
            Octant::NorthWest => self.north_west_color,
        }
    }

    /// Sets every directional color to `None`, so that all arrows use
    /// `default_color` (mixed as the color mode says).
    pub fn set_directional_colors_to_none(&mut self)
        ensures
            forall|d: Octant| (#[trigger] final(self).color_setting(d)) is None,
            final(self).same_but_directional_colors(*old(self)),
    {
        self.north_color = None;
        self.north_east_color = None;
        self.east_color = None;
        self.south_east_color = None;
        self.south_color = None;
        self.south_west_color = None;
        self.west_color = None;
        self.north_west_color = None;
    }

    /// Sets every directional color back to the one of `defaults`, the default
    /// configuration (whose colors are built from floating-point components
    /// where the configuration is created).
    pub fn set_directional_colors_to_defaults(&mut self, defaults: &AutoNavVizGizmoConfigGroup)
        ensures
            forall|d: Octant| #[trigger] final(self).color_setting(d) == defaults.color_setting(d),
            final(self).same_but_directional_colors(*old(self)),
    {
        self.north_color = defaults.north_color;
        self.north_east_color = defaults.north_east_color;
        self.east_color = defaults.east_color;
        self.south_east_color = defaults.south_east_color;
        self.south_color = defaults.south_color;
        self.south_west_color = defaults.south_west_color;
        self.west_color = defaults.west_color;
        self.north_west_color = defaults.north_west_color;
    }

    /// Returns how the color of an arrow in direction `dir` from an entity
    /// colored `source_color` to one colored `destination_color` is obtained:
    /// the direction's color (or the default color), mixed with the source or
    /// destination entity's color as the color mode says.
    pub fn get_color_mix_for_direction(
        &self,
        source_color: Color,
        destination_color: Color,
        dir: Octant,
    ) -> (m: ColorMix)
        ensures
            m == self.color_mix_for(source_color, destination_color, dir),
    {
        let color = match self.get_setting_color_for_direction(dir) {
            Some(c) => c,
            None => self.default_color,
        };
        match self.color_mode {
            AutoNavVizColorMode::MixedWithSourceEntity(factor) => ColorMix {
                color,
                mix: Some((source_color, factor)),
            },
            AutoNavVizColorMode::MixedWithDestinationEntity(factor) => ColorMix {
                color,
                mix: Some((destination_color, factor)),
            },
            AutoNavVizColorMode::DirectionalOnly => ColorMix { color, mix: None },
        }
    }
}

/// Toggling the draw mode twice from drawing for the current focus comes back
/// to it; from drawing for all entities it comes back to drawing for all
/// entities with the default symmetrical edge setting.
pub proof fn lemma_toggle_draw_mode_twice(mode: AutoNavVizDrawMode)
    ensures
        toggled(toggled(mode)) == if mode is EnabledForCurrentFocus {
            mode
        } else {
            AutoNavVizDrawMode::EnabledForAll(SymmetricalEdgeSettings::MergeAndGradient)
        },
        toggled(mode) != mode,
{
}

/// The draw mode after one toggle.
pub open spec fn toggled(mode: AutoNavVizDrawMode) -> AutoNavVizDrawMode {
    if mode == AutoNavVizDrawMode::EnabledForCurrentFocus {
        AutoNavVizDrawMode::EnabledForAll(SymmetricalEdgeSettings::MergeAndGradient)
    } else {
        AutoNavVizDrawMode::EnabledForCurrentFocus
    }
}

/// With the directional colors all unset, every arrow gets the default color
/// before mixing, whatever its direction.
pub proof fn lemma_no_directional_colors_means_default(
    config: AutoNavVizGizmoConfigGroup,
    dir: Octant,
)
    requires
        forall|d: Octant| (#[trigger] config.color_setting(d)) is None,
    ensures
        config.directional_color(dir) == config.default_color,
{
    assert(config.color_setting(dir) is None);
}

/// Each direction's color setting is that direction's own field, and the
/// color an arrow gets before mixing is that setting, or the default color when
/// it is unset; the mixing partner is the source entity's color, the
/// destination entity's, or none, as the color mode says, with its factor.
pub proof fn lemma_color_setting_fields(
    config: AutoNavVizGizmoConfigGroup,
    source_color: Color,
    destination_color: Color,
    dir: Octant,
)
    ensures
        config.color_setting(Octant::North) == config.north_color,
        config.color_setting(Octant::NorthEast) == config.north_east_color,
        config.color_setting(Octant::East) == config.east_color,
        config.color_setting(Octant::SouthEast) == config.south_east_color,
        config.color_setting(Octant::South) == config.south_color,
        config.color_setting(Octant::SouthWest) == config.south_west_color,
        config.color_setting(Octant::West) == config.west_color,
        config.color_setting(Octant::NorthWest) == config.north_west_color,
        config.color_mix_for(source_color, destination_color, dir).color == (match config.color_setting(dir) {
            Some(c) => c,
            None => config.default_color,
        }),
        config.color_mode matches AutoNavVizColorMode::MixedWithSourceEntity(f) ==> config.color_mix_for(
            source_color,
            destination_color,
            dir,
        ).mix == Some((source_color, f)),
        config.color_mode matches AutoNavVizColorMode::MixedWithDestinationEntity(f) ==> config.color_mix_for(
            source_color,
            destination_color,
            dir,
        ).mix == Some((destination_color, f)),
        config.color_mode is DirectionalOnly ==> config.color_mix_for(
            source_color,
            destination_color,
            dir,
        ).mix is None,
{
}

} // verus!
