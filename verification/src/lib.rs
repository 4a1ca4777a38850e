//! Verified core of an auto-navigation visualizer for UI entities.
//!
//! The library builds the map of navigation edges to show (automatic edges
//! with manual edges overriding them), decides which of those edges a drawing
//! pass draws and which are symmetrical, merges straight edges that would be
//! drawn over each other, and holds the visualization's settings. The
//! geometry and the rendering around these decisions live with the
//! application.

pub mod octant;
pub mod outside;
pub mod nav_map;
pub mod settings;
pub mod visualizer;
pub mod asymm_edge_merger;

pub use asymm_edge_merger::{AsymmetricalStraightEdgeMerger, MergeFinish, MergedEdge};
pub use nav_map::{add_overrides_to_nav_map, apply_manual_overrides, rebuild_nav_map};
pub use octant::Octant;
pub use settings::{
    AutoNavVizColorMode, AutoNavVizDrawMode, AutoNavVizGizmoConfigGroup, ColorMix, FloatBits,
    SymmetricalEdgeSettings,
};
pub use visualizer::{
    get_edge_style, get_local_nudge_directions, looped_line_styles, nav_viz_entries,
    plan_nav_viz_edges, short_straight_line_style, straight_line_styles, DrawLineData,
    DrawLineType, EdgeColorRole, EdgeStyle, LineKind, LineStyle, LoopedStyle, NavEntry,
    NavVizDrawMetaData, PlannedEdge,
};
