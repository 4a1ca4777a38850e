# bevy_auto_nav_viz

A visualizer for the automatic directional navigation of Bevy UI entities,
with its decision logic verified by Verus.

- `src/` is the verified library:
  - `octant.rs`: the eight compass directions, their indices and opposites;
  - `settings.rs`: the draw mode, symmetrical edge and color settings, and the
    configuration with its color choices;
  - `nav_map.rs`: the navigation map that is drawn, automatic edges with
    manual edges overriding them;
  - `visualizer.rs`: which edges a drawing pass draws and in which order,
    which of them are symmetrical, how each edge is styled, and which way the
    arrows of a spaced-out edge are pushed;
  - `asymm_edge_merger.rs`: merging straight edges that would be drawn over
    each other;
  - `outside.rs`: the engine's types and functions that the library uses, with
    the contracts it relies on.
- `app/` is the Bevy plugin around it: the systems, the queries, the
  floating-point geometry and colors, and the gizmo drawing.
- `tests/` runs the library on concrete navigation maps and edges.
