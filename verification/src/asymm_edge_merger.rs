//! Merging of asymmetrical straight edges that would be drawn over each other.
//!
//! If entity A has a north-east navigation edge to entity B and B has a
//! north-west edge back to A, the two edges are not symmetrical for the
//! navigation system (symmetry is between opposite directions), yet both are
//! drawn between A's north-east corner and B's north-west corner. The merger
//! collects such straight edges and decides how each pair is drawn so that it
//! looks like one symmetrical edge.

use bevy::color::Color;
use vstd::prelude::*;

use crate::settings::{AutoNavVizDrawMode, FloatBits, SymmetricalEdgeSettings};
use crate::visualizer::{spec_opposite_meta, DrawLineData, DrawLineType, NavVizDrawMetaData};

verus! {

/// A straight edge: its metadata and its three lines (towards the source, the
/// middle, towards the destination).
pub type StraightEdge = (NavVizDrawMetaData, [DrawLineData; 3]);

/// What remains to be done, where lines are rendered, before the lines of a
/// merged edge are drawn.
#[derive(Clone, Copy, Debug)]
pub enum MergeFinish {
    /// Nothing: draw the lines as they are.
    AsIs,
    /// Color every line with the first line's color mixed with `other_color`
    /// by `factor`.
    MixColors { other_color: Color, factor: FloatBits },
    /// Push the lines apart from the edge going the other way: the lines at
    /// the source end by the start nudge around the source entity of the given
    /// edge, the lines at the destination end by the end nudge around its
    /// destination entity.
    Nudge(NavVizDrawMetaData),
}

/// The lines of one edge as the merger hands them out, with what remains to be
/// done before drawing them.
#[derive(Clone, Copy, Debug)]
pub struct MergedEdge {
    pub lines: [DrawLineData; 3],
    pub finish: MergeFinish,
}

/// A line with another line type.
pub open spec fn with_line_type(line: DrawLineData, line_type: DrawLineType) -> DrawLineData {
    DrawLineData { line_type, start: line.start, end: line.end, color: line.color }
}

/// Whether some edge in `edges` has the metadata `meta`.
pub open spec fn has_edge(edges: Seq<StraightEdge>, meta: NavVizDrawMetaData) -> bool {
    exists|o: int| 0 <= o < edges.len() && #[trigger] edges[o].0 == meta
}

/// The lines of the edge with metadata `meta` in `edges`.
pub open spec fn lines_of(edges: Seq<StraightEdge>, meta: NavVizDrawMetaData) -> [DrawLineData; 3] {
    edges[choose|o: int| 0 <= o < edges.len() && #[trigger] edges[o].0 == meta].1
}

/// The metadata of the edges are pairwise different, as the keys of a map.
pub open spec fn metas_distinct(edges: Seq<StraightEdge>) -> bool {
    forall|i: int, j: int| 0 <= i < edges.len() && 0 <= j < edges.len() && i != j ==> edges[i].0 != edges[j].0
}

/// `edges` after adding the edge `meta` with lines `lines`: it replaces an edge
/// with the same metadata, or is added at the end.
pub open spec fn with_edge(
    edges: Seq<StraightEdge>,
    meta: NavVizDrawMetaData,
    lines: [DrawLineData; 3],
) -> Seq<StraightEdge> {
    if has_edge(edges, meta) {
        edges.update(choose|o: int| 0 <= o < edges.len() && #[trigger] edges[o].0 == meta, (meta, lines))
    } else {
        edges.push((meta, lines))
    }
}

/// Whether the merger merges edges in this draw mode, and with which setting:
/// only when the whole graph is drawn, and not when arrows are left to overlap.
pub open spec fn merge_setting(mode: AutoNavVizDrawMode) -> Option<SymmetricalEdgeSettings> {
    match mode {
        AutoNavVizDrawMode::EnabledForAll(s) => if s is OverlappingSingleArrows {
            None
        } else {
            Some(s)
        },
        AutoNavVizDrawMode::EnabledForCurrentFocus => None,
    }
}

/// Whether edge `i` is handed out when merging with setting `s`: with
/// spacing, every edge is; with the merging settings, an edge is left out when
/// the edge going the other way came before it, since that one was drawn
/// merged with it.
pub open spec fn edge_emitted(edges: Seq<StraightEdge>, i: int, s: SymmetricalEdgeSettings) -> bool {
    s is SpacingBetweenSingleArrows || !exists|j: int|
        0 <= j < i && #[trigger] edges[j].0 == spec_opposite_meta(edges[i].0)
}

/// The lines and finish of edge `i` when it is handed out while merging with
/// setting `s`: if the edge going the other way is present, the two are
/// merged as `s` says; otherwise the edge is drawn as it is.
pub open spec fn merged_edge_of(edges: Seq<StraightEdge>, i: int, s: SymmetricalEdgeSettings) -> (Seq<DrawLineData>, MergeFinish) {
    let meta = edges[i].0;
    let lines = edges[i].1@;
    let opposite = spec_opposite_meta(meta);
    if has_edge(edges, opposite) {
        let other = lines_of(edges, opposite)@;
        match s {
            SymmetricalEdgeSettings::MergeAndMix(factor) => (
                seq![
                    with_line_type(lines[0], DrawLineType::Arrow),
                    with_line_type(lines[1], DrawLineType::Line(None)),
                    with_line_type(lines[2], DrawLineType::Arrow),
                ],
                MergeFinish::MixColors { other_color: other[0].color, factor },
            ),
            SymmetricalEdgeSettings::MergeAndGradient => (
                seq![
                    with_line_type(lines[0], DrawLineType::Arrow),
                    DrawLineData {
                        line_type: DrawLineType::Line(Some(other[0].color)),
                        start: lines[1].start,
                        end: lines[1].end,
                        color: lines[0].color,
                    },
                    DrawLineData {
                        line_type: DrawLineType::Arrow,
                        start: lines[2].start,
                        end: lines[2].end,
                        color: other[0].color,
                    },
                ],
                MergeFinish::AsIs,
            ),
            _ => (lines, MergeFinish::Nudge(meta)),
        }
    } else {
        (lines, MergeFinish::AsIs)
    }
}

/// What the merger hands out for the first `n` edges.
pub open spec fn merge_upto(edges: Seq<StraightEdge>, mode: AutoNavVizDrawMode, n: nat) -> Seq<(Seq<DrawLineData>, MergeFinish)>
    decreases n,
{
    if n == 0 {
        Seq::empty()
    } else {
        let prev = merge_upto(edges, mode, (n - 1) as nat);
        let i = n - 1;
        match merge_setting(mode) {
            Some(s) => if edge_emitted(edges, i, s) {
                prev.push(merged_edge_of(edges, i, s))
            } else {
                prev
            },
            None => prev.push((edges[i].1@, MergeFinish::AsIs)),
        }
    }
}

/// What the merger hands out for all of `edges`.
pub open spec fn merge_output(edges: Seq<StraightEdge>, mode: AutoNavVizDrawMode) -> Seq<(Seq<DrawLineData>, MergeFinish)> {
    merge_upto(edges, mode, edges.len())
}

/// The lines of handed-out edges, with their finish.
pub open spec fn merged_view(merged: Seq<MergedEdge>) -> Seq<(Seq<DrawLineData>, MergeFinish)> {
    merged.map_values(|m: MergedEdge| (m.lines@, m.finish))
}

/// Collects the asymmetrical straight edges of one drawing pass and merges
/// those that would be drawn over each other.
///
/// Use it by [`clear`](Self::clear)ing it, adding every asymmetrical straight
/// edge with [`add_straight_edge`](Self::add_straight_edge), calling
/// [`do_merge`](Self::do_merge) and drawing what
/// [`get_line_data`](Self::get_line_data) returns.
///
/// The edges are kept as a list keyed by their metadata (no metadata occurs
/// twice, see [`wf`](Self::wf)) rather than in a hash map: their metadata is a
/// struct of this library, whose hashing and equality a hash map's contract
/// would have to take on trust. The processed edges are kept as a list for the
/// same reason. The merge hands out the edges in the order they were first
/// added; a hash map would hand them out in an unspecified order.
pub struct AsymmetricalStraightEdgeMerger {
    processed_asym_straight_edges: Vec<NavVizDrawMetaData>,
    asym_straight_edge_map: Vec<StraightEdge>,
    line_data_to_draw: Vec<MergedEdge>,
}

impl AsymmetricalStraightEdgeMerger {
    /// The merger is well formed: the added edges are keyed by their metadata.
    pub closed spec fn wf(self) -> bool {
        metas_distinct(self.asym_straight_edge_map@)
    }

    /// The edges added since the last clear, in the order they were first added.
    pub closed spec fn straight_edges(self) -> Seq<StraightEdge> {
        self.asym_straight_edge_map@
    }

    /// The edges handed out by merging since the last clear.
    pub closed spec fn merged_edges(self) -> Seq<MergedEdge> {
        self.line_data_to_draw@
    }

    /// Creates an empty merger.
    pub fn new() -> (merger: Self)
        ensures
            merger.wf(),
            merger.straight_edges().len() == 0,
            merger.merged_edges().len() == 0,
    {
        AsymmetricalStraightEdgeMerger {
            processed_asym_straight_edges: Vec::new(),
            asym_straight_edge_map: Vec::new(),
            line_data_to_draw: Vec::new(),
        }
    }

    /// Empties the merger so that it can be used for another drawing pass.
    pub fn clear(&mut self)
        ensures
            final(self).wf(),
            final(self).straight_edges().len() == 0,
            final(self).merged_edges().len() == 0,
    {
        self.processed_asym_straight_edges.clear();
        self.asym_straight_edge_map.clear();
        self.line_data_to_draw.clear();
    }

    /// Adds an asymmetrical straight edge to be merged; it replaces an edge
    /// with the same metadata.
    pub fn add_straight_edge(&mut self, meta_data: NavVizDrawMetaData, straight_edge_line_data: [DrawLineData; 3])
        requires
            old(self).wf(),
        ensures
            final(self).wf(),
            final(self).straight_edges() == with_edge(old(self).straight_edges(), meta_data, straight_edge_line_data),
            final(self).merged_edges() == old(self).merged_edges(),
            metas_distinct(final(self).straight_edges()),
    {
        let found = find_edge(&self.asym_straight_edge_map, &meta_data);
        match found {
            Some(o) => {
                let ghost before = self.asym_straight_edge_map@;
                self.asym_straight_edge_map.set(o, (meta_data, straight_edge_line_data));
                proof {
                    let c = choose|c: int| 0 <= c < before.len() && #[trigger] before[c].0 == meta_data;
                    assert(c == o);
                }
            },
            None => {
                self.asym_straight_edge_map.push((meta_data, straight_edge_line_data));
            },
        }
    }

    /// Merges the added edges that would be drawn over each other and hands
    /// out the result, after what earlier merges handed out.
    ///
    /// Merging happens only when the draw mode draws the whole graph with a
    /// symmetrical edge setting other than overlapping arrows; otherwise every
    /// edge is handed out as it is. When merging, an edge whose opposite edge
    /// (the same two points, the other way round) was also added is:
    /// - with [`SymmetricalEdgeSettings::MergeAndMix`], handed out once as a
    ///   double-ended arrow whose lines all take the mix of both edges' colors;
    /// - with [`SymmetricalEdgeSettings::MergeAndGradient`], handed out once as a
    ///   double-ended arrow whose middle line runs from this edge's color to the
    ///   other's, and whose destination arrow takes the other's color;
    /// - with [`SymmetricalEdgeSettings::SpacingBetweenSingleArrows`], handed out
    ///   as it is, with both edges pushed apart.
    /// An edge without an opposite edge is handed out as it is.
    pub fn do_merge(&mut self, draw_mode: AutoNavVizDrawMode)
        requires
            old(self).wf(),
        ensures
            final(self).wf(),
            final(self).straight_edges() == old(self).straight_edges(),
            merged_view(final(self).merged_edges()) == merged_view(old(self).merged_edges())
                + merge_output(old(self).straight_edges(), draw_mode),
    {
        let ghost edges = self.asym_straight_edge_map@;
        let ghost before = merged_view(self.line_data_to_draw@);
        let n = self.asym_straight_edge_map.len();
        let setting = match draw_mode {
            AutoNavVizDrawMode::EnabledForAll(s) => if s.is_overlap() {
                None
            } else {
                Some(s)
            },
            AutoNavVizDrawMode::EnabledForCurrentFocus => None,
        };
        assert(setting == merge_setting(draw_mode));
        assert(merge_upto(edges, draw_mode, 0) =~= Seq::<(Seq<DrawLineData>, MergeFinish)>::empty());
        assert(before + merge_upto(edges, draw_mode, 0) =~= before);
        match setting {
            Some(symm_edge_settings) => {
                self.processed_asym_straight_edges.clear();
                for i in 0..n
                    invariant
                        n == edges.len(),
                        self.asym_straight_edge_map@ == edges,
                        metas_distinct(edges),
                        merge_setting(draw_mode) == Some(symm_edge_settings),
                        !(symm_edge_settings is OverlappingSingleArrows),
                        merged_view(self.line_data_to_draw@) == before + merge_upto(edges, draw_mode, i as nat),
                        forall|x: NavVizDrawMetaData| #[trigger]
                            self.processed_asym_straight_edges@.contains(x) <==> (
                            (exists|j: int| 0 <= j < i && #[trigger] edges[j].0 == x)
                            || (!(symm_edge_settings is SpacingBetweenSingleArrows) && exists|j: int|
                                0 <= j < i && #[trigger] edges[j].0 == spec_opposite_meta(x)
                                    && edge_emitted(edges, j, symm_edge_settings)
                                    && has_edge(edges, x))),
                {
                    let meta = self.asym_straight_edge_map[i].0;
                    let edge = self.asym_straight_edge_map[i].1;
                    let opposite = meta.opposite();
                    let processed = contains_meta(&self.processed_asym_straight_edges, &meta);
                    proof {
                        assert(edges[i as int].0 == meta);
                        if symm_edge_settings is SpacingBetweenSingleArrows {
                            if processed {
                                let j = choose|j: int| 0 <= j < i && #[trigger] edges[j].0 == meta;
                                assert(edges[j].0 != edges[i as int].0);
                            }
                            assert(edge_emitted(edges, i as int, symm_edge_settings));
                        } else {
                            if processed {
                                if exists|j: int| 0 <= j < i && #[trigger] edges[j].0 == meta {
                                    let j = choose|j: int| 0 <= j < i && #[trigger] edges[j].0 == meta;
                                    assert(edges[j].0 != edges[i as int].0);
                                }
                                let j = choose|j: int|
                                    0 <= j < i && #[trigger] edges[j].0 == spec_opposite_meta(meta)
                                        && edge_emitted(edges, j, symm_edge_settings)
                                        && has_edge(edges, meta);
                                assert(!edge_emitted(edges, i as int, symm_edge_settings));
                            }
                            if !edge_emitted(edges, i as int, symm_edge_settings) {
                                let j = choose|j: int|
                                    0 <= j < i && #[trigger] edges[j].0 == spec_opposite_meta(edges[i as int].0);
                                assert(spec_opposite_meta(edges[j].0) == meta);
                                assert forall|l: int| 0 <= l < j implies #[trigger] edges[l].0 != spec_opposite_meta(edges[j].0) by {
                                    assert(edges[l].0 != edges[i as int].0);
                                }
                                assert(edge_emitted(edges, j, symm_edge_settings));
                                assert(edges[i as int].0 == meta);
                                assert(has_edge(edges, meta));
                                assert(edges[j].0 == spec_opposite_meta(meta));
                                assert(self.processed_asym_straight_edges@.contains(meta));
                            }
                        }
                        assert(processed == !edge_emitted(edges, i as int, symm_edge_settings));
                    }
                    let found = find_edge(&self.asym_straight_edge_map, &opposite);
                    let ghost prev_lines = self.line_data_to_draw@;
                    let mut opposite_merged = false;
                    if !processed {
                        match found {
                            Some(o) => {
                                let other_edge = self.asym_straight_edge_map[o].1;
                                proof {
                                    let c = choose|c: int| 0 <= c < edges.len() && #[trigger] edges[c].0 == opposite;
                                    assert(c == o);
                                    assert(lines_of(edges, opposite) == other_edge);
                                }
                                match symm_edge_settings {
                                    SymmetricalEdgeSettings::MergeAndMix(factor) => {
                                        let merged = MergedEdge {
                                            lines: [
                                                DrawLineData {
                                                    line_type: DrawLineType::Arrow,
                                                    start: edge[0].start,
                                                    end: edge[0].end,
                                                    color: edge[0].color,
                                                },
                                                DrawLineData {
                                                    line_type: DrawLineType::Line(None),
                                                    start: edge[1].start,
                                                    end: edge[1].end,
                                                    color: edge[1].color,
                                                },
                                                DrawLineData {
                                                    line_type: DrawLineType::Arrow,
                                                    start: edge[2].start,
                                                    end: edge[2].end,
                                                    color: edge[2].color,
                                                },
                                            ],
                                            finish: MergeFinish::MixColors { other_color: other_edge[0].color, factor },
                                        };
                                        self.line_data_to_draw.push(merged);
                                        assert(merged.lines@ =~= merged_edge_of(edges, i as int, symm_edge_settings).0);
                                        opposite_merged = true;
                                    },
                                    SymmetricalEdgeSettings::MergeAndGradient => {
                                        let merged = MergedEdge {
                                            lines: [
                                                DrawLineData {
                                                    line_type: DrawLineType::Arrow,
                                                    start: edge[0].start,
                                                    end: edge[0].end,
                                                    color: edge[0].color,
                                                },
                                                DrawLineData {
                                                    line_type: DrawLineType::Line(Some(other_edge[0].color)),
                                                    start: edge[1].start,
                                                    end: edge[1].end,
                                                    color: edge[0].color,
                                                },
                                                DrawLineData {
                                                    line_type: DrawLineType::Arrow,
                                                    start: edge[2].start,
                                                    end: edge[2].end,
                                                    color: other_edge[0].color,
                                                },
                                            ],
                                            finish: MergeFinish::AsIs,
                                        };
                                        self.line_data_to_draw.push(merged);
                                        assert(merged.lines@ =~= merged_edge_of(edges, i as int, symm_edge_settings).0);
                                        opposite_merged = true;
                                    },
                                    _ => {
                                        // The edge going the other way is pushed apart
                                        // from this one when its own turn comes.
                                        self.line_data_to_draw.push(
                                            MergedEdge { lines: edge, finish: MergeFinish::Nudge(meta) },
                                        );
                                    },
                                }
                            },
                            None => {
                                self.line_data_to_draw.push(MergedEdge { lines: edge, finish: MergeFinish::AsIs });
                            },
                        }
                        assert(merged_view(self.line_data_to_draw@) =~= merged_view(prev_lines).push(
                            merged_edge_of(edges, i as int, symm_edge_settings),
                        ));
                    }
                    let ghost processed_before = self.processed_asym_straight_edges@;
                    if opposite_merged {
                        self.processed_asym_straight_edges.push(opposite);
                    }
                    self.processed_asym_straight_edges.push(meta);
                    proof {
                        let p = self.processed_asym_straight_edges@;
                        assert forall|x: NavVizDrawMetaData| #[trigger] p.contains(x) <==> (
                            (exists|j: int| 0 <= j < i + 1 && #[trigger] edges[j].0 == x)
                            || (!(symm_edge_settings is SpacingBetweenSingleArrows) && exists|j: int|
                                0 <= j < i + 1 && #[trigger] edges[j].0 == spec_opposite_meta(x)
                                    && edge_emitted(edges, j, symm_edge_settings)
                                    && has_edge(edges, x))) by {
                            let a = exists|j: int| 0 <= j < i && #[trigger] edges[j].0 == x;
                            let b = !(symm_edge_settings is SpacingBetweenSingleArrows) && exists|j: int|
                                0 <= j < i && #[trigger] edges[j].0 == spec_opposite_meta(x)
                                    && edge_emitted(edges, j, symm_edge_settings)
                                    && has_edge(edges, x);
                            assert(processed_before.contains(x) <==> (a || b));
                            if opposite_merged {
                                assert(p =~= processed_before.push(opposite).push(meta));
                            } else {
                                assert(p =~= processed_before.push(meta));
                            }
                            assert(p.contains(x) <==> (processed_before.contains(x) || x == meta || (opposite_merged && x == opposite))) by {
                                if p.contains(x) {
                                    let q = choose|q: int| 0 <= q < p.len() && p[q] == x;
                                    if q < processed_before.len() {
                                        assert(processed_before[q] == x);
                                    }
                                }
                                if processed_before.contains(x) {
                                    let q = choose|q: int| 0 <= q < processed_before.len() && processed_before[q] == x;
                                    assert(p[q] == x);
                                }
                                if x == meta {
                                    assert(p[p.len() - 1] == x);
                                }
                                if opposite_merged && x == opposite {
                                    assert(p[p.len() - 2] == x);
                                }
                            }
                            if x == meta {
                                assert(edges[i as int].0 == x);
                            }
                            if opposite_merged && x == opposite {
                                assert(edges[i as int].0 == spec_opposite_meta(x));
                                assert(has_edge(edges, x)) by {
                                    assert(edges[found.unwrap() as int].0 == x);
                                }
                            }
                            if exists|j: int| 0 <= j < i + 1 && #[trigger] edges[j].0 == x {
                                let j = choose|j: int| 0 <= j < i + 1 && #[trigger] edges[j].0 == x;
                                if j == i {
                                    assert(x == meta);
                                }
                            }
                            if !(symm_edge_settings is SpacingBetweenSingleArrows) && exists|j: int|
                                0 <= j < i + 1 && #[trigger] edges[j].0 == spec_opposite_meta(x)
                                    && edge_emitted(edges, j, symm_edge_settings)
                                    && has_edge(edges, x) {
                                let j = choose|j: int|
                                    0 <= j < i + 1 && #[trigger] edges[j].0 == spec_opposite_meta(x)
                                        && edge_emitted(edges, j, symm_edge_settings)
                                        && has_edge(edges, x);
                                if j == i {
                                    assert(x == spec_opposite_meta(meta));
                                    assert(x == opposite);
                                    assert(!processed);
                                    assert(found is Some) by {
                                        let c = choose|c: int| 0 <= c < edges.len() && #[trigger] edges[c].0 == x;
                                        assert(has_edge(edges, opposite));
                                    }
                                    assert(opposite_merged);
                                }
                            }
                        }
                        assert(merged_view(self.line_data_to_draw@) == before + merge_upto(edges, draw_mode, (i + 1) as nat)) by {
                            if processed {
                                assert(merge_upto(edges, draw_mode, (i + 1) as nat) == merge_upto(edges, draw_mode, i as nat));
                            } else {
                                assert(before + merge_upto(edges, draw_mode, (i + 1) as nat) =~= (before + merge_upto(edges, draw_mode, i as nat)).push(
                                    merged_edge_of(edges, i as int, symm_edge_settings),
                                ));
                            }
                        }
                    }
                }
            },
            None => {
                for i in 0..n
                    invariant
                        n == edges.len(),
                        self.asym_straight_edge_map@ == edges,
                        metas_distinct(edges),
                        merge_setting(draw_mode) is None,
                        merged_view(self.line_data_to_draw@) == before + merge_upto(edges, draw_mode, i as nat),
                {
                    let edge = self.asym_straight_edge_map[i].1;
                    let ghost prev_lines = self.line_data_to_draw@;
                    self.line_data_to_draw.push(MergedEdge { lines: edge, finish: MergeFinish::AsIs });
                    assert(merged_view(self.line_data_to_draw@) =~= merged_view(prev_lines).push(
                        (edges[i as int].1@, MergeFinish::AsIs),
                    ));
                    assert(before + merge_upto(edges, draw_mode, (i + 1) as nat) =~= (before + merge_upto(edges, draw_mode, i as nat)).push(
                        (edges[i as int].1@, MergeFinish::AsIs),
                    ));
                }
            },
        }
    }

    /// Returns the edges handed out by [`do_merge`](Self::do_merge).
    pub fn get_line_data(&self) -> (merged: &Vec<MergedEdge>)
        ensures
            merged@ == self.merged_edges(),
    {
        &self.line_data_to_draw
    }
}

/// Returns the index of the edge with metadata `meta` in `edges`, if any.
fn find_edge(edges: &Vec<StraightEdge>, meta: &NavVizDrawMetaData) -> (found: Option<usize>)
    ensures
        found matches Some(o) ==> o < edges@.len() && edges@[o as int].0 == *meta,
        found is None ==> !has_edge(edges@, *meta),
{
    for i in 0..edges.len()
        invariant
            forall|j: int| 0 <= j < i ==> (#[trigger] edges@[j]).0 != *meta,
    {
        if edges[i].0 == *meta {
            return Some(i);
        }
    }
    None
}

/// Returns whether `metas` holds `meta`.
fn contains_meta(metas: &Vec<NavVizDrawMetaData>, meta: &NavVizDrawMetaData) -> (b: bool)
    ensures
        b == metas@.contains(*meta),
{
    for i in 0..metas.len()
        invariant
            forall|j: int| 0 <= j < i ==> metas@[j] != *meta,
    {
        if metas[i] == *meta {
            assert(metas@[i as int] == *meta);
            return true;
        }
    }
    false
}

/// When the draw mode does not merge, every added edge is handed out as it
/// is, in order.
pub proof fn lemma_no_merge_hands_out_all(edges: Seq<StraightEdge>, mode: AutoNavVizDrawMode, n: nat)
    requires
        merge_setting(mode) is None,
        n <= edges.len(),
    ensures
        merge_upto(edges, mode, n) == edges.take(n as int).map_values(
            |e: StraightEdge| (e.1@, MergeFinish::AsIs),
        ),
    decreases n,
{
    if n > 0 {
        lemma_no_merge_hands_out_all(edges, mode, (n - 1) as nat);
        assert(edges.take(n as int) =~= edges.take(n - 1).push(edges[n - 1]));
        assert(edges.take(n as int).map_values(|e: StraightEdge| (e.1@, MergeFinish::AsIs))
            =~= edges.take(n - 1).map_values(|e: StraightEdge| (e.1@, MergeFinish::AsIs)).push(
            (edges[n - 1].1@, MergeFinish::AsIs),
        ));
    } else {
        assert(edges.take(0).map_values(|e: StraightEdge| (e.1@, MergeFinish::AsIs)) =~= Seq::<
            (Seq<DrawLineData>, MergeFinish),
        >::empty());
    }
}

/// With a merging setting, two added edges going opposite ways between the
/// same points are handed out once, merged: the one added first is handed
/// out as a double-ended arrow, the other not at all.
pub proof fn lemma_opposite_pair_merged_once(
    edges: Seq<StraightEdge>,
    s: SymmetricalEdgeSettings,
    first: int,
    second: int,
)
    requires
        s is MergeAndGradient || s is MergeAndMix,
        metas_distinct(edges),
        0 <= first < second < edges.len(),
        edges[second].0 == spec_opposite_meta(edges[first].0),
    ensures
        edge_emitted(edges, first, s),
        !edge_emitted(edges, second, s),
        merged_edge_of(edges, first, s).0[0].line_type == DrawLineType::Arrow,
        merged_edge_of(edges, first, s).0[2].line_type == DrawLineType::Arrow,
{
    assert(has_edge(edges, spec_opposite_meta(edges[first].0)));
    assert(spec_opposite_meta(edges[second].0) == edges[first].0);
    assert forall|j: int| 0 <= j < first implies #[trigger] edges[j].0 != spec_opposite_meta(
        edges[first].0,
    ) by {
        assert(edges[j].0 != edges[second].0);
    }
}

/// With spacing between single arrows, every added edge is handed out, and
/// one whose opposite edge was also added is pushed apart from it.
pub proof fn lemma_spacing_hands_out_all(edges: Seq<StraightEdge>, i: int)
    requires
        0 <= i < edges.len(),
    ensures
        edge_emitted(edges, i, SymmetricalEdgeSettings::SpacingBetweenSingleArrows),
        merged_edge_of(edges, i, SymmetricalEdgeSettings::SpacingBetweenSingleArrows).0
            == edges[i].1@,
        merged_edge_of(edges, i, SymmetricalEdgeSettings::SpacingBetweenSingleArrows).1
            == if has_edge(edges, spec_opposite_meta(edges[i].0)) {
            MergeFinish::Nudge(edges[i].0)
        } else {
            MergeFinish::AsIs
        },
{
}

/// An added edge without an opposite edge is handed out unchanged, whatever
/// the draw mode.
pub proof fn lemma_lone_edge_unchanged(edges: Seq<StraightEdge>, s: SymmetricalEdgeSettings, i: int)
    requires
        0 <= i < edges.len(),
        !has_edge(edges, spec_opposite_meta(edges[i].0)),
    ensures
        edge_emitted(edges, i, s),
        merged_edge_of(edges, i, s) == (edges[i].1@, MergeFinish::AsIs),
{
    if !edge_emitted(edges, i, s) {
        let j = choose|j: int| 0 <= j < i && #[trigger] edges[j].0 == spec_opposite_meta(edges[i].0);
        assert(has_edge(edges, spec_opposite_meta(edges[i].0)));
    }
}

/// While merging with setting `s`, every edge that is handed out appears in
/// what the first `n` edges hand out, once `n` is past it.
proof fn lemma_emitted_edge_in_output(
    edges: Seq<StraightEdge>,
    mode: AutoNavVizDrawMode,
    s: SymmetricalEdgeSettings,
    i: int,
    n: nat,
)
    requires
        merge_setting(mode) == Some(s),
        0 <= i < n <= edges.len(),
        edge_emitted(edges, i, s),
    ensures
        merge_upto(edges, mode, n).contains(merged_edge_of(edges, i, s)),
    decreases n,
{
    let prev = merge_upto(edges, mode, (n - 1) as nat);
    if i == n - 1 {
        assert(merge_upto(edges, mode, n) == prev.push(merged_edge_of(edges, i, s)));
        assert(merge_upto(edges, mode, n)[prev.len() as int] == merged_edge_of(edges, i, s));
    } else {
        lemma_emitted_edge_in_output(edges, mode, s, i, (n - 1) as nat);
        let k = choose|k: int| 0 <= k < prev.len() && prev[k] == merged_edge_of(edges, i, s);
        if edge_emitted(edges, n - 1, s) {
            assert(merge_upto(edges, mode, n)[k] == prev[k]);
        }
    }
}

/// The lines of the edge with metadata `meta` are those of the one edge
/// added with it.
proof fn lemma_lines_of_unique(edges: Seq<StraightEdge>, o: int)
    requires
        metas_distinct(edges),
        0 <= o < edges.len(),
    ensures
        has_edge(edges, edges[o].0),
        lines_of(edges, edges[o].0) == edges[o].1,
{
    let meta = edges[o].0;
    assert(edges[o].0 == meta);
    let c = choose|c: int| 0 <= c < edges.len() && #[trigger] edges[c].0 == meta;
    assert(c == o);
}

/// With [`SymmetricalEdgeSettings::MergeAndGradient`], two edges going
/// opposite ways between the same points come out as one double-ended edge:
/// the first edge's lines, with arrows at both ends, the middle line running
/// from the first edge's color to the color of the other edge's first line,
/// and the destination arrow in that other color.
pub proof fn lemma_gradient_merge_takes_other_color(edges: Seq<StraightEdge>, first: int, second: int)
    requires
        metas_distinct(edges),
        0 <= first < second < edges.len(),
        edges[second].0 == spec_opposite_meta(edges[first].0),
    ensures
        ({
            let mine = edges[first].1@;
            let other = edges[second].1@;
            merge_output(
                edges,
                AutoNavVizDrawMode::EnabledForAll(SymmetricalEdgeSettings::MergeAndGradient),
            ).contains(
                (
                    seq![
                        DrawLineData {
                            line_type: DrawLineType::Arrow,
                            start: mine[0].start,
                            end: mine[0].end,
                            color: mine[0].color,
                        },
                        DrawLineData {
                            line_type: DrawLineType::Line(Some(other[0].color)),
                            start: mine[1].start,
                            end: mine[1].end,
                            color: mine[0].color,
                        },
                        DrawLineData {
                            line_type: DrawLineType::Arrow,
                            start: mine[2].start,
                            end: mine[2].end,
                            color: other[0].color,
                        },
                    ],
                    MergeFinish::AsIs,
                ),
            )
        }),
{
    let s = SymmetricalEdgeSettings::MergeAndGradient;
    let mode = AutoNavVizDrawMode::EnabledForAll(s);
    lemma_opposite_pair_merged_once(edges, s, first, second);
    lemma_lines_of_unique(edges, second);
    lemma_emitted_edge_in_output(edges, mode, s, first, edges.len());
}

/// With [`SymmetricalEdgeSettings::MergeAndMix`], two edges going opposite
/// ways between the same points come out as one double-ended edge: the first
/// edge's lines as arrow, plain line and arrow, all to be colored with the
/// first edge's color mixed, by the setting's factor, with the color of the
/// other edge's first line.
pub proof fn lemma_mix_merge_takes_other_color(
    edges: Seq<StraightEdge>,
    factor: FloatBits,
    first: int,
    second: int,
)
    requires
        metas_distinct(edges),
        0 <= first < second < edges.len(),
        edges[second].0 == spec_opposite_meta(edges[first].0),
    ensures
        ({
            let mine = edges[first].1@;
            let other = edges[second].1@;
            merge_output(
                edges,
                AutoNavVizDrawMode::EnabledForAll(SymmetricalEdgeSettings::MergeAndMix(factor)),
            ).contains(
                (
                    seq![
                        DrawLineData {
                            line_type: DrawLineType::Arrow,
                            start: mine[0].start,
                            end: mine[0].end,
                            color: mine[0].color,
                        },
                        DrawLineData {
                            line_type: DrawLineType::Line(None),
                            start: mine[1].start,
                            end: mine[1].end,
                            color: mine[1].color,
                        },
                        DrawLineData {
                            line_type: DrawLineType::Arrow,
                            start: mine[2].start,
                            end: mine[2].end,
                            color: mine[2].color,
                        },
                    ],
                    MergeFinish::MixColors { other_color: other[0].color, factor },
                ),
            )
        }),
{
    let s = SymmetricalEdgeSettings::MergeAndMix(factor);
    let mode = AutoNavVizDrawMode::EnabledForAll(s);
    lemma_opposite_pair_merged_once(edges, s, first, second);
    lemma_lines_of_unique(edges, second);
    lemma_emitted_edge_in_output(edges, mode, s, first, edges.len());
}

/// With [`SymmetricalEdgeSettings::SpacingBetweenSingleArrows`], both of two
/// edges going opposite ways between the same points come out with their own
/// lines unchanged, each to be pushed apart by its own metadata.
pub proof fn lemma_spacing_keeps_both_edges(edges: Seq<StraightEdge>, first: int, second: int)
    requires
        metas_distinct(edges),
        0 <= first < edges.len(),
        0 <= second < edges.len(),
        first != second,
        edges[second].0 == spec_opposite_meta(edges[first].0),
    ensures
        merge_output(
            edges,
            AutoNavVizDrawMode::EnabledForAll(SymmetricalEdgeSettings::SpacingBetweenSingleArrows),
        ).contains((edges[first].1@, MergeFinish::Nudge(edges[first].0))),
        merge_output(
            edges,
            AutoNavVizDrawMode::EnabledForAll(SymmetricalEdgeSettings::SpacingBetweenSingleArrows),
        ).contains((edges[second].1@, MergeFinish::Nudge(edges[second].0))),
{
    let s = SymmetricalEdgeSettings::SpacingBetweenSingleArrows;
    let mode = AutoNavVizDrawMode::EnabledForAll(s);
    assert(has_edge(edges, spec_opposite_meta(edges[first].0)));
    assert(spec_opposite_meta(edges[second].0) == edges[first].0);
    assert(has_edge(edges, spec_opposite_meta(edges[second].0)));
    lemma_emitted_edge_in_output(edges, mode, s, first, edges.len());
    lemma_emitted_edge_in_output(edges, mode, s, second, edges.len());
}

} // verus!
