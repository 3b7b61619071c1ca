//! Inspection of the feature under the mouse pointer: which feature is
//! hovered, what is drawn over its mesh, and what the tooltip says.

use crate::ribbon::MAX_POINTS;
use vstd::prelude::*;

verus! {

/// What a hit entity is.
#[derive(Clone, Copy, Debug, PartialEq, Eq, Hash, Structural)]
pub enum HitKind {
    Road,
    Building,
    Other,
}

/// Colour of an overlay line.
#[derive(Clone, Copy, Debug, PartialEq, Eq, Hash, Structural)]
pub enum OverlayColor {
    Green,
    Blue,
    Red,
}

/// A vertical line from a mesh vertex to a height.
#[derive(Clone, Copy, Debug, PartialEq, Eq, Hash, Structural)]
pub struct Marker {
    /// Index of the vertex that the line starts at.
    pub vertex: usize,
    /// Height that the line ends at, in scene units.
    pub height: u8,
    pub color: OverlayColor,
}

/// The outline of one triangle, drawn in red as the closed strip
/// `a, b, c, a`.
#[derive(Clone, Copy, Debug, PartialEq, Eq, Hash, Structural)]
pub struct Outline {
    pub a: u32,
    pub b: u32,
    pub c: u32,
}

/// What is drawn over a hovered feature.
#[derive(Debug)]
pub struct Overlay {
    pub markers: Vec<Marker>,
    pub outlines: Vec<Outline>,
    /// Indices of the centreline points that a blue line strip joins, in
    /// the order of the strip.
    pub centerline: Vec<usize>,
    /// Text of the tooltip, where there is one.
    pub tooltip: Option<String>,
}

/// What an overlay holds.
pub struct OverlayView {
    pub markers: Seq<Marker>,
    pub outlines: Seq<Outline>,
    pub centerline: Seq<usize>,
    pub tooltip: Option<Seq<char>>,
}

impl View for Overlay {
    type V = OverlayView;

    open spec fn view(&self) -> OverlayView {
        OverlayView {
            markers: self.markers@,
            outlines: self.outlines@,
            centerline: self.centerline@,
            tooltip: match self.tooltip {
                Some(text) => Some(text@),
                None => None,
            },
        }
    }
}

/// Pixels that the tooltip stands to the right of the pointer.
pub const TOOLTIP_RIGHT: i32 = 4;

/// Pixels that the tooltip stands above the pointer.
pub const TOOLTIP_UP: i32 = 24;

/// The marker of the vertex at index `i`. Over a road the lines go up to
/// height one, green at even and blue at odd vertices; over a building they
/// go down to the ground, all green.
pub open spec fn marker_at(i: int, road: bool) -> Marker {
    Marker {
        vertex: i as usize,
        height: if road {
            1
        } else {
            0
        },
        color: if road && i % 2 != 0 {
            OverlayColor::Blue
        } else {
            OverlayColor::Green
        },
    }
}

/// The markers of a mesh of `vertices` vertices.
pub open spec fn markers_of(vertices: nat, road: bool) -> Seq<Marker> {
    Seq::new(vertices, |i: int| marker_at(i, road))
}

/// The outlines of the triangles of an index buffer: one for each whole
/// group of three indices.
pub open spec fn outlines_of(indices: Seq<u32>) -> Seq<Outline> {
    Seq::new(
        indices.len() / 3,
        |t: int| Outline { a: indices[3 * t], b: indices[3 * t + 1], c: indices[3 * t + 2] },
    )
}

/// The text of a building's tooltip: its name where it has one, else its
/// class where it has one, else nothing.
pub open spec fn tooltip_of(name: Option<Seq<char>>, class: Option<Seq<char>>) -> Option<
    Seq<char>,
> {
    if name is Some {
        name
    } else {
        class
    }
}

/// The closed strip along a centreline of `points` points: every point in
/// order, and the first point once more. Without points there is no strip.
pub open spec fn strip_of(points: nat) -> Seq<usize> {
    if points == 0 {
        Seq::empty()
    } else {
        Seq::new(
            points + 1,
            |i: int|
                if i < points {
                    i as usize
                } else {
                    0
                },
        )
    }
}

/// What is drawn over a hovered road.
pub open spec fn road_overlay_of(vertices: nat, indices: Seq<u32>, points: nat) -> OverlayView {
    OverlayView {
        markers: markers_of(vertices, true),
        outlines: outlines_of(indices),
        centerline: strip_of(points),
        tooltip: None,
    }
}

/// What is drawn over a hovered building.
pub open spec fn building_overlay_of(
    vertices: nat,
    indices: Seq<u32>,
    name: Option<Seq<char>>,
    class: Option<Seq<char>>,
) -> OverlayView {
    OverlayView {
        markers: markers_of(vertices, false),
        outlines: outlines_of(indices),
        centerline: Seq::empty(),
        tooltip: tooltip_of(name, class),
    }
}

/// The index of the first hit of a kind, where there is one.
pub fn first_hit(hits: &Vec<HitKind>, kind: HitKind) -> (found: Option<usize>)
    ensures
        match found {
            Some(i) => i < hits@.len() && hits@[i as int] == kind && forall|j: int|
                0 <= j < i ==> hits@[j] != kind,
            None => forall|j: int| 0 <= j < hits@.len() ==> hits@[j] != kind,
        },
{
    let mut i: usize = 0;
    while i < hits.len()
        invariant
            i <= hits@.len(),
            forall|j: int| 0 <= j < i ==> hits@[j] != kind,
        decreases hits@.len() - i,
    {
        if hits[i] == kind {
            return Some(i);
        }
        i += 1;
    }
    None
}

/// The markers of a mesh of `vertices` vertices.
pub fn vertex_markers(vertices: usize, road: bool) -> (markers: Vec<Marker>)
    ensures
        markers@ == markers_of(vertices as nat, road),
{
    let mut markers: Vec<Marker> = Vec::new();
    let mut i: usize = 0;
    while i < vertices
        invariant
            i <= vertices,
            markers@.len() == i,
            forall|j: int| 0 <= j < i ==> markers@[j] == marker_at(j, road),
        decreases vertices - i,
    {
        let color = if road && i % 2 != 0 {
            OverlayColor::Blue
        } else {
            OverlayColor::Green
        };
        let height: u8 = if road {
            1
        } else {
            0
        };
        markers.push(Marker { vertex: i, height, color });
        i += 1;
    }
    assert(markers@ =~= markers_of(vertices as nat, road));
    markers
}

/// The outlines of the triangles of an index buffer. Indices left over
/// after the last whole triangle are passed over.
pub fn triangle_outlines(indices: &Vec<u32>) -> (outlines: Vec<Outline>)
    ensures
        outlines@ == outlines_of(indices@),
{
    let mut outlines: Vec<Outline> = Vec::new();
    let mut at: usize = 0;
    while indices.len() - at >= 3
        invariant
            at <= indices@.len(),
            at % 3 == 0,
            outlines@.len() == at / 3,
            forall|j: int| 0 <= j < at / 3 ==> outlines@[j] == outlines_of(indices@)[j],
        decreases indices@.len() - at,
    {
        outlines.push(Outline { a: indices[at], b: indices[at + 1], c: indices[at + 2] });
        at += 3;
    }
    assert(outlines@ =~= outlines_of(indices@));
    outlines
}

/// The text of a building's tooltip: its name where it has one, else its
/// class where it has one, else nothing.
pub fn tooltip_text(name: Option<&String>, class: Option<&String>) -> (text: Option<String>)
    ensures
        match text {
            Some(t) => Some(t@),
            None => None,
        } == tooltip_of(
            match name {
                Some(n) => Some(n@),
                None => None,
            },
            match class {
                Some(c) => Some(c@),
                None => None,
            },
        ),
{
    match name {
        Some(n) => Some(n.clone()),
        None => match class {
            Some(c) => Some(c.clone()),
            None => None,
        },
    }
}

/// The closed strip along a centreline of `points` points.
pub fn centerline_strip(points: usize) -> (strip: Vec<usize>)
    requires
        points <= MAX_POINTS,
    ensures
        strip@ == strip_of(points as nat),
{
    let mut strip: Vec<usize> = Vec::new();
    if points == 0 {
        assert(strip@ =~= strip_of(0));
        return strip;
    }
    let mut i: usize = 0;
    while i < points
        invariant
            i <= points,
            strip@.len() == i,
            forall|j: int| 0 <= j < i ==> strip@[j] == j,
        decreases points - i,
    {
        strip.push(i);
        i += 1;
    }
    strip.push(0);
    assert(strip@ =~= strip_of(points as nat));
    strip
}

/// What is drawn over a hovered road: a line up from every vertex of its
/// mesh, the outline of every triangle, and the closed strip along its
/// centreline.
pub fn road_overlay(vertices: usize, indices: &Vec<u32>, points: usize) -> (overlay: Overlay)
    requires
        points <= MAX_POINTS,
    ensures
        overlay@ == road_overlay_of(vertices as nat, indices@, points as nat),
{
    Overlay {
        markers: vertex_markers(vertices, true),
        outlines: triangle_outlines(indices),
        centerline: centerline_strip(points),
        tooltip: None,
    }
}

/// What is drawn over a hovered building: a line down from every vertex of
/// its mesh, the outline of every triangle, and the tooltip.
pub fn building_overlay(
    vertices: usize,
    indices: &Vec<u32>,
    name: Option<&String>,
    class: Option<&String>,
) -> (overlay: Overlay)
    ensures
        overlay@ == building_overlay_of(
            vertices as nat,
            indices@,
            match name {
                Some(n) => Some(n@),
                None => None,
            },
            match class {
                Some(c) => Some(c@),
                None => None,
            },
        ),
{
    Overlay {
        markers: vertex_markers(vertices, false),
        outlines: triangle_outlines(indices),
        centerline: Vec::new(),
        tooltip: tooltip_text(name, class),
    }
}

} // verus!
