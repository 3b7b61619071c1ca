//! The ribbon mesh of a road: a flat strip of triangles that follows the
//! road's centreline, with a splayed cap at either end and a mitred joint at
//! every interior point.
//!
//! The layout says where each vertex stands relative to the centreline and
//! how the vertices are joined into triangles. A vertex stands half the
//! road's width away from its anchor point, in the direction of its heading
//! turned about the vertical axis.

use vstd::prelude::*;

verus! {

/// The direction that a vertex's offset is derived from, by the indices of
/// the centreline points that define it.
#[derive(Clone, Copy, Debug, PartialEq, Eq, Hash, Structural)]
pub enum Heading {
    /// The unit vector from one point to another.
    Along { from: usize, to: usize },
    /// The unit bisector of the unit vector that arrives at a point and the
    /// unit vector that leaves it.
    Bisector { prev: usize, at: usize, next: usize },
}

/// Where one vertex of the ribbon stands.
#[derive(Clone, Copy, Debug, PartialEq, Eq, Hash, Structural)]
pub struct RibbonVertex {
    /// Index of the centreline point that the vertex is offset from.
    pub anchor: usize,
    pub heading: Heading,
    /// Degrees by which the heading is turned about the vertical axis.
    pub turn: i16,
}

/// A direction with whole components.
#[derive(Clone, Copy, Debug, PartialEq, Eq, Hash, Structural)]
pub struct Normal {
    pub x: i8,
    pub y: i8,
    pub z: i8,
}

/// A texture coordinate, in tenths.
#[derive(Clone, Copy, Debug, PartialEq, Eq, Hash, Structural)]
pub struct Uv {
    pub u: u8,
    pub v: u8,
}

/// The renderable geometry of one road.
#[derive(Debug)]
pub struct RoadSegment {
    /// Number of centreline points.
    pub points: usize,
    /// Three vertex indices for each triangle.
    pub indices: Vec<u32>,
    pub vertices: Vec<RibbonVertex>,
    /// One normal for each vertex.
    pub normals: Vec<Normal>,
    /// One texture coordinate for each vertex.
    pub uvs: Vec<Uv>,
}

/// Most centreline points that a ribbon can be laid out for: every vertex
/// index has to fit in 32 bits.
pub const MAX_POINTS: usize = 0x7fff_fffd;

/// The normal of every ribbon vertex: straight up.
pub open spec fn up() -> Normal {
    Normal { x: 0, y: 1, z: 0 }
}

/// Vertices of the ribbon: four for each cap, two for each interior point.
pub open spec fn ribbon_vertex_count(points: nat) -> nat {
    (4 + 2 * (points - 2) + 4) as nat
}

/// Indices of the ribbon: two triangles for each pair of vertices but the
/// last.
pub open spec fn ribbon_index_count(points: nat) -> nat {
    3 * (2 * ((ribbon_vertex_count(points) - 2) / 2)) as nat
}

/// Turn of the vertex at place `i` of the start cap.
pub open spec fn start_turn(i: int) -> i16 {
    if i == 0 {
        150
    } else if i == 1 {
        (-150) as i16
    } else if i == 2 {
        90
    } else {
        (-90) as i16
    }
}

/// Turn of the vertex at place `i` of the end cap.
pub open spec fn end_turn(i: int) -> i16 {
    if i == 0 {
        90
    } else if i == 1 {
        (-90) as i16
    } else if i == 2 {
        30
    } else {
        (-30) as i16
    }
}

/// The vertex at index `i` of the ribbon of a centreline of `points` points.
pub open spec fn ribbon_vertex(points: nat, i: int) -> RibbonVertex {
    let inner = 4 + 2 * (points - 2);
    if i < 4 {
        RibbonVertex { anchor: 0, heading: Heading::Along { from: 0, to: 1 }, turn: start_turn(i) }
    } else if i < inner {
        let at = (i - 4) / 2 + 1;
        RibbonVertex {
            anchor: at as usize,
            heading: Heading::Bisector {
                prev: (at - 1) as usize,
                at: at as usize,
                next: (at + 1) as usize,
            },
            turn: if (i - 4) % 2 == 0 {
                90
            } else {
                (-90) as i16
            },
        }
    } else {
        RibbonVertex {
            anchor: (points - 1) as usize,
            heading: Heading::Along { from: (points - 2) as usize, to: (points - 1) as usize },
            turn: end_turn(i - inner),
        }
    }
}

/// The texture coordinate of the vertex at index `i`.
pub open spec fn ribbon_uv(points: nat, i: int) -> Uv {
    let inner = 4 + 2 * (points - 2);
    let v: u8 = if i % 2 == 0 {
        0
    } else {
        10
    };
    if i < 2 {
        Uv { u: 0, v }
    } else if i < 4 {
        Uv { u: 1, v }
    } else if i < inner {
        Uv { u: 5, v }
    } else if i < inner + 2 {
        Uv { u: 9, v }
    } else {
        Uv { u: 10, v }
    }
}

/// The vertex index at place `k` of the index buffer. Each step of two
/// vertices `n` gives the triangles `(n, n + 1, n + 2)` and
/// `(n + 2, n + 1, n + 3)`.
pub open spec fn ribbon_index(k: int) -> int {
    let n = 2 * (k / 6);
    let corner = k % 6;
    if corner == 0 {
        n
    } else if corner == 1 || corner == 4 {
        n + 1
    } else if corner == 2 || corner == 3 {
        n + 2
    } else {
        n + 3
    }
}

impl RoadSegment {
    /// Whether the buffers are the ribbon of a centreline of `self.points`
    /// points.
    pub open spec fn is_ribbon(&self) -> bool {
        &&& 2 <= self.points <= MAX_POINTS
        &&& self.vertices@ =~= Seq::new(
            ribbon_vertex_count(self.points as nat),
            |i: int| ribbon_vertex(self.points as nat, i),
        )
        &&& self.normals@ =~= Seq::new(ribbon_vertex_count(self.points as nat), |i: int| up())
        &&& self.uvs@ =~= Seq::new(
            ribbon_vertex_count(self.points as nat),
            |i: int| ribbon_uv(self.points as nat, i),
        )
        &&& self.indices@ =~= Seq::new(
            ribbon_index_count(self.points as nat),
            |k: int| ribbon_index(k) as u32,
        )
    }

    /// A segment without geometry.
    pub fn empty() -> (segment: RoadSegment)
        ensures
            segment.points == 0,
            segment.indices@.len() == 0,
            segment.vertices@.len() == 0,
            segment.normals@.len() == 0,
            segment.uvs@.len() == 0,
    {
        RoadSegment {
            points: 0,
            indices: Vec::new(),
            vertices: Vec::new(),
            normals: Vec::new(),
            uvs: Vec::new(),
        }
    }

    fn push_vertex(&mut self, vertex: RibbonVertex, uv: Uv)
        requires
            old(self).vertices@.len() == old(self).normals@.len(),
            old(self).vertices@.len() == old(self).uvs@.len(),
        ensures
            final(self).points == old(self).points,
            final(self).indices@ == old(self).indices@,
            final(self).vertices@ == old(self).vertices@.push(vertex),
            final(self).normals@ == old(self).normals@.push(up()),
            final(self).uvs@ == old(self).uvs@.push(uv),
    {
        self.vertices.push(vertex);
        self.normals.push(Normal { x: 0, y: 1, z: 0 });
        self.uvs.push(uv);
    }

    /// Lays out the ribbon of a centreline of `points` points.
    ///
    /// The start cap has four vertices at the first point, turned 150, -150,
    /// 90 and -90 degrees from the direction to the second point. Each
    /// interior point has two, turned 90 and -90 degrees from the bisector
    /// of the directions in and out. The end cap has four at the last
    /// point, turned 90, -90, 30 and -30 degrees from the direction out of
    /// the point before. All normals point up.
    pub fn new(points: usize) -> (segment: RoadSegment)
        requires
            2 <= points <= MAX_POINTS,
        ensures
            segment.points == points,
            segment.is_ribbon(),
    {
        let mut segment = RoadSegment::empty();
        segment.points = points;
        let first = Heading::Along { from: 0, to: 1 };
        segment.push_vertex(RibbonVertex { anchor: 0, heading: first, turn: 150 }, Uv { u: 0, v: 0 });
        segment.push_vertex(
            RibbonVertex { anchor: 0, heading: first, turn: -150 },
            Uv { u: 0, v: 10 },
        );
        segment.push_vertex(RibbonVertex { anchor: 0, heading: first, turn: 90 }, Uv { u: 1, v: 0 });
        segment.push_vertex(RibbonVertex { anchor: 0, heading: first, turn: -90 }, Uv { u: 1, v: 10 });

        let mut at: usize = 1;
        while at < points - 1
            invariant
                2 <= points <= MAX_POINTS,
                1 <= at <= points - 1,
                segment.points == points,
                segment.indices@.len() == 0,
                segment.vertices@.len() == 2 * at + 2,
                segment.normals@.len() == 2 * at + 2,
                segment.uvs@.len() == 2 * at + 2,
                forall|i: int|
                    0 <= i < 2 * at + 2 ==> segment.vertices@[i] == ribbon_vertex(points as nat, i),
                forall|i: int| 0 <= i < 2 * at + 2 ==> segment.normals@[i] == up(),
                forall|i: int|
                    0 <= i < 2 * at + 2 ==> segment.uvs@[i] == ribbon_uv(points as nat, i),
            decreases points - at,
        {
            let joint = Heading::Bisector { prev: at - 1, at, next: at + 1 };
            segment.push_vertex(
                RibbonVertex { anchor: at, heading: joint, turn: 90 },
                Uv { u: 5, v: 0 },
            );
            segment.push_vertex(
                RibbonVertex { anchor: at, heading: joint, turn: -90 },
                Uv { u: 5, v: 10 },
            );
            at += 1;
        }

        let last = Heading::Along { from: points - 2, to: points - 1 };
        segment.push_vertex(
            RibbonVertex { anchor: points - 1, heading: last, turn: 90 },
            Uv { u: 9, v: 0 },
        );
        segment.push_vertex(
            RibbonVertex { anchor: points - 1, heading: last, turn: -90 },
            Uv { u: 9, v: 10 },
        );
        segment.push_vertex(
            RibbonVertex { anchor: points - 1, heading: last, turn: 30 },
            Uv { u: 10, v: 0 },
        );
        segment.push_vertex(
            RibbonVertex { anchor: points - 1, heading: last, turn: -30 },
            Uv { u: 10, v: 10 },
        );

        let count: usize = 2 * points + 4;
        let mut n: usize = 0;
        while n < count - 2
            invariant
                2 <= points <= MAX_POINTS,
                count == 2 * points + 4,
                n % 2 == 0,
                n <= count - 2,
                segment.points == points,
                segment.vertices@.len() == count,
                segment.normals@.len() == count,
                segment.uvs@.len() == count,
                forall|i: int|
                    0 <= i < count ==> segment.vertices@[i] == ribbon_vertex(points as nat, i),
                forall|i: int| 0 <= i < count ==> segment.normals@[i] == up(),
                forall|i: int| 0 <= i < count ==> segment.uvs@[i] == ribbon_uv(points as nat, i),
                segment.indices@.len() == 3 * n,
                forall|k: int| 0 <= k < 3 * n ==> segment.indices@[k] == ribbon_index(k) as u32,
            decreases count - n,
        {
            let base: u32 = n as u32;
            segment.indices.push(base);
            segment.indices.push(base + 1);
            segment.indices.push(base + 2);
            segment.indices.push(base + 2);
            segment.indices.push(base + 1);
            segment.indices.push(base + 3);
            n += 2;
        }
        segment
    }
}

/// Of the ribbon of a centreline of two or more points: it has four
/// vertices for each cap and two for each interior point, twice as many
/// triangles as there are pairs of vertices but the last, every index of
/// the index buffer names a vertex, and the three corners of a triangle are
/// three different vertices.
pub proof fn ribbon_is_well_formed(points: nat, k: int)
    requires
        points >= 2,
        0 <= k < ribbon_index_count(points),
    ensures
        ribbon_vertex_count(points) == 2 * points + 4,
        ribbon_index_count(points) == 3 * (ribbon_vertex_count(points) - 2),
        0 <= ribbon_index(k) < ribbon_vertex_count(points),
        ribbon_index(k - k % 3) != ribbon_index(k - k % 3 + 1),
        ribbon_index(k - k % 3) != ribbon_index(k - k % 3 + 2),
        ribbon_index(k - k % 3 + 1) != ribbon_index(k - k % 3 + 2),
{
}

} // verus!
