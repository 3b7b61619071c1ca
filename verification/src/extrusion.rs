//! The walls of a building: the footprint ring raised from the ground to
//! the building's height, one quad for each edge of the ring.
//!
//! The layout says where each vertex stands relative to the footprint and
//! how the vertices are joined into triangles. The edge at index `e` runs
//! from the corner `e` to the corner after it, the last edge back to the
//! first corner. Every vertex of a quad carries the outward normal of its
//! edge, so a corner has one vertex for each edge that meets there.

use vstd::prelude::*;

verus! {

/// Where one vertex of the walls stands.
#[derive(Clone, Copy, Debug, PartialEq, Eq, Hash, Structural)]
pub struct WallVertex {
    /// Index of the footprint corner that the vertex stands over.
    pub corner: usize,
    /// Whether the vertex stands at the building's height, not on the
    /// ground.
    pub top: bool,
    /// Index of the edge whose outward normal the vertex carries.
    pub edge: usize,
}

/// The walls of one building.
#[derive(Debug)]
pub struct Walls {
    /// Number of corners of the footprint.
    pub corners: usize,
    pub vertices: Vec<WallVertex>,
    /// Three vertex indices for each triangle.
    pub indices: Vec<u32>,
}

/// Fewest corners that a footprint can have.
pub const MIN_CORNERS: usize = 3;

/// Most corners that walls can be laid out for: every vertex index has to
/// fit in 32 bits.
pub const MAX_CORNERS: usize = 0x3fff_ffff;

/// The corner after the corner `c` on a ring of `corners` corners.
pub open spec fn next_corner(corners: nat, c: int) -> int {
    if c + 1 == corners {
        0
    } else {
        c + 1
    }
}

/// The vertex at index `i` of the walls: the quad of the edge `i / 4`, in
/// the order start on the ground, end on the ground, start on top, end on
/// top.
pub open spec fn wall_vertex(corners: nat, i: int) -> WallVertex {
    let edge = i / 4;
    let place = i % 4;
    WallVertex {
        corner: if place % 2 == 0 {
            edge as usize
        } else {
            next_corner(corners, edge) as usize
        },
        top: place >= 2,
        edge: edge as usize,
    }
}

/// The vertex index at place `k` of the index buffer: the quad of the edge
/// `k / 6` starts at the vertex `n = 4 * (k / 6)` and gives the triangles
/// `(n, n + 1, n + 2)` and `(n + 2, n + 1, n + 3)`.
pub open spec fn wall_index(k: int) -> int {
    let n = 4 * (k / 6);
    let place = k % 6;
    if place == 0 {
        n
    } else if place == 1 || place == 4 {
        n + 1
    } else if place == 2 || place == 3 {
        n + 2
    } else {
        n + 3
    }
}

impl Walls {
    /// Whether the buffers are the walls of a footprint of `self.corners`
    /// corners.
    pub open spec fn is_walls(&self) -> bool {
        &&& MIN_CORNERS <= self.corners <= MAX_CORNERS
        &&& self.vertices@ =~= Seq::new(
            4 * self.corners as nat,
            |i: int| wall_vertex(self.corners as nat, i),
        )
        &&& self.indices@ =~= Seq::new(6 * self.corners as nat, |k: int| wall_index(k) as u32)
    }

    /// Lays out the walls of a footprint of `corners` corners: four
    /// vertices and two triangles for each edge.
    pub fn new(corners: usize) -> (walls: Walls)
        requires
            MIN_CORNERS <= corners <= MAX_CORNERS,
        ensures
            walls.corners == corners,
            walls.is_walls(),
    {
        let mut vertices: Vec<WallVertex> = Vec::new();
        let mut indices: Vec<u32> = Vec::new();
        let mut edge: usize = 0;
        while edge < corners
            invariant
                MIN_CORNERS <= corners <= MAX_CORNERS,
                edge <= corners,
                vertices@.len() == 4 * edge,
                indices@.len() == 6 * edge,
                forall|i: int| 0 <= i < 4 * edge ==> vertices@[i] == wall_vertex(corners as nat, i),
                forall|k: int| 0 <= k < 6 * edge ==> indices@[k] == wall_index(k) as u32,
            decreases corners - edge,
        {
            let next = if edge + 1 == corners {
                0
            } else {
                edge + 1
            };
            vertices.push(WallVertex { corner: edge, top: false, edge });
            vertices.push(WallVertex { corner: next, top: false, edge });
            vertices.push(WallVertex { corner: edge, top: true, edge });
            vertices.push(WallVertex { corner: next, top: true, edge });
            let base: u32 = (4 * edge) as u32;
            indices.push(base);
            indices.push(base + 1);
            indices.push(base + 2);
            indices.push(base + 2);
            indices.push(base + 1);
            indices.push(base + 3);
            edge += 1;
        }
        Walls { corners, vertices, indices }
    }
}

/// Of the walls of a footprint that walls can be laid out for: every index of the
/// index buffer names a vertex, the three corners of a triangle are three
/// different vertices, and every vertex stands over a corner of the
/// footprint and carries the normal of an edge that meets there.
pub proof fn walls_are_well_formed(corners: nat, k: int, i: int)
    requires
        MIN_CORNERS <= corners <= MAX_CORNERS,
        0 <= k < 6 * corners,
        0 <= i < 4 * corners,
    ensures
        0 <= wall_index(k) < 4 * corners,
        wall_index(k - k % 3) != wall_index(k - k % 3 + 1),
        wall_index(k - k % 3) != wall_index(k - k % 3 + 2),
        wall_index(k - k % 3 + 1) != wall_index(k - k % 3 + 2),
        wall_vertex(corners, i).corner < corners,
        wall_vertex(corners, i).edge < corners,
        wall_vertex(corners, i).corner == wall_vertex(corners, i).edge || wall_vertex(
            corners,
            i,
        ).corner == next_corner(corners, wall_vertex(corners, i).edge as int),
{
}

} // verus!
