use darkmap::extrusion::WallVertex;
use darkmap::extrusion::Walls;

#[test]
fn triangle_footprint_has_three_quads() {
    let walls = Walls::new(3);
    assert_eq!(walls.corners, 3);
    assert_eq!(
        walls.vertices,
        vec![
            WallVertex { corner: 0, top: false, edge: 0 },
            WallVertex { corner: 1, top: false, edge: 0 },
            WallVertex { corner: 0, top: true, edge: 0 },
            WallVertex { corner: 1, top: true, edge: 0 },
            WallVertex { corner: 1, top: false, edge: 1 },
            WallVertex { corner: 2, top: false, edge: 1 },
            WallVertex { corner: 1, top: true, edge: 1 },
            WallVertex { corner: 2, top: true, edge: 1 },
            WallVertex { corner: 2, top: false, edge: 2 },
            WallVertex { corner: 0, top: false, edge: 2 },
            WallVertex { corner: 2, top: true, edge: 2 },
            WallVertex { corner: 0, top: true, edge: 2 },
        ]
    );
    assert_eq!(
        walls.indices,
        vec![0, 1, 2, 2, 1, 3, 4, 5, 6, 6, 5, 7, 8, 9, 10, 10, 9, 11]
    );
}

#[test]
fn walls_have_a_quad_for_each_edge() {
    for corners in [3usize, 4, 9, 64] {
        let walls = Walls::new(corners);
        assert_eq!(walls.vertices.len(), 4 * corners);
        assert_eq!(walls.indices.len(), 6 * corners);
        assert!(walls.indices.iter().all(|i| (*i as usize) < 4 * corners));
        assert!(walls.vertices.iter().all(|v| v.corner < corners && v.edge < corners));
        let last = walls.vertices[4 * corners - 1];
        assert_eq!(last, WallVertex { corner: 0, top: true, edge: corners - 1 });
    }
}
