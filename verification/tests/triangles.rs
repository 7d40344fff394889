use clipmap::topology::{generate_block, generate_l_shape, generate_ring_fixup};
use clipmap::triangles::{
    generate_block_triangles, generate_l_shape_triangles, generate_ring_fixup_triangles,
};
use clipmap::units::Point;
use genmesh::generators::{IndexedPolygon, Plane};
use genmesh::{Triangulate, Vertices};
use std::collections::HashSet;

/// The triangle list that genmesh gives for a plane of `cols` by `rows`
/// shared vertices.
fn genmesh_triangles(cols: usize, rows: usize) -> Vec<usize> {
    Plane::subdivide(cols - 1, rows - 1).indexed_polygon_iter().triangulate().vertices().collect()
}

/// Twice the signed area of a triangle, in half units squared.
fn doubled_area(a: Point, b: Point, c: Point) -> i64 {
    (b.x - a.x) * (c.y - a.y) - (c.x - a.x) * (b.y - a.y)
}

#[test]
fn block_of_two_is_one_quad_in_two_triangles() {
    assert_eq!(generate_block_triangles(2), vec![0, 1, 3, 3, 2, 0]);
}

#[test]
fn block_of_three_lists_its_four_cells_row_by_row() {
    assert_eq!(
        generate_block_triangles(3),
        vec![
            0, 1, 4, 4, 3, 0, // cell 0
            1, 2, 5, 5, 4, 1, // cell 1
            3, 4, 7, 7, 6, 3, // cell 2
            4, 5, 8, 8, 7, 4, // cell 3
        ]
    );
}

#[test]
fn block_of_one_has_no_triangle() {
    assert!(generate_block_triangles(1).is_empty());
    assert!(generate_ring_fixup_triangles(1).is_empty());
    assert!(generate_l_shape_triangles(1).is_empty());
}

#[test]
fn block_triangles_are_halves_of_unit_cells() {
    let n = 8u32;
    let vertices = generate_block(n);
    let triangles = generate_block_triangles(n);
    assert_eq!(triangles.len(), 6 * 7 * 7);
    let mut cells = HashSet::new();
    for quad in triangles.chunks(6) {
        let corner = |k: usize| vertices[quad[k]];
        // each triangle covers half a unit cell: 2 * (1/2) * 4 in half units squared
        assert_eq!(doubled_area(corner(0), corner(1), corner(2)), 4);
        assert_eq!(doubled_area(corner(3), corner(4), corner(5)), 4);
        assert_eq!(quad[2], quad[3]);
        assert_eq!(quad[5], quad[0]);
        assert_eq!(corner(1), Point { x: corner(0).x + 2, y: corner(0).y });
        assert_eq!(corner(2), Point { x: corner(0).x + 2, y: corner(0).y + 2 });
        assert_eq!(corner(4), Point { x: corner(0).x, y: corner(0).y + 2 });
        assert!(cells.insert((corner(0).x, corner(0).y)));
    }
    assert_eq!(cells.len(), 49);
}

#[test]
fn ring_fixup_triangles_stay_inside_their_strip() {
    let n = 4usize;
    let vertices = generate_ring_fixup(n as u32);
    let triangles = generate_ring_fixup_triangles(n as u32);
    // four strips of (n - 1) * 2 cells
    assert_eq!(triangles.len(), 4 * 6 * 2 * (n - 1));
    for (strip, part) in triangles.chunks(6 * 2 * (n - 1)).enumerate() {
        for triangle in part.chunks(3) {
            for index in triangle {
                assert!(3 * n * strip <= *index && *index < 3 * n * (strip + 1));
            }
            let area = doubled_area(
                vertices[triangle[0]],
                vertices[triangle[1]],
                vertices[triangle[2]],
            );
            assert_eq!(area, 4);
        }
    }
    assert_eq!(&triangles[..6], &[0, 1, 4, 4, 3, 0]);
    assert_eq!(&triangles[6 * 2 * (n - 1)..6 * 2 * (n - 1) + 6], &[12, 13, 17, 17, 16, 12]);
}

#[test]
fn l_shape_triangles_span_the_two_rows() {
    let vertices = generate_l_shape(3);
    let triangles = generate_l_shape_triangles(3);
    assert_eq!(triangles, vec![0, 1, 4, 4, 3, 0, 1, 2, 5, 5, 4, 1]);
    for triangle in triangles.chunks(3) {
        let area =
            doubled_area(vertices[triangle[0]], vertices[triangle[1]], vertices[triangle[2]]);
        // half of a cell one unit long and two units wide
        assert_eq!(area, 8);
    }
}

#[test]
fn triangles_are_numbered_as_genmesh_numbers_a_plane() {
    for n in [2u32, 3, 4, 7, 16, 64] {
        let m = n as usize;
        assert_eq!(generate_block_triangles(n), genmesh_triangles(m, m), "block of {}", n);
        assert_eq!(generate_l_shape_triangles(n), genmesh_triangles(m, 2), "trim of {}", n);
        let mut fixup = Vec::new();
        for (strip, (cols, rows)) in [(3, m), (m, 3), (m, 3), (3, m)].into_iter().enumerate() {
            fixup.extend(genmesh_triangles(cols, rows).into_iter().map(|k| k + strip * 3 * m));
        }
        assert_eq!(generate_ring_fixup_triangles(n), fixup, "fix-up of {}", n);
    }
}
