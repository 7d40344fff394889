use clipmap::topology::{generate_block, generate_l_shape, generate_ring_fixup};
use clipmap::units::Point;

#[test]
fn block_of_size_255_has_64_by_64_vertices() {
    let n = (255 + 1) / 4;
    assert_eq!(n, 64);
    let mesh = generate_block(n);
    assert_eq!(mesh.len(), 64 * 64);
    assert_eq!(mesh[0], Point { x: -63, y: -63 });
    assert_eq!(mesh[63], Point { x: 63, y: -63 });
    assert_eq!(mesh[64], Point { x: -63, y: -61 });
    assert_eq!(mesh[64 * 64 - 1], Point { x: 63, y: 63 });
}

#[test]
fn block_is_a_centred_grid_within_half_its_dimension() {
    for n in [1u32, 2, 4, 16] {
        let mesh = generate_block(n);
        assert_eq!(mesh.len(), (n * n) as usize);
        for (k, vertex) in mesh.iter().enumerate() {
            let col = (k as u32 % n) as i64;
            let row = (k as u32 / n) as i64;
            assert_eq!(vertex.x, 2 * col - (n as i64 - 1));
            assert_eq!(vertex.y, 2 * row - (n as i64 - 1));
            assert!((vertex.x as f32 / 2.0).abs() <= n as f32 / 2.0);
            assert!((vertex.y as f32 / 2.0).abs() <= n as f32 / 2.0);
        }
        let sum_x: i64 = mesh.iter().map(|v| v.x).sum();
        let sum_y: i64 = mesh.iter().map(|v| v.y).sum();
        assert_eq!((sum_x, sum_y), (0, 0));
    }
}

#[test]
fn block_of_two_is_the_unit_square() {
    assert_eq!(
        generate_block(2),
        vec![
            Point { x: -1, y: -1 },
            Point { x: 1, y: -1 },
            Point { x: -1, y: 1 },
            Point { x: 1, y: 1 },
        ]
    );
}

#[test]
fn ring_fixup_of_two_lists_north_west_east_south() {
    // ring_fixup_offset = 1 + 0.5 + 1 = 2.5 grid units
    let mesh = generate_ring_fixup(2);
    let expected = vec![
        // north: three across, two along
        Point { x: -2, y: -6 },
        Point { x: 0, y: -6 },
        Point { x: 2, y: -6 },
        Point { x: -2, y: -4 },
        Point { x: 0, y: -4 },
        Point { x: 2, y: -4 },
        // west
        Point { x: -6, y: -2 },
        Point { x: -4, y: -2 },
        Point { x: -6, y: 0 },
        Point { x: -4, y: 0 },
        Point { x: -6, y: 2 },
        Point { x: -4, y: 2 },
        // east
        Point { x: 4, y: -2 },
        Point { x: 6, y: -2 },
        Point { x: 4, y: 0 },
        Point { x: 6, y: 0 },
        Point { x: 4, y: 2 },
        Point { x: 6, y: 2 },
        // south
        Point { x: -2, y: 4 },
        Point { x: 0, y: 4 },
        Point { x: 2, y: 4 },
        Point { x: -2, y: 6 },
        Point { x: 0, y: 6 },
        Point { x: 2, y: 6 },
    ];
    assert_eq!(mesh, expected);
}

#[test]
fn ring_fixup_strips_sit_at_the_fixup_offset() {
    let n = 64u32;
    let mesh = generate_ring_fixup(n);
    assert_eq!(mesh.len(), 4 * 3 * 64);
    // 1 + 31.5 + 63 = 95.5 grid units
    let offset = 191i64;
    let centres = [(0, -offset), (-offset, 0), (offset, 0), (0, offset)];
    for (strip, centre) in mesh.chunks(3 * 64).zip(centres.iter()) {
        let sum_x: i64 = strip.iter().map(|v| v.x).sum();
        let sum_y: i64 = strip.iter().map(|v| v.y).sum();
        assert_eq!(sum_x, centre.0 * strip.len() as i64);
        assert_eq!(sum_y, centre.1 * strip.len() as i64);
    }
}

#[test]
fn l_shape_is_one_strip_of_two_rows() {
    assert_eq!(
        generate_l_shape(4),
        vec![
            Point { x: -3, y: -2 },
            Point { x: -1, y: -2 },
            Point { x: 1, y: -2 },
            Point { x: 3, y: -2 },
            Point { x: -3, y: 2 },
            Point { x: -1, y: 2 },
            Point { x: 1, y: 2 },
            Point { x: 3, y: 2 },
        ]
    );
    assert_eq!(generate_l_shape(1), vec![Point { x: 0, y: -2 }, Point { x: 0, y: 2 }]);
}

#[test]
fn generators_are_deterministic() {
    for n in [1u32, 2, 4, 8, 64] {
        assert_eq!(generate_block(n), generate_block(n));
        assert_eq!(generate_ring_fixup(n), generate_ring_fixup(n));
        assert_eq!(generate_l_shape(n), generate_l_shape(n));
    }
}
