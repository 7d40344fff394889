//! The twelve blocks and four fix-up strips of a ring pave it exactly.
//!
//! The plane is cut into unit cells; cell `(i, j)` is the square between grid
//! points `(i, j)` and `(i + 1, j + 1)`. A mesh drawn at some centre paints
//! the cells that lie between its outermost vertices.

use vstd::prelude::*;
use crate::placement::{
    block_dim, one_offset, slot_column, slot_row, trim_units, world_offset, TrimOrientation,
};
use crate::topology::{
    block_vertices, grid, lemma_grid_extent, lemma_row_major, strip_centre, strip_cols,
    strip_rows, strip_vertices,
};
use crate::triangles::{cell_quad, lemma_cell_quad_is_unit_square};
use crate::units::Point;

verus! {

/// Along one axis, cell `cell` lies inside the span of `half_width` half
/// units to either side of `centre` (half units).
pub open spec fn span_covers(centre: int, half_width: int, cell: int) -> bool {
    centre - half_width <= 2 * cell && 2 * cell + 2 <= centre + half_width
}

/// Block `id`, drawn at its world offset, paints cell `(i, j)`.
pub open spec fn block_covers(
    grid_size: u32,
    trim: TrimOrientation,
    id: int,
    i: int,
    j: int,
) -> bool {
    let centre = world_offset(grid_size, id, trim);
    let m = one_offset(grid_size);
    span_covers(centre.0, m, i) && span_covers(centre.1, m, j)
}

/// Fix-up strip `strip`, drawn with the ring's trim shift, paints cell
/// `(i, j)`.
pub open spec fn strip_covers(
    grid_size: u32,
    trim: TrimOrientation,
    strip: int,
    i: int,
    j: int,
) -> bool {
    let n = block_dim(grid_size);
    let centre = strip_centre(n, strip);
    let t = trim_units(trim);
    span_covers(centre.0 + 2 * t.0, strip_cols(n, strip) - 1, i) && span_covers(
        centre.1 + 2 * t.1,
        strip_rows(n, strip) - 1,
        j,
    )
}

/// The spans that `block_covers` and `strip_covers` go by are those of the
/// meshes: the first and the last vertex of the block mesh are its corners
/// `one_offset` half units to either side of the origin, and the first and
/// the last vertex of a fix-up strip are its corners `cols - 1` and
/// `rows - 1` half units to either side of the strip's centre.
pub proof fn lemma_spans_are_mesh_extents(grid_size: u32, strip: int)
    requires
        block_dim(grid_size) >= 1,
        0 <= strip < 4,
    ensures
        block_vertices(block_dim(grid_size)).first() == (Point {
            x: (-one_offset(grid_size)) as i64,
            y: (-one_offset(grid_size)) as i64,
        }),
        block_vertices(block_dim(grid_size)).last() == (Point {
            x: one_offset(grid_size) as i64,
            y: one_offset(grid_size) as i64,
        }),
        strip_vertices(block_dim(grid_size), strip).first() == (Point {
            x: (strip_centre(block_dim(grid_size), strip).0 - (strip_cols(
                block_dim(grid_size),
                strip,
            ) - 1)) as i64,
            y: (strip_centre(block_dim(grid_size), strip).1 - (strip_rows(
                block_dim(grid_size),
                strip,
            ) - 1)) as i64,
        }),
        strip_vertices(block_dim(grid_size), strip).last() == (Point {
            x: (strip_centre(block_dim(grid_size), strip).0 + (strip_cols(
                block_dim(grid_size),
                strip,
            ) - 1)) as i64,
            y: (strip_centre(block_dim(grid_size), strip).1 + (strip_rows(
                block_dim(grid_size),
                strip,
            ) - 1)) as i64,
        }),
{
    let n = block_dim(grid_size);
    assert(n * n >= 1) by (nonlinear_arith)
        requires
            n >= 1,
    ;
    lemma_grid_extent(n, n, 0, 0, 0);
    let cols = strip_cols(n, strip);
    let rows = strip_rows(n, strip);
    assert(cols * rows >= 1) by (nonlinear_arith)
        requires
            cols >= 1,
            rows >= 1,
    ;
    lemma_grid_extent(cols, rows, strip_centre(n, strip).0, strip_centre(n, strip).1, 0);
}

/// The corner of smallest coordinates of quad `cell` of a grid centred on
/// `(cx, cy)`.
pub open spec fn quad_corner(cols: int, rows: int, cx: int, cy: int, cell: int) -> Point {
    grid(cols, rows, cx, cy)[cell_quad(cols, cell).0]
}

/// Cell `(i, j)` of the plane is one of the quads of a grid centred on
/// `(cx, cy)`: this is what drawing the grid's triangles at that centre
/// paints.
pub open spec fn grid_paints(cols: int, rows: int, cx: int, cy: int, i: int, j: int) -> bool {
    exists|cell: int|
        0 <= cell < (cols - 1) * (rows - 1) && #[trigger] quad_corner(cols, rows, cx, cy, cell)
            == (Point { x: (2 * i) as i64, y: (2 * j) as i64 })
}

/// A grid whose vertices fall on whole grid units paints exactly the cells
/// between its outermost vertices.
pub proof fn lemma_grid_paints_its_span(cols: int, rows: int, cx: int, cy: int, i: int, j: int)
    requires
        1 <= cols <= 0x1_0000_0000,
        1 <= rows <= 0x1_0000_0000,
        -0x4_0000_0000 <= cx <= 0x4_0000_0000,
        -0x4_0000_0000 <= cy <= 0x4_0000_0000,
        -0x100_0000_0000 <= i <= 0x100_0000_0000,
        -0x100_0000_0000 <= j <= 0x100_0000_0000,
        (cx - (cols - 1)) % 2 == 0,
        (cy - (rows - 1)) % 2 == 0,
    ensures
        grid_paints(cols, rows, cx, cy, i, j) == (span_covers(cx, cols - 1, i) && span_covers(
            cy,
            rows - 1,
            j,
        )),
{
    let w = cols - 1;
    let h = rows - 1;
    if cols < 2 || rows < 2 {
        assert(w * h == 0) by (nonlinear_arith)
            requires
                w == 0 || h == 0,
        ;
    } else {
        if span_covers(cx, w, i) && span_covers(cy, h, j) {
            let x = i - (cx - w) / 2;
            let y = j - (cy - h) / 2;
            let cell = y * w + x;
            lemma_row_major(w, y, x);
            assert(0 <= cell < w * h) by (nonlinear_arith)
                requires
                    cell == y * w + x,
                    0 <= x < w,
                    0 <= y < h,
            ;
            lemma_cell_quad_is_unit_square(cols, rows, cx, cy, cell);
            assert(quad_corner(cols, rows, cx, cy, cell) == (Point {
                x: (2 * i) as i64,
                y: (2 * j) as i64,
            }));
        }
        if grid_paints(cols, rows, cx, cy, i, j) {
            let cell = choose|cell: int|
                0 <= cell < (cols - 1) * (rows - 1) && #[trigger] quad_corner(
                    cols,
                    rows,
                    cx,
                    cy,
                    cell,
                ) == (Point { x: (2 * i) as i64, y: (2 * j) as i64 });
            lemma_cell_quad_is_unit_square(cols, rows, cx, cy, cell);
            crate::triangles::lemma_cell_quad_in_grid(cols, rows, cell);
        }
    }
}

/// What a block covers is what its triangles paint when the block mesh is
/// drawn at the block's world offset.
pub proof fn lemma_block_covers_is_painted(
    grid_size: u32,
    trim: TrimOrientation,
    id: int,
    i: int,
    j: int,
)
    requires
        block_dim(grid_size) >= 1,
        0 <= id < 12,
        -0x100_0000_0000 <= i <= 0x100_0000_0000,
        -0x100_0000_0000 <= j <= 0x100_0000_0000,
    ensures
        block_covers(grid_size, trim, id, i, j) == grid_paints(
            block_dim(grid_size),
            block_dim(grid_size),
            world_offset(grid_size, id, trim).0,
            world_offset(grid_size, id, trim).1,
            i,
            j,
        ),
{
    let n = block_dim(grid_size);
    let m = n - 1;
    let at = world_offset(grid_size, id, trim);
    let t = trim_units(trim);
    let column = slot_column(id);
    let row = slot_row(id);
    let x_edge = at.0 - m;
    let y_edge = at.1 - m;
    assert(x_edge == 2 * (if column == 0 {
        -(1 + 2 * m)
    } else if column == 1 {
        -(1 + m)
    } else if column == 2 {
        1
    } else {
        1 + m
    } + t.0));
    assert(y_edge == 2 * (if row == 0 {
        -(1 + 2 * m)
    } else if row == 1 {
        -(1 + m)
    } else if row == 2 {
        1
    } else {
        1 + m
    } + t.1));
    assert(x_edge % 2 == 0 && y_edge % 2 == 0);
    assert(-0x4_0000_0000 <= at.0 <= 0x4_0000_0000 && -0x4_0000_0000 <= at.1 <= 0x4_0000_0000);
    lemma_grid_paints_its_span(n, n, at.0, at.1, i, j);
}

/// What a fix-up strip covers is what its triangles paint when the fix-up
/// mesh is drawn with the ring's trim shift.
pub proof fn lemma_strip_covers_is_painted(
    grid_size: u32,
    trim: TrimOrientation,
    strip: int,
    i: int,
    j: int,
)
    requires
        block_dim(grid_size) >= 1,
        0 <= strip < 4,
        -0x100_0000_0000 <= i <= 0x100_0000_0000,
        -0x100_0000_0000 <= j <= 0x100_0000_0000,
    ensures
        strip_covers(grid_size, trim, strip, i, j) == grid_paints(
            strip_cols(block_dim(grid_size), strip),
            strip_rows(block_dim(grid_size), strip),
            strip_centre(block_dim(grid_size), strip).0 + 2 * trim_units(trim).0,
            strip_centre(block_dim(grid_size), strip).1 + 2 * trim_units(trim).1,
            i,
            j,
        ),
{
    let n = block_dim(grid_size);
    let m = n - 1;
    let centre = strip_centre(n, strip);
    let t = trim_units(trim);
    let cols = strip_cols(n, strip);
    let rows = strip_rows(n, strip);
    let cx = centre.0 + 2 * t.0;
    let cy = centre.1 + 2 * t.1;
    assert(cx - (cols - 1) == 2 * (if strip == 0 || strip == 3 {
        -1
    } else if strip == 1 {
        -(1 + 2 * m)
    } else {
        1 + m
    } + t.0));
    assert(cy - (rows - 1) == 2 * (if strip == 1 || strip == 2 {
        -1
    } else if strip == 0 {
        -(1 + 2 * m)
    } else {
        1 + m
    } + t.1));
    assert((cx - (cols - 1)) % 2 == 0 && (cy - (rows - 1)) % 2 == 0);
    assert(-0x4_0000_0000 <= cx <= 0x4_0000_0000 && -0x4_0000_0000 <= cy <= 0x4_0000_0000);
    lemma_grid_paints_its_span(cols, rows, cx, cy, i, j);
}

/// One coat of paint if `covered`, none otherwise.
pub open spec fn coat(covered: bool) -> nat {
    if covered { 1 } else { 0 }
}

/// How many of the sixteen pieces of a ring paint cell `(i, j)`.
pub open spec fn coverage(grid_size: u32, trim: TrimOrientation, i: int, j: int) -> nat {
    coat(block_covers(grid_size, trim, 0, i, j)) + coat(block_covers(grid_size, trim, 1, i, j))
        + coat(block_covers(grid_size, trim, 2, i, j)) + coat(
        block_covers(grid_size, trim, 3, i, j),
    ) + coat(block_covers(grid_size, trim, 4, i, j)) + coat(
        block_covers(grid_size, trim, 5, i, j),
    ) + coat(block_covers(grid_size, trim, 6, i, j)) + coat(
        block_covers(grid_size, trim, 7, i, j),
    ) + coat(block_covers(grid_size, trim, 8, i, j)) + coat(
        block_covers(grid_size, trim, 9, i, j),
    ) + coat(block_covers(grid_size, trim, 10, i, j)) + coat(
        block_covers(grid_size, trim, 11, i, j),
    ) + coat(strip_covers(grid_size, trim, 0, i, j)) + coat(
        strip_covers(grid_size, trim, 1, i, j),
    ) + coat(strip_covers(grid_size, trim, 2, i, j)) + coat(
        strip_covers(grid_size, trim, 3, i, j),
    )
}

/// Cell `(i, j)` belongs to the ring's footprint: the square of four blocks
/// and the gap per side, without the middle square of two blocks and the gap
/// per side, both shifted by the trim.
pub open spec fn in_ring(grid_size: u32, trim: TrimOrientation, i: int, j: int) -> bool {
    let m = one_offset(grid_size);
    let t = trim_units(trim);
    let u = i - t.0;
    let v = j - t.1;
    &&& -(1 + 2 * m) <= u < 1 + 2 * m
    &&& -(1 + 2 * m) <= v < 1 + 2 * m
    &&& !(-(1 + m) <= u < 1 + m && -(1 + m) <= v < 1 + m)
}

/// Every cell of the ring's footprint is painted by exactly one of the twelve
/// blocks and four fix-up strips, and no cell outside it is painted at all:
/// the pieces leave no gap and do not overlap.
pub proof fn lemma_ring_is_tiled(grid_size: u32, trim: TrimOrientation, i: int, j: int)
    requires
        block_dim(grid_size) >= 1,
    ensures
        in_ring(grid_size, trim, i, j) ==> coverage(grid_size, trim, i, j) == 1,
        !in_ring(grid_size, trim, i, j) ==> coverage(grid_size, trim, i, j) == 0,
{
}

/// The footprint of a ring is `4 * block_dim - 2` cells wide: one cell less
/// than the grid has vertices per side, when `grid_size + 1` is a multiple of
/// four.
pub proof fn lemma_ring_width(grid_size: u32, trim: TrimOrientation, i: int, j: int)
    requires
        (grid_size + 1) % 4 == 0,
        in_ring(grid_size, trim, i, j),
    ensures
        2 * (i - trim_units(trim).0) + 1 < grid_size,
        -2 * (i - trim_units(trim).0) <= grid_size,
        2 * (j - trim_units(trim).1) + 1 < grid_size,
        -2 * (j - trim_units(trim).1) <= grid_size,
{
}

} // verus!
