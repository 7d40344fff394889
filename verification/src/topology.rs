//! Vertex lists of the three meshes that every ring reuses: the block, the
//! ring fix-up and the L-shaped trim.
//!
//! The meshes are centred on the origin and carry no placement: a block is
//! moved and scaled per draw. Vertices are listed row by row, from the row
//! with the smallest `y` and within a row from the smallest `x`.

use vstd::prelude::*;
use crate::units::Point;

verus! {

/// Vertex `k` of a grid of `cols` columns at unit spacing, centred on
/// `(cx, cy)` (half units).
pub open spec fn grid_vertex(cols: int, rows: int, cx: int, cy: int, k: int) -> Point {
    Point {
        x: (cx + 2 * (k % cols) - (cols - 1)) as i64,
        y: (cy + 2 * (k / cols) - (rows - 1)) as i64,
    }
}

/// A grid of `cols` by `rows` vertices at unit spacing, centred on `(cx, cy)`.
pub open spec fn grid(cols: int, rows: int, cx: int, cy: int) -> Seq<Point> {
    Seq::new((cols * rows) as nat, |k: int| grid_vertex(cols, rows, cx, cy, k))
}

/// The block mesh: `n` by `n` vertices at unit spacing around the origin, so
/// that every coordinate lies within `n / 2` grid units of it.
pub open spec fn block_vertices(n: int) -> Seq<Point> {
    grid(n, n, 0, 0)
}

/// Distance of a fix-up strip's centre from the origin, in half units:
/// `1 + (n - 1) / 2 + (n - 1)` grid units.
pub open spec fn ring_fixup_offset(n: int) -> int {
    2 + 3 * (n - 1)
}

/// Centre of fix-up strip `strip` (0 north, 1 west, 2 east, 3 south), in half
/// units. North is the side of smaller `y`, west the side of smaller `x`.
pub open spec fn strip_centre(n: int, strip: int) -> (int, int) {
    if strip == 0 {
        (0, -ring_fixup_offset(n))
    } else if strip == 1 {
        (-ring_fixup_offset(n), 0)
    } else if strip == 2 {
        (ring_fixup_offset(n), 0)
    } else {
        (0, ring_fixup_offset(n))
    }
}

/// Vertices per row of fix-up strip `strip`: three across the gap for the
/// north and south strips, `n` along the gap for the west and east ones.
pub open spec fn strip_cols(n: int, strip: int) -> int {
    if strip == 0 || strip == 3 { 3 } else { n }
}

/// Rows of fix-up strip `strip`.
pub open spec fn strip_rows(n: int, strip: int) -> int {
    if strip == 0 || strip == 3 { n } else { 3 }
}

/// One fix-up strip: two grid units across, `n - 1` along.
pub open spec fn strip_vertices(n: int, strip: int) -> Seq<Point> {
    grid(
        strip_cols(n, strip),
        strip_rows(n, strip),
        strip_centre(n, strip).0,
        strip_centre(n, strip).1,
    )
}

/// The ring fix-up mesh: the north, west, east and south strips in one list.
pub open spec fn ring_fixup_vertices(n: int) -> Seq<Point> {
    strip_vertices(n, 0) + strip_vertices(n, 1) + strip_vertices(n, 2) + strip_vertices(n, 3)
}

/// The L-shaped trim mesh: two rows of `n` vertices, one grid unit to either
/// side of the `x` axis.
pub open spec fn l_shape_vertices(n: int) -> Seq<Point> {
    Seq::new(
        (2 * n) as nat,
        |k: int| Point { x: (2 * (k % n) - (n - 1)) as i64, y: if k < n { -2i64 } else { 2i64 } },
    )
}

/// Appends to `out` a grid of `cols` by `rows` vertices centred on `(cx, cy)`.
fn append_grid(out: &mut Vec<Point>, cols: u32, rows: u32, cx: i64, cy: i64)
    requires
        1 <= cols,
        1 <= rows,
        -0x4_0000_0000 <= cx <= 0x4_0000_0000,
        -0x4_0000_0000 <= cy <= 0x4_0000_0000,
    ensures
        final(out)@ == old(out)@ + grid(cols as int, rows as int, cx as int, cy as int),
{
    let ghost before = out@;
    let ghost c = cols as int;
    let ghost r = rows as int;
    let mut row: u32 = 0;
    while row < rows
        invariant
            1 <= cols,
            1 <= rows,
            -0x4_0000_0000 <= cx <= 0x4_0000_0000,
            -0x4_0000_0000 <= cy <= 0x4_0000_0000,
            c == cols,
            r == rows,
            row <= rows,
            out@.len() == before.len() + row * c,
            out@.subrange(0, before.len() as int) == before,
            forall|k: int|
                0 <= k < row * c ==> out@[before.len() + k] == grid_vertex(
                    c,
                    r,
                    cx as int,
                    cy as int,
                    k,
                ),
        decreases rows - row,
    {
        let y: i64 = cy + 2 * (row as i64) - (rows as i64 - 1);
        let mut col: u32 = 0;
        while col < cols
            invariant
                1 <= cols,
                1 <= rows,
                -0x4_0000_0000 <= cx <= 0x4_0000_0000,
                c == cols,
                r == rows,
                row < rows,
                col <= cols,
                y == cy + 2 * row - (r - 1),
                out@.len() == before.len() + row * c + col,
                out@.subrange(0, before.len() as int) == before,
                forall|k: int|
                    0 <= k < row * c + col ==> out@[before.len() + k] == grid_vertex(
                        c,
                        r,
                        cx as int,
                        cy as int,
                        k,
                    ),
            decreases cols - col,
        {
            let x: i64 = cx + 2 * (col as i64) - (cols as i64 - 1);
            let ghost prev = out@;
            out.push(Point { x, y });
            proof {
                let k = row * c + col;
                lemma_row_major(c, row as int, col as int);
                assert(out@[before.len() + k] == grid_vertex(c, r, cx as int, cy as int, k));
                assert(out@.subrange(0, before.len() as int) =~= prev.subrange(
                    0,
                    before.len() as int,
                ));
                assert forall|q: int| 0 <= q < row * c + col + 1 implies out@[before.len() + q]
                    == grid_vertex(c, r, cx as int, cy as int, q) by {
                    if q < k {
                        assert(out@[before.len() + q] == prev[before.len() + q]);
                    }
                }
            }
            col = col + 1;
        }
        proof {
            assert(row * c + c == (row + 1) * c) by (nonlinear_arith);
        }
        row = row + 1;
    }
    proof {
        assert(row * c == c * r) by (nonlinear_arith)
            requires
                row == r,
        ;
        assert(out@ =~= before + grid(c, r, cx as int, cy as int));
    }
}

/// Index `row * cols + col` of a row-major grid splits back into its row and
/// column.
pub proof fn lemma_row_major(cols: int, row: int, col: int)
    requires
        0 < cols,
        0 <= row,
        0 <= col < cols,
    ensures
        (row * cols + col) % cols == col,
        (row * cols + col) / cols == row,
{
    vstd::arithmetic::div_mod::lemma_fundamental_div_mod_converse(
        row * cols + col,
        cols,
        row,
        col,
    );
}

/// Generates the block mesh for blocks of `block_dim` vertices per side.
pub fn generate_block(block_dim: u32) -> (mesh: Vec<Point>)
    requires
        1 <= block_dim,
    ensures
        mesh@ == block_vertices(block_dim as int),
{
    let mut mesh: Vec<Point> = Vec::new();
    append_grid(&mut mesh, block_dim, block_dim, 0, 0);
    mesh
}

/// Generates the ring fix-up mesh for blocks of `block_dim` vertices per
/// side: four strips that fill the gaps between the blocks of a ring, in one
/// list so that one draw covers them all.
pub fn generate_ring_fixup(block_dim: u32) -> (mesh: Vec<Point>)
    requires
        1 <= block_dim,
    ensures
        mesh@ == ring_fixup_vertices(block_dim as int),
{
    let offset: i64 = 2 + 3 * (block_dim as i64 - 1);
    let mut mesh: Vec<Point> = Vec::new();
    append_grid(&mut mesh, 3, block_dim, 0, -offset);
    append_grid(&mut mesh, block_dim, 3, -offset, 0);
    append_grid(&mut mesh, block_dim, 3, offset, 0);
    append_grid(&mut mesh, 3, block_dim, 0, offset);
    mesh
}

/// Generates the L-shaped trim mesh for blocks of `block_dim` vertices per
/// side.
pub fn generate_l_shape(block_dim: u32) -> (mesh: Vec<Point>)
    requires
        1 <= block_dim,
    ensures
        mesh@ == l_shape_vertices(block_dim as int),
{
    let mut mesh: Vec<Point> = Vec::new();
    let mut k: u32 = 0;
    let n: u32 = block_dim;
    while k < n
        invariant
            1 <= n,
            k <= n,
            mesh@.len() == k,
            forall|q: int| 0 <= q < k ==> mesh@[q] == l_shape_vertices(n as int)[q],
        decreases n - k,
    {
        proof {
            vstd::arithmetic::div_mod::lemma_small_mod(k as nat, n as nat);
        }
        mesh.push(Point { x: 2 * (k as i64) - (n as i64 - 1), y: -2 });
        k = k + 1;
    }
    let mut j: u32 = 0;
    while j < n
        invariant
            1 <= n,
            j <= n,
            mesh@.len() == n + j,
            forall|q: int| 0 <= q < n + j ==> mesh@[q] == l_shape_vertices(n as int)[q],
        decreases n - j,
    {
        proof {
            lemma_row_major(n as int, 1, j as int);
        }
        mesh.push(Point { x: 2 * (j as i64) - (n as i64 - 1), y: 2 });
        j = j + 1;
    }
    assert(mesh@ =~= l_shape_vertices(n as int));
    mesh
}

/// A grid reaches `cols - 1` half units to either side of its centre along
/// `x` and `rows - 1` along `y`: every vertex lies within these bounds, the
/// first vertex is the corner of smallest coordinates and the last vertex the
/// corner of largest ones.
pub proof fn lemma_grid_extent(cols: int, rows: int, cx: int, cy: int, k: int)
    requires
        1 <= cols <= 0x1_0000_0000,
        1 <= rows <= 0x1_0000_0000,
        -0x4_0000_0000 <= cx <= 0x4_0000_0000,
        -0x4_0000_0000 <= cy <= 0x4_0000_0000,
        0 <= k < cols * rows,
    ensures
        grid(cols, rows, cx, cy).len() == cols * rows,
        cx - (cols - 1) <= grid(cols, rows, cx, cy)[k].x <= cx + (cols - 1),
        cy - (rows - 1) <= grid(cols, rows, cx, cy)[k].y <= cy + (rows - 1),
        grid(cols, rows, cx, cy)[0] == (Point {
            x: (cx - (cols - 1)) as i64,
            y: (cy - (rows - 1)) as i64,
        }),
        grid(cols, rows, cx, cy)[cols * rows - 1] == (Point {
            x: (cx + (cols - 1)) as i64,
            y: (cy + (rows - 1)) as i64,
        }),
{
    vstd::arithmetic::div_mod::lemma_mod_bound(k, cols);
    vstd::arithmetic::div_mod::lemma_fundamental_div_mod(k, cols);
    assert(0 <= k / cols < rows) by (nonlinear_arith)
        requires
            0 <= k < cols * rows,
            0 < cols,
            k == cols * (k / cols) + k % cols,
            0 <= k % cols < cols,
    ;
    lemma_row_major(cols, 0, 0);
    lemma_row_major(cols, rows - 1, cols - 1);
    assert((rows - 1) * cols + (cols - 1) == cols * rows - 1) by (nonlinear_arith);
}

/// Every vertex of the block mesh lies within `(n - 1) / 2` grid units of the
/// origin on both axes, and so within `n / 2`; the mesh has `n * n` vertices.
pub proof fn lemma_block_extent(n: int, k: int)
    requires
        1 <= n <= 0x1_0000_0000,
        0 <= k < n * n,
    ensures
        block_vertices(n).len() == n * n,
        -(n - 1) <= block_vertices(n)[k].x <= n - 1,
        -(n - 1) <= block_vertices(n)[k].y <= n - 1,
{
    lemma_grid_extent(n, n, 0, 0, k);
}

/// Each generator's result is a function of the block dimension alone: two
/// meshes generated for the same dimension are equal vertex for vertex.
pub proof fn lemma_generators_deterministic(
    n: int,
    block_a: Seq<Point>,
    block_b: Seq<Point>,
    fixup_a: Seq<Point>,
    fixup_b: Seq<Point>,
    l_a: Seq<Point>,
    l_b: Seq<Point>,
)
    requires
        block_a == block_vertices(n),
        block_b == block_vertices(n),
        fixup_a == ring_fixup_vertices(n),
        fixup_b == ring_fixup_vertices(n),
        l_a == l_shape_vertices(n),
        l_b == l_shape_vertices(n),
    ensures
        block_a == block_b,
        fixup_a == fixup_b,
        l_a == l_b,
{
}

} // verus!
