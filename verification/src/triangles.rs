//! Triangle lists over the vertex grids of the clipmap meshes.
//!
//! A grid of `cols` by `rows` vertices has `cols - 1` by `rows - 1` cells,
//! numbered row by row like the vertices. Each cell is a quad of four
//! vertices and is drawn as two triangles. Quads and triangles are numbered
//! as genmesh numbers those of a subdivided plane.

use vstd::prelude::*;
use crate::topology::{grid, lemma_row_major};
use crate::units::Point;

verus! {

/// The four corners of cell `cell` of a grid with `cols` vertices per row, as
/// positions in the grid's vertex list: the corner of smallest coordinates
/// first, then around the cell by way of its neighbour along `x`.
pub open spec fn cell_quad(cols: int, cell: int) -> (int, int, int, int) {
    let base = (cell / (cols - 1)) * cols + cell % (cols - 1);
    (base, base + 1, base + cols + 1, base + cols)
}

/// The two triangles of cell `cell`, as six positions in a vertex list in
/// which the grid starts at position `first`.
pub open spec fn cell_triangles(cols: int, first: int, cell: int) -> Seq<usize> {
    let quad = cell_quad(cols, cell);
    seq![
        (first + quad.0) as usize,
        (first + quad.1) as usize,
        (first + quad.2) as usize,
        (first + quad.2) as usize,
        (first + quad.3) as usize,
        (first + quad.0) as usize,
    ]
}

/// The triangles of cells `0` to `cells - 1`, in this order.
pub open spec fn cells_triangles(cols: int, first: int, cells: int) -> Seq<usize>
    decreases cells,
{
    if cells <= 0 {
        Seq::empty()
    } else {
        cells_triangles(cols, first, cells - 1) + cell_triangles(cols, first, cells - 1)
    }
}

/// The triangles of a whole grid of `cols` by `rows` vertices.
pub open spec fn grid_triangles(cols: int, rows: int, first: int) -> Seq<usize> {
    cells_triangles(cols, first, (cols - 1) * (rows - 1))
}

/// The triangles of the block mesh.
pub open spec fn block_triangles(n: int) -> Seq<usize> {
    grid_triangles(n, n, 0)
}

/// The triangles of the ring fix-up mesh, strip by strip; every strip has
/// `3 * n` vertices.
pub open spec fn ring_fixup_triangles(n: int) -> Seq<usize> {
    grid_triangles(3, n, 0) + grid_triangles(n, 3, 3 * n) + grid_triangles(n, 3, 6 * n)
        + grid_triangles(3, n, 9 * n)
}

/// The triangles of the L-shaped trim mesh.
pub open spec fn l_shape_triangles(n: int) -> Seq<usize> {
    grid_triangles(n, 2, 0)
}

/// The corners of a cell are vertices of the grid: their positions stay
/// below `cols * rows`.
pub proof fn lemma_cell_quad_in_grid(cols: int, rows: int, cell: int)
    requires
        2 <= cols,
        2 <= rows,
        0 <= cell < (cols - 1) * (rows - 1),
    ensures
        0 <= cell_quad(cols, cell).0 < cols * rows,
        0 <= cell_quad(cols, cell).1 < cols * rows,
        0 <= cell_quad(cols, cell).2 < cols * rows,
        0 <= cell_quad(cols, cell).3 < cols * rows,
        0 <= cell % (cols - 1) < cols - 1,
        0 <= cell / (cols - 1) < rows - 1,
{
    let w = cols - 1;
    let x = cell % w;
    let y = cell / w;
    vstd::arithmetic::div_mod::lemma_mod_bound(cell, w);
    vstd::arithmetic::div_mod::lemma_fundamental_div_mod(cell, w);
    assert(0 <= y < rows - 1) by (nonlinear_arith)
        requires
            0 <= cell < w * (rows - 1),
            0 < w,
            cell == w * y + x,
            0 <= x < w,
    ;
    assert(y * cols + x + cols + 1 < cols * rows) by (nonlinear_arith)
        requires
            0 <= y < rows - 1,
            0 <= x < cols - 1,
            2 <= cols,
    ;
    assert(0 <= y * cols) by (nonlinear_arith)
        requires
            0 <= y,
            2 <= cols,
    ;
}

/// The four corners of cell `cell` of a grid of `cols` by `rows` vertices.
fn quad_of_cell(cols: usize, rows: usize, cell: usize) -> (quad: (usize, usize, usize, usize))
    requires
        2 <= cols,
        2 <= rows,
        cell < (cols - 1) * (rows - 1),
        cols * rows <= usize::MAX,
    ensures
        quad.0 == cell_quad(cols as int, cell as int).0,
        quad.1 == cell_quad(cols as int, cell as int).1,
        quad.2 == cell_quad(cols as int, cell as int).2,
        quad.3 == cell_quad(cols as int, cell as int).3,
{
    let row: usize = cell / (cols - 1);
    let col: usize = cell % (cols - 1);
    proof {
        lemma_cell_quad_in_grid(cols as int, rows as int, cell as int);
        assert(0 <= row * cols <= row * cols + col) by (nonlinear_arith)
            requires
                0 <= row,
                0 <= col,
                2 <= cols,
        ;
    }
    let base: usize = row * cols + col;
    (base, base + 1, base + cols + 1, base + cols)
}

/// The quad of a cell is a unit square of the grid: its corners are the
/// vertices at `(x, y)`, `(x + 1, y)`, `(x + 1, y + 1)` and `(x, y + 1)` grid
/// units from the grid's first vertex, for the cell in column `x` of row `y`.
pub proof fn lemma_cell_quad_is_unit_square(cols: int, rows: int, cx: int, cy: int, cell: int)
    requires
        2 <= cols <= 0x1_0000_0000,
        2 <= rows <= 0x1_0000_0000,
        -0x4_0000_0000 <= cx <= 0x4_0000_0000,
        -0x4_0000_0000 <= cy <= 0x4_0000_0000,
        0 <= cell < (cols - 1) * (rows - 1),
    ensures
        ({
            let x = cell % (cols - 1);
            let y = cell / (cols - 1);
            let left = cx - (cols - 1) + 2 * x;
            let low = cy - (rows - 1) + 2 * y;
            let quad = cell_quad(cols, cell);
            let vertices = grid(cols, rows, cx, cy);
            &&& vertices[quad.0] == Point { x: left as i64, y: low as i64 }
            &&& vertices[quad.1] == Point { x: (left + 2) as i64, y: low as i64 }
            &&& vertices[quad.2] == Point { x: (left + 2) as i64, y: (low + 2) as i64 }
            &&& vertices[quad.3] == Point { x: left as i64, y: (low + 2) as i64 }
        }),
{
    let x = cell % (cols - 1);
    let y = cell / (cols - 1);
    lemma_cell_quad_in_grid(cols, rows, cell);
    lemma_row_major(cols, y, x);
    lemma_row_major(cols, y, x + 1);
    lemma_row_major(cols, y + 1, x);
    lemma_row_major(cols, y + 1, x + 1);
    assert((y + 1) * cols == y * cols + cols) by (nonlinear_arith);
}

/// Appends the triangles of a grid of `cols` by `rows` vertices whose first
/// vertex stands at position `first` of the mesh's vertex list.
fn append_grid_triangles(out: &mut Vec<usize>, cols: usize, rows: usize, first: usize)
    requires
        1 <= cols,
        1 <= rows,
        first + cols * rows <= usize::MAX,
    ensures
        final(out)@ == old(out)@ + grid_triangles(cols as int, rows as int, first as int),
{
    if cols < 2 || rows < 2 {
        assert((cols - 1) * (rows - 1) == 0) by (nonlinear_arith)
            requires
                cols == 1 || rows == 1,
        ;
        assert(out@ =~= old(out)@ + grid_triangles(cols as int, rows as int, first as int));
        return ;
    }
    let ghost before = out@;
    assert((cols - 1) * (rows - 1) <= cols * rows) by (nonlinear_arith)
        requires
            cols >= 2,
            rows >= 2,
    ;
    let cells: usize = (cols - 1) * (rows - 1);
    let mut cell: usize = 0;
    while cell < cells
        invariant
            2 <= cols,
            2 <= rows,
            cells == (cols - 1) * (rows - 1),
            cell <= cells,
            first + cols * rows <= usize::MAX,
            out@ == before + cells_triangles(cols as int, first as int, cell as int),
        decreases cells - cell,
    {
        proof {
            lemma_cell_quad_in_grid(cols as int, rows as int, cell as int);
        }
        let quad = quad_of_cell(cols, rows, cell);
        out.push(first + quad.0);
        out.push(first + quad.1);
        out.push(first + quad.2);
        out.push(first + quad.2);
        out.push(first + quad.3);
        out.push(first + quad.0);
        assert(out@ =~= before + cells_triangles(cols as int, first as int, cell + 1));
        cell = cell + 1;
    }
}

/// Lists the triangles of the block mesh for blocks of `block_dim` vertices
/// per side, as positions in the mesh's vertex list, three per triangle.
pub fn generate_block_triangles(block_dim: u32) -> (triangles: Vec<usize>)
    requires
        1 <= block_dim,
        block_dim * block_dim <= usize::MAX,
    ensures
        triangles@ == block_triangles(block_dim as int),
{
    let n: usize = block_dim as usize;
    let mut triangles: Vec<usize> = Vec::new();
    append_grid_triangles(&mut triangles, n, n, 0);
    triangles
}

/// Lists the triangles of the ring fix-up mesh for blocks of `block_dim`
/// vertices per side.
pub fn generate_ring_fixup_triangles(block_dim: u32) -> (triangles: Vec<usize>)
    requires
        1 <= block_dim,
        12 * block_dim <= usize::MAX,
    ensures
        triangles@ == ring_fixup_triangles(block_dim as int),
{
    let n: usize = block_dim as usize;
    let mut triangles: Vec<usize> = Vec::new();
    append_grid_triangles(&mut triangles, 3, n, 0);
    append_grid_triangles(&mut triangles, n, 3, 3 * n);
    append_grid_triangles(&mut triangles, n, 3, 6 * n);
    append_grid_triangles(&mut triangles, 3, n, 9 * n);
    triangles
}

/// Lists the triangles of the L-shaped trim mesh for blocks of `block_dim`
/// vertices per side.
pub fn generate_l_shape_triangles(block_dim: u32) -> (triangles: Vec<usize>)
    requires
        1 <= block_dim,
        2 * block_dim <= usize::MAX,
    ensures
        triangles@ == l_shape_triangles(block_dim as int),
{
    let mut triangles: Vec<usize> = Vec::new();
    append_grid_triangles(&mut triangles, block_dim as usize, 2, 0);
    triangles
}

} // verus!
