//! Where each of the twelve blocks of a ring goes.
//!
//! A ring is a four by four arrangement of blocks without its middle two by
//! two. Neighbouring blocks share their border vertices, and a gap two grid
//! units wide runs through the middle of each axis. Slots are numbered row by
//! row, from the row with the smallest `y` and within a row from the smallest
//! `x`.

use vstd::prelude::*;
use crate::units::Point;

verus! {

/// Number of block slots in one ring.
pub const BLOCKS_PER_RING: u32 = 12;

/// Which corner of the next coarser ring this ring is pushed into.
#[derive(Clone, Copy, Debug, PartialEq, Eq, Structural)]
pub enum TrimOrientation {
    NorthEast,
    NorthWest,
    SouthEast,
    SouthWest,
    /// The ring sits centred; nothing is shifted.
    Centered,
}

/// World-space centre and texture-space origin of one block, in half units.
#[derive(Clone, Copy, Debug, PartialEq, Eq, Structural)]
pub struct BlockPlacement {
    pub world: Point,
    pub texture: Point,
}

/// Vertices along one side of a block: a quarter of `grid_size + 1`.
pub open spec fn block_dim(grid_size: u32) -> int {
    (grid_size as int + 1) / 4
}

/// Width of a block in grid units, `block_dim - 1`. The same number is half a
/// block's width counted in half units.
pub open spec fn one_offset(grid_size: u32) -> int {
    block_dim(grid_size) - 1
}

/// The shift, in whole grid units, that a trim orientation applies to
/// everything drawn for a ring.
pub open spec fn trim_units(trim: TrimOrientation) -> (int, int) {
    match trim {
        TrimOrientation::NorthEast => (1, 1),
        TrimOrientation::NorthWest => (0, 2),
        TrimOrientation::SouthEast => (-2, 0),
        TrimOrientation::SouthWest => (-1, -1),
        TrimOrientation::Centered => (0, 0),
    }
}

/// Column (0 to 3) of a slot in the four by four arrangement.
pub open spec fn slot_column(id: int) -> int {
    if id < 4 {
        id
    } else if id < 8 {
        if id % 2 == 0 { 0 } else { 3 }
    } else {
        id - 8
    }
}

/// Row (0 to 3) of a slot in the four by four arrangement.
pub open spec fn slot_row(id: int) -> int {
    if id < 4 {
        0
    } else if id < 6 {
        1
    } else if id < 8 {
        2
    } else {
        3
    }
}

/// Centre of the blocks in column (or row) `lane`, in half units, for blocks
/// `m` grid units wide: `-(1 + m/2 + m)`, `-(1 + m/2)`, `1 + m/2`,
/// `1 + m/2 + m` grid units.
pub open spec fn world_axis(m: int, lane: int) -> int {
    if lane == 0 {
        -(2 + 3 * m)
    } else if lane == 1 {
        -(2 + m)
    } else if lane == 2 {
        2 + m
    } else {
        2 + 3 * m
    }
}

/// Texture origin of the blocks in column (or row) `lane`, in half units. The
/// two far lanes mirror the two near ones at the texture's far edge.
/// `trim` is the trim shift along this axis in grid units.
pub open spec fn texture_axis(m: int, texture_size: int, trim: int, lane: int) -> int {
    if lane == 0 {
        m + 2 * trim + 2
    } else if lane == 1 {
        3 * m + 2 * trim + 2
    } else if lane == 2 {
        2 * texture_size - (3 * m + 2 * trim + 2)
    } else {
        2 * texture_size - (m + 2 * trim + 2)
    }
}

/// World-space centre of block `id`, in half units, trim shift included.
pub open spec fn world_offset(grid_size: u32, id: int, trim: TrimOrientation) -> (int, int) {
    let m = one_offset(grid_size);
    let t = trim_units(trim);
    (world_axis(m, slot_column(id)) + 2 * t.0, world_axis(m, slot_row(id)) + 2 * t.1)
}

/// Texture-space origin of block `id`, in half units.
pub open spec fn texture_offset(
    grid_size: u32,
    texture_size: u32,
    id: int,
    trim: TrimOrientation,
) -> (int, int) {
    let m = one_offset(grid_size);
    let t = trim_units(trim);
    (
        texture_axis(m, texture_size as int, t.0, slot_column(id)),
        texture_axis(m, texture_size as int, t.1, slot_row(id)),
    )
}

/// The trim shift of `trim` in whole grid units.
pub fn trim_offset(trim: TrimOrientation) -> (shift: (i64, i64))
    ensures
        shift.0 == trim_units(trim).0,
        shift.1 == trim_units(trim).1,
{
    match trim {
        TrimOrientation::NorthEast => (1, 1),
        TrimOrientation::NorthWest => (0, 2),
        TrimOrientation::SouthEast => (-2, 0),
        TrimOrientation::SouthWest => (-1, -1),
        TrimOrientation::Centered => (0, 0),
    }
}

fn lane_of_column(id: u32) -> (lane: u32)
    requires
        id < BLOCKS_PER_RING,
    ensures
        lane == slot_column(id as int),
{
    if id < 4 {
        id
    } else if id < 8 {
        if id % 2 == 0 { 0 } else { 3 }
    } else {
        id - 8
    }
}

fn lane_of_row(id: u32) -> (lane: u32)
    requires
        id < BLOCKS_PER_RING,
    ensures
        lane == slot_row(id as int),
{
    if id < 4 {
        0
    } else if id < 6 {
        1
    } else if id < 8 {
        2
    } else {
        3
    }
}

fn world_lane(m: i64, lane: u32) -> (centre: i64)
    requires
        -1 <= m <= 0x4000_0000,
    ensures
        centre == world_axis(m as int, lane as int),
{
    if lane == 0 {
        -(2 + 3 * m)
    } else if lane == 1 {
        -(2 + m)
    } else if lane == 2 {
        2 + m
    } else {
        2 + 3 * m
    }
}

fn texture_lane(m: i64, texture_size: u32, trim: i64, lane: u32) -> (origin: i64)
    requires
        -1 <= m <= 0x4000_0000,
        -2 <= trim <= 2,
    ensures
        origin == texture_axis(m as int, texture_size as int, trim as int, lane as int),
{
    let t: i64 = texture_size as i64;
    if lane == 0 {
        m + 2 * trim + 2
    } else if lane == 1 {
        3 * m + 2 * trim + 2
    } else if lane == 2 {
        2 * t - (3 * m + 2 * trim + 2)
    } else {
        2 * t - (m + 2 * trim + 2)
    }
}

/// Places block `id` of a ring whose grid has `grid_size` vertices per side
/// and whose texture is `texture_size` texels wide.
///
/// Slot ids are fixed by the layout, never data: an id of twelve or more is a
/// caller's mistake.
pub fn block_offset(
    grid_size: u32,
    texture_size: u32,
    id: u32,
    trim: TrimOrientation,
) -> (placement: BlockPlacement)
    requires
        id < BLOCKS_PER_RING,
    ensures
        placement.world.x == world_offset(grid_size, id as int, trim).0,
        placement.world.y == world_offset(grid_size, id as int, trim).1,
        placement.texture.x == texture_offset(grid_size, texture_size, id as int, trim).0,
        placement.texture.y == texture_offset(grid_size, texture_size, id as int, trim).1,
{
    let m: i64 = (grid_size as i64 + 1) / 4 - 1;
    let shift = trim_offset(trim);
    let column = lane_of_column(id);
    let row = lane_of_row(id);
    BlockPlacement {
        world: Point {
            x: world_lane(m, column) + 2 * shift.0,
            y: world_lane(m, row) + 2 * shift.1,
        },
        texture: Point {
            x: texture_lane(m, texture_size, shift.0, column),
            y: texture_lane(m, texture_size, shift.1, row),
        },
    }
}

/// No two of the twelve slots of a ring share a centre, as soon as a block has
/// at least two vertices per side.
pub proof fn lemma_world_offsets_distinct(grid_size: u32, trim: TrimOrientation, a: int, b: int)
    requires
        block_dim(grid_size) >= 2,
        0 <= a < 12,
        0 <= b < 12,
        a != b,
    ensures
        world_offset(grid_size, a, trim) != world_offset(grid_size, b, trim),
{
}

/// Every texture origin lies inside the texture on both axes, between 0 and
/// `texture_size` texels (twice that in half units), when the texture is at
/// least four blocks wide. The one exception is left out: a south-east trim
/// on blocks of fewer than three vertices per side, whose near column starts
/// left of the texture.
pub proof fn lemma_texture_offsets_in_range(
    grid_size: u32,
    texture_size: u32,
    trim: TrimOrientation,
    id: int,
)
    requires
        block_dim(grid_size) >= 1,
        texture_size >= 4 * block_dim(grid_size),
        trim == TrimOrientation::SouthEast ==> block_dim(grid_size) >= 3,
        0 <= id < 12,
    ensures
        0 <= texture_offset(grid_size, texture_size, id, trim).0 <= 2 * texture_size,
        0 <= texture_offset(grid_size, texture_size, id, trim).1 <= 2 * texture_size,
{
}

} // verus!
