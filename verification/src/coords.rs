//! Grid and world coordinates.

use crate::math::Fixed;
use vstd::prelude::*;

verus! {

/// Logical tile position on the isometric grid.
#[derive(Debug, Clone, Copy, PartialEq, Eq, Hash, Structural)]
pub struct GridPos {
    pub x: i32,
    pub y: i32,
}

impl GridPos {
    /// The tile at column `x`, row `y`.
    pub fn new(x: i32, y: i32) -> (p: GridPos)
        ensures
            p.x == x,
            p.y == y,
    {
        GridPos { x, y }
    }
}

/// Sub-tile world position used in the deterministic simulation.
#[derive(Debug, Clone, Copy, PartialEq, Eq, Structural)]
pub struct WorldPos {
    pub x: Fixed,
    pub y: Fixed,
}

impl WorldPos {
    /// The position (x, y).
    pub fn new(x: Fixed, y: Fixed) -> (w: WorldPos)
        ensures
            w.x == x,
            w.y == y,
    {
        WorldPos { x, y }
    }

    /// The origin.
    pub fn zero() -> (w: WorldPos)
        ensures
            w.x.bits == 0,
            w.y.bits == 0,
    {
        WorldPos { x: Fixed::zero(), y: Fixed::zero() }
    }

    /// The world position of a tile's corner.
    pub fn from_grid(grid: GridPos) -> (w: WorldPos)
        requires
            -32768 <= grid.x <= 32767,
            -32768 <= grid.y <= 32767,
        ensures
            w.x.bits == grid.x * 65536,
            w.y.bits == grid.y * 65536,
    {
        WorldPos { x: Fixed::from_int(grid.x), y: Fixed::from_int(grid.y) }
    }

    /// The tile that contains this position; coordinates round toward
    /// negative infinity, so -0.5 lies in tile -1.
    pub fn to_grid(self) -> (g: GridPos)
        ensures
            g.x as int == self.x.bits as int / 65536,
            g.y as int == self.y.bits as int / 65536,
    {
        GridPos { x: self.x.floor_to_int(), y: self.y.floor_to_int() }
    }

    /// Squared distance to `other` (avoids a square root for comparisons).
    pub fn distance_squared(self, other: WorldPos) -> (d: Fixed)
        requires
            i32::MIN <= self.x.bits - other.x.bits <= i32::MAX,
            i32::MIN <= self.y.bits - other.y.bits <= i32::MAX,
            distance_squared_fits(self, other),
        ensures
            d.bits as int == distance_squared_bits(self, other),
    {
        let dx = self.x.sub(other.x);
        let dy = self.y.sub(other.y);
        let dx2 = dx.mul(dx);
        let dy2 = dy.mul(dy);
        assert(dx.bits * dx.bits >= 0) by (nonlinear_arith);
        assert(dy.bits * dy.bits >= 0) by (nonlinear_arith);
        dx2.add(dy2)
    }
}

/// Raw bits of `dx * dx + dy * dy` in 16.16 fixed point (each product rounds down).
pub open spec fn distance_squared_bits(a: WorldPos, b: WorldPos) -> int {
    let dx = a.x.bits - b.x.bits;
    let dy = a.y.bits - b.y.bits;
    (dx * dx) / 65536 + (dy * dy) / 65536
}

/// Whether the squared distance between `a` and `b` can be computed without
/// overflowing the fixed-point format.
pub open spec fn distance_squared_fits(a: WorldPos, b: WorldPos) -> bool {
    let dx = a.x.bits - b.x.bits;
    let dy = a.y.bits - b.y.bits;
    &&& crate::math::mul_fits(dx, dx)
    &&& crate::math::mul_fits(dy, dy)
    &&& (dx * dx) / 65536 + (dy * dy) / 65536 <= i32::MAX
}

/// Converting a tile to world space and back gives the same tile.
pub proof fn lemma_grid_world_round_trip(g: GridPos)
    requires
        -32768 <= g.x <= 32767,
        -32768 <= g.y <= 32767,
    ensures
        (g.x * 65536) / 65536 == g.x,
        (g.y * 65536) / 65536 == g.y,
{
}

} // verus!
