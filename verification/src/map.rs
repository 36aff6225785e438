//! The game map: a rectangular grid of tiles.

use crate::coords::GridPos;
use crate::terrain::{spec_passable_for_faction, FactionId, TerrainType, FLAG_TEMP_BLOCKED};
use vstd::prelude::*;

verus! {

/// Per-tile data.
#[derive(Debug, Clone, Copy, PartialEq, Eq, Structural)]
pub struct TileData {
    /// Ground type of the tile.
    pub terrain: TerrainType,
    /// Elevation level (0..=2).
    pub elevation: u8,
    /// Bit set of dynamic terrain flags (`FLAG_*` in the terrain module).
    pub dynamic_flags: u8,
    /// Manual passability switch; a tile is walkable only while this is set.
    pub passable: bool,
}

impl TileData {
    /// A fresh tile: Grass at elevation 0, no flags, passable.
    pub open spec fn spec_default() -> TileData {
        TileData { terrain: TerrainType::Grass, elevation: 0, dynamic_flags: 0, passable: true }
    }

    /// Whether a unit of the default (land) faction may stand on this tile.
    pub open spec fn spec_walkable(self) -> bool {
        self.passable && self.terrain.spec_base_passable() && self.dynamic_flags & FLAG_TEMP_BLOCKED == 0
    }

    /// Whether a unit of `faction` may stand on this tile.
    pub open spec fn spec_walkable_for(self, faction: FactionId) -> bool {
        self.passable && spec_passable_for_faction(self.terrain, faction)
            && self.dynamic_flags & FLAG_TEMP_BLOCKED == 0
    }

    /// Whether a unit may stand on this tile.
    pub fn walkable(&self) -> (b: bool)
        ensures
            b == self.spec_walkable(),
    {
        self.passable && self.terrain.base_passable() && self.dynamic_flags & FLAG_TEMP_BLOCKED == 0
    }

    /// Whether a unit of `faction` may stand on this tile.
    pub fn walkable_for(&self, faction: FactionId) -> (b: bool)
        ensures
            b == self.spec_walkable_for(faction),
    {
        self.passable && crate::terrain::is_passable_for_faction(self.terrain, faction)
            && self.dynamic_flags & FLAG_TEMP_BLOCKED == 0
    }
}

impl Default for TileData {
    fn default() -> (t: TileData)
        ensures
            t == TileData::spec_default(),
    {
        TileData { terrain: TerrainType::Grass, elevation: 0, dynamic_flags: 0, passable: true }
    }
}

/// The game map: a rectangular grid of tiles stored row by row.
#[derive(Debug, Clone)]
pub struct GameMap {
    pub width: u32,
    pub height: u32,
    /// Tiles in row-major order; `wf` asks for exactly `width * height` of them.
    pub tiles: Vec<TileData>,
}

/// Whether `(x, y)` lies inside a `w` by `h` grid.
pub open spec fn spec_in_grid(w: int, h: int, x: int, y: int) -> bool {
    0 <= x < w && 0 <= y < h
}

/// Row-major index of `(x, y)` in a grid `w` tiles wide.
pub open spec fn grid_index(w: int, x: int, y: int) -> int {
    y * w + x
}

/// A cell inside a `w` by `h` grid has a row-major index inside `0..w*h`, and
/// distinct cells have distinct indices.
pub proof fn lemma_grid_index_bounds(w: int, h: int, x: int, y: int)
    requires
        spec_in_grid(w, h, x, y),
    ensures
        0 <= grid_index(w, x, y) < w * h,
        grid_index(w, x, y) / w == y,
        grid_index(w, x, y) % w == x,
{
    assert(0 <= y * w) by (nonlinear_arith)
        requires
            0 <= y,
            0 < w,
    ;
    assert(y * w + x < w * h) by (nonlinear_arith)
        requires
            0 <= x < w,
            0 <= y < h,
    ;
    vstd::arithmetic::div_mod::lemma_fundamental_div_mod_converse(y * w + x, w, y, x);
}

/// The cell whose row-major index is `i` lies inside the grid.
pub proof fn lemma_index_to_cell(w: int, h: int, i: int)
    requires
        0 < w,
        0 <= i < w * h,
    ensures
        spec_in_grid(w, h, i % w, i / w),
        grid_index(w, i % w, i / w) == i,
{
    vstd::arithmetic::div_mod::lemma_fundamental_div_mod(i, w);
    assert(w * (i / w) == (i / w) * w) by (nonlinear_arith);
    assert(i / w < h) by (nonlinear_arith)
        requires
            0 < w,
            0 <= i < w * h,
    {
        vstd::arithmetic::div_mod::lemma_div_is_ordered(i, w * h - 1, w);
        vstd::arithmetic::div_mod::lemma_fundamental_div_mod(w * h - 1, w);
        vstd::arithmetic::div_mod::lemma_div_multiples_vanish_fancy(h - 1, w - 1, w);
    }
    assert(0 <= i / w) by (nonlinear_arith)
        requires
            0 < w,
            0 <= i,
    ;
}

impl GameMap {
    /// The tiles in row-major order.
    pub open spec fn tiles_view(self) -> Seq<TileData> {
        self.tiles@
    }

    /// The tile vector holds exactly one tile per cell.
    pub open spec fn wf(self) -> bool {
        &&& self.tiles_view().len() == self.width * self.height
        &&& self.width * self.height <= u32::MAX
    }

    /// Whether `pos` lies on the map.
    pub open spec fn spec_in_bounds(self, pos: GridPos) -> bool {
        spec_in_grid(self.width as int, self.height as int, pos.x as int, pos.y as int)
    }

    /// Row-major index of `pos`.
    pub open spec fn spec_index(self, pos: GridPos) -> int {
        grid_index(self.width as int, pos.x as int, pos.y as int)
    }

    /// The tile at `pos` (meaningful only when `pos` is in bounds).
    pub open spec fn tile(self, pos: GridPos) -> TileData {
        self.tiles_view()[self.spec_index(pos)]
    }

    /// Whether `pos` is on the map and walkable.
    pub open spec fn spec_is_passable(self, pos: GridPos) -> bool {
        self.spec_in_bounds(pos) && self.tile(pos).spec_walkable()
    }

    /// Whether `pos` is on the map and walkable for `faction`.
    pub open spec fn spec_is_passable_for(self, pos: GridPos, faction: FactionId) -> bool {
        self.spec_in_bounds(pos) && self.tile(pos).spec_walkable_for(faction)
    }

    /// Terrain at `pos`, `None` off the map.
    pub open spec fn spec_terrain_at(self, pos: GridPos) -> Option<TerrainType> {
        if self.spec_in_bounds(pos) { Some(self.tile(pos).terrain) } else { None }
    }

    /// Elevation at `pos`, 0 off the map.
    pub open spec fn spec_elevation_at(self, pos: GridPos) -> u8 {
        if self.spec_in_bounds(pos) { self.tile(pos).elevation } else { 0 }
    }

    /// Create a map filled with default (passable Grass) tiles.
    pub fn new(width: u32, height: u32) -> (m: GameMap)
        requires
            width * height <= u32::MAX,
        ensures
            m.wf(),
            m.width == width,
            m.height == height,
            forall|i: int| 0 <= i < m.tiles_view().len() ==> m.tiles_view()[i] == TileData::spec_default(),
    {
        let n: u32 = width * height;
        let mut tiles: Vec<TileData> = Vec::new();
        let mut i: u32 = 0;
        while i < n
            invariant
                i <= n,
                tiles@.len() == i,
                forall|j: int| 0 <= j < i ==> tiles@[j] == TileData::spec_default(),
            decreases n - i,
        {
            tiles.push(TileData::default());
            i = i + 1;
        }
        GameMap { width, height, tiles }
    }

    /// Row-major index of `pos`, `None` off the map.
    fn index(&self, pos: GridPos) -> (r: Option<usize>)
        requires
            self.wf(),
        ensures
            r is Some <==> self.spec_in_bounds(pos),
            r matches Some(i) ==> i == self.spec_index(pos) && i < self.tiles_view().len(),
    {
        if pos.x >= 0 && pos.y >= 0 && (pos.x as u32) < self.width && (pos.y as u32) < self.height {
            proof {
                lemma_grid_index_bounds(self.width as int, self.height as int, pos.x as int, pos.y as int);
            }
            Some((pos.y as u32 * self.width + pos.x as u32) as usize)
        } else {
            None
        }
    }

    /// The tile at `pos`, `None` off the map.
    pub fn get(&self, pos: GridPos) -> (r: Option<&TileData>)
        requires
            self.wf(),
        ensures
            r is Some <==> self.spec_in_bounds(pos),
            r matches Some(t) ==> *t == self.tile(pos),
    {
        match self.index(pos) {
            Some(i) => Some(&self.tiles[i]),
            None => None,
        }
    }

    /// Mutable access to the tile at `pos`, `None` off the map. Writing through
    /// the reference changes that tile and nothing else.
    pub fn get_mut(&mut self, pos: GridPos) -> (r: Option<&mut TileData>)
        requires
            old(self).wf(),
        ensures
            r is Some <==> old(self).spec_in_bounds(pos),
            final(self).width == old(self).width,
            final(self).height == old(self).height,
            r is None ==> final(self).tiles_view() == old(self).tiles_view(),
            r matches Some(t) ==> *t == old(self).tile(pos) && final(self).tiles_view()
                == old(self).tiles_view().update(old(self).spec_index(pos), *final(t)),
    {
        match self.index(pos) {
            Some(i) => Some(&mut self.tiles[i]),
            None => None,
        }
    }

    /// Replaces the tile at `pos`; off the map nothing changes.
    pub fn set_tile(&mut self, pos: GridPos, tile: TileData)
        requires
            old(self).wf(),
        ensures
            final(self).wf(),
            final(self).width == old(self).width,
            final(self).height == old(self).height,
            final(self).tiles_view() == if old(self).spec_in_bounds(pos) {
                old(self).tiles_view().update(old(self).spec_index(pos), tile)
            } else {
                old(self).tiles_view()
            },
            old(self).spec_in_bounds(pos) ==> final(self).tile(pos) == tile,
            forall|q: GridPos|
                old(self).spec_in_bounds(q) && q != pos ==> #[trigger] final(self).tile(q) == old(self).tile(q),
    {
        match self.index(pos) {
            Some(i) => {
                self.tiles.set(i, tile);
            },
            None => {},
        }
        proof {
            assert forall|q: GridPos|
                old(self).spec_in_bounds(q) && q != pos implies #[trigger] self.tile(q) == old(self).tile(q) by {
                lemma_grid_index_bounds(self.width as int, self.height as int, q.x as int, q.y as int);
                if old(self).spec_in_bounds(pos) {
                    lemma_grid_index_bounds(self.width as int, self.height as int, pos.x as int, pos.y as int);
                }
            }
        }
    }

    /// Whether `pos` is on the map and walkable: the tile's passability switch
    /// is on, its terrain is passable by default (not Rock or Water), and it
    /// carries no temporary block. This is the one walkability rule of the
    /// library: the flood fill, the connectivity check and the spawn search of
    /// map generation all judge tiles by it (for the default land faction).
    pub fn is_passable(&self, pos: GridPos) -> (b: bool)
        requires
            self.wf(),
        ensures
            b == self.spec_is_passable(pos),
    {
        match self.get(pos) {
            Some(t) => t.walkable(),
            None => false,
        }
    }

    /// Whether `pos` is on the map and walkable for `faction`.
    pub fn is_passable_for_faction(&self, pos: GridPos, faction: FactionId) -> (b: bool)
        requires
            self.wf(),
        ensures
            b == self.spec_is_passable_for(pos, faction),
    {
        match self.get(pos) {
            Some(t) => t.walkable_for(faction),
            None => false,
        }
    }

    /// Whether `pos` lies on the map.
    pub fn in_bounds(&self, pos: GridPos) -> (b: bool)
        ensures
            b == self.spec_in_bounds(pos),
    {
        pos.x >= 0 && pos.y >= 0 && (pos.x as u32) < self.width && (pos.y as u32) < self.height
    }

    /// All tiles in row-major order.
    pub fn tiles(&self) -> (t: &[TileData])
        ensures
            t@ == self.tiles_view(),
    {
        self.tiles.as_slice()
    }

    /// Terrain at `pos`, `None` off the map.
    pub fn terrain_at(&self, pos: GridPos) -> (t: Option<TerrainType>)
        requires
            self.wf(),
        ensures
            t == self.spec_terrain_at(pos),
    {
        match self.get(pos) {
            Some(tile) => Some(tile.terrain),
            None => None,
        }
    }

    /// Elevation at `pos`, 0 off the map.
    pub fn elevation_at(&self, pos: GridPos) -> (e: u8)
        requires
            self.wf(),
        ensures
            e == self.spec_elevation_at(pos),
    {
        match self.get(pos) {
            Some(tile) => tile.elevation,
            None => 0,
        }
    }

    /// Whether a unit may step from `from` to `to`: tiles at equal elevation
    /// always connect; an elevation change needs a ramp on one of the two tiles.
    pub open spec fn spec_can_move_between(self, from: GridPos, to: GridPos) -> bool {
        self.spec_elevation_at(from) == self.spec_elevation_at(to)
            || self.spec_terrain_at(from) == Some(TerrainType::Ramp)
            || self.spec_terrain_at(to) == Some(TerrainType::Ramp)
    }

    /// Whether a unit may step from `from` to `to` (see `spec_can_move_between`).
    pub fn can_move_between(&self, from: GridPos, to: GridPos) -> (b: bool)
        requires
            self.wf(),
        ensures
            b == self.spec_can_move_between(from, to),
    {
        if self.elevation_at(from) == self.elevation_at(to) {
            return true;
        }
        let a = self.terrain_at(from);
        let b = self.terrain_at(to);
        (match a { Some(TerrainType::Ramp) => true, _ => false })
            || (match b { Some(TerrainType::Ramp) => true, _ => false })
    }

    /// The walkable neighbors of `pos` among its eight surrounding cells, in the
    /// order NW, N, NE, W, E, SW, S, SE.
    pub open spec fn spec_neighbors(self, pos: GridPos) -> Seq<GridPos> {
        neighbor_cells(pos).filter(|p: GridPos| self.spec_is_passable(p))
    }

    /// The neighbors of `pos` walkable for `faction`, in the same order.
    pub open spec fn spec_neighbors_for(self, pos: GridPos, faction: FactionId) -> Seq<GridPos> {
        neighbor_cells(pos).filter(|p: GridPos| self.spec_is_passable_for(p, faction))
    }

    /// Return all passable neighbors (8-directional).
    pub fn neighbors(&self, pos: GridPos) -> (r: Vec<GridPos>)
        requires
            self.wf(),
            i32::MIN < pos.x < i32::MAX,
            i32::MIN < pos.y < i32::MAX,
        ensures
            r@ == self.spec_neighbors(pos),
    {
        let ghost pred = |p: GridPos| self.spec_is_passable(p);
        let mut out: Vec<GridPos> = Vec::new();
        let mut k: usize = 0;
        while k < 8
            invariant
                k <= 8,
                self.wf(),
                i32::MIN < pos.x < i32::MAX,
                i32::MIN < pos.y < i32::MAX,
                out@ == neighbor_cells(pos).take(k as int).filter(pred),
                pred == (|p: GridPos| self.spec_is_passable(p)),
            decreases 8 - k,
        {
            let (dx, dy) = dir_offset(k);
            let p = GridPos::new(pos.x + dx, pos.y + dy);
            proof {
                assert(neighbor_cells(pos).take(k + 1) =~= neighbor_cells(pos).take(k as int).push(p));
                neighbor_cells(pos).take(k as int).lemma_filter_push(p, pred);
            }
            if self.is_passable(p) {
                out.push(p);
            }
            k = k + 1;
        }
        proof {
            assert(neighbor_cells(pos).take(8) =~= neighbor_cells(pos));
        }
        out
    }

    /// Return the neighbors of `pos` that `faction` may stand on (8-directional).
    pub fn neighbors_for_faction(&self, pos: GridPos, faction: FactionId) -> (r: Vec<GridPos>)
        requires
            self.wf(),
            i32::MIN < pos.x < i32::MAX,
            i32::MIN < pos.y < i32::MAX,
        ensures
            r@ == self.spec_neighbors_for(pos, faction),
    {
        let ghost pred = |p: GridPos| self.spec_is_passable_for(p, faction);
        let mut out: Vec<GridPos> = Vec::new();
        let mut k: usize = 0;
        while k < 8
            invariant
                k <= 8,
                self.wf(),
                i32::MIN < pos.x < i32::MAX,
                i32::MIN < pos.y < i32::MAX,
                out@ == neighbor_cells(pos).take(k as int).filter(pred),
                pred == (|p: GridPos| self.spec_is_passable_for(p, faction)),
            decreases 8 - k,
        {
            let (dx, dy) = dir_offset(k);
            let p = GridPos::new(pos.x + dx, pos.y + dy);
            proof {
                assert(neighbor_cells(pos).take(k + 1) =~= neighbor_cells(pos).take(k as int).push(p));
                neighbor_cells(pos).take(k as int).lemma_filter_push(p, pred);
            }
            if self.is_passable_for_faction(p, faction) {
                out.push(p);
            }
            k = k + 1;
        }
        proof {
            assert(neighbor_cells(pos).take(8) =~= neighbor_cells(pos));
        }
        out
    }
}

/// Column offset of the `k`-th of the eight directions (NW, N, NE, W, E, SW, S, SE).
pub open spec fn dir_dx(k: int) -> int {
    if k == 0 || k == 3 || k == 5 { -1 } else if k == 1 || k == 6 { 0 } else { 1 }
}

/// Row offset of the `k`-th of the eight directions.
pub open spec fn dir_dy(k: int) -> int {
    if k <= 2 { -1 } else if k <= 4 { 0 } else { 1 }
}

/// The eight cells around `pos`, in direction order.
pub open spec fn neighbor_cells(pos: GridPos) -> Seq<GridPos> {
    Seq::new(8, |k: int| GridPos { x: (pos.x + dir_dx(k)) as i32, y: (pos.y + dir_dy(k)) as i32 })
}

/// Offset of the `k`-th of the eight directions.
fn dir_offset(k: usize) -> (d: (i32, i32))
    requires
        k < 8,
    ensures
        d.0 == dir_dx(k as int),
        d.1 == dir_dy(k as int),
{
    match k {
        0 => (-1, -1),
        1 => (0, -1),
        2 => (1, -1),
        3 => (-1, 0),
        4 => (1, 0),
        5 => (-1, 1),
        6 => (0, 1),
        _ => (1, 1),
    }
}

/// Every neighbor returned for `pos` is one of the eight surrounding cells, lies
/// on the map and is walkable; every walkable surrounding cell is returned; and
/// there are at most eight.
pub proof fn lemma_neighbors_exact(m: GameMap, pos: GridPos, q: GridPos)
    requires
        i32::MIN < pos.x < i32::MAX,
        i32::MIN < pos.y < i32::MAX,
    ensures
        m.spec_neighbors(pos).len() <= 8,
        m.spec_neighbors(pos).contains(q) <==> (neighbor_cells(pos).contains(q) && m.spec_is_passable(q)),
        neighbor_cells(pos).contains(q) ==> -1 <= q.x - pos.x <= 1 && -1 <= q.y - pos.y <= 1
            && q != pos,
{
    let pred = |p: GridPos| m.spec_is_passable(p);
    neighbor_cells(pos).lemma_filter_len(pred);
    if m.spec_neighbors(pos).contains(q) {
        let i = choose|i: int| 0 <= i < m.spec_neighbors(pos).len() && m.spec_neighbors(pos)[i] == q;
        neighbor_cells(pos).lemma_filter_pred(pred, i);
        neighbor_cells(pos).lemma_filter_contains_rev(pred, q);
    }
    if neighbor_cells(pos).contains(q) && m.spec_is_passable(q) {
        let i = choose|i: int| 0 <= i < neighbor_cells(pos).len() && neighbor_cells(pos)[i] == q;
        neighbor_cells(pos).lemma_filter_contains(pred, i);
    }
    if neighbor_cells(pos).contains(q) {
        let i = choose|i: int| 0 <= i < 8 && neighbor_cells(pos)[i] == q;
        assert(0 <= i < 8);
    }
}

} // verus!
