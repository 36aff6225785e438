//! Serializable map definitions and their conversion to and from `GameMap`.

use crate::coords::GridPos;
use crate::map::{GameMap, TileData};
use crate::terrain::TerrainType;
use crate::text::{concat2, decimal, owned, u64_text};
use vstd::prelude::*;

verus! {

/// Symmetry type for map generation and validation.
#[derive(Debug, Clone, Copy, PartialEq, Eq, Structural)]
pub enum MapSymmetry {
    /// 180-degree rotational symmetry (standard 1v1).
    Rotational180,
    /// 4-way rotational symmetry (FFA/2v2).
    Rotational90,
    /// Left-right mirror.
    MirrorHorizontal,
    /// Top-bottom mirror.
    MirrorVertical,
}

/// Resource type for map placement.
#[derive(Debug, Clone, Copy, PartialEq, Eq, Structural)]
pub enum ResourceKind {
    FishPond,
    BerryBush,
    GpuDeposit,
    MonkeyMine,
}

/// Neutral camp difficulty tier.
#[derive(Debug, Clone, Copy, PartialEq, Eq, Structural)]
pub enum CampTier {
    Green,
    Orange,
    Red,
}

/// A spawn point for a player.
#[derive(Debug, Clone, Copy, PartialEq, Eq)]
pub struct SpawnPoint {
    pub player: u8,
    pub pos: (i32, i32),
}

/// A resource placement on the map.
#[derive(Debug, Clone, Copy, PartialEq, Eq)]
pub struct ResourcePlacement {
    pub kind: ResourceKind,
    pub pos: (i32, i32),
}

/// A neutral camp placement.
#[derive(Debug, Clone, Copy, PartialEq, Eq)]
pub struct NeutralCamp {
    pub tier: CampTier,
    pub pos: (i32, i32),
}

/// Complete map definition.
#[derive(Debug, Clone)]
pub struct MapDefinition {
    pub name: String,
    pub width: u32,
    pub height: u32,
    /// Each tile stored as (terrain code, elevation), row by row.
    pub tiles: Vec<(u8, u8)>,
    pub spawn_points: Vec<SpawnPoint>,
    pub resources: Vec<ResourcePlacement>,
    pub neutral_camps: Vec<NeutralCamp>,
    pub symmetry: MapSymmetry,
}

impl TileData {
    /// A tile of the given terrain and elevation, with no flags, passable.
    pub fn new(terrain: TerrainType, elevation: u8) -> (t: TileData)
        ensures
            t == tile_of(terrain, elevation),
    {
        TileData { terrain, elevation, dynamic_flags: 0, passable: true }
    }
}

/// A flag-free, passable tile of the given terrain and elevation.
pub open spec fn tile_of(terrain: TerrainType, elevation: u8) -> TileData {
    TileData { terrain, elevation, dynamic_flags: 0, passable: true }
}

/// The tile a stored `(terrain code, elevation)` pair becomes: unknown codes
/// fall back to Grass.
pub open spec fn tile_from_pair(pair: (u8, u8)) -> TileData {
    let terrain = match TerrainType::from_code(pair.0) {
        Some(t) => t,
        None => TerrainType::Grass,
    };
    tile_of(terrain, pair.1)
}

/// The stored form of a tile: its terrain code and elevation.
pub open spec fn pair_of_tile(t: TileData) -> (u8, u8) {
    (t.terrain.code(), t.elevation)
}

/// The first problem with a run of stored tiles from index `i` on, if any.
pub open spec fn tile_problem(tiles: Seq<(u8, u8)>, i: int) -> Option<Seq<char>>
    decreases tiles.len() - i,
{
    if i < 0 || i >= tiles.len() {
        None
    } else if TerrainType::from_code(tiles[i].0) is None {
        Some("Invalid terrain type "@ + decimal(tiles[i].0 as nat) + " at tile index "@ + decimal(i as nat))
    } else if tiles[i].1 > 2 {
        Some("Elevation "@ + decimal(tiles[i].1 as nat) + " > 2 at tile index "@ + decimal(i as nat))
    } else {
        tile_problem(tiles, i + 1)
    }
}

impl MapDefinition {
    /// The tile that cell `j` of the converted map holds.
    pub open spec fn def_tile(self, j: int) -> TileData {
        if j < self.tiles@.len() { tile_from_pair(self.tiles@[j]) } else { TileData::spec_default() }
    }

    /// The message that `validate` reports, or `None` when the definition is valid:
    /// the tile count must be `width * height`, every tile must carry a known
    /// terrain code and an elevation of at most 2, and there must be a spawn point.
    pub open spec fn validation_problem(self) -> Option<Seq<char>> {
        let expected = self.width * self.height;
        if self.tiles@.len() != expected {
            Some("Tile count "@ + decimal(self.tiles@.len()) + " doesn't match "@ + decimal(self.width as nat)
                + "x"@ + decimal(self.height as nat) + " = "@ + decimal(expected as nat))
        } else if tile_problem(self.tiles@, 0) is Some {
            tile_problem(self.tiles@, 0)
        } else if self.spawn_points@.len() == 0 {
            Some("No spawn points defined"@)
        } else {
            None
        }
    }

    /// Convert this definition into a `GameMap` for simulation: cell `j` (row
    /// major) takes the `j`-th stored tile, unknown terrain codes become Grass,
    /// and cells without a stored tile keep the default tile. A zero width
    /// with stored tiles is excluded: placing them would divide by zero.
    pub fn to_game_map(&self) -> (m: GameMap)
        requires
            self.width > 0 || self.tiles@.len() == 0,
            self.width * self.height <= u32::MAX,
            self.width <= i32::MAX,
            self.height <= i32::MAX,
        ensures
            m.wf(),
            m.width == self.width,
            m.height == self.height,
            forall|j: int| 0 <= j < m.tiles_view().len() ==> m.tiles_view()[j] == #[trigger] self.def_tile(j),
    {
        let mut map = GameMap::new(self.width, self.height);
        let n = self.tiles.len();
        let cells: usize = (self.width * self.height) as usize;
        let limit: usize = if n < cells { n } else { cells };
        let mut i: usize = 0;
        while i < limit
            invariant
                n == self.tiles@.len(),
                limit <= n,
                limit <= cells,
                cells == self.width * self.height,
                limit == n || limit == cells,
                i <= limit,
                self.width <= i32::MAX,
                self.height <= i32::MAX,
                map.wf(),
                map.width == self.width,
                map.height == self.height,
                forall|j: int| 0 <= j < map.tiles_view().len() ==> map.tiles_view()[j] == (if j < i {
                    self.def_tile(j)
                } else {
                    TileData::spec_default()
                }),
            decreases limit - i,
        {
            let (terrain_u8, elevation) = self.tiles[i];
            let iu = i as u32;
            proof {
                if self.width == 0 {
                    assert(self.width * self.height == 0) by (nonlinear_arith)
                        requires self.width == 0;
                }
                crate::map::lemma_index_to_cell(self.width as int, self.height as int, i as int);
            }
            let x = (iu % self.width) as i32;
            let y = (iu / self.width) as i32;
            let pos = GridPos::new(x, y);
            let terrain = match TerrainType::from_u8(terrain_u8) {
                Some(t) => t,
                None => TerrainType::default(),
            };
            let old_tile = *map.get(pos).unwrap();
            map.set_tile(pos, TileData { terrain, elevation, ..old_tile });
            i = i + 1;
        }
        map
    }

    /// Create a definition from an existing map: same size, each tile stored as
    /// its terrain code and elevation, no spawns, resources or camps, 180-degree
    /// rotational symmetry.
    pub fn from_game_map(map: &GameMap, name: String) -> (d: MapDefinition)
        requires
            map.wf(),
        ensures
            d.name == name,
            d.width == map.width,
            d.height == map.height,
            d.tiles@ == map.tiles_view().map_values(|t: TileData| pair_of_tile(t)),
            d.spawn_points@.len() == 0,
            d.resources@.len() == 0,
            d.neutral_camps@.len() == 0,
            d.symmetry == MapSymmetry::Rotational180,
    {
        let src = map.tiles();
        let mut tiles: Vec<(u8, u8)> = Vec::new();
        let mut i: usize = 0;
        while i < src.len()
            invariant
                src@ == map.tiles_view(),
                i <= src@.len(),
                tiles@ == map.tiles_view().take(i as int).map_values(|t: TileData| pair_of_tile(t)),
            decreases src@.len() - i,
        {
            let t = src[i];
            tiles.push((t.terrain.to_u8(), t.elevation));
            proof {
                assert(map.tiles_view().take(i + 1) =~= map.tiles_view().take(i as int).push(t));
            }
            i = i + 1;
        }
        proof {
            assert(map.tiles_view().take(i as int) =~= map.tiles_view());
        }
        MapDefinition {
            name,
            width: map.width,
            height: map.height,
            tiles,
            spawn_points: Vec::new(),
            resources: Vec::new(),
            neutral_camps: Vec::new(),
            symmetry: MapSymmetry::Rotational180,
        }
    }

    /// Validate tile data dimensions and contents (see `validation_problem`).
    pub fn validate(&self) -> (r: Result<(), String>)
        requires
            self.width * self.height <= u32::MAX,
        ensures
            r is Ok <==> self.validation_problem() is None,
            r matches Err(m) ==> self.validation_problem() == Some(m@),
    {
        let expected = (self.width * self.height) as usize;
        if self.tiles.len() != expected {
            let mut msg = owned("Tile count ");
            msg = concat2(msg, u64_text(self.tiles.len() as u64).as_str());
            msg = concat2(msg, " doesn't match ");
            msg = concat2(msg, u64_text(self.width as u64).as_str());
            msg = concat2(msg, "x");
            msg = concat2(msg, u64_text(self.height as u64).as_str());
            msg = concat2(msg, " = ");
            msg = concat2(msg, u64_text(expected as u64).as_str());
            return Err(msg);
        }
        let n = self.tiles.len();
        let mut i: usize = 0;
        while i < n
            invariant
                n == self.tiles@.len(),
                i <= n,
                tile_problem(self.tiles@, 0) == tile_problem(self.tiles@, i as int),
                self.tiles@.len() == self.width * self.height,
            decreases n - i,
        {
            let (terrain_u8, elevation) = self.tiles[i];
            if TerrainType::from_u8(terrain_u8).is_none() {
                let mut msg = owned("Invalid terrain type ");
                msg = concat2(msg, u64_text(terrain_u8 as u64).as_str());
                msg = concat2(msg, " at tile index ");
                msg = concat2(msg, u64_text(i as u64).as_str());
                return Err(msg);
            }
            if elevation > 2 {
                let mut msg = owned("Elevation ");
                msg = concat2(msg, u64_text(elevation as u64).as_str());
                msg = concat2(msg, " > 2 at tile index ");
                msg = concat2(msg, u64_text(i as u64).as_str());
                return Err(msg);
            }
            i = i + 1;
        }
        if self.spawn_points.len() == 0 {
            return Err(owned("No spawn points defined"));
        }
        Ok(())
    }
}

/// Storing a map as a definition and converting the definition back gives a
/// map of the same size with every cell's terrain and elevation restored.
pub proof fn lemma_map_round_trip(m: GameMap, d: MapDefinition, r: GameMap)
    requires
        m.wf(),
        d.width == m.width,
        d.height == m.height,
        d.tiles@ == m.tiles_view().map_values(|t: TileData| pair_of_tile(t)),
        r.wf(),
        r.width == d.width,
        r.height == d.height,
        forall|j: int| 0 <= j < r.tiles_view().len() ==> r.tiles_view()[j] == #[trigger] d.def_tile(j),
    ensures
        r.width == m.width,
        r.height == m.height,
        forall|p: GridPos| #[trigger] m.spec_in_bounds(p) ==> r.tile(p).terrain == m.tile(p).terrain
            && r.tile(p).elevation == m.tile(p).elevation,
{
    assert forall|p: GridPos| #[trigger] m.spec_in_bounds(p) implies r.tile(p).terrain == m.tile(p).terrain
        && r.tile(p).elevation == m.tile(p).elevation by {
        let j = m.spec_index(p);
        crate::map::lemma_grid_index_bounds(m.width as int, m.height as int, p.x as int, p.y as int);
        crate::terrain::lemma_terrain_code_round_trip(m.tiles_view()[j].terrain, 0);
        assert(r.tiles_view()[j] == d.def_tile(j));
    }
}

} // verus!
