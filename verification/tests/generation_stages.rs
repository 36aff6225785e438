//! Exact results of the integer map-generation stages on small maps.

use cc_core::coords::GridPos;
use cc_core::map::GameMap;
use cc_core::map_format::{CampTier, MapSymmetry, ResourceKind};
use cc_core::map_gen::{
    enforce_symmetry, find_passable_near, place_tiered_camps, place_tiered_resources, repair_connectivity,
    sculpt_base_areas, validate_connectivity,
};
use cc_core::terrain::TerrainType;

fn set(map: &mut GameMap, x: i32, y: i32, t: TerrainType, e: u8) {
    let tile = map.get_mut(GridPos::new(x, y)).unwrap();
    tile.terrain = t;
    tile.elevation = e;
}

fn terrain(map: &GameMap, x: i32, y: i32) -> TerrainType {
    map.terrain_at(GridPos::new(x, y)).unwrap()
}

#[test]
fn symmetry_copies_the_source_half() {
    let mut map = GameMap::new(6, 6);
    set(&mut map, 1, 0, TerrainType::Water, 0);
    enforce_symmetry(&mut map, MapSymmetry::Rotational180);
    assert_eq!(terrain(&map, 4, 5), TerrainType::Water);

    let mut map = GameMap::new(6, 6);
    set(&mut map, 1, 2, TerrainType::Forest, 2);
    set(&mut map, 4, 2, TerrainType::Sand, 0);
    enforce_symmetry(&mut map, MapSymmetry::MirrorHorizontal);
    assert_eq!(terrain(&map, 4, 2), TerrainType::Forest);
    assert_eq!(map.elevation_at(GridPos::new(4, 2)), 2);

    let mut map = GameMap::new(6, 6);
    set(&mut map, 1, 0, TerrainType::Rock, 1);
    enforce_symmetry(&mut map, MapSymmetry::Rotational90);
    assert_eq!(terrain(&map, 5, 1), TerrainType::Rock);
    assert_eq!(terrain(&map, 4, 5), TerrainType::Rock);
    assert_eq!(terrain(&map, 0, 4), TerrainType::Rock);
    assert_eq!(terrain(&map, 1, 0), TerrainType::Rock);
}

#[test]
fn base_sculpting_builds_plateau_and_walls() {
    let mut map = GameMap::new(20, 20);
    sculpt_base_areas(&mut map, &[(5, 5)]);
    for y in 2..=8 {
        for x in 2..=8 {
            assert_eq!(terrain(&map, x, y), TerrainType::Grass);
            assert_eq!(map.elevation_at(GridPos::new(x, y)), 2);
        }
    }
    for (x, y) in [(1, 2), (1, 3), (1, 7), (1, 8), (2, 1), (3, 1), (7, 1), (8, 1)] {
        assert_eq!(terrain(&map, x, y), TerrainType::Rock);
        assert_eq!(map.elevation_at(GridPos::new(x, y)), 2);
    }
    for (x, y) in [(1, 4), (1, 5), (1, 6), (4, 1), (5, 1), (6, 1), (9, 5), (5, 9)] {
        assert_eq!(map.elevation_at(GridPos::new(x, y)), 0);
    }
}

#[test]
fn passable_search_spirals_outward() {
    let mut map = GameMap::new(12, 12);
    for y in 0..12 {
        for x in 0..12 {
            set(&mut map, x, y, TerrainType::Rock, 0);
        }
    }
    set(&mut map, 7, 5, TerrainType::Grass, 0);
    assert_eq!(find_passable_near(&map, 5, 5, 3), (7, 5));
    assert_eq!(find_passable_near(&map, 5, 5, 1), (5, 5));
    assert_eq!(find_passable_near(&map, 7, 5, 0), (7, 5));
}

#[test]
fn camps_follow_the_tier_layout() {
    let camps = place_tiered_camps(&[(10, 10), (53, 53)], 64, 64);
    let got: Vec<(CampTier, (i32, i32))> = camps.iter().map(|c| (c.tier, c.pos)).collect();
    assert_eq!(
        got,
        vec![
            (CampTier::Green, (15, 15)),
            (CampTier::Orange, (23, 23)),
            (CampTier::Green, (48, 48)),
            (CampTier::Orange, (41, 41)),
            (CampTier::Red, (32, 32)),
        ]
    );
}

#[test]
fn resources_follow_the_tier_layout() {
    let map = GameMap::new(64, 64);
    let res = place_tiered_resources(&map, &[(10, 10)], 64, 64);
    let got: Vec<(ResourceKind, (i32, i32))> = res.iter().map(|r| (r.kind, r.pos)).collect();
    assert_eq!(
        got,
        vec![
            (ResourceKind::FishPond, (13, 11)),
            (ResourceKind::GpuDeposit, (7, 12)),
            (ResourceKind::FishPond, (22, 22)),
            (ResourceKind::BerryBush, (24, 23)),
            (ResourceKind::GpuDeposit, (26, 21)),
            (ResourceKind::BerryBush, (21, 26)),
            (ResourceKind::MonkeyMine, (32, 32)),
        ]
    );
}

#[test]
fn repair_opens_a_path_through_rock() {
    let mut map = GameMap::new(12, 12);
    for y in 0..12 {
        set(&mut map, 6, y, TerrainType::Rock, 0);
    }
    let spawns = [(2, 6), (10, 6)];
    assert!(validate_connectivity(&map, &spawns).is_err());
    repair_connectivity(&mut map, &spawns);
    assert!(validate_connectivity(&map, &spawns).is_ok());
    assert_eq!(terrain(&map, 6, 6), TerrainType::Dirt);
    assert_eq!(terrain(&map, 6, 0), TerrainType::Rock);
}
