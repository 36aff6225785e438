//! Concrete cases of the laws the library states: connectivity repair,
//! nearest-cell search, symmetry pairs, base layout, mission consistency,
//! display names and the map round trip.

use cc_core::components::BuildingKind;
use cc_core::coords::GridPos;
use cc_core::hero::{hero_name, HeroId};
use cc_core::map::GameMap;
use cc_core::map_format::{MapDefinition, MapSymmetry};
use cc_core::map_gen::{
    enforce_symmetry, find_passable_near, repair_connectivity, sculpt_base_areas, validate_connectivity,
};
use cc_core::terrain::TerrainType;

fn set(map: &mut GameMap, x: i32, y: i32, t: TerrainType, e: u8) {
    let tile = map.get_mut(GridPos::new(x, y)).unwrap();
    tile.terrain = t;
    tile.elevation = e;
}

fn ground(map: &GameMap, x: i32, y: i32) -> (TerrainType, u8) {
    let t = map.get(GridPos::new(x, y)).unwrap();
    (t.terrain, t.elevation)
}

fn all_ground(map: &GameMap) -> Vec<(TerrainType, u8)> {
    let mut v = Vec::new();
    for y in 0..map.height as i32 {
        for x in 0..map.width as i32 {
            v.push(ground(map, x, y));
        }
    }
    v
}

#[test]
fn repair_leaves_a_connected_map_alone() {
    let mut map = GameMap::new(10, 10);
    set(&mut map, 5, 0, TerrainType::Rock, 0);
    set(&mut map, 5, 1, TerrainType::Water, 1);
    let before = all_ground(&map);
    let spawns = [(1, 5), (8, 5), (2, 8)];
    assert!(validate_connectivity(&map, &spawns).is_ok());
    repair_connectivity(&mut map, &spawns);
    assert_eq!(all_ground(&map), before);

    let mut single = GameMap::new(4, 4);
    set(&mut single, 1, 1, TerrainType::Rock, 0);
    repair_connectivity(&mut single, &[(0, 0)]);
    assert_eq!(ground(&single, 1, 1), (TerrainType::Rock, 0));
}

#[test]
fn repair_connects_across_a_cliff_and_water() {
    // Left half at elevation 0, right half at elevation 2, with a water moat
    // on the boundary: no ramp anywhere.
    let mut map = GameMap::new(12, 8);
    for y in 0..8 {
        for x in 6..12 {
            set(&mut map, x, y, TerrainType::Grass, 2);
        }
        set(&mut map, 6, y, TerrainType::Water, 2);
    }
    let spawns = [(2, 3), (10, 5)];
    assert!(validate_connectivity(&map, &spawns).is_err());
    repair_connectivity(&mut map, &spawns);
    assert!(validate_connectivity(&map, &spawns).is_ok());
    // Elevations never change, far tiles stay.
    assert_eq!(ground(&map, 0, 0), (TerrainType::Grass, 0));
    assert_eq!(ground(&map, 6, 0), (TerrainType::Water, 2));
    assert_eq!(map.elevation_at(GridPos::new(10, 5)), 2);
}

#[test]
fn nearest_walkable_cell_is_found() {
    let mut map = GameMap::new(9, 9);
    for y in 2..=6 {
        for x in 2..=6 {
            set(&mut map, x, y, TerrainType::Rock, 0);
        }
    }
    set(&mut map, 6, 6, TerrainType::Grass, 0);
    // Ring 2 holds (6, 6); ring 3 holds the open border.
    assert_eq!(find_passable_near(&map, 4, 4, 3), (6, 6));
    assert_eq!(find_passable_near(&map, 4, 4, 1), (4, 4));
    assert_eq!(find_passable_near(&map, 6, 6, 3), (6, 6));
    set(&mut map, 6, 6, TerrainType::Rock, 0);
    assert_eq!(find_passable_near(&map, 4, 4, 3), (1, 1));
}

#[test]
fn half_turn_symmetry_pairs_every_cell() {
    let mut map = GameMap::new(7, 6);
    let kinds = [TerrainType::Forest, TerrainType::Water, TerrainType::Sand, TerrainType::Rock];
    for y in 0..6 {
        for x in 0..7 {
            set(&mut map, x, y, kinds[((x * 3 + y * 5) % 4) as usize], ((x + y) % 3) as u8);
        }
    }
    let before = map.clone();
    enforce_symmetry(&mut map, MapSymmetry::Rotational180);
    for y in 0..6 {
        for x in 0..7 {
            assert_eq!(ground(&map, x, y), ground(&map, 6 - x, 5 - y));
            if y < 3 {
                assert_eq!(ground(&map, x, y), ground(&before, x, y));
            }
        }
    }
    let mut square = GameMap::new(6, 6);
    for y in 0..6 {
        for x in 0..6 {
            set(&mut square, x, y, kinds[((x * 5 + y * 3 + x * y) % 4) as usize], ((x * y) % 3) as u8);
        }
    }
    enforce_symmetry(&mut square, MapSymmetry::Rotational90);
    for y in 0..6 {
        for x in 0..6 {
            assert_eq!(ground(&square, x, y), ground(&square, 5 - y, x));
        }
    }
    let mut mirror = before.clone();
    enforce_symmetry(&mut mirror, MapSymmetry::MirrorVertical);
    for y in 0..6 {
        for x in 0..7 {
            assert_eq!(ground(&mirror, x, y), ground(&mirror, x, 5 - y));
        }
    }
}

#[test]
fn bases_eight_apart_keep_their_layout() {
    let mut map = GameMap::new(24, 12);
    set(&mut map, 12, 0, TerrainType::Water, 1);
    sculpt_base_areas(&mut map, &[(4, 5), (12, 5)]);
    // Plateaus.
    assert_eq!(ground(&map, 7, 5), (TerrainType::Grass, 2));
    assert_eq!(ground(&map, 9, 5), (TerrainType::Grass, 2));
    assert_eq!(ground(&map, 15, 8), (TerrainType::Grass, 2));
    // First base: wall to the left (x = 0) and to the top (y = 1).
    assert_eq!(ground(&map, 0, 3), (TerrainType::Rock, 2));
    assert_eq!(ground(&map, 2, 1), (TerrainType::Rock, 2));
    assert_eq!(ground(&map, 0, 5), (TerrainType::Grass, 0));
    // Second base: wall to the right (x = 16) and to the top (y = 1).
    assert_eq!(ground(&map, 16, 7), (TerrainType::Rock, 2));
    assert_eq!(ground(&map, 14, 1), (TerrainType::Rock, 2));
    // The cell between the bases and far cells keep their ground.
    assert_eq!(ground(&map, 8, 0), (TerrainType::Grass, 0));
    assert_eq!(ground(&map, 12, 0), (TerrainType::Water, 1));
    assert_eq!(ground(&map, 20, 10), (TerrainType::Grass, 0));
}

#[test]
fn display_names_spell_the_variant_names() {
    let names = [
        "TheBox", "CatTree", "FishMarket", "LitterBox", "ServerRack", "ScratchingPost", "CatFlap",
        "LaserPointer", "TheParliament", "Rookery", "CarrionCache", "AntennaArray", "Panopticon",
        "NestBox", "ThornHedge", "Watchtower", "TheBurrow", "NestingBox", "SeedVault",
        "JunkTransmitter", "GnawLab", "WarrenExpansion", "Mousehole", "SqueakTower", "TheSett",
        "WarHollow", "BurrowDepot", "CoreTap", "ClawMarks", "DeepWarren", "BulwarkGate",
        "SlagThrower", "TheGrotto", "SpawningPools", "LilyMarket", "SunkenServer", "FossilStones",
        "ReedBed", "TidalGate", "SporeTower", "TheDumpster", "ScrapHeap", "ChopShop", "JunkServer",
        "TinkerBench", "TrashPile", "DumpsterRelay", "TetanusTower"
    ];
    assert_eq!(names.len(), 48);
    for n in names {
        let k = BuildingKind::parse_name(n).unwrap();
        let shown = k.display_name();
        assert!(!shown.is_empty());
        assert_eq!(shown.replace(' ', ""), k.to_string());
    }
}

#[test]
fn stored_map_converts_back_cell_for_cell() {
    let mut map = GameMap::new(5, 4);
    set(&mut map, 0, 0, TerrainType::Water, 0);
    set(&mut map, 4, 3, TerrainType::Ramp, 2);
    set(&mut map, 2, 1, TerrainType::TechRuins, 1);
    let def = MapDefinition::from_game_map(&map, "saved".to_string());
    assert_eq!(def.name, "saved");
    assert_eq!(def.symmetry, MapSymmetry::Rotational180);
    let back = def.to_game_map();
    assert_eq!((back.width, back.height), (5, 4));
    assert_eq!(all_ground(&back), all_ground(&map));
}

#[test]
fn campaign_heroes_carry_their_titles() {
    assert_eq!(hero_name(HeroId::FelixNine), "Commander Felix Nine");
    assert_eq!(hero_name(HeroId::Thimble), "Marshal Thimble");
    assert_eq!(hero_name(HeroId::MotherGranite), "Mother Granite");
    assert_eq!(hero_name(HeroId::RexSolstice), "Rex Solstice");
    assert_eq!(hero_name(HeroId::KingRingtail), "King Ringtail");
    assert_eq!(hero_name(HeroId::TheEternal), "The Eternal");
}

#[test]
fn repair_connects_around_a_blocked_line_cell() {
    let mut map = GameMap::new(12, 12);
    for y in 0..12 {
        set(&mut map, 6, y, TerrainType::Rock, 0);
    }
    map.get_mut(GridPos::new(6, 6)).unwrap().passable = false;
    let spawns = [(2, 6), (10, 6), (3, 3)];
    assert!(validate_connectivity(&map, &[(2, 6), (3, 3)]).is_ok());
    assert!(validate_connectivity(&map, &spawns).is_err());
    repair_connectivity(&mut map, &spawns);
    // The line cell (6, 6) is carved but stays blocked; the brush opens
    // (6, 5) and (6, 7), and the walk goes around it.
    assert_eq!(terrain_of(&map, 6, 6), TerrainType::Dirt);
    assert!(!map.get(GridPos::new(6, 6)).unwrap().passable);
    assert_eq!(terrain_of(&map, 6, 5), TerrainType::Dirt);
    assert_eq!(terrain_of(&map, 6, 7), TerrainType::Dirt);
    assert!(validate_connectivity(&map, &spawns).is_ok());
}

fn terrain_of(map: &GameMap, x: i32, y: i32) -> TerrainType {
    ground(map, x, y).0
}
