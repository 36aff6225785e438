//! Tests of `map_format`.

use cc_core::coords::{GridPos};
use cc_core::map::{GameMap};
use cc_core::map_format::{MapDefinition, MapSymmetry, SpawnPoint};
use cc_core::terrain::{TerrainType};

#[test]
fn round_trip_game_map() {
    let mut map = GameMap::new(8, 8);
    map.get_mut(GridPos::new(3, 3)).unwrap().terrain = TerrainType::Water;
    map.get_mut(GridPos::new(3, 3)).unwrap().elevation = 0;
    map.get_mut(GridPos::new(5, 5)).unwrap().terrain = TerrainType::Forest;
    map.get_mut(GridPos::new(5, 5)).unwrap().elevation = 1;

    let def = MapDefinition::from_game_map(&map, "test".into());
    let restored = def.to_game_map();

    assert_eq!(
        restored.terrain_at(GridPos::new(3, 3)),
        Some(TerrainType::Water)
    );
    assert_eq!(
        restored.terrain_at(GridPos::new(5, 5)),
        Some(TerrainType::Forest)
    );
    assert_eq!(restored.elevation_at(GridPos::new(5, 5)), 1);
}

#[test]
fn validate_correct_map() {
    let def = MapDefinition {
        name: "Valid".into(),
        width: 4,
        height: 4,
        tiles: vec![(0, 0); 16],
        spawn_points: vec![SpawnPoint {
            player: 0,
            pos: (0, 0),
        }],
        resources: vec![],
        neutral_camps: vec![],
        symmetry: MapSymmetry::Rotational180,
    };
    assert!(def.validate().is_ok());
}

#[test]
fn validate_wrong_tile_count() {
    let def = MapDefinition {
        name: "Bad".into(),
        width: 4,
        height: 4,
        tiles: vec![(0, 0); 10], // Wrong count
        spawn_points: vec![SpawnPoint {
            player: 0,
            pos: (0, 0),
        }],
        resources: vec![],
        neutral_camps: vec![],
        symmetry: MapSymmetry::Rotational180,
    };
    assert!(def.validate().is_err());
}

#[test]
fn validate_invalid_terrain() {
    let def = MapDefinition {
        name: "Bad".into(),
        width: 2,
        height: 2,
        tiles: vec![(255, 0); 4], // Invalid terrain type
        spawn_points: vec![SpawnPoint {
            player: 0,
            pos: (0, 0),
        }],
        resources: vec![],
        neutral_camps: vec![],
        symmetry: MapSymmetry::Rotational180,
    };
    assert!(def.validate().is_err());
}

#[test]
fn validate_no_spawn_points() {
    let def = MapDefinition {
        name: "Bad".into(),
        width: 2,
        height: 2,
        tiles: vec![(0, 0); 4],
        spawn_points: vec![],
        resources: vec![],
        neutral_camps: vec![],
        symmetry: MapSymmetry::Rotational180,
    };
    assert!(def.validate().is_err());
}
