//! Tests of `terrain`.

use cc_core::math::{Fixed};
use cc_core::terrain::{CoverLevel, FLAG_LAVA, FLAG_TEMP_BLOCKED, FLAG_TOXIC, FLAG_WATER_CONVERTED, FactionId, TerrainType, elevation_damage_multiplier, is_passable_for_faction};

#[test]
fn terrain_passability() {
    assert!(TerrainType::Grass.base_passable());
    assert!(TerrainType::Dirt.base_passable());
    assert!(TerrainType::Sand.base_passable());
    assert!(TerrainType::Forest.base_passable());
    assert!(!TerrainType::Water.base_passable());
    assert!(TerrainType::Shallows.base_passable());
    assert!(!TerrainType::Rock.base_passable());
    assert!(TerrainType::Ramp.base_passable());
    assert!(TerrainType::Road.base_passable());
    assert!(TerrainType::TechRuins.base_passable());
}

#[test]
fn terrain_movement_costs() {
    // Road should be fastest
    assert!(TerrainType::Road.movement_cost() < TerrainType::Grass.movement_cost());
    // Sand should be slower than grass
    assert!(TerrainType::Sand.movement_cost() > TerrainType::Grass.movement_cost());
    // Forest slower than grass
    assert!(TerrainType::Forest.movement_cost() > TerrainType::Grass.movement_cost());
    // Shallows slowest passable
    assert!(TerrainType::Shallows.movement_cost() > TerrainType::Forest.movement_cost());
    // Dirt slightly faster than grass
    assert!(TerrainType::Dirt.movement_cost() < TerrainType::Grass.movement_cost());
}

#[test]
fn terrain_cover_levels() {
    assert_eq!(TerrainType::Grass.cover(), CoverLevel::NoCover);
    assert_eq!(TerrainType::Forest.cover(), CoverLevel::Light);
    assert_eq!(TerrainType::TechRuins.cover(), CoverLevel::Heavy);
    assert_eq!(TerrainType::Water.cover(), CoverLevel::NoCover);
}

#[test]
fn terrain_water_classification() {
    assert!(TerrainType::Water.is_water());
    assert!(TerrainType::Shallows.is_water());
    assert!(!TerrainType::Grass.is_water());
    assert!(!TerrainType::Sand.is_water());
}

#[test]
fn croak_can_traverse_water() {
    assert!(is_passable_for_faction(TerrainType::Water, FactionId::Croak));
    assert!(!is_passable_for_faction(TerrainType::Water, FactionId::CatGPT));
    assert!(!is_passable_for_faction(TerrainType::Water, FactionId::TheClawed));
    assert!(!is_passable_for_faction(TerrainType::Water, FactionId::TheMurder));
    assert!(!is_passable_for_faction(TerrainType::Water, FactionId::LLAMA));
}

#[test]
fn all_factions_blocked_by_rock() {
    for faction_id in 0..6u8 {
        let faction = FactionId::from_u8(faction_id).unwrap();
        assert!(!is_passable_for_faction(TerrainType::Rock, faction));
    }
}

#[test]
fn faction_aware_neighbor_filtering() {
    // Croak should traverse water, CatGPT should not
    assert!(is_passable_for_faction(TerrainType::Shallows, FactionId::CatGPT));
    assert!(is_passable_for_faction(TerrainType::Shallows, FactionId::Croak));
    assert!(!is_passable_for_faction(TerrainType::Water, FactionId::CatGPT));
    assert!(is_passable_for_faction(TerrainType::Water, FactionId::Croak));
}

#[test]
fn tiling_priority_ordering() {
    // Water < Shallows < Sand < Dirt < Grass < Road < Forest < TechRuins < Rock
    assert!(TerrainType::Water.tiling_priority() < TerrainType::Shallows.tiling_priority());
    assert!(TerrainType::Shallows.tiling_priority() < TerrainType::Sand.tiling_priority());
    assert!(TerrainType::Sand.tiling_priority() < TerrainType::Dirt.tiling_priority());
    assert!(TerrainType::Dirt.tiling_priority() < TerrainType::Grass.tiling_priority());
    assert!(TerrainType::Grass.tiling_priority() < TerrainType::Road.tiling_priority());
    assert!(TerrainType::Road.tiling_priority() < TerrainType::Forest.tiling_priority());
    assert!(TerrainType::Forest.tiling_priority() < TerrainType::TechRuins.tiling_priority());
    assert!(TerrainType::TechRuins.tiling_priority() < TerrainType::Rock.tiling_priority());
}

#[test]
fn terrain_from_u8_round_trip() {
    for terrain in TerrainType::ALL {
        let v = terrain as u8;
        assert_eq!(TerrainType::from_u8(v), Some(terrain));
    }
    assert_eq!(TerrainType::from_u8(255), None);
}

#[test]
fn cover_damage_multiplier() {
    assert_eq!(CoverLevel::NoCover.damage_multiplier(), Fixed::one());
    assert!(CoverLevel::Light.damage_multiplier() < Fixed::one());
    assert!(CoverLevel::Heavy.damage_multiplier() < CoverLevel::Light.damage_multiplier());
}

#[test]
fn concealment_only_in_forest() {
    for terrain in TerrainType::ALL {
        if terrain == TerrainType::Forest {
            assert!(terrain.provides_concealment());
        } else {
            assert!(!terrain.provides_concealment());
        }
    }
}

#[test]
fn elevation_damage_multiplier_values() {
    // No advantage = 1.0
    assert_eq!(elevation_damage_multiplier(0), Fixed::one());
    // +1 level = 1.15
    assert!(elevation_damage_multiplier(1) > Fixed::one());
    // +2 levels = 1.30
    assert!(elevation_damage_multiplier(2) > elevation_damage_multiplier(1));
    // -1 level = 0.85
    assert!(elevation_damage_multiplier(-1) < Fixed::one());
    // -2 levels = 0.70
    assert!(elevation_damage_multiplier(-2) < elevation_damage_multiplier(-1));
    // Floor at 0.55
    assert!(elevation_damage_multiplier(-5) >= Fixed::from_bits(36044));
}

#[test]
fn terrain_type_display_from_str_round_trip() {
    for terrain in TerrainType::ALL {
        let s = terrain.to_string();
        let parsed: TerrainType = s.parse().unwrap();
        assert_eq!(parsed, terrain);
    }
    assert!("Bogus".parse::<TerrainType>().is_err());
}

#[test]
fn cover_level_display_from_str_round_trip() {
    for cover in CoverLevel::ALL {
        let s = cover.to_string();
        let parsed: CoverLevel = s.parse().unwrap();
        assert_eq!(parsed, cover);
    }
    assert!("Bogus".parse::<CoverLevel>().is_err());
}

#[test]
fn dynamic_flags_bits() {
    let flags: u8 = FLAG_TEMP_BLOCKED | FLAG_WATER_CONVERTED;
    assert_ne!(flags & FLAG_TEMP_BLOCKED, 0);
    assert_ne!(flags & FLAG_WATER_CONVERTED, 0);
    assert_eq!(FLAG_TEMP_BLOCKED & FLAG_WATER_CONVERTED, 0); // no overlap
}

#[test]
fn hazard_flags_no_overlap() {
    // All four dynamic flags must use distinct bits
    let all_flags = [FLAG_TEMP_BLOCKED, FLAG_WATER_CONVERTED, FLAG_LAVA, FLAG_TOXIC];
    for i in 0..all_flags.len() {
        for j in (i + 1)..all_flags.len() {
            assert_eq!(
                all_flags[i] & all_flags[j],
                0,
                "Flags at index {} and {} overlap",
                i,
                j
            );
        }
    }
    // Combined should have exactly 4 bits set
    let combined = FLAG_TEMP_BLOCKED | FLAG_WATER_CONVERTED | FLAG_LAVA | FLAG_TOXIC;
    assert_eq!(combined.count_ones(), 4);
}
