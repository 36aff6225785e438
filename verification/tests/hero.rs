//! Tests of `hero`.

use cc_core::components::{UnitKind};
use cc_core::hero::{ALL_HEROES, HeroId, hero_base_kind, hero_data, hero_faction, hero_faction_str, hero_modifiers, hero_name, hero_slug};
use cc_core::math::{Fixed};
use cc_core::unit_stats::{base_stats};

#[test]
fn all_heroes_have_valid_base_kind() {
    for hero in ALL_HEROES {
        let kind = hero_base_kind(hero);
        let stats = base_stats(kind);
        assert!(stats.health > Fixed::zero(), "{hero:?} base kind {kind:?} has no HP");
    }
}

#[test]
fn hero_modifiers_are_non_negative() {
    for hero in ALL_HEROES {
        let mods = hero_modifiers(hero);
        assert!(mods.health_bonus >= Fixed::zero(), "{hero:?} health_bonus negative");
        assert!(mods.speed_multiplier > Fixed::zero(), "{hero:?} speed_multiplier non-positive");
        assert!(mods.damage_bonus >= Fixed::zero(), "{hero:?} damage_bonus negative");
        assert!(mods.range_bonus >= Fixed::zero(), "{hero:?} range_bonus negative");
    }
}

#[test]
fn hero_boosted_stats_exceed_base() {
    for hero in ALL_HEROES {
        let kind = hero_base_kind(hero);
        let base = base_stats(kind);
        let mods = hero_modifiers(hero);

        let boosted_hp = base.health.add(mods.health_bonus);
        assert!(boosted_hp >= base.health, "{hero:?} boosted HP < base");

        let boosted_dmg = base.damage.add(mods.damage_bonus);
        assert!(boosted_dmg >= base.damage, "{hero:?} boosted damage < base");
    }
}

#[test]
fn all_heroes_have_names() {
    for hero in ALL_HEROES {
        assert!(!hero_name(hero).is_empty(), "{hero:?} has empty name");
    }
}

#[test]
fn all_heroes_have_factions() {
    for hero in ALL_HEROES {
        assert!(!hero_faction(hero).as_str().is_empty(), "{hero:?} has empty faction");
    }
}

#[test]
fn kelpie_is_faster_than_base_nuisance() {
    let base_speed = base_stats(UnitKind::Nuisance).speed;
    let mods = hero_modifiers(HeroId::Kelpie);
    // Kelpie's speed multiplier is 1.2x
    let boosted = base_speed.mul(mods.speed_multiplier);
    assert!(boosted > base_speed);
}

#[test]
fn felix_has_more_hp_than_base_mech() {
    let base_hp = base_stats(UnitKind::MechCommander).health;
    let mods = hero_modifiers(HeroId::FelixNine);
    let boosted = base_hp.add(mods.health_bonus);
    assert_eq!(boosted, base_hp.add(Fixed::from_bits(100 << 16)));
}

#[test]
fn hero_slug_all_valid() {
    for hero in ALL_HEROES {
        let slug = hero_slug(hero);
        assert!(!slug.is_empty(), "{hero:?} has empty slug");
        assert!(
            slug.chars().all(|c| c.is_ascii_alphanumeric() || c == '_'),
            "{hero:?} slug '{slug}' contains invalid characters"
        );
    }
}

#[test]
fn hero_slug_uniqueness() {
    let mut seen = std::collections::HashSet::new();
    for hero in ALL_HEROES {
        let slug = hero_slug(hero);
        assert!(seen.insert(slug), "Duplicate hero slug: '{slug}'");
    }
}

#[test]
fn all_heroes_constant_has_eight_entries() {
    assert_eq!(ALL_HEROES.len(), 8);
}

#[test]
fn hero_data_struct_matches_convenience_fns() {
    for hero in ALL_HEROES {
        let data = hero_data(hero);
        assert_eq!(data.base_kind, hero_base_kind(hero), "{hero:?} base_kind mismatch");
        assert_eq!(data.name, hero_name(hero), "{hero:?} name mismatch");
        assert_eq!(data.faction, hero_faction(hero), "{hero:?} faction mismatch");
        // Also verify the string form matches
        assert_eq!(data.faction.as_str(), hero_faction_str(hero), "{hero:?} faction_str mismatch");
        let mods = hero_modifiers(hero);
        assert_eq!(data.modifiers.health_bonus, mods.health_bonus, "{hero:?} health_bonus mismatch");
        assert_eq!(data.modifiers.speed_multiplier, mods.speed_multiplier, "{hero:?} speed_multiplier mismatch");
        assert_eq!(data.modifiers.damage_bonus, mods.damage_bonus, "{hero:?} damage_bonus mismatch");
        assert_eq!(data.modifiers.range_bonus, mods.range_bonus, "{hero:?} range_bonus mismatch");
    }
}
