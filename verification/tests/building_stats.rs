//! Tests of `building_stats`.

use cc_core::building_stats::{building_stats};
use cc_core::components::{BuildingKind, UnitKind};
use cc_core::math::{Fixed};

#[test]
fn all_buildings_have_stats() {
    let kinds = [
        BuildingKind::TheBox,
        BuildingKind::CatTree,
        BuildingKind::FishMarket,
        BuildingKind::LitterBox,
        BuildingKind::ServerRack,
        BuildingKind::ScratchingPost,
        BuildingKind::CatFlap,
        BuildingKind::LaserPointer,
    ];
    for kind in kinds {
        let stats = building_stats(kind);
        assert!(stats.health > Fixed::zero(), "{kind:?} should have positive health");
    }
}

#[test]
fn the_box_is_pre_built() {
    let stats = building_stats(BuildingKind::TheBox);
    assert_eq!(stats.build_time, 0);
    assert_eq!(stats.food_cost, 0);
    assert_eq!(stats.gpu_cost, 0);
}

#[test]
fn the_box_produces_pawdler() {
    let stats = building_stats(BuildingKind::TheBox);
    assert!(stats.can_produce.contains(&UnitKind::Pawdler));
}

#[test]
fn cat_tree_produces_basic_combat_units() {
    let stats = building_stats(BuildingKind::CatTree);
    assert!(stats.can_produce.contains(&UnitKind::Nuisance));
    assert!(stats.can_produce.contains(&UnitKind::Hisser));
    assert!(stats.can_produce.contains(&UnitKind::Chonk));
    assert!(stats.can_produce.contains(&UnitKind::Yowler));
    // CatTree should NOT produce advanced units (those moved to ServerRack)
    assert!(!stats.can_produce.contains(&UnitKind::FlyingFox));
    assert!(!stats.can_produce.contains(&UnitKind::MechCommander));
}

#[test]
fn server_rack_produces_advanced_units() {
    let stats = building_stats(BuildingKind::ServerRack);
    assert!(stats.can_produce.contains(&UnitKind::FlyingFox));
    assert!(stats.can_produce.contains(&UnitKind::Mouser));
    assert!(stats.can_produce.contains(&UnitKind::Catnapper));
    assert!(stats.can_produce.contains(&UnitKind::FerretSapper));
    assert!(stats.can_produce.contains(&UnitKind::MechCommander));
}

#[test]
fn litter_box_provides_supply() {
    let stats = building_stats(BuildingKind::LitterBox);
    assert_eq!(stats.supply_provided, 10);
}

#[test]
fn laser_pointer_has_zero_supply() {
    let stats = building_stats(BuildingKind::LaserPointer);
    assert_eq!(stats.supply_provided, 0);
    assert!(stats.can_produce.is_empty());
}

#[test]
fn scratching_post_no_production() {
    let stats = building_stats(BuildingKind::ScratchingPost);
    assert!(stats.can_produce.is_empty());
}

// --- Croak building tests ---

#[test]
fn all_croak_buildings_have_stats() {
    let kinds = [
        BuildingKind::TheGrotto,
        BuildingKind::SpawningPools,
        BuildingKind::LilyMarket,
        BuildingKind::SunkenServer,
        BuildingKind::FossilStones,
        BuildingKind::ReedBed,
        BuildingKind::TidalGate,
        BuildingKind::SporeTower,
    ];
    for kind in kinds {
        let stats = building_stats(kind);
        assert!(stats.health > Fixed::zero(), "{kind:?} should have positive health");
    }
}

#[test]
fn grotto_is_pre_built() {
    let stats = building_stats(BuildingKind::TheGrotto);
    assert_eq!(stats.build_time, 0);
    assert_eq!(stats.food_cost, 0);
    assert_eq!(stats.gpu_cost, 0);
}

#[test]
fn grotto_produces_ponderer() {
    let stats = building_stats(BuildingKind::TheGrotto);
    assert!(stats.can_produce.contains(&UnitKind::Ponderer));
}

#[test]
fn spawning_pools_produces_basic_croak_units() {
    let stats = building_stats(BuildingKind::SpawningPools);
    assert!(stats.can_produce.contains(&UnitKind::Regeneron));
    assert!(stats.can_produce.contains(&UnitKind::Croaker));
    assert!(stats.can_produce.contains(&UnitKind::Leapfrog));
    assert!(stats.can_produce.contains(&UnitKind::Gulper));
}

#[test]
fn sunken_server_produces_advanced_croak_units() {
    let stats = building_stats(BuildingKind::SunkenServer);
    assert!(stats.can_produce.contains(&UnitKind::Eftsaber));
    assert!(stats.can_produce.contains(&UnitKind::Broodmother));
    assert!(stats.can_produce.contains(&UnitKind::Shellwarden));
    assert!(stats.can_produce.contains(&UnitKind::Bogwhisper));
    assert!(stats.can_produce.contains(&UnitKind::MurkCommander));
}

#[test]
fn reed_bed_provides_supply() {
    let stats = building_stats(BuildingKind::ReedBed);
    assert_eq!(stats.supply_provided, 10);
}

// --- Murder building tests ---

#[test]
fn all_murder_buildings_have_stats() {
    let kinds = [
        BuildingKind::TheParliament,
        BuildingKind::Rookery,
        BuildingKind::CarrionCache,
        BuildingKind::AntennaArray,
        BuildingKind::Panopticon,
        BuildingKind::NestBox,
        BuildingKind::ThornHedge,
        BuildingKind::Watchtower,
    ];
    for kind in kinds {
        let stats = building_stats(kind);
        assert!(stats.health > Fixed::zero(), "{kind:?} should have positive health");
    }
}

#[test]
fn the_parliament_is_pre_built() {
    let stats = building_stats(BuildingKind::TheParliament);
    assert_eq!(stats.build_time, 0);
    assert_eq!(stats.food_cost, 0);
    assert_eq!(stats.gpu_cost, 0);
}

#[test]
fn the_parliament_produces_murder_scrounger() {
    let stats = building_stats(BuildingKind::TheParliament);
    assert!(stats.can_produce.contains(&UnitKind::MurderScrounger));
}

#[test]
fn rookery_produces_basic_murder_units() {
    let stats = building_stats(BuildingKind::Rookery);
    assert!(stats.can_produce.contains(&UnitKind::Sentinel));
    assert!(stats.can_produce.contains(&UnitKind::Rookclaw));
    assert!(stats.can_produce.contains(&UnitKind::Magpike));
    assert!(stats.can_produce.contains(&UnitKind::Jaycaller));
}

#[test]
fn antenna_array_produces_advanced_murder_units() {
    let stats = building_stats(BuildingKind::AntennaArray);
    assert!(stats.can_produce.contains(&UnitKind::Magpyre));
    assert!(stats.can_produce.contains(&UnitKind::Jayflicker));
    assert!(stats.can_produce.contains(&UnitKind::Dusktalon));
    assert!(stats.can_produce.contains(&UnitKind::Hootseer));
    assert!(stats.can_produce.contains(&UnitKind::CorvusRex));
}

#[test]
fn nest_box_provides_supply() {
    let stats = building_stats(BuildingKind::NestBox);
    assert_eq!(stats.supply_provided, 10);
}

#[test]
fn panopticon_no_production() {
    let stats = building_stats(BuildingKind::Panopticon);
    assert!(stats.can_produce.is_empty());
}

// --- Clawed building tests ---

#[test]
fn all_clawed_buildings_have_stats() {
    let kinds = [
        BuildingKind::TheBurrow,
        BuildingKind::NestingBox,
        BuildingKind::SeedVault,
        BuildingKind::JunkTransmitter,
        BuildingKind::GnawLab,
        BuildingKind::WarrenExpansion,
        BuildingKind::Mousehole,
        BuildingKind::SqueakTower,
    ];
    for kind in kinds {
        let stats = building_stats(kind);
        assert!(stats.health > Fixed::zero(), "{kind:?} should have positive health");
    }
}

#[test]
fn the_burrow_is_pre_built() {
    let stats = building_stats(BuildingKind::TheBurrow);
    assert_eq!(stats.build_time, 0);
    assert_eq!(stats.food_cost, 0);
    assert_eq!(stats.gpu_cost, 0);
}

#[test]
fn nesting_box_produces_basic_clawed() {
    let stats = building_stats(BuildingKind::NestingBox);
    assert!(stats.can_produce.contains(&UnitKind::Swarmer));
    assert!(stats.can_produce.contains(&UnitKind::Gnawer));
    assert!(stats.can_produce.contains(&UnitKind::Plaguetail));
    assert!(stats.can_produce.contains(&UnitKind::Sparks));
}

#[test]
fn junk_transmitter_produces_advanced_clawed() {
    let stats = building_stats(BuildingKind::JunkTransmitter);
    assert!(stats.can_produce.contains(&UnitKind::Shrieker));
    assert!(stats.can_produce.contains(&UnitKind::Tunneler));
    assert!(stats.can_produce.contains(&UnitKind::Quillback));
    assert!(stats.can_produce.contains(&UnitKind::Whiskerwitch));
    assert!(stats.can_produce.contains(&UnitKind::WarrenMarshal));
}

#[test]
fn warren_expansion_provides_supply() {
    let stats = building_stats(BuildingKind::WarrenExpansion);
    assert_eq!(stats.supply_provided, 10);
}

// --- Seekers building tests ---

#[test]
fn all_seekers_buildings_have_stats() {
    let kinds = [
        BuildingKind::TheSett, BuildingKind::WarHollow, BuildingKind::BurrowDepot,
        BuildingKind::CoreTap, BuildingKind::ClawMarks, BuildingKind::DeepWarren,
        BuildingKind::BulwarkGate, BuildingKind::SlagThrower,
    ];
    for kind in kinds {
        let stats = building_stats(kind);
        assert!(stats.health > Fixed::zero(), "{kind:?} should have positive health");
    }
}

#[test]
fn the_sett_is_pre_built() {
    let stats = building_stats(BuildingKind::TheSett);
    assert_eq!(stats.build_time, 0);
    assert_eq!(stats.food_cost, 0);
    assert_eq!(stats.gpu_cost, 0);
}

#[test]
fn the_sett_produces_delver() {
    let stats = building_stats(BuildingKind::TheSett);
    assert!(stats.can_produce.contains(&UnitKind::Delver));
}

#[test]
fn war_hollow_produces_basic_seekers_units() {
    let stats = building_stats(BuildingKind::WarHollow);
    assert!(stats.can_produce.contains(&UnitKind::Ironhide));
    assert!(stats.can_produce.contains(&UnitKind::Sapjaw));
    assert!(stats.can_produce.contains(&UnitKind::Warden));
    assert!(stats.can_produce.contains(&UnitKind::Gutripper));
}

#[test]
fn core_tap_produces_advanced_seekers_units() {
    let stats = building_stats(BuildingKind::CoreTap);
    assert!(stats.can_produce.contains(&UnitKind::SeekerTunneler));
    assert!(stats.can_produce.contains(&UnitKind::Embermaw));
    assert!(stats.can_produce.contains(&UnitKind::Dustclaw));
    assert!(stats.can_produce.contains(&UnitKind::Cragback));
    assert!(stats.can_produce.contains(&UnitKind::Wardenmother));
}

#[test]
fn deep_warren_provides_supply() {
    let stats = building_stats(BuildingKind::DeepWarren);
    assert_eq!(stats.supply_provided, 12);
}

#[test]
fn slag_thrower_no_production() {
    let stats = building_stats(BuildingKind::SlagThrower);
    assert!(stats.can_produce.is_empty());
}

// --- LLAMA building tests ---

#[test]
fn all_llama_buildings_have_stats() {
    let kinds = [
        BuildingKind::TheDumpster,
        BuildingKind::ScrapHeap,
        BuildingKind::ChopShop,
        BuildingKind::JunkServer,
        BuildingKind::TinkerBench,
        BuildingKind::TrashPile,
        BuildingKind::DumpsterRelay,
        BuildingKind::TetanusTower,
    ];
    for kind in kinds {
        let stats = building_stats(kind);
        assert!(stats.health > Fixed::zero(), "{kind:?} should have positive health");
    }
}

#[test]
fn the_dumpster_is_pre_built() {
    let stats = building_stats(BuildingKind::TheDumpster);
    assert_eq!(stats.build_time, 0);
    assert_eq!(stats.food_cost, 0);
    assert_eq!(stats.gpu_cost, 0);
}

#[test]
fn the_dumpster_produces_scrounger() {
    let stats = building_stats(BuildingKind::TheDumpster);
    assert!(stats.can_produce.contains(&UnitKind::Scrounger));
}

#[test]
fn chop_shop_produces_basic_combat_units() {
    let stats = building_stats(BuildingKind::ChopShop);
    assert!(stats.can_produce.contains(&UnitKind::Bandit));
    assert!(stats.can_produce.contains(&UnitKind::Wrecker));
    assert!(stats.can_produce.contains(&UnitKind::HeapTitan));
    assert!(stats.can_produce.contains(&UnitKind::GreaseMonkey));
}

#[test]
fn tinker_bench_produces_advanced_units() {
    let stats = building_stats(BuildingKind::TinkerBench);
    assert!(stats.can_produce.contains(&UnitKind::DeadDropUnit));
    assert!(stats.can_produce.contains(&UnitKind::DumpsterDiver));
    assert!(stats.can_produce.contains(&UnitKind::JunkyardKing));
}

#[test]
fn trash_pile_provides_supply() {
    let stats = building_stats(BuildingKind::TrashPile);
    assert_eq!(stats.supply_provided, 10);
}
