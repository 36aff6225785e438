//! Tests of `unit_stats`.

use cc_core::components::{AttackType, Health, UnitKind, UpgradeType};
use cc_core::math::{Fixed};
use cc_core::unit_stats::{UnitBaseStats, base_stats};
use cc_core::upgrade_stats::{upgrade_stats};

#[test]
fn all_kinds_have_stats() {
    let kinds = [
        UnitKind::Pawdler,
        UnitKind::Nuisance,
        UnitKind::Chonk,
        UnitKind::FlyingFox,
        UnitKind::Hisser,
        UnitKind::Yowler,
        UnitKind::Mouser,
        UnitKind::Catnapper,
        UnitKind::FerretSapper,
        UnitKind::MechCommander,
        // The Clawed (Mice)
        UnitKind::Nibblet,
        UnitKind::Swarmer,
        UnitKind::Gnawer,
        UnitKind::Shrieker,
        UnitKind::Tunneler,
        UnitKind::Sparks,
        UnitKind::Quillback,
        UnitKind::Whiskerwitch,
        UnitKind::Plaguetail,
        UnitKind::WarrenMarshal,
        // The Murder (Corvids)
        UnitKind::MurderScrounger,
        UnitKind::Sentinel,
        UnitKind::Rookclaw,
        UnitKind::Magpike,
        UnitKind::Magpyre,
        UnitKind::Jaycaller,
        UnitKind::Jayflicker,
        UnitKind::Dusktalon,
        UnitKind::Hootseer,
        UnitKind::CorvusRex,
        // Croak (Axolotls)
        UnitKind::Ponderer,
        UnitKind::Regeneron,
        UnitKind::Broodmother,
        UnitKind::Gulper,
        UnitKind::Eftsaber,
        UnitKind::Croaker,
        UnitKind::Leapfrog,
        UnitKind::Shellwarden,
        UnitKind::Bogwhisper,
        UnitKind::MurkCommander,
        // LLAMA (Raccoons)
        UnitKind::Scrounger,
        UnitKind::Bandit,
        UnitKind::HeapTitan,
        UnitKind::GlitchRat,
        UnitKind::PatchPossum,
        UnitKind::GreaseMonkey,
        UnitKind::DeadDropUnit,
        UnitKind::Wrecker,
        UnitKind::DumpsterDiver,
        UnitKind::JunkyardKing,
        // Seekers of the Deep (Badgers)
        UnitKind::Delver,
        UnitKind::Ironhide,
        UnitKind::Cragback,
        UnitKind::Warden,
        UnitKind::Sapjaw,
        UnitKind::Wardenmother,
        UnitKind::SeekerTunneler,
        UnitKind::Embermaw,
        UnitKind::Dustclaw,
        UnitKind::Gutripper,
    ];
    for kind in kinds {
        let stats = base_stats(kind);
        assert!(
            stats.health > Fixed::zero(),
            "{kind:?} should have positive health"
        );
        assert!(
            stats.speed > Fixed::zero(),
            "{kind:?} should have positive speed"
        );
        assert!(
            stats.damage > Fixed::zero(),
            "{kind:?} should have positive damage"
        );
        assert!(
            stats.range > Fixed::zero(),
            "{kind:?} should have positive range"
        );
        assert!(
            stats.attack_speed > 0,
            "{kind:?} should have positive attack_speed"
        );
    }
}

#[test]
fn melee_units_have_range_one() {
    let melee_kinds = [
        UnitKind::Pawdler,
        UnitKind::Nuisance,
        UnitKind::Chonk,
        UnitKind::Mouser,
        UnitKind::FerretSapper,
        // Clawed melee
        UnitKind::Nibblet,
        UnitKind::Swarmer,
        UnitKind::Gnawer,
        UnitKind::Tunneler,
        UnitKind::Quillback,
        // Murder melee
        UnitKind::MurderScrounger,
        UnitKind::Rookclaw,
        UnitKind::Dusktalon,
        // Croak melee
        UnitKind::Ponderer,
        UnitKind::Regeneron,
        UnitKind::Gulper,
        UnitKind::Eftsaber,
        UnitKind::Leapfrog,
        UnitKind::Shellwarden,
        // LLAMA melee
        UnitKind::Scrounger,
        UnitKind::Bandit,
        UnitKind::HeapTitan,
        UnitKind::GlitchRat,
        UnitKind::DeadDropUnit,
        UnitKind::Wrecker,
        // Seekers melee
        UnitKind::Delver,
        UnitKind::Ironhide,
        UnitKind::Sapjaw,
        UnitKind::SeekerTunneler,
        UnitKind::Dustclaw,
        UnitKind::Gutripper,
    ];
    for kind in melee_kinds {
        let stats = base_stats(kind);
        assert_eq!(
            stats.attack_type,
            AttackType::Melee,
            "{kind:?} should be melee"
        );
        assert_eq!(
            stats.range,
            Fixed::from_bits(1 << 16),
            "{kind:?} melee should have range 1"
        );
    }
}

#[test]
fn ranged_units_have_range_greater_than_one() {
    let ranged_kinds = [
        UnitKind::FlyingFox,
        UnitKind::Hisser,
        UnitKind::Yowler,
        UnitKind::Catnapper,
        UnitKind::MechCommander,
        // Clawed ranged
        UnitKind::Shrieker,
        UnitKind::Sparks,
        UnitKind::Whiskerwitch,
        UnitKind::Plaguetail,
        UnitKind::WarrenMarshal,
        // Murder ranged
        UnitKind::Sentinel,
        UnitKind::Magpike,
        UnitKind::Magpyre,
        UnitKind::Jaycaller,
        UnitKind::Jayflicker,
        UnitKind::Hootseer,
        UnitKind::CorvusRex,
        // Croak ranged
        UnitKind::Broodmother,
        UnitKind::Croaker,
        UnitKind::Bogwhisper,
        UnitKind::MurkCommander,
        // LLAMA ranged
        UnitKind::PatchPossum,
        UnitKind::GreaseMonkey,
        UnitKind::DumpsterDiver,
        UnitKind::JunkyardKing,
        // Seekers ranged
        UnitKind::Cragback,
        UnitKind::Warden,
        UnitKind::Wardenmother,
        UnitKind::Embermaw,
    ];
    for kind in ranged_kinds {
        let stats = base_stats(kind);
        assert_eq!(
            stats.attack_type,
            AttackType::Ranged,
            "{kind:?} should be ranged"
        );
        assert!(
            stats.range > Fixed::from_bits(1 << 16),
            "{kind:?} ranged should have range > 1"
        );
    }
}

#[test]
fn chonk_is_tankiest() {
    // Among non-hero units, Chonk should have the most HP
    let chonk = base_stats(UnitKind::Chonk);
    let nuisance = base_stats(UnitKind::Nuisance);
    let hisser = base_stats(UnitKind::Hisser);
    assert!(chonk.health > nuisance.health);
    assert!(chonk.health > hisser.health);
}

#[test]
fn mech_commander_is_strongest() {
    let mech = base_stats(UnitKind::MechCommander);
    let chonk = base_stats(UnitKind::Chonk);
    assert!(mech.health > chonk.health);
}

#[test]
fn shellwarden_tankiest_croak() {
    let shellwarden = base_stats(UnitKind::Shellwarden);
    let gulper = base_stats(UnitKind::Gulper);
    let regeneron = base_stats(UnitKind::Regeneron);
    assert!(shellwarden.health > gulper.health);
    assert!(shellwarden.health > regeneron.health);
}

#[test]
fn murk_commander_strongest_croak() {
    let murk = base_stats(UnitKind::MurkCommander);
    let shellwarden = base_stats(UnitKind::Shellwarden);
    assert!(murk.health > shellwarden.health);
}

#[test]
fn swarmer_is_cheapest_clawed_combat() {
    let swarmer = base_stats(UnitKind::Swarmer);
    let gnawer = base_stats(UnitKind::Gnawer);
    let shrieker = base_stats(UnitKind::Shrieker);
    assert!(swarmer.food_cost < gnawer.food_cost);
    assert!(swarmer.food_cost < shrieker.food_cost);
}

#[test]
fn quillback_is_clawed_tankiest_non_hero() {
    let quillback = base_stats(UnitKind::Quillback);
    let swarmer = base_stats(UnitKind::Swarmer);
    let gnawer = base_stats(UnitKind::Gnawer);
    assert!(quillback.health > swarmer.health);
    assert!(quillback.health > gnawer.health);
}

#[test]
fn warren_marshal_is_clawed_hero() {
    let marshal = base_stats(UnitKind::WarrenMarshal);
    let quillback = base_stats(UnitKind::Quillback);
    assert!(marshal.health > quillback.health);
}

// --- Murder unit stat tests ---

#[test]
fn all_murder_kinds_have_stats() {
    let kinds = [
        UnitKind::MurderScrounger,
        UnitKind::Sentinel,
        UnitKind::Rookclaw,
        UnitKind::Magpike,
        UnitKind::Magpyre,
        UnitKind::Jaycaller,
        UnitKind::Jayflicker,
        UnitKind::Dusktalon,
        UnitKind::Hootseer,
        UnitKind::CorvusRex,
    ];
    for kind in kinds {
        let stats = base_stats(kind);
        assert!(
            stats.health > Fixed::zero(),
            "{kind:?} should have positive health"
        );
        assert!(
            stats.speed > Fixed::zero(),
            "{kind:?} should have positive speed"
        );
    }
}

#[test]
fn corvus_rex_is_murder_strongest() {
    let rex = base_stats(UnitKind::CorvusRex);
    let hootseer = base_stats(UnitKind::Hootseer);
    let rookclaw = base_stats(UnitKind::Rookclaw);
    assert!(rex.health > hootseer.health);
    assert!(rex.health > rookclaw.health);
}

#[test]
fn murder_melee_units_have_range_one() {
    let melee_kinds = [
        UnitKind::MurderScrounger,
        UnitKind::Rookclaw,
        UnitKind::Dusktalon,
    ];
    for kind in melee_kinds {
        let stats = base_stats(kind);
        assert_eq!(
            stats.attack_type,
            AttackType::Melee,
            "{kind:?} should be melee"
        );
        assert_eq!(
            stats.range,
            Fixed::from_bits(1 << 16),
            "{kind:?} melee should have range 1"
        );
    }
}

#[test]
fn murder_ranged_units_have_range_gt_one() {
    let ranged_kinds = [
        UnitKind::Sentinel,
        UnitKind::Magpike,
        UnitKind::Magpyre,
        UnitKind::Jaycaller,
        UnitKind::Jayflicker,
        UnitKind::Hootseer,
        UnitKind::CorvusRex,
    ];
    for kind in ranged_kinds {
        let stats = base_stats(kind);
        assert_eq!(
            stats.attack_type,
            AttackType::Ranged,
            "{kind:?} should be ranged"
        );
        assert!(
            stats.range > Fixed::from_bits(1 << 16),
            "{kind:?} ranged should have range > 1"
        );
    }
}

// --- Seekers of the Deep tests ---

#[test]
fn all_seekers_have_stats() {
    let kinds = [
        UnitKind::Delver,
        UnitKind::Ironhide,
        UnitKind::Cragback,
        UnitKind::Warden,
        UnitKind::Sapjaw,
        UnitKind::Wardenmother,
        UnitKind::SeekerTunneler,
        UnitKind::Embermaw,
        UnitKind::Dustclaw,
        UnitKind::Gutripper,
    ];
    for kind in kinds {
        let stats = base_stats(kind);
        assert!(
            stats.health > Fixed::zero(),
            "{kind:?} should have positive health"
        );
        assert!(
            stats.speed > Fixed::zero(),
            "{kind:?} should have positive speed"
        );
        assert!(
            stats.damage > Fixed::zero(),
            "{kind:?} should have positive damage"
        );
        assert!(
            stats.range > Fixed::zero(),
            "{kind:?} should have positive range"
        );
        assert!(
            stats.attack_speed > 0,
            "{kind:?} should have positive attack_speed"
        );
    }
}

#[test]
fn seekers_melee_units_have_range_one() {
    let melee_kinds = [
        UnitKind::Delver,
        UnitKind::Ironhide,
        UnitKind::Sapjaw,
        UnitKind::SeekerTunneler,
        UnitKind::Dustclaw,
        UnitKind::Gutripper,
    ];
    for kind in melee_kinds {
        let stats = base_stats(kind);
        assert_eq!(
            stats.attack_type,
            AttackType::Melee,
            "{kind:?} should be melee"
        );
        assert_eq!(
            stats.range,
            Fixed::from_bits(1 << 16),
            "{kind:?} melee should have range 1"
        );
    }
}

#[test]
fn seekers_ranged_units_have_range_gt_one() {
    let ranged_kinds = [
        UnitKind::Cragback,
        UnitKind::Warden,
        UnitKind::Wardenmother,
        UnitKind::Embermaw,
    ];
    for kind in ranged_kinds {
        let stats = base_stats(kind);
        assert_eq!(
            stats.attack_type,
            AttackType::Ranged,
            "{kind:?} should be ranged"
        );
        assert!(
            stats.range > Fixed::from_bits(1 << 16),
            "{kind:?} ranged should have range > 1"
        );
    }
}

#[test]
fn wardenmother_tankiest_seekers() {
    let wm = base_stats(UnitKind::Wardenmother);
    let ironhide = base_stats(UnitKind::Ironhide);
    let cragback = base_stats(UnitKind::Cragback);
    assert!(wm.health > ironhide.health);
    assert!(wm.health > cragback.health);
}

#[test]
fn wardenmother_most_expensive_seekers() {
    let wm = base_stats(UnitKind::Wardenmother);
    assert_eq!(wm.food_cost, 450);
    assert_eq!(wm.gpu_cost, 250);
    assert_eq!(wm.supply_cost, 6);
}

// --- LLAMA unit tests ---

#[test]
fn heap_titan_tankiest_llama() {
    let ht = base_stats(UnitKind::HeapTitan);
    let bandit = base_stats(UnitKind::Bandit);
    let wrecker = base_stats(UnitKind::Wrecker);
    assert!(ht.health > bandit.health);
    assert!(ht.health > wrecker.health);
}

#[test]
fn junkyard_king_strongest_llama() {
    let jk = base_stats(UnitKind::JunkyardKing);
    let ht = base_stats(UnitKind::HeapTitan);
    assert!(jk.health > ht.health);
}

/// All non-worker combat units across every faction.
const ALL_COMBAT_UNITS: &[UnitKind] = &[
    // catGPT
    UnitKind::Nuisance,
    UnitKind::Chonk,
    UnitKind::FlyingFox,
    UnitKind::Hisser,
    UnitKind::Yowler,
    UnitKind::Mouser,
    UnitKind::Catnapper,
    UnitKind::FerretSapper,
    UnitKind::MechCommander,
    // The Murder
    UnitKind::Sentinel,
    UnitKind::Rookclaw,
    UnitKind::Magpike,
    UnitKind::Magpyre,
    UnitKind::Jaycaller,
    UnitKind::Jayflicker,
    UnitKind::Dusktalon,
    UnitKind::Hootseer,
    UnitKind::CorvusRex,
    // Seekers of the Deep
    UnitKind::Ironhide,
    UnitKind::Cragback,
    UnitKind::Warden,
    UnitKind::Sapjaw,
    UnitKind::Wardenmother,
    UnitKind::SeekerTunneler,
    UnitKind::Embermaw,
    UnitKind::Dustclaw,
    UnitKind::Gutripper,
    // The Clawed
    UnitKind::Swarmer,
    UnitKind::Gnawer,
    UnitKind::Shrieker,
    UnitKind::Tunneler,
    UnitKind::Sparks,
    UnitKind::Quillback,
    UnitKind::Whiskerwitch,
    UnitKind::Plaguetail,
    UnitKind::WarrenMarshal,
    // Croak
    UnitKind::Regeneron,
    UnitKind::Broodmother,
    UnitKind::Gulper,
    UnitKind::Eftsaber,
    UnitKind::Croaker,
    UnitKind::Leapfrog,
    UnitKind::Shellwarden,
    UnitKind::Bogwhisper,
    UnitKind::MurkCommander,
    // LLAMA
    UnitKind::Bandit,
    UnitKind::HeapTitan,
    UnitKind::GlitchRat,
    UnitKind::PatchPossum,
    UnitKind::GreaseMonkey,
    UnitKind::DeadDropUnit,
    UnitKind::Wrecker,
    UnitKind::DumpsterDiver,
    UnitKind::JunkyardKing,
];

fn dps(s: &UnitBaseStats) -> f64 {
    s.damage.to_bits() as f64 / 65536.0 / s.attack_speed as f64
}

/// Test 1: No combat unit's combat efficiency (DPS * HP / food) should exceed
/// 4.0x the cross-faction median. Uses the DPS*HP product to account for the
/// intentional HP/DPS tradeoff between swarm units and elite units.
/// The 4.0x bound allows natural variance between tank/glass-cannon designs
/// while catching truly broken outliers.
#[test]
fn no_unit_combat_efficiency_exceeds_bound() {
    let mut ratios: Vec<(UnitKind, f64)> = ALL_COMBAT_UNITS
        .iter()
        .filter_map(|&kind| {
            let s = base_stats(kind);
            if s.food_cost == 0 {
                return None;
            }
            let efficiency = dps(&s) * s.health.to_bits() as f64 / 65536.0 / s.food_cost as f64;
            Some((kind, efficiency))
        })
        .collect();

    ratios.sort_by(|a, b| a.1.partial_cmp(&b.1).unwrap());

    let median = if ratios.len() % 2 == 0 {
        (ratios[ratios.len() / 2 - 1].1 + ratios[ratios.len() / 2].1) / 2.0
    } else {
        ratios[ratios.len() / 2].1
    };

    let bound = 4.0 * median;
    for &(kind, ratio) in &ratios {
        assert!(
            ratio <= bound,
            "{kind:?} combat efficiency (DPS*HP/food) {ratio:.3} exceeds 4.0x median ({median:.3}, bound={bound:.3})"
        );
    }
}

/// Test 2: Ranged units should trade HP for range.
/// Average HP/food for ranged units must be less than average HP/food for melee units.
/// Catches issues like Warden having 150 HP (more than most melee tanks at similar cost).
#[test]
fn ranged_units_trade_hp_for_range() {
    let mut ranged_hp_food = Vec::new();
    let mut melee_hp_food = Vec::new();

    for &kind in ALL_COMBAT_UNITS {
        let s = base_stats(kind);
        if s.food_cost == 0 {
            continue;
        }
        let ratio = s.health.to_bits() as f64 / 65536.0 / s.food_cost as f64;
        match s.attack_type {
            AttackType::Ranged => ranged_hp_food.push(ratio),
            AttackType::Melee => melee_hp_food.push(ratio),
        }
    }

    let ranged_avg: f64 = ranged_hp_food.iter().sum::<f64>() / ranged_hp_food.len() as f64;
    let melee_avg: f64 = melee_hp_food.iter().sum::<f64>() / melee_hp_food.len() as f64;

    assert!(
        ranged_avg < melee_avg,
        "Ranged avg HP/food ({ranged_avg:.3}) should be less than melee avg ({melee_avg:.3})"
    );
}

/// Test 3: All non-worker combat units must cost at least 40 food.
/// Prevents accidentally creating ultra-cheap spam units.
/// (The Clawed's Swarmer at 40f is the intentional floor for swarm-identity factions.)
#[test]
fn combat_unit_minimum_food_cost() {
    const MIN_FOOD: u32 = 40;
    for &kind in ALL_COMBAT_UNITS {
        let s = base_stats(kind);
        assert!(
            s.food_cost >= MIN_FOOD,
            "{kind:?} food_cost {} is below minimum {MIN_FOOD}",
            s.food_cost
        );
    }
}

/// Test 7: All damage upgrades cost the same, all HP upgrades cost the same,
/// all speed upgrades cost the same. Prevents accidentally making one faction's
/// upgrades cheaper than another's.
#[test]
fn upgrade_costs_consistent_across_factions() {

    let damage_upgrades = [
        UpgradeType::SharperClaws,
        UpgradeType::SharperTeeth,
        UpgradeType::SharperFangs,
        UpgradeType::SharperTalons,
        UpgradeType::RustyFangs,
        UpgradeType::SlickerMucus,
    ];
    let hp_upgrades = [
        UpgradeType::ThickerFur,
        UpgradeType::ThickerHide,
        UpgradeType::ReinforcedHide,
        UpgradeType::HardenedPlumage,
        UpgradeType::ScrapPlating,
        UpgradeType::TougherHide,
    ];
    let speed_upgrades = [
        UpgradeType::NimblePaws,
        UpgradeType::QuickPaws,
        UpgradeType::SteadyStance,
        UpgradeType::SwiftWings,
        UpgradeType::TrashRunning,
        UpgradeType::AmphibianAgility,
    ];

    fn assert_same_cost(category: &str, upgrades: &[UpgradeType]) {
        let first = upgrade_stats(upgrades[0]);
        for &u in &upgrades[1..] {
            let s = upgrade_stats(u);
            assert_eq!(
                s.research_time, first.research_time,
                "{category} upgrade {u:?} research_time {} != {} (from {:?})",
                s.research_time, first.research_time, upgrades[0]
            );
            assert_eq!(
                s.food_cost, first.food_cost,
                "{category} upgrade {u:?} food_cost {} != {} (from {:?})",
                s.food_cost, first.food_cost, upgrades[0]
            );
            assert_eq!(
                s.gpu_cost, first.gpu_cost,
                "{category} upgrade {u:?} gpu_cost {} != {} (from {:?})",
                s.gpu_cost, first.gpu_cost, upgrades[0]
            );
        }
    }

    assert_same_cost("Damage", &damage_upgrades);
    assert_same_cost("Health", &hp_upgrades);
    assert_same_cost("Speed", &speed_upgrades);
}
