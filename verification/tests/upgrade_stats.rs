//! Tests of `upgrade_stats`.

use cc_core::components::{UpgradeType};
use cc_core::upgrade_stats::{upgrade_stats};

#[test]
fn all_upgrades_have_stats() {
    let upgrades = [
        UpgradeType::SharperClaws,
        UpgradeType::ThickerFur,
        UpgradeType::NimblePaws,
        UpgradeType::SiegeTraining,
        UpgradeType::MechPrototype,
    ];
    for upgrade in upgrades {
        let stats = upgrade_stats(upgrade);
        assert!(
            stats.research_time > 0,
            "{upgrade:?} should have research time"
        );
        assert!(stats.food_cost > 0, "{upgrade:?} should have food cost");
    }
}

#[test]
fn mech_prototype_is_most_expensive() {
    let mech = upgrade_stats(UpgradeType::MechPrototype);
    let claws = upgrade_stats(UpgradeType::SharperClaws);
    assert!(mech.food_cost > claws.food_cost);
    assert!(mech.gpu_cost > claws.gpu_cost);
    assert!(mech.research_time > claws.research_time);
}

#[test]
fn damage_hp_upgrades_halved() {
    // All faction damage/HP upgrades should be 100 ticks, 100f, 25gpu
    let damage_hp = [
        UpgradeType::SharperClaws,
        UpgradeType::ThickerFur,
        UpgradeType::SharperTeeth,
        UpgradeType::ThickerHide,
        UpgradeType::SharperFangs,
        UpgradeType::ReinforcedHide,
        UpgradeType::SharperTalons,
        UpgradeType::HardenedPlumage,
        UpgradeType::RustyFangs,
        UpgradeType::ScrapPlating,
        UpgradeType::SlickerMucus,
        UpgradeType::TougherHide,
    ];
    for upgrade in damage_hp {
        let stats = upgrade_stats(upgrade);
        assert_eq!(stats.research_time, 100, "{upgrade:?} research_time");
        assert_eq!(stats.food_cost, 100, "{upgrade:?} food_cost");
        assert_eq!(stats.gpu_cost, 25, "{upgrade:?} gpu_cost");
    }
}

#[test]
fn speed_upgrades_halved() {
    // All faction speed upgrades should be 75 ticks, 75f, 15gpu
    let speed = [
        UpgradeType::NimblePaws,
        UpgradeType::QuickPaws,
        UpgradeType::SteadyStance,
        UpgradeType::SwiftWings,
        UpgradeType::TrashRunning,
        UpgradeType::AmphibianAgility,
    ];
    for upgrade in speed {
        let stats = upgrade_stats(upgrade);
        assert_eq!(stats.research_time, 75, "{upgrade:?} research_time");
        assert_eq!(stats.food_cost, 75, "{upgrade:?} food_cost");
        assert_eq!(stats.gpu_cost, 15, "{upgrade:?} gpu_cost");
    }
}
