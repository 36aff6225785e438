//! Research time and cost of every upgrade.

use crate::components::UpgradeType;
use vstd::prelude::*;

verus! {

/// Compile-time stats for each upgrade type.
pub struct UpgradeBaseStats {
    /// Ticks to research (at 10hz).
    pub research_time: u32,
    pub food_cost: u32,
    pub gpu_cost: u32,
}

/// Research time, food cost and GPU cost of each upgrade.
pub open spec fn spec_upgrade_costs(upgrade: UpgradeType) -> (u32, u32, u32) {
    match upgrade {
        UpgradeType::SharperClaws | UpgradeType::ThickerFur => (100, 100, 25),
        UpgradeType::NimblePaws => (75, 75, 15),
        UpgradeType::SiegeTraining => (250, 200, 100),
        UpgradeType::MechPrototype => (400, 400, 200),
        UpgradeType::SharperTeeth | UpgradeType::ThickerHide => (100, 100, 25),
        UpgradeType::QuickPaws => (75, 75, 15),
        UpgradeType::SharperFangs | UpgradeType::ReinforcedHide => (100, 100, 25),
        UpgradeType::SteadyStance => (75, 75, 15),
        UpgradeType::SharperTalons | UpgradeType::HardenedPlumage => (100, 100, 25),
        UpgradeType::SwiftWings => (75, 75, 15),
        UpgradeType::RustyFangs | UpgradeType::ScrapPlating => (100, 100, 25),
        UpgradeType::TrashRunning => (75, 75, 15),
        UpgradeType::SlickerMucus | UpgradeType::TougherHide => (100, 100, 25),
        UpgradeType::AmphibianAgility => (75, 75, 15),
        _ => (250, 200, 100),
    }
}

/// Return the base stats for a given upgrade type.
pub fn upgrade_stats(upgrade: UpgradeType) -> (s: UpgradeBaseStats)
    ensures
        (s.research_time, s.food_cost, s.gpu_cost) == spec_upgrade_costs(upgrade),
{
    match upgrade {
        UpgradeType::SharperClaws | UpgradeType::ThickerFur => UpgradeBaseStats { research_time: 100, food_cost: 100, gpu_cost: 25 },
        UpgradeType::NimblePaws => UpgradeBaseStats { research_time: 75, food_cost: 75, gpu_cost: 15 },
        UpgradeType::SiegeTraining => UpgradeBaseStats { research_time: 250, food_cost: 200, gpu_cost: 100 },
        UpgradeType::MechPrototype => UpgradeBaseStats { research_time: 400, food_cost: 400, gpu_cost: 200 },
        UpgradeType::SharperTeeth | UpgradeType::ThickerHide => UpgradeBaseStats { research_time: 100, food_cost: 100, gpu_cost: 25 },
        UpgradeType::QuickPaws => UpgradeBaseStats { research_time: 75, food_cost: 75, gpu_cost: 15 },
        UpgradeType::SharperFangs | UpgradeType::ReinforcedHide => UpgradeBaseStats { research_time: 100, food_cost: 100, gpu_cost: 25 },
        UpgradeType::SteadyStance => UpgradeBaseStats { research_time: 75, food_cost: 75, gpu_cost: 15 },
        UpgradeType::SharperTalons | UpgradeType::HardenedPlumage => UpgradeBaseStats { research_time: 100, food_cost: 100, gpu_cost: 25 },
        UpgradeType::SwiftWings => UpgradeBaseStats { research_time: 75, food_cost: 75, gpu_cost: 15 },
        UpgradeType::RustyFangs | UpgradeType::ScrapPlating => UpgradeBaseStats { research_time: 100, food_cost: 100, gpu_cost: 25 },
        UpgradeType::TrashRunning => UpgradeBaseStats { research_time: 75, food_cost: 75, gpu_cost: 15 },
        UpgradeType::SlickerMucus | UpgradeType::TougherHide => UpgradeBaseStats { research_time: 100, food_cost: 100, gpu_cost: 25 },
        UpgradeType::AmphibianAgility => UpgradeBaseStats { research_time: 75, food_cost: 75, gpu_cost: 15 },
        _ => UpgradeBaseStats { research_time: 250, food_cost: 200, gpu_cost: 100 },
    }
}

/// Every upgrade takes time to research and costs food.
pub proof fn lemma_upgrade_costs_positive(upgrade: UpgradeType)
    ensures
        spec_upgrade_costs(upgrade).0 > 0,
        spec_upgrade_costs(upgrade).1 > 0,
{
}

} // verus!
