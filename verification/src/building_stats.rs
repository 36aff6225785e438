//! Base stats of every building kind, including which units it trains.

use crate::components::{BuildingKind, UnitKind};
use crate::math::Fixed;
use vstd::prelude::*;

verus! {

/// Compile-time base stats for each building type.
pub struct BuildingBaseStats {
    pub health: Fixed,
    pub build_time: u32,    // ticks (0 = pre-built)
    pub food_cost: u32,
    pub gpu_cost: u32,
    pub supply_provided: u32,
    pub can_produce: &'static [UnitKind],
}

/// Whether `s` has the given numbers (health as raw 16.16 bits) and trains
/// exactly `units`, in that order.
pub open spec fn building_row(
    s: BuildingBaseStats,
    health: i32,
    build_time: u32,
    food_cost: u32,
    gpu_cost: u32,
    supply_provided: u32,
    units: Seq<UnitKind>,
) -> bool {
    &&& s.health.bits == health
    &&& s.build_time == build_time
    &&& s.food_cost == food_cost
    &&& s.gpu_cost == gpu_cost
    &&& s.supply_provided == supply_provided
    &&& s.can_produce@ =~= units
}

/// The numbers of each building kind: health (raw bits), build time, food, GPU, supply.
pub open spec fn spec_building_numbers(kind: BuildingKind) -> (i32, u32, u32, u32, u32) {
    match kind {
        BuildingKind::TheBox => (32768000, 0, 0, 0, 10),
        BuildingKind::CatTree => (19660800, 150, 150, 0, 0),
        BuildingKind::FishMarket => (13107200, 100, 100, 0, 0),
        BuildingKind::LitterBox => (6553600, 75, 75, 0, 10),
        BuildingKind::ServerRack => (16384000, 120, 100, 75, 0),
        BuildingKind::ScratchingPost => (13107200, 100, 100, 50, 0),
        BuildingKind::CatFlap => (26214400, 100, 150, 0, 0),
        BuildingKind::LaserPointer => (9830400, 80, 75, 25, 0),
        BuildingKind::TheParliament => (29491200, 0, 0, 0, 10),
        BuildingKind::Rookery => (18022400, 140, 150, 0, 0),
        BuildingKind::CarrionCache => (11796480, 100, 100, 0, 0),
        BuildingKind::AntennaArray => (14745600, 120, 100, 75, 0),
        BuildingKind::Panopticon => (13107200, 120, 125, 75, 0),
        BuildingKind::NestBox => (5898240, 75, 75, 0, 10),
        BuildingKind::ThornHedge => (7864320, 40, 30, 0, 0),
        BuildingKind::Watchtower => (9175040, 80, 75, 25, 0),
        BuildingKind::TheBurrow => (26214400, 0, 0, 0, 10),
        BuildingKind::NestingBox => (16384000, 120, 100, 0, 0),
        BuildingKind::SeedVault => (11796480, 80, 75, 0, 0),
        BuildingKind::JunkTransmitter => (12451840, 100, 75, 50, 0),
        BuildingKind::GnawLab => (10485760, 100, 80, 40, 0),
        BuildingKind::WarrenExpansion => (5242880, 60, 50, 0, 10),
        BuildingKind::Mousehole => (19660800, 80, 100, 0, 0),
        BuildingKind::SqueakTower => (7864320, 70, 60, 20, 0),
        BuildingKind::TheSett => (39321600, 0, 0, 0, 10),
        BuildingKind::WarHollow => (26214400, 180, 175, 0, 0),
        BuildingKind::BurrowDepot => (16384000, 120, 100, 0, 0),
        BuildingKind::CoreTap => (19660800, 150, 125, 100, 0),
        BuildingKind::ClawMarks => (16384000, 120, 125, 75, 0),
        BuildingKind::DeepWarren => (8192000, 95, 80, 0, 12),
        BuildingKind::BulwarkGate => (32768000, 120, 175, 0, 0),
        BuildingKind::SlagThrower => (13107200, 100, 100, 50, 0),
        BuildingKind::TheGrotto => (32768000, 0, 0, 0, 10),
        BuildingKind::SpawningPools => (19660800, 150, 150, 0, 0),
        BuildingKind::LilyMarket => (13107200, 100, 100, 0, 0),
        BuildingKind::SunkenServer => (16384000, 120, 100, 75, 0),
        BuildingKind::FossilStones => (13107200, 100, 100, 50, 0),
        BuildingKind::ReedBed => (6553600, 75, 75, 0, 10),
        BuildingKind::TidalGate => (26214400, 100, 150, 0, 0),
        BuildingKind::SporeTower => (9830400, 80, 75, 25, 0),
        BuildingKind::TheDumpster => (32768000, 0, 0, 0, 10),
        BuildingKind::ScrapHeap => (11796480, 90, 90, 0, 0),
        BuildingKind::ChopShop => (18350080, 140, 140, 0, 0),
        BuildingKind::JunkServer => (15073280, 110, 90, 65, 0),
        BuildingKind::TinkerBench => (12451840, 95, 85, 55, 0),
        BuildingKind::TrashPile => (5898240, 70, 70, 0, 10),
        BuildingKind::DumpsterRelay => (9830400, 80, 80, 30, 0),
        BuildingKind::TetanusTower => (9175040, 75, 70, 20, 0),
    }
}

/// The units each building kind trains, in menu order.
pub open spec fn spec_can_produce(kind: BuildingKind) -> Seq<UnitKind> {
    match kind {
        BuildingKind::TheBox => seq![UnitKind::Pawdler],
        BuildingKind::CatTree => seq![UnitKind::Nuisance, UnitKind::Hisser, UnitKind::Chonk, UnitKind::Yowler],
        BuildingKind::FishMarket => seq![],
        BuildingKind::LitterBox => seq![],
        BuildingKind::ServerRack => seq![UnitKind::FlyingFox, UnitKind::Mouser, UnitKind::Catnapper, UnitKind::FerretSapper, UnitKind::MechCommander],
        BuildingKind::ScratchingPost => seq![],
        BuildingKind::CatFlap => seq![],
        BuildingKind::LaserPointer => seq![],
        BuildingKind::TheParliament => seq![UnitKind::MurderScrounger],
        BuildingKind::Rookery => seq![UnitKind::Sentinel, UnitKind::Rookclaw, UnitKind::Magpike, UnitKind::Jaycaller],
        BuildingKind::CarrionCache => seq![],
        BuildingKind::AntennaArray => seq![UnitKind::Magpyre, UnitKind::Jayflicker, UnitKind::Dusktalon, UnitKind::Hootseer, UnitKind::CorvusRex],
        BuildingKind::Panopticon => seq![],
        BuildingKind::NestBox => seq![],
        BuildingKind::ThornHedge => seq![],
        BuildingKind::Watchtower => seq![],
        BuildingKind::TheBurrow => seq![UnitKind::Nibblet],
        BuildingKind::NestingBox => seq![UnitKind::Swarmer, UnitKind::Gnawer, UnitKind::Plaguetail, UnitKind::Sparks],
        BuildingKind::SeedVault => seq![],
        BuildingKind::JunkTransmitter => seq![UnitKind::Shrieker, UnitKind::Tunneler, UnitKind::Quillback, UnitKind::Whiskerwitch, UnitKind::WarrenMarshal],
        BuildingKind::GnawLab => seq![],
        BuildingKind::WarrenExpansion => seq![],
        BuildingKind::Mousehole => seq![],
        BuildingKind::SqueakTower => seq![],
        BuildingKind::TheSett => seq![UnitKind::Delver],
        BuildingKind::WarHollow => seq![UnitKind::Ironhide, UnitKind::Sapjaw, UnitKind::Warden, UnitKind::Gutripper],
        BuildingKind::BurrowDepot => seq![],
        BuildingKind::CoreTap => seq![UnitKind::SeekerTunneler, UnitKind::Embermaw, UnitKind::Dustclaw, UnitKind::Cragback, UnitKind::Wardenmother],
        BuildingKind::ClawMarks => seq![],
        BuildingKind::DeepWarren => seq![],
        BuildingKind::BulwarkGate => seq![],
        BuildingKind::SlagThrower => seq![],
        BuildingKind::TheGrotto => seq![UnitKind::Ponderer],
        BuildingKind::SpawningPools => seq![UnitKind::Regeneron, UnitKind::Croaker, UnitKind::Leapfrog, UnitKind::Gulper],
        BuildingKind::LilyMarket => seq![],
        BuildingKind::SunkenServer => seq![UnitKind::Eftsaber, UnitKind::Broodmother, UnitKind::Shellwarden, UnitKind::Bogwhisper, UnitKind::MurkCommander],
        BuildingKind::FossilStones => seq![],
        BuildingKind::ReedBed => seq![],
        BuildingKind::TidalGate => seq![],
        BuildingKind::SporeTower => seq![],
        BuildingKind::TheDumpster => seq![UnitKind::Scrounger],
        BuildingKind::ScrapHeap => seq![],
        BuildingKind::ChopShop => seq![UnitKind::Bandit, UnitKind::Wrecker, UnitKind::HeapTitan, UnitKind::GreaseMonkey],
        BuildingKind::JunkServer => seq![UnitKind::GlitchRat, UnitKind::PatchPossum],
        BuildingKind::TinkerBench => seq![UnitKind::DeadDropUnit, UnitKind::DumpsterDiver, UnitKind::JunkyardKing],
        BuildingKind::TrashPile => seq![],
        BuildingKind::DumpsterRelay => seq![],
        BuildingKind::TetanusTower => seq![],
    }
}

/// Whether `s` holds exactly the stats of `kind`.
pub open spec fn is_building_stats(s: BuildingBaseStats, kind: BuildingKind) -> bool {
    let n = spec_building_numbers(kind);
    building_row(s, n.0, n.1, n.2, n.3, n.4, spec_can_produce(kind))
}

/// Looks up a row of group 0.
fn building_stats_0(kind: BuildingKind) -> (s: BuildingBaseStats)
    requires
        kind == BuildingKind::TheBox || kind == BuildingKind::CatTree || kind == BuildingKind::FishMarket || kind == BuildingKind::LitterBox || kind == BuildingKind::ServerRack || kind == BuildingKind::ScratchingPost || kind == BuildingKind::CatFlap || kind == BuildingKind::LaserPointer || kind == BuildingKind::TheParliament || kind == BuildingKind::Rookery || kind == BuildingKind::CarrionCache || kind == BuildingKind::AntennaArray || kind == BuildingKind::Panopticon || kind == BuildingKind::NestBox || kind == BuildingKind::ThornHedge || kind == BuildingKind::Watchtower || kind == BuildingKind::TheBurrow || kind == BuildingKind::NestingBox || kind == BuildingKind::SeedVault || kind == BuildingKind::JunkTransmitter || kind == BuildingKind::GnawLab || kind == BuildingKind::WarrenExpansion || kind == BuildingKind::Mousehole || kind == BuildingKind::SqueakTower,
    ensures
        is_building_stats(s, kind),
{
    match kind {
        BuildingKind::TheBox => BuildingBaseStats { health: Fixed::from_bits(32768000), build_time: 0, food_cost: 0, gpu_cost: 0, supply_provided: 10, can_produce: &[UnitKind::Pawdler] },
        BuildingKind::CatTree => BuildingBaseStats { health: Fixed::from_bits(19660800), build_time: 150, food_cost: 150, gpu_cost: 0, supply_provided: 0, can_produce: &[UnitKind::Nuisance, UnitKind::Hisser, UnitKind::Chonk, UnitKind::Yowler] },
        BuildingKind::FishMarket => BuildingBaseStats { health: Fixed::from_bits(13107200), build_time: 100, food_cost: 100, gpu_cost: 0, supply_provided: 0, can_produce: &[] },
        BuildingKind::LitterBox => BuildingBaseStats { health: Fixed::from_bits(6553600), build_time: 75, food_cost: 75, gpu_cost: 0, supply_provided: 10, can_produce: &[] },
        BuildingKind::ServerRack => BuildingBaseStats { health: Fixed::from_bits(16384000), build_time: 120, food_cost: 100, gpu_cost: 75, supply_provided: 0, can_produce: &[UnitKind::FlyingFox, UnitKind::Mouser, UnitKind::Catnapper, UnitKind::FerretSapper, UnitKind::MechCommander] },
        BuildingKind::ScratchingPost => BuildingBaseStats { health: Fixed::from_bits(13107200), build_time: 100, food_cost: 100, gpu_cost: 50, supply_provided: 0, can_produce: &[] },
        BuildingKind::CatFlap => BuildingBaseStats { health: Fixed::from_bits(26214400), build_time: 100, food_cost: 150, gpu_cost: 0, supply_provided: 0, can_produce: &[] },
        BuildingKind::LaserPointer => BuildingBaseStats { health: Fixed::from_bits(9830400), build_time: 80, food_cost: 75, gpu_cost: 25, supply_provided: 0, can_produce: &[] },
        BuildingKind::TheParliament => BuildingBaseStats { health: Fixed::from_bits(29491200), build_time: 0, food_cost: 0, gpu_cost: 0, supply_provided: 10, can_produce: &[UnitKind::MurderScrounger] },
        BuildingKind::Rookery => BuildingBaseStats { health: Fixed::from_bits(18022400), build_time: 140, food_cost: 150, gpu_cost: 0, supply_provided: 0, can_produce: &[UnitKind::Sentinel, UnitKind::Rookclaw, UnitKind::Magpike, UnitKind::Jaycaller] },
        BuildingKind::CarrionCache => BuildingBaseStats { health: Fixed::from_bits(11796480), build_time: 100, food_cost: 100, gpu_cost: 0, supply_provided: 0, can_produce: &[] },
        BuildingKind::AntennaArray => BuildingBaseStats { health: Fixed::from_bits(14745600), build_time: 120, food_cost: 100, gpu_cost: 75, supply_provided: 0, can_produce: &[UnitKind::Magpyre, UnitKind::Jayflicker, UnitKind::Dusktalon, UnitKind::Hootseer, UnitKind::CorvusRex] },
        BuildingKind::Panopticon => BuildingBaseStats { health: Fixed::from_bits(13107200), build_time: 120, food_cost: 125, gpu_cost: 75, supply_provided: 0, can_produce: &[] },
        BuildingKind::NestBox => BuildingBaseStats { health: Fixed::from_bits(5898240), build_time: 75, food_cost: 75, gpu_cost: 0, supply_provided: 10, can_produce: &[] },
        BuildingKind::ThornHedge => BuildingBaseStats { health: Fixed::from_bits(7864320), build_time: 40, food_cost: 30, gpu_cost: 0, supply_provided: 0, can_produce: &[] },
        BuildingKind::Watchtower => BuildingBaseStats { health: Fixed::from_bits(9175040), build_time: 80, food_cost: 75, gpu_cost: 25, supply_provided: 0, can_produce: &[] },
        BuildingKind::TheBurrow => BuildingBaseStats { health: Fixed::from_bits(26214400), build_time: 0, food_cost: 0, gpu_cost: 0, supply_provided: 10, can_produce: &[UnitKind::Nibblet] },
        BuildingKind::NestingBox => BuildingBaseStats { health: Fixed::from_bits(16384000), build_time: 120, food_cost: 100, gpu_cost: 0, supply_provided: 0, can_produce: &[UnitKind::Swarmer, UnitKind::Gnawer, UnitKind::Plaguetail, UnitKind::Sparks] },
        BuildingKind::SeedVault => BuildingBaseStats { health: Fixed::from_bits(11796480), build_time: 80, food_cost: 75, gpu_cost: 0, supply_provided: 0, can_produce: &[] },
        BuildingKind::JunkTransmitter => BuildingBaseStats { health: Fixed::from_bits(12451840), build_time: 100, food_cost: 75, gpu_cost: 50, supply_provided: 0, can_produce: &[UnitKind::Shrieker, UnitKind::Tunneler, UnitKind::Quillback, UnitKind::Whiskerwitch, UnitKind::WarrenMarshal] },
        BuildingKind::GnawLab => BuildingBaseStats { health: Fixed::from_bits(10485760), build_time: 100, food_cost: 80, gpu_cost: 40, supply_provided: 0, can_produce: &[] },
        BuildingKind::WarrenExpansion => BuildingBaseStats { health: Fixed::from_bits(5242880), build_time: 60, food_cost: 50, gpu_cost: 0, supply_provided: 10, can_produce: &[] },
        BuildingKind::Mousehole => BuildingBaseStats { health: Fixed::from_bits(19660800), build_time: 80, food_cost: 100, gpu_cost: 0, supply_provided: 0, can_produce: &[] },
        BuildingKind::SqueakTower => BuildingBaseStats { health: Fixed::from_bits(7864320), build_time: 70, food_cost: 60, gpu_cost: 20, supply_provided: 0, can_produce: &[] },
        _ => BuildingBaseStats { health: Fixed::from_bits(32768000), build_time: 0, food_cost: 0, gpu_cost: 0, supply_provided: 10, can_produce: &[UnitKind::Pawdler] },
    }
}

/// Looks up a row of group 1.
fn building_stats_1(kind: BuildingKind) -> (s: BuildingBaseStats)
    requires
        kind == BuildingKind::TheSett || kind == BuildingKind::WarHollow || kind == BuildingKind::BurrowDepot || kind == BuildingKind::CoreTap || kind == BuildingKind::ClawMarks || kind == BuildingKind::DeepWarren || kind == BuildingKind::BulwarkGate || kind == BuildingKind::SlagThrower || kind == BuildingKind::TheGrotto || kind == BuildingKind::SpawningPools || kind == BuildingKind::LilyMarket || kind == BuildingKind::SunkenServer || kind == BuildingKind::FossilStones || kind == BuildingKind::ReedBed || kind == BuildingKind::TidalGate || kind == BuildingKind::SporeTower || kind == BuildingKind::TheDumpster || kind == BuildingKind::ScrapHeap || kind == BuildingKind::ChopShop || kind == BuildingKind::JunkServer || kind == BuildingKind::TinkerBench || kind == BuildingKind::TrashPile || kind == BuildingKind::DumpsterRelay || kind == BuildingKind::TetanusTower,
    ensures
        is_building_stats(s, kind),
{
    match kind {
        BuildingKind::TheSett => BuildingBaseStats { health: Fixed::from_bits(39321600), build_time: 0, food_cost: 0, gpu_cost: 0, supply_provided: 10, can_produce: &[UnitKind::Delver] },
        BuildingKind::WarHollow => BuildingBaseStats { health: Fixed::from_bits(26214400), build_time: 180, food_cost: 175, gpu_cost: 0, supply_provided: 0, can_produce: &[UnitKind::Ironhide, UnitKind::Sapjaw, UnitKind::Warden, UnitKind::Gutripper] },
        BuildingKind::BurrowDepot => BuildingBaseStats { health: Fixed::from_bits(16384000), build_time: 120, food_cost: 100, gpu_cost: 0, supply_provided: 0, can_produce: &[] },
        BuildingKind::CoreTap => BuildingBaseStats { health: Fixed::from_bits(19660800), build_time: 150, food_cost: 125, gpu_cost: 100, supply_provided: 0, can_produce: &[UnitKind::SeekerTunneler, UnitKind::Embermaw, UnitKind::Dustclaw, UnitKind::Cragback, UnitKind::Wardenmother] },
        BuildingKind::ClawMarks => BuildingBaseStats { health: Fixed::from_bits(16384000), build_time: 120, food_cost: 125, gpu_cost: 75, supply_provided: 0, can_produce: &[] },
        BuildingKind::DeepWarren => BuildingBaseStats { health: Fixed::from_bits(8192000), build_time: 95, food_cost: 80, gpu_cost: 0, supply_provided: 12, can_produce: &[] },
        BuildingKind::BulwarkGate => BuildingBaseStats { health: Fixed::from_bits(32768000), build_time: 120, food_cost: 175, gpu_cost: 0, supply_provided: 0, can_produce: &[] },
        BuildingKind::SlagThrower => BuildingBaseStats { health: Fixed::from_bits(13107200), build_time: 100, food_cost: 100, gpu_cost: 50, supply_provided: 0, can_produce: &[] },
        BuildingKind::TheGrotto => BuildingBaseStats { health: Fixed::from_bits(32768000), build_time: 0, food_cost: 0, gpu_cost: 0, supply_provided: 10, can_produce: &[UnitKind::Ponderer] },
        BuildingKind::SpawningPools => BuildingBaseStats { health: Fixed::from_bits(19660800), build_time: 150, food_cost: 150, gpu_cost: 0, supply_provided: 0, can_produce: &[UnitKind::Regeneron, UnitKind::Croaker, UnitKind::Leapfrog, UnitKind::Gulper] },
        BuildingKind::LilyMarket => BuildingBaseStats { health: Fixed::from_bits(13107200), build_time: 100, food_cost: 100, gpu_cost: 0, supply_provided: 0, can_produce: &[] },
        BuildingKind::SunkenServer => BuildingBaseStats { health: Fixed::from_bits(16384000), build_time: 120, food_cost: 100, gpu_cost: 75, supply_provided: 0, can_produce: &[UnitKind::Eftsaber, UnitKind::Broodmother, UnitKind::Shellwarden, UnitKind::Bogwhisper, UnitKind::MurkCommander] },
        BuildingKind::FossilStones => BuildingBaseStats { health: Fixed::from_bits(13107200), build_time: 100, food_cost: 100, gpu_cost: 50, supply_provided: 0, can_produce: &[] },
        BuildingKind::ReedBed => BuildingBaseStats { health: Fixed::from_bits(6553600), build_time: 75, food_cost: 75, gpu_cost: 0, supply_provided: 10, can_produce: &[] },
        BuildingKind::TidalGate => BuildingBaseStats { health: Fixed::from_bits(26214400), build_time: 100, food_cost: 150, gpu_cost: 0, supply_provided: 0, can_produce: &[] },
        BuildingKind::SporeTower => BuildingBaseStats { health: Fixed::from_bits(9830400), build_time: 80, food_cost: 75, gpu_cost: 25, supply_provided: 0, can_produce: &[] },
        BuildingKind::TheDumpster => BuildingBaseStats { health: Fixed::from_bits(32768000), build_time: 0, food_cost: 0, gpu_cost: 0, supply_provided: 10, can_produce: &[UnitKind::Scrounger] },
        BuildingKind::ScrapHeap => BuildingBaseStats { health: Fixed::from_bits(11796480), build_time: 90, food_cost: 90, gpu_cost: 0, supply_provided: 0, can_produce: &[] },
        BuildingKind::ChopShop => BuildingBaseStats { health: Fixed::from_bits(18350080), build_time: 140, food_cost: 140, gpu_cost: 0, supply_provided: 0, can_produce: &[UnitKind::Bandit, UnitKind::Wrecker, UnitKind::HeapTitan, UnitKind::GreaseMonkey] },
        BuildingKind::JunkServer => BuildingBaseStats { health: Fixed::from_bits(15073280), build_time: 110, food_cost: 90, gpu_cost: 65, supply_provided: 0, can_produce: &[UnitKind::GlitchRat, UnitKind::PatchPossum] },
        BuildingKind::TinkerBench => BuildingBaseStats { health: Fixed::from_bits(12451840), build_time: 95, food_cost: 85, gpu_cost: 55, supply_provided: 0, can_produce: &[UnitKind::DeadDropUnit, UnitKind::DumpsterDiver, UnitKind::JunkyardKing] },
        BuildingKind::TrashPile => BuildingBaseStats { health: Fixed::from_bits(5898240), build_time: 70, food_cost: 70, gpu_cost: 0, supply_provided: 10, can_produce: &[] },
        BuildingKind::DumpsterRelay => BuildingBaseStats { health: Fixed::from_bits(9830400), build_time: 80, food_cost: 80, gpu_cost: 30, supply_provided: 0, can_produce: &[] },
        BuildingKind::TetanusTower => BuildingBaseStats { health: Fixed::from_bits(9175040), build_time: 75, food_cost: 70, gpu_cost: 20, supply_provided: 0, can_produce: &[] },
        _ => BuildingBaseStats { health: Fixed::from_bits(39321600), build_time: 0, food_cost: 0, gpu_cost: 0, supply_provided: 10, can_produce: &[UnitKind::Delver] },
    }
}

/// Return the base stats for a given building kind.
pub fn building_stats(kind: BuildingKind) -> (s: BuildingBaseStats)
    ensures
        is_building_stats(s, kind),
{
    match kind {
        BuildingKind::TheBox | BuildingKind::CatTree | BuildingKind::FishMarket | BuildingKind::LitterBox | BuildingKind::ServerRack | BuildingKind::ScratchingPost | BuildingKind::CatFlap | BuildingKind::LaserPointer | BuildingKind::TheParliament | BuildingKind::Rookery | BuildingKind::CarrionCache | BuildingKind::AntennaArray | BuildingKind::Panopticon | BuildingKind::NestBox | BuildingKind::ThornHedge | BuildingKind::Watchtower | BuildingKind::TheBurrow | BuildingKind::NestingBox | BuildingKind::SeedVault | BuildingKind::JunkTransmitter | BuildingKind::GnawLab | BuildingKind::WarrenExpansion | BuildingKind::Mousehole | BuildingKind::SqueakTower => building_stats_0(kind),
        BuildingKind::TheSett | BuildingKind::WarHollow | BuildingKind::BurrowDepot | BuildingKind::CoreTap | BuildingKind::ClawMarks | BuildingKind::DeepWarren | BuildingKind::BulwarkGate | BuildingKind::SlagThrower | BuildingKind::TheGrotto | BuildingKind::SpawningPools | BuildingKind::LilyMarket | BuildingKind::SunkenServer | BuildingKind::FossilStones | BuildingKind::ReedBed | BuildingKind::TidalGate | BuildingKind::SporeTower | BuildingKind::TheDumpster | BuildingKind::ScrapHeap | BuildingKind::ChopShop | BuildingKind::JunkServer | BuildingKind::TinkerBench | BuildingKind::TrashPile | BuildingKind::DumpsterRelay | BuildingKind::TetanusTower => building_stats_1(kind),
    }
}

/// The one building kind that trains each unit kind.
pub open spec fn producer_of(unit: UnitKind) -> BuildingKind {
    match unit {
        UnitKind::Pawdler => BuildingKind::TheBox,
        UnitKind::Nuisance => BuildingKind::CatTree,
        UnitKind::Chonk => BuildingKind::CatTree,
        UnitKind::FlyingFox => BuildingKind::ServerRack,
        UnitKind::Hisser => BuildingKind::CatTree,
        UnitKind::Yowler => BuildingKind::CatTree,
        UnitKind::Mouser => BuildingKind::ServerRack,
        UnitKind::Catnapper => BuildingKind::ServerRack,
        UnitKind::FerretSapper => BuildingKind::ServerRack,
        UnitKind::MechCommander => BuildingKind::ServerRack,
        UnitKind::MurderScrounger => BuildingKind::TheParliament,
        UnitKind::Sentinel => BuildingKind::Rookery,
        UnitKind::Rookclaw => BuildingKind::Rookery,
        UnitKind::Magpike => BuildingKind::Rookery,
        UnitKind::Magpyre => BuildingKind::AntennaArray,
        UnitKind::Jaycaller => BuildingKind::Rookery,
        UnitKind::Jayflicker => BuildingKind::AntennaArray,
        UnitKind::Dusktalon => BuildingKind::AntennaArray,
        UnitKind::Hootseer => BuildingKind::AntennaArray,
        UnitKind::CorvusRex => BuildingKind::AntennaArray,
        UnitKind::Delver => BuildingKind::TheSett,
        UnitKind::Ironhide => BuildingKind::WarHollow,
        UnitKind::Cragback => BuildingKind::CoreTap,
        UnitKind::Warden => BuildingKind::WarHollow,
        UnitKind::Sapjaw => BuildingKind::WarHollow,
        UnitKind::Wardenmother => BuildingKind::CoreTap,
        UnitKind::SeekerTunneler => BuildingKind::CoreTap,
        UnitKind::Embermaw => BuildingKind::CoreTap,
        UnitKind::Dustclaw => BuildingKind::CoreTap,
        UnitKind::Gutripper => BuildingKind::WarHollow,
        UnitKind::Nibblet => BuildingKind::TheBurrow,
        UnitKind::Swarmer => BuildingKind::NestingBox,
        UnitKind::Gnawer => BuildingKind::NestingBox,
        UnitKind::Shrieker => BuildingKind::JunkTransmitter,
        UnitKind::Tunneler => BuildingKind::JunkTransmitter,
        UnitKind::Sparks => BuildingKind::NestingBox,
        UnitKind::Quillback => BuildingKind::JunkTransmitter,
        UnitKind::Whiskerwitch => BuildingKind::JunkTransmitter,
        UnitKind::Plaguetail => BuildingKind::NestingBox,
        UnitKind::WarrenMarshal => BuildingKind::JunkTransmitter,
        UnitKind::Ponderer => BuildingKind::TheGrotto,
        UnitKind::Regeneron => BuildingKind::SpawningPools,
        UnitKind::Broodmother => BuildingKind::SunkenServer,
        UnitKind::Gulper => BuildingKind::SpawningPools,
        UnitKind::Eftsaber => BuildingKind::SunkenServer,
        UnitKind::Croaker => BuildingKind::SpawningPools,
        UnitKind::Leapfrog => BuildingKind::SpawningPools,
        UnitKind::Shellwarden => BuildingKind::SunkenServer,
        UnitKind::Bogwhisper => BuildingKind::SunkenServer,
        UnitKind::MurkCommander => BuildingKind::SunkenServer,
        UnitKind::Scrounger => BuildingKind::TheDumpster,
        UnitKind::Bandit => BuildingKind::ChopShop,
        UnitKind::HeapTitan => BuildingKind::ChopShop,
        UnitKind::GlitchRat => BuildingKind::JunkServer,
        UnitKind::PatchPossum => BuildingKind::JunkServer,
        UnitKind::GreaseMonkey => BuildingKind::ChopShop,
        UnitKind::DeadDropUnit => BuildingKind::TinkerBench,
        UnitKind::Wrecker => BuildingKind::ChopShop,
        UnitKind::DumpsterDiver => BuildingKind::TinkerBench,
        UnitKind::JunkyardKing => BuildingKind::TinkerBench,
    }
}

/// Every building has positive health. Exactly the headquarters are
/// pre-built (no build time); they are free, provide ten supply, and train
/// exactly one unit kind, a worker.
pub proof fn lemma_building_stats_sane(kind: BuildingKind)
    ensures
        spec_building_numbers(kind).0 > 0,
        (spec_building_numbers(kind).1 == 0) == kind.spec_is_hq(),
        kind.spec_is_hq() ==> spec_building_numbers(kind).2 == 0 && spec_building_numbers(kind).3 == 0
            && spec_building_numbers(kind).4 == 10 && spec_can_produce(kind).len() == 1
            && spec_can_produce(kind)[0].spec_is_worker(),
{
}

/// Each unit kind is trained by exactly one building kind: `producer_of`
/// lists it, and every building that lists it is `producer_of` it.
pub proof fn lemma_unique_producer(kind: BuildingKind, unit: UnitKind)
    ensures
        spec_can_produce(producer_of(unit)).contains(unit),
        spec_can_produce(kind).contains(unit) ==> kind == producer_of(unit),
{
    assert(forall|i: int| 0 <= i < spec_can_produce(kind).len() ==> producer_of(#[trigger] spec_can_produce(kind)[i]) == kind);
    match unit {
        UnitKind::Pawdler => assert(spec_can_produce(BuildingKind::TheBox)[0] == unit),
        UnitKind::Nuisance => assert(spec_can_produce(BuildingKind::CatTree)[0] == unit),
        UnitKind::Chonk => assert(spec_can_produce(BuildingKind::CatTree)[2] == unit),
        UnitKind::FlyingFox => assert(spec_can_produce(BuildingKind::ServerRack)[0] == unit),
        UnitKind::Hisser => assert(spec_can_produce(BuildingKind::CatTree)[1] == unit),
        UnitKind::Yowler => assert(spec_can_produce(BuildingKind::CatTree)[3] == unit),
        UnitKind::Mouser => assert(spec_can_produce(BuildingKind::ServerRack)[1] == unit),
        UnitKind::Catnapper => assert(spec_can_produce(BuildingKind::ServerRack)[2] == unit),
        UnitKind::FerretSapper => assert(spec_can_produce(BuildingKind::ServerRack)[3] == unit),
        UnitKind::MechCommander => assert(spec_can_produce(BuildingKind::ServerRack)[4] == unit),
        UnitKind::MurderScrounger => assert(spec_can_produce(BuildingKind::TheParliament)[0] == unit),
        UnitKind::Sentinel => assert(spec_can_produce(BuildingKind::Rookery)[0] == unit),
        UnitKind::Rookclaw => assert(spec_can_produce(BuildingKind::Rookery)[1] == unit),
        UnitKind::Magpike => assert(spec_can_produce(BuildingKind::Rookery)[2] == unit),
        UnitKind::Magpyre => assert(spec_can_produce(BuildingKind::AntennaArray)[0] == unit),
        UnitKind::Jaycaller => assert(spec_can_produce(BuildingKind::Rookery)[3] == unit),
        UnitKind::Jayflicker => assert(spec_can_produce(BuildingKind::AntennaArray)[1] == unit),
        UnitKind::Dusktalon => assert(spec_can_produce(BuildingKind::AntennaArray)[2] == unit),
        UnitKind::Hootseer => assert(spec_can_produce(BuildingKind::AntennaArray)[3] == unit),
        UnitKind::CorvusRex => assert(spec_can_produce(BuildingKind::AntennaArray)[4] == unit),
        UnitKind::Delver => assert(spec_can_produce(BuildingKind::TheSett)[0] == unit),
        UnitKind::Ironhide => assert(spec_can_produce(BuildingKind::WarHollow)[0] == unit),
        UnitKind::Cragback => assert(spec_can_produce(BuildingKind::CoreTap)[3] == unit),
        UnitKind::Warden => assert(spec_can_produce(BuildingKind::WarHollow)[2] == unit),
        UnitKind::Sapjaw => assert(spec_can_produce(BuildingKind::WarHollow)[1] == unit),
        UnitKind::Wardenmother => assert(spec_can_produce(BuildingKind::CoreTap)[4] == unit),
        UnitKind::SeekerTunneler => assert(spec_can_produce(BuildingKind::CoreTap)[0] == unit),
        UnitKind::Embermaw => assert(spec_can_produce(BuildingKind::CoreTap)[1] == unit),
        UnitKind::Dustclaw => assert(spec_can_produce(BuildingKind::CoreTap)[2] == unit),
        UnitKind::Gutripper => assert(spec_can_produce(BuildingKind::WarHollow)[3] == unit),
        UnitKind::Nibblet => assert(spec_can_produce(BuildingKind::TheBurrow)[0] == unit),
        UnitKind::Swarmer => assert(spec_can_produce(BuildingKind::NestingBox)[0] == unit),
        UnitKind::Gnawer => assert(spec_can_produce(BuildingKind::NestingBox)[1] == unit),
        UnitKind::Shrieker => assert(spec_can_produce(BuildingKind::JunkTransmitter)[0] == unit),
        UnitKind::Tunneler => assert(spec_can_produce(BuildingKind::JunkTransmitter)[1] == unit),
        UnitKind::Sparks => assert(spec_can_produce(BuildingKind::NestingBox)[3] == unit),
        UnitKind::Quillback => assert(spec_can_produce(BuildingKind::JunkTransmitter)[2] == unit),
        UnitKind::Whiskerwitch => assert(spec_can_produce(BuildingKind::JunkTransmitter)[3] == unit),
        UnitKind::Plaguetail => assert(spec_can_produce(BuildingKind::NestingBox)[2] == unit),
        UnitKind::WarrenMarshal => assert(spec_can_produce(BuildingKind::JunkTransmitter)[4] == unit),
        UnitKind::Ponderer => assert(spec_can_produce(BuildingKind::TheGrotto)[0] == unit),
        UnitKind::Regeneron => assert(spec_can_produce(BuildingKind::SpawningPools)[0] == unit),
        UnitKind::Broodmother => assert(spec_can_produce(BuildingKind::SunkenServer)[1] == unit),
        UnitKind::Gulper => assert(spec_can_produce(BuildingKind::SpawningPools)[3] == unit),
        UnitKind::Eftsaber => assert(spec_can_produce(BuildingKind::SunkenServer)[0] == unit),
        UnitKind::Croaker => assert(spec_can_produce(BuildingKind::SpawningPools)[1] == unit),
        UnitKind::Leapfrog => assert(spec_can_produce(BuildingKind::SpawningPools)[2] == unit),
        UnitKind::Shellwarden => assert(spec_can_produce(BuildingKind::SunkenServer)[2] == unit),
        UnitKind::Bogwhisper => assert(spec_can_produce(BuildingKind::SunkenServer)[3] == unit),
        UnitKind::MurkCommander => assert(spec_can_produce(BuildingKind::SunkenServer)[4] == unit),
        UnitKind::Scrounger => assert(spec_can_produce(BuildingKind::TheDumpster)[0] == unit),
        UnitKind::Bandit => assert(spec_can_produce(BuildingKind::ChopShop)[0] == unit),
        UnitKind::HeapTitan => assert(spec_can_produce(BuildingKind::ChopShop)[2] == unit),
        UnitKind::GlitchRat => assert(spec_can_produce(BuildingKind::JunkServer)[0] == unit),
        UnitKind::PatchPossum => assert(spec_can_produce(BuildingKind::JunkServer)[1] == unit),
        UnitKind::GreaseMonkey => assert(spec_can_produce(BuildingKind::ChopShop)[3] == unit),
        UnitKind::DeadDropUnit => assert(spec_can_produce(BuildingKind::TinkerBench)[0] == unit),
        UnitKind::Wrecker => assert(spec_can_produce(BuildingKind::ChopShop)[1] == unit),
        UnitKind::DumpsterDiver => assert(spec_can_produce(BuildingKind::TinkerBench)[1] == unit),
        UnitKind::JunkyardKing => assert(spec_can_produce(BuildingKind::TinkerBench)[2] == unit),
    }
}

} // verus!