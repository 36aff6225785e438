//! Base combat and economy stats of every unit kind.

use crate::components::{AttackType, UnitKind};
use crate::math::Fixed;
use vstd::prelude::*;

verus! {

/// Compile-time base stats for each unit type.
pub struct UnitBaseStats {
    pub health: Fixed,
    pub speed: Fixed,
    pub damage: Fixed,
    pub range: Fixed,
    pub attack_speed: u32, // ticks between attacks
    pub attack_type: AttackType,
    // Economy
    pub food_cost: u32,
    pub gpu_cost: u32,
    pub supply_cost: u32,
    pub train_time: u32, // ticks
}

/// Stats from one row of the table; the first four values are raw 16.16 bits.
pub open spec fn unit_row(
    health: i32,
    speed: i32,
    damage: i32,
    range: i32,
    attack_speed: u32,
    attack_type: AttackType,
    food_cost: u32,
    gpu_cost: u32,
    supply_cost: u32,
    train_time: u32,
) -> UnitBaseStats {
    UnitBaseStats {
        health: Fixed { bits: health },
        speed: Fixed { bits: speed },
        damage: Fixed { bits: damage },
        range: Fixed { bits: range },
        attack_speed,
        attack_type,
        food_cost,
        gpu_cost,
        supply_cost,
        train_time,
    }
}

/// Builds one row of the unit table.
fn make_unit(
    health: i32,
    speed: i32,
    damage: i32,
    range: i32,
    attack_speed: u32,
    attack_type: AttackType,
    food_cost: u32,
    gpu_cost: u32,
    supply_cost: u32,
    train_time: u32,
) -> (s: UnitBaseStats)
    ensures
        s == unit_row(health, speed, damage, range, attack_speed, attack_type, food_cost, gpu_cost, supply_cost, train_time),
{
    UnitBaseStats {
        health: Fixed::from_bits(health),
        speed: Fixed::from_bits(speed),
        damage: Fixed::from_bits(damage),
        range: Fixed::from_bits(range),
        attack_speed,
        attack_type,
        food_cost,
        gpu_cost,
        supply_cost,
        train_time,
    }
}

/// Rows of the unit table for the kinds of group 0.
pub open spec fn unit_rows_0(kind: UnitKind) -> UnitBaseStats {
    match kind {
        UnitKind::Pawdler => unit_row(3932160, 7864, 262144, 65536, 15, AttackType::Melee, 50, 0, 1, 50),
        UnitKind::Nuisance => unit_row(5242880, 11796, 524288, 65536, 10, AttackType::Melee, 75, 0, 1, 60),
        UnitKind::Chonk => unit_row(19660800, 5242, 786432, 65536, 20, AttackType::Melee, 150, 25, 3, 120),
        UnitKind::FlyingFox => unit_row(5242880, 14745, 655360, 131072, 12, AttackType::Ranged, 100, 25, 2, 80),
        UnitKind::Hisser => unit_row(4587520, 7864, 786432, 327680, 13, AttackType::Ranged, 100, 0, 2, 80),
        UnitKind::Yowler => unit_row(5898240, 9175, 327680, 262144, 15, AttackType::Ranged, 100, 50, 2, 100),
        UnitKind::Mouser => unit_row(4915200, 13107, 655360, 65536, 8, AttackType::Melee, 75, 25, 1, 60),
        UnitKind::Catnapper => unit_row(7864320, 3932, 1638400, 131072, 30, AttackType::Ranged, 200, 50, 3, 150),
        UnitKind::FerretSapper => unit_row(4259840, 11141, 1310720, 65536, 25, AttackType::Melee, 125, 50, 2, 100),
        UnitKind::MechCommander => unit_row(32768000, 6553, 1179648, 196608, 15, AttackType::Ranged, 400, 200, 6, 250),
        UnitKind::MurderScrounger => unit_row(3604480, 9175, 196608, 65536, 15, AttackType::Melee, 50, 0, 1, 50),
        UnitKind::Sentinel => unit_row(3932160, 10486, 786432, 393216, 14, AttackType::Ranged, 75, 0, 1, 60),
        UnitKind::Rookclaw => unit_row(4587520, 13107, 655360, 65536, 10, AttackType::Melee, 75, 0, 1, 55),
        UnitKind::Magpike => unit_row(3604480, 11796, 524288, 262144, 10, AttackType::Ranged, 85, 25, 2, 65),
        UnitKind::Magpyre => unit_row(3276800, 11141, 524288, 196608, 15, AttackType::Ranged, 100, 50, 2, 90),
        _ => unit_row(3932160, 7864, 262144, 65536, 15, AttackType::Melee, 50, 0, 1, 50),
    }
}

/// Rows of the unit table for the kinds of group 1.
pub open spec fn unit_rows_1(kind: UnitKind) -> UnitBaseStats {
    match kind {
        UnitKind::Jaycaller => unit_row(5570560, 9175, 327680, 262144, 15, AttackType::Ranged, 100, 50, 2, 100),
        UnitKind::Jayflicker => unit_row(3932160, 10486, 458752, 196608, 12, AttackType::Ranged, 125, 50, 2, 90),
        UnitKind::Dusktalon => unit_row(4259840, 13107, 983040, 65536, 8, AttackType::Melee, 125, 25, 2, 80),
        UnitKind::Hootseer => unit_row(6553600, 6554, 524288, 327680, 18, AttackType::Ranged, 150, 50, 3, 120),
        UnitKind::CorvusRex => unit_row(29491200, 6554, 1048576, 262144, 15, AttackType::Ranged, 400, 200, 6, 250),
        UnitKind::Delver => unit_row(3276800, 6553, 196608, 65536, 18, AttackType::Melee, 50, 0, 1, 55),
        UnitKind::Ironhide => unit_row(16384000, 6553, 1048576, 65536, 18, AttackType::Melee, 125, 0, 2, 100),
        UnitKind::Cragback => unit_row(22937600, 3932, 1966080, 524288, 30, AttackType::Ranged, 200, 50, 4, 150),
        UnitKind::Warden => unit_row(7864320, 6553, 917504, 327680, 15, AttackType::Ranged, 100, 0, 2, 80),
        UnitKind::Sapjaw => unit_row(7864320, 9175, 917504, 65536, 12, AttackType::Melee, 100, 0, 2, 80),
        UnitKind::Wardenmother => unit_row(39321600, 5242, 1441792, 196608, 15, AttackType::Ranged, 450, 250, 6, 280),
        UnitKind::SeekerTunneler => unit_row(5242880, 9175, 393216, 65536, 20, AttackType::Melee, 75, 25, 1, 70),
        UnitKind::Embermaw => unit_row(5898240, 6553, 1048576, 393216, 15, AttackType::Ranged, 125, 25, 2, 90),
        UnitKind::Dustclaw => unit_row(4587520, 10486, 655360, 65536, 10, AttackType::Melee, 75, 0, 1, 60),
        UnitKind::Gutripper => unit_row(10485760, 7864, 1310720, 65536, 8, AttackType::Melee, 150, 25, 3, 120),
        _ => unit_row(5570560, 9175, 327680, 262144, 15, AttackType::Ranged, 100, 50, 2, 100),
    }
}

/// Rows of the unit table for the kinds of group 2.
pub open spec fn unit_rows_2(kind: UnitKind) -> UnitBaseStats {
    match kind {
        UnitKind::Nibblet => unit_row(2621440, 9830, 196608, 65536, 15, AttackType::Melee, 30, 0, 1, 35),
        UnitKind::Swarmer => unit_row(4587520, 13107, 458752, 65536, 6, AttackType::Melee, 40, 0, 1, 30),
        UnitKind::Gnawer => unit_row(3604480, 6553, 393216, 65536, 12, AttackType::Melee, 50, 0, 1, 45),
        UnitKind::Shrieker => unit_row(2949120, 9175, 524288, 196608, 10, AttackType::Ranged, 55, 0, 1, 40),
        UnitKind::Tunneler => unit_row(3932160, 5898, 262144, 65536, 15, AttackType::Melee, 75, 25, 2, 70),
        UnitKind::Sparks => unit_row(3276800, 11141, 655360, 262144, 10, AttackType::Ranged, 60, 0, 1, 50),
        UnitKind::Quillback => unit_row(13107200, 3932, 655360, 65536, 18, AttackType::Melee, 100, 15, 2, 80),
        UnitKind::Whiskerwitch => unit_row(3276800, 7864, 262144, 262144, 14, AttackType::Ranged, 70, 30, 2, 65),
        UnitKind::Plaguetail => unit_row(3932160, 7209, 655360, 262144, 12, AttackType::Ranged, 45, 0, 1, 40),
        UnitKind::WarrenMarshal => unit_row(19660800, 5242, 786432, 196608, 14, AttackType::Ranged, 250, 125, 4, 200),
        UnitKind::Ponderer => unit_row(3604480, 6553, 196608, 65536, 18, AttackType::Melee, 50, 0, 1, 50),
        UnitKind::Regeneron => unit_row(5242880, 10485, 524288, 65536, 8, AttackType::Melee, 70, 0, 1, 55),
        UnitKind::Broodmother => unit_row(6553600, 6553, 262144, 196608, 15, AttackType::Ranged, 125, 25, 2, 100),
        UnitKind::Gulper => unit_row(19660800, 4587, 917504, 65536, 16, AttackType::Melee, 160, 25, 3, 115),
        UnitKind::Eftsaber => unit_row(3932160, 11796, 786432, 65536, 9, AttackType::Melee, 100, 25, 2, 80),
        _ => unit_row(2621440, 9830, 196608, 65536, 15, AttackType::Melee, 30, 0, 1, 35),
    }
}

/// Rows of the unit table for the kinds of group 3.
pub open spec fn unit_rows_3(kind: UnitKind) -> UnitBaseStats {
    match kind {
        UnitKind::Croaker => unit_row(4259840, 6553, 1048576, 393216, 18, AttackType::Ranged, 90, 0, 2, 70),
        UnitKind::Leapfrog => unit_row(4587520, 11141, 524288, 65536, 10, AttackType::Melee, 75, 0, 1, 60),
        UnitKind::Shellwarden => unit_row(22937600, 3932, 393216, 65536, 22, AttackType::Melee, 175, 50, 4, 140),
        UnitKind::Bogwhisper => unit_row(5242880, 7209, 327680, 327680, 15, AttackType::Ranged, 125, 50, 3, 100),
        UnitKind::MurkCommander => unit_row(29491200, 5898, 983040, 196608, 15, AttackType::Ranged, 400, 200, 6, 250),
        UnitKind::Scrounger => unit_row(3604480, 7209, 196608, 65536, 15, AttackType::Melee, 45, 0, 1, 45),
        UnitKind::Bandit => unit_row(4587520, 12452, 524288, 65536, 8, AttackType::Melee, 70, 0, 1, 55),
        UnitKind::HeapTitan => unit_row(18350080, 4588, 655360, 65536, 22, AttackType::Melee, 140, 20, 3, 110),
        UnitKind::GlitchRat => unit_row(2621440, 14418, 327680, 65536, 12, AttackType::Melee, 60, 15, 1, 50),
        UnitKind::PatchPossum => unit_row(5242880, 8520, 262144, 196608, 15, AttackType::Ranged, 90, 25, 2, 80),
        UnitKind::GreaseMonkey => unit_row(4259840, 8520, 786432, 327680, 14, AttackType::Ranged, 90, 0, 2, 75),
        UnitKind::DeadDropUnit => unit_row(3276800, 9175, 524288, 65536, 12, AttackType::Melee, 80, 20, 1, 65),
        UnitKind::Wrecker => unit_row(6553600, 7864, 917504, 65536, 10, AttackType::Melee, 95, 0, 2, 85),
        UnitKind::DumpsterDiver => unit_row(4915200, 7209, 393216, 131072, 15, AttackType::Ranged, 85, 20, 2, 70),
        UnitKind::JunkyardKing => unit_row(29491200, 5898, 1048576, 196608, 16, AttackType::Ranged, 375, 175, 6, 230),
        _ => unit_row(4259840, 6553, 1048576, 393216, 18, AttackType::Ranged, 90, 0, 2, 70),
    }
}

/// The base stats of every unit kind.
pub open spec fn spec_base_stats(kind: UnitKind) -> UnitBaseStats {
    match kind {
        UnitKind::Pawdler | UnitKind::Nuisance | UnitKind::Chonk | UnitKind::FlyingFox | UnitKind::Hisser | UnitKind::Yowler | UnitKind::Mouser | UnitKind::Catnapper | UnitKind::FerretSapper | UnitKind::MechCommander | UnitKind::MurderScrounger | UnitKind::Sentinel | UnitKind::Rookclaw | UnitKind::Magpike | UnitKind::Magpyre => unit_rows_0(kind),
        UnitKind::Jaycaller | UnitKind::Jayflicker | UnitKind::Dusktalon | UnitKind::Hootseer | UnitKind::CorvusRex | UnitKind::Delver | UnitKind::Ironhide | UnitKind::Cragback | UnitKind::Warden | UnitKind::Sapjaw | UnitKind::Wardenmother | UnitKind::SeekerTunneler | UnitKind::Embermaw | UnitKind::Dustclaw | UnitKind::Gutripper => unit_rows_1(kind),
        UnitKind::Nibblet | UnitKind::Swarmer | UnitKind::Gnawer | UnitKind::Shrieker | UnitKind::Tunneler | UnitKind::Sparks | UnitKind::Quillback | UnitKind::Whiskerwitch | UnitKind::Plaguetail | UnitKind::WarrenMarshal | UnitKind::Ponderer | UnitKind::Regeneron | UnitKind::Broodmother | UnitKind::Gulper | UnitKind::Eftsaber => unit_rows_2(kind),
        UnitKind::Croaker | UnitKind::Leapfrog | UnitKind::Shellwarden | UnitKind::Bogwhisper | UnitKind::MurkCommander | UnitKind::Scrounger | UnitKind::Bandit | UnitKind::HeapTitan | UnitKind::GlitchRat | UnitKind::PatchPossum | UnitKind::GreaseMonkey | UnitKind::DeadDropUnit | UnitKind::Wrecker | UnitKind::DumpsterDiver | UnitKind::JunkyardKing => unit_rows_3(kind),
    }
}

/// Looks up a row of group 0.
fn base_stats_0(kind: UnitKind) -> (s: UnitBaseStats)
    ensures
        s == unit_rows_0(kind),
{
    match kind {
        UnitKind::Pawdler => make_unit(3932160, 7864, 262144, 65536, 15, AttackType::Melee, 50, 0, 1, 50),
        UnitKind::Nuisance => make_unit(5242880, 11796, 524288, 65536, 10, AttackType::Melee, 75, 0, 1, 60),
        UnitKind::Chonk => make_unit(19660800, 5242, 786432, 65536, 20, AttackType::Melee, 150, 25, 3, 120),
        UnitKind::FlyingFox => make_unit(5242880, 14745, 655360, 131072, 12, AttackType::Ranged, 100, 25, 2, 80),
        UnitKind::Hisser => make_unit(4587520, 7864, 786432, 327680, 13, AttackType::Ranged, 100, 0, 2, 80),
        UnitKind::Yowler => make_unit(5898240, 9175, 327680, 262144, 15, AttackType::Ranged, 100, 50, 2, 100),
        UnitKind::Mouser => make_unit(4915200, 13107, 655360, 65536, 8, AttackType::Melee, 75, 25, 1, 60),
        UnitKind::Catnapper => make_unit(7864320, 3932, 1638400, 131072, 30, AttackType::Ranged, 200, 50, 3, 150),
        UnitKind::FerretSapper => make_unit(4259840, 11141, 1310720, 65536, 25, AttackType::Melee, 125, 50, 2, 100),
        UnitKind::MechCommander => make_unit(32768000, 6553, 1179648, 196608, 15, AttackType::Ranged, 400, 200, 6, 250),
        UnitKind::MurderScrounger => make_unit(3604480, 9175, 196608, 65536, 15, AttackType::Melee, 50, 0, 1, 50),
        UnitKind::Sentinel => make_unit(3932160, 10486, 786432, 393216, 14, AttackType::Ranged, 75, 0, 1, 60),
        UnitKind::Rookclaw => make_unit(4587520, 13107, 655360, 65536, 10, AttackType::Melee, 75, 0, 1, 55),
        UnitKind::Magpike => make_unit(3604480, 11796, 524288, 262144, 10, AttackType::Ranged, 85, 25, 2, 65),
        UnitKind::Magpyre => make_unit(3276800, 11141, 524288, 196608, 15, AttackType::Ranged, 100, 50, 2, 90),
        _ => make_unit(3932160, 7864, 262144, 65536, 15, AttackType::Melee, 50, 0, 1, 50),
    }
}

/// Looks up a row of group 1.
fn base_stats_1(kind: UnitKind) -> (s: UnitBaseStats)
    ensures
        s == unit_rows_1(kind),
{
    match kind {
        UnitKind::Jaycaller => make_unit(5570560, 9175, 327680, 262144, 15, AttackType::Ranged, 100, 50, 2, 100),
        UnitKind::Jayflicker => make_unit(3932160, 10486, 458752, 196608, 12, AttackType::Ranged, 125, 50, 2, 90),
        UnitKind::Dusktalon => make_unit(4259840, 13107, 983040, 65536, 8, AttackType::Melee, 125, 25, 2, 80),
        UnitKind::Hootseer => make_unit(6553600, 6554, 524288, 327680, 18, AttackType::Ranged, 150, 50, 3, 120),
        UnitKind::CorvusRex => make_unit(29491200, 6554, 1048576, 262144, 15, AttackType::Ranged, 400, 200, 6, 250),
        UnitKind::Delver => make_unit(3276800, 6553, 196608, 65536, 18, AttackType::Melee, 50, 0, 1, 55),
        UnitKind::Ironhide => make_unit(16384000, 6553, 1048576, 65536, 18, AttackType::Melee, 125, 0, 2, 100),
        UnitKind::Cragback => make_unit(22937600, 3932, 1966080, 524288, 30, AttackType::Ranged, 200, 50, 4, 150),
        UnitKind::Warden => make_unit(7864320, 6553, 917504, 327680, 15, AttackType::Ranged, 100, 0, 2, 80),
        UnitKind::Sapjaw => make_unit(7864320, 9175, 917504, 65536, 12, AttackType::Melee, 100, 0, 2, 80),
        UnitKind::Wardenmother => make_unit(39321600, 5242, 1441792, 196608, 15, AttackType::Ranged, 450, 250, 6, 280),
        UnitKind::SeekerTunneler => make_unit(5242880, 9175, 393216, 65536, 20, AttackType::Melee, 75, 25, 1, 70),
        UnitKind::Embermaw => make_unit(5898240, 6553, 1048576, 393216, 15, AttackType::Ranged, 125, 25, 2, 90),
        UnitKind::Dustclaw => make_unit(4587520, 10486, 655360, 65536, 10, AttackType::Melee, 75, 0, 1, 60),
        UnitKind::Gutripper => make_unit(10485760, 7864, 1310720, 65536, 8, AttackType::Melee, 150, 25, 3, 120),
        _ => make_unit(5570560, 9175, 327680, 262144, 15, AttackType::Ranged, 100, 50, 2, 100),
    }
}

/// Looks up a row of group 2.
fn base_stats_2(kind: UnitKind) -> (s: UnitBaseStats)
    ensures
        s == unit_rows_2(kind),
{
    match kind {
        UnitKind::Nibblet => make_unit(2621440, 9830, 196608, 65536, 15, AttackType::Melee, 30, 0, 1, 35),
        UnitKind::Swarmer => make_unit(4587520, 13107, 458752, 65536, 6, AttackType::Melee, 40, 0, 1, 30),
        UnitKind::Gnawer => make_unit(3604480, 6553, 393216, 65536, 12, AttackType::Melee, 50, 0, 1, 45),
        UnitKind::Shrieker => make_unit(2949120, 9175, 524288, 196608, 10, AttackType::Ranged, 55, 0, 1, 40),
        UnitKind::Tunneler => make_unit(3932160, 5898, 262144, 65536, 15, AttackType::Melee, 75, 25, 2, 70),
        UnitKind::Sparks => make_unit(3276800, 11141, 655360, 262144, 10, AttackType::Ranged, 60, 0, 1, 50),
        UnitKind::Quillback => make_unit(13107200, 3932, 655360, 65536, 18, AttackType::Melee, 100, 15, 2, 80),
        UnitKind::Whiskerwitch => make_unit(3276800, 7864, 262144, 262144, 14, AttackType::Ranged, 70, 30, 2, 65),
        UnitKind::Plaguetail => make_unit(3932160, 7209, 655360, 262144, 12, AttackType::Ranged, 45, 0, 1, 40),
        UnitKind::WarrenMarshal => make_unit(19660800, 5242, 786432, 196608, 14, AttackType::Ranged, 250, 125, 4, 200),
        UnitKind::Ponderer => make_unit(3604480, 6553, 196608, 65536, 18, AttackType::Melee, 50, 0, 1, 50),
        UnitKind::Regeneron => make_unit(5242880, 10485, 524288, 65536, 8, AttackType::Melee, 70, 0, 1, 55),
        UnitKind::Broodmother => make_unit(6553600, 6553, 262144, 196608, 15, AttackType::Ranged, 125, 25, 2, 100),
        UnitKind::Gulper => make_unit(19660800, 4587, 917504, 65536, 16, AttackType::Melee, 160, 25, 3, 115),
        UnitKind::Eftsaber => make_unit(3932160, 11796, 786432, 65536, 9, AttackType::Melee, 100, 25, 2, 80),
        _ => make_unit(2621440, 9830, 196608, 65536, 15, AttackType::Melee, 30, 0, 1, 35),
    }
}

/// Looks up a row of group 3.
fn base_stats_3(kind: UnitKind) -> (s: UnitBaseStats)
    ensures
        s == unit_rows_3(kind),
{
    match kind {
        UnitKind::Croaker => make_unit(4259840, 6553, 1048576, 393216, 18, AttackType::Ranged, 90, 0, 2, 70),
        UnitKind::Leapfrog => make_unit(4587520, 11141, 524288, 65536, 10, AttackType::Melee, 75, 0, 1, 60),
        UnitKind::Shellwarden => make_unit(22937600, 3932, 393216, 65536, 22, AttackType::Melee, 175, 50, 4, 140),
        UnitKind::Bogwhisper => make_unit(5242880, 7209, 327680, 327680, 15, AttackType::Ranged, 125, 50, 3, 100),
        UnitKind::MurkCommander => make_unit(29491200, 5898, 983040, 196608, 15, AttackType::Ranged, 400, 200, 6, 250),
        UnitKind::Scrounger => make_unit(3604480, 7209, 196608, 65536, 15, AttackType::Melee, 45, 0, 1, 45),
        UnitKind::Bandit => make_unit(4587520, 12452, 524288, 65536, 8, AttackType::Melee, 70, 0, 1, 55),
        UnitKind::HeapTitan => make_unit(18350080, 4588, 655360, 65536, 22, AttackType::Melee, 140, 20, 3, 110),
        UnitKind::GlitchRat => make_unit(2621440, 14418, 327680, 65536, 12, AttackType::Melee, 60, 15, 1, 50),
        UnitKind::PatchPossum => make_unit(5242880, 8520, 262144, 196608, 15, AttackType::Ranged, 90, 25, 2, 80),
        UnitKind::GreaseMonkey => make_unit(4259840, 8520, 786432, 327680, 14, AttackType::Ranged, 90, 0, 2, 75),
        UnitKind::DeadDropUnit => make_unit(3276800, 9175, 524288, 65536, 12, AttackType::Melee, 80, 20, 1, 65),
        UnitKind::Wrecker => make_unit(6553600, 7864, 917504, 65536, 10, AttackType::Melee, 95, 0, 2, 85),
        UnitKind::DumpsterDiver => make_unit(4915200, 7209, 393216, 131072, 15, AttackType::Ranged, 85, 20, 2, 70),
        UnitKind::JunkyardKing => make_unit(29491200, 5898, 1048576, 196608, 16, AttackType::Ranged, 375, 175, 6, 230),
        _ => make_unit(4259840, 6553, 1048576, 393216, 18, AttackType::Ranged, 90, 0, 2, 70),
    }
}

/// Return the base stats for a given unit kind.
/// All values are compile-time constants — no Resource needed.
pub fn base_stats(kind: UnitKind) -> (s: UnitBaseStats)
    ensures
        s == spec_base_stats(kind),
{
    match kind {
        UnitKind::Pawdler | UnitKind::Nuisance | UnitKind::Chonk | UnitKind::FlyingFox | UnitKind::Hisser | UnitKind::Yowler | UnitKind::Mouser | UnitKind::Catnapper | UnitKind::FerretSapper | UnitKind::MechCommander | UnitKind::MurderScrounger | UnitKind::Sentinel | UnitKind::Rookclaw | UnitKind::Magpike | UnitKind::Magpyre => base_stats_0(kind),
        UnitKind::Jaycaller | UnitKind::Jayflicker | UnitKind::Dusktalon | UnitKind::Hootseer | UnitKind::CorvusRex | UnitKind::Delver | UnitKind::Ironhide | UnitKind::Cragback | UnitKind::Warden | UnitKind::Sapjaw | UnitKind::Wardenmother | UnitKind::SeekerTunneler | UnitKind::Embermaw | UnitKind::Dustclaw | UnitKind::Gutripper => base_stats_1(kind),
        UnitKind::Nibblet | UnitKind::Swarmer | UnitKind::Gnawer | UnitKind::Shrieker | UnitKind::Tunneler | UnitKind::Sparks | UnitKind::Quillback | UnitKind::Whiskerwitch | UnitKind::Plaguetail | UnitKind::WarrenMarshal | UnitKind::Ponderer | UnitKind::Regeneron | UnitKind::Broodmother | UnitKind::Gulper | UnitKind::Eftsaber => base_stats_2(kind),
        UnitKind::Croaker | UnitKind::Leapfrog | UnitKind::Shellwarden | UnitKind::Bogwhisper | UnitKind::MurkCommander | UnitKind::Scrounger | UnitKind::Bandit | UnitKind::HeapTitan | UnitKind::GlitchRat | UnitKind::PatchPossum | UnitKind::GreaseMonkey | UnitKind::DeadDropUnit | UnitKind::Wrecker | UnitKind::DumpsterDiver | UnitKind::JunkyardKing => base_stats_3(kind),
    }
}

/// Every unit has positive health, speed, damage and range and a positive
/// attack interval; melee units reach exactly one tile and ranged units
/// further; every non-worker costs at least 40 food.
pub proof fn lemma_base_stats_sane(kind: UnitKind)
    ensures
        spec_base_stats(kind).health.bits > 0,
        spec_base_stats(kind).speed.bits > 0,
        spec_base_stats(kind).damage.bits > 0,
        spec_base_stats(kind).range.bits > 0,
        spec_base_stats(kind).attack_speed > 0,
        spec_base_stats(kind).attack_type == AttackType::Melee ==> spec_base_stats(kind).range.bits == 65536,
        spec_base_stats(kind).attack_type == AttackType::Ranged ==> spec_base_stats(kind).range.bits > 65536,
        !kind.spec_is_worker() ==> spec_base_stats(kind).food_cost >= 40,
{
}

} // verus!