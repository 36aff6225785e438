//! Data types for the Strait dream sequence (drone warfare over a shipping lane)
//! that hold no floating-point values: entity kinds, targeting modes, state
//! machine phases, escalation waves and fixed limits.

use vstd::prelude::*;

verus! {

/// Classification of entities in the strait mission.
#[derive(Debug, Clone, Copy, PartialEq, Eq, Hash, Structural)]
pub enum StraitEntityKind {
    PatrolDrone,
    EnemyAaDrone,
    EnemyLauncher,
    EnemyDecoy,
    EnemySoldier,
    EnemyShaheed,
    Tanker,
    Missile,
}

/// How the base Patriot interceptors select targets.
#[derive(Debug, Clone, Copy, PartialEq, Eq, Structural)]
pub enum PatriotMode {
    /// Shoot down both missiles and shaheeds (default — wasteful).
    Auto,
    /// Only engage missiles. Shaheeds must be intercepted by drones.
    MissilesOnly,
}

impl Default for PatriotMode {
    /// Engage both missiles and shaheeds.
    fn default() -> (m: PatriotMode)
        ensures
            m == PatriotMode::Auto,
    {
        PatriotMode::Auto
    }
}

/// State machine for a ground soldier.
#[derive(Debug, Clone, Copy, PartialEq, Eq, Structural)]
pub enum SoldierPhase {
    /// Advancing toward the shipping lane.
    Advancing,
    /// Within danger range of a tanker — dealing damage.
    Engaged,
}

/// What the shaheed is targeting.
#[derive(Debug, Clone, Copy, PartialEq, Eq, Structural)]
pub enum ShaheedTarget {
    /// Heading for the player base.
    Base,
    /// Heading for a specific tanker (by tanker_index).
    Ship(u32),
}

/// Types of zero-day exploits the player can build and deploy.
#[derive(Debug, Clone, Copy, PartialEq, Eq, Hash, Structural)]
pub enum ZeroDayType {
    /// Make enemy missiles target decoys instead of tankers.
    Spoof,
    /// Disable enemy radar/sensors in an area.
    Blind,
    /// Temporarily turn an enemy drone to your side.
    Hijack,
    /// Permanently destroy a visible enemy launcher.
    Brick,
}

/// State machine phase for an enemy mobile launcher.
#[derive(Debug, Clone, Copy, PartialEq, Eq, Structural)]
pub enum LauncherPhase {
    /// Concealed at a hidden position, invisible without satellite.
    Hidden,
    /// Moving to a firing position (vulnerable, detectable by drone vision).
    Setting,
    /// Actively firing missiles at the shipping lane.
    Firing,
    /// Relocating to a new hidden position after a salvo.
    Retreating,
}

/// Configuration for one escalation wave of the enemy AI.
#[derive(Debug, Clone, Copy, PartialEq, Eq, Structural)]
pub struct EnemyWaveConfig {
    /// Tick at which this wave spawns (relative to mission start).
    pub trigger_tick: u64,
    /// How many missile launchers to spawn.
    pub launcher_count: u32,
    /// How many AA drones.
    pub aa_drone_count: u32,
    /// How many ground soldiers.
    pub soldier_count: u32,
    /// How many suicide drones (shaheeds).
    pub shaheed_count: u32,
    /// Whether the enemy coordinates diversionary attacks.
    pub coordinated: bool,
}

/// The escalation waves in order (`n` from 1 to 4); wave 4 for any other `n`.
pub open spec fn escalation_wave(n: int) -> EnemyWaveConfig {
    if n == 1 {
        EnemyWaveConfig { trigger_tick: 0, launcher_count: 1, aa_drone_count: 0, soldier_count: 2, shaheed_count: 3, coordinated: false }
    } else if n == 2 {
        EnemyWaveConfig { trigger_tick: 1500, launcher_count: 2, aa_drone_count: 1, soldier_count: 5, shaheed_count: 5, coordinated: false }
    } else if n == 3 {
        EnemyWaveConfig { trigger_tick: 3000, launcher_count: 2, aa_drone_count: 2, soldier_count: 5, shaheed_count: 8, coordinated: true }
    } else {
        EnemyWaveConfig { trigger_tick: 4500, launcher_count: 1, aa_drone_count: 3, soldier_count: 8, shaheed_count: 14, coordinated: true }
    }
}

impl EnemyWaveConfig {
    /// Legacy wave constructors, used until the simulation is extracted.
    /// Escalation wave 1.
    pub fn wave_1() -> (w: EnemyWaveConfig)
        ensures
            w == escalation_wave(1),
    {
        EnemyWaveConfig { trigger_tick: 0, launcher_count: 1, aa_drone_count: 0, soldier_count: 2, shaheed_count: 3, coordinated: false }
    }

    /// Escalation wave 2.
    pub fn wave_2() -> (w: EnemyWaveConfig)
        ensures
            w == escalation_wave(2),
    {
        EnemyWaveConfig { trigger_tick: 1500, launcher_count: 2, aa_drone_count: 1, soldier_count: 5, shaheed_count: 5, coordinated: false }
    }

    /// Escalation wave 3.
    pub fn wave_3() -> (w: EnemyWaveConfig)
        ensures
            w == escalation_wave(3),
    {
        EnemyWaveConfig { trigger_tick: 3000, launcher_count: 2, aa_drone_count: 2, soldier_count: 5, shaheed_count: 8, coordinated: true }
    }

    /// Escalation wave 4.
    pub fn wave_4() -> (w: EnemyWaveConfig)
        ensures
            w == escalation_wave(4),
    {
        EnemyWaveConfig { trigger_tick: 4500, launcher_count: 1, aa_drone_count: 3, soldier_count: 8, shaheed_count: 14, coordinated: true }
    }
}

/// The escalation waves escalate: each later wave starts later, brings at
/// least as many soldiers and strictly more shaheeds than any earlier one, and
/// the last two coordinate their attacks.
pub proof fn lemma_waves_escalate(i: int, j: int)
    requires
        1 <= i < j <= 4,
    ensures
        escalation_wave(i).trigger_tick < escalation_wave(j).trigger_tick,
        escalation_wave(i).soldier_count <= escalation_wave(j).soldier_count,
        escalation_wave(i).shaheed_count < escalation_wave(j).shaheed_count,
        escalation_wave(j).coordinated == (j >= 3),
{
}

pub const TOTAL_TANKERS: u32 = 12;
pub const MIN_TANKERS_WIN: u32 = 8;
pub const MAX_TANKERS_LOST: u32 = 5;
pub const INITIAL_PATROL_DRONES: u32 = 16;
pub const DRONE_VISION_RADIUS: i32 = 4;
pub const SATELLITE_VISION_RADIUS: i32 = 8;
pub const TANKER_SPAWN_INTERVAL: u32 = 300;
pub const TANKER_HP: u32 = 3;
pub const MISSILE_FLIGHT_TICKS: u32 = 80;
pub const DRONE_REBUILD_TICKS: u32 = 120;
pub const DRONE_REBUILD_MAX_CHARGES: u32 = 2;
pub const DRONE_REBUILD_CHARGE_REGEN_TICKS: u32 = 400;
pub const AIRSTRIKE_DELAY_TICKS: u32 = 40;
pub const AIRSTRIKE_RADIUS: i32 = 3;
pub const AIRSTRIKE_MAX_CHARGES: u32 = 3;
pub const AIRSTRIKE_CHARGE_REGEN_TICKS: u32 = 600;
pub const CONVOY_TIME_LIMIT: u64 = 0; // disabled — soft pressure via Patriot drain
pub const INITIAL_PATRIOTS: u32 = 20;
/// Legacy: Patriots replace interceptors but old code still references these.
pub const INITIAL_INTERCEPTORS: u32 = 20;
pub const MAX_INTERCEPTORS: u32 = 20;
pub const INTERCEPTOR_REGEN_TICKS: u32 = 9999; // effectively disabled — patriots don't regen

} // verus!
