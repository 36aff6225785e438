//! Mission mutators: data-driven gameplay modifiers for campaign missions.

use crate::components::UnitKind;
use crate::coords::GridPos;
use crate::math::Fixed;
use vstd::prelude::*;

verus! {

/// A gameplay modifier applied to a campaign mission.
/// Each variant is data-driven with timing/intensity parameters.
#[derive(Debug, Clone)]
pub enum MissionMutator {
    // -- Environmental Hazards --
    /// Lava advances from a map edge, blocking tiles and damaging units.
    LavaRise {
        interval_ticks: u64,
        damage_per_tick: u32,
        direction: HazardDirection,
        rows_per_wave: u32,
        initial_delay_ticks: u64,
    },
    /// Periodic wind gusts displace units in a direction.
    WindStorm {
        interval_ticks: u64,
        duration_ticks: u64,
        direction: HazardDirection,
        force: u32,
        can_push_off_map: bool,
        initial_delay_ticks: u64,
    },
    /// Toxic tide shrinks the playable area inward toward a safe zone.
    ToxicTide {
        interval_ticks: u64,
        damage_per_tick: u32,
        rows_per_wave: u32,
        initial_delay_ticks: u64,
        safe_zone_center: Option<GridPos>,
        min_safe_radius: u32,
    },
    /// Earthquakes damage buildings and randomly alter terrain.
    Tremors {
        interval_ticks: u64,
        building_damage: u32,
        terrain_change_chance: u32,
        epicenter_radius: u32,
        initial_delay_ticks: u64,
    },
    /// Rising water level converts low-elevation tiles to water.
    Flooding {
        interval_ticks: u64,
        initial_water_level: u8,
        max_water_level: u8,
        initial_delay_ticks: u64,
    },
    /// Reduced vision range; optionally clears periodically.
    DenseFog {
        vision_reduction: u32,
        periodic_clearing: Option<PeriodicClearing>,
    },
    /// Specific tiles deal damage to units standing on them.
    DamageZone {
        tiles: Vec<GridPos>,
        damage_per_tick: u32,
        active_from_start: bool,
        toggle_flag: Option<String>,
    },

    // -- Control Restrictions --
    /// Only voice commands allowed (mouse/keyboard disabled for unit control).
    VoiceOnlyControl {
        ai_enabled: bool,
        enemy_difficulty_multiplier: Fixed,
    },
    /// AI agent commands disabled.
    NoAiControl,
    /// Building placement disabled.
    NoBuildMode,
    /// Only AI controls units (player input disabled).
    AiOnlyControl { tool_tier: u8 },
    /// Only specific unit types allowed; optional population cap.
    RestrictedUnits {
        allowed_kinds: Vec<UnitKind>,
        max_unit_count: Option<u32>,
    },

    // -- Gameplay Modifiers --
    /// Mission fails after max_ticks; warning shown at warning_at.
    TimeLimit { max_ticks: u64, warning_at: u64 },
    /// Resource gather rates are multiplied.
    ResourceScarcity {
        food_multiplier: Fixed,
        gpu_multiplier: Fixed,
    },
    /// Damage dealt is multiplied per side.
    DamageMultiplier {
        player_multiplier: Fixed,
        enemy_multiplier: Fixed,
    },
    /// Movement speed is multiplied per side.
    SpeedMultiplier {
        player_multiplier: Fixed,
        enemy_multiplier: Fixed,
    },

    // -- Dream Sequence --
    /// Activates dream sequence mode with special UI and gameplay overrides.
    DreamSequence {
        /// Skip the standard briefing screen (auto-advance to InMission).
        skip_briefing: bool,
        /// Skip the standard debrief screen (auto-advance to next mission).
        skip_debrief: bool,
        /// Which dream sub-scene this mission represents.
        scene_type: DreamSceneType,
    },
}

/// Dream sequence sub-scene identifier.
#[derive(Debug, Clone, Copy, PartialEq, Eq, Structural)]
pub enum DreamSceneType {
    /// Military office desk grind loop.
    Office,
    /// Lake walk to meet the spirit of the lake.
    Lake,
}

/// Whether some mutator in the list is a dream sequence.
pub open spec fn spec_is_dream_mission(mutators: Seq<MissionMutator>) -> bool {
    exists|i: int| 0 <= i < mutators.len() && #[trigger] mutators[i] is DreamSequence
}

/// Check if a list of mutators indicates an active dream mission.
pub fn is_dream_mission(mutators: &[MissionMutator]) -> (r: bool)
    ensures
        r == spec_is_dream_mission(mutators@),
{
    let mut i: usize = 0;
    while i < mutators.len()
        invariant
            i <= mutators@.len(),
            forall|j: int| 0 <= j < i ==> !(#[trigger] mutators@[j] is DreamSequence),
        decreases mutators@.len() - i,
    {
        if let MissionMutator::DreamSequence { .. } = &mutators[i] {
            return true;
        }
        i = i + 1;
    }
    false
}

/// Direction from which a hazard advances.
#[derive(Debug, Clone, Copy, PartialEq, Eq, Structural)]
pub enum HazardDirection {
    North,
    South,
    East,
    West,
    AllEdges,
}

/// Configuration for periodic fog clearing.
#[derive(Debug, Clone, Copy, PartialEq, Eq, Structural)]
pub struct PeriodicClearing {
    pub interval_ticks: u64,
    pub clear_duration_ticks: u64,
}

} // verus!
