//! Concrete checks of the library's stated properties and exact values.

use cc_core::abilities::{
    ability_def, gnawer_structural_weakness_multiplier, incisors_damage_bonus, self_buff_effects, unit_abilities,
    AbilityActivation, AbilityId,
};
use cc_core::building_stats::building_stats;
use cc_core::commands::EntityId;
use cc_core::components::{AbilitySlots, BuildingKind, Faction, ResourceType, UnitKind, UpgradeType};
use cc_core::coords::GridPos;
use cc_core::hero::{hero_faction_str, hero_slug, HeroId, ALL_HEROES};
use cc_core::map::GameMap;
use cc_core::map_format::MapSymmetry;
use cc_core::map_gen::{
    brush_all, brush_disc, noise_may_repaint, ramp_at_transition, symmetric_spawns, validate_connectivity, BrushOp,
};
use cc_core::math::Fixed;
use cc_core::mission::{
    DialogueLine, MissionDefinition, MissionMap, MissionObjective, NextMission, ObjectiveCondition, PlayerSetup,
    ScriptedTrigger, TriggerAction, TriggerCondition, VoiceStyle,
};
use cc_core::mutator::{is_dream_mission, DreamSceneType, MissionMutator};
use cc_core::status_effects::{StatusEffectId, StatusEffects, StatusInstance};
use cc_core::strait::EnemyWaveConfig;
use cc_core::terrain::TerrainType;
use cc_core::unit_stats::base_stats;
use cc_core::upgrade_stats::upgrade_stats;

const ALL_ABILITIES_SAMPLE: [AbilityId; 8] = [
    AbilityId::OpportunisticHoarder,
    AbilityId::Hairball,
    AbilityId::LoafMode,
    AbilityId::FortressProtocol,
    AbilityId::ProphecyAbility,
    AbilityId::JunkMortarMode,
    AbilityId::WhiskernetRelay,
    AbilityId::PanopticGaze,
];

#[test]
fn ability_defs_carry_their_id_and_cooldowns() {
    for id in ALL_ABILITIES_SAMPLE {
        let d = ability_def(id);
        assert_eq!(d.id, id);
        if d.activation != AbilityActivation::Passive {
            assert!(d.cooldown_ticks > 0);
        }
        if d.activation == AbilityActivation::Toggle {
            assert_eq!(d.gpu_cost, 0);
            assert_eq!(d.duration_ticks, 0);
        }
    }
}

#[test]
fn ability_range_is_whole_tiles() {
    assert_eq!(ability_def(AbilityId::Revulsion).range, Fixed::from_bits(3 << 16));
    assert_eq!(ability_def(AbilityId::Hairball).range, Fixed::from_bits(4 << 16));
    assert_eq!(ability_def(AbilityId::OpportunisticHoarder).range, Fixed::zero());
}

#[test]
fn unit_abilities_are_not_shared_between_kinds() {
    let kinds = [UnitKind::Pawdler, UnitKind::Chonk, UnitKind::CorvusRex, UnitKind::Gulper, UnitKind::Wrecker];
    let mut seen: Vec<AbilityId> = Vec::new();
    for k in kinds {
        for a in unit_abilities(k) {
            assert!(!seen.contains(&a), "{a:?} appears twice");
            seen.push(a);
        }
    }
    assert_eq!(seen.len(), 15);
}

#[test]
fn ability_slots_start_ready_with_full_charges() {
    let ids = unit_abilities(UnitKind::Chonk);
    let slots = AbilitySlots::from_abilities(ids);
    for (slot, id) in slots.slots.iter().zip(ids.iter()) {
        assert_eq!(slot.id, *id);
        assert_eq!(slot.cooldown_remaining, 0);
        assert!(!slot.active);
        assert_eq!(slot.duration_remaining, 0);
        assert_eq!(slot.charges, ability_def(*id).max_charges);
    }
}

#[test]
fn ramp_multipliers_exact_values() {
    assert_eq!(gnawer_structural_weakness_multiplier(0).to_bits(), 65536);
    assert_eq!(gnawer_structural_weakness_multiplier(5).to_bits(), 65536 + 5 * 1310);
    assert_eq!(gnawer_structural_weakness_multiplier(50).to_bits(), 65536 + 10 * 1310);
    assert_eq!(incisors_damage_bonus(0).to_bits(), 0);
    assert_eq!(incisors_damage_bonus(109).to_bits(), 655 * 10);
    assert_eq!(incisors_damage_bonus(1000).to_bits(), 655 * 40);
}

#[test]
fn self_buffs_listed_in_order() {
    assert_eq!(
        self_buff_effects(AbilityId::StubbornAdvance),
        &[(StatusEffectId::DamageBuff, true), (StatusEffectId::ArmorBuff, true)]
    );
    assert_eq!(self_buff_effects(AbilityId::LoafMode), &[(StatusEffectId::LoafModeActive, false)]);
    assert!(self_buff_effects(AbilityId::Hairball).is_empty());
}

#[test]
fn every_unit_has_exactly_one_producer() {
    let buildings = [
        BuildingKind::TheBox,
        BuildingKind::CatTree,
        BuildingKind::ServerRack,
        BuildingKind::TheParliament,
        BuildingKind::Rookery,
        BuildingKind::AntennaArray,
        BuildingKind::TheBurrow,
        BuildingKind::NestingBox,
        BuildingKind::JunkTransmitter,
        BuildingKind::TheSett,
        BuildingKind::WarHollow,
        BuildingKind::CoreTap,
        BuildingKind::TheGrotto,
        BuildingKind::SpawningPools,
        BuildingKind::SunkenServer,
        BuildingKind::TheDumpster,
        BuildingKind::ChopShop,
        BuildingKind::JunkServer,
        BuildingKind::TinkerBench,
    ];
    let mut produced: Vec<UnitKind> = Vec::new();
    for b in buildings {
        for u in building_stats(b).can_produce {
            assert!(!produced.contains(u), "{u:?} trained twice");
            produced.push(*u);
        }
    }
    assert_eq!(produced.len(), 60);
}

#[test]
fn headquarters_are_free_and_train_a_worker() {
    for b in [BuildingKind::TheBox, BuildingKind::TheSett, BuildingKind::TheDumpster] {
        let s = building_stats(b);
        assert!(b.is_hq());
        assert_eq!(s.build_time, 0);
        assert_eq!(s.food_cost, 0);
        assert_eq!(s.supply_provided, 10);
        assert_eq!(s.can_produce.len(), 1);
        assert!(s.can_produce[0].is_worker());
    }
    assert!(building_stats(BuildingKind::CatTree).build_time > 0);
}

#[test]
fn unit_ranges_follow_attack_type() {
    let m = base_stats(UnitKind::Chonk);
    assert_eq!(m.range.to_bits(), 65536);
    let r = base_stats(UnitKind::Hisser);
    assert_eq!(r.range.to_bits(), 5 << 16);
    assert_eq!(base_stats(UnitKind::Pawdler).speed.to_bits(), 7864);
}

#[test]
fn upgrade_cost_tiers() {
    let s = upgrade_stats(UpgradeType::MechPrototype);
    assert_eq!((s.research_time, s.food_cost, s.gpu_cost), (400, 400, 200));
    let g = upgrade_stats(UpgradeType::MechSalvage);
    assert_eq!((g.research_time, g.food_cost, g.gpu_cost), (250, 200, 100));
}

#[test]
fn names_round_trip_and_reject_unknown() {
    assert_eq!(Faction::SeekersOfTheDeep.as_str(), "Seekers of the Deep");
    assert_eq!(Faction::from_faction_str("LLAMA"), Some(Faction::Llama));
    assert_eq!(Faction::from_faction_str("llama"), None);
    assert_eq!(BuildingKind::TheBox.display_name(), "The Box");
    assert_eq!("GpuCores".parse::<ResourceType>(), Ok(ResourceType::GpuCores));
    assert!("gpucores".parse::<ResourceType>().is_err());
    assert_eq!(UnitKind::DeadDropUnit.to_string(), "DeadDropUnit");
    assert_eq!("RexPrototype".parse::<UpgradeType>(), Ok(UpgradeType::RexPrototype));
    assert_eq!(hero_faction_str(HeroId::RexSolstice), "The Murder");
}

#[test]
fn hero_slugs_are_snake_case() {
    assert_eq!(hero_slug(HeroId::KingRingtail), "king_ringtail");
    assert_eq!(hero_slug(HeroId::TheEternal), "the_eternal");
    assert_eq!(ALL_HEROES.len(), 8);
}

#[test]
fn stacks_imply_active_effect() {
    let mut se = StatusEffects::default();
    se.effects.push(StatusInstance { effect: StatusEffectId::Corroded, remaining_ticks: 0, stacks: 7, source: EntityId(3) });
    assert_eq!(se.stacks_of(StatusEffectId::Corroded), 0);
    assert!(!se.has(StatusEffectId::Corroded));
    se.effects.push(StatusInstance { effect: StatusEffectId::Corroded, remaining_ticks: 4, stacks: 2, source: EntityId(3) });
    assert_eq!(se.stacks_of(StatusEffectId::Corroded), 2);
    assert!(se.has(StatusEffectId::Corroded));
    se.effects.push(StatusInstance { effect: StatusEffectId::Stunned, remaining_ticks: 0, stacks: 1, source: EntityId(1) });
    assert!(!se.has_active_cc());
}

#[test]
fn dream_mission_detection() {
    assert!(!is_dream_mission(&[MissionMutator::NoBuildMode]));
    assert!(is_dream_mission(&[
        MissionMutator::NoAiControl,
        MissionMutator::DreamSequence { skip_briefing: true, skip_debrief: false, scene_type: DreamSceneType::Lake },
    ]));
    assert!(!is_dream_mission(&[]));
}

#[test]
fn escalation_waves_escalate() {
    let waves = [EnemyWaveConfig::wave_1(), EnemyWaveConfig::wave_2(), EnemyWaveConfig::wave_3(), EnemyWaveConfig::wave_4()];
    for i in 1..4 {
        assert!(waves[i - 1].trigger_tick < waves[i].trigger_tick);
        assert!(waves[i - 1].shaheed_count < waves[i].shaheed_count);
        assert!(waves[i - 1].soldier_count <= waves[i].soldier_count);
    }
    assert!(!waves[1].coordinated && waves[2].coordinated);
}

#[test]
fn fixed_point_operations() {
    let a = Fixed::from_bits(98304); // 1.5
    let b = Fixed::from_bits(163840); // 2.5
    assert_eq!(a.mul(b).to_bits(), 245760); // 3.75
    assert_eq!(Fixed::from_int(-3).to_bits(), -3 * 65536);
    assert_eq!(Fixed::from_bits(-1).floor_to_int(), -1);
    assert_eq!(Fixed::from_bits(-98304).mul(b).to_bits(), -245760);
}

#[test]
fn terrain_preview_colors() {
    assert_eq!(TerrainType::Water.base_color(), (40, 80, 180));
    assert_eq!(TerrainType::TechRuins.base_color(), (90, 70, 120));
}

fn one_trigger_mission(actions: Vec<TriggerAction>) -> MissionDefinition {
    MissionDefinition {
        id: "m".into(),
        name: "M".into(),
        act: 1,
        mission_index: 2,
        map: MissionMap::Inline { width: 3, height: 3, tiles: vec![TerrainType::Grass; 4], elevation: vec![0; 8] },
        player_setup: PlayerSetup {
            heroes: vec![],
            units: vec![],
            buildings: vec![],
            starting_food: 0,
            starting_gpu: 0,
            starting_nfts: 0,
        },
        enemy_waves: vec![],
        objectives: vec![MissionObjective {
            id: "win".into(),
            description: "Win".into(),
            primary: false,
            condition: ObjectiveCondition::Manual,
        }],
        triggers: vec![ScriptedTrigger { id: "go".into(), condition: TriggerCondition::AtTick(5), actions, once: true }],
        dialogue: vec![DialogueLine {
            speaker: "A".into(),
            text: "B".into(),
            voice_style: VoiceStyle::Whisper,
            portrait: String::new(),
        }],
        briefing_text: String::new(),
        debrief_text: String::new(),
        ai_tool_tier: None,
        next_mission: NextMission::End,
        mutators: vec![],
    }
}

#[test]
fn mission_errors_exact_text_and_order() {
    let m = one_trigger_mission(vec![
        TriggerAction::ShowDialogue(vec![0, 7, 12]),
        TriggerAction::ToggleMutator { mutator_index: 0, active: true },
        TriggerAction::CompleteObjective("win".into()),
        TriggerAction::SpawnWave("w9".into()),
    ]);
    let errs = m.validate().unwrap_err();
    assert_eq!(
        errs,
        vec![
            "Tile count 4 != 3x3=9".to_string(),
            "Elevation count 8 != 3x3=9".to_string(),
            "Trigger 'go' references dialogue index 7 but only 1 lines exist".to_string(),
            "Trigger 'go' references dialogue index 12 but only 1 lines exist".to_string(),
            "Trigger 'go' references mutator index 0 but only 0 mutators exist".to_string(),
            "Trigger 'go' references unknown wave 'w9'".to_string(),
            "Mission has no primary objectives".to_string(),
        ]
    );
}

#[test]
fn generated_missions_skip_map_checks() {
    let mut m = one_trigger_mission(vec![TriggerAction::SetFlag("f".into())]);
    m.map = MissionMap::Generated { seed: 1, width: 100, height: 100 };
    m.objectives[0].primary = true;
    assert!(m.validate().is_ok());
    assert!(matches!(NextMission::default(), NextMission::End));
}

#[test]
fn brush_disc_covers_exactly_the_disc() {
    let mut map = GameMap::new(12, 12);
    brush_disc(&mut map, 5, 5, 2, BrushOp::Paint(TerrainType::Water, 0));
    let mut count = 0;
    for y in 0..12 {
        for x in 0..12 {
            let inside = (x - 5) * (x - 5) + (y - 5) * (y - 5) <= 4;
            let t = map.terrain_at(GridPos::new(x, y)).unwrap();
            assert_eq!(t == TerrainType::Water, inside);
            if inside {
                count += 1;
            }
        }
    }
    assert_eq!(count, 13);
    // Fords turn only water into shallows.
    brush_disc(&mut map, 6, 5, 1, BrushOp::Ford);
    assert_eq!(map.terrain_at(GridPos::new(6, 5)), Some(TerrainType::Shallows));
    assert_eq!(map.terrain_at(GridPos::new(7, 5)), Some(TerrainType::Shallows));
    assert_eq!(map.terrain_at(GridPos::new(8, 5)), Some(TerrainType::Grass));
    // A brush hanging off the map edge only touches cells on the map.
    brush_disc(&mut map, 0, 0, 1, BrushOp::Carve(TerrainType::Road));
    assert_eq!(map.terrain_at(GridPos::new(0, 0)), Some(TerrainType::Road));
    assert_eq!(map.terrain_at(GridPos::new(1, 1)), Some(TerrainType::Grass));
}

#[test]
fn brush_all_and_ramps() {
    let mut map = GameMap::new(4, 4);
    brush_all(&mut map, BrushOp::Paint(TerrainType::Grass, 1));
    assert_eq!(map.elevation_at(GridPos::new(3, 3)), 1);
    map.get_mut(GridPos::new(2, 1)).unwrap().elevation = 2;
    ramp_at_transition(&mut map, 1, 1);
    assert_eq!(map.terrain_at(GridPos::new(1, 1)), Some(TerrainType::Ramp));
    assert_eq!(map.elevation_at(GridPos::new(1, 1)), 1);
    ramp_at_transition(&mut map, 0, 3);
    assert_eq!(map.terrain_at(GridPos::new(0, 3)), Some(TerrainType::Grass));
    ramp_at_transition(&mut map, -5, 3);
}

#[test]
fn noise_skips_structures_and_spawn_areas() {
    let mut map = GameMap::new(20, 20);
    map.get_mut(GridPos::new(15, 15)).unwrap().terrain = TerrainType::Road;
    let spawns = [(2, 2)];
    assert!(!noise_may_repaint(&map, &spawns, 7, 7));
    assert!(noise_may_repaint(&map, &spawns, 8, 7));
    assert!(!noise_may_repaint(&map, &spawns, 15, 15));
    assert!(noise_may_repaint(&map, &spawns, 14, 15));
}

#[test]
fn symmetric_spawn_layouts() {
    assert_eq!(symmetric_spawns(2, MapSymmetry::Rotational180, 64, 48), Some(vec![(6, 6), (57, 41)]));
    assert_eq!(symmetric_spawns(2, MapSymmetry::MirrorHorizontal, 64, 48), Some(vec![(6, 24), (57, 24)]));
    assert_eq!(symmetric_spawns(2, MapSymmetry::MirrorVertical, 64, 48), Some(vec![(32, 6), (32, 41)]));
    assert_eq!(
        symmetric_spawns(4, MapSymmetry::Rotational90, 64, 64),
        Some(vec![(6, 6), (57, 6), (57, 57), (6, 57)])
    );
    assert_eq!(symmetric_spawns(3, MapSymmetry::Rotational180, 64, 64), None);
    assert_eq!(symmetric_spawns(2, MapSymmetry::Rotational90, 64, 64), None);
}

#[test]
fn connectivity_reports_first_unreachable_spawn() {
    let mut map = GameMap::new(10, 10);
    for y in 0..10 {
        map.get_mut(GridPos::new(5, y)).unwrap().terrain = TerrainType::Rock;
    }
    assert!(validate_connectivity(&map, &[(1, 1), (2, 8)]).is_ok());
    assert_eq!(
        validate_connectivity(&map, &[(1, 1), (3, 3), (-7, 8), (8, 8)]).unwrap_err(),
        "Spawn point 2 at (-7, 8) is not reachable from spawn 0"
    );
}
