//! Tests of `mission`.

use cc_core::components::{UnitKind};
use cc_core::coords::{GridPos};
use cc_core::hero::{HeroId};
use cc_core::mission::{DialogueLine, EnemyWave, HeroSpawn, MissionDefinition, MissionMap, MissionObjective, NextMission, ObjectiveCondition, PlayerSetup, ScriptedTrigger, TriggerAction, TriggerCondition, UnitSpawn, VoiceStyle, WaveAiBehavior, WaveTrigger};
use cc_core::mutator::{MissionMutator};
use cc_core::terrain::{TerrainType};

fn minimal_mission() -> MissionDefinition {
    MissionDefinition {
        id: "test".into(),
        name: "Test Mission".into(),
        act: 0,
        mission_index: 0,
        map: MissionMap::Inline {
            width: 2,
            height: 2,
            tiles: vec![TerrainType::Grass; 4],
            elevation: vec![0; 4],
        },
        player_setup: PlayerSetup {
            heroes: vec![HeroSpawn {
                hero_id: HeroId::Kelpie,
                position: GridPos::new(0, 0),
                mission_critical: true,
                player_id: 0,
            }],
            units: vec![],
            buildings: vec![],
            starting_food: 0,
            starting_gpu: 0,
            starting_nfts: 0,
        },
        enemy_waves: vec![EnemyWave {
            wave_id: "wave1".into(),
            trigger: WaveTrigger::Immediate,
            units: vec![UnitSpawn {
                kind: UnitKind::Nuisance,
                position: GridPos::new(1, 1),
                player_id: 1,
            }],
            ai_behavior: WaveAiBehavior::Idle,
        }],
        objectives: vec![MissionObjective {
            id: "obj1".into(),
            description: "Test objective".into(),
            primary: true,
            condition: ObjectiveCondition::EliminateAll,
        }],
        triggers: vec![ScriptedTrigger {
            id: "t1".into(),
            condition: TriggerCondition::AtTick(10),
            actions: vec![TriggerAction::ShowDialogue(vec![0])],
            once: true,
        }],
        dialogue: vec![DialogueLine {
            speaker: "Test".into(),
            text: "Hello".into(),
            voice_style: VoiceStyle::Normal,
            portrait: String::new(),
        }],
        briefing_text: "Test briefing".into(),
        debrief_text: "Test debrief".into(),
        ai_tool_tier: None,
        next_mission: NextMission::End,
        mutators: vec![],
    }
}

#[test]
fn validation_passes_for_valid_mission() {
    let mission = minimal_mission();
    assert!(mission.validate().is_ok());
}

#[test]
fn validation_catches_bad_dialogue_index() {
    let mut mission = minimal_mission();
    mission.triggers[0].actions = vec![TriggerAction::ShowDialogue(vec![99])];
    let errs = mission.validate().unwrap_err();
    assert!(errs.iter().any(|e| e.contains("dialogue index 99")));
}

#[test]
fn validation_catches_bad_wave_reference() {
    let mut mission = minimal_mission();
    mission.triggers[0].actions = vec![TriggerAction::SpawnWave("nonexistent".into())];
    let errs = mission.validate().unwrap_err();
    assert!(errs.iter().any(|e| e.contains("unknown wave")));
}

#[test]
fn validation_catches_bad_objective_reference() {
    let mut mission = minimal_mission();
    mission.triggers[0].actions = vec![TriggerAction::CompleteObjective("nonexistent".into())];
    let errs = mission.validate().unwrap_err();
    assert!(errs.iter().any(|e| e.contains("unknown objective")));
}

#[test]
fn validation_catches_no_primary_objectives() {
    let mut mission = minimal_mission();
    mission.objectives[0].primary = false;
    let errs = mission.validate().unwrap_err();
    assert!(errs.iter().any(|e| e.contains("no primary objectives")));
}

#[test]
fn validation_catches_wrong_tile_count() {
    let mut mission = minimal_mission();
    mission.map = MissionMap::Inline {
        width: 3,
        height: 3,
        tiles: vec![TerrainType::Grass; 4],
        elevation: vec![0; 9],
    };
    let errs = mission.validate().unwrap_err();
    assert!(errs.iter().any(|e| e.contains("Tile count")));
}

#[test]
fn validate_single_pass_catches_all_action_errors() {
    let mut mission = minimal_mission();
    mission.triggers = vec![ScriptedTrigger {
        id: "multi_error".into(),
        condition: TriggerCondition::AtTick(1),
        actions: vec![
            TriggerAction::ShowDialogue(vec![42]),
            TriggerAction::SpawnWave("phantom_wave".into()),
            TriggerAction::CompleteObjective("phantom_obj".into()),
        ],
        once: true,
    }];
    let errs = mission.validate().unwrap_err();
    assert!(errs.iter().any(|e| e.contains("dialogue index 42")));
    assert!(
        errs.iter()
            .any(|e| e.contains("unknown wave 'phantom_wave'"))
    );
    assert!(
        errs.iter()
            .any(|e| e.contains("unknown objective 'phantom_obj'"))
    );
    assert_eq!(errs.len(), 3);
}

#[test]
fn validation_catches_bad_mutator_index() {
    let mut mission = minimal_mission();
    mission.mutators = vec![MissionMutator::NoBuildMode];
    mission.triggers[0].actions = vec![TriggerAction::ToggleMutator {
        mutator_index: 5,
        active: false,
    }];
    let errs = mission.validate().unwrap_err();
    assert!(errs.iter().any(|e| e.contains("mutator index 5")));
}

#[test]
fn validation_accepts_valid_mutator_index() {
    let mut mission = minimal_mission();
    mission.mutators = vec![MissionMutator::NoBuildMode, MissionMutator::NoAiControl];
    mission.triggers[0].actions = vec![TriggerAction::ToggleMutator {
        mutator_index: 1,
        active: true,
    }];
    assert!(mission.validate().is_ok());
}

// -----------------------------------------------------------------------
// Campaign map tests: Prologue + Pond Defense
// -----------------------------------------------------------------------

/// Helper: check that a position's terrain is passable (not Rock or Water).
fn assert_passable(tiles: &[TerrainType], width: u32, x: i32, y: i32, label: &str) {
    let idx = (y as u32 * width + x as u32) as usize;
    let t = tiles[idx];
    assert!(
        t != TerrainType::Rock && t != TerrainType::Water,
        "{label}: position ({x},{y}) is on impassable {t:?}"
    );
}

/// Assert all heroes, player units, and wave positions are on passable terrain.
fn assert_all_positions_passable(mission: &MissionDefinition) {
    let MissionMap::Inline { width, tiles, .. } = &mission.map else {
        panic!("Expected Inline map");
    };
    let w = *width;
    for hero in &mission.player_setup.heroes {
        assert_passable(
            tiles,
            w,
            hero.position.x,
            hero.position.y,
            &format!("hero {:?}", hero.hero_id),
        );
    }
    for unit in &mission.player_setup.units {
        assert_passable(
            tiles,
            w,
            unit.position.x,
            unit.position.y,
            &format!("player unit {:?}", unit.kind),
        );
    }
    for wave in &mission.enemy_waves {
        for unit in &wave.units {
            assert_passable(
                tiles,
                w,
                unit.position.x,
                unit.position.y,
                &format!("wave '{}' unit", wave.wave_id),
            );
        }
        if let WaveAiBehavior::AttackMove(pos) = &wave.ai_behavior {
            assert_passable(
                tiles,
                w,
                pos.x,
                pos.y,
                &format!("wave '{}' attack_move target", wave.wave_id),
            );
        }
    }
}
