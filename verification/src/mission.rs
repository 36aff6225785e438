//! Campaign mission definitions and their consistency check.

use crate::components::{BuildingKind, UnitKind};
use crate::coords::GridPos;
use crate::hero::HeroId;
use crate::mutator::MissionMutator;
use crate::terrain::TerrainType;
use crate::text::{concat2, decimal, owned, str_eq, u64_text};
use vstd::prelude::*;

verus! {

/// A complete mission definition, loadable from RON files.
#[derive(Debug)]
pub struct MissionDefinition {
    /// Unique mission identifier (e.g. "prologue").
    pub id: String,
    /// Display name (e.g. "The Server in the River").
    pub name: String,
    /// Act number (0 = prologue).
    pub act: u32,
    /// Mission index within the act.
    pub mission_index: u32,
    /// Map configuration.
    pub map: MissionMap,
    /// Player starting setup.
    pub player_setup: PlayerSetup,
    /// Enemy wave definitions.
    pub enemy_waves: Vec<EnemyWave>,
    /// Mission objectives (primary = required, secondary = optional).
    pub objectives: Vec<MissionObjective>,
    /// Scripted triggers that fire based on game conditions.
    pub triggers: Vec<ScriptedTrigger>,
    /// All dialogue lines referenced by triggers.
    pub dialogue: Vec<DialogueLine>,
    /// Text shown on the briefing screen.
    pub briefing_text: String,
    /// Text shown after mission completion.
    pub debrief_text: String,
    /// AI tool tier allowed in this mission (None = default/all).
    pub ai_tool_tier: Option<u8>,
    /// What mission comes next.
    pub next_mission: NextMission,
    /// Gameplay mutators active during this mission.
    pub mutators: Vec<MissionMutator>,
}

/// Map source for a mission.
#[derive(Debug, Clone)]
pub enum MissionMap {
    /// Procedurally generated from a seed.
    Generated { seed: u64, width: u32, height: u32 },
    /// Inline tile data (row-major, TerrainType per tile).
    Inline {
        width: u32,
        height: u32,
        tiles: Vec<TerrainType>,
        /// Per-tile elevation (0-3). Same length as tiles.
        elevation: Vec<u8>,
    },
}

/// Initial player setup when the mission loads.
#[derive(Debug, Clone)]
pub struct PlayerSetup {
    /// Hero units to spawn for the player.
    pub heroes: Vec<HeroSpawn>,
    /// Regular units to spawn for the player.
    pub units: Vec<UnitSpawn>,
    /// Pre-built buildings for the player.
    pub buildings: Vec<BuildingSpawn>,
    /// Starting resources.
    pub starting_food: u32,
    pub starting_gpu: u32,
    pub starting_nfts: u32,
}

/// Where/how to spawn a hero.
#[derive(Debug, Clone)]
pub struct HeroSpawn {
    pub hero_id: HeroId,
    pub position: GridPos,
    /// If true, mission fails when this hero dies.
    pub mission_critical: bool,
    /// Which player owns this hero (default 0 for backward compat).
    pub player_id: u8,
}

/// Where/how to spawn a regular unit.
#[derive(Debug, Clone)]
pub struct UnitSpawn {
    pub kind: UnitKind,
    pub position: GridPos,
    pub player_id: u8,
}

/// Where/how to spawn a building.
#[derive(Debug, Clone)]
pub struct BuildingSpawn {
    pub kind: BuildingKind,
    pub position: GridPos,
    pub player_id: u8,
    /// If true, building spawns already constructed.
    pub pre_built: bool,
}

/// A group of enemies that spawn when triggered.
#[derive(Debug, Clone)]
pub struct EnemyWave {
    /// Unique wave id for trigger references.
    pub wave_id: String,
    /// What triggers this wave to spawn.
    pub trigger: WaveTrigger,
    /// Units in this wave.
    pub units: Vec<UnitSpawn>,
    /// Default AI behavior for spawned units.
    pub ai_behavior: WaveAiBehavior,
}

/// What causes a wave to spawn.
#[derive(Debug, Clone)]
pub enum WaveTrigger {
    /// Spawn at a specific tick.
    AtTick(u64),
    /// Spawn when a trigger fires.
    OnTrigger(String),
    /// Spawn at mission start.
    Immediate,
}

/// Default behavior for wave-spawned enemies.
#[derive(Debug, Clone)]
pub enum WaveAiBehavior {
    /// Move to target, attacking along the way.
    AttackMove(GridPos),
    /// Patrol between waypoints.
    Patrol(Vec<GridPos>),
    /// Hold position, attack in range only.
    Defend,
    /// Stand still until engaged.
    Idle,
}

/// A mission objective the player must complete (or avoid failing).
#[derive(Debug, Clone)]
pub struct MissionObjective {
    /// Unique objective id.
    pub id: String,
    /// Display text (e.g. "Defeat the Pack Leader").
    pub description: String,
    /// Is this required for mission success?
    pub primary: bool,
    /// What condition completes this objective.
    pub condition: ObjectiveCondition,
}

/// Conditions that complete (or fail) an objective.
#[derive(Debug, Clone)]
pub enum ObjectiveCondition {
    /// All enemies from a specific wave are dead.
    EliminateWave(String),
    /// All enemies on the map are dead.
    EliminateAll,
    /// Player has killed N enemies total.
    KillCount(u32),
    /// A specific hero reaches a grid position (within radius).
    HeroReachesPos {
        hero: HeroId,
        position: GridPos,
        radius: i32,
    },
    /// Survive for N ticks.
    Survive(u64),
    /// Fail condition: a specific hero has died.
    HeroDied(HeroId),
    /// Completed by a trigger action (CompleteObjective).
    Manual,
}

/// A condition → action pair evaluated each tick during a mission.
#[derive(Debug)]
pub struct ScriptedTrigger {
    /// Unique trigger id.
    pub id: String,
    /// Condition that activates this trigger.
    pub condition: TriggerCondition,
    /// Actions to perform when condition is met.
    pub actions: Vec<TriggerAction>,
    /// If true, trigger fires only once then deactivates.
    pub once: bool,
}

/// Conditions that activate a trigger.
#[derive(Debug)]
pub enum TriggerCondition {
    /// Fires at a specific tick.
    AtTick(u64),
    /// Fires when a hero is within radius of a position.
    HeroAtPos {
        hero: HeroId,
        position: GridPos,
        radius: i32,
    },
    /// Fires when enemy kill count reaches N.
    EnemyKillCount(u32),
    /// Fires when all enemies are dead.
    AllEnemiesDead,
    /// Fires when a specific wave is fully eliminated.
    WaveEliminated(String),
    /// Fires when a flag has been set.
    FlagSet(String),
    /// Fires when another trigger has fired.
    TriggerFired(String),
    /// All sub-conditions must be true.
    All(Vec<TriggerCondition>),
    /// Any sub-condition must be true.
    Any(Vec<TriggerCondition>),
    /// A specific hero's HP is below a fraction (percentage).
    HeroHpBelow {
        hero: HeroId,
        /// HP percentage threshold (e.g. 50 = 50%).
        percentage: u32,
    },
    /// Fires when a persistent campaign flag is set.
    PersistentFlag(String),
    /// Fires when a hazard reaches a certain level.
    HazardLevel { hazard_type: String, level: u32 },
    /// Fires periodically at fixed intervals.
    Periodic {
        interval_ticks: u64,
        offset_ticks: u64,
    },
}

/// Actions performed when a trigger fires.
#[derive(Debug, Clone)]
pub enum TriggerAction {
    /// Show dialogue lines (by indices into mission dialogue array).
    ShowDialogue(Vec<usize>),
    /// Spawn an enemy wave by wave_id.
    SpawnWave(String),
    /// Set a narrative flag.
    SetFlag(String),
    /// Mark an objective as complete by objective_id.
    CompleteObjective(String),
    /// Pan the camera to a position.
    PanCamera(GridPos),
    /// Set a persistent campaign flag (survives across missions).
    SetPersistentFlag(String),
    /// Toggle a mutator on or off by its index in the mission's mutators vec.
    ToggleMutator { mutator_index: usize, active: bool },
    /// Set terrain type at specific positions.
    SetTerrain {
        positions: Vec<GridPos>,
        terrain: TerrainType,
    },
    /// Deal damage to all units in an area.
    AreaDamage {
        center: GridPos,
        radius: u32,
        damage: u32,
    },
}

/// What mission comes after this one.
#[derive(Debug, Clone)]
pub enum NextMission {
    /// A specific mission ID.
    Fixed(String),
    /// Branch based on a persistent flag.
    Branching {
        flag: String,
        on_true: String,
        on_false: String,
    },
    /// No next mission (end of campaign or handled externally).
    End,
}

impl Default for NextMission {
    /// No next mission.
    fn default() -> (n: NextMission)
        ensures
            n is End,
    {
        NextMission::End
    }
}

/// A single line of dialogue.
#[derive(Debug, Clone)]
pub struct DialogueLine {
    /// Speaker name (e.g. "Kelpie", "Geppity").
    pub speaker: String,
    /// The dialogue text.
    pub text: String,
    /// Voice style affects rendering.
    pub voice_style: VoiceStyle,
    /// Portrait asset key (e.g. "portrait_kelpie"). Empty string = no portrait.
    pub portrait: String,
}

/// How dialogue is rendered/styled.
#[derive(Debug, Clone, Copy, PartialEq, Eq, Structural)]
pub enum VoiceStyle {
    /// Normal character speech.
    Normal,
    /// AI voice — rendered with distortion/static effect.
    AiVoice,
    /// Whispered text — smaller, italic.
    Whisper,
    /// Shouted text — larger, bold.
    Shout,
}

// ---------------------------------------------------------------------------
// Validation
// ---------------------------------------------------------------------------

/// The characters of each string, in order.
pub open spec fn texts(v: Seq<String>) -> Seq<Seq<char>> {
    v.map_values(|s: String| s@)
}

/// `<label><got> != <w>x<h>=<expected>`.
pub open spec fn count_text(label: Seq<char>, got: nat, w: nat, h: nat, expected: nat) -> Seq<char> {
    label + decimal(got) + " != "@ + decimal(w) + "x"@ + decimal(h) + "="@ + decimal(expected)
}

/// `Trigger '<id>' references dialogue index <idx> but only <lines> lines exist`.
pub open spec fn dialogue_index_text(tid: Seq<char>, idx: nat, lines: nat) -> Seq<char> {
    "Trigger '"@ + tid + "' references dialogue index "@ + decimal(idx) + " but only "@ + decimal(lines)
        + " lines exist"@
}

/// `Trigger '<id>' references unknown <what> '<name>'`.
pub open spec fn unknown_ref_text(tid: Seq<char>, what: Seq<char>, name: Seq<char>) -> Seq<char> {
    "Trigger '"@ + tid + "' references unknown "@ + what + " '"@ + name + "'"@
}

/// `Trigger '<id>' references mutator index <idx> but only <count> mutators exist`.
pub open spec fn mutator_index_text(tid: Seq<char>, idx: nat, count: nat) -> Seq<char> {
    "Trigger '"@ + tid + "' references mutator index "@ + decimal(idx) + " but only "@ + decimal(count)
        + " mutators exist"@
}

/// Problems with an inline map: tile and elevation counts that differ from
/// width times height (tiles first).
pub open spec fn map_problems(map: MissionMap) -> Seq<Seq<char>> {
    match map {
        MissionMap::Inline { width, height, tiles, elevation } => {
            let expected = width as nat * height as nat;
            (if tiles@.len() != expected {
                seq![count_text("Tile count "@, tiles@.len(), width as nat, height as nat, expected)]
            } else {
                seq![]
            }) + (if elevation@.len() != expected {
                seq![count_text("Elevation count "@, elevation@.len(), width as nat, height as nat, expected)]
            } else {
                seq![]
            })
        },
        MissionMap::Generated { .. } => seq![],
    }
}

/// One message per dialogue index (among the first `k`) that is out of range.
pub open spec fn dialogue_problems(tid: Seq<char>, idxs: Seq<usize>, lines: nat, k: int) -> Seq<Seq<char>>
    decreases k,
{
    if k <= 0 {
        seq![]
    } else {
        dialogue_problems(tid, idxs, lines, k - 1) + if idxs[k - 1] >= lines {
            seq![dialogue_index_text(tid, idxs[k - 1] as nat, lines)]
        } else {
            seq![]
        }
    }
}

/// Whether some enemy wave has the id `name`.
pub open spec fn wave_known(m: MissionDefinition, name: Seq<char>) -> bool {
    exists|i: int| 0 <= i < m.enemy_waves@.len() && #[trigger] m.enemy_waves@[i].wave_id@ == name
}

/// Whether some objective has the id `name`.
pub open spec fn objective_known(m: MissionDefinition, name: Seq<char>) -> bool {
    exists|i: int| 0 <= i < m.objectives@.len() && #[trigger] m.objectives@[i].id@ == name
}

/// Problems with one action of the trigger `tid`: dialogue indices past the
/// dialogue list, unknown wave or objective ids, mutator indices past the
/// mutator list.
pub open spec fn action_problems(m: MissionDefinition, tid: Seq<char>, a: TriggerAction) -> Seq<Seq<char>> {
    match a {
        TriggerAction::ShowDialogue(idxs) => dialogue_problems(tid, idxs@, m.dialogue@.len(), idxs@.len() as int),
        TriggerAction::SpawnWave(w) => if wave_known(m, w@) {
            seq![]
        } else {
            seq![unknown_ref_text(tid, "wave"@, w@)]
        },
        TriggerAction::CompleteObjective(o) => if objective_known(m, o@) {
            seq![]
        } else {
            seq![unknown_ref_text(tid, "objective"@, o@)]
        },
        TriggerAction::ToggleMutator { mutator_index, .. } => if mutator_index >= m.mutators@.len() {
            seq![mutator_index_text(tid, mutator_index as nat, m.mutators@.len())]
        } else {
            seq![]
        },
        _ => seq![],
    }
}

/// Problems with the first `k` actions of the trigger `tid`, in order.
pub open spec fn actions_problems(m: MissionDefinition, tid: Seq<char>, acts: Seq<TriggerAction>, k: int) -> Seq<
    Seq<char>,
>
    decreases k,
{
    if k <= 0 {
        seq![]
    } else {
        actions_problems(m, tid, acts, k - 1) + action_problems(m, tid, acts[k - 1])
    }
}

/// Problems with the actions of the first `k` triggers, in order.
pub open spec fn triggers_problems(m: MissionDefinition, k: int) -> Seq<Seq<char>>
    decreases k,
{
    if k <= 0 {
        seq![]
    } else {
        let t = m.triggers@[k - 1];
        triggers_problems(m, k - 1) + actions_problems(m, t.id@, t.actions@, t.actions@.len() as int)
    }
}

/// Whether some objective is primary.
pub open spec fn has_primary(m: MissionDefinition) -> bool {
    exists|i: int| 0 <= i < m.objectives@.len() && #[trigger] m.objectives@[i].primary
}

/// Every consistency problem of a mission, in the order they are reported:
/// map counts, then each trigger's actions, then a missing primary objective.
pub open spec fn validation_errors(m: MissionDefinition) -> Seq<Seq<char>> {
    map_problems(m.map) + triggers_problems(m, m.triggers@.len() as int) + if has_primary(m) {
        seq![]
    } else {
        seq!["Mission has no primary objectives"@]
    }
}

/// An inline map holds exactly width times height tiles and elevations.
pub open spec fn map_counts_ok(map: MissionMap) -> bool {
    match map {
        MissionMap::Inline { width, height, tiles, elevation } => tiles@.len() == width as nat * height as nat
            && elevation@.len() == width as nat * height as nat,
        MissionMap::Generated { .. } => true,
    }
}

/// A trigger action refers only to what the mission has: dialogue lines,
/// enemy waves, objectives and mutators.
pub open spec fn action_ok(m: MissionDefinition, a: TriggerAction) -> bool {
    match a {
        TriggerAction::ShowDialogue(idxs) => forall|j: int| 0 <= j < idxs@.len() ==> #[trigger] idxs@[j] < m.dialogue@.len(),
        TriggerAction::SpawnWave(w) => wave_known(m, w@),
        TriggerAction::CompleteObjective(o) => objective_known(m, o@),
        TriggerAction::ToggleMutator { mutator_index, .. } => mutator_index < m.mutators@.len(),
        _ => true,
    }
}

/// The mission is consistent: its inline map has the right counts, every
/// trigger action refers to what the mission has, and some objective is primary.
pub open spec fn mission_consistent(m: MissionDefinition) -> bool {
    &&& map_counts_ok(m.map)
    &&& forall|i: int, j: int|
        0 <= i < m.triggers@.len() && 0 <= j < m.triggers@[i].actions@.len() ==> action_ok(
            m,
            #[trigger] m.triggers@[i].actions@[j],
        )
    &&& has_primary(m)
}

proof fn lemma_dialogue_problems_empty(tid: Seq<char>, idxs: Seq<usize>, lines: nat, k: int)
    requires
        0 <= k <= idxs.len(),
    ensures
        dialogue_problems(tid, idxs, lines, k).len() == 0 <==> forall|j: int| 0 <= j < k ==> #[trigger] idxs[j] < lines,
    decreases k,
{
    if k > 0 {
        lemma_dialogue_problems_empty(tid, idxs, lines, k - 1);
        if idxs[k - 1] >= lines {
            assert(!(idxs[k - 1] < lines));
        }
    }
}

proof fn lemma_actions_problems_empty(m: MissionDefinition, tid: Seq<char>, acts: Seq<TriggerAction>, k: int)
    requires
        0 <= k <= acts.len(),
    ensures
        actions_problems(m, tid, acts, k).len() == 0 <==> forall|j: int| 0 <= j < k ==> action_ok(m, #[trigger] acts[j]),
    decreases k,
{
    if k > 0 {
        lemma_actions_problems_empty(m, tid, acts, k - 1);
        let a = acts[k - 1];
        if let TriggerAction::ShowDialogue(idxs) = a {
            lemma_dialogue_problems_empty(tid, idxs@, m.dialogue@.len(), idxs@.len() as int);
        }
        assert(action_problems(m, tid, a).len() == 0 <==> action_ok(m, a));
    }
}

proof fn lemma_triggers_problems_empty(m: MissionDefinition, k: int)
    requires
        0 <= k <= m.triggers@.len(),
    ensures
        triggers_problems(m, k).len() == 0 <==> forall|i: int, j: int|
            0 <= i < k && 0 <= j < m.triggers@[i].actions@.len() ==> action_ok(m, #[trigger] m.triggers@[i].actions@[j]),
    decreases k,
{
    if k > 0 {
        lemma_triggers_problems_empty(m, k - 1);
        let t = m.triggers@[k - 1];
        lemma_actions_problems_empty(m, t.id@, t.actions@, t.actions@.len() as int);
        if triggers_problems(m, k).len() == 0 {
            assert forall|i: int, j: int|
                0 <= i < k && 0 <= j < m.triggers@[i].actions@.len() implies action_ok(
                m,
                #[trigger] m.triggers@[i].actions@[j],
            ) by {
                if i == k - 1 {
                    assert(action_ok(m, t.actions@[j]));
                }
            }
        } else {
            if actions_problems(m, t.id@, t.actions@, t.actions@.len() as int).len() != 0 {
                let j = choose|j: int| 0 <= j < t.actions@.len() && !action_ok(m, #[trigger] t.actions@[j]);
                assert(!action_ok(m, m.triggers@[k - 1].actions@[j]));
            }
        }
    }
}

/// A mission has no validation problem exactly when it is consistent: its
/// inline map holds width times height tiles and elevations, every trigger
/// action refers to an existing dialogue line, enemy wave, objective or
/// mutator, and some objective is primary.
pub proof fn lemma_validation_errors_empty(m: MissionDefinition)
    ensures
        validation_errors(m).len() == 0 <==> mission_consistent(m),
{
    lemma_triggers_problems_empty(m, m.triggers@.len() as int);
    assert(map_problems(m.map).len() == 0 <==> map_counts_ok(m.map));
}

/// Appends `s` to `errors`.
fn push_text(errors: &mut Vec<String>, s: String)
    ensures
        texts(final(errors)@) == texts(old(errors)@).push(s@),
{
    let ghost sv = s@;
    errors.push(s);
    proof {
        assert(texts(errors@) =~= texts(old(errors)@).push(sv));
    }
}

/// Decimal text of a count.
fn num_text(n: usize) -> (s: String)
    ensures
        s@ == decimal(n as nat),
{
    u64_text(n as u64)
}

/// `<label><got> != <w>x<h>=<expected>`.
fn count_message(label: &str, got: usize, w: u32, h: u32, expected: usize) -> (s: String)
    ensures
        s@ == count_text(label@, got as nat, w as nat, h as nat, expected as nat),
{
    let mut s = owned(label);
    s = concat2(s, num_text(got).as_str());
    s = concat2(s, " != ");
    s = concat2(s, u64_text(w as u64).as_str());
    s = concat2(s, "x");
    s = concat2(s, u64_text(h as u64).as_str());
    s = concat2(s, "=");
    s = concat2(s, num_text(expected).as_str());
    s
}

/// `Trigger '<id>' references dialogue index <idx> but only <lines> lines exist`.
fn dialogue_index_message(tid: &String, idx: usize, lines: usize) -> (s: String)
    ensures
        s@ == dialogue_index_text(tid@, idx as nat, lines as nat),
{
    let mut s = owned("Trigger '");
    s = concat2(s, tid.as_str());
    s = concat2(s, "' references dialogue index ");
    s = concat2(s, num_text(idx).as_str());
    s = concat2(s, " but only ");
    s = concat2(s, num_text(lines).as_str());
    s = concat2(s, " lines exist");
    s
}

/// `Trigger '<id>' references unknown <what> '<name>'`.
fn unknown_ref_message(tid: &String, what: &str, name: &String) -> (s: String)
    ensures
        s@ == unknown_ref_text(tid@, what@, name@),
{
    let mut s = owned("Trigger '");
    s = concat2(s, tid.as_str());
    s = concat2(s, "' references unknown ");
    s = concat2(s, what);
    s = concat2(s, " '");
    s = concat2(s, name.as_str());
    s = concat2(s, "'");
    s
}

/// `Trigger '<id>' references mutator index <idx> but only <count> mutators exist`.
fn mutator_index_message(tid: &String, idx: usize, count: usize) -> (s: String)
    ensures
        s@ == mutator_index_text(tid@, idx as nat, count as nat),
{
    let mut s = owned("Trigger '");
    s = concat2(s, tid.as_str());
    s = concat2(s, "' references mutator index ");
    s = concat2(s, num_text(idx).as_str());
    s = concat2(s, " but only ");
    s = concat2(s, num_text(count).as_str());
    s = concat2(s, " mutators exist");
    s
}

impl MissionDefinition {
    /// Whether some enemy wave has the id `name`.
    fn knows_wave(&self, name: &String) -> (r: bool)
        ensures
            r == wave_known(*self, name@),
    {
        let mut i: usize = 0;
        while i < self.enemy_waves.len()
            invariant
                i <= self.enemy_waves@.len(),
                forall|j: int| 0 <= j < i ==> #[trigger] self.enemy_waves@[j].wave_id@ != name@,
            decreases self.enemy_waves@.len() - i,
        {
            if str_eq(self.enemy_waves[i].wave_id.as_str(), name.as_str()) {
                return true;
            }
            i = i + 1;
        }
        false
    }

    /// Whether some objective has the id `name`.
    fn knows_objective(&self, name: &String) -> (r: bool)
        ensures
            r == objective_known(*self, name@),
    {
        let mut i: usize = 0;
        while i < self.objectives.len()
            invariant
                i <= self.objectives@.len(),
                forall|j: int| 0 <= j < i ==> #[trigger] self.objectives@[j].id@ != name@,
            decreases self.objectives@.len() - i,
        {
            if str_eq(self.objectives[i].id.as_str(), name.as_str()) {
                return true;
            }
            i = i + 1;
        }
        false
    }

    /// Whether some objective is primary.
    fn any_primary(&self) -> (r: bool)
        ensures
            r == has_primary(*self),
    {
        let mut i: usize = 0;
        while i < self.objectives.len()
            invariant
                i <= self.objectives@.len(),
                forall|j: int| 0 <= j < i ==> !(#[trigger] self.objectives@[j].primary),
            decreases self.objectives@.len() - i,
        {
            if self.objectives[i].primary {
                return true;
            }
            i = i + 1;
        }
        false
    }

    /// Messages for the actions of one trigger, appended in order.
    fn check_trigger(&self, trigger: &ScriptedTrigger, errors: &mut Vec<String>)
        ensures
            texts(final(errors)@) == texts(old(errors)@) + actions_problems(
                *self,
                trigger.id@,
                trigger.actions@,
                trigger.actions@.len() as int,
            ),
    {
        let ghost start = texts(errors@);
        let mut k: usize = 0;
        while k < trigger.actions.len()
            invariant
                k <= trigger.actions@.len(),
                texts(errors@) == start + actions_problems(*self, trigger.id@, trigger.actions@, k as int),
            decreases trigger.actions@.len() - k,
        {
            let ghost before = texts(errors@);
            match &trigger.actions[k] {
                TriggerAction::ShowDialogue(indices) => {
                    let mut j: usize = 0;
                    while j < indices.len()
                        invariant
                            j <= indices@.len(),
                            texts(errors@) == before + dialogue_problems(
                                trigger.id@,
                                indices@,
                                self.dialogue@.len(),
                                j as int,
                            ),
                        decreases indices@.len() - j,
                    {
                        let ghost mid = texts(errors@);
                        let idx = indices[j];
                        if idx >= self.dialogue.len() {
                            push_text(errors, dialogue_index_message(&trigger.id, idx, self.dialogue.len()));
                        }
                        proof {
                            assert(texts(errors@) =~= before + dialogue_problems(
                                trigger.id@,
                                indices@,
                                self.dialogue@.len(),
                                j + 1,
                            ));
                        }
                        j = j + 1;
                    }
                },
                TriggerAction::SpawnWave(wave_id) => {
                    if !self.knows_wave(wave_id) {
                        push_text(errors, unknown_ref_message(&trigger.id, "wave", wave_id));
                    }
                },
                TriggerAction::CompleteObjective(obj_id) => {
                    if !self.knows_objective(obj_id) {
                        push_text(errors, unknown_ref_message(&trigger.id, "objective", obj_id));
                    }
                },
                TriggerAction::ToggleMutator { mutator_index, .. } => {
                    if *mutator_index >= self.mutators.len() {
                        push_text(errors, mutator_index_message(&trigger.id, *mutator_index, self.mutators.len()));
                    }
                },
                _ => {},
            }
            proof {
                assert(texts(errors@) == before + action_problems(*self, trigger.id@, trigger.actions@[k as int]));
                assert(texts(errors@) =~= start + actions_problems(*self, trigger.id@, trigger.actions@, k + 1));
            }
            k = k + 1;
        }
    }

    /// Validate internal consistency of the mission definition.
    /// All trigger action checks (dialogue indices, wave refs, objective refs)
    /// are performed in a single pass over triggers. The result is `Ok` exactly
    /// when there is no problem; otherwise it lists every problem, in order.
    pub fn validate(&self) -> (r: Result<(), Vec<String>>)
        requires
            self.map matches MissionMap::Inline { width, height, .. } ==> width * height <= usize::MAX,
        ensures
            match r {
                Ok(_) => validation_errors(*self).len() == 0,
                Err(v) => validation_errors(*self).len() > 0 && texts(v@) == validation_errors(*self),
            },
            r is Ok <==> mission_consistent(*self),
    {
        proof {
            lemma_validation_errors_empty(*self);
        }
        let mut errors: Vec<String> = Vec::new();
        proof {
            assert(texts(errors@) =~= seq![]);
        }
        match &self.map {
            MissionMap::Inline { width, height, tiles, elevation } => {
                let expected: usize = (*width as usize) * (*height as usize);
                if tiles.len() != expected {
                    push_text(&mut errors, count_message("Tile count ", tiles.len(), *width, *height, expected));
                }
                if elevation.len() != expected {
                    push_text(
                        &mut errors,
                        count_message("Elevation count ", elevation.len(), *width, *height, expected),
                    );
                }
            },
            MissionMap::Generated { .. } => {},
        }
        proof {
            assert(texts(errors@) =~= map_problems(self.map));
        }
        let mut i: usize = 0;
        while i < self.triggers.len()
            invariant
                i <= self.triggers@.len(),
                texts(errors@) == map_problems(self.map) + triggers_problems(*self, i as int),
            decreases self.triggers@.len() - i,
        {
            self.check_trigger(&self.triggers[i], &mut errors);
            proof {
                assert(texts(errors@) =~= map_problems(self.map) + triggers_problems(*self, i + 1));
            }
            i = i + 1;
        }
        if !self.any_primary() {
            push_text(&mut errors, owned("Mission has no primary objectives"));
        }
        proof {
            assert(texts(errors@) =~= validation_errors(*self));
        }
        if errors.len() == 0 {
            Ok(())
        } else {
            Err(errors)
        }
    }
}

} // verus!
