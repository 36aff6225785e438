//! Status effects (buffs, debuffs, crowd control) carried by entities.

use crate::commands::EntityId;
use vstd::prelude::*;

verus! {

/// Unique identifier for each status effect in the game.
#[derive(Debug, Clone, Copy, PartialEq, Eq, Hash, Structural)]
pub enum StatusEffectId {
    /// Nuisance passive — stacking debuff on attacked target.
    Annoyed,
    /// Hisser passive — armor reduction over time.
    Corroded,
    /// FlyingFox ability — movement confusion (CC).
    Disoriented,
    /// Catnapper ability — falling asleep (CC).
    Drowsed,
    /// Yowler ability — attack/move disruption (CC).
    Tilted,
    /// Mouser ability — visible through fog.
    Tagged,
    /// Nuisance ability — massive speed buff.
    Zoomies,
    /// Chonk ability — immobile, damage reduction.
    LoafModeActive,
    /// Yowler aura — ally buff.
    Motivated,
    /// Yowler toggle aura — ally damage/speed buff.
    HarmonicBuff,
    /// Yowler toggle aura — enemy debuff.
    LullabyDebuff,
    /// MechCommander aura — ally cooldown reduction.
    TacticalLink,
    /// MechCommander ability — control enemy unit.
    Overridden,
    /// Chonk passive — reviving (CC immune during).
    NineLivesReviving,
    /// Pawdler SpiteCarry — gather speed boost.
    SpiteCarryBuff,
    /// Catnapper PowerNap — self-immobilize + GPU generation.
    PowerNapping,
    /// Post-CC immunity window.
    CcImmune,
    // --- Croak (Axolotls) ---
    /// Croak debuff — -10% move speed, applied by many Croak abilities.
    Waterlogged,

    // --- Cross-faction status effects ---
    /// Hard stun CC — immobile, can't attack, silenced.
    Stunned,
    /// Silenced — can't activate abilities, but can still move/attack.
    Silenced,
    /// Entrenched — immobile, 30% damage reduction, 20% damage boost.
    Entrenched,
    /// Generic speed buff — +50% speed (no attack penalty unlike Zoomies).
    SpeedBuff,
    /// Generic armor buff — 30% damage reduction.
    ArmorBuff,
    /// Generic damage buff — +25% damage.
    DamageBuff,
    /// Playing dead — invulnerable, immobile, can't attack/cast.
    PlayingDead,
    /// Catnapper Siege Nap — deployed with extended range.
    SiegeNapDeployed,
    /// Grease Monkey Junk Mortar Mode — deployed for area siege fire.
    JunkMortarDeployed,
    /// Inflate — puffed up for bombardment.
    InflatedBombardment,
}

/// Whether `id` is crowd control: Disoriented, Drowsed, Tilted or Stunned.
pub open spec fn spec_is_cc(id: StatusEffectId) -> bool {
    id == StatusEffectId::Disoriented || id == StatusEffectId::Drowsed || id == StatusEffectId::Tilted
        || id == StatusEffectId::Stunned
}

/// Returns true if this status effect is crowd control (CC).
pub fn is_cc(id: StatusEffectId) -> (r: bool)
    ensures
        r == spec_is_cc(id),
{
    match id {
        StatusEffectId::Disoriented | StatusEffectId::Drowsed | StatusEffectId::Tilted | StatusEffectId::Stunned => true,
        _ => false,
    }
}

/// A unit is crowd-controlled exactly when it carries a live instance (one
/// with ticks remaining) of Disoriented, Drowsed, Tilted or Stunned: a live
/// stun, for one, always counts, and effects of any other kind never do.
pub proof fn lemma_crowd_control_effects(s: StatusEffects)
    ensures
        s.spec_has_active_cc() <==> exists|i: int|
            0 <= i < s.effects@.len() && s.effects@[i].remaining_ticks > 0 && {
                let e = #[trigger] s.effects@[i].effect;
                e is Disoriented || e is Drowsed || e is Tilted || e is Stunned
            },
{
    if s.spec_has_active_cc() {
        let i = choose|i: int|
            0 <= i < s.effects@.len() && spec_is_cc(#[trigger] s.effects@[i].effect) && s.effects@[i].remaining_ticks
                > 0;
        assert(s.effects@[i].effect is Disoriented || s.effects@[i].effect is Drowsed || s.effects@[i].effect is Tilted
            || s.effects@[i].effect is Stunned);
    }
}

/// The crowd-control effects are Disoriented, Drowsed, Tilted and Stunned;
/// every other effect, buff or debuff, leaves the unit in control.
pub proof fn lemma_crowd_control_kinds(id: StatusEffectId)
    ensures
        spec_is_cc(id) <==> (id is Disoriented || id is Drowsed || id is Tilted || id is Stunned),
{
}

/// A single instance of a status effect on an entity.
#[derive(Debug, Clone)]
pub struct StatusInstance {
    pub effect: StatusEffectId,
    /// Ticks remaining (0 = expired, will be cleaned up).
    pub remaining_ticks: u32,
    /// Stack count (for Annoyed, Corroded).
    pub stacks: u32,
    /// Who applied this effect.
    pub source: EntityId,
}

impl StatusInstance {
    /// Whether this instance is the effect `id` and has not expired.
    pub open spec fn is_live(self, id: StatusEffectId) -> bool {
        self.effect == id && self.remaining_ticks > 0
    }
}

/// Component tracking all active status effects on an entity.
#[derive(Debug, Clone)]
pub struct StatusEffects {
    pub effects: Vec<StatusInstance>,
    /// Remaining ticks of CC immunity (granted after CC expires).
    pub cc_immunity_remaining: u32,
}

/// Total stacks of the live instances of `id` among the first `n` effects.
pub open spec fn live_stacks(effects: Seq<StatusInstance>, id: StatusEffectId, n: int) -> int
    decreases n,
{
    if n <= 0 {
        0
    } else {
        live_stacks(effects, id, n - 1) + if effects[n - 1].is_live(id) {
            effects[n - 1].stacks as int
        } else {
            0
        }
    }
}

/// Running totals of live stacks never decrease along the list.
proof fn lemma_live_stacks_monotone(effects: Seq<StatusInstance>, id: StatusEffectId, i: int, n: int)
    requires
        0 <= i <= n,
    ensures
        live_stacks(effects, id, i) <= live_stacks(effects, id, n),
    decreases n - i,
{
    if i < n {
        lemma_live_stacks_monotone(effects, id, i, n - 1);
    }
}

/// Live stacks can only come from a live instance: if the running total over
/// the first `n` effects is positive, one of them is a live instance of `id`.
proof fn lemma_live_stacks_witness(effects: Seq<StatusInstance>, id: StatusEffectId, n: int)
    requires
        0 <= n <= effects.len(),
        live_stacks(effects, id, n) > 0,
    ensures
        exists|i: int| 0 <= i < n && #[trigger] effects[i].is_live(id),
    decreases n,
{
    if live_stacks(effects, id, n - 1) > 0 {
        lemma_live_stacks_witness(effects, id, n - 1);
    } else {
        assert(effects[n - 1].is_live(id));
    }
}

/// An effect with a positive stack count is active.
pub proof fn lemma_stacks_imply_active(se: StatusEffects, id: StatusEffectId)
    requires
        se.spec_stacks_of(id) > 0,
    ensures
        se.spec_has(id),
{
    lemma_live_stacks_witness(se.effects@, id, se.effects@.len() as int);
}

impl Default for StatusEffects {
    /// No effects and no crowd-control immunity.
    fn default() -> (s: StatusEffects)
        ensures
            s.effects@.len() == 0,
            s.cc_immunity_remaining == 0,
    {
        StatusEffects { effects: Vec::new(), cc_immunity_remaining: 0 }
    }
}

impl StatusEffects {
    /// Whether some instance of `id` is still running.
    pub open spec fn spec_has(&self, id: StatusEffectId) -> bool {
        exists|i: int| 0 <= i < self.effects@.len() && #[trigger] self.effects@[i].is_live(id)
    }

    /// Check if entity has a specific status effect active.
    pub fn has(&self, id: StatusEffectId) -> (r: bool)
        ensures
            r == self.spec_has(id),
    {
        let mut i: usize = 0;
        while i < self.effects.len()
            invariant
                i <= self.effects@.len(),
                forall|j: int| 0 <= j < i ==> !(#[trigger] self.effects@[j].is_live(id)),
            decreases self.effects@.len() - i,
        {
            let e = &self.effects[i];
            if e.effect == id && e.remaining_ticks > 0 {
                assert(self.effects@[i as int].is_live(id));
                return true;
            }
            i = i + 1;
        }
        false
    }

    /// Sum of the stacks of all running instances of `id`.
    pub open spec fn spec_stacks_of(&self, id: StatusEffectId) -> int {
        live_stacks(self.effects@, id, self.effects@.len() as int)
    }

    /// Get stack count for a specific status effect (the sum must fit in a `u32`).
    pub fn stacks_of(&self, id: StatusEffectId) -> (r: u32)
        requires
            self.spec_stacks_of(id) <= u32::MAX,
        ensures
            r == self.spec_stacks_of(id),
    {
        let mut total: u32 = 0;
        let mut i: usize = 0;
        while i < self.effects.len()
            invariant
                i <= self.effects@.len(),
                live_stacks(self.effects@, id, self.effects@.len() as int) <= u32::MAX,
                total == live_stacks(self.effects@, id, i as int),
            decreases self.effects@.len() - i,
        {
            proof {
                lemma_live_stacks_monotone(self.effects@, id, i as int + 1, self.effects@.len() as int);
            }
            let e = &self.effects[i];
            if e.effect == id && e.remaining_ticks > 0 {
                total = total + e.stacks;
            }
            i = i + 1;
        }
        total
    }

    /// Whether some crowd-control effect is still running.
    pub open spec fn spec_has_active_cc(&self) -> bool {
        exists|i: int|
            0 <= i < self.effects@.len() && spec_is_cc(#[trigger] self.effects@[i].effect)
                && self.effects@[i].remaining_ticks > 0
    }

    /// Check if entity has any active CC effect.
    pub fn has_active_cc(&self) -> (r: bool)
        ensures
            r == self.spec_has_active_cc(),
    {
        let mut i: usize = 0;
        while i < self.effects.len()
            invariant
                i <= self.effects@.len(),
                forall|j: int|
                    0 <= j < i ==> !(spec_is_cc(#[trigger] self.effects@[j].effect) && self.effects@[j].remaining_ticks
                        > 0),
            decreases self.effects@.len() - i,
        {
            let e = &self.effects[i];
            if is_cc(e.effect) && e.remaining_ticks > 0 {
                return true;
            }
            i = i + 1;
        }
        false
    }

    /// Check if entity is currently CC immune.
    pub fn is_cc_immune(&self) -> (r: bool)
        ensures
            r == (self.cc_immunity_remaining > 0),
    {
        self.cc_immunity_remaining > 0
    }
}

} // verus!
