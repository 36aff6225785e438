//! Ability identifiers, their static definitions, the three abilities of each
//! unit kind, and the damage ramps of a few passives.

use crate::components::UnitKind;
use crate::math::Fixed;
use crate::status_effects::StatusEffectId;
use vstd::prelude::*;

verus! {

/// Unique identifier for every ability in the game.
/// One variant per ability — flat enum matching the UnitKind/BuildingKind pattern.
#[derive(Debug, Clone, Copy, PartialEq, Eq, Hash, Structural)]
pub enum AbilityId {
    // Pawdler (worker)
    OpportunisticHoarder,
    SpiteCarry,
    Revulsion,
    // Nuisance (harasser)
    AnnoyanceStacks,
    Hairball,
    Zoomies,
    // Chonk (tank)
    GravitationalChonk,
    LoafMode,
    NineLives,
    // FlyingFox (air)
    EcholocationPulse,
    FruitDrop,
    Disoriented,
    // Hisser (ranged)
    CorrosiveSpit,
    DisgustMortar,
    Misinformation,
    // Yowler (support)
    HarmonicResonance,
    DissonantScreech,
    Lullaby,
    // Mouser (stealth)
    Tagged,
    DeadDrop,
    ShadowNetwork,
    // Catnapper (siege)
    DreamSiege,
    ContagiousYawning,
    /// Siege Nap — toggle deploy mode with extended range (replaces PowerNap).
    SiegeNap,
    // FerretSapper (demo)
    ShapedCharge,
    BoobyTrap,
    TunnelNetwork,
    // MechCommander (hero)
    TacticalUplink,
    Override,
    LeChatUplink,
    // --- Seekers of the Deep (Badgers) ---
    SubterraneanHaul,
    Earthsense,
    EmergencyBurrow,
    Unbowed,
    ShieldWall,
    GrudgeCharge,
    BoulderBarrage,
    Entrench,
    SeismicSlam,
    VigilanceAura,
    Intercept,
    RallyCry,
    ArmorRend,
    PatientStrike,
    Lockjaw,
    DeepseekUplink,
    FortressProtocol,
    CalculatedCounterstrike,
    DeepBore,
    Undermine,
    TremorNetwork,
    MoltenShot,
    FuelReserve,
    ScorchedEarth,
    DustCloud,
    AmbushInstinct,
    SentryBurrow,
    Frenzy,
    Bloodgreed,
    RecklessLunge,
    // --- LLAMA (Raccoons) ---
    DumpsterDiveAbility,
    PocketStash,
    PlayDead,
    StickyFingers,
    JuryRig,
    Getaway,
    ScrapArmorAbility,
    WreckBall,
    MagneticPulse,
    CableGnaw,
    SignalScramble,
    TunnelRat,
    DuctTapeFix,
    SalvageResurrection,
    FeignDeath,
    JunkLauncher,
    SalvageTurret,
    /// Junk Mortar Mode — toggle deploy with AoE siege range (replaces Overcharge).
    JunkMortarMode,
    Eavesdrop,
    TrashHeapAmbush,
    LeakInjection,
    Disassemble,
    PryBar,
    ChainBreak,
    TreasureTrash,
    RefuseShield,
    StenchCloudAbility,
    OpenSourceUplinkAbility,
    FrankensteinProtocol,
    OverclockCascade,
    // --- The Murder (Corvids) ---
    // MurderScrounger (worker)
    TrinketStash,
    Scavenge,
    MimicCall,
    // Sentinel (ranged scout)
    Glintwatch,
    Overwatch,
    EvasiveAscent,
    // Rookclaw (melee dive striker)
    TalonDive,
    MurdersMark,
    CarrionInstinct,
    // Magpike (disruptor/thief)
    Pilfer,
    GlitterBomb,
    TrinketWard,
    // Magpyre (saboteur)
    SignalJam,
    DecoyNest,
    Rewire,
    // Jaycaller (support/buffer)
    MurderRallyCry,
    AlarmCall,
    Cacophony,
    // Jayflicker (illusion specialist)
    PhantomFlock,
    MirrorPosition,
    Refraction,
    // Dusktalon (stealth assassin)
    Nightcloak,
    SilentStrike,
    PreySense,
    // Hootseer (area denial/debuffer)
    PanopticGaze,
    DreadAuraAbility,
    /// Death Omen — long-range snipe, double damage vs stationary (replaces Omen).
    DeathOmen,
    // CorvusRex (hero)
    CorvidNetworkAbility,
    AllSeeingLie,
    OculusUplinkAbility,
    // --- Croak (Axolotls) ---
    // Ponderer (worker)
    AmbientGathering,
    MucusTrail,
    ExistentialDread,
    // Regeneron (skirmisher)
    LimbToss,
    RegrowthBurst,
    PhantomLimb,
    // Broodmother (support)
    SpawnPool,
    Transfusion,
    PrimordialSoup,
    // Gulper (heavy)
    Devour,
    Regurgitate,
    Bottomless,
    // Eftsaber (assassin)
    ToxicSkin,
    Waterway,
    Venomstrike,
    // Croaker (artillery)
    BogMortar,
    ResonanceChain,
    Inflate,
    // Leapfrog (harasser)
    Hop,
    TongueLash,
    Slipstream,
    // Shellwarden (tank)
    HunkerAbility,
    AncientMossAbility,
    TidalMemory,
    // Bogwhisper (caster)
    MireCurse,
    ProphecyAbility,
    BogSongAbility,
    // MurkCommander (hero)
    UndyingPresenceAbility,
    GrokProtocol,
    MurkUplinkAbility,
    // --- The Clawed (Mice) ---
    // Nibblet (worker)
    CrumbTrail,
    StashNetwork,
    PanicProductivity,
    // Swarmer (light infantry)
    SafetyInNumbers,
    PileOn,
    Scatter,
    // Gnawer (anti-structure)
    StructuralWeakness,
    ChewThrough,
    IncisorsNeverStop,
    // Shrieker (ranged harasser)
    SonicSpit,
    EcholocationPing,
    /// Sonic Barrage — line AoE burst at range 8 (replaces FuryOfTheSmall).
    SonicBarrage,
    // Tunneler (transport/utility)
    BurrowExpress,
    BurrowUndermine,
    SwarmTremorSense,
    // Sparks (saboteur)
    StaticCharge,
    ShortCircuit,
    DaisyChain,
    // Quillback (heavy defender)
    SpineWall,
    QuillBurst,
    StubbornAdvance,
    // Whiskerwitch (caster/support)
    HexOfMultiplication,
    WhiskerWeave,
    DatacromanticRitual,
    // Plaguetail (area denial)
    ContagionCloud,
    MiasmaTrail,
    SympathySickness,
    // WarrenMarshal (hero/commander)
    RallyTheSwarm,
    ExpendableHeroism,
    WhiskernetRelay,
}

/// How an ability is activated.
#[derive(Debug, Clone, Copy, PartialEq, Eq, Structural)]
pub enum AbilityActivation {
    /// Always on, no player input.
    Passive,
    /// Click to use, goes on cooldown.
    Activated,
    /// Click to toggle on/off.
    Toggle,
}

/// Static definition for an ability.
#[derive(Debug, Clone, Copy)]
pub struct AbilityDef {
    pub id: AbilityId,
    pub activation: AbilityActivation,
    /// Ticks between uses (0 = no cooldown / passive).
    pub cooldown_ticks: u32,
    /// GPU cost per activation (0 = free).
    pub gpu_cost: u32,
    /// Duration in ticks (0 = instant or passive).
    pub duration_ticks: u32,
    /// Range in tiles (0 = self-only).
    pub range: Fixed,
    /// Max charges (0 = unlimited / not charge-based).
    pub max_charges: u32,
}

/// The definition built from one row of the ability table; `range_bits` is
/// the raw 16.16 range.
pub open spec fn def_row(
    id: AbilityId,
    activation: AbilityActivation,
    cooldown_ticks: u32,
    gpu_cost: u32,
    duration_ticks: u32,
    range_bits: i32,
    max_charges: u32,
) -> AbilityDef {
    AbilityDef {
        id,
        activation,
        cooldown_ticks,
        gpu_cost,
        duration_ticks,
        range: Fixed { bits: range_bits },
        max_charges,
    }
}

/// Builds one row of the ability table.
fn make_def(
    id: AbilityId,
    activation: AbilityActivation,
    cooldown_ticks: u32,
    gpu_cost: u32,
    duration_ticks: u32,
    range_bits: i32,
    max_charges: u32,
) -> (d: AbilityDef)
    ensures
        d == def_row(id, activation, cooldown_ticks, gpu_cost, duration_ticks, range_bits, max_charges),
{
    AbilityDef {
        id,
        activation,
        cooldown_ticks,
        gpu_cost,
        duration_ticks,
        range: Fixed::from_bits(range_bits),
        max_charges,
    }
}


/// Rows of the ability table for the abilities of group 0.
pub open spec fn ability_rows_0(id: AbilityId) -> AbilityDef {
    match id {
        AbilityId::OpportunisticHoarder => def_row(id, AbilityActivation::Passive, 0, 0, 0, 0, 0),
        AbilityId::SpiteCarry => def_row(id, AbilityActivation::Activated, 100, 5, 50, 0, 0),
        AbilityId::Revulsion => def_row(id, AbilityActivation::Activated, 80, 5, 0, 196608, 0),
        AbilityId::AnnoyanceStacks => def_row(id, AbilityActivation::Passive, 0, 0, 0, 0, 0),
        AbilityId::Hairball => def_row(id, AbilityActivation::Activated, 60, 5, 0, 262144, 0),
        AbilityId::Zoomies => def_row(id, AbilityActivation::Activated, 120, 10, 30, 0, 0),
        AbilityId::GravitationalChonk => def_row(id, AbilityActivation::Passive, 0, 0, 0, 196608, 0),
        AbilityId::LoafMode => def_row(id, AbilityActivation::Toggle, 10, 0, 0, 0, 0),
        AbilityId::NineLives => def_row(id, AbilityActivation::Passive, 600, 25, 30, 0, 0),
        AbilityId::EcholocationPulse => def_row(id, AbilityActivation::Activated, 80, 10, 0, 393216, 0),
        AbilityId::FruitDrop => def_row(id, AbilityActivation::Activated, 60, 5, 0, 196608, 0),
        AbilityId::Disoriented => def_row(id, AbilityActivation::Activated, 100, 15, 30, 262144, 0),
        AbilityId::CorrosiveSpit => def_row(id, AbilityActivation::Passive, 0, 0, 0, 0, 0),
        AbilityId::DisgustMortar => def_row(id, AbilityActivation::Activated, 80, 10, 0, 393216, 0),
        AbilityId::Misinformation => def_row(id, AbilityActivation::Activated, 150, 20, 50, 327680, 0),
        AbilityId::HarmonicResonance => def_row(id, AbilityActivation::Toggle, 10, 0, 0, 262144, 0),
        AbilityId::DissonantScreech => def_row(id, AbilityActivation::Activated, 80, 10, 30, 262144, 0),
        AbilityId::Lullaby => def_row(id, AbilityActivation::Toggle, 10, 0, 0, 196608, 0),
        AbilityId::Tagged => def_row(id, AbilityActivation::Activated, 60, 5, 100, 327680, 0),
        AbilityId::DeadDrop => def_row(id, AbilityActivation::Activated, 100, 10, 0, 0, 3),
        AbilityId::ShadowNetwork => def_row(id, AbilityActivation::Activated, 200, 25, 80, 0, 0),
        AbilityId::DreamSiege => def_row(id, AbilityActivation::Passive, 0, 0, 0, 0, 0),
        AbilityId::ContagiousYawning => def_row(id, AbilityActivation::Activated, 100, 15, 20, 196608, 0),
        AbilityId::SiegeNap => def_row(id, AbilityActivation::Toggle, 20, 0, 0, 0, 0),
        AbilityId::ShapedCharge => def_row(id, AbilityActivation::Activated, 80, 10, 0, 65536, 0),
        AbilityId::BoobyTrap => def_row(id, AbilityActivation::Activated, 100, 10, 0, 0, 3),
        AbilityId::TunnelNetwork => def_row(id, AbilityActivation::Activated, 200, 30, 0, 0, 0),
        AbilityId::TacticalUplink => def_row(id, AbilityActivation::Toggle, 10, 0, 0, 327680, 0),
        AbilityId::Override => def_row(id, AbilityActivation::Activated, 200, 30, 80, 393216, 0),
        AbilityId::LeChatUplink => def_row(id, AbilityActivation::Activated, 300, 50, 100, 0, 0),
        _ => def_row(id, AbilityActivation::Passive, 0, 0, 0, 0, 0),
    }
}

/// Rows of the ability table for the abilities of group 1.
pub open spec fn ability_rows_1(id: AbilityId) -> AbilityDef {
    match id {
        AbilityId::SubterraneanHaul => def_row(id, AbilityActivation::Activated, 200, 0, 80, 0, 4),
        AbilityId::Earthsense => def_row(id, AbilityActivation::Passive, 0, 0, 0, 327680, 0),
        AbilityId::EmergencyBurrow => def_row(id, AbilityActivation::Activated, 150, 0, 30, 0, 0),
        AbilityId::Unbowed => def_row(id, AbilityActivation::Passive, 0, 0, 0, 0, 0),
        AbilityId::ShieldWall => def_row(id, AbilityActivation::Activated, 180, 0, 60, 131072, 0),
        AbilityId::GrudgeCharge => def_row(id, AbilityActivation::Activated, 200, 0, 20, 524288, 0),
        AbilityId::BoulderBarrage => def_row(id, AbilityActivation::Passive, 0, 0, 0, 524288, 0),
        AbilityId::Entrench => def_row(id, AbilityActivation::Toggle, 30, 0, 0, 0, 0),
        AbilityId::SeismicSlam => def_row(id, AbilityActivation::Activated, 250, 0, 0, 196608, 0),
        AbilityId::VigilanceAura => def_row(id, AbilityActivation::Passive, 0, 0, 0, 327680, 0),
        AbilityId::Intercept => def_row(id, AbilityActivation::Activated, 160, 4, 30, 393216, 0),
        AbilityId::RallyCry => def_row(id, AbilityActivation::Activated, 220, 0, 50, 393216, 0),
        AbilityId::ArmorRend => def_row(id, AbilityActivation::Passive, 0, 0, 0, 0, 0),
        AbilityId::PatientStrike => def_row(id, AbilityActivation::Passive, 0, 0, 0, 0, 0),
        AbilityId::Lockjaw => def_row(id, AbilityActivation::Activated, 200, 0, 30, 65536, 0),
        AbilityId::DeepseekUplink => def_row(id, AbilityActivation::Passive, 0, 0, 0, 524288, 0),
        AbilityId::FortressProtocol => def_row(id, AbilityActivation::Activated, 450, 10, 200, 393216, 0),
        AbilityId::CalculatedCounterstrike => def_row(id, AbilityActivation::Activated, 300, 6, 80, 262144, 0),
        AbilityId::DeepBore => def_row(id, AbilityActivation::Activated, 250, 5, 0, 983040, 3),
        AbilityId::Undermine => def_row(id, AbilityActivation::Activated, 300, 0, 50, 196608, 0),
        AbilityId::TremorNetwork => def_row(id, AbilityActivation::Passive, 0, 0, 0, 524288, 0),
        AbilityId::MoltenShot => def_row(id, AbilityActivation::Passive, 0, 0, 0, 393216, 0),
        AbilityId::FuelReserve => def_row(id, AbilityActivation::Passive, 0, 0, 0, 0, 3),
        AbilityId::ScorchedEarth => def_row(id, AbilityActivation::Activated, 250, 0, 0, 262144, 0),
        AbilityId::DustCloud => def_row(id, AbilityActivation::Activated, 140, 0, 50, 196608, 0),
        AbilityId::AmbushInstinct => def_row(id, AbilityActivation::Passive, 0, 0, 0, 0, 0),
        AbilityId::SentryBurrow => def_row(id, AbilityActivation::Activated, 80, 0, 40, 0, 0),
        AbilityId::Frenzy => def_row(id, AbilityActivation::Passive, 0, 0, 0, 196608, 0),
        AbilityId::Bloodgreed => def_row(id, AbilityActivation::Passive, 0, 0, 0, 0, 0),
        AbilityId::RecklessLunge => def_row(id, AbilityActivation::Activated, 150, 0, 30, 262144, 0),
        _ => def_row(id, AbilityActivation::Passive, 0, 0, 0, 0, 0),
    }
}

/// Rows of the ability table for the abilities of group 2.
pub open spec fn ability_rows_2(id: AbilityId) -> AbilityDef {
    match id {
        AbilityId::DumpsterDiveAbility => def_row(id, AbilityActivation::Passive, 0, 0, 0, 0, 0),
        AbilityId::PocketStash => def_row(id, AbilityActivation::Passive, 0, 0, 0, 0, 0),
        AbilityId::PlayDead => def_row(id, AbilityActivation::Activated, 200, 0, 80, 0, 0),
        AbilityId::StickyFingers => def_row(id, AbilityActivation::Passive, 0, 0, 0, 0, 0),
        AbilityId::JuryRig => def_row(id, AbilityActivation::Activated, 50, 0, 20, 65536, 0),
        AbilityId::Getaway => def_row(id, AbilityActivation::Activated, 150, 0, 15, 0, 0),
        AbilityId::ScrapArmorAbility => def_row(id, AbilityActivation::Passive, 0, 0, 0, 262144, 0),
        AbilityId::WreckBall => def_row(id, AbilityActivation::Activated, 120, 0, 0, 327680, 0),
        AbilityId::MagneticPulse => def_row(id, AbilityActivation::Activated, 250, 0, 40, 196608, 0),
        AbilityId::CableGnaw => def_row(id, AbilityActivation::Activated, 300, 0, 30, 65536, 0),
        AbilityId::SignalScramble => def_row(id, AbilityActivation::Activated, 200, 4, 40, 393216, 0),
        AbilityId::TunnelRat => def_row(id, AbilityActivation::Passive, 0, 0, 0, 0, 0),
        AbilityId::DuctTapeFix => def_row(id, AbilityActivation::Activated, 100, 0, 50, 262144, 0),
        AbilityId::SalvageResurrection => def_row(id, AbilityActivation::Activated, 250, 0, 40, 65536, 0),
        AbilityId::FeignDeath => def_row(id, AbilityActivation::Passive, 450, 0, 30, 0, 0),
        AbilityId::JunkLauncher => def_row(id, AbilityActivation::Passive, 0, 0, 0, 0, 0),
        AbilityId::SalvageTurret => def_row(id, AbilityActivation::Activated, 150, 0, 200, 131072, 1),
        AbilityId::JunkMortarMode => def_row(id, AbilityActivation::Toggle, 20, 0, 0, 0, 0),
        AbilityId::Eavesdrop => def_row(id, AbilityActivation::Passive, 0, 0, 0, 524288, 0),
        AbilityId::TrashHeapAmbush => def_row(id, AbilityActivation::Activated, 80, 0, 20, 0, 0),
        AbilityId::LeakInjection => def_row(id, AbilityActivation::Activated, 300, 5, 40, 0, 0),
        AbilityId::Disassemble => def_row(id, AbilityActivation::Passive, 0, 0, 0, 0, 0),
        AbilityId::PryBar => def_row(id, AbilityActivation::Activated, 180, 0, 40, 65536, 0),
        AbilityId::ChainBreak => def_row(id, AbilityActivation::Activated, 140, 0, 60, 196608, 0),
        AbilityId::TreasureTrash => def_row(id, AbilityActivation::Passive, 0, 0, 0, 0, 0),
        AbilityId::RefuseShield => def_row(id, AbilityActivation::Activated, 200, 0, 150, 196608, 0),
        AbilityId::StenchCloudAbility => def_row(id, AbilityActivation::Activated, 180, 0, 60, 196608, 0),
        AbilityId::OpenSourceUplinkAbility => def_row(id, AbilityActivation::Passive, 0, 0, 0, 524288, 0),
        AbilityId::FrankensteinProtocol => def_row(id, AbilityActivation::Activated, 450, 10, 0, 196608, 0),
        AbilityId::OverclockCascade => def_row(id, AbilityActivation::Activated, 350, 0, 80, 393216, 0),
        _ => def_row(id, AbilityActivation::Passive, 0, 0, 0, 0, 0),
    }
}

/// Rows of the ability table for the abilities of group 3.
pub open spec fn ability_rows_3(id: AbilityId) -> AbilityDef {
    match id {
        AbilityId::TrinketStash => def_row(id, AbilityActivation::Passive, 0, 0, 0, 0, 3),
        AbilityId::Scavenge => def_row(id, AbilityActivation::Activated, 50, 0, 20, 0, 0),
        AbilityId::MimicCall => def_row(id, AbilityActivation::Activated, 200, 2, 50, 393216, 0),
        AbilityId::Glintwatch => def_row(id, AbilityActivation::Passive, 0, 0, 0, 786432, 0),
        AbilityId::Overwatch => def_row(id, AbilityActivation::Toggle, 15, 0, 0, 524288, 0),
        AbilityId::EvasiveAscent => def_row(id, AbilityActivation::Passive, 150, 0, 20, 0, 0),
        AbilityId::TalonDive => def_row(id, AbilityActivation::Activated, 100, 0, 5, 524288, 0),
        AbilityId::MurdersMark => def_row(id, AbilityActivation::Passive, 0, 0, 150, 0, 0),
        AbilityId::CarrionInstinct => def_row(id, AbilityActivation::Passive, 0, 0, 0, 393216, 0),
        AbilityId::Pilfer => def_row(id, AbilityActivation::Activated, 180, 0, 10, 262144, 0),
        AbilityId::GlitterBomb => def_row(id, AbilityActivation::Activated, 150, 0, 30, 327680, 0),
        AbilityId::TrinketWard => def_row(id, AbilityActivation::Passive, 0, 0, 0, 0, 0),
        AbilityId::SignalJam => def_row(id, AbilityActivation::Activated, 300, 4, 100, 524288, 0),
        AbilityId::DecoyNest => def_row(id, AbilityActivation::Activated, 200, 0, 600, 0, 2),
        AbilityId::Rewire => def_row(id, AbilityActivation::Activated, 250, 5, 0, 196608, 0),
        AbilityId::MurderRallyCry => def_row(id, AbilityActivation::Activated, 200, 0, 80, 327680, 0),
        AbilityId::AlarmCall => def_row(id, AbilityActivation::Passive, 80, 0, 30, 0, 0),
        AbilityId::Cacophony => def_row(id, AbilityActivation::Activated, 250, 0, 30, 262144, 0),
        AbilityId::PhantomFlock => def_row(id, AbilityActivation::Activated, 250, 4, 120, 262144, 0),
        AbilityId::MirrorPosition => def_row(id, AbilityActivation::Activated, 180, 0, 5, 524288, 0),
        AbilityId::Refraction => def_row(id, AbilityActivation::Passive, 0, 0, 0, 393216, 0),
        AbilityId::Nightcloak => def_row(id, AbilityActivation::Passive, 0, 0, 0, 0, 0),
        AbilityId::SilentStrike => def_row(id, AbilityActivation::Activated, 200, 0, 0, 65536, 0),
        AbilityId::PreySense => def_row(id, AbilityActivation::Passive, 0, 0, 0, 655360, 0),
        AbilityId::PanopticGaze => def_row(id, AbilityActivation::Toggle, 10, 0, 0, 393216, 0),
        AbilityId::DreadAuraAbility => def_row(id, AbilityActivation::Passive, 0, 0, 0, 327680, 0),
        AbilityId::DeathOmen => def_row(id, AbilityActivation::Activated, 120, 4, 0, 655360, 0),
        AbilityId::CorvidNetworkAbility => def_row(id, AbilityActivation::Passive, 0, 0, 0, 655360, 0),
        AbilityId::AllSeeingLie => def_row(id, AbilityActivation::Activated, 900, 8, 30, 0, 0),
        AbilityId::OculusUplinkAbility => def_row(id, AbilityActivation::Passive, 0, 0, 0, 655360, 0),
        _ => def_row(id, AbilityActivation::Passive, 0, 0, 0, 0, 0),
    }
}

/// Rows of the ability table for the abilities of group 4.
pub open spec fn ability_rows_4(id: AbilityId) -> AbilityDef {
    match id {
        AbilityId::AmbientGathering => def_row(id, AbilityActivation::Passive, 0, 0, 0, 0, 0),
        AbilityId::MucusTrail => def_row(id, AbilityActivation::Passive, 0, 0, 0, 0, 0),
        AbilityId::ExistentialDread => def_row(id, AbilityActivation::Passive, 150, 0, 80, 196608, 0),
        AbilityId::LimbToss => def_row(id, AbilityActivation::Activated, 30, 0, 0, 327680, 0),
        AbilityId::RegrowthBurst => def_row(id, AbilityActivation::Activated, 250, 0, 30, 0, 0),
        AbilityId::PhantomLimb => def_row(id, AbilityActivation::Passive, 0, 0, 0, 0, 0),
        AbilityId::SpawnPool => def_row(id, AbilityActivation::Passive, 300, 0, 0, 0, 0),
        AbilityId::Transfusion => def_row(id, AbilityActivation::Activated, 80, 0, 50, 196608, 0),
        AbilityId::PrimordialSoup => def_row(id, AbilityActivation::Activated, 350, 0, 120, 0, 0),
        AbilityId::Devour => def_row(id, AbilityActivation::Activated, 300, 0, 80, 65536, 0),
        AbilityId::Regurgitate => def_row(id, AbilityActivation::Activated, 100, 0, 0, 262144, 0),
        AbilityId::Bottomless => def_row(id, AbilityActivation::Passive, 0, 0, 0, 0, 0),
        AbilityId::ToxicSkin => def_row(id, AbilityActivation::Passive, 0, 0, 0, 0, 0),
        AbilityId::Waterway => def_row(id, AbilityActivation::Activated, 50, 0, 15, 0, 0),
        AbilityId::Venomstrike => def_row(id, AbilityActivation::Activated, 120, 0, 0, 196608, 0),
        AbilityId::BogMortar => def_row(id, AbilityActivation::Passive, 0, 0, 0, 393216, 0),
        AbilityId::ResonanceChain => def_row(id, AbilityActivation::Passive, 0, 0, 0, 0, 0),
        AbilityId::Inflate => def_row(id, AbilityActivation::Activated, 180, 0, 30, 0, 0),
        AbilityId::Hop => def_row(id, AbilityActivation::Activated, 60, 0, 15, 262144, 0),
        AbilityId::TongueLash => def_row(id, AbilityActivation::Activated, 100, 0, 0, 327680, 0),
        AbilityId::Slipstream => def_row(id, AbilityActivation::Passive, 0, 0, 30, 0, 0),
        AbilityId::HunkerAbility => def_row(id, AbilityActivation::Toggle, 10, 0, 0, 0, 0),
        AbilityId::AncientMossAbility => def_row(id, AbilityActivation::Passive, 0, 0, 0, 196608, 0),
        AbilityId::TidalMemory => def_row(id, AbilityActivation::Activated, 600, 6, 200, 0, 0),
        AbilityId::MireCurse => def_row(id, AbilityActivation::Activated, 200, 0, 80, 393216, 0),
        AbilityId::ProphecyAbility => def_row(id, AbilityActivation::Activated, 300, 4, 60, 524288, 0),
        AbilityId::BogSongAbility => def_row(id, AbilityActivation::Passive, 0, 0, 0, 327680, 0),
        AbilityId::UndyingPresenceAbility => def_row(id, AbilityActivation::Passive, 0, 0, 0, 524288, 0),
        AbilityId::GrokProtocol => def_row(id, AbilityActivation::Activated, 450, 8, 120, 0, 0),
        AbilityId::MurkUplinkAbility => def_row(id, AbilityActivation::Passive, 0, 0, 0, 0, 0),
        _ => def_row(id, AbilityActivation::Passive, 0, 0, 0, 0, 0),
    }
}

/// Rows of the ability table for the abilities of group 5.
pub open spec fn ability_rows_5(id: AbilityId) -> AbilityDef {
    match id {
        AbilityId::CrumbTrail => def_row(id, AbilityActivation::Passive, 0, 0, 0, 0, 0),
        AbilityId::StashNetwork => def_row(id, AbilityActivation::Passive, 0, 0, 0, 0, 0),
        AbilityId::PanicProductivity => def_row(id, AbilityActivation::Passive, 0, 0, 0, 0, 0),
        AbilityId::SafetyInNumbers => def_row(id, AbilityActivation::Passive, 0, 0, 0, 196608, 0),
        AbilityId::PileOn => def_row(id, AbilityActivation::Activated, 60, 5, 30, 65536, 0),
        AbilityId::Scatter => def_row(id, AbilityActivation::Activated, 80, 5, 20, 0, 0),
        AbilityId::StructuralWeakness => def_row(id, AbilityActivation::Passive, 0, 0, 0, 0, 0),
        AbilityId::ChewThrough => def_row(id, AbilityActivation::Toggle, 10, 0, 0, 0, 0),
        AbilityId::IncisorsNeverStop => def_row(id, AbilityActivation::Passive, 0, 0, 0, 0, 0),
        AbilityId::SonicSpit => def_row(id, AbilityActivation::Activated, 80, 5, 0, 196608, 0),
        AbilityId::EcholocationPing => def_row(id, AbilityActivation::Activated, 100, 10, 50, 327680, 0),
        AbilityId::SonicBarrage => def_row(id, AbilityActivation::Activated, 150, 0, 10, 524288, 0),
        AbilityId::BurrowExpress => def_row(id, AbilityActivation::Activated, 150, 15, 0, 393216, 0),
        AbilityId::BurrowUndermine => def_row(id, AbilityActivation::Activated, 200, 20, 50, 196608, 0),
        AbilityId::SwarmTremorSense => def_row(id, AbilityActivation::Toggle, 10, 0, 0, 262144, 0),
        AbilityId::StaticCharge => def_row(id, AbilityActivation::Passive, 0, 0, 0, 0, 0),
        AbilityId::ShortCircuit => def_row(id, AbilityActivation::Activated, 100, 10, 0, 131072, 0),
        AbilityId::DaisyChain => def_row(id, AbilityActivation::Activated, 120, 15, 20, 196608, 0),
        AbilityId::SpineWall => def_row(id, AbilityActivation::Toggle, 10, 0, 0, 0, 0),
        AbilityId::QuillBurst => def_row(id, AbilityActivation::Activated, 120, 15, 0, 131072, 0),
        AbilityId::StubbornAdvance => def_row(id, AbilityActivation::Activated, 150, 10, 50, 0, 0),
        AbilityId::HexOfMultiplication => def_row(id, AbilityActivation::Activated, 200, 25, 100, 262144, 0),
        AbilityId::WhiskerWeave => def_row(id, AbilityActivation::Toggle, 10, 0, 0, 196608, 0),
        AbilityId::DatacromanticRitual => def_row(id, AbilityActivation::Activated, 300, 30, 0, 327680, 0),
        AbilityId::ContagionCloud => def_row(id, AbilityActivation::Passive, 0, 0, 0, 0, 0),
        AbilityId::MiasmaTrail => def_row(id, AbilityActivation::Toggle, 10, 0, 0, 0, 0),
        AbilityId::SympathySickness => def_row(id, AbilityActivation::Passive, 0, 0, 0, 131072, 0),
        AbilityId::RallyTheSwarm => def_row(id, AbilityActivation::Toggle, 10, 0, 0, 393216, 0),
        AbilityId::ExpendableHeroism => def_row(id, AbilityActivation::Activated, 200, 20, 50, 262144, 0),
        AbilityId::WhiskernetRelay => def_row(id, AbilityActivation::Activated, 300, 40, 100, 0, 0),
        _ => def_row(id, AbilityActivation::Passive, 0, 0, 0, 0, 0),
    }
}

/// The static definition of every ability: activation, cooldown, GPU cost,
/// duration, range and charges.
pub open spec fn spec_ability_def(id: AbilityId) -> AbilityDef {
    match id {
        AbilityId::OpportunisticHoarder | AbilityId::SpiteCarry | AbilityId::Revulsion | AbilityId::AnnoyanceStacks | AbilityId::Hairball | AbilityId::Zoomies | AbilityId::GravitationalChonk | AbilityId::LoafMode | AbilityId::NineLives | AbilityId::EcholocationPulse | AbilityId::FruitDrop | AbilityId::Disoriented | AbilityId::CorrosiveSpit | AbilityId::DisgustMortar | AbilityId::Misinformation | AbilityId::HarmonicResonance | AbilityId::DissonantScreech | AbilityId::Lullaby | AbilityId::Tagged | AbilityId::DeadDrop | AbilityId::ShadowNetwork | AbilityId::DreamSiege | AbilityId::ContagiousYawning | AbilityId::SiegeNap | AbilityId::ShapedCharge | AbilityId::BoobyTrap | AbilityId::TunnelNetwork | AbilityId::TacticalUplink | AbilityId::Override | AbilityId::LeChatUplink => ability_rows_0(id),
        AbilityId::SubterraneanHaul | AbilityId::Earthsense | AbilityId::EmergencyBurrow | AbilityId::Unbowed | AbilityId::ShieldWall | AbilityId::GrudgeCharge | AbilityId::BoulderBarrage | AbilityId::Entrench | AbilityId::SeismicSlam | AbilityId::VigilanceAura | AbilityId::Intercept | AbilityId::RallyCry | AbilityId::ArmorRend | AbilityId::PatientStrike | AbilityId::Lockjaw | AbilityId::DeepseekUplink | AbilityId::FortressProtocol | AbilityId::CalculatedCounterstrike | AbilityId::DeepBore | AbilityId::Undermine | AbilityId::TremorNetwork | AbilityId::MoltenShot | AbilityId::FuelReserve | AbilityId::ScorchedEarth | AbilityId::DustCloud | AbilityId::AmbushInstinct | AbilityId::SentryBurrow | AbilityId::Frenzy | AbilityId::Bloodgreed | AbilityId::RecklessLunge => ability_rows_1(id),
        AbilityId::DumpsterDiveAbility | AbilityId::PocketStash | AbilityId::PlayDead | AbilityId::StickyFingers | AbilityId::JuryRig | AbilityId::Getaway | AbilityId::ScrapArmorAbility | AbilityId::WreckBall | AbilityId::MagneticPulse | AbilityId::CableGnaw | AbilityId::SignalScramble | AbilityId::TunnelRat | AbilityId::DuctTapeFix | AbilityId::SalvageResurrection | AbilityId::FeignDeath | AbilityId::JunkLauncher | AbilityId::SalvageTurret | AbilityId::JunkMortarMode | AbilityId::Eavesdrop | AbilityId::TrashHeapAmbush | AbilityId::LeakInjection | AbilityId::Disassemble | AbilityId::PryBar | AbilityId::ChainBreak | AbilityId::TreasureTrash | AbilityId::RefuseShield | AbilityId::StenchCloudAbility | AbilityId::OpenSourceUplinkAbility | AbilityId::FrankensteinProtocol | AbilityId::OverclockCascade => ability_rows_2(id),
        AbilityId::TrinketStash | AbilityId::Scavenge | AbilityId::MimicCall | AbilityId::Glintwatch | AbilityId::Overwatch | AbilityId::EvasiveAscent | AbilityId::TalonDive | AbilityId::MurdersMark | AbilityId::CarrionInstinct | AbilityId::Pilfer | AbilityId::GlitterBomb | AbilityId::TrinketWard | AbilityId::SignalJam | AbilityId::DecoyNest | AbilityId::Rewire | AbilityId::MurderRallyCry | AbilityId::AlarmCall | AbilityId::Cacophony | AbilityId::PhantomFlock | AbilityId::MirrorPosition | AbilityId::Refraction | AbilityId::Nightcloak | AbilityId::SilentStrike | AbilityId::PreySense | AbilityId::PanopticGaze | AbilityId::DreadAuraAbility | AbilityId::DeathOmen | AbilityId::CorvidNetworkAbility | AbilityId::AllSeeingLie | AbilityId::OculusUplinkAbility => ability_rows_3(id),
        AbilityId::AmbientGathering | AbilityId::MucusTrail | AbilityId::ExistentialDread | AbilityId::LimbToss | AbilityId::RegrowthBurst | AbilityId::PhantomLimb | AbilityId::SpawnPool | AbilityId::Transfusion | AbilityId::PrimordialSoup | AbilityId::Devour | AbilityId::Regurgitate | AbilityId::Bottomless | AbilityId::ToxicSkin | AbilityId::Waterway | AbilityId::Venomstrike | AbilityId::BogMortar | AbilityId::ResonanceChain | AbilityId::Inflate | AbilityId::Hop | AbilityId::TongueLash | AbilityId::Slipstream | AbilityId::HunkerAbility | AbilityId::AncientMossAbility | AbilityId::TidalMemory | AbilityId::MireCurse | AbilityId::ProphecyAbility | AbilityId::BogSongAbility | AbilityId::UndyingPresenceAbility | AbilityId::GrokProtocol | AbilityId::MurkUplinkAbility => ability_rows_4(id),
        AbilityId::CrumbTrail | AbilityId::StashNetwork | AbilityId::PanicProductivity | AbilityId::SafetyInNumbers | AbilityId::PileOn | AbilityId::Scatter | AbilityId::StructuralWeakness | AbilityId::ChewThrough | AbilityId::IncisorsNeverStop | AbilityId::SonicSpit | AbilityId::EcholocationPing | AbilityId::SonicBarrage | AbilityId::BurrowExpress | AbilityId::BurrowUndermine | AbilityId::SwarmTremorSense | AbilityId::StaticCharge | AbilityId::ShortCircuit | AbilityId::DaisyChain | AbilityId::SpineWall | AbilityId::QuillBurst | AbilityId::StubbornAdvance | AbilityId::HexOfMultiplication | AbilityId::WhiskerWeave | AbilityId::DatacromanticRitual | AbilityId::ContagionCloud | AbilityId::MiasmaTrail | AbilityId::SympathySickness | AbilityId::RallyTheSwarm | AbilityId::ExpendableHeroism | AbilityId::WhiskernetRelay => ability_rows_5(id),
    }
}

/// Looks up a row of group 0.
fn ability_def_0(id: AbilityId) -> (d: AbilityDef)
    ensures
        d == ability_rows_0(id),
{
    match id {
        AbilityId::OpportunisticHoarder => make_def(id, AbilityActivation::Passive, 0, 0, 0, 0, 0),
        AbilityId::SpiteCarry => make_def(id, AbilityActivation::Activated, 100, 5, 50, 0, 0),
        AbilityId::Revulsion => make_def(id, AbilityActivation::Activated, 80, 5, 0, 196608, 0),
        AbilityId::AnnoyanceStacks => make_def(id, AbilityActivation::Passive, 0, 0, 0, 0, 0),
        AbilityId::Hairball => make_def(id, AbilityActivation::Activated, 60, 5, 0, 262144, 0),
        AbilityId::Zoomies => make_def(id, AbilityActivation::Activated, 120, 10, 30, 0, 0),
        AbilityId::GravitationalChonk => make_def(id, AbilityActivation::Passive, 0, 0, 0, 196608, 0),
        AbilityId::LoafMode => make_def(id, AbilityActivation::Toggle, 10, 0, 0, 0, 0),
        AbilityId::NineLives => make_def(id, AbilityActivation::Passive, 600, 25, 30, 0, 0),
        AbilityId::EcholocationPulse => make_def(id, AbilityActivation::Activated, 80, 10, 0, 393216, 0),
        AbilityId::FruitDrop => make_def(id, AbilityActivation::Activated, 60, 5, 0, 196608, 0),
        AbilityId::Disoriented => make_def(id, AbilityActivation::Activated, 100, 15, 30, 262144, 0),
        AbilityId::CorrosiveSpit => make_def(id, AbilityActivation::Passive, 0, 0, 0, 0, 0),
        AbilityId::DisgustMortar => make_def(id, AbilityActivation::Activated, 80, 10, 0, 393216, 0),
        AbilityId::Misinformation => make_def(id, AbilityActivation::Activated, 150, 20, 50, 327680, 0),
        AbilityId::HarmonicResonance => make_def(id, AbilityActivation::Toggle, 10, 0, 0, 262144, 0),
        AbilityId::DissonantScreech => make_def(id, AbilityActivation::Activated, 80, 10, 30, 262144, 0),
        AbilityId::Lullaby => make_def(id, AbilityActivation::Toggle, 10, 0, 0, 196608, 0),
        AbilityId::Tagged => make_def(id, AbilityActivation::Activated, 60, 5, 100, 327680, 0),
        AbilityId::DeadDrop => make_def(id, AbilityActivation::Activated, 100, 10, 0, 0, 3),
        AbilityId::ShadowNetwork => make_def(id, AbilityActivation::Activated, 200, 25, 80, 0, 0),
        AbilityId::DreamSiege => make_def(id, AbilityActivation::Passive, 0, 0, 0, 0, 0),
        AbilityId::ContagiousYawning => make_def(id, AbilityActivation::Activated, 100, 15, 20, 196608, 0),
        AbilityId::SiegeNap => make_def(id, AbilityActivation::Toggle, 20, 0, 0, 0, 0),
        AbilityId::ShapedCharge => make_def(id, AbilityActivation::Activated, 80, 10, 0, 65536, 0),
        AbilityId::BoobyTrap => make_def(id, AbilityActivation::Activated, 100, 10, 0, 0, 3),
        AbilityId::TunnelNetwork => make_def(id, AbilityActivation::Activated, 200, 30, 0, 0, 0),
        AbilityId::TacticalUplink => make_def(id, AbilityActivation::Toggle, 10, 0, 0, 327680, 0),
        AbilityId::Override => make_def(id, AbilityActivation::Activated, 200, 30, 80, 393216, 0),
        AbilityId::LeChatUplink => make_def(id, AbilityActivation::Activated, 300, 50, 100, 0, 0),
        _ => make_def(id, AbilityActivation::Passive, 0, 0, 0, 0, 0),
    }
}

/// Looks up a row of group 1.
fn ability_def_1(id: AbilityId) -> (d: AbilityDef)
    ensures
        d == ability_rows_1(id),
{
    match id {
        AbilityId::SubterraneanHaul => make_def(id, AbilityActivation::Activated, 200, 0, 80, 0, 4),
        AbilityId::Earthsense => make_def(id, AbilityActivation::Passive, 0, 0, 0, 327680, 0),
        AbilityId::EmergencyBurrow => make_def(id, AbilityActivation::Activated, 150, 0, 30, 0, 0),
        AbilityId::Unbowed => make_def(id, AbilityActivation::Passive, 0, 0, 0, 0, 0),
        AbilityId::ShieldWall => make_def(id, AbilityActivation::Activated, 180, 0, 60, 131072, 0),
        AbilityId::GrudgeCharge => make_def(id, AbilityActivation::Activated, 200, 0, 20, 524288, 0),
        AbilityId::BoulderBarrage => make_def(id, AbilityActivation::Passive, 0, 0, 0, 524288, 0),
        AbilityId::Entrench => make_def(id, AbilityActivation::Toggle, 30, 0, 0, 0, 0),
        AbilityId::SeismicSlam => make_def(id, AbilityActivation::Activated, 250, 0, 0, 196608, 0),
        AbilityId::VigilanceAura => make_def(id, AbilityActivation::Passive, 0, 0, 0, 327680, 0),
        AbilityId::Intercept => make_def(id, AbilityActivation::Activated, 160, 4, 30, 393216, 0),
        AbilityId::RallyCry => make_def(id, AbilityActivation::Activated, 220, 0, 50, 393216, 0),
        AbilityId::ArmorRend => make_def(id, AbilityActivation::Passive, 0, 0, 0, 0, 0),
        AbilityId::PatientStrike => make_def(id, AbilityActivation::Passive, 0, 0, 0, 0, 0),
        AbilityId::Lockjaw => make_def(id, AbilityActivation::Activated, 200, 0, 30, 65536, 0),
        AbilityId::DeepseekUplink => make_def(id, AbilityActivation::Passive, 0, 0, 0, 524288, 0),
        AbilityId::FortressProtocol => make_def(id, AbilityActivation::Activated, 450, 10, 200, 393216, 0),
        AbilityId::CalculatedCounterstrike => make_def(id, AbilityActivation::Activated, 300, 6, 80, 262144, 0),
        AbilityId::DeepBore => make_def(id, AbilityActivation::Activated, 250, 5, 0, 983040, 3),
        AbilityId::Undermine => make_def(id, AbilityActivation::Activated, 300, 0, 50, 196608, 0),
        AbilityId::TremorNetwork => make_def(id, AbilityActivation::Passive, 0, 0, 0, 524288, 0),
        AbilityId::MoltenShot => make_def(id, AbilityActivation::Passive, 0, 0, 0, 393216, 0),
        AbilityId::FuelReserve => make_def(id, AbilityActivation::Passive, 0, 0, 0, 0, 3),
        AbilityId::ScorchedEarth => make_def(id, AbilityActivation::Activated, 250, 0, 0, 262144, 0),
        AbilityId::DustCloud => make_def(id, AbilityActivation::Activated, 140, 0, 50, 196608, 0),
        AbilityId::AmbushInstinct => make_def(id, AbilityActivation::Passive, 0, 0, 0, 0, 0),
        AbilityId::SentryBurrow => make_def(id, AbilityActivation::Activated, 80, 0, 40, 0, 0),
        AbilityId::Frenzy => make_def(id, AbilityActivation::Passive, 0, 0, 0, 196608, 0),
        AbilityId::Bloodgreed => make_def(id, AbilityActivation::Passive, 0, 0, 0, 0, 0),
        AbilityId::RecklessLunge => make_def(id, AbilityActivation::Activated, 150, 0, 30, 262144, 0),
        _ => make_def(id, AbilityActivation::Passive, 0, 0, 0, 0, 0),
    }
}

/// Looks up a row of group 2.
fn ability_def_2(id: AbilityId) -> (d: AbilityDef)
    ensures
        d == ability_rows_2(id),
{
    match id {
        AbilityId::DumpsterDiveAbility => make_def(id, AbilityActivation::Passive, 0, 0, 0, 0, 0),
        AbilityId::PocketStash => make_def(id, AbilityActivation::Passive, 0, 0, 0, 0, 0),
        AbilityId::PlayDead => make_def(id, AbilityActivation::Activated, 200, 0, 80, 0, 0),
        AbilityId::StickyFingers => make_def(id, AbilityActivation::Passive, 0, 0, 0, 0, 0),
        AbilityId::JuryRig => make_def(id, AbilityActivation::Activated, 50, 0, 20, 65536, 0),
        AbilityId::Getaway => make_def(id, AbilityActivation::Activated, 150, 0, 15, 0, 0),
        AbilityId::ScrapArmorAbility => make_def(id, AbilityActivation::Passive, 0, 0, 0, 262144, 0),
        AbilityId::WreckBall => make_def(id, AbilityActivation::Activated, 120, 0, 0, 327680, 0),
        AbilityId::MagneticPulse => make_def(id, AbilityActivation::Activated, 250, 0, 40, 196608, 0),
        AbilityId::CableGnaw => make_def(id, AbilityActivation::Activated, 300, 0, 30, 65536, 0),
        AbilityId::SignalScramble => make_def(id, AbilityActivation::Activated, 200, 4, 40, 393216, 0),
        AbilityId::TunnelRat => make_def(id, AbilityActivation::Passive, 0, 0, 0, 0, 0),
        AbilityId::DuctTapeFix => make_def(id, AbilityActivation::Activated, 100, 0, 50, 262144, 0),
        AbilityId::SalvageResurrection => make_def(id, AbilityActivation::Activated, 250, 0, 40, 65536, 0),
        AbilityId::FeignDeath => make_def(id, AbilityActivation::Passive, 450, 0, 30, 0, 0),
        AbilityId::JunkLauncher => make_def(id, AbilityActivation::Passive, 0, 0, 0, 0, 0),
        AbilityId::SalvageTurret => make_def(id, AbilityActivation::Activated, 150, 0, 200, 131072, 1),
        AbilityId::JunkMortarMode => make_def(id, AbilityActivation::Toggle, 20, 0, 0, 0, 0),
        AbilityId::Eavesdrop => make_def(id, AbilityActivation::Passive, 0, 0, 0, 524288, 0),
        AbilityId::TrashHeapAmbush => make_def(id, AbilityActivation::Activated, 80, 0, 20, 0, 0),
        AbilityId::LeakInjection => make_def(id, AbilityActivation::Activated, 300, 5, 40, 0, 0),
        AbilityId::Disassemble => make_def(id, AbilityActivation::Passive, 0, 0, 0, 0, 0),
        AbilityId::PryBar => make_def(id, AbilityActivation::Activated, 180, 0, 40, 65536, 0),
        AbilityId::ChainBreak => make_def(id, AbilityActivation::Activated, 140, 0, 60, 196608, 0),
        AbilityId::TreasureTrash => make_def(id, AbilityActivation::Passive, 0, 0, 0, 0, 0),
        AbilityId::RefuseShield => make_def(id, AbilityActivation::Activated, 200, 0, 150, 196608, 0),
        AbilityId::StenchCloudAbility => make_def(id, AbilityActivation::Activated, 180, 0, 60, 196608, 0),
        AbilityId::OpenSourceUplinkAbility => make_def(id, AbilityActivation::Passive, 0, 0, 0, 524288, 0),
        AbilityId::FrankensteinProtocol => make_def(id, AbilityActivation::Activated, 450, 10, 0, 196608, 0),
        AbilityId::OverclockCascade => make_def(id, AbilityActivation::Activated, 350, 0, 80, 393216, 0),
        _ => make_def(id, AbilityActivation::Passive, 0, 0, 0, 0, 0),
    }
}

/// Looks up a row of group 3.
fn ability_def_3(id: AbilityId) -> (d: AbilityDef)
    ensures
        d == ability_rows_3(id),
{
    match id {
        AbilityId::TrinketStash => make_def(id, AbilityActivation::Passive, 0, 0, 0, 0, 3),
        AbilityId::Scavenge => make_def(id, AbilityActivation::Activated, 50, 0, 20, 0, 0),
        AbilityId::MimicCall => make_def(id, AbilityActivation::Activated, 200, 2, 50, 393216, 0),
        AbilityId::Glintwatch => make_def(id, AbilityActivation::Passive, 0, 0, 0, 786432, 0),
        AbilityId::Overwatch => make_def(id, AbilityActivation::Toggle, 15, 0, 0, 524288, 0),
        AbilityId::EvasiveAscent => make_def(id, AbilityActivation::Passive, 150, 0, 20, 0, 0),
        AbilityId::TalonDive => make_def(id, AbilityActivation::Activated, 100, 0, 5, 524288, 0),
        AbilityId::MurdersMark => make_def(id, AbilityActivation::Passive, 0, 0, 150, 0, 0),
        AbilityId::CarrionInstinct => make_def(id, AbilityActivation::Passive, 0, 0, 0, 393216, 0),
        AbilityId::Pilfer => make_def(id, AbilityActivation::Activated, 180, 0, 10, 262144, 0),
        AbilityId::GlitterBomb => make_def(id, AbilityActivation::Activated, 150, 0, 30, 327680, 0),
        AbilityId::TrinketWard => make_def(id, AbilityActivation::Passive, 0, 0, 0, 0, 0),
        AbilityId::SignalJam => make_def(id, AbilityActivation::Activated, 300, 4, 100, 524288, 0),
        AbilityId::DecoyNest => make_def(id, AbilityActivation::Activated, 200, 0, 600, 0, 2),
        AbilityId::Rewire => make_def(id, AbilityActivation::Activated, 250, 5, 0, 196608, 0),
        AbilityId::MurderRallyCry => make_def(id, AbilityActivation::Activated, 200, 0, 80, 327680, 0),
        AbilityId::AlarmCall => make_def(id, AbilityActivation::Passive, 80, 0, 30, 0, 0),
        AbilityId::Cacophony => make_def(id, AbilityActivation::Activated, 250, 0, 30, 262144, 0),
        AbilityId::PhantomFlock => make_def(id, AbilityActivation::Activated, 250, 4, 120, 262144, 0),
        AbilityId::MirrorPosition => make_def(id, AbilityActivation::Activated, 180, 0, 5, 524288, 0),
        AbilityId::Refraction => make_def(id, AbilityActivation::Passive, 0, 0, 0, 393216, 0),
        AbilityId::Nightcloak => make_def(id, AbilityActivation::Passive, 0, 0, 0, 0, 0),
        AbilityId::SilentStrike => make_def(id, AbilityActivation::Activated, 200, 0, 0, 65536, 0),
        AbilityId::PreySense => make_def(id, AbilityActivation::Passive, 0, 0, 0, 655360, 0),
        AbilityId::PanopticGaze => make_def(id, AbilityActivation::Toggle, 10, 0, 0, 393216, 0),
        AbilityId::DreadAuraAbility => make_def(id, AbilityActivation::Passive, 0, 0, 0, 327680, 0),
        AbilityId::DeathOmen => make_def(id, AbilityActivation::Activated, 120, 4, 0, 655360, 0),
        AbilityId::CorvidNetworkAbility => make_def(id, AbilityActivation::Passive, 0, 0, 0, 655360, 0),
        AbilityId::AllSeeingLie => make_def(id, AbilityActivation::Activated, 900, 8, 30, 0, 0),
        AbilityId::OculusUplinkAbility => make_def(id, AbilityActivation::Passive, 0, 0, 0, 655360, 0),
        _ => make_def(id, AbilityActivation::Passive, 0, 0, 0, 0, 0),
    }
}

/// Looks up a row of group 4.
fn ability_def_4(id: AbilityId) -> (d: AbilityDef)
    ensures
        d == ability_rows_4(id),
{
    match id {
        AbilityId::AmbientGathering => make_def(id, AbilityActivation::Passive, 0, 0, 0, 0, 0),
        AbilityId::MucusTrail => make_def(id, AbilityActivation::Passive, 0, 0, 0, 0, 0),
        AbilityId::ExistentialDread => make_def(id, AbilityActivation::Passive, 150, 0, 80, 196608, 0),
        AbilityId::LimbToss => make_def(id, AbilityActivation::Activated, 30, 0, 0, 327680, 0),
        AbilityId::RegrowthBurst => make_def(id, AbilityActivation::Activated, 250, 0, 30, 0, 0),
        AbilityId::PhantomLimb => make_def(id, AbilityActivation::Passive, 0, 0, 0, 0, 0),
        AbilityId::SpawnPool => make_def(id, AbilityActivation::Passive, 300, 0, 0, 0, 0),
        AbilityId::Transfusion => make_def(id, AbilityActivation::Activated, 80, 0, 50, 196608, 0),
        AbilityId::PrimordialSoup => make_def(id, AbilityActivation::Activated, 350, 0, 120, 0, 0),
        AbilityId::Devour => make_def(id, AbilityActivation::Activated, 300, 0, 80, 65536, 0),
        AbilityId::Regurgitate => make_def(id, AbilityActivation::Activated, 100, 0, 0, 262144, 0),
        AbilityId::Bottomless => make_def(id, AbilityActivation::Passive, 0, 0, 0, 0, 0),
        AbilityId::ToxicSkin => make_def(id, AbilityActivation::Passive, 0, 0, 0, 0, 0),
        AbilityId::Waterway => make_def(id, AbilityActivation::Activated, 50, 0, 15, 0, 0),
        AbilityId::Venomstrike => make_def(id, AbilityActivation::Activated, 120, 0, 0, 196608, 0),
        AbilityId::BogMortar => make_def(id, AbilityActivation::Passive, 0, 0, 0, 393216, 0),
        AbilityId::ResonanceChain => make_def(id, AbilityActivation::Passive, 0, 0, 0, 0, 0),
        AbilityId::Inflate => make_def(id, AbilityActivation::Activated, 180, 0, 30, 0, 0),
        AbilityId::Hop => make_def(id, AbilityActivation::Activated, 60, 0, 15, 262144, 0),
        AbilityId::TongueLash => make_def(id, AbilityActivation::Activated, 100, 0, 0, 327680, 0),
        AbilityId::Slipstream => make_def(id, AbilityActivation::Passive, 0, 0, 30, 0, 0),
        AbilityId::HunkerAbility => make_def(id, AbilityActivation::Toggle, 10, 0, 0, 0, 0),
        AbilityId::AncientMossAbility => make_def(id, AbilityActivation::Passive, 0, 0, 0, 196608, 0),
        AbilityId::TidalMemory => make_def(id, AbilityActivation::Activated, 600, 6, 200, 0, 0),
        AbilityId::MireCurse => make_def(id, AbilityActivation::Activated, 200, 0, 80, 393216, 0),
        AbilityId::ProphecyAbility => make_def(id, AbilityActivation::Activated, 300, 4, 60, 524288, 0),
        AbilityId::BogSongAbility => make_def(id, AbilityActivation::Passive, 0, 0, 0, 327680, 0),
        AbilityId::UndyingPresenceAbility => make_def(id, AbilityActivation::Passive, 0, 0, 0, 524288, 0),
        AbilityId::GrokProtocol => make_def(id, AbilityActivation::Activated, 450, 8, 120, 0, 0),
        AbilityId::MurkUplinkAbility => make_def(id, AbilityActivation::Passive, 0, 0, 0, 0, 0),
        _ => make_def(id, AbilityActivation::Passive, 0, 0, 0, 0, 0),
    }
}

/// Looks up a row of group 5.
fn ability_def_5(id: AbilityId) -> (d: AbilityDef)
    ensures
        d == ability_rows_5(id),
{
    match id {
        AbilityId::CrumbTrail => make_def(id, AbilityActivation::Passive, 0, 0, 0, 0, 0),
        AbilityId::StashNetwork => make_def(id, AbilityActivation::Passive, 0, 0, 0, 0, 0),
        AbilityId::PanicProductivity => make_def(id, AbilityActivation::Passive, 0, 0, 0, 0, 0),
        AbilityId::SafetyInNumbers => make_def(id, AbilityActivation::Passive, 0, 0, 0, 196608, 0),
        AbilityId::PileOn => make_def(id, AbilityActivation::Activated, 60, 5, 30, 65536, 0),
        AbilityId::Scatter => make_def(id, AbilityActivation::Activated, 80, 5, 20, 0, 0),
        AbilityId::StructuralWeakness => make_def(id, AbilityActivation::Passive, 0, 0, 0, 0, 0),
        AbilityId::ChewThrough => make_def(id, AbilityActivation::Toggle, 10, 0, 0, 0, 0),
        AbilityId::IncisorsNeverStop => make_def(id, AbilityActivation::Passive, 0, 0, 0, 0, 0),
        AbilityId::SonicSpit => make_def(id, AbilityActivation::Activated, 80, 5, 0, 196608, 0),
        AbilityId::EcholocationPing => make_def(id, AbilityActivation::Activated, 100, 10, 50, 327680, 0),
        AbilityId::SonicBarrage => make_def(id, AbilityActivation::Activated, 150, 0, 10, 524288, 0),
        AbilityId::BurrowExpress => make_def(id, AbilityActivation::Activated, 150, 15, 0, 393216, 0),
        AbilityId::BurrowUndermine => make_def(id, AbilityActivation::Activated, 200, 20, 50, 196608, 0),
        AbilityId::SwarmTremorSense => make_def(id, AbilityActivation::Toggle, 10, 0, 0, 262144, 0),
        AbilityId::StaticCharge => make_def(id, AbilityActivation::Passive, 0, 0, 0, 0, 0),
        AbilityId::ShortCircuit => make_def(id, AbilityActivation::Activated, 100, 10, 0, 131072, 0),
        AbilityId::DaisyChain => make_def(id, AbilityActivation::Activated, 120, 15, 20, 196608, 0),
        AbilityId::SpineWall => make_def(id, AbilityActivation::Toggle, 10, 0, 0, 0, 0),
        AbilityId::QuillBurst => make_def(id, AbilityActivation::Activated, 120, 15, 0, 131072, 0),
        AbilityId::StubbornAdvance => make_def(id, AbilityActivation::Activated, 150, 10, 50, 0, 0),
        AbilityId::HexOfMultiplication => make_def(id, AbilityActivation::Activated, 200, 25, 100, 262144, 0),
        AbilityId::WhiskerWeave => make_def(id, AbilityActivation::Toggle, 10, 0, 0, 196608, 0),
        AbilityId::DatacromanticRitual => make_def(id, AbilityActivation::Activated, 300, 30, 0, 327680, 0),
        AbilityId::ContagionCloud => make_def(id, AbilityActivation::Passive, 0, 0, 0, 0, 0),
        AbilityId::MiasmaTrail => make_def(id, AbilityActivation::Toggle, 10, 0, 0, 0, 0),
        AbilityId::SympathySickness => make_def(id, AbilityActivation::Passive, 0, 0, 0, 131072, 0),
        AbilityId::RallyTheSwarm => make_def(id, AbilityActivation::Toggle, 10, 0, 0, 393216, 0),
        AbilityId::ExpendableHeroism => make_def(id, AbilityActivation::Activated, 200, 20, 50, 262144, 0),
        AbilityId::WhiskernetRelay => make_def(id, AbilityActivation::Activated, 300, 40, 100, 0, 0),
        _ => make_def(id, AbilityActivation::Passive, 0, 0, 0, 0, 0),
    }
}

/// Return the static definition for any ability.
pub fn ability_def(id: AbilityId) -> (d: AbilityDef)
    ensures
        d == spec_ability_def(id),
{
    match id {
        AbilityId::OpportunisticHoarder | AbilityId::SpiteCarry | AbilityId::Revulsion | AbilityId::AnnoyanceStacks | AbilityId::Hairball | AbilityId::Zoomies | AbilityId::GravitationalChonk | AbilityId::LoafMode | AbilityId::NineLives | AbilityId::EcholocationPulse | AbilityId::FruitDrop | AbilityId::Disoriented | AbilityId::CorrosiveSpit | AbilityId::DisgustMortar | AbilityId::Misinformation | AbilityId::HarmonicResonance | AbilityId::DissonantScreech | AbilityId::Lullaby | AbilityId::Tagged | AbilityId::DeadDrop | AbilityId::ShadowNetwork | AbilityId::DreamSiege | AbilityId::ContagiousYawning | AbilityId::SiegeNap | AbilityId::ShapedCharge | AbilityId::BoobyTrap | AbilityId::TunnelNetwork | AbilityId::TacticalUplink | AbilityId::Override | AbilityId::LeChatUplink => ability_def_0(id),
        AbilityId::SubterraneanHaul | AbilityId::Earthsense | AbilityId::EmergencyBurrow | AbilityId::Unbowed | AbilityId::ShieldWall | AbilityId::GrudgeCharge | AbilityId::BoulderBarrage | AbilityId::Entrench | AbilityId::SeismicSlam | AbilityId::VigilanceAura | AbilityId::Intercept | AbilityId::RallyCry | AbilityId::ArmorRend | AbilityId::PatientStrike | AbilityId::Lockjaw | AbilityId::DeepseekUplink | AbilityId::FortressProtocol | AbilityId::CalculatedCounterstrike | AbilityId::DeepBore | AbilityId::Undermine | AbilityId::TremorNetwork | AbilityId::MoltenShot | AbilityId::FuelReserve | AbilityId::ScorchedEarth | AbilityId::DustCloud | AbilityId::AmbushInstinct | AbilityId::SentryBurrow | AbilityId::Frenzy | AbilityId::Bloodgreed | AbilityId::RecklessLunge => ability_def_1(id),
        AbilityId::DumpsterDiveAbility | AbilityId::PocketStash | AbilityId::PlayDead | AbilityId::StickyFingers | AbilityId::JuryRig | AbilityId::Getaway | AbilityId::ScrapArmorAbility | AbilityId::WreckBall | AbilityId::MagneticPulse | AbilityId::CableGnaw | AbilityId::SignalScramble | AbilityId::TunnelRat | AbilityId::DuctTapeFix | AbilityId::SalvageResurrection | AbilityId::FeignDeath | AbilityId::JunkLauncher | AbilityId::SalvageTurret | AbilityId::JunkMortarMode | AbilityId::Eavesdrop | AbilityId::TrashHeapAmbush | AbilityId::LeakInjection | AbilityId::Disassemble | AbilityId::PryBar | AbilityId::ChainBreak | AbilityId::TreasureTrash | AbilityId::RefuseShield | AbilityId::StenchCloudAbility | AbilityId::OpenSourceUplinkAbility | AbilityId::FrankensteinProtocol | AbilityId::OverclockCascade => ability_def_2(id),
        AbilityId::TrinketStash | AbilityId::Scavenge | AbilityId::MimicCall | AbilityId::Glintwatch | AbilityId::Overwatch | AbilityId::EvasiveAscent | AbilityId::TalonDive | AbilityId::MurdersMark | AbilityId::CarrionInstinct | AbilityId::Pilfer | AbilityId::GlitterBomb | AbilityId::TrinketWard | AbilityId::SignalJam | AbilityId::DecoyNest | AbilityId::Rewire | AbilityId::MurderRallyCry | AbilityId::AlarmCall | AbilityId::Cacophony | AbilityId::PhantomFlock | AbilityId::MirrorPosition | AbilityId::Refraction | AbilityId::Nightcloak | AbilityId::SilentStrike | AbilityId::PreySense | AbilityId::PanopticGaze | AbilityId::DreadAuraAbility | AbilityId::DeathOmen | AbilityId::CorvidNetworkAbility | AbilityId::AllSeeingLie | AbilityId::OculusUplinkAbility => ability_def_3(id),
        AbilityId::AmbientGathering | AbilityId::MucusTrail | AbilityId::ExistentialDread | AbilityId::LimbToss | AbilityId::RegrowthBurst | AbilityId::PhantomLimb | AbilityId::SpawnPool | AbilityId::Transfusion | AbilityId::PrimordialSoup | AbilityId::Devour | AbilityId::Regurgitate | AbilityId::Bottomless | AbilityId::ToxicSkin | AbilityId::Waterway | AbilityId::Venomstrike | AbilityId::BogMortar | AbilityId::ResonanceChain | AbilityId::Inflate | AbilityId::Hop | AbilityId::TongueLash | AbilityId::Slipstream | AbilityId::HunkerAbility | AbilityId::AncientMossAbility | AbilityId::TidalMemory | AbilityId::MireCurse | AbilityId::ProphecyAbility | AbilityId::BogSongAbility | AbilityId::UndyingPresenceAbility | AbilityId::GrokProtocol | AbilityId::MurkUplinkAbility => ability_def_4(id),
        AbilityId::CrumbTrail | AbilityId::StashNetwork | AbilityId::PanicProductivity | AbilityId::SafetyInNumbers | AbilityId::PileOn | AbilityId::Scatter | AbilityId::StructuralWeakness | AbilityId::ChewThrough | AbilityId::IncisorsNeverStop | AbilityId::SonicSpit | AbilityId::EcholocationPing | AbilityId::SonicBarrage | AbilityId::BurrowExpress | AbilityId::BurrowUndermine | AbilityId::SwarmTremorSense | AbilityId::StaticCharge | AbilityId::ShortCircuit | AbilityId::DaisyChain | AbilityId::SpineWall | AbilityId::QuillBurst | AbilityId::StubbornAdvance | AbilityId::HexOfMultiplication | AbilityId::WhiskerWeave | AbilityId::DatacromanticRitual | AbilityId::ContagionCloud | AbilityId::MiasmaTrail | AbilityId::SympathySickness | AbilityId::RallyTheSwarm | AbilityId::ExpendableHeroism | AbilityId::WhiskernetRelay => ability_def_5(id),
    }
}

/// Every definition carries the identifier it was looked up by.
pub proof fn lemma_ability_def_id(id: AbilityId)
    ensures
        spec_ability_def(id).id == id,
{
}

/// Abilities that take player input (activated or toggled) always have a
/// cooldown between uses; toggles cost no GPU and have no running duration.
pub proof fn lemma_ability_cooldowns(id: AbilityId)
    ensures
        spec_ability_def(id).activation != AbilityActivation::Passive ==> spec_ability_def(id).cooldown_ticks > 0,
        spec_ability_def(id).activation == AbilityActivation::Toggle ==> spec_ability_def(id).gpu_cost == 0
            && spec_ability_def(id).duration_ticks == 0,
{
}

/// The status effects an active ability applies to its user; the flag tells
/// whether the effect lasts for the ability's remaining duration (`true`) or
/// a constant two ticks (`false`, for toggles).
pub open spec fn spec_self_buff_effects(id: AbilityId) -> Seq<(StatusEffectId, bool)> {
    match id {
        AbilityId::Zoomies => seq![(StatusEffectId::Zoomies, true)],
        AbilityId::LoafMode => seq![(StatusEffectId::LoafModeActive, false)],
        AbilityId::SiegeNap => seq![(StatusEffectId::SiegeNapDeployed, false)],
        AbilityId::SpiteCarry => seq![(StatusEffectId::SpiteCarryBuff, true)],
        AbilityId::ChewThrough => seq![(StatusEffectId::DamageBuff, false)],
        AbilityId::SpineWall => seq![(StatusEffectId::ArmorBuff, false)],
        AbilityId::MiasmaTrail => seq![(StatusEffectId::DamageBuff, false)],
        AbilityId::PileOn => seq![(StatusEffectId::DamageBuff, true)],
        AbilityId::Scatter => seq![(StatusEffectId::SpeedBuff, true)],
        AbilityId::StubbornAdvance => seq![(StatusEffectId::DamageBuff, true), (StatusEffectId::ArmorBuff, true)],
        AbilityId::BurrowExpress => seq![(StatusEffectId::SpeedBuff, true)],
        AbilityId::WhiskernetRelay => seq![(StatusEffectId::DamageBuff, true)],
        AbilityId::Entrench => seq![(StatusEffectId::Entrenched, false)],
        AbilityId::ShieldWall => seq![(StatusEffectId::ArmorBuff, true)],
        AbilityId::GrudgeCharge | AbilityId::RecklessLunge => seq![(StatusEffectId::SpeedBuff, true), (StatusEffectId::DamageBuff, true)],
        AbilityId::SubterraneanHaul => seq![(StatusEffectId::SpeedBuff, true)],
        AbilityId::EmergencyBurrow => seq![(StatusEffectId::ArmorBuff, true)],
        AbilityId::Intercept => seq![(StatusEffectId::SpeedBuff, true), (StatusEffectId::ArmorBuff, true)],
        AbilityId::FortressProtocol => seq![(StatusEffectId::ArmorBuff, true)],
        AbilityId::CalculatedCounterstrike => seq![(StatusEffectId::DamageBuff, true)],
        AbilityId::SentryBurrow => seq![(StatusEffectId::ArmorBuff, true)],
        AbilityId::Overwatch => seq![(StatusEffectId::ArmorBuff, false)],
        AbilityId::Pilfer => seq![(StatusEffectId::SpeedBuff, true)],
        AbilityId::MirrorPosition => seq![(StatusEffectId::SpeedBuff, true)],
        AbilityId::PlayDead => seq![(StatusEffectId::PlayingDead, true)],
        AbilityId::Scavenge => seq![(StatusEffectId::SpiteCarryBuff, true)],
        AbilityId::Getaway => seq![(StatusEffectId::SpeedBuff, true)],
        AbilityId::JuryRig => seq![(StatusEffectId::ArmorBuff, true)],
        AbilityId::DuctTapeFix => seq![(StatusEffectId::ArmorBuff, true)],
        AbilityId::JunkMortarMode => seq![(StatusEffectId::JunkMortarDeployed, false)],
        AbilityId::TrashHeapAmbush => seq![(StatusEffectId::DamageBuff, true), (StatusEffectId::SpeedBuff, true)],
        AbilityId::LeakInjection => seq![(StatusEffectId::DamageBuff, true)],
        AbilityId::RefuseShield => seq![(StatusEffectId::ArmorBuff, true)],
        AbilityId::OverclockCascade => seq![(StatusEffectId::DamageBuff, true), (StatusEffectId::SpeedBuff, true)],
        AbilityId::HunkerAbility => seq![(StatusEffectId::LoafModeActive, false)],
        AbilityId::Inflate => seq![(StatusEffectId::InflatedBombardment, true)],
        AbilityId::Hop => seq![(StatusEffectId::SpeedBuff, true)],
        AbilityId::RegrowthBurst => seq![(StatusEffectId::ArmorBuff, true)],
        AbilityId::PrimordialSoup => seq![(StatusEffectId::ArmorBuff, true), (StatusEffectId::DamageBuff, true)],
        AbilityId::Waterway => seq![(StatusEffectId::SpeedBuff, true)],
        AbilityId::TidalMemory => seq![(StatusEffectId::ArmorBuff, true)],
        AbilityId::GrokProtocol => seq![(StatusEffectId::DamageBuff, true), (StatusEffectId::SpeedBuff, true)],
        _ => seq![],
    }
}

/// Data-driven lookup: returns the list of status effects an ability applies to self
/// when active. The bool indicates whether to use `duration_remaining` (true) or
/// a constant duration of 2 (false, for toggles).
pub fn self_buff_effects(id: AbilityId) -> (v: &'static [(StatusEffectId, bool)])
    ensures
        v@ == spec_self_buff_effects(id),
{
    match id {
        AbilityId::Zoomies => &[(StatusEffectId::Zoomies, true)],
        AbilityId::LoafMode => &[(StatusEffectId::LoafModeActive, false)],
        AbilityId::SiegeNap => &[(StatusEffectId::SiegeNapDeployed, false)],
        AbilityId::SpiteCarry => &[(StatusEffectId::SpiteCarryBuff, true)],
        AbilityId::ChewThrough => &[(StatusEffectId::DamageBuff, false)],
        AbilityId::SpineWall => &[(StatusEffectId::ArmorBuff, false)],
        AbilityId::MiasmaTrail => &[(StatusEffectId::DamageBuff, false)],
        AbilityId::PileOn => &[(StatusEffectId::DamageBuff, true)],
        AbilityId::Scatter => &[(StatusEffectId::SpeedBuff, true)],
        AbilityId::StubbornAdvance => &[(StatusEffectId::DamageBuff, true), (StatusEffectId::ArmorBuff, true)],
        AbilityId::BurrowExpress => &[(StatusEffectId::SpeedBuff, true)],
        AbilityId::WhiskernetRelay => &[(StatusEffectId::DamageBuff, true)],
        AbilityId::Entrench => &[(StatusEffectId::Entrenched, false)],
        AbilityId::ShieldWall => &[(StatusEffectId::ArmorBuff, true)],
        AbilityId::GrudgeCharge | AbilityId::RecklessLunge => &[(StatusEffectId::SpeedBuff, true), (StatusEffectId::DamageBuff, true)],
        AbilityId::SubterraneanHaul => &[(StatusEffectId::SpeedBuff, true)],
        AbilityId::EmergencyBurrow => &[(StatusEffectId::ArmorBuff, true)],
        AbilityId::Intercept => &[(StatusEffectId::SpeedBuff, true), (StatusEffectId::ArmorBuff, true)],
        AbilityId::FortressProtocol => &[(StatusEffectId::ArmorBuff, true)],
        AbilityId::CalculatedCounterstrike => &[(StatusEffectId::DamageBuff, true)],
        AbilityId::SentryBurrow => &[(StatusEffectId::ArmorBuff, true)],
        AbilityId::Overwatch => &[(StatusEffectId::ArmorBuff, false)],
        AbilityId::Pilfer => &[(StatusEffectId::SpeedBuff, true)],
        AbilityId::MirrorPosition => &[(StatusEffectId::SpeedBuff, true)],
        AbilityId::PlayDead => &[(StatusEffectId::PlayingDead, true)],
        AbilityId::Scavenge => &[(StatusEffectId::SpiteCarryBuff, true)],
        AbilityId::Getaway => &[(StatusEffectId::SpeedBuff, true)],
        AbilityId::JuryRig => &[(StatusEffectId::ArmorBuff, true)],
        AbilityId::DuctTapeFix => &[(StatusEffectId::ArmorBuff, true)],
        AbilityId::JunkMortarMode => &[(StatusEffectId::JunkMortarDeployed, false)],
        AbilityId::TrashHeapAmbush => &[(StatusEffectId::DamageBuff, true), (StatusEffectId::SpeedBuff, true)],
        AbilityId::LeakInjection => &[(StatusEffectId::DamageBuff, true)],
        AbilityId::RefuseShield => &[(StatusEffectId::ArmorBuff, true)],
        AbilityId::OverclockCascade => &[(StatusEffectId::DamageBuff, true), (StatusEffectId::SpeedBuff, true)],
        AbilityId::HunkerAbility => &[(StatusEffectId::LoafModeActive, false)],
        AbilityId::Inflate => &[(StatusEffectId::InflatedBombardment, true)],
        AbilityId::Hop => &[(StatusEffectId::SpeedBuff, true)],
        AbilityId::RegrowthBurst => &[(StatusEffectId::ArmorBuff, true)],
        AbilityId::PrimordialSoup => &[(StatusEffectId::ArmorBuff, true), (StatusEffectId::DamageBuff, true)],
        AbilityId::Waterway => &[(StatusEffectId::SpeedBuff, true)],
        AbilityId::TidalMemory => &[(StatusEffectId::ArmorBuff, true)],
        AbilityId::GrokProtocol => &[(StatusEffectId::DamageBuff, true), (StatusEffectId::SpeedBuff, true)],
        _ => &[],
    }
}

/// Catnapper DreamSiege multiplier, as raw 16.16 bits: 1x for the first 50
/// ticks on a target, 2x until 150, 4x until 300, then 8x.
pub open spec fn dream_siege_bits(ticks_on_target: u32) -> int {
    if ticks_on_target < 50 {
        65536
    } else if ticks_on_target < 150 {
        131072
    } else if ticks_on_target < 300 {
        262144
    } else {
        524288
    }
}

/// Catnapper DreamSiege damage multiplier — ramps the longer it attacks the same target.
pub fn dream_siege_multiplier(ticks_on_target: u32) -> (m: Fixed)
    ensures
        m.bits == dream_siege_bits(ticks_on_target),
{
    if ticks_on_target < 50 {
        Fixed::one()
    } else if ticks_on_target < 150 {
        Fixed::from_int(2)
    } else if ticks_on_target < 300 {
        Fixed::from_int(4)
    } else {
        Fixed::from_int(8)
    }
}

/// The DreamSiege multiplier never drops as time on the target grows.
pub proof fn lemma_dream_siege_monotone(a: u32, b: u32)
    requires
        a <= b,
    ensures
        dream_siege_bits(a) <= dream_siege_bits(b),
{
}

/// Gnawer Structural Weakness damage multiplier — scales with consecutive hit stacks on a building.
/// Returns 1.0 + 0.02 * min(stacks, 10), so max multiplier is 1.20 (20% bonus).
pub fn gnawer_structural_weakness_multiplier(stacks: u32) -> (m: Fixed)
    ensures
        m.bits == 65536 + 1310 * (if stacks < 10 { stacks as int } else { 10 }),
{
    let capped: u32 = if stacks < 10 { stacks } else { 10 };
    Fixed::from_bits(65536 + 1310 * capped as i32)
}

/// Gnawer Incisors Never Stop — damage bonus from continuous attacking.
/// Returns 0.01 * min(seconds, 40) as fixed-point, so max bonus is 0.40 (40%).
pub fn incisors_damage_bonus(continuous_ticks: u32) -> (m: Fixed)
    ensures
        m.bits == 655 * (if continuous_ticks / 10 < 40 { (continuous_ticks / 10) as int } else { 40 }),
{
    let seconds = continuous_ticks / 10;
    let capped: u32 = if seconds < 40 { seconds } else { 40 };
    Fixed::from_bits(655 * capped as i32)
}

/// The three abilities of each unit kind, in slot order.
pub open spec fn spec_unit_abilities(kind: UnitKind) -> [AbilityId; 3] {
    match kind {
        UnitKind::Pawdler => [AbilityId::OpportunisticHoarder, AbilityId::SpiteCarry, AbilityId::Revulsion],
        UnitKind::Nuisance => [AbilityId::AnnoyanceStacks, AbilityId::Hairball, AbilityId::Zoomies],
        UnitKind::Chonk => [AbilityId::GravitationalChonk, AbilityId::LoafMode, AbilityId::NineLives],
        UnitKind::FlyingFox => [AbilityId::EcholocationPulse, AbilityId::FruitDrop, AbilityId::Disoriented],
        UnitKind::Hisser => [AbilityId::CorrosiveSpit, AbilityId::DisgustMortar, AbilityId::Misinformation],
        UnitKind::Yowler => [AbilityId::HarmonicResonance, AbilityId::DissonantScreech, AbilityId::Lullaby],
        UnitKind::Mouser => [AbilityId::Tagged, AbilityId::DeadDrop, AbilityId::ShadowNetwork],
        UnitKind::Catnapper => [AbilityId::DreamSiege, AbilityId::ContagiousYawning, AbilityId::SiegeNap],
        UnitKind::FerretSapper => [AbilityId::ShapedCharge, AbilityId::BoobyTrap, AbilityId::TunnelNetwork],
        UnitKind::MechCommander => [AbilityId::TacticalUplink, AbilityId::Override, AbilityId::LeChatUplink],
        UnitKind::Scrounger => [AbilityId::DumpsterDiveAbility, AbilityId::PocketStash, AbilityId::PlayDead],
        UnitKind::Bandit => [AbilityId::StickyFingers, AbilityId::JuryRig, AbilityId::Getaway],
        UnitKind::HeapTitan => [AbilityId::ScrapArmorAbility, AbilityId::WreckBall, AbilityId::MagneticPulse],
        UnitKind::GlitchRat => [AbilityId::CableGnaw, AbilityId::SignalScramble, AbilityId::TunnelRat],
        UnitKind::PatchPossum => [AbilityId::DuctTapeFix, AbilityId::SalvageResurrection, AbilityId::FeignDeath],
        UnitKind::GreaseMonkey => [AbilityId::JunkLauncher, AbilityId::SalvageTurret, AbilityId::JunkMortarMode],
        UnitKind::DeadDropUnit => [AbilityId::Eavesdrop, AbilityId::TrashHeapAmbush, AbilityId::LeakInjection],
        UnitKind::Wrecker => [AbilityId::Disassemble, AbilityId::PryBar, AbilityId::ChainBreak],
        UnitKind::DumpsterDiver => [AbilityId::TreasureTrash, AbilityId::RefuseShield, AbilityId::StenchCloudAbility],
        UnitKind::JunkyardKing => [AbilityId::OpenSourceUplinkAbility, AbilityId::FrankensteinProtocol, AbilityId::OverclockCascade],
        UnitKind::MurderScrounger => [AbilityId::TrinketStash, AbilityId::Scavenge, AbilityId::MimicCall],
        UnitKind::Sentinel => [AbilityId::Glintwatch, AbilityId::Overwatch, AbilityId::EvasiveAscent],
        UnitKind::Rookclaw => [AbilityId::TalonDive, AbilityId::MurdersMark, AbilityId::CarrionInstinct],
        UnitKind::Magpike => [AbilityId::Pilfer, AbilityId::GlitterBomb, AbilityId::TrinketWard],
        UnitKind::Magpyre => [AbilityId::SignalJam, AbilityId::DecoyNest, AbilityId::Rewire],
        UnitKind::Jaycaller => [AbilityId::MurderRallyCry, AbilityId::AlarmCall, AbilityId::Cacophony],
        UnitKind::Jayflicker => [AbilityId::PhantomFlock, AbilityId::MirrorPosition, AbilityId::Refraction],
        UnitKind::Dusktalon => [AbilityId::Nightcloak, AbilityId::SilentStrike, AbilityId::PreySense],
        UnitKind::Hootseer => [AbilityId::PanopticGaze, AbilityId::DreadAuraAbility, AbilityId::DeathOmen],
        UnitKind::CorvusRex => [AbilityId::CorvidNetworkAbility, AbilityId::AllSeeingLie, AbilityId::OculusUplinkAbility],
        UnitKind::Ponderer => [AbilityId::AmbientGathering, AbilityId::MucusTrail, AbilityId::ExistentialDread],
        UnitKind::Regeneron => [AbilityId::LimbToss, AbilityId::RegrowthBurst, AbilityId::PhantomLimb],
        UnitKind::Broodmother => [AbilityId::SpawnPool, AbilityId::Transfusion, AbilityId::PrimordialSoup],
        UnitKind::Gulper => [AbilityId::Devour, AbilityId::Regurgitate, AbilityId::Bottomless],
        UnitKind::Eftsaber => [AbilityId::ToxicSkin, AbilityId::Waterway, AbilityId::Venomstrike],
        UnitKind::Croaker => [AbilityId::BogMortar, AbilityId::ResonanceChain, AbilityId::Inflate],
        UnitKind::Leapfrog => [AbilityId::Hop, AbilityId::TongueLash, AbilityId::Slipstream],
        UnitKind::Shellwarden => [AbilityId::HunkerAbility, AbilityId::AncientMossAbility, AbilityId::TidalMemory],
        UnitKind::Bogwhisper => [AbilityId::MireCurse, AbilityId::ProphecyAbility, AbilityId::BogSongAbility],
        UnitKind::MurkCommander => [AbilityId::UndyingPresenceAbility, AbilityId::GrokProtocol, AbilityId::MurkUplinkAbility],
        UnitKind::Delver => [AbilityId::SubterraneanHaul, AbilityId::Earthsense, AbilityId::EmergencyBurrow],
        UnitKind::Ironhide => [AbilityId::Unbowed, AbilityId::ShieldWall, AbilityId::GrudgeCharge],
        UnitKind::Cragback => [AbilityId::BoulderBarrage, AbilityId::Entrench, AbilityId::SeismicSlam],
        UnitKind::Warden => [AbilityId::VigilanceAura, AbilityId::Intercept, AbilityId::RallyCry],
        UnitKind::Sapjaw => [AbilityId::ArmorRend, AbilityId::PatientStrike, AbilityId::Lockjaw],
        UnitKind::Wardenmother => [AbilityId::DeepseekUplink, AbilityId::FortressProtocol, AbilityId::CalculatedCounterstrike],
        UnitKind::SeekerTunneler => [AbilityId::DeepBore, AbilityId::Undermine, AbilityId::TremorNetwork],
        UnitKind::Embermaw => [AbilityId::MoltenShot, AbilityId::FuelReserve, AbilityId::ScorchedEarth],
        UnitKind::Dustclaw => [AbilityId::DustCloud, AbilityId::AmbushInstinct, AbilityId::SentryBurrow],
        UnitKind::Gutripper => [AbilityId::Frenzy, AbilityId::Bloodgreed, AbilityId::RecklessLunge],
        UnitKind::Nibblet => [AbilityId::CrumbTrail, AbilityId::StashNetwork, AbilityId::PanicProductivity],
        UnitKind::Swarmer => [AbilityId::SafetyInNumbers, AbilityId::PileOn, AbilityId::Scatter],
        UnitKind::Gnawer => [AbilityId::StructuralWeakness, AbilityId::ChewThrough, AbilityId::IncisorsNeverStop],
        UnitKind::Shrieker => [AbilityId::SonicSpit, AbilityId::EcholocationPing, AbilityId::SonicBarrage],
        UnitKind::Tunneler => [AbilityId::BurrowExpress, AbilityId::BurrowUndermine, AbilityId::SwarmTremorSense],
        UnitKind::Sparks => [AbilityId::StaticCharge, AbilityId::ShortCircuit, AbilityId::DaisyChain],
        UnitKind::Quillback => [AbilityId::SpineWall, AbilityId::QuillBurst, AbilityId::StubbornAdvance],
        UnitKind::Whiskerwitch => [AbilityId::HexOfMultiplication, AbilityId::WhiskerWeave, AbilityId::DatacromanticRitual],
        UnitKind::Plaguetail => [AbilityId::ContagionCloud, AbilityId::MiasmaTrail, AbilityId::SympathySickness],
        UnitKind::WarrenMarshal => [AbilityId::RallyTheSwarm, AbilityId::ExpendableHeroism, AbilityId::WhiskernetRelay],
    }
}

/// Return the 3 ability IDs for a given unit kind.
pub fn unit_abilities(kind: UnitKind) -> (a: [AbilityId; 3])
    ensures
        a == spec_unit_abilities(kind),
{
    match kind {
        UnitKind::Pawdler => [AbilityId::OpportunisticHoarder, AbilityId::SpiteCarry, AbilityId::Revulsion],
        UnitKind::Nuisance => [AbilityId::AnnoyanceStacks, AbilityId::Hairball, AbilityId::Zoomies],
        UnitKind::Chonk => [AbilityId::GravitationalChonk, AbilityId::LoafMode, AbilityId::NineLives],
        UnitKind::FlyingFox => [AbilityId::EcholocationPulse, AbilityId::FruitDrop, AbilityId::Disoriented],
        UnitKind::Hisser => [AbilityId::CorrosiveSpit, AbilityId::DisgustMortar, AbilityId::Misinformation],
        UnitKind::Yowler => [AbilityId::HarmonicResonance, AbilityId::DissonantScreech, AbilityId::Lullaby],
        UnitKind::Mouser => [AbilityId::Tagged, AbilityId::DeadDrop, AbilityId::ShadowNetwork],
        UnitKind::Catnapper => [AbilityId::DreamSiege, AbilityId::ContagiousYawning, AbilityId::SiegeNap],
        UnitKind::FerretSapper => [AbilityId::ShapedCharge, AbilityId::BoobyTrap, AbilityId::TunnelNetwork],
        UnitKind::MechCommander => [AbilityId::TacticalUplink, AbilityId::Override, AbilityId::LeChatUplink],
        UnitKind::Scrounger => [AbilityId::DumpsterDiveAbility, AbilityId::PocketStash, AbilityId::PlayDead],
        UnitKind::Bandit => [AbilityId::StickyFingers, AbilityId::JuryRig, AbilityId::Getaway],
        UnitKind::HeapTitan => [AbilityId::ScrapArmorAbility, AbilityId::WreckBall, AbilityId::MagneticPulse],
        UnitKind::GlitchRat => [AbilityId::CableGnaw, AbilityId::SignalScramble, AbilityId::TunnelRat],
        UnitKind::PatchPossum => [AbilityId::DuctTapeFix, AbilityId::SalvageResurrection, AbilityId::FeignDeath],
        UnitKind::GreaseMonkey => [AbilityId::JunkLauncher, AbilityId::SalvageTurret, AbilityId::JunkMortarMode],
        UnitKind::DeadDropUnit => [AbilityId::Eavesdrop, AbilityId::TrashHeapAmbush, AbilityId::LeakInjection],
        UnitKind::Wrecker => [AbilityId::Disassemble, AbilityId::PryBar, AbilityId::ChainBreak],
        UnitKind::DumpsterDiver => [AbilityId::TreasureTrash, AbilityId::RefuseShield, AbilityId::StenchCloudAbility],
        UnitKind::JunkyardKing => [AbilityId::OpenSourceUplinkAbility, AbilityId::FrankensteinProtocol, AbilityId::OverclockCascade],
        UnitKind::MurderScrounger => [AbilityId::TrinketStash, AbilityId::Scavenge, AbilityId::MimicCall],
        UnitKind::Sentinel => [AbilityId::Glintwatch, AbilityId::Overwatch, AbilityId::EvasiveAscent],
        UnitKind::Rookclaw => [AbilityId::TalonDive, AbilityId::MurdersMark, AbilityId::CarrionInstinct],
        UnitKind::Magpike => [AbilityId::Pilfer, AbilityId::GlitterBomb, AbilityId::TrinketWard],
        UnitKind::Magpyre => [AbilityId::SignalJam, AbilityId::DecoyNest, AbilityId::Rewire],
        UnitKind::Jaycaller => [AbilityId::MurderRallyCry, AbilityId::AlarmCall, AbilityId::Cacophony],
        UnitKind::Jayflicker => [AbilityId::PhantomFlock, AbilityId::MirrorPosition, AbilityId::Refraction],
        UnitKind::Dusktalon => [AbilityId::Nightcloak, AbilityId::SilentStrike, AbilityId::PreySense],
        UnitKind::Hootseer => [AbilityId::PanopticGaze, AbilityId::DreadAuraAbility, AbilityId::DeathOmen],
        UnitKind::CorvusRex => [AbilityId::CorvidNetworkAbility, AbilityId::AllSeeingLie, AbilityId::OculusUplinkAbility],
        UnitKind::Ponderer => [AbilityId::AmbientGathering, AbilityId::MucusTrail, AbilityId::ExistentialDread],
        UnitKind::Regeneron => [AbilityId::LimbToss, AbilityId::RegrowthBurst, AbilityId::PhantomLimb],
        UnitKind::Broodmother => [AbilityId::SpawnPool, AbilityId::Transfusion, AbilityId::PrimordialSoup],
        UnitKind::Gulper => [AbilityId::Devour, AbilityId::Regurgitate, AbilityId::Bottomless],
        UnitKind::Eftsaber => [AbilityId::ToxicSkin, AbilityId::Waterway, AbilityId::Venomstrike],
        UnitKind::Croaker => [AbilityId::BogMortar, AbilityId::ResonanceChain, AbilityId::Inflate],
        UnitKind::Leapfrog => [AbilityId::Hop, AbilityId::TongueLash, AbilityId::Slipstream],
        UnitKind::Shellwarden => [AbilityId::HunkerAbility, AbilityId::AncientMossAbility, AbilityId::TidalMemory],
        UnitKind::Bogwhisper => [AbilityId::MireCurse, AbilityId::ProphecyAbility, AbilityId::BogSongAbility],
        UnitKind::MurkCommander => [AbilityId::UndyingPresenceAbility, AbilityId::GrokProtocol, AbilityId::MurkUplinkAbility],
        UnitKind::Delver => [AbilityId::SubterraneanHaul, AbilityId::Earthsense, AbilityId::EmergencyBurrow],
        UnitKind::Ironhide => [AbilityId::Unbowed, AbilityId::ShieldWall, AbilityId::GrudgeCharge],
        UnitKind::Cragback => [AbilityId::BoulderBarrage, AbilityId::Entrench, AbilityId::SeismicSlam],
        UnitKind::Warden => [AbilityId::VigilanceAura, AbilityId::Intercept, AbilityId::RallyCry],
        UnitKind::Sapjaw => [AbilityId::ArmorRend, AbilityId::PatientStrike, AbilityId::Lockjaw],
        UnitKind::Wardenmother => [AbilityId::DeepseekUplink, AbilityId::FortressProtocol, AbilityId::CalculatedCounterstrike],
        UnitKind::SeekerTunneler => [AbilityId::DeepBore, AbilityId::Undermine, AbilityId::TremorNetwork],
        UnitKind::Embermaw => [AbilityId::MoltenShot, AbilityId::FuelReserve, AbilityId::ScorchedEarth],
        UnitKind::Dustclaw => [AbilityId::DustCloud, AbilityId::AmbushInstinct, AbilityId::SentryBurrow],
        UnitKind::Gutripper => [AbilityId::Frenzy, AbilityId::Bloodgreed, AbilityId::RecklessLunge],
        UnitKind::Nibblet => [AbilityId::CrumbTrail, AbilityId::StashNetwork, AbilityId::PanicProductivity],
        UnitKind::Swarmer => [AbilityId::SafetyInNumbers, AbilityId::PileOn, AbilityId::Scatter],
        UnitKind::Gnawer => [AbilityId::StructuralWeakness, AbilityId::ChewThrough, AbilityId::IncisorsNeverStop],
        UnitKind::Shrieker => [AbilityId::SonicSpit, AbilityId::EcholocationPing, AbilityId::SonicBarrage],
        UnitKind::Tunneler => [AbilityId::BurrowExpress, AbilityId::BurrowUndermine, AbilityId::SwarmTremorSense],
        UnitKind::Sparks => [AbilityId::StaticCharge, AbilityId::ShortCircuit, AbilityId::DaisyChain],
        UnitKind::Quillback => [AbilityId::SpineWall, AbilityId::QuillBurst, AbilityId::StubbornAdvance],
        UnitKind::Whiskerwitch => [AbilityId::HexOfMultiplication, AbilityId::WhiskerWeave, AbilityId::DatacromanticRitual],
        UnitKind::Plaguetail => [AbilityId::ContagionCloud, AbilityId::MiasmaTrail, AbilityId::SympathySickness],
        UnitKind::WarrenMarshal => [AbilityId::RallyTheSwarm, AbilityId::ExpendableHeroism, AbilityId::WhiskernetRelay],
    }
}

/// The unit kind an ability belongs to.
pub open spec fn ability_owner(id: AbilityId) -> UnitKind {
    match id {
        AbilityId::OpportunisticHoarder => UnitKind::Pawdler,
        AbilityId::SpiteCarry => UnitKind::Pawdler,
        AbilityId::Revulsion => UnitKind::Pawdler,
        AbilityId::AnnoyanceStacks => UnitKind::Nuisance,
        AbilityId::Hairball => UnitKind::Nuisance,
        AbilityId::Zoomies => UnitKind::Nuisance,
        AbilityId::GravitationalChonk => UnitKind::Chonk,
        AbilityId::LoafMode => UnitKind::Chonk,
        AbilityId::NineLives => UnitKind::Chonk,
        AbilityId::EcholocationPulse => UnitKind::FlyingFox,
        AbilityId::FruitDrop => UnitKind::FlyingFox,
        AbilityId::Disoriented => UnitKind::FlyingFox,
        AbilityId::CorrosiveSpit => UnitKind::Hisser,
        AbilityId::DisgustMortar => UnitKind::Hisser,
        AbilityId::Misinformation => UnitKind::Hisser,
        AbilityId::HarmonicResonance => UnitKind::Yowler,
        AbilityId::DissonantScreech => UnitKind::Yowler,
        AbilityId::Lullaby => UnitKind::Yowler,
        AbilityId::Tagged => UnitKind::Mouser,
        AbilityId::DeadDrop => UnitKind::Mouser,
        AbilityId::ShadowNetwork => UnitKind::Mouser,
        AbilityId::DreamSiege => UnitKind::Catnapper,
        AbilityId::ContagiousYawning => UnitKind::Catnapper,
        AbilityId::SiegeNap => UnitKind::Catnapper,
        AbilityId::ShapedCharge => UnitKind::FerretSapper,
        AbilityId::BoobyTrap => UnitKind::FerretSapper,
        AbilityId::TunnelNetwork => UnitKind::FerretSapper,
        AbilityId::TacticalUplink => UnitKind::MechCommander,
        AbilityId::Override => UnitKind::MechCommander,
        AbilityId::LeChatUplink => UnitKind::MechCommander,
        AbilityId::SubterraneanHaul => UnitKind::Delver,
        AbilityId::Earthsense => UnitKind::Delver,
        AbilityId::EmergencyBurrow => UnitKind::Delver,
        AbilityId::Unbowed => UnitKind::Ironhide,
        AbilityId::ShieldWall => UnitKind::Ironhide,
        AbilityId::GrudgeCharge => UnitKind::Ironhide,
        AbilityId::BoulderBarrage => UnitKind::Cragback,
        AbilityId::Entrench => UnitKind::Cragback,
        AbilityId::SeismicSlam => UnitKind::Cragback,
        AbilityId::VigilanceAura => UnitKind::Warden,
        AbilityId::Intercept => UnitKind::Warden,
        AbilityId::RallyCry => UnitKind::Warden,
        AbilityId::ArmorRend => UnitKind::Sapjaw,
        AbilityId::PatientStrike => UnitKind::Sapjaw,
        AbilityId::Lockjaw => UnitKind::Sapjaw,
        AbilityId::DeepseekUplink => UnitKind::Wardenmother,
        AbilityId::FortressProtocol => UnitKind::Wardenmother,
        AbilityId::CalculatedCounterstrike => UnitKind::Wardenmother,
        AbilityId::DeepBore => UnitKind::SeekerTunneler,
        AbilityId::Undermine => UnitKind::SeekerTunneler,
        AbilityId::TremorNetwork => UnitKind::SeekerTunneler,
        AbilityId::MoltenShot => UnitKind::Embermaw,
        AbilityId::FuelReserve => UnitKind::Embermaw,
        AbilityId::ScorchedEarth => UnitKind::Embermaw,
        AbilityId::DustCloud => UnitKind::Dustclaw,
        AbilityId::AmbushInstinct => UnitKind::Dustclaw,
        AbilityId::SentryBurrow => UnitKind::Dustclaw,
        AbilityId::Frenzy => UnitKind::Gutripper,
        AbilityId::Bloodgreed => UnitKind::Gutripper,
        AbilityId::RecklessLunge => UnitKind::Gutripper,
        AbilityId::DumpsterDiveAbility => UnitKind::Scrounger,
        AbilityId::PocketStash => UnitKind::Scrounger,
        AbilityId::PlayDead => UnitKind::Scrounger,
        AbilityId::StickyFingers => UnitKind::Bandit,
        AbilityId::JuryRig => UnitKind::Bandit,
        AbilityId::Getaway => UnitKind::Bandit,
        AbilityId::ScrapArmorAbility => UnitKind::HeapTitan,
        AbilityId::WreckBall => UnitKind::HeapTitan,
        AbilityId::MagneticPulse => UnitKind::HeapTitan,
        AbilityId::CableGnaw => UnitKind::GlitchRat,
        AbilityId::SignalScramble => UnitKind::GlitchRat,
        AbilityId::TunnelRat => UnitKind::GlitchRat,
        AbilityId::DuctTapeFix => UnitKind::PatchPossum,
        AbilityId::SalvageResurrection => UnitKind::PatchPossum,
        AbilityId::FeignDeath => UnitKind::PatchPossum,
        AbilityId::JunkLauncher => UnitKind::GreaseMonkey,
        AbilityId::SalvageTurret => UnitKind::GreaseMonkey,
        AbilityId::JunkMortarMode => UnitKind::GreaseMonkey,
        AbilityId::Eavesdrop => UnitKind::DeadDropUnit,
        AbilityId::TrashHeapAmbush => UnitKind::DeadDropUnit,
        AbilityId::LeakInjection => UnitKind::DeadDropUnit,
        AbilityId::Disassemble => UnitKind::Wrecker,
        AbilityId::PryBar => UnitKind::Wrecker,
        AbilityId::ChainBreak => UnitKind::Wrecker,
        AbilityId::TreasureTrash => UnitKind::DumpsterDiver,
        AbilityId::RefuseShield => UnitKind::DumpsterDiver,
        AbilityId::StenchCloudAbility => UnitKind::DumpsterDiver,
        AbilityId::OpenSourceUplinkAbility => UnitKind::JunkyardKing,
        AbilityId::FrankensteinProtocol => UnitKind::JunkyardKing,
        AbilityId::OverclockCascade => UnitKind::JunkyardKing,
        AbilityId::TrinketStash => UnitKind::MurderScrounger,
        AbilityId::Scavenge => UnitKind::MurderScrounger,
        AbilityId::MimicCall => UnitKind::MurderScrounger,
        AbilityId::Glintwatch => UnitKind::Sentinel,
        AbilityId::Overwatch => UnitKind::Sentinel,
        AbilityId::EvasiveAscent => UnitKind::Sentinel,
        AbilityId::TalonDive => UnitKind::Rookclaw,
        AbilityId::MurdersMark => UnitKind::Rookclaw,
        AbilityId::CarrionInstinct => UnitKind::Rookclaw,
        AbilityId::Pilfer => UnitKind::Magpike,
        AbilityId::GlitterBomb => UnitKind::Magpike,
        AbilityId::TrinketWard => UnitKind::Magpike,
        AbilityId::SignalJam => UnitKind::Magpyre,
        AbilityId::DecoyNest => UnitKind::Magpyre,
        AbilityId::Rewire => UnitKind::Magpyre,
        AbilityId::MurderRallyCry => UnitKind::Jaycaller,
        AbilityId::AlarmCall => UnitKind::Jaycaller,
        AbilityId::Cacophony => UnitKind::Jaycaller,
        AbilityId::PhantomFlock => UnitKind::Jayflicker,
        AbilityId::MirrorPosition => UnitKind::Jayflicker,
        AbilityId::Refraction => UnitKind::Jayflicker,
        AbilityId::Nightcloak => UnitKind::Dusktalon,
        AbilityId::SilentStrike => UnitKind::Dusktalon,
        AbilityId::PreySense => UnitKind::Dusktalon,
        AbilityId::PanopticGaze => UnitKind::Hootseer,
        AbilityId::DreadAuraAbility => UnitKind::Hootseer,
        AbilityId::DeathOmen => UnitKind::Hootseer,
        AbilityId::CorvidNetworkAbility => UnitKind::CorvusRex,
        AbilityId::AllSeeingLie => UnitKind::CorvusRex,
        AbilityId::OculusUplinkAbility => UnitKind::CorvusRex,
        AbilityId::AmbientGathering => UnitKind::Ponderer,
        AbilityId::MucusTrail => UnitKind::Ponderer,
        AbilityId::ExistentialDread => UnitKind::Ponderer,
        AbilityId::LimbToss => UnitKind::Regeneron,
        AbilityId::RegrowthBurst => UnitKind::Regeneron,
        AbilityId::PhantomLimb => UnitKind::Regeneron,
        AbilityId::SpawnPool => UnitKind::Broodmother,
        AbilityId::Transfusion => UnitKind::Broodmother,
        AbilityId::PrimordialSoup => UnitKind::Broodmother,
        AbilityId::Devour => UnitKind::Gulper,
        AbilityId::Regurgitate => UnitKind::Gulper,
        AbilityId::Bottomless => UnitKind::Gulper,
        AbilityId::ToxicSkin => UnitKind::Eftsaber,
        AbilityId::Waterway => UnitKind::Eftsaber,
        AbilityId::Venomstrike => UnitKind::Eftsaber,
        AbilityId::BogMortar => UnitKind::Croaker,
        AbilityId::ResonanceChain => UnitKind::Croaker,
        AbilityId::Inflate => UnitKind::Croaker,
        AbilityId::Hop => UnitKind::Leapfrog,
        AbilityId::TongueLash => UnitKind::Leapfrog,
        AbilityId::Slipstream => UnitKind::Leapfrog,
        AbilityId::HunkerAbility => UnitKind::Shellwarden,
        AbilityId::AncientMossAbility => UnitKind::Shellwarden,
        AbilityId::TidalMemory => UnitKind::Shellwarden,
        AbilityId::MireCurse => UnitKind::Bogwhisper,
        AbilityId::ProphecyAbility => UnitKind::Bogwhisper,
        AbilityId::BogSongAbility => UnitKind::Bogwhisper,
        AbilityId::UndyingPresenceAbility => UnitKind::MurkCommander,
        AbilityId::GrokProtocol => UnitKind::MurkCommander,
        AbilityId::MurkUplinkAbility => UnitKind::MurkCommander,
        AbilityId::CrumbTrail => UnitKind::Nibblet,
        AbilityId::StashNetwork => UnitKind::Nibblet,
        AbilityId::PanicProductivity => UnitKind::Nibblet,
        AbilityId::SafetyInNumbers => UnitKind::Swarmer,
        AbilityId::PileOn => UnitKind::Swarmer,
        AbilityId::Scatter => UnitKind::Swarmer,
        AbilityId::StructuralWeakness => UnitKind::Gnawer,
        AbilityId::ChewThrough => UnitKind::Gnawer,
        AbilityId::IncisorsNeverStop => UnitKind::Gnawer,
        AbilityId::SonicSpit => UnitKind::Shrieker,
        AbilityId::EcholocationPing => UnitKind::Shrieker,
        AbilityId::SonicBarrage => UnitKind::Shrieker,
        AbilityId::BurrowExpress => UnitKind::Tunneler,
        AbilityId::BurrowUndermine => UnitKind::Tunneler,
        AbilityId::SwarmTremorSense => UnitKind::Tunneler,
        AbilityId::StaticCharge => UnitKind::Sparks,
        AbilityId::ShortCircuit => UnitKind::Sparks,
        AbilityId::DaisyChain => UnitKind::Sparks,
        AbilityId::SpineWall => UnitKind::Quillback,
        AbilityId::QuillBurst => UnitKind::Quillback,
        AbilityId::StubbornAdvance => UnitKind::Quillback,
        AbilityId::HexOfMultiplication => UnitKind::Whiskerwitch,
        AbilityId::WhiskerWeave => UnitKind::Whiskerwitch,
        AbilityId::DatacromanticRitual => UnitKind::Whiskerwitch,
        AbilityId::ContagionCloud => UnitKind::Plaguetail,
        AbilityId::MiasmaTrail => UnitKind::Plaguetail,
        AbilityId::SympathySickness => UnitKind::Plaguetail,
        AbilityId::RallyTheSwarm => UnitKind::WarrenMarshal,
        AbilityId::ExpendableHeroism => UnitKind::WarrenMarshal,
        AbilityId::WhiskernetRelay => UnitKind::WarrenMarshal,
    }
}

/// Every unit kind has three distinct abilities, and each of them belongs to
/// that kind alone: no ability is shared between slots or between kinds.
pub proof fn lemma_unit_abilities_distinct(kind: UnitKind)
    ensures
        spec_unit_abilities(kind)@[0] != spec_unit_abilities(kind)@[1],
        spec_unit_abilities(kind)@[0] != spec_unit_abilities(kind)@[2],
        spec_unit_abilities(kind)@[1] != spec_unit_abilities(kind)@[2],
        forall|i: int| 0 <= i < 3 ==> ability_owner(#[trigger] spec_unit_abilities(kind)@[i]) == kind,
{
}

/// No two unit kinds share an ability.
pub proof fn lemma_unit_abilities_disjoint(k1: UnitKind, k2: UnitKind, i: int, j: int)
    requires
        0 <= i < 3,
        0 <= j < 3,
        spec_unit_abilities(k1)@[i] == spec_unit_abilities(k2)@[j],
    ensures
        k1 == k2,
        i == j,
{
    lemma_unit_abilities_distinct(k1);
    lemma_unit_abilities_distinct(k2);
}

} // verus!