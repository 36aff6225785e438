//! Tests of `abilities`.

use cc_core::abilities::{AbilityActivation, AbilityDef, AbilityId, ability_def, dream_siege_multiplier, unit_abilities};
use cc_core::components::{UnitKind};
use cc_core::math::{Fixed};

/// All AbilityId variants have a valid AbilityDef.
#[test]
fn all_ability_defs_valid() {
    let all_ids = [
        // catGPT (30)
        AbilityId::OpportunisticHoarder,
        AbilityId::SpiteCarry,
        AbilityId::Revulsion,
        AbilityId::AnnoyanceStacks,
        AbilityId::Hairball,
        AbilityId::Zoomies,
        AbilityId::GravitationalChonk,
        AbilityId::LoafMode,
        AbilityId::NineLives,
        AbilityId::EcholocationPulse,
        AbilityId::FruitDrop,
        AbilityId::Disoriented,
        AbilityId::CorrosiveSpit,
        AbilityId::DisgustMortar,
        AbilityId::Misinformation,
        AbilityId::HarmonicResonance,
        AbilityId::DissonantScreech,
        AbilityId::Lullaby,
        AbilityId::Tagged,
        AbilityId::DeadDrop,
        AbilityId::ShadowNetwork,
        AbilityId::DreamSiege,
        AbilityId::ContagiousYawning,
        AbilityId::SiegeNap,
        AbilityId::ShapedCharge,
        AbilityId::BoobyTrap,
        AbilityId::TunnelNetwork,
        AbilityId::TacticalUplink,
        AbilityId::Override,
        AbilityId::LeChatUplink,
        // LLAMA (30)
        AbilityId::DumpsterDiveAbility,
        AbilityId::PocketStash,
        AbilityId::PlayDead,
        AbilityId::StickyFingers,
        AbilityId::JuryRig,
        AbilityId::Getaway,
        AbilityId::ScrapArmorAbility,
        AbilityId::WreckBall,
        AbilityId::MagneticPulse,
        AbilityId::CableGnaw,
        AbilityId::SignalScramble,
        AbilityId::TunnelRat,
        AbilityId::DuctTapeFix,
        AbilityId::SalvageResurrection,
        AbilityId::FeignDeath,
        AbilityId::JunkLauncher,
        AbilityId::SalvageTurret,
        AbilityId::JunkMortarMode,
        AbilityId::Eavesdrop,
        AbilityId::TrashHeapAmbush,
        AbilityId::LeakInjection,
        AbilityId::Disassemble,
        AbilityId::PryBar,
        AbilityId::ChainBreak,
        AbilityId::TreasureTrash,
        AbilityId::RefuseShield,
        AbilityId::StenchCloudAbility,
        AbilityId::OpenSourceUplinkAbility,
        AbilityId::FrankensteinProtocol,
        AbilityId::OverclockCascade,
        // Murder (30)
        AbilityId::TrinketStash,
        AbilityId::Scavenge,
        AbilityId::MimicCall,
        AbilityId::Glintwatch,
        AbilityId::Overwatch,
        AbilityId::EvasiveAscent,
        AbilityId::TalonDive,
        AbilityId::MurdersMark,
        AbilityId::CarrionInstinct,
        AbilityId::Pilfer,
        AbilityId::GlitterBomb,
        AbilityId::TrinketWard,
        AbilityId::SignalJam,
        AbilityId::DecoyNest,
        AbilityId::Rewire,
        AbilityId::MurderRallyCry,
        AbilityId::AlarmCall,
        AbilityId::Cacophony,
        AbilityId::PhantomFlock,
        AbilityId::MirrorPosition,
        AbilityId::Refraction,
        AbilityId::Nightcloak,
        AbilityId::SilentStrike,
        AbilityId::PreySense,
        AbilityId::PanopticGaze,
        AbilityId::DreadAuraAbility,
        AbilityId::DeathOmen,
        AbilityId::CorvidNetworkAbility,
        AbilityId::AllSeeingLie,
        AbilityId::OculusUplinkAbility,
        // Croak (30)
        AbilityId::AmbientGathering,
        AbilityId::MucusTrail,
        AbilityId::ExistentialDread,
        AbilityId::LimbToss,
        AbilityId::RegrowthBurst,
        AbilityId::PhantomLimb,
        AbilityId::SpawnPool,
        AbilityId::Transfusion,
        AbilityId::PrimordialSoup,
        AbilityId::Devour,
        AbilityId::Regurgitate,
        AbilityId::Bottomless,
        AbilityId::ToxicSkin,
        AbilityId::Waterway,
        AbilityId::Venomstrike,
        AbilityId::BogMortar,
        AbilityId::ResonanceChain,
        AbilityId::Inflate,
        AbilityId::Hop,
        AbilityId::TongueLash,
        AbilityId::Slipstream,
        AbilityId::HunkerAbility,
        AbilityId::AncientMossAbility,
        AbilityId::TidalMemory,
        AbilityId::MireCurse,
        AbilityId::ProphecyAbility,
        AbilityId::BogSongAbility,
        AbilityId::UndyingPresenceAbility,
        AbilityId::GrokProtocol,
        AbilityId::MurkUplinkAbility,
        // Seekers (30)
        AbilityId::SubterraneanHaul,
        AbilityId::Earthsense,
        AbilityId::EmergencyBurrow,
        AbilityId::Unbowed,
        AbilityId::ShieldWall,
        AbilityId::GrudgeCharge,
        AbilityId::BoulderBarrage,
        AbilityId::Entrench,
        AbilityId::SeismicSlam,
        AbilityId::VigilanceAura,
        AbilityId::Intercept,
        AbilityId::RallyCry,
        AbilityId::ArmorRend,
        AbilityId::PatientStrike,
        AbilityId::Lockjaw,
        AbilityId::DeepseekUplink,
        AbilityId::FortressProtocol,
        AbilityId::CalculatedCounterstrike,
        AbilityId::DeepBore,
        AbilityId::Undermine,
        AbilityId::TremorNetwork,
        AbilityId::MoltenShot,
        AbilityId::FuelReserve,
        AbilityId::ScorchedEarth,
        AbilityId::DustCloud,
        AbilityId::AmbushInstinct,
        AbilityId::SentryBurrow,
        AbilityId::Frenzy,
        AbilityId::Bloodgreed,
        AbilityId::RecklessLunge,
        // The Clawed (30)
        AbilityId::CrumbTrail,
        AbilityId::StashNetwork,
        AbilityId::PanicProductivity,
        AbilityId::SafetyInNumbers,
        AbilityId::PileOn,
        AbilityId::Scatter,
        AbilityId::StructuralWeakness,
        AbilityId::ChewThrough,
        AbilityId::IncisorsNeverStop,
        AbilityId::SonicSpit,
        AbilityId::EcholocationPing,
        AbilityId::SonicBarrage,
        AbilityId::BurrowExpress,
        AbilityId::BurrowUndermine,
        AbilityId::SwarmTremorSense,
        AbilityId::StaticCharge,
        AbilityId::ShortCircuit,
        AbilityId::DaisyChain,
        AbilityId::SpineWall,
        AbilityId::QuillBurst,
        AbilityId::StubbornAdvance,
        AbilityId::HexOfMultiplication,
        AbilityId::WhiskerWeave,
        AbilityId::DatacromanticRitual,
        AbilityId::ContagionCloud,
        AbilityId::MiasmaTrail,
        AbilityId::SympathySickness,
        AbilityId::RallyTheSwarm,
        AbilityId::ExpendableHeroism,
        AbilityId::WhiskernetRelay,
    ];
    assert_eq!(all_ids.len(), 180);
    for id in all_ids {
        let def = ability_def(id);
        assert_eq!(def.id, id, "{id:?} def should match its id");
    }
}

/// Every unit kind returns exactly 3 distinct abilities.
#[test]
fn unit_abilities_returns_three_per_kind() {
    let kinds = [
        // catGPT
        UnitKind::Pawdler,
        UnitKind::Nuisance,
        UnitKind::Chonk,
        UnitKind::FlyingFox,
        UnitKind::Hisser,
        UnitKind::Yowler,
        UnitKind::Mouser,
        UnitKind::Catnapper,
        UnitKind::FerretSapper,
        UnitKind::MechCommander,
        // LLAMA
        UnitKind::Scrounger,
        UnitKind::Bandit,
        UnitKind::HeapTitan,
        UnitKind::GlitchRat,
        UnitKind::PatchPossum,
        UnitKind::GreaseMonkey,
        UnitKind::DeadDropUnit,
        UnitKind::Wrecker,
        UnitKind::DumpsterDiver,
        UnitKind::JunkyardKing,
        // Murder
        UnitKind::MurderScrounger,
        UnitKind::Sentinel,
        UnitKind::Rookclaw,
        UnitKind::Magpike,
        UnitKind::Magpyre,
        UnitKind::Jaycaller,
        UnitKind::Jayflicker,
        UnitKind::Dusktalon,
        UnitKind::Hootseer,
        UnitKind::CorvusRex,
        // Croak
        UnitKind::Ponderer,
        UnitKind::Regeneron,
        UnitKind::Broodmother,
        UnitKind::Gulper,
        UnitKind::Eftsaber,
        UnitKind::Croaker,
        UnitKind::Leapfrog,
        UnitKind::Shellwarden,
        UnitKind::Bogwhisper,
        UnitKind::MurkCommander,
        // Seekers
        UnitKind::Delver,
        UnitKind::Ironhide,
        UnitKind::Cragback,
        UnitKind::Warden,
        UnitKind::Sapjaw,
        UnitKind::Wardenmother,
        UnitKind::SeekerTunneler,
        UnitKind::Embermaw,
        UnitKind::Dustclaw,
        UnitKind::Gutripper,
        // The Clawed
        UnitKind::Nibblet,
        UnitKind::Swarmer,
        UnitKind::Gnawer,
        UnitKind::Shrieker,
        UnitKind::Tunneler,
        UnitKind::Sparks,
        UnitKind::Quillback,
        UnitKind::Whiskerwitch,
        UnitKind::Plaguetail,
        UnitKind::WarrenMarshal,
    ];
    for kind in kinds {
        let abilities = unit_abilities(kind);
        assert_eq!(abilities.len(), 3, "{kind:?} should have 3 abilities");
        // All three should be distinct
        assert_ne!(
            abilities[0], abilities[1],
            "{kind:?} abilities should be distinct"
        );
        assert_ne!(
            abilities[1], abilities[2],
            "{kind:?} abilities should be distinct"
        );
        assert_ne!(
            abilities[0], abilities[2],
            "{kind:?} abilities should be distinct"
        );
    }
}

/// Passive abilities have zero cooldown.
#[test]
fn passive_abilities_no_cooldown() {
    let passives = [
        // catGPT
        AbilityId::OpportunisticHoarder,
        AbilityId::AnnoyanceStacks,
        AbilityId::GravitationalChonk,
        AbilityId::CorrosiveSpit,
        AbilityId::DreamSiege,
        // Murder
        AbilityId::TrinketStash,
        AbilityId::Glintwatch,
        AbilityId::MurdersMark,
        AbilityId::CarrionInstinct,
        AbilityId::TrinketWard,
        AbilityId::Nightcloak,
        AbilityId::PreySense,
        AbilityId::DreadAuraAbility,
        AbilityId::CorvidNetworkAbility,
        AbilityId::OculusUplinkAbility,
        // LLAMA
        AbilityId::DumpsterDiveAbility,
        AbilityId::PocketStash,
        AbilityId::StickyFingers,
        AbilityId::ScrapArmorAbility,
        AbilityId::TunnelRat,
        AbilityId::JunkLauncher,
        AbilityId::Eavesdrop,
        AbilityId::Disassemble,
        AbilityId::TreasureTrash,
        AbilityId::OpenSourceUplinkAbility,
        // Croak
        AbilityId::AmbientGathering,
        AbilityId::MucusTrail,
        AbilityId::PhantomLimb,
        AbilityId::Bottomless,
        AbilityId::ToxicSkin,
        AbilityId::BogMortar,
        AbilityId::ResonanceChain,
        AbilityId::Slipstream,
        AbilityId::AncientMossAbility,
        AbilityId::BogSongAbility,
        AbilityId::UndyingPresenceAbility,
        AbilityId::MurkUplinkAbility,
    ];
    for id in passives {
        let def = ability_def(id);
        assert_eq!(
            def.activation,
            AbilityActivation::Passive,
            "{id:?} should be passive"
        );
        assert_eq!(
            def.cooldown_ticks, 0,
            "{id:?} passive should have 0 cooldown"
        );
    }
}

/// Toggle abilities have short cooldowns to prevent spam.
#[test]
fn toggle_abilities_have_cooldown() {
    let toggles = [
        AbilityId::LoafMode,
        AbilityId::HarmonicResonance,
        AbilityId::Lullaby,
        AbilityId::TacticalUplink,
        AbilityId::SiegeNap,
        // Murder
        AbilityId::Overwatch,
        AbilityId::PanopticGaze,
        // LLAMA
        AbilityId::JunkMortarMode,
        // Croak
        AbilityId::HunkerAbility,
    ];
    for id in toggles {
        let def = ability_def(id);
        assert_eq!(
            def.activation,
            AbilityActivation::Toggle,
            "{id:?} should be toggle"
        );
        assert!(def.cooldown_ticks > 0, "{id:?} toggle should have cooldown");
    }
}

/// Activated abilities have nonzero cooldown.
#[test]
fn activated_abilities_have_cooldown() {
    let activated = [
        // catGPT
        AbilityId::SpiteCarry,
        AbilityId::Hairball,
        AbilityId::Zoomies,
        AbilityId::EcholocationPulse,
        AbilityId::DisgustMortar,
        AbilityId::DissonantScreech,
        AbilityId::Override,
        // LLAMA
        AbilityId::PlayDead,
        AbilityId::JuryRig,
        AbilityId::Getaway,
        AbilityId::WreckBall,
        AbilityId::MagneticPulse,
        AbilityId::CableGnaw,
        AbilityId::SignalScramble,
        AbilityId::DuctTapeFix,
        AbilityId::SalvageResurrection,
        AbilityId::SalvageTurret,
        AbilityId::TrashHeapAmbush,
        AbilityId::LeakInjection,
        AbilityId::PryBar,
        AbilityId::ChainBreak,
        AbilityId::RefuseShield,
        AbilityId::StenchCloudAbility,
        AbilityId::FrankensteinProtocol,
        AbilityId::OverclockCascade,
        // Clawed
        AbilityId::SonicBarrage,
        // Murder
        AbilityId::Scavenge,
        AbilityId::MimicCall,
        AbilityId::TalonDive,
        AbilityId::Pilfer,
        AbilityId::GlitterBomb,
        AbilityId::SignalJam,
        AbilityId::DecoyNest,
        AbilityId::Rewire,
        AbilityId::MurderRallyCry,
        AbilityId::Cacophony,
        AbilityId::PhantomFlock,
        AbilityId::MirrorPosition,
        AbilityId::SilentStrike,
        AbilityId::DeathOmen,
        AbilityId::AllSeeingLie,
        // Croak
        AbilityId::LimbToss,
        AbilityId::RegrowthBurst,
        AbilityId::PrimordialSoup,
        AbilityId::Devour,
        AbilityId::Regurgitate,
        AbilityId::Waterway,
        AbilityId::Venomstrike,
        AbilityId::Inflate,
        AbilityId::Hop,
        AbilityId::TongueLash,
        AbilityId::TidalMemory,
        AbilityId::MireCurse,
        AbilityId::ProphecyAbility,
        AbilityId::GrokProtocol,
    ];
    for id in activated {
        let def = ability_def(id);
        assert_eq!(
            def.activation,
            AbilityActivation::Activated,
            "{id:?} should be activated"
        );
        assert!(
            def.cooldown_ticks > 0,
            "{id:?} activated should have cooldown"
        );
    }
}

#[test]
fn dream_siege_multiplier_tiers() {
    assert_eq!(dream_siege_multiplier(0), Fixed::one());
    assert_eq!(dream_siege_multiplier(49), Fixed::one());
    assert_eq!(dream_siege_multiplier(50), Fixed::from_int(2));
    assert_eq!(dream_siege_multiplier(149), Fixed::from_int(2));
    assert_eq!(dream_siege_multiplier(150), Fixed::from_int(4));
    assert_eq!(dream_siege_multiplier(299), Fixed::from_int(4));
    assert_eq!(dream_siege_multiplier(300), Fixed::from_int(8));
    assert_eq!(dream_siege_multiplier(1000), Fixed::from_int(8));
}

// --- Murder ability tests ---

#[test]
fn all_murder_ability_defs_valid() {
    let murder_ids = [
        AbilityId::TrinketStash,
        AbilityId::Scavenge,
        AbilityId::MimicCall,
        AbilityId::Glintwatch,
        AbilityId::Overwatch,
        AbilityId::EvasiveAscent,
        AbilityId::TalonDive,
        AbilityId::MurdersMark,
        AbilityId::CarrionInstinct,
        AbilityId::Pilfer,
        AbilityId::GlitterBomb,
        AbilityId::TrinketWard,
        AbilityId::SignalJam,
        AbilityId::DecoyNest,
        AbilityId::Rewire,
        AbilityId::MurderRallyCry,
        AbilityId::AlarmCall,
        AbilityId::Cacophony,
        AbilityId::PhantomFlock,
        AbilityId::MirrorPosition,
        AbilityId::Refraction,
        AbilityId::Nightcloak,
        AbilityId::SilentStrike,
        AbilityId::PreySense,
        AbilityId::PanopticGaze,
        AbilityId::DreadAuraAbility,
        AbilityId::DeathOmen,
        AbilityId::CorvidNetworkAbility,
        AbilityId::AllSeeingLie,
        AbilityId::OculusUplinkAbility,
    ];
    assert_eq!(murder_ids.len(), 30);
    for id in murder_ids {
        let def = ability_def(id);
        assert_eq!(def.id, id, "{id:?} def should match its id");
    }
}

#[test]
fn murder_unit_abilities_returns_three() {
    let kinds = [
        UnitKind::MurderScrounger,
        UnitKind::Sentinel,
        UnitKind::Rookclaw,
        UnitKind::Magpike,
        UnitKind::Magpyre,
        UnitKind::Jaycaller,
        UnitKind::Jayflicker,
        UnitKind::Dusktalon,
        UnitKind::Hootseer,
        UnitKind::CorvusRex,
    ];
    for kind in kinds {
        let abilities = unit_abilities(kind);
        assert_eq!(abilities.len(), 3, "{kind:?} should have 3 abilities");
        assert_ne!(
            abilities[0], abilities[1],
            "{kind:?} abilities should be distinct"
        );
        assert_ne!(
            abilities[1], abilities[2],
            "{kind:?} abilities should be distinct"
        );
        assert_ne!(
            abilities[0], abilities[2],
            "{kind:?} abilities should be distinct"
        );
    }
}

#[test]
fn murder_toggle_abilities_have_cooldown() {
    let toggles = [AbilityId::Overwatch, AbilityId::PanopticGaze];
    for id in toggles {
        let def = ability_def(id);
        assert_eq!(
            def.activation,
            AbilityActivation::Toggle,
            "{id:?} should be toggle"
        );
        assert!(def.cooldown_ticks > 0, "{id:?} toggle should have cooldown");
    }
}

#[test]
fn murder_passive_abilities_no_cooldown() {
    let passives = [
        AbilityId::TrinketStash,
        AbilityId::Glintwatch,
        AbilityId::MurdersMark,
        AbilityId::CarrionInstinct,
        AbilityId::TrinketWard,
        AbilityId::Nightcloak,
        AbilityId::PreySense,
        AbilityId::DreadAuraAbility,
        AbilityId::CorvidNetworkAbility,
        AbilityId::OculusUplinkAbility,
    ];
    for id in passives {
        let def = ability_def(id);
        assert_eq!(
            def.activation,
            AbilityActivation::Passive,
            "{id:?} should be passive"
        );
        assert_eq!(
            def.cooldown_ticks, 0,
            "{id:?} passive should have 0 cooldown"
        );
    }
}

// --- Seekers of the Deep ability tests ---

#[test]
fn all_seekers_ability_defs_valid() {
    let seekers_ids = [
        AbilityId::SubterraneanHaul,
        AbilityId::Earthsense,
        AbilityId::EmergencyBurrow,
        AbilityId::Unbowed,
        AbilityId::ShieldWall,
        AbilityId::GrudgeCharge,
        AbilityId::BoulderBarrage,
        AbilityId::Entrench,
        AbilityId::SeismicSlam,
        AbilityId::VigilanceAura,
        AbilityId::Intercept,
        AbilityId::RallyCry,
        AbilityId::ArmorRend,
        AbilityId::PatientStrike,
        AbilityId::Lockjaw,
        AbilityId::DeepseekUplink,
        AbilityId::FortressProtocol,
        AbilityId::CalculatedCounterstrike,
        AbilityId::DeepBore,
        AbilityId::Undermine,
        AbilityId::TremorNetwork,
        AbilityId::MoltenShot,
        AbilityId::FuelReserve,
        AbilityId::ScorchedEarth,
        AbilityId::DustCloud,
        AbilityId::AmbushInstinct,
        AbilityId::SentryBurrow,
        AbilityId::Frenzy,
        AbilityId::Bloodgreed,
        AbilityId::RecklessLunge,
    ];
    assert_eq!(seekers_ids.len(), 30);
    for id in seekers_ids {
        let def = ability_def(id);
        assert_eq!(def.id, id, "{id:?} def should match its id");
    }
}

#[test]
fn seekers_unit_abilities_returns_three() {
    let kinds = [
        UnitKind::Delver,
        UnitKind::Ironhide,
        UnitKind::Cragback,
        UnitKind::Warden,
        UnitKind::Sapjaw,
        UnitKind::Wardenmother,
        UnitKind::SeekerTunneler,
        UnitKind::Embermaw,
        UnitKind::Dustclaw,
        UnitKind::Gutripper,
    ];
    for kind in kinds {
        let abilities = unit_abilities(kind);
        assert_eq!(abilities.len(), 3, "{kind:?} should have 3 abilities");
        assert_ne!(
            abilities[0], abilities[1],
            "{kind:?} abilities should be distinct"
        );
        assert_ne!(
            abilities[1], abilities[2],
            "{kind:?} abilities should be distinct"
        );
        assert_ne!(
            abilities[0], abilities[2],
            "{kind:?} abilities should be distinct"
        );
    }
}

#[test]
fn seekers_passive_abilities_no_cooldown() {
    let passives = [
        AbilityId::Earthsense,
        AbilityId::Unbowed,
        AbilityId::BoulderBarrage,
        AbilityId::VigilanceAura,
        AbilityId::ArmorRend,
        AbilityId::PatientStrike,
        AbilityId::DeepseekUplink,
        AbilityId::TremorNetwork,
        AbilityId::MoltenShot,
        AbilityId::FuelReserve,
        AbilityId::AmbushInstinct,
        AbilityId::Frenzy,
        AbilityId::Bloodgreed,
    ];
    for id in passives {
        let def = ability_def(id);
        assert_eq!(
            def.activation,
            AbilityActivation::Passive,
            "{id:?} should be passive"
        );
        assert_eq!(
            def.cooldown_ticks, 0,
            "{id:?} passive should have 0 cooldown"
        );
    }
}

#[test]
fn seekers_toggle_abilities_have_cooldown() {
    let toggles = [AbilityId::Entrench];
    for id in toggles {
        let def = ability_def(id);
        assert_eq!(
            def.activation,
            AbilityActivation::Toggle,
            "{id:?} should be toggle"
        );
        assert!(def.cooldown_ticks > 0, "{id:?} toggle should have cooldown");
    }
}

#[test]
fn fortress_protocol_is_expensive() {
    let def = ability_def(AbilityId::FortressProtocol);
    assert_eq!(def.activation, AbilityActivation::Activated);
    assert_eq!(def.gpu_cost, 10);
    assert_eq!(def.cooldown_ticks, 450);
    assert_eq!(def.duration_ticks, 200);
}
