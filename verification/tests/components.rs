//! Tests of `components`.

use cc_core::components::{AttackType, BuildingKind, DreamSiegeTimer, Faction, FrenzyStacks, NineLivesTracker, ProjectileKind, ResourceType, StatModifiers, StaticChargeStacks, StationaryTimer, StructuralWeaknessTimer, UnitKind, UpgradeType, WaveMember};

#[test]
fn resource_type_display_from_str_round_trip() {
    for rt in [
        ResourceType::Food,
        ResourceType::GpuCores,
        ResourceType::Nft,
    ] {
        let s = rt.to_string();
        let parsed: ResourceType = s.parse().unwrap();
        assert_eq!(parsed, rt);
    }
    assert!("Bogus".parse::<ResourceType>().is_err());
}

#[test]
fn building_kind_display_from_str_round_trip() {
    for kind in [
        BuildingKind::TheBox,
        BuildingKind::CatTree,
        BuildingKind::FishMarket,
        BuildingKind::LitterBox,
        BuildingKind::ServerRack,
        BuildingKind::ScratchingPost,
        BuildingKind::CatFlap,
        BuildingKind::LaserPointer,
        // The Clawed (Mice)
        BuildingKind::TheBurrow,
        BuildingKind::NestingBox,
        BuildingKind::SeedVault,
        BuildingKind::JunkTransmitter,
        BuildingKind::GnawLab,
        BuildingKind::WarrenExpansion,
        BuildingKind::Mousehole,
        BuildingKind::SqueakTower,
        // Seekers of the Deep (Badgers)
        BuildingKind::TheSett,
        BuildingKind::WarHollow,
        BuildingKind::BurrowDepot,
        BuildingKind::CoreTap,
        BuildingKind::ClawMarks,
        BuildingKind::DeepWarren,
        BuildingKind::BulwarkGate,
        BuildingKind::SlagThrower,
        // Croak (Axolotls)
        BuildingKind::TheGrotto,
        BuildingKind::SpawningPools,
        BuildingKind::LilyMarket,
        BuildingKind::SunkenServer,
        BuildingKind::FossilStones,
        BuildingKind::ReedBed,
        BuildingKind::TidalGate,
        BuildingKind::SporeTower,
        // LLAMA (Raccoons)
        BuildingKind::TheDumpster,
        BuildingKind::ScrapHeap,
        BuildingKind::ChopShop,
        BuildingKind::JunkServer,
        BuildingKind::TinkerBench,
        BuildingKind::TrashPile,
        BuildingKind::DumpsterRelay,
        BuildingKind::TetanusTower,
    ] {
        let s = kind.to_string();
        let parsed: BuildingKind = s.parse().unwrap();
        assert_eq!(parsed, kind);
    }
    assert!("Bogus".parse::<BuildingKind>().is_err());
}

#[test]
fn unit_kind_display_from_str_round_trip() {
    for kind in [
        UnitKind::Pawdler,
        UnitKind::Nuisance,
        UnitKind::Chonk,
        UnitKind::FlyingFox,
        UnitKind::Hisser,
        UnitKind::Yowler,
        UnitKind::Mouser,
        UnitKind::Catnapper,
        UnitKind::FerretSapper,
        UnitKind::MechCommander,
        // The Murder (Corvids)
        UnitKind::MurderScrounger,
        UnitKind::Sentinel,
        UnitKind::Rookclaw,
        UnitKind::Magpike,
        UnitKind::Magpyre,
        UnitKind::Jaycaller,
        UnitKind::Jayflicker,
        UnitKind::Dusktalon,
        UnitKind::Hootseer,
        UnitKind::CorvusRex,
        // Seekers of the Deep (Badgers)
        UnitKind::Delver,
        UnitKind::Ironhide,
        UnitKind::Cragback,
        UnitKind::Warden,
        UnitKind::Sapjaw,
        UnitKind::Wardenmother,
        UnitKind::SeekerTunneler,
        UnitKind::Embermaw,
        UnitKind::Dustclaw,
        UnitKind::Gutripper,
        // The Clawed (Mice)
        UnitKind::Nibblet,
        UnitKind::Swarmer,
        UnitKind::Gnawer,
        UnitKind::Shrieker,
        UnitKind::Tunneler,
        UnitKind::Sparks,
        UnitKind::Quillback,
        UnitKind::Whiskerwitch,
        UnitKind::Plaguetail,
        UnitKind::WarrenMarshal,
        // Croak (Axolotls)
        UnitKind::Ponderer,
        UnitKind::Regeneron,
        UnitKind::Broodmother,
        UnitKind::Gulper,
        UnitKind::Eftsaber,
        UnitKind::Croaker,
        UnitKind::Leapfrog,
        UnitKind::Shellwarden,
        UnitKind::Bogwhisper,
        UnitKind::MurkCommander,
        // LLAMA (Raccoons)
        UnitKind::Scrounger,
        UnitKind::Bandit,
        UnitKind::HeapTitan,
        UnitKind::GlitchRat,
        UnitKind::PatchPossum,
        UnitKind::GreaseMonkey,
        UnitKind::DeadDropUnit,
        UnitKind::Wrecker,
        UnitKind::DumpsterDiver,
        UnitKind::JunkyardKing,
    ] {
        let s = kind.to_string();
        let parsed: UnitKind = s.parse().unwrap();
        assert_eq!(parsed, kind);
    }
    assert!("Bogus".parse::<UnitKind>().is_err());
}

#[test]
fn attack_type_display_from_str_round_trip() {
    for at in [AttackType::Melee, AttackType::Ranged] {
        let s = at.to_string();
        let parsed: AttackType = s.parse().unwrap();
        assert_eq!(parsed, at);
    }
    assert!("Bogus".parse::<AttackType>().is_err());
}

#[test]
fn dream_siege_timer_defaults() {
    let timer = DreamSiegeTimer::default();
    assert_eq!(timer.ticks_on_target, 0);
    assert!(timer.current_target.is_none());
}

#[test]
fn stat_modifiers_cannot_attack_default_false() {
    let mods = StatModifiers::default();
    assert!(!mods.cannot_attack);
}

#[test]
fn faction_as_str_round_trip() {
    let factions = [
        Faction::Neutral,
        Faction::CatGpt,
        Faction::TheClawed,
        Faction::SeekersOfTheDeep,
        Faction::TheMurder,
        Faction::Llama,
        Faction::Croak,
    ];
    for f in factions {
        let s = f.as_str();
        let parsed = Faction::from_faction_str(s).unwrap();
        assert_eq!(parsed, f);
    }
}

#[test]
fn faction_display_matches_as_str() {
    for f in [Faction::CatGpt, Faction::Llama, Faction::Croak] {
        assert_eq!(f.to_string(), f.as_str());
    }
}

#[test]
fn faction_from_unknown_returns_none() {
    assert!(Faction::from_faction_str("bogus").is_none());
}

#[test]
fn nine_lives_tracker_default() {
    let tracker = NineLivesTracker::default();
    assert_eq!(tracker.last_triggered_tick, 0);
}

#[test]
fn wave_member_stores_wave_id() {
    let wm = WaveMember {
        wave_id: "wave_1".into(),
    };
    assert_eq!(wm.wave_id, "wave_1");
}

#[test]
fn structural_weakness_timer_default() {
    let timer = StructuralWeaknessTimer::default();
    assert_eq!(timer.stacks, 0);
    assert!(timer.target_entity.is_none());
}

#[test]
fn static_charge_stacks_default() {
    let stacks = StaticChargeStacks::default();
    assert_eq!(stacks.stacks, 0);
}

#[test]
fn upgrade_type_clawed_round_trip() {
    for ut in [
        UpgradeType::SharperTeeth,
        UpgradeType::ThickerHide,
        UpgradeType::QuickPaws,
        UpgradeType::AdvancedGnawing,
        UpgradeType::WarrenProtocol,
    ] {
        let s = ut.to_string();
        let parsed: UpgradeType = s.parse().unwrap();
        assert_eq!(parsed, ut);
    }
}

#[test]
fn upgrade_type_seekers_round_trip() {
    for ut in [
        UpgradeType::SharperFangs,
        UpgradeType::ReinforcedHide,
        UpgradeType::SteadyStance,
        UpgradeType::SiegeEngineering,
        UpgradeType::ExosuitPrototype,
    ] {
        let s = ut.to_string();
        let parsed: UpgradeType = s.parse().unwrap();
        assert_eq!(parsed, ut);
    }
}

#[test]
fn seekers_faction_components_defaults() {
    let timer = StationaryTimer::default();
    assert_eq!(timer.ticks_stationary, 0);
    assert!(!timer.dug_in);

    let stacks = FrenzyStacks::default();
    assert_eq!(stacks.current_stacks, 0);
    assert_eq!(stacks.frozen_until_tick, 0);
}

#[test]
fn is_worker_identifies_all_faction_workers() {
    let workers = [
        UnitKind::Pawdler,
        UnitKind::MurderScrounger,
        UnitKind::Delver,
        UnitKind::Nibblet,
        UnitKind::Ponderer,
        UnitKind::Scrounger,
    ];
    for w in &workers {
        assert!(w.is_worker(), "{:?} should be a worker", w);
    }
}

#[test]
fn is_worker_rejects_combat_units() {
    let non_workers = [
        UnitKind::Nuisance,
        UnitKind::Chonk,
        UnitKind::FlyingFox,
        UnitKind::Hisser,
        UnitKind::Sentinel,
        UnitKind::Rookclaw,
        UnitKind::Swarmer,
        UnitKind::Regeneron,
        UnitKind::Bandit,
        UnitKind::Ironhide,
    ];
    for u in &non_workers {
        assert!(!u.is_worker(), "{:?} should not be a worker", u);
    }
}

#[test]
fn is_hq_identifies_all_faction_hqs() {
    let hqs = [
        BuildingKind::TheBox,
        BuildingKind::TheParliament,
        BuildingKind::TheBurrow,
        BuildingKind::TheSett,
        BuildingKind::TheGrotto,
        BuildingKind::TheDumpster,
    ];
    for h in &hqs {
        assert!(h.is_hq(), "{:?} should be an HQ", h);
    }
    // Non-HQ buildings
    assert!(!BuildingKind::CatTree.is_hq());
    assert!(!BuildingKind::LitterBox.is_hq());
    assert!(!BuildingKind::Rookery.is_hq());
}

#[test]
fn projectile_kind_default_is_generic() {
    assert_eq!(ProjectileKind::default(), ProjectileKind::Generic);
}

#[test]
fn projectile_kind_from_unit_kind_hisser_is_spit() {
    assert_eq!(
        ProjectileKind::from_unit_kind(UnitKind::Hisser),
        ProjectileKind::Spit
    );
}

#[test]
fn projectile_kind_from_unit_kind_yowler_is_sonic() {
    assert_eq!(
        ProjectileKind::from_unit_kind(UnitKind::Yowler),
        ProjectileKind::SonicWave
    );
}

#[test]
fn projectile_kind_from_unit_kind_mech_is_mechshot() {
    assert_eq!(
        ProjectileKind::from_unit_kind(UnitKind::MechCommander),
        ProjectileKind::MechShot
    );
}

#[test]
fn projectile_kind_from_unit_kind_catnapper_is_explosive() {
    assert_eq!(
        ProjectileKind::from_unit_kind(UnitKind::Catnapper),
        ProjectileKind::Explosive
    );
}

#[test]
fn projectile_kind_from_unit_kind_generic_fallback() {
    assert_eq!(
        ProjectileKind::from_unit_kind(UnitKind::FlyingFox),
        ProjectileKind::Generic
    );
    assert_eq!(
        ProjectileKind::from_unit_kind(UnitKind::Pawdler),
        ProjectileKind::Generic
    );
}

#[test]
fn projectile_kind_from_hero_units() {
    // All hero units should get MechShot
    assert_eq!(
        ProjectileKind::from_unit_kind(UnitKind::CorvusRex),
        ProjectileKind::MechShot
    );
    assert_eq!(
        ProjectileKind::from_unit_kind(UnitKind::MurkCommander),
        ProjectileKind::MechShot
    );
    assert_eq!(
        ProjectileKind::from_unit_kind(UnitKind::Wardenmother),
        ProjectileKind::MechShot
    );
    assert_eq!(
        ProjectileKind::from_unit_kind(UnitKind::JunkyardKing),
        ProjectileKind::MechShot
    );
    assert_eq!(
        ProjectileKind::from_unit_kind(UnitKind::WarrenMarshal),
        ProjectileKind::MechShot
    );
}

#[test]
fn projectile_kind_equality() {
    assert_eq!(ProjectileKind::Spit, ProjectileKind::Spit);
    assert_ne!(ProjectileKind::Spit, ProjectileKind::LaserBeam);
}
