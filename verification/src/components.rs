//! ECS component data and the game's core enums: factions, resources,
//! buildings, units, attacks, upgrades and per-unit state records.

use crate::abilities::{AbilityDef, AbilityId, spec_ability_def, ability_def};
use crate::commands::EntityId;
use crate::coords::{GridPos, WorldPos};
use crate::hero::HeroId;
use crate::math::Fixed;
use crate::text::{owned, str_eq};
use std::collections::VecDeque;
use vstd::prelude::*;

verus! {

/// Faction affiliations in the game world.
#[derive(Debug, Clone, Copy, PartialEq, Eq, Hash, Structural)]
pub enum Faction {
    /// Neutral / unaligned (e.g. Kelpie before joining a faction).
    Neutral,
    /// catGPT — cats led by AI "Geppity".
    CatGpt,
    /// The Clawed — mice led by AI "Claudeus Maximus".
    TheClawed,
    /// Seekers of the Deep — badgers led by AI "Deepseek".
    SeekersOfTheDeep,
    /// The Murder — corvids led by AI "Gemineye".
    TheMurder,
    /// LLAMA — raccoons led by AI "Llhama".
    Llama,
    /// Croak — axolotls led by AI "Grok".
    Croak,
}

impl Faction {
    /// The canonical faction name as text.
    pub open spec fn name_text(self) -> Seq<char> {
        match self {
            Faction::Neutral => "neutral"@,
            Faction::CatGpt => "catGPT"@,
            Faction::TheClawed => "The Clawed"@,
            Faction::SeekersOfTheDeep => "Seekers of the Deep"@,
            Faction::TheMurder => "The Murder"@,
            Faction::Llama => "LLAMA"@,
            Faction::Croak => "Croak"@,
        }
    }

    /// The canonical faction name.
    pub fn as_str(&self) -> (s: &'static str)
        ensures
            s@ == self.name_text(),
    {
        match self {
            Faction::Neutral => "neutral",
            Faction::CatGpt => "catGPT",
            Faction::TheClawed => "The Clawed",
            Faction::SeekersOfTheDeep => "Seekers of the Deep",
            Faction::TheMurder => "The Murder",
            Faction::Llama => "LLAMA",
            Faction::Croak => "Croak",
        }
    }

    /// The canonical faction name as an owned string (what `Display` would print).
    pub fn to_string(&self) -> (s: String)
        ensures
            s@ == self.name_text(),
    {
        owned(self.as_str())
    }

    /// The variant whose name is `s`, if any.
    pub open spec fn parse_text(s: Seq<char>) -> Option<Faction> {
        if s == Faction::Neutral.name_text() {
            Some(Faction::Neutral)
        } else if s == Faction::CatGpt.name_text() {
            Some(Faction::CatGpt)
        } else if s == Faction::TheClawed.name_text() {
            Some(Faction::TheClawed)
        } else if s == Faction::SeekersOfTheDeep.name_text() {
            Some(Faction::SeekersOfTheDeep)
        } else if s == Faction::TheMurder.name_text() {
            Some(Faction::TheMurder)
        } else if s == Faction::Llama.name_text() {
            Some(Faction::Llama)
        } else if s == Faction::Croak.name_text() {
            Some(Faction::Croak)
        } else {
            None
        }
    }

    /// Parses a name; `None` for any text that names no variant.
    pub fn from_faction_str(s: &str) -> (r: Option<Faction>)
        ensures
            r == Faction::parse_text(s@),
    {
        if str_eq(s, "neutral") {
            Some(Faction::Neutral)
        } else if str_eq(s, "catGPT") {
            Some(Faction::CatGpt)
        } else if str_eq(s, "The Clawed") {
            Some(Faction::TheClawed)
        } else if str_eq(s, "Seekers of the Deep") {
            Some(Faction::SeekersOfTheDeep)
        } else if str_eq(s, "The Murder") {
            Some(Faction::TheMurder)
        } else if str_eq(s, "LLAMA") {
            Some(Faction::Llama)
        } else if str_eq(s, "Croak") {
            Some(Faction::Croak)
        } else {
            None
        }
    }
}

/// Distinct variants of `Faction` have distinct names.
pub proof fn lemma_faction_names_distinct(t: Faction, u: Faction)
    ensures
        t.name_text() == u.name_text() ==> t == u,
{
    reveal_strlit("Croak");
    reveal_strlit("LLAMA");
    reveal_strlit("Seekers of the Deep");
    reveal_strlit("The Clawed");
    reveal_strlit("The Murder");
    reveal_strlit("catGPT");
    reveal_strlit("neutral");
    if t.name_text() == u.name_text() {
        assert(t.name_text().len() == u.name_text().len());
        assert(t.name_text()[0] == u.name_text()[0]);
        assert(t.name_text()[1] == u.name_text()[1]);
        assert(t.name_text()[2] == u.name_text()[2]);
        assert(t.name_text()[3] == u.name_text()[3]);
        assert(t.name_text()[4] == u.name_text()[4]);
    }
}

/// Every `Faction` parses back from its own name, and text that parses names the variant it parses to.
pub proof fn lemma_faction_name_round_trip(t: Faction, s: Seq<char>)
    ensures
        Faction::parse_text(t.name_text()) == Some(t),
        Faction::parse_text(s) matches Some(u) ==> u.name_text() == s,
{
    assert forall|a: Faction, b: Faction| a.name_text() == b.name_text() implies a == b by {
        lemma_faction_names_distinct(a, b);
    }
    lemma_faction_names_distinct(t, Faction::Neutral);
    lemma_faction_names_distinct(t, Faction::CatGpt);
    lemma_faction_names_distinct(t, Faction::TheClawed);
    lemma_faction_names_distinct(t, Faction::SeekersOfTheDeep);
    lemma_faction_names_distinct(t, Faction::TheMurder);
    lemma_faction_names_distinct(t, Faction::Llama);
    lemma_faction_names_distinct(t, Faction::Croak);
}

/// Resource types in the game economy.
#[derive(Debug, Clone, Copy, PartialEq, Eq, Hash, Structural)]
pub enum ResourceType {
    Food,
    GpuCores,
    Nft,
}

impl ResourceType {
    /// The variant's name as text.
    pub open spec fn name_text(self) -> Seq<char> {
        match self {
            ResourceType::Food => "Food"@,
            ResourceType::GpuCores => "GpuCores"@,
            ResourceType::Nft => "Nft"@,
        }
    }

    /// The variant's name.
    pub fn name(&self) -> (s: &'static str)
        ensures
            s@ == self.name_text(),
    {
        match self {
            ResourceType::Food => "Food",
            ResourceType::GpuCores => "GpuCores",
            ResourceType::Nft => "Nft",
        }
    }

    /// The variant's name as an owned string (what `Display` would print).
    pub fn to_string(&self) -> (s: String)
        ensures
            s@ == self.name_text(),
    {
        owned(self.name())
    }

    /// The variant whose name is `s`, if any.
    pub open spec fn parse_text(s: Seq<char>) -> Option<ResourceType> {
        if s == ResourceType::Food.name_text() {
            Some(ResourceType::Food)
        } else if s == ResourceType::GpuCores.name_text() {
            Some(ResourceType::GpuCores)
        } else if s == ResourceType::Nft.name_text() {
            Some(ResourceType::Nft)
        } else {
            None
        }
    }

    /// Parses a name; `None` for any text that names no variant.
    pub fn parse_name(s: &str) -> (r: Option<ResourceType>)
        ensures
            r == ResourceType::parse_text(s@),
    {
        if str_eq(s, "Food") {
            Some(ResourceType::Food)
        } else if str_eq(s, "GpuCores") {
            Some(ResourceType::GpuCores)
        } else if str_eq(s, "Nft") {
            Some(ResourceType::Nft)
        } else {
            None
        }
    }
}

/// Distinct variants of `ResourceType` have distinct names.
pub proof fn lemma_resource_type_names_distinct(t: ResourceType, u: ResourceType)
    ensures
        t.name_text() == u.name_text() ==> t == u,
{
    reveal_strlit("Food");
    reveal_strlit("GpuCores");
    reveal_strlit("Nft");
    if t.name_text() == u.name_text() {
        assert(t.name_text().len() == u.name_text().len());
    }
}

/// Every `ResourceType` parses back from its own name, and text that parses names the variant it parses to.
pub proof fn lemma_resource_type_name_round_trip(t: ResourceType, s: Seq<char>)
    ensures
        ResourceType::parse_text(t.name_text()) == Some(t),
        ResourceType::parse_text(s) matches Some(u) ==> u.name_text() == s,
{
    assert forall|a: ResourceType, b: ResourceType| a.name_text() == b.name_text() implies a == b by {
        lemma_resource_type_names_distinct(a, b);
    }
    lemma_resource_type_names_distinct(t, ResourceType::Food);
    lemma_resource_type_names_distinct(t, ResourceType::GpuCores);
    lemma_resource_type_names_distinct(t, ResourceType::Nft);
}

impl std::str::FromStr for ResourceType {
    type Err = ();

    fn from_str(s: &str) -> (r: Result<ResourceType, ()>)
        ensures
            r == (match ResourceType::parse_text(s@) {
                Some(t) => Ok(t),
                None => Err(()),
            }),
    {
        match ResourceType::parse_name(s) {
            Some(t) => Ok(t),
            None => Err(()),
        }
    }
}

/// Building types for the cat faction.
#[derive(Debug, Clone, Copy, PartialEq, Eq, Hash, Structural)]
pub enum BuildingKind {
    /// HQ — pre-built, produces Pawdler, resource drop-off.
    TheBox,
    /// Barracks — produces basic combat units (Nuisance, Hisser, Chonk, Yowler).
    CatTree,
    /// Resource drop-off + slight gather bonus.
    FishMarket,
    /// Supply depot — increases supply cap.
    LitterBox,
    /// Advanced tech building — produces FlyingFox, Mouser, Catnapper, FerretSapper, MechCommander.
    ServerRack,
    /// Research building — upgrades (SharperClaws, ThickerFur, etc.).
    ScratchingPost,
    /// Garrison building — units enter for protection (garrison mechanic deferred).
    CatFlap,
    /// Defensive tower — auto-attacks enemies in range.
    LaserPointer,
    // --- The Murder (Corvids) ---
    /// HQ — pre-built, produces MurderScrounger, command center.
    TheParliament,
    /// Barracks — produces Sentinel, Rookclaw, Magpike, Jaycaller.
    Rookery,
    /// Resource depot — food storage.
    CarrionCache,
    /// Tech building — produces Magpyre, Jayflicker, Dusktalon, Hootseer, CorvusRex.
    AntennaArray,
    /// Research building — upgrades, unique (limit 1).
    Panopticon,
    /// Supply depot — increases supply cap.
    NestBox,
    /// Defensive wall — blocks ground, cheap and fast.
    ThornHedge,
    /// Defense tower — long-range ranged auto-attack.
    Watchtower,
    // --- The Clawed (Mice) ---
    /// HQ (Clawed) — pre-built, produces Nibblet, resource drop-off.
    TheBurrow,
    /// Barracks (Clawed) — produces Swarmer, Gnawer, Plaguetail, Sparks.
    NestingBox,
    /// Resource drop-off + food storage.
    SeedVault,
    /// Tech building (Clawed) — produces Shrieker, Tunneler, Quillback, Whiskerwitch, WarrenMarshal.
    JunkTransmitter,
    /// Research building (Clawed) — upgrades.
    GnawLab,
    /// Supply depot (Clawed) — increases supply cap.
    WarrenExpansion,
    /// Garrison building (Clawed) — units enter for protection.
    Mousehole,
    /// Defensive tower (Clawed) — auto-attacks enemies in range.
    SqueakTower,
    // --- Seekers of the Deep (Badgers) ---
    TheSett,
    WarHollow,
    BurrowDepot,
    CoreTap,
    ClawMarks,
    DeepWarren,
    BulwarkGate,
    SlagThrower,
    // --- Croak (Axolotls) ---
    /// HQ (Croak) — pre-built, produces Ponderer.
    TheGrotto,
    /// Barracks (Croak) — produces Regeneron, Croaker, Leapfrog, Gulper.
    SpawningPools,
    /// Resource Depot (Croak) — food drop-off.
    LilyMarket,
    /// Tech Building (Croak) — produces Eftsaber, Broodmother, Shellwarden, Bogwhisper, MurkCommander.
    SunkenServer,
    /// Research (Croak) — Croak-specific upgrades.
    FossilStones,
    /// Supply Depot (Croak) — increases supply cap.
    ReedBed,
    /// Garrison/Gate (Croak) — units enter for protection.
    TidalGate,
    /// Defense Tower (Croak) — applies Waterlogged, DoT.
    SporeTower,
    // --- LLAMA (Raccoons) ---
    TheDumpster,   // HQ (LLAMA) — pre-built, produces Scrounger
    ScrapHeap,     // Resource Depot (LLAMA) — food/scrap storage
    ChopShop,      // Barracks (LLAMA) — trains Bandit, Wrecker, HeapTitan, GreaseMonkey
    JunkServer,    // Tech Building (LLAMA) — produces GlitchRat, PatchPossum
    TinkerBench,   // Research (LLAMA) — produces DeadDropUnit, DumpsterDiver, JunkyardKing
    TrashPile,     // Supply Depot (LLAMA) — increases supply cap
    DumpsterRelay, // Comms Tower (LLAMA) — reduces leak chance, +3 vision
    TetanusTower,  // Defense Tower (LLAMA) — shoots rusty nails, applies Corroded
}

impl BuildingKind {
    /// The variant's name as text.
    pub open spec fn name_text(self) -> Seq<char> {
        match self {
            BuildingKind::TheBox => "TheBox"@,
            BuildingKind::CatTree => "CatTree"@,
            BuildingKind::FishMarket => "FishMarket"@,
            BuildingKind::LitterBox => "LitterBox"@,
            BuildingKind::ServerRack => "ServerRack"@,
            BuildingKind::ScratchingPost => "ScratchingPost"@,
            BuildingKind::CatFlap => "CatFlap"@,
            BuildingKind::LaserPointer => "LaserPointer"@,
            BuildingKind::TheParliament => "TheParliament"@,
            BuildingKind::Rookery => "Rookery"@,
            BuildingKind::CarrionCache => "CarrionCache"@,
            BuildingKind::AntennaArray => "AntennaArray"@,
            BuildingKind::Panopticon => "Panopticon"@,
            BuildingKind::NestBox => "NestBox"@,
            BuildingKind::ThornHedge => "ThornHedge"@,
            BuildingKind::Watchtower => "Watchtower"@,
            BuildingKind::TheBurrow => "TheBurrow"@,
            BuildingKind::NestingBox => "NestingBox"@,
            BuildingKind::SeedVault => "SeedVault"@,
            BuildingKind::JunkTransmitter => "JunkTransmitter"@,
            BuildingKind::GnawLab => "GnawLab"@,
            BuildingKind::WarrenExpansion => "WarrenExpansion"@,
            BuildingKind::Mousehole => "Mousehole"@,
            BuildingKind::SqueakTower => "SqueakTower"@,
            BuildingKind::TheSett => "TheSett"@,
            BuildingKind::WarHollow => "WarHollow"@,
            BuildingKind::BurrowDepot => "BurrowDepot"@,
            BuildingKind::CoreTap => "CoreTap"@,
            BuildingKind::ClawMarks => "ClawMarks"@,
            BuildingKind::DeepWarren => "DeepWarren"@,
            BuildingKind::BulwarkGate => "BulwarkGate"@,
            BuildingKind::SlagThrower => "SlagThrower"@,
            BuildingKind::TheGrotto => "TheGrotto"@,
            BuildingKind::SpawningPools => "SpawningPools"@,
            BuildingKind::LilyMarket => "LilyMarket"@,
            BuildingKind::SunkenServer => "SunkenServer"@,
            BuildingKind::FossilStones => "FossilStones"@,
            BuildingKind::ReedBed => "ReedBed"@,
            BuildingKind::TidalGate => "TidalGate"@,
            BuildingKind::SporeTower => "SporeTower"@,
            BuildingKind::TheDumpster => "TheDumpster"@,
            BuildingKind::ScrapHeap => "ScrapHeap"@,
            BuildingKind::ChopShop => "ChopShop"@,
            BuildingKind::JunkServer => "JunkServer"@,
            BuildingKind::TinkerBench => "TinkerBench"@,
            BuildingKind::TrashPile => "TrashPile"@,
            BuildingKind::DumpsterRelay => "DumpsterRelay"@,
            BuildingKind::TetanusTower => "TetanusTower"@,
        }
    }

    /// The variant's name.
    pub fn name(&self) -> (s: &'static str)
        ensures
            s@ == self.name_text(),
    {
        match self {
            BuildingKind::TheBox => "TheBox",
            BuildingKind::CatTree => "CatTree",
            BuildingKind::FishMarket => "FishMarket",
            BuildingKind::LitterBox => "LitterBox",
            BuildingKind::ServerRack => "ServerRack",
            BuildingKind::ScratchingPost => "ScratchingPost",
            BuildingKind::CatFlap => "CatFlap",
            BuildingKind::LaserPointer => "LaserPointer",
            BuildingKind::TheParliament => "TheParliament",
            BuildingKind::Rookery => "Rookery",
            BuildingKind::CarrionCache => "CarrionCache",
            BuildingKind::AntennaArray => "AntennaArray",
            BuildingKind::Panopticon => "Panopticon",
            BuildingKind::NestBox => "NestBox",
            BuildingKind::ThornHedge => "ThornHedge",
            BuildingKind::Watchtower => "Watchtower",
            BuildingKind::TheBurrow => "TheBurrow",
            BuildingKind::NestingBox => "NestingBox",
            BuildingKind::SeedVault => "SeedVault",
            BuildingKind::JunkTransmitter => "JunkTransmitter",
            BuildingKind::GnawLab => "GnawLab",
            BuildingKind::WarrenExpansion => "WarrenExpansion",
            BuildingKind::Mousehole => "Mousehole",
            BuildingKind::SqueakTower => "SqueakTower",
            BuildingKind::TheSett => "TheSett",
            BuildingKind::WarHollow => "WarHollow",
            BuildingKind::BurrowDepot => "BurrowDepot",
            BuildingKind::CoreTap => "CoreTap",
            BuildingKind::ClawMarks => "ClawMarks",
            BuildingKind::DeepWarren => "DeepWarren",
            BuildingKind::BulwarkGate => "BulwarkGate",
            BuildingKind::SlagThrower => "SlagThrower",
            BuildingKind::TheGrotto => "TheGrotto",
            BuildingKind::SpawningPools => "SpawningPools",
            BuildingKind::LilyMarket => "LilyMarket",
            BuildingKind::SunkenServer => "SunkenServer",
            BuildingKind::FossilStones => "FossilStones",
            BuildingKind::ReedBed => "ReedBed",
            BuildingKind::TidalGate => "TidalGate",
            BuildingKind::SporeTower => "SporeTower",
            BuildingKind::TheDumpster => "TheDumpster",
            BuildingKind::ScrapHeap => "ScrapHeap",
            BuildingKind::ChopShop => "ChopShop",
            BuildingKind::JunkServer => "JunkServer",
            BuildingKind::TinkerBench => "TinkerBench",
            BuildingKind::TrashPile => "TrashPile",
            BuildingKind::DumpsterRelay => "DumpsterRelay",
            BuildingKind::TetanusTower => "TetanusTower",
        }
    }

    /// The variant's name as an owned string (what `Display` would print).
    pub fn to_string(&self) -> (s: String)
        ensures
            s@ == self.name_text(),
    {
        owned(self.name())
    }

    /// The variant whose name is `s`, if any.
    pub open spec fn parse_text(s: Seq<char>) -> Option<BuildingKind> {
        if s == BuildingKind::TheBox.name_text() {
            Some(BuildingKind::TheBox)
        } else if s == BuildingKind::CatTree.name_text() {
            Some(BuildingKind::CatTree)
        } else if s == BuildingKind::FishMarket.name_text() {
            Some(BuildingKind::FishMarket)
        } else if s == BuildingKind::LitterBox.name_text() {
            Some(BuildingKind::LitterBox)
        } else if s == BuildingKind::ServerRack.name_text() {
            Some(BuildingKind::ServerRack)
        } else if s == BuildingKind::ScratchingPost.name_text() {
            Some(BuildingKind::ScratchingPost)
        } else if s == BuildingKind::CatFlap.name_text() {
            Some(BuildingKind::CatFlap)
        } else if s == BuildingKind::LaserPointer.name_text() {
            Some(BuildingKind::LaserPointer)
        } else if s == BuildingKind::TheParliament.name_text() {
            Some(BuildingKind::TheParliament)
        } else if s == BuildingKind::Rookery.name_text() {
            Some(BuildingKind::Rookery)
        } else if s == BuildingKind::CarrionCache.name_text() {
            Some(BuildingKind::CarrionCache)
        } else if s == BuildingKind::AntennaArray.name_text() {
            Some(BuildingKind::AntennaArray)
        } else if s == BuildingKind::Panopticon.name_text() {
            Some(BuildingKind::Panopticon)
        } else if s == BuildingKind::NestBox.name_text() {
            Some(BuildingKind::NestBox)
        } else if s == BuildingKind::ThornHedge.name_text() {
            Some(BuildingKind::ThornHedge)
        } else if s == BuildingKind::Watchtower.name_text() {
            Some(BuildingKind::Watchtower)
        } else if s == BuildingKind::TheBurrow.name_text() {
            Some(BuildingKind::TheBurrow)
        } else if s == BuildingKind::NestingBox.name_text() {
            Some(BuildingKind::NestingBox)
        } else if s == BuildingKind::SeedVault.name_text() {
            Some(BuildingKind::SeedVault)
        } else if s == BuildingKind::JunkTransmitter.name_text() {
            Some(BuildingKind::JunkTransmitter)
        } else if s == BuildingKind::GnawLab.name_text() {
            Some(BuildingKind::GnawLab)
        } else if s == BuildingKind::WarrenExpansion.name_text() {
            Some(BuildingKind::WarrenExpansion)
        } else if s == BuildingKind::Mousehole.name_text() {
            Some(BuildingKind::Mousehole)
        } else if s == BuildingKind::SqueakTower.name_text() {
            Some(BuildingKind::SqueakTower)
        } else if s == BuildingKind::TheSett.name_text() {
            Some(BuildingKind::TheSett)
        } else if s == BuildingKind::WarHollow.name_text() {
            Some(BuildingKind::WarHollow)
        } else if s == BuildingKind::BurrowDepot.name_text() {
            Some(BuildingKind::BurrowDepot)
        } else if s == BuildingKind::CoreTap.name_text() {
            Some(BuildingKind::CoreTap)
        } else if s == BuildingKind::ClawMarks.name_text() {
            Some(BuildingKind::ClawMarks)
        } else if s == BuildingKind::DeepWarren.name_text() {
            Some(BuildingKind::DeepWarren)
        } else if s == BuildingKind::BulwarkGate.name_text() {
            Some(BuildingKind::BulwarkGate)
        } else if s == BuildingKind::SlagThrower.name_text() {
            Some(BuildingKind::SlagThrower)
        } else if s == BuildingKind::TheGrotto.name_text() {
            Some(BuildingKind::TheGrotto)
        } else if s == BuildingKind::SpawningPools.name_text() {
            Some(BuildingKind::SpawningPools)
        } else if s == BuildingKind::LilyMarket.name_text() {
            Some(BuildingKind::LilyMarket)
        } else if s == BuildingKind::SunkenServer.name_text() {
            Some(BuildingKind::SunkenServer)
        } else if s == BuildingKind::FossilStones.name_text() {
            Some(BuildingKind::FossilStones)
        } else if s == BuildingKind::ReedBed.name_text() {
            Some(BuildingKind::ReedBed)
        } else if s == BuildingKind::TidalGate.name_text() {
            Some(BuildingKind::TidalGate)
        } else if s == BuildingKind::SporeTower.name_text() {
            Some(BuildingKind::SporeTower)
        } else if s == BuildingKind::TheDumpster.name_text() {
            Some(BuildingKind::TheDumpster)
        } else if s == BuildingKind::ScrapHeap.name_text() {
            Some(BuildingKind::ScrapHeap)
        } else if s == BuildingKind::ChopShop.name_text() {
            Some(BuildingKind::ChopShop)
        } else if s == BuildingKind::JunkServer.name_text() {
            Some(BuildingKind::JunkServer)
        } else if s == BuildingKind::TinkerBench.name_text() {
            Some(BuildingKind::TinkerBench)
        } else if s == BuildingKind::TrashPile.name_text() {
            Some(BuildingKind::TrashPile)
        } else if s == BuildingKind::DumpsterRelay.name_text() {
            Some(BuildingKind::DumpsterRelay)
        } else if s == BuildingKind::TetanusTower.name_text() {
            Some(BuildingKind::TetanusTower)
        } else {
            None
        }
    }

    /// Parses a name; `None` for any text that names no variant.
    pub fn parse_name(s: &str) -> (r: Option<BuildingKind>)
        ensures
            r == BuildingKind::parse_text(s@),
    {
        if str_eq(s, "TheBox") {
            Some(BuildingKind::TheBox)
        } else if str_eq(s, "CatTree") {
            Some(BuildingKind::CatTree)
        } else if str_eq(s, "FishMarket") {
            Some(BuildingKind::FishMarket)
        } else if str_eq(s, "LitterBox") {
            Some(BuildingKind::LitterBox)
        } else if str_eq(s, "ServerRack") {
            Some(BuildingKind::ServerRack)
        } else if str_eq(s, "ScratchingPost") {
            Some(BuildingKind::ScratchingPost)
        } else if str_eq(s, "CatFlap") {
            Some(BuildingKind::CatFlap)
        } else if str_eq(s, "LaserPointer") {
            Some(BuildingKind::LaserPointer)
        } else if str_eq(s, "TheParliament") {
            Some(BuildingKind::TheParliament)
        } else if str_eq(s, "Rookery") {
            Some(BuildingKind::Rookery)
        } else if str_eq(s, "CarrionCache") {
            Some(BuildingKind::CarrionCache)
        } else if str_eq(s, "AntennaArray") {
            Some(BuildingKind::AntennaArray)
        } else if str_eq(s, "Panopticon") {
            Some(BuildingKind::Panopticon)
        } else if str_eq(s, "NestBox") {
            Some(BuildingKind::NestBox)
        } else if str_eq(s, "ThornHedge") {
            Some(BuildingKind::ThornHedge)
        } else if str_eq(s, "Watchtower") {
            Some(BuildingKind::Watchtower)
        } else if str_eq(s, "TheBurrow") {
            Some(BuildingKind::TheBurrow)
        } else if str_eq(s, "NestingBox") {
            Some(BuildingKind::NestingBox)
        } else if str_eq(s, "SeedVault") {
            Some(BuildingKind::SeedVault)
        } else if str_eq(s, "JunkTransmitter") {
            Some(BuildingKind::JunkTransmitter)
        } else if str_eq(s, "GnawLab") {
            Some(BuildingKind::GnawLab)
        } else if str_eq(s, "WarrenExpansion") {
            Some(BuildingKind::WarrenExpansion)
        } else if str_eq(s, "Mousehole") {
            Some(BuildingKind::Mousehole)
        } else if str_eq(s, "SqueakTower") {
            Some(BuildingKind::SqueakTower)
        } else if str_eq(s, "TheSett") {
            Some(BuildingKind::TheSett)
        } else if str_eq(s, "WarHollow") {
            Some(BuildingKind::WarHollow)
        } else if str_eq(s, "BurrowDepot") {
            Some(BuildingKind::BurrowDepot)
        } else if str_eq(s, "CoreTap") {
            Some(BuildingKind::CoreTap)
        } else if str_eq(s, "ClawMarks") {
            Some(BuildingKind::ClawMarks)
        } else if str_eq(s, "DeepWarren") {
            Some(BuildingKind::DeepWarren)
        } else if str_eq(s, "BulwarkGate") {
            Some(BuildingKind::BulwarkGate)
        } else if str_eq(s, "SlagThrower") {
            Some(BuildingKind::SlagThrower)
        } else if str_eq(s, "TheGrotto") {
            Some(BuildingKind::TheGrotto)
        } else if str_eq(s, "SpawningPools") {
            Some(BuildingKind::SpawningPools)
        } else if str_eq(s, "LilyMarket") {
            Some(BuildingKind::LilyMarket)
        } else if str_eq(s, "SunkenServer") {
            Some(BuildingKind::SunkenServer)
        } else if str_eq(s, "FossilStones") {
            Some(BuildingKind::FossilStones)
        } else if str_eq(s, "ReedBed") {
            Some(BuildingKind::ReedBed)
        } else if str_eq(s, "TidalGate") {
            Some(BuildingKind::TidalGate)
        } else if str_eq(s, "SporeTower") {
            Some(BuildingKind::SporeTower)
        } else if str_eq(s, "TheDumpster") {
            Some(BuildingKind::TheDumpster)
        } else if str_eq(s, "ScrapHeap") {
            Some(BuildingKind::ScrapHeap)
        } else if str_eq(s, "ChopShop") {
            Some(BuildingKind::ChopShop)
        } else if str_eq(s, "JunkServer") {
            Some(BuildingKind::JunkServer)
        } else if str_eq(s, "TinkerBench") {
            Some(BuildingKind::TinkerBench)
        } else if str_eq(s, "TrashPile") {
            Some(BuildingKind::TrashPile)
        } else if str_eq(s, "DumpsterRelay") {
            Some(BuildingKind::DumpsterRelay)
        } else if str_eq(s, "TetanusTower") {
            Some(BuildingKind::TetanusTower)
        } else {
            None
        }
    }
}

/// Distinct variants of `BuildingKind` have distinct names.
pub proof fn lemma_building_kind_names_distinct(t: BuildingKind, u: BuildingKind)
    ensures
        t.name_text() == u.name_text() ==> t == u,
{
    reveal_strlit("AntennaArray");
    reveal_strlit("BulwarkGate");
    reveal_strlit("BurrowDepot");
    reveal_strlit("CarrionCache");
    reveal_strlit("CatFlap");
    reveal_strlit("CatTree");
    reveal_strlit("ChopShop");
    reveal_strlit("ClawMarks");
    reveal_strlit("CoreTap");
    reveal_strlit("DeepWarren");
    reveal_strlit("DumpsterRelay");
    reveal_strlit("FishMarket");
    reveal_strlit("FossilStones");
    reveal_strlit("GnawLab");
    reveal_strlit("JunkServer");
    reveal_strlit("JunkTransmitter");
    reveal_strlit("LaserPointer");
    reveal_strlit("LilyMarket");
    reveal_strlit("LitterBox");
    reveal_strlit("Mousehole");
    reveal_strlit("NestBox");
    reveal_strlit("NestingBox");
    reveal_strlit("Panopticon");
    reveal_strlit("ReedBed");
    reveal_strlit("Rookery");
    reveal_strlit("ScrapHeap");
    reveal_strlit("ScratchingPost");
    reveal_strlit("SeedVault");
    reveal_strlit("ServerRack");
    reveal_strlit("SlagThrower");
    reveal_strlit("SpawningPools");
    reveal_strlit("SporeTower");
    reveal_strlit("SqueakTower");
    reveal_strlit("SunkenServer");
    reveal_strlit("TetanusTower");
    reveal_strlit("TheBox");
    reveal_strlit("TheBurrow");
    reveal_strlit("TheDumpster");
    reveal_strlit("TheGrotto");
    reveal_strlit("TheParliament");
    reveal_strlit("TheSett");
    reveal_strlit("ThornHedge");
    reveal_strlit("TidalGate");
    reveal_strlit("TinkerBench");
    reveal_strlit("TrashPile");
    reveal_strlit("WarHollow");
    reveal_strlit("WarrenExpansion");
    reveal_strlit("Watchtower");
    if t.name_text() == u.name_text() {
        assert(t.name_text().len() == u.name_text().len());
        assert(t.name_text()[0] == u.name_text()[0]);
        assert(t.name_text()[1] == u.name_text()[1]);
        assert(t.name_text()[2] == u.name_text()[2]);
        assert(t.name_text()[3] == u.name_text()[3]);
    }
}

/// Every `BuildingKind` parses back from its own name, and text that parses names the variant it parses to.
pub proof fn lemma_building_kind_name_round_trip(t: BuildingKind, s: Seq<char>)
    ensures
        BuildingKind::parse_text(t.name_text()) == Some(t),
        BuildingKind::parse_text(s) matches Some(u) ==> u.name_text() == s,
{
    assert forall|a: BuildingKind, b: BuildingKind| a.name_text() == b.name_text() implies a == b by {
        lemma_building_kind_names_distinct(a, b);
    }
    lemma_building_kind_names_distinct(t, BuildingKind::TheBox);
    lemma_building_kind_names_distinct(t, BuildingKind::CatTree);
    lemma_building_kind_names_distinct(t, BuildingKind::FishMarket);
    lemma_building_kind_names_distinct(t, BuildingKind::LitterBox);
    lemma_building_kind_names_distinct(t, BuildingKind::ServerRack);
    lemma_building_kind_names_distinct(t, BuildingKind::ScratchingPost);
    lemma_building_kind_names_distinct(t, BuildingKind::CatFlap);
    lemma_building_kind_names_distinct(t, BuildingKind::LaserPointer);
    lemma_building_kind_names_distinct(t, BuildingKind::TheParliament);
    lemma_building_kind_names_distinct(t, BuildingKind::Rookery);
    lemma_building_kind_names_distinct(t, BuildingKind::CarrionCache);
    lemma_building_kind_names_distinct(t, BuildingKind::AntennaArray);
    lemma_building_kind_names_distinct(t, BuildingKind::Panopticon);
    lemma_building_kind_names_distinct(t, BuildingKind::NestBox);
    lemma_building_kind_names_distinct(t, BuildingKind::ThornHedge);
    lemma_building_kind_names_distinct(t, BuildingKind::Watchtower);
    lemma_building_kind_names_distinct(t, BuildingKind::TheBurrow);
    lemma_building_kind_names_distinct(t, BuildingKind::NestingBox);
    lemma_building_kind_names_distinct(t, BuildingKind::SeedVault);
    lemma_building_kind_names_distinct(t, BuildingKind::JunkTransmitter);
    lemma_building_kind_names_distinct(t, BuildingKind::GnawLab);
    lemma_building_kind_names_distinct(t, BuildingKind::WarrenExpansion);
    lemma_building_kind_names_distinct(t, BuildingKind::Mousehole);
    lemma_building_kind_names_distinct(t, BuildingKind::SqueakTower);
    lemma_building_kind_names_distinct(t, BuildingKind::TheSett);
    lemma_building_kind_names_distinct(t, BuildingKind::WarHollow);
    lemma_building_kind_names_distinct(t, BuildingKind::BurrowDepot);
    lemma_building_kind_names_distinct(t, BuildingKind::CoreTap);
    lemma_building_kind_names_distinct(t, BuildingKind::ClawMarks);
    lemma_building_kind_names_distinct(t, BuildingKind::DeepWarren);
    lemma_building_kind_names_distinct(t, BuildingKind::BulwarkGate);
    lemma_building_kind_names_distinct(t, BuildingKind::SlagThrower);
    lemma_building_kind_names_distinct(t, BuildingKind::TheGrotto);
    lemma_building_kind_names_distinct(t, BuildingKind::SpawningPools);
    lemma_building_kind_names_distinct(t, BuildingKind::LilyMarket);
    lemma_building_kind_names_distinct(t, BuildingKind::SunkenServer);
    lemma_building_kind_names_distinct(t, BuildingKind::FossilStones);
    lemma_building_kind_names_distinct(t, BuildingKind::ReedBed);
    lemma_building_kind_names_distinct(t, BuildingKind::TidalGate);
    lemma_building_kind_names_distinct(t, BuildingKind::SporeTower);
    lemma_building_kind_names_distinct(t, BuildingKind::TheDumpster);
    lemma_building_kind_names_distinct(t, BuildingKind::ScrapHeap);
    lemma_building_kind_names_distinct(t, BuildingKind::ChopShop);
    lemma_building_kind_names_distinct(t, BuildingKind::JunkServer);
    lemma_building_kind_names_distinct(t, BuildingKind::TinkerBench);
    lemma_building_kind_names_distinct(t, BuildingKind::TrashPile);
    lemma_building_kind_names_distinct(t, BuildingKind::DumpsterRelay);
    lemma_building_kind_names_distinct(t, BuildingKind::TetanusTower);
}

impl std::str::FromStr for BuildingKind {
    type Err = ();

    fn from_str(s: &str) -> (r: Result<BuildingKind, ()>)
        ensures
            r == (match BuildingKind::parse_text(s@) {
                Some(t) => Ok(t),
                None => Err(()),
            }),
    {
        match BuildingKind::parse_name(s) {
            Some(t) => Ok(t),
            None => Err(()),
        }
    }
}

impl BuildingKind {
    /// The human-readable name shown for this building kind.
    pub open spec fn display_name_text(self) -> Seq<char> {
        match self {
            BuildingKind::TheBox => "The Box"@,
            BuildingKind::CatTree => "Cat Tree"@,
            BuildingKind::FishMarket => "Fish Market"@,
            BuildingKind::LitterBox => "Litter Box"@,
            BuildingKind::ServerRack => "Server Rack"@,
            BuildingKind::ScratchingPost => "Scratching Post"@,
            BuildingKind::CatFlap => "Cat Flap"@,
            BuildingKind::LaserPointer => "Laser Pointer"@,
            BuildingKind::TheParliament => "The Parliament"@,
            BuildingKind::Rookery => "Rookery"@,
            BuildingKind::CarrionCache => "Carrion Cache"@,
            BuildingKind::AntennaArray => "Antenna Array"@,
            BuildingKind::Panopticon => "Panopticon"@,
            BuildingKind::NestBox => "Nest Box"@,
            BuildingKind::ThornHedge => "Thorn Hedge"@,
            BuildingKind::Watchtower => "Watchtower"@,
            BuildingKind::TheBurrow => "The Burrow"@,
            BuildingKind::NestingBox => "Nesting Box"@,
            BuildingKind::SeedVault => "Seed Vault"@,
            BuildingKind::JunkTransmitter => "Junk Transmitter"@,
            BuildingKind::GnawLab => "Gnaw Lab"@,
            BuildingKind::WarrenExpansion => "Warren Expansion"@,
            BuildingKind::Mousehole => "Mousehole"@,
            BuildingKind::SqueakTower => "Squeak Tower"@,
            BuildingKind::TheSett => "The Sett"@,
            BuildingKind::WarHollow => "War Hollow"@,
            BuildingKind::BurrowDepot => "Burrow Depot"@,
            BuildingKind::CoreTap => "Core Tap"@,
            BuildingKind::ClawMarks => "Claw Marks"@,
            BuildingKind::DeepWarren => "Deep Warren"@,
            BuildingKind::BulwarkGate => "Bulwark Gate"@,
            BuildingKind::SlagThrower => "Slag Thrower"@,
            BuildingKind::TheGrotto => "The Grotto"@,
            BuildingKind::SpawningPools => "Spawning Pools"@,
            BuildingKind::LilyMarket => "Lily Market"@,
            BuildingKind::SunkenServer => "Sunken Server"@,
            BuildingKind::FossilStones => "Fossil Stones"@,
            BuildingKind::ReedBed => "Reed Bed"@,
            BuildingKind::TidalGate => "Tidal Gate"@,
            BuildingKind::SporeTower => "Spore Tower"@,
            BuildingKind::TheDumpster => "The Dumpster"@,
            BuildingKind::ScrapHeap => "Scrap Heap"@,
            BuildingKind::ChopShop => "Chop Shop"@,
            BuildingKind::JunkServer => "Junk Server"@,
            BuildingKind::TinkerBench => "Tinker Bench"@,
            BuildingKind::TrashPile => "Trash Pile"@,
            BuildingKind::DumpsterRelay => "Dumpster Relay"@,
            BuildingKind::TetanusTower => "Tetanus Tower"@,
        }
    }

    /// Returns a human-readable display name for this building kind.
    pub fn display_name(&self) -> (s: &'static str)
        ensures
            s@ == self.display_name_text(),
    {
        match self {
            BuildingKind::TheBox => "The Box",
            BuildingKind::CatTree => "Cat Tree",
            BuildingKind::FishMarket => "Fish Market",
            BuildingKind::LitterBox => "Litter Box",
            BuildingKind::ServerRack => "Server Rack",
            BuildingKind::ScratchingPost => "Scratching Post",
            BuildingKind::CatFlap => "Cat Flap",
            BuildingKind::LaserPointer => "Laser Pointer",
            BuildingKind::TheParliament => "The Parliament",
            BuildingKind::Rookery => "Rookery",
            BuildingKind::CarrionCache => "Carrion Cache",
            BuildingKind::AntennaArray => "Antenna Array",
            BuildingKind::Panopticon => "Panopticon",
            BuildingKind::NestBox => "Nest Box",
            BuildingKind::ThornHedge => "Thorn Hedge",
            BuildingKind::Watchtower => "Watchtower",
            BuildingKind::TheBurrow => "The Burrow",
            BuildingKind::NestingBox => "Nesting Box",
            BuildingKind::SeedVault => "Seed Vault",
            BuildingKind::JunkTransmitter => "Junk Transmitter",
            BuildingKind::GnawLab => "Gnaw Lab",
            BuildingKind::WarrenExpansion => "Warren Expansion",
            BuildingKind::Mousehole => "Mousehole",
            BuildingKind::SqueakTower => "Squeak Tower",
            BuildingKind::TheSett => "The Sett",
            BuildingKind::WarHollow => "War Hollow",
            BuildingKind::BurrowDepot => "Burrow Depot",
            BuildingKind::CoreTap => "Core Tap",
            BuildingKind::ClawMarks => "Claw Marks",
            BuildingKind::DeepWarren => "Deep Warren",
            BuildingKind::BulwarkGate => "Bulwark Gate",
            BuildingKind::SlagThrower => "Slag Thrower",
            BuildingKind::TheGrotto => "The Grotto",
            BuildingKind::SpawningPools => "Spawning Pools",
            BuildingKind::LilyMarket => "Lily Market",
            BuildingKind::SunkenServer => "Sunken Server",
            BuildingKind::FossilStones => "Fossil Stones",
            BuildingKind::ReedBed => "Reed Bed",
            BuildingKind::TidalGate => "Tidal Gate",
            BuildingKind::SporeTower => "Spore Tower",
            BuildingKind::TheDumpster => "The Dumpster",
            BuildingKind::ScrapHeap => "Scrap Heap",
            BuildingKind::ChopShop => "Chop Shop",
            BuildingKind::JunkServer => "Junk Server",
            BuildingKind::TinkerBench => "Tinker Bench",
            BuildingKind::TrashPile => "Trash Pile",
            BuildingKind::DumpsterRelay => "Dumpster Relay",
            BuildingKind::TetanusTower => "Tetanus Tower",
        }
    }

    /// Whether this kind is a faction headquarters.
    pub open spec fn spec_is_hq(self) -> bool {
        self == BuildingKind::TheBox || self == BuildingKind::TheParliament || self == BuildingKind::TheBurrow || self == BuildingKind::TheSett || self == BuildingKind::TheGrotto || self == BuildingKind::TheDumpster
    }

    /// Returns true if this building is a faction HQ (victory condition target).
    pub fn is_hq(&self) -> (r: bool)
        ensures
            r == self.spec_is_hq(),
    {
        match self {
            BuildingKind::TheBox => true,
            BuildingKind::TheParliament => true,
            BuildingKind::TheBurrow => true,
            BuildingKind::TheSett => true,
            BuildingKind::TheGrotto => true,
            BuildingKind::TheDumpster => true,
            _ => false,
        }
    }
}

/// `s` with every space taken out.
pub open spec fn without_spaces(s: Seq<char>) -> Seq<char>
    decreases s.len(),
{
    if s.len() == 0 {
        s
    } else {
        (if s[0] == ' ' { Seq::<char>::empty() } else { seq![s[0]] }) + without_spaces(s.drop_first())
    }
}

/// The display name of `k` is non-empty and, with its spaces taken out, is
/// the variant's name.
pub open spec fn spells_name(k: BuildingKind) -> bool {
    k.display_name_text().len() > 0 && without_spaces(k.display_name_text()) == k.name_text()
}

/// The display names of TheBox, CatTree, FishMarket and LitterBox spell
/// their names.
#[verifier::spinoff_prover]
#[verifier::rlimit(100)]
proof fn lemma_spells_name_0(k: BuildingKind)
    requires
        k is TheBox || k is CatTree || k is FishMarket || k is LitterBox,
    ensures
        spells_name(k),
{
    match k {
        BuildingKind::TheBox => {
            reveal_strlit("The Box");
            reveal_strlit("TheBox");
            assert(without_spaces("The Box"@) =~= "TheBox"@) by {
                reveal_with_fuel(without_spaces, 17);
            }
        },
        BuildingKind::CatTree => {
            reveal_strlit("Cat Tree");
            reveal_strlit("CatTree");
            assert(without_spaces("Cat Tree"@) =~= "CatTree"@) by {
                reveal_with_fuel(without_spaces, 17);
            }
        },
        BuildingKind::FishMarket => {
            reveal_strlit("Fish Market");
            reveal_strlit("FishMarket");
            assert(without_spaces("Fish Market"@) =~= "FishMarket"@) by {
                reveal_with_fuel(without_spaces, 17);
            }
        },
        BuildingKind::LitterBox => {
            reveal_strlit("Litter Box");
            reveal_strlit("LitterBox");
            assert(without_spaces("Litter Box"@) =~= "LitterBox"@) by {
                reveal_with_fuel(without_spaces, 17);
            }
        },
        _ => {},
    }
}

/// The display names of ServerRack, ScratchingPost, CatFlap and LaserPointer spell
/// their names.
#[verifier::spinoff_prover]
#[verifier::rlimit(100)]
proof fn lemma_spells_name_1(k: BuildingKind)
    requires
        k is ServerRack || k is ScratchingPost || k is CatFlap || k is LaserPointer,
    ensures
        spells_name(k),
{
    match k {
        BuildingKind::ServerRack => {
            reveal_strlit("Server Rack");
            reveal_strlit("ServerRack");
            assert(without_spaces("Server Rack"@) =~= "ServerRack"@) by {
                reveal_with_fuel(without_spaces, 17);
            }
        },
        BuildingKind::ScratchingPost => {
            reveal_strlit("Scratching Post");
            reveal_strlit("ScratchingPost");
            assert(without_spaces("Scratching Post"@) =~= "ScratchingPost"@) by {
                reveal_with_fuel(without_spaces, 17);
            }
        },
        BuildingKind::CatFlap => {
            reveal_strlit("Cat Flap");
            reveal_strlit("CatFlap");
            assert(without_spaces("Cat Flap"@) =~= "CatFlap"@) by {
                reveal_with_fuel(without_spaces, 17);
            }
        },
        BuildingKind::LaserPointer => {
            reveal_strlit("Laser Pointer");
            reveal_strlit("LaserPointer");
            assert(without_spaces("Laser Pointer"@) =~= "LaserPointer"@) by {
                reveal_with_fuel(without_spaces, 17);
            }
        },
        _ => {},
    }
}

/// The display names of TheParliament, Rookery, CarrionCache and AntennaArray spell
/// their names.
#[verifier::spinoff_prover]
#[verifier::rlimit(100)]
proof fn lemma_spells_name_2(k: BuildingKind)
    requires
        k is TheParliament || k is Rookery || k is CarrionCache || k is AntennaArray,
    ensures
        spells_name(k),
{
    match k {
        BuildingKind::TheParliament => {
            reveal_strlit("The Parliament");
            reveal_strlit("TheParliament");
            assert(without_spaces("The Parliament"@) =~= "TheParliament"@) by {
                reveal_with_fuel(without_spaces, 17);
            }
        },
        BuildingKind::Rookery => {
            reveal_strlit("Rookery");
            reveal_strlit("Rookery");
            assert(without_spaces("Rookery"@) =~= "Rookery"@) by {
                reveal_with_fuel(without_spaces, 17);
            }
        },
        BuildingKind::CarrionCache => {
            reveal_strlit("Carrion Cache");
            reveal_strlit("CarrionCache");
            assert(without_spaces("Carrion Cache"@) =~= "CarrionCache"@) by {
                reveal_with_fuel(without_spaces, 17);
            }
        },
        BuildingKind::AntennaArray => {
            reveal_strlit("Antenna Array");
            reveal_strlit("AntennaArray");
            assert(without_spaces("Antenna Array"@) =~= "AntennaArray"@) by {
                reveal_with_fuel(without_spaces, 17);
            }
        },
        _ => {},
    }
}

/// The display names of Panopticon, NestBox, ThornHedge and Watchtower spell
/// their names.
#[verifier::spinoff_prover]
#[verifier::rlimit(100)]
proof fn lemma_spells_name_3(k: BuildingKind)
    requires
        k is Panopticon || k is NestBox || k is ThornHedge || k is Watchtower,
    ensures
        spells_name(k),
{
    match k {
        BuildingKind::Panopticon => {
            reveal_strlit("Panopticon");
            reveal_strlit("Panopticon");
            assert(without_spaces("Panopticon"@) =~= "Panopticon"@) by {
                reveal_with_fuel(without_spaces, 17);
            }
        },
        BuildingKind::NestBox => {
            reveal_strlit("Nest Box");
            reveal_strlit("NestBox");
            assert(without_spaces("Nest Box"@) =~= "NestBox"@) by {
                reveal_with_fuel(without_spaces, 17);
            }
        },
        BuildingKind::ThornHedge => {
            reveal_strlit("Thorn Hedge");
            reveal_strlit("ThornHedge");
            assert(without_spaces("Thorn Hedge"@) =~= "ThornHedge"@) by {
                reveal_with_fuel(without_spaces, 17);
            }
        },
        BuildingKind::Watchtower => {
            reveal_strlit("Watchtower");
            reveal_strlit("Watchtower");
            assert(without_spaces("Watchtower"@) =~= "Watchtower"@) by {
                reveal_with_fuel(without_spaces, 17);
            }
        },
        _ => {},
    }
}

/// The display names of TheBurrow, NestingBox, SeedVault and JunkTransmitter spell
/// their names.
#[verifier::spinoff_prover]
#[verifier::rlimit(100)]
proof fn lemma_spells_name_4(k: BuildingKind)
    requires
        k is TheBurrow || k is NestingBox || k is SeedVault || k is JunkTransmitter,
    ensures
        spells_name(k),
{
    match k {
        BuildingKind::TheBurrow => {
            reveal_strlit("The Burrow");
            reveal_strlit("TheBurrow");
            assert(without_spaces("The Burrow"@) =~= "TheBurrow"@) by {
                reveal_with_fuel(without_spaces, 17);
            }
        },
        BuildingKind::NestingBox => {
            reveal_strlit("Nesting Box");
            reveal_strlit("NestingBox");
            assert(without_spaces("Nesting Box"@) =~= "NestingBox"@) by {
                reveal_with_fuel(without_spaces, 17);
            }
        },
        BuildingKind::SeedVault => {
            reveal_strlit("Seed Vault");
            reveal_strlit("SeedVault");
            assert(without_spaces("Seed Vault"@) =~= "SeedVault"@) by {
                reveal_with_fuel(without_spaces, 17);
            }
        },
        BuildingKind::JunkTransmitter => {
            reveal_strlit("Junk Transmitter");
            reveal_strlit("JunkTransmitter");
            assert(without_spaces("Junk Transmitter"@) =~= "JunkTransmitter"@) by {
                reveal_with_fuel(without_spaces, 17);
            }
        },
        _ => {},
    }
}

/// The display names of GnawLab, WarrenExpansion, Mousehole and SqueakTower spell
/// their names.
#[verifier::spinoff_prover]
#[verifier::rlimit(100)]
proof fn lemma_spells_name_5(k: BuildingKind)
    requires
        k is GnawLab || k is WarrenExpansion || k is Mousehole || k is SqueakTower,
    ensures
        spells_name(k),
{
    match k {
        BuildingKind::GnawLab => {
            reveal_strlit("Gnaw Lab");
            reveal_strlit("GnawLab");
            assert(without_spaces("Gnaw Lab"@) =~= "GnawLab"@) by {
                reveal_with_fuel(without_spaces, 17);
            }
        },
        BuildingKind::WarrenExpansion => {
            reveal_strlit("Warren Expansion");
            reveal_strlit("WarrenExpansion");
            assert(without_spaces("Warren Expansion"@) =~= "WarrenExpansion"@) by {
                reveal_with_fuel(without_spaces, 17);
            }
        },
        BuildingKind::Mousehole => {
            reveal_strlit("Mousehole");
            reveal_strlit("Mousehole");
            assert(without_spaces("Mousehole"@) =~= "Mousehole"@) by {
                reveal_with_fuel(without_spaces, 17);
            }
        },
        BuildingKind::SqueakTower => {
            reveal_strlit("Squeak Tower");
            reveal_strlit("SqueakTower");
            assert(without_spaces("Squeak Tower"@) =~= "SqueakTower"@) by {
                reveal_with_fuel(without_spaces, 17);
            }
        },
        _ => {},
    }
}

/// The display names of TheSett, WarHollow, BurrowDepot and CoreTap spell
/// their names.
#[verifier::spinoff_prover]
#[verifier::rlimit(100)]
proof fn lemma_spells_name_6(k: BuildingKind)
    requires
        k is TheSett || k is WarHollow || k is BurrowDepot || k is CoreTap,
    ensures
        spells_name(k),
{
    match k {
        BuildingKind::TheSett => {
            reveal_strlit("The Sett");
            reveal_strlit("TheSett");
            assert(without_spaces("The Sett"@) =~= "TheSett"@) by {
                reveal_with_fuel(without_spaces, 17);
            }
        },
        BuildingKind::WarHollow => {
            reveal_strlit("War Hollow");
            reveal_strlit("WarHollow");
            assert(without_spaces("War Hollow"@) =~= "WarHollow"@) by {
                reveal_with_fuel(without_spaces, 17);
            }
        },
        BuildingKind::BurrowDepot => {
            reveal_strlit("Burrow Depot");
            reveal_strlit("BurrowDepot");
            assert(without_spaces("Burrow Depot"@) =~= "BurrowDepot"@) by {
                reveal_with_fuel(without_spaces, 17);
            }
        },
        BuildingKind::CoreTap => {
            reveal_strlit("Core Tap");
            reveal_strlit("CoreTap");
            assert(without_spaces("Core Tap"@) =~= "CoreTap"@) by {
                reveal_with_fuel(without_spaces, 17);
            }
        },
        _ => {},
    }
}

/// The display names of ClawMarks, DeepWarren, BulwarkGate and SlagThrower spell
/// their names.
#[verifier::spinoff_prover]
#[verifier::rlimit(100)]
proof fn lemma_spells_name_7(k: BuildingKind)
    requires
        k is ClawMarks || k is DeepWarren || k is BulwarkGate || k is SlagThrower,
    ensures
        spells_name(k),
{
    match k {
        BuildingKind::ClawMarks => {
            reveal_strlit("Claw Marks");
            reveal_strlit("ClawMarks");
            assert(without_spaces("Claw Marks"@) =~= "ClawMarks"@) by {
                reveal_with_fuel(without_spaces, 17);
            }
        },
        BuildingKind::DeepWarren => {
            reveal_strlit("Deep Warren");
            reveal_strlit("DeepWarren");
            assert(without_spaces("Deep Warren"@) =~= "DeepWarren"@) by {
                reveal_with_fuel(without_spaces, 17);
            }
        },
        BuildingKind::BulwarkGate => {
            reveal_strlit("Bulwark Gate");
            reveal_strlit("BulwarkGate");
            assert(without_spaces("Bulwark Gate"@) =~= "BulwarkGate"@) by {
                reveal_with_fuel(without_spaces, 17);
            }
        },
        BuildingKind::SlagThrower => {
            reveal_strlit("Slag Thrower");
            reveal_strlit("SlagThrower");
            assert(without_spaces("Slag Thrower"@) =~= "SlagThrower"@) by {
                reveal_with_fuel(without_spaces, 17);
            }
        },
        _ => {},
    }
}

/// The display names of TheGrotto, SpawningPools, LilyMarket and SunkenServer spell
/// their names.
#[verifier::spinoff_prover]
#[verifier::rlimit(100)]
proof fn lemma_spells_name_8(k: BuildingKind)
    requires
        k is TheGrotto || k is SpawningPools || k is LilyMarket || k is SunkenServer,
    ensures
        spells_name(k),
{
    match k {
        BuildingKind::TheGrotto => {
            reveal_strlit("The Grotto");
            reveal_strlit("TheGrotto");
            assert(without_spaces("The Grotto"@) =~= "TheGrotto"@) by {
                reveal_with_fuel(without_spaces, 17);
            }
        },
        BuildingKind::SpawningPools => {
            reveal_strlit("Spawning Pools");
            reveal_strlit("SpawningPools");
            assert(without_spaces("Spawning Pools"@) =~= "SpawningPools"@) by {
                reveal_with_fuel(without_spaces, 17);
            }
        },
        BuildingKind::LilyMarket => {
            reveal_strlit("Lily Market");
            reveal_strlit("LilyMarket");
            assert(without_spaces("Lily Market"@) =~= "LilyMarket"@) by {
                reveal_with_fuel(without_spaces, 17);
            }
        },
        BuildingKind::SunkenServer => {
            reveal_strlit("Sunken Server");
            reveal_strlit("SunkenServer");
            assert(without_spaces("Sunken Server"@) =~= "SunkenServer"@) by {
                reveal_with_fuel(without_spaces, 17);
            }
        },
        _ => {},
    }
}

/// The display names of FossilStones, ReedBed, TidalGate and SporeTower spell
/// their names.
#[verifier::spinoff_prover]
#[verifier::rlimit(100)]
proof fn lemma_spells_name_9(k: BuildingKind)
    requires
        k is FossilStones || k is ReedBed || k is TidalGate || k is SporeTower,
    ensures
        spells_name(k),
{
    match k {
        BuildingKind::FossilStones => {
            reveal_strlit("Fossil Stones");
            reveal_strlit("FossilStones");
            assert(without_spaces("Fossil Stones"@) =~= "FossilStones"@) by {
                reveal_with_fuel(without_spaces, 17);
            }
        },
        BuildingKind::ReedBed => {
            reveal_strlit("Reed Bed");
            reveal_strlit("ReedBed");
            assert(without_spaces("Reed Bed"@) =~= "ReedBed"@) by {
                reveal_with_fuel(without_spaces, 17);
            }
        },
        BuildingKind::TidalGate => {
            reveal_strlit("Tidal Gate");
            reveal_strlit("TidalGate");
            assert(without_spaces("Tidal Gate"@) =~= "TidalGate"@) by {
                reveal_with_fuel(without_spaces, 17);
            }
        },
        BuildingKind::SporeTower => {
            reveal_strlit("Spore Tower");
            reveal_strlit("SporeTower");
            assert(without_spaces("Spore Tower"@) =~= "SporeTower"@) by {
                reveal_with_fuel(without_spaces, 17);
            }
        },
        _ => {},
    }
}

/// The display names of TheDumpster, ScrapHeap, ChopShop and JunkServer spell
/// their names.
#[verifier::spinoff_prover]
#[verifier::rlimit(100)]
proof fn lemma_spells_name_10(k: BuildingKind)
    requires
        k is TheDumpster || k is ScrapHeap || k is ChopShop || k is JunkServer,
    ensures
        spells_name(k),
{
    match k {
        BuildingKind::TheDumpster => {
            reveal_strlit("The Dumpster");
            reveal_strlit("TheDumpster");
            assert(without_spaces("The Dumpster"@) =~= "TheDumpster"@) by {
                reveal_with_fuel(without_spaces, 17);
            }
        },
        BuildingKind::ScrapHeap => {
            reveal_strlit("Scrap Heap");
            reveal_strlit("ScrapHeap");
            assert(without_spaces("Scrap Heap"@) =~= "ScrapHeap"@) by {
                reveal_with_fuel(without_spaces, 17);
            }
        },
        BuildingKind::ChopShop => {
            reveal_strlit("Chop Shop");
            reveal_strlit("ChopShop");
            assert(without_spaces("Chop Shop"@) =~= "ChopShop"@) by {
                reveal_with_fuel(without_spaces, 17);
            }
        },
        BuildingKind::JunkServer => {
            reveal_strlit("Junk Server");
            reveal_strlit("JunkServer");
            assert(without_spaces("Junk Server"@) =~= "JunkServer"@) by {
                reveal_with_fuel(without_spaces, 17);
            }
        },
        _ => {},
    }
}

/// The display names of TinkerBench, TrashPile, DumpsterRelay and TetanusTower spell
/// their names.
#[verifier::spinoff_prover]
#[verifier::rlimit(100)]
proof fn lemma_spells_name_11(k: BuildingKind)
    requires
        k is TinkerBench || k is TrashPile || k is DumpsterRelay || k is TetanusTower,
    ensures
        spells_name(k),
{
    match k {
        BuildingKind::TinkerBench => {
            reveal_strlit("Tinker Bench");
            reveal_strlit("TinkerBench");
            assert(without_spaces("Tinker Bench"@) =~= "TinkerBench"@) by {
                reveal_with_fuel(without_spaces, 17);
            }
        },
        BuildingKind::TrashPile => {
            reveal_strlit("Trash Pile");
            reveal_strlit("TrashPile");
            assert(without_spaces("Trash Pile"@) =~= "TrashPile"@) by {
                reveal_with_fuel(without_spaces, 17);
            }
        },
        BuildingKind::DumpsterRelay => {
            reveal_strlit("Dumpster Relay");
            reveal_strlit("DumpsterRelay");
            assert(without_spaces("Dumpster Relay"@) =~= "DumpsterRelay"@) by {
                reveal_with_fuel(without_spaces, 17);
            }
        },
        BuildingKind::TetanusTower => {
            reveal_strlit("Tetanus Tower");
            reveal_strlit("TetanusTower");
            assert(without_spaces("Tetanus Tower"@) =~= "TetanusTower"@) by {
                reveal_with_fuel(without_spaces, 17);
            }
        },
        _ => {},
    }
}

/// Each building kind's display name is non-empty and, with its spaces taken
/// out, is the variant's name: the display name spells the name as words.
pub proof fn lemma_display_name_spells_name(k: BuildingKind)
    ensures
        k.display_name_text().len() > 0,
        without_spaces(k.display_name_text()) == k.name_text(),
{
    if k is TheBox || k is CatTree || k is FishMarket || k is LitterBox {
        lemma_spells_name_0(k);
    } else if k is ServerRack || k is ScratchingPost || k is CatFlap || k is LaserPointer {
        lemma_spells_name_1(k);
    } else if k is TheParliament || k is Rookery || k is CarrionCache || k is AntennaArray {
        lemma_spells_name_2(k);
    } else if k is Panopticon || k is NestBox || k is ThornHedge || k is Watchtower {
        lemma_spells_name_3(k);
    } else if k is TheBurrow || k is NestingBox || k is SeedVault || k is JunkTransmitter {
        lemma_spells_name_4(k);
    } else if k is GnawLab || k is WarrenExpansion || k is Mousehole || k is SqueakTower {
        lemma_spells_name_5(k);
    } else if k is TheSett || k is WarHollow || k is BurrowDepot || k is CoreTap {
        lemma_spells_name_6(k);
    } else if k is ClawMarks || k is DeepWarren || k is BulwarkGate || k is SlagThrower {
        lemma_spells_name_7(k);
    } else if k is TheGrotto || k is SpawningPools || k is LilyMarket || k is SunkenServer {
        lemma_spells_name_8(k);
    } else if k is FossilStones || k is ReedBed || k is TidalGate || k is SporeTower {
        lemma_spells_name_9(k);
    } else if k is TheDumpster || k is ScrapHeap || k is ChopShop || k is JunkServer {
        lemma_spells_name_10(k);
    } else {
        lemma_spells_name_11(k);
    }
}

/// State machine for the Pawdler gather loop.
#[derive(Debug, Clone, Copy, PartialEq, Eq, Structural)]
pub enum GatherState {
    MovingToDeposit,
    Harvesting { ticks_remaining: u32 },
    ReturningToBase,
}

/// World-space position of an entity.
#[derive(Debug, Clone, Copy)]
pub struct Position {
    pub world: WorldPos,
}

/// Velocity in world-units per tick.
#[derive(Debug, Clone, Copy)]
pub struct Velocity {
    pub dx: Fixed,
    pub dy: Fixed,
}

impl Velocity {
    /// No motion.
    pub fn zero() -> (v: Velocity)
        ensures
            v.dx.bits == 0,
            v.dy.bits == 0,
    {
        Velocity { dx: Fixed::zero(), dy: Fixed::zero() }
    }
}

/// Cached grid cell, recomputed from Position each tick.
#[derive(Debug, Clone, Copy)]
pub struct GridCell {
    pub pos: GridPos,
}

/// Which player owns this entity.
#[derive(Debug, Clone, Copy, PartialEq, Eq, Structural)]
pub struct Owner {
    pub player_id: u8,
}

/// The kind of unit, across every faction roster.
#[derive(Debug, Clone, Copy, PartialEq, Eq, Hash, Structural)]
pub enum UnitKind {
    Pawdler,       // Worker (Cat) — gathers food, builds, scrounges GPU cores
    Nuisance,      // Light Harasser (Cat) — fast, cheap, debuffs enemies
    Chonk,         // Heavy Tank (Fat Cat) — immovable, absorbs damage, blocks pathing
    FlyingFox,     // Air Scout/Striker (Fruit Bat) — flies over terrain, night vision
    Hisser,        // Ranged (Cat) — medium-range spitter
    Yowler,        // Support (Cat) — buffs allies, debuffs enemies in range
    Mouser,        // Stealth Scout (Cat) — fast, stealthy, reveals fog
    Catnapper,     // Siege (Cat) — sleeps on buildings until they collapse
    FerretSapper,  // Demolitions (Ferret) — plants explosives, fast building destruction
    MechCommander, // Hero/Heavy (Cat in Mech) — late-game, commands nearby units
    // --- The Murder (Corvids) ---
    MurderScrounger, // Worker (Crow) — gathers food, builds, scavenges
    Sentinel,        // Ranged Scout (Crow) — long-range glass cannon
    Rookclaw,        // Melee Dive Striker (Crow) — fast, bursty, fragile
    Magpike,         // Disruptor/Thief (Magpie) — steals resources, disrupts
    Magpyre,         // Saboteur (Magpie) — signal jamming, decoys, rewiring
    Jaycaller,       // Support/Buffer (Jay) — rally cry, alarm call
    Jayflicker,      // Illusion Specialist (Jay) — phantom flock, mirror position
    Dusktalon,       // Stealth Assassin (Owl) — ground-based stealth, high burst
    Hootseer,        // Area Denial/Debuffer (Owl) — panoptic gaze, dread aura
    CorvusRex,       // Hero/Heavy (Augmented Crow) — corvid network, all-seeing lie
    // --- Seekers of the Deep (Badgers) ---
    Delver,
    Ironhide,
    Cragback,
    Warden,
    Sapjaw,
    Wardenmother,
    SeekerTunneler,
    Embermaw,
    Dustclaw,
    Gutripper,
    // --- The Clawed (Mice) ---
    Nibblet,       // Worker (Mouse) — gathers food, builds
    Swarmer,       // Light Infantry (Mouse) — cheap, fast attack speed, swarm in numbers
    Gnawer,        // Anti-Structure (Mouse) — Structural Weakness passive vs buildings
    Shrieker,      // Ranged Harasser (Shrew) — cone attack, fragile
    Tunneler,      // Transport/Utility (Vole) — burrow express, tremor sense
    Sparks,        // Saboteur (Mouse) — static charge burst after movement
    Quillback,     // Heavy Defender (Hedgehog) — spine wall DR, stubborn advance
    Whiskerwitch,  // Caster/Support (Shrew) — hex of multiplication, whisker weave
    Plaguetail,    // Area Denial (Mouse) — contagion cloud on death
    WarrenMarshal, // Hero/Commander (Mouse) — rally the swarm aura, whiskernet relay
    // --- Croak (Axolotls) ---
    Ponderer,      // Worker (Croak) — gathers via ambient gathering on water
    Regeneron,     // Light Skirmisher (Croak) — Limb Economy, self-regen
    Broodmother,   // Healer/Support (Croak) — spawns Spawnlings, burst heals
    Gulper,        // Heavy Bruiser (Croak) — Devour mechanic, massive regen
    Eftsaber,      // Assassin/Flanker (Croak) — poison, Waterway stealth
    Croaker,       // Ranged Artillery (Croak) — Bog Mortar, terrain creation
    Leapfrog,      // Mobile Harasser (Croak) — Hop chains on water
    Shellwarden,   // Tank/Defender (Croak) — Hunker, Ancient Moss aura
    Bogwhisper,    // Support/Caster (Croak) — Mire Curse, Prophecy
    MurkCommander, // Hero/Heavy (Croak) — Grok Protocol, Murk Uplink
    // --- LLAMA (Raccoons) ---
    Scrounger,     // Worker (Raccoon) — gathers, scavenges, builds
    Bandit,        // Light Harasser (Raccoon) — sticky fingers, jury rig
    HeapTitan,     // Heavy Tank (Raccoon) — scrap armor, wreck ball
    GlitchRat,     // Saboteur (Raccoon) — cable gnaw, signal scramble
    PatchPossum,   // Support/Healer (Possum) — duct tape fix, feign death
    GreaseMonkey,  // Ranged (Raccoon) — junk launcher, salvage turret
    DeadDropUnit,  // Stealth Scout (Raccoon) — eavesdrop, trash heap ambush
    Wrecker,       // Anti-Structure (Raccoon) — disassemble, pry bar
    DumpsterDiver, // Area Denial (Raccoon) — treasure trash, refuse shield
    JunkyardKing,  // Hero/Heavy (Raccoon) — open source uplink, overclock cascade
}

impl UnitKind {
    /// The variant's name as text.
    pub open spec fn name_text(self) -> Seq<char> {
        match self {
            UnitKind::Pawdler => "Pawdler"@,
            UnitKind::Nuisance => "Nuisance"@,
            UnitKind::Chonk => "Chonk"@,
            UnitKind::FlyingFox => "FlyingFox"@,
            UnitKind::Hisser => "Hisser"@,
            UnitKind::Yowler => "Yowler"@,
            UnitKind::Mouser => "Mouser"@,
            UnitKind::Catnapper => "Catnapper"@,
            UnitKind::FerretSapper => "FerretSapper"@,
            UnitKind::MechCommander => "MechCommander"@,
            UnitKind::MurderScrounger => "MurderScrounger"@,
            UnitKind::Sentinel => "Sentinel"@,
            UnitKind::Rookclaw => "Rookclaw"@,
            UnitKind::Magpike => "Magpike"@,
            UnitKind::Magpyre => "Magpyre"@,
            UnitKind::Jaycaller => "Jaycaller"@,
            UnitKind::Jayflicker => "Jayflicker"@,
            UnitKind::Dusktalon => "Dusktalon"@,
            UnitKind::Hootseer => "Hootseer"@,
            UnitKind::CorvusRex => "CorvusRex"@,
            UnitKind::Delver => "Delver"@,
            UnitKind::Ironhide => "Ironhide"@,
            UnitKind::Cragback => "Cragback"@,
            UnitKind::Warden => "Warden"@,
            UnitKind::Sapjaw => "Sapjaw"@,
            UnitKind::Wardenmother => "Wardenmother"@,
            UnitKind::SeekerTunneler => "SeekerTunneler"@,
            UnitKind::Embermaw => "Embermaw"@,
            UnitKind::Dustclaw => "Dustclaw"@,
            UnitKind::Gutripper => "Gutripper"@,
            UnitKind::Nibblet => "Nibblet"@,
            UnitKind::Swarmer => "Swarmer"@,
            UnitKind::Gnawer => "Gnawer"@,
            UnitKind::Shrieker => "Shrieker"@,
            UnitKind::Tunneler => "Tunneler"@,
            UnitKind::Sparks => "Sparks"@,
            UnitKind::Quillback => "Quillback"@,
            UnitKind::Whiskerwitch => "Whiskerwitch"@,
            UnitKind::Plaguetail => "Plaguetail"@,
            UnitKind::WarrenMarshal => "WarrenMarshal"@,
            UnitKind::Ponderer => "Ponderer"@,
            UnitKind::Regeneron => "Regeneron"@,
            UnitKind::Broodmother => "Broodmother"@,
            UnitKind::Gulper => "Gulper"@,
            UnitKind::Eftsaber => "Eftsaber"@,
            UnitKind::Croaker => "Croaker"@,
            UnitKind::Leapfrog => "Leapfrog"@,
            UnitKind::Shellwarden => "Shellwarden"@,
            UnitKind::Bogwhisper => "Bogwhisper"@,
            UnitKind::MurkCommander => "MurkCommander"@,
            UnitKind::Scrounger => "Scrounger"@,
            UnitKind::Bandit => "Bandit"@,
            UnitKind::HeapTitan => "HeapTitan"@,
            UnitKind::GlitchRat => "GlitchRat"@,
            UnitKind::PatchPossum => "PatchPossum"@,
            UnitKind::GreaseMonkey => "GreaseMonkey"@,
            UnitKind::DeadDropUnit => "DeadDropUnit"@,
            UnitKind::Wrecker => "Wrecker"@,
            UnitKind::DumpsterDiver => "DumpsterDiver"@,
            UnitKind::JunkyardKing => "JunkyardKing"@,
        }
    }

    /// The variant's name.
    pub fn name(&self) -> (s: &'static str)
        ensures
            s@ == self.name_text(),
    {
        match self {
            UnitKind::Pawdler => "Pawdler",
            UnitKind::Nuisance => "Nuisance",
            UnitKind::Chonk => "Chonk",
            UnitKind::FlyingFox => "FlyingFox",
            UnitKind::Hisser => "Hisser",
            UnitKind::Yowler => "Yowler",
            UnitKind::Mouser => "Mouser",
            UnitKind::Catnapper => "Catnapper",
            UnitKind::FerretSapper => "FerretSapper",
            UnitKind::MechCommander => "MechCommander",
            UnitKind::MurderScrounger => "MurderScrounger",
            UnitKind::Sentinel => "Sentinel",
            UnitKind::Rookclaw => "Rookclaw",
            UnitKind::Magpike => "Magpike",
            UnitKind::Magpyre => "Magpyre",
            UnitKind::Jaycaller => "Jaycaller",
            UnitKind::Jayflicker => "Jayflicker",
            UnitKind::Dusktalon => "Dusktalon",
            UnitKind::Hootseer => "Hootseer",
            UnitKind::CorvusRex => "CorvusRex",
            UnitKind::Delver => "Delver",
            UnitKind::Ironhide => "Ironhide",
            UnitKind::Cragback => "Cragback",
            UnitKind::Warden => "Warden",
            UnitKind::Sapjaw => "Sapjaw",
            UnitKind::Wardenmother => "Wardenmother",
            UnitKind::SeekerTunneler => "SeekerTunneler",
            UnitKind::Embermaw => "Embermaw",
            UnitKind::Dustclaw => "Dustclaw",
            UnitKind::Gutripper => "Gutripper",
            UnitKind::Nibblet => "Nibblet",
            UnitKind::Swarmer => "Swarmer",
            UnitKind::Gnawer => "Gnawer",
            UnitKind::Shrieker => "Shrieker",
            UnitKind::Tunneler => "Tunneler",
            UnitKind::Sparks => "Sparks",
            UnitKind::Quillback => "Quillback",
            UnitKind::Whiskerwitch => "Whiskerwitch",
            UnitKind::Plaguetail => "Plaguetail",
            UnitKind::WarrenMarshal => "WarrenMarshal",
            UnitKind::Ponderer => "Ponderer",
            UnitKind::Regeneron => "Regeneron",
            UnitKind::Broodmother => "Broodmother",
            UnitKind::Gulper => "Gulper",
            UnitKind::Eftsaber => "Eftsaber",
            UnitKind::Croaker => "Croaker",
            UnitKind::Leapfrog => "Leapfrog",
            UnitKind::Shellwarden => "Shellwarden",
            UnitKind::Bogwhisper => "Bogwhisper",
            UnitKind::MurkCommander => "MurkCommander",
            UnitKind::Scrounger => "Scrounger",
            UnitKind::Bandit => "Bandit",
            UnitKind::HeapTitan => "HeapTitan",
            UnitKind::GlitchRat => "GlitchRat",
            UnitKind::PatchPossum => "PatchPossum",
            UnitKind::GreaseMonkey => "GreaseMonkey",
            UnitKind::DeadDropUnit => "DeadDropUnit",
            UnitKind::Wrecker => "Wrecker",
            UnitKind::DumpsterDiver => "DumpsterDiver",
            UnitKind::JunkyardKing => "JunkyardKing",
        }
    }

    /// The variant's name as an owned string (what `Display` would print).
    pub fn to_string(&self) -> (s: String)
        ensures
            s@ == self.name_text(),
    {
        owned(self.name())
    }

    /// The variant whose name is `s`, if any.
    pub open spec fn parse_text(s: Seq<char>) -> Option<UnitKind> {
        if s == UnitKind::Pawdler.name_text() {
            Some(UnitKind::Pawdler)
        } else if s == UnitKind::Nuisance.name_text() {
            Some(UnitKind::Nuisance)
        } else if s == UnitKind::Chonk.name_text() {
            Some(UnitKind::Chonk)
        } else if s == UnitKind::FlyingFox.name_text() {
            Some(UnitKind::FlyingFox)
        } else if s == UnitKind::Hisser.name_text() {
            Some(UnitKind::Hisser)
        } else if s == UnitKind::Yowler.name_text() {
            Some(UnitKind::Yowler)
        } else if s == UnitKind::Mouser.name_text() {
            Some(UnitKind::Mouser)
        } else if s == UnitKind::Catnapper.name_text() {
            Some(UnitKind::Catnapper)
        } else if s == UnitKind::FerretSapper.name_text() {
            Some(UnitKind::FerretSapper)
        } else if s == UnitKind::MechCommander.name_text() {
            Some(UnitKind::MechCommander)
        } else if s == UnitKind::MurderScrounger.name_text() {
            Some(UnitKind::MurderScrounger)
        } else if s == UnitKind::Sentinel.name_text() {
            Some(UnitKind::Sentinel)
        } else if s == UnitKind::Rookclaw.name_text() {
            Some(UnitKind::Rookclaw)
        } else if s == UnitKind::Magpike.name_text() {
            Some(UnitKind::Magpike)
        } else if s == UnitKind::Magpyre.name_text() {
            Some(UnitKind::Magpyre)
        } else if s == UnitKind::Jaycaller.name_text() {
            Some(UnitKind::Jaycaller)
        } else if s == UnitKind::Jayflicker.name_text() {
            Some(UnitKind::Jayflicker)
        } else if s == UnitKind::Dusktalon.name_text() {
            Some(UnitKind::Dusktalon)
        } else if s == UnitKind::Hootseer.name_text() {
            Some(UnitKind::Hootseer)
        } else if s == UnitKind::CorvusRex.name_text() {
            Some(UnitKind::CorvusRex)
        } else if s == UnitKind::Delver.name_text() {
            Some(UnitKind::Delver)
        } else if s == UnitKind::Ironhide.name_text() {
            Some(UnitKind::Ironhide)
        } else if s == UnitKind::Cragback.name_text() {
            Some(UnitKind::Cragback)
        } else if s == UnitKind::Warden.name_text() {
            Some(UnitKind::Warden)
        } else if s == UnitKind::Sapjaw.name_text() {
            Some(UnitKind::Sapjaw)
        } else if s == UnitKind::Wardenmother.name_text() {
            Some(UnitKind::Wardenmother)
        } else if s == UnitKind::SeekerTunneler.name_text() {
            Some(UnitKind::SeekerTunneler)
        } else if s == UnitKind::Embermaw.name_text() {
            Some(UnitKind::Embermaw)
        } else if s == UnitKind::Dustclaw.name_text() {
            Some(UnitKind::Dustclaw)
        } else if s == UnitKind::Gutripper.name_text() {
            Some(UnitKind::Gutripper)
        } else if s == UnitKind::Nibblet.name_text() {
            Some(UnitKind::Nibblet)
        } else if s == UnitKind::Swarmer.name_text() {
            Some(UnitKind::Swarmer)
        } else if s == UnitKind::Gnawer.name_text() {
            Some(UnitKind::Gnawer)
        } else if s == UnitKind::Shrieker.name_text() {
            Some(UnitKind::Shrieker)
        } else if s == UnitKind::Tunneler.name_text() {
            Some(UnitKind::Tunneler)
        } else if s == UnitKind::Sparks.name_text() {
            Some(UnitKind::Sparks)
        } else if s == UnitKind::Quillback.name_text() {
            Some(UnitKind::Quillback)
        } else if s == UnitKind::Whiskerwitch.name_text() {
            Some(UnitKind::Whiskerwitch)
        } else if s == UnitKind::Plaguetail.name_text() {
            Some(UnitKind::Plaguetail)
        } else if s == UnitKind::WarrenMarshal.name_text() {
            Some(UnitKind::WarrenMarshal)
        } else if s == UnitKind::Ponderer.name_text() {
            Some(UnitKind::Ponderer)
        } else if s == UnitKind::Regeneron.name_text() {
            Some(UnitKind::Regeneron)
        } else if s == UnitKind::Broodmother.name_text() {
            Some(UnitKind::Broodmother)
        } else if s == UnitKind::Gulper.name_text() {
            Some(UnitKind::Gulper)
        } else if s == UnitKind::Eftsaber.name_text() {
            Some(UnitKind::Eftsaber)
        } else if s == UnitKind::Croaker.name_text() {
            Some(UnitKind::Croaker)
        } else if s == UnitKind::Leapfrog.name_text() {
            Some(UnitKind::Leapfrog)
        } else if s == UnitKind::Shellwarden.name_text() {
            Some(UnitKind::Shellwarden)
        } else if s == UnitKind::Bogwhisper.name_text() {
            Some(UnitKind::Bogwhisper)
        } else if s == UnitKind::MurkCommander.name_text() {
            Some(UnitKind::MurkCommander)
        } else if s == UnitKind::Scrounger.name_text() {
            Some(UnitKind::Scrounger)
        } else if s == UnitKind::Bandit.name_text() {
            Some(UnitKind::Bandit)
        } else if s == UnitKind::HeapTitan.name_text() {
            Some(UnitKind::HeapTitan)
        } else if s == UnitKind::GlitchRat.name_text() {
            Some(UnitKind::GlitchRat)
        } else if s == UnitKind::PatchPossum.name_text() {
            Some(UnitKind::PatchPossum)
        } else if s == UnitKind::GreaseMonkey.name_text() {
            Some(UnitKind::GreaseMonkey)
        } else if s == UnitKind::DeadDropUnit.name_text() {
            Some(UnitKind::DeadDropUnit)
        } else if s == UnitKind::Wrecker.name_text() {
            Some(UnitKind::Wrecker)
        } else if s == UnitKind::DumpsterDiver.name_text() {
            Some(UnitKind::DumpsterDiver)
        } else if s == UnitKind::JunkyardKing.name_text() {
            Some(UnitKind::JunkyardKing)
        } else {
            None
        }
    }

    /// Parses a name; `None` for any text that names no variant.
    pub fn parse_name(s: &str) -> (r: Option<UnitKind>)
        ensures
            r == UnitKind::parse_text(s@),
    {
        if str_eq(s, "Pawdler") {
            Some(UnitKind::Pawdler)
        } else if str_eq(s, "Nuisance") {
            Some(UnitKind::Nuisance)
        } else if str_eq(s, "Chonk") {
            Some(UnitKind::Chonk)
        } else if str_eq(s, "FlyingFox") {
            Some(UnitKind::FlyingFox)
        } else if str_eq(s, "Hisser") {
            Some(UnitKind::Hisser)
        } else if str_eq(s, "Yowler") {
            Some(UnitKind::Yowler)
        } else if str_eq(s, "Mouser") {
            Some(UnitKind::Mouser)
        } else if str_eq(s, "Catnapper") {
            Some(UnitKind::Catnapper)
        } else if str_eq(s, "FerretSapper") {
            Some(UnitKind::FerretSapper)
        } else if str_eq(s, "MechCommander") {
            Some(UnitKind::MechCommander)
        } else if str_eq(s, "MurderScrounger") {
            Some(UnitKind::MurderScrounger)
        } else if str_eq(s, "Sentinel") {
            Some(UnitKind::Sentinel)
        } else if str_eq(s, "Rookclaw") {
            Some(UnitKind::Rookclaw)
        } else if str_eq(s, "Magpike") {
            Some(UnitKind::Magpike)
        } else if str_eq(s, "Magpyre") {
            Some(UnitKind::Magpyre)
        } else if str_eq(s, "Jaycaller") {
            Some(UnitKind::Jaycaller)
        } else if str_eq(s, "Jayflicker") {
            Some(UnitKind::Jayflicker)
        } else if str_eq(s, "Dusktalon") {
            Some(UnitKind::Dusktalon)
        } else if str_eq(s, "Hootseer") {
            Some(UnitKind::Hootseer)
        } else if str_eq(s, "CorvusRex") {
            Some(UnitKind::CorvusRex)
        } else if str_eq(s, "Delver") {
            Some(UnitKind::Delver)
        } else if str_eq(s, "Ironhide") {
            Some(UnitKind::Ironhide)
        } else if str_eq(s, "Cragback") {
            Some(UnitKind::Cragback)
        } else if str_eq(s, "Warden") {
            Some(UnitKind::Warden)
        } else if str_eq(s, "Sapjaw") {
            Some(UnitKind::Sapjaw)
        } else if str_eq(s, "Wardenmother") {
            Some(UnitKind::Wardenmother)
        } else if str_eq(s, "SeekerTunneler") {
            Some(UnitKind::SeekerTunneler)
        } else if str_eq(s, "Embermaw") {
            Some(UnitKind::Embermaw)
        } else if str_eq(s, "Dustclaw") {
            Some(UnitKind::Dustclaw)
        } else if str_eq(s, "Gutripper") {
            Some(UnitKind::Gutripper)
        } else if str_eq(s, "Nibblet") {
            Some(UnitKind::Nibblet)
        } else if str_eq(s, "Swarmer") {
            Some(UnitKind::Swarmer)
        } else if str_eq(s, "Gnawer") {
            Some(UnitKind::Gnawer)
        } else if str_eq(s, "Shrieker") {
            Some(UnitKind::Shrieker)
        } else if str_eq(s, "Tunneler") {
            Some(UnitKind::Tunneler)
        } else if str_eq(s, "Sparks") {
            Some(UnitKind::Sparks)
        } else if str_eq(s, "Quillback") {
            Some(UnitKind::Quillback)
        } else if str_eq(s, "Whiskerwitch") {
            Some(UnitKind::Whiskerwitch)
        } else if str_eq(s, "Plaguetail") {
            Some(UnitKind::Plaguetail)
        } else if str_eq(s, "WarrenMarshal") {
            Some(UnitKind::WarrenMarshal)
        } else if str_eq(s, "Ponderer") {
            Some(UnitKind::Ponderer)
        } else if str_eq(s, "Regeneron") {
            Some(UnitKind::Regeneron)
        } else if str_eq(s, "Broodmother") {
            Some(UnitKind::Broodmother)
        } else if str_eq(s, "Gulper") {
            Some(UnitKind::Gulper)
        } else if str_eq(s, "Eftsaber") {
            Some(UnitKind::Eftsaber)
        } else if str_eq(s, "Croaker") {
            Some(UnitKind::Croaker)
        } else if str_eq(s, "Leapfrog") {
            Some(UnitKind::Leapfrog)
        } else if str_eq(s, "Shellwarden") {
            Some(UnitKind::Shellwarden)
        } else if str_eq(s, "Bogwhisper") {
            Some(UnitKind::Bogwhisper)
        } else if str_eq(s, "MurkCommander") {
            Some(UnitKind::MurkCommander)
        } else if str_eq(s, "Scrounger") {
            Some(UnitKind::Scrounger)
        } else if str_eq(s, "Bandit") {
            Some(UnitKind::Bandit)
        } else if str_eq(s, "HeapTitan") {
            Some(UnitKind::HeapTitan)
        } else if str_eq(s, "GlitchRat") {
            Some(UnitKind::GlitchRat)
        } else if str_eq(s, "PatchPossum") {
            Some(UnitKind::PatchPossum)
        } else if str_eq(s, "GreaseMonkey") {
            Some(UnitKind::GreaseMonkey)
        } else if str_eq(s, "DeadDropUnit") {
            Some(UnitKind::DeadDropUnit)
        } else if str_eq(s, "Wrecker") {
            Some(UnitKind::Wrecker)
        } else if str_eq(s, "DumpsterDiver") {
            Some(UnitKind::DumpsterDiver)
        } else if str_eq(s, "JunkyardKing") {
            Some(UnitKind::JunkyardKing)
        } else {
            None
        }
    }
}

/// Distinct variants of `UnitKind` have distinct names.
pub proof fn lemma_unit_kind_names_distinct(t: UnitKind, u: UnitKind)
    ensures
        t.name_text() == u.name_text() ==> t == u,
{
    reveal_strlit("Bandit");
    reveal_strlit("Bogwhisper");
    reveal_strlit("Broodmother");
    reveal_strlit("Catnapper");
    reveal_strlit("Chonk");
    reveal_strlit("CorvusRex");
    reveal_strlit("Cragback");
    reveal_strlit("Croaker");
    reveal_strlit("DeadDropUnit");
    reveal_strlit("Delver");
    reveal_strlit("DumpsterDiver");
    reveal_strlit("Dusktalon");
    reveal_strlit("Dustclaw");
    reveal_strlit("Eftsaber");
    reveal_strlit("Embermaw");
    reveal_strlit("FerretSapper");
    reveal_strlit("FlyingFox");
    reveal_strlit("GlitchRat");
    reveal_strlit("Gnawer");
    reveal_strlit("GreaseMonkey");
    reveal_strlit("Gulper");
    reveal_strlit("Gutripper");
    reveal_strlit("HeapTitan");
    reveal_strlit("Hisser");
    reveal_strlit("Hootseer");
    reveal_strlit("Ironhide");
    reveal_strlit("Jaycaller");
    reveal_strlit("Jayflicker");
    reveal_strlit("JunkyardKing");
    reveal_strlit("Leapfrog");
    reveal_strlit("Magpike");
    reveal_strlit("Magpyre");
    reveal_strlit("MechCommander");
    reveal_strlit("Mouser");
    reveal_strlit("MurderScrounger");
    reveal_strlit("MurkCommander");
    reveal_strlit("Nibblet");
    reveal_strlit("Nuisance");
    reveal_strlit("PatchPossum");
    reveal_strlit("Pawdler");
    reveal_strlit("Plaguetail");
    reveal_strlit("Ponderer");
    reveal_strlit("Quillback");
    reveal_strlit("Regeneron");
    reveal_strlit("Rookclaw");
    reveal_strlit("Sapjaw");
    reveal_strlit("Scrounger");
    reveal_strlit("SeekerTunneler");
    reveal_strlit("Sentinel");
    reveal_strlit("Shellwarden");
    reveal_strlit("Shrieker");
    reveal_strlit("Sparks");
    reveal_strlit("Swarmer");
    reveal_strlit("Tunneler");
    reveal_strlit("Warden");
    reveal_strlit("Wardenmother");
    reveal_strlit("WarrenMarshal");
    reveal_strlit("Whiskerwitch");
    reveal_strlit("Wrecker");
    reveal_strlit("Yowler");
    if t.name_text() == u.name_text() {
        assert(t.name_text().len() == u.name_text().len());
        assert(t.name_text()[0] == u.name_text()[0]);
        assert(t.name_text()[1] == u.name_text()[1]);
        assert(t.name_text()[2] == u.name_text()[2]);
        assert(t.name_text()[3] == u.name_text()[3]);
        assert(t.name_text()[4] == u.name_text()[4]);
    }
}

/// Every `UnitKind` parses back from its own name, and text that parses names the variant it parses to.
pub proof fn lemma_unit_kind_name_round_trip(t: UnitKind, s: Seq<char>)
    ensures
        UnitKind::parse_text(t.name_text()) == Some(t),
        UnitKind::parse_text(s) matches Some(u) ==> u.name_text() == s,
{
    assert forall|a: UnitKind, b: UnitKind| a.name_text() == b.name_text() implies a == b by {
        lemma_unit_kind_names_distinct(a, b);
    }
    lemma_unit_kind_names_distinct(t, UnitKind::Pawdler);
    lemma_unit_kind_names_distinct(t, UnitKind::Nuisance);
    lemma_unit_kind_names_distinct(t, UnitKind::Chonk);
    lemma_unit_kind_names_distinct(t, UnitKind::FlyingFox);
    lemma_unit_kind_names_distinct(t, UnitKind::Hisser);
    lemma_unit_kind_names_distinct(t, UnitKind::Yowler);
    lemma_unit_kind_names_distinct(t, UnitKind::Mouser);
    lemma_unit_kind_names_distinct(t, UnitKind::Catnapper);
    lemma_unit_kind_names_distinct(t, UnitKind::FerretSapper);
    lemma_unit_kind_names_distinct(t, UnitKind::MechCommander);
    lemma_unit_kind_names_distinct(t, UnitKind::MurderScrounger);
    lemma_unit_kind_names_distinct(t, UnitKind::Sentinel);
    lemma_unit_kind_names_distinct(t, UnitKind::Rookclaw);
    lemma_unit_kind_names_distinct(t, UnitKind::Magpike);
    lemma_unit_kind_names_distinct(t, UnitKind::Magpyre);
    lemma_unit_kind_names_distinct(t, UnitKind::Jaycaller);
    lemma_unit_kind_names_distinct(t, UnitKind::Jayflicker);
    lemma_unit_kind_names_distinct(t, UnitKind::Dusktalon);
    lemma_unit_kind_names_distinct(t, UnitKind::Hootseer);
    lemma_unit_kind_names_distinct(t, UnitKind::CorvusRex);
    lemma_unit_kind_names_distinct(t, UnitKind::Delver);
    lemma_unit_kind_names_distinct(t, UnitKind::Ironhide);
    lemma_unit_kind_names_distinct(t, UnitKind::Cragback);
    lemma_unit_kind_names_distinct(t, UnitKind::Warden);
    lemma_unit_kind_names_distinct(t, UnitKind::Sapjaw);
    lemma_unit_kind_names_distinct(t, UnitKind::Wardenmother);
    lemma_unit_kind_names_distinct(t, UnitKind::SeekerTunneler);
    lemma_unit_kind_names_distinct(t, UnitKind::Embermaw);
    lemma_unit_kind_names_distinct(t, UnitKind::Dustclaw);
    lemma_unit_kind_names_distinct(t, UnitKind::Gutripper);
    lemma_unit_kind_names_distinct(t, UnitKind::Nibblet);
    lemma_unit_kind_names_distinct(t, UnitKind::Swarmer);
    lemma_unit_kind_names_distinct(t, UnitKind::Gnawer);
    lemma_unit_kind_names_distinct(t, UnitKind::Shrieker);
    lemma_unit_kind_names_distinct(t, UnitKind::Tunneler);
    lemma_unit_kind_names_distinct(t, UnitKind::Sparks);
    lemma_unit_kind_names_distinct(t, UnitKind::Quillback);
    lemma_unit_kind_names_distinct(t, UnitKind::Whiskerwitch);
    lemma_unit_kind_names_distinct(t, UnitKind::Plaguetail);
    lemma_unit_kind_names_distinct(t, UnitKind::WarrenMarshal);
    lemma_unit_kind_names_distinct(t, UnitKind::Ponderer);
    lemma_unit_kind_names_distinct(t, UnitKind::Regeneron);
    lemma_unit_kind_names_distinct(t, UnitKind::Broodmother);
    lemma_unit_kind_names_distinct(t, UnitKind::Gulper);
    lemma_unit_kind_names_distinct(t, UnitKind::Eftsaber);
    lemma_unit_kind_names_distinct(t, UnitKind::Croaker);
    lemma_unit_kind_names_distinct(t, UnitKind::Leapfrog);
    lemma_unit_kind_names_distinct(t, UnitKind::Shellwarden);
    lemma_unit_kind_names_distinct(t, UnitKind::Bogwhisper);
    lemma_unit_kind_names_distinct(t, UnitKind::MurkCommander);
    lemma_unit_kind_names_distinct(t, UnitKind::Scrounger);
    lemma_unit_kind_names_distinct(t, UnitKind::Bandit);
    lemma_unit_kind_names_distinct(t, UnitKind::HeapTitan);
    lemma_unit_kind_names_distinct(t, UnitKind::GlitchRat);
    lemma_unit_kind_names_distinct(t, UnitKind::PatchPossum);
    lemma_unit_kind_names_distinct(t, UnitKind::GreaseMonkey);
    lemma_unit_kind_names_distinct(t, UnitKind::DeadDropUnit);
    lemma_unit_kind_names_distinct(t, UnitKind::Wrecker);
    lemma_unit_kind_names_distinct(t, UnitKind::DumpsterDiver);
    lemma_unit_kind_names_distinct(t, UnitKind::JunkyardKing);
}

impl std::str::FromStr for UnitKind {
    type Err = ();

    fn from_str(s: &str) -> (r: Result<UnitKind, ()>)
        ensures
            r == (match UnitKind::parse_text(s@) {
                Some(t) => Ok(t),
                None => Err(()),
            }),
    {
        match UnitKind::parse_name(s) {
            Some(t) => Ok(t),
            None => Err(()),
        }
    }
}

impl UnitKind {
    /// Whether this kind is a worker (gatherer and builder).
    pub open spec fn spec_is_worker(self) -> bool {
        self == UnitKind::Pawdler || self == UnitKind::MurderScrounger || self == UnitKind::Delver || self == UnitKind::Nibblet || self == UnitKind::Ponderer || self == UnitKind::Scrounger
    }

    /// Returns true if this unit is a worker (resource gatherer / builder) for any faction.
    pub fn is_worker(&self) -> (r: bool)
        ensures
            r == self.spec_is_worker(),
    {
        match self {
            UnitKind::Pawdler => true,
            UnitKind::MurderScrounger => true,
            UnitKind::Delver => true,
            UnitKind::Nibblet => true,
            UnitKind::Ponderer => true,
            UnitKind::Scrounger => true,
            _ => false,
        }
    }
}

/// Identifies what type of unit this entity is.
#[derive(Debug, Clone, Copy)]
pub struct UnitType {
    pub kind: UnitKind,
}

/// Hit points.
#[derive(Debug, Clone, Copy)]
pub struct Health {
    pub current: Fixed,
    pub max: Fixed,
}

/// How fast this unit moves (world-units per tick).
#[derive(Debug, Clone, Copy)]
pub struct MovementSpeed {
    pub speed: Fixed,
}

/// Marker: this unit is currently selected by the player.
#[derive(Debug, Clone, Copy)]
pub struct Selected;

/// Marker: this unit received the golden voice-command speed buff.
#[derive(Debug, Clone, Copy)]
pub struct VoiceBuffed;

/// The unit is moving toward this world position (simple direct move).
#[derive(Debug, Clone, Copy)]
pub struct MoveTarget {
    pub target: WorldPos,
}

/// A* path the unit is following.
#[derive(Debug, Clone)]
pub struct Path {
    pub waypoints: VecDeque<GridPos>,
}

/// Whether a unit attacks in melee or at range.
#[derive(Debug, Clone, Copy, PartialEq, Eq, Hash, Structural)]
pub enum AttackType {
    Melee,
    Ranged,
}

impl AttackType {
    /// The variant's name as text.
    pub open spec fn name_text(self) -> Seq<char> {
        match self {
            AttackType::Melee => "Melee"@,
            AttackType::Ranged => "Ranged"@,
        }
    }

    /// The variant's name.
    pub fn name(&self) -> (s: &'static str)
        ensures
            s@ == self.name_text(),
    {
        match self {
            AttackType::Melee => "Melee",
            AttackType::Ranged => "Ranged",
        }
    }

    /// The variant's name as an owned string (what `Display` would print).
    pub fn to_string(&self) -> (s: String)
        ensures
            s@ == self.name_text(),
    {
        owned(self.name())
    }

    /// The variant whose name is `s`, if any.
    pub open spec fn parse_text(s: Seq<char>) -> Option<AttackType> {
        if s == AttackType::Melee.name_text() {
            Some(AttackType::Melee)
        } else if s == AttackType::Ranged.name_text() {
            Some(AttackType::Ranged)
        } else {
            None
        }
    }

    /// Parses a name; `None` for any text that names no variant.
    pub fn parse_name(s: &str) -> (r: Option<AttackType>)
        ensures
            r == AttackType::parse_text(s@),
    {
        if str_eq(s, "Melee") {
            Some(AttackType::Melee)
        } else if str_eq(s, "Ranged") {
            Some(AttackType::Ranged)
        } else {
            None
        }
    }
}

/// Distinct variants of `AttackType` have distinct names.
pub proof fn lemma_attack_type_names_distinct(t: AttackType, u: AttackType)
    ensures
        t.name_text() == u.name_text() ==> t == u,
{
    reveal_strlit("Melee");
    reveal_strlit("Ranged");
    if t.name_text() == u.name_text() {
        assert(t.name_text().len() == u.name_text().len());
    }
}

/// Every `AttackType` parses back from its own name, and text that parses names the variant it parses to.
pub proof fn lemma_attack_type_name_round_trip(t: AttackType, s: Seq<char>)
    ensures
        AttackType::parse_text(t.name_text()) == Some(t),
        AttackType::parse_text(s) matches Some(u) ==> u.name_text() == s,
{
    assert forall|a: AttackType, b: AttackType| a.name_text() == b.name_text() implies a == b by {
        lemma_attack_type_names_distinct(a, b);
    }
    lemma_attack_type_names_distinct(t, AttackType::Melee);
    lemma_attack_type_names_distinct(t, AttackType::Ranged);
}

impl std::str::FromStr for AttackType {
    type Err = ();

    fn from_str(s: &str) -> (r: Result<AttackType, ()>)
        ensures
            r == (match AttackType::parse_text(s@) {
                Some(t) => Ok(t),
                None => Err(()),
            }),
    {
        match AttackType::parse_name(s) {
            Some(t) => Ok(t),
            None => Err(()),
        }
    }
}

/// Combat statistics for a unit.
#[derive(Debug, Clone, Copy)]
pub struct AttackStats {
    pub damage: Fixed,
    pub range: Fixed,
    pub attack_speed: u32,       // ticks between attacks
    pub cooldown_remaining: u32, // ticks until next attack
}

/// Marker: which attack type this unit uses.
#[derive(Debug, Clone, Copy)]
pub struct AttackTypeMarker {
    pub attack_type: AttackType,
}

/// The entity this unit is targeting for attack.
#[derive(Debug, Clone, Copy)]
pub struct AttackTarget {
    pub target: EntityId,
}

/// Marker: unit is chasing a target to get into attack range.
/// Distinguished from player-issued MoveTarget so Stop clears it.
#[derive(Debug, Clone, Copy)]
pub struct ChasingTarget {
    pub target: EntityId,
}

/// Visual style of a projectile, derived from the attacker's unit type.
#[derive(Debug, Clone, Copy, PartialEq, Eq, Hash, Structural)]
pub enum ProjectileKind {
    /// Hisser's acid spit (green)
    Spit,
    /// Tower/laser-based attacks (red)
    LaserBeam,
    /// Yowler's sonic attack (purple)
    SonicWave,
    /// MechCommander's cannon (cyan)
    MechShot,
    /// Catnapper's siege projectile (orange)
    Explosive,
    /// Default fallback (yellow)
    Generic,
}

impl Default for ProjectileKind {
    /// The fallback kind, `Generic`.
    fn default() -> (k: ProjectileKind)
        ensures
            k == ProjectileKind::Generic,
    {
        ProjectileKind::Generic
    }
}

/// A projectile in flight.
#[derive(Debug, Clone, Copy)]
pub struct Projectile {
    pub damage: Fixed,
    pub speed: Fixed,
}

/// Which entity this projectile is homing toward.
#[derive(Debug, Clone, Copy)]
pub struct ProjectileTarget {
    pub target: EntityId,
}

/// Projectile kind fired by each unit kind.
pub open spec fn projectile_kind_of(kind: UnitKind) -> ProjectileKind {
    match kind {
        UnitKind::Hisser => ProjectileKind::Spit,
        UnitKind::Yowler | UnitKind::Jaycaller => ProjectileKind::SonicWave,
        UnitKind::MechCommander | UnitKind::CorvusRex | UnitKind::MurkCommander | UnitKind::Wardenmother
        | UnitKind::JunkyardKing | UnitKind::WarrenMarshal => ProjectileKind::MechShot,
        UnitKind::Catnapper | UnitKind::Cragback => ProjectileKind::Explosive,
        _ => ProjectileKind::Generic,
    }
}

impl ProjectileKind {
    /// Derive the projectile kind from the attacker's unit type.
    pub fn from_unit_kind(kind: UnitKind) -> (p: ProjectileKind)
        ensures
            p == projectile_kind_of(kind),
    {
        match kind {
            UnitKind::Hisser => ProjectileKind::Spit,
            UnitKind::Yowler | UnitKind::Jaycaller => ProjectileKind::SonicWave,
            UnitKind::MechCommander | UnitKind::CorvusRex | UnitKind::MurkCommander | UnitKind::Wardenmother
            | UnitKind::JunkyardKing | UnitKind::WarrenMarshal => ProjectileKind::MechShot,
            UnitKind::Catnapper | UnitKind::Cragback => ProjectileKind::Explosive,
            _ => ProjectileKind::Generic,
        }
    }
}

/// Marker: this entity is dead (awaiting despawn next tick).
#[derive(Debug, Clone, Copy)]
pub struct Dead;

/// Marker: unit should hold position (attack in range only, no chasing).
#[derive(Debug, Clone, Copy)]
pub struct HoldPosition;

/// Unit is attack-moving toward a grid position (engages enemies along the way).
#[derive(Debug, Clone, Copy)]
pub struct AttackMoveTarget {
    pub target: GridPos,
}

/// A pending build order attached to a builder unit.
/// The builder walks to the target position and spawns the building on arrival.
#[derive(Debug, Clone, Copy)]
pub struct BuildOrder {
    pub building_kind: BuildingKind,
    pub position: GridPos,
}

/// A resource deposit on the map (fish pond, berry bush, GPU deposit, monkey mine).
#[derive(Debug, Clone, Copy)]
pub struct ResourceDeposit {
    pub resource_type: ResourceType,
    pub remaining: u32,
}

/// Marker: this entity is a building.
#[derive(Debug, Clone, Copy)]
pub struct Building {
    pub kind: BuildingKind,
}

/// Building is under construction. Ticks down each sim tick.
#[derive(Debug, Clone, Copy)]
pub struct UnderConstruction {
    pub remaining_ticks: u32,
    pub total_ticks: u32,
}

/// Production queue for a building that can train units.
#[derive(Debug, Clone)]
pub struct ProductionQueue {
    pub queue: VecDeque<(UnitKind, u32)>, // (kind, ticks_remaining)
}

impl Default for ProductionQueue {
    /// An empty queue.
    fn default() -> (q: ProductionQueue)
        ensures
            q.queue@.len() == 0,
    {
        ProductionQueue { queue: VecDeque::new() }
    }
}

/// Rally point for a production building — new units move here after spawning.
#[derive(Debug, Clone, Copy)]
pub struct RallyPoint {
    pub target: GridPos,
}

/// Pawdler is gathering resources — tracks the gather loop state machine.
#[derive(Debug, Clone, Copy)]
pub struct Gathering {
    pub deposit_entity: EntityId,
    pub carried_type: ResourceType,
    pub carried_amount: u32,
    pub state: GatherState,
    /// Last known position for staleness detection (world-space x,y).
    pub last_pos: (Fixed, Fixed),
    /// Number of consecutive ticks with no positional progress while moving.
    /// When this exceeds `GATHERER_STALE_TICKS`, the Gathering component is
    /// removed so the worker can be reassigned.
    pub stale_ticks: u32,
}

/// Marker: this building can produce units (has been fully constructed).
#[derive(Debug, Clone, Copy)]
pub struct Producer;

/// Runtime state for a single ability slot.
#[derive(Debug, Clone, Copy)]
pub struct AbilityState {
    pub id: AbilityId,
    /// Ticks remaining before ability can be used again.
    pub cooldown_remaining: u32,
    /// Whether this ability is currently active (toggle on, or activated duration running).
    pub active: bool,
    /// Ticks remaining on the active duration (for Activated abilities).
    pub duration_remaining: u32,
    /// Current charges (for charge-based abilities).
    pub charges: u32,
}

/// The 3 ability slots for a unit.
#[derive(Debug, Clone, Copy)]
pub struct AbilitySlots {
    pub slots: [AbilityState; 3],
}

impl AbilitySlots {
    /// Create ability slots from a unit's ability IDs, initialized to ready state:
    /// no cooldown, inactive, no duration left, and the ability's full charges.
    pub fn from_abilities(ids: [AbilityId; 3]) -> (s: AbilitySlots)
        ensures
            forall|i: int|
                0 <= i < 3 ==> {
                    let slot = #[trigger] s.slots@[i];
                    &&& slot.id == ids@[i]
                    &&& slot.cooldown_remaining == 0
                    &&& !slot.active
                    &&& slot.duration_remaining == 0
                    &&& slot.charges == spec_ability_def(ids@[i]).max_charges
                },
    {
        AbilitySlots { slots: [ready_slot(ids[0]), ready_slot(ids[1]), ready_slot(ids[2])] }
    }
}

/// A slot holding `id`, ready to use.
fn ready_slot(id: AbilityId) -> (st: AbilityState)
    ensures
        st.id == id,
        st.cooldown_remaining == 0,
        !st.active,
        st.duration_remaining == 0,
        st.charges == spec_ability_def(id).max_charges,
{
    let def: AbilityDef = ability_def(id);
    AbilityState { id, cooldown_remaining: 0, active: false, duration_remaining: 0, charges: def.max_charges }
}

/// Aggregate stat modifiers computed from status effects each tick.
/// Multiplicative modifiers default to 1.0 (FIXED_ONE), boolean flags to false.
#[derive(Debug, Clone, Copy)]
pub struct StatModifiers {
    pub speed_multiplier: Fixed,
    pub damage_multiplier: Fixed,
    pub attack_speed_multiplier: Fixed,
    pub damage_reduction: Fixed,
    pub gather_speed_multiplier: Fixed,
    pub cooldown_multiplier: Fixed,
    pub invulnerable: bool,
    pub immobilized: bool,
    pub silenced: bool,
    pub cannot_attack: bool,
}

impl Default for StatModifiers {
    /// Neutral modifiers: every multiplier is one, every flag is off.
    fn default() -> (m: StatModifiers)
        ensures
            m.speed_multiplier.bits == 65536,
            m.damage_multiplier.bits == 65536,
            m.attack_speed_multiplier.bits == 65536,
            m.damage_reduction.bits == 65536,
            m.gather_speed_multiplier.bits == 65536,
            m.cooldown_multiplier.bits == 65536,
            !m.invulnerable,
            !m.immobilized,
            !m.silenced,
            !m.cannot_attack,
    {
        StatModifiers {
            speed_multiplier: Fixed::one(),
            damage_multiplier: Fixed::one(),
            attack_speed_multiplier: Fixed::one(),
            damage_reduction: Fixed::one(),
            gather_speed_multiplier: Fixed::one(),
            cooldown_multiplier: Fixed::one(),
            invulnerable: false,
            immobilized: false,
            silenced: false,
            cannot_attack: false,
        }
    }
}

/// The type of aura a unit emits.
#[derive(Debug, Clone, Copy, PartialEq, Eq, Structural)]
pub enum AuraType {
    GravitationalChonk,
    HarmonicResonance,
    // The Murder (Corvids)
    DreadAura,
    CorvidNetwork,
    OculusUplink,
    Lullaby,
    ContagiousYawning,
    TacticalUplink,
    GeppityUplink,
    // Seekers of the Deep (Badgers)
    VigilanceAura,
    DeepseekUplinkAura,
    FortressProtocolAura,
    FrenzyAura,
    // The Clawed (Mice)
    RallyTheSwarm,
    WhiskernetRelay,
    SqueakTowerPulse,
    // Croak (Axolotls)
    AncientMoss,
    BogSong,
    UndyingPresence,
    MurkUplinkAura,
    // LLAMA (Raccoons)
    OpenSourceUplinkAura,
    ScrapArmorAura,
    DumpsterRelayAura,
    StenchCloudAura,
    // Toggle-specific aura types
    WhiskerWeave,
    SwarmTremorSense,
    PanopticGaze,
}

/// Component for units that emit an area-of-effect aura.
#[derive(Debug, Clone, Copy)]
pub struct Aura {
    pub aura_type: AuraType,
    pub radius: Fixed,
    pub active: bool,
}

/// Component for stealth-capable units.
#[derive(Debug, Clone, Copy)]
pub struct Stealth {
    pub stealthed: bool,
    pub detection_radius: Fixed,
}

/// Component for entities visible through fog of war.
#[derive(Debug, Clone, Copy)]
pub struct VisibleThroughFog {
    pub remaining_ticks: u32,
}

/// Tracks Catnapper's DreamSiege passive — damage ramps the longer it attacks the same target.
#[derive(Debug, Clone)]
pub struct DreamSiegeTimer {
    pub ticks_on_target: u32,
    pub current_target: Option<EntityId>,
    pub last_hp: Fixed,
}

impl Default for DreamSiegeTimer {
    /// No time on any target yet.
    fn default() -> (t: DreamSiegeTimer)
        ensures
            t.ticks_on_target == 0,
            t.current_target is None,
            t.last_hp.bits == 0,
    {
        DreamSiegeTimer { ticks_on_target: 0, current_target: None, last_hp: Fixed::zero() }
    }
}

/// Tracks Chonk's NineLives passive — revives once on lethal damage.
#[derive(Debug, Clone, Copy)]
pub struct NineLivesTracker {
    /// Tick when last triggered (0 = never triggered).
    pub last_triggered_tick: u64,
}

impl Default for NineLivesTracker {
    /// Never triggered.
    fn default() -> (d: NineLivesTracker)
        ensures
            d.last_triggered_tick == 0,
    {
        NineLivesTracker { last_triggered_tick: 0 }
    }
}

/// A hairball obstacle spawned by Nuisance — blocks terrain for a limited time.
#[derive(Debug, Clone, Copy)]
pub struct HairballObstacle {
    pub remaining_ticks: u32,
    pub owner_player_id: u8,
}

/// Scrounger's personal scrap inventory (PocketStash ability).
#[derive(Debug, Clone, Copy)]
pub struct PocketStashInventory {
    pub count: u32,
    pub max: u32,
}

impl Default for PocketStashInventory {
    /// Empty, holding at most three.
    fn default() -> (d: PocketStashInventory)
        ensures
            d.count == 0,
            d.max == 3,
    {
        PocketStashInventory { count: 0, max: 3 }
    }
}

/// Tracks Patch Possum's FeignDeath cooldown (passive auto-trigger).
#[derive(Debug, Clone, Copy)]
pub struct FeignDeathTracker {
    pub last_triggered_tick: u64,
}

impl Default for FeignDeathTracker {
    /// Never triggered.
    fn default() -> (d: FeignDeathTracker)
        ensures
            d.last_triggered_tick == 0,
    {
        FeignDeathTracker { last_triggered_tick: 0 }
    }
}

/// Tracks Grease Monkey's JunkLauncher attack count for crit calculation.
#[derive(Debug, Clone, Copy)]
pub struct JunkLauncherState {
    pub attack_count: u32,
}

impl Default for JunkLauncherState {
    /// No attacks yet.
    fn default() -> (d: JunkLauncherState)
        ensures
            d.attack_count == 0,
    {
        JunkLauncherState { attack_count: 0 }
    }
}

/// Tracks Junkyard King's active Frankenstein Protocol summons.
#[derive(Debug, Clone, Copy)]
pub struct FrankensteinTracker {
    pub active_count: u32,
    pub max: u32,
}

impl Default for FrankensteinTracker {
    /// No summons, at most three.
    fn default() -> (d: FrankensteinTracker)
        ensures
            d.active_count == 0,
            d.max == 3,
    {
        FrankensteinTracker { active_count: 0, max: 3 }
    }
}

/// Applied to units that deal Corroded stacks (TetanusTower, Wrecker).
#[derive(Debug, Clone, Copy)]
pub struct CorrodedApplicator {
    pub stacks_per_hit: u32,
    pub max_stacks: u32,
}

/// Available upgrade types that can be researched at the ScratchingPost.
#[derive(Debug, Clone, Copy, PartialEq, Eq, Hash, Structural)]
pub enum UpgradeType {
    /// +2 damage for all combat units.
    SharperClaws,
    /// +25 HP for all combat units.
    ThickerFur,
    /// +10% speed for all units.
    NimblePaws,
    /// Unlocks Catnapper training at ServerRack.
    SiegeTraining,
    /// Unlocks MechCommander training at ServerRack.
    MechPrototype,
    // --- The Murder (Corvids) ---
    /// +2 damage for all Murder combat units.
    SharperTalons,
    /// +20 HP for all Murder combat units.
    HardenedPlumage,
    /// +10% speed for all Murder units.
    SwiftWings,
    /// Unlocks Dusktalon training at AntennaArray.
    AssassinTraining,
    // --- Seekers of the Deep (Badgers) ---
    SharperFangs,
    ReinforcedHide,
    SteadyStance,
    SiegeEngineering,
    ExosuitPrototype,
    // --- The Clawed (Mice) ---
    /// +2 damage for all Clawed combat units.
    SharperTeeth,
    /// +20 HP for all Clawed combat units.
    ThickerHide,
    /// +10% speed for all Clawed units.
    QuickPaws,
    /// Unlocks advanced Gnawer siege abilities.
    AdvancedGnawing,
    /// Unlocks WarrenMarshal training at JunkTransmitter.
    WarrenProtocol,
    /// Unlocks CorvusRex training at AntennaArray.
    RexPrototype,
    // --- Croak (Axolotls) ---
    /// +15% HP for all Croak combat units.
    TougherHide,
    /// +10% speed for all Croak units.
    SlickerMucus,
    /// +0.5% HP/s regen for all Croak units on water.
    AmphibianAgility,
    /// Unlocks Shellwarden training at SunkenServer.
    SiegeEvolution,
    /// Unlocks MurkCommander training at SunkenServer.
    MurkPrototype,
    // --- LLAMA (Raccoons) ---
    /// +2 damage for LLAMA combat units.
    RustyFangs,
    /// +25 HP for LLAMA combat units.
    ScrapPlating,
    /// +10% speed for LLAMA units.
    TrashRunning,
    /// Unlocks advanced Grease Monkey mode at Chop Shop.
    SiegeWelding,
    /// Unlocks Junkyard King training at TinkerBench.
    MechSalvage,
}

impl UpgradeType {
    /// The variant's name as text.
    pub open spec fn name_text(self) -> Seq<char> {
        match self {
            UpgradeType::SharperClaws => "SharperClaws"@,
            UpgradeType::ThickerFur => "ThickerFur"@,
            UpgradeType::NimblePaws => "NimblePaws"@,
            UpgradeType::SiegeTraining => "SiegeTraining"@,
            UpgradeType::MechPrototype => "MechPrototype"@,
            UpgradeType::SharperTalons => "SharperTalons"@,
            UpgradeType::HardenedPlumage => "HardenedPlumage"@,
            UpgradeType::SwiftWings => "SwiftWings"@,
            UpgradeType::AssassinTraining => "AssassinTraining"@,
            UpgradeType::SharperFangs => "SharperFangs"@,
            UpgradeType::ReinforcedHide => "ReinforcedHide"@,
            UpgradeType::SteadyStance => "SteadyStance"@,
            UpgradeType::SiegeEngineering => "SiegeEngineering"@,
            UpgradeType::ExosuitPrototype => "ExosuitPrototype"@,
            UpgradeType::SharperTeeth => "SharperTeeth"@,
            UpgradeType::ThickerHide => "ThickerHide"@,
            UpgradeType::QuickPaws => "QuickPaws"@,
            UpgradeType::AdvancedGnawing => "AdvancedGnawing"@,
            UpgradeType::WarrenProtocol => "WarrenProtocol"@,
            UpgradeType::RexPrototype => "RexPrototype"@,
            UpgradeType::TougherHide => "TougherHide"@,
            UpgradeType::SlickerMucus => "SlickerMucus"@,
            UpgradeType::AmphibianAgility => "AmphibianAgility"@,
            UpgradeType::SiegeEvolution => "SiegeEvolution"@,
            UpgradeType::MurkPrototype => "MurkPrototype"@,
            UpgradeType::RustyFangs => "RustyFangs"@,
            UpgradeType::ScrapPlating => "ScrapPlating"@,
            UpgradeType::TrashRunning => "TrashRunning"@,
            UpgradeType::SiegeWelding => "SiegeWelding"@,
            UpgradeType::MechSalvage => "MechSalvage"@,
        }
    }

    /// The variant's name.
    pub fn name(&self) -> (s: &'static str)
        ensures
            s@ == self.name_text(),
    {
        match self {
            UpgradeType::SharperClaws => "SharperClaws",
            UpgradeType::ThickerFur => "ThickerFur",
            UpgradeType::NimblePaws => "NimblePaws",
            UpgradeType::SiegeTraining => "SiegeTraining",
            UpgradeType::MechPrototype => "MechPrototype",
            UpgradeType::SharperTalons => "SharperTalons",
            UpgradeType::HardenedPlumage => "HardenedPlumage",
            UpgradeType::SwiftWings => "SwiftWings",
            UpgradeType::AssassinTraining => "AssassinTraining",
            UpgradeType::SharperFangs => "SharperFangs",
            UpgradeType::ReinforcedHide => "ReinforcedHide",
            UpgradeType::SteadyStance => "SteadyStance",
            UpgradeType::SiegeEngineering => "SiegeEngineering",
            UpgradeType::ExosuitPrototype => "ExosuitPrototype",
            UpgradeType::SharperTeeth => "SharperTeeth",
            UpgradeType::ThickerHide => "ThickerHide",
            UpgradeType::QuickPaws => "QuickPaws",
            UpgradeType::AdvancedGnawing => "AdvancedGnawing",
            UpgradeType::WarrenProtocol => "WarrenProtocol",
            UpgradeType::RexPrototype => "RexPrototype",
            UpgradeType::TougherHide => "TougherHide",
            UpgradeType::SlickerMucus => "SlickerMucus",
            UpgradeType::AmphibianAgility => "AmphibianAgility",
            UpgradeType::SiegeEvolution => "SiegeEvolution",
            UpgradeType::MurkPrototype => "MurkPrototype",
            UpgradeType::RustyFangs => "RustyFangs",
            UpgradeType::ScrapPlating => "ScrapPlating",
            UpgradeType::TrashRunning => "TrashRunning",
            UpgradeType::SiegeWelding => "SiegeWelding",
            UpgradeType::MechSalvage => "MechSalvage",
        }
    }

    /// The variant's name as an owned string (what `Display` would print).
    pub fn to_string(&self) -> (s: String)
        ensures
            s@ == self.name_text(),
    {
        owned(self.name())
    }

    /// The variant whose name is `s`, if any.
    pub open spec fn parse_text(s: Seq<char>) -> Option<UpgradeType> {
        if s == UpgradeType::SharperClaws.name_text() {
            Some(UpgradeType::SharperClaws)
        } else if s == UpgradeType::ThickerFur.name_text() {
            Some(UpgradeType::ThickerFur)
        } else if s == UpgradeType::NimblePaws.name_text() {
            Some(UpgradeType::NimblePaws)
        } else if s == UpgradeType::SiegeTraining.name_text() {
            Some(UpgradeType::SiegeTraining)
        } else if s == UpgradeType::MechPrototype.name_text() {
            Some(UpgradeType::MechPrototype)
        } else if s == UpgradeType::SharperTalons.name_text() {
            Some(UpgradeType::SharperTalons)
        } else if s == UpgradeType::HardenedPlumage.name_text() {
            Some(UpgradeType::HardenedPlumage)
        } else if s == UpgradeType::SwiftWings.name_text() {
            Some(UpgradeType::SwiftWings)
        } else if s == UpgradeType::AssassinTraining.name_text() {
            Some(UpgradeType::AssassinTraining)
        } else if s == UpgradeType::SharperFangs.name_text() {
            Some(UpgradeType::SharperFangs)
        } else if s == UpgradeType::ReinforcedHide.name_text() {
            Some(UpgradeType::ReinforcedHide)
        } else if s == UpgradeType::SteadyStance.name_text() {
            Some(UpgradeType::SteadyStance)
        } else if s == UpgradeType::SiegeEngineering.name_text() {
            Some(UpgradeType::SiegeEngineering)
        } else if s == UpgradeType::ExosuitPrototype.name_text() {
            Some(UpgradeType::ExosuitPrototype)
        } else if s == UpgradeType::SharperTeeth.name_text() {
            Some(UpgradeType::SharperTeeth)
        } else if s == UpgradeType::ThickerHide.name_text() {
            Some(UpgradeType::ThickerHide)
        } else if s == UpgradeType::QuickPaws.name_text() {
            Some(UpgradeType::QuickPaws)
        } else if s == UpgradeType::AdvancedGnawing.name_text() {
            Some(UpgradeType::AdvancedGnawing)
        } else if s == UpgradeType::WarrenProtocol.name_text() {
            Some(UpgradeType::WarrenProtocol)
        } else if s == UpgradeType::RexPrototype.name_text() {
            Some(UpgradeType::RexPrototype)
        } else if s == UpgradeType::TougherHide.name_text() {
            Some(UpgradeType::TougherHide)
        } else if s == UpgradeType::SlickerMucus.name_text() {
            Some(UpgradeType::SlickerMucus)
        } else if s == UpgradeType::AmphibianAgility.name_text() {
            Some(UpgradeType::AmphibianAgility)
        } else if s == UpgradeType::SiegeEvolution.name_text() {
            Some(UpgradeType::SiegeEvolution)
        } else if s == UpgradeType::MurkPrototype.name_text() {
            Some(UpgradeType::MurkPrototype)
        } else if s == UpgradeType::RustyFangs.name_text() {
            Some(UpgradeType::RustyFangs)
        } else if s == UpgradeType::ScrapPlating.name_text() {
            Some(UpgradeType::ScrapPlating)
        } else if s == UpgradeType::TrashRunning.name_text() {
            Some(UpgradeType::TrashRunning)
        } else if s == UpgradeType::SiegeWelding.name_text() {
            Some(UpgradeType::SiegeWelding)
        } else if s == UpgradeType::MechSalvage.name_text() {
            Some(UpgradeType::MechSalvage)
        } else {
            None
        }
    }

    /// Parses a name; `None` for any text that names no variant.
    pub fn parse_name(s: &str) -> (r: Option<UpgradeType>)
        ensures
            r == UpgradeType::parse_text(s@),
    {
        if str_eq(s, "SharperClaws") {
            Some(UpgradeType::SharperClaws)
        } else if str_eq(s, "ThickerFur") {
            Some(UpgradeType::ThickerFur)
        } else if str_eq(s, "NimblePaws") {
            Some(UpgradeType::NimblePaws)
        } else if str_eq(s, "SiegeTraining") {
            Some(UpgradeType::SiegeTraining)
        } else if str_eq(s, "MechPrototype") {
            Some(UpgradeType::MechPrototype)
        } else if str_eq(s, "SharperTalons") {
            Some(UpgradeType::SharperTalons)
        } else if str_eq(s, "HardenedPlumage") {
            Some(UpgradeType::HardenedPlumage)
        } else if str_eq(s, "SwiftWings") {
            Some(UpgradeType::SwiftWings)
        } else if str_eq(s, "AssassinTraining") {
            Some(UpgradeType::AssassinTraining)
        } else if str_eq(s, "SharperFangs") {
            Some(UpgradeType::SharperFangs)
        } else if str_eq(s, "ReinforcedHide") {
            Some(UpgradeType::ReinforcedHide)
        } else if str_eq(s, "SteadyStance") {
            Some(UpgradeType::SteadyStance)
        } else if str_eq(s, "SiegeEngineering") {
            Some(UpgradeType::SiegeEngineering)
        } else if str_eq(s, "ExosuitPrototype") {
            Some(UpgradeType::ExosuitPrototype)
        } else if str_eq(s, "SharperTeeth") {
            Some(UpgradeType::SharperTeeth)
        } else if str_eq(s, "ThickerHide") {
            Some(UpgradeType::ThickerHide)
        } else if str_eq(s, "QuickPaws") {
            Some(UpgradeType::QuickPaws)
        } else if str_eq(s, "AdvancedGnawing") {
            Some(UpgradeType::AdvancedGnawing)
        } else if str_eq(s, "WarrenProtocol") {
            Some(UpgradeType::WarrenProtocol)
        } else if str_eq(s, "RexPrototype") {
            Some(UpgradeType::RexPrototype)
        } else if str_eq(s, "TougherHide") {
            Some(UpgradeType::TougherHide)
        } else if str_eq(s, "SlickerMucus") {
            Some(UpgradeType::SlickerMucus)
        } else if str_eq(s, "AmphibianAgility") {
            Some(UpgradeType::AmphibianAgility)
        } else if str_eq(s, "SiegeEvolution") {
            Some(UpgradeType::SiegeEvolution)
        } else if str_eq(s, "MurkPrototype") {
            Some(UpgradeType::MurkPrototype)
        } else if str_eq(s, "RustyFangs") {
            Some(UpgradeType::RustyFangs)
        } else if str_eq(s, "ScrapPlating") {
            Some(UpgradeType::ScrapPlating)
        } else if str_eq(s, "TrashRunning") {
            Some(UpgradeType::TrashRunning)
        } else if str_eq(s, "SiegeWelding") {
            Some(UpgradeType::SiegeWelding)
        } else if str_eq(s, "MechSalvage") {
            Some(UpgradeType::MechSalvage)
        } else {
            None
        }
    }
}

/// Distinct variants of `UpgradeType` have distinct names.
pub proof fn lemma_upgrade_type_names_distinct(t: UpgradeType, u: UpgradeType)
    ensures
        t.name_text() == u.name_text() ==> t == u,
{
    reveal_strlit("AdvancedGnawing");
    reveal_strlit("AmphibianAgility");
    reveal_strlit("AssassinTraining");
    reveal_strlit("ExosuitPrototype");
    reveal_strlit("HardenedPlumage");
    reveal_strlit("MechPrototype");
    reveal_strlit("MechSalvage");
    reveal_strlit("MurkPrototype");
    reveal_strlit("NimblePaws");
    reveal_strlit("QuickPaws");
    reveal_strlit("ReinforcedHide");
    reveal_strlit("RexPrototype");
    reveal_strlit("RustyFangs");
    reveal_strlit("ScrapPlating");
    reveal_strlit("SharperClaws");
    reveal_strlit("SharperFangs");
    reveal_strlit("SharperTalons");
    reveal_strlit("SharperTeeth");
    reveal_strlit("SiegeEngineering");
    reveal_strlit("SiegeEvolution");
    reveal_strlit("SiegeTraining");
    reveal_strlit("SiegeWelding");
    reveal_strlit("SlickerMucus");
    reveal_strlit("SteadyStance");
    reveal_strlit("SwiftWings");
    reveal_strlit("ThickerFur");
    reveal_strlit("ThickerHide");
    reveal_strlit("TougherHide");
    reveal_strlit("TrashRunning");
    reveal_strlit("WarrenProtocol");
    if t.name_text() == u.name_text() {
        assert(t.name_text().len() == u.name_text().len());
        assert(t.name_text()[0] == u.name_text()[0]);
        assert(t.name_text()[1] == u.name_text()[1]);
        assert(t.name_text()[2] == u.name_text()[2]);
        assert(t.name_text()[3] == u.name_text()[3]);
        assert(t.name_text()[4] == u.name_text()[4]);
        assert(t.name_text()[5] == u.name_text()[5]);
        assert(t.name_text()[6] == u.name_text()[6]);
        assert(t.name_text()[7] == u.name_text()[7]);
    }
}

/// Every `UpgradeType` parses back from its own name, and text that parses names the variant it parses to.
pub proof fn lemma_upgrade_type_name_round_trip(t: UpgradeType, s: Seq<char>)
    ensures
        UpgradeType::parse_text(t.name_text()) == Some(t),
        UpgradeType::parse_text(s) matches Some(u) ==> u.name_text() == s,
{
    assert forall|a: UpgradeType, b: UpgradeType| a.name_text() == b.name_text() implies a == b by {
        lemma_upgrade_type_names_distinct(a, b);
    }
    lemma_upgrade_type_names_distinct(t, UpgradeType::SharperClaws);
    lemma_upgrade_type_names_distinct(t, UpgradeType::ThickerFur);
    lemma_upgrade_type_names_distinct(t, UpgradeType::NimblePaws);
    lemma_upgrade_type_names_distinct(t, UpgradeType::SiegeTraining);
    lemma_upgrade_type_names_distinct(t, UpgradeType::MechPrototype);
    lemma_upgrade_type_names_distinct(t, UpgradeType::SharperTalons);
    lemma_upgrade_type_names_distinct(t, UpgradeType::HardenedPlumage);
    lemma_upgrade_type_names_distinct(t, UpgradeType::SwiftWings);
    lemma_upgrade_type_names_distinct(t, UpgradeType::AssassinTraining);
    lemma_upgrade_type_names_distinct(t, UpgradeType::SharperFangs);
    lemma_upgrade_type_names_distinct(t, UpgradeType::ReinforcedHide);
    lemma_upgrade_type_names_distinct(t, UpgradeType::SteadyStance);
    lemma_upgrade_type_names_distinct(t, UpgradeType::SiegeEngineering);
    lemma_upgrade_type_names_distinct(t, UpgradeType::ExosuitPrototype);
    lemma_upgrade_type_names_distinct(t, UpgradeType::SharperTeeth);
    lemma_upgrade_type_names_distinct(t, UpgradeType::ThickerHide);
    lemma_upgrade_type_names_distinct(t, UpgradeType::QuickPaws);
    lemma_upgrade_type_names_distinct(t, UpgradeType::AdvancedGnawing);
    lemma_upgrade_type_names_distinct(t, UpgradeType::WarrenProtocol);
    lemma_upgrade_type_names_distinct(t, UpgradeType::RexPrototype);
    lemma_upgrade_type_names_distinct(t, UpgradeType::TougherHide);
    lemma_upgrade_type_names_distinct(t, UpgradeType::SlickerMucus);
    lemma_upgrade_type_names_distinct(t, UpgradeType::AmphibianAgility);
    lemma_upgrade_type_names_distinct(t, UpgradeType::SiegeEvolution);
    lemma_upgrade_type_names_distinct(t, UpgradeType::MurkPrototype);
    lemma_upgrade_type_names_distinct(t, UpgradeType::RustyFangs);
    lemma_upgrade_type_names_distinct(t, UpgradeType::ScrapPlating);
    lemma_upgrade_type_names_distinct(t, UpgradeType::TrashRunning);
    lemma_upgrade_type_names_distinct(t, UpgradeType::SiegeWelding);
    lemma_upgrade_type_names_distinct(t, UpgradeType::MechSalvage);
}

impl std::str::FromStr for UpgradeType {
    type Err = ();

    fn from_str(s: &str) -> (r: Result<UpgradeType, ()>)
        ensures
            r == (match UpgradeType::parse_text(s@) {
                Some(t) => Ok(t),
                None => Err(()),
            }),
    {
        match UpgradeType::parse_name(s) {
            Some(t) => Ok(t),
            None => Err(()),
        }
    }
}

/// Research queue for a ScratchingPost (parallels ProductionQueue).
#[derive(Debug, Clone)]
pub struct ResearchQueue {
    pub queue: VecDeque<(UpgradeType, u32)>, // (upgrade, ticks_remaining)
}

impl Default for ResearchQueue {
    /// An empty queue.
    fn default() -> (q: ResearchQueue)
        ensures
            q.queue@.len() == 0,
    {
        ResearchQueue { queue: VecDeque::new() }
    }
}

/// Marker: this building can perform research (fully constructed ScratchingPost).
#[derive(Debug, Clone, Copy)]
pub struct Researcher;

/// Marks an entity as a named hero character.
/// Heroes are regular units with boosted stats and story significance.
#[derive(Debug, Clone, Copy)]
pub struct HeroIdentity {
    pub hero_id: HeroId,
    /// If true, mission fails when this hero dies.
    pub mission_critical: bool,
}

/// Marks an entity as belonging to a specific enemy wave (for WaveEliminated tracking).
#[derive(Debug, Clone)]
pub struct WaveMember {
    pub wave_id: String,
}

/// Tracks Gnawer structural weakness stacks against buildings.
/// Each consecutive attack on the same building adds a stack, increasing damage.
#[derive(Debug, Clone, Copy)]
pub struct StructuralWeaknessTimer {
    pub stacks: u32,
    pub target_entity: Option<EntityId>,
}

impl Default for StructuralWeaknessTimer {
    /// No stacks, no target.
    fn default() -> (d: StructuralWeaknessTimer)
        ensures
            d.stacks == 0,
            d.target_entity is None,
    {
        StructuralWeaknessTimer { stacks: 0, target_entity: None }
    }
}

/// Tracks Sparks static charge stacks, accumulated during movement.
#[derive(Debug, Clone, Copy)]
pub struct StaticChargeStacks {
    pub stacks: u32,
}

impl Default for StaticChargeStacks {
    /// No stacks.
    fn default() -> (d: StaticChargeStacks)
        ensures
            d.stacks == 0,
    {
        StaticChargeStacks { stacks: 0 }
    }
}

/// Marker: Plaguetail spawns a contagion cloud on death.
#[derive(Debug, Clone, Copy)]
pub struct ContagionCloudOnDeath;

/// Marker: this unit is aerial -- ignores terrain pathing, immune to melee unless Grounded.
#[derive(Debug, Clone, Copy)]
pub struct Aerial;

/// Marker: aerial unit is temporarily grounded -- can be hit by melee, cannot fly.
#[derive(Debug, Clone, Copy)]
pub struct Grounded {
    pub remaining_ticks: u32,
}

/// Murder-specific debuff: target is visible through fog to all Murder units.
#[derive(Debug, Clone, Copy)]
pub struct Exposed {
    pub remaining_ticks: u32,
    pub source_player: u8,
}

/// Tracks Murder's Mark debuff on an enemy unit.
#[derive(Debug, Clone, Copy)]
pub struct MurdersMarkDebuff {
    pub remaining_ticks: u32,
}

/// Tracks Magpike's Trinket Ward passive stacking.
#[derive(Debug, Clone, Copy)]
pub struct TrinketWardTracker {
    pub trinkets_collected: u32,
}

/// Tracks Hootseer's Panoptic Gaze cone direction.
#[derive(Debug, Clone, Copy)]
pub struct PanopticGazeCone {
    pub direction: Fixed,
    pub half_angle: Fixed,
}

/// Unique building limit tracker (e.g., Panopticon is limit-1).
#[derive(Debug, Clone, Copy)]
pub struct UniqueBuildingLimit;

#[derive(Debug, Clone, Copy)]
pub struct StationaryTimer {
    pub ticks_stationary: u32,
    pub dug_in: bool,
}

impl Default for StationaryTimer {
    /// Not stationary, not dug in.
    fn default() -> (d: StationaryTimer)
        ensures
            d.ticks_stationary == 0,
            d.dug_in == false,
    {
        StationaryTimer { ticks_stationary: 0, dug_in: false }
    }
}

#[derive(Debug, Clone, Copy)]
pub struct HeavyUnit;

#[derive(Debug, Clone, Copy)]
pub struct Entrenched;

#[derive(Debug, Clone, Copy)]
pub struct FrenzyStacks {
    pub current_stacks: u32,
    pub frozen_until_tick: u64,
}

impl Default for FrenzyStacks {
    /// No stacks, not frozen.
    fn default() -> (d: FrenzyStacks)
        ensures
            d.current_stacks == 0,
            d.frozen_until_tick == 0,
    {
        FrenzyStacks { current_stacks: 0, frozen_until_tick: 0 }
    }
}

#[derive(Debug, Clone, Copy)]
pub struct BloodgreedTracker {
    pub lifesteal_fraction: Fixed,
}

/// Tracks the Limb Economy for axolotl units (Regeneron).
#[derive(Debug, Clone, Copy)]
pub struct LimbTracker {
    pub current_limbs: u8,
    pub max_limbs: u8,
    pub regen_ticks: u32,
}

/// Marker: Croak unit is standing on water and receiving Water Affinity bonuses.
#[derive(Debug, Clone, Copy)]
pub struct WaterAffinityBuff;

/// Tracks Broodmother's active Spawnlings.
#[derive(Debug, Clone, Copy)]
pub struct SpawnlingCounter {
    pub count: u8,
    pub spawn_cooldown: u32,
}

/// Links a Spawnling back to its parent Broodmother.
#[derive(Debug, Clone, Copy)]
pub struct SpawnlingParent {
    pub parent_entity: EntityId,
}

/// Tracks Croaker's active Bog Patches for Resonance Chain logic.
#[derive(Debug, Clone)]
pub struct BogPatchCounter {
    pub active_patches: Vec<(i32, i32)>,
}

/// Tracks Gulper's Devour ability state.
#[derive(Debug, Clone, Copy)]
pub struct DevourState {
    pub swallowed_entity: EntityId,
    pub swallowed_max_hp: Fixed,
    pub digest_ticks_remaining: u32,
    pub digest_damage_per_tick: Fixed,
    pub temp_shields: Fixed,
}

/// Marker: Shellwarden is in Hunker mode (75% DR, immobile, reflects damage).
#[derive(Debug, Clone, Copy)]
pub struct Hunkered;

/// Marker: Eftsaber is submerged via Waterway (untargetable, invisible, water-only movement).
#[derive(Debug, Clone, Copy)]
pub struct Submerged;

/// Stasis state from MurkCommander's Undying Presence aura.
#[derive(Debug, Clone, Copy)]
pub struct Stasis {
    pub remaining_ticks: u32,
    pub revive_hp_fraction: Fixed,
    pub per_unit_cooldown_tick: u64,
}

/// Current cursor position in grid coordinates, updated each frame by the client.
///
/// Engine-agnostic data — the client writes it, voice/AI systems read it.
#[derive(Debug, Clone, Copy)]
pub struct CursorGridPos {
    pub pos: Option<GridPos>,
}

impl Default for CursorGridPos {
    /// No cursor position known.
    fn default() -> (d: CursorGridPos)
        ensures
            d.pos is None,
    {
        CursorGridPos { pos: None }
    }
}

} // verus!