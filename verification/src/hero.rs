//! Named campaign heroes: their base unit, stat modifiers, names and factions.

use crate::components::{Faction, UnitKind};
use crate::math::Fixed;
use vstd::prelude::*;

verus! {

/// Named hero characters in the campaign.
#[derive(Debug, Clone, Copy, PartialEq, Eq, Hash, Structural)]
pub enum HeroId {
    /// Kelpie — otter protagonist, Polyglot Protocol wielder.
    Kelpie,
    /// Commander Felix Nine — catGPT military leader, MechCommander.
    FelixNine,
    /// Thimble — Clawed (mice) hero, Nuisance-type scout.
    Thimble,
    /// Mother Granite — Seekers of the Deep (badgers) hero, heavy tank.
    MotherGranite,
    /// Rex Solstice — The Murder (corvids) hero, air striker.
    RexSolstice,
    /// King Ringtail — LLAMA (raccoons) hero, chaotic demo expert.
    KingRingtail,
    /// The Eternal — Croak (axolotls) hero, regenerating tank.
    TheEternal,
    /// Patches — catGPT Mouser scout, secondary hero.
    Patches,
}

/// Additive/multiplicative stat modifiers for heroes on top of base unit stats.
#[derive(Debug, Clone, Copy, PartialEq, Eq, Structural)]
pub struct HeroStatModifiers {
    /// Added to base HP.
    pub health_bonus: Fixed,
    /// Multiplied with base speed (1.0 = no change).
    pub speed_multiplier: Fixed,
    /// Added to base damage.
    pub damage_bonus: Fixed,
    /// Added to base range.
    pub range_bonus: Fixed,
}

/// All static data for a hero character, consolidated from the four parallel
/// match blocks (base_kind, modifiers, name, faction) into one struct.
#[derive(Debug, Clone, Copy)]
pub struct HeroData {
    /// Base unit template for this hero.
    pub base_kind: UnitKind,
    /// Stat modifiers on top of the base unit stats.
    pub modifiers: HeroStatModifiers,
    /// Display name.
    pub name: &'static str,
    /// Faction affiliation.
    pub faction: Faction,
}

/// The base unit each hero is built on.
pub open spec fn spec_hero_base_kind(hero: HeroId) -> UnitKind {
    match hero {
        HeroId::Kelpie => UnitKind::Nuisance,
        HeroId::FelixNine => UnitKind::MechCommander,
        HeroId::Thimble => UnitKind::Nuisance,
        HeroId::MotherGranite => UnitKind::Chonk,
        HeroId::RexSolstice => UnitKind::FlyingFox,
        HeroId::KingRingtail => UnitKind::FerretSapper,
        HeroId::TheEternal => UnitKind::Chonk,
        HeroId::Patches => UnitKind::Mouser,
    }
}

/// Each hero's stat modifiers (raw 16.16 bits).
pub open spec fn spec_hero_modifiers(hero: HeroId) -> HeroStatModifiers {
    match hero {
        HeroId::Kelpie => modifier_bits(2621440, 78643, 262144, 0),
        HeroId::FelixNine => modifier_bits(6553600, 65536, 524288, 65536),
        HeroId::Thimble => modifier_bits(1966080, 85196, 196608, 0),
        HeroId::MotherGranite => modifier_bits(13107200, 58982, 393216, 0),
        HeroId::RexSolstice => modifier_bits(1966080, 72089, 655360, 131072),
        HeroId::KingRingtail => modifier_bits(3276800, 78643, 983040, 0),
        HeroId::TheEternal => modifier_bits(16384000, 52428, 327680, 0),
        HeroId::Patches => modifier_bits(1638400, 78643, 327680, 0),
    }
}

/// Modifiers from raw bits: health bonus, speed multiplier, damage bonus, range bonus.
pub open spec fn modifier_bits(health: i32, speed: i32, damage: i32, range: i32) -> HeroStatModifiers {
    HeroStatModifiers {
        health_bonus: Fixed { bits: health },
        speed_multiplier: Fixed { bits: speed },
        damage_bonus: Fixed { bits: damage },
        range_bonus: Fixed { bits: range },
    }
}

/// Each hero's display name.
pub open spec fn hero_name_text(hero: HeroId) -> Seq<char> {
    match hero {
        HeroId::Kelpie => "Kelpie"@,
        HeroId::FelixNine => "Commander Felix Nine"@,
        HeroId::Thimble => "Marshal Thimble"@,
        HeroId::MotherGranite => "Mother Granite"@,
        HeroId::RexSolstice => "Rex Solstice"@,
        HeroId::KingRingtail => "King Ringtail"@,
        HeroId::TheEternal => "The Eternal"@,
        HeroId::Patches => "Patches"@,
    }
}

/// Each hero's faction.
pub open spec fn spec_hero_faction(hero: HeroId) -> Faction {
    match hero {
        HeroId::Kelpie => Faction::Neutral,
        HeroId::FelixNine => Faction::CatGpt,
        HeroId::Thimble => Faction::TheClawed,
        HeroId::MotherGranite => Faction::SeekersOfTheDeep,
        HeroId::RexSolstice => Faction::TheMurder,
        HeroId::KingRingtail => Faction::Llama,
        HeroId::TheEternal => Faction::Croak,
        HeroId::Patches => Faction::CatGpt,
    }
}

/// Each hero's file-name slug.
pub open spec fn hero_slug_text(hero: HeroId) -> Seq<char> {
    match hero {
        HeroId::Kelpie => "kelpie"@,
        HeroId::FelixNine => "felix_nine"@,
        HeroId::Thimble => "thimble"@,
        HeroId::MotherGranite => "mother_granite"@,
        HeroId::RexSolstice => "rex_solstice"@,
        HeroId::KingRingtail => "king_ringtail"@,
        HeroId::TheEternal => "the_eternal"@,
        HeroId::Patches => "patches"@,
    }
}

/// Returns all static data for a hero in a single lookup.
pub fn hero_data(hero: HeroId) -> (d: HeroData)
    ensures
        d.base_kind == spec_hero_base_kind(hero),
        d.modifiers == spec_hero_modifiers(hero),
        d.name@ == hero_name_text(hero),
        d.faction == spec_hero_faction(hero),
{
    match hero {
        HeroId::Kelpie => HeroData {
            base_kind: UnitKind::Nuisance,
            modifiers: HeroStatModifiers {
                health_bonus: Fixed::from_bits(2621440),
                speed_multiplier: Fixed::from_bits(78643),
                damage_bonus: Fixed::from_bits(262144),
                range_bonus: Fixed::from_bits(0),
            },
            name: "Kelpie",
            faction: Faction::Neutral,
        },
        HeroId::FelixNine => HeroData {
            base_kind: UnitKind::MechCommander,
            modifiers: HeroStatModifiers {
                health_bonus: Fixed::from_bits(6553600),
                speed_multiplier: Fixed::from_bits(65536),
                damage_bonus: Fixed::from_bits(524288),
                range_bonus: Fixed::from_bits(65536),
            },
            name: "Commander Felix Nine",
            faction: Faction::CatGpt,
        },
        HeroId::Thimble => HeroData {
            base_kind: UnitKind::Nuisance,
            modifiers: HeroStatModifiers {
                health_bonus: Fixed::from_bits(1966080),
                speed_multiplier: Fixed::from_bits(85196),
                damage_bonus: Fixed::from_bits(196608),
                range_bonus: Fixed::from_bits(0),
            },
            name: "Marshal Thimble",
            faction: Faction::TheClawed,
        },
        HeroId::MotherGranite => HeroData {
            base_kind: UnitKind::Chonk,
            modifiers: HeroStatModifiers {
                health_bonus: Fixed::from_bits(13107200),
                speed_multiplier: Fixed::from_bits(58982),
                damage_bonus: Fixed::from_bits(393216),
                range_bonus: Fixed::from_bits(0),
            },
            name: "Mother Granite",
            faction: Faction::SeekersOfTheDeep,
        },
        HeroId::RexSolstice => HeroData {
            base_kind: UnitKind::FlyingFox,
            modifiers: HeroStatModifiers {
                health_bonus: Fixed::from_bits(1966080),
                speed_multiplier: Fixed::from_bits(72089),
                damage_bonus: Fixed::from_bits(655360),
                range_bonus: Fixed::from_bits(131072),
            },
            name: "Rex Solstice",
            faction: Faction::TheMurder,
        },
        HeroId::KingRingtail => HeroData {
            base_kind: UnitKind::FerretSapper,
            modifiers: HeroStatModifiers {
                health_bonus: Fixed::from_bits(3276800),
                speed_multiplier: Fixed::from_bits(78643),
                damage_bonus: Fixed::from_bits(983040),
                range_bonus: Fixed::from_bits(0),
            },
            name: "King Ringtail",
            faction: Faction::Llama,
        },
        HeroId::TheEternal => HeroData {
            base_kind: UnitKind::Chonk,
            modifiers: HeroStatModifiers {
                health_bonus: Fixed::from_bits(16384000),
                speed_multiplier: Fixed::from_bits(52428),
                damage_bonus: Fixed::from_bits(327680),
                range_bonus: Fixed::from_bits(0),
            },
            name: "The Eternal",
            faction: Faction::Croak,
        },
        HeroId::Patches => HeroData {
            base_kind: UnitKind::Mouser,
            modifiers: HeroStatModifiers {
                health_bonus: Fixed::from_bits(1638400),
                speed_multiplier: Fixed::from_bits(78643),
                damage_bonus: Fixed::from_bits(327680),
                range_bonus: Fixed::from_bits(0),
            },
            name: "Patches",
            faction: Faction::CatGpt,
        },
    }
}

/// All hero IDs in canonical order.
pub const ALL_HEROES: [HeroId; 8] = [
    HeroId::Kelpie,
    HeroId::FelixNine,
    HeroId::Thimble,
    HeroId::MotherGranite,
    HeroId::RexSolstice,
    HeroId::KingRingtail,
    HeroId::TheEternal,
    HeroId::Patches,
];

/// Returns the file-name slug for a hero (e.g. "king_ringtail", "the_eternal").
pub fn hero_slug(hero: HeroId) -> (s: &'static str)
    ensures
        s@ == hero_slug_text(hero),
{
    match hero {
        HeroId::Kelpie => "kelpie",
        HeroId::FelixNine => "felix_nine",
        HeroId::Thimble => "thimble",
        HeroId::MotherGranite => "mother_granite",
        HeroId::RexSolstice => "rex_solstice",
        HeroId::KingRingtail => "king_ringtail",
        HeroId::TheEternal => "the_eternal",
        HeroId::Patches => "patches",
    }
}

/// Maps a hero to their base unit template.
/// Convenience wrapper around `hero_data`.
pub fn hero_base_kind(hero: HeroId) -> (k: UnitKind)
    ensures
        k == spec_hero_base_kind(hero),
{
    hero_data(hero).base_kind
}

/// Returns the stat modifiers for a given hero.
/// Convenience wrapper around `hero_data`.
pub fn hero_modifiers(hero: HeroId) -> (m: HeroStatModifiers)
    ensures
        m == spec_hero_modifiers(hero),
{
    hero_data(hero).modifiers
}

/// Display name for hero characters.
/// Convenience wrapper around `hero_data`.
pub fn hero_name(hero: HeroId) -> (s: &'static str)
    ensures
        s@ == hero_name_text(hero),
{
    hero_data(hero).name
}

/// Faction affiliation for each hero (as Faction enum).
/// Convenience wrapper around `hero_data`.
pub fn hero_faction(hero: HeroId) -> (f: Faction)
    ensures
        f == spec_hero_faction(hero),
{
    hero_data(hero).faction
}

/// Faction affiliation for each hero as a string.
/// Convenience wrapper for backward compatibility.
pub fn hero_faction_str(hero: HeroId) -> (s: &'static str)
    ensures
        s@ == spec_hero_faction(hero).name_text(),
{
    hero_data(hero).faction.as_str()
}

/// The canonical list names every hero exactly once.
pub proof fn lemma_all_heroes_complete(hero: HeroId)
    ensures
        exists|i: int| 0 <= i < 8 && #[trigger] ALL_HEROES@[i] == hero,
        forall|i: int, j: int| 0 <= i < j < 8 ==> ALL_HEROES@[i] != ALL_HEROES@[j],
{
    match hero {
        HeroId::Kelpie => assert(ALL_HEROES@[0] == hero),
        HeroId::FelixNine => assert(ALL_HEROES@[1] == hero),
        HeroId::Thimble => assert(ALL_HEROES@[2] == hero),
        HeroId::MotherGranite => assert(ALL_HEROES@[3] == hero),
        HeroId::RexSolstice => assert(ALL_HEROES@[4] == hero),
        HeroId::KingRingtail => assert(ALL_HEROES@[5] == hero),
        HeroId::TheEternal => assert(ALL_HEROES@[6] == hero),
        HeroId::Patches => assert(ALL_HEROES@[7] == hero),
    }
}

/// Hero modifiers never weaken the base unit: the bonuses are non-negative
/// and the speed multiplier is positive.
pub proof fn lemma_hero_modifiers_non_negative(hero: HeroId)
    ensures
        spec_hero_modifiers(hero).health_bonus.bits >= 0,
        spec_hero_modifiers(hero).speed_multiplier.bits > 0,
        spec_hero_modifiers(hero).damage_bonus.bits >= 0,
        spec_hero_modifiers(hero).range_bonus.bits >= 0,
{
}

/// Whether `c` is an ASCII letter, digit or underscore.
pub open spec fn is_slug_char(c: char) -> bool {
    ('a' <= c <= 'z') || ('A' <= c <= 'Z') || ('0' <= c <= '9') || c == '_'
}

/// Every hero has a non-empty name, and a non-empty slug made of ASCII
/// letters, digits and underscores.
pub proof fn lemma_hero_texts_well_formed(hero: HeroId)
    ensures
        hero_name_text(hero).len() > 0,
        hero_slug_text(hero).len() > 0,
        forall|i: int| 0 <= i < hero_slug_text(hero).len() ==> is_slug_char(#[trigger] hero_slug_text(hero)[i]),
{
    reveal_strlit("Kelpie");
    reveal_strlit("Commander Felix Nine");
    reveal_strlit("Marshal Thimble");
    reveal_strlit("Mother Granite");
    reveal_strlit("Rex Solstice");
    reveal_strlit("King Ringtail");
    reveal_strlit("The Eternal");
    reveal_strlit("Patches");
    reveal_strlit("kelpie");
    reveal_strlit("felix_nine");
    reveal_strlit("thimble");
    reveal_strlit("mother_granite");
    reveal_strlit("rex_solstice");
    reveal_strlit("king_ringtail");
    reveal_strlit("the_eternal");
    reveal_strlit("patches");
}

/// No two heroes share a slug.
pub proof fn lemma_hero_slugs_distinct(a: HeroId, b: HeroId)
    ensures
        hero_slug_text(a) == hero_slug_text(b) ==> a == b,
{
    reveal_strlit("kelpie");
    reveal_strlit("felix_nine");
    reveal_strlit("thimble");
    reveal_strlit("mother_granite");
    reveal_strlit("rex_solstice");
    reveal_strlit("king_ringtail");
    reveal_strlit("the_eternal");
    reveal_strlit("patches");
    if hero_slug_text(a) == hero_slug_text(b) {
        assert(hero_slug_text(a).len() == hero_slug_text(b).len());
        assert(hero_slug_text(a)[0] == hero_slug_text(b)[0]);
    }
}

} // verus!