//! Terrain types and faction-aware terrain rules.

use crate::math::Fixed;
use crate::mutator::HazardDirection;
use crate::text::{owned, str_eq};
use vstd::prelude::*;

verus! {

/// Terrain type for each tile on the map.
#[derive(Debug, Clone, Copy, PartialEq, Eq, Hash, Structural)]
pub enum TerrainType {
    Grass,
    Dirt,
    Sand,
    Forest,
    Water,
    Shallows,
    Rock,
    Ramp,
    Road,
    TechRuins,
}

impl TerrainType {
    /// All terrain type variants, in code order.
    pub const ALL: [TerrainType; 10] = [
        TerrainType::Grass,
        TerrainType::Dirt,
        TerrainType::Sand,
        TerrainType::Forest,
        TerrainType::Water,
        TerrainType::Shallows,
        TerrainType::Rock,
        TerrainType::Ramp,
        TerrainType::Road,
        TerrainType::TechRuins,
    ];

    /// Numeric code of this terrain (its position in declaration order).
    pub open spec fn code(self) -> u8 {
        match self {
            TerrainType::Grass => 0,
            TerrainType::Dirt => 1,
            TerrainType::Sand => 2,
            TerrainType::Forest => 3,
            TerrainType::Water => 4,
            TerrainType::Shallows => 5,
            TerrainType::Rock => 6,
            TerrainType::Ramp => 7,
            TerrainType::Road => 8,
            TerrainType::TechRuins => 9,
        }
    }

    /// The terrain whose numeric code is `v`, if any.
    pub open spec fn from_code(v: u8) -> Option<TerrainType> {
        if v == 0 { Some(TerrainType::Grass) }
        else if v == 1 { Some(TerrainType::Dirt) }
        else if v == 2 { Some(TerrainType::Sand) }
        else if v == 3 { Some(TerrainType::Forest) }
        else if v == 4 { Some(TerrainType::Water) }
        else if v == 5 { Some(TerrainType::Shallows) }
        else if v == 6 { Some(TerrainType::Rock) }
        else if v == 7 { Some(TerrainType::Ramp) }
        else if v == 8 { Some(TerrainType::Road) }
        else if v == 9 { Some(TerrainType::TechRuins) }
        else { None }
    }

    /// Numeric code of this terrain (0 = Grass ... 9 = TechRuins).
    pub fn to_u8(self) -> (v: u8)
        ensures
            v == self.code(),
    {
        match self {
            TerrainType::Grass => 0,
            TerrainType::Dirt => 1,
            TerrainType::Sand => 2,
            TerrainType::Forest => 3,
            TerrainType::Water => 4,
            TerrainType::Shallows => 5,
            TerrainType::Rock => 6,
            TerrainType::Ramp => 7,
            TerrainType::Road => 8,
            TerrainType::TechRuins => 9,
        }
    }

    /// Converts from the numeric code; `None` for codes above 9.
    pub fn from_u8(v: u8) -> (r: Option<TerrainType>)
        ensures
            r == TerrainType::from_code(v),
            r is None <==> v > 9,
            r matches Some(t) ==> t.code() == v,
    {
        match v {
            0 => Some(TerrainType::Grass),
            1 => Some(TerrainType::Dirt),
            2 => Some(TerrainType::Sand),
            3 => Some(TerrainType::Forest),
            4 => Some(TerrainType::Water),
            5 => Some(TerrainType::Shallows),
            6 => Some(TerrainType::Rock),
            7 => Some(TerrainType::Ramp),
            8 => Some(TerrainType::Road),
            9 => Some(TerrainType::TechRuins),
            _ => None,
        }
    }

    /// Movement cost multiplier as raw 16.16 bits. Higher is slower; Rock is 0 (impassable).
    pub open spec fn movement_cost_bits(self) -> i32 {
        match self {
            TerrainType::Grass => 65536,
            TerrainType::Dirt => 62259,
            TerrainType::Sand => 78643,
            TerrainType::Forest => 85196,
            TerrainType::Water => 65536,
            TerrainType::Shallows => 98304,
            TerrainType::Rock => 0,
            TerrainType::Ramp => 72089,
            TerrainType::Road => 45875,
            TerrainType::TechRuins => 75366,
        }
    }

    /// Movement cost multiplier. Higher = slower.
    pub fn movement_cost(self) -> (f: Fixed)
        ensures
            f.bits == self.movement_cost_bits(),
    {
        match self {
            TerrainType::Grass => Fixed::one(),
            TerrainType::Dirt => Fixed::from_bits(62259),
            TerrainType::Sand => Fixed::from_bits(78643),
            TerrainType::Forest => Fixed::from_bits(85196),
            TerrainType::Water => Fixed::one(),
            TerrainType::Shallows => Fixed::from_bits(98304),
            TerrainType::Rock => Fixed::zero(),
            TerrainType::Ramp => Fixed::from_bits(72089),
            TerrainType::Road => Fixed::from_bits(45875),
            TerrainType::TechRuins => Fixed::from_bits(75366),
        }
    }

    /// Whether this terrain is passable by default (every terrain but Rock and Water).
    pub open spec fn spec_base_passable(self) -> bool {
        !(self is Rock || self is Water)
    }

    /// Whether this terrain is passable by default (ignoring faction rules).
    pub fn base_passable(self) -> (b: bool)
        ensures
            b == self.spec_base_passable(),
    {
        match self {
            TerrainType::Rock | TerrainType::Water => false,
            _ => true,
        }
    }

    /// Whether this terrain is water (Water or Shallows).
    pub open spec fn spec_is_water(self) -> bool {
        self is Water || self is Shallows
    }

    /// Whether this terrain is water (for faction-specific traversal).
    pub fn is_water(self) -> (b: bool)
        ensures
            b == self.spec_is_water(),
    {
        match self {
            TerrainType::Water | TerrainType::Shallows => true,
            _ => false,
        }
    }

    /// Cover level: Forest gives light cover, TechRuins heavy, everything else none.
    pub open spec fn spec_cover(self) -> CoverLevel {
        match self {
            TerrainType::Forest => CoverLevel::Light,
            TerrainType::TechRuins => CoverLevel::Heavy,
            _ => CoverLevel::NoCover,
        }
    }

    /// Cover level provided by this terrain.
    pub fn cover(self) -> (c: CoverLevel)
        ensures
            c == self.spec_cover(),
    {
        match self {
            TerrainType::Forest => CoverLevel::Light,
            TerrainType::TechRuins => CoverLevel::Heavy,
            _ => CoverLevel::NoCover,
        }
    }

    /// Whether this terrain provides concealment for stealth units (only Forest does).
    pub fn provides_concealment(self) -> (b: bool)
        ensures
            b == (self is Forest),
    {
        match self {
            TerrainType::Forest => true,
            _ => false,
        }
    }

    /// Auto-tiling priority: higher renders on top at boundaries.
    pub open spec fn spec_tiling_priority(self) -> u8 {
        match self {
            TerrainType::Water => 0,
            TerrainType::Shallows => 1,
            TerrainType::Sand => 2,
            TerrainType::Dirt => 3,
            TerrainType::Grass => 4,
            TerrainType::Road => 5,
            TerrainType::Forest => 6,
            TerrainType::TechRuins => 7,
            TerrainType::Rock => 8,
            TerrainType::Ramp => 4,
        }
    }

    /// Priority for auto-tiling transitions.
    pub fn tiling_priority(self) -> (p: u8)
        ensures
            p == self.spec_tiling_priority(),
    {
        match self {
            TerrainType::Water => 0,
            TerrainType::Shallows => 1,
            TerrainType::Sand => 2,
            TerrainType::Dirt => 3,
            TerrainType::Grass => 4,
            TerrainType::Road => 5,
            TerrainType::Forest => 6,
            TerrainType::TechRuins => 7,
            TerrainType::Rock => 8,
            TerrainType::Ramp => 4,
        }
    }
}

impl TerrainType {
    /// Preview color (red, green, blue) of this terrain at elevation 0.
    pub open spec fn spec_base_color(self) -> (u8, u8, u8) {
        match self {
            TerrainType::Grass => (80, 160, 60),
            TerrainType::Dirt => (140, 110, 70),
            TerrainType::Sand => (210, 190, 130),
            TerrainType::Forest => (30, 100, 40),
            TerrainType::Water => (40, 80, 180),
            TerrainType::Shallows => (80, 140, 200),
            TerrainType::Rock => (100, 95, 90),
            TerrainType::Ramp => (150, 140, 100),
            TerrainType::Road => (160, 150, 130),
            TerrainType::TechRuins => (90, 70, 120),
        }
    }

    /// Preview color (red, green, blue) of this terrain at elevation 0; map
    /// previews brighten it by elevation.
    pub fn base_color(self) -> (c: (u8, u8, u8))
        ensures
            c == self.spec_base_color(),
    {
        match self {
            TerrainType::Grass => (80, 160, 60),
            TerrainType::Dirt => (140, 110, 70),
            TerrainType::Sand => (210, 190, 130),
            TerrainType::Forest => (30, 100, 40),
            TerrainType::Water => (40, 80, 180),
            TerrainType::Shallows => (80, 140, 200),
            TerrainType::Rock => (100, 95, 90),
            TerrainType::Ramp => (150, 140, 100),
            TerrainType::Road => (160, 150, 130),
            TerrainType::TechRuins => (90, 70, 120),
        }
    }
}

impl Default for TerrainType {
    fn default() -> (t: TerrainType)
        ensures
            t == TerrainType::Grass,
    {
        TerrainType::Grass
    }
}

/// Every code names the terrain it was made from: `from_u8(t.to_u8()) == Some(t)`,
/// and the codes are exactly 0..=9.
pub proof fn lemma_terrain_code_round_trip(t: TerrainType, v: u8)
    ensures
        TerrainType::from_code(t.code()) == Some(t),
        t.code() <= 9,
        TerrainType::from_code(v) matches Some(u) ==> u.code() == v,
{
}

/// Auto-tiling priority orders the terrains
/// Water < Shallows < Sand < Dirt < Grass (= Ramp) < Road < Forest < TechRuins < Rock.
pub proof fn lemma_tiling_priority_order()
    ensures
        TerrainType::Water.spec_tiling_priority() < TerrainType::Shallows.spec_tiling_priority(),
        TerrainType::Shallows.spec_tiling_priority() < TerrainType::Sand.spec_tiling_priority(),
        TerrainType::Sand.spec_tiling_priority() < TerrainType::Dirt.spec_tiling_priority(),
        TerrainType::Dirt.spec_tiling_priority() < TerrainType::Grass.spec_tiling_priority(),
        TerrainType::Grass.spec_tiling_priority() == TerrainType::Ramp.spec_tiling_priority(),
        TerrainType::Grass.spec_tiling_priority() < TerrainType::Road.spec_tiling_priority(),
        TerrainType::Road.spec_tiling_priority() < TerrainType::Forest.spec_tiling_priority(),
        TerrainType::Forest.spec_tiling_priority() < TerrainType::TechRuins.spec_tiling_priority(),
        TerrainType::TechRuins.spec_tiling_priority() < TerrainType::Rock.spec_tiling_priority(),
{
}

/// Movement costs: Road < Dirt < Grass < Sand < Forest < Shallows, and every
/// terrain but Rock has a positive cost.
pub proof fn lemma_movement_cost_order(t: TerrainType)
    ensures
        TerrainType::Road.movement_cost_bits() < TerrainType::Dirt.movement_cost_bits(),
        TerrainType::Dirt.movement_cost_bits() < TerrainType::Grass.movement_cost_bits(),
        TerrainType::Grass.movement_cost_bits() < TerrainType::Sand.movement_cost_bits(),
        TerrainType::Sand.movement_cost_bits() < TerrainType::Forest.movement_cost_bits(),
        TerrainType::Forest.movement_cost_bits() < TerrainType::Shallows.movement_cost_bits(),
        (t.movement_cost_bits() > 0) <==> !(t is Rock),
{
}

impl TerrainType {
    /// The variant's name as text.
    pub open spec fn name_text(self) -> Seq<char> {
        match self {
            TerrainType::Grass => "Grass"@,
            TerrainType::Dirt => "Dirt"@,
            TerrainType::Sand => "Sand"@,
            TerrainType::Forest => "Forest"@,
            TerrainType::Water => "Water"@,
            TerrainType::Shallows => "Shallows"@,
            TerrainType::Rock => "Rock"@,
            TerrainType::Ramp => "Ramp"@,
            TerrainType::Road => "Road"@,
            TerrainType::TechRuins => "TechRuins"@,
        }
    }

    /// The variant's name.
    pub fn name(&self) -> (s: &'static str)
        ensures
            s@ == self.name_text(),
    {
        match self {
            TerrainType::Grass => "Grass",
            TerrainType::Dirt => "Dirt",
            TerrainType::Sand => "Sand",
            TerrainType::Forest => "Forest",
            TerrainType::Water => "Water",
            TerrainType::Shallows => "Shallows",
            TerrainType::Rock => "Rock",
            TerrainType::Ramp => "Ramp",
            TerrainType::Road => "Road",
            TerrainType::TechRuins => "TechRuins",
        }
    }

    /// The variant's name as an owned string (what `Display` would print).
    pub fn to_string(&self) -> (s: String)
        ensures
            s@ == self.name_text(),
    {
        owned(self.name())
    }

    /// The variant whose name is `s`, if any.
    pub open spec fn parse_text(s: Seq<char>) -> Option<TerrainType> {
        if s == TerrainType::Grass.name_text() {
            Some(TerrainType::Grass)
        } else if s == TerrainType::Dirt.name_text() {
            Some(TerrainType::Dirt)
        } else if s == TerrainType::Sand.name_text() {
            Some(TerrainType::Sand)
        } else if s == TerrainType::Forest.name_text() {
            Some(TerrainType::Forest)
        } else if s == TerrainType::Water.name_text() {
            Some(TerrainType::Water)
        } else if s == TerrainType::Shallows.name_text() {
            Some(TerrainType::Shallows)
        } else if s == TerrainType::Rock.name_text() {
            Some(TerrainType::Rock)
        } else if s == TerrainType::Ramp.name_text() {
            Some(TerrainType::Ramp)
        } else if s == TerrainType::Road.name_text() {
            Some(TerrainType::Road)
        } else if s == TerrainType::TechRuins.name_text() {
            Some(TerrainType::TechRuins)
        } else {
            None
        }
    }

    /// Parses a name; `None` for any text that names no variant.
    pub fn parse_name(s: &str) -> (r: Option<TerrainType>)
        ensures
            r == TerrainType::parse_text(s@),
    {
        if str_eq(s, "Grass") {
            Some(TerrainType::Grass)
        } else if str_eq(s, "Dirt") {
            Some(TerrainType::Dirt)
        } else if str_eq(s, "Sand") {
            Some(TerrainType::Sand)
        } else if str_eq(s, "Forest") {
            Some(TerrainType::Forest)
        } else if str_eq(s, "Water") {
            Some(TerrainType::Water)
        } else if str_eq(s, "Shallows") {
            Some(TerrainType::Shallows)
        } else if str_eq(s, "Rock") {
            Some(TerrainType::Rock)
        } else if str_eq(s, "Ramp") {
            Some(TerrainType::Ramp)
        } else if str_eq(s, "Road") {
            Some(TerrainType::Road)
        } else if str_eq(s, "TechRuins") {
            Some(TerrainType::TechRuins)
        } else {
            None
        }
    }
}

/// Distinct variants of `TerrainType` have distinct names.
pub proof fn lemma_terrain_type_names_distinct(t: TerrainType, u: TerrainType)
    ensures
        t.name_text() == u.name_text() ==> t == u,
{
    reveal_strlit("Dirt");
    reveal_strlit("Forest");
    reveal_strlit("Grass");
    reveal_strlit("Ramp");
    reveal_strlit("Road");
    reveal_strlit("Rock");
    reveal_strlit("Sand");
    reveal_strlit("Shallows");
    reveal_strlit("TechRuins");
    reveal_strlit("Water");
    if t.name_text() == u.name_text() {
        assert(t.name_text().len() == u.name_text().len());
        assert(t.name_text()[0] == u.name_text()[0]);
        assert(t.name_text()[1] == u.name_text()[1]);
        assert(t.name_text()[2] == u.name_text()[2]);
    }
}

/// Every `TerrainType` parses back from its own name, and text that parses names the variant it parses to.
pub proof fn lemma_terrain_type_name_round_trip(t: TerrainType, s: Seq<char>)
    ensures
        TerrainType::parse_text(t.name_text()) == Some(t),
        TerrainType::parse_text(s) matches Some(u) ==> u.name_text() == s,
{
    assert forall|a: TerrainType, b: TerrainType| a.name_text() == b.name_text() implies a == b by {
        lemma_terrain_type_names_distinct(a, b);
    }
    lemma_terrain_type_names_distinct(t, TerrainType::Grass);
    lemma_terrain_type_names_distinct(t, TerrainType::Dirt);
    lemma_terrain_type_names_distinct(t, TerrainType::Sand);
    lemma_terrain_type_names_distinct(t, TerrainType::Forest);
    lemma_terrain_type_names_distinct(t, TerrainType::Water);
    lemma_terrain_type_names_distinct(t, TerrainType::Shallows);
    lemma_terrain_type_names_distinct(t, TerrainType::Rock);
    lemma_terrain_type_names_distinct(t, TerrainType::Ramp);
    lemma_terrain_type_names_distinct(t, TerrainType::Road);
    lemma_terrain_type_names_distinct(t, TerrainType::TechRuins);
}

impl std::str::FromStr for TerrainType {
    type Err = ();

    fn from_str(s: &str) -> (r: Result<TerrainType, ()>)
        ensures
            r == (match TerrainType::parse_text(s@) {
                Some(t) => Ok(t),
                None => Err(()),
            }),
    {
        match TerrainType::parse_name(s) {
            Some(t) => Ok(t),
            None => Err(()),
        }
    }
}

/// Damage reduction from terrain cover.
#[derive(Debug, Clone, Copy, PartialEq, Eq, Structural)]
pub enum CoverLevel {
    /// No cover (displayed as `None`).
    NoCover,
    Light,
    Heavy,
}

impl CoverLevel {
    /// All cover levels.
    pub const ALL: [CoverLevel; 3] = [CoverLevel::NoCover, CoverLevel::Light, CoverLevel::Heavy];

    /// Damage multiplier as raw 16.16 bits: 1.0, 0.85 and 0.70.
    pub open spec fn damage_multiplier_bits(self) -> i32 {
        match self {
            CoverLevel::NoCover => 65536,
            CoverLevel::Light => 55705,
            CoverLevel::Heavy => 45875,
        }
    }

    /// Damage multiplier (1.0 = full damage, 0.85 = light cover, 0.70 = heavy cover).
    pub fn damage_multiplier(self) -> (f: Fixed)
        ensures
            f.bits == self.damage_multiplier_bits(),
    {
        match self {
            CoverLevel::NoCover => Fixed::one(),
            CoverLevel::Light => Fixed::from_bits(55705),
            CoverLevel::Heavy => Fixed::from_bits(45875),
        }
    }
}

/// More cover never lets more damage through: none (1.0) > light > heavy > 0.
pub proof fn lemma_cover_multiplier_order()
    ensures
        CoverLevel::NoCover.damage_multiplier_bits() == 65536,
        CoverLevel::Light.damage_multiplier_bits() < CoverLevel::NoCover.damage_multiplier_bits(),
        CoverLevel::Heavy.damage_multiplier_bits() < CoverLevel::Light.damage_multiplier_bits(),
        0 < CoverLevel::Heavy.damage_multiplier_bits(),
{
}

impl CoverLevel {
    /// The variant's name as text.
    pub open spec fn name_text(self) -> Seq<char> {
        match self {
            CoverLevel::NoCover => "None"@,
            CoverLevel::Light => "Light"@,
            CoverLevel::Heavy => "Heavy"@,
        }
    }

    /// The variant's name.
    pub fn name(&self) -> (s: &'static str)
        ensures
            s@ == self.name_text(),
    {
        match self {
            CoverLevel::NoCover => "None",
            CoverLevel::Light => "Light",
            CoverLevel::Heavy => "Heavy",
        }
    }

    /// The variant's name as an owned string (what `Display` would print).
    pub fn to_string(&self) -> (s: String)
        ensures
            s@ == self.name_text(),
    {
        owned(self.name())
    }

    /// The variant whose name is `s`, if any.
    pub open spec fn parse_text(s: Seq<char>) -> Option<CoverLevel> {
        if s == CoverLevel::NoCover.name_text() {
            Some(CoverLevel::NoCover)
        } else if s == CoverLevel::Light.name_text() {
            Some(CoverLevel::Light)
        } else if s == CoverLevel::Heavy.name_text() {
            Some(CoverLevel::Heavy)
        } else {
            None
        }
    }

    /// Parses a name; `None` for any text that names no variant.
    pub fn parse_name(s: &str) -> (r: Option<CoverLevel>)
        ensures
            r == CoverLevel::parse_text(s@),
    {
        if str_eq(s, "None") {
            Some(CoverLevel::NoCover)
        } else if str_eq(s, "Light") {
            Some(CoverLevel::Light)
        } else if str_eq(s, "Heavy") {
            Some(CoverLevel::Heavy)
        } else {
            None
        }
    }
}

/// Distinct variants of `CoverLevel` have distinct names.
pub proof fn lemma_cover_level_names_distinct(t: CoverLevel, u: CoverLevel)
    ensures
        t.name_text() == u.name_text() ==> t == u,
{
    reveal_strlit("Heavy");
    reveal_strlit("Light");
    reveal_strlit("None");
    if t.name_text() == u.name_text() {
        assert(t.name_text().len() == u.name_text().len());
        assert(t.name_text()[0] == u.name_text()[0]);
    }
}

/// Every `CoverLevel` parses back from its own name, and text that parses names the variant it parses to.
pub proof fn lemma_cover_level_name_round_trip(t: CoverLevel, s: Seq<char>)
    ensures
        CoverLevel::parse_text(t.name_text()) == Some(t),
        CoverLevel::parse_text(s) matches Some(u) ==> u.name_text() == s,
{
    assert forall|a: CoverLevel, b: CoverLevel| a.name_text() == b.name_text() implies a == b by {
        lemma_cover_level_names_distinct(a, b);
    }
    lemma_cover_level_names_distinct(t, CoverLevel::NoCover);
    lemma_cover_level_names_distinct(t, CoverLevel::Light);
    lemma_cover_level_names_distinct(t, CoverLevel::Heavy);
}

impl std::str::FromStr for CoverLevel {
    type Err = ();

    fn from_str(s: &str) -> (r: Result<CoverLevel, ()>)
        ensures
            r == (match CoverLevel::parse_text(s@) {
                Some(t) => Ok(t),
                None => Err(()),
            }),
    {
        match CoverLevel::parse_name(s) {
            Some(t) => Ok(t),
            None => Err(()),
        }
    }
}

/// Faction identifier for faction-aware terrain rules.
#[derive(Debug, Clone, Copy, PartialEq, Eq, Hash, Structural)]
pub enum FactionId {
    CatGPT,
    TheClawed,
    SeekersOfTheDeep,
    TheMurder,
    LLAMA,
    Croak,
}

impl FactionId {
    /// Numeric code of this faction (0 = CatGPT ... 5 = Croak).
    pub open spec fn code(self) -> u8 {
        match self {
            FactionId::CatGPT => 0,
            FactionId::TheClawed => 1,
            FactionId::SeekersOfTheDeep => 2,
            FactionId::TheMurder => 3,
            FactionId::LLAMA => 4,
            FactionId::Croak => 5,
        }
    }

    /// Whether this faction can traverse water tiles (only Croak can).
    pub fn can_traverse_water(self) -> (b: bool)
        ensures
            b == (self is Croak),
    {
        match self {
            FactionId::Croak => true,
            _ => false,
        }
    }

    /// Convert from the numeric code; `None` above 5.
    pub fn from_u8(v: u8) -> (r: Option<FactionId>)
        ensures
            r is None <==> v > 5,
            r matches Some(f) ==> f.code() == v,
    {
        match v {
            0 => Some(FactionId::CatGPT),
            1 => Some(FactionId::TheClawed),
            2 => Some(FactionId::SeekersOfTheDeep),
            3 => Some(FactionId::TheMurder),
            4 => Some(FactionId::LLAMA),
            5 => Some(FactionId::Croak),
            _ => None,
        }
    }
}

/// Water is passable only for factions that traverse water; every other terrain
/// follows its default passability.
pub open spec fn spec_passable_for_faction(terrain: TerrainType, faction: FactionId) -> bool {
    match terrain {
        TerrainType::Water => faction is Croak,
        _ => terrain.spec_base_passable(),
    }
}

/// Check if a terrain type is passable for a given faction.
pub fn is_passable_for_faction(terrain: TerrainType, faction: FactionId) -> (b: bool)
    ensures
        b == spec_passable_for_faction(terrain, faction),
{
    match terrain {
        TerrainType::Water => faction.can_traverse_water(),
        other => other.base_passable(),
    }
}

/// Rock blocks every faction, Water blocks every faction but Croak, and every
/// other terrain (Shallows included) is passable for all.
pub proof fn lemma_faction_passability(t: TerrainType, f: FactionId)
    ensures
        !spec_passable_for_faction(TerrainType::Rock, f),
        spec_passable_for_faction(TerrainType::Water, f) <==> f is Croak,
        !(t is Rock) && !(t is Water) ==> spec_passable_for_faction(t, f),
{
}

/// Dynamic terrain overlay effect created by abilities.
#[derive(Debug, Clone, Copy, PartialEq, Eq)]
pub enum OverlayEffect {
    /// Blocks movement (e.g., Hairball, Loaf Mode).
    Block,
    /// Converts tile to water (e.g., Tidal Gate).
    WaterConvert,
    /// Creates a speed-modifying trail.
    Trail { speed_modifier: Fixed },
    /// Lava hazard: damages units on this tile.
    Lava { damage_per_tick: u32 },
    /// Toxic hazard: damages units on this tile.
    Toxic { damage_per_tick: u32 },
    /// Wind zone: displaces units in a direction.
    WindZone { direction: HazardDirection, force: u32 },
}

/// A temporary terrain modification applied by an ability.
#[derive(Debug, Clone)]
pub struct TerrainOverlay {
    pub x: i32,
    pub y: i32,
    pub effect: OverlayEffect,
    pub remaining_ticks: u32,
}

/// Tile is temporarily blocked.
pub const FLAG_TEMP_BLOCKED: u8 = 1;
/// Tile has been converted to water.
pub const FLAG_WATER_CONVERTED: u8 = 2;
/// Tile carries a lava hazard.
pub const FLAG_LAVA: u8 = 4;
/// Tile carries a toxic hazard.
pub const FLAG_TOXIC: u8 = 8;

/// Highest elevation level.
pub const MAX_ELEVATION: u8 = 2;

/// Vision range bonus per elevation level above ground.
pub const VISION_BONUS_PER_LEVEL: i32 = 1;

/// The four dynamic flags occupy distinct single bits.
pub proof fn lemma_dynamic_flags_distinct()
    ensures
        FLAG_TEMP_BLOCKED & FLAG_WATER_CONVERTED == 0,
        FLAG_TEMP_BLOCKED & FLAG_LAVA == 0,
        FLAG_TEMP_BLOCKED & FLAG_TOXIC == 0,
        FLAG_WATER_CONVERTED & FLAG_LAVA == 0,
        FLAG_WATER_CONVERTED & FLAG_TOXIC == 0,
        FLAG_LAVA & FLAG_TOXIC == 0,
{
    assert(1u8 & 2u8 == 0) by (bit_vector);
    assert(1u8 & 4u8 == 0) by (bit_vector);
    assert(1u8 & 8u8 == 0) by (bit_vector);
    assert(2u8 & 4u8 == 0) by (bit_vector);
    assert(2u8 & 8u8 == 0) by (bit_vector);
    assert(4u8 & 8u8 == 0) by (bit_vector);
}

/// Raw bits of the elevation damage multiplier: +15% (9830/65536) per level
/// above the target; -15% per level below, never under 0.55 (36044/65536).
pub open spec fn elevation_multiplier_bits(advantage: i8) -> int {
    let raw = 65536 + 9830 * advantage;
    if raw < 36044 { 36044 } else { raw }
}

/// Damage multiplier for attacking from `advantage` levels above the target.
pub fn elevation_damage_multiplier(advantage: i8) -> (f: Fixed)
    ensures
        f.bits == elevation_multiplier_bits(advantage),
{
    let step = Fixed::from_bits(9830);
    if advantage > 0 {
        let levels = Fixed::from_int(advantage as i32);
        assert((9830 * (advantage * 65536)) / 65536 == 9830 * advantage) by (nonlinear_arith);
        Fixed::one().add(step.mul(levels))
    } else if advantage < 0 {
        let levels = Fixed::from_int(-(advantage as i32));
        assert((9830 * (-advantage * 65536)) / 65536 == -9830 * advantage) by (nonlinear_arith);
        let penalty = step.mul(levels);
        let result = Fixed::one().sub(penalty);
        let min = Fixed::from_bits(36044);
        if result.bits < min.bits { min } else { result }
    } else {
        Fixed::one()
    }
}

/// The elevation multiplier is 1.0 on level ground, grows with each level of
/// advantage, shrinks with each level of disadvantage, and never drops below 0.55.
pub proof fn lemma_elevation_multiplier_monotone(a: i8, b: i8)
    ensures
        elevation_multiplier_bits(0) == 65536,
        a < b ==> elevation_multiplier_bits(a) <= elevation_multiplier_bits(b),
        a > 0 ==> elevation_multiplier_bits(a) > 65536,
        a < 0 ==> elevation_multiplier_bits(a) < 65536,
        elevation_multiplier_bits(a) >= 36044,
{
}

} // verus!
