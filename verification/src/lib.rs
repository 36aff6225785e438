//! Engine-agnostic core of an isometric real-time strategy game: fixed-point
//! math, coordinates, unit/building/ability data tables, terrain rules, the
//! tile map, map (de)construction, map-generation helpers and mission checks.

pub mod abilities;
pub mod building_stats;
pub mod commands;
pub mod components;
pub mod coords;
pub mod hero;
pub mod map;
pub mod map_format;
pub mod map_gen;
pub mod math;
pub mod mission;
pub mod mutator;
pub mod status_effects;
pub mod strait;
pub mod terrain;
pub mod unit_stats;
pub mod upgrade_stats;
pub mod text;
pub mod tuning;
