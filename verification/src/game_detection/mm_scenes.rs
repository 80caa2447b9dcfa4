//! MM scene IDs used by game detection.

use vstd::prelude::*;

verus! {

/// Mayor's Residence
pub const MAYORS_RESIDENCE: u8 = 0x00;
/// Majora's Lair
pub const MAJORAS_LAIR: u8 = 0x01;
/// Beneath the Graveyard (Dampe's House)
pub const BENEATH_GRAVEYARD: u8 = 0x02;
/// Woodfall Temple
pub const WOODFALL_TEMPLE: u8 = 0x07;
/// Snowhead Temple
pub const SNOWHEAD_TEMPLE: u8 = 0x1B;
/// Great Bay Temple
pub const GREAT_BAY_TEMPLE: u8 = 0x37;
/// Stone Tower Temple
pub const STONE_TOWER_TEMPLE: u8 = 0x12;
/// Stone Tower Temple (inverted)
pub const STONE_TOWER_TEMPLE_INVERTED: u8 = 0x13;
/// Clock Town South
pub const CLOCK_TOWN_SOUTH: u8 = 0x6E;
/// Clock Town North
pub const CLOCK_TOWN_NORTH: u8 = 0x6F;
/// Clock Town East
pub const CLOCK_TOWN_EAST: u8 = 0x70;
/// Clock Town West
pub const CLOCK_TOWN_WEST: u8 = 0x71;
/// Clock Tower (OoTMM transition point to OoT)
pub const CLOCK_TOWER: u8 = 0x6C;
/// Termina Field
pub const TERMINA_FIELD: u8 = 0x54;
/// Romani Ranch
pub const ROMANI_RANCH: u8 = 0x35;
/// Southern Swamp
pub const SOUTHERN_SWAMP: u8 = 0x55;
/// Mountain Village
pub const MOUNTAIN_VILLAGE: u8 = 0x5A;
/// Great Bay Coast
pub const GREAT_BAY_COAST: u8 = 0x57;
/// Ikana Canyon
pub const IKANA_CANYON: u8 = 0x5B;

} // verus!
