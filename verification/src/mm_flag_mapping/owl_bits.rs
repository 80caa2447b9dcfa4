//! Bit positions of the owl statue flags in the MM quest status word.

use vstd::prelude::*;

verus! {

/// Clock Town owl statue.
pub const OWL_CLOCK_TOWN: u32 = 20;
/// Milk Road owl statue.
pub const OWL_MILK_ROAD: u32 = 21;
/// Southern Swamp owl statue.
pub const OWL_SOUTHERN_SWAMP: u32 = 22;
/// Woodfall owl statue.
pub const OWL_WOODFALL: u32 = 23;
/// Mountain Village owl statue.
pub const OWL_MOUNTAIN_VILLAGE: u32 = 24;
/// Snowhead owl statue.
pub const OWL_SNOWHEAD: u32 = 25;
/// Zora Cape owl statue.
pub const OWL_ZORA_CAPE: u32 = 26;
/// Great Bay Coast owl statue.
pub const OWL_GREAT_BAY: u32 = 27;
/// Ikana Canyon owl statue.
pub const OWL_IKANA_CANYON: u32 = 28;
/// Stone Tower owl statue.
pub const OWL_STONE_TOWER: u32 = 29;

} // verus!
