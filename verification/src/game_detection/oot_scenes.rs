//! OoT scene IDs used by game detection.

use vstd::prelude::*;

verus! {

/// Deku Tree (first dungeon)
pub const DEKU_TREE: u8 = 0x00;
/// Dodongo's Cavern
pub const DODONGOS_CAVERN: u8 = 0x01;
/// Jabu Jabu's Belly
pub const JABU_JABUS_BELLY: u8 = 0x02;
/// Forest Temple
pub const FOREST_TEMPLE: u8 = 0x03;
/// Fire Temple
pub const FIRE_TEMPLE: u8 = 0x04;
/// Water Temple
pub const WATER_TEMPLE: u8 = 0x05;
/// Spirit Temple
pub const SPIRIT_TEMPLE: u8 = 0x06;
/// Shadow Temple
pub const SHADOW_TEMPLE: u8 = 0x07;
/// Bottom of the Well
pub const BOTTOM_OF_THE_WELL: u8 = 0x08;
/// Ice Cavern
pub const ICE_CAVERN: u8 = 0x09;
/// Ganon's Castle Tower
pub const GANONS_CASTLE_TOWER: u8 = 0x0A;
/// Gerudo Training Ground
pub const GERUDO_TRAINING_GROUND: u8 = 0x0B;
/// Thieves' Hideout (Gerudo Fortress interior)
pub const THIEVES_HIDEOUT: u8 = 0x0C;
/// Ganon's Castle
pub const GANONS_CASTLE: u8 = 0x0D;
/// Hyrule Field
pub const HYRULE_FIELD: u8 = 0x51;
/// Kakariko Village
pub const KAKARIKO_VILLAGE: u8 = 0x52;
/// Graveyard
pub const GRAVEYARD: u8 = 0x53;
/// Zora's River
pub const ZORAS_RIVER: u8 = 0x54;
/// Kokiri Forest
pub const KOKIRI_FOREST: u8 = 0x55;
/// Lake Hylia
pub const LAKE_HYLIA: u8 = 0x57;
/// Zora's Domain
pub const ZORAS_DOMAIN: u8 = 0x58;
/// Zora's Fountain
pub const ZORAS_FOUNTAIN: u8 = 0x59;
/// Gerudo Valley
pub const GERUDO_VALLEY: u8 = 0x5A;
/// Lost Woods
pub const LOST_WOODS: u8 = 0x5B;
/// Desert Colossus
pub const DESERT_COLOSSUS: u8 = 0x5C;
/// Gerudo Fortress
pub const GERUDO_FORTRESS: u8 = 0x5D;
/// Haunted Wasteland
pub const HAUNTED_WASTELAND: u8 = 0x5E;
/// Death Mountain Trail
pub const DEATH_MOUNTAIN: u8 = 0x60;
/// Death Mountain Crater
pub const DEATH_MOUNTAIN_CRATER: u8 = 0x61;
/// Goron City
pub const GORON_CITY: u8 = 0x62;
/// Temple of Time (exterior)
pub const TEMPLE_OF_TIME_EXTERIOR: u8 = 0x43;
/// Happy Mask Shop (OoTMM transition point to MM)
pub const HAPPY_MASK_SHOP: u8 = 0x2D;

} // verus!
