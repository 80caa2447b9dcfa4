//! The parts of Ocarina of Time save data that logic evaluation reads.
//!
//! Bitfield values are plain integers; the unit structs below name their bits
//! as the OoT save context lays them out (for example
//! `Equipment::KOKIRI_SWORD | Equipment::DEKU_SHIELD`). The upgrade word holds
//! one small field per upgrade; its constants are the field values of each
//! level.

use vstd::prelude::*;

verus! {

/// Which ocarina the player has.
#[derive(Debug, Clone, Copy, PartialEq, Eq, Structural, Default)]
pub enum Ocarina {
    /// No ocarina.
    #[default]
    NoOcarina,
    /// The Fairy Ocarina.
    FairyOcarina,
    /// The Ocarina of Time.
    OcarinaOfTime,
}

/// Which hookshot the player has.
#[derive(Debug, Clone, Copy, PartialEq, Eq, Structural, Default)]
pub enum Hookshot {
    /// No hookshot.
    #[default]
    NoHookshot,
    /// The Hookshot.
    Hookshot,
    /// The Longshot.
    Longshot,
}

/// Contents of a bottle slot.
#[derive(Debug, Clone, Copy, PartialEq, Eq, Structural, Default)]
pub enum Bottle {
    /// No bottle in this slot.
    #[default]
    NoBottle,
    /// An empty bottle.
    Empty,
    /// Red Potion.
    RedPotion,
    /// Green Potion.
    GreenPotion,
    /// Blue Potion.
    BluePotion,
    /// Fairy.
    Fairy,
    /// Fish.
    Fish,
    /// Lon Lon Milk.
    MilkFull,
    /// Ruto's Letter.
    RutosLetter,
    /// Blue Fire.
    BlueFire,
    /// Bug.
    Bug,
    /// Big Poe.
    BigPoe,
    /// Half-full milk.
    MilkHalf,
    /// Poe.
    Poe,
}

/// Magic meter capacity.
#[derive(Debug, Clone, Copy, PartialEq, Eq, Structural, Default)]
pub enum MagicCapacity {
    /// No magic meter.
    #[default]
    NoMagic,
    /// Single magic meter.
    Small,
    /// Double magic meter.
    Large,
}

/// Number of bottle slots.
pub const BOTTLE_SLOTS: usize = 4;

/// Item-screen inventory.
#[derive(Debug, Clone, Copy, PartialEq, Eq, Default)]
pub struct Inventory {
    pub bow: bool,
    pub fire_arrows: bool,
    pub ice_arrows: bool,
    pub light_arrows: bool,
    pub dins_fire: bool,
    pub farores_wind: bool,
    pub nayrus_love: bool,
    pub slingshot: bool,
    pub ocarina: Ocarina,
    pub bombchus: bool,
    pub hookshot: Hookshot,
    pub boomerang: bool,
    pub lens: bool,
    pub beans: bool,
    pub hammer: bool,
    pub bottles: [Bottle; 4],
}

/// Bits of the equipment field.
pub struct Equipment;

impl Equipment {
    pub const KOKIRI_SWORD: u16 = 0x0001;
    pub const MASTER_SWORD: u16 = 0x0002;
    pub const GIANTS_KNIFE: u16 = 0x0004;
    pub const BROKEN_SWORD: u16 = 0x0008;
    pub const DEKU_SHIELD: u16 = 0x0010;
    pub const HYLIAN_SHIELD: u16 = 0x0020;
    pub const MIRROR_SHIELD: u16 = 0x0040;
    pub const KOKIRI_TUNIC: u16 = 0x0100;
    pub const GORON_TUNIC: u16 = 0x0200;
    pub const ZORA_TUNIC: u16 = 0x0400;
    pub const KOKIRI_BOOTS: u16 = 0x1000;
    pub const IRON_BOOTS: u16 = 0x2000;
    pub const HOVER_BOOTS: u16 = 0x4000;
}

/// Values of the fields of the upgrade word.
pub struct Upgrades;

impl Upgrades {
    pub const QUIVER_30: u32 = 0x0000_0001;
    pub const QUIVER_40: u32 = 0x0000_0002;
    pub const QUIVER_50: u32 = 0x0000_0003;
    pub const BOMB_BAG_20: u32 = 0x0000_0008;
    pub const BOMB_BAG_30: u32 = 0x0000_0010;
    pub const BOMB_BAG_40: u32 = 0x0000_0018;
    pub const GORON_BRACELET: u32 = 0x0000_0040;
    pub const SILVER_GAUNTLETS: u32 = 0x0000_0080;
    pub const GOLD_GAUNTLETS: u32 = 0x0000_00c0;
    pub const SILVER_SCALE: u32 = 0x0000_0200;
    pub const GOLD_SCALE: u32 = 0x0000_0400;
    pub const WALLET_MASK: u32 = 0x0000_3000;
    pub const BULLET_BAG_30: u32 = 0x0000_4000;
    pub const BULLET_BAG_40: u32 = 0x0000_8000;
    pub const BULLET_BAG_50: u32 = 0x0000_c000;
    pub const DEKU_STICK_CAPACITY_MASK: u32 = 0x000e_0000;
    pub const DEKU_NUT_CAPACITY_MASK: u32 = 0x0070_0000;
}

/// Bits of the quest status field.
pub struct QuestItems;

impl QuestItems {
    pub const FOREST_MEDALLION: u32 = 0x0000_0001;
    pub const FIRE_MEDALLION: u32 = 0x0000_0002;
    pub const WATER_MEDALLION: u32 = 0x0000_0004;
    pub const SPIRIT_MEDALLION: u32 = 0x0000_0008;
    pub const SHADOW_MEDALLION: u32 = 0x0000_0010;
    pub const LIGHT_MEDALLION: u32 = 0x0000_0020;
    pub const MINUET_OF_FOREST: u32 = 0x0000_0040;
    pub const BOLERO_OF_FIRE: u32 = 0x0000_0080;
    pub const SERENADE_OF_WATER: u32 = 0x0000_0100;
    pub const REQUIEM_OF_SPIRIT: u32 = 0x0000_0200;
    pub const NOCTURNE_OF_SHADOW: u32 = 0x0000_0400;
    pub const PRELUDE_OF_LIGHT: u32 = 0x0000_0800;
    pub const ZELDAS_LULLABY: u32 = 0x0000_1000;
    pub const EPONAS_SONG: u32 = 0x0000_2000;
    pub const SARIAS_SONG: u32 = 0x0000_4000;
    pub const SUNS_SONG: u32 = 0x0000_8000;
    pub const SONG_OF_TIME: u32 = 0x0001_0000;
    pub const SONG_OF_STORMS: u32 = 0x0002_0000;
    pub const KOKIRI_EMERALD: u32 = 0x0004_0000;
    pub const GORON_RUBY: u32 = 0x0008_0000;
    pub const ZORA_SAPPHIRE: u32 = 0x0010_0000;
    pub const STONE_OF_AGONY: u32 = 0x0020_0000;
    pub const GERUDO_CARD: u32 = 0x0040_0000;
}

/// OoT save data: inventory, equipment, upgrades, magic, quest status and
/// Link's age.
#[derive(Debug, Clone, Copy, PartialEq, Eq, Default)]
pub struct Save {
    /// Item-screen inventory.
    pub inv: Inventory,
    /// Equipment bits (`Equipment`).
    pub equipment: u16,
    /// Upgrade word (`Upgrades`).
    pub upgrades: u32,
    /// Magic meter capacity.
    pub magic: MagicCapacity,
    /// Quest status bits (`QuestItems`).
    pub quest_items: u32,
    /// Whether the Biggoron Sword was obtained.
    pub biggoron_sword: bool,
    /// Whether Link is an adult.
    pub is_adult: bool,
}

} // verus!
