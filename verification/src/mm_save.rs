//! The parts of Majora's Mask save data that the logic context reads.
//!
//! Bitfield values are plain integers; the unit structs below name their bits
//! (for example `MmTransformationMasks::DEKU | MmTransformationMasks::GORON`).

use vstd::prelude::*;

verus! {

/// Contents of a bottle slot.
#[derive(Debug, Clone, Copy, PartialEq, Eq, Structural, Default)]
pub enum MmBottle {
    /// No bottle in this slot
    #[default]
    NoBottle,
    /// An empty bottle
    Empty,
    /// Red Potion
    RedPotion,
    /// Green Potion
    GreenPotion,
    /// Blue Potion
    BluePotion,
    /// Fairy
    Fairy,
    /// Deku Princess
    DekuPrincess,
    /// Milk
    Milk,
    /// Half-full milk
    HalfMilk,
    /// Fish
    Fish,
    /// Bugs
    Bugs,
    /// Poe
    Poe,
    /// Big Poe
    BigPoe,
    /// Spring Water
    SpringWater,
    /// Hot Spring Water
    HotSpringWater,
    /// Zora Egg
    ZoraEgg,
    /// Gold Dust
    GoldDust,
    /// Magical Mushroom
    Mushroom,
    /// Seahorse
    SeaHorse,
    /// Chateau Romani
    ChateauRomani,
}

/// Number of bottle slots.
pub const MM_BOTTLE_SLOTS: usize = 6;

/// Item-screen inventory.
#[derive(Debug, Clone, Copy, PartialEq, Eq, Default)]
pub struct MmInventory {
    pub ocarina: bool,
    pub bow: bool,
    pub fire_arrows: bool,
    pub ice_arrows: bool,
    pub light_arrows: bool,
    pub bombs: bool,
    pub bombchus: bool,
    pub deku_sticks: bool,
    pub deku_nuts: bool,
    pub magic_beans: bool,
    pub powder_keg: bool,
    pub pictograph_box: bool,
    pub lens: bool,
    pub hookshot: bool,
    pub great_fairy_sword: bool,
    pub bottles: [MmBottle; 6],
}

/// Bits of the transformation mask field.
pub struct MmTransformationMasks;

impl MmTransformationMasks {
    pub const DEKU: u8 = 0x01;
    pub const GORON: u8 = 0x02;
    pub const ZORA: u8 = 0x04;
    pub const FIERCE_DEITY: u8 = 0x08;

    /// All transformation masks.
    pub fn all() -> (r: u8)
        ensures
            r == 0x0f,
    {
        0x0f
    }

    /// No transformation mask.
    pub fn empty() -> (r: u8)
        ensures
            r == 0,
    {
        0
    }
}

/// Bits of the first regular mask field.
pub struct MmMasksLow;

impl MmMasksLow {
    pub const POSTMAN: u16 = 0x0001;
    pub const ALL_NIGHT: u16 = 0x0002;
    pub const BLAST: u16 = 0x0004;
    pub const STONE: u16 = 0x0008;
    pub const GREAT_FAIRY: u16 = 0x0010;
    pub const KEATON: u16 = 0x0020;
    pub const BREMEN: u16 = 0x0040;
    pub const BUNNY: u16 = 0x0080;
    pub const DON_GERO: u16 = 0x0100;
    pub const SCENTS: u16 = 0x0200;
    pub const ROMANI: u16 = 0x0400;
    pub const CIRCUS_LEADER: u16 = 0x0800;
    pub const KAFEI: u16 = 0x1000;
    pub const COUPLES: u16 = 0x2000;
    pub const TRUTH: u16 = 0x4000;

    /// All masks of this field.
    pub fn all() -> (r: u16)
        ensures
            r == 0x7fff,
    {
        0x7fff
    }

    /// None of the masks of this field.
    pub fn empty() -> (r: u16)
        ensures
            r == 0,
    {
        0
    }
}

/// Bits of the second regular mask field.
pub struct MmMasksHigh;

impl MmMasksHigh {
    pub const KAMARO: u8 = 0x01;
    pub const GIBDO: u8 = 0x02;
    pub const GARO: u8 = 0x04;
    pub const CAPTAIN: u8 = 0x08;
    pub const GIANT: u8 = 0x10;

    /// All masks of this field.
    pub fn all() -> (r: u8)
        ensures
            r == 0x1f,
    {
        0x1f
    }

    /// None of the masks of this field.
    pub fn empty() -> (r: u8)
        ensures
            r == 0,
    {
        0
    }
}

/// The mask collection.
#[derive(Debug, Clone, Copy, PartialEq, Eq, Structural, Default)]
pub struct MmMasks {
    /// Transformation masks (bits of [`MmTransformationMasks`])
    pub transformation: u8,
    /// Regular masks (bits of [`MmMasksLow`])
    pub masks_low: u16,
    /// Regular masks (bits of [`MmMasksHigh`])
    pub masks_high: u8,
}

/// Bits of the quest status field: boss remains and songs.
pub struct MmQuestItems;

impl MmQuestItems {
    pub const REMAINS_ODOLWA: u32 = 0x0000_0001;
    pub const REMAINS_GOHT: u32 = 0x0000_0002;
    pub const REMAINS_GYORG: u32 = 0x0000_0004;
    pub const REMAINS_TWINMOLD: u32 = 0x0000_0008;
    pub const SONG_AWAKENING: u32 = 0x0000_0040;
    pub const SONG_GORON: u32 = 0x0000_0080;
    pub const SONG_ZORA: u32 = 0x0000_0100;
    pub const SONG_EMPTINESS: u32 = 0x0000_0200;
    pub const SONG_ORDER: u32 = 0x0000_0400;
    pub const SONG_TIME: u32 = 0x0000_1000;
    pub const SONG_HEALING: u32 = 0x0000_2000;
    pub const SONG_EPONA: u32 = 0x0000_4000;
    pub const SONG_SOARING: u32 = 0x0000_8000;
    pub const SONG_STORMS: u32 = 0x0001_0000;

    /// No quest item.
    pub fn empty() -> (r: u32)
        ensures
            r == 0,
    {
        0
    }
}

/// Bits of the upgrade field.
///
/// The quiver and bomb bag are two-bit levels; the wallet is a two-bit level.
pub struct MmUpgrades;

impl MmUpgrades {
    pub const QUIVER_30: u32 = 0x0000_0001;
    pub const QUIVER_40: u32 = 0x0000_0002;
    pub const QUIVER_50: u32 = 0x0000_0003;
    pub const QUIVER_MASK: u32 = 0x0000_0003;
    pub const BOMB_BAG_20: u32 = 0x0000_0008;
    pub const BOMB_BAG_30: u32 = 0x0000_0010;
    pub const BOMB_BAG_40: u32 = 0x0000_0018;
    pub const BOMB_BAG_MASK: u32 = 0x0000_0018;
    pub const ADULTS_WALLET: u32 = 0x0000_1000;
    pub const GIANTS_WALLET: u32 = 0x0000_2000;
    pub const WALLET_MASK: u32 = 0x0000_3000;

    /// No upgrade.
    pub fn empty() -> (r: u32)
        ensures
            r == 0,
    {
        0
    }
}

/// Sword level.
#[derive(Debug, Clone, Copy, PartialEq, Eq, Structural, Default)]
pub enum MmSword {
    #[default]
    NoSword,
    KokiriSword,
    RazorSword,
    GildedSword,
}

/// Shield level.
#[derive(Debug, Clone, Copy, PartialEq, Eq, Structural, Default)]
pub enum MmShield {
    #[default]
    NoShield,
    HeroShield,
    MirrorShield,
}

/// Magic meter capacity.
#[derive(Debug, Clone, Copy, PartialEq, Eq, Structural, Default)]
pub enum MmMagicCapacity {
    #[default]
    NoMagic,
    Single,
    Double,
}

/// Small key counts per temple.
#[derive(Debug, Clone, Copy, PartialEq, Eq, Structural, Default)]
pub struct MmSmallKeys {
    pub woodfall: u8,
    pub snowhead: u8,
    pub great_bay: u8,
    pub stone_tower: u8,
}

/// Stray fairy counts per area.
#[derive(Debug, Clone, Copy, PartialEq, Eq, Structural, Default)]
pub struct MmStrayFairies {
    pub clock_town: u8,
    pub woodfall: u8,
    pub snowhead: u8,
    pub great_bay: u8,
    pub stone_tower: u8,
}

/// Scene flags that persist across Song of Time resets.
#[derive(Debug, Clone, Copy, PartialEq, Eq, Structural, Default)]
pub struct MmPermanentSceneFlags {
    pub chest: u32,
    pub switch0: u32,
    pub switch1: u32,
    pub cleared_room: u32,
    pub collectible: u32,
    pub cleared_floors: u32,
    pub rooms: u32,
}

/// Scene flags of the current three-day cycle.
#[derive(Debug, Clone, Copy, PartialEq, Eq, Structural, Default)]
pub struct MmCycleSceneFlags {
    pub chest: u32,
    pub switch0: u32,
    pub switch1: u32,
    pub cleared_room: u32,
    pub collectible: u32,
}

/// Majora's Mask save data.
#[derive(Debug, Clone, PartialEq, Eq)]
pub struct MmSave {
    pub inventory: MmInventory,
    pub masks: MmMasks,
    /// Bits of [`MmQuestItems`]
    pub quest_items: u32,
    pub sword: MmSword,
    pub shield: MmShield,
    pub magic: MmMagicCapacity,
    pub double_defense: bool,
    /// Bits of [`MmUpgrades`]
    pub upgrades: u32,
    pub small_keys: MmSmallKeys,
    pub stray_fairies: MmStrayFairies,
    pub permanent_scene_flags: Vec<MmPermanentSceneFlags>,
    pub cycle_scene_flags: Vec<MmCycleSceneFlags>,
}

/// A save in which nothing has been collected yet.
pub open spec fn spec_empty_save(s: MmSave) -> bool {
    &&& s.inventory == MmInventory {
        ocarina: false,
        bow: false,
        fire_arrows: false,
        ice_arrows: false,
        light_arrows: false,
        bombs: false,
        bombchus: false,
        deku_sticks: false,
        deku_nuts: false,
        magic_beans: false,
        powder_keg: false,
        pictograph_box: false,
        lens: false,
        hookshot: false,
        great_fairy_sword: false,
        bottles: s.inventory.bottles,
    }
    &&& forall|i: int| 0 <= i < MM_BOTTLE_SLOTS ==> s.inventory.bottles@[i] == MmBottle::NoBottle
    &&& s.masks == MmMasks { transformation: 0, masks_low: 0, masks_high: 0 }
    &&& s.quest_items == 0
    &&& s.sword == MmSword::NoSword
    &&& s.shield == MmShield::NoShield
    &&& s.magic == MmMagicCapacity::NoMagic
    &&& !s.double_defense
    &&& s.upgrades == 0
    &&& s.small_keys == MmSmallKeys { woodfall: 0, snowhead: 0, great_bay: 0, stone_tower: 0 }
    &&& s.stray_fairies == MmStrayFairies {
        clock_town: 0,
        woodfall: 0,
        snowhead: 0,
        great_bay: 0,
        stone_tower: 0,
    }
    &&& s.permanent_scene_flags@.len() == 0
    &&& s.cycle_scene_flags@.len() == 0
}

impl Default for MmSave {
    fn default() -> (s: Self)
        ensures
            spec_empty_save(s),
    {
        let s = MmSave {
            inventory: MmInventory {
                ocarina: false,
                bow: false,
                fire_arrows: false,
                ice_arrows: false,
                light_arrows: false,
                bombs: false,
                bombchus: false,
                deku_sticks: false,
                deku_nuts: false,
                magic_beans: false,
                powder_keg: false,
                pictograph_box: false,
                lens: false,
                hookshot: false,
                great_fairy_sword: false,
                bottles: [MmBottle::NoBottle; 6],
            },
            masks: MmMasks { transformation: 0, masks_low: 0, masks_high: 0 },
            quest_items: 0,
            sword: MmSword::NoSword,
            shield: MmShield::NoShield,
            magic: MmMagicCapacity::NoMagic,
            double_defense: false,
            upgrades: 0,
            small_keys: MmSmallKeys { woodfall: 0, snowhead: 0, great_bay: 0, stone_tower: 0 },
            stray_fairies: MmStrayFairies {
                clock_town: 0,
                woodfall: 0,
                snowhead: 0,
                great_bay: 0,
                stone_tower: 0,
            },
            permanent_scene_flags: Vec::new(),
            cycle_scene_flags: Vec::new(),
        };
        s
    }
}

} // verus!
