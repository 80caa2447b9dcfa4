//! Logic context for Majora's Mask.
//!
//! [`MmGameContext`] reads [`MmSave`] data as the logic conditions used
//! by the OoTMM randomizer logic system: inventory items, masks, songs and
//! other game state, each under its logic identifier.

use vstd::prelude::*;

use crate::eval_context::EvalContext;
use crate::inventory::Inventory;
use crate::mm_save::{
    MmBottle, MmMagicCapacity, MmMasksHigh, MmMasksLow, MmQuestItems, MmSave, MmShield, MmSword,
    MmTransformationMasks, MmUpgrades, MM_BOTTLE_SLOTS,
};
use crate::text::{
    lemma_ascii_case_forms, spec_ascii_lower, spec_ascii_upper, spec_is_ascii, spec_to_uppercase, str_eq, to_uppercase,
};

pub mod logic_ids;

verus! {

// ============================================================================
// Item possession, stated over the save data
// ============================================================================

/// Whether the player has the Ocarina of Time.
pub open spec fn spec_has_ocarina(s: MmSave) -> bool {
    s.inventory.ocarina
}

/// Whether the player has the Hero's Bow.
pub open spec fn spec_has_bow(s: MmSave) -> bool {
    s.inventory.bow
}

/// Whether the player has Fire Arrows.
pub open spec fn spec_has_fire_arrow(s: MmSave) -> bool {
    s.inventory.fire_arrows
}

/// Whether the player has Ice Arrows.
pub open spec fn spec_has_ice_arrow(s: MmSave) -> bool {
    s.inventory.ice_arrows
}

/// Whether the player has Light Arrows.
pub open spec fn spec_has_light_arrow(s: MmSave) -> bool {
    s.inventory.light_arrows
}

/// Whether the player has the Hookshot.
pub open spec fn spec_has_hookshot(s: MmSave) -> bool {
    s.inventory.hookshot
}

/// Whether the player has Bombs.
pub open spec fn spec_has_bombs(s: MmSave) -> bool {
    s.inventory.bombs
}

/// Whether the player has Bombchus.
pub open spec fn spec_has_bombchu(s: MmSave) -> bool {
    s.inventory.bombchus
}

/// Whether the player has Powder Kegs.
pub open spec fn spec_has_powder_keg(s: MmSave) -> bool {
    s.inventory.powder_keg
}

/// Whether the player has the Lens of Truth.
pub open spec fn spec_has_lens_of_truth(s: MmSave) -> bool {
    s.inventory.lens
}

/// Whether the player has the Pictograph Box.
pub open spec fn spec_has_pictograph_box(s: MmSave) -> bool {
    s.inventory.pictograph_box
}

/// Whether the player has the Great Fairy's Sword.
pub open spec fn spec_has_great_fairy_sword(s: MmSave) -> bool {
    s.inventory.great_fairy_sword
}

/// Whether the player has Magic Beans.
pub open spec fn spec_has_magic_bean(s: MmSave) -> bool {
    s.inventory.magic_beans
}

/// Whether the player has Deku Sticks.
pub open spec fn spec_has_deku_stick(s: MmSave) -> bool {
    s.inventory.deku_sticks
}

/// Whether the player has Deku Nuts.
pub open spec fn spec_has_deku_nut(s: MmSave) -> bool {
    s.inventory.deku_nuts
}

/// Whether the player has the Deku Mask.
pub open spec fn spec_has_deku_mask(s: MmSave) -> bool {
    s.masks.transformation & MmTransformationMasks::DEKU != 0
}

/// Whether the player has the Goron Mask.
pub open spec fn spec_has_goron_mask(s: MmSave) -> bool {
    s.masks.transformation & MmTransformationMasks::GORON != 0
}

/// Whether the player has the Zora Mask.
pub open spec fn spec_has_zora_mask(s: MmSave) -> bool {
    s.masks.transformation & MmTransformationMasks::ZORA != 0
}

/// Whether the player has the Fierce Deity Mask.
pub open spec fn spec_has_fierce_deity_mask(s: MmSave) -> bool {
    s.masks.transformation & MmTransformationMasks::FIERCE_DEITY != 0
}

/// Whether the player has the Postman's Hat.
pub open spec fn spec_has_postman_hat(s: MmSave) -> bool {
    s.masks.masks_low & MmMasksLow::POSTMAN != 0
}

/// Whether the player has the All-Night Mask.
pub open spec fn spec_has_all_night_mask(s: MmSave) -> bool {
    s.masks.masks_low & MmMasksLow::ALL_NIGHT != 0
}

/// Whether the player has the Blast Mask.
pub open spec fn spec_has_blast_mask(s: MmSave) -> bool {
    s.masks.masks_low & MmMasksLow::BLAST != 0
}

/// Whether the player has the Stone Mask.
pub open spec fn spec_has_stone_mask(s: MmSave) -> bool {
    s.masks.masks_low & MmMasksLow::STONE != 0
}

/// Whether the player has the Great Fairy Mask.
pub open spec fn spec_has_great_fairy_mask(s: MmSave) -> bool {
    s.masks.masks_low & MmMasksLow::GREAT_FAIRY != 0
}

/// Whether the player has the Keaton Mask.
pub open spec fn spec_has_keaton_mask(s: MmSave) -> bool {
    s.masks.masks_low & MmMasksLow::KEATON != 0
}

/// Whether the player has the Bremen Mask.
pub open spec fn spec_has_bremen_mask(s: MmSave) -> bool {
    s.masks.masks_low & MmMasksLow::BREMEN != 0
}

/// Whether the player has the Bunny Hood.
pub open spec fn spec_has_bunny_hood(s: MmSave) -> bool {
    s.masks.masks_low & MmMasksLow::BUNNY != 0
}

/// Whether the player has Don Gero's Mask.
pub open spec fn spec_has_don_gero_mask(s: MmSave) -> bool {
    s.masks.masks_low & MmMasksLow::DON_GERO != 0
}

/// Whether the player has the Mask of Scents.
pub open spec fn spec_has_mask_of_scents(s: MmSave) -> bool {
    s.masks.masks_low & MmMasksLow::SCENTS != 0
}

/// Whether the player has Romani's Mask.
pub open spec fn spec_has_romani_mask(s: MmSave) -> bool {
    s.masks.masks_low & MmMasksLow::ROMANI != 0
}

/// Whether the player has the Circus Leader's Mask.
pub open spec fn spec_has_circus_leader_mask(s: MmSave) -> bool {
    s.masks.masks_low & MmMasksLow::CIRCUS_LEADER != 0
}

/// Whether the player has Kafei's Mask.
pub open spec fn spec_has_kafei_mask(s: MmSave) -> bool {
    s.masks.masks_low & MmMasksLow::KAFEI != 0
}

/// Whether the player has the Couple's Mask.
pub open spec fn spec_has_couples_mask(s: MmSave) -> bool {
    s.masks.masks_low & MmMasksLow::COUPLES != 0
}

/// Whether the player has the Mask of Truth.
pub open spec fn spec_has_mask_of_truth(s: MmSave) -> bool {
    s.masks.masks_low & MmMasksLow::TRUTH != 0
}

/// Whether the player has Kamaro's Mask.
pub open spec fn spec_has_kamaro_mask(s: MmSave) -> bool {
    s.masks.masks_high & MmMasksHigh::KAMARO != 0
}

/// Whether the player has the Gibdo Mask.
pub open spec fn spec_has_gibdo_mask(s: MmSave) -> bool {
    s.masks.masks_high & MmMasksHigh::GIBDO != 0
}

/// Whether the player has the Garo's Mask.
pub open spec fn spec_has_garo_mask(s: MmSave) -> bool {
    s.masks.masks_high & MmMasksHigh::GARO != 0
}

/// Whether the player has the Captain's Hat.
pub open spec fn spec_has_captain_hat(s: MmSave) -> bool {
    s.masks.masks_high & MmMasksHigh::CAPTAIN != 0
}

/// Whether the player has the Giant's Mask.
pub open spec fn spec_has_giant_mask(s: MmSave) -> bool {
    s.masks.masks_high & MmMasksHigh::GIANT != 0
}

/// Whether the player has Song of Time.
pub open spec fn spec_has_song_of_time(s: MmSave) -> bool {
    s.quest_items & MmQuestItems::SONG_TIME != 0
}

/// Whether the player has Song of Healing.
pub open spec fn spec_has_song_of_healing(s: MmSave) -> bool {
    s.quest_items & MmQuestItems::SONG_HEALING != 0
}

/// Whether the player has Epona's Song.
pub open spec fn spec_has_eponas_song(s: MmSave) -> bool {
    s.quest_items & MmQuestItems::SONG_EPONA != 0
}

/// Whether the player has Song of Soaring.
pub open spec fn spec_has_song_of_soaring(s: MmSave) -> bool {
    s.quest_items & MmQuestItems::SONG_SOARING != 0
}

/// Whether the player has Song of Storms.
pub open spec fn spec_has_song_of_storms(s: MmSave) -> bool {
    s.quest_items & MmQuestItems::SONG_STORMS != 0
}

/// Whether the player has Sonata of Awakening.
pub open spec fn spec_has_sonata_of_awakening(s: MmSave) -> bool {
    s.quest_items & MmQuestItems::SONG_AWAKENING != 0
}

/// Whether the player has Goron Lullaby.
pub open spec fn spec_has_goron_lullaby(s: MmSave) -> bool {
    s.quest_items & MmQuestItems::SONG_GORON != 0
}

/// Whether the player has New Wave Bossa Nova.
pub open spec fn spec_has_new_wave_bossa_nova(s: MmSave) -> bool {
    s.quest_items & MmQuestItems::SONG_ZORA != 0
}

/// Whether the player has Elegy of Emptiness.
pub open spec fn spec_has_elegy_of_emptiness(s: MmSave) -> bool {
    s.quest_items & MmQuestItems::SONG_EMPTINESS != 0
}

/// Whether the player has Oath to Order.
pub open spec fn spec_has_oath_to_order(s: MmSave) -> bool {
    s.quest_items & MmQuestItems::SONG_ORDER != 0
}

/// Whether the player has Odolwa's Remains.
pub open spec fn spec_has_odolwa_remains(s: MmSave) -> bool {
    s.quest_items & MmQuestItems::REMAINS_ODOLWA != 0
}

/// Whether the player has Goht's Remains.
pub open spec fn spec_has_goht_remains(s: MmSave) -> bool {
    s.quest_items & MmQuestItems::REMAINS_GOHT != 0
}

/// Whether the player has Gyorg's Remains.
pub open spec fn spec_has_gyorg_remains(s: MmSave) -> bool {
    s.quest_items & MmQuestItems::REMAINS_GYORG != 0
}

/// Whether the player has Twinmold's Remains.
pub open spec fn spec_has_twinmold_remains(s: MmSave) -> bool {
    s.quest_items & MmQuestItems::REMAINS_TWINMOLD != 0
}

/// Whether the player has the Kokiri Sword (or a better sword).
pub open spec fn spec_has_kokiri_sword(s: MmSave) -> bool {
    s.sword == MmSword::KokiriSword || s.sword == MmSword::RazorSword || s.sword == MmSword::GildedSword
}

/// Whether the player has the Razor Sword (or a better sword).
pub open spec fn spec_has_razor_sword(s: MmSave) -> bool {
    s.sword == MmSword::RazorSword || s.sword == MmSword::GildedSword
}

/// Whether the player has the Gilded Sword.
pub open spec fn spec_has_gilded_sword(s: MmSave) -> bool {
    s.sword == MmSword::GildedSword
}

/// Whether the player has the Hero's Shield (or the Mirror Shield).
pub open spec fn spec_has_hero_shield(s: MmSave) -> bool {
    s.shield == MmShield::HeroShield || s.shield == MmShield::MirrorShield
}

/// Whether the player has the Mirror Shield.
pub open spec fn spec_has_mirror_shield(s: MmSave) -> bool {
    s.shield == MmShield::MirrorShield
}

/// Whether the player has magic.
pub open spec fn spec_has_magic(s: MmSave) -> bool {
    s.magic != MmMagicCapacity::NoMagic
}

/// Whether the player has a (single or double) magic meter.
pub open spec fn spec_has_magic_meter(s: MmSave) -> bool {
    s.magic == MmMagicCapacity::Single || s.magic == MmMagicCapacity::Double
}

/// Whether the player has double magic.
pub open spec fn spec_has_double_magic(s: MmSave) -> bool {
    s.magic == MmMagicCapacity::Double
}

/// Whether the player has double defense.
pub open spec fn spec_has_double_defense(s: MmSave) -> bool {
    s.double_defense
}

/// Whether the player has the Adult's Wallet (or a bigger wallet).
pub open spec fn spec_has_adult_wallet(s: MmSave) -> bool {
    spec_wallet_level(s) >= 1
}

/// Whether the player has the Giant's Wallet.
pub open spec fn spec_has_giant_wallet(s: MmSave) -> bool {
    spec_wallet_level(s) >= 2
}

/// Whether the player has at least one bottle.
pub open spec fn spec_has_bottle(s: MmSave) -> bool {
    spec_bottle_count(s) > 0
}

/// Number of boss remains collected.
pub open spec fn spec_boss_remains_count(s: MmSave) -> nat {
    (if spec_has_odolwa_remains(s) { 1nat } else { 0nat }) + (if spec_has_goht_remains(s) {
        1nat
    } else {
        0nat
    }) + (if spec_has_gyorg_remains(s) { 1nat } else { 0nat }) + (if spec_has_twinmold_remains(
        s,
    ) {
        1nat
    } else {
        0nat
    })
}

/// Wallet upgrade level (0 = none, 1 = adult, 2 = giant).
pub open spec fn spec_wallet_level(s: MmSave) -> u8 {
    let wallet = s.upgrades & MmUpgrades::WALLET_MASK;
    if wallet & MmUpgrades::GIANTS_WALLET == MmUpgrades::GIANTS_WALLET {
        2
    } else if wallet & MmUpgrades::ADULTS_WALLET == MmUpgrades::ADULTS_WALLET {
        1
    } else {
        0
    }
}

/// Quiver upgrade level (0 = none, 1 = 30, 2 = 40, 3 = 50).
pub open spec fn spec_quiver_level(s: MmSave) -> u8 {
    let quiver = s.upgrades & MmUpgrades::QUIVER_MASK;
    if quiver & MmUpgrades::QUIVER_50 == MmUpgrades::QUIVER_50 {
        3
    } else if quiver & MmUpgrades::QUIVER_40 == MmUpgrades::QUIVER_40 {
        2
    } else if quiver & MmUpgrades::QUIVER_30 == MmUpgrades::QUIVER_30 {
        1
    } else {
        0
    }
}

/// Bomb bag upgrade level (0 = none, 1 = 20, 2 = 30, 3 = 40).
pub open spec fn spec_bomb_bag_level(s: MmSave) -> u8 {
    let bomb_bag = s.upgrades & MmUpgrades::BOMB_BAG_MASK;
    if bomb_bag & MmUpgrades::BOMB_BAG_40 == MmUpgrades::BOMB_BAG_40 {
        3
    } else if bomb_bag & MmUpgrades::BOMB_BAG_30 == MmUpgrades::BOMB_BAG_30 {
        2
    } else if bomb_bag & MmUpgrades::BOMB_BAG_20 == MmUpgrades::BOMB_BAG_20 {
        1
    } else {
        0
    }
}

/// Number of non-empty bottle slots among `bottles`.
pub open spec fn spec_filled_slots(bottles: Seq<MmBottle>) -> nat
    decreases bottles.len(),
{
    if bottles.len() == 0 {
        0
    } else {
        spec_filled_slots(bottles.drop_last()) + if bottles.last() != MmBottle::NoBottle {
            1nat
        } else {
            0nat
        }
    }
}

/// Number of bottles the player has.
pub open spec fn spec_bottle_count(s: MmSave) -> nat {
    spec_filled_slots(s.inventory.bottles@)
}

pub proof fn lemma_filled_slots_bound(bottles: Seq<MmBottle>)
    ensures
        spec_filled_slots(bottles) <= bottles.len(),
    decreases bottles.len(),
{
    if bottles.len() > 0 {
        lemma_filled_slots_bound(bottles.drop_last());
    }
}

// ============================================================================
// Name lookups
// ============================================================================

/// Whether the player has the item named `name` (an uppercase logic identifier
/// or its underscore-free spelling); unknown names are not owned.
pub open spec fn spec_has_named_item(s: MmSave, name: Seq<char>) -> bool {

    if name == "OCARINA_OF_TIME"@ || name == "OCARINAOFTTIME"@ {
        spec_has_ocarina(s)
    } else if name == "HEROS_BOW"@ || name == "HEROSBOW"@ {
        spec_has_bow(s)
    } else if name == "FIRE_ARROW"@ || name == "FIREARROW"@ {
        spec_has_fire_arrow(s)
    } else if name == "ICE_ARROW"@ || name == "ICEARROW"@ {
        spec_has_ice_arrow(s)
    } else if name == "LIGHT_ARROW"@ || name == "LIGHTARROW"@ {
        spec_has_light_arrow(s)
    } else if name == "HOOKSHOT"@ {
        spec_has_hookshot(s)
    } else if name == "BOMB"@ || name == "BOMBS"@ {
        spec_has_bombs(s)
    } else if name == "BOMBCHU"@ || name == "BOMBCHUS"@ {
        spec_has_bombchu(s)
    } else if name == "POWDER_KEG"@ || name == "POWDERKEG"@ {
        spec_has_powder_keg(s)
    } else if name == "LENS_OF_TRUTH"@ || name == "LENSOFTRUTH"@ {
        spec_has_lens_of_truth(s)
    } else if name == "PICTOGRAPH_BOX"@ || name == "PICTOGRAPHBOX"@ {
        spec_has_pictograph_box(s)
    } else if name == "GREAT_FAIRY_SWORD"@ || name == "GREATFAIRYSWORD"@ {
        spec_has_great_fairy_sword(s)
    } else if name == "MAGIC_BEAN"@ || name == "MAGICBEAN"@ {
        spec_has_magic_bean(s)
    } else if name == "DEKU_STICK"@ || name == "DEKUSTICK"@ {
        spec_has_deku_stick(s)
    } else if name == "DEKU_NUT"@ || name == "DEKUNUT"@ {
        spec_has_deku_nut(s)
    } else if name == "DEKU_MASK"@ || name == "DEKUMASK"@ {
        spec_has_deku_mask(s)
    } else if name == "GORON_MASK"@ || name == "GORONMASK"@ {
        spec_has_goron_mask(s)
    } else if name == "ZORA_MASK"@ || name == "ZORAMASK"@ {
        spec_has_zora_mask(s)
    } else if name == "FIERCE_DEITY_MASK"@ || name == "FIERCEDEITYMASK"@ {
        spec_has_fierce_deity_mask(s)
    } else if name == "POSTMAN_HAT"@ || name == "POSTMANHAT"@ {
        spec_has_postman_hat(s)
    } else if name == "ALL_NIGHT_MASK"@ || name == "ALLNIGHTMASK"@ {
        spec_has_all_night_mask(s)
    } else if name == "BLAST_MASK"@ || name == "BLASTMASK"@ {
        spec_has_blast_mask(s)
    } else if name == "STONE_MASK"@ || name == "STONEMASK"@ {
        spec_has_stone_mask(s)
    } else if name == "GREAT_FAIRY_MASK"@ || name == "GREATFAIRYMASK"@ {
        spec_has_great_fairy_mask(s)
    } else if name == "KEATON_MASK"@ || name == "KEATONMASK"@ {
        spec_has_keaton_mask(s)
    } else if name == "BREMEN_MASK"@ || name == "BREMENMASK"@ {
        spec_has_bremen_mask(s)
    } else if name == "BUNNY_HOOD"@ || name == "BUNNYHOOD"@ {
        spec_has_bunny_hood(s)
    } else if name == "DON_GERO_MASK"@ || name == "DONGEROMASK"@ {
        spec_has_don_gero_mask(s)
    } else if name == "MASK_OF_SCENTS"@ || name == "MASKOFSCENTS"@ {
        spec_has_mask_of_scents(s)
    } else if name == "ROMANI_MASK"@ || name == "ROMANIMASK"@ {
        spec_has_romani_mask(s)
    } else if name == "CIRCUS_LEADER_MASK"@ || name == "CIRCUSLEADERMASK"@ {
        spec_has_circus_leader_mask(s)
    } else if name == "KAFEI_MASK"@ || name == "KAFEIMASK"@ {
        spec_has_kafei_mask(s)
    } else if name == "COUPLES_MASK"@ || name == "COUPLESMASK"@ {
        spec_has_couples_mask(s)
    } else if name == "MASK_OF_TRUTH"@ || name == "MASKOFTRUTH"@ {
        spec_has_mask_of_truth(s)
    } else if name == "KAMARO_MASK"@ || name == "KAMAROMASK"@ {
        spec_has_kamaro_mask(s)
    } else if name == "GIBDO_MASK"@ || name == "GIBDOMASK"@ {
        spec_has_gibdo_mask(s)
    } else if name == "GARO_MASK"@ || name == "GAROMASK"@ {
        spec_has_garo_mask(s)
    } else if name == "CAPTAIN_HAT"@ || name == "CAPTAINHAT"@ {
        spec_has_captain_hat(s)
    } else if name == "GIANT_MASK"@ || name == "GIANTMASK"@ {
        spec_has_giant_mask(s)
    } else if name == "SONG_OF_TIME"@ || name == "SONGOFTIME"@ {
        spec_has_song_of_time(s)
    } else if name == "SONG_OF_HEALING"@ || name == "SONGOFHEALING"@ {
        spec_has_song_of_healing(s)
    } else if name == "EPONAS_SONG"@ || name == "EPONASSONG"@ {
        spec_has_eponas_song(s)
    } else if name == "SONG_OF_SOARING"@ || name == "SONGOFSOARING"@ {
        spec_has_song_of_soaring(s)
    } else if name == "SONG_OF_STORMS"@ || name == "SONGOFSTORMS"@ {
        spec_has_song_of_storms(s)
    } else if name == "SONATA_OF_AWAKENING"@ || name == "SONATAOFAWAKENING"@ {
        spec_has_sonata_of_awakening(s)
    } else if name == "GORON_LULLABY"@ || name == "GORONLULLABY"@ {
        spec_has_goron_lullaby(s)
    } else if name == "NEW_WAVE_BOSSA_NOVA"@ || name == "NEWWAVEBOSSANOVA"@ {
        spec_has_new_wave_bossa_nova(s)
    } else if name == "ELEGY_OF_EMPTINESS"@ || name == "ELEGYOFEMPTINESS"@ {
        spec_has_elegy_of_emptiness(s)
    } else if name == "OATH_TO_ORDER"@ || name == "OATHTOORDER"@ {
        spec_has_oath_to_order(s)
    } else if name == "ODOLWA_REMAINS"@ || name == "ODOLWAREMAINS"@ {
        spec_has_odolwa_remains(s)
    } else if name == "GOHT_REMAINS"@ || name == "GOHTREMAINS"@ {
        spec_has_goht_remains(s)
    } else if name == "GYORG_REMAINS"@ || name == "GYORGREMAINS"@ {
        spec_has_gyorg_remains(s)
    } else if name == "TWINMOLD_REMAINS"@ || name == "TWINMOLDREMAINS"@ {
        spec_has_twinmold_remains(s)
    } else if name == "KOKIRI_SWORD"@ || name == "KOKIRISWORD"@ {
        spec_has_kokiri_sword(s)
    } else if name == "RAZOR_SWORD"@ || name == "RAZORSWORD"@ {
        spec_has_razor_sword(s)
    } else if name == "GILDED_SWORD"@ || name == "GILDEDSWORD"@ {
        spec_has_gilded_sword(s)
    } else if name == "HERO_SHIELD"@ || name == "HEROSHIELD"@ {
        spec_has_hero_shield(s)
    } else if name == "MIRROR_SHIELD"@ || name == "MIRRORSHIELD"@ {
        spec_has_mirror_shield(s)
    } else if name == "BOTTLE"@ {
        spec_has_bottle(s)
    } else if name == "MAGIC"@ || name == "MAGIC_METER"@ || name == "MAGICMETER"@ {
        spec_has_magic_meter(s)
    } else if name == "DOUBLE_MAGIC"@ || name == "DOUBLEMAGIC"@ {
        spec_has_double_magic(s)
    } else if name == "DOUBLE_DEFENSE"@ || name == "DOUBLEDEFENSE"@ {
        spec_has_double_defense(s)
    } else if name == "ADULT_WALLET"@ || name == "ADULTWALLET"@ {
        spec_has_adult_wallet(s)
    } else if name == "GIANT_WALLET"@ || name == "GIANTWALLET"@ || name == "GIANTS_WALLET"@ || name == "GIANTSWALLET"@ {
        spec_has_giant_wallet(s)
    } else {
        false
    }
}

/// The count of the item named `name`: the stored count for stackable items
/// (bottles, small keys, stray fairies, boss remains), 1 for a quiver or bomb
/// bag tier that the upgrade level reaches, and for any other item 1 if owned,
/// 0 otherwise.
pub open spec fn spec_named_item_count(s: MmSave, name: Seq<char>) -> nat {

    if name == "BOTTLE"@ {
        spec_bottle_count(s)
    } else if name == "SMALL_KEY_WOODFALL_TEMPLE"@ || name == "SMALLKEYWOODFALLTEMPLE"@ {
        s.small_keys.woodfall as nat
    } else if name == "SMALL_KEY_SNOWHEAD_TEMPLE"@ || name == "SMALLKEYSNOWHEADTEMPLE"@ {
        s.small_keys.snowhead as nat
    } else if name == "SMALL_KEY_GREAT_BAY_TEMPLE"@ || name == "SMALLKEYGREATBAYTEMPLE"@ {
        s.small_keys.great_bay as nat
    } else if name == "SMALL_KEY_STONE_TOWER_TEMPLE"@ || name == "SMALLKEYSTONETOWERTEMPLE"@ {
        s.small_keys.stone_tower as nat
    } else if name == "STRAY_FAIRY_CLOCK_TOWN"@ || name == "STRAYFAIRYCLOCKTOWN"@ {
        s.stray_fairies.clock_town as nat
    } else if name == "STRAY_FAIRY_WOODFALL"@ || name == "STRAYFAIRYWOODFALL"@ {
        s.stray_fairies.woodfall as nat
    } else if name == "STRAY_FAIRY_SNOWHEAD"@ || name == "STRAYFAIRYSNOWHEAD"@ {
        s.stray_fairies.snowhead as nat
    } else if name == "STRAY_FAIRY_GREAT_BAY"@ || name == "STRAYFAIRYGREATBAY"@ {
        s.stray_fairies.great_bay as nat
    } else if name == "STRAY_FAIRY_STONE_TOWER"@ || name == "STRAYFAIRYSTONETOWER"@ {
        s.stray_fairies.stone_tower as nat
    } else if name == "BOSS_REMAINS"@ || name == "BOSSREMAINS"@ {
        spec_boss_remains_count(s)
    } else if name == "QUIVER_30"@ {
        if spec_quiver_level(s) >= 1 { 1 } else { 0 }
    } else if name == "QUIVER_40"@ {
        if spec_quiver_level(s) >= 2 { 1 } else { 0 }
    } else if name == "QUIVER_50"@ {
        if spec_quiver_level(s) >= 3 { 1 } else { 0 }
    } else if name == "BOMB_BAG_20"@ {
        if spec_bomb_bag_level(s) >= 1 { 1 } else { 0 }
    } else if name == "BOMB_BAG_30"@ {
        if spec_bomb_bag_level(s) >= 2 { 1 } else { 0 }
    } else if name == "BOMB_BAG_40"@ {
        if spec_bomb_bag_level(s) >= 3 { 1 } else { 0 }
    } else if spec_has_named_item(s, name) {
        1
    } else {
        0
    }
}

/// Whether the room of `scene_id` was cleared, per the permanent scene flags.
pub open spec fn spec_boss_defeated_permanent(s: MmSave, scene_id: int) -> bool {
    0 <= scene_id < s.permanent_scene_flags@.len() && s.permanent_scene_flags@[scene_id].cleared_room
        != 0
}

/// Whether the room of `scene_id` was cleared in the current cycle.
pub open spec fn spec_boss_defeated_cycle(s: MmSave, scene_id: int) -> bool {
    0 <= scene_id < s.cycle_scene_flags@.len() && s.cycle_scene_flags@[scene_id].cleared_room != 0
}

/// Whether the floors of `scene_id` were cleared, per the permanent scene flags.
pub open spec fn spec_dungeon_clear_permanent(s: MmSave, scene_id: int) -> bool {
    0 <= scene_id < s.permanent_scene_flags@.len()
        && s.permanent_scene_flags@[scene_id].cleared_floors != 0
}

/// Whether the dungeon of `scene_id` was cleared in the current cycle (cycle
/// flags have no floor field, so the room clear flag stands for it).
pub open spec fn spec_dungeon_clear_cycle(s: MmSave, scene_id: int) -> bool {
    0 <= scene_id < s.cycle_scene_flags@.len() && s.cycle_scene_flags@[scene_id].cleared_room != 0
}

/// Whether the event named `name` (an uppercase event identifier) happened:
/// boss defeats and dungeon clears, permanent or in the current cycle, read
/// from the flags of the boss scenes (Woodfall 0x1A, Snowhead 0x24, Great Bay
/// 0x4F, Stone Tower 0x36). Unknown events did not happen.
pub open spec fn spec_named_event(s: MmSave, name: Seq<char>) -> bool {

    if name == "ODOLWA_DEFEATED"@ {
        spec_boss_defeated_permanent(s, 0x1A)
    } else if name == "GOHT_DEFEATED"@ {
        spec_boss_defeated_permanent(s, 0x24)
    } else if name == "GYORG_DEFEATED"@ {
        spec_boss_defeated_permanent(s, 0x4F)
    } else if name == "TWINMOLD_DEFEATED"@ {
        spec_boss_defeated_permanent(s, 0x36)
    } else if name == "ODOLWA_DEFEATED_CYCLE"@ {
        spec_boss_defeated_cycle(s, 0x1A)
    } else if name == "GOHT_DEFEATED_CYCLE"@ {
        spec_boss_defeated_cycle(s, 0x24)
    } else if name == "GYORG_DEFEATED_CYCLE"@ {
        spec_boss_defeated_cycle(s, 0x4F)
    } else if name == "TWINMOLD_DEFEATED_CYCLE"@ {
        spec_boss_defeated_cycle(s, 0x36)
    } else if name == "WOODFALL_TEMPLE_CLEAR"@ {
        spec_dungeon_clear_permanent(s, 0x1A)
    } else if name == "SNOWHEAD_TEMPLE_CLEAR"@ {
        spec_dungeon_clear_permanent(s, 0x24)
    } else if name == "GREAT_BAY_TEMPLE_CLEAR"@ {
        spec_dungeon_clear_permanent(s, 0x4F)
    } else if name == "STONE_TOWER_TEMPLE_CLEAR"@ {
        spec_dungeon_clear_permanent(s, 0x36)
    } else if name == "WOODFALL_TEMPLE_CLEAR_CYCLE"@ {
        spec_dungeon_clear_cycle(s, 0x1A)
    } else if name == "SNOWHEAD_TEMPLE_CLEAR_CYCLE"@ {
        spec_dungeon_clear_cycle(s, 0x24)
    } else if name == "GREAT_BAY_TEMPLE_CLEAR_CYCLE"@ {
        spec_dungeon_clear_cycle(s, 0x4F)
    } else if name == "STONE_TOWER_TEMPLE_CLEAR_CYCLE"@ {
        spec_dungeon_clear_cycle(s, 0x36)
    } else {
        false
    }
}

// ============================================================================
// Inventory
// ============================================================================

/// 1 for an owned item, 0 otherwise.
pub open spec fn owned_count(b: bool) -> u32 {
    if b {
        1
    } else {
        0
    }
}

/// The map of the entries with a positive count; a later entry for the same
/// identifier replaces an earlier one.
pub open spec fn positive_entries_map(entries: Seq<(&'static str, u32)>) -> Map<Seq<char>, u32>
    decreases entries.len(),
{
    if entries.len() == 0 {
        Map::empty()
    } else {
        let m = positive_entries_map(entries.drop_last());
        let (k, c) = entries.last();
        if c > 0 {
            m.insert(k@, c)
        } else {
            m
        }
    }
}

/// Equipment items, each with 1 if owned and 0 otherwise.
pub open spec fn spec_equipment_entries(s: MmSave) -> Seq<(&'static str, u32)> {
    seq![
        (logic_ids::OCARINA_OF_TIME, owned_count(spec_has_ocarina(s))),
        (logic_ids::HEROS_BOW, owned_count(spec_has_bow(s))),
        (logic_ids::FIRE_ARROW, owned_count(spec_has_fire_arrow(s))),
        (logic_ids::ICE_ARROW, owned_count(spec_has_ice_arrow(s))),
        (logic_ids::LIGHT_ARROW, owned_count(spec_has_light_arrow(s))),
        (logic_ids::HOOKSHOT, owned_count(spec_has_hookshot(s))),
        (logic_ids::BOMB, owned_count(spec_has_bombs(s))),
        (logic_ids::BOMBCHU, owned_count(spec_has_bombchu(s))),
        (logic_ids::POWDER_KEG, owned_count(spec_has_powder_keg(s))),
        (logic_ids::LENS_OF_TRUTH, owned_count(spec_has_lens_of_truth(s))),
        (logic_ids::PICTOGRAPH_BOX, owned_count(spec_has_pictograph_box(s))),
        (logic_ids::GREAT_FAIRY_SWORD, owned_count(spec_has_great_fairy_sword(s))),
        (logic_ids::MAGIC_BEAN, owned_count(spec_has_magic_bean(s))),
        (logic_ids::DEKU_STICK, owned_count(spec_has_deku_stick(s))),
        (logic_ids::DEKU_NUT, owned_count(spec_has_deku_nut(s))),
    ]
}

/// Transformation masks, each with 1 if owned and 0 otherwise.
pub open spec fn spec_transformation_masks_entries(s: MmSave) -> Seq<(&'static str, u32)> {
    seq![
        (logic_ids::DEKU_MASK, owned_count(spec_has_deku_mask(s))),
        (logic_ids::GORON_MASK, owned_count(spec_has_goron_mask(s))),
        (logic_ids::ZORA_MASK, owned_count(spec_has_zora_mask(s))),
        (logic_ids::FIERCE_DEITY_MASK, owned_count(spec_has_fierce_deity_mask(s))),
    ]
}

/// Regular masks (first half), each with 1 if owned and 0 otherwise.
pub open spec fn spec_regular_masks_entries(s: MmSave) -> Seq<(&'static str, u32)> {
    seq![
        (logic_ids::POSTMAN_HAT, owned_count(spec_has_postman_hat(s))),
        (logic_ids::ALL_NIGHT_MASK, owned_count(spec_has_all_night_mask(s))),
        (logic_ids::BLAST_MASK, owned_count(spec_has_blast_mask(s))),
        (logic_ids::STONE_MASK, owned_count(spec_has_stone_mask(s))),
        (logic_ids::GREAT_FAIRY_MASK, owned_count(spec_has_great_fairy_mask(s))),
        (logic_ids::KEATON_MASK, owned_count(spec_has_keaton_mask(s))),
        (logic_ids::BREMEN_MASK, owned_count(spec_has_bremen_mask(s))),
        (logic_ids::BUNNY_HOOD, owned_count(spec_has_bunny_hood(s))),
        (logic_ids::DON_GERO_MASK, owned_count(spec_has_don_gero_mask(s))),
        (logic_ids::MASK_OF_SCENTS, owned_count(spec_has_mask_of_scents(s))),
    ]
}

/// Regular masks (second half), each with 1 if owned and 0 otherwise.
pub open spec fn spec_more_regular_masks_entries(s: MmSave) -> Seq<(&'static str, u32)> {
    seq![
        (logic_ids::ROMANI_MASK, owned_count(spec_has_romani_mask(s))),
        (logic_ids::CIRCUS_LEADER_MASK, owned_count(spec_has_circus_leader_mask(s))),
        (logic_ids::KAFEI_MASK, owned_count(spec_has_kafei_mask(s))),
        (logic_ids::COUPLES_MASK, owned_count(spec_has_couples_mask(s))),
        (logic_ids::MASK_OF_TRUTH, owned_count(spec_has_mask_of_truth(s))),
        (logic_ids::KAMARO_MASK, owned_count(spec_has_kamaro_mask(s))),
        (logic_ids::GIBDO_MASK, owned_count(spec_has_gibdo_mask(s))),
        (logic_ids::GARO_MASK, owned_count(spec_has_garo_mask(s))),
        (logic_ids::CAPTAIN_HAT, owned_count(spec_has_captain_hat(s))),
        (logic_ids::GIANT_MASK, owned_count(spec_has_giant_mask(s))),
    ]
}

/// Songs, each with 1 if owned and 0 otherwise.
pub open spec fn spec_songs_entries(s: MmSave) -> Seq<(&'static str, u32)> {
    seq![
        (logic_ids::SONG_OF_TIME, owned_count(spec_has_song_of_time(s))),
        (logic_ids::SONG_OF_HEALING, owned_count(spec_has_song_of_healing(s))),
        (logic_ids::EPONAS_SONG, owned_count(spec_has_eponas_song(s))),
        (logic_ids::SONG_OF_SOARING, owned_count(spec_has_song_of_soaring(s))),
        (logic_ids::SONG_OF_STORMS, owned_count(spec_has_song_of_storms(s))),
        (logic_ids::SONATA_OF_AWAKENING, owned_count(spec_has_sonata_of_awakening(s))),
        (logic_ids::GORON_LULLABY, owned_count(spec_has_goron_lullaby(s))),
        (logic_ids::NEW_WAVE_BOSSA_NOVA, owned_count(spec_has_new_wave_bossa_nova(s))),
        (logic_ids::ELEGY_OF_EMPTINESS, owned_count(spec_has_elegy_of_emptiness(s))),
        (logic_ids::OATH_TO_ORDER, owned_count(spec_has_oath_to_order(s))),
    ]
}

/// Boss remains, swords, shields and upgrades, each with 1 if owned and 0 otherwise.
pub open spec fn spec_remains_and_equipment_entries(s: MmSave) -> Seq<(&'static str, u32)> {
    seq![
        (logic_ids::ODOLWA_REMAINS, owned_count(spec_has_odolwa_remains(s))),
        (logic_ids::GOHT_REMAINS, owned_count(spec_has_goht_remains(s))),
        (logic_ids::GYORG_REMAINS, owned_count(spec_has_gyorg_remains(s))),
        (logic_ids::TWINMOLD_REMAINS, owned_count(spec_has_twinmold_remains(s))),
        (logic_ids::KOKIRI_SWORD, owned_count(spec_has_kokiri_sword(s))),
        (logic_ids::RAZOR_SWORD, owned_count(spec_has_razor_sword(s))),
        (logic_ids::GILDED_SWORD, owned_count(spec_has_gilded_sword(s))),
        (logic_ids::HERO_SHIELD, owned_count(spec_has_hero_shield(s))),
        (logic_ids::MIRROR_SHIELD, owned_count(spec_has_mirror_shield(s))),
        (logic_ids::MAGIC_METER, owned_count(spec_has_magic_meter(s))),
        (logic_ids::DOUBLE_MAGIC, owned_count(spec_has_double_magic(s))),
        (logic_ids::DOUBLE_DEFENSE, owned_count(spec_has_double_defense(s))),
        (logic_ids::ADULT_WALLET, owned_count(spec_has_adult_wallet(s))),
        (logic_ids::GIANT_WALLET, owned_count(spec_has_giant_wallet(s))),
    ]
}

/// Upgrade levels and stackable items with their counts.
pub open spec fn spec_counted_entries(s: MmSave) -> Seq<(&'static str, u32)> {
    seq![
        (logic_ids::QUIVER_30, owned_count(spec_quiver_level(s) >= 1)),
        (logic_ids::QUIVER_40, owned_count(spec_quiver_level(s) >= 2)),
        (logic_ids::QUIVER_50, owned_count(spec_quiver_level(s) >= 3)),
        (logic_ids::BOMB_BAG_20, owned_count(spec_bomb_bag_level(s) >= 1)),
        (logic_ids::BOMB_BAG_30, owned_count(spec_bomb_bag_level(s) >= 2)),
        (logic_ids::BOMB_BAG_40, owned_count(spec_bomb_bag_level(s) >= 3)),
        (logic_ids::BOTTLE, spec_bottle_count(s) as u32),
        (logic_ids::SMALL_KEY_WOODFALL_TEMPLE, s.small_keys.woodfall as u32),
        (logic_ids::SMALL_KEY_SNOWHEAD_TEMPLE, s.small_keys.snowhead as u32),
        (logic_ids::SMALL_KEY_GREAT_BAY_TEMPLE, s.small_keys.great_bay as u32),
        (logic_ids::SMALL_KEY_STONE_TOWER_TEMPLE, s.small_keys.stone_tower as u32),
        (logic_ids::STRAY_FAIRY_CLOCK_TOWN, s.stray_fairies.clock_town as u32),
        (logic_ids::STRAY_FAIRY_WOODFALL, s.stray_fairies.woodfall as u32),
        (logic_ids::STRAY_FAIRY_SNOWHEAD, s.stray_fairies.snowhead as u32),
        (logic_ids::STRAY_FAIRY_GREAT_BAY, s.stray_fairies.great_bay as u32),
        (logic_ids::STRAY_FAIRY_STONE_TOWER, s.stray_fairies.stone_tower as u32),
    ]
}

/// Every logic identifier of the inventory with its count, in the order the
/// inventory is built.
pub open spec fn spec_inventory_entries(s: MmSave) -> Seq<(&'static str, u32)> {
    spec_equipment_entries(s) + spec_transformation_masks_entries(s) + spec_regular_masks_entries(s)
        + spec_more_regular_masks_entries(s) + spec_songs_entries(s) + spec_remains_and_equipment_entries(s) + spec_counted_entries(s)
}

/// The inventory map of a save: every logic identifier with a positive count.
pub open spec fn spec_inventory(s: MmSave) -> Map<Seq<char>, u32> {
    positive_entries_map(spec_inventory_entries(s))
}

// ============================================================================
// The context
// ============================================================================

/// Game context for MM logic evaluation.
///
/// This struct bridges [`MmSave`] data to the logic system by providing
/// methods to query game state using logic identifiers.
#[derive(Debug)]
pub struct MmGameContext<'a> {
    save: &'a MmSave,
}

impl<'a> View for MmGameContext<'a> {
    type V = MmSave;

    closed spec fn view(&self) -> MmSave {
        *self.save
    }
}

impl<'a> MmGameContext<'a> {
    /// Create a new game context from an `MmSave` reference.
    pub fn new(save: &'a MmSave) -> (ctx: Self)
        ensures
            ctx@ == *save,
    {
        MmGameContext { save }
    }

    /// Get a reference to the underlying save data.
    pub fn save(&self) -> (r: &MmSave)
        ensures
            *r == self@,
    {
        self.save
    }

    /// Check if player has the Ocarina of Time.
    pub fn has_ocarina(&self) -> (r: bool)
        ensures
            r == spec_has_ocarina(self@),
    {
        self.save.inventory.ocarina
    }

    /// Check if player has the Hero's Bow.
    pub fn has_bow(&self) -> (r: bool)
        ensures
            r == spec_has_bow(self@),
    {
        self.save.inventory.bow
    }

    /// Check if player has Fire Arrows.
    pub fn has_fire_arrow(&self) -> (r: bool)
        ensures
            r == spec_has_fire_arrow(self@),
    {
        self.save.inventory.fire_arrows
    }

    /// Check if player has Ice Arrows.
    pub fn has_ice_arrow(&self) -> (r: bool)
        ensures
            r == spec_has_ice_arrow(self@),
    {
        self.save.inventory.ice_arrows
    }

    /// Check if player has Light Arrows.
    pub fn has_light_arrow(&self) -> (r: bool)
        ensures
            r == spec_has_light_arrow(self@),
    {
        self.save.inventory.light_arrows
    }

    /// Check if player has the Hookshot.
    pub fn has_hookshot(&self) -> (r: bool)
        ensures
            r == spec_has_hookshot(self@),
    {
        self.save.inventory.hookshot
    }

    /// Check if player has Bombs.
    pub fn has_bombs(&self) -> (r: bool)
        ensures
            r == spec_has_bombs(self@),
    {
        self.save.inventory.bombs
    }

    /// Check if player has Bombchus.
    pub fn has_bombchu(&self) -> (r: bool)
        ensures
            r == spec_has_bombchu(self@),
    {
        self.save.inventory.bombchus
    }

    /// Check if player has Powder Kegs.
    pub fn has_powder_keg(&self) -> (r: bool)
        ensures
            r == spec_has_powder_keg(self@),
    {
        self.save.inventory.powder_keg
    }

    /// Check if player has the Lens of Truth.
    pub fn has_lens_of_truth(&self) -> (r: bool)
        ensures
            r == spec_has_lens_of_truth(self@),
    {
        self.save.inventory.lens
    }

    /// Check if player has the Pictograph Box.
    pub fn has_pictograph_box(&self) -> (r: bool)
        ensures
            r == spec_has_pictograph_box(self@),
    {
        self.save.inventory.pictograph_box
    }

    /// Check if player has the Great Fairy's Sword.
    pub fn has_great_fairy_sword(&self) -> (r: bool)
        ensures
            r == spec_has_great_fairy_sword(self@),
    {
        self.save.inventory.great_fairy_sword
    }

    /// Check if player has Magic Beans.
    pub fn has_magic_bean(&self) -> (r: bool)
        ensures
            r == spec_has_magic_bean(self@),
    {
        self.save.inventory.magic_beans
    }

    /// Check if player has Deku Sticks.
    pub fn has_deku_stick(&self) -> (r: bool)
        ensures
            r == spec_has_deku_stick(self@),
    {
        self.save.inventory.deku_sticks
    }

    /// Check if player has Deku Nuts.
    pub fn has_deku_nut(&self) -> (r: bool)
        ensures
            r == spec_has_deku_nut(self@),
    {
        self.save.inventory.deku_nuts
    }

    /// Check if player has the Deku Mask.
    pub fn has_deku_mask(&self) -> (r: bool)
        ensures
            r == spec_has_deku_mask(self@),
    {
        self.save.masks.transformation & MmTransformationMasks::DEKU != 0
    }

    /// Check if player has the Goron Mask.
    pub fn has_goron_mask(&self) -> (r: bool)
        ensures
            r == spec_has_goron_mask(self@),
    {
        self.save.masks.transformation & MmTransformationMasks::GORON != 0
    }

    /// Check if player has the Zora Mask.
    pub fn has_zora_mask(&self) -> (r: bool)
        ensures
            r == spec_has_zora_mask(self@),
    {
        self.save.masks.transformation & MmTransformationMasks::ZORA != 0
    }

    /// Check if player has the Fierce Deity Mask.
    pub fn has_fierce_deity_mask(&self) -> (r: bool)
        ensures
            r == spec_has_fierce_deity_mask(self@),
    {
        self.save.masks.transformation & MmTransformationMasks::FIERCE_DEITY != 0
    }

    /// Check if player has the Postman's Hat.
    pub fn has_postman_hat(&self) -> (r: bool)
        ensures
            r == spec_has_postman_hat(self@),
    {
        self.save.masks.masks_low & MmMasksLow::POSTMAN != 0
    }

    /// Check if player has the All-Night Mask.
    pub fn has_all_night_mask(&self) -> (r: bool)
        ensures
            r == spec_has_all_night_mask(self@),
    {
        self.save.masks.masks_low & MmMasksLow::ALL_NIGHT != 0
    }

    /// Check if player has the Blast Mask.
    pub fn has_blast_mask(&self) -> (r: bool)
        ensures
            r == spec_has_blast_mask(self@),
    {
        self.save.masks.masks_low & MmMasksLow::BLAST != 0
    }

    /// Check if player has the Stone Mask.
    pub fn has_stone_mask(&self) -> (r: bool)
        ensures
            r == spec_has_stone_mask(self@),
    {
        self.save.masks.masks_low & MmMasksLow::STONE != 0
    }

    /// Check if player has the Great Fairy Mask.
    pub fn has_great_fairy_mask(&self) -> (r: bool)
        ensures
            r == spec_has_great_fairy_mask(self@),
    {
        self.save.masks.masks_low & MmMasksLow::GREAT_FAIRY != 0
    }

    /// Check if player has the Keaton Mask.
    pub fn has_keaton_mask(&self) -> (r: bool)
        ensures
            r == spec_has_keaton_mask(self@),
    {
        self.save.masks.masks_low & MmMasksLow::KEATON != 0
    }

    /// Check if player has the Bremen Mask.
    pub fn has_bremen_mask(&self) -> (r: bool)
        ensures
            r == spec_has_bremen_mask(self@),
    {
        self.save.masks.masks_low & MmMasksLow::BREMEN != 0
    }

    /// Check if player has the Bunny Hood.
    pub fn has_bunny_hood(&self) -> (r: bool)
        ensures
            r == spec_has_bunny_hood(self@),
    {
        self.save.masks.masks_low & MmMasksLow::BUNNY != 0
    }

    /// Check if player has Don Gero's Mask.
    pub fn has_don_gero_mask(&self) -> (r: bool)
        ensures
            r == spec_has_don_gero_mask(self@),
    {
        self.save.masks.masks_low & MmMasksLow::DON_GERO != 0
    }

    /// Check if player has the Mask of Scents.
    pub fn has_mask_of_scents(&self) -> (r: bool)
        ensures
            r == spec_has_mask_of_scents(self@),
    {
        self.save.masks.masks_low & MmMasksLow::SCENTS != 0
    }

    /// Check if player has Romani's Mask.
    pub fn has_romani_mask(&self) -> (r: bool)
        ensures
            r == spec_has_romani_mask(self@),
    {
        self.save.masks.masks_low & MmMasksLow::ROMANI != 0
    }

    /// Check if player has the Circus Leader's Mask.
    pub fn has_circus_leader_mask(&self) -> (r: bool)
        ensures
            r == spec_has_circus_leader_mask(self@),
    {
        self.save.masks.masks_low & MmMasksLow::CIRCUS_LEADER != 0
    }

    /// Check if player has Kafei's Mask.
    pub fn has_kafei_mask(&self) -> (r: bool)
        ensures
            r == spec_has_kafei_mask(self@),
    {
        self.save.masks.masks_low & MmMasksLow::KAFEI != 0
    }

    /// Check if player has the Couple's Mask.
    pub fn has_couples_mask(&self) -> (r: bool)
        ensures
            r == spec_has_couples_mask(self@),
    {
        self.save.masks.masks_low & MmMasksLow::COUPLES != 0
    }

    /// Check if player has the Mask of Truth.
    pub fn has_mask_of_truth(&self) -> (r: bool)
        ensures
            r == spec_has_mask_of_truth(self@),
    {
        self.save.masks.masks_low & MmMasksLow::TRUTH != 0
    }

    /// Check if player has Kamaro's Mask.
    pub fn has_kamaro_mask(&self) -> (r: bool)
        ensures
            r == spec_has_kamaro_mask(self@),
    {
        self.save.masks.masks_high & MmMasksHigh::KAMARO != 0
    }

    /// Check if player has the Gibdo Mask.
    pub fn has_gibdo_mask(&self) -> (r: bool)
        ensures
            r == spec_has_gibdo_mask(self@),
    {
        self.save.masks.masks_high & MmMasksHigh::GIBDO != 0
    }

    /// Check if player has the Garo's Mask.
    pub fn has_garo_mask(&self) -> (r: bool)
        ensures
            r == spec_has_garo_mask(self@),
    {
        self.save.masks.masks_high & MmMasksHigh::GARO != 0
    }

    /// Check if player has the Captain's Hat.
    pub fn has_captain_hat(&self) -> (r: bool)
        ensures
            r == spec_has_captain_hat(self@),
    {
        self.save.masks.masks_high & MmMasksHigh::CAPTAIN != 0
    }

    /// Check if player has the Giant's Mask.
    pub fn has_giant_mask(&self) -> (r: bool)
        ensures
            r == spec_has_giant_mask(self@),
    {
        self.save.masks.masks_high & MmMasksHigh::GIANT != 0
    }

    /// Check if player has Song of Time.
    pub fn has_song_of_time(&self) -> (r: bool)
        ensures
            r == spec_has_song_of_time(self@),
    {
        self.save.quest_items & MmQuestItems::SONG_TIME != 0
    }

    /// Check if player has Song of Healing.
    pub fn has_song_of_healing(&self) -> (r: bool)
        ensures
            r == spec_has_song_of_healing(self@),
    {
        self.save.quest_items & MmQuestItems::SONG_HEALING != 0
    }

    /// Check if player has Epona's Song.
    pub fn has_eponas_song(&self) -> (r: bool)
        ensures
            r == spec_has_eponas_song(self@),
    {
        self.save.quest_items & MmQuestItems::SONG_EPONA != 0
    }

    /// Check if player has Song of Soaring.
    pub fn has_song_of_soaring(&self) -> (r: bool)
        ensures
            r == spec_has_song_of_soaring(self@),
    {
        self.save.quest_items & MmQuestItems::SONG_SOARING != 0
    }

    /// Check if player has Song of Storms.
    pub fn has_song_of_storms(&self) -> (r: bool)
        ensures
            r == spec_has_song_of_storms(self@),
    {
        self.save.quest_items & MmQuestItems::SONG_STORMS != 0
    }

    /// Check if player has Sonata of Awakening.
    pub fn has_sonata_of_awakening(&self) -> (r: bool)
        ensures
            r == spec_has_sonata_of_awakening(self@),
    {
        self.save.quest_items & MmQuestItems::SONG_AWAKENING != 0
    }

    /// Check if player has Goron Lullaby.
    pub fn has_goron_lullaby(&self) -> (r: bool)
        ensures
            r == spec_has_goron_lullaby(self@),
    {
        self.save.quest_items & MmQuestItems::SONG_GORON != 0
    }

    /// Check if player has New Wave Bossa Nova.
    pub fn has_new_wave_bossa_nova(&self) -> (r: bool)
        ensures
            r == spec_has_new_wave_bossa_nova(self@),
    {
        self.save.quest_items & MmQuestItems::SONG_ZORA != 0
    }

    /// Check if player has Elegy of Emptiness.
    pub fn has_elegy_of_emptiness(&self) -> (r: bool)
        ensures
            r == spec_has_elegy_of_emptiness(self@),
    {
        self.save.quest_items & MmQuestItems::SONG_EMPTINESS != 0
    }

    /// Check if player has Oath to Order.
    pub fn has_oath_to_order(&self) -> (r: bool)
        ensures
            r == spec_has_oath_to_order(self@),
    {
        self.save.quest_items & MmQuestItems::SONG_ORDER != 0
    }

    /// Check if player has Odolwa's Remains.
    pub fn has_odolwa_remains(&self) -> (r: bool)
        ensures
            r == spec_has_odolwa_remains(self@),
    {
        self.save.quest_items & MmQuestItems::REMAINS_ODOLWA != 0
    }

    /// Check if player has Goht's Remains.
    pub fn has_goht_remains(&self) -> (r: bool)
        ensures
            r == spec_has_goht_remains(self@),
    {
        self.save.quest_items & MmQuestItems::REMAINS_GOHT != 0
    }

    /// Check if player has Gyorg's Remains.
    pub fn has_gyorg_remains(&self) -> (r: bool)
        ensures
            r == spec_has_gyorg_remains(self@),
    {
        self.save.quest_items & MmQuestItems::REMAINS_GYORG != 0
    }

    /// Check if player has Twinmold's Remains.
    pub fn has_twinmold_remains(&self) -> (r: bool)
        ensures
            r == spec_has_twinmold_remains(self@),
    {
        self.save.quest_items & MmQuestItems::REMAINS_TWINMOLD != 0
    }

    /// Check if player has the Kokiri Sword (or a better sword).
    pub fn has_kokiri_sword(&self) -> (r: bool)
        ensures
            r == spec_has_kokiri_sword(self@),
    {
        self.save.sword == MmSword::KokiriSword || self.save.sword == MmSword::RazorSword || self.save.sword == MmSword::GildedSword
    }

    /// Check if player has the Razor Sword (or a better sword).
    pub fn has_razor_sword(&self) -> (r: bool)
        ensures
            r == spec_has_razor_sword(self@),
    {
        self.save.sword == MmSword::RazorSword || self.save.sword == MmSword::GildedSword
    }

    /// Check if player has the Gilded Sword.
    pub fn has_gilded_sword(&self) -> (r: bool)
        ensures
            r == spec_has_gilded_sword(self@),
    {
        self.save.sword == MmSword::GildedSword
    }

    /// Check if player has the Hero's Shield (or the Mirror Shield).
    pub fn has_hero_shield(&self) -> (r: bool)
        ensures
            r == spec_has_hero_shield(self@),
    {
        self.save.shield == MmShield::HeroShield || self.save.shield == MmShield::MirrorShield
    }

    /// Check if player has the Mirror Shield.
    pub fn has_mirror_shield(&self) -> (r: bool)
        ensures
            r == spec_has_mirror_shield(self@),
    {
        self.save.shield == MmShield::MirrorShield
    }

    /// Check if player has magic.
    pub fn has_magic(&self) -> (r: bool)
        ensures
            r == spec_has_magic(self@),
    {
        self.save.magic != MmMagicCapacity::NoMagic
    }

    /// Check if player has a (single or double) magic meter.
    pub fn has_magic_meter(&self) -> (r: bool)
        ensures
            r == spec_has_magic_meter(self@),
    {
        self.save.magic == MmMagicCapacity::Single || self.save.magic == MmMagicCapacity::Double
    }

    /// Check if player has double magic.
    pub fn has_double_magic(&self) -> (r: bool)
        ensures
            r == spec_has_double_magic(self@),
    {
        self.save.magic == MmMagicCapacity::Double
    }

    /// Check if player has double defense.
    pub fn has_double_defense(&self) -> (r: bool)
        ensures
            r == spec_has_double_defense(self@),
    {
        self.save.double_defense
    }

    /// Check if player has the Adult's Wallet (or a bigger wallet).
    pub fn has_adult_wallet(&self) -> (r: bool)
        ensures
            r == spec_has_adult_wallet(self@),
    {
        self.wallet_level() >= 1
    }

    /// Check if player has the Giant's Wallet.
    pub fn has_giant_wallet(&self) -> (r: bool)
        ensures
            r == spec_has_giant_wallet(self@),
    {
        self.wallet_level() >= 2
    }

    /// Check if player has at least one bottle.
    pub fn has_bottle(&self) -> (r: bool)
        ensures
            r == spec_has_bottle(self@),
    {
        self.bottle_count() > 0
    }

    /// Get the number of boss remains collected.
    pub fn boss_remains_count(&self) -> (r: u8)
        ensures
            r as nat == spec_boss_remains_count(self@),
    {
        let mut count: u8 = 0;
        if self.has_odolwa_remains() {
            count = count + 1;
        }
        if self.has_goht_remains() {
            count = count + 1;
        }
        if self.has_gyorg_remains() {
            count = count + 1;
        }
        if self.has_twinmold_remains() {
            count = count + 1;
        }
        count
    }

    /// Get wallet upgrade level (0 = none, 1 = adult, 2 = giant).
    pub fn wallet_level(&self) -> (r: u8)
        ensures
            r == spec_wallet_level(self@),
    {
        let wallet = self.save.upgrades & MmUpgrades::WALLET_MASK;
        if wallet & MmUpgrades::GIANTS_WALLET == MmUpgrades::GIANTS_WALLET {
            2
        } else if wallet & MmUpgrades::ADULTS_WALLET == MmUpgrades::ADULTS_WALLET {
            1
        } else {
            0
        }
    }

    /// Get quiver upgrade level (0 = none, 1 = 30, 2 = 40, 3 = 50).
    pub fn quiver_level(&self) -> (r: u8)
        ensures
            r == spec_quiver_level(self@),
    {
        let quiver = self.save.upgrades & MmUpgrades::QUIVER_MASK;
        if quiver & MmUpgrades::QUIVER_50 == MmUpgrades::QUIVER_50 {
            3
        } else if quiver & MmUpgrades::QUIVER_40 == MmUpgrades::QUIVER_40 {
            2
        } else if quiver & MmUpgrades::QUIVER_30 == MmUpgrades::QUIVER_30 {
            1
        } else {
            0
        }
    }

    /// Get bomb bag upgrade level (0 = none, 1 = 20, 2 = 30, 3 = 40).
    pub fn bomb_bag_level(&self) -> (r: u8)
        ensures
            r == spec_bomb_bag_level(self@),
    {
        let bomb_bag = self.save.upgrades & MmUpgrades::BOMB_BAG_MASK;
        if bomb_bag & MmUpgrades::BOMB_BAG_40 == MmUpgrades::BOMB_BAG_40 {
            3
        } else if bomb_bag & MmUpgrades::BOMB_BAG_30 == MmUpgrades::BOMB_BAG_30 {
            2
        } else if bomb_bag & MmUpgrades::BOMB_BAG_20 == MmUpgrades::BOMB_BAG_20 {
            1
        } else {
            0
        }
    }

    /// Get the number of bottles the player has.
    pub fn bottle_count(&self) -> (r: u8)
        ensures
            r as nat == spec_bottle_count(self@),
    {
        let bottles = &self.save.inventory.bottles;
        let mut count: u8 = 0;
        let mut i: usize = 0;
        while i < MM_BOTTLE_SLOTS
            invariant
                i <= MM_BOTTLE_SLOTS,
                bottles@.len() == MM_BOTTLE_SLOTS,
                count as nat == spec_filled_slots(bottles@.take(i as int)),
            decreases MM_BOTTLE_SLOTS - i,
        {
            proof {
                assert(bottles@.take(i + 1).drop_last() =~= bottles@.take(i as int));
                lemma_filled_slots_bound(bottles@.take(i as int));
            }
            if bottles[i] != MmBottle::NoBottle {
                count = count + 1;
            }
            i = i + 1;
        }
        assert(bottles@.take(MM_BOTTLE_SLOTS as int) =~= bottles@);
        count
    }

    /// Get Woodfall Temple small key count.
    pub fn woodfall_keys(&self) -> (r: u8)
        ensures
            r == self@.small_keys.woodfall,
    {
        self.save.small_keys.woodfall
    }

    /// Get Snowhead Temple small key count.
    pub fn snowhead_keys(&self) -> (r: u8)
        ensures
            r == self@.small_keys.snowhead,
    {
        self.save.small_keys.snowhead
    }

    /// Get Great Bay Temple small key count.
    pub fn great_bay_keys(&self) -> (r: u8)
        ensures
            r == self@.small_keys.great_bay,
    {
        self.save.small_keys.great_bay
    }

    /// Get Stone Tower Temple small key count.
    pub fn stone_tower_keys(&self) -> (r: u8)
        ensures
            r == self@.small_keys.stone_tower,
    {
        self.save.small_keys.stone_tower
    }

    /// Get Clock Town stray fairy count.
    pub fn clock_town_fairies(&self) -> (r: u8)
        ensures
            r == self@.stray_fairies.clock_town,
    {
        self.save.stray_fairies.clock_town
    }

    /// Get Woodfall stray fairy count.
    pub fn woodfall_fairies(&self) -> (r: u8)
        ensures
            r == self@.stray_fairies.woodfall,
    {
        self.save.stray_fairies.woodfall
    }

    /// Get Snowhead stray fairy count.
    pub fn snowhead_fairies(&self) -> (r: u8)
        ensures
            r == self@.stray_fairies.snowhead,
    {
        self.save.stray_fairies.snowhead
    }

    /// Get Great Bay stray fairy count.
    pub fn great_bay_fairies(&self) -> (r: u8)
        ensures
            r == self@.stray_fairies.great_bay,
    {
        self.save.stray_fairies.great_bay
    }

    /// Get Stone Tower stray fairy count.
    pub fn stone_tower_fairies(&self) -> (r: u8)
        ensures
            r == self@.stray_fairies.stone_tower,
    {
        self.save.stray_fairies.stone_tower
    }

    // ========================================================================
    // Logic Identifier Lookup
    // ========================================================================

    /// Check if player has an item by its logic identifier.
    ///
    /// The identifier is case-insensitive and supports both UPPER_SNAKE_CASE
    /// and underscore-free spellings.
    pub fn has_item(&self, item: &str) -> (r: bool)
        ensures
            r == spec_has_named_item(self@, spec_to_uppercase(item@)),
            spec_is_ascii(item@) ==> r == spec_has_named_item(self@, spec_ascii_upper(item@)),
    {
        let item_upper = to_uppercase(item);
        self.has_uppercase_item(item_upper.as_str())
    }

    /// Check if player has an item by its uppercase logic identifier.
    pub fn has_uppercase_item(&self, name: &str) -> (r: bool)
        ensures
            r == spec_has_named_item(self@, name@),
    {

        if str_eq(name, "OCARINA_OF_TIME") || str_eq(name, "OCARINAOFTTIME") {
            self.has_ocarina()
        } else if str_eq(name, "HEROS_BOW") || str_eq(name, "HEROSBOW") {
            self.has_bow()
        } else if str_eq(name, "FIRE_ARROW") || str_eq(name, "FIREARROW") {
            self.has_fire_arrow()
        } else if str_eq(name, "ICE_ARROW") || str_eq(name, "ICEARROW") {
            self.has_ice_arrow()
        } else if str_eq(name, "LIGHT_ARROW") || str_eq(name, "LIGHTARROW") {
            self.has_light_arrow()
        } else if str_eq(name, "HOOKSHOT") {
            self.has_hookshot()
        } else if str_eq(name, "BOMB") || str_eq(name, "BOMBS") {
            self.has_bombs()
        } else if str_eq(name, "BOMBCHU") || str_eq(name, "BOMBCHUS") {
            self.has_bombchu()
        } else if str_eq(name, "POWDER_KEG") || str_eq(name, "POWDERKEG") {
            self.has_powder_keg()
        } else if str_eq(name, "LENS_OF_TRUTH") || str_eq(name, "LENSOFTRUTH") {
            self.has_lens_of_truth()
        } else if str_eq(name, "PICTOGRAPH_BOX") || str_eq(name, "PICTOGRAPHBOX") {
            self.has_pictograph_box()
        } else if str_eq(name, "GREAT_FAIRY_SWORD") || str_eq(name, "GREATFAIRYSWORD") {
            self.has_great_fairy_sword()
        } else if str_eq(name, "MAGIC_BEAN") || str_eq(name, "MAGICBEAN") {
            self.has_magic_bean()
        } else if str_eq(name, "DEKU_STICK") || str_eq(name, "DEKUSTICK") {
            self.has_deku_stick()
        } else if str_eq(name, "DEKU_NUT") || str_eq(name, "DEKUNUT") {
            self.has_deku_nut()
        } else if str_eq(name, "DEKU_MASK") || str_eq(name, "DEKUMASK") {
            self.has_deku_mask()
        } else if str_eq(name, "GORON_MASK") || str_eq(name, "GORONMASK") {
            self.has_goron_mask()
        } else if str_eq(name, "ZORA_MASK") || str_eq(name, "ZORAMASK") {
            self.has_zora_mask()
        } else if str_eq(name, "FIERCE_DEITY_MASK") || str_eq(name, "FIERCEDEITYMASK") {
            self.has_fierce_deity_mask()
        } else if str_eq(name, "POSTMAN_HAT") || str_eq(name, "POSTMANHAT") {
            self.has_postman_hat()
        } else if str_eq(name, "ALL_NIGHT_MASK") || str_eq(name, "ALLNIGHTMASK") {
            self.has_all_night_mask()
        } else if str_eq(name, "BLAST_MASK") || str_eq(name, "BLASTMASK") {
            self.has_blast_mask()
        } else if str_eq(name, "STONE_MASK") || str_eq(name, "STONEMASK") {
            self.has_stone_mask()
        } else if str_eq(name, "GREAT_FAIRY_MASK") || str_eq(name, "GREATFAIRYMASK") {
            self.has_great_fairy_mask()
        } else if str_eq(name, "KEATON_MASK") || str_eq(name, "KEATONMASK") {
            self.has_keaton_mask()
        } else if str_eq(name, "BREMEN_MASK") || str_eq(name, "BREMENMASK") {
            self.has_bremen_mask()
        } else if str_eq(name, "BUNNY_HOOD") || str_eq(name, "BUNNYHOOD") {
            self.has_bunny_hood()
        } else if str_eq(name, "DON_GERO_MASK") || str_eq(name, "DONGEROMASK") {
            self.has_don_gero_mask()
        } else if str_eq(name, "MASK_OF_SCENTS") || str_eq(name, "MASKOFSCENTS") {
            self.has_mask_of_scents()
        } else if str_eq(name, "ROMANI_MASK") || str_eq(name, "ROMANIMASK") {
            self.has_romani_mask()
        } else if str_eq(name, "CIRCUS_LEADER_MASK") || str_eq(name, "CIRCUSLEADERMASK") {
            self.has_circus_leader_mask()
        } else if str_eq(name, "KAFEI_MASK") || str_eq(name, "KAFEIMASK") {
            self.has_kafei_mask()
        } else if str_eq(name, "COUPLES_MASK") || str_eq(name, "COUPLESMASK") {
            self.has_couples_mask()
        } else if str_eq(name, "MASK_OF_TRUTH") || str_eq(name, "MASKOFTRUTH") {
            self.has_mask_of_truth()
        } else if str_eq(name, "KAMARO_MASK") || str_eq(name, "KAMAROMASK") {
            self.has_kamaro_mask()
        } else if str_eq(name, "GIBDO_MASK") || str_eq(name, "GIBDOMASK") {
            self.has_gibdo_mask()
        } else if str_eq(name, "GARO_MASK") || str_eq(name, "GAROMASK") {
            self.has_garo_mask()
        } else if str_eq(name, "CAPTAIN_HAT") || str_eq(name, "CAPTAINHAT") {
            self.has_captain_hat()
        } else if str_eq(name, "GIANT_MASK") || str_eq(name, "GIANTMASK") {
            self.has_giant_mask()
        } else if str_eq(name, "SONG_OF_TIME") || str_eq(name, "SONGOFTIME") {
            self.has_song_of_time()
        } else if str_eq(name, "SONG_OF_HEALING") || str_eq(name, "SONGOFHEALING") {
            self.has_song_of_healing()
        } else if str_eq(name, "EPONAS_SONG") || str_eq(name, "EPONASSONG") {
            self.has_eponas_song()
        } else if str_eq(name, "SONG_OF_SOARING") || str_eq(name, "SONGOFSOARING") {
            self.has_song_of_soaring()
        } else if str_eq(name, "SONG_OF_STORMS") || str_eq(name, "SONGOFSTORMS") {
            self.has_song_of_storms()
        } else if str_eq(name, "SONATA_OF_AWAKENING") || str_eq(name, "SONATAOFAWAKENING") {
            self.has_sonata_of_awakening()
        } else if str_eq(name, "GORON_LULLABY") || str_eq(name, "GORONLULLABY") {
            self.has_goron_lullaby()
        } else if str_eq(name, "NEW_WAVE_BOSSA_NOVA") || str_eq(name, "NEWWAVEBOSSANOVA") {
            self.has_new_wave_bossa_nova()
        } else if str_eq(name, "ELEGY_OF_EMPTINESS") || str_eq(name, "ELEGYOFEMPTINESS") {
            self.has_elegy_of_emptiness()
        } else if str_eq(name, "OATH_TO_ORDER") || str_eq(name, "OATHTOORDER") {
            self.has_oath_to_order()
        } else if str_eq(name, "ODOLWA_REMAINS") || str_eq(name, "ODOLWAREMAINS") {
            self.has_odolwa_remains()
        } else if str_eq(name, "GOHT_REMAINS") || str_eq(name, "GOHTREMAINS") {
            self.has_goht_remains()
        } else if str_eq(name, "GYORG_REMAINS") || str_eq(name, "GYORGREMAINS") {
            self.has_gyorg_remains()
        } else if str_eq(name, "TWINMOLD_REMAINS") || str_eq(name, "TWINMOLDREMAINS") {
            self.has_twinmold_remains()
        } else if str_eq(name, "KOKIRI_SWORD") || str_eq(name, "KOKIRISWORD") {
            self.has_kokiri_sword()
        } else if str_eq(name, "RAZOR_SWORD") || str_eq(name, "RAZORSWORD") {
            self.has_razor_sword()
        } else if str_eq(name, "GILDED_SWORD") || str_eq(name, "GILDEDSWORD") {
            self.has_gilded_sword()
        } else if str_eq(name, "HERO_SHIELD") || str_eq(name, "HEROSHIELD") {
            self.has_hero_shield()
        } else if str_eq(name, "MIRROR_SHIELD") || str_eq(name, "MIRRORSHIELD") {
            self.has_mirror_shield()
        } else if str_eq(name, "BOTTLE") {
            self.has_bottle()
        } else if str_eq(name, "MAGIC") || str_eq(name, "MAGIC_METER") || str_eq(name, "MAGICMETER") {
            self.has_magic_meter()
        } else if str_eq(name, "DOUBLE_MAGIC") || str_eq(name, "DOUBLEMAGIC") {
            self.has_double_magic()
        } else if str_eq(name, "DOUBLE_DEFENSE") || str_eq(name, "DOUBLEDEFENSE") {
            self.has_double_defense()
        } else if str_eq(name, "ADULT_WALLET") || str_eq(name, "ADULTWALLET") {
            self.has_adult_wallet()
        } else if str_eq(name, "GIANT_WALLET") || str_eq(name, "GIANTWALLET") || str_eq(name, "GIANTS_WALLET") || str_eq(name, "GIANTSWALLET") {
            self.has_giant_wallet()
        } else {
            false
        }
    }

    /// Get the count of an item by its logic identifier (case-insensitive).
    ///
    /// For non-stackable items, returns 1 if owned, 0 otherwise.
    /// For stackable items (bottles, keys, fairies), returns the count; a
    /// quiver or bomb bag tier counts 1 once the upgrade level reaches it.
    pub fn item_count(&self, item: &str) -> (r: u32)
        ensures
            r as nat == spec_named_item_count(self@, spec_to_uppercase(item@)),
            spec_is_ascii(item@) ==> r as nat == spec_named_item_count(self@, spec_ascii_upper(item@)),
    {
        let item_upper = to_uppercase(item);
        self.uppercase_item_count(item_upper.as_str())
    }

    /// Get the count of an item by its uppercase logic identifier.
    pub fn uppercase_item_count(&self, name: &str) -> (r: u32)
        ensures
            r as nat == spec_named_item_count(self@, name@),
    {

        if str_eq(name, "BOTTLE") {
            self.bottle_count() as u32
        } else if str_eq(name, "SMALL_KEY_WOODFALL_TEMPLE") || str_eq(name, "SMALLKEYWOODFALLTEMPLE") {
            self.woodfall_keys() as u32
        } else if str_eq(name, "SMALL_KEY_SNOWHEAD_TEMPLE") || str_eq(name, "SMALLKEYSNOWHEADTEMPLE") {
            self.snowhead_keys() as u32
        } else if str_eq(name, "SMALL_KEY_GREAT_BAY_TEMPLE") || str_eq(name, "SMALLKEYGREATBAYTEMPLE") {
            self.great_bay_keys() as u32
        } else if str_eq(name, "SMALL_KEY_STONE_TOWER_TEMPLE") || str_eq(name, "SMALLKEYSTONETOWERTEMPLE") {
            self.stone_tower_keys() as u32
        } else if str_eq(name, "STRAY_FAIRY_CLOCK_TOWN") || str_eq(name, "STRAYFAIRYCLOCKTOWN") {
            self.clock_town_fairies() as u32
        } else if str_eq(name, "STRAY_FAIRY_WOODFALL") || str_eq(name, "STRAYFAIRYWOODFALL") {
            self.woodfall_fairies() as u32
        } else if str_eq(name, "STRAY_FAIRY_SNOWHEAD") || str_eq(name, "STRAYFAIRYSNOWHEAD") {
            self.snowhead_fairies() as u32
        } else if str_eq(name, "STRAY_FAIRY_GREAT_BAY") || str_eq(name, "STRAYFAIRYGREATBAY") {
            self.great_bay_fairies() as u32
        } else if str_eq(name, "STRAY_FAIRY_STONE_TOWER") || str_eq(name, "STRAYFAIRYSTONETOWER") {
            self.stone_tower_fairies() as u32
        } else if str_eq(name, "BOSS_REMAINS") || str_eq(name, "BOSSREMAINS") {
            self.boss_remains_count() as u32
        } else if str_eq(name, "QUIVER_30") {
            if self.quiver_level() >= 1 { 1 } else { 0 }
        } else if str_eq(name, "QUIVER_40") {
            if self.quiver_level() >= 2 { 1 } else { 0 }
        } else if str_eq(name, "QUIVER_50") {
            if self.quiver_level() >= 3 { 1 } else { 0 }
        } else if str_eq(name, "BOMB_BAG_20") {
            if self.bomb_bag_level() >= 1 { 1 } else { 0 }
        } else if str_eq(name, "BOMB_BAG_30") {
            if self.bomb_bag_level() >= 2 { 1 } else { 0 }
        } else if str_eq(name, "BOMB_BAG_40") {
            if self.bomb_bag_level() >= 3 { 1 } else { 0 }
        } else if self.has_uppercase_item(name) {
            1
        } else {
            0
        }
    }

    /// Equipment items, each with 1 if owned and 0 otherwise.
    fn equipment_entries(&self) -> (v: Vec<(&'static str, u32)>)
        ensures
            v@ == spec_equipment_entries(self@),
    {
        let c0: u32 = if self.has_ocarina() { 1 } else { 0 };
        let c1: u32 = if self.has_bow() { 1 } else { 0 };
        let c2: u32 = if self.has_fire_arrow() { 1 } else { 0 };
        let c3: u32 = if self.has_ice_arrow() { 1 } else { 0 };
        let c4: u32 = if self.has_light_arrow() { 1 } else { 0 };
        let c5: u32 = if self.has_hookshot() { 1 } else { 0 };
        let c6: u32 = if self.has_bombs() { 1 } else { 0 };
        let c7: u32 = if self.has_bombchu() { 1 } else { 0 };
        let c8: u32 = if self.has_powder_keg() { 1 } else { 0 };
        let c9: u32 = if self.has_lens_of_truth() { 1 } else { 0 };
        let c10: u32 = if self.has_pictograph_box() { 1 } else { 0 };
        let c11: u32 = if self.has_great_fairy_sword() { 1 } else { 0 };
        let c12: u32 = if self.has_magic_bean() { 1 } else { 0 };
        let c13: u32 = if self.has_deku_stick() { 1 } else { 0 };
        let c14: u32 = if self.has_deku_nut() { 1 } else { 0 };
        let v = vec![
            (logic_ids::OCARINA_OF_TIME, c0),
            (logic_ids::HEROS_BOW, c1),
            (logic_ids::FIRE_ARROW, c2),
            (logic_ids::ICE_ARROW, c3),
            (logic_ids::LIGHT_ARROW, c4),
            (logic_ids::HOOKSHOT, c5),
            (logic_ids::BOMB, c6),
            (logic_ids::BOMBCHU, c7),
            (logic_ids::POWDER_KEG, c8),
            (logic_ids::LENS_OF_TRUTH, c9),
            (logic_ids::PICTOGRAPH_BOX, c10),
            (logic_ids::GREAT_FAIRY_SWORD, c11),
            (logic_ids::MAGIC_BEAN, c12),
            (logic_ids::DEKU_STICK, c13),
            (logic_ids::DEKU_NUT, c14),
        ];
        assert(v@ =~= spec_equipment_entries(self@));
        v
    }

    /// Transformation masks, each with 1 if owned and 0 otherwise.
    fn transformation_masks_entries(&self) -> (v: Vec<(&'static str, u32)>)
        ensures
            v@ == spec_transformation_masks_entries(self@),
    {
        let c0: u32 = if self.has_deku_mask() { 1 } else { 0 };
        let c1: u32 = if self.has_goron_mask() { 1 } else { 0 };
        let c2: u32 = if self.has_zora_mask() { 1 } else { 0 };
        let c3: u32 = if self.has_fierce_deity_mask() { 1 } else { 0 };
        let v = vec![
            (logic_ids::DEKU_MASK, c0),
            (logic_ids::GORON_MASK, c1),
            (logic_ids::ZORA_MASK, c2),
            (logic_ids::FIERCE_DEITY_MASK, c3),
        ];
        assert(v@ =~= spec_transformation_masks_entries(self@));
        v
    }

    /// Regular masks (first half), each with 1 if owned and 0 otherwise.
    fn regular_masks_entries(&self) -> (v: Vec<(&'static str, u32)>)
        ensures
            v@ == spec_regular_masks_entries(self@),
    {
        let c0: u32 = if self.has_postman_hat() { 1 } else { 0 };
        let c1: u32 = if self.has_all_night_mask() { 1 } else { 0 };
        let c2: u32 = if self.has_blast_mask() { 1 } else { 0 };
        let c3: u32 = if self.has_stone_mask() { 1 } else { 0 };
        let c4: u32 = if self.has_great_fairy_mask() { 1 } else { 0 };
        let c5: u32 = if self.has_keaton_mask() { 1 } else { 0 };
        let c6: u32 = if self.has_bremen_mask() { 1 } else { 0 };
        let c7: u32 = if self.has_bunny_hood() { 1 } else { 0 };
        let c8: u32 = if self.has_don_gero_mask() { 1 } else { 0 };
        let c9: u32 = if self.has_mask_of_scents() { 1 } else { 0 };
        let v = vec![
            (logic_ids::POSTMAN_HAT, c0),
            (logic_ids::ALL_NIGHT_MASK, c1),
            (logic_ids::BLAST_MASK, c2),
            (logic_ids::STONE_MASK, c3),
            (logic_ids::GREAT_FAIRY_MASK, c4),
            (logic_ids::KEATON_MASK, c5),
            (logic_ids::BREMEN_MASK, c6),
            (logic_ids::BUNNY_HOOD, c7),
            (logic_ids::DON_GERO_MASK, c8),
            (logic_ids::MASK_OF_SCENTS, c9),
        ];
        assert(v@ =~= spec_regular_masks_entries(self@));
        v
    }

    /// Regular masks (second half), each with 1 if owned and 0 otherwise.
    fn more_regular_masks_entries(&self) -> (v: Vec<(&'static str, u32)>)
        ensures
            v@ == spec_more_regular_masks_entries(self@),
    {
        let c0: u32 = if self.has_romani_mask() { 1 } else { 0 };
        let c1: u32 = if self.has_circus_leader_mask() { 1 } else { 0 };
        let c2: u32 = if self.has_kafei_mask() { 1 } else { 0 };
        let c3: u32 = if self.has_couples_mask() { 1 } else { 0 };
        let c4: u32 = if self.has_mask_of_truth() { 1 } else { 0 };
        let c5: u32 = if self.has_kamaro_mask() { 1 } else { 0 };
        let c6: u32 = if self.has_gibdo_mask() { 1 } else { 0 };
        let c7: u32 = if self.has_garo_mask() { 1 } else { 0 };
        let c8: u32 = if self.has_captain_hat() { 1 } else { 0 };
        let c9: u32 = if self.has_giant_mask() { 1 } else { 0 };
        let v = vec![
            (logic_ids::ROMANI_MASK, c0),
            (logic_ids::CIRCUS_LEADER_MASK, c1),
            (logic_ids::KAFEI_MASK, c2),
            (logic_ids::COUPLES_MASK, c3),
            (logic_ids::MASK_OF_TRUTH, c4),
            (logic_ids::KAMARO_MASK, c5),
            (logic_ids::GIBDO_MASK, c6),
            (logic_ids::GARO_MASK, c7),
            (logic_ids::CAPTAIN_HAT, c8),
            (logic_ids::GIANT_MASK, c9),
        ];
        assert(v@ =~= spec_more_regular_masks_entries(self@));
        v
    }

    /// Songs, each with 1 if owned and 0 otherwise.
    fn songs_entries(&self) -> (v: Vec<(&'static str, u32)>)
        ensures
            v@ == spec_songs_entries(self@),
    {
        let c0: u32 = if self.has_song_of_time() { 1 } else { 0 };
        let c1: u32 = if self.has_song_of_healing() { 1 } else { 0 };
        let c2: u32 = if self.has_eponas_song() { 1 } else { 0 };
        let c3: u32 = if self.has_song_of_soaring() { 1 } else { 0 };
        let c4: u32 = if self.has_song_of_storms() { 1 } else { 0 };
        let c5: u32 = if self.has_sonata_of_awakening() { 1 } else { 0 };
        let c6: u32 = if self.has_goron_lullaby() { 1 } else { 0 };
        let c7: u32 = if self.has_new_wave_bossa_nova() { 1 } else { 0 };
        let c8: u32 = if self.has_elegy_of_emptiness() { 1 } else { 0 };
        let c9: u32 = if self.has_oath_to_order() { 1 } else { 0 };
        let v = vec![
            (logic_ids::SONG_OF_TIME, c0),
            (logic_ids::SONG_OF_HEALING, c1),
            (logic_ids::EPONAS_SONG, c2),
            (logic_ids::SONG_OF_SOARING, c3),
            (logic_ids::SONG_OF_STORMS, c4),
            (logic_ids::SONATA_OF_AWAKENING, c5),
            (logic_ids::GORON_LULLABY, c6),
            (logic_ids::NEW_WAVE_BOSSA_NOVA, c7),
            (logic_ids::ELEGY_OF_EMPTINESS, c8),
            (logic_ids::OATH_TO_ORDER, c9),
        ];
        assert(v@ =~= spec_songs_entries(self@));
        v
    }

    /// Boss remains, swords, shields and upgrades, each with 1 if owned and 0 otherwise.
    fn remains_and_equipment_entries(&self) -> (v: Vec<(&'static str, u32)>)
        ensures
            v@ == spec_remains_and_equipment_entries(self@),
    {
        let c0: u32 = if self.has_odolwa_remains() { 1 } else { 0 };
        let c1: u32 = if self.has_goht_remains() { 1 } else { 0 };
        let c2: u32 = if self.has_gyorg_remains() { 1 } else { 0 };
        let c3: u32 = if self.has_twinmold_remains() { 1 } else { 0 };
        let c4: u32 = if self.has_kokiri_sword() { 1 } else { 0 };
        let c5: u32 = if self.has_razor_sword() { 1 } else { 0 };
        let c6: u32 = if self.has_gilded_sword() { 1 } else { 0 };
        let c7: u32 = if self.has_hero_shield() { 1 } else { 0 };
        let c8: u32 = if self.has_mirror_shield() { 1 } else { 0 };
        let c9: u32 = if self.has_magic_meter() { 1 } else { 0 };
        let c10: u32 = if self.has_double_magic() { 1 } else { 0 };
        let c11: u32 = if self.has_double_defense() { 1 } else { 0 };
        let c12: u32 = if self.has_adult_wallet() { 1 } else { 0 };
        let c13: u32 = if self.has_giant_wallet() { 1 } else { 0 };
        let v = vec![
            (logic_ids::ODOLWA_REMAINS, c0),
            (logic_ids::GOHT_REMAINS, c1),
            (logic_ids::GYORG_REMAINS, c2),
            (logic_ids::TWINMOLD_REMAINS, c3),
            (logic_ids::KOKIRI_SWORD, c4),
            (logic_ids::RAZOR_SWORD, c5),
            (logic_ids::GILDED_SWORD, c6),
            (logic_ids::HERO_SHIELD, c7),
            (logic_ids::MIRROR_SHIELD, c8),
            (logic_ids::MAGIC_METER, c9),
            (logic_ids::DOUBLE_MAGIC, c10),
            (logic_ids::DOUBLE_DEFENSE, c11),
            (logic_ids::ADULT_WALLET, c12),
            (logic_ids::GIANT_WALLET, c13),
        ];
        assert(v@ =~= spec_remains_and_equipment_entries(self@));
        v
    }

    /// Upgrade levels and stackable items with their counts.
    fn counted_entries(&self) -> (v: Vec<(&'static str, u32)>)
        ensures
            v@ == spec_counted_entries(self@),
    {
        let quiver = self.quiver_level();
        let bomb_bag = self.bomb_bag_level();
        let bottles = self.bottle_count() as u32;
        let v = vec![
            (logic_ids::QUIVER_30, if quiver >= 1 { 1u32 } else { 0u32 }),
            (logic_ids::QUIVER_40, if quiver >= 2 { 1u32 } else { 0u32 }),
            (logic_ids::QUIVER_50, if quiver >= 3 { 1u32 } else { 0u32 }),
            (logic_ids::BOMB_BAG_20, if bomb_bag >= 1 { 1u32 } else { 0u32 }),
            (logic_ids::BOMB_BAG_30, if bomb_bag >= 2 { 1u32 } else { 0u32 }),
            (logic_ids::BOMB_BAG_40, if bomb_bag >= 3 { 1u32 } else { 0u32 }),
            (logic_ids::BOTTLE, bottles),
            (logic_ids::SMALL_KEY_WOODFALL_TEMPLE, self.woodfall_keys() as u32),
            (logic_ids::SMALL_KEY_SNOWHEAD_TEMPLE, self.snowhead_keys() as u32),
            (logic_ids::SMALL_KEY_GREAT_BAY_TEMPLE, self.great_bay_keys() as u32),
            (logic_ids::SMALL_KEY_STONE_TOWER_TEMPLE, self.stone_tower_keys() as u32),
            (logic_ids::STRAY_FAIRY_CLOCK_TOWN, self.clock_town_fairies() as u32),
            (logic_ids::STRAY_FAIRY_WOODFALL, self.woodfall_fairies() as u32),
            (logic_ids::STRAY_FAIRY_SNOWHEAD, self.snowhead_fairies() as u32),
            (logic_ids::STRAY_FAIRY_GREAT_BAY, self.great_bay_fairies() as u32),
            (logic_ids::STRAY_FAIRY_STONE_TOWER, self.stone_tower_fairies() as u32),
        ];
        assert(v@ =~= spec_counted_entries(self@));
        v
    }

    /// Build a complete inventory map for logic evaluation: every logic
    /// identifier whose item is owned, mapped to its count (1 for single
    /// items, the level flags of quiver and bomb bag, and the stored counts of
    /// bottles, small keys and stray fairies).
    pub fn build_inventory(&self) -> (inv: Inventory)
        ensures
            inv@ == spec_inventory(self@),
    {
        let mut entries = self.equipment_entries();
        let mut more = self.transformation_masks_entries();
        entries.append(&mut more);
        let mut more = self.regular_masks_entries();
        entries.append(&mut more);
        let mut more = self.more_regular_masks_entries();
        entries.append(&mut more);
        let mut more = self.songs_entries();
        entries.append(&mut more);
        let mut more = self.remains_and_equipment_entries();
        entries.append(&mut more);
        let mut more = self.counted_entries();
        entries.append(&mut more);
        assert(entries@ =~= spec_inventory_entries(self@));

        let mut inventory = Inventory::new();
        let n = entries.len();
        let mut i: usize = 0;
        while i < n
            invariant
                n == entries@.len(),
                i <= n,
                inventory@ == positive_entries_map(entries@.take(i as int)),
            decreases n - i,
        {
            let (id, count) = entries[i];
            proof {
                assert(entries@.take(i + 1).drop_last() =~= entries@.take(i as int));
            }
            if count > 0 {
                inventory.insert(id.to_owned(), count);
            }
            i = i + 1;
        }
        assert(entries@.take(n as int) =~= entries@);
        inventory
    }

    // ========================================================================
    // Scene Flag Helpers (Boss Defeat and Dungeon Clear Events)
    // ========================================================================

    /// Check if a boss was defeated (permanent flag): the `cleared_room`
    /// field of the scene's permanent flags is non-zero. Scenes without flags
    /// give false.
    pub fn check_boss_defeated_permanent(&self, scene_id: usize) -> (r: bool)
        ensures
            r == spec_boss_defeated_permanent(self@, scene_id as int),
    {
        if scene_id < self.save.permanent_scene_flags.len() {
            self.save.permanent_scene_flags[scene_id].cleared_room != 0
        } else {
            false
        }
    }

    /// Check if a boss was defeated (cycle-scoped flag): the `cleared_room`
    /// field of the scene's cycle flags is non-zero.
    pub fn check_boss_defeated_cycle(&self, scene_id: usize) -> (r: bool)
        ensures
            r == spec_boss_defeated_cycle(self@, scene_id as int),
    {
        if scene_id < self.save.cycle_scene_flags.len() {
            self.save.cycle_scene_flags[scene_id].cleared_room != 0
        } else {
            false
        }
    }

    /// Check if a dungeon was cleared (permanent flag): the `cleared_floors`
    /// field of the scene's permanent flags is non-zero.
    pub fn check_dungeon_clear_permanent(&self, scene_id: usize) -> (r: bool)
        ensures
            r == spec_dungeon_clear_permanent(self@, scene_id as int),
    {
        if scene_id < self.save.permanent_scene_flags.len() {
            self.save.permanent_scene_flags[scene_id].cleared_floors != 0
        } else {
            false
        }
    }

    /// Check if a dungeon was cleared (cycle-scoped flag). Cycle flags have
    /// no floor field, so the `cleared_room` field stands for it.
    pub fn check_dungeon_clear_cycle(&self, scene_id: usize) -> (r: bool)
        ensures
            r == spec_dungeon_clear_cycle(self@, scene_id as int),
    {
        if scene_id < self.save.cycle_scene_flags.len() {
            self.save.cycle_scene_flags[scene_id].cleared_room != 0
        } else {
            false
        }
    }

    /// Check if a game event has occurred, by its uppercase event identifier.
    pub fn uppercase_event(&self, name: &str) -> (r: bool)
        ensures
            r == spec_named_event(self@, name@),
    {

        if str_eq(name, "ODOLWA_DEFEATED") {
            self.check_boss_defeated_permanent(0x1A)
        } else if str_eq(name, "GOHT_DEFEATED") {
            self.check_boss_defeated_permanent(0x24)
        } else if str_eq(name, "GYORG_DEFEATED") {
            self.check_boss_defeated_permanent(0x4F)
        } else if str_eq(name, "TWINMOLD_DEFEATED") {
            self.check_boss_defeated_permanent(0x36)
        } else if str_eq(name, "ODOLWA_DEFEATED_CYCLE") {
            self.check_boss_defeated_cycle(0x1A)
        } else if str_eq(name, "GOHT_DEFEATED_CYCLE") {
            self.check_boss_defeated_cycle(0x24)
        } else if str_eq(name, "GYORG_DEFEATED_CYCLE") {
            self.check_boss_defeated_cycle(0x4F)
        } else if str_eq(name, "TWINMOLD_DEFEATED_CYCLE") {
            self.check_boss_defeated_cycle(0x36)
        } else if str_eq(name, "WOODFALL_TEMPLE_CLEAR") {
            self.check_dungeon_clear_permanent(0x1A)
        } else if str_eq(name, "SNOWHEAD_TEMPLE_CLEAR") {
            self.check_dungeon_clear_permanent(0x24)
        } else if str_eq(name, "GREAT_BAY_TEMPLE_CLEAR") {
            self.check_dungeon_clear_permanent(0x4F)
        } else if str_eq(name, "STONE_TOWER_TEMPLE_CLEAR") {
            self.check_dungeon_clear_permanent(0x36)
        } else if str_eq(name, "WOODFALL_TEMPLE_CLEAR_CYCLE") {
            self.check_dungeon_clear_cycle(0x1A)
        } else if str_eq(name, "SNOWHEAD_TEMPLE_CLEAR_CYCLE") {
            self.check_dungeon_clear_cycle(0x24)
        } else if str_eq(name, "GREAT_BAY_TEMPLE_CLEAR_CYCLE") {
            self.check_dungeon_clear_cycle(0x4F)
        } else if str_eq(name, "STONE_TOWER_TEMPLE_CLEAR_CYCLE") {
            self.check_dungeon_clear_cycle(0x36)
        } else {
            false
        }
    }
}

impl<'a> EvalContext for MmGameContext<'a> {
    /// Check if the player has at least `count` of the specified item.
    open spec fn spec_has_item(&self, item: Seq<char>, count: nat) -> bool {
        spec_named_item_count(self@, spec_to_uppercase(item)) >= count
    }

    fn has_item(&self, item: &str, count: u32) -> (r: bool) {
        self.item_count(item) >= count
    }

    /// Check if a game event has occurred (case-insensitive): boss defeats
    /// and dungeon clears, permanent or in the current cycle.
    fn event(&self, name: &str) -> (r: bool)
        ensures
            r == spec_named_event(self@, spec_to_uppercase(name@)),
            spec_is_ascii(name@) ==> r == spec_named_event(self@, spec_ascii_upper(name@)),
    {
        let name_upper = to_uppercase(name);
        self.uppercase_event(name_upper.as_str())
    }

    /// Settings are not read from MM save data: always unknown.
    fn setting(&self, name: &str) -> (r: Option<bool>)
        ensures
            r == None::<bool>,
    {
        None
    }

    /// Tricks are not read from MM save data: never enabled.
    fn trick(&self, name: &str) -> (r: bool)
        ensures
            !r,
    {
        false
    }

    /// In Majora's Mask, Link is always a child.
    fn is_adult(&self) -> (r: bool)
        ensures
            !r,
    {
        false
    }

    /// In Majora's Mask, Link is always a child.
    fn is_child(&self) -> (r: bool)
        ensures
            r,
    {
        true
    }

    /// MM time is not tracked: always 0.
    fn mm_time(&self) -> (r: u32)
        ensures
            r == 0,
    {
        0
    }
}

// ============================================================================
// Laws
// ============================================================================

/// Law: item lookups by name are case-insensitive: two names with the same
/// uppercase form give the same answer, for possession and for counts.
pub proof fn lemma_item_lookup_case_insensitive(s: MmSave, a: Seq<char>, b: Seq<char>)
    requires
        spec_to_uppercase(a) == spec_to_uppercase(b),
    ensures
        spec_has_named_item(s, spec_to_uppercase(a)) == spec_has_named_item(s, spec_to_uppercase(b)),
        spec_named_item_count(s, spec_to_uppercase(a)) == spec_named_item_count(
            s,
            spec_to_uppercase(b),
        ),
        spec_named_event(s, spec_to_uppercase(a)) == spec_named_event(s, spec_to_uppercase(b)),
{
}

/// Law: for an ASCII name, item and event lookups ignore case: the name, its
/// ASCII uppercase form and its ASCII lowercase form are ASCII too, and all
/// three give the same answers.
pub proof fn lemma_item_lookup_ascii_case(s: MmSave, a: Seq<char>)
    requires
        spec_is_ascii(a),
    ensures
        spec_is_ascii(spec_ascii_upper(a)),
        spec_is_ascii(spec_ascii_lower(a)),
        spec_has_named_item(s, spec_ascii_upper(spec_ascii_upper(a))) == spec_has_named_item(s, spec_ascii_upper(a)),
        spec_has_named_item(s, spec_ascii_upper(spec_ascii_lower(a))) == spec_has_named_item(s, spec_ascii_upper(a)),
        spec_named_item_count(s, spec_ascii_upper(spec_ascii_upper(a))) == spec_named_item_count(
            s,
            spec_ascii_upper(a),
        ),
        spec_named_item_count(s, spec_ascii_upper(spec_ascii_lower(a))) == spec_named_item_count(
            s,
            spec_ascii_upper(a),
        ),
        spec_named_event(s, spec_ascii_upper(spec_ascii_upper(a))) == spec_named_event(s, spec_ascii_upper(a)),
        spec_named_event(s, spec_ascii_upper(spec_ascii_lower(a))) == spec_named_event(s, spec_ascii_upper(a)),
{
    lemma_ascii_case_forms(a);
}

/// Law: swords, shields, magic and wallets are progressive: a better one
/// implies the lesser ones.
pub proof fn lemma_progressive_upgrades(s: MmSave)
    ensures
        spec_has_gilded_sword(s) ==> spec_has_razor_sword(s),
        spec_has_razor_sword(s) ==> spec_has_kokiri_sword(s),
        spec_has_mirror_shield(s) ==> spec_has_hero_shield(s),
        spec_has_double_magic(s) ==> spec_has_magic_meter(s),
        spec_has_magic(s) == spec_has_magic_meter(s),
        spec_has_giant_wallet(s) ==> spec_has_adult_wallet(s),
        spec_wallet_level(s) <= 2,
        spec_quiver_level(s) <= 3,
        spec_bomb_bag_level(s) <= 3,
{
}

/// Law: an item that the name lookup reports as owned has a count of at least
/// one, so the logic query `has_item(name, 1)` holds for it.
pub proof fn lemma_owned_item_counts(s: MmSave, name: Seq<char>)
    ensures
        spec_has_named_item(s, name) ==> spec_named_item_count(s, name) >= 1,
        spec_boss_remains_count(s) <= 4,
{
    reveal_strlit("ADULTWALLET");
    reveal_strlit("ADULT_WALLET");
    reveal_strlit("ALLNIGHTMASK");
    reveal_strlit("ALL_NIGHT_MASK");
    reveal_strlit("BLASTMASK");
    reveal_strlit("BLAST_MASK");
    reveal_strlit("BOMB");
    reveal_strlit("BOMBCHU");
    reveal_strlit("BOMBCHUS");
    reveal_strlit("BOMBS");
    reveal_strlit("BOMB_BAG_20");
    reveal_strlit("BOMB_BAG_30");
    reveal_strlit("BOMB_BAG_40");
    reveal_strlit("BOSSREMAINS");
    reveal_strlit("BOSS_REMAINS");
    reveal_strlit("BOTTLE");
    reveal_strlit("BREMENMASK");
    reveal_strlit("BREMEN_MASK");
    reveal_strlit("BUNNYHOOD");
    reveal_strlit("BUNNY_HOOD");
    reveal_strlit("CAPTAINHAT");
    reveal_strlit("CAPTAIN_HAT");
    reveal_strlit("CIRCUSLEADERMASK");
    reveal_strlit("CIRCUS_LEADER_MASK");
    reveal_strlit("COUPLESMASK");
    reveal_strlit("COUPLES_MASK");
    reveal_strlit("DEKUMASK");
    reveal_strlit("DEKUNUT");
    reveal_strlit("DEKUSTICK");
    reveal_strlit("DEKU_MASK");
    reveal_strlit("DEKU_NUT");
    reveal_strlit("DEKU_STICK");
    reveal_strlit("DONGEROMASK");
    reveal_strlit("DON_GERO_MASK");
    reveal_strlit("DOUBLEDEFENSE");
    reveal_strlit("DOUBLEMAGIC");
    reveal_strlit("DOUBLE_DEFENSE");
    reveal_strlit("DOUBLE_MAGIC");
    reveal_strlit("ELEGYOFEMPTINESS");
    reveal_strlit("ELEGY_OF_EMPTINESS");
    reveal_strlit("EPONASSONG");
    reveal_strlit("EPONAS_SONG");
    reveal_strlit("FIERCEDEITYMASK");
    reveal_strlit("FIERCE_DEITY_MASK");
    reveal_strlit("FIREARROW");
    reveal_strlit("FIRE_ARROW");
    reveal_strlit("GAROMASK");
    reveal_strlit("GARO_MASK");
    reveal_strlit("GIANTMASK");
    reveal_strlit("GIANTSWALLET");
    reveal_strlit("GIANTS_WALLET");
    reveal_strlit("GIANTWALLET");
    reveal_strlit("GIANT_MASK");
    reveal_strlit("GIANT_WALLET");
    reveal_strlit("GIBDOMASK");
    reveal_strlit("GIBDO_MASK");
    reveal_strlit("GILDEDSWORD");
    reveal_strlit("GILDED_SWORD");
    reveal_strlit("GOHTREMAINS");
    reveal_strlit("GOHT_REMAINS");
    reveal_strlit("GORONLULLABY");
    reveal_strlit("GORONMASK");
    reveal_strlit("GORON_LULLABY");
    reveal_strlit("GORON_MASK");
    reveal_strlit("GREATFAIRYMASK");
    reveal_strlit("GREATFAIRYSWORD");
    reveal_strlit("GREAT_FAIRY_MASK");
    reveal_strlit("GREAT_FAIRY_SWORD");
    reveal_strlit("GYORGREMAINS");
    reveal_strlit("GYORG_REMAINS");
    reveal_strlit("HEROSBOW");
    reveal_strlit("HEROSHIELD");
    reveal_strlit("HEROS_BOW");
    reveal_strlit("HERO_SHIELD");
    reveal_strlit("HOOKSHOT");
    reveal_strlit("ICEARROW");
    reveal_strlit("ICE_ARROW");
    reveal_strlit("KAFEIMASK");
    reveal_strlit("KAFEI_MASK");
    reveal_strlit("KAMAROMASK");
    reveal_strlit("KAMARO_MASK");
    reveal_strlit("KEATONMASK");
    reveal_strlit("KEATON_MASK");
    reveal_strlit("KOKIRISWORD");
    reveal_strlit("KOKIRI_SWORD");
    reveal_strlit("LENSOFTRUTH");
    reveal_strlit("LENS_OF_TRUTH");
    reveal_strlit("LIGHTARROW");
    reveal_strlit("LIGHT_ARROW");
    reveal_strlit("MAGIC");
    reveal_strlit("MAGICBEAN");
    reveal_strlit("MAGICMETER");
    reveal_strlit("MAGIC_BEAN");
    reveal_strlit("MAGIC_METER");
    reveal_strlit("MASKOFSCENTS");
    reveal_strlit("MASKOFTRUTH");
    reveal_strlit("MASK_OF_SCENTS");
    reveal_strlit("MASK_OF_TRUTH");
    reveal_strlit("MIRRORSHIELD");
    reveal_strlit("MIRROR_SHIELD");
    reveal_strlit("NEWWAVEBOSSANOVA");
    reveal_strlit("NEW_WAVE_BOSSA_NOVA");
    reveal_strlit("OATHTOORDER");
    reveal_strlit("OATH_TO_ORDER");
    reveal_strlit("OCARINAOFTTIME");
    reveal_strlit("OCARINA_OF_TIME");
    reveal_strlit("ODOLWAREMAINS");
    reveal_strlit("ODOLWA_REMAINS");
    reveal_strlit("PICTOGRAPHBOX");
    reveal_strlit("PICTOGRAPH_BOX");
    reveal_strlit("POSTMANHAT");
    reveal_strlit("POSTMAN_HAT");
    reveal_strlit("POWDERKEG");
    reveal_strlit("POWDER_KEG");
    reveal_strlit("QUIVER_30");
    reveal_strlit("QUIVER_40");
    reveal_strlit("QUIVER_50");
    reveal_strlit("RAZORSWORD");
    reveal_strlit("RAZOR_SWORD");
    reveal_strlit("ROMANIMASK");
    reveal_strlit("ROMANI_MASK");
    reveal_strlit("SMALLKEYGREATBAYTEMPLE");
    reveal_strlit("SMALLKEYSNOWHEADTEMPLE");
    reveal_strlit("SMALLKEYSTONETOWERTEMPLE");
    reveal_strlit("SMALLKEYWOODFALLTEMPLE");
    reveal_strlit("SMALL_KEY_GREAT_BAY_TEMPLE");
    reveal_strlit("SMALL_KEY_SNOWHEAD_TEMPLE");
    reveal_strlit("SMALL_KEY_STONE_TOWER_TEMPLE");
    reveal_strlit("SMALL_KEY_WOODFALL_TEMPLE");
    reveal_strlit("SONATAOFAWAKENING");
    reveal_strlit("SONATA_OF_AWAKENING");
    reveal_strlit("SONGOFHEALING");
    reveal_strlit("SONGOFSOARING");
    reveal_strlit("SONGOFSTORMS");
    reveal_strlit("SONGOFTIME");
    reveal_strlit("SONG_OF_HEALING");
    reveal_strlit("SONG_OF_SOARING");
    reveal_strlit("SONG_OF_STORMS");
    reveal_strlit("SONG_OF_TIME");
    reveal_strlit("STONEMASK");
    reveal_strlit("STONE_MASK");
    reveal_strlit("STRAYFAIRYCLOCKTOWN");
    reveal_strlit("STRAYFAIRYGREATBAY");
    reveal_strlit("STRAYFAIRYSNOWHEAD");
    reveal_strlit("STRAYFAIRYSTONETOWER");
    reveal_strlit("STRAYFAIRYWOODFALL");
    reveal_strlit("STRAY_FAIRY_CLOCK_TOWN");
    reveal_strlit("STRAY_FAIRY_GREAT_BAY");
    reveal_strlit("STRAY_FAIRY_SNOWHEAD");
    reveal_strlit("STRAY_FAIRY_STONE_TOWER");
    reveal_strlit("STRAY_FAIRY_WOODFALL");
    reveal_strlit("TWINMOLDREMAINS");
    reveal_strlit("TWINMOLD_REMAINS");
    reveal_strlit("ZORAMASK");
    reveal_strlit("ZORA_MASK");
    assert("ADULTWALLET"@.len() == 11);
    assert("ADULT_WALLET"@.len() == 12);
    assert("ALLNIGHTMASK"@.len() == 12);
    assert("ALL_NIGHT_MASK"@.len() == 14);
    assert("BLASTMASK"@.len() == 9);
    assert("BLAST_MASK"@.len() == 10);
    assert("BOMB"@.len() == 4);
    assert("BOMBCHU"@.len() == 7);
    assert("BOMBCHUS"@.len() == 8);
    assert("BOMBS"@.len() == 5);
    assert("BOMB_BAG_20"@.len() == 11);
    assert("BOMB_BAG_30"@.len() == 11);
    assert("BOMB_BAG_40"@.len() == 11);
    assert("BOSSREMAINS"@.len() == 11);
    assert("BOSS_REMAINS"@.len() == 12);
    assert("BOTTLE"@.len() == 6);
    assert("BREMENMASK"@.len() == 10);
    assert("BREMEN_MASK"@.len() == 11);
    assert("BUNNYHOOD"@.len() == 9);
    assert("BUNNY_HOOD"@.len() == 10);
    assert("CAPTAINHAT"@.len() == 10);
    assert("CAPTAIN_HAT"@.len() == 11);
    assert("CIRCUSLEADERMASK"@.len() == 16);
    assert("CIRCUS_LEADER_MASK"@.len() == 18);
    assert("COUPLESMASK"@.len() == 11);
    assert("COUPLES_MASK"@.len() == 12);
    assert("DEKUMASK"@.len() == 8);
    assert("DEKUNUT"@.len() == 7);
    assert("DEKUSTICK"@.len() == 9);
    assert("DEKU_MASK"@.len() == 9);
    assert("DEKU_NUT"@.len() == 8);
    assert("DEKU_STICK"@.len() == 10);
    assert("DONGEROMASK"@.len() == 11);
    assert("DON_GERO_MASK"@.len() == 13);
    assert("DOUBLEDEFENSE"@.len() == 13);
    assert("DOUBLEMAGIC"@.len() == 11);
    assert("DOUBLE_DEFENSE"@.len() == 14);
    assert("DOUBLE_MAGIC"@.len() == 12);
    assert("ELEGYOFEMPTINESS"@.len() == 16);
    assert("ELEGY_OF_EMPTINESS"@.len() == 18);
    assert("EPONASSONG"@.len() == 10);
    assert("EPONAS_SONG"@.len() == 11);
    assert("FIERCEDEITYMASK"@.len() == 15);
    assert("FIERCE_DEITY_MASK"@.len() == 17);
    assert("FIREARROW"@.len() == 9);
    assert("FIRE_ARROW"@.len() == 10);
    assert("GAROMASK"@.len() == 8);
    assert("GARO_MASK"@.len() == 9);
    assert("GIANTMASK"@.len() == 9);
    assert("GIANTSWALLET"@.len() == 12);
    assert("GIANTS_WALLET"@.len() == 13);
    assert("GIANTWALLET"@.len() == 11);
    assert("GIANT_MASK"@.len() == 10);
    assert("GIANT_WALLET"@.len() == 12);
    assert("GIBDOMASK"@.len() == 9);
    assert("GIBDO_MASK"@.len() == 10);
    assert("GILDEDSWORD"@.len() == 11);
    assert("GILDED_SWORD"@.len() == 12);
    assert("GOHTREMAINS"@.len() == 11);
    assert("GOHT_REMAINS"@.len() == 12);
    assert("GORONLULLABY"@.len() == 12);
    assert("GORONMASK"@.len() == 9);
    assert("GORON_LULLABY"@.len() == 13);
    assert("GORON_MASK"@.len() == 10);
    assert("GREATFAIRYMASK"@.len() == 14);
    assert("GREATFAIRYSWORD"@.len() == 15);
    assert("GREAT_FAIRY_MASK"@.len() == 16);
    assert("GREAT_FAIRY_SWORD"@.len() == 17);
    assert("GYORGREMAINS"@.len() == 12);
    assert("GYORG_REMAINS"@.len() == 13);
    assert("HEROSBOW"@.len() == 8);
    assert("HEROSHIELD"@.len() == 10);
    assert("HEROS_BOW"@.len() == 9);
    assert("HERO_SHIELD"@.len() == 11);
    assert("HOOKSHOT"@.len() == 8);
    assert("ICEARROW"@.len() == 8);
    assert("ICE_ARROW"@.len() == 9);
    assert("KAFEIMASK"@.len() == 9);
    assert("KAFEI_MASK"@.len() == 10);
    assert("KAMAROMASK"@.len() == 10);
    assert("KAMARO_MASK"@.len() == 11);
    assert("KEATONMASK"@.len() == 10);
    assert("KEATON_MASK"@.len() == 11);
    assert("KOKIRISWORD"@.len() == 11);
    assert("KOKIRI_SWORD"@.len() == 12);
    assert("LENSOFTRUTH"@.len() == 11);
    assert("LENS_OF_TRUTH"@.len() == 13);
    assert("LIGHTARROW"@.len() == 10);
    assert("LIGHT_ARROW"@.len() == 11);
    assert("MAGIC"@.len() == 5);
    assert("MAGICBEAN"@.len() == 9);
    assert("MAGICMETER"@.len() == 10);
    assert("MAGIC_BEAN"@.len() == 10);
    assert("MAGIC_METER"@.len() == 11);
    assert("MASKOFSCENTS"@.len() == 12);
    assert("MASKOFTRUTH"@.len() == 11);
    assert("MASK_OF_SCENTS"@.len() == 14);
    assert("MASK_OF_TRUTH"@.len() == 13);
    assert("MIRRORSHIELD"@.len() == 12);
    assert("MIRROR_SHIELD"@.len() == 13);
    assert("NEWWAVEBOSSANOVA"@.len() == 16);
    assert("NEW_WAVE_BOSSA_NOVA"@.len() == 19);
    assert("OATHTOORDER"@.len() == 11);
    assert("OATH_TO_ORDER"@.len() == 13);
    assert("OCARINAOFTTIME"@.len() == 14);
    assert("OCARINA_OF_TIME"@.len() == 15);
    assert("ODOLWAREMAINS"@.len() == 13);
    assert("ODOLWA_REMAINS"@.len() == 14);
    assert("PICTOGRAPHBOX"@.len() == 13);
    assert("PICTOGRAPH_BOX"@.len() == 14);
    assert("POSTMANHAT"@.len() == 10);
    assert("POSTMAN_HAT"@.len() == 11);
    assert("POWDERKEG"@.len() == 9);
    assert("POWDER_KEG"@.len() == 10);
    assert("QUIVER_30"@.len() == 9);
    assert("QUIVER_40"@.len() == 9);
    assert("QUIVER_50"@.len() == 9);
    assert("RAZORSWORD"@.len() == 10);
    assert("RAZOR_SWORD"@.len() == 11);
    assert("ROMANIMASK"@.len() == 10);
    assert("ROMANI_MASK"@.len() == 11);
    assert("SMALLKEYGREATBAYTEMPLE"@.len() == 22);
    assert("SMALLKEYSNOWHEADTEMPLE"@.len() == 22);
    assert("SMALLKEYSTONETOWERTEMPLE"@.len() == 24);
    assert("SMALLKEYWOODFALLTEMPLE"@.len() == 22);
    assert("SMALL_KEY_GREAT_BAY_TEMPLE"@.len() == 26);
    assert("SMALL_KEY_SNOWHEAD_TEMPLE"@.len() == 25);
    assert("SMALL_KEY_STONE_TOWER_TEMPLE"@.len() == 28);
    assert("SMALL_KEY_WOODFALL_TEMPLE"@.len() == 25);
    assert("SONATAOFAWAKENING"@.len() == 17);
    assert("SONATA_OF_AWAKENING"@.len() == 19);
    assert("SONGOFHEALING"@.len() == 13);
    assert("SONGOFSOARING"@.len() == 13);
    assert("SONGOFSTORMS"@.len() == 12);
    assert("SONGOFTIME"@.len() == 10);
    assert("SONG_OF_HEALING"@.len() == 15);
    assert("SONG_OF_SOARING"@.len() == 15);
    assert("SONG_OF_STORMS"@.len() == 14);
    assert("SONG_OF_TIME"@.len() == 12);
    assert("STONEMASK"@.len() == 9);
    assert("STONE_MASK"@.len() == 10);
    assert("STRAYFAIRYCLOCKTOWN"@.len() == 19);
    assert("STRAYFAIRYGREATBAY"@.len() == 18);
    assert("STRAYFAIRYSNOWHEAD"@.len() == 18);
    assert("STRAYFAIRYSTONETOWER"@.len() == 20);
    assert("STRAYFAIRYWOODFALL"@.len() == 18);
    assert("STRAY_FAIRY_CLOCK_TOWN"@.len() == 22);
    assert("STRAY_FAIRY_GREAT_BAY"@.len() == 21);
    assert("STRAY_FAIRY_SNOWHEAD"@.len() == 20);
    assert("STRAY_FAIRY_STONE_TOWER"@.len() == 23);
    assert("STRAY_FAIRY_WOODFALL"@.len() == 20);
    assert("TWINMOLDREMAINS"@.len() == 15);
    assert("TWINMOLD_REMAINS"@.len() == 16);
    assert("ZORAMASK"@.len() == 8);
    assert("ZORA_MASK"@.len() == 9);
    assert(!spec_has_named_item(s, "SMALL_KEY_WOODFALL_TEMPLE"@));
    assert(!spec_has_named_item(s, "SMALLKEYWOODFALLTEMPLE"@));
    assert(!spec_has_named_item(s, "SMALL_KEY_SNOWHEAD_TEMPLE"@));
    assert(!spec_has_named_item(s, "SMALLKEYSNOWHEADTEMPLE"@));
    assert(!spec_has_named_item(s, "SMALL_KEY_GREAT_BAY_TEMPLE"@));
    assert(!spec_has_named_item(s, "SMALLKEYGREATBAYTEMPLE"@));
    assert(!spec_has_named_item(s, "SMALL_KEY_STONE_TOWER_TEMPLE"@));
    assert(!spec_has_named_item(s, "SMALLKEYSTONETOWERTEMPLE"@));
    assert(!spec_has_named_item(s, "STRAY_FAIRY_CLOCK_TOWN"@));
    assert("STRAYFAIRYCLOCKTOWN"@[1] != "SONATA_OF_AWAKENING"@[1]);
    assert("STRAYFAIRYCLOCKTOWN"@[0] != "NEW_WAVE_BOSSA_NOVA"@[0]);
    assert(!spec_has_named_item(s, "STRAYFAIRYCLOCKTOWN"@));
    assert(!spec_has_named_item(s, "STRAY_FAIRY_WOODFALL"@));
    assert("STRAYFAIRYWOODFALL"@[0] != "CIRCUS_LEADER_MASK"@[0]);
    assert("STRAYFAIRYWOODFALL"@[0] != "ELEGY_OF_EMPTINESS"@[0]);
    assert(!spec_has_named_item(s, "STRAYFAIRYWOODFALL"@));
    assert(!spec_has_named_item(s, "STRAY_FAIRY_SNOWHEAD"@));
    assert("STRAYFAIRYSNOWHEAD"@[0] != "CIRCUS_LEADER_MASK"@[0]);
    assert("STRAYFAIRYSNOWHEAD"@[0] != "ELEGY_OF_EMPTINESS"@[0]);
    assert(!spec_has_named_item(s, "STRAYFAIRYSNOWHEAD"@));
    assert(!spec_has_named_item(s, "STRAY_FAIRY_GREAT_BAY"@));
    assert("STRAYFAIRYGREATBAY"@[0] != "CIRCUS_LEADER_MASK"@[0]);
    assert("STRAYFAIRYGREATBAY"@[0] != "ELEGY_OF_EMPTINESS"@[0]);
    assert(!spec_has_named_item(s, "STRAYFAIRYGREATBAY"@));
    assert(!spec_has_named_item(s, "STRAY_FAIRY_STONE_TOWER"@));
    assert(!spec_has_named_item(s, "STRAYFAIRYSTONETOWER"@));
    assert("BOSS_REMAINS"@[0] != "ALLNIGHTMASK"@[0]);
    assert("BOSS_REMAINS"@[0] != "MASKOFSCENTS"@[0]);
    assert("BOSS_REMAINS"@[0] != "COUPLES_MASK"@[0]);
    assert("BOSS_REMAINS"@[0] != "SONG_OF_TIME"@[0]);
    assert("BOSS_REMAINS"@[0] != "SONGOFSTORMS"@[0]);
    assert("BOSS_REMAINS"@[0] != "GORONLULLABY"@[0]);
    assert("BOSS_REMAINS"@[0] != "GOHT_REMAINS"@[0]);
    assert("BOSS_REMAINS"@[0] != "GYORGREMAINS"@[0]);
    assert("BOSS_REMAINS"@[0] != "KOKIRI_SWORD"@[0]);
    assert("BOSS_REMAINS"@[0] != "GILDED_SWORD"@[0]);
    assert("BOSS_REMAINS"@[0] != "MIRRORSHIELD"@[0]);
    assert("BOSS_REMAINS"@[0] != "DOUBLE_MAGIC"@[0]);
    assert("BOSS_REMAINS"@[0] != "ADULT_WALLET"@[0]);
    assert("BOSS_REMAINS"@[0] != "GIANT_WALLET"@[0]);
    assert("BOSS_REMAINS"@[0] != "GIANTSWALLET"@[0]);
    assert(!spec_has_named_item(s, "BOSS_REMAINS"@));
    assert("BOSSREMAINS"@[0] != "LIGHT_ARROW"@[0]);
    assert("BOSSREMAINS"@[0] != "LENSOFTRUTH"@[0]);
    assert("BOSSREMAINS"@[0] != "POSTMAN_HAT"@[0]);
    assert("BOSSREMAINS"@[0] != "KEATON_MASK"@[0]);
    assert("BOSSREMAINS"@[1] != "BREMEN_MASK"@[1]);
    assert("BOSSREMAINS"@[0] != "DONGEROMASK"@[0]);
    assert("BOSSREMAINS"@[0] != "ROMANI_MASK"@[0]);
    assert("BOSSREMAINS"@[0] != "COUPLESMASK"@[0]);
    assert("BOSSREMAINS"@[0] != "MASKOFTRUTH"@[0]);
    assert("BOSSREMAINS"@[0] != "KAMARO_MASK"@[0]);
    assert("BOSSREMAINS"@[0] != "CAPTAIN_HAT"@[0]);
    assert("BOSSREMAINS"@[0] != "EPONAS_SONG"@[0]);
    assert("BOSSREMAINS"@[0] != "OATHTOORDER"@[0]);
    assert("BOSSREMAINS"@[0] != "GOHTREMAINS"@[0]);
    assert("BOSSREMAINS"@[0] != "KOKIRISWORD"@[0]);
    assert("BOSSREMAINS"@[0] != "RAZOR_SWORD"@[0]);
    assert("BOSSREMAINS"@[0] != "GILDEDSWORD"@[0]);
    assert("BOSSREMAINS"@[0] != "HERO_SHIELD"@[0]);
    assert("BOSSREMAINS"@[0] != "MAGIC_METER"@[0]);
    assert("BOSSREMAINS"@[0] != "DOUBLEMAGIC"@[0]);
    assert("BOSSREMAINS"@[0] != "ADULTWALLET"@[0]);
    assert("BOSSREMAINS"@[0] != "GIANTWALLET"@[0]);
    assert(!spec_has_named_item(s, "BOSSREMAINS"@));
    assert("QUIVER_30"@[0] != "HEROS_BOW"@[0]);
    assert("QUIVER_30"@[0] != "FIREARROW"@[0]);
    assert("QUIVER_30"@[0] != "ICE_ARROW"@[0]);
    assert("QUIVER_30"@[0] != "POWDERKEG"@[0]);
    assert("QUIVER_30"@[0] != "MAGICBEAN"@[0]);
    assert("QUIVER_30"@[0] != "DEKUSTICK"@[0]);
    assert("QUIVER_30"@[0] != "DEKU_MASK"@[0]);
    assert("QUIVER_30"@[0] != "GORONMASK"@[0]);
    assert("QUIVER_30"@[0] != "ZORA_MASK"@[0]);
    assert("QUIVER_30"@[0] != "BLASTMASK"@[0]);
    assert("QUIVER_30"@[0] != "STONEMASK"@[0]);
    assert("QUIVER_30"@[0] != "BUNNYHOOD"@[0]);
    assert("QUIVER_30"@[0] != "KAFEIMASK"@[0]);
    assert("QUIVER_30"@[0] != "GIBDOMASK"@[0]);
    assert("QUIVER_30"@[0] != "GARO_MASK"@[0]);
    assert("QUIVER_30"@[0] != "GIANTMASK"@[0]);
    assert(!spec_has_named_item(s, "QUIVER_30"@));
    assert("QUIVER_40"@[0] != "HEROS_BOW"@[0]);
    assert("QUIVER_40"@[0] != "FIREARROW"@[0]);
    assert("QUIVER_40"@[0] != "ICE_ARROW"@[0]);
    assert("QUIVER_40"@[0] != "POWDERKEG"@[0]);
    assert("QUIVER_40"@[0] != "MAGICBEAN"@[0]);
    assert("QUIVER_40"@[0] != "DEKUSTICK"@[0]);
    assert("QUIVER_40"@[0] != "DEKU_MASK"@[0]);
    assert("QUIVER_40"@[0] != "GORONMASK"@[0]);
    assert("QUIVER_40"@[0] != "ZORA_MASK"@[0]);
    assert("QUIVER_40"@[0] != "BLASTMASK"@[0]);
    assert("QUIVER_40"@[0] != "STONEMASK"@[0]);
    assert("QUIVER_40"@[0] != "BUNNYHOOD"@[0]);
    assert("QUIVER_40"@[0] != "KAFEIMASK"@[0]);
    assert("QUIVER_40"@[0] != "GIBDOMASK"@[0]);
    assert("QUIVER_40"@[0] != "GARO_MASK"@[0]);
    assert("QUIVER_40"@[0] != "GIANTMASK"@[0]);
    assert(!spec_has_named_item(s, "QUIVER_40"@));
    assert("QUIVER_50"@[0] != "HEROS_BOW"@[0]);
    assert("QUIVER_50"@[0] != "FIREARROW"@[0]);
    assert("QUIVER_50"@[0] != "ICE_ARROW"@[0]);
    assert("QUIVER_50"@[0] != "POWDERKEG"@[0]);
    assert("QUIVER_50"@[0] != "MAGICBEAN"@[0]);
    assert("QUIVER_50"@[0] != "DEKUSTICK"@[0]);
    assert("QUIVER_50"@[0] != "DEKU_MASK"@[0]);
    assert("QUIVER_50"@[0] != "GORONMASK"@[0]);
    assert("QUIVER_50"@[0] != "ZORA_MASK"@[0]);
    assert("QUIVER_50"@[0] != "BLASTMASK"@[0]);
    assert("QUIVER_50"@[0] != "STONEMASK"@[0]);
    assert("QUIVER_50"@[0] != "BUNNYHOOD"@[0]);
    assert("QUIVER_50"@[0] != "KAFEIMASK"@[0]);
    assert("QUIVER_50"@[0] != "GIBDOMASK"@[0]);
    assert("QUIVER_50"@[0] != "GARO_MASK"@[0]);
    assert("QUIVER_50"@[0] != "GIANTMASK"@[0]);
    assert(!spec_has_named_item(s, "QUIVER_50"@));
    assert("BOMB_BAG_20"@[0] != "LIGHT_ARROW"@[0]);
    assert("BOMB_BAG_20"@[0] != "LENSOFTRUTH"@[0]);
    assert("BOMB_BAG_20"@[0] != "POSTMAN_HAT"@[0]);
    assert("BOMB_BAG_20"@[0] != "KEATON_MASK"@[0]);
    assert("BOMB_BAG_20"@[1] != "BREMEN_MASK"@[1]);
    assert("BOMB_BAG_20"@[0] != "DONGEROMASK"@[0]);
    assert("BOMB_BAG_20"@[0] != "ROMANI_MASK"@[0]);
    assert("BOMB_BAG_20"@[0] != "COUPLESMASK"@[0]);
    assert("BOMB_BAG_20"@[0] != "MASKOFTRUTH"@[0]);
    assert("BOMB_BAG_20"@[0] != "KAMARO_MASK"@[0]);
    assert("BOMB_BAG_20"@[0] != "CAPTAIN_HAT"@[0]);
    assert("BOMB_BAG_20"@[0] != "EPONAS_SONG"@[0]);
    assert("BOMB_BAG_20"@[0] != "OATHTOORDER"@[0]);
    assert("BOMB_BAG_20"@[0] != "GOHTREMAINS"@[0]);
    assert("BOMB_BAG_20"@[0] != "KOKIRISWORD"@[0]);
    assert("BOMB_BAG_20"@[0] != "RAZOR_SWORD"@[0]);
    assert("BOMB_BAG_20"@[0] != "GILDEDSWORD"@[0]);
    assert("BOMB_BAG_20"@[0] != "HERO_SHIELD"@[0]);
    assert("BOMB_BAG_20"@[0] != "MAGIC_METER"@[0]);
    assert("BOMB_BAG_20"@[0] != "DOUBLEMAGIC"@[0]);
    assert("BOMB_BAG_20"@[0] != "ADULTWALLET"@[0]);
    assert("BOMB_BAG_20"@[0] != "GIANTWALLET"@[0]);
    assert(!spec_has_named_item(s, "BOMB_BAG_20"@));
    assert("BOMB_BAG_30"@[0] != "LIGHT_ARROW"@[0]);
    assert("BOMB_BAG_30"@[0] != "LENSOFTRUTH"@[0]);
    assert("BOMB_BAG_30"@[0] != "POSTMAN_HAT"@[0]);
    assert("BOMB_BAG_30"@[0] != "KEATON_MASK"@[0]);
    assert("BOMB_BAG_30"@[1] != "BREMEN_MASK"@[1]);
    assert("BOMB_BAG_30"@[0] != "DONGEROMASK"@[0]);
    assert("BOMB_BAG_30"@[0] != "ROMANI_MASK"@[0]);
    assert("BOMB_BAG_30"@[0] != "COUPLESMASK"@[0]);
    assert("BOMB_BAG_30"@[0] != "MASKOFTRUTH"@[0]);
    assert("BOMB_BAG_30"@[0] != "KAMARO_MASK"@[0]);
    assert("BOMB_BAG_30"@[0] != "CAPTAIN_HAT"@[0]);
    assert("BOMB_BAG_30"@[0] != "EPONAS_SONG"@[0]);
    assert("BOMB_BAG_30"@[0] != "OATHTOORDER"@[0]);
    assert("BOMB_BAG_30"@[0] != "GOHTREMAINS"@[0]);
    assert("BOMB_BAG_30"@[0] != "KOKIRISWORD"@[0]);
    assert("BOMB_BAG_30"@[0] != "RAZOR_SWORD"@[0]);
    assert("BOMB_BAG_30"@[0] != "GILDEDSWORD"@[0]);
    assert("BOMB_BAG_30"@[0] != "HERO_SHIELD"@[0]);
    assert("BOMB_BAG_30"@[0] != "MAGIC_METER"@[0]);
    assert("BOMB_BAG_30"@[0] != "DOUBLEMAGIC"@[0]);
    assert("BOMB_BAG_30"@[0] != "ADULTWALLET"@[0]);
    assert("BOMB_BAG_30"@[0] != "GIANTWALLET"@[0]);
    assert(!spec_has_named_item(s, "BOMB_BAG_30"@));
    assert("BOMB_BAG_40"@[0] != "LIGHT_ARROW"@[0]);
    assert("BOMB_BAG_40"@[0] != "LENSOFTRUTH"@[0]);
    assert("BOMB_BAG_40"@[0] != "POSTMAN_HAT"@[0]);
    assert("BOMB_BAG_40"@[0] != "KEATON_MASK"@[0]);
    assert("BOMB_BAG_40"@[1] != "BREMEN_MASK"@[1]);
    assert("BOMB_BAG_40"@[0] != "DONGEROMASK"@[0]);
    assert("BOMB_BAG_40"@[0] != "ROMANI_MASK"@[0]);
    assert("BOMB_BAG_40"@[0] != "COUPLESMASK"@[0]);
    assert("BOMB_BAG_40"@[0] != "MASKOFTRUTH"@[0]);
    assert("BOMB_BAG_40"@[0] != "KAMARO_MASK"@[0]);
    assert("BOMB_BAG_40"@[0] != "CAPTAIN_HAT"@[0]);
    assert("BOMB_BAG_40"@[0] != "EPONAS_SONG"@[0]);
    assert("BOMB_BAG_40"@[0] != "OATHTOORDER"@[0]);
    assert("BOMB_BAG_40"@[0] != "GOHTREMAINS"@[0]);
    assert("BOMB_BAG_40"@[0] != "KOKIRISWORD"@[0]);
    assert("BOMB_BAG_40"@[0] != "RAZOR_SWORD"@[0]);
    assert("BOMB_BAG_40"@[0] != "GILDEDSWORD"@[0]);
    assert("BOMB_BAG_40"@[0] != "HERO_SHIELD"@[0]);
    assert("BOMB_BAG_40"@[0] != "MAGIC_METER"@[0]);
    assert("BOMB_BAG_40"@[0] != "DOUBLEMAGIC"@[0]);
    assert("BOMB_BAG_40"@[0] != "ADULTWALLET"@[0]);
    assert("BOMB_BAG_40"@[0] != "GIANTWALLET"@[0]);
    assert(!spec_has_named_item(s, "BOMB_BAG_40"@));
}

/// Every count stored in a map of positive entries is positive.
pub proof fn lemma_positive_entries(entries: Seq<(&'static str, u32)>, k: Seq<char>)
    requires
        positive_entries_map(entries).contains_key(k),
    ensures
        positive_entries_map(entries)[k] > 0,
    decreases entries.len(),
{
    if entries.len() > 0 {
        let (k2, c) = entries.last();
        if k2@ != k || c == 0 {
            lemma_positive_entries(entries.drop_last(), k);
        }
    }
}

/// Law: the inventory only holds identifiers with a positive count.
pub proof fn lemma_inventory_counts_positive(s: MmSave, k: Seq<char>)
    requires
        spec_inventory(s).contains_key(k),
    ensures
        spec_inventory(s)[k] > 0,
{
    lemma_positive_entries(spec_inventory_entries(s), k);
}

/// Entries whose counts are all zero give the empty map.
proof fn lemma_zero_entries(entries: Seq<(&'static str, u32)>)
    requires
        forall|i: int| 0 <= i < entries.len() ==> #[trigger] entries[i].1 == 0,
    ensures
        positive_entries_map(entries) == Map::<Seq<char>, u32>::empty(),
    decreases entries.len(),
{
    if entries.len() > 0 {
        assert(entries.last().1 == entries[entries.len() - 1].1);
        lemma_zero_entries(entries.drop_last());
    }
}

/// Slots that all hold no bottle count zero.
proof fn lemma_no_bottles(bottles: Seq<MmBottle>)
    requires
        forall|i: int| 0 <= i < bottles.len() ==> #[trigger] bottles[i] == MmBottle::NoBottle,
    ensures
        spec_filled_slots(bottles) == 0,
    decreases bottles.len(),
{
    if bottles.len() > 0 {
        lemma_no_bottles(bottles.drop_last());
    }
}

/// Law: a save in which nothing has been collected yields an empty inventory.
pub proof fn lemma_empty_save_empty_inventory(s: MmSave)
    requires
        crate::mm_save::spec_empty_save(s),
    ensures
        spec_inventory(s) == Map::<Seq<char>, u32>::empty(),
{
    lemma_no_bottles(s.inventory.bottles@);
    assert(0u8 & 1u8 == 0u8) by (bit_vector);
    assert(forall|x: u8| #[trigger] (0u8 & x) == 0u8) by (bit_vector);
    assert(forall|x: u16| #[trigger] (0u16 & x) == 0u16) by (bit_vector);
    assert(forall|x: u32| #[trigger] (0u32 & x) == 0u32) by (bit_vector);
    let e = spec_inventory_entries(s);
    assert forall|i: int| 0 <= i < e.len() implies #[trigger] e[i].1 == 0 by {
        reveal_with_fuel(spec_filled_slots, 1);
    }
    lemma_zero_entries(e);
}

} // verus!
