//! Tests of the Majora's Mask logic context.

use oottracker::eval_context::EvalContext;
use oottracker::logic_context::logic_ids;
use oottracker::logic_context::MmGameContext;
use oottracker::mm_save::{
    MmBottle, MmCycleSceneFlags, MmInventory, MmMagicCapacity, MmMasksHigh, MmMasksLow,
    MmPermanentSceneFlags, MmQuestItems, MmSave, MmShield, MmSmallKeys, MmStrayFairies, MmSword,
    MmTransformationMasks, MmUpgrades,
};


/// Create a default save for testing.
fn make_save() -> MmSave {
    MmSave::default()
}

/// Create a save with specific items for testing.
fn make_save_with_items() -> MmSave {
    let mut save = MmSave::default();
    save.inventory.ocarina = true;
    save.inventory.bow = true;
    save.inventory.hookshot = true;
    save.inventory.bombs = true;
    save.inventory.lens = true;
    save
}

// ========================================================================
// Basic Context Tests
// ========================================================================

#[test]
fn test_new_context() {
    let save = make_save();
    let ctx = MmGameContext::new(&save);
    assert!(std::ptr::eq(ctx.save(), &save));
}

#[test]
fn test_empty_save_has_nothing() {
    let save = make_save();
    let ctx = MmGameContext::new(&save);

    assert!(!ctx.has_ocarina());
    assert!(!ctx.has_bow());
    assert!(!ctx.has_hookshot());
    assert!(!ctx.has_deku_mask());
    assert!(!ctx.has_song_of_time());
}

// ========================================================================
// Equipment Tests
// ========================================================================

#[test]
fn test_equipment_items() {
    let save = make_save_with_items();
    let ctx = MmGameContext::new(&save);

    assert!(ctx.has_ocarina());
    assert!(ctx.has_bow());
    assert!(ctx.has_hookshot());
    assert!(ctx.has_bombs());
    assert!(ctx.has_lens_of_truth());

    // Items not in save
    assert!(!ctx.has_fire_arrow());
    assert!(!ctx.has_bombchu());
    assert!(!ctx.has_powder_keg());
}

#[test]
fn test_all_equipment_accessors() {
    let mut save = make_save();
    save.inventory = MmInventory {
        ocarina: true,
        bow: true,
        fire_arrows: true,
        ice_arrows: true,
        light_arrows: true,
        bombs: true,
        bombchus: true,
        deku_sticks: true,
        deku_nuts: true,
        magic_beans: true,
        powder_keg: true,
        pictograph_box: true,
        lens: true,
        hookshot: true,
        great_fairy_sword: true,
        bottles: Default::default(),
    };

    let ctx = MmGameContext::new(&save);

    assert!(ctx.has_ocarina());
    assert!(ctx.has_bow());
    assert!(ctx.has_fire_arrow());
    assert!(ctx.has_ice_arrow());
    assert!(ctx.has_light_arrow());
    assert!(ctx.has_hookshot());
    assert!(ctx.has_bombs());
    assert!(ctx.has_bombchu());
    assert!(ctx.has_powder_keg());
    assert!(ctx.has_lens_of_truth());
    assert!(ctx.has_pictograph_box());
    assert!(ctx.has_great_fairy_sword());
    assert!(ctx.has_magic_bean());
    assert!(ctx.has_deku_stick());
    assert!(ctx.has_deku_nut());
}

// ========================================================================
// Transformation Mask Tests
// ========================================================================

#[test]
fn test_transformation_masks() {
    let mut save = make_save();
    save.masks.transformation = MmTransformationMasks::DEKU
        | MmTransformationMasks::GORON
        | MmTransformationMasks::ZORA
        | MmTransformationMasks::FIERCE_DEITY;

    let ctx = MmGameContext::new(&save);

    assert!(ctx.has_deku_mask());
    assert!(ctx.has_goron_mask());
    assert!(ctx.has_zora_mask());
    assert!(ctx.has_fierce_deity_mask());
}

#[test]
fn test_partial_transformation_masks() {
    let mut save = make_save();
    save.masks.transformation = MmTransformationMasks::DEKU | MmTransformationMasks::GORON;

    let ctx = MmGameContext::new(&save);

    assert!(ctx.has_deku_mask());
    assert!(ctx.has_goron_mask());
    assert!(!ctx.has_zora_mask());
    assert!(!ctx.has_fierce_deity_mask());
}

// ========================================================================
// Regular Mask Tests
// ========================================================================

#[test]
fn test_regular_masks_low() {
    let mut save = make_save();
    save.masks.masks_low = MmMasksLow::POSTMAN
        | MmMasksLow::ALL_NIGHT
        | MmMasksLow::BUNNY
        | MmMasksLow::KEATON
        | MmMasksLow::TRUTH;

    let ctx = MmGameContext::new(&save);

    assert!(ctx.has_postman_hat());
    assert!(ctx.has_all_night_mask());
    assert!(ctx.has_bunny_hood());
    assert!(ctx.has_keaton_mask());
    assert!(ctx.has_mask_of_truth());

    // Not set
    assert!(!ctx.has_blast_mask());
    assert!(!ctx.has_stone_mask());
}

#[test]
fn test_regular_masks_high() {
    let mut save = make_save();
    save.masks.masks_high =
        MmMasksHigh::GIBDO | MmMasksHigh::GARO | MmMasksHigh::CAPTAIN | MmMasksHigh::GIANT;

    let ctx = MmGameContext::new(&save);

    assert!(ctx.has_gibdo_mask());
    assert!(ctx.has_garo_mask());
    assert!(ctx.has_captain_hat());
    assert!(ctx.has_giant_mask());
}

#[test]
fn test_all_regular_masks() {
    let mut save = make_save();
    save.masks.masks_low = MmMasksLow::all();
    save.masks.masks_high = MmMasksHigh::all();

    let ctx = MmGameContext::new(&save);

    assert!(ctx.has_postman_hat());
    assert!(ctx.has_all_night_mask());
    assert!(ctx.has_blast_mask());
    assert!(ctx.has_stone_mask());
    assert!(ctx.has_great_fairy_mask());
    assert!(ctx.has_keaton_mask());
    assert!(ctx.has_bremen_mask());
    assert!(ctx.has_bunny_hood());
    assert!(ctx.has_don_gero_mask());
    assert!(ctx.has_mask_of_scents());
    assert!(ctx.has_romani_mask());
    assert!(ctx.has_circus_leader_mask());
    assert!(ctx.has_kafei_mask());
    assert!(ctx.has_couples_mask());
    assert!(ctx.has_mask_of_truth());
    assert!(ctx.has_kamaro_mask());
    assert!(ctx.has_gibdo_mask());
    assert!(ctx.has_garo_mask());
    assert!(ctx.has_captain_hat());
    assert!(ctx.has_giant_mask());
}

// ========================================================================
// Song Tests
// ========================================================================

#[test]
fn test_songs() {
    let mut save = make_save();
    save.quest_items = MmQuestItems::SONG_TIME
        | MmQuestItems::SONG_HEALING
        | MmQuestItems::SONG_SOARING
        | MmQuestItems::SONG_AWAKENING;

    let ctx = MmGameContext::new(&save);

    assert!(ctx.has_song_of_time());
    assert!(ctx.has_song_of_healing());
    assert!(ctx.has_song_of_soaring());
    assert!(ctx.has_sonata_of_awakening());

    assert!(!ctx.has_eponas_song());
    assert!(!ctx.has_song_of_storms());
    assert!(!ctx.has_goron_lullaby());
}

#[test]
fn test_all_songs() {
    let mut save = make_save();
    save.quest_items = MmQuestItems::SONG_TIME
        | MmQuestItems::SONG_HEALING
        | MmQuestItems::SONG_EPONA
        | MmQuestItems::SONG_SOARING
        | MmQuestItems::SONG_STORMS
        | MmQuestItems::SONG_AWAKENING
        | MmQuestItems::SONG_GORON
        | MmQuestItems::SONG_ZORA
        | MmQuestItems::SONG_EMPTINESS
        | MmQuestItems::SONG_ORDER;

    let ctx = MmGameContext::new(&save);

    assert!(ctx.has_song_of_time());
    assert!(ctx.has_song_of_healing());
    assert!(ctx.has_eponas_song());
    assert!(ctx.has_song_of_soaring());
    assert!(ctx.has_song_of_storms());
    assert!(ctx.has_sonata_of_awakening());
    assert!(ctx.has_goron_lullaby());
    assert!(ctx.has_new_wave_bossa_nova());
    assert!(ctx.has_elegy_of_emptiness());
    assert!(ctx.has_oath_to_order());
}

// ========================================================================
// Boss Remains Tests
// ========================================================================

#[test]
fn test_boss_remains() {
    let mut save = make_save();
    save.quest_items = MmQuestItems::REMAINS_ODOLWA | MmQuestItems::REMAINS_GOHT;

    let ctx = MmGameContext::new(&save);

    assert!(ctx.has_odolwa_remains());
    assert!(ctx.has_goht_remains());
    assert!(!ctx.has_gyorg_remains());
    assert!(!ctx.has_twinmold_remains());
    assert_eq!(ctx.boss_remains_count(), 2);
}

#[test]
fn test_all_boss_remains() {
    let mut save = make_save();
    save.quest_items = MmQuestItems::REMAINS_ODOLWA
        | MmQuestItems::REMAINS_GOHT
        | MmQuestItems::REMAINS_GYORG
        | MmQuestItems::REMAINS_TWINMOLD;

    let ctx = MmGameContext::new(&save);

    assert!(ctx.has_odolwa_remains());
    assert!(ctx.has_goht_remains());
    assert!(ctx.has_gyorg_remains());
    assert!(ctx.has_twinmold_remains());
    assert_eq!(ctx.boss_remains_count(), 4);
}

// ========================================================================
// Sword/Shield Tests
// ========================================================================

#[test]
fn test_swords() {
    let mut save = make_save();
    save.sword = MmSword::KokiriSword;
    let ctx = MmGameContext::new(&save);
    assert!(ctx.has_kokiri_sword());
    assert!(!ctx.has_razor_sword());
    assert!(!ctx.has_gilded_sword());

    save.sword = MmSword::RazorSword;
    let ctx = MmGameContext::new(&save);
    assert!(ctx.has_kokiri_sword()); // Progressive
    assert!(ctx.has_razor_sword());
    assert!(!ctx.has_gilded_sword());

    save.sword = MmSword::GildedSword;
    let ctx = MmGameContext::new(&save);
    assert!(ctx.has_kokiri_sword()); // Progressive
    assert!(ctx.has_razor_sword()); // Progressive
    assert!(ctx.has_gilded_sword());
}

#[test]
fn test_shields() {
    let mut save = make_save();
    save.shield = MmShield::HeroShield;
    let ctx = MmGameContext::new(&save);
    assert!(ctx.has_hero_shield());
    assert!(!ctx.has_mirror_shield());

    save.shield = MmShield::MirrorShield;
    let ctx = MmGameContext::new(&save);
    assert!(ctx.has_hero_shield()); // Progressive
    assert!(ctx.has_mirror_shield());
}

// ========================================================================
// Upgrade Tests
// ========================================================================

#[test]
fn test_magic() {
    let mut save = make_save();
    save.magic = MmMagicCapacity::NoMagic;
    let ctx = MmGameContext::new(&save);
    assert!(!ctx.has_magic());
    assert!(!ctx.has_magic_meter());
    assert!(!ctx.has_double_magic());

    save.magic = MmMagicCapacity::Single;
    let ctx = MmGameContext::new(&save);
    assert!(ctx.has_magic());
    assert!(ctx.has_magic_meter());
    assert!(!ctx.has_double_magic());

    save.magic = MmMagicCapacity::Double;
    let ctx = MmGameContext::new(&save);
    assert!(ctx.has_magic());
    assert!(ctx.has_magic_meter());
    assert!(ctx.has_double_magic());
}

#[test]
fn test_wallets() {
    let mut save = make_save();
    save.upgrades = MmUpgrades::empty();
    let ctx = MmGameContext::new(&save);
    assert_eq!(ctx.wallet_level(), 0);
    assert!(!ctx.has_adult_wallet());
    assert!(!ctx.has_giant_wallet());

    save.upgrades = MmUpgrades::ADULTS_WALLET;
    let ctx = MmGameContext::new(&save);
    assert_eq!(ctx.wallet_level(), 1);
    assert!(ctx.has_adult_wallet());
    assert!(!ctx.has_giant_wallet());

    save.upgrades = MmUpgrades::GIANTS_WALLET;
    let ctx = MmGameContext::new(&save);
    assert_eq!(ctx.wallet_level(), 2);
    assert!(ctx.has_adult_wallet());
    assert!(ctx.has_giant_wallet());
}

#[test]
fn test_quiver_levels() {
    let mut save = make_save();
    save.upgrades = MmUpgrades::empty();
    let ctx = MmGameContext::new(&save);
    assert_eq!(ctx.quiver_level(), 0);

    save.upgrades = MmUpgrades::QUIVER_30;
    let ctx = MmGameContext::new(&save);
    assert_eq!(ctx.quiver_level(), 1);

    save.upgrades = MmUpgrades::QUIVER_40;
    let ctx = MmGameContext::new(&save);
    assert_eq!(ctx.quiver_level(), 2);

    save.upgrades = MmUpgrades::QUIVER_50;
    let ctx = MmGameContext::new(&save);
    assert_eq!(ctx.quiver_level(), 3);
}

#[test]
fn test_bomb_bag_levels() {
    let mut save = make_save();
    save.upgrades = MmUpgrades::empty();
    let ctx = MmGameContext::new(&save);
    assert_eq!(ctx.bomb_bag_level(), 0);

    save.upgrades = MmUpgrades::BOMB_BAG_20;
    let ctx = MmGameContext::new(&save);
    assert_eq!(ctx.bomb_bag_level(), 1);

    save.upgrades = MmUpgrades::BOMB_BAG_30;
    let ctx = MmGameContext::new(&save);
    assert_eq!(ctx.bomb_bag_level(), 2);

    save.upgrades = MmUpgrades::BOMB_BAG_40;
    let ctx = MmGameContext::new(&save);
    assert_eq!(ctx.bomb_bag_level(), 3);
}

// ========================================================================
// Bottle Tests
// ========================================================================

#[test]
fn test_bottles() {
    let mut save = make_save();
    let ctx = MmGameContext::new(&save);
    assert_eq!(ctx.bottle_count(), 0);
    assert!(!ctx.has_bottle());

    save.inventory.bottles[0] = MmBottle::Empty;
    let ctx = MmGameContext::new(&save);
    assert_eq!(ctx.bottle_count(), 1);
    assert!(ctx.has_bottle());

    save.inventory.bottles[1] = MmBottle::RedPotion;
    save.inventory.bottles[2] = MmBottle::Fairy;
    let ctx = MmGameContext::new(&save);
    assert_eq!(ctx.bottle_count(), 3);
    assert!(ctx.has_bottle());
}

// ========================================================================
// Dungeon Key Tests
// ========================================================================

#[test]
fn test_small_keys() {
    let mut save = make_save();
    save.small_keys = MmSmallKeys {
        woodfall: 1,
        snowhead: 3,
        great_bay: 0,
        stone_tower: 4,
    };

    let ctx = MmGameContext::new(&save);
    assert_eq!(ctx.woodfall_keys(), 1);
    assert_eq!(ctx.snowhead_keys(), 3);
    assert_eq!(ctx.great_bay_keys(), 0);
    assert_eq!(ctx.stone_tower_keys(), 4);
}

// ========================================================================
// Stray Fairy Tests
// ========================================================================

#[test]
fn test_stray_fairies() {
    let mut save = make_save();
    save.stray_fairies = MmStrayFairies {
        clock_town: 1,
        woodfall: 15,
        snowhead: 10,
        great_bay: 5,
        stone_tower: 0,
    };

    let ctx = MmGameContext::new(&save);
    assert_eq!(ctx.clock_town_fairies(), 1);
    assert_eq!(ctx.woodfall_fairies(), 15);
    assert_eq!(ctx.snowhead_fairies(), 10);
    assert_eq!(ctx.great_bay_fairies(), 5);
    assert_eq!(ctx.stone_tower_fairies(), 0);
}

// ========================================================================
// has_item Tests (String Lookup)
// ========================================================================

#[test]
fn test_has_item_equipment() {
    let save = make_save_with_items();
    let ctx = MmGameContext::new(&save);

    // Different case formats
    assert!(ctx.has_item("HOOKSHOT"));
    assert!(ctx.has_item("hookshot"));
    assert!(ctx.has_item("Hookshot"));
    assert!(ctx.has_item("HEROS_BOW"));
    assert!(ctx.has_item("heros_bow"));
    assert!(ctx.has_item("HEROSBOW"));

    // Missing items
    assert!(!ctx.has_item("FIRE_ARROW"));
    assert!(!ctx.has_item("POWDER_KEG"));
}

#[test]
fn test_has_item_masks() {
    let mut save = make_save();
    save.masks.transformation = MmTransformationMasks::DEKU | MmTransformationMasks::GORON;
    save.masks.masks_low = MmMasksLow::BUNNY | MmMasksLow::KEATON;

    let ctx = MmGameContext::new(&save);

    assert!(ctx.has_item("DEKU_MASK"));
    assert!(ctx.has_item("DEKUMASK"));
    assert!(ctx.has_item("deku_mask"));
    assert!(ctx.has_item("GORON_MASK"));
    assert!(ctx.has_item("BUNNY_HOOD"));
    assert!(ctx.has_item("KEATON_MASK"));

    assert!(!ctx.has_item("ZORA_MASK"));
    assert!(!ctx.has_item("STONE_MASK"));
}

#[test]
fn test_has_item_songs() {
    let mut save = make_save();
    save.quest_items = MmQuestItems::SONG_TIME | MmQuestItems::SONG_SOARING;

    let ctx = MmGameContext::new(&save);

    assert!(ctx.has_item("SONG_OF_TIME"));
    assert!(ctx.has_item("SONGOFTIME"));
    assert!(ctx.has_item("SONG_OF_SOARING"));

    assert!(!ctx.has_item("SONG_OF_HEALING"));
    assert!(!ctx.has_item("EPONAS_SONG"));
}

#[test]
fn test_has_item_boss_remains() {
    let mut save = make_save();
    save.quest_items = MmQuestItems::REMAINS_ODOLWA | MmQuestItems::REMAINS_GYORG;

    let ctx = MmGameContext::new(&save);

    assert!(ctx.has_item("ODOLWA_REMAINS"));
    assert!(ctx.has_item("GYORG_REMAINS"));
    assert!(!ctx.has_item("GOHT_REMAINS"));
    assert!(!ctx.has_item("TWINMOLD_REMAINS"));
}

#[test]
fn test_has_item_unknown() {
    let save = make_save();
    let ctx = MmGameContext::new(&save);

    assert!(!ctx.has_item("NOT_AN_ITEM"));
    assert!(!ctx.has_item("INVALID"));
    assert!(!ctx.has_item(""));
}

// ========================================================================
// item_count Tests
// ========================================================================

#[test]
fn test_item_count_non_stackable() {
    let save = make_save_with_items();
    let ctx = MmGameContext::new(&save);

    assert_eq!(ctx.item_count("HOOKSHOT"), 1);
    assert_eq!(ctx.item_count("HEROS_BOW"), 1);
    assert_eq!(ctx.item_count("FIRE_ARROW"), 0);
}

#[test]
fn test_item_count_bottles() {
    let mut save = make_save();
    save.inventory.bottles[0] = MmBottle::Empty;
    save.inventory.bottles[1] = MmBottle::Fairy;

    let ctx = MmGameContext::new(&save);
    assert_eq!(ctx.item_count("BOTTLE"), 2);
}

#[test]
fn test_item_count_keys() {
    let mut save = make_save();
    save.small_keys = MmSmallKeys {
        woodfall: 1,
        snowhead: 3,
        great_bay: 1,
        stone_tower: 4,
    };

    let ctx = MmGameContext::new(&save);
    assert_eq!(ctx.item_count("SMALL_KEY_WOODFALL_TEMPLE"), 1);
    assert_eq!(ctx.item_count("SMALL_KEY_SNOWHEAD_TEMPLE"), 3);
    assert_eq!(ctx.item_count("SMALL_KEY_GREAT_BAY_TEMPLE"), 1);
    assert_eq!(ctx.item_count("SMALL_KEY_STONE_TOWER_TEMPLE"), 4);
}

#[test]
fn test_item_count_fairies() {
    let mut save = make_save();
    save.stray_fairies = MmStrayFairies {
        clock_town: 1,
        woodfall: 15,
        snowhead: 10,
        great_bay: 5,
        stone_tower: 0,
    };

    let ctx = MmGameContext::new(&save);
    assert_eq!(ctx.item_count("STRAY_FAIRY_CLOCK_TOWN"), 1);
    assert_eq!(ctx.item_count("STRAY_FAIRY_WOODFALL"), 15);
    assert_eq!(ctx.item_count("STRAY_FAIRY_SNOWHEAD"), 10);
    assert_eq!(ctx.item_count("STRAY_FAIRY_GREAT_BAY"), 5);
    assert_eq!(ctx.item_count("STRAY_FAIRY_STONE_TOWER"), 0);
}

#[test]
fn test_item_count_boss_remains() {
    let mut save = make_save();
    save.quest_items =
        MmQuestItems::REMAINS_ODOLWA | MmQuestItems::REMAINS_GOHT | MmQuestItems::REMAINS_GYORG;

    let ctx = MmGameContext::new(&save);
    assert_eq!(ctx.item_count("BOSS_REMAINS"), 3);
}

// ========================================================================
// build_inventory Tests
// ========================================================================

#[test]
fn test_build_inventory_empty() {
    let save = make_save();
    let ctx = MmGameContext::new(&save);
    let inventory = ctx.build_inventory();

    assert!(inventory.is_empty());
}

#[test]
fn test_build_inventory_with_items() {
    let mut save = make_save();
    save.inventory.ocarina = true;
    save.inventory.hookshot = true;
    save.masks.transformation = MmTransformationMasks::DEKU;
    save.quest_items = MmQuestItems::SONG_TIME;
    save.inventory.bottles[0] = MmBottle::Empty;
    save.inventory.bottles[1] = MmBottle::Fairy;
    save.small_keys.woodfall = 1;
    save.stray_fairies.woodfall = 15;

    let ctx = MmGameContext::new(&save);
    let inventory = ctx.build_inventory();

    assert_eq!(inventory.get(logic_ids::OCARINA_OF_TIME), Some(&1));
    assert_eq!(inventory.get(logic_ids::HOOKSHOT), Some(&1));
    assert_eq!(inventory.get(logic_ids::DEKU_MASK), Some(&1));
    assert_eq!(inventory.get(logic_ids::SONG_OF_TIME), Some(&1));
    assert_eq!(inventory.get(logic_ids::BOTTLE), Some(&2));
    assert_eq!(
        inventory.get(logic_ids::SMALL_KEY_WOODFALL_TEMPLE),
        Some(&1)
    );
    assert_eq!(inventory.get(logic_ids::STRAY_FAIRY_WOODFALL), Some(&15));

    // Items not owned should not be in inventory
    assert!(!inventory.contains_key(logic_ids::FIRE_ARROW));
    assert!(!inventory.contains_key(logic_ids::GORON_MASK));
}

#[test]
fn test_build_inventory_upgrades() {
    let mut save = make_save();
    save.magic = MmMagicCapacity::Double;
    save.double_defense = true;
    save.upgrades = MmUpgrades::ADULTS_WALLET | MmUpgrades::QUIVER_40 | MmUpgrades::BOMB_BAG_30;

    let ctx = MmGameContext::new(&save);
    let inventory = ctx.build_inventory();

    assert_eq!(inventory.get(logic_ids::MAGIC_METER), Some(&1));
    assert_eq!(inventory.get(logic_ids::DOUBLE_MAGIC), Some(&1));
    assert_eq!(inventory.get(logic_ids::DOUBLE_DEFENSE), Some(&1));
    assert_eq!(inventory.get(logic_ids::ADULT_WALLET), Some(&1));
    assert_eq!(inventory.get(logic_ids::QUIVER_30), Some(&1));
    assert_eq!(inventory.get(logic_ids::QUIVER_40), Some(&1));
    assert!(!inventory.contains_key(logic_ids::QUIVER_50));
    assert_eq!(inventory.get(logic_ids::BOMB_BAG_20), Some(&1));
    assert_eq!(inventory.get(logic_ids::BOMB_BAG_30), Some(&1));
    assert!(!inventory.contains_key(logic_ids::BOMB_BAG_40));
}

#[test]
fn test_build_inventory_all_masks() {
    let mut save = make_save();
    save.masks.transformation = MmTransformationMasks::all();
    save.masks.masks_low = MmMasksLow::all();
    save.masks.masks_high = MmMasksHigh::all();

    let ctx = MmGameContext::new(&save);
    let inventory = ctx.build_inventory();

    // Verify all masks are in inventory
    assert!(inventory.contains_key(logic_ids::DEKU_MASK));
    assert!(inventory.contains_key(logic_ids::GORON_MASK));
    assert!(inventory.contains_key(logic_ids::ZORA_MASK));
    assert!(inventory.contains_key(logic_ids::FIERCE_DEITY_MASK));
    assert!(inventory.contains_key(logic_ids::POSTMAN_HAT));
    assert!(inventory.contains_key(logic_ids::ALL_NIGHT_MASK));
    assert!(inventory.contains_key(logic_ids::BLAST_MASK));
    assert!(inventory.contains_key(logic_ids::BUNNY_HOOD));
    assert!(inventory.contains_key(logic_ids::GIBDO_MASK));
    assert!(inventory.contains_key(logic_ids::GARO_MASK));
    assert!(inventory.contains_key(logic_ids::GIANT_MASK));
}

#[test]
fn test_build_inventory_all_songs() {
    let mut save = make_save();
    save.quest_items = MmQuestItems::SONG_TIME
        | MmQuestItems::SONG_HEALING
        | MmQuestItems::SONG_EPONA
        | MmQuestItems::SONG_SOARING
        | MmQuestItems::SONG_STORMS
        | MmQuestItems::SONG_AWAKENING
        | MmQuestItems::SONG_GORON
        | MmQuestItems::SONG_ZORA
        | MmQuestItems::SONG_EMPTINESS
        | MmQuestItems::SONG_ORDER;

    let ctx = MmGameContext::new(&save);
    let inventory = ctx.build_inventory();

    assert!(inventory.contains_key(logic_ids::SONG_OF_TIME));
    assert!(inventory.contains_key(logic_ids::SONG_OF_HEALING));
    assert!(inventory.contains_key(logic_ids::EPONAS_SONG));
    assert!(inventory.contains_key(logic_ids::SONG_OF_SOARING));
    assert!(inventory.contains_key(logic_ids::SONG_OF_STORMS));
    assert!(inventory.contains_key(logic_ids::SONATA_OF_AWAKENING));
    assert!(inventory.contains_key(logic_ids::GORON_LULLABY));
    assert!(inventory.contains_key(logic_ids::NEW_WAVE_BOSSA_NOVA));
    assert!(inventory.contains_key(logic_ids::ELEGY_OF_EMPTINESS));
    assert!(inventory.contains_key(logic_ids::OATH_TO_ORDER));
}

// ========================================================================
// Logic IDs Module Tests
// ========================================================================

#[test]
fn test_logic_ids_exist() {
    // Verify all logic IDs are non-empty strings
    // Note: These are compile-time constants, so the assertions are always true
    let ids: [&str; 4] = [
        logic_ids::OCARINA_OF_TIME,
        logic_ids::DEKU_MASK,
        logic_ids::SONG_OF_TIME,
        logic_ids::HOOKSHOT,
    ];
    for id in ids {
        assert!(!id.is_empty());
    }
}

// ========================================================================
// EvalContext Implementation Tests
// ========================================================================

#[test]
fn test_eval_context_has_item_bottles_with_count() {
    let mut save = make_save();
    // Add 3 bottles
    save.inventory.bottles[0] = MmBottle::Empty;
    save.inventory.bottles[1] = MmBottle::RedPotion;
    save.inventory.bottles[2] = MmBottle::Fairy;

    let ctx = MmGameContext::new(&save);

    // Test via EvalContext trait method
    assert!(EvalContext::has_item(&ctx, "BOTTLE", 1));
    assert!(EvalContext::has_item(&ctx, "BOTTLE", 2));
    assert!(EvalContext::has_item(&ctx, "BOTTLE", 3));
    assert!(!EvalContext::has_item(&ctx, "BOTTLE", 4));
}

#[test]
fn test_eval_context_has_item_hookshot() {
    let mut save = make_save();
    save.inventory.hookshot = true;

    let ctx = MmGameContext::new(&save);

    // Has hookshot with count 1 should return true
    assert!(EvalContext::has_item(&ctx, "HOOKSHOT", 1));
    // Non-stackable item with count 2 should return false
    assert!(!EvalContext::has_item(&ctx, "HOOKSHOT", 2));
}

#[test]
fn test_eval_context_has_item_missing() {
    let save = make_save();
    let ctx = MmGameContext::new(&save);

    assert!(!EvalContext::has_item(&ctx, "HOOKSHOT", 1));
    assert!(!EvalContext::has_item(&ctx, "BOTTLE", 1));
}

#[test]
fn test_eval_context_has_item_keys() {
    let mut save = make_save();
    save.small_keys.woodfall = 2;
    save.small_keys.snowhead = 3;

    let ctx = MmGameContext::new(&save);

    assert!(EvalContext::has_item(&ctx, "SMALL_KEY_WOODFALL_TEMPLE", 1));
    assert!(EvalContext::has_item(&ctx, "SMALL_KEY_WOODFALL_TEMPLE", 2));
    assert!(!EvalContext::has_item(&ctx, "SMALL_KEY_WOODFALL_TEMPLE", 3));

    assert!(EvalContext::has_item(&ctx, "SMALL_KEY_SNOWHEAD_TEMPLE", 3));
    assert!(!EvalContext::has_item(&ctx, "SMALL_KEY_SNOWHEAD_TEMPLE", 4));
}

#[test]
fn test_eval_context_has_item_stray_fairies() {
    let mut save = make_save();
    save.stray_fairies.woodfall = 15;

    let ctx = MmGameContext::new(&save);

    assert!(EvalContext::has_item(&ctx, "STRAY_FAIRY_WOODFALL", 1));
    assert!(EvalContext::has_item(&ctx, "STRAY_FAIRY_WOODFALL", 15));
    assert!(!EvalContext::has_item(&ctx, "STRAY_FAIRY_WOODFALL", 16));
}

#[test]
fn test_eval_context_is_child() {
    let save = make_save();
    let ctx = MmGameContext::new(&save);

    // In MM, Link is always a child
    assert!(EvalContext::is_child(&ctx));
    assert!(!EvalContext::is_adult(&ctx));
}

#[test]
fn test_eval_context_setting_trick_stub() {
    let save = make_save();
    let ctx = MmGameContext::new(&save);

    // Stub implementations
    assert_eq!(EvalContext::setting(&ctx, "any_setting"), None);
    assert!(!EvalContext::trick(&ctx, "any_trick"));
}

#[test]
fn test_eval_context_mm_time_stub() {
    let save = make_save();
    let ctx = MmGameContext::new(&save);

    assert_eq!(EvalContext::mm_time(&ctx), 0);
}


#[test]
fn test_evalcontext_setting_returns_none() {
    let save = make_save();
    let ctx = MmGameContext::new(&save);

    // setting() should return None for any setting (stub implementation)
    assert_eq!(ctx.setting("any_setting"), None);
    assert_eq!(ctx.setting("shuffle_songs"), None);
    assert_eq!(ctx.setting("open_forest"), None);
    assert_eq!(ctx.setting(""), None);
    assert_eq!(ctx.setting("UPPERCASE_SETTING"), None);
}

#[test]
fn test_evalcontext_trick_returns_false() {
    let save = make_save();
    let ctx = MmGameContext::new(&save);

    // trick() should return false for any trick (stub implementation)
    assert!(!ctx.trick("any_trick"));
    assert!(!ctx.trick("hover_boost"));
    assert!(!ctx.trick("bomb_hover"));
    assert!(!ctx.trick(""));
    assert!(!ctx.trick("UPPERCASE_TRICK"));
}

#[test]
fn test_evalcontext_no_panic_on_unknown_settings_tricks() {
    let save = make_save();
    let ctx = MmGameContext::new(&save);

    // Should not panic on any input
    let _ = ctx.setting("!@#$%^&*()");
    let _ = ctx.setting("very_long_setting_name_that_definitely_does_not_exist");
    let _ = ctx.trick("!@#$%^&*()");
    let _ = ctx.trick("very_long_trick_name_that_definitely_does_not_exist");
}

// ========================================================================
// Event Tests (Boss Defeats)
// ========================================================================

/// Create a permanent scene flag with cleared_room set.
fn make_perm_flag_cleared() -> MmPermanentSceneFlags {
    MmPermanentSceneFlags {
        chest: 0,
        switch0: 0,
        switch1: 0,
        cleared_room: 1,
        collectible: 0,
        cleared_floors: 0,
        rooms: 0,
    }
}

/// Create an empty permanent scene flag.
fn make_perm_flag_empty() -> MmPermanentSceneFlags {
    MmPermanentSceneFlags {
        chest: 0,
        switch0: 0,
        switch1: 0,
        cleared_room: 0,
        collectible: 0,
        cleared_floors: 0,
        rooms: 0,
    }
}

/// Create a cycle scene flag with cleared_room set.
fn make_cycle_flag_cleared() -> MmCycleSceneFlags {
    MmCycleSceneFlags {
        chest: 0,
        switch0: 0,
        switch1: 0,
        cleared_room: 1,
        collectible: 0,
    }
}

/// Create an empty cycle scene flag.
fn make_cycle_flag_empty() -> MmCycleSceneFlags {
    MmCycleSceneFlags {
        chest: 0,
        switch0: 0,
        switch1: 0,
        cleared_room: 0,
        collectible: 0,
    }
}

/// Create a save with enough scene flag slots for testing.
fn make_save_with_scene_flags(
    perm_flags: Vec<MmPermanentSceneFlags>,
    cycle_flags: Vec<MmCycleSceneFlags>,
) -> MmSave {
    MmSave {
        permanent_scene_flags: perm_flags,
        cycle_scene_flags: cycle_flags,
        ..Default::default()
    }
}

#[test]
fn test_event_odolwa_defeated_permanent() {
    // Scene ID 0x1A = 26
    let mut perm_flags: Vec<MmPermanentSceneFlags> =
        (0..27).map(|_| make_perm_flag_empty()).collect();
    perm_flags[0x1A] = make_perm_flag_cleared();

    let save = make_save_with_scene_flags(perm_flags, vec![]);
    let ctx = MmGameContext::new(&save);

    assert!(EvalContext::event(&ctx, "ODOLWA_DEFEATED"));
    assert!(!EvalContext::event(&ctx, "GOHT_DEFEATED"));
}

#[test]
fn test_event_goht_defeated_permanent() {
    // Scene ID 0x24 = 36
    let mut perm_flags: Vec<MmPermanentSceneFlags> =
        (0..37).map(|_| make_perm_flag_empty()).collect();
    perm_flags[0x24] = make_perm_flag_cleared();

    let save = make_save_with_scene_flags(perm_flags, vec![]);
    let ctx = MmGameContext::new(&save);

    assert!(EvalContext::event(&ctx, "GOHT_DEFEATED"));
    assert!(!EvalContext::event(&ctx, "ODOLWA_DEFEATED"));
}

#[test]
fn test_event_gyorg_defeated_permanent() {
    // Scene ID 0x4F = 79
    let mut perm_flags: Vec<MmPermanentSceneFlags> =
        (0..80).map(|_| make_perm_flag_empty()).collect();
    perm_flags[0x4F] = make_perm_flag_cleared();

    let save = make_save_with_scene_flags(perm_flags, vec![]);
    let ctx = MmGameContext::new(&save);

    assert!(EvalContext::event(&ctx, "GYORG_DEFEATED"));
}

#[test]
fn test_event_twinmold_defeated_permanent() {
    // Scene ID 0x36 = 54
    let mut perm_flags: Vec<MmPermanentSceneFlags> =
        (0..55).map(|_| make_perm_flag_empty()).collect();
    perm_flags[0x36] = make_perm_flag_cleared();

    let save = make_save_with_scene_flags(perm_flags, vec![]);
    let ctx = MmGameContext::new(&save);

    assert!(EvalContext::event(&ctx, "TWINMOLD_DEFEATED"));
}

#[test]
fn test_event_goht_defeated_cycle() {
    // Scene ID 0x24 = 36
    let mut cycle_flags: Vec<MmCycleSceneFlags> =
        (0..37).map(|_| make_cycle_flag_empty()).collect();
    cycle_flags[0x24] = make_cycle_flag_cleared();

    let save = make_save_with_scene_flags(vec![], cycle_flags);
    let ctx = MmGameContext::new(&save);

    assert!(EvalContext::event(&ctx, "GOHT_DEFEATED_CYCLE"));
    // Permanent flag not set
    assert!(!EvalContext::event(&ctx, "GOHT_DEFEATED"));
}

#[test]
fn test_event_all_cycle_bosses() {
    // Create enough flags for all bosses
    let mut cycle_flags: Vec<MmCycleSceneFlags> =
        (0..80).map(|_| make_cycle_flag_empty()).collect();
    cycle_flags[0x1A] = make_cycle_flag_cleared(); // Odolwa
    cycle_flags[0x24] = make_cycle_flag_cleared(); // Goht
    cycle_flags[0x4F] = make_cycle_flag_cleared(); // Gyorg
    cycle_flags[0x36] = make_cycle_flag_cleared(); // Twinmold

    let save = make_save_with_scene_flags(vec![], cycle_flags);
    let ctx = MmGameContext::new(&save);

    assert!(EvalContext::event(&ctx, "ODOLWA_DEFEATED_CYCLE"));
    assert!(EvalContext::event(&ctx, "GOHT_DEFEATED_CYCLE"));
    assert!(EvalContext::event(&ctx, "GYORG_DEFEATED_CYCLE"));
    assert!(EvalContext::event(&ctx, "TWINMOLD_DEFEATED_CYCLE"));
}

#[test]
fn test_event_case_insensitive() {
    let mut perm_flags: Vec<MmPermanentSceneFlags> =
        (0..27).map(|_| make_perm_flag_empty()).collect();
    perm_flags[0x1A] = make_perm_flag_cleared();

    let save = make_save_with_scene_flags(perm_flags, vec![]);
    let ctx = MmGameContext::new(&save);

    // All case variations should work
    assert!(EvalContext::event(&ctx, "ODOLWA_DEFEATED"));
    assert!(EvalContext::event(&ctx, "odolwa_defeated"));
    assert!(EvalContext::event(&ctx, "Odolwa_Defeated"));
    assert!(EvalContext::event(&ctx, "OdOlWa_DeFeAtEd"));
}

#[test]
fn test_event_unknown_returns_false() {
    let save = make_save();
    let ctx = MmGameContext::new(&save);

    assert!(!EvalContext::event(&ctx, "UNKNOWN_EVENT"));
    assert!(!EvalContext::event(&ctx, "NOT_A_BOSS"));
    assert!(!EvalContext::event(&ctx, ""));
    assert!(!EvalContext::event(&ctx, "MAJORA_DEFEATED"));
}

#[test]
fn test_event_empty_flags_returns_false() {
    // Empty flags should return false for all events
    let save = make_save();
    let ctx = MmGameContext::new(&save);

    assert!(!EvalContext::event(&ctx, "ODOLWA_DEFEATED"));
    assert!(!EvalContext::event(&ctx, "GOHT_DEFEATED"));
    assert!(!EvalContext::event(&ctx, "GYORG_DEFEATED"));
    assert!(!EvalContext::event(&ctx, "TWINMOLD_DEFEATED"));
    assert!(!EvalContext::event(&ctx, "ODOLWA_DEFEATED_CYCLE"));
    assert!(!EvalContext::event(&ctx, "GOHT_DEFEATED_CYCLE"));
    assert!(!EvalContext::event(&ctx, "GYORG_DEFEATED_CYCLE"));
    assert!(!EvalContext::event(&ctx, "TWINMOLD_DEFEATED_CYCLE"));
}

#[test]
fn test_event_permanent_vs_cycle_independence() {
    // Permanent flag set, cycle not set
    let mut perm_flags: Vec<MmPermanentSceneFlags> =
        (0..80).map(|_| make_perm_flag_empty()).collect();
    perm_flags[0x1A] = make_perm_flag_cleared();

    let cycle_flags: Vec<MmCycleSceneFlags> =
        (0..80).map(|_| make_cycle_flag_empty()).collect();

    let save = make_save_with_scene_flags(perm_flags, cycle_flags);
    let ctx = MmGameContext::new(&save);

    // Permanent should be true, cycle should be false
    assert!(EvalContext::event(&ctx, "ODOLWA_DEFEATED"));
    assert!(!EvalContext::event(&ctx, "ODOLWA_DEFEATED_CYCLE"));
}

#[test]
fn test_check_boss_defeated_permanent_helper() {
    let mut perm_flags: Vec<MmPermanentSceneFlags> =
        (0..80).map(|_| make_perm_flag_empty()).collect();
    perm_flags[0x1A] = make_perm_flag_cleared();

    let save = make_save_with_scene_flags(perm_flags, vec![]);
    let ctx = MmGameContext::new(&save);

    assert!(ctx.check_boss_defeated_permanent(0x1A));
    assert!(!ctx.check_boss_defeated_permanent(0x24));
    assert!(!ctx.check_boss_defeated_permanent(0x4F));
    assert!(!ctx.check_boss_defeated_permanent(0x36));
}

#[test]
fn test_check_boss_defeated_cycle_helper() {
    let mut cycle_flags: Vec<MmCycleSceneFlags> =
        (0..80).map(|_| make_cycle_flag_empty()).collect();
    cycle_flags[0x24] = make_cycle_flag_cleared();

    let save = make_save_with_scene_flags(vec![], cycle_flags);
    let ctx = MmGameContext::new(&save);

    assert!(!ctx.check_boss_defeated_cycle(0x1A));
    assert!(ctx.check_boss_defeated_cycle(0x24));
    assert!(!ctx.check_boss_defeated_cycle(0x4F));
    assert!(!ctx.check_boss_defeated_cycle(0x36));
}

#[test]
fn test_check_boss_defeated_out_of_bounds() {
    let save = make_save();
    let ctx = MmGameContext::new(&save);

    // Out of bounds should return false, not panic
    assert!(!ctx.check_boss_defeated_permanent(1000));
    assert!(!ctx.check_boss_defeated_cycle(1000));
}

// ========================================================================
// Event Tests (Dungeon Clears)
// ========================================================================

/// Create a permanent scene flag with cleared_floors set.
fn make_perm_flag_dungeon_cleared() -> MmPermanentSceneFlags {
    MmPermanentSceneFlags {
        chest: 0,
        switch0: 0,
        switch1: 0,
        cleared_room: 0,
        collectible: 0,
        cleared_floors: 1,
        rooms: 0,
    }
}

#[test]
fn test_event_woodfall_temple_clear_permanent() {
    // Scene ID 0x1A = 26
    let mut perm_flags: Vec<MmPermanentSceneFlags> =
        (0..27).map(|_| make_perm_flag_empty()).collect();
    perm_flags[0x1A] = make_perm_flag_dungeon_cleared();

    let save = make_save_with_scene_flags(perm_flags, vec![]);
    let ctx = MmGameContext::new(&save);

    assert!(EvalContext::event(&ctx, "WOODFALL_TEMPLE_CLEAR"));
    assert!(!EvalContext::event(&ctx, "SNOWHEAD_TEMPLE_CLEAR"));
}

#[test]
fn test_event_snowhead_temple_clear_permanent() {
    // Scene ID 0x24 = 36
    let mut perm_flags: Vec<MmPermanentSceneFlags> =
        (0..37).map(|_| make_perm_flag_empty()).collect();
    perm_flags[0x24] = make_perm_flag_dungeon_cleared();

    let save = make_save_with_scene_flags(perm_flags, vec![]);
    let ctx = MmGameContext::new(&save);

    assert!(EvalContext::event(&ctx, "SNOWHEAD_TEMPLE_CLEAR"));
    assert!(!EvalContext::event(&ctx, "WOODFALL_TEMPLE_CLEAR"));
}

#[test]
fn test_event_great_bay_temple_clear_permanent() {
    // Scene ID 0x4F = 79
    let mut perm_flags: Vec<MmPermanentSceneFlags> =
        (0..80).map(|_| make_perm_flag_empty()).collect();
    perm_flags[0x4F] = make_perm_flag_dungeon_cleared();

    let save = make_save_with_scene_flags(perm_flags, vec![]);
    let ctx = MmGameContext::new(&save);

    assert!(EvalContext::event(&ctx, "GREAT_BAY_TEMPLE_CLEAR"));
}

#[test]
fn test_event_stone_tower_temple_clear_permanent() {
    // Scene ID 0x36 = 54
    let mut perm_flags: Vec<MmPermanentSceneFlags> =
        (0..55).map(|_| make_perm_flag_empty()).collect();
    perm_flags[0x36] = make_perm_flag_dungeon_cleared();

    let save = make_save_with_scene_flags(perm_flags, vec![]);
    let ctx = MmGameContext::new(&save);

    assert!(EvalContext::event(&ctx, "STONE_TOWER_TEMPLE_CLEAR"));
}

#[test]
fn test_event_all_cycle_dungeon_clears() {
    // Create enough flags for all dungeons
    let mut cycle_flags: Vec<MmCycleSceneFlags> =
        (0..80).map(|_| make_cycle_flag_empty()).collect();
    cycle_flags[0x1A] = make_cycle_flag_cleared(); // Woodfall
    cycle_flags[0x24] = make_cycle_flag_cleared(); // Snowhead
    cycle_flags[0x4F] = make_cycle_flag_cleared(); // Great Bay
    cycle_flags[0x36] = make_cycle_flag_cleared(); // Stone Tower

    let save = make_save_with_scene_flags(vec![], cycle_flags);
    let ctx = MmGameContext::new(&save);

    assert!(EvalContext::event(&ctx, "WOODFALL_TEMPLE_CLEAR_CYCLE"));
    assert!(EvalContext::event(&ctx, "SNOWHEAD_TEMPLE_CLEAR_CYCLE"));
    assert!(EvalContext::event(&ctx, "GREAT_BAY_TEMPLE_CLEAR_CYCLE"));
    assert!(EvalContext::event(&ctx, "STONE_TOWER_TEMPLE_CLEAR_CYCLE"));
}

#[test]
fn test_event_dungeon_clear_case_insensitive() {
    let mut perm_flags: Vec<MmPermanentSceneFlags> =
        (0..27).map(|_| make_perm_flag_empty()).collect();
    perm_flags[0x1A] = make_perm_flag_dungeon_cleared();

    let save = make_save_with_scene_flags(perm_flags, vec![]);
    let ctx = MmGameContext::new(&save);

    // All case variations should work
    assert!(EvalContext::event(&ctx, "WOODFALL_TEMPLE_CLEAR"));
    assert!(EvalContext::event(&ctx, "woodfall_temple_clear"));
    assert!(EvalContext::event(&ctx, "Woodfall_Temple_Clear"));
    assert!(EvalContext::event(&ctx, "WoOdFaLl_TeMpLe_ClEaR"));
}

#[test]
fn test_event_dungeon_clear_empty_flags_returns_false() {
    // Empty flags should return false for all dungeon clear events
    let save = make_save();
    let ctx = MmGameContext::new(&save);

    assert!(!EvalContext::event(&ctx, "WOODFALL_TEMPLE_CLEAR"));
    assert!(!EvalContext::event(&ctx, "SNOWHEAD_TEMPLE_CLEAR"));
    assert!(!EvalContext::event(&ctx, "GREAT_BAY_TEMPLE_CLEAR"));
    assert!(!EvalContext::event(&ctx, "STONE_TOWER_TEMPLE_CLEAR"));
    assert!(!EvalContext::event(&ctx, "WOODFALL_TEMPLE_CLEAR_CYCLE"));
    assert!(!EvalContext::event(&ctx, "SNOWHEAD_TEMPLE_CLEAR_CYCLE"));
    assert!(!EvalContext::event(&ctx, "GREAT_BAY_TEMPLE_CLEAR_CYCLE"));
    assert!(!EvalContext::event(&ctx, "STONE_TOWER_TEMPLE_CLEAR_CYCLE"));
}

#[test]
fn test_event_dungeon_clear_permanent_vs_cycle_independence() {
    // Permanent flag set (cleared_floors), cycle not set
    let mut perm_flags: Vec<MmPermanentSceneFlags> =
        (0..80).map(|_| make_perm_flag_empty()).collect();
    perm_flags[0x1A] = make_perm_flag_dungeon_cleared();

    let cycle_flags: Vec<MmCycleSceneFlags> =
        (0..80).map(|_| make_cycle_flag_empty()).collect();

    let save = make_save_with_scene_flags(perm_flags, cycle_flags);
    let ctx = MmGameContext::new(&save);

    // Permanent should be true, cycle should be false
    assert!(EvalContext::event(&ctx, "WOODFALL_TEMPLE_CLEAR"));
    assert!(!EvalContext::event(&ctx, "WOODFALL_TEMPLE_CLEAR_CYCLE"));
}

#[test]
fn test_check_dungeon_clear_permanent_helper() {
    let mut perm_flags: Vec<MmPermanentSceneFlags> =
        (0..80).map(|_| make_perm_flag_empty()).collect();
    perm_flags[0x1A] = make_perm_flag_dungeon_cleared();

    let save = make_save_with_scene_flags(perm_flags, vec![]);
    let ctx = MmGameContext::new(&save);

    assert!(ctx.check_dungeon_clear_permanent(0x1A));
    assert!(!ctx.check_dungeon_clear_permanent(0x24));
    assert!(!ctx.check_dungeon_clear_permanent(0x4F));
    assert!(!ctx.check_dungeon_clear_permanent(0x36));
}

#[test]
fn test_check_dungeon_clear_cycle_helper() {
    let mut cycle_flags: Vec<MmCycleSceneFlags> =
        (0..80).map(|_| make_cycle_flag_empty()).collect();
    cycle_flags[0x24] = make_cycle_flag_cleared();

    let save = make_save_with_scene_flags(vec![], cycle_flags);
    let ctx = MmGameContext::new(&save);

    assert!(!ctx.check_dungeon_clear_cycle(0x1A));
    assert!(ctx.check_dungeon_clear_cycle(0x24));
    assert!(!ctx.check_dungeon_clear_cycle(0x4F));
    assert!(!ctx.check_dungeon_clear_cycle(0x36));
}

#[test]
fn test_check_dungeon_clear_out_of_bounds() {
    let save = make_save();
    let ctx = MmGameContext::new(&save);

    // Out of bounds should return false, not panic
    assert!(!ctx.check_dungeon_clear_permanent(1000));
    assert!(!ctx.check_dungeon_clear_cycle(1000));
}

#[test]
fn test_boss_defeated_vs_dungeon_clear_independence() {
    // Set only cleared_room (boss defeat), not cleared_floors (dungeon clear)
    let mut perm_flags: Vec<MmPermanentSceneFlags> =
        (0..80).map(|_| make_perm_flag_empty()).collect();
    perm_flags[0x1A] = make_perm_flag_cleared(); // Only cleared_room set

    let save = make_save_with_scene_flags(perm_flags, vec![]);
    let ctx = MmGameContext::new(&save);

    // Boss defeat should be true, dungeon clear should be false
    assert!(EvalContext::event(&ctx, "ODOLWA_DEFEATED"));
    assert!(!EvalContext::event(&ctx, "WOODFALL_TEMPLE_CLEAR"));
}
