//! Concrete instances of the library's laws.

use oottracker::eval_context::EvalContext;
use oottracker::flag_mapping::{
    get_all_oot_location_ids, get_all_oot_mappings, get_mapped_locations, get_mapping, get_stub_locations, oot_location_count,
    oot_mapped_count, oot_mappings, oot_stub_count, scene, FlagType,
};
use oottracker::game_detection::{
    ActiveGame, GameDetector, GameType, TransitionState, OOTMM_MM_CONTEXT_ADDR,
    OOTMM_OOT_CONTEXT_ADDR, RAM_SIZE, RDRAM_BASE,
};
use oottracker::logic_context::MmGameContext;
use oottracker::mm_flag_mapping::{
    get_all_mm_location_ids, get_mm_mapping, mm_location_count, mm_mapped_count, mm_mappings, mm_stub_count,
};
use oottracker::mm_save::{MmMagicCapacity, MmSave, MmSword, MmUpgrades};

#[test]
fn researched_mapping_replaces_world_stub() {
    let table = oot_mappings(vec!["oot_deku_tree_map_chest", "oot_kf_midos_chest_top_left"]);
    let chest = get_mapping(&table, "oot_deku_tree_map_chest").unwrap();
    assert!(chest.is_mapped());
    assert_eq!(chest.scene_id, Some(scene::DEKU_TREE));
    assert_eq!(chest.flag_type, Some(FlagType::Chest));
    assert_eq!(chest.flag_bit, Some(0x08));
    let stub = get_mapping(&table, "oot_kf_midos_chest_top_left").unwrap();
    assert!(stub.is_stub());
    assert!(get_mapping(&table, "oot_not_a_location").is_none());
}

#[test]
fn every_location_occurs_once() {
    let ids = vec!["oot_deku_tree_map_chest", "oot_kf_midos_chest_top_left", "oot_deku_tree_map_chest"];
    let table = oot_mappings(ids);
    let all = get_all_oot_mappings(&table);
    let mut seen: Vec<&str> = all.iter().map(|m| m.location_id).collect();
    let n = seen.len();
    seen.sort();
    seen.dedup();
    assert_eq!(seen.len(), n);
    assert_eq!(oot_location_count(&table), n);
}

#[test]
fn stubs_and_mapped_make_up_the_table() {
    let table = oot_mappings(vec!["oot_a", "oot_b", "oot_deku_tree_map_chest"]);
    assert_eq!(oot_stub_count(&table) + oot_mapped_count(&table), oot_location_count(&table));
    assert_eq!(oot_stub_count(&table), 2);
    assert_eq!(get_stub_locations(&table).len(), 2);
    assert_eq!(get_mapped_locations(&table).len(), oot_mapped_count(&table));
}

#[test]
fn short_ram_changes_nothing() {
    let mut detector = GameDetector::with_game_type(GameType::OoTMMCombo);
    let before = (detector.game_type(), detector.active_game(), detector.transition_state());
    let result = detector.detect_from_ram(&vec![0xFFu8; RAM_SIZE - 1]);
    assert_eq!(result.confidence_percent, 0);
    assert_eq!((detector.game_type(), detector.active_game(), detector.transition_state()), before);
}

#[test]
fn game_change_is_reported_as_transition() {
    let mut detector = GameDetector::with_game_type(GameType::OoTMMCombo);
    let mut ram = vec![0u8; RAM_SIZE];
    let mm = (OOTMM_MM_CONTEXT_ADDR - RDRAM_BASE) as usize;
    ram[mm..mm + 4].copy_from_slice(&[0, 1, 0, 0]);
    let first = detector.detect_from_ram(&ram);
    assert_eq!(first.active_game, ActiveGame::MajorasMask);
    assert_eq!(first.transition_state, TransitionState::OotToMm);
    assert_eq!(detector.active_game(), first.active_game);

    let oot = (OOTMM_OOT_CONTEXT_ADDR - RDRAM_BASE) as usize;
    ram[mm..mm + 4].copy_from_slice(&[0, 0, 0, 0]);
    ram[oot..oot + 4].copy_from_slice(&[0, 1, 0, 0]);
    let second = detector.detect_from_ram(&ram);
    assert_eq!(second.transition_state, TransitionState::MmToOot);
    assert_eq!(second.transition_state.source_game(), Some(ActiveGame::MajorasMask));
    assert_eq!(second.transition_state.destination_game(), Some(ActiveGame::OcarinaOfTime));
}

#[test]
fn item_lookup_is_case_insensitive() {
    let mut save = MmSave::default();
    save.inventory.bow = true;
    let ctx = MmGameContext::new(&save);
    for name in ["HEROS_BOW", "heros_bow", "Heros_Bow", "herosbow"] {
        assert!(ctx.has_item(name));
        assert_eq!(ctx.item_count(name), 1);
        assert!(EvalContext::has_item(&ctx, name, 1));
    }
}

#[test]
fn upgrades_are_progressive() {
    let mut save = MmSave::default();
    save.sword = MmSword::GildedSword;
    save.magic = MmMagicCapacity::Double;
    save.upgrades = MmUpgrades::GIANTS_WALLET;
    let ctx = MmGameContext::new(&save);
    assert!(ctx.has_gilded_sword() && ctx.has_razor_sword() && ctx.has_kokiri_sword());
    assert!(ctx.has_double_magic() && ctx.has_magic_meter() && ctx.has_magic());
    assert!(ctx.has_giant_wallet() && ctx.has_adult_wallet());
    assert_eq!(ctx.wallet_level(), 2);
}

#[test]
fn inventory_holds_only_owned_items() {
    let save = MmSave::default();
    let ctx = MmGameContext::new(&save);
    assert!(ctx.build_inventory().is_empty());

    let mut save = MmSave::default();
    save.inventory.hookshot = true;
    let ctx = MmGameContext::new(&save);
    let inventory = ctx.build_inventory();
    assert!(!inventory.is_empty());
    assert_eq!(inventory.get("HOOKSHOT"), Some(&1));
    assert_eq!(inventory.get("FIRE_ARROW"), None);
}

#[test]
fn quiver_and_bomb_bag_tiers_are_counted() {
    let mut save = MmSave::default();
    save.upgrades = MmUpgrades::QUIVER_40 | MmUpgrades::BOMB_BAG_20;
    let ctx = MmGameContext::new(&save);
    assert_eq!(ctx.quiver_level(), 2);
    assert_eq!(ctx.item_count("QUIVER_30"), 1);
    assert_eq!(ctx.item_count("QUIVER_40"), 1);
    assert_eq!(ctx.item_count("QUIVER_50"), 0);
    assert_eq!(ctx.item_count("bomb_bag_20"), 1);
    assert_eq!(ctx.item_count("BOMB_BAG_30"), 0);
    assert!(EvalContext::has_item(&ctx, "QUIVER_30", 1));
    assert!(!EvalContext::has_item(&ctx, "QUIVER_50", 1));
    let inventory = ctx.build_inventory();
    for id in ["QUIVER_30", "QUIVER_40", "QUIVER_50", "BOMB_BAG_20", "BOMB_BAG_30", "BOMB_BAG_40"] {
        let count = ctx.item_count(id);
        let expected = if count > 0 { Some(&count) } else { None };
        assert_eq!(inventory.get(id), expected, "{}", id);
    }
}

#[test]
fn inventory_agrees_with_item_count() {
    let mut save = MmSave::default();
    save.inventory.bow = true;
    save.inventory.hookshot = true;
    save.small_keys.woodfall = 2;
    save.stray_fairies.snowhead = 7;
    save.inventory.bottles[2] = oottracker::mm_save::MmBottle::Fairy;
    let ctx = MmGameContext::new(&save);
    let inventory = ctx.build_inventory();
    for id in ["HEROS_BOW", "HOOKSHOT", "SMALL_KEY_WOODFALL_TEMPLE", "STRAY_FAIRY_SNOWHEAD", "BOTTLE", "FIRE_ARROW", "DEKU_MASK"] {
        let count = ctx.item_count(id);
        let expected = if count > 0 { Some(&count) } else { None };
        assert_eq!(inventory.get(id), expected, "{}", id);
    }
}

#[test]
fn world_location_ids_look_up_to_themselves() {
    let ids = vec!["oot_kf_midos_chest_top_left", "oot_deku_tree_map_chest", "oot_a"];
    let table = oot_mappings(ids.clone());
    let listed = get_all_oot_location_ids(&table);
    assert_eq!(listed, ids);
    for id in &listed {
        assert_eq!(get_mapping(&table, id).map(|m| m.location_id), Some(*id));
    }
    assert!(oot_location_count(&table) >= listed.len());
    assert_eq!(oot_location_count(&table), oot_mapped_count(&table) + oot_stub_count(&table));
    assert_eq!(oot_location_count(&table), get_all_oot_mappings(&table).len());

    let mm = mm_mappings(vec!["mm_clock_town_chest", "mm_not_researched"]);
    for id in get_all_mm_location_ids(&mm) {
        assert_eq!(get_mm_mapping(&mm, id).map(|m| m.location_id), Some(id));
    }
    assert!(get_mm_mapping(&mm, "non_existent_location_xyz").is_none());
    assert_eq!(mm_location_count(&mm), mm_mapped_count(&mm) + mm_stub_count(&mm));
    assert!(mm_location_count(&mm) >= 2);
}

#[test]
fn ascii_case_forms_give_the_same_answers() {
    let mut save = MmSave::default();
    save.inventory.hookshot = true;
    save.inventory.bow = true;
    let ctx = MmGameContext::new(&save);
    for name in ["hookshot", "Hookshot", "HOOKSHOT", "heros_bow", "HEROSBOW", "zora_mask"] {
        let upper = name.to_ascii_uppercase();
        let lower = name.to_ascii_lowercase();
        assert_eq!(ctx.has_item(name), ctx.has_item(&upper));
        assert_eq!(ctx.has_item(name), ctx.has_item(&lower));
        assert_eq!(ctx.item_count(name), ctx.item_count(&upper));
        assert_eq!(ctx.item_count(name), ctx.item_count(&lower));
    }
    assert!(ctx.has_item("Hookshot"));
    assert!(!ctx.has_item("zora_mask"));
}
