//! Tests of the OoT logic evaluation context.

use oottracker::eval_context::EvalContext;
use oottracker::flag_mapping::eval::OotEvalContext;
use oottracker::save::{Bottle, Equipment, Hookshot, MagicCapacity, Ocarina, QuestItems, Save, Upgrades};

#[test]
fn oot_empty_save_has_nothing() {
    let save = Save::default();
    let ctx = OotEvalContext::new(&save);
    for item in ["BOW", "HOOKSHOT", "OCARINA", "BOTTLE", "MAGIC", "KOKIRI_SWORD", "ZELDAS_LULLABY", "WALLET"] {
        assert!(!ctx.has_item(item, 1), "{} should be missing", item);
    }
    assert!(ctx.is_child());
    assert!(!ctx.is_adult());
}

#[test]
fn oot_item_names_are_case_insensitive() {
    let mut save = Save::default();
    save.inv.bow = true;
    save.inv.dins_fire = true;
    let ctx = OotEvalContext::new(&save);
    assert!(ctx.has_item("BOW", 1));
    assert!(ctx.has_item("bow", 1));
    assert!(ctx.has_item("Bow", 1));
    assert!(ctx.has_item("din", 1));
    assert!(ctx.has_item("Dins_Fire", 1));
    assert!(ctx.has_uppercase_item("BOW"));
    assert!(!ctx.has_uppercase_item("bow"));
}

#[test]
fn oot_counts_above_one_are_not_supported() {
    let mut save = Save::default();
    save.inv.bottles[0] = Bottle::Empty;
    save.inv.bottles[1] = Bottle::Fairy;
    let ctx = OotEvalContext::new(&save);
    assert!(ctx.has_item("BOTTLE", 0));
    assert!(ctx.has_item("BOTTLE", 1));
    assert!(!ctx.has_item("BOTTLE", 2));
    assert!(!ctx.has_item("LONGSHOT", 0));
}

#[test]
fn oot_progressive_items() {
    let mut save = Save::default();
    save.inv.hookshot = Hookshot::Hookshot;
    save.inv.ocarina = Ocarina::FairyOcarina;
    save.magic = MagicCapacity::Small;
    let ctx = OotEvalContext::new(&save);
    assert!(ctx.has_item("HOOKSHOT", 1));
    assert!(!ctx.has_item("LONGSHOT", 1));
    assert!(ctx.has_item("FAIRY_OCARINA", 1));
    assert!(ctx.has_item("OCARINA_OF_TIME", 1));
    assert!(ctx.has_item("MAGIC_METER", 1));
    assert!(!ctx.has_item("DOUBLE_MAGIC", 1));

    save.inv.hookshot = Hookshot::Longshot;
    save.magic = MagicCapacity::Large;
    let ctx = OotEvalContext::new(&save);
    assert!(ctx.has_item("HOOKSHOT", 1));
    assert!(ctx.has_item("LONGSHOT", 1));
    assert!(ctx.has_item("DOUBLE_MAGIC", 1));
}

#[test]
fn oot_equipment_and_upgrades() {
    let mut save = Save::default();
    save.equipment = Equipment::KOKIRI_SWORD | Equipment::HYLIAN_SHIELD | Equipment::HOVER_BOOTS;
    save.upgrades = Upgrades::QUIVER_30 | Upgrades::BOMB_BAG_20 | Upgrades::GORON_BRACELET | 0x1000;
    let ctx = OotEvalContext::new(&save);
    assert!(ctx.has_item("KOKIRI_SWORD", 1));
    assert!(ctx.has_item("HYLIAN_SHIELD", 1));
    assert!(ctx.has_item("HOVER_BOOTS", 1));
    assert!(!ctx.has_item("MASTER_SWORD", 1));
    assert!(!ctx.has_item("IRON_BOOTS", 1));
    assert!(ctx.has_item("QUIVER", 1));
    assert!(ctx.has_item("BOMBS", 1));
    assert!(ctx.has_item("STRENGTH", 1));
    assert!(!ctx.has_item("SILVER_GAUNTLETS", 1));
    assert!(ctx.has_item("WALLET", 1));
    assert!(!ctx.has_item("BULLET_BAG", 1));
    assert!(!ctx.has_item("DEKU_STICK", 1));

    save.biggoron_sword = true;
    let ctx = OotEvalContext::new(&save);
    assert!(ctx.has_item("BIGGORON_SWORD", 1));
    assert!(ctx.has_item("GIANTS_KNIFE", 1));
}

#[test]
fn oot_quest_items() {
    let mut save = Save::default();
    save.quest_items = QuestItems::ZELDAS_LULLABY | QuestItems::KOKIRI_EMERALD | QuestItems::GERUDO_CARD;
    let ctx = OotEvalContext::new(&save);
    assert!(ctx.has_item("LULLABY", 1));
    assert!(ctx.has_item("ZELDAS_LULLABY", 1));
    assert!(ctx.has_item("KOKIRI_EMERALD", 1));
    assert!(ctx.has_item("GERUDO_MEMBERSHIP_CARD", 1));
    assert!(!ctx.has_item("EPONAS_SONG", 1));
    assert!(!ctx.has_item("FOREST_MEDALLION", 1));
}

#[test]
fn oot_stubs() {
    let mut save = Save::default();
    save.is_adult = true;
    let ctx = OotEvalContext::new(&save);
    assert!(ctx.is_adult());
    assert!(!ctx.is_child());
    assert!(!ctx.event("DEKU_TREE_CLEAR"));
    assert_eq!(ctx.setting("open_forest"), None);
    assert!(!ctx.setting_value("bridge", "open"));
    assert!(!ctx.trick("hover_boost"));
    assert_eq!(ctx.mm_time(), 0);
    assert!(!ctx.has_item("NOT_AN_ITEM", 1));
    assert!(!ctx.has_item("", 1));
}
