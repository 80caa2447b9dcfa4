//! Tests of the Master Quest dungeon conversion.

use oottracker::flag_mapping::mq::{dungeon_to_mq_dungeon, Dungeon, MainDungeon, MqDungeon};

#[test]
fn test_dungeon_to_mq_dungeon_main_dungeons() {
    assert_eq!(dungeon_to_mq_dungeon(&Dungeon::Main(MainDungeon::DekuTree)), MqDungeon::DekuTree);
    assert_eq!(
        dungeon_to_mq_dungeon(&Dungeon::Main(MainDungeon::DodongosCavern)),
        MqDungeon::DodongosCavern
    );
    assert_eq!(dungeon_to_mq_dungeon(&Dungeon::Main(MainDungeon::JabuJabu)), MqDungeon::JabuJabu);
    assert_eq!(
        dungeon_to_mq_dungeon(&Dungeon::Main(MainDungeon::ForestTemple)),
        MqDungeon::ForestTemple
    );
    assert_eq!(dungeon_to_mq_dungeon(&Dungeon::Main(MainDungeon::FireTemple)), MqDungeon::FireTemple);
    assert_eq!(dungeon_to_mq_dungeon(&Dungeon::Main(MainDungeon::WaterTemple)), MqDungeon::WaterTemple);
    assert_eq!(
        dungeon_to_mq_dungeon(&Dungeon::Main(MainDungeon::ShadowTemple)),
        MqDungeon::ShadowTemple
    );
    assert_eq!(
        dungeon_to_mq_dungeon(&Dungeon::Main(MainDungeon::SpiritTemple)),
        MqDungeon::SpiritTemple
    );
}

#[test]
fn test_dungeon_to_mq_dungeon_mini_dungeons() {
    assert_eq!(dungeon_to_mq_dungeon(&Dungeon::IceCavern), MqDungeon::IceCavern);
    assert_eq!(dungeon_to_mq_dungeon(&Dungeon::BottomOfTheWell), MqDungeon::BottomOfTheWell);
    assert_eq!(dungeon_to_mq_dungeon(&Dungeon::GerudoTrainingGround), MqDungeon::GerudoTrainingGround);
    assert_eq!(dungeon_to_mq_dungeon(&Dungeon::GanonsCastle), MqDungeon::GanonsCastle);
}

#[test]
fn test_dungeon_to_mq_dungeon_exhaustive() {
    let main = [
        MainDungeon::DekuTree,
        MainDungeon::DodongosCavern,
        MainDungeon::JabuJabu,
        MainDungeon::ForestTemple,
        MainDungeon::FireTemple,
        MainDungeon::WaterTemple,
        MainDungeon::ShadowTemple,
        MainDungeon::SpiritTemple,
    ];
    let mut all: Vec<Dungeon> = main.iter().map(|d| Dungeon::Main(*d)).collect();
    all.extend([
        Dungeon::IceCavern,
        Dungeon::BottomOfTheWell,
        Dungeon::GerudoTrainingGround,
        Dungeon::GanonsCastle,
    ]);
    let converted: Vec<MqDungeon> = all.iter().map(dungeon_to_mq_dungeon).collect();
    // distinct dungeons have distinct settings names
    for i in 0..converted.len() {
        for j in 0..converted.len() {
            assert_eq!(converted[i] == converted[j], i == j);
        }
    }
}

use oottracker::flag_mapping::mq::{
    active_location_count, active_mapped_count, get_active_mapped_locations, get_active_mapping,
    get_active_mappings, get_dungeon_mappings,
};
use oottracker::flag_mapping::{get_all_oot_mappings, oot_mappings};

#[test]
fn active_mappings_follow_activity_flags() {
    let table = oot_mappings(vec!["oot_deku_tree_map_chest", "mq_oot_mq_deku_tree_map_chest", "oot_x"]);
    let all = get_all_oot_mappings(&table);
    let active: Vec<bool> = all.iter().map(|m| !m.location_id.starts_with("mq_oot_")).collect();
    let got = get_active_mappings(&table, &active);
    assert_eq!(got.len(), active.iter().filter(|a| **a).count());
    assert!(got.iter().all(|m| !m.location_id.starts_with("mq_oot_")));
    assert_eq!(active_location_count(&table, &active), got.len());

    let mapped = get_active_mapped_locations(&table, &active);
    assert!(mapped.iter().all(|m| m.is_mapped() && !m.location_id.starts_with("mq_oot_")));
    assert!(!mapped.iter().any(|m| m.location_id == "oot_x"));
    assert_eq!(active_mapped_count(&table, &active), mapped.len());

    assert!(get_active_mapping(&table, "oot_deku_tree_map_chest", true).is_some());
    assert!(get_active_mapping(&table, "oot_deku_tree_map_chest", false).is_none());
    assert!(get_active_mapping(&table, "not_a_location", true).is_none());
}

#[test]
fn dungeon_mappings_by_prefix() {
    let table = oot_mappings(vec!["mq_oot_mq_deku_tree_map_chest", "oot_x"]);
    let deku = get_dungeon_mappings(&table, "oot_deku_tree");
    assert!(!deku.is_empty());
    assert!(deku.iter().all(|m| m.location_id.starts_with("oot_deku_tree")));
    let mq = get_dungeon_mappings(&table, "mq_oot_mq_deku_tree");
    let expected = get_all_oot_mappings(&table)
        .iter()
        .filter(|m| m.location_id.starts_with("mq_oot_mq_deku_tree"))
        .count();
    assert_eq!(mq.len(), expected);
    assert_eq!(expected, 11);
    assert_eq!(get_dungeon_mappings(&table, "").len(), get_all_oot_mappings(&table).len());
    assert!(get_dungeon_mappings(&table, "zzz").is_empty());
}

use oottracker::flag_mapping::mq::is_location_active_for_settings;

#[test]
fn location_activity_for_settings() {
    let mq = vec![MqDungeon::DekuTree, MqDungeon::GanonsCastle];
    // vanilla locations follow the settings' answer
    assert!(is_location_active_for_settings("oot_deku_tree_map_chest", None, &mq, true));
    assert!(!is_location_active_for_settings("oot_deku_tree_map_chest", Some(MqDungeon::DekuTree), &mq, false));
    // MQ locations are active when their dungeon is played in MQ
    assert!(is_location_active_for_settings("mq_oot_mq_deku_tree_map_chest", Some(MqDungeon::DekuTree), &mq, false));
    assert!(!is_location_active_for_settings("mq_oot_mq_fire_temple_map_chest", Some(MqDungeon::FireTemple), &mq, true));
    // the Ganon fallback
    assert!(is_location_active_for_settings("mq_oot_mq_ganon_pot_1", None, &mq, false));
    assert!(!is_location_active_for_settings("mq_oot_mq_ganon_pot_1", None, &vec![MqDungeon::DekuTree], true));
    assert!(!is_location_active_for_settings("mq_oot_mq_unknown_place", None, &mq, true));
}

use oottracker::flag_mapping::mq::location_activity;

#[test]
fn activity_flags_for_a_table() {
    let table = oot_mappings(vec!["oot_x"]);
    let all = get_all_oot_mappings(&table);
    let dungeons: Vec<Option<MqDungeon>> = all
        .iter()
        .map(|m| if m.location_id.starts_with("mq_oot_mq_deku_tree") { Some(MqDungeon::DekuTree) } else { None })
        .collect();
    let settings_active = vec![true; all.len()];
    let flags = location_activity(&table, &dungeons, &vec![], &settings_active);
    let active = get_active_mappings(&table, &flags);
    assert!(!active.iter().any(|m| m.location_id.starts_with("mq_oot_")));
    assert!(active.iter().any(|m| m.location_id == "oot_x"));
    let flags = location_activity(&table, &dungeons, &vec![MqDungeon::DekuTree], &settings_active);
    let active = get_active_mappings(&table, &flags);
    assert!(active.iter().any(|m| m.location_id.starts_with("mq_oot_mq_deku_tree")));
}

use oottracker::flag_mapping::mq::{mq_settings_from_knowledge, Mq};

#[test]
fn mq_settings_follow_knowledge() {
    // No knowledge: the initial settings stand.
    let initial = vec![MqDungeon::FireTemple, MqDungeon::DekuTree];
    assert_eq!(mq_settings_from_knowledge(&initial, &vec![]), vec![MqDungeon::DekuTree, MqDungeon::FireTemple]);
    // Vanilla knowledge removes a dungeon, Master Quest knowledge adds one.
    let known = vec![
        (Dungeon::Main(MainDungeon::DekuTree), Mq::Vanilla),
        (Dungeon::GanonsCastle, Mq::Mq),
    ];
    assert_eq!(mq_settings_from_knowledge(&initial, &known), vec![MqDungeon::FireTemple, MqDungeon::GanonsCastle]);
    // The last entry for a dungeon counts.
    let known = vec![
        (Dungeon::IceCavern, Mq::Mq),
        (Dungeon::IceCavern, Mq::Vanilla),
        (Dungeon::Main(MainDungeon::WaterTemple), Mq::Vanilla),
        (Dungeon::Main(MainDungeon::WaterTemple), Mq::Mq),
    ];
    assert_eq!(mq_settings_from_knowledge(&vec![], &known), vec![MqDungeon::WaterTemple]);
}
