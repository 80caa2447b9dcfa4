//! Tests of the OoT flag mappings and their queries.

use oottracker::flag_mapping::{
    get_all_oot_location_ids, get_mapping, get_mappings_by_flag_type, get_mappings_for_scene,
    oot_location_count, oot_mapped_count, oot_mappings, oot_stub_count, scene, FlagMapping,
    FlagType, OotMappings,
};

/// A sample of OoT location IDs as the world data lists them: some with
/// researched flag mappings, some without.
fn sample_oot_location_ids() -> Vec<&'static str> {
    vec![
        "oot_kf_midos_chest_top_left",
        "oot_kf_midos_chest_top_right",
        "oot_deku_tree_map_chest",
        "oot_deku_tree_slingshot_chest",
        "oot_lw_target_in_woods",
        "mq_oot_mq_deku_tree_map_chest",
    ]
}

fn sample_table() -> OotMappings {
    oot_mappings(sample_oot_location_ids())
}

#[test]
fn flag_mapping_test_flag_type_scene_offset() {
    assert_eq!(FlagType::Chest.scene_offset(), Some(0x00));
    assert_eq!(FlagType::Switch.scene_offset(), Some(0x04));
    assert_eq!(FlagType::RoomClear.scene_offset(), Some(0x08));
    assert_eq!(FlagType::Collectible.scene_offset(), Some(0x0C));
    assert_eq!(FlagType::GoldSkulltula.scene_offset(), None);
    assert_eq!(FlagType::EventChkInf.scene_offset(), None);
}

#[test]
fn flag_mapping_test_flag_type_is_scene_based() {
    assert!(FlagType::Chest.is_scene_based());
    assert!(FlagType::Switch.is_scene_based());
    assert!(!FlagType::GoldSkulltula.is_scene_based());
    assert!(!FlagType::EventChkInf.is_scene_based());
}

#[test]
fn flag_mapping_test_flag_mapping_stub() {
    let stub = FlagMapping::stub("test_location");
    assert!(stub.is_stub());
    assert!(!stub.is_mapped());
    assert_eq!(stub.location_id, "test_location");
    assert!(stub.scene_id.is_none());
    assert!(stub.flag_type.is_none());
    assert!(stub.flag_bit.is_none());
}

#[test]
fn flag_mapping_test_flag_mapping_mapped() {
    let mapped = FlagMapping::mapped("test_chest", scene::DEKU_TREE, FlagType::Chest, 0x01);
    assert!(!mapped.is_stub());
    assert!(mapped.is_mapped());
    assert_eq!(mapped.scene_id, Some(scene::DEKU_TREE));
    assert_eq!(mapped.flag_type, Some(FlagType::Chest));
    assert_eq!(mapped.flag_bit, Some(0x01));
}

#[test]
fn flag_mapping_test_flag_mapping_global() {
    let global = FlagMapping::global("test_skulltula", FlagType::GoldSkulltula, 0x04);
    assert!(!global.is_stub());
    assert!(global.is_mapped());
    assert!(global.scene_id.is_none());
    assert_eq!(global.flag_type, Some(FlagType::GoldSkulltula));
}

#[test]
fn flag_mapping_test_get_mapping_exists() {
    let table = sample_table();
    // This should exist from the world data
    let mappings_count = oot_location_count(&table);
    assert!(
        mappings_count > 0,
        "Should have at least some OoT locations"
    );
}

#[test]
fn flag_mapping_test_get_mapping_not_found() {
    let table = sample_table();
    let result = get_mapping(&table, "nonexistent_location_xyz");
    assert!(result.is_none());
}

#[test]
fn flag_mapping_test_location_counts() {
    let table = sample_table();
    let total = oot_location_count(&table);
    let mapped = oot_mapped_count(&table);
    let stubs = oot_stub_count(&table);

    assert_eq!(total, mapped + stubs);
    // We should have mostly stubs since only some are mapped
    assert!(stubs > 0, "Should have some stub locations");
}

#[test]
fn flag_mapping_test_get_mappings_for_scene() {
    let table = sample_table();
    let deku_tree_mappings: Vec<_> = get_mappings_for_scene(&table, scene::DEKU_TREE);
    // We added several Deku Tree chest mappings
    assert!(
        !deku_tree_mappings.is_empty(),
        "Should have Deku Tree mappings"
    );
    for mapping in &deku_tree_mappings {
        assert_eq!(mapping.scene_id, Some(scene::DEKU_TREE));
    }
}

#[test]
fn flag_mapping_test_get_mappings_by_flag_type() {
    let table = sample_table();
    let chest_mappings: Vec<_> = get_mappings_by_flag_type(&table, FlagType::Chest);
    assert!(!chest_mappings.is_empty(), "Should have chest mappings");
    for mapping in &chest_mappings {
        assert_eq!(mapping.flag_type, Some(FlagType::Chest));
    }
}

#[test]
fn flag_mapping_test_scene_constants() {
    assert_eq!(scene::DEKU_TREE, 0x00);
    assert_eq!(scene::DODONGOS_CAVERN, 0x01);
    assert_eq!(scene::KOKIRI_FOREST, 0x55);
    assert_eq!(scene::MAX_SCENE_ID, 0x64);
    assert_eq!(scene::SCENE_COUNT, 101);
}

#[test]
fn flag_mapping_test_all_location_ids_loaded() {
    let table = sample_table();
    let ids: Vec<_> = get_all_oot_location_ids(&table);
    assert!(!ids.is_empty(), "Should have loaded OoT location IDs");
    // All IDs should start with "oot_" or "mq_oot_" (for Master Quest variants)
    for id in &ids {
        assert!(
            id.starts_with("oot_") || id.starts_with("mq_oot_"),
            "OoT location ID should start with 'oot_' or 'mq_oot_': {}",
            id
        );
    }
}
