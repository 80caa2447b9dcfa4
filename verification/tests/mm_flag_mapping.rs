//! Tests of the MM flag mappings and their queries.

use oottracker::mm_flag_mapping::{
    get_all_mm_location_ids, get_mm_mapping, get_mm_mappings_by_flag_type,
    get_mm_mappings_for_scene, mm_location_count, mm_mapped_count, mm_mappings, mm_scene,
    mm_stub_count, owl_bits, MmFlagMapping, MmFlagType, MmMappings,
};

/// A sample of MM location IDs as the world data lists them.
fn sample_mm_location_ids() -> Vec<&'static str> {
    vec![
        "mm_woodfall_temple_compass_chest",
        "mm_clock_town_owl_statue",
        "mm_milk_road_owl_statue",
        "mm_southern_swamp_owl_statue",
        "mm_woodfall_owl_statue",
        "mm_mountain_village_owl_statue",
        "mm_snowhead_owl_statue",
        "mm_zora_cape_owl_statue",
        "mm_great_bay_coast_owl_statue",
        "mm_ikana_canyon_owl_statue",
        "mm_stone_tower_owl_statue",
        "mm_clock_town_bank_reward_1",
    ]
}

fn sample_mm_table() -> MmMappings {
    mm_mappings(sample_mm_location_ids())
}



#[test]
fn test_mm_flag_type_scene_offset() {
    assert_eq!(MmFlagType::Chest.scene_offset(), Some(0x00));
    assert_eq!(MmFlagType::Switch0.scene_offset(), Some(0x04));
    assert_eq!(MmFlagType::Switch1.scene_offset(), Some(0x08));
    assert_eq!(MmFlagType::ClearedRoom.scene_offset(), Some(0x0C));
    assert_eq!(MmFlagType::Collectible.scene_offset(), Some(0x10));

    // Global flags should return None
    assert_eq!(MmFlagType::GoldSkulltula.scene_offset(), None);
    assert_eq!(MmFlagType::EventInf.scene_offset(), None);
    assert_eq!(MmFlagType::WeekEventReg.scene_offset(), None);
    assert_eq!(MmFlagType::StrayFairy.scene_offset(), None);
}

#[test]
fn test_mm_flag_type_is_scene_based() {
    assert!(MmFlagType::Chest.is_scene_based());
    assert!(MmFlagType::Switch0.is_scene_based());
    assert!(MmFlagType::Switch1.is_scene_based());
    assert!(MmFlagType::ClearedRoom.is_scene_based());
    assert!(MmFlagType::Collectible.is_scene_based());

    assert!(!MmFlagType::GoldSkulltula.is_scene_based());
    assert!(!MmFlagType::EventInf.is_scene_based());
    assert!(!MmFlagType::Boss.is_scene_based());
}

#[test]
fn test_mm_flag_mapping_stub() {
    let stub = MmFlagMapping::stub("test_location");
    assert!(stub.is_stub());
    assert!(!stub.is_mapped());
    assert_eq!(stub.location_id, "test_location");
    assert_eq!(stub.scene_id, None);
    assert_eq!(stub.flag_type, None);
    assert_eq!(stub.flag_bit, None);
}

#[test]
fn test_mm_flag_mapping_mapped() {
    let mapped = MmFlagMapping::mapped(
        "test_location",
        mm_scene::WOODFALL_TEMPLE,
        MmFlagType::Chest,
        0x01,
    );
    assert!(!mapped.is_stub());
    assert!(mapped.is_mapped());
    assert_eq!(mapped.location_id, "test_location");
    assert_eq!(mapped.scene_id, Some(mm_scene::WOODFALL_TEMPLE));
    assert_eq!(mapped.flag_type, Some(MmFlagType::Chest));
    assert_eq!(mapped.flag_bit, Some(0x01));
}

#[test]
fn test_mm_flag_mapping_global() {
    let global = MmFlagMapping::global("test_global", MmFlagType::EventInf, 0x10);
    assert!(!global.is_stub());
    assert!(global.is_mapped());
    assert_eq!(global.scene_id, None);
    assert_eq!(global.flag_type, Some(MmFlagType::EventInf));
}

#[test]
fn test_mm_mappings_loaded() {
    let table = sample_mm_table();
    // Verify that MM_MAPPINGS is populated from world data
    let count = mm_location_count(&table);
    assert!(
        count > 0,
        "MM_MAPPINGS should have locations from world data"
    );

    // All should be stubs initially since no mappings are added yet
    let stub_count = mm_stub_count(&table);
    let mapped_count = mm_mapped_count(&table);

    assert_eq!(
        stub_count + mapped_count,
        count,
        "stub + mapped should equal total"
    );
}

#[test]
fn test_mm_location_ids_loaded() {
    let table = sample_mm_table();
    // Verify that MM_LOCATION_IDS is populated
    let ids: Vec<_> = get_all_mm_location_ids(&table);
    assert!(!ids.is_empty(), "Should have MM location IDs");

    // All IDs should be unique
    let mut unique_ids = ids.clone();
    unique_ids.sort();
    unique_ids.dedup();
    assert_eq!(
        ids.len(),
        unique_ids.len(),
        "All location IDs should be unique"
    );
}

#[test]
fn test_get_mm_mapping() {
    let table = sample_mm_table();
    // Try to get a mapping - we know at least some MM locations exist
    let ids: Vec<_> = get_all_mm_location_ids(&table);
    if !ids.is_empty() {
        let first_id = ids[0];
        let mapping = get_mm_mapping(&table, first_id);
        assert!(
            mapping.is_some(),
            "Should find mapping for known location ID"
        );
        assert_eq!(mapping.unwrap().location_id, first_id);
    }

    // Non-existent location should return None
    assert!(get_mm_mapping(&table, "non_existent_location_xyz").is_none());
}

#[test]
fn mm_flag_mapping_test_scene_constants() {
    // Verify scene constants are reasonable
    assert!(mm_scene::WOODFALL_TEMPLE < mm_scene::MAX_SCENE_ID);
    assert!(mm_scene::SNOWHEAD_TEMPLE < mm_scene::MAX_SCENE_ID);
    assert!(mm_scene::GREAT_BAY_TEMPLE < mm_scene::MAX_SCENE_ID);
    assert!(mm_scene::STONE_TOWER_TEMPLE < mm_scene::MAX_SCENE_ID);
    assert!(mm_scene::CLOCK_TOWN_SOUTH < mm_scene::MAX_SCENE_ID);
}

#[test]
fn test_get_mm_mappings_by_flag_type() {
    let table = sample_mm_table();
    // This should work even if all are stubs (returns empty iterator)
    let chest_mappings: Vec<_> = get_mm_mappings_by_flag_type(&table, MmFlagType::Chest);
    // Initially all are stubs, so this should be empty
    assert!(
        chest_mappings.is_empty() || chest_mappings.iter().all(|m| m.is_mapped()),
        "All returned mappings should be mapped"
    );
}

#[test]
fn test_get_mm_mappings_for_scene() {
    let table = sample_mm_table();
    // This should work even if all are stubs (returns empty iterator)
    let woodfall_mappings: Vec<_> =
        get_mm_mappings_for_scene(&table, mm_scene::WOODFALL_TEMPLE);
    // Initially all are stubs with no scene_id, so this should be empty
    for mapping in &woodfall_mappings {
        assert_eq!(mapping.scene_id, Some(mm_scene::WOODFALL_TEMPLE));
    }
}

#[test]
fn test_owl_statue_mappings() {
    let table = sample_mm_table();
    // All 10 owl statues should be mapped
    let owl_mappings: Vec<_> = get_mm_mappings_by_flag_type(&table, MmFlagType::OwlStatue);
    assert_eq!(owl_mappings.len(), 10, "Should have 10 owl statue mappings");

    // Verify all owl statues are properly mapped
    let owl_ids = [
        "mm_clock_town_owl_statue",
        "mm_milk_road_owl_statue",
        "mm_southern_swamp_owl_statue",
        "mm_woodfall_owl_statue",
        "mm_mountain_village_owl_statue",
        "mm_snowhead_owl_statue",
        "mm_zora_cape_owl_statue",
        "mm_great_bay_coast_owl_statue",
        "mm_ikana_canyon_owl_statue",
        "mm_stone_tower_owl_statue",
    ];

    for owl_id in owl_ids {
        let mapping = get_mm_mapping(&table, owl_id);
        assert!(mapping.is_some(), "Should find mapping for {}", owl_id);

        let m = mapping.unwrap();
        assert!(m.is_mapped(), "{} should be mapped", owl_id);
        assert_eq!(
            m.flag_type,
            Some(MmFlagType::OwlStatue),
            "{} should have OwlStatue flag type",
            owl_id
        );
        assert!(
            m.scene_id.is_none(),
            "{} should be a global flag (no scene_id)",
            owl_id
        );
    }
}

#[test]
fn test_owl_statue_flag_bits() {
    let table = sample_mm_table();
    // Verify each owl statue has a unique, correct bit mask
    let expected_bits = [
        ("mm_clock_town_owl_statue", 1u32 << owl_bits::OWL_CLOCK_TOWN),
        ("mm_milk_road_owl_statue", 1u32 << owl_bits::OWL_MILK_ROAD),
        (
            "mm_southern_swamp_owl_statue",
            1u32 << owl_bits::OWL_SOUTHERN_SWAMP,
        ),
        ("mm_woodfall_owl_statue", 1u32 << owl_bits::OWL_WOODFALL),
        (
            "mm_mountain_village_owl_statue",
            1u32 << owl_bits::OWL_MOUNTAIN_VILLAGE,
        ),
        ("mm_snowhead_owl_statue", 1u32 << owl_bits::OWL_SNOWHEAD),
        ("mm_zora_cape_owl_statue", 1u32 << owl_bits::OWL_ZORA_CAPE),
        (
            "mm_great_bay_coast_owl_statue",
            1u32 << owl_bits::OWL_GREAT_BAY,
        ),
        (
            "mm_ikana_canyon_owl_statue",
            1u32 << owl_bits::OWL_IKANA_CANYON,
        ),
        ("mm_stone_tower_owl_statue", 1u32 << owl_bits::OWL_STONE_TOWER),
    ];

    for (loc_id, expected_bit) in expected_bits {
        let mapping = get_mm_mapping(&table, loc_id).expect("Mapping should exist");
        assert_eq!(
            mapping.flag_bit,
            Some(expected_bit),
            "{} should have flag_bit {}",
            loc_id,
            expected_bit
        );
    }
}
