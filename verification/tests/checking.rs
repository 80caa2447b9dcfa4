//! Tests of location status checks and summaries.

use oottracker::flag_mapping::checking::{
    check_location_status, evaluate_accessibility, get_all_checked_locations,
    get_all_checked_locations_combo, get_all_checked_locations_filtered,
    get_checked_locations_map, get_checked_locations_summary,
    get_checked_locations_summary_filtered, get_checked_locations_summary_for_knowledge, get_location_logic, summarize_checked_locations,
    Accessibility, CheckStatus, LocationCheckResult, OotFlagState, OotSceneFlags, WorldLocation,
};
use oottracker::flag_mapping::mq::{Dungeon, MainDungeon, Mq, MqDungeon};
use oottracker::flag_mapping::{get_all_oot_mappings, oot_mapped_count, oot_mappings, scene, FlagMapping, FlagType, OotMappings};
use oottracker::mm_flag_mapping::{mm_location_results, mm_mapped_count, mm_mappings};

fn empty_state() -> OotFlagState {
    OotFlagState {
        skipped_locations: vec![],
        scene_flags: vec![OotSceneFlags { chest: 0, switch: 0, room_clear: 0, collectible: 0 }; 101],
        gold_skulltulas: 0,
        event_chk_inf: 0,
        item_get_inf: 0,
        inf_table: 0,
    }
}

fn checking_table() -> OotMappings {
    oot_mappings(vec!["oot_kf_midos_chest_top_left", "oot_deku_tree_map_chest"])
}

fn result(id: &str, status: CheckStatus, accessibility: Accessibility) -> LocationCheckResult {
    LocationCheckResult {
        location_id: id.to_string(),
        status,
        is_mapped: true,
        logic: None,
        accessibility,
    }
}

#[test]
fn chest_flag_decides_status() {
    let chest = FlagMapping::mapped("oot_deku_tree_map_chest", scene::DEKU_TREE, FlagType::Chest, 0x08);
    let mut state = empty_state();
    assert_eq!(check_location_status(&chest, &state), CheckStatus::Unchecked);
    state.scene_flags[0].chest = 0x08;
    assert_eq!(check_location_status(&chest, &state), CheckStatus::Checked);
    state.scene_flags[0].chest = 0x07;
    assert_eq!(check_location_status(&chest, &state), CheckStatus::Unchecked);
}

#[test]
fn each_scene_flag_type_reads_its_own_word() {
    let mut state = empty_state();
    state.scene_flags[5].switch = 0x1;
    state.scene_flags[5].room_clear = 0x2;
    state.scene_flags[5].collectible = 0x4;
    let switch = FlagMapping::mapped("a", 5, FlagType::Switch, 0x1);
    let room = FlagMapping::mapped("b", 5, FlagType::RoomClear, 0x2);
    let coll = FlagMapping::mapped("c", 5, FlagType::Collectible, 0x4);
    let chest = FlagMapping::mapped("d", 5, FlagType::Chest, 0x1);
    assert_eq!(check_location_status(&switch, &state), CheckStatus::Checked);
    assert_eq!(check_location_status(&room, &state), CheckStatus::Checked);
    assert_eq!(check_location_status(&coll, &state), CheckStatus::Checked);
    assert_eq!(check_location_status(&chest, &state), CheckStatus::Unchecked);
}

#[test]
fn scene_beyond_flags_is_unchecked() {
    let state = OotFlagState { scene_flags: vec![], ..empty_state() };
    let chest = FlagMapping::mapped("x", 0x50, FlagType::Chest, 0x1);
    assert_eq!(check_location_status(&chest, &state), CheckStatus::Unchecked);
}

#[test]
fn global_flags_decide_status() {
    let mut state = empty_state();
    state.gold_skulltulas = 0x10;
    state.event_chk_inf = 0x20;
    state.item_get_inf = 0x40;
    state.inf_table = 0x80;
    let gs = FlagMapping::global("gs", FlagType::GoldSkulltula, 0x10);
    let ev = FlagMapping::global("ev", FlagType::EventChkInf, 0x20);
    let it = FlagMapping::global("it", FlagType::ItemGetInf, 0x40);
    let inf = FlagMapping::global("inf", FlagType::InfTable, 0x80);
    let miss = FlagMapping::global("miss", FlagType::InfTable, 0x01);
    assert_eq!(check_location_status(&gs, &state), CheckStatus::Checked);
    assert_eq!(check_location_status(&ev, &state), CheckStatus::Checked);
    assert_eq!(check_location_status(&it, &state), CheckStatus::Checked);
    assert_eq!(check_location_status(&inf, &state), CheckStatus::Checked);
    assert_eq!(check_location_status(&miss, &state), CheckStatus::Unchecked);
}

#[test]
fn unknown_statuses() {
    let mut state = empty_state();
    state.scene_flags[0].chest = 0xffff_ffff;
    let stub = FlagMapping::stub("stub");
    let sceneless_chest = FlagMapping::global("c", FlagType::Chest, 0x1);
    let shop = FlagMapping::mapped("s", 0, FlagType::Shop, 0x1);
    let song = FlagMapping::global("song", FlagType::Song, 0x1);
    assert_eq!(check_location_status(&stub, &state), CheckStatus::Unknown);
    assert_eq!(check_location_status(&sceneless_chest, &state), CheckStatus::Unknown);
    assert_eq!(check_location_status(&shop, &state), CheckStatus::Unknown);
    assert_eq!(check_location_status(&song, &state), CheckStatus::Unknown);
}

#[test]
fn skipped_wins_over_flags() {
    let mut state = empty_state();
    state.scene_flags[0].chest = 0x08;
    state.skipped_locations = vec!["other".to_string(), "oot_deku_tree_map_chest".to_string()];
    let chest = FlagMapping::mapped("oot_deku_tree_map_chest", scene::DEKU_TREE, FlagType::Chest, 0x08);
    assert_eq!(check_location_status(&chest, &state), CheckStatus::Skipped);
    let stub = FlagMapping::stub("other");
    assert_eq!(check_location_status(&stub, &state), CheckStatus::Skipped);
}

fn world() -> Vec<WorldLocation> {
    vec![
        WorldLocation {
            location_id: "no_region".to_string(),
            logic: Some("true".to_string()),
            region_found: false,
            region_reachable: true,
            logic_result: Some(true),
        },
        WorldLocation {
            location_id: "unreachable".to_string(),
            logic: None,
            region_found: true,
            region_reachable: false,
            logic_result: None,
        },
        WorldLocation {
            location_id: "no_logic".to_string(),
            logic: None,
            region_found: true,
            region_reachable: true,
            logic_result: None,
        },
        WorldLocation {
            location_id: "logic_true".to_string(),
            logic: Some("has(BOW)".to_string()),
            region_found: true,
            region_reachable: true,
            logic_result: Some(true),
        },
        WorldLocation {
            location_id: "logic_false".to_string(),
            logic: Some("has(HOOKSHOT)".to_string()),
            region_found: true,
            region_reachable: true,
            logic_result: Some(false),
        },
        WorldLocation {
            location_id: "logic_error".to_string(),
            logic: Some("has(".to_string()),
            region_found: true,
            region_reachable: true,
            logic_result: None,
        },
        WorldLocation {
            location_id: "logic_true".to_string(),
            logic: Some("later duplicate".to_string()),
            region_found: true,
            region_reachable: false,
            logic_result: Some(false),
        },
    ]
}

#[test]
fn accessibility_from_world_data() {
    let w = world();
    assert_eq!(evaluate_accessibility(&w, "missing"), Accessibility::Unknown);
    assert_eq!(evaluate_accessibility(&w, "no_region"), Accessibility::Unknown);
    assert_eq!(evaluate_accessibility(&w, "unreachable"), Accessibility::Unavailable);
    assert_eq!(evaluate_accessibility(&w, "no_logic"), Accessibility::Available);
    assert_eq!(evaluate_accessibility(&w, "logic_true"), Accessibility::Available);
    assert_eq!(evaluate_accessibility(&w, "logic_false"), Accessibility::Unavailable);
    assert_eq!(evaluate_accessibility(&w, "logic_error"), Accessibility::Unknown);
    assert_eq!(Accessibility::default(), Accessibility::Unknown);
}

#[test]
fn location_logic_from_world_data() {
    let w = world();
    assert_eq!(get_location_logic(&w, "logic_true"), Some("has(BOW)".to_string()));
    assert_eq!(get_location_logic(&w, "no_logic"), None);
    assert_eq!(get_location_logic(&w, "missing"), None);
}

#[test]
fn all_checked_locations_cover_mapped_locations() {
    let table = checking_table();
    let mut state = empty_state();
    state.scene_flags[0].chest = 0x08;
    let w = world();
    let results = get_all_checked_locations(&table, &state, &w);
    assert_eq!(results.len(), oot_mapped_count(&table));
    assert!(results.iter().all(|r| r.is_mapped));
    assert!(!results.iter().any(|r| r.location_id == "oot_kf_midos_chest_top_left"));
    let map_chest = results.iter().find(|r| r.location_id == "oot_deku_tree_map_chest").unwrap();
    assert_eq!(map_chest.status, CheckStatus::Checked);
    assert_eq!(map_chest.accessibility, Accessibility::Unknown);
    assert_eq!(map_chest.logic, None);

    let statuses = get_checked_locations_map(&table, &state);
    assert_eq!(statuses.len(), results.len());
    for (pair, r) in statuses.iter().zip(results.iter()) {
        assert_eq!(pair.0, r.location_id);
        assert_eq!(pair.1, r.status);
    }
}

#[test]
fn test_get_all_checked_locations_combo_oot_only() {
    let table = checking_table();
    let locations = get_all_checked_locations_combo(&table, &empty_state(), &vec![], None);
    assert!(!locations.is_empty(), "Should have some locations");
    for loc in &locations {
        let is_oot = loc.location_id.starts_with("oot_") || loc.location_id.starts_with("mq_oot_");
        assert!(is_oot, "Without MM save, all locations should be OoT: {}", loc.location_id);
        assert!(!loc.location_id.starts_with("mm_"));
    }
}

fn mm_results() -> Vec<LocationCheckResult> {
    let mm_table = mm_mappings(vec!["mm_clock_town_owl_statue"]);
    let statuses = vec![CheckStatus::Unchecked; mm_mapped_count(&mm_table)];
    mm_location_results(&mm_table, &vec![], &statuses)
}

#[test]
fn test_get_all_checked_locations_combo_includes_mm_when_present() {
    let table = checking_table();
    let locations = get_all_checked_locations_combo(&table, &empty_state(), &vec![], Some(mm_results()));
    assert!(locations.iter().any(|l| l.location_id.starts_with("oot_")));
    assert!(locations.iter().any(|l| l.location_id.starts_with("mm_")));
}

#[test]
fn test_get_all_checked_locations_combo_more_locations_with_mm() {
    let table = checking_table();
    let oot_only = get_all_checked_locations_combo(&table, &empty_state(), &vec![], None).len();
    let combo = get_all_checked_locations_combo(&table, &empty_state(), &vec![], Some(mm_results())).len();
    assert!(combo > oot_only);
    assert_eq!(combo, oot_only + 10);
}

#[test]
fn mm_results_have_unknown_accessibility() {
    let results = mm_results();
    assert_eq!(results.len(), 10);
    for r in &results {
        assert!(r.location_id.ends_with("_owl_statue"));
        assert_eq!(r.status, CheckStatus::Unchecked);
        assert!(r.is_mapped);
        assert_eq!(r.accessibility, Accessibility::Unknown);
    }
}

#[test]
fn test_get_checked_locations_summary_includes_mm() {
    let table = checking_table();
    let summary = get_checked_locations_summary(&table, &empty_state(), &vec![], Some(mm_results()), 0x55);
    assert!(summary.locations.iter().any(|l| l.location_id.starts_with("oot_")));
    assert!(summary.locations.iter().any(|l| l.location_id.starts_with("mm_")));
    assert_eq!(summary.total_mapped, summary.locations.len());
    assert_eq!(
        summary.checked_count + summary.unchecked_count + summary.unknown_count,
        summary.total_mapped
    );
    assert_eq!(summary.current_scene_id, Some(0x55));
    assert_eq!(summary.current_game.as_deref(), Some("oot"));
}

#[test]
fn summary_counts() {
    let locations = vec![
        result("a", CheckStatus::Checked, Accessibility::Available),
        result("b", CheckStatus::Unchecked, Accessibility::Available),
        result("c", CheckStatus::Unchecked, Accessibility::Unavailable),
        result("d", CheckStatus::Unchecked, Accessibility::Unknown),
        result("e", CheckStatus::Skipped, Accessibility::Available),
        result("f", CheckStatus::Unknown, Accessibility::Unavailable),
        result("g", CheckStatus::Unchecked, Accessibility::Available),
    ];
    let summary = summarize_checked_locations(locations, 0x10, false);
    assert_eq!(summary.total_mapped, 7);
    assert_eq!(summary.checked_count, 1);
    assert_eq!(summary.unchecked_count, 4);
    assert_eq!(summary.skipped_count, 1);
    assert_eq!(summary.unknown_count, 1);
    assert_eq!(summary.available_count, 2);
    assert_eq!(summary.unavailable_count, 1);
    assert_eq!(summary.locations.len(), 7);
    assert_eq!(summary.current_scene_id, Some(0x10));
    assert_eq!(summary.current_game.as_deref(), Some("oot"));
}

#[test]
fn summary_current_game() {
    assert_eq!(summarize_checked_locations(vec![], 0xFF, true).current_game, None);
    assert_eq!(summarize_checked_locations(vec![], 0xFF, false).current_game.as_deref(), Some("oot"));
    assert_eq!(summarize_checked_locations(vec![], 0x20, true).current_game.as_deref(), Some("oot"));
    let empty = summarize_checked_locations(vec![], 0, false);
    assert_eq!(empty.total_mapped, 0);
    assert_eq!(empty.checked_count + empty.unchecked_count + empty.skipped_count + empty.unknown_count, 0);
}

#[test]
fn filtered_locations_keep_active_ones() {
    let table = checking_table();
    let entries = get_all_oot_mappings(&table);
    let active: Vec<bool> = (0..entries.len()).map(|i| i % 2 == 0).collect();
    let filtered = get_all_checked_locations_filtered(&table, &empty_state(), &vec![], &active);
    let expected: Vec<String> = entries
        .iter()
        .enumerate()
        .filter(|(i, m)| i % 2 == 0 && m.is_mapped())
        .map(|(_, m)| m.location_id.to_string())
        .collect();
    let got: Vec<String> = filtered.iter().map(|r| r.location_id.clone()).collect();
    assert_eq!(got, expected);
    assert!(!got.is_empty());

    let none = vec![false; entries.len()];
    let summary = get_checked_locations_summary_filtered(&table, &empty_state(), &vec![], &none, 0xFF, true);
    assert_eq!(summary.total_mapped, 0);
    assert_eq!(summary.current_game, None);

    let every = vec![true; entries.len()];
    let summary = get_checked_locations_summary_filtered(&table, &empty_state(), &vec![], &every, 0xFF, false);
    assert_eq!(summary.total_mapped, oot_mapped_count(&table));
}

#[test]
fn summary_for_knowledge_drops_mq_deku_tree_when_vanilla() {
    let table = checking_table();
    let entries = get_all_oot_mappings(&table);
    let dungeons: Vec<Option<MqDungeon>> = entries
        .iter()
        .map(|m| if m.location_id.starts_with("mq_oot_mq_deku_tree") { Some(MqDungeon::DekuTree) } else { None })
        .collect();
    let settings_active: Vec<bool> = entries.iter().map(|m| !m.location_id.starts_with("mq_oot_")).collect();

    // The initial settings play the Deku Tree in Master Quest, the knowledge says vanilla.
    let known = vec![(Dungeon::Main(MainDungeon::DekuTree), Mq::Vanilla)];
    let summary = get_checked_locations_summary_for_knowledge(
        &table, &empty_state(), &vec![], &vec![MqDungeon::DekuTree], &known, &dungeons, &settings_active, 0, false,
    );
    assert!(!summary.locations.iter().any(|r| r.location_id.starts_with("mq_oot_mq_deku_tree")));
    assert!(summary.locations.iter().any(|r| r.location_id == "oot_deku_tree_map_chest"));
    assert_eq!(summary.total_mapped, summary.locations.len());
    assert_eq!(
        summary.checked_count + summary.unchecked_count + summary.skipped_count + summary.unknown_count,
        summary.total_mapped
    );

    // Knowledge of a Master Quest Deku Tree brings its locations in.
    let known = vec![(Dungeon::Main(MainDungeon::DekuTree), Mq::Mq)];
    let summary = get_checked_locations_summary_for_knowledge(
        &table, &empty_state(), &vec![], &vec![], &known, &dungeons, &settings_active, 0, false,
    );
    let mq_count = summary.locations.iter().filter(|r| r.location_id.starts_with("mq_oot_mq_deku_tree")).count();
    let expected = entries
        .iter()
        .filter(|m| m.location_id.starts_with("mq_oot_mq_deku_tree") && m.is_mapped())
        .count();
    assert!(mq_count > 0);
    assert_eq!(mq_count, expected);
}
