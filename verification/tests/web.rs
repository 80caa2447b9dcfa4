//! Tests of the web service rules: PJ64 defaults, room names, room access,
//! origin validation, world classes and cell IDs.

use oottracker::web::{
    cell_id_from_index, check_auth, is_origin_allowed, is_valid_room_name, origin_matches,
    split_commas, world_class, DEFAULT_PJ64_ROOM, TCP_PORT,
};

#[test]
fn test_default_room_name() {
    assert_eq!(DEFAULT_PJ64_ROOM, "pj64");
}

#[test]
fn test_tcp_port() {
    assert_eq!(TCP_PORT, 24801);
}

#[test]
fn test_no_origin_is_allowed() {
    assert!(is_origin_allowed(None, None));
}

#[test]
fn test_default_allowed_origins() {
    let allowed = [
        "http://localhost",
        "http://localhost:8000",
        "http://127.0.0.1",
        "http://127.0.0.1:8000",
        "https://oottracker.fenhl.net",
    ];
    for origin in allowed {
        assert!(is_origin_allowed(Some(origin), None), "Origin '{}' should be allowed", origin);
    }
}

#[test]
fn test_localhost_with_different_ports() {
    assert!(is_origin_allowed(Some("http://localhost:3000"), None));
    assert!(is_origin_allowed(Some("http://localhost:5000"), None));
    assert!(is_origin_allowed(Some("http://localhost:9090"), None));
    assert!(is_origin_allowed(Some("http://127.0.0.1:3000"), None));
    assert!(is_origin_allowed(Some("http://127.0.0.1:5000"), None));
}

#[test]
fn test_forbidden_origins() {
    let forbidden = [
        "http://evil.com",
        "https://malicious-site.org",
        "http://localhost.evil.com",
        "http://not-localhost",
        "http://192.168.1.1",
        "https://example.com",
    ];
    for origin in forbidden {
        assert!(!is_origin_allowed(Some(origin), None), "Origin '{}' should be forbidden", origin);
    }
}

#[test]
fn test_env_var_override() {
    let configured = Some("https://custom.example.com,http://test.local");
    assert!(is_origin_allowed(Some("https://custom.example.com"), configured));
    assert!(is_origin_allowed(Some("http://test.local"), configured));
    assert!(is_origin_allowed(Some("http://test.local:8080"), configured));
    // the configured list replaces the defaults
    assert!(!is_origin_allowed(Some("http://localhost"), configured));
    assert!(!is_origin_allowed(Some("https://oottracker.fenhl.net"), configured));
}

#[test]
fn test_env_var_with_whitespace() {
    let configured = Some("  https://spaced.example.com  ,  http://another.test  ");
    assert!(is_origin_allowed(Some("https://spaced.example.com"), configured));
    assert!(is_origin_allowed(Some("http://another.test"), configured));
}

#[test]
fn test_origin_case_sensitivity() {
    assert!(!is_origin_allowed(Some("HTTP://localhost"), None));
    assert!(!is_origin_allowed(Some("http://LOCALHOST"), None));
    assert!(!is_origin_allowed(Some("HTTPS://oottracker.fenhl.net"), None));
}

#[test]
fn origin_matches_requires_colon_after_prefix() {
    assert!(origin_matches("http://a", "http://a"));
    assert!(origin_matches("http://a:1", "http://a"));
    assert!(!origin_matches("http://ab", "http://a"));
    assert!(!origin_matches("http://a", "http://a:1"));
    assert!(!origin_matches("", "http://a"));
}

#[test]
fn split_commas_matches_str_split() {
    let cases = ["", "a", "a,b", ",a,", "a,,b", "x, y ,z", ",,"];
    for case in cases {
        let expected: Vec<&str> = case.split(',').collect();
        assert_eq!(split_commas(case), expected, "splitting {:?}", case);
    }
}

#[test]
fn configured_entries_are_trimmed() {
    // without trimming, " http://b" would not match
    assert!(is_origin_allowed(Some("http://b"), Some("http://a, http://b")));
    assert!(is_origin_allowed(Some("http://b"), Some("\thttp://b\n")));
    assert!(!is_origin_allowed(Some("http://c"), Some("http://a, http://b")));
    assert!(!is_origin_allowed(Some("http://a"), Some("")));
}

#[test]
fn room_names() {
    assert!(is_valid_room_name("pj64"));
    assert!(is_valid_room_name("a"));
    assert!(is_valid_room_name("my-room-2"));
    assert!(is_valid_room_name("0-0"));
    assert!(!is_valid_room_name(""));
    assert!(!is_valid_room_name("-room"));
    assert!(!is_valid_room_name("room-"));
    assert!(!is_valid_room_name("my--room"));
    assert!(!is_valid_room_name("Room"));
    assert!(!is_valid_room_name("my_room"));
    assert!(!is_valid_room_name("my room"));
    assert!(!is_valid_room_name("-"));
    assert!(!is_valid_room_name("r\u{e4}um"));
}

#[test]
fn room_access() {
    assert!(check_auth(None, None));
    assert!(check_auth(None, Some("anything")));
    assert!(check_auth(Some("secret"), Some("secret")));
    assert!(!check_auth(Some("secret"), Some("guess")));
    assert!(!check_auth(Some("secret"), None));
}

#[test]
fn test_world_class_player_1() {
    assert_eq!(world_class(1), Some("power"));
}

#[test]
fn test_world_class_player_2() {
    assert_eq!(world_class(2), Some("wisdom"));
}

#[test]
fn test_world_class_player_3() {
    assert_eq!(world_class(3), Some("courage"));
}

#[test]
fn test_world_class_player_4_and_above() {
    assert_eq!(world_class(4), None);
    assert_eq!(world_class(5), None);
}

#[test]
fn test_cell_id_from_index() {
    let indices: Vec<usize> = vec![0, 1, 42, 100, 255];
    for idx in indices {
        let cell_id = cell_id_from_index(idx).expect("index should fit in u8");
        assert_eq!(cell_id as usize, idx);
    }
}

#[test]
#[should_panic(expected = "too many cells")]
fn test_cell_id_overflow_panics() {
    let _: u8 = cell_id_from_index(256).expect("too many cells");
}

use oottracker::web::{cell_index, cell_updates, pj64_step, Pj64PacketKind, Pj64Step};

#[test]
fn test_cell_id_u8_conversion() {
    for i in 0u8..=255 {
        let cell_id: u8 = i;
        let index: usize = cell_index(cell_id);
        assert_eq!(index, i as usize);
    }
}

#[test]
fn test_update_detection_simulation() {
    let old_cells = vec![("a", "normal"), ("b", "normal"), ("c", "normal")];
    let new_cells = vec![("a", "normal"), ("b", "dimmed"), ("c", "normal")];
    assert_eq!(cell_updates(&old_cells, &new_cells), vec![1u8], "Only cell at index 1 should need update");
}

#[test]
fn test_all_cells_changed() {
    let old_cells = vec![("a", "dimmed"), ("b", "dimmed")];
    let new_cells = vec![("a", "normal"), ("b", "normal")];
    assert_eq!(cell_updates(&old_cells, &new_cells), vec![0u8, 1], "Both cells should need updates");
}

#[test]
fn test_no_cells_changed() {
    let old_cells = vec![("x", "normal"), ("y", "normal")];
    let new_cells = old_cells.clone();
    assert!(cell_updates(&old_cells, &new_cells).is_empty(), "No updates should be needed");
}

#[test]
fn cell_updates_compare_up_to_the_shorter_list() {
    let old_cells: Vec<u32> = (0..300).collect();
    let mut new_cells: Vec<u32> = (0..290).collect();
    new_cells[3] = 7;
    new_cells[255] = 0;
    assert_eq!(cell_updates(&old_cells, &new_cells), vec![3u8, 255]);
}

#[test]
fn pj64_packet_steps() {
    assert_eq!(pj64_step(Pj64PacketKind::RamInit { gameplay: true }), Pj64Step::Apply { update_knowledge: true });
    assert_eq!(pj64_step(Pj64PacketKind::RamInit { gameplay: false }), Pj64Step::Ignore);
    assert_eq!(pj64_step(Pj64PacketKind::KnowledgeInit), Pj64Step::Apply { update_knowledge: false });
    for p in [
        Pj64PacketKind::SaveInit,
        Pj64PacketKind::SaveDelta,
        Pj64PacketKind::ModelInit,
        Pj64PacketKind::ModelDelta,
        Pj64PacketKind::MmRamInit,
    ] {
        assert_eq!(pj64_step(p), Pj64Step::Apply { update_knowledge: true });
    }
    assert_eq!(pj64_step(Pj64PacketKind::UpdateCell), Pj64Step::Unexpected);
    assert_eq!(pj64_step(Pj64PacketKind::Goodbye), Pj64Step::Stop);
}

#[test]
fn configured_origins_are_trimmed_of_unicode_whitespace() {
    let configured = Some(" http://a.example ,\u{3000}http://b.example\t\n, \u{a0}\u{2009}http://c.example\u{85}");
    assert!(is_origin_allowed(Some("http://a.example"), configured));
    assert!(is_origin_allowed(Some("http://b.example"), configured));
    assert!(is_origin_allowed(Some("http://c.example"), configured));
    assert!(is_origin_allowed(Some("http://c.example:8080"), configured));
    assert!(!is_origin_allowed(Some("http://d.example"), configured));
    // whitespace inside an entry stays
    assert!(!is_origin_allowed(Some("http://e.example"), Some("http://e .example")));
}
