//! Tests of game detection from RAM and ROM data.

use oottracker::game_detection::{
    detect_game_type_from_rom, is_mm_dungeon_scene, is_oot_dungeon_scene, is_valid_mm_scene,
    is_valid_oot_scene, mm_scenes, oot_scenes, ActiveGame, GameDetectionResult, GameDetector,
    GameType, TransitionState, OOTMM_MM_CONTEXT_ADDR, OOTMM_OOT_CONTEXT_ADDR, RAM_SIZE,
    RDRAM_BASE,
};


#[test]
fn test_game_type_properties() {
    assert!(GameType::StandaloneOoT.is_standalone());
    assert!(GameType::StandaloneMM.is_standalone());
    assert!(!GameType::OoTMMCombo.is_standalone());

    assert!(!GameType::StandaloneOoT.is_combo());
    assert!(!GameType::StandaloneMM.is_combo());
    assert!(GameType::OoTMMCombo.is_combo());

    assert!(GameType::StandaloneOoT.has_oot());
    assert!(!GameType::StandaloneOoT.has_mm());
    assert!(!GameType::StandaloneMM.has_oot());
    assert!(GameType::StandaloneMM.has_mm());
    assert!(GameType::OoTMMCombo.has_oot());
    assert!(GameType::OoTMMCombo.has_mm());
}

#[test]
fn test_active_game_properties() {
    assert!(ActiveGame::OcarinaOfTime.is_oot());
    assert!(!ActiveGame::OcarinaOfTime.is_mm());
    assert!(!ActiveGame::MajorasMask.is_oot());
    assert!(ActiveGame::MajorasMask.is_mm());
}

#[test]
fn test_transition_state_properties() {
    assert!(!TransitionState::Stable.is_transitioning());
    assert!(TransitionState::OotToMm.is_transitioning());
    assert!(TransitionState::MmToOot.is_transitioning());

    assert_eq!(TransitionState::Stable.source_game(), None);
    assert_eq!(
        TransitionState::OotToMm.source_game(),
        Some(ActiveGame::OcarinaOfTime)
    );
    assert_eq!(
        TransitionState::MmToOot.source_game(),
        Some(ActiveGame::MajorasMask)
    );

    assert_eq!(TransitionState::Stable.destination_game(), None);
    assert_eq!(
        TransitionState::OotToMm.destination_game(),
        Some(ActiveGame::MajorasMask)
    );
    assert_eq!(
        TransitionState::MmToOot.destination_game(),
        Some(ActiveGame::OcarinaOfTime)
    );
}

#[test]
fn test_game_detection_result_constructors() {
    let oot_result = GameDetectionResult::standalone_oot(0x55);
    assert_eq!(oot_result.game_type, GameType::StandaloneOoT);
    assert_eq!(oot_result.active_game, ActiveGame::OcarinaOfTime);
    assert_eq!(oot_result.scene_id, 0x55);
    assert_eq!(oot_result.confidence_percent, 100);

    let mm_result = GameDetectionResult::standalone_mm(0x6E);
    assert_eq!(mm_result.game_type, GameType::StandaloneMM);
    assert_eq!(mm_result.active_game, ActiveGame::MajorasMask);
    assert_eq!(mm_result.scene_id, 0x6E);

    let combo_result =
        GameDetectionResult::combo(ActiveGame::OcarinaOfTime, 0x51, TransitionState::Stable);
    assert_eq!(combo_result.game_type, GameType::OoTMMCombo);
    assert!(combo_result.is_in_oot());
    assert!(!combo_result.is_in_mm());
}

#[test]
fn test_game_detector_initialization() {
    let detector = GameDetector::new();
    assert_eq!(detector.game_type(), GameType::StandaloneOoT);
    assert_eq!(detector.active_game(), ActiveGame::OcarinaOfTime);
    assert_eq!(detector.transition_state(), TransitionState::Stable);

    let mm_detector = GameDetector::with_game_type(GameType::StandaloneMM);
    assert_eq!(mm_detector.game_type(), GameType::StandaloneMM);
    assert_eq!(mm_detector.active_game(), ActiveGame::MajorasMask);

    let combo_detector = GameDetector::with_game_type(GameType::OoTMMCombo);
    assert_eq!(combo_detector.game_type(), GameType::OoTMMCombo);
    assert_eq!(combo_detector.active_game(), ActiveGame::OcarinaOfTime);
}

#[test]
fn test_game_detector_set_game_type() {
    let mut detector = GameDetector::new();

    detector.set_game_type(GameType::StandaloneMM);
    assert_eq!(detector.game_type(), GameType::StandaloneMM);
    assert_eq!(detector.active_game(), ActiveGame::MajorasMask);

    detector.set_game_type(GameType::OoTMMCombo);
    assert_eq!(detector.game_type(), GameType::OoTMMCombo);
    // Active game should remain MM since we didn't reset it
    assert_eq!(detector.active_game(), ActiveGame::MajorasMask);
}

#[test]
fn test_is_valid_oot_scene() {
    assert!(is_valid_oot_scene(oot_scenes::KOKIRI_FOREST));
    assert!(is_valid_oot_scene(oot_scenes::HYRULE_FIELD));
    assert!(is_valid_oot_scene(oot_scenes::DEKU_TREE));
    assert!(is_valid_oot_scene(0x65));
    assert!(!is_valid_oot_scene(0x66));
    assert!(!is_valid_oot_scene(0xFF));
}

#[test]
fn test_is_valid_mm_scene() {
    assert!(is_valid_mm_scene(mm_scenes::CLOCK_TOWN_SOUTH));
    assert!(is_valid_mm_scene(mm_scenes::TERMINA_FIELD));
    assert!(is_valid_mm_scene(mm_scenes::WOODFALL_TEMPLE));
    assert!(is_valid_mm_scene(0x70));
    assert!(!is_valid_mm_scene(0x71));
}

#[test]
fn test_is_oot_dungeon_scene() {
    assert!(is_oot_dungeon_scene(oot_scenes::DEKU_TREE));
    assert!(is_oot_dungeon_scene(oot_scenes::FOREST_TEMPLE));
    assert!(is_oot_dungeon_scene(oot_scenes::GANONS_CASTLE));
    assert!(!is_oot_dungeon_scene(oot_scenes::KOKIRI_FOREST));
    assert!(!is_oot_dungeon_scene(oot_scenes::HYRULE_FIELD));
}

#[test]
fn test_is_mm_dungeon_scene() {
    assert!(is_mm_dungeon_scene(mm_scenes::WOODFALL_TEMPLE));
    assert!(is_mm_dungeon_scene(mm_scenes::SNOWHEAD_TEMPLE));
    assert!(is_mm_dungeon_scene(mm_scenes::STONE_TOWER_TEMPLE_INVERTED));
    assert!(!is_mm_dungeon_scene(mm_scenes::CLOCK_TOWN_SOUTH));
    assert!(!is_mm_dungeon_scene(mm_scenes::TERMINA_FIELD));
}

#[test]
fn test_transition_scene_detection() {
    let detector = GameDetector::with_game_type(GameType::OoTMMCombo);

    assert!(
        detector.is_transition_scene(oot_scenes::HAPPY_MASK_SHOP, ActiveGame::OcarinaOfTime)
    );
    assert!(!detector.is_transition_scene(oot_scenes::KOKIRI_FOREST, ActiveGame::OcarinaOfTime));

    assert!(detector.is_transition_scene(mm_scenes::CLOCK_TOWER, ActiveGame::MajorasMask));
    assert!(!detector.is_transition_scene(mm_scenes::CLOCK_TOWN_SOUTH, ActiveGame::MajorasMask));
}

#[test]
fn test_detect_standalone_oot() {
    let mut detector = GameDetector::with_game_type(GameType::StandaloneOoT);

    // Create fake RAM with scene ID at OoT offset
    let mut ram = vec![0u8; RAM_SIZE];
    ram[0x1c8545] = oot_scenes::KOKIRI_FOREST;

    let result = detector.detect_from_ram(&ram);
    assert_eq!(result.game_type, GameType::StandaloneOoT);
    assert_eq!(result.active_game, ActiveGame::OcarinaOfTime);
    assert_eq!(result.scene_id, oot_scenes::KOKIRI_FOREST);
    assert_eq!(result.transition_state, TransitionState::Stable);
}

#[test]
fn test_detect_standalone_mm() {
    let mut detector = GameDetector::with_game_type(GameType::StandaloneMM);

    // Create fake RAM with scene ID at MM offset
    let mut ram = vec![0u8; RAM_SIZE];
    ram[0x1ef674] = mm_scenes::CLOCK_TOWN_SOUTH;

    let result = detector.detect_from_ram(&ram);
    assert_eq!(result.game_type, GameType::StandaloneMM);
    assert_eq!(result.active_game, ActiveGame::MajorasMask);
    assert_eq!(result.scene_id, mm_scenes::CLOCK_TOWN_SOUTH);
}

#[test]
fn test_detect_combo_oot_active() {
    let mut detector = GameDetector::with_game_type(GameType::OoTMMCombo);

    // Create fake RAM with OoT context active
    let mut ram = vec![0u8; RAM_SIZE];

    // Set OoT context to non-zero
    let oot_offset = (OOTMM_OOT_CONTEXT_ADDR - RDRAM_BASE) as usize;
    ram[oot_offset..oot_offset + 4].copy_from_slice(&[0x00, 0x01, 0x00, 0x00]);

    // Set MM context to zero (already zero from vec initialization)

    // Set scene ID
    ram[0x1c8545] = oot_scenes::HYRULE_FIELD;

    let result = detector.detect_from_ram(&ram);
    assert_eq!(result.game_type, GameType::OoTMMCombo);
    assert_eq!(result.active_game, ActiveGame::OcarinaOfTime);
    assert_eq!(result.scene_id, oot_scenes::HYRULE_FIELD);
    assert_eq!(result.confidence_percent, 100);
}

#[test]
fn test_detect_combo_mm_active() {
    let mut detector = GameDetector::with_game_type(GameType::OoTMMCombo);

    // Create fake RAM with MM context active
    let mut ram = vec![0u8; RAM_SIZE];

    // Set MM context to non-zero
    let mm_offset = (OOTMM_MM_CONTEXT_ADDR - RDRAM_BASE) as usize;
    ram[mm_offset..mm_offset + 4].copy_from_slice(&[0x00, 0x01, 0x00, 0x00]);

    // OoT context is zero (default)

    // Set scene ID at MM location
    ram[0x1ef674] = mm_scenes::CLOCK_TOWN_SOUTH;

    let result = detector.detect_from_ram(&ram);
    assert_eq!(result.game_type, GameType::OoTMMCombo);
    assert_eq!(result.active_game, ActiveGame::MajorasMask);
    assert_eq!(result.scene_id, mm_scenes::CLOCK_TOWN_SOUTH);
}

#[test]
fn test_detect_game_transition() {
    let mut detector = GameDetector::with_game_type(GameType::OoTMMCombo);

    // Start with OoT active
    let mut ram = vec![0u8; RAM_SIZE];
    let oot_offset = (OOTMM_OOT_CONTEXT_ADDR - RDRAM_BASE) as usize;
    ram[oot_offset..oot_offset + 4].copy_from_slice(&[0x00, 0x01, 0x00, 0x00]);
    ram[0x1c8545] = oot_scenes::HYRULE_FIELD;

    let result1 = detector.detect_from_ram(&ram);
    assert_eq!(result1.active_game, ActiveGame::OcarinaOfTime);
    assert_eq!(result1.transition_state, TransitionState::Stable);

    // Now switch to MM
    ram[oot_offset..oot_offset + 4].copy_from_slice(&[0x00, 0x00, 0x00, 0x00]);
    let mm_offset = (OOTMM_MM_CONTEXT_ADDR - RDRAM_BASE) as usize;
    ram[mm_offset..mm_offset + 4].copy_from_slice(&[0x00, 0x01, 0x00, 0x00]);
    ram[0x1ef674] = mm_scenes::CLOCK_TOWN_SOUTH;

    let result2 = detector.detect_from_ram(&ram);
    assert_eq!(result2.active_game, ActiveGame::MajorasMask);
    assert_eq!(result2.transition_state, TransitionState::OotToMm);
}

#[test]
fn test_detect_with_insufficient_ram() {
    let mut detector = GameDetector::new();

    // Test with RAM that's too small
    let small_ram = vec![0u8; 100];
    let result = detector.detect_from_ram(&small_ram);
    assert_eq!(result.confidence_percent, 0);
}

#[test]
fn test_game_type_display() {
    assert_eq!(GameType::StandaloneOoT.display_name(), "Ocarina of Time");
    assert_eq!(GameType::StandaloneMM.display_name(), "Majora's Mask");
    assert_eq!(GameType::OoTMMCombo.display_name(), "OoTMM Combo");
}

#[test]
fn test_active_game_display() {
    assert_eq!(ActiveGame::OcarinaOfTime.display_name(), "OoT");
    assert_eq!(ActiveGame::MajorasMask.display_name(), "MM");
}

#[test]
fn test_confidence_clamping() {
    let result = GameDetectionResult::standalone_oot(0).with_confidence(150);
    assert_eq!(result.confidence_percent, 100);

    let result = GameDetectionResult::standalone_oot(0).with_confidence(0);
    assert_eq!(result.confidence_percent, 0);

    let result = GameDetectionResult::standalone_oot(0).with_confidence(75);
    assert_eq!(result.confidence_percent, 75);
}

#[test]
fn test_detect_game_type_from_rom_oot() {
    // NTSC-U OoT header
    let mut rom_header = vec![0u8; 0x40];
    rom_header[0x3B..0x3F].copy_from_slice(b"CZLE");

    let result = detect_game_type_from_rom(&rom_header);
    assert_eq!(result, Some(GameType::StandaloneOoT));

    // NTSC-J OoT header
    rom_header[0x3B..0x3F].copy_from_slice(b"CZLJ");
    let result = detect_game_type_from_rom(&rom_header);
    assert_eq!(result, Some(GameType::StandaloneOoT));
}

#[test]
fn test_detect_game_type_from_rom_mm() {
    // NTSC-U MM header
    let mut rom_header = vec![0u8; 0x40];
    rom_header[0x3B..0x3F].copy_from_slice(b"NZSE");

    let result = detect_game_type_from_rom(&rom_header);
    assert_eq!(result, Some(GameType::StandaloneMM));

    // PAL MM header
    rom_header[0x3B..0x3F].copy_from_slice(b"NZSP");
    let result = detect_game_type_from_rom(&rom_header);
    assert_eq!(result, Some(GameType::StandaloneMM));
}

#[test]
fn test_detect_game_type_from_rom_unknown() {
    // Unknown game ID
    let mut rom_header = vec![0u8; 0x40];
    rom_header[0x3B..0x3F].copy_from_slice(b"XXXX");

    let result = detect_game_type_from_rom(&rom_header);
    assert_eq!(result, None);
}

#[test]
fn test_detect_game_type_from_rom_too_short() {
    let rom_header = vec![0u8; 0x20];
    let result = detect_game_type_from_rom(&rom_header);
    assert_eq!(result, None);
}

#[test]
fn test_defaults() {
    assert_eq!(GameType::default(), GameType::StandaloneOoT);
    assert_eq!(ActiveGame::default(), ActiveGame::OcarinaOfTime);
    assert_eq!(TransitionState::default(), TransitionState::Stable);
    assert_eq!(
        GameDetectionResult::default().game_type,
        GameType::StandaloneOoT
    );
}

