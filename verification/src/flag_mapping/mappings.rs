//! The researched OoT flag mappings: the chests, Gold Skulltulas and
//! collectibles whose flag addresses are known.

use vstd::prelude::*;

use super::scenes as scene;
use super::{all_complete, lemma_all_complete_concat, spec_mapped, FlagMapping, FlagType};

verus! {

/// Researched mappings: misc.
pub open spec fn spec_misc() -> Seq<FlagMapping> {
    seq![
        spec_mapped("oot_deku_tree_compass_room_side_chest", scene::DEKU_TREE, FlagType::Chest, 0x0000_0040),
        spec_mapped("oot_deku_tree_slingshot_side_chest", scene::DEKU_TREE, FlagType::Chest, 0x0000_0020),
        spec_mapped("oot_deku_tree_basement_chest", scene::DEKU_TREE, FlagType::Chest, 0x0000_0010),
        spec_mapped("oot_deku_tree_map_chest", scene::DEKU_TREE, FlagType::Chest, 0x0000_0008),
        spec_mapped("oot_deku_tree_compass_chest", scene::DEKU_TREE, FlagType::Chest, 0x0000_0004),
        spec_mapped("oot_deku_tree_slingshot_chest", scene::DEKU_TREE, FlagType::Chest, 0x0000_0002),
    ]
}

/// Researched mappings: DODONGO'S CAVERN (Scene 0x01).
pub open spec fn spec_dodongo_s_cavern() -> Seq<FlagMapping> {
    seq![
        spec_mapped("oot_dodongo_cavern_bridge_chest", scene::DODONGOS_CAVERN, FlagType::Chest, 0x0000_0400),
        spec_mapped("oot_dodongo_cavern_map_chest", scene::DODONGOS_CAVERN, FlagType::Chest, 0x0000_0100),
        spec_mapped("oot_dodongo_cavern_bomb_bag_side_chest", scene::DODONGOS_CAVERN, FlagType::Chest, 0x0000_0040),
        spec_mapped("oot_dodongo_cavern_compass_chest", scene::DODONGOS_CAVERN, FlagType::Chest, 0x0000_0020),
        spec_mapped("oot_dodongo_cavern_bomb_bag_chest", scene::DODONGOS_CAVERN, FlagType::Chest, 0x0000_0010),
    ]
}

/// Researched mappings: JABU JABU'S BELLY (Scene 0x02).
pub open spec fn spec_jabu_jabu_s_belly() -> Seq<FlagMapping> {
    seq![
        spec_mapped("oot_jabu_jabu_compass_chest", scene::JABU_JABU, FlagType::Chest, 0x0000_0010),
        spec_mapped("oot_jabu_jabu_map_chest", scene::JABU_JABU, FlagType::Chest, 0x0000_0004),
        spec_mapped("oot_jabu_jabu_boomerang_chest", scene::JABU_JABU, FlagType::Chest, 0x0000_0002),
    ]
}

/// Researched mappings: FOREST TEMPLE (Scene 0x03).
pub open spec fn spec_forest_temple_1() -> Seq<FlagMapping> {
    seq![
        spec_mapped("oot_forest_temple_compass", scene::FOREST_TEMPLE, FlagType::Chest, 0x0000_8000),
        spec_mapped("oot_forest_temple_boss_key", scene::FOREST_TEMPLE, FlagType::Chest, 0x0000_4000),
        spec_mapped("oot_forest_temple_poe_key", scene::FOREST_TEMPLE, FlagType::Chest, 0x0000_2000),
        spec_mapped("oot_forest_temple_bow", scene::FOREST_TEMPLE, FlagType::Chest, 0x0000_1000),
        spec_mapped("oot_forest_temple_checkerboard", scene::FOREST_TEMPLE, FlagType::Chest, 0x0000_0800),
        spec_mapped("oot_forest_temple_well", scene::FOREST_TEMPLE, FlagType::Chest, 0x0000_0200),
        spec_mapped("oot_forest_temple_antichamber", scene::FOREST_TEMPLE, FlagType::Chest, 0x0000_0080),
        spec_mapped("oot_forest_temple_garden", scene::FOREST_TEMPLE, FlagType::Chest, 0x0000_0020),
        spec_mapped("oot_forest_temple_maze", scene::FOREST_TEMPLE, FlagType::Chest, 0x0000_0010),
        spec_mapped("oot_forest_temple_tree_small_key", scene::FOREST_TEMPLE, FlagType::Chest, 0x0000_0008),
        spec_mapped("oot_forest_temple_floormaster", scene::FOREST_TEMPLE, FlagType::Chest, 0x0000_0004),
        spec_mapped("oot_forest_temple_map", scene::FOREST_TEMPLE, FlagType::Chest, 0x0000_0002),
    ]
}

/// Researched mappings: FOREST TEMPLE (Scene 0x03).
pub open spec fn spec_forest_temple_2() -> Seq<FlagMapping> {
    seq![
        spec_mapped("oot_forest_temple_mini_boss_key", scene::FOREST_TEMPLE, FlagType::Chest, 0x0000_0001),
    ]
}

/// Researched mappings: FIRE TEMPLE (Scene 0x04).
pub open spec fn spec_fire_temple() -> Seq<FlagMapping> {
    seq![
        spec_mapped("oot_fire_temple_scarecrow_chest", scene::FIRE_TEMPLE, FlagType::Chest, 0x0000_2000),
        spec_mapped("oot_fire_temple_boss_key_chest", scene::FIRE_TEMPLE, FlagType::Chest, 0x0000_1000),
        spec_mapped("oot_fire_temple_above_maze_chest", scene::FIRE_TEMPLE, FlagType::Chest, 0x0000_0800),
        spec_mapped("oot_fire_temple_lava_room_south_jail_chest", scene::FIRE_TEMPLE, FlagType::Chest, 0x0000_0400),
        spec_mapped("oot_fire_temple_jail_1_chest", scene::FIRE_TEMPLE, FlagType::Chest, 0x0000_0200),
        spec_mapped("oot_fire_temple_maze_jail_chest", scene::FIRE_TEMPLE, FlagType::Chest, 0x0000_0100),
        spec_mapped("oot_fire_temple_lava_room_north_jail_chest", scene::FIRE_TEMPLE, FlagType::Chest, 0x0000_0080),
        spec_mapped("oot_fire_temple_below_maze_chest", scene::FIRE_TEMPLE, FlagType::Chest, 0x0000_0040),
        spec_mapped("oot_fire_temple_maze_chest", scene::FIRE_TEMPLE, FlagType::Chest, 0x0000_0020),
        spec_mapped("oot_fire_temple_boss_key_side_chest", scene::FIRE_TEMPLE, FlagType::Chest, 0x0000_0010),
    ]
}

/// Researched mappings: WATER TEMPLE (Scene 0x05).
pub open spec fn spec_water_temple() -> Seq<FlagMapping> {
    seq![
        spec_mapped("oot_water_temple_dragon_chest", scene::WATER_TEMPLE, FlagType::Chest, 0x0000_0400),
        spec_mapped("oot_water_temple_shell_chest", scene::WATER_TEMPLE, FlagType::Chest, 0x0000_0200),
        spec_mapped("oot_water_temple_corridor_chest", scene::WATER_TEMPLE, FlagType::Chest, 0x0000_0100),
        spec_mapped("oot_water_temple_bombable_chest", scene::WATER_TEMPLE, FlagType::Chest, 0x0000_0080),
        spec_mapped("oot_water_temple_boss_key_chest", scene::WATER_TEMPLE, FlagType::Chest, 0x0000_0040),
        spec_mapped("oot_water_temple_river_chest", scene::WATER_TEMPLE, FlagType::Chest, 0x0000_0008),
    ]
}

/// Researched mappings: SPIRIT TEMPLE (Scene 0x06).
pub open spec fn spec_spirit_temple_1() -> Seq<FlagMapping> {
    seq![
        spec_mapped("oot_spirit_temple_adult_invisible_1", scene::SPIRIT_TEMPLE, FlagType::Chest, 0x0020_0000),
        spec_mapped("oot_spirit_temple_adult_invisible_2", scene::SPIRIT_TEMPLE, FlagType::Chest, 0x0010_0000),
        spec_mapped("oot_spirit_temple_adult_topmost_sun_on_wall", scene::SPIRIT_TEMPLE, FlagType::Chest, 0x0004_0000),
        spec_mapped("oot_spirit_temple_statue_upper_right", scene::SPIRIT_TEMPLE, FlagType::Chest, 0x0000_8000),
        spec_mapped("oot_spirit_temple_adult_suns_on_wall_1", scene::SPIRIT_TEMPLE, FlagType::Chest, 0x0000_4000),
        spec_mapped("oot_spirit_temple_adult_suns_on_wall_2", scene::SPIRIT_TEMPLE, FlagType::Chest, 0x0000_2000),
        spec_mapped("oot_spirit_temple_child_climb_2", scene::SPIRIT_TEMPLE, FlagType::Chest, 0x0000_1000),
        spec_mapped("oot_spirit_temple_adult_boss_key_chest", scene::SPIRIT_TEMPLE, FlagType::Chest, 0x0000_0400),
        spec_mapped("oot_spirit_temple_child_second_chest", scene::SPIRIT_TEMPLE, FlagType::Chest, 0x0000_0100),
        spec_mapped("oot_spirit_temple_adult_lullaby", scene::SPIRIT_TEMPLE, FlagType::Chest, 0x0000_0080),
        spec_mapped("oot_spirit_temple_child_climb_1", scene::SPIRIT_TEMPLE, FlagType::Chest, 0x0000_0040),
        spec_mapped("oot_spirit_temple_statue_hands", scene::SPIRIT_TEMPLE, FlagType::Chest, 0x0000_0020),
    ]
}

/// Researched mappings: SPIRIT TEMPLE (Scene 0x06).
pub open spec fn spec_spirit_temple_2() -> Seq<FlagMapping> {
    seq![
        spec_mapped("oot_spirit_temple_adult_silver_rupees", scene::SPIRIT_TEMPLE, FlagType::Chest, 0x0000_0010),
        spec_mapped("oot_spirit_temple_statue_base", scene::SPIRIT_TEMPLE, FlagType::Chest, 0x0000_0008),
        spec_mapped("oot_spirit_temple_sun_block_room_torches", scene::SPIRIT_TEMPLE, FlagType::Chest, 0x0000_0004),
        spec_mapped("oot_spirit_temple_child_first_chest", scene::SPIRIT_TEMPLE, FlagType::Chest, 0x0000_0002),
    ]
}

/// Researched mappings: SHADOW TEMPLE (Scene 0x07).
pub open spec fn spec_shadow_temple_1() -> Seq<FlagMapping> {
    seq![
        spec_mapped("oot_shadow_temple_spinning_blades_invisible", scene::SHADOW_TEMPLE, FlagType::Chest, 0x0040_0000),
        spec_mapped("oot_shadow_temple_wind_room_hint", scene::SHADOW_TEMPLE, FlagType::Chest, 0x0020_0000),
        spec_mapped("oot_shadow_temple_after_wind_invisible", scene::SHADOW_TEMPLE, FlagType::Chest, 0x0010_0000),
        spec_mapped("oot_shadow_temple_invisible_floormaster", scene::SHADOW_TEMPLE, FlagType::Chest, 0x0000_2000),
        spec_mapped("oot_shadow_temple_spinning_blades_visible", scene::SHADOW_TEMPLE, FlagType::Chest, 0x0000_1000),
        spec_mapped("oot_shadow_temple_boss_key_room_2", scene::SHADOW_TEMPLE, FlagType::Chest, 0x0000_0800),
        spec_mapped("oot_shadow_temple_boss_key_room_1", scene::SHADOW_TEMPLE, FlagType::Chest, 0x0000_0400),
        spec_mapped("oot_shadow_temple_invisible_spike_room", scene::SHADOW_TEMPLE, FlagType::Chest, 0x0000_0200),
        spec_mapped("oot_shadow_temple_after_wind", scene::SHADOW_TEMPLE, FlagType::Chest, 0x0000_0100),
        spec_mapped("oot_shadow_temple_hover_boots", scene::SHADOW_TEMPLE, FlagType::Chest, 0x0000_0080),
        spec_mapped("oot_shadow_temple_falling_spikes_upper_1", scene::SHADOW_TEMPLE, FlagType::Chest, 0x0000_0040),
        spec_mapped("oot_shadow_temple_falling_spikes_lower", scene::SHADOW_TEMPLE, FlagType::Chest, 0x0000_0020),
    ]
}

/// Researched mappings: SHADOW TEMPLE (Scene 0x07).
pub open spec fn spec_shadow_temple_2() -> Seq<FlagMapping> {
    seq![
        spec_mapped("oot_shadow_temple_falling_spikes_upper_2", scene::SHADOW_TEMPLE, FlagType::Chest, 0x0000_0010),
        spec_mapped("oot_shadow_temple_compass", scene::SHADOW_TEMPLE, FlagType::Chest, 0x0000_0008),
        spec_mapped("oot_shadow_temple_silver_rupees", scene::SHADOW_TEMPLE, FlagType::Chest, 0x0000_0004),
        spec_mapped("oot_shadow_temple_map", scene::SHADOW_TEMPLE, FlagType::Chest, 0x0000_0002),
    ]
}

/// Researched mappings: BOTTOM OF THE WELL (Scene 0x08).
pub open spec fn spec_bottom_of_the_well_1() -> Seq<FlagMapping> {
    seq![
        spec_mapped("oot_bottom_of_the_well_blood_chest", scene::BOTTOM_OF_THE_WELL, FlagType::Chest, 0x0010_0000),
        spec_mapped("oot_bottom_of_the_well_underwater_2", scene::BOTTOM_OF_THE_WELL, FlagType::Chest, 0x0001_0000),
        spec_mapped("oot_bottom_of_the_well_east_cage", scene::BOTTOM_OF_THE_WELL, FlagType::Chest, 0x0000_4000),
        spec_mapped("oot_bottom_of_the_well_pits", scene::BOTTOM_OF_THE_WELL, FlagType::Chest, 0x0000_1000),
        spec_mapped("oot_bottom_of_the_well_east", scene::BOTTOM_OF_THE_WELL, FlagType::Chest, 0x0000_0400),
        spec_mapped("oot_bottom_of_the_well_underwater", scene::BOTTOM_OF_THE_WELL, FlagType::Chest, 0x0000_0200),
        spec_mapped("oot_bottom_of_the_well_front_west", scene::BOTTOM_OF_THE_WELL, FlagType::Chest, 0x0000_0100),
        spec_mapped("oot_bottom_of_the_well_map", scene::BOTTOM_OF_THE_WELL, FlagType::Chest, 0x0000_0080),
        spec_mapped("oot_bottom_of_the_well_back_west", scene::BOTTOM_OF_THE_WELL, FlagType::Chest, 0x0000_0020),
        spec_mapped("oot_bottom_of_the_well_under_debris", scene::BOTTOM_OF_THE_WELL, FlagType::Chest, 0x0000_0010),
        spec_mapped("oot_bottom_of_the_well_lens", scene::BOTTOM_OF_THE_WELL, FlagType::Chest, 0x0000_0008),
        spec_mapped("oot_bottom_of_the_well_lens_side_chest", scene::BOTTOM_OF_THE_WELL, FlagType::Chest, 0x0000_0004),
    ]
}

/// Researched mappings: BOTTOM OF THE WELL (Scene 0x08).
pub open spec fn spec_bottom_of_the_well_2() -> Seq<FlagMapping> {
    seq![
        spec_mapped("oot_bottom_of_the_well_compass", scene::BOTTOM_OF_THE_WELL, FlagType::Chest, 0x0000_0002),
    ]
}

/// Researched mappings: ICE CAVERN (Scene 0x09).
pub open spec fn spec_ice_cavern() -> Seq<FlagMapping> {
    seq![
        spec_mapped("oot_ice_cavern_rupee_ice", scene::ICE_CAVERN, FlagType::Chest, 0x0000_0004),
        spec_mapped("oot_ice_cavern_compass", scene::ICE_CAVERN, FlagType::Chest, 0x0000_0002),
        spec_mapped("oot_ice_cavern_map", scene::ICE_CAVERN, FlagType::Chest, 0x0000_0001),
    ]
}

/// Researched mappings: GERUDO TRAINING GROUND (Scene 0x0B).
pub open spec fn spec_gerudo_training_ground() -> Seq<FlagMapping> {
    seq![
        spec_mapped("oot_gerudo_training_maze_chest_4", scene::GERUDO_TRAINING_GROUND, FlagType::Chest, 0x0010_0000),
        spec_mapped("oot_gerudo_training_maze_side_chest_1", scene::GERUDO_TRAINING_GROUND, FlagType::Chest, 0x0008_0000),
        spec_mapped("oot_gerudo_training_maze_chest_3", scene::GERUDO_TRAINING_GROUND, FlagType::Chest, 0x0004_0000),
        spec_mapped("oot_gerudo_training_maze_chest_2", scene::GERUDO_TRAINING_GROUND, FlagType::Chest, 0x0002_0000),
        spec_mapped("oot_gerudo_training_maze_side_chest_2", scene::GERUDO_TRAINING_GROUND, FlagType::Chest, 0x0001_0000),
        spec_mapped("oot_gerudo_training_maze_chest_1", scene::GERUDO_TRAINING_GROUND, FlagType::Chest, 0x0000_1000),
    ]
}

/// Researched mappings: DODONGO'S CAVERN BOSS (Scene 0x12).
pub open spec fn spec_dodongo_s_cavern_boss() -> Seq<FlagMapping> {
    seq![
        spec_mapped("oot_dodongo_cavern_boss_chest", scene::DODONGOS_CAVERN_BOSS, FlagType::Chest, 0x0000_0001),
    ]
}

/// Researched mappings: GANON'S CASTLE (Scene 0x0D).
pub open spec fn spec_ganon_s_castle_1() -> Seq<FlagMapping> {
    seq![
        spec_mapped("oot_ganon_castle_spirit_chest_2", scene::GANONS_CASTLE, FlagType::Chest, 0x0010_0000),
        spec_mapped("oot_ganon_castle_spirit_chest_1", scene::GANONS_CASTLE, FlagType::Chest, 0x0004_0000),
        spec_mapped("oot_ganon_castle_light_chest_lullaby", scene::GANONS_CASTLE, FlagType::Chest, 0x0002_0000),
        spec_mapped("oot_ganon_castle_light_chest_center", scene::GANONS_CASTLE, FlagType::Chest, 0x0001_0000),
        spec_mapped("oot_ganon_castle_light_chest_around_3", scene::GANONS_CASTLE, FlagType::Chest, 0x0000_8000),
        spec_mapped("oot_ganon_castle_light_chest_around_1", scene::GANONS_CASTLE, FlagType::Chest, 0x0000_4000),
        spec_mapped("oot_ganon_castle_light_chest_around_6", scene::GANONS_CASTLE, FlagType::Chest, 0x0000_2000),
        spec_mapped("oot_ganon_castle_light_chest_around_4", scene::GANONS_CASTLE, FlagType::Chest, 0x0000_1000),
        spec_mapped("oot_ganon_castle_light_chest_around_5", scene::GANONS_CASTLE, FlagType::Chest, 0x0000_0800),
        spec_mapped("oot_ganon_castle_light_chest_around_2", scene::GANONS_CASTLE, FlagType::Chest, 0x0000_0400),
        spec_mapped("oot_ganon_castle_forest_chest", scene::GANONS_CASTLE, FlagType::Chest, 0x0000_0200),
        spec_mapped("oot_ganon_castle_shadow_chest_1", scene::GANONS_CASTLE, FlagType::Chest, 0x0000_0100),
    ]
}

/// Researched mappings: GANON'S CASTLE (Scene 0x0D).
pub open spec fn spec_ganon_s_castle_2() -> Seq<FlagMapping> {
    seq![
        spec_mapped("oot_ganon_castle_water_chest_1", scene::GANONS_CASTLE, FlagType::Chest, 0x0000_0080),
        spec_mapped("oot_ganon_castle_water_chest_2", scene::GANONS_CASTLE, FlagType::Chest, 0x0000_0040),
        spec_mapped("oot_ganon_castle_shadow_chest_2", scene::GANONS_CASTLE, FlagType::Chest, 0x0000_0020),
    ]
}

/// Researched mappings: The Treasure Chest Game has 5 rooms with 2 chests each, plus the final HP chest..
pub open spec fn spec_the_treasure_chest_game_has_5_rooms_with_2_chests_each_plus_the_final_hp_chest() -> Seq<FlagMapping> {
    seq![
        spec_mapped("oot_treasure_chest_game_room_1_chest_left", scene::TREASURE_CHEST_GAME, FlagType::Chest, 0x0000_0001),
        spec_mapped("oot_treasure_chest_game_room_1_chest_right", scene::TREASURE_CHEST_GAME, FlagType::Chest, 0x0000_0002),
        spec_mapped("oot_treasure_chest_game_room_2_chest_left", scene::TREASURE_CHEST_GAME, FlagType::Chest, 0x0000_0004),
        spec_mapped("oot_treasure_chest_game_room_2_chest_right", scene::TREASURE_CHEST_GAME, FlagType::Chest, 0x0000_0008),
        spec_mapped("oot_treasure_chest_game_room_3_chest_left", scene::TREASURE_CHEST_GAME, FlagType::Chest, 0x0000_0010),
        spec_mapped("oot_treasure_chest_game_room_3_chest_right", scene::TREASURE_CHEST_GAME, FlagType::Chest, 0x0000_0020),
        spec_mapped("oot_treasure_chest_game_room_4_chest_left", scene::TREASURE_CHEST_GAME, FlagType::Chest, 0x0000_0040),
        spec_mapped("oot_treasure_chest_game_room_4_chest_right", scene::TREASURE_CHEST_GAME, FlagType::Chest, 0x0000_0080),
        spec_mapped("oot_treasure_chest_game_room_5_chest_left", scene::TREASURE_CHEST_GAME, FlagType::Chest, 0x0000_0100),
        spec_mapped("oot_treasure_chest_game_room_5_chest_right", scene::TREASURE_CHEST_GAME, FlagType::Chest, 0x0000_0200),
        spec_mapped("oot_treasure_chest_game_hp", scene::TREASURE_CHEST_GAME, FlagType::Chest, 0x0000_0400),
    ]
}

/// Researched mappings: GROTTOS (Scene 0x3E) - Shared scene for all grottos.
pub open spec fn spec_grottos_shared_scene_for_all_grottos() -> Seq<FlagMapping> {
    seq![
        spec_mapped("oot_dmc_upper_grotto_chest", scene::GROTTOS, FlagType::Chest, 0x0400_0000),
        spec_mapped("oot_dmt_storms_grotto_chest", scene::GROTTOS, FlagType::Chest, 0x0040_0000),
        spec_mapped("oot_lw_near_shortcuts_grotto_chest", scene::GROTTOS, FlagType::Chest, 0x0010_0000),
        spec_mapped("oot_sfm_wolfos_grotto_chest", scene::GROTTOS, FlagType::Chest, 0x0002_0000),
        spec_mapped("oot_kf_storms_grotto_chest", scene::GROTTOS, FlagType::Chest, 0x0000_1000),
        spec_mapped("oot_kak_redead_grotto_chest", scene::GROTTOS, FlagType::Chest, 0x0000_0400),
        spec_mapped("oot_zr_open_grotto_chest", scene::GROTTOS, FlagType::Chest, 0x0000_0200),
        spec_mapped("oot_kak_open_grotto_chest", scene::GROTTOS, FlagType::Chest, 0x0000_0100),
        spec_mapped("oot_hf_open_grotto_chest", scene::GROTTOS, FlagType::Chest, 0x0000_0008),
        spec_mapped("oot_hf_southeast_grotto_chest", scene::GROTTOS, FlagType::Chest, 0x0000_0004),
        spec_mapped("oot_hf_near_market_grotto_chest", scene::GROTTOS, FlagType::Chest, 0x0000_0001),
    ]
}

/// Researched mappings: GRAVEYARD GRAVES (Scenes 0x3F, 0x40, 0x41, 0x48).
pub open spec fn spec_graveyard_graves() -> Seq<FlagMapping> {
    seq![
        spec_mapped("oot_graveyard_heart_piece_grave_chest", scene::GRAVE_HEART_PIECE, FlagType::Chest, 0x0000_0001),
        spec_mapped("oot_graveyard_shield_grave_chest", scene::GRAVE_SHIELD, FlagType::Chest, 0x0000_0001),
        spec_mapped("oot_graveyard_royal_tomb_chest", scene::ROYAL_FAMILYS_TOMB, FlagType::Chest, 0x0000_0001),
        spec_mapped("oot_graveyard_hookshot_chest", scene::WINDMILL_AND_DAMPES_GRAVE, FlagType::Chest, 0x0000_0001),
    ]
}

/// Researched mappings: KOKIRI FOREST (Scene 0x55).
pub open spec fn spec_kokiri_forest() -> Seq<FlagMapping> {
    seq![
        spec_mapped("oot_kokiri_forest_kokiri_sword_chest", scene::KOKIRI_FOREST, FlagType::Chest, 0x0000_0001),
    ]
}

/// Researched mappings: ZORA'S DOMAIN (Scene 0x58).
pub open spec fn spec_zora_s_domain() -> Seq<FlagMapping> {
    seq![
        spec_mapped("oot_zora_domain_waterfall_chest", scene::ZORAS_DOMAIN, FlagType::Chest, 0x0000_0001),
    ]
}

/// Researched mappings: GERUDO VALLEY (Scene 0x5A).
pub open spec fn spec_gerudo_valley() -> Seq<FlagMapping> {
    seq![
        spec_mapped("oot_gerudo_valley_chest", scene::GERUDO_VALLEY, FlagType::Chest, 0x0000_0001),
    ]
}

/// Researched mappings: DESERT COLOSSUS (Scene 0x5C) - Spirit Temple exterior chests.
pub open spec fn spec_desert_colossus_spirit_temple_exterior_chests() -> Seq<FlagMapping> {
    seq![
        spec_mapped("oot_spirit_temple_silver_gauntlets", scene::DESERT_COLOSSUS, FlagType::Chest, 0x0000_0800),
        spec_mapped("oot_spirit_temple_mirror_shield", scene::DESERT_COLOSSUS, FlagType::Chest, 0x0000_0200),
    ]
}

/// Researched mappings: GERUDO FORTRESS (Scene 0x5D).
pub open spec fn spec_gerudo_fortress() -> Seq<FlagMapping> {
    seq![
        spec_mapped("oot_gerudo_fortress_chest", scene::GERUDO_FORTRESS, FlagType::Chest, 0x0000_0001),
    ]
}

/// Researched mappings: HAUNTED WASTELAND (Scene 0x5E).
pub open spec fn spec_haunted_wasteland() -> Seq<FlagMapping> {
    seq![
        spec_mapped("oot_haunted_wasteland_chest", scene::HAUNTED_WASTELAND, FlagType::Chest, 0x0000_0001),
    ]
}

/// Researched mappings: DEATH MOUNTAIN TRAIL (Scene 0x60).
pub open spec fn spec_death_mountain_trail() -> Seq<FlagMapping> {
    seq![
        spec_mapped("oot_death_mountain_trail_chest", scene::DEATH_MOUNTAIN_TRAIL, FlagType::Chest, 0x0000_0002),
    ]
}

/// Researched mappings: // Gold Skulltula flags are stored in a 24-byte (0x18) section at save.
pub open spec fn spec_gold_skulltula_flags_are_stored_in_a_24_byte_section_at_save_1() -> Seq<FlagMapping> {
    seq![
        spec_mapped("oot_deku_tree_gs_compass", scene::DEKU_TREE, FlagType::GoldSkulltula, 0x01),
        spec_mapped("oot_deku_tree_gs_basement_gate", scene::DEKU_TREE, FlagType::GoldSkulltula, 0x02),
        spec_mapped("oot_deku_tree_gs_basement_vines", scene::DEKU_TREE, FlagType::GoldSkulltula, 0x04),
        spec_mapped("oot_deku_tree_gs_basement_back_room", scene::DEKU_TREE, FlagType::GoldSkulltula, 0x08),
        spec_mapped("oot_dodongo_cavern_gs_side_room", scene::DODONGOS_CAVERN, FlagType::GoldSkulltula, 0x01),
        spec_mapped("oot_dodongo_cavern_gs_stairs_vines", scene::DODONGOS_CAVERN, FlagType::GoldSkulltula, 0x02),
        spec_mapped("oot_dodongo_cavern_gs_stairs_top", scene::DODONGOS_CAVERN, FlagType::GoldSkulltula, 0x04),
        spec_mapped("oot_dodongo_cavern_gs_scarecrow", scene::DODONGOS_CAVERN, FlagType::GoldSkulltula, 0x08),
        spec_mapped("oot_dodongo_cavern_gs_near_boss", scene::DODONGOS_CAVERN, FlagType::GoldSkulltula, 0x10),
        spec_mapped("oot_jabu_jabu_gs_bottom_lower", scene::JABU_JABU, FlagType::GoldSkulltula, 0x01),
        spec_mapped("oot_jabu_jabu_gs_bottom_upper", scene::JABU_JABU, FlagType::GoldSkulltula, 0x02),
        spec_mapped("oot_jabu_jabu_gs_water_switch", scene::JABU_JABU, FlagType::GoldSkulltula, 0x04),
    ]
}

/// Researched mappings: // Gold Skulltula flags are stored in a 24-byte (0x18) section at save.
pub open spec fn spec_gold_skulltula_flags_are_stored_in_a_24_byte_section_at_save_2() -> Seq<FlagMapping> {
    seq![
        spec_mapped("oot_jabu_jabu_gs_near_boss", scene::JABU_JABU, FlagType::GoldSkulltula, 0x08),
        spec_mapped("oot_forest_temple_gs_entrance", scene::FOREST_TEMPLE, FlagType::GoldSkulltula, 0x01),
        spec_mapped("oot_forest_temple_gs_main", scene::FOREST_TEMPLE, FlagType::GoldSkulltula, 0x02),
        spec_mapped("oot_forest_temple_gs_garden_west", scene::FOREST_TEMPLE, FlagType::GoldSkulltula, 0x04),
        spec_mapped("oot_forest_temple_gs_garden_east", scene::FOREST_TEMPLE, FlagType::GoldSkulltula, 0x08),
        spec_mapped("oot_forest_temple_gs_antichamber", scene::FOREST_TEMPLE, FlagType::GoldSkulltula, 0x10),
        spec_mapped("oot_fire_temple_gs_hammer_statues", scene::FIRE_TEMPLE, FlagType::GoldSkulltula, 0x01),
        spec_mapped("oot_fire_temple_gs_lava_side_room", scene::FIRE_TEMPLE, FlagType::GoldSkulltula, 0x02),
        spec_mapped("oot_fire_temple_gs_maze", scene::FIRE_TEMPLE, FlagType::GoldSkulltula, 0x04),
        spec_mapped("oot_fire_temple_gs_scarecrow_wall", scene::FIRE_TEMPLE, FlagType::GoldSkulltula, 0x08),
        spec_mapped("oot_fire_temple_gs_scarecrow_top", scene::FIRE_TEMPLE, FlagType::GoldSkulltula, 0x10),
        spec_mapped("oot_water_temple_gs_center", scene::WATER_TEMPLE, FlagType::GoldSkulltula, 0x01),
    ]
}

/// Researched mappings: // Gold Skulltula flags are stored in a 24-byte (0x18) section at save.
pub open spec fn spec_gold_skulltula_flags_are_stored_in_a_24_byte_section_at_save_3() -> Seq<FlagMapping> {
    seq![
        spec_mapped("oot_water_temple_gs_waterfalls", scene::WATER_TEMPLE, FlagType::GoldSkulltula, 0x02),
        spec_mapped("oot_water_temple_gs_large_pit", scene::WATER_TEMPLE, FlagType::GoldSkulltula, 0x04),
        spec_mapped("oot_water_temple_gs_river", scene::WATER_TEMPLE, FlagType::GoldSkulltula, 0x08),
        spec_mapped("oot_water_temple_gs_cage", scene::WATER_TEMPLE, FlagType::GoldSkulltula, 0x10),
        spec_mapped("oot_spirit_temple_gs_child_fence", scene::SPIRIT_TEMPLE, FlagType::GoldSkulltula, 0x01),
        spec_mapped("oot_spirit_temple_gs_child_climb", scene::SPIRIT_TEMPLE, FlagType::GoldSkulltula, 0x02),
        spec_mapped("oot_spirit_temple_gs_iron_knuckle", scene::SPIRIT_TEMPLE, FlagType::GoldSkulltula, 0x04),
        spec_mapped("oot_spirit_temple_gs_boulders", scene::SPIRIT_TEMPLE, FlagType::GoldSkulltula, 0x08),
        spec_mapped("oot_spirit_temple_gs_statue", scene::SPIRIT_TEMPLE, FlagType::GoldSkulltula, 0x10),
        spec_mapped("oot_shadow_temple_gs_invisible_scythe", scene::SHADOW_TEMPLE, FlagType::GoldSkulltula, 0x01),
        spec_mapped("oot_shadow_temple_gs_falling_spikes", scene::SHADOW_TEMPLE, FlagType::GoldSkulltula, 0x02),
        spec_mapped("oot_shadow_temple_gs_skull_pot", scene::SHADOW_TEMPLE, FlagType::GoldSkulltula, 0x04),
    ]
}

/// Researched mappings: // Gold Skulltula flags are stored in a 24-byte (0x18) section at save.
pub open spec fn spec_gold_skulltula_flags_are_stored_in_a_24_byte_section_at_save_4() -> Seq<FlagMapping> {
    seq![
        spec_mapped("oot_shadow_temple_gs_near_boat", scene::SHADOW_TEMPLE, FlagType::GoldSkulltula, 0x08),
        spec_mapped("oot_shadow_temple_gs_triple_skull_pot", scene::SHADOW_TEMPLE, FlagType::GoldSkulltula, 0x10),
        spec_mapped("oot_bottom_of_the_well_gs_east_cage", scene::BOTTOM_OF_THE_WELL, FlagType::GoldSkulltula, 0x01),
        spec_mapped("oot_bottom_of_the_well_gs_inner_west", scene::BOTTOM_OF_THE_WELL, FlagType::GoldSkulltula, 0x02),
        spec_mapped("oot_bottom_of_the_well_gs_inner_east", scene::BOTTOM_OF_THE_WELL, FlagType::GoldSkulltula, 0x04),
        spec_mapped("oot_ice_cavern_gs_scythe_room", scene::ICE_CAVERN, FlagType::GoldSkulltula, 0x01),
        spec_mapped("oot_ice_cavern_gs_hp_room", scene::ICE_CAVERN, FlagType::GoldSkulltula, 0x02),
        spec_mapped("oot_ice_cavern_gs_block_room", scene::ICE_CAVERN, FlagType::GoldSkulltula, 0x04),
    ]
}

/// Researched mappings: Overworld skulltulas use scene IDs 0x0A-0x15 for GS flag bytes..
pub open spec fn spec_overworld_skulltulas_use_scene_ids_0x0a_0x15_for_gs_flag_bytes_1() -> Seq<FlagMapping> {
    seq![
        spec_mapped("oot_hyrule_castle_gs_tree", scene::HYRULE_CASTLE, FlagType::GoldSkulltula, 0x01),
        spec_mapped("oot_hyrule_castle_gs_grotto", scene::HYRULE_CASTLE, FlagType::GoldSkulltula, 0x02),
        spec_mapped("oot_kakariko_gs_shooting_gallery", scene::KAKARIKO_VILLAGE, FlagType::GoldSkulltula, 0x01),
        spec_mapped("oot_kakariko_gs_tree", scene::KAKARIKO_VILLAGE, FlagType::GoldSkulltula, 0x02),
        spec_mapped("oot_kakariko_gs_house_of_skulltula", scene::KAKARIKO_VILLAGE, FlagType::GoldSkulltula, 0x04),
        spec_mapped("oot_kakariko_gs_bazaar", scene::KAKARIKO_VILLAGE, FlagType::GoldSkulltula, 0x08),
        spec_mapped("oot_kakariko_gs_ladder", scene::KAKARIKO_VILLAGE, FlagType::GoldSkulltula, 0x10),
        spec_mapped("oot_kakariko_gs_roof", scene::KAKARIKO_VILLAGE, FlagType::GoldSkulltula, 0x20),
        spec_mapped("oot_graveyard_gs_soil", scene::GRAVEYARD, FlagType::GoldSkulltula, 0x01),
        spec_mapped("oot_graveyard_gs_wall", scene::GRAVEYARD, FlagType::GoldSkulltula, 0x02),
        spec_mapped("oot_death_mountain_trail_gs_entrance", scene::DEATH_MOUNTAIN_TRAIL, FlagType::GoldSkulltula, 0x01),
        spec_mapped("oot_death_mountain_trail_gs_soil", scene::DEATH_MOUNTAIN_TRAIL, FlagType::GoldSkulltula, 0x02),
    ]
}

/// Researched mappings: Overworld skulltulas use scene IDs 0x0A-0x15 for GS flag bytes..
pub open spec fn spec_overworld_skulltulas_use_scene_ids_0x0a_0x15_for_gs_flag_bytes_2() -> Seq<FlagMapping> {
    seq![
        spec_mapped("oot_death_mountain_trail_gs_above_dodongo", scene::DEATH_MOUNTAIN_TRAIL, FlagType::GoldSkulltula, 0x04),
        spec_mapped("oot_death_mountain_trail_gs_before_climb", scene::DEATH_MOUNTAIN_TRAIL, FlagType::GoldSkulltula, 0x08),
        spec_mapped("oot_death_mountain_crater_gs_crate", scene::DEATH_MOUNTAIN_CRATER, FlagType::GoldSkulltula, 0x01),
        spec_mapped("oot_death_mountain_crater_gs_soil", scene::DEATH_MOUNTAIN_CRATER, FlagType::GoldSkulltula, 0x02),
        spec_mapped("oot_goron_city_gs_platform", scene::GORON_CITY, FlagType::GoldSkulltula, 0x01),
        spec_mapped("oot_goron_city_gs_maze", scene::GORON_CITY, FlagType::GoldSkulltula, 0x02),
        spec_mapped("oot_kokiri_forest_gs_soil", scene::KOKIRI_FOREST, FlagType::GoldSkulltula, 0x01),
        spec_mapped("oot_kokiri_forest_gs_night_adult", scene::KOKIRI_FOREST, FlagType::GoldSkulltula, 0x02),
        spec_mapped("oot_kokiri_forest_gs_night_child", scene::KOKIRI_FOREST, FlagType::GoldSkulltula, 0x04),
        spec_mapped("oot_lost_woods_gs_soil_bridge", scene::LOST_WOODS, FlagType::GoldSkulltula, 0x01),
        spec_mapped("oot_lost_woods_gs_soil_theater", scene::LOST_WOODS, FlagType::GoldSkulltula, 0x02),
        spec_mapped("oot_lost_woods_gs_bean_ride", scene::LOST_WOODS, FlagType::GoldSkulltula, 0x04),
    ]
}

/// Researched mappings: Overworld skulltulas use scene IDs 0x0A-0x15 for GS flag bytes..
pub open spec fn spec_overworld_skulltulas_use_scene_ids_0x0a_0x15_for_gs_flag_bytes_3() -> Seq<FlagMapping> {
    seq![
        spec_mapped("oot_sacred_meadow_gs_night_adult", scene::SACRED_FOREST_MEADOW, FlagType::GoldSkulltula, 0x01),
        spec_mapped("oot_lake_hylia_gs_lab_wall", scene::LAKE_HYLIA, FlagType::GoldSkulltula, 0x01),
        spec_mapped("oot_lake_hylia_gs_island", scene::LAKE_HYLIA, FlagType::GoldSkulltula, 0x02),
        spec_mapped("oot_lake_hylia_gs_soil", scene::LAKE_HYLIA, FlagType::GoldSkulltula, 0x04),
        spec_mapped("oot_lake_hylia_gs_big_tree", scene::LAKE_HYLIA, FlagType::GoldSkulltula, 0x08),
        spec_mapped("oot_laboratory_gs_crate", scene::LAKESIDE_LABORATORY, FlagType::GoldSkulltula, 0x01),
        spec_mapped("oot_zora_river_gs_tree", scene::ZORA_RIVER, FlagType::GoldSkulltula, 0x01),
        spec_mapped("oot_zora_river_gs_ladder", scene::ZORA_RIVER, FlagType::GoldSkulltula, 0x02),
        spec_mapped("oot_zora_river_gs_near_grotto", scene::ZORA_RIVER, FlagType::GoldSkulltula, 0x04),
        spec_mapped("oot_zora_river_gs_near_bridge", scene::ZORA_RIVER, FlagType::GoldSkulltula, 0x08),
        spec_mapped("oot_zora_domain_gs_waterfall", scene::ZORAS_DOMAIN, FlagType::GoldSkulltula, 0x01),
        spec_mapped("oot_zora_fountain_gs_wall", scene::ZORAS_FOUNTAIN, FlagType::GoldSkulltula, 0x01),
    ]
}

/// Researched mappings: Overworld skulltulas use scene IDs 0x0A-0x15 for GS flag bytes..
pub open spec fn spec_overworld_skulltulas_use_scene_ids_0x0a_0x15_for_gs_flag_bytes_4() -> Seq<FlagMapping> {
    seq![
        spec_mapped("oot_zora_fountain_gs_tree", scene::ZORAS_FOUNTAIN, FlagType::GoldSkulltula, 0x02),
        spec_mapped("oot_zora_fountain_gs_upper", scene::ZORAS_FOUNTAIN, FlagType::GoldSkulltula, 0x04),
        spec_mapped("oot_gerudo_valley_gs_soil", scene::GERUDO_VALLEY, FlagType::GoldSkulltula, 0x01),
        spec_mapped("oot_gerudo_valley_gs_wall", scene::GERUDO_VALLEY, FlagType::GoldSkulltula, 0x02),
        spec_mapped("oot_gerudo_valley_gs_tent", scene::GERUDO_VALLEY, FlagType::GoldSkulltula, 0x04),
        spec_mapped("oot_gerudo_valley_gs_pillar", scene::GERUDO_VALLEY, FlagType::GoldSkulltula, 0x08),
        spec_mapped("oot_gerudo_fortress_gs_target", scene::GERUDO_FORTRESS, FlagType::GoldSkulltula, 0x01),
        spec_mapped("oot_gerudo_fortress_gs_wall", scene::GERUDO_FORTRESS, FlagType::GoldSkulltula, 0x02),
        spec_mapped("oot_desert_colossus_gs_soil", scene::DESERT_COLOSSUS, FlagType::GoldSkulltula, 0x01),
        spec_mapped("oot_desert_colossus_gs_tree", scene::DESERT_COLOSSUS, FlagType::GoldSkulltula, 0x02),
        spec_mapped("oot_desert_colossus_gs_plateau", scene::DESERT_COLOSSUS, FlagType::GoldSkulltula, 0x04),
        spec_mapped("oot_lon_lon_ranch_gs_tree", scene::LON_LON_RANCH, FlagType::GoldSkulltula, 0x01),
    ]
}

/// Researched mappings: Overworld skulltulas use scene IDs 0x0A-0x15 for GS flag bytes..
pub open spec fn spec_overworld_skulltulas_use_scene_ids_0x0a_0x15_for_gs_flag_bytes_5() -> Seq<FlagMapping> {
    seq![
        spec_mapped("oot_lon_lon_ranch_gs_house", scene::LON_LON_RANCH, FlagType::GoldSkulltula, 0x02),
        spec_mapped("oot_lon_lon_ranch_gs_rain_shed", scene::LON_LON_RANCH, FlagType::GoldSkulltula, 0x04),
        spec_mapped("oot_lon_lon_ranch_gs_back_wall", scene::LON_LON_RANCH, FlagType::GoldSkulltula, 0x08),
    ]
}

/// Researched mappings: // Heart Pieces and other freestanding collectibles are tracked via the.
pub open spec fn spec_heart_pieces_and_other_freestanding_collectibles_are_tracked_via_the_1() -> Seq<FlagMapping> {
    seq![
        spec_mapped("oot_ice_cavern_hp", scene::ICE_CAVERN, FlagType::Collectible, 0x0000_0002),
        spec_mapped("oot_kakariko_impa_house_hp", scene::IMPAS_HOUSE, FlagType::Collectible, 0x0000_0002),
        spec_mapped("oot_windmill_hp", scene::WINDMILL_AND_DAMPES_GRAVE, FlagType::Collectible, 0x0000_0002),
        spec_mapped("oot_lon_lon_ranch_silo_hp", scene::LON_LON_RANCH_TOWER, FlagType::Collectible, 0x0000_0002),
        spec_mapped("oot_graveyard_crate_hp", scene::GRAVEYARD, FlagType::Collectible, 0x0000_0010),
        spec_mapped("oot_zora_river_hp_pillar", scene::ZORA_RIVER, FlagType::Collectible, 0x0000_0800),
        spec_mapped("oot_zora_river_hp_platform", scene::ZORA_RIVER, FlagType::Collectible, 0x0000_0010),
        spec_mapped("oot_lake_hylia_hp", scene::LAKE_HYLIA, FlagType::Collectible, 0x4000_0000),
        spec_mapped("oot_zora_fountain_iceberg_hp", scene::ZORAS_FOUNTAIN, FlagType::Collectible, 0x0000_0002),
        spec_mapped("oot_zora_fountain_bottom_hp", scene::ZORAS_FOUNTAIN, FlagType::Collectible, 0x0010_0000),
        spec_mapped("oot_gerudo_valley_crate_hp", scene::GERUDO_VALLEY, FlagType::Collectible, 0x0000_0004),
        spec_mapped("oot_gerudo_valley_waterfall_hp", scene::GERUDO_VALLEY, FlagType::Collectible, 0x0000_0002),
    ]
}

/// Researched mappings: // Heart Pieces and other freestanding collectibles are tracked via the.
pub open spec fn spec_heart_pieces_and_other_freestanding_collectibles_are_tracked_via_the_2() -> Seq<FlagMapping> {
    seq![
        spec_mapped("oot_desert_colossus_hp", scene::DESERT_COLOSSUS, FlagType::Collectible, 0x0000_2000),
        spec_mapped("oot_death_mountain_trail_hp", scene::DEATH_MOUNTAIN_TRAIL, FlagType::Collectible, 0x4000_0000),
        spec_mapped("oot_death_mountain_crater_volcano_hp", scene::DEATH_MOUNTAIN_CRATER, FlagType::Collectible, 0x0000_0100),
        spec_mapped("oot_death_mountain_crater_alcove_hp", scene::DEATH_MOUNTAIN_CRATER, FlagType::Collectible, 0x0000_0004),
        spec_mapped("oot_goron_city_big_pot_hp", scene::GORON_CITY, FlagType::Collectible, 0x8000_0000),
        spec_mapped("oot_hyrule_field_grotto_tektite_hp", scene::GROTTOS, FlagType::Collectible, 0x0000_0002),
    ]
}

/// Researched mappings: MQ DEKU TREE (Scene 0x00).
pub open spec fn spec_mq_deku_tree() -> Seq<FlagMapping> {
    seq![
        spec_mapped("mq_oot_mq_deku_tree_map_chest", scene::DEKU_TREE, FlagType::Chest, 0x0000_0001),
        spec_mapped("mq_oot_mq_deku_tree_compass_chest", scene::DEKU_TREE, FlagType::Chest, 0x0000_0002),
        spec_mapped("mq_oot_mq_deku_tree_slingshot_chest", scene::DEKU_TREE, FlagType::Chest, 0x0000_0008),
        spec_mapped("mq_oot_mq_deku_tree_slingshot_room_far_chest", scene::DEKU_TREE, FlagType::Chest, 0x0000_0010),
        spec_mapped("mq_oot_mq_deku_tree_basement_chest", scene::DEKU_TREE, FlagType::Chest, 0x0000_0004),
        spec_mapped("mq_oot_mq_deku_tree_before_water_platform_chest", scene::DEKU_TREE, FlagType::Chest, 0x0000_0020),
        spec_mapped("mq_oot_mq_deku_tree_after_water_platform_chest", scene::DEKU_TREE, FlagType::Chest, 0x0000_0040),
        spec_mapped("mq_oot_mq_deku_tree_gs_lobby_crate", scene::DEKU_TREE, FlagType::GoldSkulltula, 0x01),
        spec_mapped("mq_oot_mq_deku_tree_gs_compass_room", scene::DEKU_TREE, FlagType::GoldSkulltula, 0x02),
        spec_mapped("mq_oot_mq_deku_tree_gs_song_of_time_blocks", scene::DEKU_TREE, FlagType::GoldSkulltula, 0x04),
        spec_mapped("mq_oot_mq_deku_tree_gs_back_room", scene::DEKU_TREE, FlagType::GoldSkulltula, 0x08),
    ]
}

/// Researched mappings: MQ DODONGO'S CAVERN (Scene 0x01).
pub open spec fn spec_mq_dodongo_s_cavern() -> Seq<FlagMapping> {
    seq![
        spec_mapped("mq_oot_mq_dodongo_cavern_map_chest", scene::DODONGOS_CAVERN, FlagType::Chest, 0x0000_0001),
        spec_mapped("mq_oot_mq_dodongo_cavern_compass_chest", scene::DODONGOS_CAVERN, FlagType::Chest, 0x0000_0020),
        spec_mapped("mq_oot_mq_dodongo_cavern_bomb_bag_chest", scene::DODONGOS_CAVERN, FlagType::Chest, 0x0000_0010),
        spec_mapped("mq_oot_mq_dodongo_cavern_larvae_room_chest", scene::DODONGOS_CAVERN, FlagType::Chest, 0x0000_0002),
        spec_mapped("mq_oot_mq_dodongo_cavern_upper_ledge_chest", scene::DODONGOS_CAVERN, FlagType::Chest, 0x0000_0040),
        spec_mapped("mq_oot_mq_dodongo_cavern_chest_under_grave", scene::DODONGOS_CAVERN, FlagType::Chest, 0x0000_0004),
        spec_mapped("mq_oot_mq_dodongo_cavern_gs_time_blocks", scene::DODONGOS_CAVERN, FlagType::GoldSkulltula, 0x01),
        spec_mapped("mq_oot_mq_dodongo_cavern_gs_larve_room", scene::DODONGOS_CAVERN, FlagType::GoldSkulltula, 0x02),
        spec_mapped("mq_oot_mq_dodongo_cavern_gs_upper_lizalfos", scene::DODONGOS_CAVERN, FlagType::GoldSkulltula, 0x04),
        spec_mapped("mq_oot_mq_dodongo_cavern_gs_poe_room_side", scene::DODONGOS_CAVERN, FlagType::GoldSkulltula, 0x08),
        spec_mapped("mq_oot_mq_dodongo_cavern_gs_near_boss", scene::DODONGOS_CAVERN, FlagType::GoldSkulltula, 0x10),
    ]
}

/// Researched mappings: MQ JABU JABU'S BELLY (Scene 0x02).
pub open spec fn spec_mq_jabu_jabu_s_belly_1() -> Seq<FlagMapping> {
    seq![
        spec_mapped("mq_oot_mq_jabu_jabu_map_chest", scene::JABU_JABU, FlagType::Chest, 0x0000_0001),
        spec_mapped("mq_oot_mq_jabu_jabu_entry_chest", scene::JABU_JABU, FlagType::Chest, 0x0000_0080),
        spec_mapped("mq_oot_mq_jabu_jabu_second_room_b1_chest", scene::JABU_JABU, FlagType::Chest, 0x0000_0002),
        spec_mapped("mq_oot_mq_jabu_jabu_compass_chest", scene::JABU_JABU, FlagType::Chest, 0x0000_0008),
        spec_mapped("mq_oot_mq_jabu_jabu_second_room_1f_chest", scene::JABU_JABU, FlagType::Chest, 0x0000_0100),
        spec_mapped("mq_oot_mq_jabu_jabu_third_room_west_chest", scene::JABU_JABU, FlagType::Chest, 0x0000_0200),
        spec_mapped("mq_oot_mq_jabu_jabu_third_room_east_chest", scene::JABU_JABU, FlagType::Chest, 0x0000_0400),
        spec_mapped("mq_oot_mq_jabu_jabu_boomerang_chest", scene::JABU_JABU, FlagType::Chest, 0x0000_0004),
        spec_mapped("mq_oot_mq_jabu_jabu_sot_room_lower_chest", scene::JABU_JABU, FlagType::Chest, 0x0000_0800),
        spec_mapped("mq_oot_mq_jabu_jabu_back_chest", scene::JABU_JABU, FlagType::Chest, 0x0000_0020),
        spec_mapped("mq_oot_mq_jabu_jabu_pre_boss_chest", scene::JABU_JABU, FlagType::Chest, 0x0000_0040),
        spec_mapped("mq_oot_mq_jabu_jabu_gs_sot_block", scene::JABU_JABU, FlagType::GoldSkulltula, 0x01),
    ]
}

/// Researched mappings: MQ JABU JABU'S BELLY (Scene 0x02).
pub open spec fn spec_mq_jabu_jabu_s_belly_2() -> Seq<FlagMapping> {
    seq![
        spec_mapped("mq_oot_mq_jabu_jabu_gs_back", scene::JABU_JABU, FlagType::GoldSkulltula, 0x02),
        spec_mapped("mq_oot_mq_jabu_jabu_gs_basement_side_room", scene::JABU_JABU, FlagType::GoldSkulltula, 0x04),
        spec_mapped("mq_oot_mq_jabu_jabu_gs_pre_boss", scene::JABU_JABU, FlagType::GoldSkulltula, 0x08),
    ]
}

/// Researched mappings: MQ FOREST TEMPLE (Scene 0x03).
pub open spec fn spec_mq_forest_temple_1() -> Seq<FlagMapping> {
    seq![
        spec_mapped("mq_oot_mq_forest_temple_first_room_chest", scene::FOREST_TEMPLE, FlagType::Chest, 0x0000_0008),
        spec_mapped("mq_oot_mq_forest_temple_wolfos_chest", scene::FOREST_TEMPLE, FlagType::Chest, 0x0000_0001),
        spec_mapped("mq_oot_mq_forest_temple_boss_key_chest", scene::FOREST_TEMPLE, FlagType::Chest, 0x0000_4000),
        spec_mapped("mq_oot_mq_forest_temple_redead_chest", scene::FOREST_TEMPLE, FlagType::Chest, 0x0000_0004),
        spec_mapped("mq_oot_mq_forest_temple_well_chest", scene::FOREST_TEMPLE, FlagType::Chest, 0x0000_0200),
        spec_mapped("mq_oot_mq_forest_temple_east_garden_high_ledge_chest", scene::FOREST_TEMPLE, FlagType::Chest, 0x0000_0010),
        spec_mapped("mq_oot_mq_forest_temple_east_garden_ledge_chest", scene::FOREST_TEMPLE, FlagType::Chest, 0x0000_0020),
        spec_mapped("mq_oot_mq_forest_temple_map_chest", scene::FOREST_TEMPLE, FlagType::Chest, 0x0000_0002),
        spec_mapped("mq_oot_mq_forest_temple_bow_chest", scene::FOREST_TEMPLE, FlagType::Chest, 0x0000_1000),
        spec_mapped("mq_oot_mq_forest_temple_compass_chest", scene::FOREST_TEMPLE, FlagType::Chest, 0x0000_8000),
        spec_mapped("mq_oot_mq_forest_temple_falling_ceiling_chest", scene::FOREST_TEMPLE, FlagType::Chest, 0x0000_0040),
        spec_mapped("mq_oot_mq_forest_temple_gs_entryway", scene::FOREST_TEMPLE, FlagType::GoldSkulltula, 0x01),
    ]
}

/// Researched mappings: MQ FOREST TEMPLE (Scene 0x03).
pub open spec fn spec_mq_forest_temple_2() -> Seq<FlagMapping> {
    seq![
        spec_mapped("mq_oot_mq_forest_temple_gs_climb_room", scene::FOREST_TEMPLE, FlagType::GoldSkulltula, 0x02),
        spec_mapped("mq_oot_mq_forest_temple_gs_west_garden", scene::FOREST_TEMPLE, FlagType::GoldSkulltula, 0x04),
        spec_mapped("mq_oot_mq_forest_temple_gs_east_garden", scene::FOREST_TEMPLE, FlagType::GoldSkulltula, 0x08),
        spec_mapped("mq_oot_mq_forest_temple_gs_well", scene::FOREST_TEMPLE, FlagType::GoldSkulltula, 0x10),
    ]
}

/// Researched mappings: MQ FIRE TEMPLE (Scene 0x04).
pub open spec fn spec_mq_fire_temple_1() -> Seq<FlagMapping> {
    seq![
        spec_mapped("mq_oot_mq_fire_temple_early_lower_left_chest", scene::FIRE_TEMPLE, FlagType::Chest, 0x0000_0001),
        spec_mapped("mq_oot_mq_fire_temple_map_chest", scene::FIRE_TEMPLE, FlagType::Chest, 0x0000_0002),
        spec_mapped("mq_oot_mq_fire_temple_pre_boss_chest", scene::FIRE_TEMPLE, FlagType::Chest, 0x0000_0080),
        spec_mapped("mq_oot_mq_fire_temple_hammer_chest", scene::FIRE_TEMPLE, FlagType::Chest, 0x0000_0008),
        spec_mapped("mq_oot_mq_fire_temple_boss_key_chest", scene::FIRE_TEMPLE, FlagType::Chest, 0x0000_1000),
        spec_mapped("mq_oot_mq_fire_temple_1f_lava_room_goron_chest", scene::FIRE_TEMPLE, FlagType::Chest, 0x0000_0004),
        spec_mapped("mq_oot_mq_fire_temple_compass_chest", scene::FIRE_TEMPLE, FlagType::Chest, 0x0000_0040),
        spec_mapped("mq_oot_mq_fire_temple_maze_lower_chest", scene::FIRE_TEMPLE, FlagType::Chest, 0x0000_0010),
        spec_mapped("mq_oot_mq_fire_temple_maze_upper_chest", scene::FIRE_TEMPLE, FlagType::Chest, 0x0000_0020),
        spec_mapped("mq_oot_mq_fire_temple_maze_side_room_chest", scene::FIRE_TEMPLE, FlagType::Chest, 0x0000_0100),
        spec_mapped("mq_oot_mq_fire_temple_topmost_chest", scene::FIRE_TEMPLE, FlagType::Chest, 0x0000_2000),
        spec_mapped("mq_oot_mq_fire_temple_gs_1f_lava_room", scene::FIRE_TEMPLE, FlagType::GoldSkulltula, 0x01),
    ]
}

/// Researched mappings: MQ FIRE TEMPLE (Scene 0x04).
pub open spec fn spec_mq_fire_temple_2() -> Seq<FlagMapping> {
    seq![
        spec_mapped("mq_oot_mq_fire_temple_gs_burning_block", scene::FIRE_TEMPLE, FlagType::GoldSkulltula, 0x02),
        spec_mapped("mq_oot_mq_fire_temple_gs_fire_walls_side_room", scene::FIRE_TEMPLE, FlagType::GoldSkulltula, 0x04),
        spec_mapped("mq_oot_mq_fire_temple_gs_fire_walls_middle", scene::FIRE_TEMPLE, FlagType::GoldSkulltula, 0x08),
        spec_mapped("mq_oot_mq_fire_temple_gs_topmost", scene::FIRE_TEMPLE, FlagType::GoldSkulltula, 0x10),
    ]
}

/// Researched mappings: MQ WATER TEMPLE (Scene 0x05).
pub open spec fn spec_mq_water_temple() -> Seq<FlagMapping> {
    seq![
        spec_mapped("mq_oot_mq_water_temple_compass_chest", scene::WATER_TEMPLE, FlagType::Chest, 0x0000_0001),
        spec_mapped("mq_oot_mq_water_temple_longshot_chest", scene::WATER_TEMPLE, FlagType::Chest, 0x0000_0002),
        spec_mapped("mq_oot_mq_water_temple_map_chest", scene::WATER_TEMPLE, FlagType::Chest, 0x0000_0004),
        spec_mapped("mq_oot_mq_water_temple_boss_key_chest", scene::WATER_TEMPLE, FlagType::Chest, 0x0000_0040),
        spec_mapped("mq_oot_mq_water_temple_central_pillar_chest", scene::WATER_TEMPLE, FlagType::Chest, 0x0000_0020),
        spec_mapped("mq_oot_mq_water_temple_gs_river", scene::WATER_TEMPLE, FlagType::GoldSkulltula, 0x01),
        spec_mapped("mq_oot_mq_water_temple_gs_three_torch", scene::WATER_TEMPLE, FlagType::GoldSkulltula, 0x02),
        spec_mapped("mq_oot_mq_water_temple_gs_side_loop", scene::WATER_TEMPLE, FlagType::GoldSkulltula, 0x04),
        spec_mapped("mq_oot_mq_water_temple_gs_lizalfos_hallway", scene::WATER_TEMPLE, FlagType::GoldSkulltula, 0x08),
        spec_mapped("mq_oot_mq_water_temple_gs_high_water_changer", scene::WATER_TEMPLE, FlagType::GoldSkulltula, 0x10),
    ]
}

/// Researched mappings: MQ SPIRIT TEMPLE (Scene 0x06).
pub open spec fn spec_mq_spirit_temple_1() -> Seq<FlagMapping> {
    seq![
        spec_mapped("mq_oot_mq_spirit_temple_entrance_initial_chest", scene::SPIRIT_TEMPLE, FlagType::Chest, 0x0000_0001),
        spec_mapped("mq_oot_mq_spirit_temple_lobby_back_left_chest", scene::SPIRIT_TEMPLE, FlagType::Chest, 0x0000_0002),
        spec_mapped("mq_oot_mq_spirit_temple_lobby_back_right_chest", scene::SPIRIT_TEMPLE, FlagType::Chest, 0x0000_0004),
        spec_mapped("mq_oot_mq_spirit_temple_compass_chest", scene::SPIRIT_TEMPLE, FlagType::Chest, 0x0000_0008),
        spec_mapped("mq_oot_mq_spirit_temple_sun_block_room_chest", scene::SPIRIT_TEMPLE, FlagType::Chest, 0x0000_0010),
        spec_mapped("mq_oot_mq_spirit_temple_lobby_front_right_chest", scene::SPIRIT_TEMPLE, FlagType::Chest, 0x0000_0020),
        spec_mapped("mq_oot_mq_spirit_temple_map_chest", scene::SPIRIT_TEMPLE, FlagType::Chest, 0x0000_0040),
        spec_mapped("mq_oot_mq_spirit_temple_map_room_back_chest", scene::SPIRIT_TEMPLE, FlagType::Chest, 0x0000_0080),
        spec_mapped("mq_oot_mq_spirit_temple_paradox_chest", scene::SPIRIT_TEMPLE, FlagType::Chest, 0x0000_0100),
        spec_mapped("mq_oot_mq_spirit_temple_child_upper_ground_chest", scene::SPIRIT_TEMPLE, FlagType::Chest, 0x0000_0200),
        spec_mapped("mq_oot_mq_spirit_temple_child_upper_ledge_chest", scene::SPIRIT_TEMPLE, FlagType::Chest, 0x0000_0400),
        spec_mapped("mq_oot_mq_spirit_temple_silver_block_room_target_chest", scene::SPIRIT_TEMPLE, FlagType::Chest, 0x0000_0800),
    ]
}

/// Researched mappings: MQ SPIRIT TEMPLE (Scene 0x06).
pub open spec fn spec_mq_spirit_temple_2() -> Seq<FlagMapping> {
    seq![
        spec_mapped("mq_oot_mq_spirit_temple_chest_in_box", scene::SPIRIT_TEMPLE, FlagType::Chest, 0x0000_1000),
        spec_mapped("mq_oot_mq_spirit_temple_statue_room_ledge_chest", scene::SPIRIT_TEMPLE, FlagType::Chest, 0x0000_2000),
        spec_mapped("mq_oot_mq_spirit_temple_purple_leever_chest", scene::SPIRIT_TEMPLE, FlagType::Chest, 0x0000_4000),
        spec_mapped("mq_oot_mq_spirit_temple_symphony_room_chest", scene::SPIRIT_TEMPLE, FlagType::Chest, 0x0000_8000),
        spec_mapped("mq_oot_mq_spirit_temple_beamos_room_chest", scene::SPIRIT_TEMPLE, FlagType::Chest, 0x0001_0000),
        spec_mapped("mq_oot_mq_spirit_temple_dinolfos_room_chest", scene::SPIRIT_TEMPLE, FlagType::Chest, 0x0002_0000),
        spec_mapped("mq_oot_mq_spirit_temple_boss_key_chest", scene::SPIRIT_TEMPLE, FlagType::Chest, 0x0004_0000),
        spec_mapped("mq_oot_mq_spirit_temple_topmost_chest", scene::SPIRIT_TEMPLE, FlagType::Chest, 0x0008_0000),
        spec_mapped("mq_oot_mq_spirit_temple_gs_sun_block_room", scene::SPIRIT_TEMPLE, FlagType::GoldSkulltula, 0x01),
        spec_mapped("mq_oot_mq_spirit_temple_gs_leever_room", scene::SPIRIT_TEMPLE, FlagType::GoldSkulltula, 0x02),
        spec_mapped("mq_oot_mq_spirit_temple_gs_symphony_room", scene::SPIRIT_TEMPLE, FlagType::GoldSkulltula, 0x04),
        spec_mapped("mq_oot_mq_spirit_temple_gs_top_floor_left_wall", scene::SPIRIT_TEMPLE, FlagType::GoldSkulltula, 0x08),
    ]
}

/// Researched mappings: MQ SPIRIT TEMPLE (Scene 0x06).
pub open spec fn spec_mq_spirit_temple_3() -> Seq<FlagMapping> {
    seq![
        spec_mapped("mq_oot_mq_spirit_temple_gs_top_floor_back_wall", scene::SPIRIT_TEMPLE, FlagType::GoldSkulltula, 0x10),
    ]
}

/// Researched mappings: MQ SHADOW TEMPLE (Scene 0x07).
pub open spec fn spec_mq_shadow_temple_1() -> Seq<FlagMapping> {
    seq![
        spec_mapped("mq_oot_mq_shadow_temple_compass_chest", scene::SHADOW_TEMPLE, FlagType::Chest, 0x0000_0008),
        spec_mapped("mq_oot_mq_shadow_temple_hover_boots_chest", scene::SHADOW_TEMPLE, FlagType::Chest, 0x0000_0080),
        spec_mapped("mq_oot_mq_shadow_temple_first_gibdos_chest", scene::SHADOW_TEMPLE, FlagType::Chest, 0x0000_0001),
        spec_mapped("mq_oot_mq_shadow_temple_map_chest", scene::SHADOW_TEMPLE, FlagType::Chest, 0x0000_0002),
        spec_mapped("mq_oot_mq_shadow_temple_boat_passage_chest", scene::SHADOW_TEMPLE, FlagType::Chest, 0x0000_0004),
        spec_mapped("mq_oot_mq_shadow_temple_second_silver_rupee_visible_chest", scene::SHADOW_TEMPLE, FlagType::Chest, 0x0000_0010),
        spec_mapped("mq_oot_mq_shadow_temple_second_silver_rupee_invisible_chest", scene::SHADOW_TEMPLE, FlagType::Chest, 0x0000_0020),
        spec_mapped("mq_oot_mq_shadow_temple_huge_pit_silver_rupee_chest", scene::SHADOW_TEMPLE, FlagType::Chest, 0x0000_0040),
        spec_mapped("mq_oot_mq_shadow_temple_spike_curtain_ground_chest", scene::SHADOW_TEMPLE, FlagType::Chest, 0x0000_0100),
        spec_mapped("mq_oot_mq_shadow_temple_spike_curtain_upper_cage_chest", scene::SHADOW_TEMPLE, FlagType::Chest, 0x0000_0200),
        spec_mapped("mq_oot_mq_shadow_temple_spike_curtain_upper_switch_chest", scene::SHADOW_TEMPLE, FlagType::Chest, 0x0000_0400),
        spec_mapped("mq_oot_mq_shadow_temple_invisible_spike_floor_chest", scene::SHADOW_TEMPLE, FlagType::Chest, 0x0000_0800),
    ]
}

/// Researched mappings: MQ SHADOW TEMPLE (Scene 0x07).
pub open spec fn spec_mq_shadow_temple_2() -> Seq<FlagMapping> {
    seq![
        spec_mapped("mq_oot_mq_shadow_temple_stalfos_room_chest", scene::SHADOW_TEMPLE, FlagType::Chest, 0x0000_1000),
        spec_mapped("mq_oot_mq_shadow_temple_wind_hint_chest", scene::SHADOW_TEMPLE, FlagType::Chest, 0x0020_0000),
        spec_mapped("mq_oot_mq_shadow_temple_after_wind_gibdos_chest", scene::SHADOW_TEMPLE, FlagType::Chest, 0x0000_2000),
        spec_mapped("mq_oot_mq_shadow_temple_after_wind_bomb_chest", scene::SHADOW_TEMPLE, FlagType::Chest, 0x0010_0000),
        spec_mapped("mq_oot_mq_shadow_temple_hidden_dead_hand_chest", scene::SHADOW_TEMPLE, FlagType::Chest, 0x0000_4000),
        spec_mapped("mq_oot_mq_shadow_temple_crushing_wall_left_chest", scene::SHADOW_TEMPLE, FlagType::Chest, 0x0000_8000),
        spec_mapped("mq_oot_mq_shadow_temple_boss_key_chest", scene::SHADOW_TEMPLE, FlagType::Chest, 0x0001_0000),
        spec_mapped("mq_oot_mq_shadow_temple_gs_spike_curtain", scene::SHADOW_TEMPLE, FlagType::GoldSkulltula, 0x01),
        spec_mapped("mq_oot_mq_shadow_temple_gs_wind_hint", scene::SHADOW_TEMPLE, FlagType::GoldSkulltula, 0x02),
        spec_mapped("mq_oot_mq_shadow_temple_gs_after_wind_bomb", scene::SHADOW_TEMPLE, FlagType::GoldSkulltula, 0x04),
        spec_mapped("mq_oot_mq_shadow_temple_gs_after_boat", scene::SHADOW_TEMPLE, FlagType::GoldSkulltula, 0x08),
        spec_mapped("mq_oot_mq_shadow_temple_gs_pre_boss", scene::SHADOW_TEMPLE, FlagType::GoldSkulltula, 0x10),
    ]
}

/// Researched mappings: MQ BOTTOM OF THE WELL (Scene 0x08).
pub open spec fn spec_mq_bottom_of_the_well() -> Seq<FlagMapping> {
    seq![
        spec_mapped("mq_oot_mq_bottom_of_the_well_map_chest", scene::BOTTOM_OF_THE_WELL, FlagType::Chest, 0x0000_0001),
        spec_mapped("mq_oot_mq_bottom_of_the_well_lens_chest", scene::BOTTOM_OF_THE_WELL, FlagType::Chest, 0x0000_0008),
        spec_mapped("mq_oot_mq_bottom_of_the_well_compass_chest", scene::BOTTOM_OF_THE_WELL, FlagType::Chest, 0x0000_0002),
        spec_mapped("mq_oot_mq_bottom_of_the_well_gs_basement", scene::BOTTOM_OF_THE_WELL, FlagType::GoldSkulltula, 0x01),
        spec_mapped("mq_oot_mq_bottom_of_the_well_gs_west_middle_room", scene::BOTTOM_OF_THE_WELL, FlagType::GoldSkulltula, 0x02),
        spec_mapped("mq_oot_mq_bottom_of_the_well_gs_coffin_room", scene::BOTTOM_OF_THE_WELL, FlagType::GoldSkulltula, 0x04),
    ]
}

/// Researched mappings: MQ ICE CAVERN (Scene 0x09).
pub open spec fn spec_mq_ice_cavern() -> Seq<FlagMapping> {
    seq![
        spec_mapped("mq_oot_mq_ice_cavern_map_chest", scene::ICE_CAVERN, FlagType::Chest, 0x0000_0001),
        spec_mapped("mq_oot_mq_ice_cavern_compass_chest", scene::ICE_CAVERN, FlagType::Chest, 0x0000_0002),
        spec_mapped("mq_oot_mq_ice_cavern_gs_compass_room", scene::ICE_CAVERN, FlagType::GoldSkulltula, 0x01),
        spec_mapped("mq_oot_mq_ice_cavern_gs_clear_blocks", scene::ICE_CAVERN, FlagType::GoldSkulltula, 0x02),
        spec_mapped("mq_oot_mq_ice_cavern_gs_scarecrow", scene::ICE_CAVERN, FlagType::GoldSkulltula, 0x04),
    ]
}

/// Researched mappings: MQ GERUDO TRAINING GROUND (Scene 0x0B).
pub open spec fn spec_mq_gerudo_training_ground_1() -> Seq<FlagMapping> {
    seq![
        spec_mapped("mq_oot_mq_gerudo_training_grounds_entryway_left_chest", scene::GERUDO_TRAINING_GROUND, FlagType::Chest, 0x0000_0001),
        spec_mapped("mq_oot_mq_gerudo_training_grounds_entryway_right_chest", scene::GERUDO_TRAINING_GROUND, FlagType::Chest, 0x0000_0002),
        spec_mapped("mq_oot_mq_gerudo_training_grounds_maze_first_chest", scene::GERUDO_TRAINING_GROUND, FlagType::Chest, 0x0000_1000),
        spec_mapped("mq_oot_mq_gerudo_training_grounds_maze_second_chest", scene::GERUDO_TRAINING_GROUND, FlagType::Chest, 0x0002_0000),
        spec_mapped("mq_oot_mq_gerudo_training_grounds_maze_third_chest", scene::GERUDO_TRAINING_GROUND, FlagType::Chest, 0x0004_0000),
        spec_mapped("mq_oot_mq_gerudo_training_grounds_maze_fourth_chest", scene::GERUDO_TRAINING_GROUND, FlagType::Chest, 0x0010_0000),
        spec_mapped("mq_oot_mq_gerudo_training_grounds_maze_right_side_middle_chest", scene::GERUDO_TRAINING_GROUND, FlagType::Chest, 0x0000_0004),
        spec_mapped("mq_oot_mq_gerudo_training_grounds_maze_right_side_right_chest", scene::GERUDO_TRAINING_GROUND, FlagType::Chest, 0x0000_0008),
        spec_mapped("mq_oot_mq_gerudo_training_grounds_right_side_dinolfos_chest", scene::GERUDO_TRAINING_GROUND, FlagType::Chest, 0x0000_0010),
        spec_mapped("mq_oot_mq_gerudo_training_grounds_water_room_chest", scene::GERUDO_TRAINING_GROUND, FlagType::Chest, 0x0000_0020),
        spec_mapped("mq_oot_mq_gerudo_training_grounds_left_side_iron_knuckle_chest", scene::GERUDO_TRAINING_GROUND, FlagType::Chest, 0x0000_0040),
        spec_mapped("mq_oot_mq_gerudo_training_grounds_stalfos_room_chest", scene::GERUDO_TRAINING_GROUND, FlagType::Chest, 0x0000_0080),
    ]
}

/// Researched mappings: MQ GERUDO TRAINING GROUND (Scene 0x0B).
pub open spec fn spec_mq_gerudo_training_ground_2() -> Seq<FlagMapping> {
    seq![
        spec_mapped("mq_oot_mq_gerudo_training_grounds_silver_block_room_chest", scene::GERUDO_TRAINING_GROUND, FlagType::Chest, 0x0000_0100),
        spec_mapped("mq_oot_mq_gerudo_training_grounds_ice_arrows_chest", scene::GERUDO_TRAINING_GROUND, FlagType::Chest, 0x0000_0200),
        spec_mapped("mq_oot_mq_gerudo_training_grounds_spinning_statue_chest", scene::GERUDO_TRAINING_GROUND, FlagType::Chest, 0x0000_0400),
        spec_mapped("mq_oot_mq_gerudo_training_grounds_torch_slug_room_clear_chest", scene::GERUDO_TRAINING_GROUND, FlagType::Chest, 0x0000_0800),
        spec_mapped("mq_oot_mq_gerudo_training_grounds_torch_slug_room_switch_chest", scene::GERUDO_TRAINING_GROUND, FlagType::Chest, 0x0008_0000),
    ]
}

/// Researched mappings: MQ GANON'S CASTLE (Scene 0x0D).
pub open spec fn spec_mq_ganon_s_castle() -> Seq<FlagMapping> {
    seq![
        spec_mapped("mq_oot_mq_ganon_castle_light_trial_chest", scene::GANONS_CASTLE, FlagType::Chest, 0x0001_0000),
        spec_mapped("mq_oot_mq_ganon_castle_forest_trial_first_chest", scene::GANONS_CASTLE, FlagType::Chest, 0x0000_0200),
        spec_mapped("mq_oot_mq_ganon_castle_forest_trial_second_chest", scene::GANONS_CASTLE, FlagType::Chest, 0x0000_0001),
        spec_mapped("mq_oot_mq_ganon_castle_water_trial_chest", scene::GANONS_CASTLE, FlagType::Chest, 0x0000_0080),
        spec_mapped("mq_oot_mq_ganon_castle_spirit_trial_first_chest", scene::GANONS_CASTLE, FlagType::Chest, 0x0004_0000),
        spec_mapped("mq_oot_mq_ganon_castle_spirit_trial_second_chest", scene::GANONS_CASTLE, FlagType::Chest, 0x0010_0000),
        spec_mapped("mq_oot_mq_ganon_castle_spirit_trial_back_right_sun_chest", scene::GANONS_CASTLE, FlagType::Chest, 0x0000_0002),
        spec_mapped("mq_oot_mq_ganon_castle_spirit_trial_back_left_sun_chest", scene::GANONS_CASTLE, FlagType::Chest, 0x0000_0004),
        spec_mapped("mq_oot_mq_ganon_castle_spirit_trial_front_left_sun_chest", scene::GANONS_CASTLE, FlagType::Chest, 0x0000_0008),
        spec_mapped("mq_oot_mq_ganon_castle_spirit_trial_gold_gauntlets_chest", scene::GANONS_CASTLE, FlagType::Chest, 0x0000_0010),
        spec_mapped("mq_oot_mq_ganon_castle_shadow_trial_bomb_flower_chest", scene::GANONS_CASTLE, FlagType::Chest, 0x0000_0100),
        spec_mapped("mq_oot_mq_ganon_castle_shadow_trial_switch_chest", scene::GANONS_CASTLE, FlagType::Chest, 0x0000_0020),
    ]
}

/// All researched mappings, in the order they are added to the table.
pub open spec fn spec_known_oot_mappings() -> Seq<FlagMapping> {
    spec_misc()
        + spec_dodongo_s_cavern()
        + spec_jabu_jabu_s_belly()
        + spec_forest_temple_1()
        + spec_forest_temple_2()
        + spec_fire_temple()
        + spec_water_temple()
        + spec_spirit_temple_1()
        + spec_spirit_temple_2()
        + spec_shadow_temple_1()
        + spec_shadow_temple_2()
        + spec_bottom_of_the_well_1()
        + spec_bottom_of_the_well_2()
        + spec_ice_cavern()
        + spec_gerudo_training_ground()
        + spec_dodongo_s_cavern_boss()
        + spec_ganon_s_castle_1()
        + spec_ganon_s_castle_2()
        + spec_the_treasure_chest_game_has_5_rooms_with_2_chests_each_plus_the_final_hp_chest()
        + spec_grottos_shared_scene_for_all_grottos()
        + spec_graveyard_graves()
        + spec_kokiri_forest()
        + spec_zora_s_domain()
        + spec_gerudo_valley()
        + spec_desert_colossus_spirit_temple_exterior_chests()
        + spec_gerudo_fortress()
        + spec_haunted_wasteland()
        + spec_death_mountain_trail()
        + spec_gold_skulltula_flags_are_stored_in_a_24_byte_section_at_save_1()
        + spec_gold_skulltula_flags_are_stored_in_a_24_byte_section_at_save_2()
        + spec_gold_skulltula_flags_are_stored_in_a_24_byte_section_at_save_3()
        + spec_gold_skulltula_flags_are_stored_in_a_24_byte_section_at_save_4()
        + spec_overworld_skulltulas_use_scene_ids_0x0a_0x15_for_gs_flag_bytes_1()
        + spec_overworld_skulltulas_use_scene_ids_0x0a_0x15_for_gs_flag_bytes_2()
        + spec_overworld_skulltulas_use_scene_ids_0x0a_0x15_for_gs_flag_bytes_3()
        + spec_overworld_skulltulas_use_scene_ids_0x0a_0x15_for_gs_flag_bytes_4()
        + spec_overworld_skulltulas_use_scene_ids_0x0a_0x15_for_gs_flag_bytes_5()
        + spec_heart_pieces_and_other_freestanding_collectibles_are_tracked_via_the_1()
        + spec_heart_pieces_and_other_freestanding_collectibles_are_tracked_via_the_2()
        + spec_mq_deku_tree()
        + spec_mq_dodongo_s_cavern()
        + spec_mq_jabu_jabu_s_belly_1()
        + spec_mq_jabu_jabu_s_belly_2()
        + spec_mq_forest_temple_1()
        + spec_mq_forest_temple_2()
        + spec_mq_fire_temple_1()
        + spec_mq_fire_temple_2()
        + spec_mq_water_temple()
        + spec_mq_spirit_temple_1()
        + spec_mq_spirit_temple_2()
        + spec_mq_spirit_temple_3()
        + spec_mq_shadow_temple_1()
        + spec_mq_shadow_temple_2()
        + spec_mq_bottom_of_the_well()
        + spec_mq_ice_cavern()
        + spec_mq_gerudo_training_ground_1()
        + spec_mq_gerudo_training_ground_2()
        + spec_mq_ganon_s_castle()
}

/// Researched mappings: misc.
fn misc() -> (v: Vec<FlagMapping>)
    ensures
        v@ == spec_misc(),
        all_complete(v@),
{
    let v = vec![
        FlagMapping::mapped("oot_deku_tree_compass_room_side_chest", scene::DEKU_TREE, FlagType::Chest, 0x0000_0040),
        FlagMapping::mapped("oot_deku_tree_slingshot_side_chest", scene::DEKU_TREE, FlagType::Chest, 0x0000_0020),
        FlagMapping::mapped("oot_deku_tree_basement_chest", scene::DEKU_TREE, FlagType::Chest, 0x0000_0010),
        FlagMapping::mapped("oot_deku_tree_map_chest", scene::DEKU_TREE, FlagType::Chest, 0x0000_0008),
        FlagMapping::mapped("oot_deku_tree_compass_chest", scene::DEKU_TREE, FlagType::Chest, 0x0000_0004),
        FlagMapping::mapped("oot_deku_tree_slingshot_chest", scene::DEKU_TREE, FlagType::Chest, 0x0000_0002),
    ];
    assert(v@ =~= spec_misc());
    v
}

/// Researched mappings: DODONGO'S CAVERN (Scene 0x01).
fn dodongo_s_cavern() -> (v: Vec<FlagMapping>)
    ensures
        v@ == spec_dodongo_s_cavern(),
        all_complete(v@),
{
    let v = vec![
        FlagMapping::mapped("oot_dodongo_cavern_bridge_chest", scene::DODONGOS_CAVERN, FlagType::Chest, 0x0000_0400),
        FlagMapping::mapped("oot_dodongo_cavern_map_chest", scene::DODONGOS_CAVERN, FlagType::Chest, 0x0000_0100),
        FlagMapping::mapped("oot_dodongo_cavern_bomb_bag_side_chest", scene::DODONGOS_CAVERN, FlagType::Chest, 0x0000_0040),
        FlagMapping::mapped("oot_dodongo_cavern_compass_chest", scene::DODONGOS_CAVERN, FlagType::Chest, 0x0000_0020),
        FlagMapping::mapped("oot_dodongo_cavern_bomb_bag_chest", scene::DODONGOS_CAVERN, FlagType::Chest, 0x0000_0010),
    ];
    assert(v@ =~= spec_dodongo_s_cavern());
    v
}

/// Researched mappings: JABU JABU'S BELLY (Scene 0x02).
fn jabu_jabu_s_belly() -> (v: Vec<FlagMapping>)
    ensures
        v@ == spec_jabu_jabu_s_belly(),
        all_complete(v@),
{
    let v = vec![
        FlagMapping::mapped("oot_jabu_jabu_compass_chest", scene::JABU_JABU, FlagType::Chest, 0x0000_0010),
        FlagMapping::mapped("oot_jabu_jabu_map_chest", scene::JABU_JABU, FlagType::Chest, 0x0000_0004),
        FlagMapping::mapped("oot_jabu_jabu_boomerang_chest", scene::JABU_JABU, FlagType::Chest, 0x0000_0002),
    ];
    assert(v@ =~= spec_jabu_jabu_s_belly());
    v
}

/// Researched mappings: FOREST TEMPLE (Scene 0x03).
fn forest_temple_1() -> (v: Vec<FlagMapping>)
    ensures
        v@ == spec_forest_temple_1(),
        all_complete(v@),
{
    let v = vec![
        FlagMapping::mapped("oot_forest_temple_compass", scene::FOREST_TEMPLE, FlagType::Chest, 0x0000_8000),
        FlagMapping::mapped("oot_forest_temple_boss_key", scene::FOREST_TEMPLE, FlagType::Chest, 0x0000_4000),
        FlagMapping::mapped("oot_forest_temple_poe_key", scene::FOREST_TEMPLE, FlagType::Chest, 0x0000_2000),
        FlagMapping::mapped("oot_forest_temple_bow", scene::FOREST_TEMPLE, FlagType::Chest, 0x0000_1000),
        FlagMapping::mapped("oot_forest_temple_checkerboard", scene::FOREST_TEMPLE, FlagType::Chest, 0x0000_0800),
        FlagMapping::mapped("oot_forest_temple_well", scene::FOREST_TEMPLE, FlagType::Chest, 0x0000_0200),
        FlagMapping::mapped("oot_forest_temple_antichamber", scene::FOREST_TEMPLE, FlagType::Chest, 0x0000_0080),
        FlagMapping::mapped("oot_forest_temple_garden", scene::FOREST_TEMPLE, FlagType::Chest, 0x0000_0020),
        FlagMapping::mapped("oot_forest_temple_maze", scene::FOREST_TEMPLE, FlagType::Chest, 0x0000_0010),
        FlagMapping::mapped("oot_forest_temple_tree_small_key", scene::FOREST_TEMPLE, FlagType::Chest, 0x0000_0008),
        FlagMapping::mapped("oot_forest_temple_floormaster", scene::FOREST_TEMPLE, FlagType::Chest, 0x0000_0004),
        FlagMapping::mapped("oot_forest_temple_map", scene::FOREST_TEMPLE, FlagType::Chest, 0x0000_0002),
    ];
    assert(v@ =~= spec_forest_temple_1());
    v
}

/// Researched mappings: FOREST TEMPLE (Scene 0x03).
fn forest_temple_2() -> (v: Vec<FlagMapping>)
    ensures
        v@ == spec_forest_temple_2(),
        all_complete(v@),
{
    let v = vec![
        FlagMapping::mapped("oot_forest_temple_mini_boss_key", scene::FOREST_TEMPLE, FlagType::Chest, 0x0000_0001),
    ];
    assert(v@ =~= spec_forest_temple_2());
    v
}

/// Researched mappings: FIRE TEMPLE (Scene 0x04).
fn fire_temple() -> (v: Vec<FlagMapping>)
    ensures
        v@ == spec_fire_temple(),
        all_complete(v@),
{
    let v = vec![
        FlagMapping::mapped("oot_fire_temple_scarecrow_chest", scene::FIRE_TEMPLE, FlagType::Chest, 0x0000_2000),
        FlagMapping::mapped("oot_fire_temple_boss_key_chest", scene::FIRE_TEMPLE, FlagType::Chest, 0x0000_1000),
        FlagMapping::mapped("oot_fire_temple_above_maze_chest", scene::FIRE_TEMPLE, FlagType::Chest, 0x0000_0800),
        FlagMapping::mapped("oot_fire_temple_lava_room_south_jail_chest", scene::FIRE_TEMPLE, FlagType::Chest, 0x0000_0400),
        FlagMapping::mapped("oot_fire_temple_jail_1_chest", scene::FIRE_TEMPLE, FlagType::Chest, 0x0000_0200),
        FlagMapping::mapped("oot_fire_temple_maze_jail_chest", scene::FIRE_TEMPLE, FlagType::Chest, 0x0000_0100),
        FlagMapping::mapped("oot_fire_temple_lava_room_north_jail_chest", scene::FIRE_TEMPLE, FlagType::Chest, 0x0000_0080),
        FlagMapping::mapped("oot_fire_temple_below_maze_chest", scene::FIRE_TEMPLE, FlagType::Chest, 0x0000_0040),
        FlagMapping::mapped("oot_fire_temple_maze_chest", scene::FIRE_TEMPLE, FlagType::Chest, 0x0000_0020),
        FlagMapping::mapped("oot_fire_temple_boss_key_side_chest", scene::FIRE_TEMPLE, FlagType::Chest, 0x0000_0010),
    ];
    assert(v@ =~= spec_fire_temple());
    v
}

/// Researched mappings: WATER TEMPLE (Scene 0x05).
fn water_temple() -> (v: Vec<FlagMapping>)
    ensures
        v@ == spec_water_temple(),
        all_complete(v@),
{
    let v = vec![
        FlagMapping::mapped("oot_water_temple_dragon_chest", scene::WATER_TEMPLE, FlagType::Chest, 0x0000_0400),
        FlagMapping::mapped("oot_water_temple_shell_chest", scene::WATER_TEMPLE, FlagType::Chest, 0x0000_0200),
        FlagMapping::mapped("oot_water_temple_corridor_chest", scene::WATER_TEMPLE, FlagType::Chest, 0x0000_0100),
        FlagMapping::mapped("oot_water_temple_bombable_chest", scene::WATER_TEMPLE, FlagType::Chest, 0x0000_0080),
        FlagMapping::mapped("oot_water_temple_boss_key_chest", scene::WATER_TEMPLE, FlagType::Chest, 0x0000_0040),
        FlagMapping::mapped("oot_water_temple_river_chest", scene::WATER_TEMPLE, FlagType::Chest, 0x0000_0008),
    ];
    assert(v@ =~= spec_water_temple());
    v
}

/// Researched mappings: SPIRIT TEMPLE (Scene 0x06).
fn spirit_temple_1() -> (v: Vec<FlagMapping>)
    ensures
        v@ == spec_spirit_temple_1(),
        all_complete(v@),
{
    let v = vec![
        FlagMapping::mapped("oot_spirit_temple_adult_invisible_1", scene::SPIRIT_TEMPLE, FlagType::Chest, 0x0020_0000),
        FlagMapping::mapped("oot_spirit_temple_adult_invisible_2", scene::SPIRIT_TEMPLE, FlagType::Chest, 0x0010_0000),
        FlagMapping::mapped("oot_spirit_temple_adult_topmost_sun_on_wall", scene::SPIRIT_TEMPLE, FlagType::Chest, 0x0004_0000),
        FlagMapping::mapped("oot_spirit_temple_statue_upper_right", scene::SPIRIT_TEMPLE, FlagType::Chest, 0x0000_8000),
        FlagMapping::mapped("oot_spirit_temple_adult_suns_on_wall_1", scene::SPIRIT_TEMPLE, FlagType::Chest, 0x0000_4000),
        FlagMapping::mapped("oot_spirit_temple_adult_suns_on_wall_2", scene::SPIRIT_TEMPLE, FlagType::Chest, 0x0000_2000),
        FlagMapping::mapped("oot_spirit_temple_child_climb_2", scene::SPIRIT_TEMPLE, FlagType::Chest, 0x0000_1000),
        FlagMapping::mapped("oot_spirit_temple_adult_boss_key_chest", scene::SPIRIT_TEMPLE, FlagType::Chest, 0x0000_0400),
        FlagMapping::mapped("oot_spirit_temple_child_second_chest", scene::SPIRIT_TEMPLE, FlagType::Chest, 0x0000_0100),
        FlagMapping::mapped("oot_spirit_temple_adult_lullaby", scene::SPIRIT_TEMPLE, FlagType::Chest, 0x0000_0080),
        FlagMapping::mapped("oot_spirit_temple_child_climb_1", scene::SPIRIT_TEMPLE, FlagType::Chest, 0x0000_0040),
        FlagMapping::mapped("oot_spirit_temple_statue_hands", scene::SPIRIT_TEMPLE, FlagType::Chest, 0x0000_0020),
    ];
    assert(v@ =~= spec_spirit_temple_1());
    v
}

/// Researched mappings: SPIRIT TEMPLE (Scene 0x06).
fn spirit_temple_2() -> (v: Vec<FlagMapping>)
    ensures
        v@ == spec_spirit_temple_2(),
        all_complete(v@),
{
    let v = vec![
        FlagMapping::mapped("oot_spirit_temple_adult_silver_rupees", scene::SPIRIT_TEMPLE, FlagType::Chest, 0x0000_0010),
        FlagMapping::mapped("oot_spirit_temple_statue_base", scene::SPIRIT_TEMPLE, FlagType::Chest, 0x0000_0008),
        FlagMapping::mapped("oot_spirit_temple_sun_block_room_torches", scene::SPIRIT_TEMPLE, FlagType::Chest, 0x0000_0004),
        FlagMapping::mapped("oot_spirit_temple_child_first_chest", scene::SPIRIT_TEMPLE, FlagType::Chest, 0x0000_0002),
    ];
    assert(v@ =~= spec_spirit_temple_2());
    v
}

/// Researched mappings: SHADOW TEMPLE (Scene 0x07).
fn shadow_temple_1() -> (v: Vec<FlagMapping>)
    ensures
        v@ == spec_shadow_temple_1(),
        all_complete(v@),
{
    let v = vec![
        FlagMapping::mapped("oot_shadow_temple_spinning_blades_invisible", scene::SHADOW_TEMPLE, FlagType::Chest, 0x0040_0000),
        FlagMapping::mapped("oot_shadow_temple_wind_room_hint", scene::SHADOW_TEMPLE, FlagType::Chest, 0x0020_0000),
        FlagMapping::mapped("oot_shadow_temple_after_wind_invisible", scene::SHADOW_TEMPLE, FlagType::Chest, 0x0010_0000),
        FlagMapping::mapped("oot_shadow_temple_invisible_floormaster", scene::SHADOW_TEMPLE, FlagType::Chest, 0x0000_2000),
        FlagMapping::mapped("oot_shadow_temple_spinning_blades_visible", scene::SHADOW_TEMPLE, FlagType::Chest, 0x0000_1000),
        FlagMapping::mapped("oot_shadow_temple_boss_key_room_2", scene::SHADOW_TEMPLE, FlagType::Chest, 0x0000_0800),
        FlagMapping::mapped("oot_shadow_temple_boss_key_room_1", scene::SHADOW_TEMPLE, FlagType::Chest, 0x0000_0400),
        FlagMapping::mapped("oot_shadow_temple_invisible_spike_room", scene::SHADOW_TEMPLE, FlagType::Chest, 0x0000_0200),
        FlagMapping::mapped("oot_shadow_temple_after_wind", scene::SHADOW_TEMPLE, FlagType::Chest, 0x0000_0100),
        FlagMapping::mapped("oot_shadow_temple_hover_boots", scene::SHADOW_TEMPLE, FlagType::Chest, 0x0000_0080),
        FlagMapping::mapped("oot_shadow_temple_falling_spikes_upper_1", scene::SHADOW_TEMPLE, FlagType::Chest, 0x0000_0040),
        FlagMapping::mapped("oot_shadow_temple_falling_spikes_lower", scene::SHADOW_TEMPLE, FlagType::Chest, 0x0000_0020),
    ];
    assert(v@ =~= spec_shadow_temple_1());
    v
}

/// Researched mappings: SHADOW TEMPLE (Scene 0x07).
fn shadow_temple_2() -> (v: Vec<FlagMapping>)
    ensures
        v@ == spec_shadow_temple_2(),
        all_complete(v@),
{
    let v = vec![
        FlagMapping::mapped("oot_shadow_temple_falling_spikes_upper_2", scene::SHADOW_TEMPLE, FlagType::Chest, 0x0000_0010),
        FlagMapping::mapped("oot_shadow_temple_compass", scene::SHADOW_TEMPLE, FlagType::Chest, 0x0000_0008),
        FlagMapping::mapped("oot_shadow_temple_silver_rupees", scene::SHADOW_TEMPLE, FlagType::Chest, 0x0000_0004),
        FlagMapping::mapped("oot_shadow_temple_map", scene::SHADOW_TEMPLE, FlagType::Chest, 0x0000_0002),
    ];
    assert(v@ =~= spec_shadow_temple_2());
    v
}

/// Researched mappings: BOTTOM OF THE WELL (Scene 0x08).
fn bottom_of_the_well_1() -> (v: Vec<FlagMapping>)
    ensures
        v@ == spec_bottom_of_the_well_1(),
        all_complete(v@),
{
    let v = vec![
        FlagMapping::mapped("oot_bottom_of_the_well_blood_chest", scene::BOTTOM_OF_THE_WELL, FlagType::Chest, 0x0010_0000),
        FlagMapping::mapped("oot_bottom_of_the_well_underwater_2", scene::BOTTOM_OF_THE_WELL, FlagType::Chest, 0x0001_0000),
        FlagMapping::mapped("oot_bottom_of_the_well_east_cage", scene::BOTTOM_OF_THE_WELL, FlagType::Chest, 0x0000_4000),
        FlagMapping::mapped("oot_bottom_of_the_well_pits", scene::BOTTOM_OF_THE_WELL, FlagType::Chest, 0x0000_1000),
        FlagMapping::mapped("oot_bottom_of_the_well_east", scene::BOTTOM_OF_THE_WELL, FlagType::Chest, 0x0000_0400),
        FlagMapping::mapped("oot_bottom_of_the_well_underwater", scene::BOTTOM_OF_THE_WELL, FlagType::Chest, 0x0000_0200),
        FlagMapping::mapped("oot_bottom_of_the_well_front_west", scene::BOTTOM_OF_THE_WELL, FlagType::Chest, 0x0000_0100),
        FlagMapping::mapped("oot_bottom_of_the_well_map", scene::BOTTOM_OF_THE_WELL, FlagType::Chest, 0x0000_0080),
        FlagMapping::mapped("oot_bottom_of_the_well_back_west", scene::BOTTOM_OF_THE_WELL, FlagType::Chest, 0x0000_0020),
        FlagMapping::mapped("oot_bottom_of_the_well_under_debris", scene::BOTTOM_OF_THE_WELL, FlagType::Chest, 0x0000_0010),
        FlagMapping::mapped("oot_bottom_of_the_well_lens", scene::BOTTOM_OF_THE_WELL, FlagType::Chest, 0x0000_0008),
        FlagMapping::mapped("oot_bottom_of_the_well_lens_side_chest", scene::BOTTOM_OF_THE_WELL, FlagType::Chest, 0x0000_0004),
    ];
    assert(v@ =~= spec_bottom_of_the_well_1());
    v
}

/// Researched mappings: BOTTOM OF THE WELL (Scene 0x08).
fn bottom_of_the_well_2() -> (v: Vec<FlagMapping>)
    ensures
        v@ == spec_bottom_of_the_well_2(),
        all_complete(v@),
{
    let v = vec![
        FlagMapping::mapped("oot_bottom_of_the_well_compass", scene::BOTTOM_OF_THE_WELL, FlagType::Chest, 0x0000_0002),
    ];
    assert(v@ =~= spec_bottom_of_the_well_2());
    v
}

/// Researched mappings: ICE CAVERN (Scene 0x09).
fn ice_cavern() -> (v: Vec<FlagMapping>)
    ensures
        v@ == spec_ice_cavern(),
        all_complete(v@),
{
    let v = vec![
        FlagMapping::mapped("oot_ice_cavern_rupee_ice", scene::ICE_CAVERN, FlagType::Chest, 0x0000_0004),
        FlagMapping::mapped("oot_ice_cavern_compass", scene::ICE_CAVERN, FlagType::Chest, 0x0000_0002),
        FlagMapping::mapped("oot_ice_cavern_map", scene::ICE_CAVERN, FlagType::Chest, 0x0000_0001),
    ];
    assert(v@ =~= spec_ice_cavern());
    v
}

/// Researched mappings: GERUDO TRAINING GROUND (Scene 0x0B).
fn gerudo_training_ground() -> (v: Vec<FlagMapping>)
    ensures
        v@ == spec_gerudo_training_ground(),
        all_complete(v@),
{
    let v = vec![
        FlagMapping::mapped("oot_gerudo_training_maze_chest_4", scene::GERUDO_TRAINING_GROUND, FlagType::Chest, 0x0010_0000),
        FlagMapping::mapped("oot_gerudo_training_maze_side_chest_1", scene::GERUDO_TRAINING_GROUND, FlagType::Chest, 0x0008_0000),
        FlagMapping::mapped("oot_gerudo_training_maze_chest_3", scene::GERUDO_TRAINING_GROUND, FlagType::Chest, 0x0004_0000),
        FlagMapping::mapped("oot_gerudo_training_maze_chest_2", scene::GERUDO_TRAINING_GROUND, FlagType::Chest, 0x0002_0000),
        FlagMapping::mapped("oot_gerudo_training_maze_side_chest_2", scene::GERUDO_TRAINING_GROUND, FlagType::Chest, 0x0001_0000),
        FlagMapping::mapped("oot_gerudo_training_maze_chest_1", scene::GERUDO_TRAINING_GROUND, FlagType::Chest, 0x0000_1000),
    ];
    assert(v@ =~= spec_gerudo_training_ground());
    v
}

/// Researched mappings: DODONGO'S CAVERN BOSS (Scene 0x12).
fn dodongo_s_cavern_boss() -> (v: Vec<FlagMapping>)
    ensures
        v@ == spec_dodongo_s_cavern_boss(),
        all_complete(v@),
{
    let v = vec![
        FlagMapping::mapped("oot_dodongo_cavern_boss_chest", scene::DODONGOS_CAVERN_BOSS, FlagType::Chest, 0x0000_0001),
    ];
    assert(v@ =~= spec_dodongo_s_cavern_boss());
    v
}

/// Researched mappings: GANON'S CASTLE (Scene 0x0D).
fn ganon_s_castle_1() -> (v: Vec<FlagMapping>)
    ensures
        v@ == spec_ganon_s_castle_1(),
        all_complete(v@),
{
    let v = vec![
        FlagMapping::mapped("oot_ganon_castle_spirit_chest_2", scene::GANONS_CASTLE, FlagType::Chest, 0x0010_0000),
        FlagMapping::mapped("oot_ganon_castle_spirit_chest_1", scene::GANONS_CASTLE, FlagType::Chest, 0x0004_0000),
        FlagMapping::mapped("oot_ganon_castle_light_chest_lullaby", scene::GANONS_CASTLE, FlagType::Chest, 0x0002_0000),
        FlagMapping::mapped("oot_ganon_castle_light_chest_center", scene::GANONS_CASTLE, FlagType::Chest, 0x0001_0000),
        FlagMapping::mapped("oot_ganon_castle_light_chest_around_3", scene::GANONS_CASTLE, FlagType::Chest, 0x0000_8000),
        FlagMapping::mapped("oot_ganon_castle_light_chest_around_1", scene::GANONS_CASTLE, FlagType::Chest, 0x0000_4000),
        FlagMapping::mapped("oot_ganon_castle_light_chest_around_6", scene::GANONS_CASTLE, FlagType::Chest, 0x0000_2000),
        FlagMapping::mapped("oot_ganon_castle_light_chest_around_4", scene::GANONS_CASTLE, FlagType::Chest, 0x0000_1000),
        FlagMapping::mapped("oot_ganon_castle_light_chest_around_5", scene::GANONS_CASTLE, FlagType::Chest, 0x0000_0800),
        FlagMapping::mapped("oot_ganon_castle_light_chest_around_2", scene::GANONS_CASTLE, FlagType::Chest, 0x0000_0400),
        FlagMapping::mapped("oot_ganon_castle_forest_chest", scene::GANONS_CASTLE, FlagType::Chest, 0x0000_0200),
        FlagMapping::mapped("oot_ganon_castle_shadow_chest_1", scene::GANONS_CASTLE, FlagType::Chest, 0x0000_0100),
    ];
    assert(v@ =~= spec_ganon_s_castle_1());
    v
}

/// Researched mappings: GANON'S CASTLE (Scene 0x0D).
fn ganon_s_castle_2() -> (v: Vec<FlagMapping>)
    ensures
        v@ == spec_ganon_s_castle_2(),
        all_complete(v@),
{
    let v = vec![
        FlagMapping::mapped("oot_ganon_castle_water_chest_1", scene::GANONS_CASTLE, FlagType::Chest, 0x0000_0080),
        FlagMapping::mapped("oot_ganon_castle_water_chest_2", scene::GANONS_CASTLE, FlagType::Chest, 0x0000_0040),
        FlagMapping::mapped("oot_ganon_castle_shadow_chest_2", scene::GANONS_CASTLE, FlagType::Chest, 0x0000_0020),
    ];
    assert(v@ =~= spec_ganon_s_castle_2());
    v
}

/// Researched mappings: The Treasure Chest Game has 5 rooms with 2 chests each, plus the final HP chest..
fn the_treasure_chest_game_has_5_rooms_with_2_chests_each_plus_the_final_hp_chest() -> (v: Vec<FlagMapping>)
    ensures
        v@ == spec_the_treasure_chest_game_has_5_rooms_with_2_chests_each_plus_the_final_hp_chest(),
        all_complete(v@),
{
    let v = vec![
        FlagMapping::mapped("oot_treasure_chest_game_room_1_chest_left", scene::TREASURE_CHEST_GAME, FlagType::Chest, 0x0000_0001),
        FlagMapping::mapped("oot_treasure_chest_game_room_1_chest_right", scene::TREASURE_CHEST_GAME, FlagType::Chest, 0x0000_0002),
        FlagMapping::mapped("oot_treasure_chest_game_room_2_chest_left", scene::TREASURE_CHEST_GAME, FlagType::Chest, 0x0000_0004),
        FlagMapping::mapped("oot_treasure_chest_game_room_2_chest_right", scene::TREASURE_CHEST_GAME, FlagType::Chest, 0x0000_0008),
        FlagMapping::mapped("oot_treasure_chest_game_room_3_chest_left", scene::TREASURE_CHEST_GAME, FlagType::Chest, 0x0000_0010),
        FlagMapping::mapped("oot_treasure_chest_game_room_3_chest_right", scene::TREASURE_CHEST_GAME, FlagType::Chest, 0x0000_0020),
        FlagMapping::mapped("oot_treasure_chest_game_room_4_chest_left", scene::TREASURE_CHEST_GAME, FlagType::Chest, 0x0000_0040),
        FlagMapping::mapped("oot_treasure_chest_game_room_4_chest_right", scene::TREASURE_CHEST_GAME, FlagType::Chest, 0x0000_0080),
        FlagMapping::mapped("oot_treasure_chest_game_room_5_chest_left", scene::TREASURE_CHEST_GAME, FlagType::Chest, 0x0000_0100),
        FlagMapping::mapped("oot_treasure_chest_game_room_5_chest_right", scene::TREASURE_CHEST_GAME, FlagType::Chest, 0x0000_0200),
        FlagMapping::mapped("oot_treasure_chest_game_hp", scene::TREASURE_CHEST_GAME, FlagType::Chest, 0x0000_0400),
    ];
    assert(v@ =~= spec_the_treasure_chest_game_has_5_rooms_with_2_chests_each_plus_the_final_hp_chest());
    v
}

/// Researched mappings: GROTTOS (Scene 0x3E) - Shared scene for all grottos.
fn grottos_shared_scene_for_all_grottos() -> (v: Vec<FlagMapping>)
    ensures
        v@ == spec_grottos_shared_scene_for_all_grottos(),
        all_complete(v@),
{
    let v = vec![
        FlagMapping::mapped("oot_dmc_upper_grotto_chest", scene::GROTTOS, FlagType::Chest, 0x0400_0000),
        FlagMapping::mapped("oot_dmt_storms_grotto_chest", scene::GROTTOS, FlagType::Chest, 0x0040_0000),
        FlagMapping::mapped("oot_lw_near_shortcuts_grotto_chest", scene::GROTTOS, FlagType::Chest, 0x0010_0000),
        FlagMapping::mapped("oot_sfm_wolfos_grotto_chest", scene::GROTTOS, FlagType::Chest, 0x0002_0000),
        FlagMapping::mapped("oot_kf_storms_grotto_chest", scene::GROTTOS, FlagType::Chest, 0x0000_1000),
        FlagMapping::mapped("oot_kak_redead_grotto_chest", scene::GROTTOS, FlagType::Chest, 0x0000_0400),
        FlagMapping::mapped("oot_zr_open_grotto_chest", scene::GROTTOS, FlagType::Chest, 0x0000_0200),
        FlagMapping::mapped("oot_kak_open_grotto_chest", scene::GROTTOS, FlagType::Chest, 0x0000_0100),
        FlagMapping::mapped("oot_hf_open_grotto_chest", scene::GROTTOS, FlagType::Chest, 0x0000_0008),
        FlagMapping::mapped("oot_hf_southeast_grotto_chest", scene::GROTTOS, FlagType::Chest, 0x0000_0004),
        FlagMapping::mapped("oot_hf_near_market_grotto_chest", scene::GROTTOS, FlagType::Chest, 0x0000_0001),
    ];
    assert(v@ =~= spec_grottos_shared_scene_for_all_grottos());
    v
}

/// Researched mappings: GRAVEYARD GRAVES (Scenes 0x3F, 0x40, 0x41, 0x48).
fn graveyard_graves() -> (v: Vec<FlagMapping>)
    ensures
        v@ == spec_graveyard_graves(),
        all_complete(v@),
{
    let v = vec![
        FlagMapping::mapped("oot_graveyard_heart_piece_grave_chest", scene::GRAVE_HEART_PIECE, FlagType::Chest, 0x0000_0001),
        FlagMapping::mapped("oot_graveyard_shield_grave_chest", scene::GRAVE_SHIELD, FlagType::Chest, 0x0000_0001),
        FlagMapping::mapped("oot_graveyard_royal_tomb_chest", scene::ROYAL_FAMILYS_TOMB, FlagType::Chest, 0x0000_0001),
        FlagMapping::mapped("oot_graveyard_hookshot_chest", scene::WINDMILL_AND_DAMPES_GRAVE, FlagType::Chest, 0x0000_0001),
    ];
    assert(v@ =~= spec_graveyard_graves());
    v
}

/// Researched mappings: KOKIRI FOREST (Scene 0x55).
fn kokiri_forest() -> (v: Vec<FlagMapping>)
    ensures
        v@ == spec_kokiri_forest(),
        all_complete(v@),
{
    let v = vec![
        FlagMapping::mapped("oot_kokiri_forest_kokiri_sword_chest", scene::KOKIRI_FOREST, FlagType::Chest, 0x0000_0001),
    ];
    assert(v@ =~= spec_kokiri_forest());
    v
}

/// Researched mappings: ZORA'S DOMAIN (Scene 0x58).
fn zora_s_domain() -> (v: Vec<FlagMapping>)
    ensures
        v@ == spec_zora_s_domain(),
        all_complete(v@),
{
    let v = vec![
        FlagMapping::mapped("oot_zora_domain_waterfall_chest", scene::ZORAS_DOMAIN, FlagType::Chest, 0x0000_0001),
    ];
    assert(v@ =~= spec_zora_s_domain());
    v
}

/// Researched mappings: GERUDO VALLEY (Scene 0x5A).
fn gerudo_valley() -> (v: Vec<FlagMapping>)
    ensures
        v@ == spec_gerudo_valley(),
        all_complete(v@),
{
    let v = vec![
        FlagMapping::mapped("oot_gerudo_valley_chest", scene::GERUDO_VALLEY, FlagType::Chest, 0x0000_0001),
    ];
    assert(v@ =~= spec_gerudo_valley());
    v
}

/// Researched mappings: DESERT COLOSSUS (Scene 0x5C) - Spirit Temple exterior chests.
fn desert_colossus_spirit_temple_exterior_chests() -> (v: Vec<FlagMapping>)
    ensures
        v@ == spec_desert_colossus_spirit_temple_exterior_chests(),
        all_complete(v@),
{
    let v = vec![
        FlagMapping::mapped("oot_spirit_temple_silver_gauntlets", scene::DESERT_COLOSSUS, FlagType::Chest, 0x0000_0800),
        FlagMapping::mapped("oot_spirit_temple_mirror_shield", scene::DESERT_COLOSSUS, FlagType::Chest, 0x0000_0200),
    ];
    assert(v@ =~= spec_desert_colossus_spirit_temple_exterior_chests());
    v
}

/// Researched mappings: GERUDO FORTRESS (Scene 0x5D).
fn gerudo_fortress() -> (v: Vec<FlagMapping>)
    ensures
        v@ == spec_gerudo_fortress(),
        all_complete(v@),
{
    let v = vec![
        FlagMapping::mapped("oot_gerudo_fortress_chest", scene::GERUDO_FORTRESS, FlagType::Chest, 0x0000_0001),
    ];
    assert(v@ =~= spec_gerudo_fortress());
    v
}

/// Researched mappings: HAUNTED WASTELAND (Scene 0x5E).
fn haunted_wasteland() -> (v: Vec<FlagMapping>)
    ensures
        v@ == spec_haunted_wasteland(),
        all_complete(v@),
{
    let v = vec![
        FlagMapping::mapped("oot_haunted_wasteland_chest", scene::HAUNTED_WASTELAND, FlagType::Chest, 0x0000_0001),
    ];
    assert(v@ =~= spec_haunted_wasteland());
    v
}

/// Researched mappings: DEATH MOUNTAIN TRAIL (Scene 0x60).
fn death_mountain_trail() -> (v: Vec<FlagMapping>)
    ensures
        v@ == spec_death_mountain_trail(),
        all_complete(v@),
{
    let v = vec![
        FlagMapping::mapped("oot_death_mountain_trail_chest", scene::DEATH_MOUNTAIN_TRAIL, FlagType::Chest, 0x0000_0002),
    ];
    assert(v@ =~= spec_death_mountain_trail());
    v
}

/// Researched mappings: // Gold Skulltula flags are stored in a 24-byte (0x18) section at save.
fn gold_skulltula_flags_are_stored_in_a_24_byte_section_at_save_1() -> (v: Vec<FlagMapping>)
    ensures
        v@ == spec_gold_skulltula_flags_are_stored_in_a_24_byte_section_at_save_1(),
        all_complete(v@),
{
    let v = vec![
        FlagMapping::mapped("oot_deku_tree_gs_compass", scene::DEKU_TREE, FlagType::GoldSkulltula, 0x01),
        FlagMapping::mapped("oot_deku_tree_gs_basement_gate", scene::DEKU_TREE, FlagType::GoldSkulltula, 0x02),
        FlagMapping::mapped("oot_deku_tree_gs_basement_vines", scene::DEKU_TREE, FlagType::GoldSkulltula, 0x04),
        FlagMapping::mapped("oot_deku_tree_gs_basement_back_room", scene::DEKU_TREE, FlagType::GoldSkulltula, 0x08),
        FlagMapping::mapped("oot_dodongo_cavern_gs_side_room", scene::DODONGOS_CAVERN, FlagType::GoldSkulltula, 0x01),
        FlagMapping::mapped("oot_dodongo_cavern_gs_stairs_vines", scene::DODONGOS_CAVERN, FlagType::GoldSkulltula, 0x02),
        FlagMapping::mapped("oot_dodongo_cavern_gs_stairs_top", scene::DODONGOS_CAVERN, FlagType::GoldSkulltula, 0x04),
        FlagMapping::mapped("oot_dodongo_cavern_gs_scarecrow", scene::DODONGOS_CAVERN, FlagType::GoldSkulltula, 0x08),
        FlagMapping::mapped("oot_dodongo_cavern_gs_near_boss", scene::DODONGOS_CAVERN, FlagType::GoldSkulltula, 0x10),
        FlagMapping::mapped("oot_jabu_jabu_gs_bottom_lower", scene::JABU_JABU, FlagType::GoldSkulltula, 0x01),
        FlagMapping::mapped("oot_jabu_jabu_gs_bottom_upper", scene::JABU_JABU, FlagType::GoldSkulltula, 0x02),
        FlagMapping::mapped("oot_jabu_jabu_gs_water_switch", scene::JABU_JABU, FlagType::GoldSkulltula, 0x04),
    ];
    assert(v@ =~= spec_gold_skulltula_flags_are_stored_in_a_24_byte_section_at_save_1());
    v
}

/// Researched mappings: // Gold Skulltula flags are stored in a 24-byte (0x18) section at save.
fn gold_skulltula_flags_are_stored_in_a_24_byte_section_at_save_2() -> (v: Vec<FlagMapping>)
    ensures
        v@ == spec_gold_skulltula_flags_are_stored_in_a_24_byte_section_at_save_2(),
        all_complete(v@),
{
    let v = vec![
        FlagMapping::mapped("oot_jabu_jabu_gs_near_boss", scene::JABU_JABU, FlagType::GoldSkulltula, 0x08),
        FlagMapping::mapped("oot_forest_temple_gs_entrance", scene::FOREST_TEMPLE, FlagType::GoldSkulltula, 0x01),
        FlagMapping::mapped("oot_forest_temple_gs_main", scene::FOREST_TEMPLE, FlagType::GoldSkulltula, 0x02),
        FlagMapping::mapped("oot_forest_temple_gs_garden_west", scene::FOREST_TEMPLE, FlagType::GoldSkulltula, 0x04),
        FlagMapping::mapped("oot_forest_temple_gs_garden_east", scene::FOREST_TEMPLE, FlagType::GoldSkulltula, 0x08),
        FlagMapping::mapped("oot_forest_temple_gs_antichamber", scene::FOREST_TEMPLE, FlagType::GoldSkulltula, 0x10),
        FlagMapping::mapped("oot_fire_temple_gs_hammer_statues", scene::FIRE_TEMPLE, FlagType::GoldSkulltula, 0x01),
        FlagMapping::mapped("oot_fire_temple_gs_lava_side_room", scene::FIRE_TEMPLE, FlagType::GoldSkulltula, 0x02),
        FlagMapping::mapped("oot_fire_temple_gs_maze", scene::FIRE_TEMPLE, FlagType::GoldSkulltula, 0x04),
        FlagMapping::mapped("oot_fire_temple_gs_scarecrow_wall", scene::FIRE_TEMPLE, FlagType::GoldSkulltula, 0x08),
        FlagMapping::mapped("oot_fire_temple_gs_scarecrow_top", scene::FIRE_TEMPLE, FlagType::GoldSkulltula, 0x10),
        FlagMapping::mapped("oot_water_temple_gs_center", scene::WATER_TEMPLE, FlagType::GoldSkulltula, 0x01),
    ];
    assert(v@ =~= spec_gold_skulltula_flags_are_stored_in_a_24_byte_section_at_save_2());
    v
}

/// Researched mappings: // Gold Skulltula flags are stored in a 24-byte (0x18) section at save.
fn gold_skulltula_flags_are_stored_in_a_24_byte_section_at_save_3() -> (v: Vec<FlagMapping>)
    ensures
        v@ == spec_gold_skulltula_flags_are_stored_in_a_24_byte_section_at_save_3(),
        all_complete(v@),
{
    let v = vec![
        FlagMapping::mapped("oot_water_temple_gs_waterfalls", scene::WATER_TEMPLE, FlagType::GoldSkulltula, 0x02),
        FlagMapping::mapped("oot_water_temple_gs_large_pit", scene::WATER_TEMPLE, FlagType::GoldSkulltula, 0x04),
        FlagMapping::mapped("oot_water_temple_gs_river", scene::WATER_TEMPLE, FlagType::GoldSkulltula, 0x08),
        FlagMapping::mapped("oot_water_temple_gs_cage", scene::WATER_TEMPLE, FlagType::GoldSkulltula, 0x10),
        FlagMapping::mapped("oot_spirit_temple_gs_child_fence", scene::SPIRIT_TEMPLE, FlagType::GoldSkulltula, 0x01),
        FlagMapping::mapped("oot_spirit_temple_gs_child_climb", scene::SPIRIT_TEMPLE, FlagType::GoldSkulltula, 0x02),
        FlagMapping::mapped("oot_spirit_temple_gs_iron_knuckle", scene::SPIRIT_TEMPLE, FlagType::GoldSkulltula, 0x04),
        FlagMapping::mapped("oot_spirit_temple_gs_boulders", scene::SPIRIT_TEMPLE, FlagType::GoldSkulltula, 0x08),
        FlagMapping::mapped("oot_spirit_temple_gs_statue", scene::SPIRIT_TEMPLE, FlagType::GoldSkulltula, 0x10),
        FlagMapping::mapped("oot_shadow_temple_gs_invisible_scythe", scene::SHADOW_TEMPLE, FlagType::GoldSkulltula, 0x01),
        FlagMapping::mapped("oot_shadow_temple_gs_falling_spikes", scene::SHADOW_TEMPLE, FlagType::GoldSkulltula, 0x02),
        FlagMapping::mapped("oot_shadow_temple_gs_skull_pot", scene::SHADOW_TEMPLE, FlagType::GoldSkulltula, 0x04),
    ];
    assert(v@ =~= spec_gold_skulltula_flags_are_stored_in_a_24_byte_section_at_save_3());
    v
}

/// Researched mappings: // Gold Skulltula flags are stored in a 24-byte (0x18) section at save.
fn gold_skulltula_flags_are_stored_in_a_24_byte_section_at_save_4() -> (v: Vec<FlagMapping>)
    ensures
        v@ == spec_gold_skulltula_flags_are_stored_in_a_24_byte_section_at_save_4(),
        all_complete(v@),
{
    let v = vec![
        FlagMapping::mapped("oot_shadow_temple_gs_near_boat", scene::SHADOW_TEMPLE, FlagType::GoldSkulltula, 0x08),
        FlagMapping::mapped("oot_shadow_temple_gs_triple_skull_pot", scene::SHADOW_TEMPLE, FlagType::GoldSkulltula, 0x10),
        FlagMapping::mapped("oot_bottom_of_the_well_gs_east_cage", scene::BOTTOM_OF_THE_WELL, FlagType::GoldSkulltula, 0x01),
        FlagMapping::mapped("oot_bottom_of_the_well_gs_inner_west", scene::BOTTOM_OF_THE_WELL, FlagType::GoldSkulltula, 0x02),
        FlagMapping::mapped("oot_bottom_of_the_well_gs_inner_east", scene::BOTTOM_OF_THE_WELL, FlagType::GoldSkulltula, 0x04),
        FlagMapping::mapped("oot_ice_cavern_gs_scythe_room", scene::ICE_CAVERN, FlagType::GoldSkulltula, 0x01),
        FlagMapping::mapped("oot_ice_cavern_gs_hp_room", scene::ICE_CAVERN, FlagType::GoldSkulltula, 0x02),
        FlagMapping::mapped("oot_ice_cavern_gs_block_room", scene::ICE_CAVERN, FlagType::GoldSkulltula, 0x04),
    ];
    assert(v@ =~= spec_gold_skulltula_flags_are_stored_in_a_24_byte_section_at_save_4());
    v
}

/// Researched mappings: Overworld skulltulas use scene IDs 0x0A-0x15 for GS flag bytes..
fn overworld_skulltulas_use_scene_ids_0x0a_0x15_for_gs_flag_bytes_1() -> (v: Vec<FlagMapping>)
    ensures
        v@ == spec_overworld_skulltulas_use_scene_ids_0x0a_0x15_for_gs_flag_bytes_1(),
        all_complete(v@),
{
    let v = vec![
        FlagMapping::mapped("oot_hyrule_castle_gs_tree", scene::HYRULE_CASTLE, FlagType::GoldSkulltula, 0x01),
        FlagMapping::mapped("oot_hyrule_castle_gs_grotto", scene::HYRULE_CASTLE, FlagType::GoldSkulltula, 0x02),
        FlagMapping::mapped("oot_kakariko_gs_shooting_gallery", scene::KAKARIKO_VILLAGE, FlagType::GoldSkulltula, 0x01),
        FlagMapping::mapped("oot_kakariko_gs_tree", scene::KAKARIKO_VILLAGE, FlagType::GoldSkulltula, 0x02),
        FlagMapping::mapped("oot_kakariko_gs_house_of_skulltula", scene::KAKARIKO_VILLAGE, FlagType::GoldSkulltula, 0x04),
        FlagMapping::mapped("oot_kakariko_gs_bazaar", scene::KAKARIKO_VILLAGE, FlagType::GoldSkulltula, 0x08),
        FlagMapping::mapped("oot_kakariko_gs_ladder", scene::KAKARIKO_VILLAGE, FlagType::GoldSkulltula, 0x10),
        FlagMapping::mapped("oot_kakariko_gs_roof", scene::KAKARIKO_VILLAGE, FlagType::GoldSkulltula, 0x20),
        FlagMapping::mapped("oot_graveyard_gs_soil", scene::GRAVEYARD, FlagType::GoldSkulltula, 0x01),
        FlagMapping::mapped("oot_graveyard_gs_wall", scene::GRAVEYARD, FlagType::GoldSkulltula, 0x02),
        FlagMapping::mapped("oot_death_mountain_trail_gs_entrance", scene::DEATH_MOUNTAIN_TRAIL, FlagType::GoldSkulltula, 0x01),
        FlagMapping::mapped("oot_death_mountain_trail_gs_soil", scene::DEATH_MOUNTAIN_TRAIL, FlagType::GoldSkulltula, 0x02),
    ];
    assert(v@ =~= spec_overworld_skulltulas_use_scene_ids_0x0a_0x15_for_gs_flag_bytes_1());
    v
}

/// Researched mappings: Overworld skulltulas use scene IDs 0x0A-0x15 for GS flag bytes..
fn overworld_skulltulas_use_scene_ids_0x0a_0x15_for_gs_flag_bytes_2() -> (v: Vec<FlagMapping>)
    ensures
        v@ == spec_overworld_skulltulas_use_scene_ids_0x0a_0x15_for_gs_flag_bytes_2(),
        all_complete(v@),
{
    let v = vec![
        FlagMapping::mapped("oot_death_mountain_trail_gs_above_dodongo", scene::DEATH_MOUNTAIN_TRAIL, FlagType::GoldSkulltula, 0x04),
        FlagMapping::mapped("oot_death_mountain_trail_gs_before_climb", scene::DEATH_MOUNTAIN_TRAIL, FlagType::GoldSkulltula, 0x08),
        FlagMapping::mapped("oot_death_mountain_crater_gs_crate", scene::DEATH_MOUNTAIN_CRATER, FlagType::GoldSkulltula, 0x01),
        FlagMapping::mapped("oot_death_mountain_crater_gs_soil", scene::DEATH_MOUNTAIN_CRATER, FlagType::GoldSkulltula, 0x02),
        FlagMapping::mapped("oot_goron_city_gs_platform", scene::GORON_CITY, FlagType::GoldSkulltula, 0x01),
        FlagMapping::mapped("oot_goron_city_gs_maze", scene::GORON_CITY, FlagType::GoldSkulltula, 0x02),
        FlagMapping::mapped("oot_kokiri_forest_gs_soil", scene::KOKIRI_FOREST, FlagType::GoldSkulltula, 0x01),
        FlagMapping::mapped("oot_kokiri_forest_gs_night_adult", scene::KOKIRI_FOREST, FlagType::GoldSkulltula, 0x02),
        FlagMapping::mapped("oot_kokiri_forest_gs_night_child", scene::KOKIRI_FOREST, FlagType::GoldSkulltula, 0x04),
        FlagMapping::mapped("oot_lost_woods_gs_soil_bridge", scene::LOST_WOODS, FlagType::GoldSkulltula, 0x01),
        FlagMapping::mapped("oot_lost_woods_gs_soil_theater", scene::LOST_WOODS, FlagType::GoldSkulltula, 0x02),
        FlagMapping::mapped("oot_lost_woods_gs_bean_ride", scene::LOST_WOODS, FlagType::GoldSkulltula, 0x04),
    ];
    assert(v@ =~= spec_overworld_skulltulas_use_scene_ids_0x0a_0x15_for_gs_flag_bytes_2());
    v
}

/// Researched mappings: Overworld skulltulas use scene IDs 0x0A-0x15 for GS flag bytes..
fn overworld_skulltulas_use_scene_ids_0x0a_0x15_for_gs_flag_bytes_3() -> (v: Vec<FlagMapping>)
    ensures
        v@ == spec_overworld_skulltulas_use_scene_ids_0x0a_0x15_for_gs_flag_bytes_3(),
        all_complete(v@),
{
    let v = vec![
        FlagMapping::mapped("oot_sacred_meadow_gs_night_adult", scene::SACRED_FOREST_MEADOW, FlagType::GoldSkulltula, 0x01),
        FlagMapping::mapped("oot_lake_hylia_gs_lab_wall", scene::LAKE_HYLIA, FlagType::GoldSkulltula, 0x01),
        FlagMapping::mapped("oot_lake_hylia_gs_island", scene::LAKE_HYLIA, FlagType::GoldSkulltula, 0x02),
        FlagMapping::mapped("oot_lake_hylia_gs_soil", scene::LAKE_HYLIA, FlagType::GoldSkulltula, 0x04),
        FlagMapping::mapped("oot_lake_hylia_gs_big_tree", scene::LAKE_HYLIA, FlagType::GoldSkulltula, 0x08),
        FlagMapping::mapped("oot_laboratory_gs_crate", scene::LAKESIDE_LABORATORY, FlagType::GoldSkulltula, 0x01),
        FlagMapping::mapped("oot_zora_river_gs_tree", scene::ZORA_RIVER, FlagType::GoldSkulltula, 0x01),
        FlagMapping::mapped("oot_zora_river_gs_ladder", scene::ZORA_RIVER, FlagType::GoldSkulltula, 0x02),
        FlagMapping::mapped("oot_zora_river_gs_near_grotto", scene::ZORA_RIVER, FlagType::GoldSkulltula, 0x04),
        FlagMapping::mapped("oot_zora_river_gs_near_bridge", scene::ZORA_RIVER, FlagType::GoldSkulltula, 0x08),
        FlagMapping::mapped("oot_zora_domain_gs_waterfall", scene::ZORAS_DOMAIN, FlagType::GoldSkulltula, 0x01),
        FlagMapping::mapped("oot_zora_fountain_gs_wall", scene::ZORAS_FOUNTAIN, FlagType::GoldSkulltula, 0x01),
    ];
    assert(v@ =~= spec_overworld_skulltulas_use_scene_ids_0x0a_0x15_for_gs_flag_bytes_3());
    v
}

/// Researched mappings: Overworld skulltulas use scene IDs 0x0A-0x15 for GS flag bytes..
fn overworld_skulltulas_use_scene_ids_0x0a_0x15_for_gs_flag_bytes_4() -> (v: Vec<FlagMapping>)
    ensures
        v@ == spec_overworld_skulltulas_use_scene_ids_0x0a_0x15_for_gs_flag_bytes_4(),
        all_complete(v@),
{
    let v = vec![
        FlagMapping::mapped("oot_zora_fountain_gs_tree", scene::ZORAS_FOUNTAIN, FlagType::GoldSkulltula, 0x02),
        FlagMapping::mapped("oot_zora_fountain_gs_upper", scene::ZORAS_FOUNTAIN, FlagType::GoldSkulltula, 0x04),
        FlagMapping::mapped("oot_gerudo_valley_gs_soil", scene::GERUDO_VALLEY, FlagType::GoldSkulltula, 0x01),
        FlagMapping::mapped("oot_gerudo_valley_gs_wall", scene::GERUDO_VALLEY, FlagType::GoldSkulltula, 0x02),
        FlagMapping::mapped("oot_gerudo_valley_gs_tent", scene::GERUDO_VALLEY, FlagType::GoldSkulltula, 0x04),
        FlagMapping::mapped("oot_gerudo_valley_gs_pillar", scene::GERUDO_VALLEY, FlagType::GoldSkulltula, 0x08),
        FlagMapping::mapped("oot_gerudo_fortress_gs_target", scene::GERUDO_FORTRESS, FlagType::GoldSkulltula, 0x01),
        FlagMapping::mapped("oot_gerudo_fortress_gs_wall", scene::GERUDO_FORTRESS, FlagType::GoldSkulltula, 0x02),
        FlagMapping::mapped("oot_desert_colossus_gs_soil", scene::DESERT_COLOSSUS, FlagType::GoldSkulltula, 0x01),
        FlagMapping::mapped("oot_desert_colossus_gs_tree", scene::DESERT_COLOSSUS, FlagType::GoldSkulltula, 0x02),
        FlagMapping::mapped("oot_desert_colossus_gs_plateau", scene::DESERT_COLOSSUS, FlagType::GoldSkulltula, 0x04),
        FlagMapping::mapped("oot_lon_lon_ranch_gs_tree", scene::LON_LON_RANCH, FlagType::GoldSkulltula, 0x01),
    ];
    assert(v@ =~= spec_overworld_skulltulas_use_scene_ids_0x0a_0x15_for_gs_flag_bytes_4());
    v
}

/// Researched mappings: Overworld skulltulas use scene IDs 0x0A-0x15 for GS flag bytes..
fn overworld_skulltulas_use_scene_ids_0x0a_0x15_for_gs_flag_bytes_5() -> (v: Vec<FlagMapping>)
    ensures
        v@ == spec_overworld_skulltulas_use_scene_ids_0x0a_0x15_for_gs_flag_bytes_5(),
        all_complete(v@),
{
    let v = vec![
        FlagMapping::mapped("oot_lon_lon_ranch_gs_house", scene::LON_LON_RANCH, FlagType::GoldSkulltula, 0x02),
        FlagMapping::mapped("oot_lon_lon_ranch_gs_rain_shed", scene::LON_LON_RANCH, FlagType::GoldSkulltula, 0x04),
        FlagMapping::mapped("oot_lon_lon_ranch_gs_back_wall", scene::LON_LON_RANCH, FlagType::GoldSkulltula, 0x08),
    ];
    assert(v@ =~= spec_overworld_skulltulas_use_scene_ids_0x0a_0x15_for_gs_flag_bytes_5());
    v
}

/// Researched mappings: // Heart Pieces and other freestanding collectibles are tracked via the.
fn heart_pieces_and_other_freestanding_collectibles_are_tracked_via_the_1() -> (v: Vec<FlagMapping>)
    ensures
        v@ == spec_heart_pieces_and_other_freestanding_collectibles_are_tracked_via_the_1(),
        all_complete(v@),
{
    let v = vec![
        FlagMapping::mapped("oot_ice_cavern_hp", scene::ICE_CAVERN, FlagType::Collectible, 0x0000_0002),
        FlagMapping::mapped("oot_kakariko_impa_house_hp", scene::IMPAS_HOUSE, FlagType::Collectible, 0x0000_0002),
        FlagMapping::mapped("oot_windmill_hp", scene::WINDMILL_AND_DAMPES_GRAVE, FlagType::Collectible, 0x0000_0002),
        FlagMapping::mapped("oot_lon_lon_ranch_silo_hp", scene::LON_LON_RANCH_TOWER, FlagType::Collectible, 0x0000_0002),
        FlagMapping::mapped("oot_graveyard_crate_hp", scene::GRAVEYARD, FlagType::Collectible, 0x0000_0010),
        FlagMapping::mapped("oot_zora_river_hp_pillar", scene::ZORA_RIVER, FlagType::Collectible, 0x0000_0800),
        FlagMapping::mapped("oot_zora_river_hp_platform", scene::ZORA_RIVER, FlagType::Collectible, 0x0000_0010),
        FlagMapping::mapped("oot_lake_hylia_hp", scene::LAKE_HYLIA, FlagType::Collectible, 0x4000_0000),
        FlagMapping::mapped("oot_zora_fountain_iceberg_hp", scene::ZORAS_FOUNTAIN, FlagType::Collectible, 0x0000_0002),
        FlagMapping::mapped("oot_zora_fountain_bottom_hp", scene::ZORAS_FOUNTAIN, FlagType::Collectible, 0x0010_0000),
        FlagMapping::mapped("oot_gerudo_valley_crate_hp", scene::GERUDO_VALLEY, FlagType::Collectible, 0x0000_0004),
        FlagMapping::mapped("oot_gerudo_valley_waterfall_hp", scene::GERUDO_VALLEY, FlagType::Collectible, 0x0000_0002),
    ];
    assert(v@ =~= spec_heart_pieces_and_other_freestanding_collectibles_are_tracked_via_the_1());
    v
}

/// Researched mappings: // Heart Pieces and other freestanding collectibles are tracked via the.
fn heart_pieces_and_other_freestanding_collectibles_are_tracked_via_the_2() -> (v: Vec<FlagMapping>)
    ensures
        v@ == spec_heart_pieces_and_other_freestanding_collectibles_are_tracked_via_the_2(),
        all_complete(v@),
{
    let v = vec![
        FlagMapping::mapped("oot_desert_colossus_hp", scene::DESERT_COLOSSUS, FlagType::Collectible, 0x0000_2000),
        FlagMapping::mapped("oot_death_mountain_trail_hp", scene::DEATH_MOUNTAIN_TRAIL, FlagType::Collectible, 0x4000_0000),
        FlagMapping::mapped("oot_death_mountain_crater_volcano_hp", scene::DEATH_MOUNTAIN_CRATER, FlagType::Collectible, 0x0000_0100),
        FlagMapping::mapped("oot_death_mountain_crater_alcove_hp", scene::DEATH_MOUNTAIN_CRATER, FlagType::Collectible, 0x0000_0004),
        FlagMapping::mapped("oot_goron_city_big_pot_hp", scene::GORON_CITY, FlagType::Collectible, 0x8000_0000),
        FlagMapping::mapped("oot_hyrule_field_grotto_tektite_hp", scene::GROTTOS, FlagType::Collectible, 0x0000_0002),
    ];
    assert(v@ =~= spec_heart_pieces_and_other_freestanding_collectibles_are_tracked_via_the_2());
    v
}

/// Researched mappings: MQ DEKU TREE (Scene 0x00).
fn mq_deku_tree() -> (v: Vec<FlagMapping>)
    ensures
        v@ == spec_mq_deku_tree(),
        all_complete(v@),
{
    let v = vec![
        FlagMapping::mapped("mq_oot_mq_deku_tree_map_chest", scene::DEKU_TREE, FlagType::Chest, 0x0000_0001),
        FlagMapping::mapped("mq_oot_mq_deku_tree_compass_chest", scene::DEKU_TREE, FlagType::Chest, 0x0000_0002),
        FlagMapping::mapped("mq_oot_mq_deku_tree_slingshot_chest", scene::DEKU_TREE, FlagType::Chest, 0x0000_0008),
        FlagMapping::mapped("mq_oot_mq_deku_tree_slingshot_room_far_chest", scene::DEKU_TREE, FlagType::Chest, 0x0000_0010),
        FlagMapping::mapped("mq_oot_mq_deku_tree_basement_chest", scene::DEKU_TREE, FlagType::Chest, 0x0000_0004),
        FlagMapping::mapped("mq_oot_mq_deku_tree_before_water_platform_chest", scene::DEKU_TREE, FlagType::Chest, 0x0000_0020),
        FlagMapping::mapped("mq_oot_mq_deku_tree_after_water_platform_chest", scene::DEKU_TREE, FlagType::Chest, 0x0000_0040),
        FlagMapping::mapped("mq_oot_mq_deku_tree_gs_lobby_crate", scene::DEKU_TREE, FlagType::GoldSkulltula, 0x01),
        FlagMapping::mapped("mq_oot_mq_deku_tree_gs_compass_room", scene::DEKU_TREE, FlagType::GoldSkulltula, 0x02),
        FlagMapping::mapped("mq_oot_mq_deku_tree_gs_song_of_time_blocks", scene::DEKU_TREE, FlagType::GoldSkulltula, 0x04),
        FlagMapping::mapped("mq_oot_mq_deku_tree_gs_back_room", scene::DEKU_TREE, FlagType::GoldSkulltula, 0x08),
    ];
    assert(v@ =~= spec_mq_deku_tree());
    v
}

/// Researched mappings: MQ DODONGO'S CAVERN (Scene 0x01).
fn mq_dodongo_s_cavern() -> (v: Vec<FlagMapping>)
    ensures
        v@ == spec_mq_dodongo_s_cavern(),
        all_complete(v@),
{
    let v = vec![
        FlagMapping::mapped("mq_oot_mq_dodongo_cavern_map_chest", scene::DODONGOS_CAVERN, FlagType::Chest, 0x0000_0001),
        FlagMapping::mapped("mq_oot_mq_dodongo_cavern_compass_chest", scene::DODONGOS_CAVERN, FlagType::Chest, 0x0000_0020),
        FlagMapping::mapped("mq_oot_mq_dodongo_cavern_bomb_bag_chest", scene::DODONGOS_CAVERN, FlagType::Chest, 0x0000_0010),
        FlagMapping::mapped("mq_oot_mq_dodongo_cavern_larvae_room_chest", scene::DODONGOS_CAVERN, FlagType::Chest, 0x0000_0002),
        FlagMapping::mapped("mq_oot_mq_dodongo_cavern_upper_ledge_chest", scene::DODONGOS_CAVERN, FlagType::Chest, 0x0000_0040),
        FlagMapping::mapped("mq_oot_mq_dodongo_cavern_chest_under_grave", scene::DODONGOS_CAVERN, FlagType::Chest, 0x0000_0004),
        FlagMapping::mapped("mq_oot_mq_dodongo_cavern_gs_time_blocks", scene::DODONGOS_CAVERN, FlagType::GoldSkulltula, 0x01),
        FlagMapping::mapped("mq_oot_mq_dodongo_cavern_gs_larve_room", scene::DODONGOS_CAVERN, FlagType::GoldSkulltula, 0x02),
        FlagMapping::mapped("mq_oot_mq_dodongo_cavern_gs_upper_lizalfos", scene::DODONGOS_CAVERN, FlagType::GoldSkulltula, 0x04),
        FlagMapping::mapped("mq_oot_mq_dodongo_cavern_gs_poe_room_side", scene::DODONGOS_CAVERN, FlagType::GoldSkulltula, 0x08),
        FlagMapping::mapped("mq_oot_mq_dodongo_cavern_gs_near_boss", scene::DODONGOS_CAVERN, FlagType::GoldSkulltula, 0x10),
    ];
    assert(v@ =~= spec_mq_dodongo_s_cavern());
    v
}

/// Researched mappings: MQ JABU JABU'S BELLY (Scene 0x02).
fn mq_jabu_jabu_s_belly_1() -> (v: Vec<FlagMapping>)
    ensures
        v@ == spec_mq_jabu_jabu_s_belly_1(),
        all_complete(v@),
{
    let v = vec![
        FlagMapping::mapped("mq_oot_mq_jabu_jabu_map_chest", scene::JABU_JABU, FlagType::Chest, 0x0000_0001),
        FlagMapping::mapped("mq_oot_mq_jabu_jabu_entry_chest", scene::JABU_JABU, FlagType::Chest, 0x0000_0080),
        FlagMapping::mapped("mq_oot_mq_jabu_jabu_second_room_b1_chest", scene::JABU_JABU, FlagType::Chest, 0x0000_0002),
        FlagMapping::mapped("mq_oot_mq_jabu_jabu_compass_chest", scene::JABU_JABU, FlagType::Chest, 0x0000_0008),
        FlagMapping::mapped("mq_oot_mq_jabu_jabu_second_room_1f_chest", scene::JABU_JABU, FlagType::Chest, 0x0000_0100),
        FlagMapping::mapped("mq_oot_mq_jabu_jabu_third_room_west_chest", scene::JABU_JABU, FlagType::Chest, 0x0000_0200),
        FlagMapping::mapped("mq_oot_mq_jabu_jabu_third_room_east_chest", scene::JABU_JABU, FlagType::Chest, 0x0000_0400),
        FlagMapping::mapped("mq_oot_mq_jabu_jabu_boomerang_chest", scene::JABU_JABU, FlagType::Chest, 0x0000_0004),
        FlagMapping::mapped("mq_oot_mq_jabu_jabu_sot_room_lower_chest", scene::JABU_JABU, FlagType::Chest, 0x0000_0800),
        FlagMapping::mapped("mq_oot_mq_jabu_jabu_back_chest", scene::JABU_JABU, FlagType::Chest, 0x0000_0020),
        FlagMapping::mapped("mq_oot_mq_jabu_jabu_pre_boss_chest", scene::JABU_JABU, FlagType::Chest, 0x0000_0040),
        FlagMapping::mapped("mq_oot_mq_jabu_jabu_gs_sot_block", scene::JABU_JABU, FlagType::GoldSkulltula, 0x01),
    ];
    assert(v@ =~= spec_mq_jabu_jabu_s_belly_1());
    v
}

/// Researched mappings: MQ JABU JABU'S BELLY (Scene 0x02).
fn mq_jabu_jabu_s_belly_2() -> (v: Vec<FlagMapping>)
    ensures
        v@ == spec_mq_jabu_jabu_s_belly_2(),
        all_complete(v@),
{
    let v = vec![
        FlagMapping::mapped("mq_oot_mq_jabu_jabu_gs_back", scene::JABU_JABU, FlagType::GoldSkulltula, 0x02),
        FlagMapping::mapped("mq_oot_mq_jabu_jabu_gs_basement_side_room", scene::JABU_JABU, FlagType::GoldSkulltula, 0x04),
        FlagMapping::mapped("mq_oot_mq_jabu_jabu_gs_pre_boss", scene::JABU_JABU, FlagType::GoldSkulltula, 0x08),
    ];
    assert(v@ =~= spec_mq_jabu_jabu_s_belly_2());
    v
}

/// Researched mappings: MQ FOREST TEMPLE (Scene 0x03).
fn mq_forest_temple_1() -> (v: Vec<FlagMapping>)
    ensures
        v@ == spec_mq_forest_temple_1(),
        all_complete(v@),
{
    let v = vec![
        FlagMapping::mapped("mq_oot_mq_forest_temple_first_room_chest", scene::FOREST_TEMPLE, FlagType::Chest, 0x0000_0008),
        FlagMapping::mapped("mq_oot_mq_forest_temple_wolfos_chest", scene::FOREST_TEMPLE, FlagType::Chest, 0x0000_0001),
        FlagMapping::mapped("mq_oot_mq_forest_temple_boss_key_chest", scene::FOREST_TEMPLE, FlagType::Chest, 0x0000_4000),
        FlagMapping::mapped("mq_oot_mq_forest_temple_redead_chest", scene::FOREST_TEMPLE, FlagType::Chest, 0x0000_0004),
        FlagMapping::mapped("mq_oot_mq_forest_temple_well_chest", scene::FOREST_TEMPLE, FlagType::Chest, 0x0000_0200),
        FlagMapping::mapped("mq_oot_mq_forest_temple_east_garden_high_ledge_chest", scene::FOREST_TEMPLE, FlagType::Chest, 0x0000_0010),
        FlagMapping::mapped("mq_oot_mq_forest_temple_east_garden_ledge_chest", scene::FOREST_TEMPLE, FlagType::Chest, 0x0000_0020),
        FlagMapping::mapped("mq_oot_mq_forest_temple_map_chest", scene::FOREST_TEMPLE, FlagType::Chest, 0x0000_0002),
        FlagMapping::mapped("mq_oot_mq_forest_temple_bow_chest", scene::FOREST_TEMPLE, FlagType::Chest, 0x0000_1000),
        FlagMapping::mapped("mq_oot_mq_forest_temple_compass_chest", scene::FOREST_TEMPLE, FlagType::Chest, 0x0000_8000),
        FlagMapping::mapped("mq_oot_mq_forest_temple_falling_ceiling_chest", scene::FOREST_TEMPLE, FlagType::Chest, 0x0000_0040),
        FlagMapping::mapped("mq_oot_mq_forest_temple_gs_entryway", scene::FOREST_TEMPLE, FlagType::GoldSkulltula, 0x01),
    ];
    assert(v@ =~= spec_mq_forest_temple_1());
    v
}

/// Researched mappings: MQ FOREST TEMPLE (Scene 0x03).
fn mq_forest_temple_2() -> (v: Vec<FlagMapping>)
    ensures
        v@ == spec_mq_forest_temple_2(),
        all_complete(v@),
{
    let v = vec![
        FlagMapping::mapped("mq_oot_mq_forest_temple_gs_climb_room", scene::FOREST_TEMPLE, FlagType::GoldSkulltula, 0x02),
        FlagMapping::mapped("mq_oot_mq_forest_temple_gs_west_garden", scene::FOREST_TEMPLE, FlagType::GoldSkulltula, 0x04),
        FlagMapping::mapped("mq_oot_mq_forest_temple_gs_east_garden", scene::FOREST_TEMPLE, FlagType::GoldSkulltula, 0x08),
        FlagMapping::mapped("mq_oot_mq_forest_temple_gs_well", scene::FOREST_TEMPLE, FlagType::GoldSkulltula, 0x10),
    ];
    assert(v@ =~= spec_mq_forest_temple_2());
    v
}

/// Researched mappings: MQ FIRE TEMPLE (Scene 0x04).
fn mq_fire_temple_1() -> (v: Vec<FlagMapping>)
    ensures
        v@ == spec_mq_fire_temple_1(),
        all_complete(v@),
{
    let v = vec![
        FlagMapping::mapped("mq_oot_mq_fire_temple_early_lower_left_chest", scene::FIRE_TEMPLE, FlagType::Chest, 0x0000_0001),
        FlagMapping::mapped("mq_oot_mq_fire_temple_map_chest", scene::FIRE_TEMPLE, FlagType::Chest, 0x0000_0002),
        FlagMapping::mapped("mq_oot_mq_fire_temple_pre_boss_chest", scene::FIRE_TEMPLE, FlagType::Chest, 0x0000_0080),
        FlagMapping::mapped("mq_oot_mq_fire_temple_hammer_chest", scene::FIRE_TEMPLE, FlagType::Chest, 0x0000_0008),
        FlagMapping::mapped("mq_oot_mq_fire_temple_boss_key_chest", scene::FIRE_TEMPLE, FlagType::Chest, 0x0000_1000),
        FlagMapping::mapped("mq_oot_mq_fire_temple_1f_lava_room_goron_chest", scene::FIRE_TEMPLE, FlagType::Chest, 0x0000_0004),
        FlagMapping::mapped("mq_oot_mq_fire_temple_compass_chest", scene::FIRE_TEMPLE, FlagType::Chest, 0x0000_0040),
        FlagMapping::mapped("mq_oot_mq_fire_temple_maze_lower_chest", scene::FIRE_TEMPLE, FlagType::Chest, 0x0000_0010),
        FlagMapping::mapped("mq_oot_mq_fire_temple_maze_upper_chest", scene::FIRE_TEMPLE, FlagType::Chest, 0x0000_0020),
        FlagMapping::mapped("mq_oot_mq_fire_temple_maze_side_room_chest", scene::FIRE_TEMPLE, FlagType::Chest, 0x0000_0100),
        FlagMapping::mapped("mq_oot_mq_fire_temple_topmost_chest", scene::FIRE_TEMPLE, FlagType::Chest, 0x0000_2000),
        FlagMapping::mapped("mq_oot_mq_fire_temple_gs_1f_lava_room", scene::FIRE_TEMPLE, FlagType::GoldSkulltula, 0x01),
    ];
    assert(v@ =~= spec_mq_fire_temple_1());
    v
}

/// Researched mappings: MQ FIRE TEMPLE (Scene 0x04).
fn mq_fire_temple_2() -> (v: Vec<FlagMapping>)
    ensures
        v@ == spec_mq_fire_temple_2(),
        all_complete(v@),
{
    let v = vec![
        FlagMapping::mapped("mq_oot_mq_fire_temple_gs_burning_block", scene::FIRE_TEMPLE, FlagType::GoldSkulltula, 0x02),
        FlagMapping::mapped("mq_oot_mq_fire_temple_gs_fire_walls_side_room", scene::FIRE_TEMPLE, FlagType::GoldSkulltula, 0x04),
        FlagMapping::mapped("mq_oot_mq_fire_temple_gs_fire_walls_middle", scene::FIRE_TEMPLE, FlagType::GoldSkulltula, 0x08),
        FlagMapping::mapped("mq_oot_mq_fire_temple_gs_topmost", scene::FIRE_TEMPLE, FlagType::GoldSkulltula, 0x10),
    ];
    assert(v@ =~= spec_mq_fire_temple_2());
    v
}

/// Researched mappings: MQ WATER TEMPLE (Scene 0x05).
fn mq_water_temple() -> (v: Vec<FlagMapping>)
    ensures
        v@ == spec_mq_water_temple(),
        all_complete(v@),
{
    let v = vec![
        FlagMapping::mapped("mq_oot_mq_water_temple_compass_chest", scene::WATER_TEMPLE, FlagType::Chest, 0x0000_0001),
        FlagMapping::mapped("mq_oot_mq_water_temple_longshot_chest", scene::WATER_TEMPLE, FlagType::Chest, 0x0000_0002),
        FlagMapping::mapped("mq_oot_mq_water_temple_map_chest", scene::WATER_TEMPLE, FlagType::Chest, 0x0000_0004),
        FlagMapping::mapped("mq_oot_mq_water_temple_boss_key_chest", scene::WATER_TEMPLE, FlagType::Chest, 0x0000_0040),
        FlagMapping::mapped("mq_oot_mq_water_temple_central_pillar_chest", scene::WATER_TEMPLE, FlagType::Chest, 0x0000_0020),
        FlagMapping::mapped("mq_oot_mq_water_temple_gs_river", scene::WATER_TEMPLE, FlagType::GoldSkulltula, 0x01),
        FlagMapping::mapped("mq_oot_mq_water_temple_gs_three_torch", scene::WATER_TEMPLE, FlagType::GoldSkulltula, 0x02),
        FlagMapping::mapped("mq_oot_mq_water_temple_gs_side_loop", scene::WATER_TEMPLE, FlagType::GoldSkulltula, 0x04),
        FlagMapping::mapped("mq_oot_mq_water_temple_gs_lizalfos_hallway", scene::WATER_TEMPLE, FlagType::GoldSkulltula, 0x08),
        FlagMapping::mapped("mq_oot_mq_water_temple_gs_high_water_changer", scene::WATER_TEMPLE, FlagType::GoldSkulltula, 0x10),
    ];
    assert(v@ =~= spec_mq_water_temple());
    v
}

/// Researched mappings: MQ SPIRIT TEMPLE (Scene 0x06).
fn mq_spirit_temple_1() -> (v: Vec<FlagMapping>)
    ensures
        v@ == spec_mq_spirit_temple_1(),
        all_complete(v@),
{
    let v = vec![
        FlagMapping::mapped("mq_oot_mq_spirit_temple_entrance_initial_chest", scene::SPIRIT_TEMPLE, FlagType::Chest, 0x0000_0001),
        FlagMapping::mapped("mq_oot_mq_spirit_temple_lobby_back_left_chest", scene::SPIRIT_TEMPLE, FlagType::Chest, 0x0000_0002),
        FlagMapping::mapped("mq_oot_mq_spirit_temple_lobby_back_right_chest", scene::SPIRIT_TEMPLE, FlagType::Chest, 0x0000_0004),
        FlagMapping::mapped("mq_oot_mq_spirit_temple_compass_chest", scene::SPIRIT_TEMPLE, FlagType::Chest, 0x0000_0008),
        FlagMapping::mapped("mq_oot_mq_spirit_temple_sun_block_room_chest", scene::SPIRIT_TEMPLE, FlagType::Chest, 0x0000_0010),
        FlagMapping::mapped("mq_oot_mq_spirit_temple_lobby_front_right_chest", scene::SPIRIT_TEMPLE, FlagType::Chest, 0x0000_0020),
        FlagMapping::mapped("mq_oot_mq_spirit_temple_map_chest", scene::SPIRIT_TEMPLE, FlagType::Chest, 0x0000_0040),
        FlagMapping::mapped("mq_oot_mq_spirit_temple_map_room_back_chest", scene::SPIRIT_TEMPLE, FlagType::Chest, 0x0000_0080),
        FlagMapping::mapped("mq_oot_mq_spirit_temple_paradox_chest", scene::SPIRIT_TEMPLE, FlagType::Chest, 0x0000_0100),
        FlagMapping::mapped("mq_oot_mq_spirit_temple_child_upper_ground_chest", scene::SPIRIT_TEMPLE, FlagType::Chest, 0x0000_0200),
        FlagMapping::mapped("mq_oot_mq_spirit_temple_child_upper_ledge_chest", scene::SPIRIT_TEMPLE, FlagType::Chest, 0x0000_0400),
        FlagMapping::mapped("mq_oot_mq_spirit_temple_silver_block_room_target_chest", scene::SPIRIT_TEMPLE, FlagType::Chest, 0x0000_0800),
    ];
    assert(v@ =~= spec_mq_spirit_temple_1());
    v
}

/// Researched mappings: MQ SPIRIT TEMPLE (Scene 0x06).
fn mq_spirit_temple_2() -> (v: Vec<FlagMapping>)
    ensures
        v@ == spec_mq_spirit_temple_2(),
        all_complete(v@),
{
    let v = vec![
        FlagMapping::mapped("mq_oot_mq_spirit_temple_chest_in_box", scene::SPIRIT_TEMPLE, FlagType::Chest, 0x0000_1000),
        FlagMapping::mapped("mq_oot_mq_spirit_temple_statue_room_ledge_chest", scene::SPIRIT_TEMPLE, FlagType::Chest, 0x0000_2000),
        FlagMapping::mapped("mq_oot_mq_spirit_temple_purple_leever_chest", scene::SPIRIT_TEMPLE, FlagType::Chest, 0x0000_4000),
        FlagMapping::mapped("mq_oot_mq_spirit_temple_symphony_room_chest", scene::SPIRIT_TEMPLE, FlagType::Chest, 0x0000_8000),
        FlagMapping::mapped("mq_oot_mq_spirit_temple_beamos_room_chest", scene::SPIRIT_TEMPLE, FlagType::Chest, 0x0001_0000),
        FlagMapping::mapped("mq_oot_mq_spirit_temple_dinolfos_room_chest", scene::SPIRIT_TEMPLE, FlagType::Chest, 0x0002_0000),
        FlagMapping::mapped("mq_oot_mq_spirit_temple_boss_key_chest", scene::SPIRIT_TEMPLE, FlagType::Chest, 0x0004_0000),
        FlagMapping::mapped("mq_oot_mq_spirit_temple_topmost_chest", scene::SPIRIT_TEMPLE, FlagType::Chest, 0x0008_0000),
        FlagMapping::mapped("mq_oot_mq_spirit_temple_gs_sun_block_room", scene::SPIRIT_TEMPLE, FlagType::GoldSkulltula, 0x01),
        FlagMapping::mapped("mq_oot_mq_spirit_temple_gs_leever_room", scene::SPIRIT_TEMPLE, FlagType::GoldSkulltula, 0x02),
        FlagMapping::mapped("mq_oot_mq_spirit_temple_gs_symphony_room", scene::SPIRIT_TEMPLE, FlagType::GoldSkulltula, 0x04),
        FlagMapping::mapped("mq_oot_mq_spirit_temple_gs_top_floor_left_wall", scene::SPIRIT_TEMPLE, FlagType::GoldSkulltula, 0x08),
    ];
    assert(v@ =~= spec_mq_spirit_temple_2());
    v
}

/// Researched mappings: MQ SPIRIT TEMPLE (Scene 0x06).
fn mq_spirit_temple_3() -> (v: Vec<FlagMapping>)
    ensures
        v@ == spec_mq_spirit_temple_3(),
        all_complete(v@),
{
    let v = vec![
        FlagMapping::mapped("mq_oot_mq_spirit_temple_gs_top_floor_back_wall", scene::SPIRIT_TEMPLE, FlagType::GoldSkulltula, 0x10),
    ];
    assert(v@ =~= spec_mq_spirit_temple_3());
    v
}

/// Researched mappings: MQ SHADOW TEMPLE (Scene 0x07).
fn mq_shadow_temple_1() -> (v: Vec<FlagMapping>)
    ensures
        v@ == spec_mq_shadow_temple_1(),
        all_complete(v@),
{
    let v = vec![
        FlagMapping::mapped("mq_oot_mq_shadow_temple_compass_chest", scene::SHADOW_TEMPLE, FlagType::Chest, 0x0000_0008),
        FlagMapping::mapped("mq_oot_mq_shadow_temple_hover_boots_chest", scene::SHADOW_TEMPLE, FlagType::Chest, 0x0000_0080),
        FlagMapping::mapped("mq_oot_mq_shadow_temple_first_gibdos_chest", scene::SHADOW_TEMPLE, FlagType::Chest, 0x0000_0001),
        FlagMapping::mapped("mq_oot_mq_shadow_temple_map_chest", scene::SHADOW_TEMPLE, FlagType::Chest, 0x0000_0002),
        FlagMapping::mapped("mq_oot_mq_shadow_temple_boat_passage_chest", scene::SHADOW_TEMPLE, FlagType::Chest, 0x0000_0004),
        FlagMapping::mapped("mq_oot_mq_shadow_temple_second_silver_rupee_visible_chest", scene::SHADOW_TEMPLE, FlagType::Chest, 0x0000_0010),
        FlagMapping::mapped("mq_oot_mq_shadow_temple_second_silver_rupee_invisible_chest", scene::SHADOW_TEMPLE, FlagType::Chest, 0x0000_0020),
        FlagMapping::mapped("mq_oot_mq_shadow_temple_huge_pit_silver_rupee_chest", scene::SHADOW_TEMPLE, FlagType::Chest, 0x0000_0040),
        FlagMapping::mapped("mq_oot_mq_shadow_temple_spike_curtain_ground_chest", scene::SHADOW_TEMPLE, FlagType::Chest, 0x0000_0100),
        FlagMapping::mapped("mq_oot_mq_shadow_temple_spike_curtain_upper_cage_chest", scene::SHADOW_TEMPLE, FlagType::Chest, 0x0000_0200),
        FlagMapping::mapped("mq_oot_mq_shadow_temple_spike_curtain_upper_switch_chest", scene::SHADOW_TEMPLE, FlagType::Chest, 0x0000_0400),
        FlagMapping::mapped("mq_oot_mq_shadow_temple_invisible_spike_floor_chest", scene::SHADOW_TEMPLE, FlagType::Chest, 0x0000_0800),
    ];
    assert(v@ =~= spec_mq_shadow_temple_1());
    v
}

/// Researched mappings: MQ SHADOW TEMPLE (Scene 0x07).
fn mq_shadow_temple_2() -> (v: Vec<FlagMapping>)
    ensures
        v@ == spec_mq_shadow_temple_2(),
        all_complete(v@),
{
    let v = vec![
        FlagMapping::mapped("mq_oot_mq_shadow_temple_stalfos_room_chest", scene::SHADOW_TEMPLE, FlagType::Chest, 0x0000_1000),
        FlagMapping::mapped("mq_oot_mq_shadow_temple_wind_hint_chest", scene::SHADOW_TEMPLE, FlagType::Chest, 0x0020_0000),
        FlagMapping::mapped("mq_oot_mq_shadow_temple_after_wind_gibdos_chest", scene::SHADOW_TEMPLE, FlagType::Chest, 0x0000_2000),
        FlagMapping::mapped("mq_oot_mq_shadow_temple_after_wind_bomb_chest", scene::SHADOW_TEMPLE, FlagType::Chest, 0x0010_0000),
        FlagMapping::mapped("mq_oot_mq_shadow_temple_hidden_dead_hand_chest", scene::SHADOW_TEMPLE, FlagType::Chest, 0x0000_4000),
        FlagMapping::mapped("mq_oot_mq_shadow_temple_crushing_wall_left_chest", scene::SHADOW_TEMPLE, FlagType::Chest, 0x0000_8000),
        FlagMapping::mapped("mq_oot_mq_shadow_temple_boss_key_chest", scene::SHADOW_TEMPLE, FlagType::Chest, 0x0001_0000),
        FlagMapping::mapped("mq_oot_mq_shadow_temple_gs_spike_curtain", scene::SHADOW_TEMPLE, FlagType::GoldSkulltula, 0x01),
        FlagMapping::mapped("mq_oot_mq_shadow_temple_gs_wind_hint", scene::SHADOW_TEMPLE, FlagType::GoldSkulltula, 0x02),
        FlagMapping::mapped("mq_oot_mq_shadow_temple_gs_after_wind_bomb", scene::SHADOW_TEMPLE, FlagType::GoldSkulltula, 0x04),
        FlagMapping::mapped("mq_oot_mq_shadow_temple_gs_after_boat", scene::SHADOW_TEMPLE, FlagType::GoldSkulltula, 0x08),
        FlagMapping::mapped("mq_oot_mq_shadow_temple_gs_pre_boss", scene::SHADOW_TEMPLE, FlagType::GoldSkulltula, 0x10),
    ];
    assert(v@ =~= spec_mq_shadow_temple_2());
    v
}

/// Researched mappings: MQ BOTTOM OF THE WELL (Scene 0x08).
fn mq_bottom_of_the_well() -> (v: Vec<FlagMapping>)
    ensures
        v@ == spec_mq_bottom_of_the_well(),
        all_complete(v@),
{
    let v = vec![
        FlagMapping::mapped("mq_oot_mq_bottom_of_the_well_map_chest", scene::BOTTOM_OF_THE_WELL, FlagType::Chest, 0x0000_0001),
        FlagMapping::mapped("mq_oot_mq_bottom_of_the_well_lens_chest", scene::BOTTOM_OF_THE_WELL, FlagType::Chest, 0x0000_0008),
        FlagMapping::mapped("mq_oot_mq_bottom_of_the_well_compass_chest", scene::BOTTOM_OF_THE_WELL, FlagType::Chest, 0x0000_0002),
        FlagMapping::mapped("mq_oot_mq_bottom_of_the_well_gs_basement", scene::BOTTOM_OF_THE_WELL, FlagType::GoldSkulltula, 0x01),
        FlagMapping::mapped("mq_oot_mq_bottom_of_the_well_gs_west_middle_room", scene::BOTTOM_OF_THE_WELL, FlagType::GoldSkulltula, 0x02),
        FlagMapping::mapped("mq_oot_mq_bottom_of_the_well_gs_coffin_room", scene::BOTTOM_OF_THE_WELL, FlagType::GoldSkulltula, 0x04),
    ];
    assert(v@ =~= spec_mq_bottom_of_the_well());
    v
}

/// Researched mappings: MQ ICE CAVERN (Scene 0x09).
fn mq_ice_cavern() -> (v: Vec<FlagMapping>)
    ensures
        v@ == spec_mq_ice_cavern(),
        all_complete(v@),
{
    let v = vec![
        FlagMapping::mapped("mq_oot_mq_ice_cavern_map_chest", scene::ICE_CAVERN, FlagType::Chest, 0x0000_0001),
        FlagMapping::mapped("mq_oot_mq_ice_cavern_compass_chest", scene::ICE_CAVERN, FlagType::Chest, 0x0000_0002),
        FlagMapping::mapped("mq_oot_mq_ice_cavern_gs_compass_room", scene::ICE_CAVERN, FlagType::GoldSkulltula, 0x01),
        FlagMapping::mapped("mq_oot_mq_ice_cavern_gs_clear_blocks", scene::ICE_CAVERN, FlagType::GoldSkulltula, 0x02),
        FlagMapping::mapped("mq_oot_mq_ice_cavern_gs_scarecrow", scene::ICE_CAVERN, FlagType::GoldSkulltula, 0x04),
    ];
    assert(v@ =~= spec_mq_ice_cavern());
    v
}

/// Researched mappings: MQ GERUDO TRAINING GROUND (Scene 0x0B).
fn mq_gerudo_training_ground_1() -> (v: Vec<FlagMapping>)
    ensures
        v@ == spec_mq_gerudo_training_ground_1(),
        all_complete(v@),
{
    let v = vec![
        FlagMapping::mapped("mq_oot_mq_gerudo_training_grounds_entryway_left_chest", scene::GERUDO_TRAINING_GROUND, FlagType::Chest, 0x0000_0001),
        FlagMapping::mapped("mq_oot_mq_gerudo_training_grounds_entryway_right_chest", scene::GERUDO_TRAINING_GROUND, FlagType::Chest, 0x0000_0002),
        FlagMapping::mapped("mq_oot_mq_gerudo_training_grounds_maze_first_chest", scene::GERUDO_TRAINING_GROUND, FlagType::Chest, 0x0000_1000),
        FlagMapping::mapped("mq_oot_mq_gerudo_training_grounds_maze_second_chest", scene::GERUDO_TRAINING_GROUND, FlagType::Chest, 0x0002_0000),
        FlagMapping::mapped("mq_oot_mq_gerudo_training_grounds_maze_third_chest", scene::GERUDO_TRAINING_GROUND, FlagType::Chest, 0x0004_0000),
        FlagMapping::mapped("mq_oot_mq_gerudo_training_grounds_maze_fourth_chest", scene::GERUDO_TRAINING_GROUND, FlagType::Chest, 0x0010_0000),
        FlagMapping::mapped("mq_oot_mq_gerudo_training_grounds_maze_right_side_middle_chest", scene::GERUDO_TRAINING_GROUND, FlagType::Chest, 0x0000_0004),
        FlagMapping::mapped("mq_oot_mq_gerudo_training_grounds_maze_right_side_right_chest", scene::GERUDO_TRAINING_GROUND, FlagType::Chest, 0x0000_0008),
        FlagMapping::mapped("mq_oot_mq_gerudo_training_grounds_right_side_dinolfos_chest", scene::GERUDO_TRAINING_GROUND, FlagType::Chest, 0x0000_0010),
        FlagMapping::mapped("mq_oot_mq_gerudo_training_grounds_water_room_chest", scene::GERUDO_TRAINING_GROUND, FlagType::Chest, 0x0000_0020),
        FlagMapping::mapped("mq_oot_mq_gerudo_training_grounds_left_side_iron_knuckle_chest", scene::GERUDO_TRAINING_GROUND, FlagType::Chest, 0x0000_0040),
        FlagMapping::mapped("mq_oot_mq_gerudo_training_grounds_stalfos_room_chest", scene::GERUDO_TRAINING_GROUND, FlagType::Chest, 0x0000_0080),
    ];
    assert(v@ =~= spec_mq_gerudo_training_ground_1());
    v
}

/// Researched mappings: MQ GERUDO TRAINING GROUND (Scene 0x0B).
fn mq_gerudo_training_ground_2() -> (v: Vec<FlagMapping>)
    ensures
        v@ == spec_mq_gerudo_training_ground_2(),
        all_complete(v@),
{
    let v = vec![
        FlagMapping::mapped("mq_oot_mq_gerudo_training_grounds_silver_block_room_chest", scene::GERUDO_TRAINING_GROUND, FlagType::Chest, 0x0000_0100),
        FlagMapping::mapped("mq_oot_mq_gerudo_training_grounds_ice_arrows_chest", scene::GERUDO_TRAINING_GROUND, FlagType::Chest, 0x0000_0200),
        FlagMapping::mapped("mq_oot_mq_gerudo_training_grounds_spinning_statue_chest", scene::GERUDO_TRAINING_GROUND, FlagType::Chest, 0x0000_0400),
        FlagMapping::mapped("mq_oot_mq_gerudo_training_grounds_torch_slug_room_clear_chest", scene::GERUDO_TRAINING_GROUND, FlagType::Chest, 0x0000_0800),
        FlagMapping::mapped("mq_oot_mq_gerudo_training_grounds_torch_slug_room_switch_chest", scene::GERUDO_TRAINING_GROUND, FlagType::Chest, 0x0008_0000),
    ];
    assert(v@ =~= spec_mq_gerudo_training_ground_2());
    v
}

/// Researched mappings: MQ GANON'S CASTLE (Scene 0x0D).
fn mq_ganon_s_castle() -> (v: Vec<FlagMapping>)
    ensures
        v@ == spec_mq_ganon_s_castle(),
        all_complete(v@),
{
    let v = vec![
        FlagMapping::mapped("mq_oot_mq_ganon_castle_light_trial_chest", scene::GANONS_CASTLE, FlagType::Chest, 0x0001_0000),
        FlagMapping::mapped("mq_oot_mq_ganon_castle_forest_trial_first_chest", scene::GANONS_CASTLE, FlagType::Chest, 0x0000_0200),
        FlagMapping::mapped("mq_oot_mq_ganon_castle_forest_trial_second_chest", scene::GANONS_CASTLE, FlagType::Chest, 0x0000_0001),
        FlagMapping::mapped("mq_oot_mq_ganon_castle_water_trial_chest", scene::GANONS_CASTLE, FlagType::Chest, 0x0000_0080),
        FlagMapping::mapped("mq_oot_mq_ganon_castle_spirit_trial_first_chest", scene::GANONS_CASTLE, FlagType::Chest, 0x0004_0000),
        FlagMapping::mapped("mq_oot_mq_ganon_castle_spirit_trial_second_chest", scene::GANONS_CASTLE, FlagType::Chest, 0x0010_0000),
        FlagMapping::mapped("mq_oot_mq_ganon_castle_spirit_trial_back_right_sun_chest", scene::GANONS_CASTLE, FlagType::Chest, 0x0000_0002),
        FlagMapping::mapped("mq_oot_mq_ganon_castle_spirit_trial_back_left_sun_chest", scene::GANONS_CASTLE, FlagType::Chest, 0x0000_0004),
        FlagMapping::mapped("mq_oot_mq_ganon_castle_spirit_trial_front_left_sun_chest", scene::GANONS_CASTLE, FlagType::Chest, 0x0000_0008),
        FlagMapping::mapped("mq_oot_mq_ganon_castle_spirit_trial_gold_gauntlets_chest", scene::GANONS_CASTLE, FlagType::Chest, 0x0000_0010),
        FlagMapping::mapped("mq_oot_mq_ganon_castle_shadow_trial_bomb_flower_chest", scene::GANONS_CASTLE, FlagType::Chest, 0x0000_0100),
        FlagMapping::mapped("mq_oot_mq_ganon_castle_shadow_trial_switch_chest", scene::GANONS_CASTLE, FlagType::Chest, 0x0000_0020),
    ];
    assert(v@ =~= spec_mq_ganon_s_castle());
    v
}

/// All researched mappings, in the order they are added to the table.
pub fn known_oot_mappings() -> (v: Vec<FlagMapping>)
    ensures
        v@ == spec_known_oot_mappings(),
        all_complete(v@),
{
    let mut v = misc();
    let mut more = dodongo_s_cavern();
    proof {
        lemma_all_complete_concat(v@, more@);
    }
    v.append(&mut more);
    let mut more = jabu_jabu_s_belly();
    proof {
        lemma_all_complete_concat(v@, more@);
    }
    v.append(&mut more);
    let mut more = forest_temple_1();
    proof {
        lemma_all_complete_concat(v@, more@);
    }
    v.append(&mut more);
    let mut more = forest_temple_2();
    proof {
        lemma_all_complete_concat(v@, more@);
    }
    v.append(&mut more);
    let mut more = fire_temple();
    proof {
        lemma_all_complete_concat(v@, more@);
    }
    v.append(&mut more);
    let mut more = water_temple();
    proof {
        lemma_all_complete_concat(v@, more@);
    }
    v.append(&mut more);
    let mut more = spirit_temple_1();
    proof {
        lemma_all_complete_concat(v@, more@);
    }
    v.append(&mut more);
    let mut more = spirit_temple_2();
    proof {
        lemma_all_complete_concat(v@, more@);
    }
    v.append(&mut more);
    let mut more = shadow_temple_1();
    proof {
        lemma_all_complete_concat(v@, more@);
    }
    v.append(&mut more);
    let mut more = shadow_temple_2();
    proof {
        lemma_all_complete_concat(v@, more@);
    }
    v.append(&mut more);
    let mut more = bottom_of_the_well_1();
    proof {
        lemma_all_complete_concat(v@, more@);
    }
    v.append(&mut more);
    let mut more = bottom_of_the_well_2();
    proof {
        lemma_all_complete_concat(v@, more@);
    }
    v.append(&mut more);
    let mut more = ice_cavern();
    proof {
        lemma_all_complete_concat(v@, more@);
    }
    v.append(&mut more);
    let mut more = gerudo_training_ground();
    proof {
        lemma_all_complete_concat(v@, more@);
    }
    v.append(&mut more);
    let mut more = dodongo_s_cavern_boss();
    proof {
        lemma_all_complete_concat(v@, more@);
    }
    v.append(&mut more);
    let mut more = ganon_s_castle_1();
    proof {
        lemma_all_complete_concat(v@, more@);
    }
    v.append(&mut more);
    let mut more = ganon_s_castle_2();
    proof {
        lemma_all_complete_concat(v@, more@);
    }
    v.append(&mut more);
    let mut more = the_treasure_chest_game_has_5_rooms_with_2_chests_each_plus_the_final_hp_chest();
    proof {
        lemma_all_complete_concat(v@, more@);
    }
    v.append(&mut more);
    let mut more = grottos_shared_scene_for_all_grottos();
    proof {
        lemma_all_complete_concat(v@, more@);
    }
    v.append(&mut more);
    let mut more = graveyard_graves();
    proof {
        lemma_all_complete_concat(v@, more@);
    }
    v.append(&mut more);
    let mut more = kokiri_forest();
    proof {
        lemma_all_complete_concat(v@, more@);
    }
    v.append(&mut more);
    let mut more = zora_s_domain();
    proof {
        lemma_all_complete_concat(v@, more@);
    }
    v.append(&mut more);
    let mut more = gerudo_valley();
    proof {
        lemma_all_complete_concat(v@, more@);
    }
    v.append(&mut more);
    let mut more = desert_colossus_spirit_temple_exterior_chests();
    proof {
        lemma_all_complete_concat(v@, more@);
    }
    v.append(&mut more);
    let mut more = gerudo_fortress();
    proof {
        lemma_all_complete_concat(v@, more@);
    }
    v.append(&mut more);
    let mut more = haunted_wasteland();
    proof {
        lemma_all_complete_concat(v@, more@);
    }
    v.append(&mut more);
    let mut more = death_mountain_trail();
    proof {
        lemma_all_complete_concat(v@, more@);
    }
    v.append(&mut more);
    let mut more = gold_skulltula_flags_are_stored_in_a_24_byte_section_at_save_1();
    proof {
        lemma_all_complete_concat(v@, more@);
    }
    v.append(&mut more);
    let mut more = gold_skulltula_flags_are_stored_in_a_24_byte_section_at_save_2();
    proof {
        lemma_all_complete_concat(v@, more@);
    }
    v.append(&mut more);
    let mut more = gold_skulltula_flags_are_stored_in_a_24_byte_section_at_save_3();
    proof {
        lemma_all_complete_concat(v@, more@);
    }
    v.append(&mut more);
    let mut more = gold_skulltula_flags_are_stored_in_a_24_byte_section_at_save_4();
    proof {
        lemma_all_complete_concat(v@, more@);
    }
    v.append(&mut more);
    let mut more = overworld_skulltulas_use_scene_ids_0x0a_0x15_for_gs_flag_bytes_1();
    proof {
        lemma_all_complete_concat(v@, more@);
    }
    v.append(&mut more);
    let mut more = overworld_skulltulas_use_scene_ids_0x0a_0x15_for_gs_flag_bytes_2();
    proof {
        lemma_all_complete_concat(v@, more@);
    }
    v.append(&mut more);
    let mut more = overworld_skulltulas_use_scene_ids_0x0a_0x15_for_gs_flag_bytes_3();
    proof {
        lemma_all_complete_concat(v@, more@);
    }
    v.append(&mut more);
    let mut more = overworld_skulltulas_use_scene_ids_0x0a_0x15_for_gs_flag_bytes_4();
    proof {
        lemma_all_complete_concat(v@, more@);
    }
    v.append(&mut more);
    let mut more = overworld_skulltulas_use_scene_ids_0x0a_0x15_for_gs_flag_bytes_5();
    proof {
        lemma_all_complete_concat(v@, more@);
    }
    v.append(&mut more);
    let mut more = heart_pieces_and_other_freestanding_collectibles_are_tracked_via_the_1();
    proof {
        lemma_all_complete_concat(v@, more@);
    }
    v.append(&mut more);
    let mut more = heart_pieces_and_other_freestanding_collectibles_are_tracked_via_the_2();
    proof {
        lemma_all_complete_concat(v@, more@);
    }
    v.append(&mut more);
    let mut more = mq_deku_tree();
    proof {
        lemma_all_complete_concat(v@, more@);
    }
    v.append(&mut more);
    let mut more = mq_dodongo_s_cavern();
    proof {
        lemma_all_complete_concat(v@, more@);
    }
    v.append(&mut more);
    let mut more = mq_jabu_jabu_s_belly_1();
    proof {
        lemma_all_complete_concat(v@, more@);
    }
    v.append(&mut more);
    let mut more = mq_jabu_jabu_s_belly_2();
    proof {
        lemma_all_complete_concat(v@, more@);
    }
    v.append(&mut more);
    let mut more = mq_forest_temple_1();
    proof {
        lemma_all_complete_concat(v@, more@);
    }
    v.append(&mut more);
    let mut more = mq_forest_temple_2();
    proof {
        lemma_all_complete_concat(v@, more@);
    }
    v.append(&mut more);
    let mut more = mq_fire_temple_1();
    proof {
        lemma_all_complete_concat(v@, more@);
    }
    v.append(&mut more);
    let mut more = mq_fire_temple_2();
    proof {
        lemma_all_complete_concat(v@, more@);
    }
    v.append(&mut more);
    let mut more = mq_water_temple();
    proof {
        lemma_all_complete_concat(v@, more@);
    }
    v.append(&mut more);
    let mut more = mq_spirit_temple_1();
    proof {
        lemma_all_complete_concat(v@, more@);
    }
    v.append(&mut more);
    let mut more = mq_spirit_temple_2();
    proof {
        lemma_all_complete_concat(v@, more@);
    }
    v.append(&mut more);
    let mut more = mq_spirit_temple_3();
    proof {
        lemma_all_complete_concat(v@, more@);
    }
    v.append(&mut more);
    let mut more = mq_shadow_temple_1();
    proof {
        lemma_all_complete_concat(v@, more@);
    }
    v.append(&mut more);
    let mut more = mq_shadow_temple_2();
    proof {
        lemma_all_complete_concat(v@, more@);
    }
    v.append(&mut more);
    let mut more = mq_bottom_of_the_well();
    proof {
        lemma_all_complete_concat(v@, more@);
    }
    v.append(&mut more);
    let mut more = mq_ice_cavern();
    proof {
        lemma_all_complete_concat(v@, more@);
    }
    v.append(&mut more);
    let mut more = mq_gerudo_training_ground_1();
    proof {
        lemma_all_complete_concat(v@, more@);
    }
    v.append(&mut more);
    let mut more = mq_gerudo_training_ground_2();
    proof {
        lemma_all_complete_concat(v@, more@);
    }
    v.append(&mut more);
    let mut more = mq_ganon_s_castle();
    proof {
        lemma_all_complete_concat(v@, more@);
    }
    v.append(&mut more);
    assert(v@ =~= spec_known_oot_mappings());
    v
}

// ============================================================================
// The flag research, fact by fact
// ============================================================================

/// A researched mapping, written out field by field.
pub open spec fn researched(location_id: &'static str, scene_id: u8, flag_type: FlagType, flag_bit: u32) -> FlagMapping {
    FlagMapping { location_id, scene_id: Some(scene_id), flag_type: Some(flag_type), flag_bit: Some(flag_bit) }
}

/// What one part of a sum of sequences holds, the sum holds.
proof fn lemma_contains_in_sum(a: Seq<FlagMapping>, b: Seq<FlagMapping>, x: FlagMapping)
    ensures
        a.contains(x) ==> (a + b).contains(x),
        b.contains(x) ==> (a + b).contains(x),
{
    if a.contains(x) {
        let i = choose|i: int| 0 <= i < a.len() && a[i] == x;
        assert((a + b)[i] == x);
    }
    if b.contains(x) {
        let i = choose|i: int| 0 <= i < b.len() && b[i] == x;
        assert((a + b)[a.len() + i] == x);
    }
}

/// The research up to and including `spec_misc`.
spec fn research_upto_0() -> Seq<FlagMapping> {
    spec_misc()
}

/// The research up to and including `spec_dodongo_s_cavern`.
spec fn research_upto_1() -> Seq<FlagMapping> {
    research_upto_0() + spec_dodongo_s_cavern()
}

/// The research up to and including `spec_jabu_jabu_s_belly`.
spec fn research_upto_2() -> Seq<FlagMapping> {
    research_upto_1() + spec_jabu_jabu_s_belly()
}

/// The research up to and including `spec_forest_temple_1`.
spec fn research_upto_3() -> Seq<FlagMapping> {
    research_upto_2() + spec_forest_temple_1()
}

/// The research up to and including `spec_forest_temple_2`.
spec fn research_upto_4() -> Seq<FlagMapping> {
    research_upto_3() + spec_forest_temple_2()
}

/// The research up to and including `spec_fire_temple`.
spec fn research_upto_5() -> Seq<FlagMapping> {
    research_upto_4() + spec_fire_temple()
}

/// The research up to and including `spec_water_temple`.
spec fn research_upto_6() -> Seq<FlagMapping> {
    research_upto_5() + spec_water_temple()
}

/// The research up to and including `spec_spirit_temple_1`.
spec fn research_upto_7() -> Seq<FlagMapping> {
    research_upto_6() + spec_spirit_temple_1()
}

/// The research up to and including `spec_spirit_temple_2`.
spec fn research_upto_8() -> Seq<FlagMapping> {
    research_upto_7() + spec_spirit_temple_2()
}

/// The research up to and including `spec_shadow_temple_1`.
spec fn research_upto_9() -> Seq<FlagMapping> {
    research_upto_8() + spec_shadow_temple_1()
}

/// The research up to and including `spec_shadow_temple_2`.
spec fn research_upto_10() -> Seq<FlagMapping> {
    research_upto_9() + spec_shadow_temple_2()
}

/// The research up to and including `spec_bottom_of_the_well_1`.
spec fn research_upto_11() -> Seq<FlagMapping> {
    research_upto_10() + spec_bottom_of_the_well_1()
}

/// The research up to and including `spec_bottom_of_the_well_2`.
spec fn research_upto_12() -> Seq<FlagMapping> {
    research_upto_11() + spec_bottom_of_the_well_2()
}

/// The research up to and including `spec_ice_cavern`.
spec fn research_upto_13() -> Seq<FlagMapping> {
    research_upto_12() + spec_ice_cavern()
}

/// The research up to and including `spec_gerudo_training_ground`.
spec fn research_upto_14() -> Seq<FlagMapping> {
    research_upto_13() + spec_gerudo_training_ground()
}

/// The research up to and including `spec_dodongo_s_cavern_boss`.
spec fn research_upto_15() -> Seq<FlagMapping> {
    research_upto_14() + spec_dodongo_s_cavern_boss()
}

/// The research up to and including `spec_ganon_s_castle_1`.
spec fn research_upto_16() -> Seq<FlagMapping> {
    research_upto_15() + spec_ganon_s_castle_1()
}

/// The research up to and including `spec_ganon_s_castle_2`.
spec fn research_upto_17() -> Seq<FlagMapping> {
    research_upto_16() + spec_ganon_s_castle_2()
}

/// The research up to and including `spec_the_treasure_chest_game_has_5_rooms_with_2_chests_each_plus_the_final_hp_chest`.
spec fn research_upto_18() -> Seq<FlagMapping> {
    research_upto_17() + spec_the_treasure_chest_game_has_5_rooms_with_2_chests_each_plus_the_final_hp_chest()
}

/// The research up to and including `spec_grottos_shared_scene_for_all_grottos`.
spec fn research_upto_19() -> Seq<FlagMapping> {
    research_upto_18() + spec_grottos_shared_scene_for_all_grottos()
}

/// The research up to and including `spec_graveyard_graves`.
spec fn research_upto_20() -> Seq<FlagMapping> {
    research_upto_19() + spec_graveyard_graves()
}

/// The research up to and including `spec_kokiri_forest`.
spec fn research_upto_21() -> Seq<FlagMapping> {
    research_upto_20() + spec_kokiri_forest()
}

/// The research up to and including `spec_zora_s_domain`.
spec fn research_upto_22() -> Seq<FlagMapping> {
    research_upto_21() + spec_zora_s_domain()
}

/// The research up to and including `spec_gerudo_valley`.
spec fn research_upto_23() -> Seq<FlagMapping> {
    research_upto_22() + spec_gerudo_valley()
}

/// The research up to and including `spec_desert_colossus_spirit_temple_exterior_chests`.
spec fn research_upto_24() -> Seq<FlagMapping> {
    research_upto_23() + spec_desert_colossus_spirit_temple_exterior_chests()
}

/// The research up to and including `spec_gerudo_fortress`.
spec fn research_upto_25() -> Seq<FlagMapping> {
    research_upto_24() + spec_gerudo_fortress()
}

/// The research up to and including `spec_haunted_wasteland`.
spec fn research_upto_26() -> Seq<FlagMapping> {
    research_upto_25() + spec_haunted_wasteland()
}

/// The research up to and including `spec_death_mountain_trail`.
spec fn research_upto_27() -> Seq<FlagMapping> {
    research_upto_26() + spec_death_mountain_trail()
}

/// The research up to and including `spec_gold_skulltula_flags_are_stored_in_a_24_byte_section_at_save_1`.
spec fn research_upto_28() -> Seq<FlagMapping> {
    research_upto_27() + spec_gold_skulltula_flags_are_stored_in_a_24_byte_section_at_save_1()
}

/// The research up to and including `spec_gold_skulltula_flags_are_stored_in_a_24_byte_section_at_save_2`.
spec fn research_upto_29() -> Seq<FlagMapping> {
    research_upto_28() + spec_gold_skulltula_flags_are_stored_in_a_24_byte_section_at_save_2()
}

/// The research up to and including `spec_gold_skulltula_flags_are_stored_in_a_24_byte_section_at_save_3`.
spec fn research_upto_30() -> Seq<FlagMapping> {
    research_upto_29() + spec_gold_skulltula_flags_are_stored_in_a_24_byte_section_at_save_3()
}

/// The research up to and including `spec_gold_skulltula_flags_are_stored_in_a_24_byte_section_at_save_4`.
spec fn research_upto_31() -> Seq<FlagMapping> {
    research_upto_30() + spec_gold_skulltula_flags_are_stored_in_a_24_byte_section_at_save_4()
}

/// The research up to and including `spec_overworld_skulltulas_use_scene_ids_0x0a_0x15_for_gs_flag_bytes_1`.
spec fn research_upto_32() -> Seq<FlagMapping> {
    research_upto_31() + spec_overworld_skulltulas_use_scene_ids_0x0a_0x15_for_gs_flag_bytes_1()
}

/// The research up to and including `spec_overworld_skulltulas_use_scene_ids_0x0a_0x15_for_gs_flag_bytes_2`.
spec fn research_upto_33() -> Seq<FlagMapping> {
    research_upto_32() + spec_overworld_skulltulas_use_scene_ids_0x0a_0x15_for_gs_flag_bytes_2()
}

/// The research up to and including `spec_overworld_skulltulas_use_scene_ids_0x0a_0x15_for_gs_flag_bytes_3`.
spec fn research_upto_34() -> Seq<FlagMapping> {
    research_upto_33() + spec_overworld_skulltulas_use_scene_ids_0x0a_0x15_for_gs_flag_bytes_3()
}

/// The research up to and including `spec_overworld_skulltulas_use_scene_ids_0x0a_0x15_for_gs_flag_bytes_4`.
spec fn research_upto_35() -> Seq<FlagMapping> {
    research_upto_34() + spec_overworld_skulltulas_use_scene_ids_0x0a_0x15_for_gs_flag_bytes_4()
}

/// The research up to and including `spec_overworld_skulltulas_use_scene_ids_0x0a_0x15_for_gs_flag_bytes_5`.
spec fn research_upto_36() -> Seq<FlagMapping> {
    research_upto_35() + spec_overworld_skulltulas_use_scene_ids_0x0a_0x15_for_gs_flag_bytes_5()
}

/// The research up to and including `spec_heart_pieces_and_other_freestanding_collectibles_are_tracked_via_the_1`.
spec fn research_upto_37() -> Seq<FlagMapping> {
    research_upto_36() + spec_heart_pieces_and_other_freestanding_collectibles_are_tracked_via_the_1()
}

/// The research up to and including `spec_heart_pieces_and_other_freestanding_collectibles_are_tracked_via_the_2`.
spec fn research_upto_38() -> Seq<FlagMapping> {
    research_upto_37() + spec_heart_pieces_and_other_freestanding_collectibles_are_tracked_via_the_2()
}

/// The research up to and including `spec_mq_deku_tree`.
spec fn research_upto_39() -> Seq<FlagMapping> {
    research_upto_38() + spec_mq_deku_tree()
}

/// The research up to and including `spec_mq_dodongo_s_cavern`.
spec fn research_upto_40() -> Seq<FlagMapping> {
    research_upto_39() + spec_mq_dodongo_s_cavern()
}

/// The research up to and including `spec_mq_jabu_jabu_s_belly_1`.
spec fn research_upto_41() -> Seq<FlagMapping> {
    research_upto_40() + spec_mq_jabu_jabu_s_belly_1()
}

/// The research up to and including `spec_mq_jabu_jabu_s_belly_2`.
spec fn research_upto_42() -> Seq<FlagMapping> {
    research_upto_41() + spec_mq_jabu_jabu_s_belly_2()
}

/// The research up to and including `spec_mq_forest_temple_1`.
spec fn research_upto_43() -> Seq<FlagMapping> {
    research_upto_42() + spec_mq_forest_temple_1()
}

/// The research up to and including `spec_mq_forest_temple_2`.
spec fn research_upto_44() -> Seq<FlagMapping> {
    research_upto_43() + spec_mq_forest_temple_2()
}

/// The research up to and including `spec_mq_fire_temple_1`.
spec fn research_upto_45() -> Seq<FlagMapping> {
    research_upto_44() + spec_mq_fire_temple_1()
}

/// The research up to and including `spec_mq_fire_temple_2`.
spec fn research_upto_46() -> Seq<FlagMapping> {
    research_upto_45() + spec_mq_fire_temple_2()
}

/// The research up to and including `spec_mq_water_temple`.
spec fn research_upto_47() -> Seq<FlagMapping> {
    research_upto_46() + spec_mq_water_temple()
}

/// The research up to and including `spec_mq_spirit_temple_1`.
spec fn research_upto_48() -> Seq<FlagMapping> {
    research_upto_47() + spec_mq_spirit_temple_1()
}

/// The research up to and including `spec_mq_spirit_temple_2`.
spec fn research_upto_49() -> Seq<FlagMapping> {
    research_upto_48() + spec_mq_spirit_temple_2()
}

/// The research up to and including `spec_mq_spirit_temple_3`.
spec fn research_upto_50() -> Seq<FlagMapping> {
    research_upto_49() + spec_mq_spirit_temple_3()
}

/// The research up to and including `spec_mq_shadow_temple_1`.
spec fn research_upto_51() -> Seq<FlagMapping> {
    research_upto_50() + spec_mq_shadow_temple_1()
}

/// The research up to and including `spec_mq_shadow_temple_2`.
spec fn research_upto_52() -> Seq<FlagMapping> {
    research_upto_51() + spec_mq_shadow_temple_2()
}

/// The research up to and including `spec_mq_bottom_of_the_well`.
spec fn research_upto_53() -> Seq<FlagMapping> {
    research_upto_52() + spec_mq_bottom_of_the_well()
}

/// The research up to and including `spec_mq_ice_cavern`.
spec fn research_upto_54() -> Seq<FlagMapping> {
    research_upto_53() + spec_mq_ice_cavern()
}

/// The research up to and including `spec_mq_gerudo_training_ground_1`.
spec fn research_upto_55() -> Seq<FlagMapping> {
    research_upto_54() + spec_mq_gerudo_training_ground_1()
}

/// The research up to and including `spec_mq_gerudo_training_ground_2`.
spec fn research_upto_56() -> Seq<FlagMapping> {
    research_upto_55() + spec_mq_gerudo_training_ground_2()
}

/// The research up to and including `spec_mq_ganon_s_castle`.
spec fn research_upto_57() -> Seq<FlagMapping> {
    research_upto_56() + spec_mq_ganon_s_castle()
}

/// The research up to the last group is all of it.
proof fn lemma_research_upto_all()
    ensures
        research_upto_57() == spec_known_oot_mappings(),
{
}

/// What the research up to group 0 holds, all of it holds.
proof fn lemma_upto_in_known_0(x: FlagMapping)
    requires
        research_upto_0().contains(x),
    ensures
        spec_known_oot_mappings().contains(x),
{
    lemma_contains_in_sum(research_upto_0(), spec_dodongo_s_cavern(), x);
    lemma_upto_in_known_1(x);
}

/// What the research up to group 1 holds, all of it holds.
proof fn lemma_upto_in_known_1(x: FlagMapping)
    requires
        research_upto_1().contains(x),
    ensures
        spec_known_oot_mappings().contains(x),
{
    lemma_contains_in_sum(research_upto_1(), spec_jabu_jabu_s_belly(), x);
    lemma_upto_in_known_2(x);
}

/// What the research up to group 2 holds, all of it holds.
proof fn lemma_upto_in_known_2(x: FlagMapping)
    requires
        research_upto_2().contains(x),
    ensures
        spec_known_oot_mappings().contains(x),
{
    lemma_contains_in_sum(research_upto_2(), spec_forest_temple_1(), x);
    lemma_upto_in_known_3(x);
}

/// What the research up to group 3 holds, all of it holds.
proof fn lemma_upto_in_known_3(x: FlagMapping)
    requires
        research_upto_3().contains(x),
    ensures
        spec_known_oot_mappings().contains(x),
{
    lemma_contains_in_sum(research_upto_3(), spec_forest_temple_2(), x);
    lemma_upto_in_known_4(x);
}

/// What the research up to group 4 holds, all of it holds.
proof fn lemma_upto_in_known_4(x: FlagMapping)
    requires
        research_upto_4().contains(x),
    ensures
        spec_known_oot_mappings().contains(x),
{
    lemma_contains_in_sum(research_upto_4(), spec_fire_temple(), x);
    lemma_upto_in_known_5(x);
}

/// What the research up to group 5 holds, all of it holds.
proof fn lemma_upto_in_known_5(x: FlagMapping)
    requires
        research_upto_5().contains(x),
    ensures
        spec_known_oot_mappings().contains(x),
{
    lemma_contains_in_sum(research_upto_5(), spec_water_temple(), x);
    lemma_upto_in_known_6(x);
}

/// What the research up to group 6 holds, all of it holds.
proof fn lemma_upto_in_known_6(x: FlagMapping)
    requires
        research_upto_6().contains(x),
    ensures
        spec_known_oot_mappings().contains(x),
{
    lemma_contains_in_sum(research_upto_6(), spec_spirit_temple_1(), x);
    lemma_upto_in_known_7(x);
}

/// What the research up to group 7 holds, all of it holds.
proof fn lemma_upto_in_known_7(x: FlagMapping)
    requires
        research_upto_7().contains(x),
    ensures
        spec_known_oot_mappings().contains(x),
{
    lemma_contains_in_sum(research_upto_7(), spec_spirit_temple_2(), x);
    lemma_upto_in_known_8(x);
}

/// What the research up to group 8 holds, all of it holds.
proof fn lemma_upto_in_known_8(x: FlagMapping)
    requires
        research_upto_8().contains(x),
    ensures
        spec_known_oot_mappings().contains(x),
{
    lemma_contains_in_sum(research_upto_8(), spec_shadow_temple_1(), x);
    lemma_upto_in_known_9(x);
}

/// What the research up to group 9 holds, all of it holds.
proof fn lemma_upto_in_known_9(x: FlagMapping)
    requires
        research_upto_9().contains(x),
    ensures
        spec_known_oot_mappings().contains(x),
{
    lemma_contains_in_sum(research_upto_9(), spec_shadow_temple_2(), x);
    lemma_upto_in_known_10(x);
}

/// What the research up to group 10 holds, all of it holds.
proof fn lemma_upto_in_known_10(x: FlagMapping)
    requires
        research_upto_10().contains(x),
    ensures
        spec_known_oot_mappings().contains(x),
{
    lemma_contains_in_sum(research_upto_10(), spec_bottom_of_the_well_1(), x);
    lemma_upto_in_known_11(x);
}

/// What the research up to group 11 holds, all of it holds.
proof fn lemma_upto_in_known_11(x: FlagMapping)
    requires
        research_upto_11().contains(x),
    ensures
        spec_known_oot_mappings().contains(x),
{
    lemma_contains_in_sum(research_upto_11(), spec_bottom_of_the_well_2(), x);
    lemma_upto_in_known_12(x);
}

/// What the research up to group 12 holds, all of it holds.
proof fn lemma_upto_in_known_12(x: FlagMapping)
    requires
        research_upto_12().contains(x),
    ensures
        spec_known_oot_mappings().contains(x),
{
    lemma_contains_in_sum(research_upto_12(), spec_ice_cavern(), x);
    lemma_upto_in_known_13(x);
}

/// What the research up to group 13 holds, all of it holds.
proof fn lemma_upto_in_known_13(x: FlagMapping)
    requires
        research_upto_13().contains(x),
    ensures
        spec_known_oot_mappings().contains(x),
{
    lemma_contains_in_sum(research_upto_13(), spec_gerudo_training_ground(), x);
    lemma_upto_in_known_14(x);
}

/// What the research up to group 14 holds, all of it holds.
proof fn lemma_upto_in_known_14(x: FlagMapping)
    requires
        research_upto_14().contains(x),
    ensures
        spec_known_oot_mappings().contains(x),
{
    lemma_contains_in_sum(research_upto_14(), spec_dodongo_s_cavern_boss(), x);
    lemma_upto_in_known_15(x);
}

/// What the research up to group 15 holds, all of it holds.
proof fn lemma_upto_in_known_15(x: FlagMapping)
    requires
        research_upto_15().contains(x),
    ensures
        spec_known_oot_mappings().contains(x),
{
    lemma_contains_in_sum(research_upto_15(), spec_ganon_s_castle_1(), x);
    lemma_upto_in_known_16(x);
}

/// What the research up to group 16 holds, all of it holds.
proof fn lemma_upto_in_known_16(x: FlagMapping)
    requires
        research_upto_16().contains(x),
    ensures
        spec_known_oot_mappings().contains(x),
{
    lemma_contains_in_sum(research_upto_16(), spec_ganon_s_castle_2(), x);
    lemma_upto_in_known_17(x);
}

/// What the research up to group 17 holds, all of it holds.
proof fn lemma_upto_in_known_17(x: FlagMapping)
    requires
        research_upto_17().contains(x),
    ensures
        spec_known_oot_mappings().contains(x),
{
    lemma_contains_in_sum(research_upto_17(), spec_the_treasure_chest_game_has_5_rooms_with_2_chests_each_plus_the_final_hp_chest(), x);
    lemma_upto_in_known_18(x);
}

/// What the research up to group 18 holds, all of it holds.
proof fn lemma_upto_in_known_18(x: FlagMapping)
    requires
        research_upto_18().contains(x),
    ensures
        spec_known_oot_mappings().contains(x),
{
    lemma_contains_in_sum(research_upto_18(), spec_grottos_shared_scene_for_all_grottos(), x);
    lemma_upto_in_known_19(x);
}

/// What the research up to group 19 holds, all of it holds.
proof fn lemma_upto_in_known_19(x: FlagMapping)
    requires
        research_upto_19().contains(x),
    ensures
        spec_known_oot_mappings().contains(x),
{
    lemma_contains_in_sum(research_upto_19(), spec_graveyard_graves(), x);
    lemma_upto_in_known_20(x);
}

/// What the research up to group 20 holds, all of it holds.
proof fn lemma_upto_in_known_20(x: FlagMapping)
    requires
        research_upto_20().contains(x),
    ensures
        spec_known_oot_mappings().contains(x),
{
    lemma_contains_in_sum(research_upto_20(), spec_kokiri_forest(), x);
    lemma_upto_in_known_21(x);
}

/// What the research up to group 21 holds, all of it holds.
proof fn lemma_upto_in_known_21(x: FlagMapping)
    requires
        research_upto_21().contains(x),
    ensures
        spec_known_oot_mappings().contains(x),
{
    lemma_contains_in_sum(research_upto_21(), spec_zora_s_domain(), x);
    lemma_upto_in_known_22(x);
}

/// What the research up to group 22 holds, all of it holds.
proof fn lemma_upto_in_known_22(x: FlagMapping)
    requires
        research_upto_22().contains(x),
    ensures
        spec_known_oot_mappings().contains(x),
{
    lemma_contains_in_sum(research_upto_22(), spec_gerudo_valley(), x);
    lemma_upto_in_known_23(x);
}

/// What the research up to group 23 holds, all of it holds.
proof fn lemma_upto_in_known_23(x: FlagMapping)
    requires
        research_upto_23().contains(x),
    ensures
        spec_known_oot_mappings().contains(x),
{
    lemma_contains_in_sum(research_upto_23(), spec_desert_colossus_spirit_temple_exterior_chests(), x);
    lemma_upto_in_known_24(x);
}

/// What the research up to group 24 holds, all of it holds.
proof fn lemma_upto_in_known_24(x: FlagMapping)
    requires
        research_upto_24().contains(x),
    ensures
        spec_known_oot_mappings().contains(x),
{
    lemma_contains_in_sum(research_upto_24(), spec_gerudo_fortress(), x);
    lemma_upto_in_known_25(x);
}

/// What the research up to group 25 holds, all of it holds.
proof fn lemma_upto_in_known_25(x: FlagMapping)
    requires
        research_upto_25().contains(x),
    ensures
        spec_known_oot_mappings().contains(x),
{
    lemma_contains_in_sum(research_upto_25(), spec_haunted_wasteland(), x);
    lemma_upto_in_known_26(x);
}

/// What the research up to group 26 holds, all of it holds.
proof fn lemma_upto_in_known_26(x: FlagMapping)
    requires
        research_upto_26().contains(x),
    ensures
        spec_known_oot_mappings().contains(x),
{
    lemma_contains_in_sum(research_upto_26(), spec_death_mountain_trail(), x);
    lemma_upto_in_known_27(x);
}

/// What the research up to group 27 holds, all of it holds.
proof fn lemma_upto_in_known_27(x: FlagMapping)
    requires
        research_upto_27().contains(x),
    ensures
        spec_known_oot_mappings().contains(x),
{
    lemma_contains_in_sum(research_upto_27(), spec_gold_skulltula_flags_are_stored_in_a_24_byte_section_at_save_1(), x);
    lemma_upto_in_known_28(x);
}

/// What the research up to group 28 holds, all of it holds.
proof fn lemma_upto_in_known_28(x: FlagMapping)
    requires
        research_upto_28().contains(x),
    ensures
        spec_known_oot_mappings().contains(x),
{
    lemma_contains_in_sum(research_upto_28(), spec_gold_skulltula_flags_are_stored_in_a_24_byte_section_at_save_2(), x);
    lemma_upto_in_known_29(x);
}

/// What the research up to group 29 holds, all of it holds.
proof fn lemma_upto_in_known_29(x: FlagMapping)
    requires
        research_upto_29().contains(x),
    ensures
        spec_known_oot_mappings().contains(x),
{
    lemma_contains_in_sum(research_upto_29(), spec_gold_skulltula_flags_are_stored_in_a_24_byte_section_at_save_3(), x);
    lemma_upto_in_known_30(x);
}

/// What the research up to group 30 holds, all of it holds.
proof fn lemma_upto_in_known_30(x: FlagMapping)
    requires
        research_upto_30().contains(x),
    ensures
        spec_known_oot_mappings().contains(x),
{
    lemma_contains_in_sum(research_upto_30(), spec_gold_skulltula_flags_are_stored_in_a_24_byte_section_at_save_4(), x);
    lemma_upto_in_known_31(x);
}

/// What the research up to group 31 holds, all of it holds.
proof fn lemma_upto_in_known_31(x: FlagMapping)
    requires
        research_upto_31().contains(x),
    ensures
        spec_known_oot_mappings().contains(x),
{
    lemma_contains_in_sum(research_upto_31(), spec_overworld_skulltulas_use_scene_ids_0x0a_0x15_for_gs_flag_bytes_1(), x);
    lemma_upto_in_known_32(x);
}

/// What the research up to group 32 holds, all of it holds.
proof fn lemma_upto_in_known_32(x: FlagMapping)
    requires
        research_upto_32().contains(x),
    ensures
        spec_known_oot_mappings().contains(x),
{
    lemma_contains_in_sum(research_upto_32(), spec_overworld_skulltulas_use_scene_ids_0x0a_0x15_for_gs_flag_bytes_2(), x);
    lemma_upto_in_known_33(x);
}

/// What the research up to group 33 holds, all of it holds.
proof fn lemma_upto_in_known_33(x: FlagMapping)
    requires
        research_upto_33().contains(x),
    ensures
        spec_known_oot_mappings().contains(x),
{
    lemma_contains_in_sum(research_upto_33(), spec_overworld_skulltulas_use_scene_ids_0x0a_0x15_for_gs_flag_bytes_3(), x);
    lemma_upto_in_known_34(x);
}

/// What the research up to group 34 holds, all of it holds.
proof fn lemma_upto_in_known_34(x: FlagMapping)
    requires
        research_upto_34().contains(x),
    ensures
        spec_known_oot_mappings().contains(x),
{
    lemma_contains_in_sum(research_upto_34(), spec_overworld_skulltulas_use_scene_ids_0x0a_0x15_for_gs_flag_bytes_4(), x);
    lemma_upto_in_known_35(x);
}

/// What the research up to group 35 holds, all of it holds.
proof fn lemma_upto_in_known_35(x: FlagMapping)
    requires
        research_upto_35().contains(x),
    ensures
        spec_known_oot_mappings().contains(x),
{
    lemma_contains_in_sum(research_upto_35(), spec_overworld_skulltulas_use_scene_ids_0x0a_0x15_for_gs_flag_bytes_5(), x);
    lemma_upto_in_known_36(x);
}

/// What the research up to group 36 holds, all of it holds.
proof fn lemma_upto_in_known_36(x: FlagMapping)
    requires
        research_upto_36().contains(x),
    ensures
        spec_known_oot_mappings().contains(x),
{
    lemma_contains_in_sum(research_upto_36(), spec_heart_pieces_and_other_freestanding_collectibles_are_tracked_via_the_1(), x);
    lemma_upto_in_known_37(x);
}

/// What the research up to group 37 holds, all of it holds.
proof fn lemma_upto_in_known_37(x: FlagMapping)
    requires
        research_upto_37().contains(x),
    ensures
        spec_known_oot_mappings().contains(x),
{
    lemma_contains_in_sum(research_upto_37(), spec_heart_pieces_and_other_freestanding_collectibles_are_tracked_via_the_2(), x);
    lemma_upto_in_known_38(x);
}

/// What the research up to group 38 holds, all of it holds.
proof fn lemma_upto_in_known_38(x: FlagMapping)
    requires
        research_upto_38().contains(x),
    ensures
        spec_known_oot_mappings().contains(x),
{
    lemma_contains_in_sum(research_upto_38(), spec_mq_deku_tree(), x);
    lemma_upto_in_known_39(x);
}

/// What the research up to group 39 holds, all of it holds.
proof fn lemma_upto_in_known_39(x: FlagMapping)
    requires
        research_upto_39().contains(x),
    ensures
        spec_known_oot_mappings().contains(x),
{
    lemma_contains_in_sum(research_upto_39(), spec_mq_dodongo_s_cavern(), x);
    lemma_upto_in_known_40(x);
}

/// What the research up to group 40 holds, all of it holds.
proof fn lemma_upto_in_known_40(x: FlagMapping)
    requires
        research_upto_40().contains(x),
    ensures
        spec_known_oot_mappings().contains(x),
{
    lemma_contains_in_sum(research_upto_40(), spec_mq_jabu_jabu_s_belly_1(), x);
    lemma_upto_in_known_41(x);
}

/// What the research up to group 41 holds, all of it holds.
proof fn lemma_upto_in_known_41(x: FlagMapping)
    requires
        research_upto_41().contains(x),
    ensures
        spec_known_oot_mappings().contains(x),
{
    lemma_contains_in_sum(research_upto_41(), spec_mq_jabu_jabu_s_belly_2(), x);
    lemma_upto_in_known_42(x);
}

/// What the research up to group 42 holds, all of it holds.
proof fn lemma_upto_in_known_42(x: FlagMapping)
    requires
        research_upto_42().contains(x),
    ensures
        spec_known_oot_mappings().contains(x),
{
    lemma_contains_in_sum(research_upto_42(), spec_mq_forest_temple_1(), x);
    lemma_upto_in_known_43(x);
}

/// What the research up to group 43 holds, all of it holds.
proof fn lemma_upto_in_known_43(x: FlagMapping)
    requires
        research_upto_43().contains(x),
    ensures
        spec_known_oot_mappings().contains(x),
{
    lemma_contains_in_sum(research_upto_43(), spec_mq_forest_temple_2(), x);
    lemma_upto_in_known_44(x);
}

/// What the research up to group 44 holds, all of it holds.
proof fn lemma_upto_in_known_44(x: FlagMapping)
    requires
        research_upto_44().contains(x),
    ensures
        spec_known_oot_mappings().contains(x),
{
    lemma_contains_in_sum(research_upto_44(), spec_mq_fire_temple_1(), x);
    lemma_upto_in_known_45(x);
}

/// What the research up to group 45 holds, all of it holds.
proof fn lemma_upto_in_known_45(x: FlagMapping)
    requires
        research_upto_45().contains(x),
    ensures
        spec_known_oot_mappings().contains(x),
{
    lemma_contains_in_sum(research_upto_45(), spec_mq_fire_temple_2(), x);
    lemma_upto_in_known_46(x);
}

/// What the research up to group 46 holds, all of it holds.
proof fn lemma_upto_in_known_46(x: FlagMapping)
    requires
        research_upto_46().contains(x),
    ensures
        spec_known_oot_mappings().contains(x),
{
    lemma_contains_in_sum(research_upto_46(), spec_mq_water_temple(), x);
    lemma_upto_in_known_47(x);
}

/// What the research up to group 47 holds, all of it holds.
proof fn lemma_upto_in_known_47(x: FlagMapping)
    requires
        research_upto_47().contains(x),
    ensures
        spec_known_oot_mappings().contains(x),
{
    lemma_contains_in_sum(research_upto_47(), spec_mq_spirit_temple_1(), x);
    lemma_upto_in_known_48(x);
}

/// What the research up to group 48 holds, all of it holds.
proof fn lemma_upto_in_known_48(x: FlagMapping)
    requires
        research_upto_48().contains(x),
    ensures
        spec_known_oot_mappings().contains(x),
{
    lemma_contains_in_sum(research_upto_48(), spec_mq_spirit_temple_2(), x);
    lemma_upto_in_known_49(x);
}

/// What the research up to group 49 holds, all of it holds.
proof fn lemma_upto_in_known_49(x: FlagMapping)
    requires
        research_upto_49().contains(x),
    ensures
        spec_known_oot_mappings().contains(x),
{
    lemma_contains_in_sum(research_upto_49(), spec_mq_spirit_temple_3(), x);
    lemma_upto_in_known_50(x);
}

/// What the research up to group 50 holds, all of it holds.
proof fn lemma_upto_in_known_50(x: FlagMapping)
    requires
        research_upto_50().contains(x),
    ensures
        spec_known_oot_mappings().contains(x),
{
    lemma_contains_in_sum(research_upto_50(), spec_mq_shadow_temple_1(), x);
    lemma_upto_in_known_51(x);
}

/// What the research up to group 51 holds, all of it holds.
proof fn lemma_upto_in_known_51(x: FlagMapping)
    requires
        research_upto_51().contains(x),
    ensures
        spec_known_oot_mappings().contains(x),
{
    lemma_contains_in_sum(research_upto_51(), spec_mq_shadow_temple_2(), x);
    lemma_upto_in_known_52(x);
}

/// What the research up to group 52 holds, all of it holds.
proof fn lemma_upto_in_known_52(x: FlagMapping)
    requires
        research_upto_52().contains(x),
    ensures
        spec_known_oot_mappings().contains(x),
{
    lemma_contains_in_sum(research_upto_52(), spec_mq_bottom_of_the_well(), x);
    lemma_upto_in_known_53(x);
}

/// What the research up to group 53 holds, all of it holds.
proof fn lemma_upto_in_known_53(x: FlagMapping)
    requires
        research_upto_53().contains(x),
    ensures
        spec_known_oot_mappings().contains(x),
{
    lemma_contains_in_sum(research_upto_53(), spec_mq_ice_cavern(), x);
    lemma_upto_in_known_54(x);
}

/// What the research up to group 54 holds, all of it holds.
proof fn lemma_upto_in_known_54(x: FlagMapping)
    requires
        research_upto_54().contains(x),
    ensures
        spec_known_oot_mappings().contains(x),
{
    lemma_contains_in_sum(research_upto_54(), spec_mq_gerudo_training_ground_1(), x);
    lemma_upto_in_known_55(x);
}

/// What the research up to group 55 holds, all of it holds.
proof fn lemma_upto_in_known_55(x: FlagMapping)
    requires
        research_upto_55().contains(x),
    ensures
        spec_known_oot_mappings().contains(x),
{
    lemma_contains_in_sum(research_upto_55(), spec_mq_gerudo_training_ground_2(), x);
    lemma_upto_in_known_56(x);
}

/// What the research up to group 56 holds, all of it holds.
proof fn lemma_upto_in_known_56(x: FlagMapping)
    requires
        research_upto_56().contains(x),
    ensures
        spec_known_oot_mappings().contains(x),
{
    lemma_contains_in_sum(research_upto_56(), spec_mq_ganon_s_castle(), x);
    lemma_upto_in_known_57(x);
}

/// What the research up to group 57 holds, all of it holds.
proof fn lemma_upto_in_known_57(x: FlagMapping)
    requires
        research_upto_57().contains(x),
    ensures
        spec_known_oot_mappings().contains(x),
{
    lemma_research_upto_all();
}

/// The researched mappings of `spec_misc`, one by one.
proof fn lemma_facts_misc()
    ensures
        spec_misc().len() == 6,
        spec_misc()[0] == researched("oot_deku_tree_compass_room_side_chest", 0x00u8, FlagType::Chest, 0x0000_0040u32),
        spec_misc()[1] == researched("oot_deku_tree_slingshot_side_chest", 0x00u8, FlagType::Chest, 0x0000_0020u32),
        spec_misc()[2] == researched("oot_deku_tree_basement_chest", 0x00u8, FlagType::Chest, 0x0000_0010u32),
        spec_misc()[3] == researched("oot_deku_tree_map_chest", 0x00u8, FlagType::Chest, 0x0000_0008u32),
        spec_misc()[4] == researched("oot_deku_tree_compass_chest", 0x00u8, FlagType::Chest, 0x0000_0004u32),
        spec_misc()[5] == researched("oot_deku_tree_slingshot_chest", 0x00u8, FlagType::Chest, 0x0000_0002u32),
{
}

/// Every researched mapping of `spec_misc` is in the research.
proof fn lemma_in_known_misc(x: FlagMapping)
    requires
        spec_misc().contains(x),
    ensures
        spec_known_oot_mappings().contains(x),
{
    lemma_upto_in_known_0(x);
}

/// The researched mappings of `spec_dodongo_s_cavern`, one by one.
proof fn lemma_facts_dodongo_s_cavern()
    ensures
        spec_dodongo_s_cavern().len() == 5,
        spec_dodongo_s_cavern()[0] == researched("oot_dodongo_cavern_bridge_chest", 0x01u8, FlagType::Chest, 0x0000_0400u32),
        spec_dodongo_s_cavern()[1] == researched("oot_dodongo_cavern_map_chest", 0x01u8, FlagType::Chest, 0x0000_0100u32),
        spec_dodongo_s_cavern()[2] == researched("oot_dodongo_cavern_bomb_bag_side_chest", 0x01u8, FlagType::Chest, 0x0000_0040u32),
        spec_dodongo_s_cavern()[3] == researched("oot_dodongo_cavern_compass_chest", 0x01u8, FlagType::Chest, 0x0000_0020u32),
        spec_dodongo_s_cavern()[4] == researched("oot_dodongo_cavern_bomb_bag_chest", 0x01u8, FlagType::Chest, 0x0000_0010u32),
{
}

/// Every researched mapping of `spec_dodongo_s_cavern` is in the research.
proof fn lemma_in_known_dodongo_s_cavern(x: FlagMapping)
    requires
        spec_dodongo_s_cavern().contains(x),
    ensures
        spec_known_oot_mappings().contains(x),
{
    lemma_contains_in_sum(research_upto_0(), spec_dodongo_s_cavern(), x);
    lemma_upto_in_known_1(x);
}

/// The researched mappings of `spec_jabu_jabu_s_belly`, one by one.
proof fn lemma_facts_jabu_jabu_s_belly()
    ensures
        spec_jabu_jabu_s_belly().len() == 3,
        spec_jabu_jabu_s_belly()[0] == researched("oot_jabu_jabu_compass_chest", 0x02u8, FlagType::Chest, 0x0000_0010u32),
        spec_jabu_jabu_s_belly()[1] == researched("oot_jabu_jabu_map_chest", 0x02u8, FlagType::Chest, 0x0000_0004u32),
        spec_jabu_jabu_s_belly()[2] == researched("oot_jabu_jabu_boomerang_chest", 0x02u8, FlagType::Chest, 0x0000_0002u32),
{
}

/// Every researched mapping of `spec_jabu_jabu_s_belly` is in the research.
proof fn lemma_in_known_jabu_jabu_s_belly(x: FlagMapping)
    requires
        spec_jabu_jabu_s_belly().contains(x),
    ensures
        spec_known_oot_mappings().contains(x),
{
    lemma_contains_in_sum(research_upto_1(), spec_jabu_jabu_s_belly(), x);
    lemma_upto_in_known_2(x);
}

/// The researched mappings of `spec_forest_temple_1`, one by one.
proof fn lemma_facts_forest_temple_1()
    ensures
        spec_forest_temple_1().len() == 12,
        spec_forest_temple_1()[0] == researched("oot_forest_temple_compass", 0x03u8, FlagType::Chest, 0x0000_8000u32),
        spec_forest_temple_1()[1] == researched("oot_forest_temple_boss_key", 0x03u8, FlagType::Chest, 0x0000_4000u32),
        spec_forest_temple_1()[2] == researched("oot_forest_temple_poe_key", 0x03u8, FlagType::Chest, 0x0000_2000u32),
        spec_forest_temple_1()[3] == researched("oot_forest_temple_bow", 0x03u8, FlagType::Chest, 0x0000_1000u32),
        spec_forest_temple_1()[4] == researched("oot_forest_temple_checkerboard", 0x03u8, FlagType::Chest, 0x0000_0800u32),
        spec_forest_temple_1()[5] == researched("oot_forest_temple_well", 0x03u8, FlagType::Chest, 0x0000_0200u32),
        spec_forest_temple_1()[6] == researched("oot_forest_temple_antichamber", 0x03u8, FlagType::Chest, 0x0000_0080u32),
        spec_forest_temple_1()[7] == researched("oot_forest_temple_garden", 0x03u8, FlagType::Chest, 0x0000_0020u32),
        spec_forest_temple_1()[8] == researched("oot_forest_temple_maze", 0x03u8, FlagType::Chest, 0x0000_0010u32),
        spec_forest_temple_1()[9] == researched("oot_forest_temple_tree_small_key", 0x03u8, FlagType::Chest, 0x0000_0008u32),
        spec_forest_temple_1()[10] == researched("oot_forest_temple_floormaster", 0x03u8, FlagType::Chest, 0x0000_0004u32),
        spec_forest_temple_1()[11] == researched("oot_forest_temple_map", 0x03u8, FlagType::Chest, 0x0000_0002u32),
{
}

/// Every researched mapping of `spec_forest_temple_1` is in the research.
proof fn lemma_in_known_forest_temple_1(x: FlagMapping)
    requires
        spec_forest_temple_1().contains(x),
    ensures
        spec_known_oot_mappings().contains(x),
{
    lemma_contains_in_sum(research_upto_2(), spec_forest_temple_1(), x);
    lemma_upto_in_known_3(x);
}

/// The researched mappings of `spec_forest_temple_2`, one by one.
proof fn lemma_facts_forest_temple_2()
    ensures
        spec_forest_temple_2().len() == 1,
        spec_forest_temple_2()[0] == researched("oot_forest_temple_mini_boss_key", 0x03u8, FlagType::Chest, 0x0000_0001u32),
{
}

/// Every researched mapping of `spec_forest_temple_2` is in the research.
proof fn lemma_in_known_forest_temple_2(x: FlagMapping)
    requires
        spec_forest_temple_2().contains(x),
    ensures
        spec_known_oot_mappings().contains(x),
{
    lemma_contains_in_sum(research_upto_3(), spec_forest_temple_2(), x);
    lemma_upto_in_known_4(x);
}

/// The researched mappings of `spec_fire_temple`, one by one.
proof fn lemma_facts_fire_temple()
    ensures
        spec_fire_temple().len() == 10,
        spec_fire_temple()[0] == researched("oot_fire_temple_scarecrow_chest", 0x04u8, FlagType::Chest, 0x0000_2000u32),
        spec_fire_temple()[1] == researched("oot_fire_temple_boss_key_chest", 0x04u8, FlagType::Chest, 0x0000_1000u32),
        spec_fire_temple()[2] == researched("oot_fire_temple_above_maze_chest", 0x04u8, FlagType::Chest, 0x0000_0800u32),
        spec_fire_temple()[3] == researched("oot_fire_temple_lava_room_south_jail_chest", 0x04u8, FlagType::Chest, 0x0000_0400u32),
        spec_fire_temple()[4] == researched("oot_fire_temple_jail_1_chest", 0x04u8, FlagType::Chest, 0x0000_0200u32),
        spec_fire_temple()[5] == researched("oot_fire_temple_maze_jail_chest", 0x04u8, FlagType::Chest, 0x0000_0100u32),
        spec_fire_temple()[6] == researched("oot_fire_temple_lava_room_north_jail_chest", 0x04u8, FlagType::Chest, 0x0000_0080u32),
        spec_fire_temple()[7] == researched("oot_fire_temple_below_maze_chest", 0x04u8, FlagType::Chest, 0x0000_0040u32),
        spec_fire_temple()[8] == researched("oot_fire_temple_maze_chest", 0x04u8, FlagType::Chest, 0x0000_0020u32),
        spec_fire_temple()[9] == researched("oot_fire_temple_boss_key_side_chest", 0x04u8, FlagType::Chest, 0x0000_0010u32),
{
}

/// Every researched mapping of `spec_fire_temple` is in the research.
proof fn lemma_in_known_fire_temple(x: FlagMapping)
    requires
        spec_fire_temple().contains(x),
    ensures
        spec_known_oot_mappings().contains(x),
{
    lemma_contains_in_sum(research_upto_4(), spec_fire_temple(), x);
    lemma_upto_in_known_5(x);
}

/// The researched mappings of `spec_water_temple`, one by one.
proof fn lemma_facts_water_temple()
    ensures
        spec_water_temple().len() == 6,
        spec_water_temple()[0] == researched("oot_water_temple_dragon_chest", 0x05u8, FlagType::Chest, 0x0000_0400u32),
        spec_water_temple()[1] == researched("oot_water_temple_shell_chest", 0x05u8, FlagType::Chest, 0x0000_0200u32),
        spec_water_temple()[2] == researched("oot_water_temple_corridor_chest", 0x05u8, FlagType::Chest, 0x0000_0100u32),
        spec_water_temple()[3] == researched("oot_water_temple_bombable_chest", 0x05u8, FlagType::Chest, 0x0000_0080u32),
        spec_water_temple()[4] == researched("oot_water_temple_boss_key_chest", 0x05u8, FlagType::Chest, 0x0000_0040u32),
        spec_water_temple()[5] == researched("oot_water_temple_river_chest", 0x05u8, FlagType::Chest, 0x0000_0008u32),
{
}

/// Every researched mapping of `spec_water_temple` is in the research.
proof fn lemma_in_known_water_temple(x: FlagMapping)
    requires
        spec_water_temple().contains(x),
    ensures
        spec_known_oot_mappings().contains(x),
{
    lemma_contains_in_sum(research_upto_5(), spec_water_temple(), x);
    lemma_upto_in_known_6(x);
}

/// The researched mappings of `spec_spirit_temple_1`, one by one.
proof fn lemma_facts_spirit_temple_1()
    ensures
        spec_spirit_temple_1().len() == 12,
        spec_spirit_temple_1()[0] == researched("oot_spirit_temple_adult_invisible_1", 0x06u8, FlagType::Chest, 0x0020_0000u32),
        spec_spirit_temple_1()[1] == researched("oot_spirit_temple_adult_invisible_2", 0x06u8, FlagType::Chest, 0x0010_0000u32),
        spec_spirit_temple_1()[2] == researched("oot_spirit_temple_adult_topmost_sun_on_wall", 0x06u8, FlagType::Chest, 0x0004_0000u32),
        spec_spirit_temple_1()[3] == researched("oot_spirit_temple_statue_upper_right", 0x06u8, FlagType::Chest, 0x0000_8000u32),
        spec_spirit_temple_1()[4] == researched("oot_spirit_temple_adult_suns_on_wall_1", 0x06u8, FlagType::Chest, 0x0000_4000u32),
        spec_spirit_temple_1()[5] == researched("oot_spirit_temple_adult_suns_on_wall_2", 0x06u8, FlagType::Chest, 0x0000_2000u32),
        spec_spirit_temple_1()[6] == researched("oot_spirit_temple_child_climb_2", 0x06u8, FlagType::Chest, 0x0000_1000u32),
        spec_spirit_temple_1()[7] == researched("oot_spirit_temple_adult_boss_key_chest", 0x06u8, FlagType::Chest, 0x0000_0400u32),
        spec_spirit_temple_1()[8] == researched("oot_spirit_temple_child_second_chest", 0x06u8, FlagType::Chest, 0x0000_0100u32),
        spec_spirit_temple_1()[9] == researched("oot_spirit_temple_adult_lullaby", 0x06u8, FlagType::Chest, 0x0000_0080u32),
        spec_spirit_temple_1()[10] == researched("oot_spirit_temple_child_climb_1", 0x06u8, FlagType::Chest, 0x0000_0040u32),
        spec_spirit_temple_1()[11] == researched("oot_spirit_temple_statue_hands", 0x06u8, FlagType::Chest, 0x0000_0020u32),
{
}

/// Every researched mapping of `spec_spirit_temple_1` is in the research.
proof fn lemma_in_known_spirit_temple_1(x: FlagMapping)
    requires
        spec_spirit_temple_1().contains(x),
    ensures
        spec_known_oot_mappings().contains(x),
{
    lemma_contains_in_sum(research_upto_6(), spec_spirit_temple_1(), x);
    lemma_upto_in_known_7(x);
}

/// The researched mappings of `spec_spirit_temple_2`, one by one.
proof fn lemma_facts_spirit_temple_2()
    ensures
        spec_spirit_temple_2().len() == 4,
        spec_spirit_temple_2()[0] == researched("oot_spirit_temple_adult_silver_rupees", 0x06u8, FlagType::Chest, 0x0000_0010u32),
        spec_spirit_temple_2()[1] == researched("oot_spirit_temple_statue_base", 0x06u8, FlagType::Chest, 0x0000_0008u32),
        spec_spirit_temple_2()[2] == researched("oot_spirit_temple_sun_block_room_torches", 0x06u8, FlagType::Chest, 0x0000_0004u32),
        spec_spirit_temple_2()[3] == researched("oot_spirit_temple_child_first_chest", 0x06u8, FlagType::Chest, 0x0000_0002u32),
{
}

/// Every researched mapping of `spec_spirit_temple_2` is in the research.
proof fn lemma_in_known_spirit_temple_2(x: FlagMapping)
    requires
        spec_spirit_temple_2().contains(x),
    ensures
        spec_known_oot_mappings().contains(x),
{
    lemma_contains_in_sum(research_upto_7(), spec_spirit_temple_2(), x);
    lemma_upto_in_known_8(x);
}

/// The researched mappings of `spec_shadow_temple_1`, one by one.
proof fn lemma_facts_shadow_temple_1()
    ensures
        spec_shadow_temple_1().len() == 12,
        spec_shadow_temple_1()[0] == researched("oot_shadow_temple_spinning_blades_invisible", 0x07u8, FlagType::Chest, 0x0040_0000u32),
        spec_shadow_temple_1()[1] == researched("oot_shadow_temple_wind_room_hint", 0x07u8, FlagType::Chest, 0x0020_0000u32),
        spec_shadow_temple_1()[2] == researched("oot_shadow_temple_after_wind_invisible", 0x07u8, FlagType::Chest, 0x0010_0000u32),
        spec_shadow_temple_1()[3] == researched("oot_shadow_temple_invisible_floormaster", 0x07u8, FlagType::Chest, 0x0000_2000u32),
        spec_shadow_temple_1()[4] == researched("oot_shadow_temple_spinning_blades_visible", 0x07u8, FlagType::Chest, 0x0000_1000u32),
        spec_shadow_temple_1()[5] == researched("oot_shadow_temple_boss_key_room_2", 0x07u8, FlagType::Chest, 0x0000_0800u32),
        spec_shadow_temple_1()[6] == researched("oot_shadow_temple_boss_key_room_1", 0x07u8, FlagType::Chest, 0x0000_0400u32),
        spec_shadow_temple_1()[7] == researched("oot_shadow_temple_invisible_spike_room", 0x07u8, FlagType::Chest, 0x0000_0200u32),
        spec_shadow_temple_1()[8] == researched("oot_shadow_temple_after_wind", 0x07u8, FlagType::Chest, 0x0000_0100u32),
        spec_shadow_temple_1()[9] == researched("oot_shadow_temple_hover_boots", 0x07u8, FlagType::Chest, 0x0000_0080u32),
        spec_shadow_temple_1()[10] == researched("oot_shadow_temple_falling_spikes_upper_1", 0x07u8, FlagType::Chest, 0x0000_0040u32),
        spec_shadow_temple_1()[11] == researched("oot_shadow_temple_falling_spikes_lower", 0x07u8, FlagType::Chest, 0x0000_0020u32),
{
}

/// Every researched mapping of `spec_shadow_temple_1` is in the research.
proof fn lemma_in_known_shadow_temple_1(x: FlagMapping)
    requires
        spec_shadow_temple_1().contains(x),
    ensures
        spec_known_oot_mappings().contains(x),
{
    lemma_contains_in_sum(research_upto_8(), spec_shadow_temple_1(), x);
    lemma_upto_in_known_9(x);
}

/// The researched mappings of `spec_shadow_temple_2`, one by one.
proof fn lemma_facts_shadow_temple_2()
    ensures
        spec_shadow_temple_2().len() == 4,
        spec_shadow_temple_2()[0] == researched("oot_shadow_temple_falling_spikes_upper_2", 0x07u8, FlagType::Chest, 0x0000_0010u32),
        spec_shadow_temple_2()[1] == researched("oot_shadow_temple_compass", 0x07u8, FlagType::Chest, 0x0000_0008u32),
        spec_shadow_temple_2()[2] == researched("oot_shadow_temple_silver_rupees", 0x07u8, FlagType::Chest, 0x0000_0004u32),
        spec_shadow_temple_2()[3] == researched("oot_shadow_temple_map", 0x07u8, FlagType::Chest, 0x0000_0002u32),
{
}

/// Every researched mapping of `spec_shadow_temple_2` is in the research.
proof fn lemma_in_known_shadow_temple_2(x: FlagMapping)
    requires
        spec_shadow_temple_2().contains(x),
    ensures
        spec_known_oot_mappings().contains(x),
{
    lemma_contains_in_sum(research_upto_9(), spec_shadow_temple_2(), x);
    lemma_upto_in_known_10(x);
}

/// The researched mappings of `spec_bottom_of_the_well_1`, one by one.
proof fn lemma_facts_bottom_of_the_well_1()
    ensures
        spec_bottom_of_the_well_1().len() == 12,
        spec_bottom_of_the_well_1()[0] == researched("oot_bottom_of_the_well_blood_chest", 0x08u8, FlagType::Chest, 0x0010_0000u32),
        spec_bottom_of_the_well_1()[1] == researched("oot_bottom_of_the_well_underwater_2", 0x08u8, FlagType::Chest, 0x0001_0000u32),
        spec_bottom_of_the_well_1()[2] == researched("oot_bottom_of_the_well_east_cage", 0x08u8, FlagType::Chest, 0x0000_4000u32),
        spec_bottom_of_the_well_1()[3] == researched("oot_bottom_of_the_well_pits", 0x08u8, FlagType::Chest, 0x0000_1000u32),
        spec_bottom_of_the_well_1()[4] == researched("oot_bottom_of_the_well_east", 0x08u8, FlagType::Chest, 0x0000_0400u32),
        spec_bottom_of_the_well_1()[5] == researched("oot_bottom_of_the_well_underwater", 0x08u8, FlagType::Chest, 0x0000_0200u32),
        spec_bottom_of_the_well_1()[6] == researched("oot_bottom_of_the_well_front_west", 0x08u8, FlagType::Chest, 0x0000_0100u32),
        spec_bottom_of_the_well_1()[7] == researched("oot_bottom_of_the_well_map", 0x08u8, FlagType::Chest, 0x0000_0080u32),
        spec_bottom_of_the_well_1()[8] == researched("oot_bottom_of_the_well_back_west", 0x08u8, FlagType::Chest, 0x0000_0020u32),
        spec_bottom_of_the_well_1()[9] == researched("oot_bottom_of_the_well_under_debris", 0x08u8, FlagType::Chest, 0x0000_0010u32),
        spec_bottom_of_the_well_1()[10] == researched("oot_bottom_of_the_well_lens", 0x08u8, FlagType::Chest, 0x0000_0008u32),
        spec_bottom_of_the_well_1()[11] == researched("oot_bottom_of_the_well_lens_side_chest", 0x08u8, FlagType::Chest, 0x0000_0004u32),
{
}

/// Every researched mapping of `spec_bottom_of_the_well_1` is in the research.
proof fn lemma_in_known_bottom_of_the_well_1(x: FlagMapping)
    requires
        spec_bottom_of_the_well_1().contains(x),
    ensures
        spec_known_oot_mappings().contains(x),
{
    lemma_contains_in_sum(research_upto_10(), spec_bottom_of_the_well_1(), x);
    lemma_upto_in_known_11(x);
}

/// The researched mappings of `spec_bottom_of_the_well_2`, one by one.
proof fn lemma_facts_bottom_of_the_well_2()
    ensures
        spec_bottom_of_the_well_2().len() == 1,
        spec_bottom_of_the_well_2()[0] == researched("oot_bottom_of_the_well_compass", 0x08u8, FlagType::Chest, 0x0000_0002u32),
{
}

/// Every researched mapping of `spec_bottom_of_the_well_2` is in the research.
proof fn lemma_in_known_bottom_of_the_well_2(x: FlagMapping)
    requires
        spec_bottom_of_the_well_2().contains(x),
    ensures
        spec_known_oot_mappings().contains(x),
{
    lemma_contains_in_sum(research_upto_11(), spec_bottom_of_the_well_2(), x);
    lemma_upto_in_known_12(x);
}

/// The researched mappings of `spec_ice_cavern`, one by one.
proof fn lemma_facts_ice_cavern()
    ensures
        spec_ice_cavern().len() == 3,
        spec_ice_cavern()[0] == researched("oot_ice_cavern_rupee_ice", 0x09u8, FlagType::Chest, 0x0000_0004u32),
        spec_ice_cavern()[1] == researched("oot_ice_cavern_compass", 0x09u8, FlagType::Chest, 0x0000_0002u32),
        spec_ice_cavern()[2] == researched("oot_ice_cavern_map", 0x09u8, FlagType::Chest, 0x0000_0001u32),
{
}

/// Every researched mapping of `spec_ice_cavern` is in the research.
proof fn lemma_in_known_ice_cavern(x: FlagMapping)
    requires
        spec_ice_cavern().contains(x),
    ensures
        spec_known_oot_mappings().contains(x),
{
    lemma_contains_in_sum(research_upto_12(), spec_ice_cavern(), x);
    lemma_upto_in_known_13(x);
}

/// The researched mappings of `spec_gerudo_training_ground`, one by one.
proof fn lemma_facts_gerudo_training_ground()
    ensures
        spec_gerudo_training_ground().len() == 6,
        spec_gerudo_training_ground()[0] == researched("oot_gerudo_training_maze_chest_4", 0x0Bu8, FlagType::Chest, 0x0010_0000u32),
        spec_gerudo_training_ground()[1] == researched("oot_gerudo_training_maze_side_chest_1", 0x0Bu8, FlagType::Chest, 0x0008_0000u32),
        spec_gerudo_training_ground()[2] == researched("oot_gerudo_training_maze_chest_3", 0x0Bu8, FlagType::Chest, 0x0004_0000u32),
        spec_gerudo_training_ground()[3] == researched("oot_gerudo_training_maze_chest_2", 0x0Bu8, FlagType::Chest, 0x0002_0000u32),
        spec_gerudo_training_ground()[4] == researched("oot_gerudo_training_maze_side_chest_2", 0x0Bu8, FlagType::Chest, 0x0001_0000u32),
        spec_gerudo_training_ground()[5] == researched("oot_gerudo_training_maze_chest_1", 0x0Bu8, FlagType::Chest, 0x0000_1000u32),
{
}

/// Every researched mapping of `spec_gerudo_training_ground` is in the research.
proof fn lemma_in_known_gerudo_training_ground(x: FlagMapping)
    requires
        spec_gerudo_training_ground().contains(x),
    ensures
        spec_known_oot_mappings().contains(x),
{
    lemma_contains_in_sum(research_upto_13(), spec_gerudo_training_ground(), x);
    lemma_upto_in_known_14(x);
}

/// The researched mappings of `spec_dodongo_s_cavern_boss`, one by one.
proof fn lemma_facts_dodongo_s_cavern_boss()
    ensures
        spec_dodongo_s_cavern_boss().len() == 1,
        spec_dodongo_s_cavern_boss()[0] == researched("oot_dodongo_cavern_boss_chest", 0x12u8, FlagType::Chest, 0x0000_0001u32),
{
}

/// Every researched mapping of `spec_dodongo_s_cavern_boss` is in the research.
proof fn lemma_in_known_dodongo_s_cavern_boss(x: FlagMapping)
    requires
        spec_dodongo_s_cavern_boss().contains(x),
    ensures
        spec_known_oot_mappings().contains(x),
{
    lemma_contains_in_sum(research_upto_14(), spec_dodongo_s_cavern_boss(), x);
    lemma_upto_in_known_15(x);
}

/// The researched mappings of `spec_ganon_s_castle_1`, one by one.
proof fn lemma_facts_ganon_s_castle_1()
    ensures
        spec_ganon_s_castle_1().len() == 12,
        spec_ganon_s_castle_1()[0] == researched("oot_ganon_castle_spirit_chest_2", 0x0Du8, FlagType::Chest, 0x0010_0000u32),
        spec_ganon_s_castle_1()[1] == researched("oot_ganon_castle_spirit_chest_1", 0x0Du8, FlagType::Chest, 0x0004_0000u32),
        spec_ganon_s_castle_1()[2] == researched("oot_ganon_castle_light_chest_lullaby", 0x0Du8, FlagType::Chest, 0x0002_0000u32),
        spec_ganon_s_castle_1()[3] == researched("oot_ganon_castle_light_chest_center", 0x0Du8, FlagType::Chest, 0x0001_0000u32),
        spec_ganon_s_castle_1()[4] == researched("oot_ganon_castle_light_chest_around_3", 0x0Du8, FlagType::Chest, 0x0000_8000u32),
        spec_ganon_s_castle_1()[5] == researched("oot_ganon_castle_light_chest_around_1", 0x0Du8, FlagType::Chest, 0x0000_4000u32),
        spec_ganon_s_castle_1()[6] == researched("oot_ganon_castle_light_chest_around_6", 0x0Du8, FlagType::Chest, 0x0000_2000u32),
        spec_ganon_s_castle_1()[7] == researched("oot_ganon_castle_light_chest_around_4", 0x0Du8, FlagType::Chest, 0x0000_1000u32),
        spec_ganon_s_castle_1()[8] == researched("oot_ganon_castle_light_chest_around_5", 0x0Du8, FlagType::Chest, 0x0000_0800u32),
        spec_ganon_s_castle_1()[9] == researched("oot_ganon_castle_light_chest_around_2", 0x0Du8, FlagType::Chest, 0x0000_0400u32),
        spec_ganon_s_castle_1()[10] == researched("oot_ganon_castle_forest_chest", 0x0Du8, FlagType::Chest, 0x0000_0200u32),
        spec_ganon_s_castle_1()[11] == researched("oot_ganon_castle_shadow_chest_1", 0x0Du8, FlagType::Chest, 0x0000_0100u32),
{
}

/// Every researched mapping of `spec_ganon_s_castle_1` is in the research.
proof fn lemma_in_known_ganon_s_castle_1(x: FlagMapping)
    requires
        spec_ganon_s_castle_1().contains(x),
    ensures
        spec_known_oot_mappings().contains(x),
{
    lemma_contains_in_sum(research_upto_15(), spec_ganon_s_castle_1(), x);
    lemma_upto_in_known_16(x);
}

/// The researched mappings of `spec_ganon_s_castle_2`, one by one.
proof fn lemma_facts_ganon_s_castle_2()
    ensures
        spec_ganon_s_castle_2().len() == 3,
        spec_ganon_s_castle_2()[0] == researched("oot_ganon_castle_water_chest_1", 0x0Du8, FlagType::Chest, 0x0000_0080u32),
        spec_ganon_s_castle_2()[1] == researched("oot_ganon_castle_water_chest_2", 0x0Du8, FlagType::Chest, 0x0000_0040u32),
        spec_ganon_s_castle_2()[2] == researched("oot_ganon_castle_shadow_chest_2", 0x0Du8, FlagType::Chest, 0x0000_0020u32),
{
}

/// Every researched mapping of `spec_ganon_s_castle_2` is in the research.
proof fn lemma_in_known_ganon_s_castle_2(x: FlagMapping)
    requires
        spec_ganon_s_castle_2().contains(x),
    ensures
        spec_known_oot_mappings().contains(x),
{
    lemma_contains_in_sum(research_upto_16(), spec_ganon_s_castle_2(), x);
    lemma_upto_in_known_17(x);
}

/// The researched mappings of `spec_the_treasure_chest_game_has_5_rooms_with_2_chests_each_plus_the_final_hp_chest`, one by one.
proof fn lemma_facts_the_treasure_chest_game_has_5_rooms_with_2_chests_each_plus_the_final_hp_chest()
    ensures
        spec_the_treasure_chest_game_has_5_rooms_with_2_chests_each_plus_the_final_hp_chest().len() == 11,
        spec_the_treasure_chest_game_has_5_rooms_with_2_chests_each_plus_the_final_hp_chest()[0] == researched("oot_treasure_chest_game_room_1_chest_left", 0x10u8, FlagType::Chest, 0x0000_0001u32),
        spec_the_treasure_chest_game_has_5_rooms_with_2_chests_each_plus_the_final_hp_chest()[1] == researched("oot_treasure_chest_game_room_1_chest_right", 0x10u8, FlagType::Chest, 0x0000_0002u32),
        spec_the_treasure_chest_game_has_5_rooms_with_2_chests_each_plus_the_final_hp_chest()[2] == researched("oot_treasure_chest_game_room_2_chest_left", 0x10u8, FlagType::Chest, 0x0000_0004u32),
        spec_the_treasure_chest_game_has_5_rooms_with_2_chests_each_plus_the_final_hp_chest()[3] == researched("oot_treasure_chest_game_room_2_chest_right", 0x10u8, FlagType::Chest, 0x0000_0008u32),
        spec_the_treasure_chest_game_has_5_rooms_with_2_chests_each_plus_the_final_hp_chest()[4] == researched("oot_treasure_chest_game_room_3_chest_left", 0x10u8, FlagType::Chest, 0x0000_0010u32),
        spec_the_treasure_chest_game_has_5_rooms_with_2_chests_each_plus_the_final_hp_chest()[5] == researched("oot_treasure_chest_game_room_3_chest_right", 0x10u8, FlagType::Chest, 0x0000_0020u32),
        spec_the_treasure_chest_game_has_5_rooms_with_2_chests_each_plus_the_final_hp_chest()[6] == researched("oot_treasure_chest_game_room_4_chest_left", 0x10u8, FlagType::Chest, 0x0000_0040u32),
        spec_the_treasure_chest_game_has_5_rooms_with_2_chests_each_plus_the_final_hp_chest()[7] == researched("oot_treasure_chest_game_room_4_chest_right", 0x10u8, FlagType::Chest, 0x0000_0080u32),
        spec_the_treasure_chest_game_has_5_rooms_with_2_chests_each_plus_the_final_hp_chest()[8] == researched("oot_treasure_chest_game_room_5_chest_left", 0x10u8, FlagType::Chest, 0x0000_0100u32),
        spec_the_treasure_chest_game_has_5_rooms_with_2_chests_each_plus_the_final_hp_chest()[9] == researched("oot_treasure_chest_game_room_5_chest_right", 0x10u8, FlagType::Chest, 0x0000_0200u32),
        spec_the_treasure_chest_game_has_5_rooms_with_2_chests_each_plus_the_final_hp_chest()[10] == researched("oot_treasure_chest_game_hp", 0x10u8, FlagType::Chest, 0x0000_0400u32),
{
}

/// Every researched mapping of `spec_the_treasure_chest_game_has_5_rooms_with_2_chests_each_plus_the_final_hp_chest` is in the research.
proof fn lemma_in_known_the_treasure_chest_game_has_5_rooms_with_2_chests_each_plus_the_final_hp_chest(x: FlagMapping)
    requires
        spec_the_treasure_chest_game_has_5_rooms_with_2_chests_each_plus_the_final_hp_chest().contains(x),
    ensures
        spec_known_oot_mappings().contains(x),
{
    lemma_contains_in_sum(research_upto_17(), spec_the_treasure_chest_game_has_5_rooms_with_2_chests_each_plus_the_final_hp_chest(), x);
    lemma_upto_in_known_18(x);
}

/// The researched mappings of `spec_grottos_shared_scene_for_all_grottos`, one by one.
proof fn lemma_facts_grottos_shared_scene_for_all_grottos()
    ensures
        spec_grottos_shared_scene_for_all_grottos().len() == 11,
        spec_grottos_shared_scene_for_all_grottos()[0] == researched("oot_dmc_upper_grotto_chest", 0x3Eu8, FlagType::Chest, 0x0400_0000u32),
        spec_grottos_shared_scene_for_all_grottos()[1] == researched("oot_dmt_storms_grotto_chest", 0x3Eu8, FlagType::Chest, 0x0040_0000u32),
        spec_grottos_shared_scene_for_all_grottos()[2] == researched("oot_lw_near_shortcuts_grotto_chest", 0x3Eu8, FlagType::Chest, 0x0010_0000u32),
        spec_grottos_shared_scene_for_all_grottos()[3] == researched("oot_sfm_wolfos_grotto_chest", 0x3Eu8, FlagType::Chest, 0x0002_0000u32),
        spec_grottos_shared_scene_for_all_grottos()[4] == researched("oot_kf_storms_grotto_chest", 0x3Eu8, FlagType::Chest, 0x0000_1000u32),
        spec_grottos_shared_scene_for_all_grottos()[5] == researched("oot_kak_redead_grotto_chest", 0x3Eu8, FlagType::Chest, 0x0000_0400u32),
        spec_grottos_shared_scene_for_all_grottos()[6] == researched("oot_zr_open_grotto_chest", 0x3Eu8, FlagType::Chest, 0x0000_0200u32),
        spec_grottos_shared_scene_for_all_grottos()[7] == researched("oot_kak_open_grotto_chest", 0x3Eu8, FlagType::Chest, 0x0000_0100u32),
        spec_grottos_shared_scene_for_all_grottos()[8] == researched("oot_hf_open_grotto_chest", 0x3Eu8, FlagType::Chest, 0x0000_0008u32),
        spec_grottos_shared_scene_for_all_grottos()[9] == researched("oot_hf_southeast_grotto_chest", 0x3Eu8, FlagType::Chest, 0x0000_0004u32),
        spec_grottos_shared_scene_for_all_grottos()[10] == researched("oot_hf_near_market_grotto_chest", 0x3Eu8, FlagType::Chest, 0x0000_0001u32),
{
}

/// Every researched mapping of `spec_grottos_shared_scene_for_all_grottos` is in the research.
proof fn lemma_in_known_grottos_shared_scene_for_all_grottos(x: FlagMapping)
    requires
        spec_grottos_shared_scene_for_all_grottos().contains(x),
    ensures
        spec_known_oot_mappings().contains(x),
{
    lemma_contains_in_sum(research_upto_18(), spec_grottos_shared_scene_for_all_grottos(), x);
    lemma_upto_in_known_19(x);
}

/// The researched mappings of `spec_graveyard_graves`, one by one.
proof fn lemma_facts_graveyard_graves()
    ensures
        spec_graveyard_graves().len() == 4,
        spec_graveyard_graves()[0] == researched("oot_graveyard_heart_piece_grave_chest", 0x3Fu8, FlagType::Chest, 0x0000_0001u32),
        spec_graveyard_graves()[1] == researched("oot_graveyard_shield_grave_chest", 0x40u8, FlagType::Chest, 0x0000_0001u32),
        spec_graveyard_graves()[2] == researched("oot_graveyard_royal_tomb_chest", 0x41u8, FlagType::Chest, 0x0000_0001u32),
        spec_graveyard_graves()[3] == researched("oot_graveyard_hookshot_chest", 0x48u8, FlagType::Chest, 0x0000_0001u32),
{
}

/// Every researched mapping of `spec_graveyard_graves` is in the research.
proof fn lemma_in_known_graveyard_graves(x: FlagMapping)
    requires
        spec_graveyard_graves().contains(x),
    ensures
        spec_known_oot_mappings().contains(x),
{
    lemma_contains_in_sum(research_upto_19(), spec_graveyard_graves(), x);
    lemma_upto_in_known_20(x);
}

/// The researched mappings of `spec_kokiri_forest`, one by one.
proof fn lemma_facts_kokiri_forest()
    ensures
        spec_kokiri_forest().len() == 1,
        spec_kokiri_forest()[0] == researched("oot_kokiri_forest_kokiri_sword_chest", 0x55u8, FlagType::Chest, 0x0000_0001u32),
{
}

/// Every researched mapping of `spec_kokiri_forest` is in the research.
proof fn lemma_in_known_kokiri_forest(x: FlagMapping)
    requires
        spec_kokiri_forest().contains(x),
    ensures
        spec_known_oot_mappings().contains(x),
{
    lemma_contains_in_sum(research_upto_20(), spec_kokiri_forest(), x);
    lemma_upto_in_known_21(x);
}

/// The researched mappings of `spec_zora_s_domain`, one by one.
proof fn lemma_facts_zora_s_domain()
    ensures
        spec_zora_s_domain().len() == 1,
        spec_zora_s_domain()[0] == researched("oot_zora_domain_waterfall_chest", 0x58u8, FlagType::Chest, 0x0000_0001u32),
{
}

/// Every researched mapping of `spec_zora_s_domain` is in the research.
proof fn lemma_in_known_zora_s_domain(x: FlagMapping)
    requires
        spec_zora_s_domain().contains(x),
    ensures
        spec_known_oot_mappings().contains(x),
{
    lemma_contains_in_sum(research_upto_21(), spec_zora_s_domain(), x);
    lemma_upto_in_known_22(x);
}

/// The researched mappings of `spec_gerudo_valley`, one by one.
proof fn lemma_facts_gerudo_valley()
    ensures
        spec_gerudo_valley().len() == 1,
        spec_gerudo_valley()[0] == researched("oot_gerudo_valley_chest", 0x5Au8, FlagType::Chest, 0x0000_0001u32),
{
}

/// Every researched mapping of `spec_gerudo_valley` is in the research.
proof fn lemma_in_known_gerudo_valley(x: FlagMapping)
    requires
        spec_gerudo_valley().contains(x),
    ensures
        spec_known_oot_mappings().contains(x),
{
    lemma_contains_in_sum(research_upto_22(), spec_gerudo_valley(), x);
    lemma_upto_in_known_23(x);
}

/// The researched mappings of `spec_desert_colossus_spirit_temple_exterior_chests`, one by one.
proof fn lemma_facts_desert_colossus_spirit_temple_exterior_chests()
    ensures
        spec_desert_colossus_spirit_temple_exterior_chests().len() == 2,
        spec_desert_colossus_spirit_temple_exterior_chests()[0] == researched("oot_spirit_temple_silver_gauntlets", 0x5Cu8, FlagType::Chest, 0x0000_0800u32),
        spec_desert_colossus_spirit_temple_exterior_chests()[1] == researched("oot_spirit_temple_mirror_shield", 0x5Cu8, FlagType::Chest, 0x0000_0200u32),
{
}

/// Every researched mapping of `spec_desert_colossus_spirit_temple_exterior_chests` is in the research.
proof fn lemma_in_known_desert_colossus_spirit_temple_exterior_chests(x: FlagMapping)
    requires
        spec_desert_colossus_spirit_temple_exterior_chests().contains(x),
    ensures
        spec_known_oot_mappings().contains(x),
{
    lemma_contains_in_sum(research_upto_23(), spec_desert_colossus_spirit_temple_exterior_chests(), x);
    lemma_upto_in_known_24(x);
}

/// The researched mappings of `spec_gerudo_fortress`, one by one.
proof fn lemma_facts_gerudo_fortress()
    ensures
        spec_gerudo_fortress().len() == 1,
        spec_gerudo_fortress()[0] == researched("oot_gerudo_fortress_chest", 0x5Du8, FlagType::Chest, 0x0000_0001u32),
{
}

/// Every researched mapping of `spec_gerudo_fortress` is in the research.
proof fn lemma_in_known_gerudo_fortress(x: FlagMapping)
    requires
        spec_gerudo_fortress().contains(x),
    ensures
        spec_known_oot_mappings().contains(x),
{
    lemma_contains_in_sum(research_upto_24(), spec_gerudo_fortress(), x);
    lemma_upto_in_known_25(x);
}

/// The researched mappings of `spec_haunted_wasteland`, one by one.
proof fn lemma_facts_haunted_wasteland()
    ensures
        spec_haunted_wasteland().len() == 1,
        spec_haunted_wasteland()[0] == researched("oot_haunted_wasteland_chest", 0x5Eu8, FlagType::Chest, 0x0000_0001u32),
{
}

/// Every researched mapping of `spec_haunted_wasteland` is in the research.
proof fn lemma_in_known_haunted_wasteland(x: FlagMapping)
    requires
        spec_haunted_wasteland().contains(x),
    ensures
        spec_known_oot_mappings().contains(x),
{
    lemma_contains_in_sum(research_upto_25(), spec_haunted_wasteland(), x);
    lemma_upto_in_known_26(x);
}

/// The researched mappings of `spec_death_mountain_trail`, one by one.
proof fn lemma_facts_death_mountain_trail()
    ensures
        spec_death_mountain_trail().len() == 1,
        spec_death_mountain_trail()[0] == researched("oot_death_mountain_trail_chest", 0x60u8, FlagType::Chest, 0x0000_0002u32),
{
}

/// Every researched mapping of `spec_death_mountain_trail` is in the research.
proof fn lemma_in_known_death_mountain_trail(x: FlagMapping)
    requires
        spec_death_mountain_trail().contains(x),
    ensures
        spec_known_oot_mappings().contains(x),
{
    lemma_contains_in_sum(research_upto_26(), spec_death_mountain_trail(), x);
    lemma_upto_in_known_27(x);
}

/// The researched mappings of `spec_gold_skulltula_flags_are_stored_in_a_24_byte_section_at_save_1`, one by one.
proof fn lemma_facts_gold_skulltula_flags_are_stored_in_a_24_byte_section_at_save_1()
    ensures
        spec_gold_skulltula_flags_are_stored_in_a_24_byte_section_at_save_1().len() == 12,
        spec_gold_skulltula_flags_are_stored_in_a_24_byte_section_at_save_1()[0] == researched("oot_deku_tree_gs_compass", 0x00u8, FlagType::GoldSkulltula, 0x01u32),
        spec_gold_skulltula_flags_are_stored_in_a_24_byte_section_at_save_1()[1] == researched("oot_deku_tree_gs_basement_gate", 0x00u8, FlagType::GoldSkulltula, 0x02u32),
        spec_gold_skulltula_flags_are_stored_in_a_24_byte_section_at_save_1()[2] == researched("oot_deku_tree_gs_basement_vines", 0x00u8, FlagType::GoldSkulltula, 0x04u32),
        spec_gold_skulltula_flags_are_stored_in_a_24_byte_section_at_save_1()[3] == researched("oot_deku_tree_gs_basement_back_room", 0x00u8, FlagType::GoldSkulltula, 0x08u32),
        spec_gold_skulltula_flags_are_stored_in_a_24_byte_section_at_save_1()[4] == researched("oot_dodongo_cavern_gs_side_room", 0x01u8, FlagType::GoldSkulltula, 0x01u32),
        spec_gold_skulltula_flags_are_stored_in_a_24_byte_section_at_save_1()[5] == researched("oot_dodongo_cavern_gs_stairs_vines", 0x01u8, FlagType::GoldSkulltula, 0x02u32),
        spec_gold_skulltula_flags_are_stored_in_a_24_byte_section_at_save_1()[6] == researched("oot_dodongo_cavern_gs_stairs_top", 0x01u8, FlagType::GoldSkulltula, 0x04u32),
        spec_gold_skulltula_flags_are_stored_in_a_24_byte_section_at_save_1()[7] == researched("oot_dodongo_cavern_gs_scarecrow", 0x01u8, FlagType::GoldSkulltula, 0x08u32),
        spec_gold_skulltula_flags_are_stored_in_a_24_byte_section_at_save_1()[8] == researched("oot_dodongo_cavern_gs_near_boss", 0x01u8, FlagType::GoldSkulltula, 0x10u32),
        spec_gold_skulltula_flags_are_stored_in_a_24_byte_section_at_save_1()[9] == researched("oot_jabu_jabu_gs_bottom_lower", 0x02u8, FlagType::GoldSkulltula, 0x01u32),
        spec_gold_skulltula_flags_are_stored_in_a_24_byte_section_at_save_1()[10] == researched("oot_jabu_jabu_gs_bottom_upper", 0x02u8, FlagType::GoldSkulltula, 0x02u32),
        spec_gold_skulltula_flags_are_stored_in_a_24_byte_section_at_save_1()[11] == researched("oot_jabu_jabu_gs_water_switch", 0x02u8, FlagType::GoldSkulltula, 0x04u32),
{
}

/// Every researched mapping of `spec_gold_skulltula_flags_are_stored_in_a_24_byte_section_at_save_1` is in the research.
proof fn lemma_in_known_gold_skulltula_flags_are_stored_in_a_24_byte_section_at_save_1(x: FlagMapping)
    requires
        spec_gold_skulltula_flags_are_stored_in_a_24_byte_section_at_save_1().contains(x),
    ensures
        spec_known_oot_mappings().contains(x),
{
    lemma_contains_in_sum(research_upto_27(), spec_gold_skulltula_flags_are_stored_in_a_24_byte_section_at_save_1(), x);
    lemma_upto_in_known_28(x);
}

/// The researched mappings of `spec_gold_skulltula_flags_are_stored_in_a_24_byte_section_at_save_2`, one by one.
proof fn lemma_facts_gold_skulltula_flags_are_stored_in_a_24_byte_section_at_save_2()
    ensures
        spec_gold_skulltula_flags_are_stored_in_a_24_byte_section_at_save_2().len() == 12,
        spec_gold_skulltula_flags_are_stored_in_a_24_byte_section_at_save_2()[0] == researched("oot_jabu_jabu_gs_near_boss", 0x02u8, FlagType::GoldSkulltula, 0x08u32),
        spec_gold_skulltula_flags_are_stored_in_a_24_byte_section_at_save_2()[1] == researched("oot_forest_temple_gs_entrance", 0x03u8, FlagType::GoldSkulltula, 0x01u32),
        spec_gold_skulltula_flags_are_stored_in_a_24_byte_section_at_save_2()[2] == researched("oot_forest_temple_gs_main", 0x03u8, FlagType::GoldSkulltula, 0x02u32),
        spec_gold_skulltula_flags_are_stored_in_a_24_byte_section_at_save_2()[3] == researched("oot_forest_temple_gs_garden_west", 0x03u8, FlagType::GoldSkulltula, 0x04u32),
        spec_gold_skulltula_flags_are_stored_in_a_24_byte_section_at_save_2()[4] == researched("oot_forest_temple_gs_garden_east", 0x03u8, FlagType::GoldSkulltula, 0x08u32),
        spec_gold_skulltula_flags_are_stored_in_a_24_byte_section_at_save_2()[5] == researched("oot_forest_temple_gs_antichamber", 0x03u8, FlagType::GoldSkulltula, 0x10u32),
        spec_gold_skulltula_flags_are_stored_in_a_24_byte_section_at_save_2()[6] == researched("oot_fire_temple_gs_hammer_statues", 0x04u8, FlagType::GoldSkulltula, 0x01u32),
        spec_gold_skulltula_flags_are_stored_in_a_24_byte_section_at_save_2()[7] == researched("oot_fire_temple_gs_lava_side_room", 0x04u8, FlagType::GoldSkulltula, 0x02u32),
        spec_gold_skulltula_flags_are_stored_in_a_24_byte_section_at_save_2()[8] == researched("oot_fire_temple_gs_maze", 0x04u8, FlagType::GoldSkulltula, 0x04u32),
        spec_gold_skulltula_flags_are_stored_in_a_24_byte_section_at_save_2()[9] == researched("oot_fire_temple_gs_scarecrow_wall", 0x04u8, FlagType::GoldSkulltula, 0x08u32),
        spec_gold_skulltula_flags_are_stored_in_a_24_byte_section_at_save_2()[10] == researched("oot_fire_temple_gs_scarecrow_top", 0x04u8, FlagType::GoldSkulltula, 0x10u32),
        spec_gold_skulltula_flags_are_stored_in_a_24_byte_section_at_save_2()[11] == researched("oot_water_temple_gs_center", 0x05u8, FlagType::GoldSkulltula, 0x01u32),
{
}

/// Every researched mapping of `spec_gold_skulltula_flags_are_stored_in_a_24_byte_section_at_save_2` is in the research.
proof fn lemma_in_known_gold_skulltula_flags_are_stored_in_a_24_byte_section_at_save_2(x: FlagMapping)
    requires
        spec_gold_skulltula_flags_are_stored_in_a_24_byte_section_at_save_2().contains(x),
    ensures
        spec_known_oot_mappings().contains(x),
{
    lemma_contains_in_sum(research_upto_28(), spec_gold_skulltula_flags_are_stored_in_a_24_byte_section_at_save_2(), x);
    lemma_upto_in_known_29(x);
}

/// The researched mappings of `spec_gold_skulltula_flags_are_stored_in_a_24_byte_section_at_save_3`, one by one.
proof fn lemma_facts_gold_skulltula_flags_are_stored_in_a_24_byte_section_at_save_3()
    ensures
        spec_gold_skulltula_flags_are_stored_in_a_24_byte_section_at_save_3().len() == 12,
        spec_gold_skulltula_flags_are_stored_in_a_24_byte_section_at_save_3()[0] == researched("oot_water_temple_gs_waterfalls", 0x05u8, FlagType::GoldSkulltula, 0x02u32),
        spec_gold_skulltula_flags_are_stored_in_a_24_byte_section_at_save_3()[1] == researched("oot_water_temple_gs_large_pit", 0x05u8, FlagType::GoldSkulltula, 0x04u32),
        spec_gold_skulltula_flags_are_stored_in_a_24_byte_section_at_save_3()[2] == researched("oot_water_temple_gs_river", 0x05u8, FlagType::GoldSkulltula, 0x08u32),
        spec_gold_skulltula_flags_are_stored_in_a_24_byte_section_at_save_3()[3] == researched("oot_water_temple_gs_cage", 0x05u8, FlagType::GoldSkulltula, 0x10u32),
        spec_gold_skulltula_flags_are_stored_in_a_24_byte_section_at_save_3()[4] == researched("oot_spirit_temple_gs_child_fence", 0x06u8, FlagType::GoldSkulltula, 0x01u32),
        spec_gold_skulltula_flags_are_stored_in_a_24_byte_section_at_save_3()[5] == researched("oot_spirit_temple_gs_child_climb", 0x06u8, FlagType::GoldSkulltula, 0x02u32),
        spec_gold_skulltula_flags_are_stored_in_a_24_byte_section_at_save_3()[6] == researched("oot_spirit_temple_gs_iron_knuckle", 0x06u8, FlagType::GoldSkulltula, 0x04u32),
        spec_gold_skulltula_flags_are_stored_in_a_24_byte_section_at_save_3()[7] == researched("oot_spirit_temple_gs_boulders", 0x06u8, FlagType::GoldSkulltula, 0x08u32),
        spec_gold_skulltula_flags_are_stored_in_a_24_byte_section_at_save_3()[8] == researched("oot_spirit_temple_gs_statue", 0x06u8, FlagType::GoldSkulltula, 0x10u32),
        spec_gold_skulltula_flags_are_stored_in_a_24_byte_section_at_save_3()[9] == researched("oot_shadow_temple_gs_invisible_scythe", 0x07u8, FlagType::GoldSkulltula, 0x01u32),
        spec_gold_skulltula_flags_are_stored_in_a_24_byte_section_at_save_3()[10] == researched("oot_shadow_temple_gs_falling_spikes", 0x07u8, FlagType::GoldSkulltula, 0x02u32),
        spec_gold_skulltula_flags_are_stored_in_a_24_byte_section_at_save_3()[11] == researched("oot_shadow_temple_gs_skull_pot", 0x07u8, FlagType::GoldSkulltula, 0x04u32),
{
}

/// Every researched mapping of `spec_gold_skulltula_flags_are_stored_in_a_24_byte_section_at_save_3` is in the research.
proof fn lemma_in_known_gold_skulltula_flags_are_stored_in_a_24_byte_section_at_save_3(x: FlagMapping)
    requires
        spec_gold_skulltula_flags_are_stored_in_a_24_byte_section_at_save_3().contains(x),
    ensures
        spec_known_oot_mappings().contains(x),
{
    lemma_contains_in_sum(research_upto_29(), spec_gold_skulltula_flags_are_stored_in_a_24_byte_section_at_save_3(), x);
    lemma_upto_in_known_30(x);
}

/// The researched mappings of `spec_gold_skulltula_flags_are_stored_in_a_24_byte_section_at_save_4`, one by one.
proof fn lemma_facts_gold_skulltula_flags_are_stored_in_a_24_byte_section_at_save_4()
    ensures
        spec_gold_skulltula_flags_are_stored_in_a_24_byte_section_at_save_4().len() == 8,
        spec_gold_skulltula_flags_are_stored_in_a_24_byte_section_at_save_4()[0] == researched("oot_shadow_temple_gs_near_boat", 0x07u8, FlagType::GoldSkulltula, 0x08u32),
        spec_gold_skulltula_flags_are_stored_in_a_24_byte_section_at_save_4()[1] == researched("oot_shadow_temple_gs_triple_skull_pot", 0x07u8, FlagType::GoldSkulltula, 0x10u32),
        spec_gold_skulltula_flags_are_stored_in_a_24_byte_section_at_save_4()[2] == researched("oot_bottom_of_the_well_gs_east_cage", 0x08u8, FlagType::GoldSkulltula, 0x01u32),
        spec_gold_skulltula_flags_are_stored_in_a_24_byte_section_at_save_4()[3] == researched("oot_bottom_of_the_well_gs_inner_west", 0x08u8, FlagType::GoldSkulltula, 0x02u32),
        spec_gold_skulltula_flags_are_stored_in_a_24_byte_section_at_save_4()[4] == researched("oot_bottom_of_the_well_gs_inner_east", 0x08u8, FlagType::GoldSkulltula, 0x04u32),
        spec_gold_skulltula_flags_are_stored_in_a_24_byte_section_at_save_4()[5] == researched("oot_ice_cavern_gs_scythe_room", 0x09u8, FlagType::GoldSkulltula, 0x01u32),
        spec_gold_skulltula_flags_are_stored_in_a_24_byte_section_at_save_4()[6] == researched("oot_ice_cavern_gs_hp_room", 0x09u8, FlagType::GoldSkulltula, 0x02u32),
        spec_gold_skulltula_flags_are_stored_in_a_24_byte_section_at_save_4()[7] == researched("oot_ice_cavern_gs_block_room", 0x09u8, FlagType::GoldSkulltula, 0x04u32),
{
}

/// Every researched mapping of `spec_gold_skulltula_flags_are_stored_in_a_24_byte_section_at_save_4` is in the research.
proof fn lemma_in_known_gold_skulltula_flags_are_stored_in_a_24_byte_section_at_save_4(x: FlagMapping)
    requires
        spec_gold_skulltula_flags_are_stored_in_a_24_byte_section_at_save_4().contains(x),
    ensures
        spec_known_oot_mappings().contains(x),
{
    lemma_contains_in_sum(research_upto_30(), spec_gold_skulltula_flags_are_stored_in_a_24_byte_section_at_save_4(), x);
    lemma_upto_in_known_31(x);
}

/// The researched mappings of `spec_overworld_skulltulas_use_scene_ids_0x0a_0x15_for_gs_flag_bytes_1`, one by one.
proof fn lemma_facts_overworld_skulltulas_use_scene_ids_0x0a_0x15_for_gs_flag_bytes_1()
    ensures
        spec_overworld_skulltulas_use_scene_ids_0x0a_0x15_for_gs_flag_bytes_1().len() == 12,
        spec_overworld_skulltulas_use_scene_ids_0x0a_0x15_for_gs_flag_bytes_1()[0] == researched("oot_hyrule_castle_gs_tree", 0x5Fu8, FlagType::GoldSkulltula, 0x01u32),
        spec_overworld_skulltulas_use_scene_ids_0x0a_0x15_for_gs_flag_bytes_1()[1] == researched("oot_hyrule_castle_gs_grotto", 0x5Fu8, FlagType::GoldSkulltula, 0x02u32),
        spec_overworld_skulltulas_use_scene_ids_0x0a_0x15_for_gs_flag_bytes_1()[2] == researched("oot_kakariko_gs_shooting_gallery", 0x52u8, FlagType::GoldSkulltula, 0x01u32),
        spec_overworld_skulltulas_use_scene_ids_0x0a_0x15_for_gs_flag_bytes_1()[3] == researched("oot_kakariko_gs_tree", 0x52u8, FlagType::GoldSkulltula, 0x02u32),
        spec_overworld_skulltulas_use_scene_ids_0x0a_0x15_for_gs_flag_bytes_1()[4] == researched("oot_kakariko_gs_house_of_skulltula", 0x52u8, FlagType::GoldSkulltula, 0x04u32),
        spec_overworld_skulltulas_use_scene_ids_0x0a_0x15_for_gs_flag_bytes_1()[5] == researched("oot_kakariko_gs_bazaar", 0x52u8, FlagType::GoldSkulltula, 0x08u32),
        spec_overworld_skulltulas_use_scene_ids_0x0a_0x15_for_gs_flag_bytes_1()[6] == researched("oot_kakariko_gs_ladder", 0x52u8, FlagType::GoldSkulltula, 0x10u32),
        spec_overworld_skulltulas_use_scene_ids_0x0a_0x15_for_gs_flag_bytes_1()[7] == researched("oot_kakariko_gs_roof", 0x52u8, FlagType::GoldSkulltula, 0x20u32),
        spec_overworld_skulltulas_use_scene_ids_0x0a_0x15_for_gs_flag_bytes_1()[8] == researched("oot_graveyard_gs_soil", 0x53u8, FlagType::GoldSkulltula, 0x01u32),
        spec_overworld_skulltulas_use_scene_ids_0x0a_0x15_for_gs_flag_bytes_1()[9] == researched("oot_graveyard_gs_wall", 0x53u8, FlagType::GoldSkulltula, 0x02u32),
        spec_overworld_skulltulas_use_scene_ids_0x0a_0x15_for_gs_flag_bytes_1()[10] == researched("oot_death_mountain_trail_gs_entrance", 0x60u8, FlagType::GoldSkulltula, 0x01u32),
        spec_overworld_skulltulas_use_scene_ids_0x0a_0x15_for_gs_flag_bytes_1()[11] == researched("oot_death_mountain_trail_gs_soil", 0x60u8, FlagType::GoldSkulltula, 0x02u32),
{
}

/// Every researched mapping of `spec_overworld_skulltulas_use_scene_ids_0x0a_0x15_for_gs_flag_bytes_1` is in the research.
proof fn lemma_in_known_overworld_skulltulas_use_scene_ids_0x0a_0x15_for_gs_flag_bytes_1(x: FlagMapping)
    requires
        spec_overworld_skulltulas_use_scene_ids_0x0a_0x15_for_gs_flag_bytes_1().contains(x),
    ensures
        spec_known_oot_mappings().contains(x),
{
    lemma_contains_in_sum(research_upto_31(), spec_overworld_skulltulas_use_scene_ids_0x0a_0x15_for_gs_flag_bytes_1(), x);
    lemma_upto_in_known_32(x);
}

/// The researched mappings of `spec_overworld_skulltulas_use_scene_ids_0x0a_0x15_for_gs_flag_bytes_2`, one by one.
proof fn lemma_facts_overworld_skulltulas_use_scene_ids_0x0a_0x15_for_gs_flag_bytes_2()
    ensures
        spec_overworld_skulltulas_use_scene_ids_0x0a_0x15_for_gs_flag_bytes_2().len() == 12,
        spec_overworld_skulltulas_use_scene_ids_0x0a_0x15_for_gs_flag_bytes_2()[0] == researched("oot_death_mountain_trail_gs_above_dodongo", 0x60u8, FlagType::GoldSkulltula, 0x04u32),
        spec_overworld_skulltulas_use_scene_ids_0x0a_0x15_for_gs_flag_bytes_2()[1] == researched("oot_death_mountain_trail_gs_before_climb", 0x60u8, FlagType::GoldSkulltula, 0x08u32),
        spec_overworld_skulltulas_use_scene_ids_0x0a_0x15_for_gs_flag_bytes_2()[2] == researched("oot_death_mountain_crater_gs_crate", 0x61u8, FlagType::GoldSkulltula, 0x01u32),
        spec_overworld_skulltulas_use_scene_ids_0x0a_0x15_for_gs_flag_bytes_2()[3] == researched("oot_death_mountain_crater_gs_soil", 0x61u8, FlagType::GoldSkulltula, 0x02u32),
        spec_overworld_skulltulas_use_scene_ids_0x0a_0x15_for_gs_flag_bytes_2()[4] == researched("oot_goron_city_gs_platform", 0x62u8, FlagType::GoldSkulltula, 0x01u32),
        spec_overworld_skulltulas_use_scene_ids_0x0a_0x15_for_gs_flag_bytes_2()[5] == researched("oot_goron_city_gs_maze", 0x62u8, FlagType::GoldSkulltula, 0x02u32),
        spec_overworld_skulltulas_use_scene_ids_0x0a_0x15_for_gs_flag_bytes_2()[6] == researched("oot_kokiri_forest_gs_soil", 0x55u8, FlagType::GoldSkulltula, 0x01u32),
        spec_overworld_skulltulas_use_scene_ids_0x0a_0x15_for_gs_flag_bytes_2()[7] == researched("oot_kokiri_forest_gs_night_adult", 0x55u8, FlagType::GoldSkulltula, 0x02u32),
        spec_overworld_skulltulas_use_scene_ids_0x0a_0x15_for_gs_flag_bytes_2()[8] == researched("oot_kokiri_forest_gs_night_child", 0x55u8, FlagType::GoldSkulltula, 0x04u32),
        spec_overworld_skulltulas_use_scene_ids_0x0a_0x15_for_gs_flag_bytes_2()[9] == researched("oot_lost_woods_gs_soil_bridge", 0x5Bu8, FlagType::GoldSkulltula, 0x01u32),
        spec_overworld_skulltulas_use_scene_ids_0x0a_0x15_for_gs_flag_bytes_2()[10] == researched("oot_lost_woods_gs_soil_theater", 0x5Bu8, FlagType::GoldSkulltula, 0x02u32),
        spec_overworld_skulltulas_use_scene_ids_0x0a_0x15_for_gs_flag_bytes_2()[11] == researched("oot_lost_woods_gs_bean_ride", 0x5Bu8, FlagType::GoldSkulltula, 0x04u32),
{
}

/// Every researched mapping of `spec_overworld_skulltulas_use_scene_ids_0x0a_0x15_for_gs_flag_bytes_2` is in the research.
proof fn lemma_in_known_overworld_skulltulas_use_scene_ids_0x0a_0x15_for_gs_flag_bytes_2(x: FlagMapping)
    requires
        spec_overworld_skulltulas_use_scene_ids_0x0a_0x15_for_gs_flag_bytes_2().contains(x),
    ensures
        spec_known_oot_mappings().contains(x),
{
    lemma_contains_in_sum(research_upto_32(), spec_overworld_skulltulas_use_scene_ids_0x0a_0x15_for_gs_flag_bytes_2(), x);
    lemma_upto_in_known_33(x);
}

/// The researched mappings of `spec_overworld_skulltulas_use_scene_ids_0x0a_0x15_for_gs_flag_bytes_3`, one by one.
proof fn lemma_facts_overworld_skulltulas_use_scene_ids_0x0a_0x15_for_gs_flag_bytes_3()
    ensures
        spec_overworld_skulltulas_use_scene_ids_0x0a_0x15_for_gs_flag_bytes_3().len() == 12,
        spec_overworld_skulltulas_use_scene_ids_0x0a_0x15_for_gs_flag_bytes_3()[0] == researched("oot_sacred_meadow_gs_night_adult", 0x56u8, FlagType::GoldSkulltula, 0x01u32),
        spec_overworld_skulltulas_use_scene_ids_0x0a_0x15_for_gs_flag_bytes_3()[1] == researched("oot_lake_hylia_gs_lab_wall", 0x57u8, FlagType::GoldSkulltula, 0x01u32),
        spec_overworld_skulltulas_use_scene_ids_0x0a_0x15_for_gs_flag_bytes_3()[2] == researched("oot_lake_hylia_gs_island", 0x57u8, FlagType::GoldSkulltula, 0x02u32),
        spec_overworld_skulltulas_use_scene_ids_0x0a_0x15_for_gs_flag_bytes_3()[3] == researched("oot_lake_hylia_gs_soil", 0x57u8, FlagType::GoldSkulltula, 0x04u32),
        spec_overworld_skulltulas_use_scene_ids_0x0a_0x15_for_gs_flag_bytes_3()[4] == researched("oot_lake_hylia_gs_big_tree", 0x57u8, FlagType::GoldSkulltula, 0x08u32),
        spec_overworld_skulltulas_use_scene_ids_0x0a_0x15_for_gs_flag_bytes_3()[5] == researched("oot_laboratory_gs_crate", 0x38u8, FlagType::GoldSkulltula, 0x01u32),
        spec_overworld_skulltulas_use_scene_ids_0x0a_0x15_for_gs_flag_bytes_3()[6] == researched("oot_zora_river_gs_tree", 0x54u8, FlagType::GoldSkulltula, 0x01u32),
        spec_overworld_skulltulas_use_scene_ids_0x0a_0x15_for_gs_flag_bytes_3()[7] == researched("oot_zora_river_gs_ladder", 0x54u8, FlagType::GoldSkulltula, 0x02u32),
        spec_overworld_skulltulas_use_scene_ids_0x0a_0x15_for_gs_flag_bytes_3()[8] == researched("oot_zora_river_gs_near_grotto", 0x54u8, FlagType::GoldSkulltula, 0x04u32),
        spec_overworld_skulltulas_use_scene_ids_0x0a_0x15_for_gs_flag_bytes_3()[9] == researched("oot_zora_river_gs_near_bridge", 0x54u8, FlagType::GoldSkulltula, 0x08u32),
        spec_overworld_skulltulas_use_scene_ids_0x0a_0x15_for_gs_flag_bytes_3()[10] == researched("oot_zora_domain_gs_waterfall", 0x58u8, FlagType::GoldSkulltula, 0x01u32),
        spec_overworld_skulltulas_use_scene_ids_0x0a_0x15_for_gs_flag_bytes_3()[11] == researched("oot_zora_fountain_gs_wall", 0x59u8, FlagType::GoldSkulltula, 0x01u32),
{
}

/// Every researched mapping of `spec_overworld_skulltulas_use_scene_ids_0x0a_0x15_for_gs_flag_bytes_3` is in the research.
proof fn lemma_in_known_overworld_skulltulas_use_scene_ids_0x0a_0x15_for_gs_flag_bytes_3(x: FlagMapping)
    requires
        spec_overworld_skulltulas_use_scene_ids_0x0a_0x15_for_gs_flag_bytes_3().contains(x),
    ensures
        spec_known_oot_mappings().contains(x),
{
    lemma_contains_in_sum(research_upto_33(), spec_overworld_skulltulas_use_scene_ids_0x0a_0x15_for_gs_flag_bytes_3(), x);
    lemma_upto_in_known_34(x);
}

/// The researched mappings of `spec_overworld_skulltulas_use_scene_ids_0x0a_0x15_for_gs_flag_bytes_4`, one by one.
proof fn lemma_facts_overworld_skulltulas_use_scene_ids_0x0a_0x15_for_gs_flag_bytes_4()
    ensures
        spec_overworld_skulltulas_use_scene_ids_0x0a_0x15_for_gs_flag_bytes_4().len() == 12,
        spec_overworld_skulltulas_use_scene_ids_0x0a_0x15_for_gs_flag_bytes_4()[0] == researched("oot_zora_fountain_gs_tree", 0x59u8, FlagType::GoldSkulltula, 0x02u32),
        spec_overworld_skulltulas_use_scene_ids_0x0a_0x15_for_gs_flag_bytes_4()[1] == researched("oot_zora_fountain_gs_upper", 0x59u8, FlagType::GoldSkulltula, 0x04u32),
        spec_overworld_skulltulas_use_scene_ids_0x0a_0x15_for_gs_flag_bytes_4()[2] == researched("oot_gerudo_valley_gs_soil", 0x5Au8, FlagType::GoldSkulltula, 0x01u32),
        spec_overworld_skulltulas_use_scene_ids_0x0a_0x15_for_gs_flag_bytes_4()[3] == researched("oot_gerudo_valley_gs_wall", 0x5Au8, FlagType::GoldSkulltula, 0x02u32),
        spec_overworld_skulltulas_use_scene_ids_0x0a_0x15_for_gs_flag_bytes_4()[4] == researched("oot_gerudo_valley_gs_tent", 0x5Au8, FlagType::GoldSkulltula, 0x04u32),
        spec_overworld_skulltulas_use_scene_ids_0x0a_0x15_for_gs_flag_bytes_4()[5] == researched("oot_gerudo_valley_gs_pillar", 0x5Au8, FlagType::GoldSkulltula, 0x08u32),
        spec_overworld_skulltulas_use_scene_ids_0x0a_0x15_for_gs_flag_bytes_4()[6] == researched("oot_gerudo_fortress_gs_target", 0x5Du8, FlagType::GoldSkulltula, 0x01u32),
        spec_overworld_skulltulas_use_scene_ids_0x0a_0x15_for_gs_flag_bytes_4()[7] == researched("oot_gerudo_fortress_gs_wall", 0x5Du8, FlagType::GoldSkulltula, 0x02u32),
        spec_overworld_skulltulas_use_scene_ids_0x0a_0x15_for_gs_flag_bytes_4()[8] == researched("oot_desert_colossus_gs_soil", 0x5Cu8, FlagType::GoldSkulltula, 0x01u32),
        spec_overworld_skulltulas_use_scene_ids_0x0a_0x15_for_gs_flag_bytes_4()[9] == researched("oot_desert_colossus_gs_tree", 0x5Cu8, FlagType::GoldSkulltula, 0x02u32),
        spec_overworld_skulltulas_use_scene_ids_0x0a_0x15_for_gs_flag_bytes_4()[10] == researched("oot_desert_colossus_gs_plateau", 0x5Cu8, FlagType::GoldSkulltula, 0x04u32),
        spec_overworld_skulltulas_use_scene_ids_0x0a_0x15_for_gs_flag_bytes_4()[11] == researched("oot_lon_lon_ranch_gs_tree", 0x63u8, FlagType::GoldSkulltula, 0x01u32),
{
}

/// Every researched mapping of `spec_overworld_skulltulas_use_scene_ids_0x0a_0x15_for_gs_flag_bytes_4` is in the research.
proof fn lemma_in_known_overworld_skulltulas_use_scene_ids_0x0a_0x15_for_gs_flag_bytes_4(x: FlagMapping)
    requires
        spec_overworld_skulltulas_use_scene_ids_0x0a_0x15_for_gs_flag_bytes_4().contains(x),
    ensures
        spec_known_oot_mappings().contains(x),
{
    lemma_contains_in_sum(research_upto_34(), spec_overworld_skulltulas_use_scene_ids_0x0a_0x15_for_gs_flag_bytes_4(), x);
    lemma_upto_in_known_35(x);
}

/// The researched mappings of `spec_overworld_skulltulas_use_scene_ids_0x0a_0x15_for_gs_flag_bytes_5`, one by one.
proof fn lemma_facts_overworld_skulltulas_use_scene_ids_0x0a_0x15_for_gs_flag_bytes_5()
    ensures
        spec_overworld_skulltulas_use_scene_ids_0x0a_0x15_for_gs_flag_bytes_5().len() == 3,
        spec_overworld_skulltulas_use_scene_ids_0x0a_0x15_for_gs_flag_bytes_5()[0] == researched("oot_lon_lon_ranch_gs_house", 0x63u8, FlagType::GoldSkulltula, 0x02u32),
        spec_overworld_skulltulas_use_scene_ids_0x0a_0x15_for_gs_flag_bytes_5()[1] == researched("oot_lon_lon_ranch_gs_rain_shed", 0x63u8, FlagType::GoldSkulltula, 0x04u32),
        spec_overworld_skulltulas_use_scene_ids_0x0a_0x15_for_gs_flag_bytes_5()[2] == researched("oot_lon_lon_ranch_gs_back_wall", 0x63u8, FlagType::GoldSkulltula, 0x08u32),
{
}

/// Every researched mapping of `spec_overworld_skulltulas_use_scene_ids_0x0a_0x15_for_gs_flag_bytes_5` is in the research.
proof fn lemma_in_known_overworld_skulltulas_use_scene_ids_0x0a_0x15_for_gs_flag_bytes_5(x: FlagMapping)
    requires
        spec_overworld_skulltulas_use_scene_ids_0x0a_0x15_for_gs_flag_bytes_5().contains(x),
    ensures
        spec_known_oot_mappings().contains(x),
{
    lemma_contains_in_sum(research_upto_35(), spec_overworld_skulltulas_use_scene_ids_0x0a_0x15_for_gs_flag_bytes_5(), x);
    lemma_upto_in_known_36(x);
}

/// The researched mappings of `spec_heart_pieces_and_other_freestanding_collectibles_are_tracked_via_the_1`, one by one.
proof fn lemma_facts_heart_pieces_and_other_freestanding_collectibles_are_tracked_via_the_1()
    ensures
        spec_heart_pieces_and_other_freestanding_collectibles_are_tracked_via_the_1().len() == 12,
        spec_heart_pieces_and_other_freestanding_collectibles_are_tracked_via_the_1()[0] == researched("oot_ice_cavern_hp", 0x09u8, FlagType::Collectible, 0x0000_0002u32),
        spec_heart_pieces_and_other_freestanding_collectibles_are_tracked_via_the_1()[1] == researched("oot_kakariko_impa_house_hp", 0x37u8, FlagType::Collectible, 0x0000_0002u32),
        spec_heart_pieces_and_other_freestanding_collectibles_are_tracked_via_the_1()[2] == researched("oot_windmill_hp", 0x48u8, FlagType::Collectible, 0x0000_0002u32),
        spec_heart_pieces_and_other_freestanding_collectibles_are_tracked_via_the_1()[3] == researched("oot_lon_lon_ranch_silo_hp", 0x4Cu8, FlagType::Collectible, 0x0000_0002u32),
        spec_heart_pieces_and_other_freestanding_collectibles_are_tracked_via_the_1()[4] == researched("oot_graveyard_crate_hp", 0x53u8, FlagType::Collectible, 0x0000_0010u32),
        spec_heart_pieces_and_other_freestanding_collectibles_are_tracked_via_the_1()[5] == researched("oot_zora_river_hp_pillar", 0x54u8, FlagType::Collectible, 0x0000_0800u32),
        spec_heart_pieces_and_other_freestanding_collectibles_are_tracked_via_the_1()[6] == researched("oot_zora_river_hp_platform", 0x54u8, FlagType::Collectible, 0x0000_0010u32),
        spec_heart_pieces_and_other_freestanding_collectibles_are_tracked_via_the_1()[7] == researched("oot_lake_hylia_hp", 0x57u8, FlagType::Collectible, 0x4000_0000u32),
        spec_heart_pieces_and_other_freestanding_collectibles_are_tracked_via_the_1()[8] == researched("oot_zora_fountain_iceberg_hp", 0x59u8, FlagType::Collectible, 0x0000_0002u32),
        spec_heart_pieces_and_other_freestanding_collectibles_are_tracked_via_the_1()[9] == researched("oot_zora_fountain_bottom_hp", 0x59u8, FlagType::Collectible, 0x0010_0000u32),
        spec_heart_pieces_and_other_freestanding_collectibles_are_tracked_via_the_1()[10] == researched("oot_gerudo_valley_crate_hp", 0x5Au8, FlagType::Collectible, 0x0000_0004u32),
        spec_heart_pieces_and_other_freestanding_collectibles_are_tracked_via_the_1()[11] == researched("oot_gerudo_valley_waterfall_hp", 0x5Au8, FlagType::Collectible, 0x0000_0002u32),
{
}

/// Every researched mapping of `spec_heart_pieces_and_other_freestanding_collectibles_are_tracked_via_the_1` is in the research.
proof fn lemma_in_known_heart_pieces_and_other_freestanding_collectibles_are_tracked_via_the_1(x: FlagMapping)
    requires
        spec_heart_pieces_and_other_freestanding_collectibles_are_tracked_via_the_1().contains(x),
    ensures
        spec_known_oot_mappings().contains(x),
{
    lemma_contains_in_sum(research_upto_36(), spec_heart_pieces_and_other_freestanding_collectibles_are_tracked_via_the_1(), x);
    lemma_upto_in_known_37(x);
}

/// The researched mappings of `spec_heart_pieces_and_other_freestanding_collectibles_are_tracked_via_the_2`, one by one.
proof fn lemma_facts_heart_pieces_and_other_freestanding_collectibles_are_tracked_via_the_2()
    ensures
        spec_heart_pieces_and_other_freestanding_collectibles_are_tracked_via_the_2().len() == 6,
        spec_heart_pieces_and_other_freestanding_collectibles_are_tracked_via_the_2()[0] == researched("oot_desert_colossus_hp", 0x5Cu8, FlagType::Collectible, 0x0000_2000u32),
        spec_heart_pieces_and_other_freestanding_collectibles_are_tracked_via_the_2()[1] == researched("oot_death_mountain_trail_hp", 0x60u8, FlagType::Collectible, 0x4000_0000u32),
        spec_heart_pieces_and_other_freestanding_collectibles_are_tracked_via_the_2()[2] == researched("oot_death_mountain_crater_volcano_hp", 0x61u8, FlagType::Collectible, 0x0000_0100u32),
        spec_heart_pieces_and_other_freestanding_collectibles_are_tracked_via_the_2()[3] == researched("oot_death_mountain_crater_alcove_hp", 0x61u8, FlagType::Collectible, 0x0000_0004u32),
        spec_heart_pieces_and_other_freestanding_collectibles_are_tracked_via_the_2()[4] == researched("oot_goron_city_big_pot_hp", 0x62u8, FlagType::Collectible, 0x8000_0000u32),
        spec_heart_pieces_and_other_freestanding_collectibles_are_tracked_via_the_2()[5] == researched("oot_hyrule_field_grotto_tektite_hp", 0x3Eu8, FlagType::Collectible, 0x0000_0002u32),
{
}

/// Every researched mapping of `spec_heart_pieces_and_other_freestanding_collectibles_are_tracked_via_the_2` is in the research.
proof fn lemma_in_known_heart_pieces_and_other_freestanding_collectibles_are_tracked_via_the_2(x: FlagMapping)
    requires
        spec_heart_pieces_and_other_freestanding_collectibles_are_tracked_via_the_2().contains(x),
    ensures
        spec_known_oot_mappings().contains(x),
{
    lemma_contains_in_sum(research_upto_37(), spec_heart_pieces_and_other_freestanding_collectibles_are_tracked_via_the_2(), x);
    lemma_upto_in_known_38(x);
}

/// The researched mappings of `spec_mq_deku_tree`, one by one.
proof fn lemma_facts_mq_deku_tree()
    ensures
        spec_mq_deku_tree().len() == 11,
        spec_mq_deku_tree()[0] == researched("mq_oot_mq_deku_tree_map_chest", 0x00u8, FlagType::Chest, 0x0000_0001u32),
        spec_mq_deku_tree()[1] == researched("mq_oot_mq_deku_tree_compass_chest", 0x00u8, FlagType::Chest, 0x0000_0002u32),
        spec_mq_deku_tree()[2] == researched("mq_oot_mq_deku_tree_slingshot_chest", 0x00u8, FlagType::Chest, 0x0000_0008u32),
        spec_mq_deku_tree()[3] == researched("mq_oot_mq_deku_tree_slingshot_room_far_chest", 0x00u8, FlagType::Chest, 0x0000_0010u32),
        spec_mq_deku_tree()[4] == researched("mq_oot_mq_deku_tree_basement_chest", 0x00u8, FlagType::Chest, 0x0000_0004u32),
        spec_mq_deku_tree()[5] == researched("mq_oot_mq_deku_tree_before_water_platform_chest", 0x00u8, FlagType::Chest, 0x0000_0020u32),
        spec_mq_deku_tree()[6] == researched("mq_oot_mq_deku_tree_after_water_platform_chest", 0x00u8, FlagType::Chest, 0x0000_0040u32),
        spec_mq_deku_tree()[7] == researched("mq_oot_mq_deku_tree_gs_lobby_crate", 0x00u8, FlagType::GoldSkulltula, 0x01u32),
        spec_mq_deku_tree()[8] == researched("mq_oot_mq_deku_tree_gs_compass_room", 0x00u8, FlagType::GoldSkulltula, 0x02u32),
        spec_mq_deku_tree()[9] == researched("mq_oot_mq_deku_tree_gs_song_of_time_blocks", 0x00u8, FlagType::GoldSkulltula, 0x04u32),
        spec_mq_deku_tree()[10] == researched("mq_oot_mq_deku_tree_gs_back_room", 0x00u8, FlagType::GoldSkulltula, 0x08u32),
{
}

/// Every researched mapping of `spec_mq_deku_tree` is in the research.
proof fn lemma_in_known_mq_deku_tree(x: FlagMapping)
    requires
        spec_mq_deku_tree().contains(x),
    ensures
        spec_known_oot_mappings().contains(x),
{
    lemma_contains_in_sum(research_upto_38(), spec_mq_deku_tree(), x);
    lemma_upto_in_known_39(x);
}

/// The researched mappings of `spec_mq_dodongo_s_cavern`, one by one.
proof fn lemma_facts_mq_dodongo_s_cavern()
    ensures
        spec_mq_dodongo_s_cavern().len() == 11,
        spec_mq_dodongo_s_cavern()[0] == researched("mq_oot_mq_dodongo_cavern_map_chest", 0x01u8, FlagType::Chest, 0x0000_0001u32),
        spec_mq_dodongo_s_cavern()[1] == researched("mq_oot_mq_dodongo_cavern_compass_chest", 0x01u8, FlagType::Chest, 0x0000_0020u32),
        spec_mq_dodongo_s_cavern()[2] == researched("mq_oot_mq_dodongo_cavern_bomb_bag_chest", 0x01u8, FlagType::Chest, 0x0000_0010u32),
        spec_mq_dodongo_s_cavern()[3] == researched("mq_oot_mq_dodongo_cavern_larvae_room_chest", 0x01u8, FlagType::Chest, 0x0000_0002u32),
        spec_mq_dodongo_s_cavern()[4] == researched("mq_oot_mq_dodongo_cavern_upper_ledge_chest", 0x01u8, FlagType::Chest, 0x0000_0040u32),
        spec_mq_dodongo_s_cavern()[5] == researched("mq_oot_mq_dodongo_cavern_chest_under_grave", 0x01u8, FlagType::Chest, 0x0000_0004u32),
        spec_mq_dodongo_s_cavern()[6] == researched("mq_oot_mq_dodongo_cavern_gs_time_blocks", 0x01u8, FlagType::GoldSkulltula, 0x01u32),
        spec_mq_dodongo_s_cavern()[7] == researched("mq_oot_mq_dodongo_cavern_gs_larve_room", 0x01u8, FlagType::GoldSkulltula, 0x02u32),
        spec_mq_dodongo_s_cavern()[8] == researched("mq_oot_mq_dodongo_cavern_gs_upper_lizalfos", 0x01u8, FlagType::GoldSkulltula, 0x04u32),
        spec_mq_dodongo_s_cavern()[9] == researched("mq_oot_mq_dodongo_cavern_gs_poe_room_side", 0x01u8, FlagType::GoldSkulltula, 0x08u32),
        spec_mq_dodongo_s_cavern()[10] == researched("mq_oot_mq_dodongo_cavern_gs_near_boss", 0x01u8, FlagType::GoldSkulltula, 0x10u32),
{
}

/// Every researched mapping of `spec_mq_dodongo_s_cavern` is in the research.
proof fn lemma_in_known_mq_dodongo_s_cavern(x: FlagMapping)
    requires
        spec_mq_dodongo_s_cavern().contains(x),
    ensures
        spec_known_oot_mappings().contains(x),
{
    lemma_contains_in_sum(research_upto_39(), spec_mq_dodongo_s_cavern(), x);
    lemma_upto_in_known_40(x);
}

/// The researched mappings of `spec_mq_jabu_jabu_s_belly_1`, one by one.
proof fn lemma_facts_mq_jabu_jabu_s_belly_1()
    ensures
        spec_mq_jabu_jabu_s_belly_1().len() == 12,
        spec_mq_jabu_jabu_s_belly_1()[0] == researched("mq_oot_mq_jabu_jabu_map_chest", 0x02u8, FlagType::Chest, 0x0000_0001u32),
        spec_mq_jabu_jabu_s_belly_1()[1] == researched("mq_oot_mq_jabu_jabu_entry_chest", 0x02u8, FlagType::Chest, 0x0000_0080u32),
        spec_mq_jabu_jabu_s_belly_1()[2] == researched("mq_oot_mq_jabu_jabu_second_room_b1_chest", 0x02u8, FlagType::Chest, 0x0000_0002u32),
        spec_mq_jabu_jabu_s_belly_1()[3] == researched("mq_oot_mq_jabu_jabu_compass_chest", 0x02u8, FlagType::Chest, 0x0000_0008u32),
        spec_mq_jabu_jabu_s_belly_1()[4] == researched("mq_oot_mq_jabu_jabu_second_room_1f_chest", 0x02u8, FlagType::Chest, 0x0000_0100u32),
        spec_mq_jabu_jabu_s_belly_1()[5] == researched("mq_oot_mq_jabu_jabu_third_room_west_chest", 0x02u8, FlagType::Chest, 0x0000_0200u32),
        spec_mq_jabu_jabu_s_belly_1()[6] == researched("mq_oot_mq_jabu_jabu_third_room_east_chest", 0x02u8, FlagType::Chest, 0x0000_0400u32),
        spec_mq_jabu_jabu_s_belly_1()[7] == researched("mq_oot_mq_jabu_jabu_boomerang_chest", 0x02u8, FlagType::Chest, 0x0000_0004u32),
        spec_mq_jabu_jabu_s_belly_1()[8] == researched("mq_oot_mq_jabu_jabu_sot_room_lower_chest", 0x02u8, FlagType::Chest, 0x0000_0800u32),
        spec_mq_jabu_jabu_s_belly_1()[9] == researched("mq_oot_mq_jabu_jabu_back_chest", 0x02u8, FlagType::Chest, 0x0000_0020u32),
        spec_mq_jabu_jabu_s_belly_1()[10] == researched("mq_oot_mq_jabu_jabu_pre_boss_chest", 0x02u8, FlagType::Chest, 0x0000_0040u32),
        spec_mq_jabu_jabu_s_belly_1()[11] == researched("mq_oot_mq_jabu_jabu_gs_sot_block", 0x02u8, FlagType::GoldSkulltula, 0x01u32),
{
}

/// Every researched mapping of `spec_mq_jabu_jabu_s_belly_1` is in the research.
proof fn lemma_in_known_mq_jabu_jabu_s_belly_1(x: FlagMapping)
    requires
        spec_mq_jabu_jabu_s_belly_1().contains(x),
    ensures
        spec_known_oot_mappings().contains(x),
{
    lemma_contains_in_sum(research_upto_40(), spec_mq_jabu_jabu_s_belly_1(), x);
    lemma_upto_in_known_41(x);
}

/// The researched mappings of `spec_mq_jabu_jabu_s_belly_2`, one by one.
proof fn lemma_facts_mq_jabu_jabu_s_belly_2()
    ensures
        spec_mq_jabu_jabu_s_belly_2().len() == 3,
        spec_mq_jabu_jabu_s_belly_2()[0] == researched("mq_oot_mq_jabu_jabu_gs_back", 0x02u8, FlagType::GoldSkulltula, 0x02u32),
        spec_mq_jabu_jabu_s_belly_2()[1] == researched("mq_oot_mq_jabu_jabu_gs_basement_side_room", 0x02u8, FlagType::GoldSkulltula, 0x04u32),
        spec_mq_jabu_jabu_s_belly_2()[2] == researched("mq_oot_mq_jabu_jabu_gs_pre_boss", 0x02u8, FlagType::GoldSkulltula, 0x08u32),
{
}

/// Every researched mapping of `spec_mq_jabu_jabu_s_belly_2` is in the research.
proof fn lemma_in_known_mq_jabu_jabu_s_belly_2(x: FlagMapping)
    requires
        spec_mq_jabu_jabu_s_belly_2().contains(x),
    ensures
        spec_known_oot_mappings().contains(x),
{
    lemma_contains_in_sum(research_upto_41(), spec_mq_jabu_jabu_s_belly_2(), x);
    lemma_upto_in_known_42(x);
}

/// The researched mappings of `spec_mq_forest_temple_1`, one by one.
proof fn lemma_facts_mq_forest_temple_1()
    ensures
        spec_mq_forest_temple_1().len() == 12,
        spec_mq_forest_temple_1()[0] == researched("mq_oot_mq_forest_temple_first_room_chest", 0x03u8, FlagType::Chest, 0x0000_0008u32),
        spec_mq_forest_temple_1()[1] == researched("mq_oot_mq_forest_temple_wolfos_chest", 0x03u8, FlagType::Chest, 0x0000_0001u32),
        spec_mq_forest_temple_1()[2] == researched("mq_oot_mq_forest_temple_boss_key_chest", 0x03u8, FlagType::Chest, 0x0000_4000u32),
        spec_mq_forest_temple_1()[3] == researched("mq_oot_mq_forest_temple_redead_chest", 0x03u8, FlagType::Chest, 0x0000_0004u32),
        spec_mq_forest_temple_1()[4] == researched("mq_oot_mq_forest_temple_well_chest", 0x03u8, FlagType::Chest, 0x0000_0200u32),
        spec_mq_forest_temple_1()[5] == researched("mq_oot_mq_forest_temple_east_garden_high_ledge_chest", 0x03u8, FlagType::Chest, 0x0000_0010u32),
        spec_mq_forest_temple_1()[6] == researched("mq_oot_mq_forest_temple_east_garden_ledge_chest", 0x03u8, FlagType::Chest, 0x0000_0020u32),
        spec_mq_forest_temple_1()[7] == researched("mq_oot_mq_forest_temple_map_chest", 0x03u8, FlagType::Chest, 0x0000_0002u32),
        spec_mq_forest_temple_1()[8] == researched("mq_oot_mq_forest_temple_bow_chest", 0x03u8, FlagType::Chest, 0x0000_1000u32),
        spec_mq_forest_temple_1()[9] == researched("mq_oot_mq_forest_temple_compass_chest", 0x03u8, FlagType::Chest, 0x0000_8000u32),
        spec_mq_forest_temple_1()[10] == researched("mq_oot_mq_forest_temple_falling_ceiling_chest", 0x03u8, FlagType::Chest, 0x0000_0040u32),
        spec_mq_forest_temple_1()[11] == researched("mq_oot_mq_forest_temple_gs_entryway", 0x03u8, FlagType::GoldSkulltula, 0x01u32),
{
}

/// Every researched mapping of `spec_mq_forest_temple_1` is in the research.
proof fn lemma_in_known_mq_forest_temple_1(x: FlagMapping)
    requires
        spec_mq_forest_temple_1().contains(x),
    ensures
        spec_known_oot_mappings().contains(x),
{
    lemma_contains_in_sum(research_upto_42(), spec_mq_forest_temple_1(), x);
    lemma_upto_in_known_43(x);
}

/// The researched mappings of `spec_mq_forest_temple_2`, one by one.
proof fn lemma_facts_mq_forest_temple_2()
    ensures
        spec_mq_forest_temple_2().len() == 4,
        spec_mq_forest_temple_2()[0] == researched("mq_oot_mq_forest_temple_gs_climb_room", 0x03u8, FlagType::GoldSkulltula, 0x02u32),
        spec_mq_forest_temple_2()[1] == researched("mq_oot_mq_forest_temple_gs_west_garden", 0x03u8, FlagType::GoldSkulltula, 0x04u32),
        spec_mq_forest_temple_2()[2] == researched("mq_oot_mq_forest_temple_gs_east_garden", 0x03u8, FlagType::GoldSkulltula, 0x08u32),
        spec_mq_forest_temple_2()[3] == researched("mq_oot_mq_forest_temple_gs_well", 0x03u8, FlagType::GoldSkulltula, 0x10u32),
{
}

/// Every researched mapping of `spec_mq_forest_temple_2` is in the research.
proof fn lemma_in_known_mq_forest_temple_2(x: FlagMapping)
    requires
        spec_mq_forest_temple_2().contains(x),
    ensures
        spec_known_oot_mappings().contains(x),
{
    lemma_contains_in_sum(research_upto_43(), spec_mq_forest_temple_2(), x);
    lemma_upto_in_known_44(x);
}

/// The researched mappings of `spec_mq_fire_temple_1`, one by one.
proof fn lemma_facts_mq_fire_temple_1()
    ensures
        spec_mq_fire_temple_1().len() == 12,
        spec_mq_fire_temple_1()[0] == researched("mq_oot_mq_fire_temple_early_lower_left_chest", 0x04u8, FlagType::Chest, 0x0000_0001u32),
        spec_mq_fire_temple_1()[1] == researched("mq_oot_mq_fire_temple_map_chest", 0x04u8, FlagType::Chest, 0x0000_0002u32),
        spec_mq_fire_temple_1()[2] == researched("mq_oot_mq_fire_temple_pre_boss_chest", 0x04u8, FlagType::Chest, 0x0000_0080u32),
        spec_mq_fire_temple_1()[3] == researched("mq_oot_mq_fire_temple_hammer_chest", 0x04u8, FlagType::Chest, 0x0000_0008u32),
        spec_mq_fire_temple_1()[4] == researched("mq_oot_mq_fire_temple_boss_key_chest", 0x04u8, FlagType::Chest, 0x0000_1000u32),
        spec_mq_fire_temple_1()[5] == researched("mq_oot_mq_fire_temple_1f_lava_room_goron_chest", 0x04u8, FlagType::Chest, 0x0000_0004u32),
        spec_mq_fire_temple_1()[6] == researched("mq_oot_mq_fire_temple_compass_chest", 0x04u8, FlagType::Chest, 0x0000_0040u32),
        spec_mq_fire_temple_1()[7] == researched("mq_oot_mq_fire_temple_maze_lower_chest", 0x04u8, FlagType::Chest, 0x0000_0010u32),
        spec_mq_fire_temple_1()[8] == researched("mq_oot_mq_fire_temple_maze_upper_chest", 0x04u8, FlagType::Chest, 0x0000_0020u32),
        spec_mq_fire_temple_1()[9] == researched("mq_oot_mq_fire_temple_maze_side_room_chest", 0x04u8, FlagType::Chest, 0x0000_0100u32),
        spec_mq_fire_temple_1()[10] == researched("mq_oot_mq_fire_temple_topmost_chest", 0x04u8, FlagType::Chest, 0x0000_2000u32),
        spec_mq_fire_temple_1()[11] == researched("mq_oot_mq_fire_temple_gs_1f_lava_room", 0x04u8, FlagType::GoldSkulltula, 0x01u32),
{
}

/// Every researched mapping of `spec_mq_fire_temple_1` is in the research.
proof fn lemma_in_known_mq_fire_temple_1(x: FlagMapping)
    requires
        spec_mq_fire_temple_1().contains(x),
    ensures
        spec_known_oot_mappings().contains(x),
{
    lemma_contains_in_sum(research_upto_44(), spec_mq_fire_temple_1(), x);
    lemma_upto_in_known_45(x);
}

/// The researched mappings of `spec_mq_fire_temple_2`, one by one.
proof fn lemma_facts_mq_fire_temple_2()
    ensures
        spec_mq_fire_temple_2().len() == 4,
        spec_mq_fire_temple_2()[0] == researched("mq_oot_mq_fire_temple_gs_burning_block", 0x04u8, FlagType::GoldSkulltula, 0x02u32),
        spec_mq_fire_temple_2()[1] == researched("mq_oot_mq_fire_temple_gs_fire_walls_side_room", 0x04u8, FlagType::GoldSkulltula, 0x04u32),
        spec_mq_fire_temple_2()[2] == researched("mq_oot_mq_fire_temple_gs_fire_walls_middle", 0x04u8, FlagType::GoldSkulltula, 0x08u32),
        spec_mq_fire_temple_2()[3] == researched("mq_oot_mq_fire_temple_gs_topmost", 0x04u8, FlagType::GoldSkulltula, 0x10u32),
{
}

/// Every researched mapping of `spec_mq_fire_temple_2` is in the research.
proof fn lemma_in_known_mq_fire_temple_2(x: FlagMapping)
    requires
        spec_mq_fire_temple_2().contains(x),
    ensures
        spec_known_oot_mappings().contains(x),
{
    lemma_contains_in_sum(research_upto_45(), spec_mq_fire_temple_2(), x);
    lemma_upto_in_known_46(x);
}

/// The researched mappings of `spec_mq_water_temple`, one by one.
proof fn lemma_facts_mq_water_temple()
    ensures
        spec_mq_water_temple().len() == 10,
        spec_mq_water_temple()[0] == researched("mq_oot_mq_water_temple_compass_chest", 0x05u8, FlagType::Chest, 0x0000_0001u32),
        spec_mq_water_temple()[1] == researched("mq_oot_mq_water_temple_longshot_chest", 0x05u8, FlagType::Chest, 0x0000_0002u32),
        spec_mq_water_temple()[2] == researched("mq_oot_mq_water_temple_map_chest", 0x05u8, FlagType::Chest, 0x0000_0004u32),
        spec_mq_water_temple()[3] == researched("mq_oot_mq_water_temple_boss_key_chest", 0x05u8, FlagType::Chest, 0x0000_0040u32),
        spec_mq_water_temple()[4] == researched("mq_oot_mq_water_temple_central_pillar_chest", 0x05u8, FlagType::Chest, 0x0000_0020u32),
        spec_mq_water_temple()[5] == researched("mq_oot_mq_water_temple_gs_river", 0x05u8, FlagType::GoldSkulltula, 0x01u32),
        spec_mq_water_temple()[6] == researched("mq_oot_mq_water_temple_gs_three_torch", 0x05u8, FlagType::GoldSkulltula, 0x02u32),
        spec_mq_water_temple()[7] == researched("mq_oot_mq_water_temple_gs_side_loop", 0x05u8, FlagType::GoldSkulltula, 0x04u32),
        spec_mq_water_temple()[8] == researched("mq_oot_mq_water_temple_gs_lizalfos_hallway", 0x05u8, FlagType::GoldSkulltula, 0x08u32),
        spec_mq_water_temple()[9] == researched("mq_oot_mq_water_temple_gs_high_water_changer", 0x05u8, FlagType::GoldSkulltula, 0x10u32),
{
}

/// Every researched mapping of `spec_mq_water_temple` is in the research.
proof fn lemma_in_known_mq_water_temple(x: FlagMapping)
    requires
        spec_mq_water_temple().contains(x),
    ensures
        spec_known_oot_mappings().contains(x),
{
    lemma_contains_in_sum(research_upto_46(), spec_mq_water_temple(), x);
    lemma_upto_in_known_47(x);
}

/// The researched mappings of `spec_mq_spirit_temple_1`, one by one.
proof fn lemma_facts_mq_spirit_temple_1()
    ensures
        spec_mq_spirit_temple_1().len() == 12,
        spec_mq_spirit_temple_1()[0] == researched("mq_oot_mq_spirit_temple_entrance_initial_chest", 0x06u8, FlagType::Chest, 0x0000_0001u32),
        spec_mq_spirit_temple_1()[1] == researched("mq_oot_mq_spirit_temple_lobby_back_left_chest", 0x06u8, FlagType::Chest, 0x0000_0002u32),
        spec_mq_spirit_temple_1()[2] == researched("mq_oot_mq_spirit_temple_lobby_back_right_chest", 0x06u8, FlagType::Chest, 0x0000_0004u32),
        spec_mq_spirit_temple_1()[3] == researched("mq_oot_mq_spirit_temple_compass_chest", 0x06u8, FlagType::Chest, 0x0000_0008u32),
        spec_mq_spirit_temple_1()[4] == researched("mq_oot_mq_spirit_temple_sun_block_room_chest", 0x06u8, FlagType::Chest, 0x0000_0010u32),
        spec_mq_spirit_temple_1()[5] == researched("mq_oot_mq_spirit_temple_lobby_front_right_chest", 0x06u8, FlagType::Chest, 0x0000_0020u32),
        spec_mq_spirit_temple_1()[6] == researched("mq_oot_mq_spirit_temple_map_chest", 0x06u8, FlagType::Chest, 0x0000_0040u32),
        spec_mq_spirit_temple_1()[7] == researched("mq_oot_mq_spirit_temple_map_room_back_chest", 0x06u8, FlagType::Chest, 0x0000_0080u32),
        spec_mq_spirit_temple_1()[8] == researched("mq_oot_mq_spirit_temple_paradox_chest", 0x06u8, FlagType::Chest, 0x0000_0100u32),
        spec_mq_spirit_temple_1()[9] == researched("mq_oot_mq_spirit_temple_child_upper_ground_chest", 0x06u8, FlagType::Chest, 0x0000_0200u32),
        spec_mq_spirit_temple_1()[10] == researched("mq_oot_mq_spirit_temple_child_upper_ledge_chest", 0x06u8, FlagType::Chest, 0x0000_0400u32),
        spec_mq_spirit_temple_1()[11] == researched("mq_oot_mq_spirit_temple_silver_block_room_target_chest", 0x06u8, FlagType::Chest, 0x0000_0800u32),
{
}

/// Every researched mapping of `spec_mq_spirit_temple_1` is in the research.
proof fn lemma_in_known_mq_spirit_temple_1(x: FlagMapping)
    requires
        spec_mq_spirit_temple_1().contains(x),
    ensures
        spec_known_oot_mappings().contains(x),
{
    lemma_contains_in_sum(research_upto_47(), spec_mq_spirit_temple_1(), x);
    lemma_upto_in_known_48(x);
}

/// The researched mappings of `spec_mq_spirit_temple_2`, one by one.
proof fn lemma_facts_mq_spirit_temple_2()
    ensures
        spec_mq_spirit_temple_2().len() == 12,
        spec_mq_spirit_temple_2()[0] == researched("mq_oot_mq_spirit_temple_chest_in_box", 0x06u8, FlagType::Chest, 0x0000_1000u32),
        spec_mq_spirit_temple_2()[1] == researched("mq_oot_mq_spirit_temple_statue_room_ledge_chest", 0x06u8, FlagType::Chest, 0x0000_2000u32),
        spec_mq_spirit_temple_2()[2] == researched("mq_oot_mq_spirit_temple_purple_leever_chest", 0x06u8, FlagType::Chest, 0x0000_4000u32),
        spec_mq_spirit_temple_2()[3] == researched("mq_oot_mq_spirit_temple_symphony_room_chest", 0x06u8, FlagType::Chest, 0x0000_8000u32),
        spec_mq_spirit_temple_2()[4] == researched("mq_oot_mq_spirit_temple_beamos_room_chest", 0x06u8, FlagType::Chest, 0x0001_0000u32),
        spec_mq_spirit_temple_2()[5] == researched("mq_oot_mq_spirit_temple_dinolfos_room_chest", 0x06u8, FlagType::Chest, 0x0002_0000u32),
        spec_mq_spirit_temple_2()[6] == researched("mq_oot_mq_spirit_temple_boss_key_chest", 0x06u8, FlagType::Chest, 0x0004_0000u32),
        spec_mq_spirit_temple_2()[7] == researched("mq_oot_mq_spirit_temple_topmost_chest", 0x06u8, FlagType::Chest, 0x0008_0000u32),
        spec_mq_spirit_temple_2()[8] == researched("mq_oot_mq_spirit_temple_gs_sun_block_room", 0x06u8, FlagType::GoldSkulltula, 0x01u32),
        spec_mq_spirit_temple_2()[9] == researched("mq_oot_mq_spirit_temple_gs_leever_room", 0x06u8, FlagType::GoldSkulltula, 0x02u32),
        spec_mq_spirit_temple_2()[10] == researched("mq_oot_mq_spirit_temple_gs_symphony_room", 0x06u8, FlagType::GoldSkulltula, 0x04u32),
        spec_mq_spirit_temple_2()[11] == researched("mq_oot_mq_spirit_temple_gs_top_floor_left_wall", 0x06u8, FlagType::GoldSkulltula, 0x08u32),
{
}

/// Every researched mapping of `spec_mq_spirit_temple_2` is in the research.
proof fn lemma_in_known_mq_spirit_temple_2(x: FlagMapping)
    requires
        spec_mq_spirit_temple_2().contains(x),
    ensures
        spec_known_oot_mappings().contains(x),
{
    lemma_contains_in_sum(research_upto_48(), spec_mq_spirit_temple_2(), x);
    lemma_upto_in_known_49(x);
}

/// The researched mappings of `spec_mq_spirit_temple_3`, one by one.
proof fn lemma_facts_mq_spirit_temple_3()
    ensures
        spec_mq_spirit_temple_3().len() == 1,
        spec_mq_spirit_temple_3()[0] == researched("mq_oot_mq_spirit_temple_gs_top_floor_back_wall", 0x06u8, FlagType::GoldSkulltula, 0x10u32),
{
}

/// Every researched mapping of `spec_mq_spirit_temple_3` is in the research.
proof fn lemma_in_known_mq_spirit_temple_3(x: FlagMapping)
    requires
        spec_mq_spirit_temple_3().contains(x),
    ensures
        spec_known_oot_mappings().contains(x),
{
    lemma_contains_in_sum(research_upto_49(), spec_mq_spirit_temple_3(), x);
    lemma_upto_in_known_50(x);
}

/// The researched mappings of `spec_mq_shadow_temple_1`, one by one.
proof fn lemma_facts_mq_shadow_temple_1()
    ensures
        spec_mq_shadow_temple_1().len() == 12,
        spec_mq_shadow_temple_1()[0] == researched("mq_oot_mq_shadow_temple_compass_chest", 0x07u8, FlagType::Chest, 0x0000_0008u32),
        spec_mq_shadow_temple_1()[1] == researched("mq_oot_mq_shadow_temple_hover_boots_chest", 0x07u8, FlagType::Chest, 0x0000_0080u32),
        spec_mq_shadow_temple_1()[2] == researched("mq_oot_mq_shadow_temple_first_gibdos_chest", 0x07u8, FlagType::Chest, 0x0000_0001u32),
        spec_mq_shadow_temple_1()[3] == researched("mq_oot_mq_shadow_temple_map_chest", 0x07u8, FlagType::Chest, 0x0000_0002u32),
        spec_mq_shadow_temple_1()[4] == researched("mq_oot_mq_shadow_temple_boat_passage_chest", 0x07u8, FlagType::Chest, 0x0000_0004u32),
        spec_mq_shadow_temple_1()[5] == researched("mq_oot_mq_shadow_temple_second_silver_rupee_visible_chest", 0x07u8, FlagType::Chest, 0x0000_0010u32),
        spec_mq_shadow_temple_1()[6] == researched("mq_oot_mq_shadow_temple_second_silver_rupee_invisible_chest", 0x07u8, FlagType::Chest, 0x0000_0020u32),
        spec_mq_shadow_temple_1()[7] == researched("mq_oot_mq_shadow_temple_huge_pit_silver_rupee_chest", 0x07u8, FlagType::Chest, 0x0000_0040u32),
        spec_mq_shadow_temple_1()[8] == researched("mq_oot_mq_shadow_temple_spike_curtain_ground_chest", 0x07u8, FlagType::Chest, 0x0000_0100u32),
        spec_mq_shadow_temple_1()[9] == researched("mq_oot_mq_shadow_temple_spike_curtain_upper_cage_chest", 0x07u8, FlagType::Chest, 0x0000_0200u32),
        spec_mq_shadow_temple_1()[10] == researched("mq_oot_mq_shadow_temple_spike_curtain_upper_switch_chest", 0x07u8, FlagType::Chest, 0x0000_0400u32),
        spec_mq_shadow_temple_1()[11] == researched("mq_oot_mq_shadow_temple_invisible_spike_floor_chest", 0x07u8, FlagType::Chest, 0x0000_0800u32),
{
}

/// Every researched mapping of `spec_mq_shadow_temple_1` is in the research.
proof fn lemma_in_known_mq_shadow_temple_1(x: FlagMapping)
    requires
        spec_mq_shadow_temple_1().contains(x),
    ensures
        spec_known_oot_mappings().contains(x),
{
    lemma_contains_in_sum(research_upto_50(), spec_mq_shadow_temple_1(), x);
    lemma_upto_in_known_51(x);
}

/// The researched mappings of `spec_mq_shadow_temple_2`, one by one.
proof fn lemma_facts_mq_shadow_temple_2()
    ensures
        spec_mq_shadow_temple_2().len() == 12,
        spec_mq_shadow_temple_2()[0] == researched("mq_oot_mq_shadow_temple_stalfos_room_chest", 0x07u8, FlagType::Chest, 0x0000_1000u32),
        spec_mq_shadow_temple_2()[1] == researched("mq_oot_mq_shadow_temple_wind_hint_chest", 0x07u8, FlagType::Chest, 0x0020_0000u32),
        spec_mq_shadow_temple_2()[2] == researched("mq_oot_mq_shadow_temple_after_wind_gibdos_chest", 0x07u8, FlagType::Chest, 0x0000_2000u32),
        spec_mq_shadow_temple_2()[3] == researched("mq_oot_mq_shadow_temple_after_wind_bomb_chest", 0x07u8, FlagType::Chest, 0x0010_0000u32),
        spec_mq_shadow_temple_2()[4] == researched("mq_oot_mq_shadow_temple_hidden_dead_hand_chest", 0x07u8, FlagType::Chest, 0x0000_4000u32),
        spec_mq_shadow_temple_2()[5] == researched("mq_oot_mq_shadow_temple_crushing_wall_left_chest", 0x07u8, FlagType::Chest, 0x0000_8000u32),
        spec_mq_shadow_temple_2()[6] == researched("mq_oot_mq_shadow_temple_boss_key_chest", 0x07u8, FlagType::Chest, 0x0001_0000u32),
        spec_mq_shadow_temple_2()[7] == researched("mq_oot_mq_shadow_temple_gs_spike_curtain", 0x07u8, FlagType::GoldSkulltula, 0x01u32),
        spec_mq_shadow_temple_2()[8] == researched("mq_oot_mq_shadow_temple_gs_wind_hint", 0x07u8, FlagType::GoldSkulltula, 0x02u32),
        spec_mq_shadow_temple_2()[9] == researched("mq_oot_mq_shadow_temple_gs_after_wind_bomb", 0x07u8, FlagType::GoldSkulltula, 0x04u32),
        spec_mq_shadow_temple_2()[10] == researched("mq_oot_mq_shadow_temple_gs_after_boat", 0x07u8, FlagType::GoldSkulltula, 0x08u32),
        spec_mq_shadow_temple_2()[11] == researched("mq_oot_mq_shadow_temple_gs_pre_boss", 0x07u8, FlagType::GoldSkulltula, 0x10u32),
{
}

/// Every researched mapping of `spec_mq_shadow_temple_2` is in the research.
proof fn lemma_in_known_mq_shadow_temple_2(x: FlagMapping)
    requires
        spec_mq_shadow_temple_2().contains(x),
    ensures
        spec_known_oot_mappings().contains(x),
{
    lemma_contains_in_sum(research_upto_51(), spec_mq_shadow_temple_2(), x);
    lemma_upto_in_known_52(x);
}

/// The researched mappings of `spec_mq_bottom_of_the_well`, one by one.
proof fn lemma_facts_mq_bottom_of_the_well()
    ensures
        spec_mq_bottom_of_the_well().len() == 6,
        spec_mq_bottom_of_the_well()[0] == researched("mq_oot_mq_bottom_of_the_well_map_chest", 0x08u8, FlagType::Chest, 0x0000_0001u32),
        spec_mq_bottom_of_the_well()[1] == researched("mq_oot_mq_bottom_of_the_well_lens_chest", 0x08u8, FlagType::Chest, 0x0000_0008u32),
        spec_mq_bottom_of_the_well()[2] == researched("mq_oot_mq_bottom_of_the_well_compass_chest", 0x08u8, FlagType::Chest, 0x0000_0002u32),
        spec_mq_bottom_of_the_well()[3] == researched("mq_oot_mq_bottom_of_the_well_gs_basement", 0x08u8, FlagType::GoldSkulltula, 0x01u32),
        spec_mq_bottom_of_the_well()[4] == researched("mq_oot_mq_bottom_of_the_well_gs_west_middle_room", 0x08u8, FlagType::GoldSkulltula, 0x02u32),
        spec_mq_bottom_of_the_well()[5] == researched("mq_oot_mq_bottom_of_the_well_gs_coffin_room", 0x08u8, FlagType::GoldSkulltula, 0x04u32),
{
}

/// Every researched mapping of `spec_mq_bottom_of_the_well` is in the research.
proof fn lemma_in_known_mq_bottom_of_the_well(x: FlagMapping)
    requires
        spec_mq_bottom_of_the_well().contains(x),
    ensures
        spec_known_oot_mappings().contains(x),
{
    lemma_contains_in_sum(research_upto_52(), spec_mq_bottom_of_the_well(), x);
    lemma_upto_in_known_53(x);
}

/// The researched mappings of `spec_mq_ice_cavern`, one by one.
proof fn lemma_facts_mq_ice_cavern()
    ensures
        spec_mq_ice_cavern().len() == 5,
        spec_mq_ice_cavern()[0] == researched("mq_oot_mq_ice_cavern_map_chest", 0x09u8, FlagType::Chest, 0x0000_0001u32),
        spec_mq_ice_cavern()[1] == researched("mq_oot_mq_ice_cavern_compass_chest", 0x09u8, FlagType::Chest, 0x0000_0002u32),
        spec_mq_ice_cavern()[2] == researched("mq_oot_mq_ice_cavern_gs_compass_room", 0x09u8, FlagType::GoldSkulltula, 0x01u32),
        spec_mq_ice_cavern()[3] == researched("mq_oot_mq_ice_cavern_gs_clear_blocks", 0x09u8, FlagType::GoldSkulltula, 0x02u32),
        spec_mq_ice_cavern()[4] == researched("mq_oot_mq_ice_cavern_gs_scarecrow", 0x09u8, FlagType::GoldSkulltula, 0x04u32),
{
}

/// Every researched mapping of `spec_mq_ice_cavern` is in the research.
proof fn lemma_in_known_mq_ice_cavern(x: FlagMapping)
    requires
        spec_mq_ice_cavern().contains(x),
    ensures
        spec_known_oot_mappings().contains(x),
{
    lemma_contains_in_sum(research_upto_53(), spec_mq_ice_cavern(), x);
    lemma_upto_in_known_54(x);
}

/// The researched mappings of `spec_mq_gerudo_training_ground_1`, one by one.
proof fn lemma_facts_mq_gerudo_training_ground_1()
    ensures
        spec_mq_gerudo_training_ground_1().len() == 12,
        spec_mq_gerudo_training_ground_1()[0] == researched("mq_oot_mq_gerudo_training_grounds_entryway_left_chest", 0x0Bu8, FlagType::Chest, 0x0000_0001u32),
        spec_mq_gerudo_training_ground_1()[1] == researched("mq_oot_mq_gerudo_training_grounds_entryway_right_chest", 0x0Bu8, FlagType::Chest, 0x0000_0002u32),
        spec_mq_gerudo_training_ground_1()[2] == researched("mq_oot_mq_gerudo_training_grounds_maze_first_chest", 0x0Bu8, FlagType::Chest, 0x0000_1000u32),
        spec_mq_gerudo_training_ground_1()[3] == researched("mq_oot_mq_gerudo_training_grounds_maze_second_chest", 0x0Bu8, FlagType::Chest, 0x0002_0000u32),
        spec_mq_gerudo_training_ground_1()[4] == researched("mq_oot_mq_gerudo_training_grounds_maze_third_chest", 0x0Bu8, FlagType::Chest, 0x0004_0000u32),
        spec_mq_gerudo_training_ground_1()[5] == researched("mq_oot_mq_gerudo_training_grounds_maze_fourth_chest", 0x0Bu8, FlagType::Chest, 0x0010_0000u32),
        spec_mq_gerudo_training_ground_1()[6] == researched("mq_oot_mq_gerudo_training_grounds_maze_right_side_middle_chest", 0x0Bu8, FlagType::Chest, 0x0000_0004u32),
        spec_mq_gerudo_training_ground_1()[7] == researched("mq_oot_mq_gerudo_training_grounds_maze_right_side_right_chest", 0x0Bu8, FlagType::Chest, 0x0000_0008u32),
        spec_mq_gerudo_training_ground_1()[8] == researched("mq_oot_mq_gerudo_training_grounds_right_side_dinolfos_chest", 0x0Bu8, FlagType::Chest, 0x0000_0010u32),
        spec_mq_gerudo_training_ground_1()[9] == researched("mq_oot_mq_gerudo_training_grounds_water_room_chest", 0x0Bu8, FlagType::Chest, 0x0000_0020u32),
        spec_mq_gerudo_training_ground_1()[10] == researched("mq_oot_mq_gerudo_training_grounds_left_side_iron_knuckle_chest", 0x0Bu8, FlagType::Chest, 0x0000_0040u32),
        spec_mq_gerudo_training_ground_1()[11] == researched("mq_oot_mq_gerudo_training_grounds_stalfos_room_chest", 0x0Bu8, FlagType::Chest, 0x0000_0080u32),
{
}

/// Every researched mapping of `spec_mq_gerudo_training_ground_1` is in the research.
proof fn lemma_in_known_mq_gerudo_training_ground_1(x: FlagMapping)
    requires
        spec_mq_gerudo_training_ground_1().contains(x),
    ensures
        spec_known_oot_mappings().contains(x),
{
    lemma_contains_in_sum(research_upto_54(), spec_mq_gerudo_training_ground_1(), x);
    lemma_upto_in_known_55(x);
}

/// The researched mappings of `spec_mq_gerudo_training_ground_2`, one by one.
proof fn lemma_facts_mq_gerudo_training_ground_2()
    ensures
        spec_mq_gerudo_training_ground_2().len() == 5,
        spec_mq_gerudo_training_ground_2()[0] == researched("mq_oot_mq_gerudo_training_grounds_silver_block_room_chest", 0x0Bu8, FlagType::Chest, 0x0000_0100u32),
        spec_mq_gerudo_training_ground_2()[1] == researched("mq_oot_mq_gerudo_training_grounds_ice_arrows_chest", 0x0Bu8, FlagType::Chest, 0x0000_0200u32),
        spec_mq_gerudo_training_ground_2()[2] == researched("mq_oot_mq_gerudo_training_grounds_spinning_statue_chest", 0x0Bu8, FlagType::Chest, 0x0000_0400u32),
        spec_mq_gerudo_training_ground_2()[3] == researched("mq_oot_mq_gerudo_training_grounds_torch_slug_room_clear_chest", 0x0Bu8, FlagType::Chest, 0x0000_0800u32),
        spec_mq_gerudo_training_ground_2()[4] == researched("mq_oot_mq_gerudo_training_grounds_torch_slug_room_switch_chest", 0x0Bu8, FlagType::Chest, 0x0008_0000u32),
{
}

/// Every researched mapping of `spec_mq_gerudo_training_ground_2` is in the research.
proof fn lemma_in_known_mq_gerudo_training_ground_2(x: FlagMapping)
    requires
        spec_mq_gerudo_training_ground_2().contains(x),
    ensures
        spec_known_oot_mappings().contains(x),
{
    lemma_contains_in_sum(research_upto_55(), spec_mq_gerudo_training_ground_2(), x);
    lemma_upto_in_known_56(x);
}

/// The researched mappings of `spec_mq_ganon_s_castle`, one by one.
proof fn lemma_facts_mq_ganon_s_castle()
    ensures
        spec_mq_ganon_s_castle().len() == 12,
        spec_mq_ganon_s_castle()[0] == researched("mq_oot_mq_ganon_castle_light_trial_chest", 0x0Du8, FlagType::Chest, 0x0001_0000u32),
        spec_mq_ganon_s_castle()[1] == researched("mq_oot_mq_ganon_castle_forest_trial_first_chest", 0x0Du8, FlagType::Chest, 0x0000_0200u32),
        spec_mq_ganon_s_castle()[2] == researched("mq_oot_mq_ganon_castle_forest_trial_second_chest", 0x0Du8, FlagType::Chest, 0x0000_0001u32),
        spec_mq_ganon_s_castle()[3] == researched("mq_oot_mq_ganon_castle_water_trial_chest", 0x0Du8, FlagType::Chest, 0x0000_0080u32),
        spec_mq_ganon_s_castle()[4] == researched("mq_oot_mq_ganon_castle_spirit_trial_first_chest", 0x0Du8, FlagType::Chest, 0x0004_0000u32),
        spec_mq_ganon_s_castle()[5] == researched("mq_oot_mq_ganon_castle_spirit_trial_second_chest", 0x0Du8, FlagType::Chest, 0x0010_0000u32),
        spec_mq_ganon_s_castle()[6] == researched("mq_oot_mq_ganon_castle_spirit_trial_back_right_sun_chest", 0x0Du8, FlagType::Chest, 0x0000_0002u32),
        spec_mq_ganon_s_castle()[7] == researched("mq_oot_mq_ganon_castle_spirit_trial_back_left_sun_chest", 0x0Du8, FlagType::Chest, 0x0000_0004u32),
        spec_mq_ganon_s_castle()[8] == researched("mq_oot_mq_ganon_castle_spirit_trial_front_left_sun_chest", 0x0Du8, FlagType::Chest, 0x0000_0008u32),
        spec_mq_ganon_s_castle()[9] == researched("mq_oot_mq_ganon_castle_spirit_trial_gold_gauntlets_chest", 0x0Du8, FlagType::Chest, 0x0000_0010u32),
        spec_mq_ganon_s_castle()[10] == researched("mq_oot_mq_ganon_castle_shadow_trial_bomb_flower_chest", 0x0Du8, FlagType::Chest, 0x0000_0100u32),
        spec_mq_ganon_s_castle()[11] == researched("mq_oot_mq_ganon_castle_shadow_trial_switch_chest", 0x0Du8, FlagType::Chest, 0x0000_0020u32),
{
}

/// Every researched mapping of `spec_mq_ganon_s_castle` is in the research.
proof fn lemma_in_known_mq_ganon_s_castle(x: FlagMapping)
    requires
        spec_mq_ganon_s_castle().contains(x),
    ensures
        spec_known_oot_mappings().contains(x),
{
    lemma_contains_in_sum(research_upto_56(), spec_mq_ganon_s_castle(), x);
    lemma_upto_in_known_57(x);
}

/// Law: the researched OoT mappings hold each location's flag as the flag
/// research found it: the location, its scene, the kind of flag and the bit
/// within the flag word, fact by fact.
pub proof fn lemma_researched_oot_mappings()
    ensures
        spec_known_oot_mappings().contains(researched("oot_deku_tree_compass_room_side_chest", 0x00u8, FlagType::Chest, 0x0000_0040u32)),
        spec_known_oot_mappings().contains(researched("oot_deku_tree_slingshot_side_chest", 0x00u8, FlagType::Chest, 0x0000_0020u32)),
        spec_known_oot_mappings().contains(researched("oot_deku_tree_basement_chest", 0x00u8, FlagType::Chest, 0x0000_0010u32)),
        spec_known_oot_mappings().contains(researched("oot_deku_tree_map_chest", 0x00u8, FlagType::Chest, 0x0000_0008u32)),
        spec_known_oot_mappings().contains(researched("oot_deku_tree_compass_chest", 0x00u8, FlagType::Chest, 0x0000_0004u32)),
        spec_known_oot_mappings().contains(researched("oot_deku_tree_slingshot_chest", 0x00u8, FlagType::Chest, 0x0000_0002u32)),
        spec_known_oot_mappings().contains(researched("oot_dodongo_cavern_bridge_chest", 0x01u8, FlagType::Chest, 0x0000_0400u32)),
        spec_known_oot_mappings().contains(researched("oot_dodongo_cavern_map_chest", 0x01u8, FlagType::Chest, 0x0000_0100u32)),
        spec_known_oot_mappings().contains(researched("oot_dodongo_cavern_bomb_bag_side_chest", 0x01u8, FlagType::Chest, 0x0000_0040u32)),
        spec_known_oot_mappings().contains(researched("oot_dodongo_cavern_compass_chest", 0x01u8, FlagType::Chest, 0x0000_0020u32)),
        spec_known_oot_mappings().contains(researched("oot_dodongo_cavern_bomb_bag_chest", 0x01u8, FlagType::Chest, 0x0000_0010u32)),
        spec_known_oot_mappings().contains(researched("oot_jabu_jabu_compass_chest", 0x02u8, FlagType::Chest, 0x0000_0010u32)),
        spec_known_oot_mappings().contains(researched("oot_jabu_jabu_map_chest", 0x02u8, FlagType::Chest, 0x0000_0004u32)),
        spec_known_oot_mappings().contains(researched("oot_jabu_jabu_boomerang_chest", 0x02u8, FlagType::Chest, 0x0000_0002u32)),
        spec_known_oot_mappings().contains(researched("oot_forest_temple_compass", 0x03u8, FlagType::Chest, 0x0000_8000u32)),
        spec_known_oot_mappings().contains(researched("oot_forest_temple_boss_key", 0x03u8, FlagType::Chest, 0x0000_4000u32)),
        spec_known_oot_mappings().contains(researched("oot_forest_temple_poe_key", 0x03u8, FlagType::Chest, 0x0000_2000u32)),
        spec_known_oot_mappings().contains(researched("oot_forest_temple_bow", 0x03u8, FlagType::Chest, 0x0000_1000u32)),
        spec_known_oot_mappings().contains(researched("oot_forest_temple_checkerboard", 0x03u8, FlagType::Chest, 0x0000_0800u32)),
        spec_known_oot_mappings().contains(researched("oot_forest_temple_well", 0x03u8, FlagType::Chest, 0x0000_0200u32)),
        spec_known_oot_mappings().contains(researched("oot_forest_temple_antichamber", 0x03u8, FlagType::Chest, 0x0000_0080u32)),
        spec_known_oot_mappings().contains(researched("oot_forest_temple_garden", 0x03u8, FlagType::Chest, 0x0000_0020u32)),
        spec_known_oot_mappings().contains(researched("oot_forest_temple_maze", 0x03u8, FlagType::Chest, 0x0000_0010u32)),
        spec_known_oot_mappings().contains(researched("oot_forest_temple_tree_small_key", 0x03u8, FlagType::Chest, 0x0000_0008u32)),
        spec_known_oot_mappings().contains(researched("oot_forest_temple_floormaster", 0x03u8, FlagType::Chest, 0x0000_0004u32)),
        spec_known_oot_mappings().contains(researched("oot_forest_temple_map", 0x03u8, FlagType::Chest, 0x0000_0002u32)),
        spec_known_oot_mappings().contains(researched("oot_forest_temple_mini_boss_key", 0x03u8, FlagType::Chest, 0x0000_0001u32)),
        spec_known_oot_mappings().contains(researched("oot_fire_temple_scarecrow_chest", 0x04u8, FlagType::Chest, 0x0000_2000u32)),
        spec_known_oot_mappings().contains(researched("oot_fire_temple_boss_key_chest", 0x04u8, FlagType::Chest, 0x0000_1000u32)),
        spec_known_oot_mappings().contains(researched("oot_fire_temple_above_maze_chest", 0x04u8, FlagType::Chest, 0x0000_0800u32)),
        spec_known_oot_mappings().contains(researched("oot_fire_temple_lava_room_south_jail_chest", 0x04u8, FlagType::Chest, 0x0000_0400u32)),
        spec_known_oot_mappings().contains(researched("oot_fire_temple_jail_1_chest", 0x04u8, FlagType::Chest, 0x0000_0200u32)),
        spec_known_oot_mappings().contains(researched("oot_fire_temple_maze_jail_chest", 0x04u8, FlagType::Chest, 0x0000_0100u32)),
        spec_known_oot_mappings().contains(researched("oot_fire_temple_lava_room_north_jail_chest", 0x04u8, FlagType::Chest, 0x0000_0080u32)),
        spec_known_oot_mappings().contains(researched("oot_fire_temple_below_maze_chest", 0x04u8, FlagType::Chest, 0x0000_0040u32)),
        spec_known_oot_mappings().contains(researched("oot_fire_temple_maze_chest", 0x04u8, FlagType::Chest, 0x0000_0020u32)),
        spec_known_oot_mappings().contains(researched("oot_fire_temple_boss_key_side_chest", 0x04u8, FlagType::Chest, 0x0000_0010u32)),
        spec_known_oot_mappings().contains(researched("oot_water_temple_dragon_chest", 0x05u8, FlagType::Chest, 0x0000_0400u32)),
        spec_known_oot_mappings().contains(researched("oot_water_temple_shell_chest", 0x05u8, FlagType::Chest, 0x0000_0200u32)),
        spec_known_oot_mappings().contains(researched("oot_water_temple_corridor_chest", 0x05u8, FlagType::Chest, 0x0000_0100u32)),
        spec_known_oot_mappings().contains(researched("oot_water_temple_bombable_chest", 0x05u8, FlagType::Chest, 0x0000_0080u32)),
        spec_known_oot_mappings().contains(researched("oot_water_temple_boss_key_chest", 0x05u8, FlagType::Chest, 0x0000_0040u32)),
        spec_known_oot_mappings().contains(researched("oot_water_temple_river_chest", 0x05u8, FlagType::Chest, 0x0000_0008u32)),
        spec_known_oot_mappings().contains(researched("oot_spirit_temple_adult_invisible_1", 0x06u8, FlagType::Chest, 0x0020_0000u32)),
        spec_known_oot_mappings().contains(researched("oot_spirit_temple_adult_invisible_2", 0x06u8, FlagType::Chest, 0x0010_0000u32)),
        spec_known_oot_mappings().contains(researched("oot_spirit_temple_adult_topmost_sun_on_wall", 0x06u8, FlagType::Chest, 0x0004_0000u32)),
        spec_known_oot_mappings().contains(researched("oot_spirit_temple_statue_upper_right", 0x06u8, FlagType::Chest, 0x0000_8000u32)),
        spec_known_oot_mappings().contains(researched("oot_spirit_temple_adult_suns_on_wall_1", 0x06u8, FlagType::Chest, 0x0000_4000u32)),
        spec_known_oot_mappings().contains(researched("oot_spirit_temple_adult_suns_on_wall_2", 0x06u8, FlagType::Chest, 0x0000_2000u32)),
        spec_known_oot_mappings().contains(researched("oot_spirit_temple_child_climb_2", 0x06u8, FlagType::Chest, 0x0000_1000u32)),
        spec_known_oot_mappings().contains(researched("oot_spirit_temple_adult_boss_key_chest", 0x06u8, FlagType::Chest, 0x0000_0400u32)),
        spec_known_oot_mappings().contains(researched("oot_spirit_temple_child_second_chest", 0x06u8, FlagType::Chest, 0x0000_0100u32)),
        spec_known_oot_mappings().contains(researched("oot_spirit_temple_adult_lullaby", 0x06u8, FlagType::Chest, 0x0000_0080u32)),
        spec_known_oot_mappings().contains(researched("oot_spirit_temple_child_climb_1", 0x06u8, FlagType::Chest, 0x0000_0040u32)),
        spec_known_oot_mappings().contains(researched("oot_spirit_temple_statue_hands", 0x06u8, FlagType::Chest, 0x0000_0020u32)),
        spec_known_oot_mappings().contains(researched("oot_spirit_temple_adult_silver_rupees", 0x06u8, FlagType::Chest, 0x0000_0010u32)),
        spec_known_oot_mappings().contains(researched("oot_spirit_temple_statue_base", 0x06u8, FlagType::Chest, 0x0000_0008u32)),
        spec_known_oot_mappings().contains(researched("oot_spirit_temple_sun_block_room_torches", 0x06u8, FlagType::Chest, 0x0000_0004u32)),
        spec_known_oot_mappings().contains(researched("oot_spirit_temple_child_first_chest", 0x06u8, FlagType::Chest, 0x0000_0002u32)),
        spec_known_oot_mappings().contains(researched("oot_shadow_temple_spinning_blades_invisible", 0x07u8, FlagType::Chest, 0x0040_0000u32)),
        spec_known_oot_mappings().contains(researched("oot_shadow_temple_wind_room_hint", 0x07u8, FlagType::Chest, 0x0020_0000u32)),
        spec_known_oot_mappings().contains(researched("oot_shadow_temple_after_wind_invisible", 0x07u8, FlagType::Chest, 0x0010_0000u32)),
        spec_known_oot_mappings().contains(researched("oot_shadow_temple_invisible_floormaster", 0x07u8, FlagType::Chest, 0x0000_2000u32)),
        spec_known_oot_mappings().contains(researched("oot_shadow_temple_spinning_blades_visible", 0x07u8, FlagType::Chest, 0x0000_1000u32)),
        spec_known_oot_mappings().contains(researched("oot_shadow_temple_boss_key_room_2", 0x07u8, FlagType::Chest, 0x0000_0800u32)),
        spec_known_oot_mappings().contains(researched("oot_shadow_temple_boss_key_room_1", 0x07u8, FlagType::Chest, 0x0000_0400u32)),
        spec_known_oot_mappings().contains(researched("oot_shadow_temple_invisible_spike_room", 0x07u8, FlagType::Chest, 0x0000_0200u32)),
        spec_known_oot_mappings().contains(researched("oot_shadow_temple_after_wind", 0x07u8, FlagType::Chest, 0x0000_0100u32)),
        spec_known_oot_mappings().contains(researched("oot_shadow_temple_hover_boots", 0x07u8, FlagType::Chest, 0x0000_0080u32)),
        spec_known_oot_mappings().contains(researched("oot_shadow_temple_falling_spikes_upper_1", 0x07u8, FlagType::Chest, 0x0000_0040u32)),
        spec_known_oot_mappings().contains(researched("oot_shadow_temple_falling_spikes_lower", 0x07u8, FlagType::Chest, 0x0000_0020u32)),
        spec_known_oot_mappings().contains(researched("oot_shadow_temple_falling_spikes_upper_2", 0x07u8, FlagType::Chest, 0x0000_0010u32)),
        spec_known_oot_mappings().contains(researched("oot_shadow_temple_compass", 0x07u8, FlagType::Chest, 0x0000_0008u32)),
        spec_known_oot_mappings().contains(researched("oot_shadow_temple_silver_rupees", 0x07u8, FlagType::Chest, 0x0000_0004u32)),
        spec_known_oot_mappings().contains(researched("oot_shadow_temple_map", 0x07u8, FlagType::Chest, 0x0000_0002u32)),
        spec_known_oot_mappings().contains(researched("oot_bottom_of_the_well_blood_chest", 0x08u8, FlagType::Chest, 0x0010_0000u32)),
        spec_known_oot_mappings().contains(researched("oot_bottom_of_the_well_underwater_2", 0x08u8, FlagType::Chest, 0x0001_0000u32)),
        spec_known_oot_mappings().contains(researched("oot_bottom_of_the_well_east_cage", 0x08u8, FlagType::Chest, 0x0000_4000u32)),
        spec_known_oot_mappings().contains(researched("oot_bottom_of_the_well_pits", 0x08u8, FlagType::Chest, 0x0000_1000u32)),
        spec_known_oot_mappings().contains(researched("oot_bottom_of_the_well_east", 0x08u8, FlagType::Chest, 0x0000_0400u32)),
        spec_known_oot_mappings().contains(researched("oot_bottom_of_the_well_underwater", 0x08u8, FlagType::Chest, 0x0000_0200u32)),
        spec_known_oot_mappings().contains(researched("oot_bottom_of_the_well_front_west", 0x08u8, FlagType::Chest, 0x0000_0100u32)),
        spec_known_oot_mappings().contains(researched("oot_bottom_of_the_well_map", 0x08u8, FlagType::Chest, 0x0000_0080u32)),
        spec_known_oot_mappings().contains(researched("oot_bottom_of_the_well_back_west", 0x08u8, FlagType::Chest, 0x0000_0020u32)),
        spec_known_oot_mappings().contains(researched("oot_bottom_of_the_well_under_debris", 0x08u8, FlagType::Chest, 0x0000_0010u32)),
        spec_known_oot_mappings().contains(researched("oot_bottom_of_the_well_lens", 0x08u8, FlagType::Chest, 0x0000_0008u32)),
        spec_known_oot_mappings().contains(researched("oot_bottom_of_the_well_lens_side_chest", 0x08u8, FlagType::Chest, 0x0000_0004u32)),
        spec_known_oot_mappings().contains(researched("oot_bottom_of_the_well_compass", 0x08u8, FlagType::Chest, 0x0000_0002u32)),
        spec_known_oot_mappings().contains(researched("oot_ice_cavern_rupee_ice", 0x09u8, FlagType::Chest, 0x0000_0004u32)),
        spec_known_oot_mappings().contains(researched("oot_ice_cavern_compass", 0x09u8, FlagType::Chest, 0x0000_0002u32)),
        spec_known_oot_mappings().contains(researched("oot_ice_cavern_map", 0x09u8, FlagType::Chest, 0x0000_0001u32)),
        spec_known_oot_mappings().contains(researched("oot_gerudo_training_maze_chest_4", 0x0Bu8, FlagType::Chest, 0x0010_0000u32)),
        spec_known_oot_mappings().contains(researched("oot_gerudo_training_maze_side_chest_1", 0x0Bu8, FlagType::Chest, 0x0008_0000u32)),
        spec_known_oot_mappings().contains(researched("oot_gerudo_training_maze_chest_3", 0x0Bu8, FlagType::Chest, 0x0004_0000u32)),
        spec_known_oot_mappings().contains(researched("oot_gerudo_training_maze_chest_2", 0x0Bu8, FlagType::Chest, 0x0002_0000u32)),
        spec_known_oot_mappings().contains(researched("oot_gerudo_training_maze_side_chest_2", 0x0Bu8, FlagType::Chest, 0x0001_0000u32)),
        spec_known_oot_mappings().contains(researched("oot_gerudo_training_maze_chest_1", 0x0Bu8, FlagType::Chest, 0x0000_1000u32)),
        spec_known_oot_mappings().contains(researched("oot_dodongo_cavern_boss_chest", 0x12u8, FlagType::Chest, 0x0000_0001u32)),
        spec_known_oot_mappings().contains(researched("oot_ganon_castle_spirit_chest_2", 0x0Du8, FlagType::Chest, 0x0010_0000u32)),
        spec_known_oot_mappings().contains(researched("oot_ganon_castle_spirit_chest_1", 0x0Du8, FlagType::Chest, 0x0004_0000u32)),
        spec_known_oot_mappings().contains(researched("oot_ganon_castle_light_chest_lullaby", 0x0Du8, FlagType::Chest, 0x0002_0000u32)),
        spec_known_oot_mappings().contains(researched("oot_ganon_castle_light_chest_center", 0x0Du8, FlagType::Chest, 0x0001_0000u32)),
        spec_known_oot_mappings().contains(researched("oot_ganon_castle_light_chest_around_3", 0x0Du8, FlagType::Chest, 0x0000_8000u32)),
        spec_known_oot_mappings().contains(researched("oot_ganon_castle_light_chest_around_1", 0x0Du8, FlagType::Chest, 0x0000_4000u32)),
        spec_known_oot_mappings().contains(researched("oot_ganon_castle_light_chest_around_6", 0x0Du8, FlagType::Chest, 0x0000_2000u32)),
        spec_known_oot_mappings().contains(researched("oot_ganon_castle_light_chest_around_4", 0x0Du8, FlagType::Chest, 0x0000_1000u32)),
        spec_known_oot_mappings().contains(researched("oot_ganon_castle_light_chest_around_5", 0x0Du8, FlagType::Chest, 0x0000_0800u32)),
        spec_known_oot_mappings().contains(researched("oot_ganon_castle_light_chest_around_2", 0x0Du8, FlagType::Chest, 0x0000_0400u32)),
        spec_known_oot_mappings().contains(researched("oot_ganon_castle_forest_chest", 0x0Du8, FlagType::Chest, 0x0000_0200u32)),
        spec_known_oot_mappings().contains(researched("oot_ganon_castle_shadow_chest_1", 0x0Du8, FlagType::Chest, 0x0000_0100u32)),
        spec_known_oot_mappings().contains(researched("oot_ganon_castle_water_chest_1", 0x0Du8, FlagType::Chest, 0x0000_0080u32)),
        spec_known_oot_mappings().contains(researched("oot_ganon_castle_water_chest_2", 0x0Du8, FlagType::Chest, 0x0000_0040u32)),
        spec_known_oot_mappings().contains(researched("oot_ganon_castle_shadow_chest_2", 0x0Du8, FlagType::Chest, 0x0000_0020u32)),
        spec_known_oot_mappings().contains(researched("oot_treasure_chest_game_room_1_chest_left", 0x10u8, FlagType::Chest, 0x0000_0001u32)),
        spec_known_oot_mappings().contains(researched("oot_treasure_chest_game_room_1_chest_right", 0x10u8, FlagType::Chest, 0x0000_0002u32)),
        spec_known_oot_mappings().contains(researched("oot_treasure_chest_game_room_2_chest_left", 0x10u8, FlagType::Chest, 0x0000_0004u32)),
        spec_known_oot_mappings().contains(researched("oot_treasure_chest_game_room_2_chest_right", 0x10u8, FlagType::Chest, 0x0000_0008u32)),
        spec_known_oot_mappings().contains(researched("oot_treasure_chest_game_room_3_chest_left", 0x10u8, FlagType::Chest, 0x0000_0010u32)),
        spec_known_oot_mappings().contains(researched("oot_treasure_chest_game_room_3_chest_right", 0x10u8, FlagType::Chest, 0x0000_0020u32)),
        spec_known_oot_mappings().contains(researched("oot_treasure_chest_game_room_4_chest_left", 0x10u8, FlagType::Chest, 0x0000_0040u32)),
        spec_known_oot_mappings().contains(researched("oot_treasure_chest_game_room_4_chest_right", 0x10u8, FlagType::Chest, 0x0000_0080u32)),
        spec_known_oot_mappings().contains(researched("oot_treasure_chest_game_room_5_chest_left", 0x10u8, FlagType::Chest, 0x0000_0100u32)),
        spec_known_oot_mappings().contains(researched("oot_treasure_chest_game_room_5_chest_right", 0x10u8, FlagType::Chest, 0x0000_0200u32)),
        spec_known_oot_mappings().contains(researched("oot_treasure_chest_game_hp", 0x10u8, FlagType::Chest, 0x0000_0400u32)),
        spec_known_oot_mappings().contains(researched("oot_dmc_upper_grotto_chest", 0x3Eu8, FlagType::Chest, 0x0400_0000u32)),
        spec_known_oot_mappings().contains(researched("oot_dmt_storms_grotto_chest", 0x3Eu8, FlagType::Chest, 0x0040_0000u32)),
        spec_known_oot_mappings().contains(researched("oot_lw_near_shortcuts_grotto_chest", 0x3Eu8, FlagType::Chest, 0x0010_0000u32)),
        spec_known_oot_mappings().contains(researched("oot_sfm_wolfos_grotto_chest", 0x3Eu8, FlagType::Chest, 0x0002_0000u32)),
        spec_known_oot_mappings().contains(researched("oot_kf_storms_grotto_chest", 0x3Eu8, FlagType::Chest, 0x0000_1000u32)),
        spec_known_oot_mappings().contains(researched("oot_kak_redead_grotto_chest", 0x3Eu8, FlagType::Chest, 0x0000_0400u32)),
        spec_known_oot_mappings().contains(researched("oot_zr_open_grotto_chest", 0x3Eu8, FlagType::Chest, 0x0000_0200u32)),
        spec_known_oot_mappings().contains(researched("oot_kak_open_grotto_chest", 0x3Eu8, FlagType::Chest, 0x0000_0100u32)),
        spec_known_oot_mappings().contains(researched("oot_hf_open_grotto_chest", 0x3Eu8, FlagType::Chest, 0x0000_0008u32)),
        spec_known_oot_mappings().contains(researched("oot_hf_southeast_grotto_chest", 0x3Eu8, FlagType::Chest, 0x0000_0004u32)),
        spec_known_oot_mappings().contains(researched("oot_hf_near_market_grotto_chest", 0x3Eu8, FlagType::Chest, 0x0000_0001u32)),
        spec_known_oot_mappings().contains(researched("oot_graveyard_heart_piece_grave_chest", 0x3Fu8, FlagType::Chest, 0x0000_0001u32)),
        spec_known_oot_mappings().contains(researched("oot_graveyard_shield_grave_chest", 0x40u8, FlagType::Chest, 0x0000_0001u32)),
        spec_known_oot_mappings().contains(researched("oot_graveyard_royal_tomb_chest", 0x41u8, FlagType::Chest, 0x0000_0001u32)),
        spec_known_oot_mappings().contains(researched("oot_graveyard_hookshot_chest", 0x48u8, FlagType::Chest, 0x0000_0001u32)),
        spec_known_oot_mappings().contains(researched("oot_kokiri_forest_kokiri_sword_chest", 0x55u8, FlagType::Chest, 0x0000_0001u32)),
        spec_known_oot_mappings().contains(researched("oot_zora_domain_waterfall_chest", 0x58u8, FlagType::Chest, 0x0000_0001u32)),
        spec_known_oot_mappings().contains(researched("oot_gerudo_valley_chest", 0x5Au8, FlagType::Chest, 0x0000_0001u32)),
        spec_known_oot_mappings().contains(researched("oot_spirit_temple_silver_gauntlets", 0x5Cu8, FlagType::Chest, 0x0000_0800u32)),
        spec_known_oot_mappings().contains(researched("oot_spirit_temple_mirror_shield", 0x5Cu8, FlagType::Chest, 0x0000_0200u32)),
        spec_known_oot_mappings().contains(researched("oot_gerudo_fortress_chest", 0x5Du8, FlagType::Chest, 0x0000_0001u32)),
        spec_known_oot_mappings().contains(researched("oot_haunted_wasteland_chest", 0x5Eu8, FlagType::Chest, 0x0000_0001u32)),
        spec_known_oot_mappings().contains(researched("oot_death_mountain_trail_chest", 0x60u8, FlagType::Chest, 0x0000_0002u32)),
        spec_known_oot_mappings().contains(researched("oot_deku_tree_gs_compass", 0x00u8, FlagType::GoldSkulltula, 0x01u32)),
        spec_known_oot_mappings().contains(researched("oot_deku_tree_gs_basement_gate", 0x00u8, FlagType::GoldSkulltula, 0x02u32)),
        spec_known_oot_mappings().contains(researched("oot_deku_tree_gs_basement_vines", 0x00u8, FlagType::GoldSkulltula, 0x04u32)),
        spec_known_oot_mappings().contains(researched("oot_deku_tree_gs_basement_back_room", 0x00u8, FlagType::GoldSkulltula, 0x08u32)),
        spec_known_oot_mappings().contains(researched("oot_dodongo_cavern_gs_side_room", 0x01u8, FlagType::GoldSkulltula, 0x01u32)),
        spec_known_oot_mappings().contains(researched("oot_dodongo_cavern_gs_stairs_vines", 0x01u8, FlagType::GoldSkulltula, 0x02u32)),
        spec_known_oot_mappings().contains(researched("oot_dodongo_cavern_gs_stairs_top", 0x01u8, FlagType::GoldSkulltula, 0x04u32)),
        spec_known_oot_mappings().contains(researched("oot_dodongo_cavern_gs_scarecrow", 0x01u8, FlagType::GoldSkulltula, 0x08u32)),
        spec_known_oot_mappings().contains(researched("oot_dodongo_cavern_gs_near_boss", 0x01u8, FlagType::GoldSkulltula, 0x10u32)),
        spec_known_oot_mappings().contains(researched("oot_jabu_jabu_gs_bottom_lower", 0x02u8, FlagType::GoldSkulltula, 0x01u32)),
        spec_known_oot_mappings().contains(researched("oot_jabu_jabu_gs_bottom_upper", 0x02u8, FlagType::GoldSkulltula, 0x02u32)),
        spec_known_oot_mappings().contains(researched("oot_jabu_jabu_gs_water_switch", 0x02u8, FlagType::GoldSkulltula, 0x04u32)),
        spec_known_oot_mappings().contains(researched("oot_jabu_jabu_gs_near_boss", 0x02u8, FlagType::GoldSkulltula, 0x08u32)),
        spec_known_oot_mappings().contains(researched("oot_forest_temple_gs_entrance", 0x03u8, FlagType::GoldSkulltula, 0x01u32)),
        spec_known_oot_mappings().contains(researched("oot_forest_temple_gs_main", 0x03u8, FlagType::GoldSkulltula, 0x02u32)),
        spec_known_oot_mappings().contains(researched("oot_forest_temple_gs_garden_west", 0x03u8, FlagType::GoldSkulltula, 0x04u32)),
        spec_known_oot_mappings().contains(researched("oot_forest_temple_gs_garden_east", 0x03u8, FlagType::GoldSkulltula, 0x08u32)),
        spec_known_oot_mappings().contains(researched("oot_forest_temple_gs_antichamber", 0x03u8, FlagType::GoldSkulltula, 0x10u32)),
        spec_known_oot_mappings().contains(researched("oot_fire_temple_gs_hammer_statues", 0x04u8, FlagType::GoldSkulltula, 0x01u32)),
        spec_known_oot_mappings().contains(researched("oot_fire_temple_gs_lava_side_room", 0x04u8, FlagType::GoldSkulltula, 0x02u32)),
        spec_known_oot_mappings().contains(researched("oot_fire_temple_gs_maze", 0x04u8, FlagType::GoldSkulltula, 0x04u32)),
        spec_known_oot_mappings().contains(researched("oot_fire_temple_gs_scarecrow_wall", 0x04u8, FlagType::GoldSkulltula, 0x08u32)),
        spec_known_oot_mappings().contains(researched("oot_fire_temple_gs_scarecrow_top", 0x04u8, FlagType::GoldSkulltula, 0x10u32)),
        spec_known_oot_mappings().contains(researched("oot_water_temple_gs_center", 0x05u8, FlagType::GoldSkulltula, 0x01u32)),
        spec_known_oot_mappings().contains(researched("oot_water_temple_gs_waterfalls", 0x05u8, FlagType::GoldSkulltula, 0x02u32)),
        spec_known_oot_mappings().contains(researched("oot_water_temple_gs_large_pit", 0x05u8, FlagType::GoldSkulltula, 0x04u32)),
        spec_known_oot_mappings().contains(researched("oot_water_temple_gs_river", 0x05u8, FlagType::GoldSkulltula, 0x08u32)),
        spec_known_oot_mappings().contains(researched("oot_water_temple_gs_cage", 0x05u8, FlagType::GoldSkulltula, 0x10u32)),
        spec_known_oot_mappings().contains(researched("oot_spirit_temple_gs_child_fence", 0x06u8, FlagType::GoldSkulltula, 0x01u32)),
        spec_known_oot_mappings().contains(researched("oot_spirit_temple_gs_child_climb", 0x06u8, FlagType::GoldSkulltula, 0x02u32)),
        spec_known_oot_mappings().contains(researched("oot_spirit_temple_gs_iron_knuckle", 0x06u8, FlagType::GoldSkulltula, 0x04u32)),
        spec_known_oot_mappings().contains(researched("oot_spirit_temple_gs_boulders", 0x06u8, FlagType::GoldSkulltula, 0x08u32)),
        spec_known_oot_mappings().contains(researched("oot_spirit_temple_gs_statue", 0x06u8, FlagType::GoldSkulltula, 0x10u32)),
        spec_known_oot_mappings().contains(researched("oot_shadow_temple_gs_invisible_scythe", 0x07u8, FlagType::GoldSkulltula, 0x01u32)),
        spec_known_oot_mappings().contains(researched("oot_shadow_temple_gs_falling_spikes", 0x07u8, FlagType::GoldSkulltula, 0x02u32)),
        spec_known_oot_mappings().contains(researched("oot_shadow_temple_gs_skull_pot", 0x07u8, FlagType::GoldSkulltula, 0x04u32)),
        spec_known_oot_mappings().contains(researched("oot_shadow_temple_gs_near_boat", 0x07u8, FlagType::GoldSkulltula, 0x08u32)),
        spec_known_oot_mappings().contains(researched("oot_shadow_temple_gs_triple_skull_pot", 0x07u8, FlagType::GoldSkulltula, 0x10u32)),
        spec_known_oot_mappings().contains(researched("oot_bottom_of_the_well_gs_east_cage", 0x08u8, FlagType::GoldSkulltula, 0x01u32)),
        spec_known_oot_mappings().contains(researched("oot_bottom_of_the_well_gs_inner_west", 0x08u8, FlagType::GoldSkulltula, 0x02u32)),
        spec_known_oot_mappings().contains(researched("oot_bottom_of_the_well_gs_inner_east", 0x08u8, FlagType::GoldSkulltula, 0x04u32)),
        spec_known_oot_mappings().contains(researched("oot_ice_cavern_gs_scythe_room", 0x09u8, FlagType::GoldSkulltula, 0x01u32)),
        spec_known_oot_mappings().contains(researched("oot_ice_cavern_gs_hp_room", 0x09u8, FlagType::GoldSkulltula, 0x02u32)),
        spec_known_oot_mappings().contains(researched("oot_ice_cavern_gs_block_room", 0x09u8, FlagType::GoldSkulltula, 0x04u32)),
        spec_known_oot_mappings().contains(researched("oot_hyrule_castle_gs_tree", 0x5Fu8, FlagType::GoldSkulltula, 0x01u32)),
        spec_known_oot_mappings().contains(researched("oot_hyrule_castle_gs_grotto", 0x5Fu8, FlagType::GoldSkulltula, 0x02u32)),
        spec_known_oot_mappings().contains(researched("oot_kakariko_gs_shooting_gallery", 0x52u8, FlagType::GoldSkulltula, 0x01u32)),
        spec_known_oot_mappings().contains(researched("oot_kakariko_gs_tree", 0x52u8, FlagType::GoldSkulltula, 0x02u32)),
        spec_known_oot_mappings().contains(researched("oot_kakariko_gs_house_of_skulltula", 0x52u8, FlagType::GoldSkulltula, 0x04u32)),
        spec_known_oot_mappings().contains(researched("oot_kakariko_gs_bazaar", 0x52u8, FlagType::GoldSkulltula, 0x08u32)),
        spec_known_oot_mappings().contains(researched("oot_kakariko_gs_ladder", 0x52u8, FlagType::GoldSkulltula, 0x10u32)),
        spec_known_oot_mappings().contains(researched("oot_kakariko_gs_roof", 0x52u8, FlagType::GoldSkulltula, 0x20u32)),
        spec_known_oot_mappings().contains(researched("oot_graveyard_gs_soil", 0x53u8, FlagType::GoldSkulltula, 0x01u32)),
        spec_known_oot_mappings().contains(researched("oot_graveyard_gs_wall", 0x53u8, FlagType::GoldSkulltula, 0x02u32)),
        spec_known_oot_mappings().contains(researched("oot_death_mountain_trail_gs_entrance", 0x60u8, FlagType::GoldSkulltula, 0x01u32)),
        spec_known_oot_mappings().contains(researched("oot_death_mountain_trail_gs_soil", 0x60u8, FlagType::GoldSkulltula, 0x02u32)),
        spec_known_oot_mappings().contains(researched("oot_death_mountain_trail_gs_above_dodongo", 0x60u8, FlagType::GoldSkulltula, 0x04u32)),
        spec_known_oot_mappings().contains(researched("oot_death_mountain_trail_gs_before_climb", 0x60u8, FlagType::GoldSkulltula, 0x08u32)),
        spec_known_oot_mappings().contains(researched("oot_death_mountain_crater_gs_crate", 0x61u8, FlagType::GoldSkulltula, 0x01u32)),
        spec_known_oot_mappings().contains(researched("oot_death_mountain_crater_gs_soil", 0x61u8, FlagType::GoldSkulltula, 0x02u32)),
        spec_known_oot_mappings().contains(researched("oot_goron_city_gs_platform", 0x62u8, FlagType::GoldSkulltula, 0x01u32)),
        spec_known_oot_mappings().contains(researched("oot_goron_city_gs_maze", 0x62u8, FlagType::GoldSkulltula, 0x02u32)),
        spec_known_oot_mappings().contains(researched("oot_kokiri_forest_gs_soil", 0x55u8, FlagType::GoldSkulltula, 0x01u32)),
        spec_known_oot_mappings().contains(researched("oot_kokiri_forest_gs_night_adult", 0x55u8, FlagType::GoldSkulltula, 0x02u32)),
        spec_known_oot_mappings().contains(researched("oot_kokiri_forest_gs_night_child", 0x55u8, FlagType::GoldSkulltula, 0x04u32)),
        spec_known_oot_mappings().contains(researched("oot_lost_woods_gs_soil_bridge", 0x5Bu8, FlagType::GoldSkulltula, 0x01u32)),
        spec_known_oot_mappings().contains(researched("oot_lost_woods_gs_soil_theater", 0x5Bu8, FlagType::GoldSkulltula, 0x02u32)),
        spec_known_oot_mappings().contains(researched("oot_lost_woods_gs_bean_ride", 0x5Bu8, FlagType::GoldSkulltula, 0x04u32)),
        spec_known_oot_mappings().contains(researched("oot_sacred_meadow_gs_night_adult", 0x56u8, FlagType::GoldSkulltula, 0x01u32)),
        spec_known_oot_mappings().contains(researched("oot_lake_hylia_gs_lab_wall", 0x57u8, FlagType::GoldSkulltula, 0x01u32)),
        spec_known_oot_mappings().contains(researched("oot_lake_hylia_gs_island", 0x57u8, FlagType::GoldSkulltula, 0x02u32)),
        spec_known_oot_mappings().contains(researched("oot_lake_hylia_gs_soil", 0x57u8, FlagType::GoldSkulltula, 0x04u32)),
        spec_known_oot_mappings().contains(researched("oot_lake_hylia_gs_big_tree", 0x57u8, FlagType::GoldSkulltula, 0x08u32)),
        spec_known_oot_mappings().contains(researched("oot_laboratory_gs_crate", 0x38u8, FlagType::GoldSkulltula, 0x01u32)),
        spec_known_oot_mappings().contains(researched("oot_zora_river_gs_tree", 0x54u8, FlagType::GoldSkulltula, 0x01u32)),
        spec_known_oot_mappings().contains(researched("oot_zora_river_gs_ladder", 0x54u8, FlagType::GoldSkulltula, 0x02u32)),
        spec_known_oot_mappings().contains(researched("oot_zora_river_gs_near_grotto", 0x54u8, FlagType::GoldSkulltula, 0x04u32)),
        spec_known_oot_mappings().contains(researched("oot_zora_river_gs_near_bridge", 0x54u8, FlagType::GoldSkulltula, 0x08u32)),
        spec_known_oot_mappings().contains(researched("oot_zora_domain_gs_waterfall", 0x58u8, FlagType::GoldSkulltula, 0x01u32)),
        spec_known_oot_mappings().contains(researched("oot_zora_fountain_gs_wall", 0x59u8, FlagType::GoldSkulltula, 0x01u32)),
        spec_known_oot_mappings().contains(researched("oot_zora_fountain_gs_tree", 0x59u8, FlagType::GoldSkulltula, 0x02u32)),
        spec_known_oot_mappings().contains(researched("oot_zora_fountain_gs_upper", 0x59u8, FlagType::GoldSkulltula, 0x04u32)),
        spec_known_oot_mappings().contains(researched("oot_gerudo_valley_gs_soil", 0x5Au8, FlagType::GoldSkulltula, 0x01u32)),
        spec_known_oot_mappings().contains(researched("oot_gerudo_valley_gs_wall", 0x5Au8, FlagType::GoldSkulltula, 0x02u32)),
        spec_known_oot_mappings().contains(researched("oot_gerudo_valley_gs_tent", 0x5Au8, FlagType::GoldSkulltula, 0x04u32)),
        spec_known_oot_mappings().contains(researched("oot_gerudo_valley_gs_pillar", 0x5Au8, FlagType::GoldSkulltula, 0x08u32)),
        spec_known_oot_mappings().contains(researched("oot_gerudo_fortress_gs_target", 0x5Du8, FlagType::GoldSkulltula, 0x01u32)),
        spec_known_oot_mappings().contains(researched("oot_gerudo_fortress_gs_wall", 0x5Du8, FlagType::GoldSkulltula, 0x02u32)),
        spec_known_oot_mappings().contains(researched("oot_desert_colossus_gs_soil", 0x5Cu8, FlagType::GoldSkulltula, 0x01u32)),
        spec_known_oot_mappings().contains(researched("oot_desert_colossus_gs_tree", 0x5Cu8, FlagType::GoldSkulltula, 0x02u32)),
        spec_known_oot_mappings().contains(researched("oot_desert_colossus_gs_plateau", 0x5Cu8, FlagType::GoldSkulltula, 0x04u32)),
        spec_known_oot_mappings().contains(researched("oot_lon_lon_ranch_gs_tree", 0x63u8, FlagType::GoldSkulltula, 0x01u32)),
        spec_known_oot_mappings().contains(researched("oot_lon_lon_ranch_gs_house", 0x63u8, FlagType::GoldSkulltula, 0x02u32)),
        spec_known_oot_mappings().contains(researched("oot_lon_lon_ranch_gs_rain_shed", 0x63u8, FlagType::GoldSkulltula, 0x04u32)),
        spec_known_oot_mappings().contains(researched("oot_lon_lon_ranch_gs_back_wall", 0x63u8, FlagType::GoldSkulltula, 0x08u32)),
        spec_known_oot_mappings().contains(researched("oot_ice_cavern_hp", 0x09u8, FlagType::Collectible, 0x0000_0002u32)),
        spec_known_oot_mappings().contains(researched("oot_kakariko_impa_house_hp", 0x37u8, FlagType::Collectible, 0x0000_0002u32)),
        spec_known_oot_mappings().contains(researched("oot_windmill_hp", 0x48u8, FlagType::Collectible, 0x0000_0002u32)),
        spec_known_oot_mappings().contains(researched("oot_lon_lon_ranch_silo_hp", 0x4Cu8, FlagType::Collectible, 0x0000_0002u32)),
        spec_known_oot_mappings().contains(researched("oot_graveyard_crate_hp", 0x53u8, FlagType::Collectible, 0x0000_0010u32)),
        spec_known_oot_mappings().contains(researched("oot_zora_river_hp_pillar", 0x54u8, FlagType::Collectible, 0x0000_0800u32)),
        spec_known_oot_mappings().contains(researched("oot_zora_river_hp_platform", 0x54u8, FlagType::Collectible, 0x0000_0010u32)),
        spec_known_oot_mappings().contains(researched("oot_lake_hylia_hp", 0x57u8, FlagType::Collectible, 0x4000_0000u32)),
        spec_known_oot_mappings().contains(researched("oot_zora_fountain_iceberg_hp", 0x59u8, FlagType::Collectible, 0x0000_0002u32)),
        spec_known_oot_mappings().contains(researched("oot_zora_fountain_bottom_hp", 0x59u8, FlagType::Collectible, 0x0010_0000u32)),
        spec_known_oot_mappings().contains(researched("oot_gerudo_valley_crate_hp", 0x5Au8, FlagType::Collectible, 0x0000_0004u32)),
        spec_known_oot_mappings().contains(researched("oot_gerudo_valley_waterfall_hp", 0x5Au8, FlagType::Collectible, 0x0000_0002u32)),
        spec_known_oot_mappings().contains(researched("oot_desert_colossus_hp", 0x5Cu8, FlagType::Collectible, 0x0000_2000u32)),
        spec_known_oot_mappings().contains(researched("oot_death_mountain_trail_hp", 0x60u8, FlagType::Collectible, 0x4000_0000u32)),
        spec_known_oot_mappings().contains(researched("oot_death_mountain_crater_volcano_hp", 0x61u8, FlagType::Collectible, 0x0000_0100u32)),
        spec_known_oot_mappings().contains(researched("oot_death_mountain_crater_alcove_hp", 0x61u8, FlagType::Collectible, 0x0000_0004u32)),
        spec_known_oot_mappings().contains(researched("oot_goron_city_big_pot_hp", 0x62u8, FlagType::Collectible, 0x8000_0000u32)),
        spec_known_oot_mappings().contains(researched("oot_hyrule_field_grotto_tektite_hp", 0x3Eu8, FlagType::Collectible, 0x0000_0002u32)),
        spec_known_oot_mappings().contains(researched("mq_oot_mq_deku_tree_map_chest", 0x00u8, FlagType::Chest, 0x0000_0001u32)),
        spec_known_oot_mappings().contains(researched("mq_oot_mq_deku_tree_compass_chest", 0x00u8, FlagType::Chest, 0x0000_0002u32)),
        spec_known_oot_mappings().contains(researched("mq_oot_mq_deku_tree_slingshot_chest", 0x00u8, FlagType::Chest, 0x0000_0008u32)),
        spec_known_oot_mappings().contains(researched("mq_oot_mq_deku_tree_slingshot_room_far_chest", 0x00u8, FlagType::Chest, 0x0000_0010u32)),
        spec_known_oot_mappings().contains(researched("mq_oot_mq_deku_tree_basement_chest", 0x00u8, FlagType::Chest, 0x0000_0004u32)),
        spec_known_oot_mappings().contains(researched("mq_oot_mq_deku_tree_before_water_platform_chest", 0x00u8, FlagType::Chest, 0x0000_0020u32)),
        spec_known_oot_mappings().contains(researched("mq_oot_mq_deku_tree_after_water_platform_chest", 0x00u8, FlagType::Chest, 0x0000_0040u32)),
        spec_known_oot_mappings().contains(researched("mq_oot_mq_deku_tree_gs_lobby_crate", 0x00u8, FlagType::GoldSkulltula, 0x01u32)),
        spec_known_oot_mappings().contains(researched("mq_oot_mq_deku_tree_gs_compass_room", 0x00u8, FlagType::GoldSkulltula, 0x02u32)),
        spec_known_oot_mappings().contains(researched("mq_oot_mq_deku_tree_gs_song_of_time_blocks", 0x00u8, FlagType::GoldSkulltula, 0x04u32)),
        spec_known_oot_mappings().contains(researched("mq_oot_mq_deku_tree_gs_back_room", 0x00u8, FlagType::GoldSkulltula, 0x08u32)),
        spec_known_oot_mappings().contains(researched("mq_oot_mq_dodongo_cavern_map_chest", 0x01u8, FlagType::Chest, 0x0000_0001u32)),
        spec_known_oot_mappings().contains(researched("mq_oot_mq_dodongo_cavern_compass_chest", 0x01u8, FlagType::Chest, 0x0000_0020u32)),
        spec_known_oot_mappings().contains(researched("mq_oot_mq_dodongo_cavern_bomb_bag_chest", 0x01u8, FlagType::Chest, 0x0000_0010u32)),
        spec_known_oot_mappings().contains(researched("mq_oot_mq_dodongo_cavern_larvae_room_chest", 0x01u8, FlagType::Chest, 0x0000_0002u32)),
        spec_known_oot_mappings().contains(researched("mq_oot_mq_dodongo_cavern_upper_ledge_chest", 0x01u8, FlagType::Chest, 0x0000_0040u32)),
        spec_known_oot_mappings().contains(researched("mq_oot_mq_dodongo_cavern_chest_under_grave", 0x01u8, FlagType::Chest, 0x0000_0004u32)),
        spec_known_oot_mappings().contains(researched("mq_oot_mq_dodongo_cavern_gs_time_blocks", 0x01u8, FlagType::GoldSkulltula, 0x01u32)),
        spec_known_oot_mappings().contains(researched("mq_oot_mq_dodongo_cavern_gs_larve_room", 0x01u8, FlagType::GoldSkulltula, 0x02u32)),
        spec_known_oot_mappings().contains(researched("mq_oot_mq_dodongo_cavern_gs_upper_lizalfos", 0x01u8, FlagType::GoldSkulltula, 0x04u32)),
        spec_known_oot_mappings().contains(researched("mq_oot_mq_dodongo_cavern_gs_poe_room_side", 0x01u8, FlagType::GoldSkulltula, 0x08u32)),
        spec_known_oot_mappings().contains(researched("mq_oot_mq_dodongo_cavern_gs_near_boss", 0x01u8, FlagType::GoldSkulltula, 0x10u32)),
        spec_known_oot_mappings().contains(researched("mq_oot_mq_jabu_jabu_map_chest", 0x02u8, FlagType::Chest, 0x0000_0001u32)),
        spec_known_oot_mappings().contains(researched("mq_oot_mq_jabu_jabu_entry_chest", 0x02u8, FlagType::Chest, 0x0000_0080u32)),
        spec_known_oot_mappings().contains(researched("mq_oot_mq_jabu_jabu_second_room_b1_chest", 0x02u8, FlagType::Chest, 0x0000_0002u32)),
        spec_known_oot_mappings().contains(researched("mq_oot_mq_jabu_jabu_compass_chest", 0x02u8, FlagType::Chest, 0x0000_0008u32)),
        spec_known_oot_mappings().contains(researched("mq_oot_mq_jabu_jabu_second_room_1f_chest", 0x02u8, FlagType::Chest, 0x0000_0100u32)),
        spec_known_oot_mappings().contains(researched("mq_oot_mq_jabu_jabu_third_room_west_chest", 0x02u8, FlagType::Chest, 0x0000_0200u32)),
        spec_known_oot_mappings().contains(researched("mq_oot_mq_jabu_jabu_third_room_east_chest", 0x02u8, FlagType::Chest, 0x0000_0400u32)),
        spec_known_oot_mappings().contains(researched("mq_oot_mq_jabu_jabu_boomerang_chest", 0x02u8, FlagType::Chest, 0x0000_0004u32)),
        spec_known_oot_mappings().contains(researched("mq_oot_mq_jabu_jabu_sot_room_lower_chest", 0x02u8, FlagType::Chest, 0x0000_0800u32)),
        spec_known_oot_mappings().contains(researched("mq_oot_mq_jabu_jabu_back_chest", 0x02u8, FlagType::Chest, 0x0000_0020u32)),
        spec_known_oot_mappings().contains(researched("mq_oot_mq_jabu_jabu_pre_boss_chest", 0x02u8, FlagType::Chest, 0x0000_0040u32)),
        spec_known_oot_mappings().contains(researched("mq_oot_mq_jabu_jabu_gs_sot_block", 0x02u8, FlagType::GoldSkulltula, 0x01u32)),
        spec_known_oot_mappings().contains(researched("mq_oot_mq_jabu_jabu_gs_back", 0x02u8, FlagType::GoldSkulltula, 0x02u32)),
        spec_known_oot_mappings().contains(researched("mq_oot_mq_jabu_jabu_gs_basement_side_room", 0x02u8, FlagType::GoldSkulltula, 0x04u32)),
        spec_known_oot_mappings().contains(researched("mq_oot_mq_jabu_jabu_gs_pre_boss", 0x02u8, FlagType::GoldSkulltula, 0x08u32)),
        spec_known_oot_mappings().contains(researched("mq_oot_mq_forest_temple_first_room_chest", 0x03u8, FlagType::Chest, 0x0000_0008u32)),
        spec_known_oot_mappings().contains(researched("mq_oot_mq_forest_temple_wolfos_chest", 0x03u8, FlagType::Chest, 0x0000_0001u32)),
        spec_known_oot_mappings().contains(researched("mq_oot_mq_forest_temple_boss_key_chest", 0x03u8, FlagType::Chest, 0x0000_4000u32)),
        spec_known_oot_mappings().contains(researched("mq_oot_mq_forest_temple_redead_chest", 0x03u8, FlagType::Chest, 0x0000_0004u32)),
        spec_known_oot_mappings().contains(researched("mq_oot_mq_forest_temple_well_chest", 0x03u8, FlagType::Chest, 0x0000_0200u32)),
        spec_known_oot_mappings().contains(researched("mq_oot_mq_forest_temple_east_garden_high_ledge_chest", 0x03u8, FlagType::Chest, 0x0000_0010u32)),
        spec_known_oot_mappings().contains(researched("mq_oot_mq_forest_temple_east_garden_ledge_chest", 0x03u8, FlagType::Chest, 0x0000_0020u32)),
        spec_known_oot_mappings().contains(researched("mq_oot_mq_forest_temple_map_chest", 0x03u8, FlagType::Chest, 0x0000_0002u32)),
        spec_known_oot_mappings().contains(researched("mq_oot_mq_forest_temple_bow_chest", 0x03u8, FlagType::Chest, 0x0000_1000u32)),
        spec_known_oot_mappings().contains(researched("mq_oot_mq_forest_temple_compass_chest", 0x03u8, FlagType::Chest, 0x0000_8000u32)),
        spec_known_oot_mappings().contains(researched("mq_oot_mq_forest_temple_falling_ceiling_chest", 0x03u8, FlagType::Chest, 0x0000_0040u32)),
        spec_known_oot_mappings().contains(researched("mq_oot_mq_forest_temple_gs_entryway", 0x03u8, FlagType::GoldSkulltula, 0x01u32)),
        spec_known_oot_mappings().contains(researched("mq_oot_mq_forest_temple_gs_climb_room", 0x03u8, FlagType::GoldSkulltula, 0x02u32)),
        spec_known_oot_mappings().contains(researched("mq_oot_mq_forest_temple_gs_west_garden", 0x03u8, FlagType::GoldSkulltula, 0x04u32)),
        spec_known_oot_mappings().contains(researched("mq_oot_mq_forest_temple_gs_east_garden", 0x03u8, FlagType::GoldSkulltula, 0x08u32)),
        spec_known_oot_mappings().contains(researched("mq_oot_mq_forest_temple_gs_well", 0x03u8, FlagType::GoldSkulltula, 0x10u32)),
        spec_known_oot_mappings().contains(researched("mq_oot_mq_fire_temple_early_lower_left_chest", 0x04u8, FlagType::Chest, 0x0000_0001u32)),
        spec_known_oot_mappings().contains(researched("mq_oot_mq_fire_temple_map_chest", 0x04u8, FlagType::Chest, 0x0000_0002u32)),
        spec_known_oot_mappings().contains(researched("mq_oot_mq_fire_temple_pre_boss_chest", 0x04u8, FlagType::Chest, 0x0000_0080u32)),
        spec_known_oot_mappings().contains(researched("mq_oot_mq_fire_temple_hammer_chest", 0x04u8, FlagType::Chest, 0x0000_0008u32)),
        spec_known_oot_mappings().contains(researched("mq_oot_mq_fire_temple_boss_key_chest", 0x04u8, FlagType::Chest, 0x0000_1000u32)),
        spec_known_oot_mappings().contains(researched("mq_oot_mq_fire_temple_1f_lava_room_goron_chest", 0x04u8, FlagType::Chest, 0x0000_0004u32)),
        spec_known_oot_mappings().contains(researched("mq_oot_mq_fire_temple_compass_chest", 0x04u8, FlagType::Chest, 0x0000_0040u32)),
        spec_known_oot_mappings().contains(researched("mq_oot_mq_fire_temple_maze_lower_chest", 0x04u8, FlagType::Chest, 0x0000_0010u32)),
        spec_known_oot_mappings().contains(researched("mq_oot_mq_fire_temple_maze_upper_chest", 0x04u8, FlagType::Chest, 0x0000_0020u32)),
        spec_known_oot_mappings().contains(researched("mq_oot_mq_fire_temple_maze_side_room_chest", 0x04u8, FlagType::Chest, 0x0000_0100u32)),
        spec_known_oot_mappings().contains(researched("mq_oot_mq_fire_temple_topmost_chest", 0x04u8, FlagType::Chest, 0x0000_2000u32)),
        spec_known_oot_mappings().contains(researched("mq_oot_mq_fire_temple_gs_1f_lava_room", 0x04u8, FlagType::GoldSkulltula, 0x01u32)),
        spec_known_oot_mappings().contains(researched("mq_oot_mq_fire_temple_gs_burning_block", 0x04u8, FlagType::GoldSkulltula, 0x02u32)),
        spec_known_oot_mappings().contains(researched("mq_oot_mq_fire_temple_gs_fire_walls_side_room", 0x04u8, FlagType::GoldSkulltula, 0x04u32)),
        spec_known_oot_mappings().contains(researched("mq_oot_mq_fire_temple_gs_fire_walls_middle", 0x04u8, FlagType::GoldSkulltula, 0x08u32)),
        spec_known_oot_mappings().contains(researched("mq_oot_mq_fire_temple_gs_topmost", 0x04u8, FlagType::GoldSkulltula, 0x10u32)),
        spec_known_oot_mappings().contains(researched("mq_oot_mq_water_temple_compass_chest", 0x05u8, FlagType::Chest, 0x0000_0001u32)),
        spec_known_oot_mappings().contains(researched("mq_oot_mq_water_temple_longshot_chest", 0x05u8, FlagType::Chest, 0x0000_0002u32)),
        spec_known_oot_mappings().contains(researched("mq_oot_mq_water_temple_map_chest", 0x05u8, FlagType::Chest, 0x0000_0004u32)),
        spec_known_oot_mappings().contains(researched("mq_oot_mq_water_temple_boss_key_chest", 0x05u8, FlagType::Chest, 0x0000_0040u32)),
        spec_known_oot_mappings().contains(researched("mq_oot_mq_water_temple_central_pillar_chest", 0x05u8, FlagType::Chest, 0x0000_0020u32)),
        spec_known_oot_mappings().contains(researched("mq_oot_mq_water_temple_gs_river", 0x05u8, FlagType::GoldSkulltula, 0x01u32)),
        spec_known_oot_mappings().contains(researched("mq_oot_mq_water_temple_gs_three_torch", 0x05u8, FlagType::GoldSkulltula, 0x02u32)),
        spec_known_oot_mappings().contains(researched("mq_oot_mq_water_temple_gs_side_loop", 0x05u8, FlagType::GoldSkulltula, 0x04u32)),
        spec_known_oot_mappings().contains(researched("mq_oot_mq_water_temple_gs_lizalfos_hallway", 0x05u8, FlagType::GoldSkulltula, 0x08u32)),
        spec_known_oot_mappings().contains(researched("mq_oot_mq_water_temple_gs_high_water_changer", 0x05u8, FlagType::GoldSkulltula, 0x10u32)),
        spec_known_oot_mappings().contains(researched("mq_oot_mq_spirit_temple_entrance_initial_chest", 0x06u8, FlagType::Chest, 0x0000_0001u32)),
        spec_known_oot_mappings().contains(researched("mq_oot_mq_spirit_temple_lobby_back_left_chest", 0x06u8, FlagType::Chest, 0x0000_0002u32)),
        spec_known_oot_mappings().contains(researched("mq_oot_mq_spirit_temple_lobby_back_right_chest", 0x06u8, FlagType::Chest, 0x0000_0004u32)),
        spec_known_oot_mappings().contains(researched("mq_oot_mq_spirit_temple_compass_chest", 0x06u8, FlagType::Chest, 0x0000_0008u32)),
        spec_known_oot_mappings().contains(researched("mq_oot_mq_spirit_temple_sun_block_room_chest", 0x06u8, FlagType::Chest, 0x0000_0010u32)),
        spec_known_oot_mappings().contains(researched("mq_oot_mq_spirit_temple_lobby_front_right_chest", 0x06u8, FlagType::Chest, 0x0000_0020u32)),
        spec_known_oot_mappings().contains(researched("mq_oot_mq_spirit_temple_map_chest", 0x06u8, FlagType::Chest, 0x0000_0040u32)),
        spec_known_oot_mappings().contains(researched("mq_oot_mq_spirit_temple_map_room_back_chest", 0x06u8, FlagType::Chest, 0x0000_0080u32)),
        spec_known_oot_mappings().contains(researched("mq_oot_mq_spirit_temple_paradox_chest", 0x06u8, FlagType::Chest, 0x0000_0100u32)),
        spec_known_oot_mappings().contains(researched("mq_oot_mq_spirit_temple_child_upper_ground_chest", 0x06u8, FlagType::Chest, 0x0000_0200u32)),
        spec_known_oot_mappings().contains(researched("mq_oot_mq_spirit_temple_child_upper_ledge_chest", 0x06u8, FlagType::Chest, 0x0000_0400u32)),
        spec_known_oot_mappings().contains(researched("mq_oot_mq_spirit_temple_silver_block_room_target_chest", 0x06u8, FlagType::Chest, 0x0000_0800u32)),
        spec_known_oot_mappings().contains(researched("mq_oot_mq_spirit_temple_chest_in_box", 0x06u8, FlagType::Chest, 0x0000_1000u32)),
        spec_known_oot_mappings().contains(researched("mq_oot_mq_spirit_temple_statue_room_ledge_chest", 0x06u8, FlagType::Chest, 0x0000_2000u32)),
        spec_known_oot_mappings().contains(researched("mq_oot_mq_spirit_temple_purple_leever_chest", 0x06u8, FlagType::Chest, 0x0000_4000u32)),
        spec_known_oot_mappings().contains(researched("mq_oot_mq_spirit_temple_symphony_room_chest", 0x06u8, FlagType::Chest, 0x0000_8000u32)),
        spec_known_oot_mappings().contains(researched("mq_oot_mq_spirit_temple_beamos_room_chest", 0x06u8, FlagType::Chest, 0x0001_0000u32)),
        spec_known_oot_mappings().contains(researched("mq_oot_mq_spirit_temple_dinolfos_room_chest", 0x06u8, FlagType::Chest, 0x0002_0000u32)),
        spec_known_oot_mappings().contains(researched("mq_oot_mq_spirit_temple_boss_key_chest", 0x06u8, FlagType::Chest, 0x0004_0000u32)),
        spec_known_oot_mappings().contains(researched("mq_oot_mq_spirit_temple_topmost_chest", 0x06u8, FlagType::Chest, 0x0008_0000u32)),
        spec_known_oot_mappings().contains(researched("mq_oot_mq_spirit_temple_gs_sun_block_room", 0x06u8, FlagType::GoldSkulltula, 0x01u32)),
        spec_known_oot_mappings().contains(researched("mq_oot_mq_spirit_temple_gs_leever_room", 0x06u8, FlagType::GoldSkulltula, 0x02u32)),
        spec_known_oot_mappings().contains(researched("mq_oot_mq_spirit_temple_gs_symphony_room", 0x06u8, FlagType::GoldSkulltula, 0x04u32)),
        spec_known_oot_mappings().contains(researched("mq_oot_mq_spirit_temple_gs_top_floor_left_wall", 0x06u8, FlagType::GoldSkulltula, 0x08u32)),
        spec_known_oot_mappings().contains(researched("mq_oot_mq_spirit_temple_gs_top_floor_back_wall", 0x06u8, FlagType::GoldSkulltula, 0x10u32)),
        spec_known_oot_mappings().contains(researched("mq_oot_mq_shadow_temple_compass_chest", 0x07u8, FlagType::Chest, 0x0000_0008u32)),
        spec_known_oot_mappings().contains(researched("mq_oot_mq_shadow_temple_hover_boots_chest", 0x07u8, FlagType::Chest, 0x0000_0080u32)),
        spec_known_oot_mappings().contains(researched("mq_oot_mq_shadow_temple_first_gibdos_chest", 0x07u8, FlagType::Chest, 0x0000_0001u32)),
        spec_known_oot_mappings().contains(researched("mq_oot_mq_shadow_temple_map_chest", 0x07u8, FlagType::Chest, 0x0000_0002u32)),
        spec_known_oot_mappings().contains(researched("mq_oot_mq_shadow_temple_boat_passage_chest", 0x07u8, FlagType::Chest, 0x0000_0004u32)),
        spec_known_oot_mappings().contains(researched("mq_oot_mq_shadow_temple_second_silver_rupee_visible_chest", 0x07u8, FlagType::Chest, 0x0000_0010u32)),
        spec_known_oot_mappings().contains(researched("mq_oot_mq_shadow_temple_second_silver_rupee_invisible_chest", 0x07u8, FlagType::Chest, 0x0000_0020u32)),
        spec_known_oot_mappings().contains(researched("mq_oot_mq_shadow_temple_huge_pit_silver_rupee_chest", 0x07u8, FlagType::Chest, 0x0000_0040u32)),
        spec_known_oot_mappings().contains(researched("mq_oot_mq_shadow_temple_spike_curtain_ground_chest", 0x07u8, FlagType::Chest, 0x0000_0100u32)),
        spec_known_oot_mappings().contains(researched("mq_oot_mq_shadow_temple_spike_curtain_upper_cage_chest", 0x07u8, FlagType::Chest, 0x0000_0200u32)),
        spec_known_oot_mappings().contains(researched("mq_oot_mq_shadow_temple_spike_curtain_upper_switch_chest", 0x07u8, FlagType::Chest, 0x0000_0400u32)),
        spec_known_oot_mappings().contains(researched("mq_oot_mq_shadow_temple_invisible_spike_floor_chest", 0x07u8, FlagType::Chest, 0x0000_0800u32)),
        spec_known_oot_mappings().contains(researched("mq_oot_mq_shadow_temple_stalfos_room_chest", 0x07u8, FlagType::Chest, 0x0000_1000u32)),
        spec_known_oot_mappings().contains(researched("mq_oot_mq_shadow_temple_wind_hint_chest", 0x07u8, FlagType::Chest, 0x0020_0000u32)),
        spec_known_oot_mappings().contains(researched("mq_oot_mq_shadow_temple_after_wind_gibdos_chest", 0x07u8, FlagType::Chest, 0x0000_2000u32)),
        spec_known_oot_mappings().contains(researched("mq_oot_mq_shadow_temple_after_wind_bomb_chest", 0x07u8, FlagType::Chest, 0x0010_0000u32)),
        spec_known_oot_mappings().contains(researched("mq_oot_mq_shadow_temple_hidden_dead_hand_chest", 0x07u8, FlagType::Chest, 0x0000_4000u32)),
        spec_known_oot_mappings().contains(researched("mq_oot_mq_shadow_temple_crushing_wall_left_chest", 0x07u8, FlagType::Chest, 0x0000_8000u32)),
        spec_known_oot_mappings().contains(researched("mq_oot_mq_shadow_temple_boss_key_chest", 0x07u8, FlagType::Chest, 0x0001_0000u32)),
        spec_known_oot_mappings().contains(researched("mq_oot_mq_shadow_temple_gs_spike_curtain", 0x07u8, FlagType::GoldSkulltula, 0x01u32)),
        spec_known_oot_mappings().contains(researched("mq_oot_mq_shadow_temple_gs_wind_hint", 0x07u8, FlagType::GoldSkulltula, 0x02u32)),
        spec_known_oot_mappings().contains(researched("mq_oot_mq_shadow_temple_gs_after_wind_bomb", 0x07u8, FlagType::GoldSkulltula, 0x04u32)),
        spec_known_oot_mappings().contains(researched("mq_oot_mq_shadow_temple_gs_after_boat", 0x07u8, FlagType::GoldSkulltula, 0x08u32)),
        spec_known_oot_mappings().contains(researched("mq_oot_mq_shadow_temple_gs_pre_boss", 0x07u8, FlagType::GoldSkulltula, 0x10u32)),
        spec_known_oot_mappings().contains(researched("mq_oot_mq_bottom_of_the_well_map_chest", 0x08u8, FlagType::Chest, 0x0000_0001u32)),
        spec_known_oot_mappings().contains(researched("mq_oot_mq_bottom_of_the_well_lens_chest", 0x08u8, FlagType::Chest, 0x0000_0008u32)),
        spec_known_oot_mappings().contains(researched("mq_oot_mq_bottom_of_the_well_compass_chest", 0x08u8, FlagType::Chest, 0x0000_0002u32)),
        spec_known_oot_mappings().contains(researched("mq_oot_mq_bottom_of_the_well_gs_basement", 0x08u8, FlagType::GoldSkulltula, 0x01u32)),
        spec_known_oot_mappings().contains(researched("mq_oot_mq_bottom_of_the_well_gs_west_middle_room", 0x08u8, FlagType::GoldSkulltula, 0x02u32)),
        spec_known_oot_mappings().contains(researched("mq_oot_mq_bottom_of_the_well_gs_coffin_room", 0x08u8, FlagType::GoldSkulltula, 0x04u32)),
        spec_known_oot_mappings().contains(researched("mq_oot_mq_ice_cavern_map_chest", 0x09u8, FlagType::Chest, 0x0000_0001u32)),
        spec_known_oot_mappings().contains(researched("mq_oot_mq_ice_cavern_compass_chest", 0x09u8, FlagType::Chest, 0x0000_0002u32)),
        spec_known_oot_mappings().contains(researched("mq_oot_mq_ice_cavern_gs_compass_room", 0x09u8, FlagType::GoldSkulltula, 0x01u32)),
        spec_known_oot_mappings().contains(researched("mq_oot_mq_ice_cavern_gs_clear_blocks", 0x09u8, FlagType::GoldSkulltula, 0x02u32)),
        spec_known_oot_mappings().contains(researched("mq_oot_mq_ice_cavern_gs_scarecrow", 0x09u8, FlagType::GoldSkulltula, 0x04u32)),
        spec_known_oot_mappings().contains(researched("mq_oot_mq_gerudo_training_grounds_entryway_left_chest", 0x0Bu8, FlagType::Chest, 0x0000_0001u32)),
        spec_known_oot_mappings().contains(researched("mq_oot_mq_gerudo_training_grounds_entryway_right_chest", 0x0Bu8, FlagType::Chest, 0x0000_0002u32)),
        spec_known_oot_mappings().contains(researched("mq_oot_mq_gerudo_training_grounds_maze_first_chest", 0x0Bu8, FlagType::Chest, 0x0000_1000u32)),
        spec_known_oot_mappings().contains(researched("mq_oot_mq_gerudo_training_grounds_maze_second_chest", 0x0Bu8, FlagType::Chest, 0x0002_0000u32)),
        spec_known_oot_mappings().contains(researched("mq_oot_mq_gerudo_training_grounds_maze_third_chest", 0x0Bu8, FlagType::Chest, 0x0004_0000u32)),
        spec_known_oot_mappings().contains(researched("mq_oot_mq_gerudo_training_grounds_maze_fourth_chest", 0x0Bu8, FlagType::Chest, 0x0010_0000u32)),
        spec_known_oot_mappings().contains(researched("mq_oot_mq_gerudo_training_grounds_maze_right_side_middle_chest", 0x0Bu8, FlagType::Chest, 0x0000_0004u32)),
        spec_known_oot_mappings().contains(researched("mq_oot_mq_gerudo_training_grounds_maze_right_side_right_chest", 0x0Bu8, FlagType::Chest, 0x0000_0008u32)),
        spec_known_oot_mappings().contains(researched("mq_oot_mq_gerudo_training_grounds_right_side_dinolfos_chest", 0x0Bu8, FlagType::Chest, 0x0000_0010u32)),
        spec_known_oot_mappings().contains(researched("mq_oot_mq_gerudo_training_grounds_water_room_chest", 0x0Bu8, FlagType::Chest, 0x0000_0020u32)),
        spec_known_oot_mappings().contains(researched("mq_oot_mq_gerudo_training_grounds_left_side_iron_knuckle_chest", 0x0Bu8, FlagType::Chest, 0x0000_0040u32)),
        spec_known_oot_mappings().contains(researched("mq_oot_mq_gerudo_training_grounds_stalfos_room_chest", 0x0Bu8, FlagType::Chest, 0x0000_0080u32)),
        spec_known_oot_mappings().contains(researched("mq_oot_mq_gerudo_training_grounds_silver_block_room_chest", 0x0Bu8, FlagType::Chest, 0x0000_0100u32)),
        spec_known_oot_mappings().contains(researched("mq_oot_mq_gerudo_training_grounds_ice_arrows_chest", 0x0Bu8, FlagType::Chest, 0x0000_0200u32)),
        spec_known_oot_mappings().contains(researched("mq_oot_mq_gerudo_training_grounds_spinning_statue_chest", 0x0Bu8, FlagType::Chest, 0x0000_0400u32)),
        spec_known_oot_mappings().contains(researched("mq_oot_mq_gerudo_training_grounds_torch_slug_room_clear_chest", 0x0Bu8, FlagType::Chest, 0x0000_0800u32)),
        spec_known_oot_mappings().contains(researched("mq_oot_mq_gerudo_training_grounds_torch_slug_room_switch_chest", 0x0Bu8, FlagType::Chest, 0x0008_0000u32)),
        spec_known_oot_mappings().contains(researched("mq_oot_mq_ganon_castle_light_trial_chest", 0x0Du8, FlagType::Chest, 0x0001_0000u32)),
        spec_known_oot_mappings().contains(researched("mq_oot_mq_ganon_castle_forest_trial_first_chest", 0x0Du8, FlagType::Chest, 0x0000_0200u32)),
        spec_known_oot_mappings().contains(researched("mq_oot_mq_ganon_castle_forest_trial_second_chest", 0x0Du8, FlagType::Chest, 0x0000_0001u32)),
        spec_known_oot_mappings().contains(researched("mq_oot_mq_ganon_castle_water_trial_chest", 0x0Du8, FlagType::Chest, 0x0000_0080u32)),
        spec_known_oot_mappings().contains(researched("mq_oot_mq_ganon_castle_spirit_trial_first_chest", 0x0Du8, FlagType::Chest, 0x0004_0000u32)),
        spec_known_oot_mappings().contains(researched("mq_oot_mq_ganon_castle_spirit_trial_second_chest", 0x0Du8, FlagType::Chest, 0x0010_0000u32)),
        spec_known_oot_mappings().contains(researched("mq_oot_mq_ganon_castle_spirit_trial_back_right_sun_chest", 0x0Du8, FlagType::Chest, 0x0000_0002u32)),
        spec_known_oot_mappings().contains(researched("mq_oot_mq_ganon_castle_spirit_trial_back_left_sun_chest", 0x0Du8, FlagType::Chest, 0x0000_0004u32)),
        spec_known_oot_mappings().contains(researched("mq_oot_mq_ganon_castle_spirit_trial_front_left_sun_chest", 0x0Du8, FlagType::Chest, 0x0000_0008u32)),
        spec_known_oot_mappings().contains(researched("mq_oot_mq_ganon_castle_spirit_trial_gold_gauntlets_chest", 0x0Du8, FlagType::Chest, 0x0000_0010u32)),
        spec_known_oot_mappings().contains(researched("mq_oot_mq_ganon_castle_shadow_trial_bomb_flower_chest", 0x0Du8, FlagType::Chest, 0x0000_0100u32)),
        spec_known_oot_mappings().contains(researched("mq_oot_mq_ganon_castle_shadow_trial_switch_chest", 0x0Du8, FlagType::Chest, 0x0000_0020u32)),
{
    lemma_facts_misc();
    lemma_in_known_misc(spec_misc()[0]);
    lemma_in_known_misc(spec_misc()[1]);
    lemma_in_known_misc(spec_misc()[2]);
    lemma_in_known_misc(spec_misc()[3]);
    lemma_in_known_misc(spec_misc()[4]);
    lemma_in_known_misc(spec_misc()[5]);
    lemma_facts_dodongo_s_cavern();
    lemma_in_known_dodongo_s_cavern(spec_dodongo_s_cavern()[0]);
    lemma_in_known_dodongo_s_cavern(spec_dodongo_s_cavern()[1]);
    lemma_in_known_dodongo_s_cavern(spec_dodongo_s_cavern()[2]);
    lemma_in_known_dodongo_s_cavern(spec_dodongo_s_cavern()[3]);
    lemma_in_known_dodongo_s_cavern(spec_dodongo_s_cavern()[4]);
    lemma_facts_jabu_jabu_s_belly();
    lemma_in_known_jabu_jabu_s_belly(spec_jabu_jabu_s_belly()[0]);
    lemma_in_known_jabu_jabu_s_belly(spec_jabu_jabu_s_belly()[1]);
    lemma_in_known_jabu_jabu_s_belly(spec_jabu_jabu_s_belly()[2]);
    lemma_facts_forest_temple_1();
    lemma_in_known_forest_temple_1(spec_forest_temple_1()[0]);
    lemma_in_known_forest_temple_1(spec_forest_temple_1()[1]);
    lemma_in_known_forest_temple_1(spec_forest_temple_1()[2]);
    lemma_in_known_forest_temple_1(spec_forest_temple_1()[3]);
    lemma_in_known_forest_temple_1(spec_forest_temple_1()[4]);
    lemma_in_known_forest_temple_1(spec_forest_temple_1()[5]);
    lemma_in_known_forest_temple_1(spec_forest_temple_1()[6]);
    lemma_in_known_forest_temple_1(spec_forest_temple_1()[7]);
    lemma_in_known_forest_temple_1(spec_forest_temple_1()[8]);
    lemma_in_known_forest_temple_1(spec_forest_temple_1()[9]);
    lemma_in_known_forest_temple_1(spec_forest_temple_1()[10]);
    lemma_in_known_forest_temple_1(spec_forest_temple_1()[11]);
    lemma_facts_forest_temple_2();
    lemma_in_known_forest_temple_2(spec_forest_temple_2()[0]);
    lemma_facts_fire_temple();
    lemma_in_known_fire_temple(spec_fire_temple()[0]);
    lemma_in_known_fire_temple(spec_fire_temple()[1]);
    lemma_in_known_fire_temple(spec_fire_temple()[2]);
    lemma_in_known_fire_temple(spec_fire_temple()[3]);
    lemma_in_known_fire_temple(spec_fire_temple()[4]);
    lemma_in_known_fire_temple(spec_fire_temple()[5]);
    lemma_in_known_fire_temple(spec_fire_temple()[6]);
    lemma_in_known_fire_temple(spec_fire_temple()[7]);
    lemma_in_known_fire_temple(spec_fire_temple()[8]);
    lemma_in_known_fire_temple(spec_fire_temple()[9]);
    lemma_facts_water_temple();
    lemma_in_known_water_temple(spec_water_temple()[0]);
    lemma_in_known_water_temple(spec_water_temple()[1]);
    lemma_in_known_water_temple(spec_water_temple()[2]);
    lemma_in_known_water_temple(spec_water_temple()[3]);
    lemma_in_known_water_temple(spec_water_temple()[4]);
    lemma_in_known_water_temple(spec_water_temple()[5]);
    lemma_facts_spirit_temple_1();
    lemma_in_known_spirit_temple_1(spec_spirit_temple_1()[0]);
    lemma_in_known_spirit_temple_1(spec_spirit_temple_1()[1]);
    lemma_in_known_spirit_temple_1(spec_spirit_temple_1()[2]);
    lemma_in_known_spirit_temple_1(spec_spirit_temple_1()[3]);
    lemma_in_known_spirit_temple_1(spec_spirit_temple_1()[4]);
    lemma_in_known_spirit_temple_1(spec_spirit_temple_1()[5]);
    lemma_in_known_spirit_temple_1(spec_spirit_temple_1()[6]);
    lemma_in_known_spirit_temple_1(spec_spirit_temple_1()[7]);
    lemma_in_known_spirit_temple_1(spec_spirit_temple_1()[8]);
    lemma_in_known_spirit_temple_1(spec_spirit_temple_1()[9]);
    lemma_in_known_spirit_temple_1(spec_spirit_temple_1()[10]);
    lemma_in_known_spirit_temple_1(spec_spirit_temple_1()[11]);
    lemma_facts_spirit_temple_2();
    lemma_in_known_spirit_temple_2(spec_spirit_temple_2()[0]);
    lemma_in_known_spirit_temple_2(spec_spirit_temple_2()[1]);
    lemma_in_known_spirit_temple_2(spec_spirit_temple_2()[2]);
    lemma_in_known_spirit_temple_2(spec_spirit_temple_2()[3]);
    lemma_facts_shadow_temple_1();
    lemma_in_known_shadow_temple_1(spec_shadow_temple_1()[0]);
    lemma_in_known_shadow_temple_1(spec_shadow_temple_1()[1]);
    lemma_in_known_shadow_temple_1(spec_shadow_temple_1()[2]);
    lemma_in_known_shadow_temple_1(spec_shadow_temple_1()[3]);
    lemma_in_known_shadow_temple_1(spec_shadow_temple_1()[4]);
    lemma_in_known_shadow_temple_1(spec_shadow_temple_1()[5]);
    lemma_in_known_shadow_temple_1(spec_shadow_temple_1()[6]);
    lemma_in_known_shadow_temple_1(spec_shadow_temple_1()[7]);
    lemma_in_known_shadow_temple_1(spec_shadow_temple_1()[8]);
    lemma_in_known_shadow_temple_1(spec_shadow_temple_1()[9]);
    lemma_in_known_shadow_temple_1(spec_shadow_temple_1()[10]);
    lemma_in_known_shadow_temple_1(spec_shadow_temple_1()[11]);
    lemma_facts_shadow_temple_2();
    lemma_in_known_shadow_temple_2(spec_shadow_temple_2()[0]);
    lemma_in_known_shadow_temple_2(spec_shadow_temple_2()[1]);
    lemma_in_known_shadow_temple_2(spec_shadow_temple_2()[2]);
    lemma_in_known_shadow_temple_2(spec_shadow_temple_2()[3]);
    lemma_facts_bottom_of_the_well_1();
    lemma_in_known_bottom_of_the_well_1(spec_bottom_of_the_well_1()[0]);
    lemma_in_known_bottom_of_the_well_1(spec_bottom_of_the_well_1()[1]);
    lemma_in_known_bottom_of_the_well_1(spec_bottom_of_the_well_1()[2]);
    lemma_in_known_bottom_of_the_well_1(spec_bottom_of_the_well_1()[3]);
    lemma_in_known_bottom_of_the_well_1(spec_bottom_of_the_well_1()[4]);
    lemma_in_known_bottom_of_the_well_1(spec_bottom_of_the_well_1()[5]);
    lemma_in_known_bottom_of_the_well_1(spec_bottom_of_the_well_1()[6]);
    lemma_in_known_bottom_of_the_well_1(spec_bottom_of_the_well_1()[7]);
    lemma_in_known_bottom_of_the_well_1(spec_bottom_of_the_well_1()[8]);
    lemma_in_known_bottom_of_the_well_1(spec_bottom_of_the_well_1()[9]);
    lemma_in_known_bottom_of_the_well_1(spec_bottom_of_the_well_1()[10]);
    lemma_in_known_bottom_of_the_well_1(spec_bottom_of_the_well_1()[11]);
    lemma_facts_bottom_of_the_well_2();
    lemma_in_known_bottom_of_the_well_2(spec_bottom_of_the_well_2()[0]);
    lemma_facts_ice_cavern();
    lemma_in_known_ice_cavern(spec_ice_cavern()[0]);
    lemma_in_known_ice_cavern(spec_ice_cavern()[1]);
    lemma_in_known_ice_cavern(spec_ice_cavern()[2]);
    lemma_facts_gerudo_training_ground();
    lemma_in_known_gerudo_training_ground(spec_gerudo_training_ground()[0]);
    lemma_in_known_gerudo_training_ground(spec_gerudo_training_ground()[1]);
    lemma_in_known_gerudo_training_ground(spec_gerudo_training_ground()[2]);
    lemma_in_known_gerudo_training_ground(spec_gerudo_training_ground()[3]);
    lemma_in_known_gerudo_training_ground(spec_gerudo_training_ground()[4]);
    lemma_in_known_gerudo_training_ground(spec_gerudo_training_ground()[5]);
    lemma_facts_dodongo_s_cavern_boss();
    lemma_in_known_dodongo_s_cavern_boss(spec_dodongo_s_cavern_boss()[0]);
    lemma_facts_ganon_s_castle_1();
    lemma_in_known_ganon_s_castle_1(spec_ganon_s_castle_1()[0]);
    lemma_in_known_ganon_s_castle_1(spec_ganon_s_castle_1()[1]);
    lemma_in_known_ganon_s_castle_1(spec_ganon_s_castle_1()[2]);
    lemma_in_known_ganon_s_castle_1(spec_ganon_s_castle_1()[3]);
    lemma_in_known_ganon_s_castle_1(spec_ganon_s_castle_1()[4]);
    lemma_in_known_ganon_s_castle_1(spec_ganon_s_castle_1()[5]);
    lemma_in_known_ganon_s_castle_1(spec_ganon_s_castle_1()[6]);
    lemma_in_known_ganon_s_castle_1(spec_ganon_s_castle_1()[7]);
    lemma_in_known_ganon_s_castle_1(spec_ganon_s_castle_1()[8]);
    lemma_in_known_ganon_s_castle_1(spec_ganon_s_castle_1()[9]);
    lemma_in_known_ganon_s_castle_1(spec_ganon_s_castle_1()[10]);
    lemma_in_known_ganon_s_castle_1(spec_ganon_s_castle_1()[11]);
    lemma_facts_ganon_s_castle_2();
    lemma_in_known_ganon_s_castle_2(spec_ganon_s_castle_2()[0]);
    lemma_in_known_ganon_s_castle_2(spec_ganon_s_castle_2()[1]);
    lemma_in_known_ganon_s_castle_2(spec_ganon_s_castle_2()[2]);
    lemma_facts_the_treasure_chest_game_has_5_rooms_with_2_chests_each_plus_the_final_hp_chest();
    lemma_in_known_the_treasure_chest_game_has_5_rooms_with_2_chests_each_plus_the_final_hp_chest(spec_the_treasure_chest_game_has_5_rooms_with_2_chests_each_plus_the_final_hp_chest()[0]);
    lemma_in_known_the_treasure_chest_game_has_5_rooms_with_2_chests_each_plus_the_final_hp_chest(spec_the_treasure_chest_game_has_5_rooms_with_2_chests_each_plus_the_final_hp_chest()[1]);
    lemma_in_known_the_treasure_chest_game_has_5_rooms_with_2_chests_each_plus_the_final_hp_chest(spec_the_treasure_chest_game_has_5_rooms_with_2_chests_each_plus_the_final_hp_chest()[2]);
    lemma_in_known_the_treasure_chest_game_has_5_rooms_with_2_chests_each_plus_the_final_hp_chest(spec_the_treasure_chest_game_has_5_rooms_with_2_chests_each_plus_the_final_hp_chest()[3]);
    lemma_in_known_the_treasure_chest_game_has_5_rooms_with_2_chests_each_plus_the_final_hp_chest(spec_the_treasure_chest_game_has_5_rooms_with_2_chests_each_plus_the_final_hp_chest()[4]);
    lemma_in_known_the_treasure_chest_game_has_5_rooms_with_2_chests_each_plus_the_final_hp_chest(spec_the_treasure_chest_game_has_5_rooms_with_2_chests_each_plus_the_final_hp_chest()[5]);
    lemma_in_known_the_treasure_chest_game_has_5_rooms_with_2_chests_each_plus_the_final_hp_chest(spec_the_treasure_chest_game_has_5_rooms_with_2_chests_each_plus_the_final_hp_chest()[6]);
    lemma_in_known_the_treasure_chest_game_has_5_rooms_with_2_chests_each_plus_the_final_hp_chest(spec_the_treasure_chest_game_has_5_rooms_with_2_chests_each_plus_the_final_hp_chest()[7]);
    lemma_in_known_the_treasure_chest_game_has_5_rooms_with_2_chests_each_plus_the_final_hp_chest(spec_the_treasure_chest_game_has_5_rooms_with_2_chests_each_plus_the_final_hp_chest()[8]);
    lemma_in_known_the_treasure_chest_game_has_5_rooms_with_2_chests_each_plus_the_final_hp_chest(spec_the_treasure_chest_game_has_5_rooms_with_2_chests_each_plus_the_final_hp_chest()[9]);
    lemma_in_known_the_treasure_chest_game_has_5_rooms_with_2_chests_each_plus_the_final_hp_chest(spec_the_treasure_chest_game_has_5_rooms_with_2_chests_each_plus_the_final_hp_chest()[10]);
    lemma_facts_grottos_shared_scene_for_all_grottos();
    lemma_in_known_grottos_shared_scene_for_all_grottos(spec_grottos_shared_scene_for_all_grottos()[0]);
    lemma_in_known_grottos_shared_scene_for_all_grottos(spec_grottos_shared_scene_for_all_grottos()[1]);
    lemma_in_known_grottos_shared_scene_for_all_grottos(spec_grottos_shared_scene_for_all_grottos()[2]);
    lemma_in_known_grottos_shared_scene_for_all_grottos(spec_grottos_shared_scene_for_all_grottos()[3]);
    lemma_in_known_grottos_shared_scene_for_all_grottos(spec_grottos_shared_scene_for_all_grottos()[4]);
    lemma_in_known_grottos_shared_scene_for_all_grottos(spec_grottos_shared_scene_for_all_grottos()[5]);
    lemma_in_known_grottos_shared_scene_for_all_grottos(spec_grottos_shared_scene_for_all_grottos()[6]);
    lemma_in_known_grottos_shared_scene_for_all_grottos(spec_grottos_shared_scene_for_all_grottos()[7]);
    lemma_in_known_grottos_shared_scene_for_all_grottos(spec_grottos_shared_scene_for_all_grottos()[8]);
    lemma_in_known_grottos_shared_scene_for_all_grottos(spec_grottos_shared_scene_for_all_grottos()[9]);
    lemma_in_known_grottos_shared_scene_for_all_grottos(spec_grottos_shared_scene_for_all_grottos()[10]);
    lemma_facts_graveyard_graves();
    lemma_in_known_graveyard_graves(spec_graveyard_graves()[0]);
    lemma_in_known_graveyard_graves(spec_graveyard_graves()[1]);
    lemma_in_known_graveyard_graves(spec_graveyard_graves()[2]);
    lemma_in_known_graveyard_graves(spec_graveyard_graves()[3]);
    lemma_facts_kokiri_forest();
    lemma_in_known_kokiri_forest(spec_kokiri_forest()[0]);
    lemma_facts_zora_s_domain();
    lemma_in_known_zora_s_domain(spec_zora_s_domain()[0]);
    lemma_facts_gerudo_valley();
    lemma_in_known_gerudo_valley(spec_gerudo_valley()[0]);
    lemma_facts_desert_colossus_spirit_temple_exterior_chests();
    lemma_in_known_desert_colossus_spirit_temple_exterior_chests(spec_desert_colossus_spirit_temple_exterior_chests()[0]);
    lemma_in_known_desert_colossus_spirit_temple_exterior_chests(spec_desert_colossus_spirit_temple_exterior_chests()[1]);
    lemma_facts_gerudo_fortress();
    lemma_in_known_gerudo_fortress(spec_gerudo_fortress()[0]);
    lemma_facts_haunted_wasteland();
    lemma_in_known_haunted_wasteland(spec_haunted_wasteland()[0]);
    lemma_facts_death_mountain_trail();
    lemma_in_known_death_mountain_trail(spec_death_mountain_trail()[0]);
    lemma_facts_gold_skulltula_flags_are_stored_in_a_24_byte_section_at_save_1();
    lemma_in_known_gold_skulltula_flags_are_stored_in_a_24_byte_section_at_save_1(spec_gold_skulltula_flags_are_stored_in_a_24_byte_section_at_save_1()[0]);
    lemma_in_known_gold_skulltula_flags_are_stored_in_a_24_byte_section_at_save_1(spec_gold_skulltula_flags_are_stored_in_a_24_byte_section_at_save_1()[1]);
    lemma_in_known_gold_skulltula_flags_are_stored_in_a_24_byte_section_at_save_1(spec_gold_skulltula_flags_are_stored_in_a_24_byte_section_at_save_1()[2]);
    lemma_in_known_gold_skulltula_flags_are_stored_in_a_24_byte_section_at_save_1(spec_gold_skulltula_flags_are_stored_in_a_24_byte_section_at_save_1()[3]);
    lemma_in_known_gold_skulltula_flags_are_stored_in_a_24_byte_section_at_save_1(spec_gold_skulltula_flags_are_stored_in_a_24_byte_section_at_save_1()[4]);
    lemma_in_known_gold_skulltula_flags_are_stored_in_a_24_byte_section_at_save_1(spec_gold_skulltula_flags_are_stored_in_a_24_byte_section_at_save_1()[5]);
    lemma_in_known_gold_skulltula_flags_are_stored_in_a_24_byte_section_at_save_1(spec_gold_skulltula_flags_are_stored_in_a_24_byte_section_at_save_1()[6]);
    lemma_in_known_gold_skulltula_flags_are_stored_in_a_24_byte_section_at_save_1(spec_gold_skulltula_flags_are_stored_in_a_24_byte_section_at_save_1()[7]);
    lemma_in_known_gold_skulltula_flags_are_stored_in_a_24_byte_section_at_save_1(spec_gold_skulltula_flags_are_stored_in_a_24_byte_section_at_save_1()[8]);
    lemma_in_known_gold_skulltula_flags_are_stored_in_a_24_byte_section_at_save_1(spec_gold_skulltula_flags_are_stored_in_a_24_byte_section_at_save_1()[9]);
    lemma_in_known_gold_skulltula_flags_are_stored_in_a_24_byte_section_at_save_1(spec_gold_skulltula_flags_are_stored_in_a_24_byte_section_at_save_1()[10]);
    lemma_in_known_gold_skulltula_flags_are_stored_in_a_24_byte_section_at_save_1(spec_gold_skulltula_flags_are_stored_in_a_24_byte_section_at_save_1()[11]);
    lemma_facts_gold_skulltula_flags_are_stored_in_a_24_byte_section_at_save_2();
    lemma_in_known_gold_skulltula_flags_are_stored_in_a_24_byte_section_at_save_2(spec_gold_skulltula_flags_are_stored_in_a_24_byte_section_at_save_2()[0]);
    lemma_in_known_gold_skulltula_flags_are_stored_in_a_24_byte_section_at_save_2(spec_gold_skulltula_flags_are_stored_in_a_24_byte_section_at_save_2()[1]);
    lemma_in_known_gold_skulltula_flags_are_stored_in_a_24_byte_section_at_save_2(spec_gold_skulltula_flags_are_stored_in_a_24_byte_section_at_save_2()[2]);
    lemma_in_known_gold_skulltula_flags_are_stored_in_a_24_byte_section_at_save_2(spec_gold_skulltula_flags_are_stored_in_a_24_byte_section_at_save_2()[3]);
    lemma_in_known_gold_skulltula_flags_are_stored_in_a_24_byte_section_at_save_2(spec_gold_skulltula_flags_are_stored_in_a_24_byte_section_at_save_2()[4]);
    lemma_in_known_gold_skulltula_flags_are_stored_in_a_24_byte_section_at_save_2(spec_gold_skulltula_flags_are_stored_in_a_24_byte_section_at_save_2()[5]);
    lemma_in_known_gold_skulltula_flags_are_stored_in_a_24_byte_section_at_save_2(spec_gold_skulltula_flags_are_stored_in_a_24_byte_section_at_save_2()[6]);
    lemma_in_known_gold_skulltula_flags_are_stored_in_a_24_byte_section_at_save_2(spec_gold_skulltula_flags_are_stored_in_a_24_byte_section_at_save_2()[7]);
    lemma_in_known_gold_skulltula_flags_are_stored_in_a_24_byte_section_at_save_2(spec_gold_skulltula_flags_are_stored_in_a_24_byte_section_at_save_2()[8]);
    lemma_in_known_gold_skulltula_flags_are_stored_in_a_24_byte_section_at_save_2(spec_gold_skulltula_flags_are_stored_in_a_24_byte_section_at_save_2()[9]);
    lemma_in_known_gold_skulltula_flags_are_stored_in_a_24_byte_section_at_save_2(spec_gold_skulltula_flags_are_stored_in_a_24_byte_section_at_save_2()[10]);
    lemma_in_known_gold_skulltula_flags_are_stored_in_a_24_byte_section_at_save_2(spec_gold_skulltula_flags_are_stored_in_a_24_byte_section_at_save_2()[11]);
    lemma_facts_gold_skulltula_flags_are_stored_in_a_24_byte_section_at_save_3();
    lemma_in_known_gold_skulltula_flags_are_stored_in_a_24_byte_section_at_save_3(spec_gold_skulltula_flags_are_stored_in_a_24_byte_section_at_save_3()[0]);
    lemma_in_known_gold_skulltula_flags_are_stored_in_a_24_byte_section_at_save_3(spec_gold_skulltula_flags_are_stored_in_a_24_byte_section_at_save_3()[1]);
    lemma_in_known_gold_skulltula_flags_are_stored_in_a_24_byte_section_at_save_3(spec_gold_skulltula_flags_are_stored_in_a_24_byte_section_at_save_3()[2]);
    lemma_in_known_gold_skulltula_flags_are_stored_in_a_24_byte_section_at_save_3(spec_gold_skulltula_flags_are_stored_in_a_24_byte_section_at_save_3()[3]);
    lemma_in_known_gold_skulltula_flags_are_stored_in_a_24_byte_section_at_save_3(spec_gold_skulltula_flags_are_stored_in_a_24_byte_section_at_save_3()[4]);
    lemma_in_known_gold_skulltula_flags_are_stored_in_a_24_byte_section_at_save_3(spec_gold_skulltula_flags_are_stored_in_a_24_byte_section_at_save_3()[5]);
    lemma_in_known_gold_skulltula_flags_are_stored_in_a_24_byte_section_at_save_3(spec_gold_skulltula_flags_are_stored_in_a_24_byte_section_at_save_3()[6]);
    lemma_in_known_gold_skulltula_flags_are_stored_in_a_24_byte_section_at_save_3(spec_gold_skulltula_flags_are_stored_in_a_24_byte_section_at_save_3()[7]);
    lemma_in_known_gold_skulltula_flags_are_stored_in_a_24_byte_section_at_save_3(spec_gold_skulltula_flags_are_stored_in_a_24_byte_section_at_save_3()[8]);
    lemma_in_known_gold_skulltula_flags_are_stored_in_a_24_byte_section_at_save_3(spec_gold_skulltula_flags_are_stored_in_a_24_byte_section_at_save_3()[9]);
    lemma_in_known_gold_skulltula_flags_are_stored_in_a_24_byte_section_at_save_3(spec_gold_skulltula_flags_are_stored_in_a_24_byte_section_at_save_3()[10]);
    lemma_in_known_gold_skulltula_flags_are_stored_in_a_24_byte_section_at_save_3(spec_gold_skulltula_flags_are_stored_in_a_24_byte_section_at_save_3()[11]);
    lemma_facts_gold_skulltula_flags_are_stored_in_a_24_byte_section_at_save_4();
    lemma_in_known_gold_skulltula_flags_are_stored_in_a_24_byte_section_at_save_4(spec_gold_skulltula_flags_are_stored_in_a_24_byte_section_at_save_4()[0]);
    lemma_in_known_gold_skulltula_flags_are_stored_in_a_24_byte_section_at_save_4(spec_gold_skulltula_flags_are_stored_in_a_24_byte_section_at_save_4()[1]);
    lemma_in_known_gold_skulltula_flags_are_stored_in_a_24_byte_section_at_save_4(spec_gold_skulltula_flags_are_stored_in_a_24_byte_section_at_save_4()[2]);
    lemma_in_known_gold_skulltula_flags_are_stored_in_a_24_byte_section_at_save_4(spec_gold_skulltula_flags_are_stored_in_a_24_byte_section_at_save_4()[3]);
    lemma_in_known_gold_skulltula_flags_are_stored_in_a_24_byte_section_at_save_4(spec_gold_skulltula_flags_are_stored_in_a_24_byte_section_at_save_4()[4]);
    lemma_in_known_gold_skulltula_flags_are_stored_in_a_24_byte_section_at_save_4(spec_gold_skulltula_flags_are_stored_in_a_24_byte_section_at_save_4()[5]);
    lemma_in_known_gold_skulltula_flags_are_stored_in_a_24_byte_section_at_save_4(spec_gold_skulltula_flags_are_stored_in_a_24_byte_section_at_save_4()[6]);
    lemma_in_known_gold_skulltula_flags_are_stored_in_a_24_byte_section_at_save_4(spec_gold_skulltula_flags_are_stored_in_a_24_byte_section_at_save_4()[7]);
    lemma_facts_overworld_skulltulas_use_scene_ids_0x0a_0x15_for_gs_flag_bytes_1();
    lemma_in_known_overworld_skulltulas_use_scene_ids_0x0a_0x15_for_gs_flag_bytes_1(spec_overworld_skulltulas_use_scene_ids_0x0a_0x15_for_gs_flag_bytes_1()[0]);
    lemma_in_known_overworld_skulltulas_use_scene_ids_0x0a_0x15_for_gs_flag_bytes_1(spec_overworld_skulltulas_use_scene_ids_0x0a_0x15_for_gs_flag_bytes_1()[1]);
    lemma_in_known_overworld_skulltulas_use_scene_ids_0x0a_0x15_for_gs_flag_bytes_1(spec_overworld_skulltulas_use_scene_ids_0x0a_0x15_for_gs_flag_bytes_1()[2]);
    lemma_in_known_overworld_skulltulas_use_scene_ids_0x0a_0x15_for_gs_flag_bytes_1(spec_overworld_skulltulas_use_scene_ids_0x0a_0x15_for_gs_flag_bytes_1()[3]);
    lemma_in_known_overworld_skulltulas_use_scene_ids_0x0a_0x15_for_gs_flag_bytes_1(spec_overworld_skulltulas_use_scene_ids_0x0a_0x15_for_gs_flag_bytes_1()[4]);
    lemma_in_known_overworld_skulltulas_use_scene_ids_0x0a_0x15_for_gs_flag_bytes_1(spec_overworld_skulltulas_use_scene_ids_0x0a_0x15_for_gs_flag_bytes_1()[5]);
    lemma_in_known_overworld_skulltulas_use_scene_ids_0x0a_0x15_for_gs_flag_bytes_1(spec_overworld_skulltulas_use_scene_ids_0x0a_0x15_for_gs_flag_bytes_1()[6]);
    lemma_in_known_overworld_skulltulas_use_scene_ids_0x0a_0x15_for_gs_flag_bytes_1(spec_overworld_skulltulas_use_scene_ids_0x0a_0x15_for_gs_flag_bytes_1()[7]);
    lemma_in_known_overworld_skulltulas_use_scene_ids_0x0a_0x15_for_gs_flag_bytes_1(spec_overworld_skulltulas_use_scene_ids_0x0a_0x15_for_gs_flag_bytes_1()[8]);
    lemma_in_known_overworld_skulltulas_use_scene_ids_0x0a_0x15_for_gs_flag_bytes_1(spec_overworld_skulltulas_use_scene_ids_0x0a_0x15_for_gs_flag_bytes_1()[9]);
    lemma_in_known_overworld_skulltulas_use_scene_ids_0x0a_0x15_for_gs_flag_bytes_1(spec_overworld_skulltulas_use_scene_ids_0x0a_0x15_for_gs_flag_bytes_1()[10]);
    lemma_in_known_overworld_skulltulas_use_scene_ids_0x0a_0x15_for_gs_flag_bytes_1(spec_overworld_skulltulas_use_scene_ids_0x0a_0x15_for_gs_flag_bytes_1()[11]);
    lemma_facts_overworld_skulltulas_use_scene_ids_0x0a_0x15_for_gs_flag_bytes_2();
    lemma_in_known_overworld_skulltulas_use_scene_ids_0x0a_0x15_for_gs_flag_bytes_2(spec_overworld_skulltulas_use_scene_ids_0x0a_0x15_for_gs_flag_bytes_2()[0]);
    lemma_in_known_overworld_skulltulas_use_scene_ids_0x0a_0x15_for_gs_flag_bytes_2(spec_overworld_skulltulas_use_scene_ids_0x0a_0x15_for_gs_flag_bytes_2()[1]);
    lemma_in_known_overworld_skulltulas_use_scene_ids_0x0a_0x15_for_gs_flag_bytes_2(spec_overworld_skulltulas_use_scene_ids_0x0a_0x15_for_gs_flag_bytes_2()[2]);
    lemma_in_known_overworld_skulltulas_use_scene_ids_0x0a_0x15_for_gs_flag_bytes_2(spec_overworld_skulltulas_use_scene_ids_0x0a_0x15_for_gs_flag_bytes_2()[3]);
    lemma_in_known_overworld_skulltulas_use_scene_ids_0x0a_0x15_for_gs_flag_bytes_2(spec_overworld_skulltulas_use_scene_ids_0x0a_0x15_for_gs_flag_bytes_2()[4]);
    lemma_in_known_overworld_skulltulas_use_scene_ids_0x0a_0x15_for_gs_flag_bytes_2(spec_overworld_skulltulas_use_scene_ids_0x0a_0x15_for_gs_flag_bytes_2()[5]);
    lemma_in_known_overworld_skulltulas_use_scene_ids_0x0a_0x15_for_gs_flag_bytes_2(spec_overworld_skulltulas_use_scene_ids_0x0a_0x15_for_gs_flag_bytes_2()[6]);
    lemma_in_known_overworld_skulltulas_use_scene_ids_0x0a_0x15_for_gs_flag_bytes_2(spec_overworld_skulltulas_use_scene_ids_0x0a_0x15_for_gs_flag_bytes_2()[7]);
    lemma_in_known_overworld_skulltulas_use_scene_ids_0x0a_0x15_for_gs_flag_bytes_2(spec_overworld_skulltulas_use_scene_ids_0x0a_0x15_for_gs_flag_bytes_2()[8]);
    lemma_in_known_overworld_skulltulas_use_scene_ids_0x0a_0x15_for_gs_flag_bytes_2(spec_overworld_skulltulas_use_scene_ids_0x0a_0x15_for_gs_flag_bytes_2()[9]);
    lemma_in_known_overworld_skulltulas_use_scene_ids_0x0a_0x15_for_gs_flag_bytes_2(spec_overworld_skulltulas_use_scene_ids_0x0a_0x15_for_gs_flag_bytes_2()[10]);
    lemma_in_known_overworld_skulltulas_use_scene_ids_0x0a_0x15_for_gs_flag_bytes_2(spec_overworld_skulltulas_use_scene_ids_0x0a_0x15_for_gs_flag_bytes_2()[11]);
    lemma_facts_overworld_skulltulas_use_scene_ids_0x0a_0x15_for_gs_flag_bytes_3();
    lemma_in_known_overworld_skulltulas_use_scene_ids_0x0a_0x15_for_gs_flag_bytes_3(spec_overworld_skulltulas_use_scene_ids_0x0a_0x15_for_gs_flag_bytes_3()[0]);
    lemma_in_known_overworld_skulltulas_use_scene_ids_0x0a_0x15_for_gs_flag_bytes_3(spec_overworld_skulltulas_use_scene_ids_0x0a_0x15_for_gs_flag_bytes_3()[1]);
    lemma_in_known_overworld_skulltulas_use_scene_ids_0x0a_0x15_for_gs_flag_bytes_3(spec_overworld_skulltulas_use_scene_ids_0x0a_0x15_for_gs_flag_bytes_3()[2]);
    lemma_in_known_overworld_skulltulas_use_scene_ids_0x0a_0x15_for_gs_flag_bytes_3(spec_overworld_skulltulas_use_scene_ids_0x0a_0x15_for_gs_flag_bytes_3()[3]);
    lemma_in_known_overworld_skulltulas_use_scene_ids_0x0a_0x15_for_gs_flag_bytes_3(spec_overworld_skulltulas_use_scene_ids_0x0a_0x15_for_gs_flag_bytes_3()[4]);
    lemma_in_known_overworld_skulltulas_use_scene_ids_0x0a_0x15_for_gs_flag_bytes_3(spec_overworld_skulltulas_use_scene_ids_0x0a_0x15_for_gs_flag_bytes_3()[5]);
    lemma_in_known_overworld_skulltulas_use_scene_ids_0x0a_0x15_for_gs_flag_bytes_3(spec_overworld_skulltulas_use_scene_ids_0x0a_0x15_for_gs_flag_bytes_3()[6]);
    lemma_in_known_overworld_skulltulas_use_scene_ids_0x0a_0x15_for_gs_flag_bytes_3(spec_overworld_skulltulas_use_scene_ids_0x0a_0x15_for_gs_flag_bytes_3()[7]);
    lemma_in_known_overworld_skulltulas_use_scene_ids_0x0a_0x15_for_gs_flag_bytes_3(spec_overworld_skulltulas_use_scene_ids_0x0a_0x15_for_gs_flag_bytes_3()[8]);
    lemma_in_known_overworld_skulltulas_use_scene_ids_0x0a_0x15_for_gs_flag_bytes_3(spec_overworld_skulltulas_use_scene_ids_0x0a_0x15_for_gs_flag_bytes_3()[9]);
    lemma_in_known_overworld_skulltulas_use_scene_ids_0x0a_0x15_for_gs_flag_bytes_3(spec_overworld_skulltulas_use_scene_ids_0x0a_0x15_for_gs_flag_bytes_3()[10]);
    lemma_in_known_overworld_skulltulas_use_scene_ids_0x0a_0x15_for_gs_flag_bytes_3(spec_overworld_skulltulas_use_scene_ids_0x0a_0x15_for_gs_flag_bytes_3()[11]);
    lemma_facts_overworld_skulltulas_use_scene_ids_0x0a_0x15_for_gs_flag_bytes_4();
    lemma_in_known_overworld_skulltulas_use_scene_ids_0x0a_0x15_for_gs_flag_bytes_4(spec_overworld_skulltulas_use_scene_ids_0x0a_0x15_for_gs_flag_bytes_4()[0]);
    lemma_in_known_overworld_skulltulas_use_scene_ids_0x0a_0x15_for_gs_flag_bytes_4(spec_overworld_skulltulas_use_scene_ids_0x0a_0x15_for_gs_flag_bytes_4()[1]);
    lemma_in_known_overworld_skulltulas_use_scene_ids_0x0a_0x15_for_gs_flag_bytes_4(spec_overworld_skulltulas_use_scene_ids_0x0a_0x15_for_gs_flag_bytes_4()[2]);
    lemma_in_known_overworld_skulltulas_use_scene_ids_0x0a_0x15_for_gs_flag_bytes_4(spec_overworld_skulltulas_use_scene_ids_0x0a_0x15_for_gs_flag_bytes_4()[3]);
    lemma_in_known_overworld_skulltulas_use_scene_ids_0x0a_0x15_for_gs_flag_bytes_4(spec_overworld_skulltulas_use_scene_ids_0x0a_0x15_for_gs_flag_bytes_4()[4]);
    lemma_in_known_overworld_skulltulas_use_scene_ids_0x0a_0x15_for_gs_flag_bytes_4(spec_overworld_skulltulas_use_scene_ids_0x0a_0x15_for_gs_flag_bytes_4()[5]);
    lemma_in_known_overworld_skulltulas_use_scene_ids_0x0a_0x15_for_gs_flag_bytes_4(spec_overworld_skulltulas_use_scene_ids_0x0a_0x15_for_gs_flag_bytes_4()[6]);
    lemma_in_known_overworld_skulltulas_use_scene_ids_0x0a_0x15_for_gs_flag_bytes_4(spec_overworld_skulltulas_use_scene_ids_0x0a_0x15_for_gs_flag_bytes_4()[7]);
    lemma_in_known_overworld_skulltulas_use_scene_ids_0x0a_0x15_for_gs_flag_bytes_4(spec_overworld_skulltulas_use_scene_ids_0x0a_0x15_for_gs_flag_bytes_4()[8]);
    lemma_in_known_overworld_skulltulas_use_scene_ids_0x0a_0x15_for_gs_flag_bytes_4(spec_overworld_skulltulas_use_scene_ids_0x0a_0x15_for_gs_flag_bytes_4()[9]);
    lemma_in_known_overworld_skulltulas_use_scene_ids_0x0a_0x15_for_gs_flag_bytes_4(spec_overworld_skulltulas_use_scene_ids_0x0a_0x15_for_gs_flag_bytes_4()[10]);
    lemma_in_known_overworld_skulltulas_use_scene_ids_0x0a_0x15_for_gs_flag_bytes_4(spec_overworld_skulltulas_use_scene_ids_0x0a_0x15_for_gs_flag_bytes_4()[11]);
    lemma_facts_overworld_skulltulas_use_scene_ids_0x0a_0x15_for_gs_flag_bytes_5();
    lemma_in_known_overworld_skulltulas_use_scene_ids_0x0a_0x15_for_gs_flag_bytes_5(spec_overworld_skulltulas_use_scene_ids_0x0a_0x15_for_gs_flag_bytes_5()[0]);
    lemma_in_known_overworld_skulltulas_use_scene_ids_0x0a_0x15_for_gs_flag_bytes_5(spec_overworld_skulltulas_use_scene_ids_0x0a_0x15_for_gs_flag_bytes_5()[1]);
    lemma_in_known_overworld_skulltulas_use_scene_ids_0x0a_0x15_for_gs_flag_bytes_5(spec_overworld_skulltulas_use_scene_ids_0x0a_0x15_for_gs_flag_bytes_5()[2]);
    lemma_facts_heart_pieces_and_other_freestanding_collectibles_are_tracked_via_the_1();
    lemma_in_known_heart_pieces_and_other_freestanding_collectibles_are_tracked_via_the_1(spec_heart_pieces_and_other_freestanding_collectibles_are_tracked_via_the_1()[0]);
    lemma_in_known_heart_pieces_and_other_freestanding_collectibles_are_tracked_via_the_1(spec_heart_pieces_and_other_freestanding_collectibles_are_tracked_via_the_1()[1]);
    lemma_in_known_heart_pieces_and_other_freestanding_collectibles_are_tracked_via_the_1(spec_heart_pieces_and_other_freestanding_collectibles_are_tracked_via_the_1()[2]);
    lemma_in_known_heart_pieces_and_other_freestanding_collectibles_are_tracked_via_the_1(spec_heart_pieces_and_other_freestanding_collectibles_are_tracked_via_the_1()[3]);
    lemma_in_known_heart_pieces_and_other_freestanding_collectibles_are_tracked_via_the_1(spec_heart_pieces_and_other_freestanding_collectibles_are_tracked_via_the_1()[4]);
    lemma_in_known_heart_pieces_and_other_freestanding_collectibles_are_tracked_via_the_1(spec_heart_pieces_and_other_freestanding_collectibles_are_tracked_via_the_1()[5]);
    lemma_in_known_heart_pieces_and_other_freestanding_collectibles_are_tracked_via_the_1(spec_heart_pieces_and_other_freestanding_collectibles_are_tracked_via_the_1()[6]);
    lemma_in_known_heart_pieces_and_other_freestanding_collectibles_are_tracked_via_the_1(spec_heart_pieces_and_other_freestanding_collectibles_are_tracked_via_the_1()[7]);
    lemma_in_known_heart_pieces_and_other_freestanding_collectibles_are_tracked_via_the_1(spec_heart_pieces_and_other_freestanding_collectibles_are_tracked_via_the_1()[8]);
    lemma_in_known_heart_pieces_and_other_freestanding_collectibles_are_tracked_via_the_1(spec_heart_pieces_and_other_freestanding_collectibles_are_tracked_via_the_1()[9]);
    lemma_in_known_heart_pieces_and_other_freestanding_collectibles_are_tracked_via_the_1(spec_heart_pieces_and_other_freestanding_collectibles_are_tracked_via_the_1()[10]);
    lemma_in_known_heart_pieces_and_other_freestanding_collectibles_are_tracked_via_the_1(spec_heart_pieces_and_other_freestanding_collectibles_are_tracked_via_the_1()[11]);
    lemma_facts_heart_pieces_and_other_freestanding_collectibles_are_tracked_via_the_2();
    lemma_in_known_heart_pieces_and_other_freestanding_collectibles_are_tracked_via_the_2(spec_heart_pieces_and_other_freestanding_collectibles_are_tracked_via_the_2()[0]);
    lemma_in_known_heart_pieces_and_other_freestanding_collectibles_are_tracked_via_the_2(spec_heart_pieces_and_other_freestanding_collectibles_are_tracked_via_the_2()[1]);
    lemma_in_known_heart_pieces_and_other_freestanding_collectibles_are_tracked_via_the_2(spec_heart_pieces_and_other_freestanding_collectibles_are_tracked_via_the_2()[2]);
    lemma_in_known_heart_pieces_and_other_freestanding_collectibles_are_tracked_via_the_2(spec_heart_pieces_and_other_freestanding_collectibles_are_tracked_via_the_2()[3]);
    lemma_in_known_heart_pieces_and_other_freestanding_collectibles_are_tracked_via_the_2(spec_heart_pieces_and_other_freestanding_collectibles_are_tracked_via_the_2()[4]);
    lemma_in_known_heart_pieces_and_other_freestanding_collectibles_are_tracked_via_the_2(spec_heart_pieces_and_other_freestanding_collectibles_are_tracked_via_the_2()[5]);
    lemma_facts_mq_deku_tree();
    lemma_in_known_mq_deku_tree(spec_mq_deku_tree()[0]);
    lemma_in_known_mq_deku_tree(spec_mq_deku_tree()[1]);
    lemma_in_known_mq_deku_tree(spec_mq_deku_tree()[2]);
    lemma_in_known_mq_deku_tree(spec_mq_deku_tree()[3]);
    lemma_in_known_mq_deku_tree(spec_mq_deku_tree()[4]);
    lemma_in_known_mq_deku_tree(spec_mq_deku_tree()[5]);
    lemma_in_known_mq_deku_tree(spec_mq_deku_tree()[6]);
    lemma_in_known_mq_deku_tree(spec_mq_deku_tree()[7]);
    lemma_in_known_mq_deku_tree(spec_mq_deku_tree()[8]);
    lemma_in_known_mq_deku_tree(spec_mq_deku_tree()[9]);
    lemma_in_known_mq_deku_tree(spec_mq_deku_tree()[10]);
    lemma_facts_mq_dodongo_s_cavern();
    lemma_in_known_mq_dodongo_s_cavern(spec_mq_dodongo_s_cavern()[0]);
    lemma_in_known_mq_dodongo_s_cavern(spec_mq_dodongo_s_cavern()[1]);
    lemma_in_known_mq_dodongo_s_cavern(spec_mq_dodongo_s_cavern()[2]);
    lemma_in_known_mq_dodongo_s_cavern(spec_mq_dodongo_s_cavern()[3]);
    lemma_in_known_mq_dodongo_s_cavern(spec_mq_dodongo_s_cavern()[4]);
    lemma_in_known_mq_dodongo_s_cavern(spec_mq_dodongo_s_cavern()[5]);
    lemma_in_known_mq_dodongo_s_cavern(spec_mq_dodongo_s_cavern()[6]);
    lemma_in_known_mq_dodongo_s_cavern(spec_mq_dodongo_s_cavern()[7]);
    lemma_in_known_mq_dodongo_s_cavern(spec_mq_dodongo_s_cavern()[8]);
    lemma_in_known_mq_dodongo_s_cavern(spec_mq_dodongo_s_cavern()[9]);
    lemma_in_known_mq_dodongo_s_cavern(spec_mq_dodongo_s_cavern()[10]);
    lemma_facts_mq_jabu_jabu_s_belly_1();
    lemma_in_known_mq_jabu_jabu_s_belly_1(spec_mq_jabu_jabu_s_belly_1()[0]);
    lemma_in_known_mq_jabu_jabu_s_belly_1(spec_mq_jabu_jabu_s_belly_1()[1]);
    lemma_in_known_mq_jabu_jabu_s_belly_1(spec_mq_jabu_jabu_s_belly_1()[2]);
    lemma_in_known_mq_jabu_jabu_s_belly_1(spec_mq_jabu_jabu_s_belly_1()[3]);
    lemma_in_known_mq_jabu_jabu_s_belly_1(spec_mq_jabu_jabu_s_belly_1()[4]);
    lemma_in_known_mq_jabu_jabu_s_belly_1(spec_mq_jabu_jabu_s_belly_1()[5]);
    lemma_in_known_mq_jabu_jabu_s_belly_1(spec_mq_jabu_jabu_s_belly_1()[6]);
    lemma_in_known_mq_jabu_jabu_s_belly_1(spec_mq_jabu_jabu_s_belly_1()[7]);
    lemma_in_known_mq_jabu_jabu_s_belly_1(spec_mq_jabu_jabu_s_belly_1()[8]);
    lemma_in_known_mq_jabu_jabu_s_belly_1(spec_mq_jabu_jabu_s_belly_1()[9]);
    lemma_in_known_mq_jabu_jabu_s_belly_1(spec_mq_jabu_jabu_s_belly_1()[10]);
    lemma_in_known_mq_jabu_jabu_s_belly_1(spec_mq_jabu_jabu_s_belly_1()[11]);
    lemma_facts_mq_jabu_jabu_s_belly_2();
    lemma_in_known_mq_jabu_jabu_s_belly_2(spec_mq_jabu_jabu_s_belly_2()[0]);
    lemma_in_known_mq_jabu_jabu_s_belly_2(spec_mq_jabu_jabu_s_belly_2()[1]);
    lemma_in_known_mq_jabu_jabu_s_belly_2(spec_mq_jabu_jabu_s_belly_2()[2]);
    lemma_facts_mq_forest_temple_1();
    lemma_in_known_mq_forest_temple_1(spec_mq_forest_temple_1()[0]);
    lemma_in_known_mq_forest_temple_1(spec_mq_forest_temple_1()[1]);
    lemma_in_known_mq_forest_temple_1(spec_mq_forest_temple_1()[2]);
    lemma_in_known_mq_forest_temple_1(spec_mq_forest_temple_1()[3]);
    lemma_in_known_mq_forest_temple_1(spec_mq_forest_temple_1()[4]);
    lemma_in_known_mq_forest_temple_1(spec_mq_forest_temple_1()[5]);
    lemma_in_known_mq_forest_temple_1(spec_mq_forest_temple_1()[6]);
    lemma_in_known_mq_forest_temple_1(spec_mq_forest_temple_1()[7]);
    lemma_in_known_mq_forest_temple_1(spec_mq_forest_temple_1()[8]);
    lemma_in_known_mq_forest_temple_1(spec_mq_forest_temple_1()[9]);
    lemma_in_known_mq_forest_temple_1(spec_mq_forest_temple_1()[10]);
    lemma_in_known_mq_forest_temple_1(spec_mq_forest_temple_1()[11]);
    lemma_facts_mq_forest_temple_2();
    lemma_in_known_mq_forest_temple_2(spec_mq_forest_temple_2()[0]);
    lemma_in_known_mq_forest_temple_2(spec_mq_forest_temple_2()[1]);
    lemma_in_known_mq_forest_temple_2(spec_mq_forest_temple_2()[2]);
    lemma_in_known_mq_forest_temple_2(spec_mq_forest_temple_2()[3]);
    lemma_facts_mq_fire_temple_1();
    lemma_in_known_mq_fire_temple_1(spec_mq_fire_temple_1()[0]);
    lemma_in_known_mq_fire_temple_1(spec_mq_fire_temple_1()[1]);
    lemma_in_known_mq_fire_temple_1(spec_mq_fire_temple_1()[2]);
    lemma_in_known_mq_fire_temple_1(spec_mq_fire_temple_1()[3]);
    lemma_in_known_mq_fire_temple_1(spec_mq_fire_temple_1()[4]);
    lemma_in_known_mq_fire_temple_1(spec_mq_fire_temple_1()[5]);
    lemma_in_known_mq_fire_temple_1(spec_mq_fire_temple_1()[6]);
    lemma_in_known_mq_fire_temple_1(spec_mq_fire_temple_1()[7]);
    lemma_in_known_mq_fire_temple_1(spec_mq_fire_temple_1()[8]);
    lemma_in_known_mq_fire_temple_1(spec_mq_fire_temple_1()[9]);
    lemma_in_known_mq_fire_temple_1(spec_mq_fire_temple_1()[10]);
    lemma_in_known_mq_fire_temple_1(spec_mq_fire_temple_1()[11]);
    lemma_facts_mq_fire_temple_2();
    lemma_in_known_mq_fire_temple_2(spec_mq_fire_temple_2()[0]);
    lemma_in_known_mq_fire_temple_2(spec_mq_fire_temple_2()[1]);
    lemma_in_known_mq_fire_temple_2(spec_mq_fire_temple_2()[2]);
    lemma_in_known_mq_fire_temple_2(spec_mq_fire_temple_2()[3]);
    lemma_facts_mq_water_temple();
    lemma_in_known_mq_water_temple(spec_mq_water_temple()[0]);
    lemma_in_known_mq_water_temple(spec_mq_water_temple()[1]);
    lemma_in_known_mq_water_temple(spec_mq_water_temple()[2]);
    lemma_in_known_mq_water_temple(spec_mq_water_temple()[3]);
    lemma_in_known_mq_water_temple(spec_mq_water_temple()[4]);
    lemma_in_known_mq_water_temple(spec_mq_water_temple()[5]);
    lemma_in_known_mq_water_temple(spec_mq_water_temple()[6]);
    lemma_in_known_mq_water_temple(spec_mq_water_temple()[7]);
    lemma_in_known_mq_water_temple(spec_mq_water_temple()[8]);
    lemma_in_known_mq_water_temple(spec_mq_water_temple()[9]);
    lemma_facts_mq_spirit_temple_1();
    lemma_in_known_mq_spirit_temple_1(spec_mq_spirit_temple_1()[0]);
    lemma_in_known_mq_spirit_temple_1(spec_mq_spirit_temple_1()[1]);
    lemma_in_known_mq_spirit_temple_1(spec_mq_spirit_temple_1()[2]);
    lemma_in_known_mq_spirit_temple_1(spec_mq_spirit_temple_1()[3]);
    lemma_in_known_mq_spirit_temple_1(spec_mq_spirit_temple_1()[4]);
    lemma_in_known_mq_spirit_temple_1(spec_mq_spirit_temple_1()[5]);
    lemma_in_known_mq_spirit_temple_1(spec_mq_spirit_temple_1()[6]);
    lemma_in_known_mq_spirit_temple_1(spec_mq_spirit_temple_1()[7]);
    lemma_in_known_mq_spirit_temple_1(spec_mq_spirit_temple_1()[8]);
    lemma_in_known_mq_spirit_temple_1(spec_mq_spirit_temple_1()[9]);
    lemma_in_known_mq_spirit_temple_1(spec_mq_spirit_temple_1()[10]);
    lemma_in_known_mq_spirit_temple_1(spec_mq_spirit_temple_1()[11]);
    lemma_facts_mq_spirit_temple_2();
    lemma_in_known_mq_spirit_temple_2(spec_mq_spirit_temple_2()[0]);
    lemma_in_known_mq_spirit_temple_2(spec_mq_spirit_temple_2()[1]);
    lemma_in_known_mq_spirit_temple_2(spec_mq_spirit_temple_2()[2]);
    lemma_in_known_mq_spirit_temple_2(spec_mq_spirit_temple_2()[3]);
    lemma_in_known_mq_spirit_temple_2(spec_mq_spirit_temple_2()[4]);
    lemma_in_known_mq_spirit_temple_2(spec_mq_spirit_temple_2()[5]);
    lemma_in_known_mq_spirit_temple_2(spec_mq_spirit_temple_2()[6]);
    lemma_in_known_mq_spirit_temple_2(spec_mq_spirit_temple_2()[7]);
    lemma_in_known_mq_spirit_temple_2(spec_mq_spirit_temple_2()[8]);
    lemma_in_known_mq_spirit_temple_2(spec_mq_spirit_temple_2()[9]);
    lemma_in_known_mq_spirit_temple_2(spec_mq_spirit_temple_2()[10]);
    lemma_in_known_mq_spirit_temple_2(spec_mq_spirit_temple_2()[11]);
    lemma_facts_mq_spirit_temple_3();
    lemma_in_known_mq_spirit_temple_3(spec_mq_spirit_temple_3()[0]);
    lemma_facts_mq_shadow_temple_1();
    lemma_in_known_mq_shadow_temple_1(spec_mq_shadow_temple_1()[0]);
    lemma_in_known_mq_shadow_temple_1(spec_mq_shadow_temple_1()[1]);
    lemma_in_known_mq_shadow_temple_1(spec_mq_shadow_temple_1()[2]);
    lemma_in_known_mq_shadow_temple_1(spec_mq_shadow_temple_1()[3]);
    lemma_in_known_mq_shadow_temple_1(spec_mq_shadow_temple_1()[4]);
    lemma_in_known_mq_shadow_temple_1(spec_mq_shadow_temple_1()[5]);
    lemma_in_known_mq_shadow_temple_1(spec_mq_shadow_temple_1()[6]);
    lemma_in_known_mq_shadow_temple_1(spec_mq_shadow_temple_1()[7]);
    lemma_in_known_mq_shadow_temple_1(spec_mq_shadow_temple_1()[8]);
    lemma_in_known_mq_shadow_temple_1(spec_mq_shadow_temple_1()[9]);
    lemma_in_known_mq_shadow_temple_1(spec_mq_shadow_temple_1()[10]);
    lemma_in_known_mq_shadow_temple_1(spec_mq_shadow_temple_1()[11]);
    lemma_facts_mq_shadow_temple_2();
    lemma_in_known_mq_shadow_temple_2(spec_mq_shadow_temple_2()[0]);
    lemma_in_known_mq_shadow_temple_2(spec_mq_shadow_temple_2()[1]);
    lemma_in_known_mq_shadow_temple_2(spec_mq_shadow_temple_2()[2]);
    lemma_in_known_mq_shadow_temple_2(spec_mq_shadow_temple_2()[3]);
    lemma_in_known_mq_shadow_temple_2(spec_mq_shadow_temple_2()[4]);
    lemma_in_known_mq_shadow_temple_2(spec_mq_shadow_temple_2()[5]);
    lemma_in_known_mq_shadow_temple_2(spec_mq_shadow_temple_2()[6]);
    lemma_in_known_mq_shadow_temple_2(spec_mq_shadow_temple_2()[7]);
    lemma_in_known_mq_shadow_temple_2(spec_mq_shadow_temple_2()[8]);
    lemma_in_known_mq_shadow_temple_2(spec_mq_shadow_temple_2()[9]);
    lemma_in_known_mq_shadow_temple_2(spec_mq_shadow_temple_2()[10]);
    lemma_in_known_mq_shadow_temple_2(spec_mq_shadow_temple_2()[11]);
    lemma_facts_mq_bottom_of_the_well();
    lemma_in_known_mq_bottom_of_the_well(spec_mq_bottom_of_the_well()[0]);
    lemma_in_known_mq_bottom_of_the_well(spec_mq_bottom_of_the_well()[1]);
    lemma_in_known_mq_bottom_of_the_well(spec_mq_bottom_of_the_well()[2]);
    lemma_in_known_mq_bottom_of_the_well(spec_mq_bottom_of_the_well()[3]);
    lemma_in_known_mq_bottom_of_the_well(spec_mq_bottom_of_the_well()[4]);
    lemma_in_known_mq_bottom_of_the_well(spec_mq_bottom_of_the_well()[5]);
    lemma_facts_mq_ice_cavern();
    lemma_in_known_mq_ice_cavern(spec_mq_ice_cavern()[0]);
    lemma_in_known_mq_ice_cavern(spec_mq_ice_cavern()[1]);
    lemma_in_known_mq_ice_cavern(spec_mq_ice_cavern()[2]);
    lemma_in_known_mq_ice_cavern(spec_mq_ice_cavern()[3]);
    lemma_in_known_mq_ice_cavern(spec_mq_ice_cavern()[4]);
    lemma_facts_mq_gerudo_training_ground_1();
    lemma_in_known_mq_gerudo_training_ground_1(spec_mq_gerudo_training_ground_1()[0]);
    lemma_in_known_mq_gerudo_training_ground_1(spec_mq_gerudo_training_ground_1()[1]);
    lemma_in_known_mq_gerudo_training_ground_1(spec_mq_gerudo_training_ground_1()[2]);
    lemma_in_known_mq_gerudo_training_ground_1(spec_mq_gerudo_training_ground_1()[3]);
    lemma_in_known_mq_gerudo_training_ground_1(spec_mq_gerudo_training_ground_1()[4]);
    lemma_in_known_mq_gerudo_training_ground_1(spec_mq_gerudo_training_ground_1()[5]);
    lemma_in_known_mq_gerudo_training_ground_1(spec_mq_gerudo_training_ground_1()[6]);
    lemma_in_known_mq_gerudo_training_ground_1(spec_mq_gerudo_training_ground_1()[7]);
    lemma_in_known_mq_gerudo_training_ground_1(spec_mq_gerudo_training_ground_1()[8]);
    lemma_in_known_mq_gerudo_training_ground_1(spec_mq_gerudo_training_ground_1()[9]);
    lemma_in_known_mq_gerudo_training_ground_1(spec_mq_gerudo_training_ground_1()[10]);
    lemma_in_known_mq_gerudo_training_ground_1(spec_mq_gerudo_training_ground_1()[11]);
    lemma_facts_mq_gerudo_training_ground_2();
    lemma_in_known_mq_gerudo_training_ground_2(spec_mq_gerudo_training_ground_2()[0]);
    lemma_in_known_mq_gerudo_training_ground_2(spec_mq_gerudo_training_ground_2()[1]);
    lemma_in_known_mq_gerudo_training_ground_2(spec_mq_gerudo_training_ground_2()[2]);
    lemma_in_known_mq_gerudo_training_ground_2(spec_mq_gerudo_training_ground_2()[3]);
    lemma_in_known_mq_gerudo_training_ground_2(spec_mq_gerudo_training_ground_2()[4]);
    lemma_facts_mq_ganon_s_castle();
    lemma_in_known_mq_ganon_s_castle(spec_mq_ganon_s_castle()[0]);
    lemma_in_known_mq_ganon_s_castle(spec_mq_ganon_s_castle()[1]);
    lemma_in_known_mq_ganon_s_castle(spec_mq_ganon_s_castle()[2]);
    lemma_in_known_mq_ganon_s_castle(spec_mq_ganon_s_castle()[3]);
    lemma_in_known_mq_ganon_s_castle(spec_mq_ganon_s_castle()[4]);
    lemma_in_known_mq_ganon_s_castle(spec_mq_ganon_s_castle()[5]);
    lemma_in_known_mq_ganon_s_castle(spec_mq_ganon_s_castle()[6]);
    lemma_in_known_mq_ganon_s_castle(spec_mq_ganon_s_castle()[7]);
    lemma_in_known_mq_ganon_s_castle(spec_mq_ganon_s_castle()[8]);
    lemma_in_known_mq_ganon_s_castle(spec_mq_ganon_s_castle()[9]);
    lemma_in_known_mq_ganon_s_castle(spec_mq_ganon_s_castle()[10]);
    lemma_in_known_mq_ganon_s_castle(spec_mq_ganon_s_castle()[11]);
}

} // verus!
