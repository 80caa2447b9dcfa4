//! Item and location tracking logic for the Ocarina of Time / Majora's Mask
//! randomizer: game detection from emulator RAM, location flag mappings,
//! location status checks, dungeon reward knowledge and the logic contexts.

pub mod eval_context;
pub mod flag_mapping;
pub mod game_detection;
pub mod inventory;
pub mod inventory_laws;
pub mod knowledge;
pub mod location_table;
pub mod logic_context;
pub mod mm_flag_mapping;
pub mod mm_item_laws;
pub mod mm_save;
pub mod save;
pub mod text;
pub mod web;
