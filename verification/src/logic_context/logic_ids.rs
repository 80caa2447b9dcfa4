//! Logic identifiers for MM items, as used by the OoTMM logic system.

use vstd::prelude::*;

verus! {

// Equipment items
pub const OCARINA_OF_TIME: &'static str = "OCARINA_OF_TIME";
pub const HEROS_BOW: &'static str = "HEROS_BOW";
pub const FIRE_ARROW: &'static str = "FIRE_ARROW";
pub const ICE_ARROW: &'static str = "ICE_ARROW";
pub const LIGHT_ARROW: &'static str = "LIGHT_ARROW";
pub const HOOKSHOT: &'static str = "HOOKSHOT";
pub const BOMB: &'static str = "BOMB";
pub const BOMBCHU: &'static str = "BOMBCHU";
pub const POWDER_KEG: &'static str = "POWDER_KEG";
pub const LENS_OF_TRUTH: &'static str = "LENS_OF_TRUTH";
pub const PICTOGRAPH_BOX: &'static str = "PICTOGRAPH_BOX";
pub const GREAT_FAIRY_SWORD: &'static str = "GREAT_FAIRY_SWORD";
pub const MAGIC_BEAN: &'static str = "MAGIC_BEAN";
pub const DEKU_STICK: &'static str = "DEKU_STICK";
pub const DEKU_NUT: &'static str = "DEKU_NUT";

// Transformation masks
pub const DEKU_MASK: &'static str = "DEKU_MASK";
pub const GORON_MASK: &'static str = "GORON_MASK";
pub const ZORA_MASK: &'static str = "ZORA_MASK";
pub const FIERCE_DEITY_MASK: &'static str = "FIERCE_DEITY_MASK";

// Regular masks
pub const POSTMAN_HAT: &'static str = "POSTMAN_HAT";
pub const ALL_NIGHT_MASK: &'static str = "ALL_NIGHT_MASK";
pub const BLAST_MASK: &'static str = "BLAST_MASK";
pub const STONE_MASK: &'static str = "STONE_MASK";
pub const GREAT_FAIRY_MASK: &'static str = "GREAT_FAIRY_MASK";
pub const KEATON_MASK: &'static str = "KEATON_MASK";
pub const BREMEN_MASK: &'static str = "BREMEN_MASK";
pub const BUNNY_HOOD: &'static str = "BUNNY_HOOD";
pub const DON_GERO_MASK: &'static str = "DON_GERO_MASK";
pub const MASK_OF_SCENTS: &'static str = "MASK_OF_SCENTS";
pub const ROMANI_MASK: &'static str = "ROMANI_MASK";
pub const CIRCUS_LEADER_MASK: &'static str = "CIRCUS_LEADER_MASK";
pub const KAFEI_MASK: &'static str = "KAFEI_MASK";
pub const COUPLES_MASK: &'static str = "COUPLES_MASK";
pub const MASK_OF_TRUTH: &'static str = "MASK_OF_TRUTH";
pub const KAMARO_MASK: &'static str = "KAMARO_MASK";
pub const GIBDO_MASK: &'static str = "GIBDO_MASK";
pub const GARO_MASK: &'static str = "GARO_MASK";
pub const CAPTAIN_HAT: &'static str = "CAPTAIN_HAT";
pub const GIANT_MASK: &'static str = "GIANT_MASK";

// Songs
pub const SONG_OF_TIME: &'static str = "SONG_OF_TIME";
pub const SONG_OF_HEALING: &'static str = "SONG_OF_HEALING";
pub const EPONAS_SONG: &'static str = "EPONAS_SONG";
pub const SONG_OF_SOARING: &'static str = "SONG_OF_SOARING";
pub const SONG_OF_STORMS: &'static str = "SONG_OF_STORMS";
pub const SONATA_OF_AWAKENING: &'static str = "SONATA_OF_AWAKENING";
pub const GORON_LULLABY: &'static str = "GORON_LULLABY";
pub const NEW_WAVE_BOSSA_NOVA: &'static str = "NEW_WAVE_BOSSA_NOVA";
pub const ELEGY_OF_EMPTINESS: &'static str = "ELEGY_OF_EMPTINESS";
pub const OATH_TO_ORDER: &'static str = "OATH_TO_ORDER";

// Boss remains
pub const ODOLWA_REMAINS: &'static str = "ODOLWA_REMAINS";
pub const GOHT_REMAINS: &'static str = "GOHT_REMAINS";
pub const GYORG_REMAINS: &'static str = "GYORG_REMAINS";
pub const TWINMOLD_REMAINS: &'static str = "TWINMOLD_REMAINS";

// Equipment
pub const KOKIRI_SWORD: &'static str = "KOKIRI_SWORD";
pub const RAZOR_SWORD: &'static str = "RAZOR_SWORD";
pub const GILDED_SWORD: &'static str = "GILDED_SWORD";
pub const HERO_SHIELD: &'static str = "HERO_SHIELD";
pub const MIRROR_SHIELD: &'static str = "MIRROR_SHIELD";

// Bottles
pub const BOTTLE: &'static str = "BOTTLE";

// Upgrades
pub const MAGIC_METER: &'static str = "MAGIC_METER";
pub const DOUBLE_MAGIC: &'static str = "DOUBLE_MAGIC";
pub const DOUBLE_DEFENSE: &'static str = "DOUBLE_DEFENSE";
pub const ADULT_WALLET: &'static str = "ADULT_WALLET";
pub const GIANT_WALLET: &'static str = "GIANT_WALLET";
pub const QUIVER_30: &'static str = "QUIVER_30";
pub const QUIVER_40: &'static str = "QUIVER_40";
pub const QUIVER_50: &'static str = "QUIVER_50";
pub const BOMB_BAG_20: &'static str = "BOMB_BAG_20";
pub const BOMB_BAG_30: &'static str = "BOMB_BAG_30";
pub const BOMB_BAG_40: &'static str = "BOMB_BAG_40";

// Dungeon-specific keys
pub const SMALL_KEY_WOODFALL_TEMPLE: &'static str = "SMALL_KEY_WOODFALL_TEMPLE";
pub const SMALL_KEY_SNOWHEAD_TEMPLE: &'static str = "SMALL_KEY_SNOWHEAD_TEMPLE";
pub const SMALL_KEY_GREAT_BAY_TEMPLE: &'static str = "SMALL_KEY_GREAT_BAY_TEMPLE";
pub const SMALL_KEY_STONE_TOWER_TEMPLE: &'static str = "SMALL_KEY_STONE_TOWER_TEMPLE";

// Stray fairies
pub const STRAY_FAIRY_CLOCK_TOWN: &'static str = "STRAY_FAIRY_CLOCK_TOWN";
pub const STRAY_FAIRY_WOODFALL: &'static str = "STRAY_FAIRY_WOODFALL";
pub const STRAY_FAIRY_SNOWHEAD: &'static str = "STRAY_FAIRY_SNOWHEAD";
pub const STRAY_FAIRY_GREAT_BAY: &'static str = "STRAY_FAIRY_GREAT_BAY";
pub const STRAY_FAIRY_STONE_TOWER: &'static str = "STRAY_FAIRY_STONE_TOWER";


/// Every logic identifier, in the order the inventory lists them.
pub open spec fn spec_all_logic_ids() -> Seq<&'static str> {
    seq![
        OCARINA_OF_TIME,
        HEROS_BOW,
        FIRE_ARROW,
        ICE_ARROW,
        LIGHT_ARROW,
        HOOKSHOT,
        BOMB,
        BOMBCHU,
        POWDER_KEG,
        LENS_OF_TRUTH,
        PICTOGRAPH_BOX,
        GREAT_FAIRY_SWORD,
        MAGIC_BEAN,
        DEKU_STICK,
        DEKU_NUT,
        DEKU_MASK,
        GORON_MASK,
        ZORA_MASK,
        FIERCE_DEITY_MASK,
        POSTMAN_HAT,
        ALL_NIGHT_MASK,
        BLAST_MASK,
        STONE_MASK,
        GREAT_FAIRY_MASK,
        KEATON_MASK,
        BREMEN_MASK,
        BUNNY_HOOD,
        DON_GERO_MASK,
        MASK_OF_SCENTS,
        ROMANI_MASK,
        CIRCUS_LEADER_MASK,
        KAFEI_MASK,
        COUPLES_MASK,
        MASK_OF_TRUTH,
        KAMARO_MASK,
        GIBDO_MASK,
        GARO_MASK,
        CAPTAIN_HAT,
        GIANT_MASK,
        SONG_OF_TIME,
        SONG_OF_HEALING,
        EPONAS_SONG,
        SONG_OF_SOARING,
        SONG_OF_STORMS,
        SONATA_OF_AWAKENING,
        GORON_LULLABY,
        NEW_WAVE_BOSSA_NOVA,
        ELEGY_OF_EMPTINESS,
        OATH_TO_ORDER,
        ODOLWA_REMAINS,
        GOHT_REMAINS,
        GYORG_REMAINS,
        TWINMOLD_REMAINS,
        KOKIRI_SWORD,
        RAZOR_SWORD,
        GILDED_SWORD,
        HERO_SHIELD,
        MIRROR_SHIELD,
        MAGIC_METER,
        DOUBLE_MAGIC,
        DOUBLE_DEFENSE,
        ADULT_WALLET,
        GIANT_WALLET,
        QUIVER_30,
        QUIVER_40,
        QUIVER_50,
        BOMB_BAG_20,
        BOMB_BAG_30,
        BOMB_BAG_40,
        BOTTLE,
        SMALL_KEY_WOODFALL_TEMPLE,
        SMALL_KEY_SNOWHEAD_TEMPLE,
        SMALL_KEY_GREAT_BAY_TEMPLE,
        SMALL_KEY_STONE_TOWER_TEMPLE,
        STRAY_FAIRY_CLOCK_TOWN,
        STRAY_FAIRY_WOODFALL,
        STRAY_FAIRY_SNOWHEAD,
        STRAY_FAIRY_GREAT_BAY,
        STRAY_FAIRY_STONE_TOWER,
    ]
}

} // verus!
