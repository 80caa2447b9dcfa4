//! Laws stating, item name by item name, which part of an MM save answers
//! the logic's item queries.

use vstd::prelude::*;

use crate::logic_context::{
    lemma_filled_slots_bound, spec_bomb_bag_level, spec_boss_remains_count, spec_bottle_count, spec_filled_slots, spec_has_adult_wallet, spec_has_bottle, spec_has_giant_wallet, spec_has_named_item, spec_named_event, spec_named_item_count, spec_quiver_level, spec_wallet_level,
};
use crate::mm_save::{MmSave, MmBottle, MmMagicCapacity, MmShield, MmSword};

verus! {

/// The lengths of the item names.
proof fn lemma_item_name_lengths()
    ensures
        "ADULTWALLET"@.len() == 11,
        "ADULT_WALLET"@.len() == 12,
        "ALLNIGHTMASK"@.len() == 12,
        "ALL_NIGHT_MASK"@.len() == 14,
        "BLASTMASK"@.len() == 9,
        "BLAST_MASK"@.len() == 10,
        "BOMB"@.len() == 4,
        "BOMBCHU"@.len() == 7,
        "BOMBCHUS"@.len() == 8,
        "BOMBS"@.len() == 5,
        "BOMB_BAG_20"@.len() == 11,
        "BOMB_BAG_30"@.len() == 11,
        "BOMB_BAG_40"@.len() == 11,
        "BOSSREMAINS"@.len() == 11,
        "BOSS_REMAINS"@.len() == 12,
        "BOTTLE"@.len() == 6,
        "BREMENMASK"@.len() == 10,
        "BREMEN_MASK"@.len() == 11,
        "BUNNYHOOD"@.len() == 9,
        "BUNNY_HOOD"@.len() == 10,
        "CAPTAINHAT"@.len() == 10,
        "CAPTAIN_HAT"@.len() == 11,
        "CIRCUSLEADERMASK"@.len() == 16,
        "CIRCUS_LEADER_MASK"@.len() == 18,
        "COUPLESMASK"@.len() == 11,
        "COUPLES_MASK"@.len() == 12,
        "DEKUMASK"@.len() == 8,
        "DEKUNUT"@.len() == 7,
        "DEKUSTICK"@.len() == 9,
        "DEKU_MASK"@.len() == 9,
        "DEKU_NUT"@.len() == 8,
        "DEKU_STICK"@.len() == 10,
        "DONGEROMASK"@.len() == 11,
        "DON_GERO_MASK"@.len() == 13,
        "DOUBLEDEFENSE"@.len() == 13,
        "DOUBLEMAGIC"@.len() == 11,
        "DOUBLE_DEFENSE"@.len() == 14,
        "DOUBLE_MAGIC"@.len() == 12,
        "ELEGYOFEMPTINESS"@.len() == 16,
        "ELEGY_OF_EMPTINESS"@.len() == 18,
        "EPONASSONG"@.len() == 10,
        "EPONAS_SONG"@.len() == 11,
        "FIERCEDEITYMASK"@.len() == 15,
        "FIERCE_DEITY_MASK"@.len() == 17,
        "FIREARROW"@.len() == 9,
        "FIRE_ARROW"@.len() == 10,
        "GAROMASK"@.len() == 8,
        "GARO_MASK"@.len() == 9,
        "GIANTMASK"@.len() == 9,
        "GIANTSWALLET"@.len() == 12,
        "GIANTS_WALLET"@.len() == 13,
        "GIANTWALLET"@.len() == 11,
        "GIANT_MASK"@.len() == 10,
        "GIANT_WALLET"@.len() == 12,
        "GIBDOMASK"@.len() == 9,
        "GIBDO_MASK"@.len() == 10,
        "GILDEDSWORD"@.len() == 11,
        "GILDED_SWORD"@.len() == 12,
        "GOHTREMAINS"@.len() == 11,
        "GOHT_DEFEATED"@.len() == 13,
        "GOHT_DEFEATED_CYCLE"@.len() == 19,
        "GOHT_REMAINS"@.len() == 12,
        "GORONLULLABY"@.len() == 12,
        "GORONMASK"@.len() == 9,
        "GORON_LULLABY"@.len() == 13,
        "GORON_MASK"@.len() == 10,
        "GREATFAIRYMASK"@.len() == 14,
        "GREATFAIRYSWORD"@.len() == 15,
        "GREAT_BAY_TEMPLE_CLEAR"@.len() == 22,
        "GREAT_BAY_TEMPLE_CLEAR_CYCLE"@.len() == 28,
        "GREAT_FAIRY_MASK"@.len() == 16,
        "GREAT_FAIRY_SWORD"@.len() == 17,
        "GYORGREMAINS"@.len() == 12,
        "GYORG_DEFEATED"@.len() == 14,
        "GYORG_DEFEATED_CYCLE"@.len() == 20,
        "GYORG_REMAINS"@.len() == 13,
        "HEROSBOW"@.len() == 8,
        "HEROSHIELD"@.len() == 10,
        "HEROS_BOW"@.len() == 9,
        "HERO_SHIELD"@.len() == 11,
        "HOOKSHOT"@.len() == 8,
        "ICEARROW"@.len() == 8,
        "ICE_ARROW"@.len() == 9,
        "KAFEIMASK"@.len() == 9,
        "KAFEI_MASK"@.len() == 10,
        "KAMAROMASK"@.len() == 10,
        "KAMARO_MASK"@.len() == 11,
        "KEATONMASK"@.len() == 10,
        "KEATON_MASK"@.len() == 11,
        "KOKIRISWORD"@.len() == 11,
        "KOKIRI_SWORD"@.len() == 12,
        "LENSOFTRUTH"@.len() == 11,
        "LENS_OF_TRUTH"@.len() == 13,
        "LIGHTARROW"@.len() == 10,
        "LIGHT_ARROW"@.len() == 11,
        "MAGIC"@.len() == 5,
        "MAGICBEAN"@.len() == 9,
        "MAGICMETER"@.len() == 10,
        "MAGIC_BEAN"@.len() == 10,
        "MAGIC_METER"@.len() == 11,
        "MASKOFSCENTS"@.len() == 12,
        "MASKOFTRUTH"@.len() == 11,
        "MASK_OF_SCENTS"@.len() == 14,
        "MASK_OF_TRUTH"@.len() == 13,
        "MIRRORSHIELD"@.len() == 12,
        "MIRROR_SHIELD"@.len() == 13,
        "NEWWAVEBOSSANOVA"@.len() == 16,
        "NEW_WAVE_BOSSA_NOVA"@.len() == 19,
        "OATHTOORDER"@.len() == 11,
        "OATH_TO_ORDER"@.len() == 13,
        "OCARINAOFTTIME"@.len() == 14,
        "OCARINA_OF_TIME"@.len() == 15,
        "ODOLWAREMAINS"@.len() == 13,
        "ODOLWA_DEFEATED"@.len() == 15,
        "ODOLWA_DEFEATED_CYCLE"@.len() == 21,
        "ODOLWA_REMAINS"@.len() == 14,
        "PICTOGRAPHBOX"@.len() == 13,
        "PICTOGRAPH_BOX"@.len() == 14,
        "POSTMANHAT"@.len() == 10,
        "POSTMAN_HAT"@.len() == 11,
        "POWDERKEG"@.len() == 9,
        "POWDER_KEG"@.len() == 10,
        "QUIVER_30"@.len() == 9,
        "QUIVER_40"@.len() == 9,
        "QUIVER_50"@.len() == 9,
        "RAZORSWORD"@.len() == 10,
        "RAZOR_SWORD"@.len() == 11,
        "ROMANIMASK"@.len() == 10,
        "ROMANI_MASK"@.len() == 11,
        "SMALLKEYGREATBAYTEMPLE"@.len() == 22,
        "SMALLKEYSNOWHEADTEMPLE"@.len() == 22,
        "SMALLKEYSTONETOWERTEMPLE"@.len() == 24,
        "SMALLKEYWOODFALLTEMPLE"@.len() == 22,
        "SMALL_KEY_GREAT_BAY_TEMPLE"@.len() == 26,
        "SMALL_KEY_SNOWHEAD_TEMPLE"@.len() == 25,
        "SMALL_KEY_STONE_TOWER_TEMPLE"@.len() == 28,
        "SMALL_KEY_WOODFALL_TEMPLE"@.len() == 25,
        "SNOWHEAD_TEMPLE_CLEAR"@.len() == 21,
        "SNOWHEAD_TEMPLE_CLEAR_CYCLE"@.len() == 27,
        "SONATAOFAWAKENING"@.len() == 17,
        "SONATA_OF_AWAKENING"@.len() == 19,
        "SONGOFHEALING"@.len() == 13,
        "SONGOFSOARING"@.len() == 13,
        "SONGOFSTORMS"@.len() == 12,
        "SONGOFTIME"@.len() == 10,
        "SONG_OF_HEALING"@.len() == 15,
        "SONG_OF_SOARING"@.len() == 15,
        "SONG_OF_STORMS"@.len() == 14,
        "SONG_OF_TIME"@.len() == 12,
        "STONEMASK"@.len() == 9,
        "STONE_MASK"@.len() == 10,
        "STONE_TOWER_TEMPLE_CLEAR"@.len() == 24,
        "STONE_TOWER_TEMPLE_CLEAR_CYCLE"@.len() == 30,
        "STRAYFAIRYCLOCKTOWN"@.len() == 19,
        "STRAYFAIRYGREATBAY"@.len() == 18,
        "STRAYFAIRYSNOWHEAD"@.len() == 18,
        "STRAYFAIRYSTONETOWER"@.len() == 20,
        "STRAYFAIRYWOODFALL"@.len() == 18,
        "STRAY_FAIRY_CLOCK_TOWN"@.len() == 22,
        "STRAY_FAIRY_GREAT_BAY"@.len() == 21,
        "STRAY_FAIRY_SNOWHEAD"@.len() == 20,
        "STRAY_FAIRY_STONE_TOWER"@.len() == 23,
        "STRAY_FAIRY_WOODFALL"@.len() == 20,
        "TWINMOLDREMAINS"@.len() == 15,
        "TWINMOLD_DEFEATED"@.len() == 17,
        "TWINMOLD_DEFEATED_CYCLE"@.len() == 23,
        "TWINMOLD_REMAINS"@.len() == 16,
        "WOODFALL_TEMPLE_CLEAR"@.len() == 21,
        "WOODFALL_TEMPLE_CLEAR_CYCLE"@.len() == 27,
        "ZORAMASK"@.len() == 8,
        "ZORA_MASK"@.len() == 9,
{
    reveal_strlit("ADULTWALLET");
    reveal_strlit("ADULT_WALLET");
    reveal_strlit("ALLNIGHTMASK");
    reveal_strlit("ALL_NIGHT_MASK");
    reveal_strlit("BLASTMASK");
    reveal_strlit("BLAST_MASK");
    reveal_strlit("BOMB");
    reveal_strlit("BOMBCHU");
    reveal_strlit("BOMBCHUS");
    reveal_strlit("BOMBS");
    reveal_strlit("BOMB_BAG_20");
    reveal_strlit("BOMB_BAG_30");
    reveal_strlit("BOMB_BAG_40");
    reveal_strlit("BOSSREMAINS");
    reveal_strlit("BOSS_REMAINS");
    reveal_strlit("BOTTLE");
    reveal_strlit("BREMENMASK");
    reveal_strlit("BREMEN_MASK");
    reveal_strlit("BUNNYHOOD");
    reveal_strlit("BUNNY_HOOD");
    reveal_strlit("CAPTAINHAT");
    reveal_strlit("CAPTAIN_HAT");
    reveal_strlit("CIRCUSLEADERMASK");
    reveal_strlit("CIRCUS_LEADER_MASK");
    reveal_strlit("COUPLESMASK");
    reveal_strlit("COUPLES_MASK");
    reveal_strlit("DEKUMASK");
    reveal_strlit("DEKUNUT");
    reveal_strlit("DEKUSTICK");
    reveal_strlit("DEKU_MASK");
    reveal_strlit("DEKU_NUT");
    reveal_strlit("DEKU_STICK");
    reveal_strlit("DONGEROMASK");
    reveal_strlit("DON_GERO_MASK");
    reveal_strlit("DOUBLEDEFENSE");
    reveal_strlit("DOUBLEMAGIC");
    reveal_strlit("DOUBLE_DEFENSE");
    reveal_strlit("DOUBLE_MAGIC");
    reveal_strlit("ELEGYOFEMPTINESS");
    reveal_strlit("ELEGY_OF_EMPTINESS");
    reveal_strlit("EPONASSONG");
    reveal_strlit("EPONAS_SONG");
    reveal_strlit("FIERCEDEITYMASK");
    reveal_strlit("FIERCE_DEITY_MASK");
    reveal_strlit("FIREARROW");
    reveal_strlit("FIRE_ARROW");
    reveal_strlit("GAROMASK");
    reveal_strlit("GARO_MASK");
    reveal_strlit("GIANTMASK");
    reveal_strlit("GIANTSWALLET");
    reveal_strlit("GIANTS_WALLET");
    reveal_strlit("GIANTWALLET");
    reveal_strlit("GIANT_MASK");
    reveal_strlit("GIANT_WALLET");
    reveal_strlit("GIBDOMASK");
    reveal_strlit("GIBDO_MASK");
    reveal_strlit("GILDEDSWORD");
    reveal_strlit("GILDED_SWORD");
    reveal_strlit("GOHTREMAINS");
    reveal_strlit("GOHT_DEFEATED");
    reveal_strlit("GOHT_DEFEATED_CYCLE");
    reveal_strlit("GOHT_REMAINS");
    reveal_strlit("GORONLULLABY");
    reveal_strlit("GORONMASK");
    reveal_strlit("GORON_LULLABY");
    reveal_strlit("GORON_MASK");
    reveal_strlit("GREATFAIRYMASK");
    reveal_strlit("GREATFAIRYSWORD");
    reveal_strlit("GREAT_BAY_TEMPLE_CLEAR");
    reveal_strlit("GREAT_BAY_TEMPLE_CLEAR_CYCLE");
    reveal_strlit("GREAT_FAIRY_MASK");
    reveal_strlit("GREAT_FAIRY_SWORD");
    reveal_strlit("GYORGREMAINS");
    reveal_strlit("GYORG_DEFEATED");
    reveal_strlit("GYORG_DEFEATED_CYCLE");
    reveal_strlit("GYORG_REMAINS");
    reveal_strlit("HEROSBOW");
    reveal_strlit("HEROSHIELD");
    reveal_strlit("HEROS_BOW");
    reveal_strlit("HERO_SHIELD");
    reveal_strlit("HOOKSHOT");
    reveal_strlit("ICEARROW");
    reveal_strlit("ICE_ARROW");
    reveal_strlit("KAFEIMASK");
    reveal_strlit("KAFEI_MASK");
    reveal_strlit("KAMAROMASK");
    reveal_strlit("KAMARO_MASK");
    reveal_strlit("KEATONMASK");
    reveal_strlit("KEATON_MASK");
    reveal_strlit("KOKIRISWORD");
    reveal_strlit("KOKIRI_SWORD");
    reveal_strlit("LENSOFTRUTH");
    reveal_strlit("LENS_OF_TRUTH");
    reveal_strlit("LIGHTARROW");
    reveal_strlit("LIGHT_ARROW");
    reveal_strlit("MAGIC");
    reveal_strlit("MAGICBEAN");
    reveal_strlit("MAGICMETER");
    reveal_strlit("MAGIC_BEAN");
    reveal_strlit("MAGIC_METER");
    reveal_strlit("MASKOFSCENTS");
    reveal_strlit("MASKOFTRUTH");
    reveal_strlit("MASK_OF_SCENTS");
    reveal_strlit("MASK_OF_TRUTH");
    reveal_strlit("MIRRORSHIELD");
    reveal_strlit("MIRROR_SHIELD");
    reveal_strlit("NEWWAVEBOSSANOVA");
    reveal_strlit("NEW_WAVE_BOSSA_NOVA");
    reveal_strlit("OATHTOORDER");
    reveal_strlit("OATH_TO_ORDER");
    reveal_strlit("OCARINAOFTTIME");
    reveal_strlit("OCARINA_OF_TIME");
    reveal_strlit("ODOLWAREMAINS");
    reveal_strlit("ODOLWA_DEFEATED");
    reveal_strlit("ODOLWA_DEFEATED_CYCLE");
    reveal_strlit("ODOLWA_REMAINS");
    reveal_strlit("PICTOGRAPHBOX");
    reveal_strlit("PICTOGRAPH_BOX");
    reveal_strlit("POSTMANHAT");
    reveal_strlit("POSTMAN_HAT");
    reveal_strlit("POWDERKEG");
    reveal_strlit("POWDER_KEG");
    reveal_strlit("QUIVER_30");
    reveal_strlit("QUIVER_40");
    reveal_strlit("QUIVER_50");
    reveal_strlit("RAZORSWORD");
    reveal_strlit("RAZOR_SWORD");
    reveal_strlit("ROMANIMASK");
    reveal_strlit("ROMANI_MASK");
    reveal_strlit("SMALLKEYGREATBAYTEMPLE");
    reveal_strlit("SMALLKEYSNOWHEADTEMPLE");
    reveal_strlit("SMALLKEYSTONETOWERTEMPLE");
    reveal_strlit("SMALLKEYWOODFALLTEMPLE");
    reveal_strlit("SMALL_KEY_GREAT_BAY_TEMPLE");
    reveal_strlit("SMALL_KEY_SNOWHEAD_TEMPLE");
    reveal_strlit("SMALL_KEY_STONE_TOWER_TEMPLE");
    reveal_strlit("SMALL_KEY_WOODFALL_TEMPLE");
    reveal_strlit("SNOWHEAD_TEMPLE_CLEAR");
    reveal_strlit("SNOWHEAD_TEMPLE_CLEAR_CYCLE");
    reveal_strlit("SONATAOFAWAKENING");
    reveal_strlit("SONATA_OF_AWAKENING");
    reveal_strlit("SONGOFHEALING");
    reveal_strlit("SONGOFSOARING");
    reveal_strlit("SONGOFSTORMS");
    reveal_strlit("SONGOFTIME");
    reveal_strlit("SONG_OF_HEALING");
    reveal_strlit("SONG_OF_SOARING");
    reveal_strlit("SONG_OF_STORMS");
    reveal_strlit("SONG_OF_TIME");
    reveal_strlit("STONEMASK");
    reveal_strlit("STONE_MASK");
    reveal_strlit("STONE_TOWER_TEMPLE_CLEAR");
    reveal_strlit("STONE_TOWER_TEMPLE_CLEAR_CYCLE");
    reveal_strlit("STRAYFAIRYCLOCKTOWN");
    reveal_strlit("STRAYFAIRYGREATBAY");
    reveal_strlit("STRAYFAIRYSNOWHEAD");
    reveal_strlit("STRAYFAIRYSTONETOWER");
    reveal_strlit("STRAYFAIRYWOODFALL");
    reveal_strlit("STRAY_FAIRY_CLOCK_TOWN");
    reveal_strlit("STRAY_FAIRY_GREAT_BAY");
    reveal_strlit("STRAY_FAIRY_SNOWHEAD");
    reveal_strlit("STRAY_FAIRY_STONE_TOWER");
    reveal_strlit("STRAY_FAIRY_WOODFALL");
    reveal_strlit("TWINMOLDREMAINS");
    reveal_strlit("TWINMOLD_DEFEATED");
    reveal_strlit("TWINMOLD_DEFEATED_CYCLE");
    reveal_strlit("TWINMOLD_REMAINS");
    reveal_strlit("WOODFALL_TEMPLE_CLEAR");
    reveal_strlit("WOODFALL_TEMPLE_CLEAR_CYCLE");
    reveal_strlit("ZORAMASK");
    reveal_strlit("ZORA_MASK");
}

/// What the save holds of `BOTTLE`.
#[verifier::rlimit(40)]
proof fn lemma_count_bottle(s: MmSave)
    ensures
        spec_named_item_count(s, "BOTTLE"@) == (spec_bottle_count(s)),
{
    lemma_item_name_lengths();
    lemma_filled_slots_bound(s.inventory.bottles@);
}

/// What the save holds of `SMALL_KEY_WOODFALL_TEMPLE`.
#[verifier::rlimit(40)]
proof fn lemma_count_small_key_woodfall_temple(s: MmSave)
    ensures
        spec_named_item_count(s, "SMALL_KEY_WOODFALL_TEMPLE"@) == (s.small_keys.woodfall as nat),
{
    lemma_item_name_lengths();
    lemma_filled_slots_bound(s.inventory.bottles@);
}

/// What the save holds of `SMALLKEYWOODFALLTEMPLE`.
#[verifier::rlimit(40)]
proof fn lemma_count_smallkeywoodfalltemple(s: MmSave)
    ensures
        spec_named_item_count(s, "SMALLKEYWOODFALLTEMPLE"@) == (s.small_keys.woodfall as nat),
{
    lemma_item_name_lengths();
    lemma_filled_slots_bound(s.inventory.bottles@);
}

/// What the save holds of `SMALL_KEY_SNOWHEAD_TEMPLE`.
#[verifier::rlimit(40)]
proof fn lemma_count_small_key_snowhead_temple(s: MmSave)
    ensures
        spec_named_item_count(s, "SMALL_KEY_SNOWHEAD_TEMPLE"@) == (s.small_keys.snowhead as nat),
{
    lemma_item_name_lengths();
    lemma_filled_slots_bound(s.inventory.bottles@);
    reveal_strlit("SMALL_KEY_SNOWHEAD_TEMPLE");
    reveal_strlit("SMALL_KEY_WOODFALL_TEMPLE");
    assert("SMALL_KEY_SNOWHEAD_TEMPLE"@[10] != "SMALL_KEY_WOODFALL_TEMPLE"@[10]);
}

/// What the save holds of `SMALLKEYSNOWHEADTEMPLE`.
#[verifier::rlimit(40)]
proof fn lemma_count_smallkeysnowheadtemple(s: MmSave)
    ensures
        spec_named_item_count(s, "SMALLKEYSNOWHEADTEMPLE"@) == (s.small_keys.snowhead as nat),
{
    lemma_item_name_lengths();
    lemma_filled_slots_bound(s.inventory.bottles@);
    reveal_strlit("SMALLKEYSNOWHEADTEMPLE");
    reveal_strlit("SMALLKEYWOODFALLTEMPLE");
    assert("SMALLKEYSNOWHEADTEMPLE"@[8] != "SMALLKEYWOODFALLTEMPLE"@[8]);
}

/// What the save holds of `SMALL_KEY_GREAT_BAY_TEMPLE`.
#[verifier::rlimit(40)]
proof fn lemma_count_small_key_great_bay_temple(s: MmSave)
    ensures
        spec_named_item_count(s, "SMALL_KEY_GREAT_BAY_TEMPLE"@) == (s.small_keys.great_bay as nat),
{
    lemma_item_name_lengths();
    lemma_filled_slots_bound(s.inventory.bottles@);
}

/// What the save holds of `SMALLKEYGREATBAYTEMPLE`.
#[verifier::rlimit(40)]
proof fn lemma_count_smallkeygreatbaytemple(s: MmSave)
    ensures
        spec_named_item_count(s, "SMALLKEYGREATBAYTEMPLE"@) == (s.small_keys.great_bay as nat),
{
    lemma_item_name_lengths();
    lemma_filled_slots_bound(s.inventory.bottles@);
    reveal_strlit("SMALLKEYGREATBAYTEMPLE");
    reveal_strlit("SMALLKEYWOODFALLTEMPLE");
    assert("SMALLKEYGREATBAYTEMPLE"@[8] != "SMALLKEYWOODFALLTEMPLE"@[8]);
    reveal_strlit("SMALLKEYSNOWHEADTEMPLE");
    assert("SMALLKEYGREATBAYTEMPLE"@[8] != "SMALLKEYSNOWHEADTEMPLE"@[8]);
}

/// What the save holds of `SMALL_KEY_STONE_TOWER_TEMPLE`.
#[verifier::rlimit(40)]
proof fn lemma_count_small_key_stone_tower_temple(s: MmSave)
    ensures
        spec_named_item_count(s, "SMALL_KEY_STONE_TOWER_TEMPLE"@) == (s.small_keys.stone_tower as nat),
{
    lemma_item_name_lengths();
    lemma_filled_slots_bound(s.inventory.bottles@);
}

/// What the save holds of `SMALLKEYSTONETOWERTEMPLE`.
#[verifier::rlimit(40)]
proof fn lemma_count_smallkeystonetowertemple(s: MmSave)
    ensures
        spec_named_item_count(s, "SMALLKEYSTONETOWERTEMPLE"@) == (s.small_keys.stone_tower as nat),
{
    lemma_item_name_lengths();
    lemma_filled_slots_bound(s.inventory.bottles@);
}

/// What the save holds of `STRAY_FAIRY_CLOCK_TOWN`.
#[verifier::rlimit(40)]
proof fn lemma_count_stray_fairy_clock_town(s: MmSave)
    ensures
        spec_named_item_count(s, "STRAY_FAIRY_CLOCK_TOWN"@) == (s.stray_fairies.clock_town as nat),
{
    lemma_item_name_lengths();
    lemma_filled_slots_bound(s.inventory.bottles@);
    reveal_strlit("STRAY_FAIRY_CLOCK_TOWN");
    reveal_strlit("SMALLKEYWOODFALLTEMPLE");
    assert("STRAY_FAIRY_CLOCK_TOWN"@[1] != "SMALLKEYWOODFALLTEMPLE"@[1]);
    reveal_strlit("SMALLKEYSNOWHEADTEMPLE");
    assert("STRAY_FAIRY_CLOCK_TOWN"@[1] != "SMALLKEYSNOWHEADTEMPLE"@[1]);
    reveal_strlit("SMALLKEYGREATBAYTEMPLE");
    assert("STRAY_FAIRY_CLOCK_TOWN"@[1] != "SMALLKEYGREATBAYTEMPLE"@[1]);
}

/// What the save holds of `STRAYFAIRYCLOCKTOWN`.
#[verifier::rlimit(40)]
proof fn lemma_count_strayfairyclocktown(s: MmSave)
    ensures
        spec_named_item_count(s, "STRAYFAIRYCLOCKTOWN"@) == (s.stray_fairies.clock_town as nat),
{
    lemma_item_name_lengths();
    lemma_filled_slots_bound(s.inventory.bottles@);
}

/// What the save holds of `STRAY_FAIRY_WOODFALL`.
#[verifier::rlimit(40)]
proof fn lemma_count_stray_fairy_woodfall(s: MmSave)
    ensures
        spec_named_item_count(s, "STRAY_FAIRY_WOODFALL"@) == (s.stray_fairies.woodfall as nat),
{
    lemma_item_name_lengths();
    lemma_filled_slots_bound(s.inventory.bottles@);
}

/// What the save holds of `STRAYFAIRYWOODFALL`.
#[verifier::rlimit(40)]
proof fn lemma_count_strayfairywoodfall(s: MmSave)
    ensures
        spec_named_item_count(s, "STRAYFAIRYWOODFALL"@) == (s.stray_fairies.woodfall as nat),
{
    lemma_item_name_lengths();
    lemma_filled_slots_bound(s.inventory.bottles@);
}

/// What the save holds of `STRAY_FAIRY_SNOWHEAD`.
#[verifier::rlimit(40)]
proof fn lemma_count_stray_fairy_snowhead(s: MmSave)
    ensures
        spec_named_item_count(s, "STRAY_FAIRY_SNOWHEAD"@) == (s.stray_fairies.snowhead as nat),
{
    lemma_item_name_lengths();
    lemma_filled_slots_bound(s.inventory.bottles@);
    reveal_strlit("STRAY_FAIRY_SNOWHEAD");
    reveal_strlit("STRAY_FAIRY_WOODFALL");
    assert("STRAY_FAIRY_SNOWHEAD"@[12] != "STRAY_FAIRY_WOODFALL"@[12]);
}

/// What the save holds of `STRAYFAIRYSNOWHEAD`.
#[verifier::rlimit(40)]
proof fn lemma_count_strayfairysnowhead(s: MmSave)
    ensures
        spec_named_item_count(s, "STRAYFAIRYSNOWHEAD"@) == (s.stray_fairies.snowhead as nat),
{
    lemma_item_name_lengths();
    lemma_filled_slots_bound(s.inventory.bottles@);
    reveal_strlit("STRAYFAIRYSNOWHEAD");
    reveal_strlit("STRAYFAIRYWOODFALL");
    assert("STRAYFAIRYSNOWHEAD"@[10] != "STRAYFAIRYWOODFALL"@[10]);
}

/// What the save holds of `STRAY_FAIRY_GREAT_BAY`.
#[verifier::rlimit(40)]
proof fn lemma_count_stray_fairy_great_bay(s: MmSave)
    ensures
        spec_named_item_count(s, "STRAY_FAIRY_GREAT_BAY"@) == (s.stray_fairies.great_bay as nat),
{
    lemma_item_name_lengths();
    lemma_filled_slots_bound(s.inventory.bottles@);
}

/// What the save holds of `STRAYFAIRYGREATBAY`.
#[verifier::rlimit(40)]
proof fn lemma_count_strayfairygreatbay(s: MmSave)
    ensures
        spec_named_item_count(s, "STRAYFAIRYGREATBAY"@) == (s.stray_fairies.great_bay as nat),
{
    lemma_item_name_lengths();
    lemma_filled_slots_bound(s.inventory.bottles@);
    reveal_strlit("STRAYFAIRYGREATBAY");
    reveal_strlit("STRAYFAIRYWOODFALL");
    assert("STRAYFAIRYGREATBAY"@[10] != "STRAYFAIRYWOODFALL"@[10]);
    reveal_strlit("STRAYFAIRYSNOWHEAD");
    assert("STRAYFAIRYGREATBAY"@[10] != "STRAYFAIRYSNOWHEAD"@[10]);
}

/// What the save holds of `STRAY_FAIRY_STONE_TOWER`.
#[verifier::rlimit(40)]
proof fn lemma_count_stray_fairy_stone_tower(s: MmSave)
    ensures
        spec_named_item_count(s, "STRAY_FAIRY_STONE_TOWER"@) == (s.stray_fairies.stone_tower as nat),
{
    lemma_item_name_lengths();
    lemma_filled_slots_bound(s.inventory.bottles@);
}

/// What the save holds of `STRAYFAIRYSTONETOWER`.
#[verifier::rlimit(40)]
proof fn lemma_count_strayfairystonetower(s: MmSave)
    ensures
        spec_named_item_count(s, "STRAYFAIRYSTONETOWER"@) == (s.stray_fairies.stone_tower as nat),
{
    lemma_item_name_lengths();
    lemma_filled_slots_bound(s.inventory.bottles@);
    reveal_strlit("STRAYFAIRYSTONETOWER");
    reveal_strlit("STRAY_FAIRY_WOODFALL");
    assert("STRAYFAIRYSTONETOWER"@[5] != "STRAY_FAIRY_WOODFALL"@[5]);
    reveal_strlit("STRAY_FAIRY_SNOWHEAD");
    assert("STRAYFAIRYSTONETOWER"@[5] != "STRAY_FAIRY_SNOWHEAD"@[5]);
}

/// What the save holds of `BOSS_REMAINS`.
#[verifier::rlimit(40)]
proof fn lemma_count_boss_remains(s: MmSave)
    ensures
        spec_named_item_count(s, "BOSS_REMAINS"@) == (spec_boss_remains_count(s)),
{
    lemma_item_name_lengths();
    lemma_filled_slots_bound(s.inventory.bottles@);
}

/// What the save holds of `BOSSREMAINS`.
#[verifier::rlimit(40)]
proof fn lemma_count_bossremains(s: MmSave)
    ensures
        spec_named_item_count(s, "BOSSREMAINS"@) == (spec_boss_remains_count(s)),
{
    lemma_item_name_lengths();
    lemma_filled_slots_bound(s.inventory.bottles@);
}

/// What the save holds of `QUIVER_30`.
#[verifier::rlimit(40)]
proof fn lemma_count_quiver_30(s: MmSave)
    ensures
        spec_named_item_count(s, "QUIVER_30"@) == (if spec_quiver_level(s) >= 1 { 1nat } else { 0nat }),
{
    lemma_item_name_lengths();
    lemma_filled_slots_bound(s.inventory.bottles@);
}

/// What the save holds of `QUIVER_40`.
#[verifier::rlimit(40)]
proof fn lemma_count_quiver_40(s: MmSave)
    ensures
        spec_named_item_count(s, "QUIVER_40"@) == (if spec_quiver_level(s) >= 2 { 1nat } else { 0nat }),
{
    lemma_item_name_lengths();
    lemma_filled_slots_bound(s.inventory.bottles@);
    reveal_strlit("QUIVER_40");
    reveal_strlit("QUIVER_30");
    assert("QUIVER_40"@[7] != "QUIVER_30"@[7]);
}

/// What the save holds of `QUIVER_50`.
#[verifier::rlimit(40)]
proof fn lemma_count_quiver_50(s: MmSave)
    ensures
        spec_named_item_count(s, "QUIVER_50"@) == (if spec_quiver_level(s) >= 3 { 1nat } else { 0nat }),
{
    lemma_item_name_lengths();
    lemma_filled_slots_bound(s.inventory.bottles@);
    reveal_strlit("QUIVER_50");
    reveal_strlit("QUIVER_30");
    assert("QUIVER_50"@[7] != "QUIVER_30"@[7]);
    reveal_strlit("QUIVER_40");
    assert("QUIVER_50"@[7] != "QUIVER_40"@[7]);
}

/// What the save holds of `BOMB_BAG_20`.
#[verifier::rlimit(40)]
proof fn lemma_count_bomb_bag_20(s: MmSave)
    ensures
        spec_named_item_count(s, "BOMB_BAG_20"@) == (if spec_bomb_bag_level(s) >= 1 { 1nat } else { 0nat }),
{
    lemma_item_name_lengths();
    lemma_filled_slots_bound(s.inventory.bottles@);
    reveal_strlit("BOMB_BAG_20");
    reveal_strlit("BOSSREMAINS");
    assert("BOMB_BAG_20"@[2] != "BOSSREMAINS"@[2]);
}

/// What the save holds of `BOMB_BAG_30`.
#[verifier::rlimit(40)]
proof fn lemma_count_bomb_bag_30(s: MmSave)
    ensures
        spec_named_item_count(s, "BOMB_BAG_30"@) == (if spec_bomb_bag_level(s) >= 2 { 1nat } else { 0nat }),
{
    lemma_item_name_lengths();
    lemma_filled_slots_bound(s.inventory.bottles@);
    reveal_strlit("BOMB_BAG_30");
    reveal_strlit("BOSSREMAINS");
    assert("BOMB_BAG_30"@[2] != "BOSSREMAINS"@[2]);
    reveal_strlit("BOMB_BAG_20");
    assert("BOMB_BAG_30"@[9] != "BOMB_BAG_20"@[9]);
}

/// What the save holds of `BOMB_BAG_40`.
#[verifier::rlimit(40)]
proof fn lemma_count_bomb_bag_40(s: MmSave)
    ensures
        spec_named_item_count(s, "BOMB_BAG_40"@) == (if spec_bomb_bag_level(s) >= 3 { 1nat } else { 0nat }),
{
    lemma_item_name_lengths();
    lemma_filled_slots_bound(s.inventory.bottles@);
    reveal_strlit("BOMB_BAG_40");
    reveal_strlit("BOSSREMAINS");
    assert("BOMB_BAG_40"@[2] != "BOSSREMAINS"@[2]);
    reveal_strlit("BOMB_BAG_20");
    assert("BOMB_BAG_40"@[9] != "BOMB_BAG_20"@[9]);
    reveal_strlit("BOMB_BAG_30");
    assert("BOMB_BAG_40"@[9] != "BOMB_BAG_30"@[9]);
}

/// What the save holds of `OCARINA_OF_TIME`.
#[verifier::rlimit(40)]
proof fn lemma_has_ocarina_of_time(s: MmSave)
    ensures
        spec_has_named_item(s, "OCARINA_OF_TIME"@) == (s.inventory.ocarina),
{
    lemma_item_name_lengths();
}

/// What the save holds of `OCARINAOFTTIME`.
#[verifier::rlimit(40)]
proof fn lemma_has_ocarinaofttime(s: MmSave)
    ensures
        spec_has_named_item(s, "OCARINAOFTTIME"@) == (s.inventory.ocarina),
{
    lemma_item_name_lengths();
}

/// What the save holds of `HEROS_BOW`.
#[verifier::rlimit(40)]
proof fn lemma_has_heros_bow(s: MmSave)
    ensures
        spec_has_named_item(s, "HEROS_BOW"@) == (s.inventory.bow),
{
    lemma_item_name_lengths();
}

/// What the save holds of `HEROSBOW`.
#[verifier::rlimit(40)]
proof fn lemma_has_herosbow(s: MmSave)
    ensures
        spec_has_named_item(s, "HEROSBOW"@) == (s.inventory.bow),
{
    lemma_item_name_lengths();
}

/// What the save holds of `FIRE_ARROW`.
#[verifier::rlimit(40)]
proof fn lemma_has_fire_arrow(s: MmSave)
    ensures
        spec_has_named_item(s, "FIRE_ARROW"@) == (s.inventory.fire_arrows),
{
    lemma_item_name_lengths();
}

/// What the save holds of `FIREARROW`.
#[verifier::rlimit(40)]
proof fn lemma_has_firearrow(s: MmSave)
    ensures
        spec_has_named_item(s, "FIREARROW"@) == (s.inventory.fire_arrows),
{
    lemma_item_name_lengths();
    reveal_strlit("FIREARROW");
    reveal_strlit("HEROS_BOW");
    assert("FIREARROW"@[0] != "HEROS_BOW"@[0]);
}

/// What the save holds of `ICE_ARROW`.
#[verifier::rlimit(40)]
proof fn lemma_has_ice_arrow(s: MmSave)
    ensures
        spec_has_named_item(s, "ICE_ARROW"@) == (s.inventory.ice_arrows),
{
    lemma_item_name_lengths();
    reveal_strlit("ICE_ARROW");
    reveal_strlit("HEROS_BOW");
    assert("ICE_ARROW"@[0] != "HEROS_BOW"@[0]);
    reveal_strlit("FIREARROW");
    assert("ICE_ARROW"@[0] != "FIREARROW"@[0]);
}

/// What the save holds of `ICEARROW`.
#[verifier::rlimit(40)]
proof fn lemma_has_icearrow(s: MmSave)
    ensures
        spec_has_named_item(s, "ICEARROW"@) == (s.inventory.ice_arrows),
{
    lemma_item_name_lengths();
    reveal_strlit("ICEARROW");
    reveal_strlit("HEROSBOW");
    assert("ICEARROW"@[0] != "HEROSBOW"@[0]);
}

/// What the save holds of `LIGHT_ARROW`.
#[verifier::rlimit(40)]
proof fn lemma_has_light_arrow(s: MmSave)
    ensures
        spec_has_named_item(s, "LIGHT_ARROW"@) == (s.inventory.light_arrows),
{
    lemma_item_name_lengths();
}

/// What the save holds of `LIGHTARROW`.
#[verifier::rlimit(40)]
proof fn lemma_has_lightarrow(s: MmSave)
    ensures
        spec_has_named_item(s, "LIGHTARROW"@) == (s.inventory.light_arrows),
{
    lemma_item_name_lengths();
    reveal_strlit("LIGHTARROW");
    reveal_strlit("FIRE_ARROW");
    assert("LIGHTARROW"@[0] != "FIRE_ARROW"@[0]);
}

/// What the save holds of `HOOKSHOT`.
#[verifier::rlimit(40)]
proof fn lemma_has_hookshot(s: MmSave)
    ensures
        spec_has_named_item(s, "HOOKSHOT"@) == (s.inventory.hookshot),
{
    lemma_item_name_lengths();
    reveal_strlit("HOOKSHOT");
    reveal_strlit("HEROSBOW");
    assert("HOOKSHOT"@[1] != "HEROSBOW"@[1]);
    reveal_strlit("ICEARROW");
    assert("HOOKSHOT"@[0] != "ICEARROW"@[0]);
}

/// What the save holds of `BOMB`.
#[verifier::rlimit(40)]
proof fn lemma_has_bomb(s: MmSave)
    ensures
        spec_has_named_item(s, "BOMB"@) == (s.inventory.bombs),
{
    lemma_item_name_lengths();
}

/// What the save holds of `BOMBS`.
#[verifier::rlimit(40)]
proof fn lemma_has_bombs(s: MmSave)
    ensures
        spec_has_named_item(s, "BOMBS"@) == (s.inventory.bombs),
{
    lemma_item_name_lengths();
}

/// What the save holds of `BOMBCHU`.
#[verifier::rlimit(40)]
proof fn lemma_has_bombchu(s: MmSave)
    ensures
        spec_has_named_item(s, "BOMBCHU"@) == (s.inventory.bombchus),
{
    lemma_item_name_lengths();
}

/// What the save holds of `BOMBCHUS`.
#[verifier::rlimit(40)]
proof fn lemma_has_bombchus(s: MmSave)
    ensures
        spec_has_named_item(s, "BOMBCHUS"@) == (s.inventory.bombchus),
{
    lemma_item_name_lengths();
    reveal_strlit("BOMBCHUS");
    reveal_strlit("HEROSBOW");
    assert("BOMBCHUS"@[0] != "HEROSBOW"@[0]);
    reveal_strlit("ICEARROW");
    assert("BOMBCHUS"@[0] != "ICEARROW"@[0]);
    reveal_strlit("HOOKSHOT");
    assert("BOMBCHUS"@[0] != "HOOKSHOT"@[0]);
}

/// What the save holds of `POWDER_KEG`.
#[verifier::rlimit(40)]
proof fn lemma_has_powder_keg(s: MmSave)
    ensures
        spec_has_named_item(s, "POWDER_KEG"@) == (s.inventory.powder_keg),
{
    lemma_item_name_lengths();
    reveal_strlit("POWDER_KEG");
    reveal_strlit("FIRE_ARROW");
    assert("POWDER_KEG"@[0] != "FIRE_ARROW"@[0]);
    reveal_strlit("LIGHTARROW");
    assert("POWDER_KEG"@[0] != "LIGHTARROW"@[0]);
}

/// What the save holds of `POWDERKEG`.
#[verifier::rlimit(40)]
proof fn lemma_has_powderkeg(s: MmSave)
    ensures
        spec_has_named_item(s, "POWDERKEG"@) == (s.inventory.powder_keg),
{
    lemma_item_name_lengths();
    reveal_strlit("POWDERKEG");
    reveal_strlit("HEROS_BOW");
    assert("POWDERKEG"@[0] != "HEROS_BOW"@[0]);
    reveal_strlit("FIREARROW");
    assert("POWDERKEG"@[0] != "FIREARROW"@[0]);
    reveal_strlit("ICE_ARROW");
    assert("POWDERKEG"@[0] != "ICE_ARROW"@[0]);
}

/// What the save holds of `LENS_OF_TRUTH`.
#[verifier::rlimit(40)]
proof fn lemma_has_lens_of_truth(s: MmSave)
    ensures
        spec_has_named_item(s, "LENS_OF_TRUTH"@) == (s.inventory.lens),
{
    lemma_item_name_lengths();
}

/// What the save holds of `LENSOFTRUTH`.
#[verifier::rlimit(40)]
proof fn lemma_has_lensoftruth(s: MmSave)
    ensures
        spec_has_named_item(s, "LENSOFTRUTH"@) == (s.inventory.lens),
{
    lemma_item_name_lengths();
    reveal_strlit("LENSOFTRUTH");
    reveal_strlit("LIGHT_ARROW");
    assert("LENSOFTRUTH"@[1] != "LIGHT_ARROW"@[1]);
}

/// What the save holds of `PICTOGRAPH_BOX`.
#[verifier::rlimit(40)]
proof fn lemma_has_pictograph_box(s: MmSave)
    ensures
        spec_has_named_item(s, "PICTOGRAPH_BOX"@) == (s.inventory.pictograph_box),
{
    lemma_item_name_lengths();
    reveal_strlit("PICTOGRAPH_BOX");
    reveal_strlit("OCARINAOFTTIME");
    assert("PICTOGRAPH_BOX"@[0] != "OCARINAOFTTIME"@[0]);
}

/// What the save holds of `PICTOGRAPHBOX`.
#[verifier::rlimit(40)]
proof fn lemma_has_pictographbox(s: MmSave)
    ensures
        spec_has_named_item(s, "PICTOGRAPHBOX"@) == (s.inventory.pictograph_box),
{
    lemma_item_name_lengths();
    reveal_strlit("PICTOGRAPHBOX");
    reveal_strlit("LENS_OF_TRUTH");
    assert("PICTOGRAPHBOX"@[0] != "LENS_OF_TRUTH"@[0]);
}

/// What the save holds of `GREAT_FAIRY_SWORD`.
#[verifier::rlimit(40)]
proof fn lemma_has_great_fairy_sword(s: MmSave)
    ensures
        spec_has_named_item(s, "GREAT_FAIRY_SWORD"@) == (s.inventory.great_fairy_sword),
{
    lemma_item_name_lengths();
}

/// What the save holds of `GREATFAIRYSWORD`.
#[verifier::rlimit(40)]
proof fn lemma_has_greatfairysword(s: MmSave)
    ensures
        spec_has_named_item(s, "GREATFAIRYSWORD"@) == (s.inventory.great_fairy_sword),
{
    lemma_item_name_lengths();
    reveal_strlit("GREATFAIRYSWORD");
    reveal_strlit("OCARINA_OF_TIME");
    assert("GREATFAIRYSWORD"@[0] != "OCARINA_OF_TIME"@[0]);
}

/// What the save holds of `MAGIC_BEAN`.
#[verifier::rlimit(40)]
proof fn lemma_has_magic_bean(s: MmSave)
    ensures
        spec_has_named_item(s, "MAGIC_BEAN"@) == (s.inventory.magic_beans),
{
    lemma_item_name_lengths();
    reveal_strlit("MAGIC_BEAN");
    reveal_strlit("FIRE_ARROW");
    assert("MAGIC_BEAN"@[0] != "FIRE_ARROW"@[0]);
    reveal_strlit("LIGHTARROW");
    assert("MAGIC_BEAN"@[0] != "LIGHTARROW"@[0]);
    reveal_strlit("POWDER_KEG");
    assert("MAGIC_BEAN"@[0] != "POWDER_KEG"@[0]);
}

/// What the save holds of `MAGICBEAN`.
#[verifier::rlimit(40)]
proof fn lemma_has_magicbean(s: MmSave)
    ensures
        spec_has_named_item(s, "MAGICBEAN"@) == (s.inventory.magic_beans),
{
    lemma_item_name_lengths();
    reveal_strlit("MAGICBEAN");
    reveal_strlit("HEROS_BOW");
    assert("MAGICBEAN"@[0] != "HEROS_BOW"@[0]);
    reveal_strlit("FIREARROW");
    assert("MAGICBEAN"@[0] != "FIREARROW"@[0]);
    reveal_strlit("ICE_ARROW");
    assert("MAGICBEAN"@[0] != "ICE_ARROW"@[0]);
    reveal_strlit("POWDERKEG");
    assert("MAGICBEAN"@[0] != "POWDERKEG"@[0]);
}

/// What the save holds of `DEKU_STICK`.
#[verifier::rlimit(40)]
proof fn lemma_has_deku_stick(s: MmSave)
    ensures
        spec_has_named_item(s, "DEKU_STICK"@) == (s.inventory.deku_sticks),
{
    lemma_item_name_lengths();
    reveal_strlit("DEKU_STICK");
    reveal_strlit("FIRE_ARROW");
    assert("DEKU_STICK"@[0] != "FIRE_ARROW"@[0]);
    reveal_strlit("LIGHTARROW");
    assert("DEKU_STICK"@[0] != "LIGHTARROW"@[0]);
    reveal_strlit("POWDER_KEG");
    assert("DEKU_STICK"@[0] != "POWDER_KEG"@[0]);
    reveal_strlit("MAGIC_BEAN");
    assert("DEKU_STICK"@[0] != "MAGIC_BEAN"@[0]);
}

/// What the save holds of `DEKUSTICK`.
#[verifier::rlimit(40)]
proof fn lemma_has_dekustick(s: MmSave)
    ensures
        spec_has_named_item(s, "DEKUSTICK"@) == (s.inventory.deku_sticks),
{
    lemma_item_name_lengths();
    reveal_strlit("DEKUSTICK");
    reveal_strlit("HEROS_BOW");
    assert("DEKUSTICK"@[0] != "HEROS_BOW"@[0]);
    reveal_strlit("FIREARROW");
    assert("DEKUSTICK"@[0] != "FIREARROW"@[0]);
    reveal_strlit("ICE_ARROW");
    assert("DEKUSTICK"@[0] != "ICE_ARROW"@[0]);
    reveal_strlit("POWDERKEG");
    assert("DEKUSTICK"@[0] != "POWDERKEG"@[0]);
    reveal_strlit("MAGICBEAN");
    assert("DEKUSTICK"@[0] != "MAGICBEAN"@[0]);
}

/// What the save holds of `DEKU_NUT`.
#[verifier::rlimit(40)]
proof fn lemma_has_deku_nut(s: MmSave)
    ensures
        spec_has_named_item(s, "DEKU_NUT"@) == (s.inventory.deku_nuts),
{
    lemma_item_name_lengths();
    reveal_strlit("DEKU_NUT");
    reveal_strlit("HEROSBOW");
    assert("DEKU_NUT"@[0] != "HEROSBOW"@[0]);
    reveal_strlit("ICEARROW");
    assert("DEKU_NUT"@[0] != "ICEARROW"@[0]);
    reveal_strlit("HOOKSHOT");
    assert("DEKU_NUT"@[0] != "HOOKSHOT"@[0]);
    reveal_strlit("BOMBCHUS");
    assert("DEKU_NUT"@[0] != "BOMBCHUS"@[0]);
}

/// What the save holds of `DEKUNUT`.
#[verifier::rlimit(40)]
proof fn lemma_has_dekunut(s: MmSave)
    ensures
        spec_has_named_item(s, "DEKUNUT"@) == (s.inventory.deku_nuts),
{
    lemma_item_name_lengths();
    reveal_strlit("DEKUNUT");
    reveal_strlit("BOMBCHU");
    assert("DEKUNUT"@[0] != "BOMBCHU"@[0]);
}

/// What the save holds of `DEKU_MASK`.
#[verifier::rlimit(40)]
proof fn lemma_has_deku_mask(s: MmSave)
    ensures
        spec_has_named_item(s, "DEKU_MASK"@) == (s.masks.transformation & 0x01u8 != 0),
{
    lemma_item_name_lengths();
    reveal_strlit("DEKU_MASK");
    reveal_strlit("HEROS_BOW");
    assert("DEKU_MASK"@[0] != "HEROS_BOW"@[0]);
    reveal_strlit("FIREARROW");
    assert("DEKU_MASK"@[0] != "FIREARROW"@[0]);
    reveal_strlit("ICE_ARROW");
    assert("DEKU_MASK"@[0] != "ICE_ARROW"@[0]);
    reveal_strlit("POWDERKEG");
    assert("DEKU_MASK"@[0] != "POWDERKEG"@[0]);
    reveal_strlit("MAGICBEAN");
    assert("DEKU_MASK"@[0] != "MAGICBEAN"@[0]);
    reveal_strlit("DEKUSTICK");
    assert("DEKU_MASK"@[4] != "DEKUSTICK"@[4]);
}

/// What the save holds of `DEKUMASK`.
#[verifier::rlimit(40)]
proof fn lemma_has_dekumask(s: MmSave)
    ensures
        spec_has_named_item(s, "DEKUMASK"@) == (s.masks.transformation & 0x01u8 != 0),
{
    lemma_item_name_lengths();
    reveal_strlit("DEKUMASK");
    reveal_strlit("HEROSBOW");
    assert("DEKUMASK"@[0] != "HEROSBOW"@[0]);
    reveal_strlit("ICEARROW");
    assert("DEKUMASK"@[0] != "ICEARROW"@[0]);
    reveal_strlit("HOOKSHOT");
    assert("DEKUMASK"@[0] != "HOOKSHOT"@[0]);
    reveal_strlit("BOMBCHUS");
    assert("DEKUMASK"@[0] != "BOMBCHUS"@[0]);
    reveal_strlit("DEKU_NUT");
    assert("DEKUMASK"@[4] != "DEKU_NUT"@[4]);
}

/// What the save holds of `GORON_MASK`.
#[verifier::rlimit(40)]
proof fn lemma_has_goron_mask(s: MmSave)
    ensures
        spec_has_named_item(s, "GORON_MASK"@) == (s.masks.transformation & 0x02u8 != 0),
{
    lemma_item_name_lengths();
    reveal_strlit("GORON_MASK");
    reveal_strlit("FIRE_ARROW");
    assert("GORON_MASK"@[0] != "FIRE_ARROW"@[0]);
    reveal_strlit("LIGHTARROW");
    assert("GORON_MASK"@[0] != "LIGHTARROW"@[0]);
    reveal_strlit("POWDER_KEG");
    assert("GORON_MASK"@[0] != "POWDER_KEG"@[0]);
    reveal_strlit("MAGIC_BEAN");
    assert("GORON_MASK"@[0] != "MAGIC_BEAN"@[0]);
    reveal_strlit("DEKU_STICK");
    assert("GORON_MASK"@[0] != "DEKU_STICK"@[0]);
}

/// What the save holds of `GORONMASK`.
#[verifier::rlimit(40)]
proof fn lemma_has_goronmask(s: MmSave)
    ensures
        spec_has_named_item(s, "GORONMASK"@) == (s.masks.transformation & 0x02u8 != 0),
{
    lemma_item_name_lengths();
    reveal_strlit("GORONMASK");
    reveal_strlit("HEROS_BOW");
    assert("GORONMASK"@[0] != "HEROS_BOW"@[0]);
    reveal_strlit("FIREARROW");
    assert("GORONMASK"@[0] != "FIREARROW"@[0]);
    reveal_strlit("ICE_ARROW");
    assert("GORONMASK"@[0] != "ICE_ARROW"@[0]);
    reveal_strlit("POWDERKEG");
    assert("GORONMASK"@[0] != "POWDERKEG"@[0]);
    reveal_strlit("MAGICBEAN");
    assert("GORONMASK"@[0] != "MAGICBEAN"@[0]);
    reveal_strlit("DEKUSTICK");
    assert("GORONMASK"@[0] != "DEKUSTICK"@[0]);
    reveal_strlit("DEKU_MASK");
    assert("GORONMASK"@[0] != "DEKU_MASK"@[0]);
}

/// What the save holds of `ZORA_MASK`.
#[verifier::rlimit(40)]
proof fn lemma_has_zora_mask(s: MmSave)
    ensures
        spec_has_named_item(s, "ZORA_MASK"@) == (s.masks.transformation & 0x04u8 != 0),
{
    lemma_item_name_lengths();
    reveal_strlit("ZORA_MASK");
    reveal_strlit("HEROS_BOW");
    assert("ZORA_MASK"@[0] != "HEROS_BOW"@[0]);
    reveal_strlit("FIREARROW");
    assert("ZORA_MASK"@[0] != "FIREARROW"@[0]);
    reveal_strlit("ICE_ARROW");
    assert("ZORA_MASK"@[0] != "ICE_ARROW"@[0]);
    reveal_strlit("POWDERKEG");
    assert("ZORA_MASK"@[0] != "POWDERKEG"@[0]);
    reveal_strlit("MAGICBEAN");
    assert("ZORA_MASK"@[0] != "MAGICBEAN"@[0]);
    reveal_strlit("DEKUSTICK");
    assert("ZORA_MASK"@[0] != "DEKUSTICK"@[0]);
    reveal_strlit("DEKU_MASK");
    assert("ZORA_MASK"@[0] != "DEKU_MASK"@[0]);
    reveal_strlit("GORONMASK");
    assert("ZORA_MASK"@[0] != "GORONMASK"@[0]);
}

/// What the save holds of `ZORAMASK`.
#[verifier::rlimit(40)]
proof fn lemma_has_zoramask(s: MmSave)
    ensures
        spec_has_named_item(s, "ZORAMASK"@) == (s.masks.transformation & 0x04u8 != 0),
{
    lemma_item_name_lengths();
    reveal_strlit("ZORAMASK");
    reveal_strlit("HEROSBOW");
    assert("ZORAMASK"@[0] != "HEROSBOW"@[0]);
    reveal_strlit("ICEARROW");
    assert("ZORAMASK"@[0] != "ICEARROW"@[0]);
    reveal_strlit("HOOKSHOT");
    assert("ZORAMASK"@[0] != "HOOKSHOT"@[0]);
    reveal_strlit("BOMBCHUS");
    assert("ZORAMASK"@[0] != "BOMBCHUS"@[0]);
    reveal_strlit("DEKU_NUT");
    assert("ZORAMASK"@[0] != "DEKU_NUT"@[0]);
    reveal_strlit("DEKUMASK");
    assert("ZORAMASK"@[0] != "DEKUMASK"@[0]);
}

/// What the save holds of `FIERCE_DEITY_MASK`.
#[verifier::rlimit(40)]
proof fn lemma_has_fierce_deity_mask(s: MmSave)
    ensures
        spec_has_named_item(s, "FIERCE_DEITY_MASK"@) == (s.masks.transformation & 0x08u8 != 0),
{
    lemma_item_name_lengths();
    reveal_strlit("FIERCE_DEITY_MASK");
    reveal_strlit("GREAT_FAIRY_SWORD");
    assert("FIERCE_DEITY_MASK"@[0] != "GREAT_FAIRY_SWORD"@[0]);
}

/// What the save holds of `FIERCEDEITYMASK`.
#[verifier::rlimit(40)]
proof fn lemma_has_fiercedeitymask(s: MmSave)
    ensures
        spec_has_named_item(s, "FIERCEDEITYMASK"@) == (s.masks.transformation & 0x08u8 != 0),
{
    lemma_item_name_lengths();
    reveal_strlit("FIERCEDEITYMASK");
    reveal_strlit("OCARINA_OF_TIME");
    assert("FIERCEDEITYMASK"@[0] != "OCARINA_OF_TIME"@[0]);
    reveal_strlit("GREATFAIRYSWORD");
    assert("FIERCEDEITYMASK"@[0] != "GREATFAIRYSWORD"@[0]);
}

/// What the save holds of `POSTMAN_HAT`.
#[verifier::rlimit(40)]
proof fn lemma_has_postman_hat(s: MmSave)
    ensures
        spec_has_named_item(s, "POSTMAN_HAT"@) == (s.masks.masks_low & 0x0001u16 != 0),
{
    lemma_item_name_lengths();
    reveal_strlit("POSTMAN_HAT");
    reveal_strlit("LIGHT_ARROW");
    assert("POSTMAN_HAT"@[0] != "LIGHT_ARROW"@[0]);
    reveal_strlit("LENSOFTRUTH");
    assert("POSTMAN_HAT"@[0] != "LENSOFTRUTH"@[0]);
}

/// What the save holds of `POSTMANHAT`.
#[verifier::rlimit(40)]
proof fn lemma_has_postmanhat(s: MmSave)
    ensures
        spec_has_named_item(s, "POSTMANHAT"@) == (s.masks.masks_low & 0x0001u16 != 0),
{
    lemma_item_name_lengths();
    reveal_strlit("POSTMANHAT");
    reveal_strlit("FIRE_ARROW");
    assert("POSTMANHAT"@[0] != "FIRE_ARROW"@[0]);
    reveal_strlit("LIGHTARROW");
    assert("POSTMANHAT"@[0] != "LIGHTARROW"@[0]);
    reveal_strlit("POWDER_KEG");
    assert("POSTMANHAT"@[2] != "POWDER_KEG"@[2]);
    reveal_strlit("MAGIC_BEAN");
    assert("POSTMANHAT"@[0] != "MAGIC_BEAN"@[0]);
    reveal_strlit("DEKU_STICK");
    assert("POSTMANHAT"@[0] != "DEKU_STICK"@[0]);
    reveal_strlit("GORON_MASK");
    assert("POSTMANHAT"@[0] != "GORON_MASK"@[0]);
}

/// What the save holds of `ALL_NIGHT_MASK`.
#[verifier::rlimit(40)]
proof fn lemma_has_all_night_mask(s: MmSave)
    ensures
        spec_has_named_item(s, "ALL_NIGHT_MASK"@) == (s.masks.masks_low & 0x0002u16 != 0),
{
    lemma_item_name_lengths();
    reveal_strlit("ALL_NIGHT_MASK");
    reveal_strlit("OCARINAOFTTIME");
    assert("ALL_NIGHT_MASK"@[0] != "OCARINAOFTTIME"@[0]);
    reveal_strlit("PICTOGRAPH_BOX");
    assert("ALL_NIGHT_MASK"@[0] != "PICTOGRAPH_BOX"@[0]);
}

/// What the save holds of `ALLNIGHTMASK`.
#[verifier::rlimit(40)]
proof fn lemma_has_allnightmask(s: MmSave)
    ensures
        spec_has_named_item(s, "ALLNIGHTMASK"@) == (s.masks.masks_low & 0x0002u16 != 0),
{
    lemma_item_name_lengths();
}

/// What the save holds of `BLAST_MASK`.
#[verifier::rlimit(40)]
proof fn lemma_has_blast_mask(s: MmSave)
    ensures
        spec_has_named_item(s, "BLAST_MASK"@) == (s.masks.masks_low & 0x0004u16 != 0),
{
    lemma_item_name_lengths();
    reveal_strlit("BLAST_MASK");
    reveal_strlit("FIRE_ARROW");
    assert("BLAST_MASK"@[0] != "FIRE_ARROW"@[0]);
    reveal_strlit("LIGHTARROW");
    assert("BLAST_MASK"@[0] != "LIGHTARROW"@[0]);
    reveal_strlit("POWDER_KEG");
    assert("BLAST_MASK"@[0] != "POWDER_KEG"@[0]);
    reveal_strlit("MAGIC_BEAN");
    assert("BLAST_MASK"@[0] != "MAGIC_BEAN"@[0]);
    reveal_strlit("DEKU_STICK");
    assert("BLAST_MASK"@[0] != "DEKU_STICK"@[0]);
    reveal_strlit("GORON_MASK");
    assert("BLAST_MASK"@[0] != "GORON_MASK"@[0]);
    reveal_strlit("POSTMANHAT");
    assert("BLAST_MASK"@[0] != "POSTMANHAT"@[0]);
}

/// What the save holds of `BLASTMASK`.
#[verifier::rlimit(40)]
proof fn lemma_has_blastmask(s: MmSave)
    ensures
        spec_has_named_item(s, "BLASTMASK"@) == (s.masks.masks_low & 0x0004u16 != 0),
{
    lemma_item_name_lengths();
    reveal_strlit("BLASTMASK");
    reveal_strlit("HEROS_BOW");
    assert("BLASTMASK"@[0] != "HEROS_BOW"@[0]);
    reveal_strlit("FIREARROW");
    assert("BLASTMASK"@[0] != "FIREARROW"@[0]);
    reveal_strlit("ICE_ARROW");
    assert("BLASTMASK"@[0] != "ICE_ARROW"@[0]);
    reveal_strlit("POWDERKEG");
    assert("BLASTMASK"@[0] != "POWDERKEG"@[0]);
    reveal_strlit("MAGICBEAN");
    assert("BLASTMASK"@[0] != "MAGICBEAN"@[0]);
    reveal_strlit("DEKUSTICK");
    assert("BLASTMASK"@[0] != "DEKUSTICK"@[0]);
    reveal_strlit("DEKU_MASK");
    assert("BLASTMASK"@[0] != "DEKU_MASK"@[0]);
    reveal_strlit("GORONMASK");
    assert("BLASTMASK"@[0] != "GORONMASK"@[0]);
    reveal_strlit("ZORA_MASK");
    assert("BLASTMASK"@[0] != "ZORA_MASK"@[0]);
}

/// What the save holds of `STONE_MASK`.
#[verifier::rlimit(40)]
proof fn lemma_has_stone_mask(s: MmSave)
    ensures
        spec_has_named_item(s, "STONE_MASK"@) == (s.masks.masks_low & 0x0008u16 != 0),
{
    lemma_item_name_lengths();
    reveal_strlit("STONE_MASK");
    reveal_strlit("FIRE_ARROW");
    assert("STONE_MASK"@[0] != "FIRE_ARROW"@[0]);
    reveal_strlit("LIGHTARROW");
    assert("STONE_MASK"@[0] != "LIGHTARROW"@[0]);
    reveal_strlit("POWDER_KEG");
    assert("STONE_MASK"@[0] != "POWDER_KEG"@[0]);
    reveal_strlit("MAGIC_BEAN");
    assert("STONE_MASK"@[0] != "MAGIC_BEAN"@[0]);
    reveal_strlit("DEKU_STICK");
    assert("STONE_MASK"@[0] != "DEKU_STICK"@[0]);
    reveal_strlit("GORON_MASK");
    assert("STONE_MASK"@[0] != "GORON_MASK"@[0]);
    reveal_strlit("POSTMANHAT");
    assert("STONE_MASK"@[0] != "POSTMANHAT"@[0]);
    reveal_strlit("BLAST_MASK");
    assert("STONE_MASK"@[0] != "BLAST_MASK"@[0]);
}

/// What the save holds of `STONEMASK`.
#[verifier::rlimit(40)]
proof fn lemma_has_stonemask(s: MmSave)
    ensures
        spec_has_named_item(s, "STONEMASK"@) == (s.masks.masks_low & 0x0008u16 != 0),
{
    lemma_item_name_lengths();
    reveal_strlit("STONEMASK");
    reveal_strlit("HEROS_BOW");
    assert("STONEMASK"@[0] != "HEROS_BOW"@[0]);
    reveal_strlit("FIREARROW");
    assert("STONEMASK"@[0] != "FIREARROW"@[0]);
    reveal_strlit("ICE_ARROW");
    assert("STONEMASK"@[0] != "ICE_ARROW"@[0]);
    reveal_strlit("POWDERKEG");
    assert("STONEMASK"@[0] != "POWDERKEG"@[0]);
    reveal_strlit("MAGICBEAN");
    assert("STONEMASK"@[0] != "MAGICBEAN"@[0]);
    reveal_strlit("DEKUSTICK");
    assert("STONEMASK"@[0] != "DEKUSTICK"@[0]);
    reveal_strlit("DEKU_MASK");
    assert("STONEMASK"@[0] != "DEKU_MASK"@[0]);
    reveal_strlit("GORONMASK");
    assert("STONEMASK"@[0] != "GORONMASK"@[0]);
    reveal_strlit("ZORA_MASK");
    assert("STONEMASK"@[0] != "ZORA_MASK"@[0]);
    reveal_strlit("BLASTMASK");
    assert("STONEMASK"@[0] != "BLASTMASK"@[0]);
}

/// What the save holds of `GREAT_FAIRY_MASK`.
#[verifier::rlimit(40)]
proof fn lemma_has_great_fairy_mask(s: MmSave)
    ensures
        spec_has_named_item(s, "GREAT_FAIRY_MASK"@) == (s.masks.masks_low & 0x0010u16 != 0),
{
    lemma_item_name_lengths();
}

/// What the save holds of `GREATFAIRYMASK`.
#[verifier::rlimit(40)]
proof fn lemma_has_greatfairymask(s: MmSave)
    ensures
        spec_has_named_item(s, "GREATFAIRYMASK"@) == (s.masks.masks_low & 0x0010u16 != 0),
{
    lemma_item_name_lengths();
    reveal_strlit("GREATFAIRYMASK");
    reveal_strlit("OCARINAOFTTIME");
    assert("GREATFAIRYMASK"@[0] != "OCARINAOFTTIME"@[0]);
    reveal_strlit("PICTOGRAPH_BOX");
    assert("GREATFAIRYMASK"@[0] != "PICTOGRAPH_BOX"@[0]);
    reveal_strlit("ALL_NIGHT_MASK");
    assert("GREATFAIRYMASK"@[0] != "ALL_NIGHT_MASK"@[0]);
}

/// What the save holds of `KEATON_MASK`.
#[verifier::rlimit(40)]
proof fn lemma_has_keaton_mask(s: MmSave)
    ensures
        spec_has_named_item(s, "KEATON_MASK"@) == (s.masks.masks_low & 0x0020u16 != 0),
{
    lemma_item_name_lengths();
    reveal_strlit("KEATON_MASK");
    reveal_strlit("LIGHT_ARROW");
    assert("KEATON_MASK"@[0] != "LIGHT_ARROW"@[0]);
    reveal_strlit("LENSOFTRUTH");
    assert("KEATON_MASK"@[0] != "LENSOFTRUTH"@[0]);
    reveal_strlit("POSTMAN_HAT");
    assert("KEATON_MASK"@[0] != "POSTMAN_HAT"@[0]);
}

/// What the save holds of `KEATONMASK`.
#[verifier::rlimit(40)]
proof fn lemma_has_keatonmask(s: MmSave)
    ensures
        spec_has_named_item(s, "KEATONMASK"@) == (s.masks.masks_low & 0x0020u16 != 0),
{
    lemma_item_name_lengths();
    reveal_strlit("KEATONMASK");
    reveal_strlit("FIRE_ARROW");
    assert("KEATONMASK"@[0] != "FIRE_ARROW"@[0]);
    reveal_strlit("LIGHTARROW");
    assert("KEATONMASK"@[0] != "LIGHTARROW"@[0]);
    reveal_strlit("POWDER_KEG");
    assert("KEATONMASK"@[0] != "POWDER_KEG"@[0]);
    reveal_strlit("MAGIC_BEAN");
    assert("KEATONMASK"@[0] != "MAGIC_BEAN"@[0]);
    reveal_strlit("DEKU_STICK");
    assert("KEATONMASK"@[0] != "DEKU_STICK"@[0]);
    reveal_strlit("GORON_MASK");
    assert("KEATONMASK"@[0] != "GORON_MASK"@[0]);
    reveal_strlit("POSTMANHAT");
    assert("KEATONMASK"@[0] != "POSTMANHAT"@[0]);
    reveal_strlit("BLAST_MASK");
    assert("KEATONMASK"@[0] != "BLAST_MASK"@[0]);
    reveal_strlit("STONE_MASK");
    assert("KEATONMASK"@[0] != "STONE_MASK"@[0]);
}

/// What the save holds of `BREMEN_MASK`.
#[verifier::rlimit(40)]
proof fn lemma_has_bremen_mask(s: MmSave)
    ensures
        spec_has_named_item(s, "BREMEN_MASK"@) == (s.masks.masks_low & 0x0040u16 != 0),
{
    lemma_item_name_lengths();
    reveal_strlit("BREMEN_MASK");
    reveal_strlit("LIGHT_ARROW");
    assert("BREMEN_MASK"@[0] != "LIGHT_ARROW"@[0]);
    reveal_strlit("LENSOFTRUTH");
    assert("BREMEN_MASK"@[0] != "LENSOFTRUTH"@[0]);
    reveal_strlit("POSTMAN_HAT");
    assert("BREMEN_MASK"@[0] != "POSTMAN_HAT"@[0]);
    reveal_strlit("KEATON_MASK");
    assert("BREMEN_MASK"@[0] != "KEATON_MASK"@[0]);
}

/// What the save holds of `BREMENMASK`.
#[verifier::rlimit(40)]
proof fn lemma_has_bremenmask(s: MmSave)
    ensures
        spec_has_named_item(s, "BREMENMASK"@) == (s.masks.masks_low & 0x0040u16 != 0),
{
    lemma_item_name_lengths();
    reveal_strlit("BREMENMASK");
    reveal_strlit("FIRE_ARROW");
    assert("BREMENMASK"@[0] != "FIRE_ARROW"@[0]);
    reveal_strlit("LIGHTARROW");
    assert("BREMENMASK"@[0] != "LIGHTARROW"@[0]);
    reveal_strlit("POWDER_KEG");
    assert("BREMENMASK"@[0] != "POWDER_KEG"@[0]);
    reveal_strlit("MAGIC_BEAN");
    assert("BREMENMASK"@[0] != "MAGIC_BEAN"@[0]);
    reveal_strlit("DEKU_STICK");
    assert("BREMENMASK"@[0] != "DEKU_STICK"@[0]);
    reveal_strlit("GORON_MASK");
    assert("BREMENMASK"@[0] != "GORON_MASK"@[0]);
    reveal_strlit("POSTMANHAT");
    assert("BREMENMASK"@[0] != "POSTMANHAT"@[0]);
    reveal_strlit("BLAST_MASK");
    assert("BREMENMASK"@[1] != "BLAST_MASK"@[1]);
    reveal_strlit("STONE_MASK");
    assert("BREMENMASK"@[0] != "STONE_MASK"@[0]);
    reveal_strlit("KEATONMASK");
    assert("BREMENMASK"@[0] != "KEATONMASK"@[0]);
}

/// What the save holds of `BUNNY_HOOD`.
#[verifier::rlimit(40)]
proof fn lemma_has_bunny_hood(s: MmSave)
    ensures
        spec_has_named_item(s, "BUNNY_HOOD"@) == (s.masks.masks_low & 0x0080u16 != 0),
{
    lemma_item_name_lengths();
    reveal_strlit("BUNNY_HOOD");
    reveal_strlit("FIRE_ARROW");
    assert("BUNNY_HOOD"@[0] != "FIRE_ARROW"@[0]);
    reveal_strlit("LIGHTARROW");
    assert("BUNNY_HOOD"@[0] != "LIGHTARROW"@[0]);
    reveal_strlit("POWDER_KEG");
    assert("BUNNY_HOOD"@[0] != "POWDER_KEG"@[0]);
    reveal_strlit("MAGIC_BEAN");
    assert("BUNNY_HOOD"@[0] != "MAGIC_BEAN"@[0]);
    reveal_strlit("DEKU_STICK");
    assert("BUNNY_HOOD"@[0] != "DEKU_STICK"@[0]);
    reveal_strlit("GORON_MASK");
    assert("BUNNY_HOOD"@[0] != "GORON_MASK"@[0]);
    reveal_strlit("POSTMANHAT");
    assert("BUNNY_HOOD"@[0] != "POSTMANHAT"@[0]);
    reveal_strlit("BLAST_MASK");
    assert("BUNNY_HOOD"@[1] != "BLAST_MASK"@[1]);
    reveal_strlit("STONE_MASK");
    assert("BUNNY_HOOD"@[0] != "STONE_MASK"@[0]);
    reveal_strlit("KEATONMASK");
    assert("BUNNY_HOOD"@[0] != "KEATONMASK"@[0]);
    reveal_strlit("BREMENMASK");
    assert("BUNNY_HOOD"@[1] != "BREMENMASK"@[1]);
}

/// What the save holds of `BUNNYHOOD`.
#[verifier::rlimit(40)]
proof fn lemma_has_bunnyhood(s: MmSave)
    ensures
        spec_has_named_item(s, "BUNNYHOOD"@) == (s.masks.masks_low & 0x0080u16 != 0),
{
    lemma_item_name_lengths();
    reveal_strlit("BUNNYHOOD");
    reveal_strlit("HEROS_BOW");
    assert("BUNNYHOOD"@[0] != "HEROS_BOW"@[0]);
    reveal_strlit("FIREARROW");
    assert("BUNNYHOOD"@[0] != "FIREARROW"@[0]);
    reveal_strlit("ICE_ARROW");
    assert("BUNNYHOOD"@[0] != "ICE_ARROW"@[0]);
    reveal_strlit("POWDERKEG");
    assert("BUNNYHOOD"@[0] != "POWDERKEG"@[0]);
    reveal_strlit("MAGICBEAN");
    assert("BUNNYHOOD"@[0] != "MAGICBEAN"@[0]);
    reveal_strlit("DEKUSTICK");
    assert("BUNNYHOOD"@[0] != "DEKUSTICK"@[0]);
    reveal_strlit("DEKU_MASK");
    assert("BUNNYHOOD"@[0] != "DEKU_MASK"@[0]);
    reveal_strlit("GORONMASK");
    assert("BUNNYHOOD"@[0] != "GORONMASK"@[0]);
    reveal_strlit("ZORA_MASK");
    assert("BUNNYHOOD"@[0] != "ZORA_MASK"@[0]);
    reveal_strlit("BLASTMASK");
    assert("BUNNYHOOD"@[1] != "BLASTMASK"@[1]);
    reveal_strlit("STONEMASK");
    assert("BUNNYHOOD"@[0] != "STONEMASK"@[0]);
}

/// What the save holds of `DON_GERO_MASK`.
#[verifier::rlimit(40)]
proof fn lemma_has_don_gero_mask(s: MmSave)
    ensures
        spec_has_named_item(s, "DON_GERO_MASK"@) == (s.masks.masks_low & 0x0100u16 != 0),
{
    lemma_item_name_lengths();
    reveal_strlit("DON_GERO_MASK");
    reveal_strlit("LENS_OF_TRUTH");
    assert("DON_GERO_MASK"@[0] != "LENS_OF_TRUTH"@[0]);
    reveal_strlit("PICTOGRAPHBOX");
    assert("DON_GERO_MASK"@[0] != "PICTOGRAPHBOX"@[0]);
}

/// What the save holds of `DONGEROMASK`.
#[verifier::rlimit(40)]
proof fn lemma_has_dongeromask(s: MmSave)
    ensures
        spec_has_named_item(s, "DONGEROMASK"@) == (s.masks.masks_low & 0x0100u16 != 0),
{
    lemma_item_name_lengths();
    reveal_strlit("DONGEROMASK");
    reveal_strlit("LIGHT_ARROW");
    assert("DONGEROMASK"@[0] != "LIGHT_ARROW"@[0]);
    reveal_strlit("LENSOFTRUTH");
    assert("DONGEROMASK"@[0] != "LENSOFTRUTH"@[0]);
    reveal_strlit("POSTMAN_HAT");
    assert("DONGEROMASK"@[0] != "POSTMAN_HAT"@[0]);
    reveal_strlit("KEATON_MASK");
    assert("DONGEROMASK"@[0] != "KEATON_MASK"@[0]);
    reveal_strlit("BREMEN_MASK");
    assert("DONGEROMASK"@[0] != "BREMEN_MASK"@[0]);
}

/// What the save holds of `MASK_OF_SCENTS`.
#[verifier::rlimit(40)]
proof fn lemma_has_mask_of_scents(s: MmSave)
    ensures
        spec_has_named_item(s, "MASK_OF_SCENTS"@) == (s.masks.masks_low & 0x0200u16 != 0),
{
    lemma_item_name_lengths();
    reveal_strlit("MASK_OF_SCENTS");
    reveal_strlit("OCARINAOFTTIME");
    assert("MASK_OF_SCENTS"@[0] != "OCARINAOFTTIME"@[0]);
    reveal_strlit("PICTOGRAPH_BOX");
    assert("MASK_OF_SCENTS"@[0] != "PICTOGRAPH_BOX"@[0]);
    reveal_strlit("ALL_NIGHT_MASK");
    assert("MASK_OF_SCENTS"@[0] != "ALL_NIGHT_MASK"@[0]);
    reveal_strlit("GREATFAIRYMASK");
    assert("MASK_OF_SCENTS"@[0] != "GREATFAIRYMASK"@[0]);
}

/// What the save holds of `MASKOFSCENTS`.
#[verifier::rlimit(40)]
proof fn lemma_has_maskofscents(s: MmSave)
    ensures
        spec_has_named_item(s, "MASKOFSCENTS"@) == (s.masks.masks_low & 0x0200u16 != 0),
{
    lemma_item_name_lengths();
    reveal_strlit("MASKOFSCENTS");
    reveal_strlit("ALLNIGHTMASK");
    assert("MASKOFSCENTS"@[0] != "ALLNIGHTMASK"@[0]);
}

/// What the save holds of `ROMANI_MASK`.
#[verifier::rlimit(40)]
proof fn lemma_has_romani_mask(s: MmSave)
    ensures
        spec_has_named_item(s, "ROMANI_MASK"@) == (s.masks.masks_low & 0x0400u16 != 0),
{
    lemma_item_name_lengths();
    reveal_strlit("ROMANI_MASK");
    reveal_strlit("LIGHT_ARROW");
    assert("ROMANI_MASK"@[0] != "LIGHT_ARROW"@[0]);
    reveal_strlit("LENSOFTRUTH");
    assert("ROMANI_MASK"@[0] != "LENSOFTRUTH"@[0]);
    reveal_strlit("POSTMAN_HAT");
    assert("ROMANI_MASK"@[0] != "POSTMAN_HAT"@[0]);
    reveal_strlit("KEATON_MASK");
    assert("ROMANI_MASK"@[0] != "KEATON_MASK"@[0]);
    reveal_strlit("BREMEN_MASK");
    assert("ROMANI_MASK"@[0] != "BREMEN_MASK"@[0]);
    reveal_strlit("DONGEROMASK");
    assert("ROMANI_MASK"@[0] != "DONGEROMASK"@[0]);
}

/// What the save holds of `ROMANIMASK`.
#[verifier::rlimit(40)]
proof fn lemma_has_romanimask(s: MmSave)
    ensures
        spec_has_named_item(s, "ROMANIMASK"@) == (s.masks.masks_low & 0x0400u16 != 0),
{
    lemma_item_name_lengths();
    reveal_strlit("ROMANIMASK");
    reveal_strlit("FIRE_ARROW");
    assert("ROMANIMASK"@[0] != "FIRE_ARROW"@[0]);
    reveal_strlit("LIGHTARROW");
    assert("ROMANIMASK"@[0] != "LIGHTARROW"@[0]);
    reveal_strlit("POWDER_KEG");
    assert("ROMANIMASK"@[0] != "POWDER_KEG"@[0]);
    reveal_strlit("MAGIC_BEAN");
    assert("ROMANIMASK"@[0] != "MAGIC_BEAN"@[0]);
    reveal_strlit("DEKU_STICK");
    assert("ROMANIMASK"@[0] != "DEKU_STICK"@[0]);
    reveal_strlit("GORON_MASK");
    assert("ROMANIMASK"@[0] != "GORON_MASK"@[0]);
    reveal_strlit("POSTMANHAT");
    assert("ROMANIMASK"@[0] != "POSTMANHAT"@[0]);
    reveal_strlit("BLAST_MASK");
    assert("ROMANIMASK"@[0] != "BLAST_MASK"@[0]);
    reveal_strlit("STONE_MASK");
    assert("ROMANIMASK"@[0] != "STONE_MASK"@[0]);
    reveal_strlit("KEATONMASK");
    assert("ROMANIMASK"@[0] != "KEATONMASK"@[0]);
    reveal_strlit("BREMENMASK");
    assert("ROMANIMASK"@[0] != "BREMENMASK"@[0]);
    reveal_strlit("BUNNY_HOOD");
    assert("ROMANIMASK"@[0] != "BUNNY_HOOD"@[0]);
}

/// What the save holds of `CIRCUS_LEADER_MASK`.
#[verifier::rlimit(40)]
proof fn lemma_has_circus_leader_mask(s: MmSave)
    ensures
        spec_has_named_item(s, "CIRCUS_LEADER_MASK"@) == (s.masks.masks_low & 0x0800u16 != 0),
{
    lemma_item_name_lengths();
}

/// What the save holds of `CIRCUSLEADERMASK`.
#[verifier::rlimit(40)]
proof fn lemma_has_circusleadermask(s: MmSave)
    ensures
        spec_has_named_item(s, "CIRCUSLEADERMASK"@) == (s.masks.masks_low & 0x0800u16 != 0),
{
    lemma_item_name_lengths();
    reveal_strlit("CIRCUSLEADERMASK");
    reveal_strlit("GREAT_FAIRY_MASK");
    assert("CIRCUSLEADERMASK"@[0] != "GREAT_FAIRY_MASK"@[0]);
}

/// What the save holds of `KAFEI_MASK`.
#[verifier::rlimit(40)]
proof fn lemma_has_kafei_mask(s: MmSave)
    ensures
        spec_has_named_item(s, "KAFEI_MASK"@) == (s.masks.masks_low & 0x1000u16 != 0),
{
    lemma_item_name_lengths();
    reveal_strlit("KAFEI_MASK");
    reveal_strlit("FIRE_ARROW");
    assert("KAFEI_MASK"@[0] != "FIRE_ARROW"@[0]);
    reveal_strlit("LIGHTARROW");
    assert("KAFEI_MASK"@[0] != "LIGHTARROW"@[0]);
    reveal_strlit("POWDER_KEG");
    assert("KAFEI_MASK"@[0] != "POWDER_KEG"@[0]);
    reveal_strlit("MAGIC_BEAN");
    assert("KAFEI_MASK"@[0] != "MAGIC_BEAN"@[0]);
    reveal_strlit("DEKU_STICK");
    assert("KAFEI_MASK"@[0] != "DEKU_STICK"@[0]);
    reveal_strlit("GORON_MASK");
    assert("KAFEI_MASK"@[0] != "GORON_MASK"@[0]);
    reveal_strlit("POSTMANHAT");
    assert("KAFEI_MASK"@[0] != "POSTMANHAT"@[0]);
    reveal_strlit("BLAST_MASK");
    assert("KAFEI_MASK"@[0] != "BLAST_MASK"@[0]);
    reveal_strlit("STONE_MASK");
    assert("KAFEI_MASK"@[0] != "STONE_MASK"@[0]);
    reveal_strlit("KEATONMASK");
    assert("KAFEI_MASK"@[1] != "KEATONMASK"@[1]);
    reveal_strlit("BREMENMASK");
    assert("KAFEI_MASK"@[0] != "BREMENMASK"@[0]);
    reveal_strlit("BUNNY_HOOD");
    assert("KAFEI_MASK"@[0] != "BUNNY_HOOD"@[0]);
    reveal_strlit("ROMANIMASK");
    assert("KAFEI_MASK"@[0] != "ROMANIMASK"@[0]);
}

/// What the save holds of `KAFEIMASK`.
#[verifier::rlimit(40)]
proof fn lemma_has_kafeimask(s: MmSave)
    ensures
        spec_has_named_item(s, "KAFEIMASK"@) == (s.masks.masks_low & 0x1000u16 != 0),
{
    lemma_item_name_lengths();
    reveal_strlit("KAFEIMASK");
    reveal_strlit("HEROS_BOW");
    assert("KAFEIMASK"@[0] != "HEROS_BOW"@[0]);
    reveal_strlit("FIREARROW");
    assert("KAFEIMASK"@[0] != "FIREARROW"@[0]);
    reveal_strlit("ICE_ARROW");
    assert("KAFEIMASK"@[0] != "ICE_ARROW"@[0]);
    reveal_strlit("POWDERKEG");
    assert("KAFEIMASK"@[0] != "POWDERKEG"@[0]);
    reveal_strlit("MAGICBEAN");
    assert("KAFEIMASK"@[0] != "MAGICBEAN"@[0]);
    reveal_strlit("DEKUSTICK");
    assert("KAFEIMASK"@[0] != "DEKUSTICK"@[0]);
    reveal_strlit("DEKU_MASK");
    assert("KAFEIMASK"@[0] != "DEKU_MASK"@[0]);
    reveal_strlit("GORONMASK");
    assert("KAFEIMASK"@[0] != "GORONMASK"@[0]);
    reveal_strlit("ZORA_MASK");
    assert("KAFEIMASK"@[0] != "ZORA_MASK"@[0]);
    reveal_strlit("BLASTMASK");
    assert("KAFEIMASK"@[0] != "BLASTMASK"@[0]);
    reveal_strlit("STONEMASK");
    assert("KAFEIMASK"@[0] != "STONEMASK"@[0]);
    reveal_strlit("BUNNYHOOD");
    assert("KAFEIMASK"@[0] != "BUNNYHOOD"@[0]);
}

/// What the save holds of `COUPLES_MASK`.
#[verifier::rlimit(40)]
proof fn lemma_has_couples_mask(s: MmSave)
    ensures
        spec_has_named_item(s, "COUPLES_MASK"@) == (s.masks.masks_low & 0x2000u16 != 0),
{
    lemma_item_name_lengths();
    reveal_strlit("COUPLES_MASK");
    reveal_strlit("ALLNIGHTMASK");
    assert("COUPLES_MASK"@[0] != "ALLNIGHTMASK"@[0]);
    reveal_strlit("MASKOFSCENTS");
    assert("COUPLES_MASK"@[0] != "MASKOFSCENTS"@[0]);
}

/// What the save holds of `COUPLESMASK`.
#[verifier::rlimit(40)]
proof fn lemma_has_couplesmask(s: MmSave)
    ensures
        spec_has_named_item(s, "COUPLESMASK"@) == (s.masks.masks_low & 0x2000u16 != 0),
{
    lemma_item_name_lengths();
    reveal_strlit("COUPLESMASK");
    reveal_strlit("LIGHT_ARROW");
    assert("COUPLESMASK"@[0] != "LIGHT_ARROW"@[0]);
    reveal_strlit("LENSOFTRUTH");
    assert("COUPLESMASK"@[0] != "LENSOFTRUTH"@[0]);
    reveal_strlit("POSTMAN_HAT");
    assert("COUPLESMASK"@[0] != "POSTMAN_HAT"@[0]);
    reveal_strlit("KEATON_MASK");
    assert("COUPLESMASK"@[0] != "KEATON_MASK"@[0]);
    reveal_strlit("BREMEN_MASK");
    assert("COUPLESMASK"@[0] != "BREMEN_MASK"@[0]);
    reveal_strlit("DONGEROMASK");
    assert("COUPLESMASK"@[0] != "DONGEROMASK"@[0]);
    reveal_strlit("ROMANI_MASK");
    assert("COUPLESMASK"@[0] != "ROMANI_MASK"@[0]);
}

/// What the save holds of `MASK_OF_TRUTH`.
#[verifier::rlimit(40)]
proof fn lemma_has_mask_of_truth(s: MmSave)
    ensures
        spec_has_named_item(s, "MASK_OF_TRUTH"@) == (s.masks.masks_low & 0x4000u16 != 0),
{
    lemma_item_name_lengths();
    reveal_strlit("MASK_OF_TRUTH");
    reveal_strlit("LENS_OF_TRUTH");
    assert("MASK_OF_TRUTH"@[0] != "LENS_OF_TRUTH"@[0]);
    reveal_strlit("PICTOGRAPHBOX");
    assert("MASK_OF_TRUTH"@[0] != "PICTOGRAPHBOX"@[0]);
    reveal_strlit("DON_GERO_MASK");
    assert("MASK_OF_TRUTH"@[0] != "DON_GERO_MASK"@[0]);
}

/// What the save holds of `MASKOFTRUTH`.
#[verifier::rlimit(40)]
proof fn lemma_has_maskoftruth(s: MmSave)
    ensures
        spec_has_named_item(s, "MASKOFTRUTH"@) == (s.masks.masks_low & 0x4000u16 != 0),
{
    lemma_item_name_lengths();
    reveal_strlit("MASKOFTRUTH");
    reveal_strlit("LIGHT_ARROW");
    assert("MASKOFTRUTH"@[0] != "LIGHT_ARROW"@[0]);
    reveal_strlit("LENSOFTRUTH");
    assert("MASKOFTRUTH"@[0] != "LENSOFTRUTH"@[0]);
    reveal_strlit("POSTMAN_HAT");
    assert("MASKOFTRUTH"@[0] != "POSTMAN_HAT"@[0]);
    reveal_strlit("KEATON_MASK");
    assert("MASKOFTRUTH"@[0] != "KEATON_MASK"@[0]);
    reveal_strlit("BREMEN_MASK");
    assert("MASKOFTRUTH"@[0] != "BREMEN_MASK"@[0]);
    reveal_strlit("DONGEROMASK");
    assert("MASKOFTRUTH"@[0] != "DONGEROMASK"@[0]);
    reveal_strlit("ROMANI_MASK");
    assert("MASKOFTRUTH"@[0] != "ROMANI_MASK"@[0]);
    reveal_strlit("COUPLESMASK");
    assert("MASKOFTRUTH"@[0] != "COUPLESMASK"@[0]);
}

/// What the save holds of `KAMARO_MASK`.
#[verifier::rlimit(40)]
proof fn lemma_has_kamaro_mask(s: MmSave)
    ensures
        spec_has_named_item(s, "KAMARO_MASK"@) == (s.masks.masks_high & 0x01u8 != 0),
{
    lemma_item_name_lengths();
    reveal_strlit("KAMARO_MASK");
    reveal_strlit("LIGHT_ARROW");
    assert("KAMARO_MASK"@[0] != "LIGHT_ARROW"@[0]);
    reveal_strlit("LENSOFTRUTH");
    assert("KAMARO_MASK"@[0] != "LENSOFTRUTH"@[0]);
    reveal_strlit("POSTMAN_HAT");
    assert("KAMARO_MASK"@[0] != "POSTMAN_HAT"@[0]);
    reveal_strlit("KEATON_MASK");
    assert("KAMARO_MASK"@[1] != "KEATON_MASK"@[1]);
    reveal_strlit("BREMEN_MASK");
    assert("KAMARO_MASK"@[0] != "BREMEN_MASK"@[0]);
    reveal_strlit("DONGEROMASK");
    assert("KAMARO_MASK"@[0] != "DONGEROMASK"@[0]);
    reveal_strlit("ROMANI_MASK");
    assert("KAMARO_MASK"@[0] != "ROMANI_MASK"@[0]);
    reveal_strlit("COUPLESMASK");
    assert("KAMARO_MASK"@[0] != "COUPLESMASK"@[0]);
    reveal_strlit("MASKOFTRUTH");
    assert("KAMARO_MASK"@[0] != "MASKOFTRUTH"@[0]);
}

/// What the save holds of `KAMAROMASK`.
#[verifier::rlimit(40)]
proof fn lemma_has_kamaromask(s: MmSave)
    ensures
        spec_has_named_item(s, "KAMAROMASK"@) == (s.masks.masks_high & 0x01u8 != 0),
{
    lemma_item_name_lengths();
    reveal_strlit("KAMAROMASK");
    reveal_strlit("FIRE_ARROW");
    assert("KAMAROMASK"@[0] != "FIRE_ARROW"@[0]);
    reveal_strlit("LIGHTARROW");
    assert("KAMAROMASK"@[0] != "LIGHTARROW"@[0]);
    reveal_strlit("POWDER_KEG");
    assert("KAMAROMASK"@[0] != "POWDER_KEG"@[0]);
    reveal_strlit("MAGIC_BEAN");
    assert("KAMAROMASK"@[0] != "MAGIC_BEAN"@[0]);
    reveal_strlit("DEKU_STICK");
    assert("KAMAROMASK"@[0] != "DEKU_STICK"@[0]);
    reveal_strlit("GORON_MASK");
    assert("KAMAROMASK"@[0] != "GORON_MASK"@[0]);
    reveal_strlit("POSTMANHAT");
    assert("KAMAROMASK"@[0] != "POSTMANHAT"@[0]);
    reveal_strlit("BLAST_MASK");
    assert("KAMAROMASK"@[0] != "BLAST_MASK"@[0]);
    reveal_strlit("STONE_MASK");
    assert("KAMAROMASK"@[0] != "STONE_MASK"@[0]);
    reveal_strlit("KEATONMASK");
    assert("KAMAROMASK"@[1] != "KEATONMASK"@[1]);
    reveal_strlit("BREMENMASK");
    assert("KAMAROMASK"@[0] != "BREMENMASK"@[0]);
    reveal_strlit("BUNNY_HOOD");
    assert("KAMAROMASK"@[0] != "BUNNY_HOOD"@[0]);
    reveal_strlit("ROMANIMASK");
    assert("KAMAROMASK"@[0] != "ROMANIMASK"@[0]);
    reveal_strlit("KAFEI_MASK");
    assert("KAMAROMASK"@[2] != "KAFEI_MASK"@[2]);
}

/// What the save holds of `GIBDO_MASK`.
#[verifier::rlimit(40)]
proof fn lemma_has_gibdo_mask(s: MmSave)
    ensures
        spec_has_named_item(s, "GIBDO_MASK"@) == (s.masks.masks_high & 0x02u8 != 0),
{
    lemma_item_name_lengths();
    reveal_strlit("GIBDO_MASK");
    reveal_strlit("FIRE_ARROW");
    assert("GIBDO_MASK"@[0] != "FIRE_ARROW"@[0]);
    reveal_strlit("LIGHTARROW");
    assert("GIBDO_MASK"@[0] != "LIGHTARROW"@[0]);
    reveal_strlit("POWDER_KEG");
    assert("GIBDO_MASK"@[0] != "POWDER_KEG"@[0]);
    reveal_strlit("MAGIC_BEAN");
    assert("GIBDO_MASK"@[0] != "MAGIC_BEAN"@[0]);
    reveal_strlit("DEKU_STICK");
    assert("GIBDO_MASK"@[0] != "DEKU_STICK"@[0]);
    reveal_strlit("GORON_MASK");
    assert("GIBDO_MASK"@[1] != "GORON_MASK"@[1]);
    reveal_strlit("POSTMANHAT");
    assert("GIBDO_MASK"@[0] != "POSTMANHAT"@[0]);
    reveal_strlit("BLAST_MASK");
    assert("GIBDO_MASK"@[0] != "BLAST_MASK"@[0]);
    reveal_strlit("STONE_MASK");
    assert("GIBDO_MASK"@[0] != "STONE_MASK"@[0]);
    reveal_strlit("KEATONMASK");
    assert("GIBDO_MASK"@[0] != "KEATONMASK"@[0]);
    reveal_strlit("BREMENMASK");
    assert("GIBDO_MASK"@[0] != "BREMENMASK"@[0]);
    reveal_strlit("BUNNY_HOOD");
    assert("GIBDO_MASK"@[0] != "BUNNY_HOOD"@[0]);
    reveal_strlit("ROMANIMASK");
    assert("GIBDO_MASK"@[0] != "ROMANIMASK"@[0]);
    reveal_strlit("KAFEI_MASK");
    assert("GIBDO_MASK"@[0] != "KAFEI_MASK"@[0]);
    reveal_strlit("KAMAROMASK");
    assert("GIBDO_MASK"@[0] != "KAMAROMASK"@[0]);
}

/// What the save holds of `GIBDOMASK`.
#[verifier::rlimit(40)]
proof fn lemma_has_gibdomask(s: MmSave)
    ensures
        spec_has_named_item(s, "GIBDOMASK"@) == (s.masks.masks_high & 0x02u8 != 0),
{
    lemma_item_name_lengths();
    reveal_strlit("GIBDOMASK");
    reveal_strlit("HEROS_BOW");
    assert("GIBDOMASK"@[0] != "HEROS_BOW"@[0]);
    reveal_strlit("FIREARROW");
    assert("GIBDOMASK"@[0] != "FIREARROW"@[0]);
    reveal_strlit("ICE_ARROW");
    assert("GIBDOMASK"@[0] != "ICE_ARROW"@[0]);
    reveal_strlit("POWDERKEG");
    assert("GIBDOMASK"@[0] != "POWDERKEG"@[0]);
    reveal_strlit("MAGICBEAN");
    assert("GIBDOMASK"@[0] != "MAGICBEAN"@[0]);
    reveal_strlit("DEKUSTICK");
    assert("GIBDOMASK"@[0] != "DEKUSTICK"@[0]);
    reveal_strlit("DEKU_MASK");
    assert("GIBDOMASK"@[0] != "DEKU_MASK"@[0]);
    reveal_strlit("GORONMASK");
    assert("GIBDOMASK"@[1] != "GORONMASK"@[1]);
    reveal_strlit("ZORA_MASK");
    assert("GIBDOMASK"@[0] != "ZORA_MASK"@[0]);
    reveal_strlit("BLASTMASK");
    assert("GIBDOMASK"@[0] != "BLASTMASK"@[0]);
    reveal_strlit("STONEMASK");
    assert("GIBDOMASK"@[0] != "STONEMASK"@[0]);
    reveal_strlit("BUNNYHOOD");
    assert("GIBDOMASK"@[0] != "BUNNYHOOD"@[0]);
    reveal_strlit("KAFEIMASK");
    assert("GIBDOMASK"@[0] != "KAFEIMASK"@[0]);
}

/// What the save holds of `GARO_MASK`.
#[verifier::rlimit(40)]
proof fn lemma_has_garo_mask(s: MmSave)
    ensures
        spec_has_named_item(s, "GARO_MASK"@) == (s.masks.masks_high & 0x04u8 != 0),
{
    lemma_item_name_lengths();
    reveal_strlit("GARO_MASK");
    reveal_strlit("HEROS_BOW");
    assert("GARO_MASK"@[0] != "HEROS_BOW"@[0]);
    reveal_strlit("FIREARROW");
    assert("GARO_MASK"@[0] != "FIREARROW"@[0]);
    reveal_strlit("ICE_ARROW");
    assert("GARO_MASK"@[0] != "ICE_ARROW"@[0]);
    reveal_strlit("POWDERKEG");
    assert("GARO_MASK"@[0] != "POWDERKEG"@[0]);
    reveal_strlit("MAGICBEAN");
    assert("GARO_MASK"@[0] != "MAGICBEAN"@[0]);
    reveal_strlit("DEKUSTICK");
    assert("GARO_MASK"@[0] != "DEKUSTICK"@[0]);
    reveal_strlit("DEKU_MASK");
    assert("GARO_MASK"@[0] != "DEKU_MASK"@[0]);
    reveal_strlit("GORONMASK");
    assert("GARO_MASK"@[1] != "GORONMASK"@[1]);
    reveal_strlit("ZORA_MASK");
    assert("GARO_MASK"@[0] != "ZORA_MASK"@[0]);
    reveal_strlit("BLASTMASK");
    assert("GARO_MASK"@[0] != "BLASTMASK"@[0]);
    reveal_strlit("STONEMASK");
    assert("GARO_MASK"@[0] != "STONEMASK"@[0]);
    reveal_strlit("BUNNYHOOD");
    assert("GARO_MASK"@[0] != "BUNNYHOOD"@[0]);
    reveal_strlit("KAFEIMASK");
    assert("GARO_MASK"@[0] != "KAFEIMASK"@[0]);
    reveal_strlit("GIBDOMASK");
    assert("GARO_MASK"@[1] != "GIBDOMASK"@[1]);
}

/// What the save holds of `GAROMASK`.
#[verifier::rlimit(40)]
proof fn lemma_has_garomask(s: MmSave)
    ensures
        spec_has_named_item(s, "GAROMASK"@) == (s.masks.masks_high & 0x04u8 != 0),
{
    lemma_item_name_lengths();
    reveal_strlit("GAROMASK");
    reveal_strlit("HEROSBOW");
    assert("GAROMASK"@[0] != "HEROSBOW"@[0]);
    reveal_strlit("ICEARROW");
    assert("GAROMASK"@[0] != "ICEARROW"@[0]);
    reveal_strlit("HOOKSHOT");
    assert("GAROMASK"@[0] != "HOOKSHOT"@[0]);
    reveal_strlit("BOMBCHUS");
    assert("GAROMASK"@[0] != "BOMBCHUS"@[0]);
    reveal_strlit("DEKU_NUT");
    assert("GAROMASK"@[0] != "DEKU_NUT"@[0]);
    reveal_strlit("DEKUMASK");
    assert("GAROMASK"@[0] != "DEKUMASK"@[0]);
    reveal_strlit("ZORAMASK");
    assert("GAROMASK"@[0] != "ZORAMASK"@[0]);
}

/// What the save holds of `CAPTAIN_HAT`.
#[verifier::rlimit(40)]
proof fn lemma_has_captain_hat(s: MmSave)
    ensures
        spec_has_named_item(s, "CAPTAIN_HAT"@) == (s.masks.masks_high & 0x08u8 != 0),
{
    lemma_item_name_lengths();
    reveal_strlit("CAPTAIN_HAT");
    reveal_strlit("LIGHT_ARROW");
    assert("CAPTAIN_HAT"@[0] != "LIGHT_ARROW"@[0]);
    reveal_strlit("LENSOFTRUTH");
    assert("CAPTAIN_HAT"@[0] != "LENSOFTRUTH"@[0]);
    reveal_strlit("POSTMAN_HAT");
    assert("CAPTAIN_HAT"@[0] != "POSTMAN_HAT"@[0]);
    reveal_strlit("KEATON_MASK");
    assert("CAPTAIN_HAT"@[0] != "KEATON_MASK"@[0]);
    reveal_strlit("BREMEN_MASK");
    assert("CAPTAIN_HAT"@[0] != "BREMEN_MASK"@[0]);
    reveal_strlit("DONGEROMASK");
    assert("CAPTAIN_HAT"@[0] != "DONGEROMASK"@[0]);
    reveal_strlit("ROMANI_MASK");
    assert("CAPTAIN_HAT"@[0] != "ROMANI_MASK"@[0]);
    reveal_strlit("COUPLESMASK");
    assert("CAPTAIN_HAT"@[1] != "COUPLESMASK"@[1]);
    reveal_strlit("MASKOFTRUTH");
    assert("CAPTAIN_HAT"@[0] != "MASKOFTRUTH"@[0]);
    reveal_strlit("KAMARO_MASK");
    assert("CAPTAIN_HAT"@[0] != "KAMARO_MASK"@[0]);
}

/// What the save holds of `CAPTAINHAT`.
#[verifier::rlimit(40)]
proof fn lemma_has_captainhat(s: MmSave)
    ensures
        spec_has_named_item(s, "CAPTAINHAT"@) == (s.masks.masks_high & 0x08u8 != 0),
{
    lemma_item_name_lengths();
    reveal_strlit("CAPTAINHAT");
    reveal_strlit("FIRE_ARROW");
    assert("CAPTAINHAT"@[0] != "FIRE_ARROW"@[0]);
    reveal_strlit("LIGHTARROW");
    assert("CAPTAINHAT"@[0] != "LIGHTARROW"@[0]);
    reveal_strlit("POWDER_KEG");
    assert("CAPTAINHAT"@[0] != "POWDER_KEG"@[0]);
    reveal_strlit("MAGIC_BEAN");
    assert("CAPTAINHAT"@[0] != "MAGIC_BEAN"@[0]);
    reveal_strlit("DEKU_STICK");
    assert("CAPTAINHAT"@[0] != "DEKU_STICK"@[0]);
    reveal_strlit("GORON_MASK");
    assert("CAPTAINHAT"@[0] != "GORON_MASK"@[0]);
    reveal_strlit("POSTMANHAT");
    assert("CAPTAINHAT"@[0] != "POSTMANHAT"@[0]);
    reveal_strlit("BLAST_MASK");
    assert("CAPTAINHAT"@[0] != "BLAST_MASK"@[0]);
    reveal_strlit("STONE_MASK");
    assert("CAPTAINHAT"@[0] != "STONE_MASK"@[0]);
    reveal_strlit("KEATONMASK");
    assert("CAPTAINHAT"@[0] != "KEATONMASK"@[0]);
    reveal_strlit("BREMENMASK");
    assert("CAPTAINHAT"@[0] != "BREMENMASK"@[0]);
    reveal_strlit("BUNNY_HOOD");
    assert("CAPTAINHAT"@[0] != "BUNNY_HOOD"@[0]);
    reveal_strlit("ROMANIMASK");
    assert("CAPTAINHAT"@[0] != "ROMANIMASK"@[0]);
    reveal_strlit("KAFEI_MASK");
    assert("CAPTAINHAT"@[0] != "KAFEI_MASK"@[0]);
    reveal_strlit("KAMAROMASK");
    assert("CAPTAINHAT"@[0] != "KAMAROMASK"@[0]);
    reveal_strlit("GIBDO_MASK");
    assert("CAPTAINHAT"@[0] != "GIBDO_MASK"@[0]);
}

/// What the save holds of `GIANT_MASK`.
#[verifier::rlimit(40)]
proof fn lemma_has_giant_mask(s: MmSave)
    ensures
        spec_has_named_item(s, "GIANT_MASK"@) == (s.masks.masks_high & 0x10u8 != 0),
{
    lemma_item_name_lengths();
    reveal_strlit("GIANT_MASK");
    reveal_strlit("FIRE_ARROW");
    assert("GIANT_MASK"@[0] != "FIRE_ARROW"@[0]);
    reveal_strlit("LIGHTARROW");
    assert("GIANT_MASK"@[0] != "LIGHTARROW"@[0]);
    reveal_strlit("POWDER_KEG");
    assert("GIANT_MASK"@[0] != "POWDER_KEG"@[0]);
    reveal_strlit("MAGIC_BEAN");
    assert("GIANT_MASK"@[0] != "MAGIC_BEAN"@[0]);
    reveal_strlit("DEKU_STICK");
    assert("GIANT_MASK"@[0] != "DEKU_STICK"@[0]);
    reveal_strlit("GORON_MASK");
    assert("GIANT_MASK"@[1] != "GORON_MASK"@[1]);
    reveal_strlit("POSTMANHAT");
    assert("GIANT_MASK"@[0] != "POSTMANHAT"@[0]);
    reveal_strlit("BLAST_MASK");
    assert("GIANT_MASK"@[0] != "BLAST_MASK"@[0]);
    reveal_strlit("STONE_MASK");
    assert("GIANT_MASK"@[0] != "STONE_MASK"@[0]);
    reveal_strlit("KEATONMASK");
    assert("GIANT_MASK"@[0] != "KEATONMASK"@[0]);
    reveal_strlit("BREMENMASK");
    assert("GIANT_MASK"@[0] != "BREMENMASK"@[0]);
    reveal_strlit("BUNNY_HOOD");
    assert("GIANT_MASK"@[0] != "BUNNY_HOOD"@[0]);
    reveal_strlit("ROMANIMASK");
    assert("GIANT_MASK"@[0] != "ROMANIMASK"@[0]);
    reveal_strlit("KAFEI_MASK");
    assert("GIANT_MASK"@[0] != "KAFEI_MASK"@[0]);
    reveal_strlit("KAMAROMASK");
    assert("GIANT_MASK"@[0] != "KAMAROMASK"@[0]);
    reveal_strlit("GIBDO_MASK");
    assert("GIANT_MASK"@[2] != "GIBDO_MASK"@[2]);
    reveal_strlit("CAPTAINHAT");
    assert("GIANT_MASK"@[0] != "CAPTAINHAT"@[0]);
}

/// What the save holds of `GIANTMASK`.
#[verifier::rlimit(40)]
proof fn lemma_has_giantmask(s: MmSave)
    ensures
        spec_has_named_item(s, "GIANTMASK"@) == (s.masks.masks_high & 0x10u8 != 0),
{
    lemma_item_name_lengths();
    reveal_strlit("GIANTMASK");
    reveal_strlit("HEROS_BOW");
    assert("GIANTMASK"@[0] != "HEROS_BOW"@[0]);
    reveal_strlit("FIREARROW");
    assert("GIANTMASK"@[0] != "FIREARROW"@[0]);
    reveal_strlit("ICE_ARROW");
    assert("GIANTMASK"@[0] != "ICE_ARROW"@[0]);
    reveal_strlit("POWDERKEG");
    assert("GIANTMASK"@[0] != "POWDERKEG"@[0]);
    reveal_strlit("MAGICBEAN");
    assert("GIANTMASK"@[0] != "MAGICBEAN"@[0]);
    reveal_strlit("DEKUSTICK");
    assert("GIANTMASK"@[0] != "DEKUSTICK"@[0]);
    reveal_strlit("DEKU_MASK");
    assert("GIANTMASK"@[0] != "DEKU_MASK"@[0]);
    reveal_strlit("GORONMASK");
    assert("GIANTMASK"@[1] != "GORONMASK"@[1]);
    reveal_strlit("ZORA_MASK");
    assert("GIANTMASK"@[0] != "ZORA_MASK"@[0]);
    reveal_strlit("BLASTMASK");
    assert("GIANTMASK"@[0] != "BLASTMASK"@[0]);
    reveal_strlit("STONEMASK");
    assert("GIANTMASK"@[0] != "STONEMASK"@[0]);
    reveal_strlit("BUNNYHOOD");
    assert("GIANTMASK"@[0] != "BUNNYHOOD"@[0]);
    reveal_strlit("KAFEIMASK");
    assert("GIANTMASK"@[0] != "KAFEIMASK"@[0]);
    reveal_strlit("GIBDOMASK");
    assert("GIANTMASK"@[2] != "GIBDOMASK"@[2]);
    reveal_strlit("GARO_MASK");
    assert("GIANTMASK"@[1] != "GARO_MASK"@[1]);
}

/// What the save holds of `SONG_OF_TIME`.
#[verifier::rlimit(40)]
proof fn lemma_has_song_of_time(s: MmSave)
    ensures
        spec_has_named_item(s, "SONG_OF_TIME"@) == (s.quest_items & 0x0000_1000u32 != 0),
{
    lemma_item_name_lengths();
    reveal_strlit("SONG_OF_TIME");
    reveal_strlit("ALLNIGHTMASK");
    assert("SONG_OF_TIME"@[0] != "ALLNIGHTMASK"@[0]);
    reveal_strlit("MASKOFSCENTS");
    assert("SONG_OF_TIME"@[0] != "MASKOFSCENTS"@[0]);
    reveal_strlit("COUPLES_MASK");
    assert("SONG_OF_TIME"@[0] != "COUPLES_MASK"@[0]);
}

/// What the save holds of `SONGOFTIME`.
#[verifier::rlimit(40)]
proof fn lemma_has_songoftime(s: MmSave)
    ensures
        spec_has_named_item(s, "SONGOFTIME"@) == (s.quest_items & 0x0000_1000u32 != 0),
{
    lemma_item_name_lengths();
    reveal_strlit("SONGOFTIME");
    reveal_strlit("FIRE_ARROW");
    assert("SONGOFTIME"@[0] != "FIRE_ARROW"@[0]);
    reveal_strlit("LIGHTARROW");
    assert("SONGOFTIME"@[0] != "LIGHTARROW"@[0]);
    reveal_strlit("POWDER_KEG");
    assert("SONGOFTIME"@[0] != "POWDER_KEG"@[0]);
    reveal_strlit("MAGIC_BEAN");
    assert("SONGOFTIME"@[0] != "MAGIC_BEAN"@[0]);
    reveal_strlit("DEKU_STICK");
    assert("SONGOFTIME"@[0] != "DEKU_STICK"@[0]);
    reveal_strlit("GORON_MASK");
    assert("SONGOFTIME"@[0] != "GORON_MASK"@[0]);
    reveal_strlit("POSTMANHAT");
    assert("SONGOFTIME"@[0] != "POSTMANHAT"@[0]);
    reveal_strlit("BLAST_MASK");
    assert("SONGOFTIME"@[0] != "BLAST_MASK"@[0]);
    reveal_strlit("STONE_MASK");
    assert("SONGOFTIME"@[1] != "STONE_MASK"@[1]);
    reveal_strlit("KEATONMASK");
    assert("SONGOFTIME"@[0] != "KEATONMASK"@[0]);
    reveal_strlit("BREMENMASK");
    assert("SONGOFTIME"@[0] != "BREMENMASK"@[0]);
    reveal_strlit("BUNNY_HOOD");
    assert("SONGOFTIME"@[0] != "BUNNY_HOOD"@[0]);
    reveal_strlit("ROMANIMASK");
    assert("SONGOFTIME"@[0] != "ROMANIMASK"@[0]);
    reveal_strlit("KAFEI_MASK");
    assert("SONGOFTIME"@[0] != "KAFEI_MASK"@[0]);
    reveal_strlit("KAMAROMASK");
    assert("SONGOFTIME"@[0] != "KAMAROMASK"@[0]);
    reveal_strlit("GIBDO_MASK");
    assert("SONGOFTIME"@[0] != "GIBDO_MASK"@[0]);
    reveal_strlit("CAPTAINHAT");
    assert("SONGOFTIME"@[0] != "CAPTAINHAT"@[0]);
    reveal_strlit("GIANT_MASK");
    assert("SONGOFTIME"@[0] != "GIANT_MASK"@[0]);
}

/// What the save holds of `SONG_OF_HEALING`.
#[verifier::rlimit(40)]
proof fn lemma_has_song_of_healing(s: MmSave)
    ensures
        spec_has_named_item(s, "SONG_OF_HEALING"@) == (s.quest_items & 0x0000_2000u32 != 0),
{
    lemma_item_name_lengths();
    reveal_strlit("SONG_OF_HEALING");
    reveal_strlit("OCARINA_OF_TIME");
    assert("SONG_OF_HEALING"@[0] != "OCARINA_OF_TIME"@[0]);
    reveal_strlit("GREATFAIRYSWORD");
    assert("SONG_OF_HEALING"@[0] != "GREATFAIRYSWORD"@[0]);
    reveal_strlit("FIERCEDEITYMASK");
    assert("SONG_OF_HEALING"@[0] != "FIERCEDEITYMASK"@[0]);
}

/// What the save holds of `SONGOFHEALING`.
#[verifier::rlimit(40)]
proof fn lemma_has_songofhealing(s: MmSave)
    ensures
        spec_has_named_item(s, "SONGOFHEALING"@) == (s.quest_items & 0x0000_2000u32 != 0),
{
    lemma_item_name_lengths();
    reveal_strlit("SONGOFHEALING");
    reveal_strlit("LENS_OF_TRUTH");
    assert("SONGOFHEALING"@[0] != "LENS_OF_TRUTH"@[0]);
    reveal_strlit("PICTOGRAPHBOX");
    assert("SONGOFHEALING"@[0] != "PICTOGRAPHBOX"@[0]);
    reveal_strlit("DON_GERO_MASK");
    assert("SONGOFHEALING"@[0] != "DON_GERO_MASK"@[0]);
    reveal_strlit("MASK_OF_TRUTH");
    assert("SONGOFHEALING"@[0] != "MASK_OF_TRUTH"@[0]);
}

/// What the save holds of `EPONAS_SONG`.
#[verifier::rlimit(40)]
proof fn lemma_has_eponas_song(s: MmSave)
    ensures
        spec_has_named_item(s, "EPONAS_SONG"@) == (s.quest_items & 0x0000_4000u32 != 0),
{
    lemma_item_name_lengths();
    reveal_strlit("EPONAS_SONG");
    reveal_strlit("LIGHT_ARROW");
    assert("EPONAS_SONG"@[0] != "LIGHT_ARROW"@[0]);
    reveal_strlit("LENSOFTRUTH");
    assert("EPONAS_SONG"@[0] != "LENSOFTRUTH"@[0]);
    reveal_strlit("POSTMAN_HAT");
    assert("EPONAS_SONG"@[0] != "POSTMAN_HAT"@[0]);
    reveal_strlit("KEATON_MASK");
    assert("EPONAS_SONG"@[0] != "KEATON_MASK"@[0]);
    reveal_strlit("BREMEN_MASK");
    assert("EPONAS_SONG"@[0] != "BREMEN_MASK"@[0]);
    reveal_strlit("DONGEROMASK");
    assert("EPONAS_SONG"@[0] != "DONGEROMASK"@[0]);
    reveal_strlit("ROMANI_MASK");
    assert("EPONAS_SONG"@[0] != "ROMANI_MASK"@[0]);
    reveal_strlit("COUPLESMASK");
    assert("EPONAS_SONG"@[0] != "COUPLESMASK"@[0]);
    reveal_strlit("MASKOFTRUTH");
    assert("EPONAS_SONG"@[0] != "MASKOFTRUTH"@[0]);
    reveal_strlit("KAMARO_MASK");
    assert("EPONAS_SONG"@[0] != "KAMARO_MASK"@[0]);
    reveal_strlit("CAPTAIN_HAT");
    assert("EPONAS_SONG"@[0] != "CAPTAIN_HAT"@[0]);
}

/// What the save holds of `EPONASSONG`.
#[verifier::rlimit(40)]
proof fn lemma_has_eponassong(s: MmSave)
    ensures
        spec_has_named_item(s, "EPONASSONG"@) == (s.quest_items & 0x0000_4000u32 != 0),
{
    lemma_item_name_lengths();
    reveal_strlit("EPONASSONG");
    reveal_strlit("FIRE_ARROW");
    assert("EPONASSONG"@[0] != "FIRE_ARROW"@[0]);
    reveal_strlit("LIGHTARROW");
    assert("EPONASSONG"@[0] != "LIGHTARROW"@[0]);
    reveal_strlit("POWDER_KEG");
    assert("EPONASSONG"@[0] != "POWDER_KEG"@[0]);
    reveal_strlit("MAGIC_BEAN");
    assert("EPONASSONG"@[0] != "MAGIC_BEAN"@[0]);
    reveal_strlit("DEKU_STICK");
    assert("EPONASSONG"@[0] != "DEKU_STICK"@[0]);
    reveal_strlit("GORON_MASK");
    assert("EPONASSONG"@[0] != "GORON_MASK"@[0]);
    reveal_strlit("POSTMANHAT");
    assert("EPONASSONG"@[0] != "POSTMANHAT"@[0]);
    reveal_strlit("BLAST_MASK");
    assert("EPONASSONG"@[0] != "BLAST_MASK"@[0]);
    reveal_strlit("STONE_MASK");
    assert("EPONASSONG"@[0] != "STONE_MASK"@[0]);
    reveal_strlit("KEATONMASK");
    assert("EPONASSONG"@[0] != "KEATONMASK"@[0]);
    reveal_strlit("BREMENMASK");
    assert("EPONASSONG"@[0] != "BREMENMASK"@[0]);
    reveal_strlit("BUNNY_HOOD");
    assert("EPONASSONG"@[0] != "BUNNY_HOOD"@[0]);
    reveal_strlit("ROMANIMASK");
    assert("EPONASSONG"@[0] != "ROMANIMASK"@[0]);
    reveal_strlit("KAFEI_MASK");
    assert("EPONASSONG"@[0] != "KAFEI_MASK"@[0]);
    reveal_strlit("KAMAROMASK");
    assert("EPONASSONG"@[0] != "KAMAROMASK"@[0]);
    reveal_strlit("GIBDO_MASK");
    assert("EPONASSONG"@[0] != "GIBDO_MASK"@[0]);
    reveal_strlit("CAPTAINHAT");
    assert("EPONASSONG"@[0] != "CAPTAINHAT"@[0]);
    reveal_strlit("GIANT_MASK");
    assert("EPONASSONG"@[0] != "GIANT_MASK"@[0]);
    reveal_strlit("SONGOFTIME");
    assert("EPONASSONG"@[0] != "SONGOFTIME"@[0]);
}

/// What the save holds of `SONG_OF_SOARING`.
#[verifier::rlimit(40)]
proof fn lemma_has_song_of_soaring(s: MmSave)
    ensures
        spec_has_named_item(s, "SONG_OF_SOARING"@) == (s.quest_items & 0x0000_8000u32 != 0),
{
    lemma_item_name_lengths();
    reveal_strlit("SONG_OF_SOARING");
    reveal_strlit("OCARINA_OF_TIME");
    assert("SONG_OF_SOARING"@[0] != "OCARINA_OF_TIME"@[0]);
    reveal_strlit("GREATFAIRYSWORD");
    assert("SONG_OF_SOARING"@[0] != "GREATFAIRYSWORD"@[0]);
    reveal_strlit("FIERCEDEITYMASK");
    assert("SONG_OF_SOARING"@[0] != "FIERCEDEITYMASK"@[0]);
    reveal_strlit("SONG_OF_HEALING");
    assert("SONG_OF_SOARING"@[8] != "SONG_OF_HEALING"@[8]);
}

/// What the save holds of `SONGOFSOARING`.
#[verifier::rlimit(40)]
proof fn lemma_has_songofsoaring(s: MmSave)
    ensures
        spec_has_named_item(s, "SONGOFSOARING"@) == (s.quest_items & 0x0000_8000u32 != 0),
{
    lemma_item_name_lengths();
    reveal_strlit("SONGOFSOARING");
    reveal_strlit("LENS_OF_TRUTH");
    assert("SONGOFSOARING"@[0] != "LENS_OF_TRUTH"@[0]);
    reveal_strlit("PICTOGRAPHBOX");
    assert("SONGOFSOARING"@[0] != "PICTOGRAPHBOX"@[0]);
    reveal_strlit("DON_GERO_MASK");
    assert("SONGOFSOARING"@[0] != "DON_GERO_MASK"@[0]);
    reveal_strlit("MASK_OF_TRUTH");
    assert("SONGOFSOARING"@[0] != "MASK_OF_TRUTH"@[0]);
    reveal_strlit("SONGOFHEALING");
    assert("SONGOFSOARING"@[6] != "SONGOFHEALING"@[6]);
}

/// What the save holds of `SONG_OF_STORMS`.
#[verifier::rlimit(40)]
proof fn lemma_has_song_of_storms(s: MmSave)
    ensures
        spec_has_named_item(s, "SONG_OF_STORMS"@) == (s.quest_items & 0x0001_0000u32 != 0),
{
    lemma_item_name_lengths();
    reveal_strlit("SONG_OF_STORMS");
    reveal_strlit("OCARINAOFTTIME");
    assert("SONG_OF_STORMS"@[0] != "OCARINAOFTTIME"@[0]);
    reveal_strlit("PICTOGRAPH_BOX");
    assert("SONG_OF_STORMS"@[0] != "PICTOGRAPH_BOX"@[0]);
    reveal_strlit("ALL_NIGHT_MASK");
    assert("SONG_OF_STORMS"@[0] != "ALL_NIGHT_MASK"@[0]);
    reveal_strlit("GREATFAIRYMASK");
    assert("SONG_OF_STORMS"@[0] != "GREATFAIRYMASK"@[0]);
    reveal_strlit("MASK_OF_SCENTS");
    assert("SONG_OF_STORMS"@[0] != "MASK_OF_SCENTS"@[0]);
}

/// What the save holds of `SONGOFSTORMS`.
#[verifier::rlimit(40)]
proof fn lemma_has_songofstorms(s: MmSave)
    ensures
        spec_has_named_item(s, "SONGOFSTORMS"@) == (s.quest_items & 0x0001_0000u32 != 0),
{
    lemma_item_name_lengths();
    reveal_strlit("SONGOFSTORMS");
    reveal_strlit("ALLNIGHTMASK");
    assert("SONGOFSTORMS"@[0] != "ALLNIGHTMASK"@[0]);
    reveal_strlit("MASKOFSCENTS");
    assert("SONGOFSTORMS"@[0] != "MASKOFSCENTS"@[0]);
    reveal_strlit("COUPLES_MASK");
    assert("SONGOFSTORMS"@[0] != "COUPLES_MASK"@[0]);
    reveal_strlit("SONG_OF_TIME");
    assert("SONGOFSTORMS"@[4] != "SONG_OF_TIME"@[4]);
}

/// What the save holds of `SONATA_OF_AWAKENING`.
#[verifier::rlimit(40)]
proof fn lemma_has_sonata_of_awakening(s: MmSave)
    ensures
        spec_has_named_item(s, "SONATA_OF_AWAKENING"@) == (s.quest_items & 0x0000_0040u32 != 0),
{
    lemma_item_name_lengths();
}

/// What the save holds of `SONATAOFAWAKENING`.
#[verifier::rlimit(40)]
proof fn lemma_has_sonataofawakening(s: MmSave)
    ensures
        spec_has_named_item(s, "SONATAOFAWAKENING"@) == (s.quest_items & 0x0000_0040u32 != 0),
{
    lemma_item_name_lengths();
    reveal_strlit("SONATAOFAWAKENING");
    reveal_strlit("GREAT_FAIRY_SWORD");
    assert("SONATAOFAWAKENING"@[0] != "GREAT_FAIRY_SWORD"@[0]);
    reveal_strlit("FIERCE_DEITY_MASK");
    assert("SONATAOFAWAKENING"@[0] != "FIERCE_DEITY_MASK"@[0]);
}

/// What the save holds of `GORON_LULLABY`.
#[verifier::rlimit(40)]
proof fn lemma_has_goron_lullaby(s: MmSave)
    ensures
        spec_has_named_item(s, "GORON_LULLABY"@) == (s.quest_items & 0x0000_0080u32 != 0),
{
    lemma_item_name_lengths();
    reveal_strlit("GORON_LULLABY");
    reveal_strlit("LENS_OF_TRUTH");
    assert("GORON_LULLABY"@[0] != "LENS_OF_TRUTH"@[0]);
    reveal_strlit("PICTOGRAPHBOX");
    assert("GORON_LULLABY"@[0] != "PICTOGRAPHBOX"@[0]);
    reveal_strlit("DON_GERO_MASK");
    assert("GORON_LULLABY"@[0] != "DON_GERO_MASK"@[0]);
    reveal_strlit("MASK_OF_TRUTH");
    assert("GORON_LULLABY"@[0] != "MASK_OF_TRUTH"@[0]);
    reveal_strlit("SONGOFHEALING");
    assert("GORON_LULLABY"@[0] != "SONGOFHEALING"@[0]);
    reveal_strlit("SONGOFSOARING");
    assert("GORON_LULLABY"@[0] != "SONGOFSOARING"@[0]);
}

/// What the save holds of `GORONLULLABY`.
#[verifier::rlimit(40)]
proof fn lemma_has_goronlullaby(s: MmSave)
    ensures
        spec_has_named_item(s, "GORONLULLABY"@) == (s.quest_items & 0x0000_0080u32 != 0),
{
    lemma_item_name_lengths();
    reveal_strlit("GORONLULLABY");
    reveal_strlit("ALLNIGHTMASK");
    assert("GORONLULLABY"@[0] != "ALLNIGHTMASK"@[0]);
    reveal_strlit("MASKOFSCENTS");
    assert("GORONLULLABY"@[0] != "MASKOFSCENTS"@[0]);
    reveal_strlit("COUPLES_MASK");
    assert("GORONLULLABY"@[0] != "COUPLES_MASK"@[0]);
    reveal_strlit("SONG_OF_TIME");
    assert("GORONLULLABY"@[0] != "SONG_OF_TIME"@[0]);
    reveal_strlit("SONGOFSTORMS");
    assert("GORONLULLABY"@[0] != "SONGOFSTORMS"@[0]);
}

/// What the save holds of `NEW_WAVE_BOSSA_NOVA`.
#[verifier::rlimit(40)]
proof fn lemma_has_new_wave_bossa_nova(s: MmSave)
    ensures
        spec_has_named_item(s, "NEW_WAVE_BOSSA_NOVA"@) == (s.quest_items & 0x0000_0100u32 != 0),
{
    lemma_item_name_lengths();
    reveal_strlit("NEW_WAVE_BOSSA_NOVA");
    reveal_strlit("SONATA_OF_AWAKENING");
    assert("NEW_WAVE_BOSSA_NOVA"@[0] != "SONATA_OF_AWAKENING"@[0]);
}

/// What the save holds of `NEWWAVEBOSSANOVA`.
#[verifier::rlimit(40)]
proof fn lemma_has_newwavebossanova(s: MmSave)
    ensures
        spec_has_named_item(s, "NEWWAVEBOSSANOVA"@) == (s.quest_items & 0x0000_0100u32 != 0),
{
    lemma_item_name_lengths();
    reveal_strlit("NEWWAVEBOSSANOVA");
    reveal_strlit("GREAT_FAIRY_MASK");
    assert("NEWWAVEBOSSANOVA"@[0] != "GREAT_FAIRY_MASK"@[0]);
    reveal_strlit("CIRCUSLEADERMASK");
    assert("NEWWAVEBOSSANOVA"@[0] != "CIRCUSLEADERMASK"@[0]);
}

/// What the save holds of `ELEGY_OF_EMPTINESS`.
#[verifier::rlimit(40)]
proof fn lemma_has_elegy_of_emptiness(s: MmSave)
    ensures
        spec_has_named_item(s, "ELEGY_OF_EMPTINESS"@) == (s.quest_items & 0x0000_0200u32 != 0),
{
    lemma_item_name_lengths();
    reveal_strlit("ELEGY_OF_EMPTINESS");
    reveal_strlit("CIRCUS_LEADER_MASK");
    assert("ELEGY_OF_EMPTINESS"@[0] != "CIRCUS_LEADER_MASK"@[0]);
}

/// What the save holds of `ELEGYOFEMPTINESS`.
#[verifier::rlimit(40)]
proof fn lemma_has_elegyofemptiness(s: MmSave)
    ensures
        spec_has_named_item(s, "ELEGYOFEMPTINESS"@) == (s.quest_items & 0x0000_0200u32 != 0),
{
    lemma_item_name_lengths();
    reveal_strlit("ELEGYOFEMPTINESS");
    reveal_strlit("GREAT_FAIRY_MASK");
    assert("ELEGYOFEMPTINESS"@[0] != "GREAT_FAIRY_MASK"@[0]);
    reveal_strlit("CIRCUSLEADERMASK");
    assert("ELEGYOFEMPTINESS"@[0] != "CIRCUSLEADERMASK"@[0]);
    reveal_strlit("NEWWAVEBOSSANOVA");
    assert("ELEGYOFEMPTINESS"@[0] != "NEWWAVEBOSSANOVA"@[0]);
}

/// What the save holds of `OATH_TO_ORDER`.
#[verifier::rlimit(40)]
proof fn lemma_has_oath_to_order(s: MmSave)
    ensures
        spec_has_named_item(s, "OATH_TO_ORDER"@) == (s.quest_items & 0x0000_0400u32 != 0),
{
    lemma_item_name_lengths();
    reveal_strlit("OATH_TO_ORDER");
    reveal_strlit("LENS_OF_TRUTH");
    assert("OATH_TO_ORDER"@[0] != "LENS_OF_TRUTH"@[0]);
    reveal_strlit("PICTOGRAPHBOX");
    assert("OATH_TO_ORDER"@[0] != "PICTOGRAPHBOX"@[0]);
    reveal_strlit("DON_GERO_MASK");
    assert("OATH_TO_ORDER"@[0] != "DON_GERO_MASK"@[0]);
    reveal_strlit("MASK_OF_TRUTH");
    assert("OATH_TO_ORDER"@[0] != "MASK_OF_TRUTH"@[0]);
    reveal_strlit("SONGOFHEALING");
    assert("OATH_TO_ORDER"@[0] != "SONGOFHEALING"@[0]);
    reveal_strlit("SONGOFSOARING");
    assert("OATH_TO_ORDER"@[0] != "SONGOFSOARING"@[0]);
    reveal_strlit("GORON_LULLABY");
    assert("OATH_TO_ORDER"@[0] != "GORON_LULLABY"@[0]);
}

/// What the save holds of `OATHTOORDER`.
#[verifier::rlimit(40)]
proof fn lemma_has_oathtoorder(s: MmSave)
    ensures
        spec_has_named_item(s, "OATHTOORDER"@) == (s.quest_items & 0x0000_0400u32 != 0),
{
    lemma_item_name_lengths();
    reveal_strlit("OATHTOORDER");
    reveal_strlit("LIGHT_ARROW");
    assert("OATHTOORDER"@[0] != "LIGHT_ARROW"@[0]);
    reveal_strlit("LENSOFTRUTH");
    assert("OATHTOORDER"@[0] != "LENSOFTRUTH"@[0]);
    reveal_strlit("POSTMAN_HAT");
    assert("OATHTOORDER"@[0] != "POSTMAN_HAT"@[0]);
    reveal_strlit("KEATON_MASK");
    assert("OATHTOORDER"@[0] != "KEATON_MASK"@[0]);
    reveal_strlit("BREMEN_MASK");
    assert("OATHTOORDER"@[0] != "BREMEN_MASK"@[0]);
    reveal_strlit("DONGEROMASK");
    assert("OATHTOORDER"@[0] != "DONGEROMASK"@[0]);
    reveal_strlit("ROMANI_MASK");
    assert("OATHTOORDER"@[0] != "ROMANI_MASK"@[0]);
    reveal_strlit("COUPLESMASK");
    assert("OATHTOORDER"@[0] != "COUPLESMASK"@[0]);
    reveal_strlit("MASKOFTRUTH");
    assert("OATHTOORDER"@[0] != "MASKOFTRUTH"@[0]);
    reveal_strlit("KAMARO_MASK");
    assert("OATHTOORDER"@[0] != "KAMARO_MASK"@[0]);
    reveal_strlit("CAPTAIN_HAT");
    assert("OATHTOORDER"@[0] != "CAPTAIN_HAT"@[0]);
    reveal_strlit("EPONAS_SONG");
    assert("OATHTOORDER"@[0] != "EPONAS_SONG"@[0]);
}

/// What the save holds of `ODOLWA_REMAINS`.
#[verifier::rlimit(40)]
proof fn lemma_has_odolwa_remains(s: MmSave)
    ensures
        spec_has_named_item(s, "ODOLWA_REMAINS"@) == (s.quest_items & 0x0000_0001u32 != 0),
{
    lemma_item_name_lengths();
    reveal_strlit("ODOLWA_REMAINS");
    reveal_strlit("OCARINAOFTTIME");
    assert("ODOLWA_REMAINS"@[1] != "OCARINAOFTTIME"@[1]);
    reveal_strlit("PICTOGRAPH_BOX");
    assert("ODOLWA_REMAINS"@[0] != "PICTOGRAPH_BOX"@[0]);
    reveal_strlit("ALL_NIGHT_MASK");
    assert("ODOLWA_REMAINS"@[0] != "ALL_NIGHT_MASK"@[0]);
    reveal_strlit("GREATFAIRYMASK");
    assert("ODOLWA_REMAINS"@[0] != "GREATFAIRYMASK"@[0]);
    reveal_strlit("MASK_OF_SCENTS");
    assert("ODOLWA_REMAINS"@[0] != "MASK_OF_SCENTS"@[0]);
    reveal_strlit("SONG_OF_STORMS");
    assert("ODOLWA_REMAINS"@[0] != "SONG_OF_STORMS"@[0]);
}

/// What the save holds of `ODOLWAREMAINS`.
#[verifier::rlimit(40)]
proof fn lemma_has_odolwaremains(s: MmSave)
    ensures
        spec_has_named_item(s, "ODOLWAREMAINS"@) == (s.quest_items & 0x0000_0001u32 != 0),
{
    lemma_item_name_lengths();
    reveal_strlit("ODOLWAREMAINS");
    reveal_strlit("LENS_OF_TRUTH");
    assert("ODOLWAREMAINS"@[0] != "LENS_OF_TRUTH"@[0]);
    reveal_strlit("PICTOGRAPHBOX");
    assert("ODOLWAREMAINS"@[0] != "PICTOGRAPHBOX"@[0]);
    reveal_strlit("DON_GERO_MASK");
    assert("ODOLWAREMAINS"@[0] != "DON_GERO_MASK"@[0]);
    reveal_strlit("MASK_OF_TRUTH");
    assert("ODOLWAREMAINS"@[0] != "MASK_OF_TRUTH"@[0]);
    reveal_strlit("SONGOFHEALING");
    assert("ODOLWAREMAINS"@[0] != "SONGOFHEALING"@[0]);
    reveal_strlit("SONGOFSOARING");
    assert("ODOLWAREMAINS"@[0] != "SONGOFSOARING"@[0]);
    reveal_strlit("GORON_LULLABY");
    assert("ODOLWAREMAINS"@[0] != "GORON_LULLABY"@[0]);
    reveal_strlit("OATH_TO_ORDER");
    assert("ODOLWAREMAINS"@[1] != "OATH_TO_ORDER"@[1]);
}

/// What the save holds of `GOHT_REMAINS`.
#[verifier::rlimit(40)]
proof fn lemma_has_goht_remains(s: MmSave)
    ensures
        spec_has_named_item(s, "GOHT_REMAINS"@) == (s.quest_items & 0x0000_0002u32 != 0),
{
    lemma_item_name_lengths();
    reveal_strlit("GOHT_REMAINS");
    reveal_strlit("ALLNIGHTMASK");
    assert("GOHT_REMAINS"@[0] != "ALLNIGHTMASK"@[0]);
    reveal_strlit("MASKOFSCENTS");
    assert("GOHT_REMAINS"@[0] != "MASKOFSCENTS"@[0]);
    reveal_strlit("COUPLES_MASK");
    assert("GOHT_REMAINS"@[0] != "COUPLES_MASK"@[0]);
    reveal_strlit("SONG_OF_TIME");
    assert("GOHT_REMAINS"@[0] != "SONG_OF_TIME"@[0]);
    reveal_strlit("SONGOFSTORMS");
    assert("GOHT_REMAINS"@[0] != "SONGOFSTORMS"@[0]);
    reveal_strlit("GORONLULLABY");
    assert("GOHT_REMAINS"@[2] != "GORONLULLABY"@[2]);
}

/// What the save holds of `GOHTREMAINS`.
#[verifier::rlimit(40)]
proof fn lemma_has_gohtremains(s: MmSave)
    ensures
        spec_has_named_item(s, "GOHTREMAINS"@) == (s.quest_items & 0x0000_0002u32 != 0),
{
    lemma_item_name_lengths();
    reveal_strlit("GOHTREMAINS");
    reveal_strlit("LIGHT_ARROW");
    assert("GOHTREMAINS"@[0] != "LIGHT_ARROW"@[0]);
    reveal_strlit("LENSOFTRUTH");
    assert("GOHTREMAINS"@[0] != "LENSOFTRUTH"@[0]);
    reveal_strlit("POSTMAN_HAT");
    assert("GOHTREMAINS"@[0] != "POSTMAN_HAT"@[0]);
    reveal_strlit("KEATON_MASK");
    assert("GOHTREMAINS"@[0] != "KEATON_MASK"@[0]);
    reveal_strlit("BREMEN_MASK");
    assert("GOHTREMAINS"@[0] != "BREMEN_MASK"@[0]);
    reveal_strlit("DONGEROMASK");
    assert("GOHTREMAINS"@[0] != "DONGEROMASK"@[0]);
    reveal_strlit("ROMANI_MASK");
    assert("GOHTREMAINS"@[0] != "ROMANI_MASK"@[0]);
    reveal_strlit("COUPLESMASK");
    assert("GOHTREMAINS"@[0] != "COUPLESMASK"@[0]);
    reveal_strlit("MASKOFTRUTH");
    assert("GOHTREMAINS"@[0] != "MASKOFTRUTH"@[0]);
    reveal_strlit("KAMARO_MASK");
    assert("GOHTREMAINS"@[0] != "KAMARO_MASK"@[0]);
    reveal_strlit("CAPTAIN_HAT");
    assert("GOHTREMAINS"@[0] != "CAPTAIN_HAT"@[0]);
    reveal_strlit("EPONAS_SONG");
    assert("GOHTREMAINS"@[0] != "EPONAS_SONG"@[0]);
    reveal_strlit("OATHTOORDER");
    assert("GOHTREMAINS"@[0] != "OATHTOORDER"@[0]);
}

/// What the save holds of `GYORG_REMAINS`.
#[verifier::rlimit(40)]
proof fn lemma_has_gyorg_remains(s: MmSave)
    ensures
        spec_has_named_item(s, "GYORG_REMAINS"@) == (s.quest_items & 0x0000_0004u32 != 0),
{
    lemma_item_name_lengths();
    reveal_strlit("GYORG_REMAINS");
    reveal_strlit("LENS_OF_TRUTH");
    assert("GYORG_REMAINS"@[0] != "LENS_OF_TRUTH"@[0]);
    reveal_strlit("PICTOGRAPHBOX");
    assert("GYORG_REMAINS"@[0] != "PICTOGRAPHBOX"@[0]);
    reveal_strlit("DON_GERO_MASK");
    assert("GYORG_REMAINS"@[0] != "DON_GERO_MASK"@[0]);
    reveal_strlit("MASK_OF_TRUTH");
    assert("GYORG_REMAINS"@[0] != "MASK_OF_TRUTH"@[0]);
    reveal_strlit("SONGOFHEALING");
    assert("GYORG_REMAINS"@[0] != "SONGOFHEALING"@[0]);
    reveal_strlit("SONGOFSOARING");
    assert("GYORG_REMAINS"@[0] != "SONGOFSOARING"@[0]);
    reveal_strlit("GORON_LULLABY");
    assert("GYORG_REMAINS"@[1] != "GORON_LULLABY"@[1]);
    reveal_strlit("OATH_TO_ORDER");
    assert("GYORG_REMAINS"@[0] != "OATH_TO_ORDER"@[0]);
    reveal_strlit("ODOLWAREMAINS");
    assert("GYORG_REMAINS"@[0] != "ODOLWAREMAINS"@[0]);
}

/// What the save holds of `GYORGREMAINS`.
#[verifier::rlimit(40)]
proof fn lemma_has_gyorgremains(s: MmSave)
    ensures
        spec_has_named_item(s, "GYORGREMAINS"@) == (s.quest_items & 0x0000_0004u32 != 0),
{
    lemma_item_name_lengths();
    reveal_strlit("GYORGREMAINS");
    reveal_strlit("ALLNIGHTMASK");
    assert("GYORGREMAINS"@[0] != "ALLNIGHTMASK"@[0]);
    reveal_strlit("MASKOFSCENTS");
    assert("GYORGREMAINS"@[0] != "MASKOFSCENTS"@[0]);
    reveal_strlit("COUPLES_MASK");
    assert("GYORGREMAINS"@[0] != "COUPLES_MASK"@[0]);
    reveal_strlit("SONG_OF_TIME");
    assert("GYORGREMAINS"@[0] != "SONG_OF_TIME"@[0]);
    reveal_strlit("SONGOFSTORMS");
    assert("GYORGREMAINS"@[0] != "SONGOFSTORMS"@[0]);
    reveal_strlit("GORONLULLABY");
    assert("GYORGREMAINS"@[1] != "GORONLULLABY"@[1]);
    reveal_strlit("GOHT_REMAINS");
    assert("GYORGREMAINS"@[1] != "GOHT_REMAINS"@[1]);
}

/// What the save holds of `TWINMOLD_REMAINS`.
#[verifier::rlimit(40)]
proof fn lemma_has_twinmold_remains(s: MmSave)
    ensures
        spec_has_named_item(s, "TWINMOLD_REMAINS"@) == (s.quest_items & 0x0000_0008u32 != 0),
{
    lemma_item_name_lengths();
    reveal_strlit("TWINMOLD_REMAINS");
    reveal_strlit("GREAT_FAIRY_MASK");
    assert("TWINMOLD_REMAINS"@[0] != "GREAT_FAIRY_MASK"@[0]);
    reveal_strlit("CIRCUSLEADERMASK");
    assert("TWINMOLD_REMAINS"@[0] != "CIRCUSLEADERMASK"@[0]);
    reveal_strlit("NEWWAVEBOSSANOVA");
    assert("TWINMOLD_REMAINS"@[0] != "NEWWAVEBOSSANOVA"@[0]);
    reveal_strlit("ELEGYOFEMPTINESS");
    assert("TWINMOLD_REMAINS"@[0] != "ELEGYOFEMPTINESS"@[0]);
}

/// What the save holds of `TWINMOLDREMAINS`.
#[verifier::rlimit(40)]
proof fn lemma_has_twinmoldremains(s: MmSave)
    ensures
        spec_has_named_item(s, "TWINMOLDREMAINS"@) == (s.quest_items & 0x0000_0008u32 != 0),
{
    lemma_item_name_lengths();
    reveal_strlit("TWINMOLDREMAINS");
    reveal_strlit("OCARINA_OF_TIME");
    assert("TWINMOLDREMAINS"@[0] != "OCARINA_OF_TIME"@[0]);
    reveal_strlit("GREATFAIRYSWORD");
    assert("TWINMOLDREMAINS"@[0] != "GREATFAIRYSWORD"@[0]);
    reveal_strlit("FIERCEDEITYMASK");
    assert("TWINMOLDREMAINS"@[0] != "FIERCEDEITYMASK"@[0]);
    reveal_strlit("SONG_OF_HEALING");
    assert("TWINMOLDREMAINS"@[0] != "SONG_OF_HEALING"@[0]);
    reveal_strlit("SONG_OF_SOARING");
    assert("TWINMOLDREMAINS"@[0] != "SONG_OF_SOARING"@[0]);
}

/// What the save holds of `KOKIRI_SWORD`.
#[verifier::rlimit(40)]
proof fn lemma_has_kokiri_sword(s: MmSave)
    ensures
        spec_has_named_item(s, "KOKIRI_SWORD"@) == (s.sword == MmSword::KokiriSword || s.sword == MmSword::RazorSword || s.sword == MmSword::GildedSword),
{
    lemma_item_name_lengths();
    reveal_strlit("KOKIRI_SWORD");
    reveal_strlit("ALLNIGHTMASK");
    assert("KOKIRI_SWORD"@[0] != "ALLNIGHTMASK"@[0]);
    reveal_strlit("MASKOFSCENTS");
    assert("KOKIRI_SWORD"@[0] != "MASKOFSCENTS"@[0]);
    reveal_strlit("COUPLES_MASK");
    assert("KOKIRI_SWORD"@[0] != "COUPLES_MASK"@[0]);
    reveal_strlit("SONG_OF_TIME");
    assert("KOKIRI_SWORD"@[0] != "SONG_OF_TIME"@[0]);
    reveal_strlit("SONGOFSTORMS");
    assert("KOKIRI_SWORD"@[0] != "SONGOFSTORMS"@[0]);
    reveal_strlit("GORONLULLABY");
    assert("KOKIRI_SWORD"@[0] != "GORONLULLABY"@[0]);
    reveal_strlit("GOHT_REMAINS");
    assert("KOKIRI_SWORD"@[0] != "GOHT_REMAINS"@[0]);
    reveal_strlit("GYORGREMAINS");
    assert("KOKIRI_SWORD"@[0] != "GYORGREMAINS"@[0]);
}

/// What the save holds of `KOKIRISWORD`.
#[verifier::rlimit(40)]
proof fn lemma_has_kokirisword(s: MmSave)
    ensures
        spec_has_named_item(s, "KOKIRISWORD"@) == (s.sword == MmSword::KokiriSword || s.sword == MmSword::RazorSword || s.sword == MmSword::GildedSword),
{
    lemma_item_name_lengths();
    reveal_strlit("KOKIRISWORD");
    reveal_strlit("LIGHT_ARROW");
    assert("KOKIRISWORD"@[0] != "LIGHT_ARROW"@[0]);
    reveal_strlit("LENSOFTRUTH");
    assert("KOKIRISWORD"@[0] != "LENSOFTRUTH"@[0]);
    reveal_strlit("POSTMAN_HAT");
    assert("KOKIRISWORD"@[0] != "POSTMAN_HAT"@[0]);
    reveal_strlit("KEATON_MASK");
    assert("KOKIRISWORD"@[1] != "KEATON_MASK"@[1]);
    reveal_strlit("BREMEN_MASK");
    assert("KOKIRISWORD"@[0] != "BREMEN_MASK"@[0]);
    reveal_strlit("DONGEROMASK");
    assert("KOKIRISWORD"@[0] != "DONGEROMASK"@[0]);
    reveal_strlit("ROMANI_MASK");
    assert("KOKIRISWORD"@[0] != "ROMANI_MASK"@[0]);
    reveal_strlit("COUPLESMASK");
    assert("KOKIRISWORD"@[0] != "COUPLESMASK"@[0]);
    reveal_strlit("MASKOFTRUTH");
    assert("KOKIRISWORD"@[0] != "MASKOFTRUTH"@[0]);
    reveal_strlit("KAMARO_MASK");
    assert("KOKIRISWORD"@[1] != "KAMARO_MASK"@[1]);
    reveal_strlit("CAPTAIN_HAT");
    assert("KOKIRISWORD"@[0] != "CAPTAIN_HAT"@[0]);
    reveal_strlit("EPONAS_SONG");
    assert("KOKIRISWORD"@[0] != "EPONAS_SONG"@[0]);
    reveal_strlit("OATHTOORDER");
    assert("KOKIRISWORD"@[0] != "OATHTOORDER"@[0]);
    reveal_strlit("GOHTREMAINS");
    assert("KOKIRISWORD"@[0] != "GOHTREMAINS"@[0]);
}

/// What the save holds of `RAZOR_SWORD`.
#[verifier::rlimit(40)]
proof fn lemma_has_razor_sword(s: MmSave)
    ensures
        spec_has_named_item(s, "RAZOR_SWORD"@) == (s.sword == MmSword::RazorSword || s.sword == MmSword::GildedSword),
{
    lemma_item_name_lengths();
    reveal_strlit("RAZOR_SWORD");
    reveal_strlit("LIGHT_ARROW");
    assert("RAZOR_SWORD"@[0] != "LIGHT_ARROW"@[0]);
    reveal_strlit("LENSOFTRUTH");
    assert("RAZOR_SWORD"@[0] != "LENSOFTRUTH"@[0]);
    reveal_strlit("POSTMAN_HAT");
    assert("RAZOR_SWORD"@[0] != "POSTMAN_HAT"@[0]);
    reveal_strlit("KEATON_MASK");
    assert("RAZOR_SWORD"@[0] != "KEATON_MASK"@[0]);
    reveal_strlit("BREMEN_MASK");
    assert("RAZOR_SWORD"@[0] != "BREMEN_MASK"@[0]);
    reveal_strlit("DONGEROMASK");
    assert("RAZOR_SWORD"@[0] != "DONGEROMASK"@[0]);
    reveal_strlit("ROMANI_MASK");
    assert("RAZOR_SWORD"@[1] != "ROMANI_MASK"@[1]);
    reveal_strlit("COUPLESMASK");
    assert("RAZOR_SWORD"@[0] != "COUPLESMASK"@[0]);
    reveal_strlit("MASKOFTRUTH");
    assert("RAZOR_SWORD"@[0] != "MASKOFTRUTH"@[0]);
    reveal_strlit("KAMARO_MASK");
    assert("RAZOR_SWORD"@[0] != "KAMARO_MASK"@[0]);
    reveal_strlit("CAPTAIN_HAT");
    assert("RAZOR_SWORD"@[0] != "CAPTAIN_HAT"@[0]);
    reveal_strlit("EPONAS_SONG");
    assert("RAZOR_SWORD"@[0] != "EPONAS_SONG"@[0]);
    reveal_strlit("OATHTOORDER");
    assert("RAZOR_SWORD"@[0] != "OATHTOORDER"@[0]);
    reveal_strlit("GOHTREMAINS");
    assert("RAZOR_SWORD"@[0] != "GOHTREMAINS"@[0]);
    reveal_strlit("KOKIRISWORD");
    assert("RAZOR_SWORD"@[0] != "KOKIRISWORD"@[0]);
}

/// What the save holds of `RAZORSWORD`.
#[verifier::rlimit(40)]
proof fn lemma_has_razorsword(s: MmSave)
    ensures
        spec_has_named_item(s, "RAZORSWORD"@) == (s.sword == MmSword::RazorSword || s.sword == MmSword::GildedSword),
{
    lemma_item_name_lengths();
    reveal_strlit("RAZORSWORD");
    reveal_strlit("FIRE_ARROW");
    assert("RAZORSWORD"@[0] != "FIRE_ARROW"@[0]);
    reveal_strlit("LIGHTARROW");
    assert("RAZORSWORD"@[0] != "LIGHTARROW"@[0]);
    reveal_strlit("POWDER_KEG");
    assert("RAZORSWORD"@[0] != "POWDER_KEG"@[0]);
    reveal_strlit("MAGIC_BEAN");
    assert("RAZORSWORD"@[0] != "MAGIC_BEAN"@[0]);
    reveal_strlit("DEKU_STICK");
    assert("RAZORSWORD"@[0] != "DEKU_STICK"@[0]);
    reveal_strlit("GORON_MASK");
    assert("RAZORSWORD"@[0] != "GORON_MASK"@[0]);
    reveal_strlit("POSTMANHAT");
    assert("RAZORSWORD"@[0] != "POSTMANHAT"@[0]);
    reveal_strlit("BLAST_MASK");
    assert("RAZORSWORD"@[0] != "BLAST_MASK"@[0]);
    reveal_strlit("STONE_MASK");
    assert("RAZORSWORD"@[0] != "STONE_MASK"@[0]);
    reveal_strlit("KEATONMASK");
    assert("RAZORSWORD"@[0] != "KEATONMASK"@[0]);
    reveal_strlit("BREMENMASK");
    assert("RAZORSWORD"@[0] != "BREMENMASK"@[0]);
    reveal_strlit("BUNNY_HOOD");
    assert("RAZORSWORD"@[0] != "BUNNY_HOOD"@[0]);
    reveal_strlit("ROMANIMASK");
    assert("RAZORSWORD"@[1] != "ROMANIMASK"@[1]);
    reveal_strlit("KAFEI_MASK");
    assert("RAZORSWORD"@[0] != "KAFEI_MASK"@[0]);
    reveal_strlit("KAMAROMASK");
    assert("RAZORSWORD"@[0] != "KAMAROMASK"@[0]);
    reveal_strlit("GIBDO_MASK");
    assert("RAZORSWORD"@[0] != "GIBDO_MASK"@[0]);
    reveal_strlit("CAPTAINHAT");
    assert("RAZORSWORD"@[0] != "CAPTAINHAT"@[0]);
    reveal_strlit("GIANT_MASK");
    assert("RAZORSWORD"@[0] != "GIANT_MASK"@[0]);
    reveal_strlit("SONGOFTIME");
    assert("RAZORSWORD"@[0] != "SONGOFTIME"@[0]);
    reveal_strlit("EPONASSONG");
    assert("RAZORSWORD"@[0] != "EPONASSONG"@[0]);
}

/// What the save holds of `GILDED_SWORD`.
#[verifier::rlimit(40)]
proof fn lemma_has_gilded_sword(s: MmSave)
    ensures
        spec_has_named_item(s, "GILDED_SWORD"@) == (s.sword == MmSword::GildedSword),
{
    lemma_item_name_lengths();
    reveal_strlit("GILDED_SWORD");
    reveal_strlit("ALLNIGHTMASK");
    assert("GILDED_SWORD"@[0] != "ALLNIGHTMASK"@[0]);
    reveal_strlit("MASKOFSCENTS");
    assert("GILDED_SWORD"@[0] != "MASKOFSCENTS"@[0]);
    reveal_strlit("COUPLES_MASK");
    assert("GILDED_SWORD"@[0] != "COUPLES_MASK"@[0]);
    reveal_strlit("SONG_OF_TIME");
    assert("GILDED_SWORD"@[0] != "SONG_OF_TIME"@[0]);
    reveal_strlit("SONGOFSTORMS");
    assert("GILDED_SWORD"@[0] != "SONGOFSTORMS"@[0]);
    reveal_strlit("GORONLULLABY");
    assert("GILDED_SWORD"@[1] != "GORONLULLABY"@[1]);
    reveal_strlit("GOHT_REMAINS");
    assert("GILDED_SWORD"@[1] != "GOHT_REMAINS"@[1]);
    reveal_strlit("GYORGREMAINS");
    assert("GILDED_SWORD"@[1] != "GYORGREMAINS"@[1]);
    reveal_strlit("KOKIRI_SWORD");
    assert("GILDED_SWORD"@[0] != "KOKIRI_SWORD"@[0]);
}

/// What the save holds of `GILDEDSWORD`.
#[verifier::rlimit(40)]
proof fn lemma_has_gildedsword(s: MmSave)
    ensures
        spec_has_named_item(s, "GILDEDSWORD"@) == (s.sword == MmSword::GildedSword),
{
    lemma_item_name_lengths();
    reveal_strlit("GILDEDSWORD");
    reveal_strlit("LIGHT_ARROW");
    assert("GILDEDSWORD"@[0] != "LIGHT_ARROW"@[0]);
    reveal_strlit("LENSOFTRUTH");
    assert("GILDEDSWORD"@[0] != "LENSOFTRUTH"@[0]);
    reveal_strlit("POSTMAN_HAT");
    assert("GILDEDSWORD"@[0] != "POSTMAN_HAT"@[0]);
    reveal_strlit("KEATON_MASK");
    assert("GILDEDSWORD"@[0] != "KEATON_MASK"@[0]);
    reveal_strlit("BREMEN_MASK");
    assert("GILDEDSWORD"@[0] != "BREMEN_MASK"@[0]);
    reveal_strlit("DONGEROMASK");
    assert("GILDEDSWORD"@[0] != "DONGEROMASK"@[0]);
    reveal_strlit("ROMANI_MASK");
    assert("GILDEDSWORD"@[0] != "ROMANI_MASK"@[0]);
    reveal_strlit("COUPLESMASK");
    assert("GILDEDSWORD"@[0] != "COUPLESMASK"@[0]);
    reveal_strlit("MASKOFTRUTH");
    assert("GILDEDSWORD"@[0] != "MASKOFTRUTH"@[0]);
    reveal_strlit("KAMARO_MASK");
    assert("GILDEDSWORD"@[0] != "KAMARO_MASK"@[0]);
    reveal_strlit("CAPTAIN_HAT");
    assert("GILDEDSWORD"@[0] != "CAPTAIN_HAT"@[0]);
    reveal_strlit("EPONAS_SONG");
    assert("GILDEDSWORD"@[0] != "EPONAS_SONG"@[0]);
    reveal_strlit("OATHTOORDER");
    assert("GILDEDSWORD"@[0] != "OATHTOORDER"@[0]);
    reveal_strlit("GOHTREMAINS");
    assert("GILDEDSWORD"@[1] != "GOHTREMAINS"@[1]);
    reveal_strlit("KOKIRISWORD");
    assert("GILDEDSWORD"@[0] != "KOKIRISWORD"@[0]);
    reveal_strlit("RAZOR_SWORD");
    assert("GILDEDSWORD"@[0] != "RAZOR_SWORD"@[0]);
}

/// What the save holds of `HERO_SHIELD`.
#[verifier::rlimit(40)]
proof fn lemma_has_hero_shield(s: MmSave)
    ensures
        spec_has_named_item(s, "HERO_SHIELD"@) == (s.shield == MmShield::HeroShield || s.shield == MmShield::MirrorShield),
{
    lemma_item_name_lengths();
    reveal_strlit("HERO_SHIELD");
    reveal_strlit("LIGHT_ARROW");
    assert("HERO_SHIELD"@[0] != "LIGHT_ARROW"@[0]);
    reveal_strlit("LENSOFTRUTH");
    assert("HERO_SHIELD"@[0] != "LENSOFTRUTH"@[0]);
    reveal_strlit("POSTMAN_HAT");
    assert("HERO_SHIELD"@[0] != "POSTMAN_HAT"@[0]);
    reveal_strlit("KEATON_MASK");
    assert("HERO_SHIELD"@[0] != "KEATON_MASK"@[0]);
    reveal_strlit("BREMEN_MASK");
    assert("HERO_SHIELD"@[0] != "BREMEN_MASK"@[0]);
    reveal_strlit("DONGEROMASK");
    assert("HERO_SHIELD"@[0] != "DONGEROMASK"@[0]);
    reveal_strlit("ROMANI_MASK");
    assert("HERO_SHIELD"@[0] != "ROMANI_MASK"@[0]);
    reveal_strlit("COUPLESMASK");
    assert("HERO_SHIELD"@[0] != "COUPLESMASK"@[0]);
    reveal_strlit("MASKOFTRUTH");
    assert("HERO_SHIELD"@[0] != "MASKOFTRUTH"@[0]);
    reveal_strlit("KAMARO_MASK");
    assert("HERO_SHIELD"@[0] != "KAMARO_MASK"@[0]);
    reveal_strlit("CAPTAIN_HAT");
    assert("HERO_SHIELD"@[0] != "CAPTAIN_HAT"@[0]);
    reveal_strlit("EPONAS_SONG");
    assert("HERO_SHIELD"@[0] != "EPONAS_SONG"@[0]);
    reveal_strlit("OATHTOORDER");
    assert("HERO_SHIELD"@[0] != "OATHTOORDER"@[0]);
    reveal_strlit("GOHTREMAINS");
    assert("HERO_SHIELD"@[0] != "GOHTREMAINS"@[0]);
    reveal_strlit("KOKIRISWORD");
    assert("HERO_SHIELD"@[0] != "KOKIRISWORD"@[0]);
    reveal_strlit("RAZOR_SWORD");
    assert("HERO_SHIELD"@[0] != "RAZOR_SWORD"@[0]);
    reveal_strlit("GILDEDSWORD");
    assert("HERO_SHIELD"@[0] != "GILDEDSWORD"@[0]);
}

/// What the save holds of `HEROSHIELD`.
#[verifier::rlimit(40)]
proof fn lemma_has_heroshield(s: MmSave)
    ensures
        spec_has_named_item(s, "HEROSHIELD"@) == (s.shield == MmShield::HeroShield || s.shield == MmShield::MirrorShield),
{
    lemma_item_name_lengths();
    reveal_strlit("HEROSHIELD");
    reveal_strlit("FIRE_ARROW");
    assert("HEROSHIELD"@[0] != "FIRE_ARROW"@[0]);
    reveal_strlit("LIGHTARROW");
    assert("HEROSHIELD"@[0] != "LIGHTARROW"@[0]);
    reveal_strlit("POWDER_KEG");
    assert("HEROSHIELD"@[0] != "POWDER_KEG"@[0]);
    reveal_strlit("MAGIC_BEAN");
    assert("HEROSHIELD"@[0] != "MAGIC_BEAN"@[0]);
    reveal_strlit("DEKU_STICK");
    assert("HEROSHIELD"@[0] != "DEKU_STICK"@[0]);
    reveal_strlit("GORON_MASK");
    assert("HEROSHIELD"@[0] != "GORON_MASK"@[0]);
    reveal_strlit("POSTMANHAT");
    assert("HEROSHIELD"@[0] != "POSTMANHAT"@[0]);
    reveal_strlit("BLAST_MASK");
    assert("HEROSHIELD"@[0] != "BLAST_MASK"@[0]);
    reveal_strlit("STONE_MASK");
    assert("HEROSHIELD"@[0] != "STONE_MASK"@[0]);
    reveal_strlit("KEATONMASK");
    assert("HEROSHIELD"@[0] != "KEATONMASK"@[0]);
    reveal_strlit("BREMENMASK");
    assert("HEROSHIELD"@[0] != "BREMENMASK"@[0]);
    reveal_strlit("BUNNY_HOOD");
    assert("HEROSHIELD"@[0] != "BUNNY_HOOD"@[0]);
    reveal_strlit("ROMANIMASK");
    assert("HEROSHIELD"@[0] != "ROMANIMASK"@[0]);
    reveal_strlit("KAFEI_MASK");
    assert("HEROSHIELD"@[0] != "KAFEI_MASK"@[0]);
    reveal_strlit("KAMAROMASK");
    assert("HEROSHIELD"@[0] != "KAMAROMASK"@[0]);
    reveal_strlit("GIBDO_MASK");
    assert("HEROSHIELD"@[0] != "GIBDO_MASK"@[0]);
    reveal_strlit("CAPTAINHAT");
    assert("HEROSHIELD"@[0] != "CAPTAINHAT"@[0]);
    reveal_strlit("GIANT_MASK");
    assert("HEROSHIELD"@[0] != "GIANT_MASK"@[0]);
    reveal_strlit("SONGOFTIME");
    assert("HEROSHIELD"@[0] != "SONGOFTIME"@[0]);
    reveal_strlit("EPONASSONG");
    assert("HEROSHIELD"@[0] != "EPONASSONG"@[0]);
    reveal_strlit("RAZORSWORD");
    assert("HEROSHIELD"@[0] != "RAZORSWORD"@[0]);
}

/// What the save holds of `MIRROR_SHIELD`.
#[verifier::rlimit(40)]
proof fn lemma_has_mirror_shield(s: MmSave)
    ensures
        spec_has_named_item(s, "MIRROR_SHIELD"@) == (s.shield == MmShield::MirrorShield),
{
    lemma_item_name_lengths();
    reveal_strlit("MIRROR_SHIELD");
    reveal_strlit("LENS_OF_TRUTH");
    assert("MIRROR_SHIELD"@[0] != "LENS_OF_TRUTH"@[0]);
    reveal_strlit("PICTOGRAPHBOX");
    assert("MIRROR_SHIELD"@[0] != "PICTOGRAPHBOX"@[0]);
    reveal_strlit("DON_GERO_MASK");
    assert("MIRROR_SHIELD"@[0] != "DON_GERO_MASK"@[0]);
    reveal_strlit("MASK_OF_TRUTH");
    assert("MIRROR_SHIELD"@[1] != "MASK_OF_TRUTH"@[1]);
    reveal_strlit("SONGOFHEALING");
    assert("MIRROR_SHIELD"@[0] != "SONGOFHEALING"@[0]);
    reveal_strlit("SONGOFSOARING");
    assert("MIRROR_SHIELD"@[0] != "SONGOFSOARING"@[0]);
    reveal_strlit("GORON_LULLABY");
    assert("MIRROR_SHIELD"@[0] != "GORON_LULLABY"@[0]);
    reveal_strlit("OATH_TO_ORDER");
    assert("MIRROR_SHIELD"@[0] != "OATH_TO_ORDER"@[0]);
    reveal_strlit("ODOLWAREMAINS");
    assert("MIRROR_SHIELD"@[0] != "ODOLWAREMAINS"@[0]);
    reveal_strlit("GYORG_REMAINS");
    assert("MIRROR_SHIELD"@[0] != "GYORG_REMAINS"@[0]);
}

/// What the save holds of `MIRRORSHIELD`.
#[verifier::rlimit(40)]
proof fn lemma_has_mirrorshield(s: MmSave)
    ensures
        spec_has_named_item(s, "MIRRORSHIELD"@) == (s.shield == MmShield::MirrorShield),
{
    lemma_item_name_lengths();
    reveal_strlit("MIRRORSHIELD");
    reveal_strlit("ALLNIGHTMASK");
    assert("MIRRORSHIELD"@[0] != "ALLNIGHTMASK"@[0]);
    reveal_strlit("MASKOFSCENTS");
    assert("MIRRORSHIELD"@[1] != "MASKOFSCENTS"@[1]);
    reveal_strlit("COUPLES_MASK");
    assert("MIRRORSHIELD"@[0] != "COUPLES_MASK"@[0]);
    reveal_strlit("SONG_OF_TIME");
    assert("MIRRORSHIELD"@[0] != "SONG_OF_TIME"@[0]);
    reveal_strlit("SONGOFSTORMS");
    assert("MIRRORSHIELD"@[0] != "SONGOFSTORMS"@[0]);
    reveal_strlit("GORONLULLABY");
    assert("MIRRORSHIELD"@[0] != "GORONLULLABY"@[0]);
    reveal_strlit("GOHT_REMAINS");
    assert("MIRRORSHIELD"@[0] != "GOHT_REMAINS"@[0]);
    reveal_strlit("GYORGREMAINS");
    assert("MIRRORSHIELD"@[0] != "GYORGREMAINS"@[0]);
    reveal_strlit("KOKIRI_SWORD");
    assert("MIRRORSHIELD"@[0] != "KOKIRI_SWORD"@[0]);
    reveal_strlit("GILDED_SWORD");
    assert("MIRRORSHIELD"@[0] != "GILDED_SWORD"@[0]);
}

/// What the save holds of `BOTTLE`.
#[verifier::rlimit(40)]
proof fn lemma_has_bottle(s: MmSave)
    ensures
        spec_has_named_item(s, "BOTTLE"@) == (spec_has_bottle(s)),
{
    lemma_item_name_lengths();
}

/// What the save holds of `MAGIC`.
#[verifier::rlimit(40)]
proof fn lemma_has_magic(s: MmSave)
    ensures
        spec_has_named_item(s, "MAGIC"@) == (s.magic == MmMagicCapacity::Single || s.magic == MmMagicCapacity::Double),
{
    lemma_item_name_lengths();
    reveal_strlit("MAGIC");
    reveal_strlit("BOMBS");
    assert("MAGIC"@[0] != "BOMBS"@[0]);
}

/// What the save holds of `MAGIC_METER`.
#[verifier::rlimit(40)]
proof fn lemma_has_magic_meter(s: MmSave)
    ensures
        spec_has_named_item(s, "MAGIC_METER"@) == (s.magic == MmMagicCapacity::Single || s.magic == MmMagicCapacity::Double),
{
    lemma_item_name_lengths();
    reveal_strlit("MAGIC_METER");
    reveal_strlit("LIGHT_ARROW");
    assert("MAGIC_METER"@[0] != "LIGHT_ARROW"@[0]);
    reveal_strlit("LENSOFTRUTH");
    assert("MAGIC_METER"@[0] != "LENSOFTRUTH"@[0]);
    reveal_strlit("POSTMAN_HAT");
    assert("MAGIC_METER"@[0] != "POSTMAN_HAT"@[0]);
    reveal_strlit("KEATON_MASK");
    assert("MAGIC_METER"@[0] != "KEATON_MASK"@[0]);
    reveal_strlit("BREMEN_MASK");
    assert("MAGIC_METER"@[0] != "BREMEN_MASK"@[0]);
    reveal_strlit("DONGEROMASK");
    assert("MAGIC_METER"@[0] != "DONGEROMASK"@[0]);
    reveal_strlit("ROMANI_MASK");
    assert("MAGIC_METER"@[0] != "ROMANI_MASK"@[0]);
    reveal_strlit("COUPLESMASK");
    assert("MAGIC_METER"@[0] != "COUPLESMASK"@[0]);
    reveal_strlit("MASKOFTRUTH");
    assert("MAGIC_METER"@[2] != "MASKOFTRUTH"@[2]);
    reveal_strlit("KAMARO_MASK");
    assert("MAGIC_METER"@[0] != "KAMARO_MASK"@[0]);
    reveal_strlit("CAPTAIN_HAT");
    assert("MAGIC_METER"@[0] != "CAPTAIN_HAT"@[0]);
    reveal_strlit("EPONAS_SONG");
    assert("MAGIC_METER"@[0] != "EPONAS_SONG"@[0]);
    reveal_strlit("OATHTOORDER");
    assert("MAGIC_METER"@[0] != "OATHTOORDER"@[0]);
    reveal_strlit("GOHTREMAINS");
    assert("MAGIC_METER"@[0] != "GOHTREMAINS"@[0]);
    reveal_strlit("KOKIRISWORD");
    assert("MAGIC_METER"@[0] != "KOKIRISWORD"@[0]);
    reveal_strlit("RAZOR_SWORD");
    assert("MAGIC_METER"@[0] != "RAZOR_SWORD"@[0]);
    reveal_strlit("GILDEDSWORD");
    assert("MAGIC_METER"@[0] != "GILDEDSWORD"@[0]);
    reveal_strlit("HERO_SHIELD");
    assert("MAGIC_METER"@[0] != "HERO_SHIELD"@[0]);
}

/// What the save holds of `MAGICMETER`.
#[verifier::rlimit(40)]
proof fn lemma_has_magicmeter(s: MmSave)
    ensures
        spec_has_named_item(s, "MAGICMETER"@) == (s.magic == MmMagicCapacity::Single || s.magic == MmMagicCapacity::Double),
{
    lemma_item_name_lengths();
    reveal_strlit("MAGICMETER");
    reveal_strlit("FIRE_ARROW");
    assert("MAGICMETER"@[0] != "FIRE_ARROW"@[0]);
    reveal_strlit("LIGHTARROW");
    assert("MAGICMETER"@[0] != "LIGHTARROW"@[0]);
    reveal_strlit("POWDER_KEG");
    assert("MAGICMETER"@[0] != "POWDER_KEG"@[0]);
    reveal_strlit("MAGIC_BEAN");
    assert("MAGICMETER"@[5] != "MAGIC_BEAN"@[5]);
    reveal_strlit("DEKU_STICK");
    assert("MAGICMETER"@[0] != "DEKU_STICK"@[0]);
    reveal_strlit("GORON_MASK");
    assert("MAGICMETER"@[0] != "GORON_MASK"@[0]);
    reveal_strlit("POSTMANHAT");
    assert("MAGICMETER"@[0] != "POSTMANHAT"@[0]);
    reveal_strlit("BLAST_MASK");
    assert("MAGICMETER"@[0] != "BLAST_MASK"@[0]);
    reveal_strlit("STONE_MASK");
    assert("MAGICMETER"@[0] != "STONE_MASK"@[0]);
    reveal_strlit("KEATONMASK");
    assert("MAGICMETER"@[0] != "KEATONMASK"@[0]);
    reveal_strlit("BREMENMASK");
    assert("MAGICMETER"@[0] != "BREMENMASK"@[0]);
    reveal_strlit("BUNNY_HOOD");
    assert("MAGICMETER"@[0] != "BUNNY_HOOD"@[0]);
    reveal_strlit("ROMANIMASK");
    assert("MAGICMETER"@[0] != "ROMANIMASK"@[0]);
    reveal_strlit("KAFEI_MASK");
    assert("MAGICMETER"@[0] != "KAFEI_MASK"@[0]);
    reveal_strlit("KAMAROMASK");
    assert("MAGICMETER"@[0] != "KAMAROMASK"@[0]);
    reveal_strlit("GIBDO_MASK");
    assert("MAGICMETER"@[0] != "GIBDO_MASK"@[0]);
    reveal_strlit("CAPTAINHAT");
    assert("MAGICMETER"@[0] != "CAPTAINHAT"@[0]);
    reveal_strlit("GIANT_MASK");
    assert("MAGICMETER"@[0] != "GIANT_MASK"@[0]);
    reveal_strlit("SONGOFTIME");
    assert("MAGICMETER"@[0] != "SONGOFTIME"@[0]);
    reveal_strlit("EPONASSONG");
    assert("MAGICMETER"@[0] != "EPONASSONG"@[0]);
    reveal_strlit("RAZORSWORD");
    assert("MAGICMETER"@[0] != "RAZORSWORD"@[0]);
    reveal_strlit("HEROSHIELD");
    assert("MAGICMETER"@[0] != "HEROSHIELD"@[0]);
}

/// What the save holds of `DOUBLE_MAGIC`.
#[verifier::rlimit(40)]
proof fn lemma_has_double_magic(s: MmSave)
    ensures
        spec_has_named_item(s, "DOUBLE_MAGIC"@) == (s.magic == MmMagicCapacity::Double),
{
    lemma_item_name_lengths();
    reveal_strlit("DOUBLE_MAGIC");
    reveal_strlit("ALLNIGHTMASK");
    assert("DOUBLE_MAGIC"@[0] != "ALLNIGHTMASK"@[0]);
    reveal_strlit("MASKOFSCENTS");
    assert("DOUBLE_MAGIC"@[0] != "MASKOFSCENTS"@[0]);
    reveal_strlit("COUPLES_MASK");
    assert("DOUBLE_MAGIC"@[0] != "COUPLES_MASK"@[0]);
    reveal_strlit("SONG_OF_TIME");
    assert("DOUBLE_MAGIC"@[0] != "SONG_OF_TIME"@[0]);
    reveal_strlit("SONGOFSTORMS");
    assert("DOUBLE_MAGIC"@[0] != "SONGOFSTORMS"@[0]);
    reveal_strlit("GORONLULLABY");
    assert("DOUBLE_MAGIC"@[0] != "GORONLULLABY"@[0]);
    reveal_strlit("GOHT_REMAINS");
    assert("DOUBLE_MAGIC"@[0] != "GOHT_REMAINS"@[0]);
    reveal_strlit("GYORGREMAINS");
    assert("DOUBLE_MAGIC"@[0] != "GYORGREMAINS"@[0]);
    reveal_strlit("KOKIRI_SWORD");
    assert("DOUBLE_MAGIC"@[0] != "KOKIRI_SWORD"@[0]);
    reveal_strlit("GILDED_SWORD");
    assert("DOUBLE_MAGIC"@[0] != "GILDED_SWORD"@[0]);
    reveal_strlit("MIRRORSHIELD");
    assert("DOUBLE_MAGIC"@[0] != "MIRRORSHIELD"@[0]);
}

/// What the save holds of `DOUBLEMAGIC`.
#[verifier::rlimit(40)]
proof fn lemma_has_doublemagic(s: MmSave)
    ensures
        spec_has_named_item(s, "DOUBLEMAGIC"@) == (s.magic == MmMagicCapacity::Double),
{
    lemma_item_name_lengths();
    reveal_strlit("DOUBLEMAGIC");
    reveal_strlit("LIGHT_ARROW");
    assert("DOUBLEMAGIC"@[0] != "LIGHT_ARROW"@[0]);
    reveal_strlit("LENSOFTRUTH");
    assert("DOUBLEMAGIC"@[0] != "LENSOFTRUTH"@[0]);
    reveal_strlit("POSTMAN_HAT");
    assert("DOUBLEMAGIC"@[0] != "POSTMAN_HAT"@[0]);
    reveal_strlit("KEATON_MASK");
    assert("DOUBLEMAGIC"@[0] != "KEATON_MASK"@[0]);
    reveal_strlit("BREMEN_MASK");
    assert("DOUBLEMAGIC"@[0] != "BREMEN_MASK"@[0]);
    reveal_strlit("DONGEROMASK");
    assert("DOUBLEMAGIC"@[2] != "DONGEROMASK"@[2]);
    reveal_strlit("ROMANI_MASK");
    assert("DOUBLEMAGIC"@[0] != "ROMANI_MASK"@[0]);
    reveal_strlit("COUPLESMASK");
    assert("DOUBLEMAGIC"@[0] != "COUPLESMASK"@[0]);
    reveal_strlit("MASKOFTRUTH");
    assert("DOUBLEMAGIC"@[0] != "MASKOFTRUTH"@[0]);
    reveal_strlit("KAMARO_MASK");
    assert("DOUBLEMAGIC"@[0] != "KAMARO_MASK"@[0]);
    reveal_strlit("CAPTAIN_HAT");
    assert("DOUBLEMAGIC"@[0] != "CAPTAIN_HAT"@[0]);
    reveal_strlit("EPONAS_SONG");
    assert("DOUBLEMAGIC"@[0] != "EPONAS_SONG"@[0]);
    reveal_strlit("OATHTOORDER");
    assert("DOUBLEMAGIC"@[0] != "OATHTOORDER"@[0]);
    reveal_strlit("GOHTREMAINS");
    assert("DOUBLEMAGIC"@[0] != "GOHTREMAINS"@[0]);
    reveal_strlit("KOKIRISWORD");
    assert("DOUBLEMAGIC"@[0] != "KOKIRISWORD"@[0]);
    reveal_strlit("RAZOR_SWORD");
    assert("DOUBLEMAGIC"@[0] != "RAZOR_SWORD"@[0]);
    reveal_strlit("GILDEDSWORD");
    assert("DOUBLEMAGIC"@[0] != "GILDEDSWORD"@[0]);
    reveal_strlit("HERO_SHIELD");
    assert("DOUBLEMAGIC"@[0] != "HERO_SHIELD"@[0]);
    reveal_strlit("MAGIC_METER");
    assert("DOUBLEMAGIC"@[0] != "MAGIC_METER"@[0]);
}

/// What the save holds of `DOUBLE_DEFENSE`.
#[verifier::rlimit(40)]
proof fn lemma_has_double_defense(s: MmSave)
    ensures
        spec_has_named_item(s, "DOUBLE_DEFENSE"@) == (s.double_defense),
{
    lemma_item_name_lengths();
    reveal_strlit("DOUBLE_DEFENSE");
    reveal_strlit("OCARINAOFTTIME");
    assert("DOUBLE_DEFENSE"@[0] != "OCARINAOFTTIME"@[0]);
    reveal_strlit("PICTOGRAPH_BOX");
    assert("DOUBLE_DEFENSE"@[0] != "PICTOGRAPH_BOX"@[0]);
    reveal_strlit("ALL_NIGHT_MASK");
    assert("DOUBLE_DEFENSE"@[0] != "ALL_NIGHT_MASK"@[0]);
    reveal_strlit("GREATFAIRYMASK");
    assert("DOUBLE_DEFENSE"@[0] != "GREATFAIRYMASK"@[0]);
    reveal_strlit("MASK_OF_SCENTS");
    assert("DOUBLE_DEFENSE"@[0] != "MASK_OF_SCENTS"@[0]);
    reveal_strlit("SONG_OF_STORMS");
    assert("DOUBLE_DEFENSE"@[0] != "SONG_OF_STORMS"@[0]);
    reveal_strlit("ODOLWA_REMAINS");
    assert("DOUBLE_DEFENSE"@[0] != "ODOLWA_REMAINS"@[0]);
}

/// What the save holds of `DOUBLEDEFENSE`.
#[verifier::rlimit(40)]
proof fn lemma_has_doubledefense(s: MmSave)
    ensures
        spec_has_named_item(s, "DOUBLEDEFENSE"@) == (s.double_defense),
{
    lemma_item_name_lengths();
    reveal_strlit("DOUBLEDEFENSE");
    reveal_strlit("LENS_OF_TRUTH");
    assert("DOUBLEDEFENSE"@[0] != "LENS_OF_TRUTH"@[0]);
    reveal_strlit("PICTOGRAPHBOX");
    assert("DOUBLEDEFENSE"@[0] != "PICTOGRAPHBOX"@[0]);
    reveal_strlit("DON_GERO_MASK");
    assert("DOUBLEDEFENSE"@[2] != "DON_GERO_MASK"@[2]);
    reveal_strlit("MASK_OF_TRUTH");
    assert("DOUBLEDEFENSE"@[0] != "MASK_OF_TRUTH"@[0]);
    reveal_strlit("SONGOFHEALING");
    assert("DOUBLEDEFENSE"@[0] != "SONGOFHEALING"@[0]);
    reveal_strlit("SONGOFSOARING");
    assert("DOUBLEDEFENSE"@[0] != "SONGOFSOARING"@[0]);
    reveal_strlit("GORON_LULLABY");
    assert("DOUBLEDEFENSE"@[0] != "GORON_LULLABY"@[0]);
    reveal_strlit("OATH_TO_ORDER");
    assert("DOUBLEDEFENSE"@[0] != "OATH_TO_ORDER"@[0]);
    reveal_strlit("ODOLWAREMAINS");
    assert("DOUBLEDEFENSE"@[0] != "ODOLWAREMAINS"@[0]);
    reveal_strlit("GYORG_REMAINS");
    assert("DOUBLEDEFENSE"@[0] != "GYORG_REMAINS"@[0]);
    reveal_strlit("MIRROR_SHIELD");
    assert("DOUBLEDEFENSE"@[0] != "MIRROR_SHIELD"@[0]);
}

/// What the save holds of `ADULT_WALLET`.
#[verifier::rlimit(40)]
proof fn lemma_has_adult_wallet(s: MmSave)
    ensures
        spec_has_named_item(s, "ADULT_WALLET"@) == (spec_has_adult_wallet(s)),
{
    lemma_item_name_lengths();
    reveal_strlit("ADULT_WALLET");
    reveal_strlit("ALLNIGHTMASK");
    assert("ADULT_WALLET"@[1] != "ALLNIGHTMASK"@[1]);
    reveal_strlit("MASKOFSCENTS");
    assert("ADULT_WALLET"@[0] != "MASKOFSCENTS"@[0]);
    reveal_strlit("COUPLES_MASK");
    assert("ADULT_WALLET"@[0] != "COUPLES_MASK"@[0]);
    reveal_strlit("SONG_OF_TIME");
    assert("ADULT_WALLET"@[0] != "SONG_OF_TIME"@[0]);
    reveal_strlit("SONGOFSTORMS");
    assert("ADULT_WALLET"@[0] != "SONGOFSTORMS"@[0]);
    reveal_strlit("GORONLULLABY");
    assert("ADULT_WALLET"@[0] != "GORONLULLABY"@[0]);
    reveal_strlit("GOHT_REMAINS");
    assert("ADULT_WALLET"@[0] != "GOHT_REMAINS"@[0]);
    reveal_strlit("GYORGREMAINS");
    assert("ADULT_WALLET"@[0] != "GYORGREMAINS"@[0]);
    reveal_strlit("KOKIRI_SWORD");
    assert("ADULT_WALLET"@[0] != "KOKIRI_SWORD"@[0]);
    reveal_strlit("GILDED_SWORD");
    assert("ADULT_WALLET"@[0] != "GILDED_SWORD"@[0]);
    reveal_strlit("MIRRORSHIELD");
    assert("ADULT_WALLET"@[0] != "MIRRORSHIELD"@[0]);
    reveal_strlit("DOUBLE_MAGIC");
    assert("ADULT_WALLET"@[0] != "DOUBLE_MAGIC"@[0]);
}

/// What the save holds of `ADULTWALLET`.
#[verifier::rlimit(40)]
proof fn lemma_has_adultwallet(s: MmSave)
    ensures
        spec_has_named_item(s, "ADULTWALLET"@) == (spec_has_adult_wallet(s)),
{
    lemma_item_name_lengths();
    reveal_strlit("ADULTWALLET");
    reveal_strlit("LIGHT_ARROW");
    assert("ADULTWALLET"@[0] != "LIGHT_ARROW"@[0]);
    reveal_strlit("LENSOFTRUTH");
    assert("ADULTWALLET"@[0] != "LENSOFTRUTH"@[0]);
    reveal_strlit("POSTMAN_HAT");
    assert("ADULTWALLET"@[0] != "POSTMAN_HAT"@[0]);
    reveal_strlit("KEATON_MASK");
    assert("ADULTWALLET"@[0] != "KEATON_MASK"@[0]);
    reveal_strlit("BREMEN_MASK");
    assert("ADULTWALLET"@[0] != "BREMEN_MASK"@[0]);
    reveal_strlit("DONGEROMASK");
    assert("ADULTWALLET"@[0] != "DONGEROMASK"@[0]);
    reveal_strlit("ROMANI_MASK");
    assert("ADULTWALLET"@[0] != "ROMANI_MASK"@[0]);
    reveal_strlit("COUPLESMASK");
    assert("ADULTWALLET"@[0] != "COUPLESMASK"@[0]);
    reveal_strlit("MASKOFTRUTH");
    assert("ADULTWALLET"@[0] != "MASKOFTRUTH"@[0]);
    reveal_strlit("KAMARO_MASK");
    assert("ADULTWALLET"@[0] != "KAMARO_MASK"@[0]);
    reveal_strlit("CAPTAIN_HAT");
    assert("ADULTWALLET"@[0] != "CAPTAIN_HAT"@[0]);
    reveal_strlit("EPONAS_SONG");
    assert("ADULTWALLET"@[0] != "EPONAS_SONG"@[0]);
    reveal_strlit("OATHTOORDER");
    assert("ADULTWALLET"@[0] != "OATHTOORDER"@[0]);
    reveal_strlit("GOHTREMAINS");
    assert("ADULTWALLET"@[0] != "GOHTREMAINS"@[0]);
    reveal_strlit("KOKIRISWORD");
    assert("ADULTWALLET"@[0] != "KOKIRISWORD"@[0]);
    reveal_strlit("RAZOR_SWORD");
    assert("ADULTWALLET"@[0] != "RAZOR_SWORD"@[0]);
    reveal_strlit("GILDEDSWORD");
    assert("ADULTWALLET"@[0] != "GILDEDSWORD"@[0]);
    reveal_strlit("HERO_SHIELD");
    assert("ADULTWALLET"@[0] != "HERO_SHIELD"@[0]);
    reveal_strlit("MAGIC_METER");
    assert("ADULTWALLET"@[0] != "MAGIC_METER"@[0]);
    reveal_strlit("DOUBLEMAGIC");
    assert("ADULTWALLET"@[0] != "DOUBLEMAGIC"@[0]);
}

/// What the save holds of `GIANT_WALLET`.
#[verifier::rlimit(40)]
proof fn lemma_has_giant_wallet(s: MmSave)
    ensures
        spec_has_named_item(s, "GIANT_WALLET"@) == (spec_has_giant_wallet(s)),
{
    lemma_item_name_lengths();
    reveal_strlit("GIANT_WALLET");
    reveal_strlit("ALLNIGHTMASK");
    assert("GIANT_WALLET"@[0] != "ALLNIGHTMASK"@[0]);
    reveal_strlit("MASKOFSCENTS");
    assert("GIANT_WALLET"@[0] != "MASKOFSCENTS"@[0]);
    reveal_strlit("COUPLES_MASK");
    assert("GIANT_WALLET"@[0] != "COUPLES_MASK"@[0]);
    reveal_strlit("SONG_OF_TIME");
    assert("GIANT_WALLET"@[0] != "SONG_OF_TIME"@[0]);
    reveal_strlit("SONGOFSTORMS");
    assert("GIANT_WALLET"@[0] != "SONGOFSTORMS"@[0]);
    reveal_strlit("GORONLULLABY");
    assert("GIANT_WALLET"@[1] != "GORONLULLABY"@[1]);
    reveal_strlit("GOHT_REMAINS");
    assert("GIANT_WALLET"@[1] != "GOHT_REMAINS"@[1]);
    reveal_strlit("GYORGREMAINS");
    assert("GIANT_WALLET"@[1] != "GYORGREMAINS"@[1]);
    reveal_strlit("KOKIRI_SWORD");
    assert("GIANT_WALLET"@[0] != "KOKIRI_SWORD"@[0]);
    reveal_strlit("GILDED_SWORD");
    assert("GIANT_WALLET"@[2] != "GILDED_SWORD"@[2]);
    reveal_strlit("MIRRORSHIELD");
    assert("GIANT_WALLET"@[0] != "MIRRORSHIELD"@[0]);
    reveal_strlit("DOUBLE_MAGIC");
    assert("GIANT_WALLET"@[0] != "DOUBLE_MAGIC"@[0]);
    reveal_strlit("ADULT_WALLET");
    assert("GIANT_WALLET"@[0] != "ADULT_WALLET"@[0]);
}

/// What the save holds of `GIANTWALLET`.
#[verifier::rlimit(40)]
proof fn lemma_has_giantwallet(s: MmSave)
    ensures
        spec_has_named_item(s, "GIANTWALLET"@) == (spec_has_giant_wallet(s)),
{
    lemma_item_name_lengths();
    reveal_strlit("GIANTWALLET");
    reveal_strlit("LIGHT_ARROW");
    assert("GIANTWALLET"@[0] != "LIGHT_ARROW"@[0]);
    reveal_strlit("LENSOFTRUTH");
    assert("GIANTWALLET"@[0] != "LENSOFTRUTH"@[0]);
    reveal_strlit("POSTMAN_HAT");
    assert("GIANTWALLET"@[0] != "POSTMAN_HAT"@[0]);
    reveal_strlit("KEATON_MASK");
    assert("GIANTWALLET"@[0] != "KEATON_MASK"@[0]);
    reveal_strlit("BREMEN_MASK");
    assert("GIANTWALLET"@[0] != "BREMEN_MASK"@[0]);
    reveal_strlit("DONGEROMASK");
    assert("GIANTWALLET"@[0] != "DONGEROMASK"@[0]);
    reveal_strlit("ROMANI_MASK");
    assert("GIANTWALLET"@[0] != "ROMANI_MASK"@[0]);
    reveal_strlit("COUPLESMASK");
    assert("GIANTWALLET"@[0] != "COUPLESMASK"@[0]);
    reveal_strlit("MASKOFTRUTH");
    assert("GIANTWALLET"@[0] != "MASKOFTRUTH"@[0]);
    reveal_strlit("KAMARO_MASK");
    assert("GIANTWALLET"@[0] != "KAMARO_MASK"@[0]);
    reveal_strlit("CAPTAIN_HAT");
    assert("GIANTWALLET"@[0] != "CAPTAIN_HAT"@[0]);
    reveal_strlit("EPONAS_SONG");
    assert("GIANTWALLET"@[0] != "EPONAS_SONG"@[0]);
    reveal_strlit("OATHTOORDER");
    assert("GIANTWALLET"@[0] != "OATHTOORDER"@[0]);
    reveal_strlit("GOHTREMAINS");
    assert("GIANTWALLET"@[1] != "GOHTREMAINS"@[1]);
    reveal_strlit("KOKIRISWORD");
    assert("GIANTWALLET"@[0] != "KOKIRISWORD"@[0]);
    reveal_strlit("RAZOR_SWORD");
    assert("GIANTWALLET"@[0] != "RAZOR_SWORD"@[0]);
    reveal_strlit("GILDEDSWORD");
    assert("GIANTWALLET"@[2] != "GILDEDSWORD"@[2]);
    reveal_strlit("HERO_SHIELD");
    assert("GIANTWALLET"@[0] != "HERO_SHIELD"@[0]);
    reveal_strlit("MAGIC_METER");
    assert("GIANTWALLET"@[0] != "MAGIC_METER"@[0]);
    reveal_strlit("DOUBLEMAGIC");
    assert("GIANTWALLET"@[0] != "DOUBLEMAGIC"@[0]);
    reveal_strlit("ADULTWALLET");
    assert("GIANTWALLET"@[0] != "ADULTWALLET"@[0]);
}

/// What the save holds of `GIANTS_WALLET`.
#[verifier::rlimit(40)]
proof fn lemma_has_giants_wallet(s: MmSave)
    ensures
        spec_has_named_item(s, "GIANTS_WALLET"@) == (spec_has_giant_wallet(s)),
{
    lemma_item_name_lengths();
    reveal_strlit("GIANTS_WALLET");
    reveal_strlit("LENS_OF_TRUTH");
    assert("GIANTS_WALLET"@[0] != "LENS_OF_TRUTH"@[0]);
    reveal_strlit("PICTOGRAPHBOX");
    assert("GIANTS_WALLET"@[0] != "PICTOGRAPHBOX"@[0]);
    reveal_strlit("DON_GERO_MASK");
    assert("GIANTS_WALLET"@[0] != "DON_GERO_MASK"@[0]);
    reveal_strlit("MASK_OF_TRUTH");
    assert("GIANTS_WALLET"@[0] != "MASK_OF_TRUTH"@[0]);
    reveal_strlit("SONGOFHEALING");
    assert("GIANTS_WALLET"@[0] != "SONGOFHEALING"@[0]);
    reveal_strlit("SONGOFSOARING");
    assert("GIANTS_WALLET"@[0] != "SONGOFSOARING"@[0]);
    reveal_strlit("GORON_LULLABY");
    assert("GIANTS_WALLET"@[1] != "GORON_LULLABY"@[1]);
    reveal_strlit("OATH_TO_ORDER");
    assert("GIANTS_WALLET"@[0] != "OATH_TO_ORDER"@[0]);
    reveal_strlit("ODOLWAREMAINS");
    assert("GIANTS_WALLET"@[0] != "ODOLWAREMAINS"@[0]);
    reveal_strlit("GYORG_REMAINS");
    assert("GIANTS_WALLET"@[1] != "GYORG_REMAINS"@[1]);
    reveal_strlit("MIRROR_SHIELD");
    assert("GIANTS_WALLET"@[0] != "MIRROR_SHIELD"@[0]);
    reveal_strlit("DOUBLEDEFENSE");
    assert("GIANTS_WALLET"@[0] != "DOUBLEDEFENSE"@[0]);
}

/// What the save holds of `GIANTSWALLET`.
#[verifier::rlimit(40)]
proof fn lemma_has_giantswallet(s: MmSave)
    ensures
        spec_has_named_item(s, "GIANTSWALLET"@) == (spec_has_giant_wallet(s)),
{
    lemma_item_name_lengths();
    reveal_strlit("GIANTSWALLET");
    reveal_strlit("ALLNIGHTMASK");
    assert("GIANTSWALLET"@[0] != "ALLNIGHTMASK"@[0]);
    reveal_strlit("MASKOFSCENTS");
    assert("GIANTSWALLET"@[0] != "MASKOFSCENTS"@[0]);
    reveal_strlit("COUPLES_MASK");
    assert("GIANTSWALLET"@[0] != "COUPLES_MASK"@[0]);
    reveal_strlit("SONG_OF_TIME");
    assert("GIANTSWALLET"@[0] != "SONG_OF_TIME"@[0]);
    reveal_strlit("SONGOFSTORMS");
    assert("GIANTSWALLET"@[0] != "SONGOFSTORMS"@[0]);
    reveal_strlit("GORONLULLABY");
    assert("GIANTSWALLET"@[1] != "GORONLULLABY"@[1]);
    reveal_strlit("GOHT_REMAINS");
    assert("GIANTSWALLET"@[1] != "GOHT_REMAINS"@[1]);
    reveal_strlit("GYORGREMAINS");
    assert("GIANTSWALLET"@[1] != "GYORGREMAINS"@[1]);
    reveal_strlit("KOKIRI_SWORD");
    assert("GIANTSWALLET"@[0] != "KOKIRI_SWORD"@[0]);
    reveal_strlit("GILDED_SWORD");
    assert("GIANTSWALLET"@[2] != "GILDED_SWORD"@[2]);
    reveal_strlit("MIRRORSHIELD");
    assert("GIANTSWALLET"@[0] != "MIRRORSHIELD"@[0]);
    reveal_strlit("DOUBLE_MAGIC");
    assert("GIANTSWALLET"@[0] != "DOUBLE_MAGIC"@[0]);
    reveal_strlit("ADULT_WALLET");
    assert("GIANTSWALLET"@[0] != "ADULT_WALLET"@[0]);
}

/// What the save holds of `ODOLWA_DEFEATED`.
#[verifier::rlimit(40)]
proof fn lemma_event_odolwa_defeated(s: MmSave)
    ensures
        spec_named_event(s, "ODOLWA_DEFEATED"@) == ((0x1A as int) < s.permanent_scene_flags@.len() && s.permanent_scene_flags@[0x1A].cleared_room != 0),
{
    lemma_item_name_lengths();
}

/// What the save holds of `GOHT_DEFEATED`.
#[verifier::rlimit(40)]
proof fn lemma_event_goht_defeated(s: MmSave)
    ensures
        spec_named_event(s, "GOHT_DEFEATED"@) == ((0x24 as int) < s.permanent_scene_flags@.len() && s.permanent_scene_flags@[0x24].cleared_room != 0),
{
    lemma_item_name_lengths();
}

/// What the save holds of `GYORG_DEFEATED`.
#[verifier::rlimit(40)]
proof fn lemma_event_gyorg_defeated(s: MmSave)
    ensures
        spec_named_event(s, "GYORG_DEFEATED"@) == ((0x4F as int) < s.permanent_scene_flags@.len() && s.permanent_scene_flags@[0x4F].cleared_room != 0),
{
    lemma_item_name_lengths();
}

/// What the save holds of `TWINMOLD_DEFEATED`.
#[verifier::rlimit(40)]
proof fn lemma_event_twinmold_defeated(s: MmSave)
    ensures
        spec_named_event(s, "TWINMOLD_DEFEATED"@) == ((0x36 as int) < s.permanent_scene_flags@.len() && s.permanent_scene_flags@[0x36].cleared_room != 0),
{
    lemma_item_name_lengths();
}

/// What the save holds of `ODOLWA_DEFEATED_CYCLE`.
#[verifier::rlimit(40)]
proof fn lemma_event_odolwa_defeated_cycle(s: MmSave)
    ensures
        spec_named_event(s, "ODOLWA_DEFEATED_CYCLE"@) == ((0x1A as int) < s.cycle_scene_flags@.len() && s.cycle_scene_flags@[0x1A].cleared_room != 0),
{
    lemma_item_name_lengths();
}

/// What the save holds of `GOHT_DEFEATED_CYCLE`.
#[verifier::rlimit(40)]
proof fn lemma_event_goht_defeated_cycle(s: MmSave)
    ensures
        spec_named_event(s, "GOHT_DEFEATED_CYCLE"@) == ((0x24 as int) < s.cycle_scene_flags@.len() && s.cycle_scene_flags@[0x24].cleared_room != 0),
{
    lemma_item_name_lengths();
}

/// What the save holds of `GYORG_DEFEATED_CYCLE`.
#[verifier::rlimit(40)]
proof fn lemma_event_gyorg_defeated_cycle(s: MmSave)
    ensures
        spec_named_event(s, "GYORG_DEFEATED_CYCLE"@) == ((0x4F as int) < s.cycle_scene_flags@.len() && s.cycle_scene_flags@[0x4F].cleared_room != 0),
{
    lemma_item_name_lengths();
}

/// What the save holds of `TWINMOLD_DEFEATED_CYCLE`.
#[verifier::rlimit(40)]
proof fn lemma_event_twinmold_defeated_cycle(s: MmSave)
    ensures
        spec_named_event(s, "TWINMOLD_DEFEATED_CYCLE"@) == ((0x36 as int) < s.cycle_scene_flags@.len() && s.cycle_scene_flags@[0x36].cleared_room != 0),
{
    lemma_item_name_lengths();
}

/// What the save holds of `WOODFALL_TEMPLE_CLEAR`.
#[verifier::rlimit(40)]
proof fn lemma_event_woodfall_temple_clear(s: MmSave)
    ensures
        spec_named_event(s, "WOODFALL_TEMPLE_CLEAR"@) == ((0x1A as int) < s.permanent_scene_flags@.len() && s.permanent_scene_flags@[0x1A].cleared_floors != 0),
{
    lemma_item_name_lengths();
    reveal_strlit("WOODFALL_TEMPLE_CLEAR");
    reveal_strlit("ODOLWA_DEFEATED_CYCLE");
    assert("WOODFALL_TEMPLE_CLEAR"@[0] != "ODOLWA_DEFEATED_CYCLE"@[0]);
}

/// What the save holds of `SNOWHEAD_TEMPLE_CLEAR`.
#[verifier::rlimit(40)]
proof fn lemma_event_snowhead_temple_clear(s: MmSave)
    ensures
        spec_named_event(s, "SNOWHEAD_TEMPLE_CLEAR"@) == ((0x24 as int) < s.permanent_scene_flags@.len() && s.permanent_scene_flags@[0x24].cleared_floors != 0),
{
    lemma_item_name_lengths();
    reveal_strlit("SNOWHEAD_TEMPLE_CLEAR");
    reveal_strlit("ODOLWA_DEFEATED_CYCLE");
    assert("SNOWHEAD_TEMPLE_CLEAR"@[0] != "ODOLWA_DEFEATED_CYCLE"@[0]);
    reveal_strlit("WOODFALL_TEMPLE_CLEAR");
    assert("SNOWHEAD_TEMPLE_CLEAR"@[0] != "WOODFALL_TEMPLE_CLEAR"@[0]);
}

/// What the save holds of `GREAT_BAY_TEMPLE_CLEAR`.
#[verifier::rlimit(40)]
proof fn lemma_event_great_bay_temple_clear(s: MmSave)
    ensures
        spec_named_event(s, "GREAT_BAY_TEMPLE_CLEAR"@) == ((0x4F as int) < s.permanent_scene_flags@.len() && s.permanent_scene_flags@[0x4F].cleared_floors != 0),
{
    lemma_item_name_lengths();
}

/// What the save holds of `STONE_TOWER_TEMPLE_CLEAR`.
#[verifier::rlimit(40)]
proof fn lemma_event_stone_tower_temple_clear(s: MmSave)
    ensures
        spec_named_event(s, "STONE_TOWER_TEMPLE_CLEAR"@) == ((0x36 as int) < s.permanent_scene_flags@.len() && s.permanent_scene_flags@[0x36].cleared_floors != 0),
{
    lemma_item_name_lengths();
}

/// What the save holds of `WOODFALL_TEMPLE_CLEAR_CYCLE`.
#[verifier::rlimit(40)]
proof fn lemma_event_woodfall_temple_clear_cycle(s: MmSave)
    ensures
        spec_named_event(s, "WOODFALL_TEMPLE_CLEAR_CYCLE"@) == ((0x1A as int) < s.cycle_scene_flags@.len() && s.cycle_scene_flags@[0x1A].cleared_room != 0),
{
    lemma_item_name_lengths();
}

/// What the save holds of `SNOWHEAD_TEMPLE_CLEAR_CYCLE`.
#[verifier::rlimit(40)]
proof fn lemma_event_snowhead_temple_clear_cycle(s: MmSave)
    ensures
        spec_named_event(s, "SNOWHEAD_TEMPLE_CLEAR_CYCLE"@) == ((0x24 as int) < s.cycle_scene_flags@.len() && s.cycle_scene_flags@[0x24].cleared_room != 0),
{
    lemma_item_name_lengths();
    reveal_strlit("SNOWHEAD_TEMPLE_CLEAR_CYCLE");
    reveal_strlit("WOODFALL_TEMPLE_CLEAR_CYCLE");
    assert("SNOWHEAD_TEMPLE_CLEAR_CYCLE"@[0] != "WOODFALL_TEMPLE_CLEAR_CYCLE"@[0]);
}

/// What the save holds of `GREAT_BAY_TEMPLE_CLEAR_CYCLE`.
#[verifier::rlimit(40)]
proof fn lemma_event_great_bay_temple_clear_cycle(s: MmSave)
    ensures
        spec_named_event(s, "GREAT_BAY_TEMPLE_CLEAR_CYCLE"@) == ((0x4F as int) < s.cycle_scene_flags@.len() && s.cycle_scene_flags@[0x4F].cleared_room != 0),
{
    lemma_item_name_lengths();
}

/// What the save holds of `STONE_TOWER_TEMPLE_CLEAR_CYCLE`.
#[verifier::rlimit(40)]
proof fn lemma_event_stone_tower_temple_clear_cycle(s: MmSave)
    ensures
        spec_named_event(s, "STONE_TOWER_TEMPLE_CLEAR_CYCLE"@) == ((0x36 as int) < s.cycle_scene_flags@.len() && s.cycle_scene_flags@[0x36].cleared_room != 0),
{
    lemma_item_name_lengths();
}

/// Law: each MM item name of the logic is answered from its own part of the
/// save: an inventory flag, its own bit of the mask, quest or upgrade words
/// (the values written out below), the stored key and stray fairy counts,
/// the bottle slots, or the upgrade levels; and each event name from the
/// cleared-room flag (boss defeated; temple cleared in the current cycle)
/// or the permanent cleared-floors flag (temple cleared) of
/// its temple's boss scene (0x1A Woodfall, 0x24 Snowhead, 0x4F Great Bay,
/// 0x36 Stone Tower), in the permanent or the current-cycle scene flags.
pub proof fn lemma_mm_item_names(s: MmSave)
    ensures
        spec_named_item_count(s, "BOTTLE"@) == (spec_bottle_count(s)),
        spec_named_item_count(s, "SMALL_KEY_WOODFALL_TEMPLE"@) == (s.small_keys.woodfall as nat),
        spec_named_item_count(s, "SMALLKEYWOODFALLTEMPLE"@) == (s.small_keys.woodfall as nat),
        spec_named_item_count(s, "SMALL_KEY_SNOWHEAD_TEMPLE"@) == (s.small_keys.snowhead as nat),
        spec_named_item_count(s, "SMALLKEYSNOWHEADTEMPLE"@) == (s.small_keys.snowhead as nat),
        spec_named_item_count(s, "SMALL_KEY_GREAT_BAY_TEMPLE"@) == (s.small_keys.great_bay as nat),
        spec_named_item_count(s, "SMALLKEYGREATBAYTEMPLE"@) == (s.small_keys.great_bay as nat),
        spec_named_item_count(s, "SMALL_KEY_STONE_TOWER_TEMPLE"@) == (s.small_keys.stone_tower as nat),
        spec_named_item_count(s, "SMALLKEYSTONETOWERTEMPLE"@) == (s.small_keys.stone_tower as nat),
        spec_named_item_count(s, "STRAY_FAIRY_CLOCK_TOWN"@) == (s.stray_fairies.clock_town as nat),
        spec_named_item_count(s, "STRAYFAIRYCLOCKTOWN"@) == (s.stray_fairies.clock_town as nat),
        spec_named_item_count(s, "STRAY_FAIRY_WOODFALL"@) == (s.stray_fairies.woodfall as nat),
        spec_named_item_count(s, "STRAYFAIRYWOODFALL"@) == (s.stray_fairies.woodfall as nat),
        spec_named_item_count(s, "STRAY_FAIRY_SNOWHEAD"@) == (s.stray_fairies.snowhead as nat),
        spec_named_item_count(s, "STRAYFAIRYSNOWHEAD"@) == (s.stray_fairies.snowhead as nat),
        spec_named_item_count(s, "STRAY_FAIRY_GREAT_BAY"@) == (s.stray_fairies.great_bay as nat),
        spec_named_item_count(s, "STRAYFAIRYGREATBAY"@) == (s.stray_fairies.great_bay as nat),
        spec_named_item_count(s, "STRAY_FAIRY_STONE_TOWER"@) == (s.stray_fairies.stone_tower as nat),
        spec_named_item_count(s, "STRAYFAIRYSTONETOWER"@) == (s.stray_fairies.stone_tower as nat),
        spec_named_item_count(s, "BOSS_REMAINS"@) == (spec_boss_remains_count(s)),
        spec_named_item_count(s, "BOSSREMAINS"@) == (spec_boss_remains_count(s)),
        spec_named_item_count(s, "QUIVER_30"@) == (if spec_quiver_level(s) >= 1 { 1nat } else { 0nat }),
        spec_named_item_count(s, "QUIVER_40"@) == (if spec_quiver_level(s) >= 2 { 1nat } else { 0nat }),
        spec_named_item_count(s, "QUIVER_50"@) == (if spec_quiver_level(s) >= 3 { 1nat } else { 0nat }),
        spec_named_item_count(s, "BOMB_BAG_20"@) == (if spec_bomb_bag_level(s) >= 1 { 1nat } else { 0nat }),
        spec_named_item_count(s, "BOMB_BAG_30"@) == (if spec_bomb_bag_level(s) >= 2 { 1nat } else { 0nat }),
        spec_named_item_count(s, "BOMB_BAG_40"@) == (if spec_bomb_bag_level(s) >= 3 { 1nat } else { 0nat }),
        spec_has_named_item(s, "OCARINA_OF_TIME"@) == (s.inventory.ocarina),
        spec_has_named_item(s, "OCARINAOFTTIME"@) == (s.inventory.ocarina),
        spec_has_named_item(s, "HEROS_BOW"@) == (s.inventory.bow),
        spec_has_named_item(s, "HEROSBOW"@) == (s.inventory.bow),
        spec_has_named_item(s, "FIRE_ARROW"@) == (s.inventory.fire_arrows),
        spec_has_named_item(s, "FIREARROW"@) == (s.inventory.fire_arrows),
        spec_has_named_item(s, "ICE_ARROW"@) == (s.inventory.ice_arrows),
        spec_has_named_item(s, "ICEARROW"@) == (s.inventory.ice_arrows),
        spec_has_named_item(s, "LIGHT_ARROW"@) == (s.inventory.light_arrows),
        spec_has_named_item(s, "LIGHTARROW"@) == (s.inventory.light_arrows),
        spec_has_named_item(s, "HOOKSHOT"@) == (s.inventory.hookshot),
        spec_has_named_item(s, "BOMB"@) == (s.inventory.bombs),
        spec_has_named_item(s, "BOMBS"@) == (s.inventory.bombs),
        spec_has_named_item(s, "BOMBCHU"@) == (s.inventory.bombchus),
        spec_has_named_item(s, "BOMBCHUS"@) == (s.inventory.bombchus),
        spec_has_named_item(s, "POWDER_KEG"@) == (s.inventory.powder_keg),
        spec_has_named_item(s, "POWDERKEG"@) == (s.inventory.powder_keg),
        spec_has_named_item(s, "LENS_OF_TRUTH"@) == (s.inventory.lens),
        spec_has_named_item(s, "LENSOFTRUTH"@) == (s.inventory.lens),
        spec_has_named_item(s, "PICTOGRAPH_BOX"@) == (s.inventory.pictograph_box),
        spec_has_named_item(s, "PICTOGRAPHBOX"@) == (s.inventory.pictograph_box),
        spec_has_named_item(s, "GREAT_FAIRY_SWORD"@) == (s.inventory.great_fairy_sword),
        spec_has_named_item(s, "GREATFAIRYSWORD"@) == (s.inventory.great_fairy_sword),
        spec_has_named_item(s, "MAGIC_BEAN"@) == (s.inventory.magic_beans),
        spec_has_named_item(s, "MAGICBEAN"@) == (s.inventory.magic_beans),
        spec_has_named_item(s, "DEKU_STICK"@) == (s.inventory.deku_sticks),
        spec_has_named_item(s, "DEKUSTICK"@) == (s.inventory.deku_sticks),
        spec_has_named_item(s, "DEKU_NUT"@) == (s.inventory.deku_nuts),
        spec_has_named_item(s, "DEKUNUT"@) == (s.inventory.deku_nuts),
        spec_has_named_item(s, "DEKU_MASK"@) == (s.masks.transformation & 0x01u8 != 0),
        spec_has_named_item(s, "DEKUMASK"@) == (s.masks.transformation & 0x01u8 != 0),
        spec_has_named_item(s, "GORON_MASK"@) == (s.masks.transformation & 0x02u8 != 0),
        spec_has_named_item(s, "GORONMASK"@) == (s.masks.transformation & 0x02u8 != 0),
        spec_has_named_item(s, "ZORA_MASK"@) == (s.masks.transformation & 0x04u8 != 0),
        spec_has_named_item(s, "ZORAMASK"@) == (s.masks.transformation & 0x04u8 != 0),
        spec_has_named_item(s, "FIERCE_DEITY_MASK"@) == (s.masks.transformation & 0x08u8 != 0),
        spec_has_named_item(s, "FIERCEDEITYMASK"@) == (s.masks.transformation & 0x08u8 != 0),
        spec_has_named_item(s, "POSTMAN_HAT"@) == (s.masks.masks_low & 0x0001u16 != 0),
        spec_has_named_item(s, "POSTMANHAT"@) == (s.masks.masks_low & 0x0001u16 != 0),
        spec_has_named_item(s, "ALL_NIGHT_MASK"@) == (s.masks.masks_low & 0x0002u16 != 0),
        spec_has_named_item(s, "ALLNIGHTMASK"@) == (s.masks.masks_low & 0x0002u16 != 0),
        spec_has_named_item(s, "BLAST_MASK"@) == (s.masks.masks_low & 0x0004u16 != 0),
        spec_has_named_item(s, "BLASTMASK"@) == (s.masks.masks_low & 0x0004u16 != 0),
        spec_has_named_item(s, "STONE_MASK"@) == (s.masks.masks_low & 0x0008u16 != 0),
        spec_has_named_item(s, "STONEMASK"@) == (s.masks.masks_low & 0x0008u16 != 0),
        spec_has_named_item(s, "GREAT_FAIRY_MASK"@) == (s.masks.masks_low & 0x0010u16 != 0),
        spec_has_named_item(s, "GREATFAIRYMASK"@) == (s.masks.masks_low & 0x0010u16 != 0),
        spec_has_named_item(s, "KEATON_MASK"@) == (s.masks.masks_low & 0x0020u16 != 0),
        spec_has_named_item(s, "KEATONMASK"@) == (s.masks.masks_low & 0x0020u16 != 0),
        spec_has_named_item(s, "BREMEN_MASK"@) == (s.masks.masks_low & 0x0040u16 != 0),
        spec_has_named_item(s, "BREMENMASK"@) == (s.masks.masks_low & 0x0040u16 != 0),
        spec_has_named_item(s, "BUNNY_HOOD"@) == (s.masks.masks_low & 0x0080u16 != 0),
        spec_has_named_item(s, "BUNNYHOOD"@) == (s.masks.masks_low & 0x0080u16 != 0),
        spec_has_named_item(s, "DON_GERO_MASK"@) == (s.masks.masks_low & 0x0100u16 != 0),
        spec_has_named_item(s, "DONGEROMASK"@) == (s.masks.masks_low & 0x0100u16 != 0),
        spec_has_named_item(s, "MASK_OF_SCENTS"@) == (s.masks.masks_low & 0x0200u16 != 0),
        spec_has_named_item(s, "MASKOFSCENTS"@) == (s.masks.masks_low & 0x0200u16 != 0),
        spec_has_named_item(s, "ROMANI_MASK"@) == (s.masks.masks_low & 0x0400u16 != 0),
        spec_has_named_item(s, "ROMANIMASK"@) == (s.masks.masks_low & 0x0400u16 != 0),
        spec_has_named_item(s, "CIRCUS_LEADER_MASK"@) == (s.masks.masks_low & 0x0800u16 != 0),
        spec_has_named_item(s, "CIRCUSLEADERMASK"@) == (s.masks.masks_low & 0x0800u16 != 0),
        spec_has_named_item(s, "KAFEI_MASK"@) == (s.masks.masks_low & 0x1000u16 != 0),
        spec_has_named_item(s, "KAFEIMASK"@) == (s.masks.masks_low & 0x1000u16 != 0),
        spec_has_named_item(s, "COUPLES_MASK"@) == (s.masks.masks_low & 0x2000u16 != 0),
        spec_has_named_item(s, "COUPLESMASK"@) == (s.masks.masks_low & 0x2000u16 != 0),
        spec_has_named_item(s, "MASK_OF_TRUTH"@) == (s.masks.masks_low & 0x4000u16 != 0),
        spec_has_named_item(s, "MASKOFTRUTH"@) == (s.masks.masks_low & 0x4000u16 != 0),
        spec_has_named_item(s, "KAMARO_MASK"@) == (s.masks.masks_high & 0x01u8 != 0),
        spec_has_named_item(s, "KAMAROMASK"@) == (s.masks.masks_high & 0x01u8 != 0),
        spec_has_named_item(s, "GIBDO_MASK"@) == (s.masks.masks_high & 0x02u8 != 0),
        spec_has_named_item(s, "GIBDOMASK"@) == (s.masks.masks_high & 0x02u8 != 0),
        spec_has_named_item(s, "GARO_MASK"@) == (s.masks.masks_high & 0x04u8 != 0),
        spec_has_named_item(s, "GAROMASK"@) == (s.masks.masks_high & 0x04u8 != 0),
        spec_has_named_item(s, "CAPTAIN_HAT"@) == (s.masks.masks_high & 0x08u8 != 0),
        spec_has_named_item(s, "CAPTAINHAT"@) == (s.masks.masks_high & 0x08u8 != 0),
        spec_has_named_item(s, "GIANT_MASK"@) == (s.masks.masks_high & 0x10u8 != 0),
        spec_has_named_item(s, "GIANTMASK"@) == (s.masks.masks_high & 0x10u8 != 0),
        spec_has_named_item(s, "SONG_OF_TIME"@) == (s.quest_items & 0x0000_1000u32 != 0),
        spec_has_named_item(s, "SONGOFTIME"@) == (s.quest_items & 0x0000_1000u32 != 0),
        spec_has_named_item(s, "SONG_OF_HEALING"@) == (s.quest_items & 0x0000_2000u32 != 0),
        spec_has_named_item(s, "SONGOFHEALING"@) == (s.quest_items & 0x0000_2000u32 != 0),
        spec_has_named_item(s, "EPONAS_SONG"@) == (s.quest_items & 0x0000_4000u32 != 0),
        spec_has_named_item(s, "EPONASSONG"@) == (s.quest_items & 0x0000_4000u32 != 0),
        spec_has_named_item(s, "SONG_OF_SOARING"@) == (s.quest_items & 0x0000_8000u32 != 0),
        spec_has_named_item(s, "SONGOFSOARING"@) == (s.quest_items & 0x0000_8000u32 != 0),
        spec_has_named_item(s, "SONG_OF_STORMS"@) == (s.quest_items & 0x0001_0000u32 != 0),
        spec_has_named_item(s, "SONGOFSTORMS"@) == (s.quest_items & 0x0001_0000u32 != 0),
        spec_has_named_item(s, "SONATA_OF_AWAKENING"@) == (s.quest_items & 0x0000_0040u32 != 0),
        spec_has_named_item(s, "SONATAOFAWAKENING"@) == (s.quest_items & 0x0000_0040u32 != 0),
        spec_has_named_item(s, "GORON_LULLABY"@) == (s.quest_items & 0x0000_0080u32 != 0),
        spec_has_named_item(s, "GORONLULLABY"@) == (s.quest_items & 0x0000_0080u32 != 0),
        spec_has_named_item(s, "NEW_WAVE_BOSSA_NOVA"@) == (s.quest_items & 0x0000_0100u32 != 0),
        spec_has_named_item(s, "NEWWAVEBOSSANOVA"@) == (s.quest_items & 0x0000_0100u32 != 0),
        spec_has_named_item(s, "ELEGY_OF_EMPTINESS"@) == (s.quest_items & 0x0000_0200u32 != 0),
        spec_has_named_item(s, "ELEGYOFEMPTINESS"@) == (s.quest_items & 0x0000_0200u32 != 0),
        spec_has_named_item(s, "OATH_TO_ORDER"@) == (s.quest_items & 0x0000_0400u32 != 0),
        spec_has_named_item(s, "OATHTOORDER"@) == (s.quest_items & 0x0000_0400u32 != 0),
        spec_has_named_item(s, "ODOLWA_REMAINS"@) == (s.quest_items & 0x0000_0001u32 != 0),
        spec_has_named_item(s, "ODOLWAREMAINS"@) == (s.quest_items & 0x0000_0001u32 != 0),
        spec_has_named_item(s, "GOHT_REMAINS"@) == (s.quest_items & 0x0000_0002u32 != 0),
        spec_has_named_item(s, "GOHTREMAINS"@) == (s.quest_items & 0x0000_0002u32 != 0),
        spec_has_named_item(s, "GYORG_REMAINS"@) == (s.quest_items & 0x0000_0004u32 != 0),
        spec_has_named_item(s, "GYORGREMAINS"@) == (s.quest_items & 0x0000_0004u32 != 0),
        spec_has_named_item(s, "TWINMOLD_REMAINS"@) == (s.quest_items & 0x0000_0008u32 != 0),
        spec_has_named_item(s, "TWINMOLDREMAINS"@) == (s.quest_items & 0x0000_0008u32 != 0),
        spec_has_named_item(s, "KOKIRI_SWORD"@) == (s.sword == MmSword::KokiriSword || s.sword == MmSword::RazorSword || s.sword == MmSword::GildedSword),
        spec_has_named_item(s, "KOKIRISWORD"@) == (s.sword == MmSword::KokiriSword || s.sword == MmSword::RazorSword || s.sword == MmSword::GildedSword),
        spec_has_named_item(s, "RAZOR_SWORD"@) == (s.sword == MmSword::RazorSword || s.sword == MmSword::GildedSword),
        spec_has_named_item(s, "RAZORSWORD"@) == (s.sword == MmSword::RazorSword || s.sword == MmSword::GildedSword),
        spec_has_named_item(s, "GILDED_SWORD"@) == (s.sword == MmSword::GildedSword),
        spec_has_named_item(s, "GILDEDSWORD"@) == (s.sword == MmSword::GildedSword),
        spec_has_named_item(s, "HERO_SHIELD"@) == (s.shield == MmShield::HeroShield || s.shield == MmShield::MirrorShield),
        spec_has_named_item(s, "HEROSHIELD"@) == (s.shield == MmShield::HeroShield || s.shield == MmShield::MirrorShield),
        spec_has_named_item(s, "MIRROR_SHIELD"@) == (s.shield == MmShield::MirrorShield),
        spec_has_named_item(s, "MIRRORSHIELD"@) == (s.shield == MmShield::MirrorShield),
        spec_has_named_item(s, "BOTTLE"@) == (spec_has_bottle(s)),
        spec_has_named_item(s, "MAGIC"@) == (s.magic == MmMagicCapacity::Single || s.magic == MmMagicCapacity::Double),
        spec_has_named_item(s, "MAGIC_METER"@) == (s.magic == MmMagicCapacity::Single || s.magic == MmMagicCapacity::Double),
        spec_has_named_item(s, "MAGICMETER"@) == (s.magic == MmMagicCapacity::Single || s.magic == MmMagicCapacity::Double),
        spec_has_named_item(s, "DOUBLE_MAGIC"@) == (s.magic == MmMagicCapacity::Double),
        spec_has_named_item(s, "DOUBLEMAGIC"@) == (s.magic == MmMagicCapacity::Double),
        spec_has_named_item(s, "DOUBLE_DEFENSE"@) == (s.double_defense),
        spec_has_named_item(s, "DOUBLEDEFENSE"@) == (s.double_defense),
        spec_has_named_item(s, "ADULT_WALLET"@) == (spec_has_adult_wallet(s)),
        spec_has_named_item(s, "ADULTWALLET"@) == (spec_has_adult_wallet(s)),
        spec_has_named_item(s, "GIANT_WALLET"@) == (spec_has_giant_wallet(s)),
        spec_has_named_item(s, "GIANTWALLET"@) == (spec_has_giant_wallet(s)),
        spec_has_named_item(s, "GIANTS_WALLET"@) == (spec_has_giant_wallet(s)),
        spec_has_named_item(s, "GIANTSWALLET"@) == (spec_has_giant_wallet(s)),
        spec_named_event(s, "ODOLWA_DEFEATED"@) == ((0x1A as int) < s.permanent_scene_flags@.len() && s.permanent_scene_flags@[0x1A].cleared_room != 0),
        spec_named_event(s, "GOHT_DEFEATED"@) == ((0x24 as int) < s.permanent_scene_flags@.len() && s.permanent_scene_flags@[0x24].cleared_room != 0),
        spec_named_event(s, "GYORG_DEFEATED"@) == ((0x4F as int) < s.permanent_scene_flags@.len() && s.permanent_scene_flags@[0x4F].cleared_room != 0),
        spec_named_event(s, "TWINMOLD_DEFEATED"@) == ((0x36 as int) < s.permanent_scene_flags@.len() && s.permanent_scene_flags@[0x36].cleared_room != 0),
        spec_named_event(s, "ODOLWA_DEFEATED_CYCLE"@) == ((0x1A as int) < s.cycle_scene_flags@.len() && s.cycle_scene_flags@[0x1A].cleared_room != 0),
        spec_named_event(s, "GOHT_DEFEATED_CYCLE"@) == ((0x24 as int) < s.cycle_scene_flags@.len() && s.cycle_scene_flags@[0x24].cleared_room != 0),
        spec_named_event(s, "GYORG_DEFEATED_CYCLE"@) == ((0x4F as int) < s.cycle_scene_flags@.len() && s.cycle_scene_flags@[0x4F].cleared_room != 0),
        spec_named_event(s, "TWINMOLD_DEFEATED_CYCLE"@) == ((0x36 as int) < s.cycle_scene_flags@.len() && s.cycle_scene_flags@[0x36].cleared_room != 0),
        spec_named_event(s, "WOODFALL_TEMPLE_CLEAR"@) == ((0x1A as int) < s.permanent_scene_flags@.len() && s.permanent_scene_flags@[0x1A].cleared_floors != 0),
        spec_named_event(s, "SNOWHEAD_TEMPLE_CLEAR"@) == ((0x24 as int) < s.permanent_scene_flags@.len() && s.permanent_scene_flags@[0x24].cleared_floors != 0),
        spec_named_event(s, "GREAT_BAY_TEMPLE_CLEAR"@) == ((0x4F as int) < s.permanent_scene_flags@.len() && s.permanent_scene_flags@[0x4F].cleared_floors != 0),
        spec_named_event(s, "STONE_TOWER_TEMPLE_CLEAR"@) == ((0x36 as int) < s.permanent_scene_flags@.len() && s.permanent_scene_flags@[0x36].cleared_floors != 0),
        spec_named_event(s, "WOODFALL_TEMPLE_CLEAR_CYCLE"@) == ((0x1A as int) < s.cycle_scene_flags@.len() && s.cycle_scene_flags@[0x1A].cleared_room != 0),
        spec_named_event(s, "SNOWHEAD_TEMPLE_CLEAR_CYCLE"@) == ((0x24 as int) < s.cycle_scene_flags@.len() && s.cycle_scene_flags@[0x24].cleared_room != 0),
        spec_named_event(s, "GREAT_BAY_TEMPLE_CLEAR_CYCLE"@) == ((0x4F as int) < s.cycle_scene_flags@.len() && s.cycle_scene_flags@[0x4F].cleared_room != 0),
        spec_named_event(s, "STONE_TOWER_TEMPLE_CLEAR_CYCLE"@) == ((0x36 as int) < s.cycle_scene_flags@.len() && s.cycle_scene_flags@[0x36].cleared_room != 0),
{
    lemma_count_bottle(s);
    lemma_count_small_key_woodfall_temple(s);
    lemma_count_smallkeywoodfalltemple(s);
    lemma_count_small_key_snowhead_temple(s);
    lemma_count_smallkeysnowheadtemple(s);
    lemma_count_small_key_great_bay_temple(s);
    lemma_count_smallkeygreatbaytemple(s);
    lemma_count_small_key_stone_tower_temple(s);
    lemma_count_smallkeystonetowertemple(s);
    lemma_count_stray_fairy_clock_town(s);
    lemma_count_strayfairyclocktown(s);
    lemma_count_stray_fairy_woodfall(s);
    lemma_count_strayfairywoodfall(s);
    lemma_count_stray_fairy_snowhead(s);
    lemma_count_strayfairysnowhead(s);
    lemma_count_stray_fairy_great_bay(s);
    lemma_count_strayfairygreatbay(s);
    lemma_count_stray_fairy_stone_tower(s);
    lemma_count_strayfairystonetower(s);
    lemma_count_boss_remains(s);
    lemma_count_bossremains(s);
    lemma_count_quiver_30(s);
    lemma_count_quiver_40(s);
    lemma_count_quiver_50(s);
    lemma_count_bomb_bag_20(s);
    lemma_count_bomb_bag_30(s);
    lemma_count_bomb_bag_40(s);
    lemma_has_ocarina_of_time(s);
    lemma_has_ocarinaofttime(s);
    lemma_has_heros_bow(s);
    lemma_has_herosbow(s);
    lemma_has_fire_arrow(s);
    lemma_has_firearrow(s);
    lemma_has_ice_arrow(s);
    lemma_has_icearrow(s);
    lemma_has_light_arrow(s);
    lemma_has_lightarrow(s);
    lemma_has_hookshot(s);
    lemma_has_bomb(s);
    lemma_has_bombs(s);
    lemma_has_bombchu(s);
    lemma_has_bombchus(s);
    lemma_has_powder_keg(s);
    lemma_has_powderkeg(s);
    lemma_has_lens_of_truth(s);
    lemma_has_lensoftruth(s);
    lemma_has_pictograph_box(s);
    lemma_has_pictographbox(s);
    lemma_has_great_fairy_sword(s);
    lemma_has_greatfairysword(s);
    lemma_has_magic_bean(s);
    lemma_has_magicbean(s);
    lemma_has_deku_stick(s);
    lemma_has_dekustick(s);
    lemma_has_deku_nut(s);
    lemma_has_dekunut(s);
    lemma_has_deku_mask(s);
    lemma_has_dekumask(s);
    lemma_has_goron_mask(s);
    lemma_has_goronmask(s);
    lemma_has_zora_mask(s);
    lemma_has_zoramask(s);
    lemma_has_fierce_deity_mask(s);
    lemma_has_fiercedeitymask(s);
    lemma_has_postman_hat(s);
    lemma_has_postmanhat(s);
    lemma_has_all_night_mask(s);
    lemma_has_allnightmask(s);
    lemma_has_blast_mask(s);
    lemma_has_blastmask(s);
    lemma_has_stone_mask(s);
    lemma_has_stonemask(s);
    lemma_has_great_fairy_mask(s);
    lemma_has_greatfairymask(s);
    lemma_has_keaton_mask(s);
    lemma_has_keatonmask(s);
    lemma_has_bremen_mask(s);
    lemma_has_bremenmask(s);
    lemma_has_bunny_hood(s);
    lemma_has_bunnyhood(s);
    lemma_has_don_gero_mask(s);
    lemma_has_dongeromask(s);
    lemma_has_mask_of_scents(s);
    lemma_has_maskofscents(s);
    lemma_has_romani_mask(s);
    lemma_has_romanimask(s);
    lemma_has_circus_leader_mask(s);
    lemma_has_circusleadermask(s);
    lemma_has_kafei_mask(s);
    lemma_has_kafeimask(s);
    lemma_has_couples_mask(s);
    lemma_has_couplesmask(s);
    lemma_has_mask_of_truth(s);
    lemma_has_maskoftruth(s);
    lemma_has_kamaro_mask(s);
    lemma_has_kamaromask(s);
    lemma_has_gibdo_mask(s);
    lemma_has_gibdomask(s);
    lemma_has_garo_mask(s);
    lemma_has_garomask(s);
    lemma_has_captain_hat(s);
    lemma_has_captainhat(s);
    lemma_has_giant_mask(s);
    lemma_has_giantmask(s);
    lemma_has_song_of_time(s);
    lemma_has_songoftime(s);
    lemma_has_song_of_healing(s);
    lemma_has_songofhealing(s);
    lemma_has_eponas_song(s);
    lemma_has_eponassong(s);
    lemma_has_song_of_soaring(s);
    lemma_has_songofsoaring(s);
    lemma_has_song_of_storms(s);
    lemma_has_songofstorms(s);
    lemma_has_sonata_of_awakening(s);
    lemma_has_sonataofawakening(s);
    lemma_has_goron_lullaby(s);
    lemma_has_goronlullaby(s);
    lemma_has_new_wave_bossa_nova(s);
    lemma_has_newwavebossanova(s);
    lemma_has_elegy_of_emptiness(s);
    lemma_has_elegyofemptiness(s);
    lemma_has_oath_to_order(s);
    lemma_has_oathtoorder(s);
    lemma_has_odolwa_remains(s);
    lemma_has_odolwaremains(s);
    lemma_has_goht_remains(s);
    lemma_has_gohtremains(s);
    lemma_has_gyorg_remains(s);
    lemma_has_gyorgremains(s);
    lemma_has_twinmold_remains(s);
    lemma_has_twinmoldremains(s);
    lemma_has_kokiri_sword(s);
    lemma_has_kokirisword(s);
    lemma_has_razor_sword(s);
    lemma_has_razorsword(s);
    lemma_has_gilded_sword(s);
    lemma_has_gildedsword(s);
    lemma_has_hero_shield(s);
    lemma_has_heroshield(s);
    lemma_has_mirror_shield(s);
    lemma_has_mirrorshield(s);
    lemma_has_bottle(s);
    lemma_has_magic(s);
    lemma_has_magic_meter(s);
    lemma_has_magicmeter(s);
    lemma_has_double_magic(s);
    lemma_has_doublemagic(s);
    lemma_has_double_defense(s);
    lemma_has_doubledefense(s);
    lemma_has_adult_wallet(s);
    lemma_has_adultwallet(s);
    lemma_has_giant_wallet(s);
    lemma_has_giantwallet(s);
    lemma_has_giants_wallet(s);
    lemma_has_giantswallet(s);
    lemma_event_odolwa_defeated(s);
    lemma_event_goht_defeated(s);
    lemma_event_gyorg_defeated(s);
    lemma_event_twinmold_defeated(s);
    lemma_event_odolwa_defeated_cycle(s);
    lemma_event_goht_defeated_cycle(s);
    lemma_event_gyorg_defeated_cycle(s);
    lemma_event_twinmold_defeated_cycle(s);
    lemma_event_woodfall_temple_clear(s);
    lemma_event_snowhead_temple_clear(s);
    lemma_event_great_bay_temple_clear(s);
    lemma_event_stone_tower_temple_clear(s);
    lemma_event_woodfall_temple_clear_cycle(s);
    lemma_event_snowhead_temple_clear_cycle(s);
    lemma_event_great_bay_temple_clear_cycle(s);
    lemma_event_stone_tower_temple_clear_cycle(s);
}


/// The bottle slots holding a bottle.
proof fn lemma_filled_slots_count(bottles: Seq<MmBottle>)
    ensures
        spec_filled_slots(bottles) == bottles.filter(|b: MmBottle| b != MmBottle::NoBottle).len(),
    decreases bottles.len(),
{
    reveal_with_fuel(Seq::filter, 1);
    if bottles.len() > 0 {
        lemma_filled_slots_count(bottles.drop_last());
    }
}

/// Law: the upgrade levels and counts behind the item names are read from
/// the save as follows: the quiver level is the value of the quiver field
/// (bits 0x3 of the upgrades), the bomb bag level the value of the bomb bag
/// field (bits 0x18) divided by 8, the wallet level 2 with the Giant's
/// Wallet bit (0x2000), else 1 with the Adult's Wallet bit (0x1000), else
/// 0; the bottle count is the number of bottle slots holding a bottle, and
/// the boss remains count the number of the four remains bits (0x1 to 0x8
/// of the quest items) that are set.
pub proof fn lemma_mm_levels_and_counts(s: MmSave)
    ensures
        spec_quiver_level(s) as u32 == s.upgrades & 0x3u32,
        spec_bomb_bag_level(s) as u32 == (s.upgrades & 0x18u32) / 8,
        spec_wallet_level(s) == (if s.upgrades & 0x2000u32 != 0 {
            2u8
        } else if s.upgrades & 0x1000u32 != 0 {
            1u8
        } else {
            0u8
        }),
        spec_bottle_count(s) == s.inventory.bottles@.filter(|b: MmBottle| b != MmBottle::NoBottle).len(),
        spec_boss_remains_count(s) == (if s.quest_items & 0x1u32 != 0 { 1nat } else { 0nat }) + (if s.quest_items
            & 0x2u32 != 0 {
            1nat
        } else {
            0nat
        }) + (if s.quest_items & 0x4u32 != 0 { 1nat } else { 0nat }) + (if s.quest_items & 0x8u32 != 0 {
            1nat
        } else {
            0nat
        }),
{
    let u = s.upgrades;
    assert({
        let q = u & 3u32;
        let b = u & 0x18u32;
        let w = u & 0x3000u32;
        &&& (q & 3u32 == 3u32) == (q == 3u32)
        &&& (q & 2u32 == 2u32) == (q == 2u32 || q == 3u32)
        &&& (q & 1u32 == 1u32) == (q == 1u32 || q == 3u32)
        &&& (q == 0u32 || q == 1u32 || q == 2u32 || q == 3u32)
        &&& (b & 0x18u32 == 0x18u32) == (b == 0x18u32)
        &&& (b & 0x10u32 == 0x10u32) == (b == 0x10u32 || b == 0x18u32)
        &&& (b & 8u32 == 8u32) == (b == 8u32 || b == 0x18u32)
        &&& (b == 0u32 || b == 8u32 || b == 0x10u32 || b == 0x18u32)
        &&& (w & 0x2000u32 == 0x2000u32) == (u & 0x2000u32 != 0)
        &&& (w & 0x1000u32 == 0x1000u32) == (u & 0x1000u32 != 0)
    }) by (bit_vector);
    lemma_filled_slots_count(s.inventory.bottles@);
}

} // verus!
