//! Laws relating the inventory map of a save to the item counts.

use vstd::prelude::*;

use crate::logic_context::{
    lemma_filled_slots_bound, positive_entries_map, spec_bomb_bag_level, spec_inventory,
    spec_inventory_entries, spec_named_item_count, spec_quiver_level,
};
use crate::logic_context::logic_ids::spec_all_logic_ids;
use crate::mm_save::MmSave;

verus! {

/// The lengths of the item names.
proof fn lemma_name_lengths()
    ensures
        "ADULTWALLET"@.len() == 11,
        "ADULT_WALLET"@.len() == 12,
        "ALLNIGHTMASK"@.len() == 12,
        "ALL_NIGHT_MASK"@.len() == 14,
        "BLASTMASK"@.len() == 9,
        "BLAST_MASK"@.len() == 10,
        "BOMB"@.len() == 4,
        "BOMBCHU"@.len() == 7,
        "BOMBCHUS"@.len() == 8,
        "BOMBS"@.len() == 5,
        "BOMB_BAG_20"@.len() == 11,
        "BOMB_BAG_30"@.len() == 11,
        "BOMB_BAG_40"@.len() == 11,
        "BOSSREMAINS"@.len() == 11,
        "BOSS_REMAINS"@.len() == 12,
        "BOTTLE"@.len() == 6,
        "BREMENMASK"@.len() == 10,
        "BREMEN_MASK"@.len() == 11,
        "BUNNYHOOD"@.len() == 9,
        "BUNNY_HOOD"@.len() == 10,
        "CAPTAINHAT"@.len() == 10,
        "CAPTAIN_HAT"@.len() == 11,
        "CIRCUSLEADERMASK"@.len() == 16,
        "CIRCUS_LEADER_MASK"@.len() == 18,
        "COUPLESMASK"@.len() == 11,
        "COUPLES_MASK"@.len() == 12,
        "DEKUMASK"@.len() == 8,
        "DEKUNUT"@.len() == 7,
        "DEKUSTICK"@.len() == 9,
        "DEKU_MASK"@.len() == 9,
        "DEKU_NUT"@.len() == 8,
        "DEKU_STICK"@.len() == 10,
        "DONGEROMASK"@.len() == 11,
        "DON_GERO_MASK"@.len() == 13,
        "DOUBLEDEFENSE"@.len() == 13,
        "DOUBLEMAGIC"@.len() == 11,
        "DOUBLE_DEFENSE"@.len() == 14,
        "DOUBLE_MAGIC"@.len() == 12,
        "ELEGYOFEMPTINESS"@.len() == 16,
        "ELEGY_OF_EMPTINESS"@.len() == 18,
        "EPONASSONG"@.len() == 10,
        "EPONAS_SONG"@.len() == 11,
        "FIERCEDEITYMASK"@.len() == 15,
        "FIERCE_DEITY_MASK"@.len() == 17,
        "FIREARROW"@.len() == 9,
        "FIRE_ARROW"@.len() == 10,
        "GAROMASK"@.len() == 8,
        "GARO_MASK"@.len() == 9,
        "GIANTMASK"@.len() == 9,
        "GIANTSWALLET"@.len() == 12,
        "GIANTS_WALLET"@.len() == 13,
        "GIANTWALLET"@.len() == 11,
        "GIANT_MASK"@.len() == 10,
        "GIANT_WALLET"@.len() == 12,
        "GIBDOMASK"@.len() == 9,
        "GIBDO_MASK"@.len() == 10,
        "GILDEDSWORD"@.len() == 11,
        "GILDED_SWORD"@.len() == 12,
        "GOHTREMAINS"@.len() == 11,
        "GOHT_REMAINS"@.len() == 12,
        "GORONLULLABY"@.len() == 12,
        "GORONMASK"@.len() == 9,
        "GORON_LULLABY"@.len() == 13,
        "GORON_MASK"@.len() == 10,
        "GREATFAIRYMASK"@.len() == 14,
        "GREATFAIRYSWORD"@.len() == 15,
        "GREAT_FAIRY_MASK"@.len() == 16,
        "GREAT_FAIRY_SWORD"@.len() == 17,
        "GYORGREMAINS"@.len() == 12,
        "GYORG_REMAINS"@.len() == 13,
        "HEROSBOW"@.len() == 8,
        "HEROSHIELD"@.len() == 10,
        "HEROS_BOW"@.len() == 9,
        "HERO_SHIELD"@.len() == 11,
        "HOOKSHOT"@.len() == 8,
        "ICEARROW"@.len() == 8,
        "ICE_ARROW"@.len() == 9,
        "KAFEIMASK"@.len() == 9,
        "KAFEI_MASK"@.len() == 10,
        "KAMAROMASK"@.len() == 10,
        "KAMARO_MASK"@.len() == 11,
        "KEATONMASK"@.len() == 10,
        "KEATON_MASK"@.len() == 11,
        "KOKIRISWORD"@.len() == 11,
        "KOKIRI_SWORD"@.len() == 12,
        "LENSOFTRUTH"@.len() == 11,
        "LENS_OF_TRUTH"@.len() == 13,
        "LIGHTARROW"@.len() == 10,
        "LIGHT_ARROW"@.len() == 11,
        "MAGIC"@.len() == 5,
        "MAGICBEAN"@.len() == 9,
        "MAGICMETER"@.len() == 10,
        "MAGIC_BEAN"@.len() == 10,
        "MAGIC_METER"@.len() == 11,
        "MASKOFSCENTS"@.len() == 12,
        "MASKOFTRUTH"@.len() == 11,
        "MASK_OF_SCENTS"@.len() == 14,
        "MASK_OF_TRUTH"@.len() == 13,
        "MIRRORSHIELD"@.len() == 12,
        "MIRROR_SHIELD"@.len() == 13,
        "NEWWAVEBOSSANOVA"@.len() == 16,
        "NEW_WAVE_BOSSA_NOVA"@.len() == 19,
        "OATHTOORDER"@.len() == 11,
        "OATH_TO_ORDER"@.len() == 13,
        "OCARINAOFTTIME"@.len() == 14,
        "OCARINA_OF_TIME"@.len() == 15,
        "ODOLWAREMAINS"@.len() == 13,
        "ODOLWA_REMAINS"@.len() == 14,
        "PICTOGRAPHBOX"@.len() == 13,
        "PICTOGRAPH_BOX"@.len() == 14,
        "POSTMANHAT"@.len() == 10,
        "POSTMAN_HAT"@.len() == 11,
        "POWDERKEG"@.len() == 9,
        "POWDER_KEG"@.len() == 10,
        "QUIVER_30"@.len() == 9,
        "QUIVER_40"@.len() == 9,
        "QUIVER_50"@.len() == 9,
        "RAZORSWORD"@.len() == 10,
        "RAZOR_SWORD"@.len() == 11,
        "ROMANIMASK"@.len() == 10,
        "ROMANI_MASK"@.len() == 11,
        "SMALLKEYGREATBAYTEMPLE"@.len() == 22,
        "SMALLKEYSNOWHEADTEMPLE"@.len() == 22,
        "SMALLKEYSTONETOWERTEMPLE"@.len() == 24,
        "SMALLKEYWOODFALLTEMPLE"@.len() == 22,
        "SMALL_KEY_GREAT_BAY_TEMPLE"@.len() == 26,
        "SMALL_KEY_SNOWHEAD_TEMPLE"@.len() == 25,
        "SMALL_KEY_STONE_TOWER_TEMPLE"@.len() == 28,
        "SMALL_KEY_WOODFALL_TEMPLE"@.len() == 25,
        "SONATAOFAWAKENING"@.len() == 17,
        "SONATA_OF_AWAKENING"@.len() == 19,
        "SONGOFHEALING"@.len() == 13,
        "SONGOFSOARING"@.len() == 13,
        "SONGOFSTORMS"@.len() == 12,
        "SONGOFTIME"@.len() == 10,
        "SONG_OF_HEALING"@.len() == 15,
        "SONG_OF_SOARING"@.len() == 15,
        "SONG_OF_STORMS"@.len() == 14,
        "SONG_OF_TIME"@.len() == 12,
        "STONEMASK"@.len() == 9,
        "STONE_MASK"@.len() == 10,
        "STRAYFAIRYCLOCKTOWN"@.len() == 19,
        "STRAYFAIRYGREATBAY"@.len() == 18,
        "STRAYFAIRYSNOWHEAD"@.len() == 18,
        "STRAYFAIRYSTONETOWER"@.len() == 20,
        "STRAYFAIRYWOODFALL"@.len() == 18,
        "STRAY_FAIRY_CLOCK_TOWN"@.len() == 22,
        "STRAY_FAIRY_GREAT_BAY"@.len() == 21,
        "STRAY_FAIRY_SNOWHEAD"@.len() == 20,
        "STRAY_FAIRY_STONE_TOWER"@.len() == 23,
        "STRAY_FAIRY_WOODFALL"@.len() == 20,
        "TWINMOLDREMAINS"@.len() == 15,
        "TWINMOLD_REMAINS"@.len() == 16,
        "ZORAMASK"@.len() == 8,
        "ZORA_MASK"@.len() == 9,
{
    reveal_strlit("ADULTWALLET");
    reveal_strlit("ADULT_WALLET");
    reveal_strlit("ALLNIGHTMASK");
    reveal_strlit("ALL_NIGHT_MASK");
    reveal_strlit("BLASTMASK");
    reveal_strlit("BLAST_MASK");
    reveal_strlit("BOMB");
    reveal_strlit("BOMBCHU");
    reveal_strlit("BOMBCHUS");
    reveal_strlit("BOMBS");
    reveal_strlit("BOMB_BAG_20");
    reveal_strlit("BOMB_BAG_30");
    reveal_strlit("BOMB_BAG_40");
    reveal_strlit("BOSSREMAINS");
    reveal_strlit("BOSS_REMAINS");
    reveal_strlit("BOTTLE");
    reveal_strlit("BREMENMASK");
    reveal_strlit("BREMEN_MASK");
    reveal_strlit("BUNNYHOOD");
    reveal_strlit("BUNNY_HOOD");
    reveal_strlit("CAPTAINHAT");
    reveal_strlit("CAPTAIN_HAT");
    reveal_strlit("CIRCUSLEADERMASK");
    reveal_strlit("CIRCUS_LEADER_MASK");
    reveal_strlit("COUPLESMASK");
    reveal_strlit("COUPLES_MASK");
    reveal_strlit("DEKUMASK");
    reveal_strlit("DEKUNUT");
    reveal_strlit("DEKUSTICK");
    reveal_strlit("DEKU_MASK");
    reveal_strlit("DEKU_NUT");
    reveal_strlit("DEKU_STICK");
    reveal_strlit("DONGEROMASK");
    reveal_strlit("DON_GERO_MASK");
    reveal_strlit("DOUBLEDEFENSE");
    reveal_strlit("DOUBLEMAGIC");
    reveal_strlit("DOUBLE_DEFENSE");
    reveal_strlit("DOUBLE_MAGIC");
    reveal_strlit("ELEGYOFEMPTINESS");
    reveal_strlit("ELEGY_OF_EMPTINESS");
    reveal_strlit("EPONASSONG");
    reveal_strlit("EPONAS_SONG");
    reveal_strlit("FIERCEDEITYMASK");
    reveal_strlit("FIERCE_DEITY_MASK");
    reveal_strlit("FIREARROW");
    reveal_strlit("FIRE_ARROW");
    reveal_strlit("GAROMASK");
    reveal_strlit("GARO_MASK");
    reveal_strlit("GIANTMASK");
    reveal_strlit("GIANTSWALLET");
    reveal_strlit("GIANTS_WALLET");
    reveal_strlit("GIANTWALLET");
    reveal_strlit("GIANT_MASK");
    reveal_strlit("GIANT_WALLET");
    reveal_strlit("GIBDOMASK");
    reveal_strlit("GIBDO_MASK");
    reveal_strlit("GILDEDSWORD");
    reveal_strlit("GILDED_SWORD");
    reveal_strlit("GOHTREMAINS");
    reveal_strlit("GOHT_REMAINS");
    reveal_strlit("GORONLULLABY");
    reveal_strlit("GORONMASK");
    reveal_strlit("GORON_LULLABY");
    reveal_strlit("GORON_MASK");
    reveal_strlit("GREATFAIRYMASK");
    reveal_strlit("GREATFAIRYSWORD");
    reveal_strlit("GREAT_FAIRY_MASK");
    reveal_strlit("GREAT_FAIRY_SWORD");
    reveal_strlit("GYORGREMAINS");
    reveal_strlit("GYORG_REMAINS");
    reveal_strlit("HEROSBOW");
    reveal_strlit("HEROSHIELD");
    reveal_strlit("HEROS_BOW");
    reveal_strlit("HERO_SHIELD");
    reveal_strlit("HOOKSHOT");
    reveal_strlit("ICEARROW");
    reveal_strlit("ICE_ARROW");
    reveal_strlit("KAFEIMASK");
    reveal_strlit("KAFEI_MASK");
    reveal_strlit("KAMAROMASK");
    reveal_strlit("KAMARO_MASK");
    reveal_strlit("KEATONMASK");
    reveal_strlit("KEATON_MASK");
    reveal_strlit("KOKIRISWORD");
    reveal_strlit("KOKIRI_SWORD");
    reveal_strlit("LENSOFTRUTH");
    reveal_strlit("LENS_OF_TRUTH");
    reveal_strlit("LIGHTARROW");
    reveal_strlit("LIGHT_ARROW");
    reveal_strlit("MAGIC");
    reveal_strlit("MAGICBEAN");
    reveal_strlit("MAGICMETER");
    reveal_strlit("MAGIC_BEAN");
    reveal_strlit("MAGIC_METER");
    reveal_strlit("MASKOFSCENTS");
    reveal_strlit("MASKOFTRUTH");
    reveal_strlit("MASK_OF_SCENTS");
    reveal_strlit("MASK_OF_TRUTH");
    reveal_strlit("MIRRORSHIELD");
    reveal_strlit("MIRROR_SHIELD");
    reveal_strlit("NEWWAVEBOSSANOVA");
    reveal_strlit("NEW_WAVE_BOSSA_NOVA");
    reveal_strlit("OATHTOORDER");
    reveal_strlit("OATH_TO_ORDER");
    reveal_strlit("OCARINAOFTTIME");
    reveal_strlit("OCARINA_OF_TIME");
    reveal_strlit("ODOLWAREMAINS");
    reveal_strlit("ODOLWA_REMAINS");
    reveal_strlit("PICTOGRAPHBOX");
    reveal_strlit("PICTOGRAPH_BOX");
    reveal_strlit("POSTMANHAT");
    reveal_strlit("POSTMAN_HAT");
    reveal_strlit("POWDERKEG");
    reveal_strlit("POWDER_KEG");
    reveal_strlit("QUIVER_30");
    reveal_strlit("QUIVER_40");
    reveal_strlit("QUIVER_50");
    reveal_strlit("RAZORSWORD");
    reveal_strlit("RAZOR_SWORD");
    reveal_strlit("ROMANIMASK");
    reveal_strlit("ROMANI_MASK");
    reveal_strlit("SMALLKEYGREATBAYTEMPLE");
    reveal_strlit("SMALLKEYSNOWHEADTEMPLE");
    reveal_strlit("SMALLKEYSTONETOWERTEMPLE");
    reveal_strlit("SMALLKEYWOODFALLTEMPLE");
    reveal_strlit("SMALL_KEY_GREAT_BAY_TEMPLE");
    reveal_strlit("SMALL_KEY_SNOWHEAD_TEMPLE");
    reveal_strlit("SMALL_KEY_STONE_TOWER_TEMPLE");
    reveal_strlit("SMALL_KEY_WOODFALL_TEMPLE");
    reveal_strlit("SONATAOFAWAKENING");
    reveal_strlit("SONATA_OF_AWAKENING");
    reveal_strlit("SONGOFHEALING");
    reveal_strlit("SONGOFSOARING");
    reveal_strlit("SONGOFSTORMS");
    reveal_strlit("SONGOFTIME");
    reveal_strlit("SONG_OF_HEALING");
    reveal_strlit("SONG_OF_SOARING");
    reveal_strlit("SONG_OF_STORMS");
    reveal_strlit("SONG_OF_TIME");
    reveal_strlit("STONEMASK");
    reveal_strlit("STONE_MASK");
    reveal_strlit("STRAYFAIRYCLOCKTOWN");
    reveal_strlit("STRAYFAIRYGREATBAY");
    reveal_strlit("STRAYFAIRYSNOWHEAD");
    reveal_strlit("STRAYFAIRYSTONETOWER");
    reveal_strlit("STRAYFAIRYWOODFALL");
    reveal_strlit("STRAY_FAIRY_CLOCK_TOWN");
    reveal_strlit("STRAY_FAIRY_GREAT_BAY");
    reveal_strlit("STRAY_FAIRY_SNOWHEAD");
    reveal_strlit("STRAY_FAIRY_STONE_TOWER");
    reveal_strlit("STRAY_FAIRY_WOODFALL");
    reveal_strlit("TWINMOLDREMAINS");
    reveal_strlit("TWINMOLD_REMAINS");
    reveal_strlit("ZORAMASK");
    reveal_strlit("ZORA_MASK");
}

/// When every entry's count is `f` of its identifier, the map of the entries
/// holds exactly the identifiers of entries with a positive `f`, each with
/// its `f`.
proof fn lemma_map_of_counts(entries: Seq<(&'static str, u32)>, f: spec_fn(Seq<char>) -> nat, k: Seq<char>)
    requires
        forall|j: int| 0 <= j < entries.len() ==> (#[trigger] entries[j]).1 as nat == f(entries[j].0@),
    ensures
        positive_entries_map(entries).contains_key(k) == ((exists|j: int|
            0 <= j < entries.len() && (#[trigger] entries[j]).0@ == k) && f(k) > 0),
        positive_entries_map(entries).contains_key(k) ==> positive_entries_map(entries)[k] == f(k),
    decreases entries.len(),
{
    if entries.len() > 0 {
        let rest = entries.drop_last();
        assert forall|j: int| 0 <= j < rest.len() implies (#[trigger] rest[j]).1 as nat == f(rest[j].0@) by {
            assert(rest[j] == entries[j]);
        }
        lemma_map_of_counts(rest, f, k);
        let last = entries[entries.len() - 1];
        assert(entries.last() == last);
        if exists|j: int| 0 <= j < rest.len() && (#[trigger] rest[j]).0@ == k {
            let j = choose|j: int| 0 <= j < rest.len() && (#[trigger] rest[j]).0@ == k;
            assert(entries[j] == rest[j]);
        }
        if exists|j: int| 0 <= j < entries.len() && (#[trigger] entries[j]).0@ == k {
            let j = choose|j: int| 0 <= j < entries.len() && (#[trigger] entries[j]).0@ == k;
            if j < rest.len() {
                assert(rest[j] == entries[j]);
            }
        }
    }
}

/// The inventory entry of `OCARINA_OF_TIME` has its item count.
#[verifier::rlimit(40)]
proof fn lemma_entry_0(s: MmSave)
    ensures
        spec_inventory_entries(s)[0].1 as nat == spec_named_item_count(s, spec_inventory_entries(s)[0].0@),
{
    lemma_name_lengths();
    lemma_filled_slots_bound(s.inventory.bottles@);
    assert(spec_inventory_entries(s)[0].0@ == "OCARINA_OF_TIME"@);
}

/// The inventory entry of `HEROS_BOW` has its item count.
#[verifier::rlimit(40)]
proof fn lemma_entry_1(s: MmSave)
    ensures
        spec_inventory_entries(s)[1].1 as nat == spec_named_item_count(s, spec_inventory_entries(s)[1].0@),
{
    lemma_name_lengths();
    lemma_filled_slots_bound(s.inventory.bottles@);
    reveal_strlit("HEROS_BOW");
    reveal_strlit("QUIVER_30");
    assert("HEROS_BOW"@[0] != "QUIVER_30"@[0]);
    reveal_strlit("QUIVER_40");
    assert("HEROS_BOW"@[0] != "QUIVER_40"@[0]);
    reveal_strlit("QUIVER_50");
    assert("HEROS_BOW"@[0] != "QUIVER_50"@[0]);
    assert(spec_inventory_entries(s)[1].0@ == "HEROS_BOW"@);
}

/// The inventory entry of `FIRE_ARROW` has its item count.
#[verifier::rlimit(40)]
proof fn lemma_entry_2(s: MmSave)
    ensures
        spec_inventory_entries(s)[2].1 as nat == spec_named_item_count(s, spec_inventory_entries(s)[2].0@),
{
    lemma_name_lengths();
    lemma_filled_slots_bound(s.inventory.bottles@);
    assert(spec_inventory_entries(s)[2].0@ == "FIRE_ARROW"@);
}

/// The inventory entry of `ICE_ARROW` has its item count.
#[verifier::rlimit(40)]
proof fn lemma_entry_3(s: MmSave)
    ensures
        spec_inventory_entries(s)[3].1 as nat == spec_named_item_count(s, spec_inventory_entries(s)[3].0@),
{
    lemma_name_lengths();
    lemma_filled_slots_bound(s.inventory.bottles@);
    reveal_strlit("ICE_ARROW");
    reveal_strlit("FIREARROW");
    assert("ICE_ARROW"@[0] != "FIREARROW"@[0]);
    reveal_strlit("HEROS_BOW");
    assert("ICE_ARROW"@[0] != "HEROS_BOW"@[0]);
    reveal_strlit("QUIVER_30");
    assert("ICE_ARROW"@[0] != "QUIVER_30"@[0]);
    reveal_strlit("QUIVER_40");
    assert("ICE_ARROW"@[0] != "QUIVER_40"@[0]);
    reveal_strlit("QUIVER_50");
    assert("ICE_ARROW"@[0] != "QUIVER_50"@[0]);
    assert(spec_inventory_entries(s)[3].0@ == "ICE_ARROW"@);
}

/// The inventory entry of `LIGHT_ARROW` has its item count.
#[verifier::rlimit(40)]
proof fn lemma_entry_4(s: MmSave)
    ensures
        spec_inventory_entries(s)[4].1 as nat == spec_named_item_count(s, spec_inventory_entries(s)[4].0@),
{
    lemma_name_lengths();
    lemma_filled_slots_bound(s.inventory.bottles@);
    reveal_strlit("LIGHT_ARROW");
    reveal_strlit("BOMB_BAG_20");
    assert("LIGHT_ARROW"@[0] != "BOMB_BAG_20"@[0]);
    reveal_strlit("BOMB_BAG_30");
    assert("LIGHT_ARROW"@[0] != "BOMB_BAG_30"@[0]);
    reveal_strlit("BOMB_BAG_40");
    assert("LIGHT_ARROW"@[0] != "BOMB_BAG_40"@[0]);
    reveal_strlit("BOSSREMAINS");
    assert("LIGHT_ARROW"@[0] != "BOSSREMAINS"@[0]);
    assert(spec_inventory_entries(s)[4].0@ == "LIGHT_ARROW"@);
}

/// The inventory entry of `HOOKSHOT` has its item count.
#[verifier::rlimit(40)]
proof fn lemma_entry_5(s: MmSave)
    ensures
        spec_inventory_entries(s)[5].1 as nat == spec_named_item_count(s, spec_inventory_entries(s)[5].0@),
{
    lemma_name_lengths();
    lemma_filled_slots_bound(s.inventory.bottles@);
    reveal_strlit("HOOKSHOT");
    reveal_strlit("HEROSBOW");
    assert("HOOKSHOT"@[1] != "HEROSBOW"@[1]);
    reveal_strlit("ICEARROW");
    assert("HOOKSHOT"@[0] != "ICEARROW"@[0]);
    assert(spec_inventory_entries(s)[5].0@ == "HOOKSHOT"@);
}

/// The inventory entry of `BOMB` has its item count.
#[verifier::rlimit(40)]
proof fn lemma_entry_6(s: MmSave)
    ensures
        spec_inventory_entries(s)[6].1 as nat == spec_named_item_count(s, spec_inventory_entries(s)[6].0@),
{
    lemma_name_lengths();
    lemma_filled_slots_bound(s.inventory.bottles@);
    assert(spec_inventory_entries(s)[6].0@ == "BOMB"@);
}

/// The inventory entry of `BOMBCHU` has its item count.
#[verifier::rlimit(40)]
proof fn lemma_entry_7(s: MmSave)
    ensures
        spec_inventory_entries(s)[7].1 as nat == spec_named_item_count(s, spec_inventory_entries(s)[7].0@),
{
    lemma_name_lengths();
    lemma_filled_slots_bound(s.inventory.bottles@);
    assert(spec_inventory_entries(s)[7].0@ == "BOMBCHU"@);
}

/// The inventory entry of `POWDER_KEG` has its item count.
#[verifier::rlimit(40)]
proof fn lemma_entry_8(s: MmSave)
    ensures
        spec_inventory_entries(s)[8].1 as nat == spec_named_item_count(s, spec_inventory_entries(s)[8].0@),
{
    lemma_name_lengths();
    lemma_filled_slots_bound(s.inventory.bottles@);
    reveal_strlit("POWDER_KEG");
    reveal_strlit("FIRE_ARROW");
    assert("POWDER_KEG"@[0] != "FIRE_ARROW"@[0]);
    reveal_strlit("LIGHTARROW");
    assert("POWDER_KEG"@[0] != "LIGHTARROW"@[0]);
    assert(spec_inventory_entries(s)[8].0@ == "POWDER_KEG"@);
}

/// The inventory entry of `LENS_OF_TRUTH` has its item count.
#[verifier::rlimit(40)]
proof fn lemma_entry_9(s: MmSave)
    ensures
        spec_inventory_entries(s)[9].1 as nat == spec_named_item_count(s, spec_inventory_entries(s)[9].0@),
{
    lemma_name_lengths();
    lemma_filled_slots_bound(s.inventory.bottles@);
    assert(spec_inventory_entries(s)[9].0@ == "LENS_OF_TRUTH"@);
}

/// The inventory entry of `PICTOGRAPH_BOX` has its item count.
#[verifier::rlimit(40)]
proof fn lemma_entry_10(s: MmSave)
    ensures
        spec_inventory_entries(s)[10].1 as nat == spec_named_item_count(s, spec_inventory_entries(s)[10].0@),
{
    lemma_name_lengths();
    lemma_filled_slots_bound(s.inventory.bottles@);
    reveal_strlit("PICTOGRAPH_BOX");
    reveal_strlit("OCARINAOFTTIME");
    assert("PICTOGRAPH_BOX"@[0] != "OCARINAOFTTIME"@[0]);
    assert(spec_inventory_entries(s)[10].0@ == "PICTOGRAPH_BOX"@);
}

/// The inventory entry of `GREAT_FAIRY_SWORD` has its item count.
#[verifier::rlimit(40)]
proof fn lemma_entry_11(s: MmSave)
    ensures
        spec_inventory_entries(s)[11].1 as nat == spec_named_item_count(s, spec_inventory_entries(s)[11].0@),
{
    lemma_name_lengths();
    lemma_filled_slots_bound(s.inventory.bottles@);
    assert(spec_inventory_entries(s)[11].0@ == "GREAT_FAIRY_SWORD"@);
}

/// The inventory entry of `MAGIC_BEAN` has its item count.
#[verifier::rlimit(40)]
proof fn lemma_entry_12(s: MmSave)
    ensures
        spec_inventory_entries(s)[12].1 as nat == spec_named_item_count(s, spec_inventory_entries(s)[12].0@),
{
    lemma_name_lengths();
    lemma_filled_slots_bound(s.inventory.bottles@);
    reveal_strlit("MAGIC_BEAN");
    reveal_strlit("FIRE_ARROW");
    assert("MAGIC_BEAN"@[0] != "FIRE_ARROW"@[0]);
    reveal_strlit("LIGHTARROW");
    assert("MAGIC_BEAN"@[0] != "LIGHTARROW"@[0]);
    reveal_strlit("POWDER_KEG");
    assert("MAGIC_BEAN"@[0] != "POWDER_KEG"@[0]);
    assert(spec_inventory_entries(s)[12].0@ == "MAGIC_BEAN"@);
}

/// The inventory entry of `DEKU_STICK` has its item count.
#[verifier::rlimit(40)]
proof fn lemma_entry_13(s: MmSave)
    ensures
        spec_inventory_entries(s)[13].1 as nat == spec_named_item_count(s, spec_inventory_entries(s)[13].0@),
{
    lemma_name_lengths();
    lemma_filled_slots_bound(s.inventory.bottles@);
    reveal_strlit("DEKU_STICK");
    reveal_strlit("FIRE_ARROW");
    assert("DEKU_STICK"@[0] != "FIRE_ARROW"@[0]);
    reveal_strlit("LIGHTARROW");
    assert("DEKU_STICK"@[0] != "LIGHTARROW"@[0]);
    reveal_strlit("MAGIC_BEAN");
    assert("DEKU_STICK"@[0] != "MAGIC_BEAN"@[0]);
    reveal_strlit("POWDER_KEG");
    assert("DEKU_STICK"@[0] != "POWDER_KEG"@[0]);
    assert(spec_inventory_entries(s)[13].0@ == "DEKU_STICK"@);
}

/// The inventory entry of `DEKU_NUT` has its item count.
#[verifier::rlimit(40)]
proof fn lemma_entry_14(s: MmSave)
    ensures
        spec_inventory_entries(s)[14].1 as nat == spec_named_item_count(s, spec_inventory_entries(s)[14].0@),
{
    lemma_name_lengths();
    lemma_filled_slots_bound(s.inventory.bottles@);
    reveal_strlit("DEKU_NUT");
    reveal_strlit("BOMBCHUS");
    assert("DEKU_NUT"@[0] != "BOMBCHUS"@[0]);
    reveal_strlit("HEROSBOW");
    assert("DEKU_NUT"@[0] != "HEROSBOW"@[0]);
    reveal_strlit("HOOKSHOT");
    assert("DEKU_NUT"@[0] != "HOOKSHOT"@[0]);
    reveal_strlit("ICEARROW");
    assert("DEKU_NUT"@[0] != "ICEARROW"@[0]);
    assert(spec_inventory_entries(s)[14].0@ == "DEKU_NUT"@);
}

/// The inventory entry of `DEKU_MASK` has its item count.
#[verifier::rlimit(40)]
proof fn lemma_entry_15(s: MmSave)
    ensures
        spec_inventory_entries(s)[15].1 as nat == spec_named_item_count(s, spec_inventory_entries(s)[15].0@),
{
    lemma_name_lengths();
    lemma_filled_slots_bound(s.inventory.bottles@);
    reveal_strlit("DEKU_MASK");
    reveal_strlit("DEKUSTICK");
    assert("DEKU_MASK"@[4] != "DEKUSTICK"@[4]);
    reveal_strlit("FIREARROW");
    assert("DEKU_MASK"@[0] != "FIREARROW"@[0]);
    reveal_strlit("HEROS_BOW");
    assert("DEKU_MASK"@[0] != "HEROS_BOW"@[0]);
    reveal_strlit("ICE_ARROW");
    assert("DEKU_MASK"@[0] != "ICE_ARROW"@[0]);
    reveal_strlit("MAGICBEAN");
    assert("DEKU_MASK"@[0] != "MAGICBEAN"@[0]);
    reveal_strlit("POWDERKEG");
    assert("DEKU_MASK"@[0] != "POWDERKEG"@[0]);
    reveal_strlit("QUIVER_30");
    assert("DEKU_MASK"@[0] != "QUIVER_30"@[0]);
    reveal_strlit("QUIVER_40");
    assert("DEKU_MASK"@[0] != "QUIVER_40"@[0]);
    reveal_strlit("QUIVER_50");
    assert("DEKU_MASK"@[0] != "QUIVER_50"@[0]);
    assert(spec_inventory_entries(s)[15].0@ == "DEKU_MASK"@);
}

/// The inventory entry of `GORON_MASK` has its item count.
#[verifier::rlimit(40)]
proof fn lemma_entry_16(s: MmSave)
    ensures
        spec_inventory_entries(s)[16].1 as nat == spec_named_item_count(s, spec_inventory_entries(s)[16].0@),
{
    lemma_name_lengths();
    lemma_filled_slots_bound(s.inventory.bottles@);
    reveal_strlit("GORON_MASK");
    reveal_strlit("DEKU_STICK");
    assert("GORON_MASK"@[0] != "DEKU_STICK"@[0]);
    reveal_strlit("FIRE_ARROW");
    assert("GORON_MASK"@[0] != "FIRE_ARROW"@[0]);
    reveal_strlit("LIGHTARROW");
    assert("GORON_MASK"@[0] != "LIGHTARROW"@[0]);
    reveal_strlit("MAGIC_BEAN");
    assert("GORON_MASK"@[0] != "MAGIC_BEAN"@[0]);
    reveal_strlit("POWDER_KEG");
    assert("GORON_MASK"@[0] != "POWDER_KEG"@[0]);
    assert(spec_inventory_entries(s)[16].0@ == "GORON_MASK"@);
}

/// The inventory entry of `ZORA_MASK` has its item count.
#[verifier::rlimit(40)]
proof fn lemma_entry_17(s: MmSave)
    ensures
        spec_inventory_entries(s)[17].1 as nat == spec_named_item_count(s, spec_inventory_entries(s)[17].0@),
{
    lemma_name_lengths();
    lemma_filled_slots_bound(s.inventory.bottles@);
    reveal_strlit("ZORA_MASK");
    reveal_strlit("DEKUSTICK");
    assert("ZORA_MASK"@[0] != "DEKUSTICK"@[0]);
    reveal_strlit("DEKU_MASK");
    assert("ZORA_MASK"@[0] != "DEKU_MASK"@[0]);
    reveal_strlit("FIREARROW");
    assert("ZORA_MASK"@[0] != "FIREARROW"@[0]);
    reveal_strlit("GORONMASK");
    assert("ZORA_MASK"@[0] != "GORONMASK"@[0]);
    reveal_strlit("HEROS_BOW");
    assert("ZORA_MASK"@[0] != "HEROS_BOW"@[0]);
    reveal_strlit("ICE_ARROW");
    assert("ZORA_MASK"@[0] != "ICE_ARROW"@[0]);
    reveal_strlit("MAGICBEAN");
    assert("ZORA_MASK"@[0] != "MAGICBEAN"@[0]);
    reveal_strlit("POWDERKEG");
    assert("ZORA_MASK"@[0] != "POWDERKEG"@[0]);
    reveal_strlit("QUIVER_30");
    assert("ZORA_MASK"@[0] != "QUIVER_30"@[0]);
    reveal_strlit("QUIVER_40");
    assert("ZORA_MASK"@[0] != "QUIVER_40"@[0]);
    reveal_strlit("QUIVER_50");
    assert("ZORA_MASK"@[0] != "QUIVER_50"@[0]);
    assert(spec_inventory_entries(s)[17].0@ == "ZORA_MASK"@);
}

/// The inventory entry of `FIERCE_DEITY_MASK` has its item count.
#[verifier::rlimit(40)]
proof fn lemma_entry_18(s: MmSave)
    ensures
        spec_inventory_entries(s)[18].1 as nat == spec_named_item_count(s, spec_inventory_entries(s)[18].0@),
{
    lemma_name_lengths();
    lemma_filled_slots_bound(s.inventory.bottles@);
    reveal_strlit("FIERCE_DEITY_MASK");
    reveal_strlit("GREAT_FAIRY_SWORD");
    assert("FIERCE_DEITY_MASK"@[0] != "GREAT_FAIRY_SWORD"@[0]);
    assert(spec_inventory_entries(s)[18].0@ == "FIERCE_DEITY_MASK"@);
}

/// The inventory entry of `POSTMAN_HAT` has its item count.
#[verifier::rlimit(40)]
proof fn lemma_entry_19(s: MmSave)
    ensures
        spec_inventory_entries(s)[19].1 as nat == spec_named_item_count(s, spec_inventory_entries(s)[19].0@),
{
    lemma_name_lengths();
    lemma_filled_slots_bound(s.inventory.bottles@);
    reveal_strlit("POSTMAN_HAT");
    reveal_strlit("BOMB_BAG_20");
    assert("POSTMAN_HAT"@[0] != "BOMB_BAG_20"@[0]);
    reveal_strlit("BOMB_BAG_30");
    assert("POSTMAN_HAT"@[0] != "BOMB_BAG_30"@[0]);
    reveal_strlit("BOMB_BAG_40");
    assert("POSTMAN_HAT"@[0] != "BOMB_BAG_40"@[0]);
    reveal_strlit("BOSSREMAINS");
    assert("POSTMAN_HAT"@[0] != "BOSSREMAINS"@[0]);
    reveal_strlit("LENSOFTRUTH");
    assert("POSTMAN_HAT"@[0] != "LENSOFTRUTH"@[0]);
    reveal_strlit("LIGHT_ARROW");
    assert("POSTMAN_HAT"@[0] != "LIGHT_ARROW"@[0]);
    assert(spec_inventory_entries(s)[19].0@ == "POSTMAN_HAT"@);
}

/// The inventory entry of `ALL_NIGHT_MASK` has its item count.
#[verifier::rlimit(40)]
proof fn lemma_entry_20(s: MmSave)
    ensures
        spec_inventory_entries(s)[20].1 as nat == spec_named_item_count(s, spec_inventory_entries(s)[20].0@),
{
    lemma_name_lengths();
    lemma_filled_slots_bound(s.inventory.bottles@);
    reveal_strlit("ALL_NIGHT_MASK");
    reveal_strlit("OCARINAOFTTIME");
    assert("ALL_NIGHT_MASK"@[0] != "OCARINAOFTTIME"@[0]);
    reveal_strlit("PICTOGRAPH_BOX");
    assert("ALL_NIGHT_MASK"@[0] != "PICTOGRAPH_BOX"@[0]);
    assert(spec_inventory_entries(s)[20].0@ == "ALL_NIGHT_MASK"@);
}

/// The inventory entry of `BLAST_MASK` has its item count.
#[verifier::rlimit(40)]
proof fn lemma_entry_21(s: MmSave)
    ensures
        spec_inventory_entries(s)[21].1 as nat == spec_named_item_count(s, spec_inventory_entries(s)[21].0@),
{
    lemma_name_lengths();
    lemma_filled_slots_bound(s.inventory.bottles@);
    reveal_strlit("BLAST_MASK");
    reveal_strlit("DEKU_STICK");
    assert("BLAST_MASK"@[0] != "DEKU_STICK"@[0]);
    reveal_strlit("FIRE_ARROW");
    assert("BLAST_MASK"@[0] != "FIRE_ARROW"@[0]);
    reveal_strlit("GORON_MASK");
    assert("BLAST_MASK"@[0] != "GORON_MASK"@[0]);
    reveal_strlit("LIGHTARROW");
    assert("BLAST_MASK"@[0] != "LIGHTARROW"@[0]);
    reveal_strlit("MAGIC_BEAN");
    assert("BLAST_MASK"@[0] != "MAGIC_BEAN"@[0]);
    reveal_strlit("POSTMANHAT");
    assert("BLAST_MASK"@[0] != "POSTMANHAT"@[0]);
    reveal_strlit("POWDER_KEG");
    assert("BLAST_MASK"@[0] != "POWDER_KEG"@[0]);
    assert(spec_inventory_entries(s)[21].0@ == "BLAST_MASK"@);
}

/// The inventory entry of `STONE_MASK` has its item count.
#[verifier::rlimit(40)]
proof fn lemma_entry_22(s: MmSave)
    ensures
        spec_inventory_entries(s)[22].1 as nat == spec_named_item_count(s, spec_inventory_entries(s)[22].0@),
{
    lemma_name_lengths();
    lemma_filled_slots_bound(s.inventory.bottles@);
    reveal_strlit("STONE_MASK");
    reveal_strlit("BLAST_MASK");
    assert("STONE_MASK"@[0] != "BLAST_MASK"@[0]);
    reveal_strlit("DEKU_STICK");
    assert("STONE_MASK"@[0] != "DEKU_STICK"@[0]);
    reveal_strlit("FIRE_ARROW");
    assert("STONE_MASK"@[0] != "FIRE_ARROW"@[0]);
    reveal_strlit("GORON_MASK");
    assert("STONE_MASK"@[0] != "GORON_MASK"@[0]);
    reveal_strlit("LIGHTARROW");
    assert("STONE_MASK"@[0] != "LIGHTARROW"@[0]);
    reveal_strlit("MAGIC_BEAN");
    assert("STONE_MASK"@[0] != "MAGIC_BEAN"@[0]);
    reveal_strlit("POSTMANHAT");
    assert("STONE_MASK"@[0] != "POSTMANHAT"@[0]);
    reveal_strlit("POWDER_KEG");
    assert("STONE_MASK"@[0] != "POWDER_KEG"@[0]);
    assert(spec_inventory_entries(s)[22].0@ == "STONE_MASK"@);
}

/// The inventory entry of `GREAT_FAIRY_MASK` has its item count.
#[verifier::rlimit(40)]
proof fn lemma_entry_23(s: MmSave)
    ensures
        spec_inventory_entries(s)[23].1 as nat == spec_named_item_count(s, spec_inventory_entries(s)[23].0@),
{
    lemma_name_lengths();
    lemma_filled_slots_bound(s.inventory.bottles@);
    assert(spec_inventory_entries(s)[23].0@ == "GREAT_FAIRY_MASK"@);
}

/// The inventory entry of `KEATON_MASK` has its item count.
#[verifier::rlimit(40)]
proof fn lemma_entry_24(s: MmSave)
    ensures
        spec_inventory_entries(s)[24].1 as nat == spec_named_item_count(s, spec_inventory_entries(s)[24].0@),
{
    lemma_name_lengths();
    lemma_filled_slots_bound(s.inventory.bottles@);
    reveal_strlit("KEATON_MASK");
    reveal_strlit("BOMB_BAG_20");
    assert("KEATON_MASK"@[0] != "BOMB_BAG_20"@[0]);
    reveal_strlit("BOMB_BAG_30");
    assert("KEATON_MASK"@[0] != "BOMB_BAG_30"@[0]);
    reveal_strlit("BOMB_BAG_40");
    assert("KEATON_MASK"@[0] != "BOMB_BAG_40"@[0]);
    reveal_strlit("BOSSREMAINS");
    assert("KEATON_MASK"@[0] != "BOSSREMAINS"@[0]);
    reveal_strlit("LENSOFTRUTH");
    assert("KEATON_MASK"@[0] != "LENSOFTRUTH"@[0]);
    reveal_strlit("LIGHT_ARROW");
    assert("KEATON_MASK"@[0] != "LIGHT_ARROW"@[0]);
    reveal_strlit("POSTMAN_HAT");
    assert("KEATON_MASK"@[0] != "POSTMAN_HAT"@[0]);
    assert(spec_inventory_entries(s)[24].0@ == "KEATON_MASK"@);
}

/// The inventory entry of `BREMEN_MASK` has its item count.
#[verifier::rlimit(40)]
proof fn lemma_entry_25(s: MmSave)
    ensures
        spec_inventory_entries(s)[25].1 as nat == spec_named_item_count(s, spec_inventory_entries(s)[25].0@),
{
    lemma_name_lengths();
    lemma_filled_slots_bound(s.inventory.bottles@);
    reveal_strlit("BREMEN_MASK");
    reveal_strlit("BOMB_BAG_20");
    assert("BREMEN_MASK"@[1] != "BOMB_BAG_20"@[1]);
    reveal_strlit("BOMB_BAG_30");
    assert("BREMEN_MASK"@[1] != "BOMB_BAG_30"@[1]);
    reveal_strlit("BOMB_BAG_40");
    assert("BREMEN_MASK"@[1] != "BOMB_BAG_40"@[1]);
    reveal_strlit("BOSSREMAINS");
    assert("BREMEN_MASK"@[1] != "BOSSREMAINS"@[1]);
    reveal_strlit("KEATON_MASK");
    assert("BREMEN_MASK"@[0] != "KEATON_MASK"@[0]);
    reveal_strlit("LENSOFTRUTH");
    assert("BREMEN_MASK"@[0] != "LENSOFTRUTH"@[0]);
    reveal_strlit("LIGHT_ARROW");
    assert("BREMEN_MASK"@[0] != "LIGHT_ARROW"@[0]);
    reveal_strlit("POSTMAN_HAT");
    assert("BREMEN_MASK"@[0] != "POSTMAN_HAT"@[0]);
    assert(spec_inventory_entries(s)[25].0@ == "BREMEN_MASK"@);
}

/// The inventory entry of `BUNNY_HOOD` has its item count.
#[verifier::rlimit(40)]
proof fn lemma_entry_26(s: MmSave)
    ensures
        spec_inventory_entries(s)[26].1 as nat == spec_named_item_count(s, spec_inventory_entries(s)[26].0@),
{
    lemma_name_lengths();
    lemma_filled_slots_bound(s.inventory.bottles@);
    reveal_strlit("BUNNY_HOOD");
    reveal_strlit("BLAST_MASK");
    assert("BUNNY_HOOD"@[1] != "BLAST_MASK"@[1]);
    reveal_strlit("BREMENMASK");
    assert("BUNNY_HOOD"@[1] != "BREMENMASK"@[1]);
    reveal_strlit("DEKU_STICK");
    assert("BUNNY_HOOD"@[0] != "DEKU_STICK"@[0]);
    reveal_strlit("FIRE_ARROW");
    assert("BUNNY_HOOD"@[0] != "FIRE_ARROW"@[0]);
    reveal_strlit("GORON_MASK");
    assert("BUNNY_HOOD"@[0] != "GORON_MASK"@[0]);
    reveal_strlit("KEATONMASK");
    assert("BUNNY_HOOD"@[0] != "KEATONMASK"@[0]);
    reveal_strlit("LIGHTARROW");
    assert("BUNNY_HOOD"@[0] != "LIGHTARROW"@[0]);
    reveal_strlit("MAGIC_BEAN");
    assert("BUNNY_HOOD"@[0] != "MAGIC_BEAN"@[0]);
    reveal_strlit("POSTMANHAT");
    assert("BUNNY_HOOD"@[0] != "POSTMANHAT"@[0]);
    reveal_strlit("POWDER_KEG");
    assert("BUNNY_HOOD"@[0] != "POWDER_KEG"@[0]);
    reveal_strlit("STONE_MASK");
    assert("BUNNY_HOOD"@[0] != "STONE_MASK"@[0]);
    assert(spec_inventory_entries(s)[26].0@ == "BUNNY_HOOD"@);
}

/// The inventory entry of `DON_GERO_MASK` has its item count.
#[verifier::rlimit(40)]
proof fn lemma_entry_27(s: MmSave)
    ensures
        spec_inventory_entries(s)[27].1 as nat == spec_named_item_count(s, spec_inventory_entries(s)[27].0@),
{
    lemma_name_lengths();
    lemma_filled_slots_bound(s.inventory.bottles@);
    reveal_strlit("DON_GERO_MASK");
    reveal_strlit("LENS_OF_TRUTH");
    assert("DON_GERO_MASK"@[0] != "LENS_OF_TRUTH"@[0]);
    reveal_strlit("PICTOGRAPHBOX");
    assert("DON_GERO_MASK"@[0] != "PICTOGRAPHBOX"@[0]);
    assert(spec_inventory_entries(s)[27].0@ == "DON_GERO_MASK"@);
}

/// The inventory entry of `MASK_OF_SCENTS` has its item count.
#[verifier::rlimit(40)]
proof fn lemma_entry_28(s: MmSave)
    ensures
        spec_inventory_entries(s)[28].1 as nat == spec_named_item_count(s, spec_inventory_entries(s)[28].0@),
{
    lemma_name_lengths();
    lemma_filled_slots_bound(s.inventory.bottles@);
    reveal_strlit("MASK_OF_SCENTS");
    reveal_strlit("ALL_NIGHT_MASK");
    assert("MASK_OF_SCENTS"@[0] != "ALL_NIGHT_MASK"@[0]);
    reveal_strlit("GREATFAIRYMASK");
    assert("MASK_OF_SCENTS"@[0] != "GREATFAIRYMASK"@[0]);
    reveal_strlit("OCARINAOFTTIME");
    assert("MASK_OF_SCENTS"@[0] != "OCARINAOFTTIME"@[0]);
    reveal_strlit("PICTOGRAPH_BOX");
    assert("MASK_OF_SCENTS"@[0] != "PICTOGRAPH_BOX"@[0]);
    assert(spec_inventory_entries(s)[28].0@ == "MASK_OF_SCENTS"@);
}

/// The inventory entry of `ROMANI_MASK` has its item count.
#[verifier::rlimit(40)]
proof fn lemma_entry_29(s: MmSave)
    ensures
        spec_inventory_entries(s)[29].1 as nat == spec_named_item_count(s, spec_inventory_entries(s)[29].0@),
{
    lemma_name_lengths();
    lemma_filled_slots_bound(s.inventory.bottles@);
    reveal_strlit("ROMANI_MASK");
    reveal_strlit("BOMB_BAG_20");
    assert("ROMANI_MASK"@[0] != "BOMB_BAG_20"@[0]);
    reveal_strlit("BOMB_BAG_30");
    assert("ROMANI_MASK"@[0] != "BOMB_BAG_30"@[0]);
    reveal_strlit("BOMB_BAG_40");
    assert("ROMANI_MASK"@[0] != "BOMB_BAG_40"@[0]);
    reveal_strlit("BOSSREMAINS");
    assert("ROMANI_MASK"@[0] != "BOSSREMAINS"@[0]);
    reveal_strlit("BREMEN_MASK");
    assert("ROMANI_MASK"@[0] != "BREMEN_MASK"@[0]);
    reveal_strlit("DONGEROMASK");
    assert("ROMANI_MASK"@[0] != "DONGEROMASK"@[0]);
    reveal_strlit("KEATON_MASK");
    assert("ROMANI_MASK"@[0] != "KEATON_MASK"@[0]);
    reveal_strlit("LENSOFTRUTH");
    assert("ROMANI_MASK"@[0] != "LENSOFTRUTH"@[0]);
    reveal_strlit("LIGHT_ARROW");
    assert("ROMANI_MASK"@[0] != "LIGHT_ARROW"@[0]);
    reveal_strlit("POSTMAN_HAT");
    assert("ROMANI_MASK"@[0] != "POSTMAN_HAT"@[0]);
    assert(spec_inventory_entries(s)[29].0@ == "ROMANI_MASK"@);
}

/// The inventory entry of `CIRCUS_LEADER_MASK` has its item count.
#[verifier::rlimit(40)]
proof fn lemma_entry_30(s: MmSave)
    ensures
        spec_inventory_entries(s)[30].1 as nat == spec_named_item_count(s, spec_inventory_entries(s)[30].0@),
{
    lemma_name_lengths();
    lemma_filled_slots_bound(s.inventory.bottles@);
    reveal_strlit("CIRCUS_LEADER_MASK");
    reveal_strlit("STRAYFAIRYGREATBAY");
    assert("CIRCUS_LEADER_MASK"@[0] != "STRAYFAIRYGREATBAY"@[0]);
    reveal_strlit("STRAYFAIRYSNOWHEAD");
    assert("CIRCUS_LEADER_MASK"@[0] != "STRAYFAIRYSNOWHEAD"@[0]);
    reveal_strlit("STRAYFAIRYWOODFALL");
    assert("CIRCUS_LEADER_MASK"@[0] != "STRAYFAIRYWOODFALL"@[0]);
    assert(spec_inventory_entries(s)[30].0@ == "CIRCUS_LEADER_MASK"@);
}

/// The inventory entry of `KAFEI_MASK` has its item count.
#[verifier::rlimit(40)]
proof fn lemma_entry_31(s: MmSave)
    ensures
        spec_inventory_entries(s)[31].1 as nat == spec_named_item_count(s, spec_inventory_entries(s)[31].0@),
{
    lemma_name_lengths();
    lemma_filled_slots_bound(s.inventory.bottles@);
    reveal_strlit("KAFEI_MASK");
    reveal_strlit("BLAST_MASK");
    assert("KAFEI_MASK"@[0] != "BLAST_MASK"@[0]);
    reveal_strlit("BREMENMASK");
    assert("KAFEI_MASK"@[0] != "BREMENMASK"@[0]);
    reveal_strlit("BUNNY_HOOD");
    assert("KAFEI_MASK"@[0] != "BUNNY_HOOD"@[0]);
    reveal_strlit("DEKU_STICK");
    assert("KAFEI_MASK"@[0] != "DEKU_STICK"@[0]);
    reveal_strlit("FIRE_ARROW");
    assert("KAFEI_MASK"@[0] != "FIRE_ARROW"@[0]);
    reveal_strlit("GORON_MASK");
    assert("KAFEI_MASK"@[0] != "GORON_MASK"@[0]);
    reveal_strlit("KEATONMASK");
    assert("KAFEI_MASK"@[1] != "KEATONMASK"@[1]);
    reveal_strlit("LIGHTARROW");
    assert("KAFEI_MASK"@[0] != "LIGHTARROW"@[0]);
    reveal_strlit("MAGIC_BEAN");
    assert("KAFEI_MASK"@[0] != "MAGIC_BEAN"@[0]);
    reveal_strlit("POSTMANHAT");
    assert("KAFEI_MASK"@[0] != "POSTMANHAT"@[0]);
    reveal_strlit("POWDER_KEG");
    assert("KAFEI_MASK"@[0] != "POWDER_KEG"@[0]);
    reveal_strlit("ROMANIMASK");
    assert("KAFEI_MASK"@[0] != "ROMANIMASK"@[0]);
    reveal_strlit("STONE_MASK");
    assert("KAFEI_MASK"@[0] != "STONE_MASK"@[0]);
    assert(spec_inventory_entries(s)[31].0@ == "KAFEI_MASK"@);
}

/// The inventory entry of `COUPLES_MASK` has its item count.
#[verifier::rlimit(40)]
proof fn lemma_entry_32(s: MmSave)
    ensures
        spec_inventory_entries(s)[32].1 as nat == spec_named_item_count(s, spec_inventory_entries(s)[32].0@),
{
    lemma_name_lengths();
    lemma_filled_slots_bound(s.inventory.bottles@);
    reveal_strlit("COUPLES_MASK");
    reveal_strlit("ALLNIGHTMASK");
    assert("COUPLES_MASK"@[0] != "ALLNIGHTMASK"@[0]);
    reveal_strlit("BOSS_REMAINS");
    assert("COUPLES_MASK"@[0] != "BOSS_REMAINS"@[0]);
    reveal_strlit("MASKOFSCENTS");
    assert("COUPLES_MASK"@[0] != "MASKOFSCENTS"@[0]);
    assert(spec_inventory_entries(s)[32].0@ == "COUPLES_MASK"@);
}

/// The inventory entry of `MASK_OF_TRUTH` has its item count.
#[verifier::rlimit(40)]
proof fn lemma_entry_33(s: MmSave)
    ensures
        spec_inventory_entries(s)[33].1 as nat == spec_named_item_count(s, spec_inventory_entries(s)[33].0@),
{
    lemma_name_lengths();
    lemma_filled_slots_bound(s.inventory.bottles@);
    reveal_strlit("MASK_OF_TRUTH");
    reveal_strlit("DON_GERO_MASK");
    assert("MASK_OF_TRUTH"@[0] != "DON_GERO_MASK"@[0]);
    reveal_strlit("LENS_OF_TRUTH");
    assert("MASK_OF_TRUTH"@[0] != "LENS_OF_TRUTH"@[0]);
    reveal_strlit("PICTOGRAPHBOX");
    assert("MASK_OF_TRUTH"@[0] != "PICTOGRAPHBOX"@[0]);
    assert(spec_inventory_entries(s)[33].0@ == "MASK_OF_TRUTH"@);
}

/// The inventory entry of `KAMARO_MASK` has its item count.
#[verifier::rlimit(40)]
proof fn lemma_entry_34(s: MmSave)
    ensures
        spec_inventory_entries(s)[34].1 as nat == spec_named_item_count(s, spec_inventory_entries(s)[34].0@),
{
    lemma_name_lengths();
    lemma_filled_slots_bound(s.inventory.bottles@);
    reveal_strlit("KAMARO_MASK");
    reveal_strlit("BOMB_BAG_20");
    assert("KAMARO_MASK"@[0] != "BOMB_BAG_20"@[0]);
    reveal_strlit("BOMB_BAG_30");
    assert("KAMARO_MASK"@[0] != "BOMB_BAG_30"@[0]);
    reveal_strlit("BOMB_BAG_40");
    assert("KAMARO_MASK"@[0] != "BOMB_BAG_40"@[0]);
    reveal_strlit("BOSSREMAINS");
    assert("KAMARO_MASK"@[0] != "BOSSREMAINS"@[0]);
    reveal_strlit("BREMEN_MASK");
    assert("KAMARO_MASK"@[0] != "BREMEN_MASK"@[0]);
    reveal_strlit("COUPLESMASK");
    assert("KAMARO_MASK"@[0] != "COUPLESMASK"@[0]);
    reveal_strlit("DONGEROMASK");
    assert("KAMARO_MASK"@[0] != "DONGEROMASK"@[0]);
    reveal_strlit("KEATON_MASK");
    assert("KAMARO_MASK"@[1] != "KEATON_MASK"@[1]);
    reveal_strlit("LENSOFTRUTH");
    assert("KAMARO_MASK"@[0] != "LENSOFTRUTH"@[0]);
    reveal_strlit("LIGHT_ARROW");
    assert("KAMARO_MASK"@[0] != "LIGHT_ARROW"@[0]);
    reveal_strlit("MASKOFTRUTH");
    assert("KAMARO_MASK"@[0] != "MASKOFTRUTH"@[0]);
    reveal_strlit("POSTMAN_HAT");
    assert("KAMARO_MASK"@[0] != "POSTMAN_HAT"@[0]);
    reveal_strlit("ROMANI_MASK");
    assert("KAMARO_MASK"@[0] != "ROMANI_MASK"@[0]);
    assert(spec_inventory_entries(s)[34].0@ == "KAMARO_MASK"@);
}

/// The inventory entry of `GIBDO_MASK` has its item count.
#[verifier::rlimit(40)]
proof fn lemma_entry_35(s: MmSave)
    ensures
        spec_inventory_entries(s)[35].1 as nat == spec_named_item_count(s, spec_inventory_entries(s)[35].0@),
{
    lemma_name_lengths();
    lemma_filled_slots_bound(s.inventory.bottles@);
    reveal_strlit("GIBDO_MASK");
    reveal_strlit("BLAST_MASK");
    assert("GIBDO_MASK"@[0] != "BLAST_MASK"@[0]);
    reveal_strlit("BREMENMASK");
    assert("GIBDO_MASK"@[0] != "BREMENMASK"@[0]);
    reveal_strlit("BUNNY_HOOD");
    assert("GIBDO_MASK"@[0] != "BUNNY_HOOD"@[0]);
    reveal_strlit("DEKU_STICK");
    assert("GIBDO_MASK"@[0] != "DEKU_STICK"@[0]);
    reveal_strlit("FIRE_ARROW");
    assert("GIBDO_MASK"@[0] != "FIRE_ARROW"@[0]);
    reveal_strlit("GORON_MASK");
    assert("GIBDO_MASK"@[1] != "GORON_MASK"@[1]);
    reveal_strlit("KAFEI_MASK");
    assert("GIBDO_MASK"@[0] != "KAFEI_MASK"@[0]);
    reveal_strlit("KAMAROMASK");
    assert("GIBDO_MASK"@[0] != "KAMAROMASK"@[0]);
    reveal_strlit("KEATONMASK");
    assert("GIBDO_MASK"@[0] != "KEATONMASK"@[0]);
    reveal_strlit("LIGHTARROW");
    assert("GIBDO_MASK"@[0] != "LIGHTARROW"@[0]);
    reveal_strlit("MAGIC_BEAN");
    assert("GIBDO_MASK"@[0] != "MAGIC_BEAN"@[0]);
    reveal_strlit("POSTMANHAT");
    assert("GIBDO_MASK"@[0] != "POSTMANHAT"@[0]);
    reveal_strlit("POWDER_KEG");
    assert("GIBDO_MASK"@[0] != "POWDER_KEG"@[0]);
    reveal_strlit("ROMANIMASK");
    assert("GIBDO_MASK"@[0] != "ROMANIMASK"@[0]);
    reveal_strlit("STONE_MASK");
    assert("GIBDO_MASK"@[0] != "STONE_MASK"@[0]);
    assert(spec_inventory_entries(s)[35].0@ == "GIBDO_MASK"@);
}

/// The inventory entry of `GARO_MASK` has its item count.
#[verifier::rlimit(40)]
proof fn lemma_entry_36(s: MmSave)
    ensures
        spec_inventory_entries(s)[36].1 as nat == spec_named_item_count(s, spec_inventory_entries(s)[36].0@),
{
    lemma_name_lengths();
    lemma_filled_slots_bound(s.inventory.bottles@);
    reveal_strlit("GARO_MASK");
    reveal_strlit("BLASTMASK");
    assert("GARO_MASK"@[0] != "BLASTMASK"@[0]);
    reveal_strlit("BUNNYHOOD");
    assert("GARO_MASK"@[0] != "BUNNYHOOD"@[0]);
    reveal_strlit("DEKUSTICK");
    assert("GARO_MASK"@[0] != "DEKUSTICK"@[0]);
    reveal_strlit("DEKU_MASK");
    assert("GARO_MASK"@[0] != "DEKU_MASK"@[0]);
    reveal_strlit("FIREARROW");
    assert("GARO_MASK"@[0] != "FIREARROW"@[0]);
    reveal_strlit("GIBDOMASK");
    assert("GARO_MASK"@[1] != "GIBDOMASK"@[1]);
    reveal_strlit("GORONMASK");
    assert("GARO_MASK"@[1] != "GORONMASK"@[1]);
    reveal_strlit("HEROS_BOW");
    assert("GARO_MASK"@[0] != "HEROS_BOW"@[0]);
    reveal_strlit("ICE_ARROW");
    assert("GARO_MASK"@[0] != "ICE_ARROW"@[0]);
    reveal_strlit("KAFEIMASK");
    assert("GARO_MASK"@[0] != "KAFEIMASK"@[0]);
    reveal_strlit("MAGICBEAN");
    assert("GARO_MASK"@[0] != "MAGICBEAN"@[0]);
    reveal_strlit("POWDERKEG");
    assert("GARO_MASK"@[0] != "POWDERKEG"@[0]);
    reveal_strlit("QUIVER_30");
    assert("GARO_MASK"@[0] != "QUIVER_30"@[0]);
    reveal_strlit("QUIVER_40");
    assert("GARO_MASK"@[0] != "QUIVER_40"@[0]);
    reveal_strlit("QUIVER_50");
    assert("GARO_MASK"@[0] != "QUIVER_50"@[0]);
    reveal_strlit("STONEMASK");
    assert("GARO_MASK"@[0] != "STONEMASK"@[0]);
    reveal_strlit("ZORA_MASK");
    assert("GARO_MASK"@[0] != "ZORA_MASK"@[0]);
    assert(spec_inventory_entries(s)[36].0@ == "GARO_MASK"@);
}

/// The inventory entry of `CAPTAIN_HAT` has its item count.
#[verifier::rlimit(40)]
proof fn lemma_entry_37(s: MmSave)
    ensures
        spec_inventory_entries(s)[37].1 as nat == spec_named_item_count(s, spec_inventory_entries(s)[37].0@),
{
    lemma_name_lengths();
    lemma_filled_slots_bound(s.inventory.bottles@);
    reveal_strlit("CAPTAIN_HAT");
    reveal_strlit("BOMB_BAG_20");
    assert("CAPTAIN_HAT"@[0] != "BOMB_BAG_20"@[0]);
    reveal_strlit("BOMB_BAG_30");
    assert("CAPTAIN_HAT"@[0] != "BOMB_BAG_30"@[0]);
    reveal_strlit("BOMB_BAG_40");
    assert("CAPTAIN_HAT"@[0] != "BOMB_BAG_40"@[0]);
    reveal_strlit("BOSSREMAINS");
    assert("CAPTAIN_HAT"@[0] != "BOSSREMAINS"@[0]);
    reveal_strlit("BREMEN_MASK");
    assert("CAPTAIN_HAT"@[0] != "BREMEN_MASK"@[0]);
    reveal_strlit("COUPLESMASK");
    assert("CAPTAIN_HAT"@[1] != "COUPLESMASK"@[1]);
    reveal_strlit("DONGEROMASK");
    assert("CAPTAIN_HAT"@[0] != "DONGEROMASK"@[0]);
    reveal_strlit("KAMARO_MASK");
    assert("CAPTAIN_HAT"@[0] != "KAMARO_MASK"@[0]);
    reveal_strlit("KEATON_MASK");
    assert("CAPTAIN_HAT"@[0] != "KEATON_MASK"@[0]);
    reveal_strlit("LENSOFTRUTH");
    assert("CAPTAIN_HAT"@[0] != "LENSOFTRUTH"@[0]);
    reveal_strlit("LIGHT_ARROW");
    assert("CAPTAIN_HAT"@[0] != "LIGHT_ARROW"@[0]);
    reveal_strlit("MASKOFTRUTH");
    assert("CAPTAIN_HAT"@[0] != "MASKOFTRUTH"@[0]);
    reveal_strlit("POSTMAN_HAT");
    assert("CAPTAIN_HAT"@[0] != "POSTMAN_HAT"@[0]);
    reveal_strlit("ROMANI_MASK");
    assert("CAPTAIN_HAT"@[0] != "ROMANI_MASK"@[0]);
    assert(spec_inventory_entries(s)[37].0@ == "CAPTAIN_HAT"@);
}

/// The inventory entry of `GIANT_MASK` has its item count.
#[verifier::rlimit(40)]
proof fn lemma_entry_38(s: MmSave)
    ensures
        spec_inventory_entries(s)[38].1 as nat == spec_named_item_count(s, spec_inventory_entries(s)[38].0@),
{
    lemma_name_lengths();
    lemma_filled_slots_bound(s.inventory.bottles@);
    reveal_strlit("GIANT_MASK");
    reveal_strlit("BLAST_MASK");
    assert("GIANT_MASK"@[0] != "BLAST_MASK"@[0]);
    reveal_strlit("BREMENMASK");
    assert("GIANT_MASK"@[0] != "BREMENMASK"@[0]);
    reveal_strlit("BUNNY_HOOD");
    assert("GIANT_MASK"@[0] != "BUNNY_HOOD"@[0]);
    reveal_strlit("CAPTAINHAT");
    assert("GIANT_MASK"@[0] != "CAPTAINHAT"@[0]);
    reveal_strlit("DEKU_STICK");
    assert("GIANT_MASK"@[0] != "DEKU_STICK"@[0]);
    reveal_strlit("FIRE_ARROW");
    assert("GIANT_MASK"@[0] != "FIRE_ARROW"@[0]);
    reveal_strlit("GIBDO_MASK");
    assert("GIANT_MASK"@[2] != "GIBDO_MASK"@[2]);
    reveal_strlit("GORON_MASK");
    assert("GIANT_MASK"@[1] != "GORON_MASK"@[1]);
    reveal_strlit("KAFEI_MASK");
    assert("GIANT_MASK"@[0] != "KAFEI_MASK"@[0]);
    reveal_strlit("KAMAROMASK");
    assert("GIANT_MASK"@[0] != "KAMAROMASK"@[0]);
    reveal_strlit("KEATONMASK");
    assert("GIANT_MASK"@[0] != "KEATONMASK"@[0]);
    reveal_strlit("LIGHTARROW");
    assert("GIANT_MASK"@[0] != "LIGHTARROW"@[0]);
    reveal_strlit("MAGIC_BEAN");
    assert("GIANT_MASK"@[0] != "MAGIC_BEAN"@[0]);
    reveal_strlit("POSTMANHAT");
    assert("GIANT_MASK"@[0] != "POSTMANHAT"@[0]);
    reveal_strlit("POWDER_KEG");
    assert("GIANT_MASK"@[0] != "POWDER_KEG"@[0]);
    reveal_strlit("ROMANIMASK");
    assert("GIANT_MASK"@[0] != "ROMANIMASK"@[0]);
    reveal_strlit("STONE_MASK");
    assert("GIANT_MASK"@[0] != "STONE_MASK"@[0]);
    assert(spec_inventory_entries(s)[38].0@ == "GIANT_MASK"@);
}

/// The inventory entry of `SONG_OF_TIME` has its item count.
#[verifier::rlimit(40)]
proof fn lemma_entry_39(s: MmSave)
    ensures
        spec_inventory_entries(s)[39].1 as nat == spec_named_item_count(s, spec_inventory_entries(s)[39].0@),
{
    lemma_name_lengths();
    lemma_filled_slots_bound(s.inventory.bottles@);
    reveal_strlit("SONG_OF_TIME");
    reveal_strlit("ALLNIGHTMASK");
    assert("SONG_OF_TIME"@[0] != "ALLNIGHTMASK"@[0]);
    reveal_strlit("BOSS_REMAINS");
    assert("SONG_OF_TIME"@[0] != "BOSS_REMAINS"@[0]);
    reveal_strlit("COUPLES_MASK");
    assert("SONG_OF_TIME"@[0] != "COUPLES_MASK"@[0]);
    reveal_strlit("MASKOFSCENTS");
    assert("SONG_OF_TIME"@[0] != "MASKOFSCENTS"@[0]);
    assert(spec_inventory_entries(s)[39].0@ == "SONG_OF_TIME"@);
}

/// The inventory entry of `SONG_OF_HEALING` has its item count.
#[verifier::rlimit(40)]
proof fn lemma_entry_40(s: MmSave)
    ensures
        spec_inventory_entries(s)[40].1 as nat == spec_named_item_count(s, spec_inventory_entries(s)[40].0@),
{
    lemma_name_lengths();
    lemma_filled_slots_bound(s.inventory.bottles@);
    reveal_strlit("SONG_OF_HEALING");
    reveal_strlit("FIERCEDEITYMASK");
    assert("SONG_OF_HEALING"@[0] != "FIERCEDEITYMASK"@[0]);
    reveal_strlit("GREATFAIRYSWORD");
    assert("SONG_OF_HEALING"@[0] != "GREATFAIRYSWORD"@[0]);
    reveal_strlit("OCARINA_OF_TIME");
    assert("SONG_OF_HEALING"@[0] != "OCARINA_OF_TIME"@[0]);
    assert(spec_inventory_entries(s)[40].0@ == "SONG_OF_HEALING"@);
}

/// The inventory entry of `EPONAS_SONG` has its item count.
#[verifier::rlimit(40)]
proof fn lemma_entry_41(s: MmSave)
    ensures
        spec_inventory_entries(s)[41].1 as nat == spec_named_item_count(s, spec_inventory_entries(s)[41].0@),
{
    lemma_name_lengths();
    lemma_filled_slots_bound(s.inventory.bottles@);
    reveal_strlit("EPONAS_SONG");
    reveal_strlit("BOMB_BAG_20");
    assert("EPONAS_SONG"@[0] != "BOMB_BAG_20"@[0]);
    reveal_strlit("BOMB_BAG_30");
    assert("EPONAS_SONG"@[0] != "BOMB_BAG_30"@[0]);
    reveal_strlit("BOMB_BAG_40");
    assert("EPONAS_SONG"@[0] != "BOMB_BAG_40"@[0]);
    reveal_strlit("BOSSREMAINS");
    assert("EPONAS_SONG"@[0] != "BOSSREMAINS"@[0]);
    reveal_strlit("BREMEN_MASK");
    assert("EPONAS_SONG"@[0] != "BREMEN_MASK"@[0]);
    reveal_strlit("CAPTAIN_HAT");
    assert("EPONAS_SONG"@[0] != "CAPTAIN_HAT"@[0]);
    reveal_strlit("COUPLESMASK");
    assert("EPONAS_SONG"@[0] != "COUPLESMASK"@[0]);
    reveal_strlit("DONGEROMASK");
    assert("EPONAS_SONG"@[0] != "DONGEROMASK"@[0]);
    reveal_strlit("KAMARO_MASK");
    assert("EPONAS_SONG"@[0] != "KAMARO_MASK"@[0]);
    reveal_strlit("KEATON_MASK");
    assert("EPONAS_SONG"@[0] != "KEATON_MASK"@[0]);
    reveal_strlit("LENSOFTRUTH");
    assert("EPONAS_SONG"@[0] != "LENSOFTRUTH"@[0]);
    reveal_strlit("LIGHT_ARROW");
    assert("EPONAS_SONG"@[0] != "LIGHT_ARROW"@[0]);
    reveal_strlit("MASKOFTRUTH");
    assert("EPONAS_SONG"@[0] != "MASKOFTRUTH"@[0]);
    reveal_strlit("POSTMAN_HAT");
    assert("EPONAS_SONG"@[0] != "POSTMAN_HAT"@[0]);
    reveal_strlit("ROMANI_MASK");
    assert("EPONAS_SONG"@[0] != "ROMANI_MASK"@[0]);
    assert(spec_inventory_entries(s)[41].0@ == "EPONAS_SONG"@);
}

/// The inventory entry of `SONG_OF_SOARING` has its item count.
#[verifier::rlimit(40)]
proof fn lemma_entry_42(s: MmSave)
    ensures
        spec_inventory_entries(s)[42].1 as nat == spec_named_item_count(s, spec_inventory_entries(s)[42].0@),
{
    lemma_name_lengths();
    lemma_filled_slots_bound(s.inventory.bottles@);
    reveal_strlit("SONG_OF_SOARING");
    reveal_strlit("FIERCEDEITYMASK");
    assert("SONG_OF_SOARING"@[0] != "FIERCEDEITYMASK"@[0]);
    reveal_strlit("GREATFAIRYSWORD");
    assert("SONG_OF_SOARING"@[0] != "GREATFAIRYSWORD"@[0]);
    reveal_strlit("OCARINA_OF_TIME");
    assert("SONG_OF_SOARING"@[0] != "OCARINA_OF_TIME"@[0]);
    reveal_strlit("SONG_OF_HEALING");
    assert("SONG_OF_SOARING"@[8] != "SONG_OF_HEALING"@[8]);
    assert(spec_inventory_entries(s)[42].0@ == "SONG_OF_SOARING"@);
}

/// The inventory entry of `SONG_OF_STORMS` has its item count.
#[verifier::rlimit(40)]
proof fn lemma_entry_43(s: MmSave)
    ensures
        spec_inventory_entries(s)[43].1 as nat == spec_named_item_count(s, spec_inventory_entries(s)[43].0@),
{
    lemma_name_lengths();
    lemma_filled_slots_bound(s.inventory.bottles@);
    reveal_strlit("SONG_OF_STORMS");
    reveal_strlit("ALL_NIGHT_MASK");
    assert("SONG_OF_STORMS"@[0] != "ALL_NIGHT_MASK"@[0]);
    reveal_strlit("GREATFAIRYMASK");
    assert("SONG_OF_STORMS"@[0] != "GREATFAIRYMASK"@[0]);
    reveal_strlit("MASK_OF_SCENTS");
    assert("SONG_OF_STORMS"@[0] != "MASK_OF_SCENTS"@[0]);
    reveal_strlit("OCARINAOFTTIME");
    assert("SONG_OF_STORMS"@[0] != "OCARINAOFTTIME"@[0]);
    reveal_strlit("PICTOGRAPH_BOX");
    assert("SONG_OF_STORMS"@[0] != "PICTOGRAPH_BOX"@[0]);
    assert(spec_inventory_entries(s)[43].0@ == "SONG_OF_STORMS"@);
}

/// The inventory entry of `SONATA_OF_AWAKENING` has its item count.
#[verifier::rlimit(40)]
proof fn lemma_entry_44(s: MmSave)
    ensures
        spec_inventory_entries(s)[44].1 as nat == spec_named_item_count(s, spec_inventory_entries(s)[44].0@),
{
    lemma_name_lengths();
    lemma_filled_slots_bound(s.inventory.bottles@);
    reveal_strlit("SONATA_OF_AWAKENING");
    reveal_strlit("STRAYFAIRYCLOCKTOWN");
    assert("SONATA_OF_AWAKENING"@[1] != "STRAYFAIRYCLOCKTOWN"@[1]);
    assert(spec_inventory_entries(s)[44].0@ == "SONATA_OF_AWAKENING"@);
}

/// The inventory entry of `GORON_LULLABY` has its item count.
#[verifier::rlimit(40)]
proof fn lemma_entry_45(s: MmSave)
    ensures
        spec_inventory_entries(s)[45].1 as nat == spec_named_item_count(s, spec_inventory_entries(s)[45].0@),
{
    lemma_name_lengths();
    lemma_filled_slots_bound(s.inventory.bottles@);
    reveal_strlit("GORON_LULLABY");
    reveal_strlit("DON_GERO_MASK");
    assert("GORON_LULLABY"@[0] != "DON_GERO_MASK"@[0]);
    reveal_strlit("LENS_OF_TRUTH");
    assert("GORON_LULLABY"@[0] != "LENS_OF_TRUTH"@[0]);
    reveal_strlit("MASK_OF_TRUTH");
    assert("GORON_LULLABY"@[0] != "MASK_OF_TRUTH"@[0]);
    reveal_strlit("PICTOGRAPHBOX");
    assert("GORON_LULLABY"@[0] != "PICTOGRAPHBOX"@[0]);
    reveal_strlit("SONGOFHEALING");
    assert("GORON_LULLABY"@[0] != "SONGOFHEALING"@[0]);
    reveal_strlit("SONGOFSOARING");
    assert("GORON_LULLABY"@[0] != "SONGOFSOARING"@[0]);
    assert(spec_inventory_entries(s)[45].0@ == "GORON_LULLABY"@);
}

/// The inventory entry of `NEW_WAVE_BOSSA_NOVA` has its item count.
#[verifier::rlimit(40)]
proof fn lemma_entry_46(s: MmSave)
    ensures
        spec_inventory_entries(s)[46].1 as nat == spec_named_item_count(s, spec_inventory_entries(s)[46].0@),
{
    lemma_name_lengths();
    lemma_filled_slots_bound(s.inventory.bottles@);
    reveal_strlit("NEW_WAVE_BOSSA_NOVA");
    reveal_strlit("SONATA_OF_AWAKENING");
    assert("NEW_WAVE_BOSSA_NOVA"@[0] != "SONATA_OF_AWAKENING"@[0]);
    reveal_strlit("STRAYFAIRYCLOCKTOWN");
    assert("NEW_WAVE_BOSSA_NOVA"@[0] != "STRAYFAIRYCLOCKTOWN"@[0]);
    assert(spec_inventory_entries(s)[46].0@ == "NEW_WAVE_BOSSA_NOVA"@);
}

/// The inventory entry of `ELEGY_OF_EMPTINESS` has its item count.
#[verifier::rlimit(40)]
proof fn lemma_entry_47(s: MmSave)
    ensures
        spec_inventory_entries(s)[47].1 as nat == spec_named_item_count(s, spec_inventory_entries(s)[47].0@),
{
    lemma_name_lengths();
    lemma_filled_slots_bound(s.inventory.bottles@);
    reveal_strlit("ELEGY_OF_EMPTINESS");
    reveal_strlit("CIRCUS_LEADER_MASK");
    assert("ELEGY_OF_EMPTINESS"@[0] != "CIRCUS_LEADER_MASK"@[0]);
    reveal_strlit("STRAYFAIRYGREATBAY");
    assert("ELEGY_OF_EMPTINESS"@[0] != "STRAYFAIRYGREATBAY"@[0]);
    reveal_strlit("STRAYFAIRYSNOWHEAD");
    assert("ELEGY_OF_EMPTINESS"@[0] != "STRAYFAIRYSNOWHEAD"@[0]);
    reveal_strlit("STRAYFAIRYWOODFALL");
    assert("ELEGY_OF_EMPTINESS"@[0] != "STRAYFAIRYWOODFALL"@[0]);
    assert(spec_inventory_entries(s)[47].0@ == "ELEGY_OF_EMPTINESS"@);
}

/// The inventory entry of `OATH_TO_ORDER` has its item count.
#[verifier::rlimit(40)]
proof fn lemma_entry_48(s: MmSave)
    ensures
        spec_inventory_entries(s)[48].1 as nat == spec_named_item_count(s, spec_inventory_entries(s)[48].0@),
{
    lemma_name_lengths();
    lemma_filled_slots_bound(s.inventory.bottles@);
    reveal_strlit("OATH_TO_ORDER");
    reveal_strlit("DON_GERO_MASK");
    assert("OATH_TO_ORDER"@[0] != "DON_GERO_MASK"@[0]);
    reveal_strlit("GORON_LULLABY");
    assert("OATH_TO_ORDER"@[0] != "GORON_LULLABY"@[0]);
    reveal_strlit("LENS_OF_TRUTH");
    assert("OATH_TO_ORDER"@[0] != "LENS_OF_TRUTH"@[0]);
    reveal_strlit("MASK_OF_TRUTH");
    assert("OATH_TO_ORDER"@[0] != "MASK_OF_TRUTH"@[0]);
    reveal_strlit("PICTOGRAPHBOX");
    assert("OATH_TO_ORDER"@[0] != "PICTOGRAPHBOX"@[0]);
    reveal_strlit("SONGOFHEALING");
    assert("OATH_TO_ORDER"@[0] != "SONGOFHEALING"@[0]);
    reveal_strlit("SONGOFSOARING");
    assert("OATH_TO_ORDER"@[0] != "SONGOFSOARING"@[0]);
    assert(spec_inventory_entries(s)[48].0@ == "OATH_TO_ORDER"@);
}

/// The inventory entry of `ODOLWA_REMAINS` has its item count.
#[verifier::rlimit(40)]
proof fn lemma_entry_49(s: MmSave)
    ensures
        spec_inventory_entries(s)[49].1 as nat == spec_named_item_count(s, spec_inventory_entries(s)[49].0@),
{
    lemma_name_lengths();
    lemma_filled_slots_bound(s.inventory.bottles@);
    reveal_strlit("ODOLWA_REMAINS");
    reveal_strlit("ALL_NIGHT_MASK");
    assert("ODOLWA_REMAINS"@[0] != "ALL_NIGHT_MASK"@[0]);
    reveal_strlit("GREATFAIRYMASK");
    assert("ODOLWA_REMAINS"@[0] != "GREATFAIRYMASK"@[0]);
    reveal_strlit("MASK_OF_SCENTS");
    assert("ODOLWA_REMAINS"@[0] != "MASK_OF_SCENTS"@[0]);
    reveal_strlit("OCARINAOFTTIME");
    assert("ODOLWA_REMAINS"@[1] != "OCARINAOFTTIME"@[1]);
    reveal_strlit("PICTOGRAPH_BOX");
    assert("ODOLWA_REMAINS"@[0] != "PICTOGRAPH_BOX"@[0]);
    reveal_strlit("SONG_OF_STORMS");
    assert("ODOLWA_REMAINS"@[0] != "SONG_OF_STORMS"@[0]);
    assert(spec_inventory_entries(s)[49].0@ == "ODOLWA_REMAINS"@);
}

/// The inventory entry of `GOHT_REMAINS` has its item count.
#[verifier::rlimit(40)]
proof fn lemma_entry_50(s: MmSave)
    ensures
        spec_inventory_entries(s)[50].1 as nat == spec_named_item_count(s, spec_inventory_entries(s)[50].0@),
{
    lemma_name_lengths();
    lemma_filled_slots_bound(s.inventory.bottles@);
    reveal_strlit("GOHT_REMAINS");
    reveal_strlit("ALLNIGHTMASK");
    assert("GOHT_REMAINS"@[0] != "ALLNIGHTMASK"@[0]);
    reveal_strlit("BOSS_REMAINS");
    assert("GOHT_REMAINS"@[0] != "BOSS_REMAINS"@[0]);
    reveal_strlit("COUPLES_MASK");
    assert("GOHT_REMAINS"@[0] != "COUPLES_MASK"@[0]);
    reveal_strlit("GORONLULLABY");
    assert("GOHT_REMAINS"@[2] != "GORONLULLABY"@[2]);
    reveal_strlit("MASKOFSCENTS");
    assert("GOHT_REMAINS"@[0] != "MASKOFSCENTS"@[0]);
    reveal_strlit("SONGOFSTORMS");
    assert("GOHT_REMAINS"@[0] != "SONGOFSTORMS"@[0]);
    reveal_strlit("SONG_OF_TIME");
    assert("GOHT_REMAINS"@[0] != "SONG_OF_TIME"@[0]);
    assert(spec_inventory_entries(s)[50].0@ == "GOHT_REMAINS"@);
}

/// The inventory entry of `GYORG_REMAINS` has its item count.
#[verifier::rlimit(40)]
proof fn lemma_entry_51(s: MmSave)
    ensures
        spec_inventory_entries(s)[51].1 as nat == spec_named_item_count(s, spec_inventory_entries(s)[51].0@),
{
    lemma_name_lengths();
    lemma_filled_slots_bound(s.inventory.bottles@);
    reveal_strlit("GYORG_REMAINS");
    reveal_strlit("DON_GERO_MASK");
    assert("GYORG_REMAINS"@[0] != "DON_GERO_MASK"@[0]);
    reveal_strlit("GORON_LULLABY");
    assert("GYORG_REMAINS"@[1] != "GORON_LULLABY"@[1]);
    reveal_strlit("LENS_OF_TRUTH");
    assert("GYORG_REMAINS"@[0] != "LENS_OF_TRUTH"@[0]);
    reveal_strlit("MASK_OF_TRUTH");
    assert("GYORG_REMAINS"@[0] != "MASK_OF_TRUTH"@[0]);
    reveal_strlit("OATH_TO_ORDER");
    assert("GYORG_REMAINS"@[0] != "OATH_TO_ORDER"@[0]);
    reveal_strlit("ODOLWAREMAINS");
    assert("GYORG_REMAINS"@[0] != "ODOLWAREMAINS"@[0]);
    reveal_strlit("PICTOGRAPHBOX");
    assert("GYORG_REMAINS"@[0] != "PICTOGRAPHBOX"@[0]);
    reveal_strlit("SONGOFHEALING");
    assert("GYORG_REMAINS"@[0] != "SONGOFHEALING"@[0]);
    reveal_strlit("SONGOFSOARING");
    assert("GYORG_REMAINS"@[0] != "SONGOFSOARING"@[0]);
    assert(spec_inventory_entries(s)[51].0@ == "GYORG_REMAINS"@);
}

/// The inventory entry of `TWINMOLD_REMAINS` has its item count.
#[verifier::rlimit(40)]
proof fn lemma_entry_52(s: MmSave)
    ensures
        spec_inventory_entries(s)[52].1 as nat == spec_named_item_count(s, spec_inventory_entries(s)[52].0@),
{
    lemma_name_lengths();
    lemma_filled_slots_bound(s.inventory.bottles@);
    reveal_strlit("TWINMOLD_REMAINS");
    reveal_strlit("CIRCUSLEADERMASK");
    assert("TWINMOLD_REMAINS"@[0] != "CIRCUSLEADERMASK"@[0]);
    reveal_strlit("ELEGYOFEMPTINESS");
    assert("TWINMOLD_REMAINS"@[0] != "ELEGYOFEMPTINESS"@[0]);
    reveal_strlit("GREAT_FAIRY_MASK");
    assert("TWINMOLD_REMAINS"@[0] != "GREAT_FAIRY_MASK"@[0]);
    reveal_strlit("NEWWAVEBOSSANOVA");
    assert("TWINMOLD_REMAINS"@[0] != "NEWWAVEBOSSANOVA"@[0]);
    assert(spec_inventory_entries(s)[52].0@ == "TWINMOLD_REMAINS"@);
}

/// The inventory entry of `KOKIRI_SWORD` has its item count.
#[verifier::rlimit(40)]
proof fn lemma_entry_53(s: MmSave)
    ensures
        spec_inventory_entries(s)[53].1 as nat == spec_named_item_count(s, spec_inventory_entries(s)[53].0@),
{
    lemma_name_lengths();
    lemma_filled_slots_bound(s.inventory.bottles@);
    reveal_strlit("KOKIRI_SWORD");
    reveal_strlit("ALLNIGHTMASK");
    assert("KOKIRI_SWORD"@[0] != "ALLNIGHTMASK"@[0]);
    reveal_strlit("BOSS_REMAINS");
    assert("KOKIRI_SWORD"@[0] != "BOSS_REMAINS"@[0]);
    reveal_strlit("COUPLES_MASK");
    assert("KOKIRI_SWORD"@[0] != "COUPLES_MASK"@[0]);
    reveal_strlit("GOHT_REMAINS");
    assert("KOKIRI_SWORD"@[0] != "GOHT_REMAINS"@[0]);
    reveal_strlit("GORONLULLABY");
    assert("KOKIRI_SWORD"@[0] != "GORONLULLABY"@[0]);
    reveal_strlit("GYORGREMAINS");
    assert("KOKIRI_SWORD"@[0] != "GYORGREMAINS"@[0]);
    reveal_strlit("MASKOFSCENTS");
    assert("KOKIRI_SWORD"@[0] != "MASKOFSCENTS"@[0]);
    reveal_strlit("SONGOFSTORMS");
    assert("KOKIRI_SWORD"@[0] != "SONGOFSTORMS"@[0]);
    reveal_strlit("SONG_OF_TIME");
    assert("KOKIRI_SWORD"@[0] != "SONG_OF_TIME"@[0]);
    assert(spec_inventory_entries(s)[53].0@ == "KOKIRI_SWORD"@);
}

/// The inventory entry of `RAZOR_SWORD` has its item count.
#[verifier::rlimit(40)]
proof fn lemma_entry_54(s: MmSave)
    ensures
        spec_inventory_entries(s)[54].1 as nat == spec_named_item_count(s, spec_inventory_entries(s)[54].0@),
{
    lemma_name_lengths();
    lemma_filled_slots_bound(s.inventory.bottles@);
    reveal_strlit("RAZOR_SWORD");
    reveal_strlit("BOMB_BAG_20");
    assert("RAZOR_SWORD"@[0] != "BOMB_BAG_20"@[0]);
    reveal_strlit("BOMB_BAG_30");
    assert("RAZOR_SWORD"@[0] != "BOMB_BAG_30"@[0]);
    reveal_strlit("BOMB_BAG_40");
    assert("RAZOR_SWORD"@[0] != "BOMB_BAG_40"@[0]);
    reveal_strlit("BOSSREMAINS");
    assert("RAZOR_SWORD"@[0] != "BOSSREMAINS"@[0]);
    reveal_strlit("BREMEN_MASK");
    assert("RAZOR_SWORD"@[0] != "BREMEN_MASK"@[0]);
    reveal_strlit("CAPTAIN_HAT");
    assert("RAZOR_SWORD"@[0] != "CAPTAIN_HAT"@[0]);
    reveal_strlit("COUPLESMASK");
    assert("RAZOR_SWORD"@[0] != "COUPLESMASK"@[0]);
    reveal_strlit("DONGEROMASK");
    assert("RAZOR_SWORD"@[0] != "DONGEROMASK"@[0]);
    reveal_strlit("EPONAS_SONG");
    assert("RAZOR_SWORD"@[0] != "EPONAS_SONG"@[0]);
    reveal_strlit("GOHTREMAINS");
    assert("RAZOR_SWORD"@[0] != "GOHTREMAINS"@[0]);
    reveal_strlit("KAMARO_MASK");
    assert("RAZOR_SWORD"@[0] != "KAMARO_MASK"@[0]);
    reveal_strlit("KEATON_MASK");
    assert("RAZOR_SWORD"@[0] != "KEATON_MASK"@[0]);
    reveal_strlit("KOKIRISWORD");
    assert("RAZOR_SWORD"@[0] != "KOKIRISWORD"@[0]);
    reveal_strlit("LENSOFTRUTH");
    assert("RAZOR_SWORD"@[0] != "LENSOFTRUTH"@[0]);
    reveal_strlit("LIGHT_ARROW");
    assert("RAZOR_SWORD"@[0] != "LIGHT_ARROW"@[0]);
    reveal_strlit("MASKOFTRUTH");
    assert("RAZOR_SWORD"@[0] != "MASKOFTRUTH"@[0]);
    reveal_strlit("OATHTOORDER");
    assert("RAZOR_SWORD"@[0] != "OATHTOORDER"@[0]);
    reveal_strlit("POSTMAN_HAT");
    assert("RAZOR_SWORD"@[0] != "POSTMAN_HAT"@[0]);
    reveal_strlit("ROMANI_MASK");
    assert("RAZOR_SWORD"@[1] != "ROMANI_MASK"@[1]);
    assert(spec_inventory_entries(s)[54].0@ == "RAZOR_SWORD"@);
}

/// The inventory entry of `GILDED_SWORD` has its item count.
#[verifier::rlimit(40)]
proof fn lemma_entry_55(s: MmSave)
    ensures
        spec_inventory_entries(s)[55].1 as nat == spec_named_item_count(s, spec_inventory_entries(s)[55].0@),
{
    lemma_name_lengths();
    lemma_filled_slots_bound(s.inventory.bottles@);
    reveal_strlit("GILDED_SWORD");
    reveal_strlit("ALLNIGHTMASK");
    assert("GILDED_SWORD"@[0] != "ALLNIGHTMASK"@[0]);
    reveal_strlit("BOSS_REMAINS");
    assert("GILDED_SWORD"@[0] != "BOSS_REMAINS"@[0]);
    reveal_strlit("COUPLES_MASK");
    assert("GILDED_SWORD"@[0] != "COUPLES_MASK"@[0]);
    reveal_strlit("GOHT_REMAINS");
    assert("GILDED_SWORD"@[1] != "GOHT_REMAINS"@[1]);
    reveal_strlit("GORONLULLABY");
    assert("GILDED_SWORD"@[1] != "GORONLULLABY"@[1]);
    reveal_strlit("GYORGREMAINS");
    assert("GILDED_SWORD"@[1] != "GYORGREMAINS"@[1]);
    reveal_strlit("KOKIRI_SWORD");
    assert("GILDED_SWORD"@[0] != "KOKIRI_SWORD"@[0]);
    reveal_strlit("MASKOFSCENTS");
    assert("GILDED_SWORD"@[0] != "MASKOFSCENTS"@[0]);
    reveal_strlit("SONGOFSTORMS");
    assert("GILDED_SWORD"@[0] != "SONGOFSTORMS"@[0]);
    reveal_strlit("SONG_OF_TIME");
    assert("GILDED_SWORD"@[0] != "SONG_OF_TIME"@[0]);
    assert(spec_inventory_entries(s)[55].0@ == "GILDED_SWORD"@);
}

/// The inventory entry of `HERO_SHIELD` has its item count.
#[verifier::rlimit(40)]
proof fn lemma_entry_56(s: MmSave)
    ensures
        spec_inventory_entries(s)[56].1 as nat == spec_named_item_count(s, spec_inventory_entries(s)[56].0@),
{
    lemma_name_lengths();
    lemma_filled_slots_bound(s.inventory.bottles@);
    reveal_strlit("HERO_SHIELD");
    reveal_strlit("BOMB_BAG_20");
    assert("HERO_SHIELD"@[0] != "BOMB_BAG_20"@[0]);
    reveal_strlit("BOMB_BAG_30");
    assert("HERO_SHIELD"@[0] != "BOMB_BAG_30"@[0]);
    reveal_strlit("BOMB_BAG_40");
    assert("HERO_SHIELD"@[0] != "BOMB_BAG_40"@[0]);
    reveal_strlit("BOSSREMAINS");
    assert("HERO_SHIELD"@[0] != "BOSSREMAINS"@[0]);
    reveal_strlit("BREMEN_MASK");
    assert("HERO_SHIELD"@[0] != "BREMEN_MASK"@[0]);
    reveal_strlit("CAPTAIN_HAT");
    assert("HERO_SHIELD"@[0] != "CAPTAIN_HAT"@[0]);
    reveal_strlit("COUPLESMASK");
    assert("HERO_SHIELD"@[0] != "COUPLESMASK"@[0]);
    reveal_strlit("DONGEROMASK");
    assert("HERO_SHIELD"@[0] != "DONGEROMASK"@[0]);
    reveal_strlit("EPONAS_SONG");
    assert("HERO_SHIELD"@[0] != "EPONAS_SONG"@[0]);
    reveal_strlit("GILDEDSWORD");
    assert("HERO_SHIELD"@[0] != "GILDEDSWORD"@[0]);
    reveal_strlit("GOHTREMAINS");
    assert("HERO_SHIELD"@[0] != "GOHTREMAINS"@[0]);
    reveal_strlit("KAMARO_MASK");
    assert("HERO_SHIELD"@[0] != "KAMARO_MASK"@[0]);
    reveal_strlit("KEATON_MASK");
    assert("HERO_SHIELD"@[0] != "KEATON_MASK"@[0]);
    reveal_strlit("KOKIRISWORD");
    assert("HERO_SHIELD"@[0] != "KOKIRISWORD"@[0]);
    reveal_strlit("LENSOFTRUTH");
    assert("HERO_SHIELD"@[0] != "LENSOFTRUTH"@[0]);
    reveal_strlit("LIGHT_ARROW");
    assert("HERO_SHIELD"@[0] != "LIGHT_ARROW"@[0]);
    reveal_strlit("MASKOFTRUTH");
    assert("HERO_SHIELD"@[0] != "MASKOFTRUTH"@[0]);
    reveal_strlit("OATHTOORDER");
    assert("HERO_SHIELD"@[0] != "OATHTOORDER"@[0]);
    reveal_strlit("POSTMAN_HAT");
    assert("HERO_SHIELD"@[0] != "POSTMAN_HAT"@[0]);
    reveal_strlit("RAZOR_SWORD");
    assert("HERO_SHIELD"@[0] != "RAZOR_SWORD"@[0]);
    reveal_strlit("ROMANI_MASK");
    assert("HERO_SHIELD"@[0] != "ROMANI_MASK"@[0]);
    assert(spec_inventory_entries(s)[56].0@ == "HERO_SHIELD"@);
}

/// The inventory entry of `MIRROR_SHIELD` has its item count.
#[verifier::rlimit(40)]
proof fn lemma_entry_57(s: MmSave)
    ensures
        spec_inventory_entries(s)[57].1 as nat == spec_named_item_count(s, spec_inventory_entries(s)[57].0@),
{
    lemma_name_lengths();
    lemma_filled_slots_bound(s.inventory.bottles@);
    reveal_strlit("MIRROR_SHIELD");
    reveal_strlit("DON_GERO_MASK");
    assert("MIRROR_SHIELD"@[0] != "DON_GERO_MASK"@[0]);
    reveal_strlit("GORON_LULLABY");
    assert("MIRROR_SHIELD"@[0] != "GORON_LULLABY"@[0]);
    reveal_strlit("GYORG_REMAINS");
    assert("MIRROR_SHIELD"@[0] != "GYORG_REMAINS"@[0]);
    reveal_strlit("LENS_OF_TRUTH");
    assert("MIRROR_SHIELD"@[0] != "LENS_OF_TRUTH"@[0]);
    reveal_strlit("MASK_OF_TRUTH");
    assert("MIRROR_SHIELD"@[1] != "MASK_OF_TRUTH"@[1]);
    reveal_strlit("OATH_TO_ORDER");
    assert("MIRROR_SHIELD"@[0] != "OATH_TO_ORDER"@[0]);
    reveal_strlit("ODOLWAREMAINS");
    assert("MIRROR_SHIELD"@[0] != "ODOLWAREMAINS"@[0]);
    reveal_strlit("PICTOGRAPHBOX");
    assert("MIRROR_SHIELD"@[0] != "PICTOGRAPHBOX"@[0]);
    reveal_strlit("SONGOFHEALING");
    assert("MIRROR_SHIELD"@[0] != "SONGOFHEALING"@[0]);
    reveal_strlit("SONGOFSOARING");
    assert("MIRROR_SHIELD"@[0] != "SONGOFSOARING"@[0]);
    assert(spec_inventory_entries(s)[57].0@ == "MIRROR_SHIELD"@);
}

/// The inventory entry of `MAGIC_METER` has its item count.
#[verifier::rlimit(40)]
proof fn lemma_entry_58(s: MmSave)
    ensures
        spec_inventory_entries(s)[58].1 as nat == spec_named_item_count(s, spec_inventory_entries(s)[58].0@),
{
    lemma_name_lengths();
    lemma_filled_slots_bound(s.inventory.bottles@);
    reveal_strlit("MAGIC_METER");
    reveal_strlit("BOMB_BAG_20");
    assert("MAGIC_METER"@[0] != "BOMB_BAG_20"@[0]);
    reveal_strlit("BOMB_BAG_30");
    assert("MAGIC_METER"@[0] != "BOMB_BAG_30"@[0]);
    reveal_strlit("BOMB_BAG_40");
    assert("MAGIC_METER"@[0] != "BOMB_BAG_40"@[0]);
    reveal_strlit("BOSSREMAINS");
    assert("MAGIC_METER"@[0] != "BOSSREMAINS"@[0]);
    reveal_strlit("BREMEN_MASK");
    assert("MAGIC_METER"@[0] != "BREMEN_MASK"@[0]);
    reveal_strlit("CAPTAIN_HAT");
    assert("MAGIC_METER"@[0] != "CAPTAIN_HAT"@[0]);
    reveal_strlit("COUPLESMASK");
    assert("MAGIC_METER"@[0] != "COUPLESMASK"@[0]);
    reveal_strlit("DONGEROMASK");
    assert("MAGIC_METER"@[0] != "DONGEROMASK"@[0]);
    reveal_strlit("EPONAS_SONG");
    assert("MAGIC_METER"@[0] != "EPONAS_SONG"@[0]);
    reveal_strlit("GILDEDSWORD");
    assert("MAGIC_METER"@[0] != "GILDEDSWORD"@[0]);
    reveal_strlit("GOHTREMAINS");
    assert("MAGIC_METER"@[0] != "GOHTREMAINS"@[0]);
    reveal_strlit("HERO_SHIELD");
    assert("MAGIC_METER"@[0] != "HERO_SHIELD"@[0]);
    reveal_strlit("KAMARO_MASK");
    assert("MAGIC_METER"@[0] != "KAMARO_MASK"@[0]);
    reveal_strlit("KEATON_MASK");
    assert("MAGIC_METER"@[0] != "KEATON_MASK"@[0]);
    reveal_strlit("KOKIRISWORD");
    assert("MAGIC_METER"@[0] != "KOKIRISWORD"@[0]);
    reveal_strlit("LENSOFTRUTH");
    assert("MAGIC_METER"@[0] != "LENSOFTRUTH"@[0]);
    reveal_strlit("LIGHT_ARROW");
    assert("MAGIC_METER"@[0] != "LIGHT_ARROW"@[0]);
    reveal_strlit("MASKOFTRUTH");
    assert("MAGIC_METER"@[2] != "MASKOFTRUTH"@[2]);
    reveal_strlit("OATHTOORDER");
    assert("MAGIC_METER"@[0] != "OATHTOORDER"@[0]);
    reveal_strlit("POSTMAN_HAT");
    assert("MAGIC_METER"@[0] != "POSTMAN_HAT"@[0]);
    reveal_strlit("RAZOR_SWORD");
    assert("MAGIC_METER"@[0] != "RAZOR_SWORD"@[0]);
    reveal_strlit("ROMANI_MASK");
    assert("MAGIC_METER"@[0] != "ROMANI_MASK"@[0]);
    assert(spec_inventory_entries(s)[58].0@ == "MAGIC_METER"@);
}

/// The inventory entry of `DOUBLE_MAGIC` has its item count.
#[verifier::rlimit(40)]
proof fn lemma_entry_59(s: MmSave)
    ensures
        spec_inventory_entries(s)[59].1 as nat == spec_named_item_count(s, spec_inventory_entries(s)[59].0@),
{
    lemma_name_lengths();
    lemma_filled_slots_bound(s.inventory.bottles@);
    reveal_strlit("DOUBLE_MAGIC");
    reveal_strlit("ALLNIGHTMASK");
    assert("DOUBLE_MAGIC"@[0] != "ALLNIGHTMASK"@[0]);
    reveal_strlit("BOSS_REMAINS");
    assert("DOUBLE_MAGIC"@[0] != "BOSS_REMAINS"@[0]);
    reveal_strlit("COUPLES_MASK");
    assert("DOUBLE_MAGIC"@[0] != "COUPLES_MASK"@[0]);
    reveal_strlit("GILDED_SWORD");
    assert("DOUBLE_MAGIC"@[0] != "GILDED_SWORD"@[0]);
    reveal_strlit("GOHT_REMAINS");
    assert("DOUBLE_MAGIC"@[0] != "GOHT_REMAINS"@[0]);
    reveal_strlit("GORONLULLABY");
    assert("DOUBLE_MAGIC"@[0] != "GORONLULLABY"@[0]);
    reveal_strlit("GYORGREMAINS");
    assert("DOUBLE_MAGIC"@[0] != "GYORGREMAINS"@[0]);
    reveal_strlit("KOKIRI_SWORD");
    assert("DOUBLE_MAGIC"@[0] != "KOKIRI_SWORD"@[0]);
    reveal_strlit("MASKOFSCENTS");
    assert("DOUBLE_MAGIC"@[0] != "MASKOFSCENTS"@[0]);
    reveal_strlit("MIRRORSHIELD");
    assert("DOUBLE_MAGIC"@[0] != "MIRRORSHIELD"@[0]);
    reveal_strlit("SONGOFSTORMS");
    assert("DOUBLE_MAGIC"@[0] != "SONGOFSTORMS"@[0]);
    reveal_strlit("SONG_OF_TIME");
    assert("DOUBLE_MAGIC"@[0] != "SONG_OF_TIME"@[0]);
    assert(spec_inventory_entries(s)[59].0@ == "DOUBLE_MAGIC"@);
}

/// The inventory entry of `DOUBLE_DEFENSE` has its item count.
#[verifier::rlimit(40)]
proof fn lemma_entry_60(s: MmSave)
    ensures
        spec_inventory_entries(s)[60].1 as nat == spec_named_item_count(s, spec_inventory_entries(s)[60].0@),
{
    lemma_name_lengths();
    lemma_filled_slots_bound(s.inventory.bottles@);
    reveal_strlit("DOUBLE_DEFENSE");
    reveal_strlit("ALL_NIGHT_MASK");
    assert("DOUBLE_DEFENSE"@[0] != "ALL_NIGHT_MASK"@[0]);
    reveal_strlit("GREATFAIRYMASK");
    assert("DOUBLE_DEFENSE"@[0] != "GREATFAIRYMASK"@[0]);
    reveal_strlit("MASK_OF_SCENTS");
    assert("DOUBLE_DEFENSE"@[0] != "MASK_OF_SCENTS"@[0]);
    reveal_strlit("OCARINAOFTTIME");
    assert("DOUBLE_DEFENSE"@[0] != "OCARINAOFTTIME"@[0]);
    reveal_strlit("ODOLWA_REMAINS");
    assert("DOUBLE_DEFENSE"@[0] != "ODOLWA_REMAINS"@[0]);
    reveal_strlit("PICTOGRAPH_BOX");
    assert("DOUBLE_DEFENSE"@[0] != "PICTOGRAPH_BOX"@[0]);
    reveal_strlit("SONG_OF_STORMS");
    assert("DOUBLE_DEFENSE"@[0] != "SONG_OF_STORMS"@[0]);
    assert(spec_inventory_entries(s)[60].0@ == "DOUBLE_DEFENSE"@);
}

/// The inventory entry of `ADULT_WALLET` has its item count.
#[verifier::rlimit(40)]
proof fn lemma_entry_61(s: MmSave)
    ensures
        spec_inventory_entries(s)[61].1 as nat == spec_named_item_count(s, spec_inventory_entries(s)[61].0@),
{
    lemma_name_lengths();
    lemma_filled_slots_bound(s.inventory.bottles@);
    reveal_strlit("ADULT_WALLET");
    reveal_strlit("ALLNIGHTMASK");
    assert("ADULT_WALLET"@[1] != "ALLNIGHTMASK"@[1]);
    reveal_strlit("BOSS_REMAINS");
    assert("ADULT_WALLET"@[0] != "BOSS_REMAINS"@[0]);
    reveal_strlit("COUPLES_MASK");
    assert("ADULT_WALLET"@[0] != "COUPLES_MASK"@[0]);
    reveal_strlit("DOUBLE_MAGIC");
    assert("ADULT_WALLET"@[0] != "DOUBLE_MAGIC"@[0]);
    reveal_strlit("GILDED_SWORD");
    assert("ADULT_WALLET"@[0] != "GILDED_SWORD"@[0]);
    reveal_strlit("GOHT_REMAINS");
    assert("ADULT_WALLET"@[0] != "GOHT_REMAINS"@[0]);
    reveal_strlit("GORONLULLABY");
    assert("ADULT_WALLET"@[0] != "GORONLULLABY"@[0]);
    reveal_strlit("GYORGREMAINS");
    assert("ADULT_WALLET"@[0] != "GYORGREMAINS"@[0]);
    reveal_strlit("KOKIRI_SWORD");
    assert("ADULT_WALLET"@[0] != "KOKIRI_SWORD"@[0]);
    reveal_strlit("MASKOFSCENTS");
    assert("ADULT_WALLET"@[0] != "MASKOFSCENTS"@[0]);
    reveal_strlit("MIRRORSHIELD");
    assert("ADULT_WALLET"@[0] != "MIRRORSHIELD"@[0]);
    reveal_strlit("SONGOFSTORMS");
    assert("ADULT_WALLET"@[0] != "SONGOFSTORMS"@[0]);
    reveal_strlit("SONG_OF_TIME");
    assert("ADULT_WALLET"@[0] != "SONG_OF_TIME"@[0]);
    assert(spec_inventory_entries(s)[61].0@ == "ADULT_WALLET"@);
}

/// The inventory entry of `GIANT_WALLET` has its item count.
#[verifier::rlimit(40)]
proof fn lemma_entry_62(s: MmSave)
    ensures
        spec_inventory_entries(s)[62].1 as nat == spec_named_item_count(s, spec_inventory_entries(s)[62].0@),
{
    lemma_name_lengths();
    lemma_filled_slots_bound(s.inventory.bottles@);
    reveal_strlit("GIANT_WALLET");
    reveal_strlit("ADULT_WALLET");
    assert("GIANT_WALLET"@[0] != "ADULT_WALLET"@[0]);
    reveal_strlit("ALLNIGHTMASK");
    assert("GIANT_WALLET"@[0] != "ALLNIGHTMASK"@[0]);
    reveal_strlit("BOSS_REMAINS");
    assert("GIANT_WALLET"@[0] != "BOSS_REMAINS"@[0]);
    reveal_strlit("COUPLES_MASK");
    assert("GIANT_WALLET"@[0] != "COUPLES_MASK"@[0]);
    reveal_strlit("DOUBLE_MAGIC");
    assert("GIANT_WALLET"@[0] != "DOUBLE_MAGIC"@[0]);
    reveal_strlit("GILDED_SWORD");
    assert("GIANT_WALLET"@[2] != "GILDED_SWORD"@[2]);
    reveal_strlit("GOHT_REMAINS");
    assert("GIANT_WALLET"@[1] != "GOHT_REMAINS"@[1]);
    reveal_strlit("GORONLULLABY");
    assert("GIANT_WALLET"@[1] != "GORONLULLABY"@[1]);
    reveal_strlit("GYORGREMAINS");
    assert("GIANT_WALLET"@[1] != "GYORGREMAINS"@[1]);
    reveal_strlit("KOKIRI_SWORD");
    assert("GIANT_WALLET"@[0] != "KOKIRI_SWORD"@[0]);
    reveal_strlit("MASKOFSCENTS");
    assert("GIANT_WALLET"@[0] != "MASKOFSCENTS"@[0]);
    reveal_strlit("MIRRORSHIELD");
    assert("GIANT_WALLET"@[0] != "MIRRORSHIELD"@[0]);
    reveal_strlit("SONGOFSTORMS");
    assert("GIANT_WALLET"@[0] != "SONGOFSTORMS"@[0]);
    reveal_strlit("SONG_OF_TIME");
    assert("GIANT_WALLET"@[0] != "SONG_OF_TIME"@[0]);
    assert(spec_inventory_entries(s)[62].0@ == "GIANT_WALLET"@);
}

/// The inventory entry of `QUIVER_30` has its item count.
#[verifier::rlimit(40)]
proof fn lemma_entry_63(s: MmSave)
    ensures
        spec_inventory_entries(s)[63].1 as nat == spec_named_item_count(s, spec_inventory_entries(s)[63].0@),
{
    lemma_name_lengths();
    lemma_filled_slots_bound(s.inventory.bottles@);
    assert(spec_inventory_entries(s)[63].0@ == "QUIVER_30"@);
}

/// The inventory entry of `QUIVER_40` has its item count.
#[verifier::rlimit(40)]
proof fn lemma_entry_64(s: MmSave)
    ensures
        spec_inventory_entries(s)[64].1 as nat == spec_named_item_count(s, spec_inventory_entries(s)[64].0@),
{
    lemma_name_lengths();
    lemma_filled_slots_bound(s.inventory.bottles@);
    reveal_strlit("QUIVER_40");
    reveal_strlit("QUIVER_30");
    assert("QUIVER_40"@[7] != "QUIVER_30"@[7]);
    assert(spec_inventory_entries(s)[64].0@ == "QUIVER_40"@);
}

/// The inventory entry of `QUIVER_50` has its item count.
#[verifier::rlimit(40)]
proof fn lemma_entry_65(s: MmSave)
    ensures
        spec_inventory_entries(s)[65].1 as nat == spec_named_item_count(s, spec_inventory_entries(s)[65].0@),
{
    lemma_name_lengths();
    lemma_filled_slots_bound(s.inventory.bottles@);
    reveal_strlit("QUIVER_50");
    reveal_strlit("QUIVER_30");
    assert("QUIVER_50"@[7] != "QUIVER_30"@[7]);
    reveal_strlit("QUIVER_40");
    assert("QUIVER_50"@[7] != "QUIVER_40"@[7]);
    assert(spec_inventory_entries(s)[65].0@ == "QUIVER_50"@);
}

/// The inventory entry of `BOMB_BAG_20` has its item count.
#[verifier::rlimit(40)]
proof fn lemma_entry_66(s: MmSave)
    ensures
        spec_inventory_entries(s)[66].1 as nat == spec_named_item_count(s, spec_inventory_entries(s)[66].0@),
{
    lemma_name_lengths();
    lemma_filled_slots_bound(s.inventory.bottles@);
    reveal_strlit("BOMB_BAG_20");
    reveal_strlit("BOSSREMAINS");
    assert("BOMB_BAG_20"@[2] != "BOSSREMAINS"@[2]);
    assert(spec_inventory_entries(s)[66].0@ == "BOMB_BAG_20"@);
}

/// The inventory entry of `BOMB_BAG_30` has its item count.
#[verifier::rlimit(40)]
proof fn lemma_entry_67(s: MmSave)
    ensures
        spec_inventory_entries(s)[67].1 as nat == spec_named_item_count(s, spec_inventory_entries(s)[67].0@),
{
    lemma_name_lengths();
    lemma_filled_slots_bound(s.inventory.bottles@);
    reveal_strlit("BOMB_BAG_30");
    reveal_strlit("BOMB_BAG_20");
    assert("BOMB_BAG_30"@[9] != "BOMB_BAG_20"@[9]);
    reveal_strlit("BOSSREMAINS");
    assert("BOMB_BAG_30"@[2] != "BOSSREMAINS"@[2]);
    assert(spec_inventory_entries(s)[67].0@ == "BOMB_BAG_30"@);
}

/// The inventory entry of `BOMB_BAG_40` has its item count.
#[verifier::rlimit(40)]
proof fn lemma_entry_68(s: MmSave)
    ensures
        spec_inventory_entries(s)[68].1 as nat == spec_named_item_count(s, spec_inventory_entries(s)[68].0@),
{
    lemma_name_lengths();
    lemma_filled_slots_bound(s.inventory.bottles@);
    reveal_strlit("BOMB_BAG_40");
    reveal_strlit("BOMB_BAG_20");
    assert("BOMB_BAG_40"@[9] != "BOMB_BAG_20"@[9]);
    reveal_strlit("BOMB_BAG_30");
    assert("BOMB_BAG_40"@[9] != "BOMB_BAG_30"@[9]);
    reveal_strlit("BOSSREMAINS");
    assert("BOMB_BAG_40"@[2] != "BOSSREMAINS"@[2]);
    assert(spec_inventory_entries(s)[68].0@ == "BOMB_BAG_40"@);
}

/// The inventory entry of `BOTTLE` has its item count.
#[verifier::rlimit(40)]
proof fn lemma_entry_69(s: MmSave)
    ensures
        spec_inventory_entries(s)[69].1 as nat == spec_named_item_count(s, spec_inventory_entries(s)[69].0@),
{
    lemma_name_lengths();
    lemma_filled_slots_bound(s.inventory.bottles@);
    assert(spec_inventory_entries(s)[69].0@ == "BOTTLE"@);
}

/// The inventory entry of `SMALL_KEY_WOODFALL_TEMPLE` has its item count.
#[verifier::rlimit(40)]
proof fn lemma_entry_70(s: MmSave)
    ensures
        spec_inventory_entries(s)[70].1 as nat == spec_named_item_count(s, spec_inventory_entries(s)[70].0@),
{
    lemma_name_lengths();
    lemma_filled_slots_bound(s.inventory.bottles@);
    assert(spec_inventory_entries(s)[70].0@ == "SMALL_KEY_WOODFALL_TEMPLE"@);
}

/// The inventory entry of `SMALL_KEY_SNOWHEAD_TEMPLE` has its item count.
#[verifier::rlimit(40)]
proof fn lemma_entry_71(s: MmSave)
    ensures
        spec_inventory_entries(s)[71].1 as nat == spec_named_item_count(s, spec_inventory_entries(s)[71].0@),
{
    lemma_name_lengths();
    lemma_filled_slots_bound(s.inventory.bottles@);
    reveal_strlit("SMALL_KEY_SNOWHEAD_TEMPLE");
    reveal_strlit("SMALL_KEY_WOODFALL_TEMPLE");
    assert("SMALL_KEY_SNOWHEAD_TEMPLE"@[10] != "SMALL_KEY_WOODFALL_TEMPLE"@[10]);
    assert(spec_inventory_entries(s)[71].0@ == "SMALL_KEY_SNOWHEAD_TEMPLE"@);
}

/// The inventory entry of `SMALL_KEY_GREAT_BAY_TEMPLE` has its item count.
#[verifier::rlimit(40)]
proof fn lemma_entry_72(s: MmSave)
    ensures
        spec_inventory_entries(s)[72].1 as nat == spec_named_item_count(s, spec_inventory_entries(s)[72].0@),
{
    lemma_name_lengths();
    lemma_filled_slots_bound(s.inventory.bottles@);
    assert(spec_inventory_entries(s)[72].0@ == "SMALL_KEY_GREAT_BAY_TEMPLE"@);
}

/// The inventory entry of `SMALL_KEY_STONE_TOWER_TEMPLE` has its item count.
#[verifier::rlimit(40)]
proof fn lemma_entry_73(s: MmSave)
    ensures
        spec_inventory_entries(s)[73].1 as nat == spec_named_item_count(s, spec_inventory_entries(s)[73].0@),
{
    lemma_name_lengths();
    lemma_filled_slots_bound(s.inventory.bottles@);
    assert(spec_inventory_entries(s)[73].0@ == "SMALL_KEY_STONE_TOWER_TEMPLE"@);
}

/// The inventory entry of `STRAY_FAIRY_CLOCK_TOWN` has its item count.
#[verifier::rlimit(40)]
proof fn lemma_entry_74(s: MmSave)
    ensures
        spec_inventory_entries(s)[74].1 as nat == spec_named_item_count(s, spec_inventory_entries(s)[74].0@),
{
    lemma_name_lengths();
    lemma_filled_slots_bound(s.inventory.bottles@);
    reveal_strlit("STRAY_FAIRY_CLOCK_TOWN");
    reveal_strlit("SMALLKEYGREATBAYTEMPLE");
    assert("STRAY_FAIRY_CLOCK_TOWN"@[1] != "SMALLKEYGREATBAYTEMPLE"@[1]);
    reveal_strlit("SMALLKEYSNOWHEADTEMPLE");
    assert("STRAY_FAIRY_CLOCK_TOWN"@[1] != "SMALLKEYSNOWHEADTEMPLE"@[1]);
    reveal_strlit("SMALLKEYWOODFALLTEMPLE");
    assert("STRAY_FAIRY_CLOCK_TOWN"@[1] != "SMALLKEYWOODFALLTEMPLE"@[1]);
    assert(spec_inventory_entries(s)[74].0@ == "STRAY_FAIRY_CLOCK_TOWN"@);
}

/// The inventory entry of `STRAY_FAIRY_WOODFALL` has its item count.
#[verifier::rlimit(40)]
proof fn lemma_entry_75(s: MmSave)
    ensures
        spec_inventory_entries(s)[75].1 as nat == spec_named_item_count(s, spec_inventory_entries(s)[75].0@),
{
    lemma_name_lengths();
    lemma_filled_slots_bound(s.inventory.bottles@);
    assert(spec_inventory_entries(s)[75].0@ == "STRAY_FAIRY_WOODFALL"@);
}

/// The inventory entry of `STRAY_FAIRY_SNOWHEAD` has its item count.
#[verifier::rlimit(40)]
proof fn lemma_entry_76(s: MmSave)
    ensures
        spec_inventory_entries(s)[76].1 as nat == spec_named_item_count(s, spec_inventory_entries(s)[76].0@),
{
    lemma_name_lengths();
    lemma_filled_slots_bound(s.inventory.bottles@);
    reveal_strlit("STRAY_FAIRY_SNOWHEAD");
    reveal_strlit("STRAY_FAIRY_WOODFALL");
    assert("STRAY_FAIRY_SNOWHEAD"@[12] != "STRAY_FAIRY_WOODFALL"@[12]);
    assert(spec_inventory_entries(s)[76].0@ == "STRAY_FAIRY_SNOWHEAD"@);
}

/// The inventory entry of `STRAY_FAIRY_GREAT_BAY` has its item count.
#[verifier::rlimit(40)]
proof fn lemma_entry_77(s: MmSave)
    ensures
        spec_inventory_entries(s)[77].1 as nat == spec_named_item_count(s, spec_inventory_entries(s)[77].0@),
{
    lemma_name_lengths();
    lemma_filled_slots_bound(s.inventory.bottles@);
    assert(spec_inventory_entries(s)[77].0@ == "STRAY_FAIRY_GREAT_BAY"@);
}

/// The inventory entry of `STRAY_FAIRY_STONE_TOWER` has its item count.
#[verifier::rlimit(40)]
proof fn lemma_entry_78(s: MmSave)
    ensures
        spec_inventory_entries(s)[78].1 as nat == spec_named_item_count(s, spec_inventory_entries(s)[78].0@),
{
    lemma_name_lengths();
    lemma_filled_slots_bound(s.inventory.bottles@);
    assert(spec_inventory_entries(s)[78].0@ == "STRAY_FAIRY_STONE_TOWER"@);
}

/// Every inventory entry has its item count.
proof fn lemma_entries_have_counts(s: MmSave)
    ensures
        forall|j: int| 0 <= j < spec_inventory_entries(s).len() ==> (#[trigger] spec_inventory_entries(s)[j]).1 as nat
            == spec_named_item_count(s, spec_inventory_entries(s)[j].0@),
{
    assert(spec_inventory_entries(s).len() == 79);
    assert forall|j: int| 0 <= j < spec_inventory_entries(s).len() implies (#[trigger] spec_inventory_entries(s)[j]).1 as nat
        == spec_named_item_count(s, spec_inventory_entries(s)[j].0@) by {
        if j == 0 { lemma_entry_0(s); }
        if j == 1 { lemma_entry_1(s); }
        if j == 2 { lemma_entry_2(s); }
        if j == 3 { lemma_entry_3(s); }
        if j == 4 { lemma_entry_4(s); }
        if j == 5 { lemma_entry_5(s); }
        if j == 6 { lemma_entry_6(s); }
        if j == 7 { lemma_entry_7(s); }
        if j == 8 { lemma_entry_8(s); }
        if j == 9 { lemma_entry_9(s); }
        if j == 10 { lemma_entry_10(s); }
        if j == 11 { lemma_entry_11(s); }
        if j == 12 { lemma_entry_12(s); }
        if j == 13 { lemma_entry_13(s); }
        if j == 14 { lemma_entry_14(s); }
        if j == 15 { lemma_entry_15(s); }
        if j == 16 { lemma_entry_16(s); }
        if j == 17 { lemma_entry_17(s); }
        if j == 18 { lemma_entry_18(s); }
        if j == 19 { lemma_entry_19(s); }
        if j == 20 { lemma_entry_20(s); }
        if j == 21 { lemma_entry_21(s); }
        if j == 22 { lemma_entry_22(s); }
        if j == 23 { lemma_entry_23(s); }
        if j == 24 { lemma_entry_24(s); }
        if j == 25 { lemma_entry_25(s); }
        if j == 26 { lemma_entry_26(s); }
        if j == 27 { lemma_entry_27(s); }
        if j == 28 { lemma_entry_28(s); }
        if j == 29 { lemma_entry_29(s); }
        if j == 30 { lemma_entry_30(s); }
        if j == 31 { lemma_entry_31(s); }
        if j == 32 { lemma_entry_32(s); }
        if j == 33 { lemma_entry_33(s); }
        if j == 34 { lemma_entry_34(s); }
        if j == 35 { lemma_entry_35(s); }
        if j == 36 { lemma_entry_36(s); }
        if j == 37 { lemma_entry_37(s); }
        if j == 38 { lemma_entry_38(s); }
        if j == 39 { lemma_entry_39(s); }
        if j == 40 { lemma_entry_40(s); }
        if j == 41 { lemma_entry_41(s); }
        if j == 42 { lemma_entry_42(s); }
        if j == 43 { lemma_entry_43(s); }
        if j == 44 { lemma_entry_44(s); }
        if j == 45 { lemma_entry_45(s); }
        if j == 46 { lemma_entry_46(s); }
        if j == 47 { lemma_entry_47(s); }
        if j == 48 { lemma_entry_48(s); }
        if j == 49 { lemma_entry_49(s); }
        if j == 50 { lemma_entry_50(s); }
        if j == 51 { lemma_entry_51(s); }
        if j == 52 { lemma_entry_52(s); }
        if j == 53 { lemma_entry_53(s); }
        if j == 54 { lemma_entry_54(s); }
        if j == 55 { lemma_entry_55(s); }
        if j == 56 { lemma_entry_56(s); }
        if j == 57 { lemma_entry_57(s); }
        if j == 58 { lemma_entry_58(s); }
        if j == 59 { lemma_entry_59(s); }
        if j == 60 { lemma_entry_60(s); }
        if j == 61 { lemma_entry_61(s); }
        if j == 62 { lemma_entry_62(s); }
        if j == 63 { lemma_entry_63(s); }
        if j == 64 { lemma_entry_64(s); }
        if j == 65 { lemma_entry_65(s); }
        if j == 66 { lemma_entry_66(s); }
        if j == 67 { lemma_entry_67(s); }
        if j == 68 { lemma_entry_68(s); }
        if j == 69 { lemma_entry_69(s); }
        if j == 70 { lemma_entry_70(s); }
        if j == 71 { lemma_entry_71(s); }
        if j == 72 { lemma_entry_72(s); }
        if j == 73 { lemma_entry_73(s); }
        if j == 74 { lemma_entry_74(s); }
        if j == 75 { lemma_entry_75(s); }
        if j == 76 { lemma_entry_76(s); }
        if j == 77 { lemma_entry_77(s); }
        if j == 78 { lemma_entry_78(s); }
    }
}

/// Law: the inventory built from a save holds an identifier exactly when it
/// is one of the inventory's logic identifiers and its item count is
/// positive, and then with that count.
pub proof fn lemma_inventory_matches_item_count(s: MmSave, k: Seq<char>)
    ensures
        spec_inventory(s).contains_key(k) == ((exists|j: int|
            0 <= j < spec_inventory_entries(s).len() && (#[trigger] spec_inventory_entries(s)[j]).0@ == k)
            && spec_named_item_count(s, k) > 0),
        spec_inventory(s).contains_key(k) ==> spec_inventory(s)[k] == spec_named_item_count(s, k),
{
    lemma_entries_have_counts(s);
    lemma_map_of_counts(spec_inventory_entries(s), |n: Seq<char>| spec_named_item_count(s, n), k);
}


/// The inventory's entries name the logic identifiers, in order.
proof fn lemma_entry_names(s: MmSave)
    ensures
        spec_inventory_entries(s).len() == spec_all_logic_ids().len(),
        forall|i: int| 0 <= i < spec_all_logic_ids().len() ==> (#[trigger] spec_inventory_entries(s)[i]).0
            == spec_all_logic_ids()[i],
{
    assert(spec_inventory_entries(s).map_values(|e: (&'static str, u32)| e.0) =~= spec_all_logic_ids());
    assert forall|i: int| 0 <= i < spec_all_logic_ids().len() implies (#[trigger] spec_inventory_entries(s)[i]).0
        == spec_all_logic_ids()[i] by {
        assert(spec_inventory_entries(s).map_values(|e: (&'static str, u32)| e.0)[i] == spec_inventory_entries(s)[i].0);
    }
}

/// Law: for every logic identifier, the inventory built from a save holds it
/// exactly when its item count is positive, and then with that count; the
/// inventory holds nothing but logic identifiers, each with a count of at
/// least one.
pub proof fn lemma_inventory_of_logic_ids(s: MmSave)
    ensures
        forall|i: int|
            0 <= i < spec_all_logic_ids().len() ==> {
                let k = (#[trigger] spec_all_logic_ids()[i])@;
                &&& spec_inventory(s).contains_key(k) == (spec_named_item_count(s, k) > 0)
                &&& spec_inventory(s).contains_key(k) ==> spec_inventory(s)[k] == spec_named_item_count(s, k)
            },
        forall|k: Seq<char>|
            #[trigger] spec_inventory(s).contains_key(k) ==> (exists|i: int|
                0 <= i < spec_all_logic_ids().len() && (#[trigger] spec_all_logic_ids()[i])@ == k)
                && spec_inventory(s)[k] >= 1,
{
    lemma_entry_names(s);
    let e = spec_inventory_entries(s);
    assert forall|i: int| 0 <= i < spec_all_logic_ids().len() implies {
        let k = (#[trigger] spec_all_logic_ids()[i])@;
        &&& spec_inventory(s).contains_key(k) == (spec_named_item_count(s, k) > 0)
        &&& spec_inventory(s).contains_key(k) ==> spec_inventory(s)[k] == spec_named_item_count(s, k)
    } by {
        let k = spec_all_logic_ids()[i]@;
        lemma_inventory_matches_item_count(s, k);
        assert(e[i].0@ == k);
    }
    assert forall|k: Seq<char>| #[trigger] spec_inventory(s).contains_key(k) implies (exists|i: int|
        0 <= i < spec_all_logic_ids().len() && (#[trigger] spec_all_logic_ids()[i])@ == k)
        && spec_inventory(s)[k] >= 1 by {
        lemma_inventory_matches_item_count(s, k);
        let j = choose|j: int| 0 <= j < e.len() && (#[trigger] e[j]).0@ == k;
        assert(spec_all_logic_ids()[j] == e[j].0);
    }
}

/// The inventory holds the QUIVER_30 tier, with count 1, exactly when the level reaches it.
#[verifier::rlimit(40)]
proof fn lemma_tier_quiver_30(s: MmSave)
    ensures
        spec_inventory(s).contains_key("QUIVER_30"@) == (spec_quiver_level(s) >= 1),
        spec_inventory(s).contains_key("QUIVER_30"@) ==> spec_inventory(s)["QUIVER_30"@] == 1,
{
    lemma_inventory_matches_item_count(s, "QUIVER_30"@);
    lemma_entry_63(s);
    assert(spec_inventory_entries(s)[63].0@ == "QUIVER_30"@);
}

/// The inventory holds the QUIVER_40 tier, with count 1, exactly when the level reaches it.
#[verifier::rlimit(40)]
proof fn lemma_tier_quiver_40(s: MmSave)
    ensures
        spec_inventory(s).contains_key("QUIVER_40"@) == (spec_quiver_level(s) >= 2),
        spec_inventory(s).contains_key("QUIVER_40"@) ==> spec_inventory(s)["QUIVER_40"@] == 1,
{
    lemma_inventory_matches_item_count(s, "QUIVER_40"@);
    lemma_entry_64(s);
    assert(spec_inventory_entries(s)[64].0@ == "QUIVER_40"@);
}

/// The inventory holds the QUIVER_50 tier, with count 1, exactly when the level reaches it.
#[verifier::rlimit(40)]
proof fn lemma_tier_quiver_50(s: MmSave)
    ensures
        spec_inventory(s).contains_key("QUIVER_50"@) == (spec_quiver_level(s) >= 3),
        spec_inventory(s).contains_key("QUIVER_50"@) ==> spec_inventory(s)["QUIVER_50"@] == 1,
{
    lemma_inventory_matches_item_count(s, "QUIVER_50"@);
    lemma_entry_65(s);
    assert(spec_inventory_entries(s)[65].0@ == "QUIVER_50"@);
}

/// The inventory holds the BOMB_BAG_20 tier, with count 1, exactly when the level reaches it.
#[verifier::rlimit(40)]
proof fn lemma_tier_bomb_bag_20(s: MmSave)
    ensures
        spec_inventory(s).contains_key("BOMB_BAG_20"@) == (spec_bomb_bag_level(s) >= 1),
        spec_inventory(s).contains_key("BOMB_BAG_20"@) ==> spec_inventory(s)["BOMB_BAG_20"@] == 1,
{
    lemma_inventory_matches_item_count(s, "BOMB_BAG_20"@);
    lemma_entry_66(s);
    assert(spec_inventory_entries(s)[66].0@ == "BOMB_BAG_20"@);
}

/// The inventory holds the BOMB_BAG_30 tier, with count 1, exactly when the level reaches it.
#[verifier::rlimit(40)]
proof fn lemma_tier_bomb_bag_30(s: MmSave)
    ensures
        spec_inventory(s).contains_key("BOMB_BAG_30"@) == (spec_bomb_bag_level(s) >= 2),
        spec_inventory(s).contains_key("BOMB_BAG_30"@) ==> spec_inventory(s)["BOMB_BAG_30"@] == 1,
{
    lemma_inventory_matches_item_count(s, "BOMB_BAG_30"@);
    lemma_entry_67(s);
    assert(spec_inventory_entries(s)[67].0@ == "BOMB_BAG_30"@);
}

/// The inventory holds the BOMB_BAG_40 tier, with count 1, exactly when the level reaches it.
#[verifier::rlimit(40)]
proof fn lemma_tier_bomb_bag_40(s: MmSave)
    ensures
        spec_inventory(s).contains_key("BOMB_BAG_40"@) == (spec_bomb_bag_level(s) >= 3),
        spec_inventory(s).contains_key("BOMB_BAG_40"@) ==> spec_inventory(s)["BOMB_BAG_40"@] == 1,
{
    lemma_inventory_matches_item_count(s, "BOMB_BAG_40"@);
    lemma_entry_68(s);
    assert(spec_inventory_entries(s)[68].0@ == "BOMB_BAG_40"@);
}

/// Law: the quiver and bomb bag tiers are cumulative: the inventory holds a
/// tier, with count 1, exactly when the upgrade level reaches it.
pub proof fn lemma_inventory_tiers(s: MmSave)
    ensures
        spec_inventory(s).contains_key("QUIVER_30"@) == (spec_quiver_level(s) >= 1),
        spec_inventory(s).contains_key("QUIVER_30"@) ==> spec_inventory(s)["QUIVER_30"@] == 1,
        spec_inventory(s).contains_key("QUIVER_40"@) == (spec_quiver_level(s) >= 2),
        spec_inventory(s).contains_key("QUIVER_40"@) ==> spec_inventory(s)["QUIVER_40"@] == 1,
        spec_inventory(s).contains_key("QUIVER_50"@) == (spec_quiver_level(s) >= 3),
        spec_inventory(s).contains_key("QUIVER_50"@) ==> spec_inventory(s)["QUIVER_50"@] == 1,
        spec_inventory(s).contains_key("BOMB_BAG_20"@) == (spec_bomb_bag_level(s) >= 1),
        spec_inventory(s).contains_key("BOMB_BAG_20"@) ==> spec_inventory(s)["BOMB_BAG_20"@] == 1,
        spec_inventory(s).contains_key("BOMB_BAG_30"@) == (spec_bomb_bag_level(s) >= 2),
        spec_inventory(s).contains_key("BOMB_BAG_30"@) ==> spec_inventory(s)["BOMB_BAG_30"@] == 1,
        spec_inventory(s).contains_key("BOMB_BAG_40"@) == (spec_bomb_bag_level(s) >= 3),
        spec_inventory(s).contains_key("BOMB_BAG_40"@) ==> spec_inventory(s)["BOMB_BAG_40"@] == 1,
{
    lemma_tier_quiver_30(s);
    lemma_tier_quiver_40(s);
    lemma_tier_quiver_50(s);
    lemma_tier_bomb_bag_20(s);
    lemma_tier_bomb_bag_30(s);
    lemma_tier_bomb_bag_40(s);
}

} // verus!
