//! Evaluation context for OoT logic expressions, reading item possession
//! and age from OoT save data.

use vstd::prelude::*;

use crate::eval_context::EvalContext;
use crate::save::{
    Bottle, Equipment, Hookshot, MagicCapacity, Ocarina, QuestItems, Save, Upgrades, BOTTLE_SLOTS,
};
use crate::text::{spec_ascii_upper, spec_is_ascii, spec_to_uppercase, str_eq, to_uppercase};

verus! {

/// Whether some bottle slot holds a bottle.
pub open spec fn spec_has_any_bottle(s: Save) -> bool {
    exists|i: int| 0 <= i < s.inv.bottles@.len() && #[trigger] s.inv.bottles@[i] != Bottle::NoBottle
}

/// Whether the save has the item with uppercase logic name `name`; `false`
/// for an unknown name.
pub open spec fn spec_oot_has_named_item(s: Save, name: Seq<char>) -> bool {
    if name == "BOW"@ {
        s.inv.bow
    } else if name == "FIRE_ARROW"@ || name == "FIRE_ARROWS"@ {
        s.inv.fire_arrows
    } else if name == "ICE_ARROW"@ || name == "ICE_ARROWS"@ {
        s.inv.ice_arrows
    } else if name == "LIGHT_ARROW"@ || name == "LIGHT_ARROWS"@ {
        s.inv.light_arrows
    } else if name == "DINS_FIRE"@ || name == "DIN"@ {
        s.inv.dins_fire
    } else if name == "FARORES_WIND"@ || name == "FARORE"@ {
        s.inv.farores_wind
    } else if name == "NAYRUS_LOVE"@ || name == "NAYRU"@ {
        s.inv.nayrus_love
    } else if name == "SLINGSHOT"@ || name == "FAIRY_SLINGSHOT"@ {
        s.inv.slingshot
    } else if name == "OCARINA"@ || name == "OCARINA_OF_TIME"@ || name == "FAIRY_OCARINA"@ {
        s.inv.ocarina != Ocarina::NoOcarina
    } else if name == "BOMBCHU"@ || name == "BOMBCHUS"@ {
        s.inv.bombchus
    } else if name == "HOOKSHOT"@ {
        s.inv.hookshot == Hookshot::Hookshot || s.inv.hookshot == Hookshot::Longshot
    } else if name == "LONGSHOT"@ {
        s.inv.hookshot == Hookshot::Longshot
    } else if name == "BOOMERANG"@ {
        s.inv.boomerang
    } else if name == "LENS"@ || name == "LENS_OF_TRUTH"@ {
        s.inv.lens
    } else if name == "MAGIC_BEAN"@ || name == "BEANS"@ {
        s.inv.beans
    } else if name == "HAMMER"@ || name == "MEGATON_HAMMER"@ {
        s.inv.hammer
    } else if name == "KOKIRI_SWORD"@ {
        s.equipment & Equipment::KOKIRI_SWORD == Equipment::KOKIRI_SWORD
    } else if name == "MASTER_SWORD"@ {
        s.equipment & Equipment::MASTER_SWORD == Equipment::MASTER_SWORD
    } else if name == "GIANTS_KNIFE"@ || name == "BIGGORON_SWORD"@ || name == "SWORD_BIGGORON"@ {
        s.biggoron_sword || s.equipment & Equipment::GIANTS_KNIFE == Equipment::GIANTS_KNIFE
    } else if name == "DEKU_SHIELD"@ {
        s.equipment & Equipment::DEKU_SHIELD == Equipment::DEKU_SHIELD
    } else if name == "HYLIAN_SHIELD"@ {
        s.equipment & Equipment::HYLIAN_SHIELD == Equipment::HYLIAN_SHIELD
    } else if name == "MIRROR_SHIELD"@ {
        s.equipment & Equipment::MIRROR_SHIELD == Equipment::MIRROR_SHIELD
    } else if name == "GORON_TUNIC"@ {
        s.equipment & Equipment::GORON_TUNIC == Equipment::GORON_TUNIC
    } else if name == "ZORA_TUNIC"@ {
        s.equipment & Equipment::ZORA_TUNIC == Equipment::ZORA_TUNIC
    } else if name == "IRON_BOOTS"@ {
        s.equipment & Equipment::IRON_BOOTS == Equipment::IRON_BOOTS
    } else if name == "HOVER_BOOTS"@ {
        s.equipment & Equipment::HOVER_BOOTS == Equipment::HOVER_BOOTS
    } else if name == "GORON_BRACELET"@ || name == "STRENGTH"@ {
        s.upgrades & Upgrades::GORON_BRACELET == Upgrades::GORON_BRACELET
    } else if name == "SILVER_GAUNTLETS"@ {
        s.upgrades & Upgrades::SILVER_GAUNTLETS == Upgrades::SILVER_GAUNTLETS
    } else if name == "GOLD_GAUNTLETS"@ || name == "GOLDEN_GAUNTLETS"@ {
        s.upgrades & Upgrades::GOLD_GAUNTLETS == Upgrades::GOLD_GAUNTLETS
    } else if name == "SILVER_SCALE"@ || name == "SCALE"@ {
        s.upgrades & Upgrades::SILVER_SCALE == Upgrades::SILVER_SCALE
    } else if name == "GOLD_SCALE"@ || name == "GOLDEN_SCALE"@ {
        s.upgrades & Upgrades::GOLD_SCALE == Upgrades::GOLD_SCALE
    } else if name == "BOMB_BAG"@ || name == "BOMBS"@ {
        s.upgrades & (Upgrades::BOMB_BAG_20 | Upgrades::BOMB_BAG_30 | Upgrades::BOMB_BAG_40) != 0
    } else if name == "QUIVER"@ {
        s.upgrades & (Upgrades::QUIVER_50 | Upgrades::QUIVER_40 | Upgrades::QUIVER_30) != 0
    } else if name == "BULLET_BAG"@ {
        s.upgrades & (Upgrades::BULLET_BAG_30 | Upgrades::BULLET_BAG_40 | Upgrades::BULLET_BAG_50) != 0
    } else if name == "WALLET"@ || name == "ADULTS_WALLET"@ || name == "GIANTS_WALLET"@ {
        s.upgrades & Upgrades::WALLET_MASK != 0
    } else if name == "MAGIC"@ || name == "MAGIC_METER"@ {
        s.magic != MagicCapacity::NoMagic
    } else if name == "DOUBLE_MAGIC"@ {
        s.magic == MagicCapacity::Large
    } else if name == "ZELDAS_LULLABY"@ || name == "LULLABY"@ {
        s.quest_items & QuestItems::ZELDAS_LULLABY == QuestItems::ZELDAS_LULLABY
    } else if name == "EPONAS_SONG"@ || name == "EPONA"@ {
        s.quest_items & QuestItems::EPONAS_SONG == QuestItems::EPONAS_SONG
    } else if name == "SARIAS_SONG"@ || name == "SARIA"@ {
        s.quest_items & QuestItems::SARIAS_SONG == QuestItems::SARIAS_SONG
    } else if name == "SUNS_SONG"@ || name == "SUN"@ {
        s.quest_items & QuestItems::SUNS_SONG == QuestItems::SUNS_SONG
    } else if name == "SONG_OF_TIME"@ || name == "TIME"@ {
        s.quest_items & QuestItems::SONG_OF_TIME == QuestItems::SONG_OF_TIME
    } else if name == "SONG_OF_STORMS"@ || name == "STORMS"@ {
        s.quest_items & QuestItems::SONG_OF_STORMS == QuestItems::SONG_OF_STORMS
    } else if name == "MINUET_OF_FOREST"@ || name == "MINUET"@ {
        s.quest_items & QuestItems::MINUET_OF_FOREST == QuestItems::MINUET_OF_FOREST
    } else if name == "BOLERO_OF_FIRE"@ || name == "BOLERO"@ {
        s.quest_items & QuestItems::BOLERO_OF_FIRE == QuestItems::BOLERO_OF_FIRE
    } else if name == "SERENADE_OF_WATER"@ || name == "SERENADE"@ {
        s.quest_items & QuestItems::SERENADE_OF_WATER == QuestItems::SERENADE_OF_WATER
    } else if name == "REQUIEM_OF_SPIRIT"@ || name == "REQUIEM"@ {
        s.quest_items & QuestItems::REQUIEM_OF_SPIRIT == QuestItems::REQUIEM_OF_SPIRIT
    } else if name == "NOCTURNE_OF_SHADOW"@ || name == "NOCTURNE"@ {
        s.quest_items & QuestItems::NOCTURNE_OF_SHADOW == QuestItems::NOCTURNE_OF_SHADOW
    } else if name == "PRELUDE_OF_LIGHT"@ || name == "PRELUDE"@ {
        s.quest_items & QuestItems::PRELUDE_OF_LIGHT == QuestItems::PRELUDE_OF_LIGHT
    } else if name == "KOKIRI_EMERALD"@ {
        s.quest_items & QuestItems::KOKIRI_EMERALD == QuestItems::KOKIRI_EMERALD
    } else if name == "GORON_RUBY"@ {
        s.quest_items & QuestItems::GORON_RUBY == QuestItems::GORON_RUBY
    } else if name == "ZORA_SAPPHIRE"@ {
        s.quest_items & QuestItems::ZORA_SAPPHIRE == QuestItems::ZORA_SAPPHIRE
    } else if name == "FOREST_MEDALLION"@ {
        s.quest_items & QuestItems::FOREST_MEDALLION == QuestItems::FOREST_MEDALLION
    } else if name == "FIRE_MEDALLION"@ {
        s.quest_items & QuestItems::FIRE_MEDALLION == QuestItems::FIRE_MEDALLION
    } else if name == "WATER_MEDALLION"@ {
        s.quest_items & QuestItems::WATER_MEDALLION == QuestItems::WATER_MEDALLION
    } else if name == "SPIRIT_MEDALLION"@ {
        s.quest_items & QuestItems::SPIRIT_MEDALLION == QuestItems::SPIRIT_MEDALLION
    } else if name == "SHADOW_MEDALLION"@ {
        s.quest_items & QuestItems::SHADOW_MEDALLION == QuestItems::SHADOW_MEDALLION
    } else if name == "LIGHT_MEDALLION"@ {
        s.quest_items & QuestItems::LIGHT_MEDALLION == QuestItems::LIGHT_MEDALLION
    } else if name == "GERUDO_CARD"@ || name == "GERUDO_MEMBERSHIP_CARD"@ {
        s.quest_items & QuestItems::GERUDO_CARD == QuestItems::GERUDO_CARD
    } else if name == "STONE_OF_AGONY"@ {
        s.quest_items & QuestItems::STONE_OF_AGONY == QuestItems::STONE_OF_AGONY
    } else if name == "BOTTLE"@ || name == "EMPTY_BOTTLE"@ {
        spec_has_any_bottle(s)
    } else if name == "DEKU_STICK"@ || name == "STICKS"@ {
        s.upgrades & Upgrades::DEKU_STICK_CAPACITY_MASK != 0
    } else if name == "DEKU_NUT"@ || name == "NUTS"@ {
        s.upgrades & Upgrades::DEKU_NUT_CAPACITY_MASK != 0
    } else {
        false
    }
}

/// Context for evaluating OoT logic expressions from save data.
pub struct OotEvalContext<'a> {
    save: &'a Save,
}

impl<'a> View for OotEvalContext<'a> {
    type V = Save;

    closed spec fn view(&self) -> Save {
        *self.save
    }
}

/// Whether some bottle slot of the save holds a bottle.
fn has_any_bottle(save: &Save) -> (r: bool)
    ensures
        r == spec_has_any_bottle(*save),
{
    let bottles = &save.inv.bottles;
    let mut i: usize = 0;
    while i < BOTTLE_SLOTS
        invariant
            i <= BOTTLE_SLOTS,
            bottles@.len() == BOTTLE_SLOTS,
            bottles@ == save.inv.bottles@,
            forall|j: int| 0 <= j < i ==> bottles@[j] == Bottle::NoBottle,
        decreases BOTTLE_SLOTS - i,
    {
        if bottles[i] != Bottle::NoBottle {
            return true;
        }
        i = i + 1;
    }
    false
}

impl<'a> OotEvalContext<'a> {
    /// Creates a new evaluation context from save data.
    pub fn new(save: &'a Save) -> (r: Self)
        ensures
            r@ == *save,
    {
        OotEvalContext { save }
    }

    /// Whether the save has the item with uppercase logic name `name`.
    pub fn has_uppercase_item(&self, name: &str) -> (r: bool)
        ensures
            r == spec_oot_has_named_item(self@, name@),
    {
        if str_eq(name, "BOW") {
            self.save.inv.bow
        } else if str_eq(name, "FIRE_ARROW") || str_eq(name, "FIRE_ARROWS") {
            self.save.inv.fire_arrows
        } else if str_eq(name, "ICE_ARROW") || str_eq(name, "ICE_ARROWS") {
            self.save.inv.ice_arrows
        } else if str_eq(name, "LIGHT_ARROW") || str_eq(name, "LIGHT_ARROWS") {
            self.save.inv.light_arrows
        } else if str_eq(name, "DINS_FIRE") || str_eq(name, "DIN") {
            self.save.inv.dins_fire
        } else if str_eq(name, "FARORES_WIND") || str_eq(name, "FARORE") {
            self.save.inv.farores_wind
        } else if str_eq(name, "NAYRUS_LOVE") || str_eq(name, "NAYRU") {
            self.save.inv.nayrus_love
        } else if str_eq(name, "SLINGSHOT") || str_eq(name, "FAIRY_SLINGSHOT") {
            self.save.inv.slingshot
        } else if str_eq(name, "OCARINA") || str_eq(name, "OCARINA_OF_TIME") || str_eq(name, "FAIRY_OCARINA") {
            self.save.inv.ocarina != Ocarina::NoOcarina
        } else if str_eq(name, "BOMBCHU") || str_eq(name, "BOMBCHUS") {
            self.save.inv.bombchus
        } else if str_eq(name, "HOOKSHOT") {
            self.save.inv.hookshot == Hookshot::Hookshot || self.save.inv.hookshot == Hookshot::Longshot
        } else if str_eq(name, "LONGSHOT") {
            self.save.inv.hookshot == Hookshot::Longshot
        } else if str_eq(name, "BOOMERANG") {
            self.save.inv.boomerang
        } else if str_eq(name, "LENS") || str_eq(name, "LENS_OF_TRUTH") {
            self.save.inv.lens
        } else if str_eq(name, "MAGIC_BEAN") || str_eq(name, "BEANS") {
            self.save.inv.beans
        } else if str_eq(name, "HAMMER") || str_eq(name, "MEGATON_HAMMER") {
            self.save.inv.hammer
        } else if str_eq(name, "KOKIRI_SWORD") {
            self.save.equipment & Equipment::KOKIRI_SWORD == Equipment::KOKIRI_SWORD
        } else if str_eq(name, "MASTER_SWORD") {
            self.save.equipment & Equipment::MASTER_SWORD == Equipment::MASTER_SWORD
        } else if str_eq(name, "GIANTS_KNIFE") || str_eq(name, "BIGGORON_SWORD") || str_eq(name, "SWORD_BIGGORON") {
            self.save.biggoron_sword || self.save.equipment & Equipment::GIANTS_KNIFE == Equipment::GIANTS_KNIFE
        } else if str_eq(name, "DEKU_SHIELD") {
            self.save.equipment & Equipment::DEKU_SHIELD == Equipment::DEKU_SHIELD
        } else if str_eq(name, "HYLIAN_SHIELD") {
            self.save.equipment & Equipment::HYLIAN_SHIELD == Equipment::HYLIAN_SHIELD
        } else if str_eq(name, "MIRROR_SHIELD") {
            self.save.equipment & Equipment::MIRROR_SHIELD == Equipment::MIRROR_SHIELD
        } else if str_eq(name, "GORON_TUNIC") {
            self.save.equipment & Equipment::GORON_TUNIC == Equipment::GORON_TUNIC
        } else if str_eq(name, "ZORA_TUNIC") {
            self.save.equipment & Equipment::ZORA_TUNIC == Equipment::ZORA_TUNIC
        } else if str_eq(name, "IRON_BOOTS") {
            self.save.equipment & Equipment::IRON_BOOTS == Equipment::IRON_BOOTS
        } else if str_eq(name, "HOVER_BOOTS") {
            self.save.equipment & Equipment::HOVER_BOOTS == Equipment::HOVER_BOOTS
        } else if str_eq(name, "GORON_BRACELET") || str_eq(name, "STRENGTH") {
            self.save.upgrades & Upgrades::GORON_BRACELET == Upgrades::GORON_BRACELET
        } else if str_eq(name, "SILVER_GAUNTLETS") {
            self.save.upgrades & Upgrades::SILVER_GAUNTLETS == Upgrades::SILVER_GAUNTLETS
        } else if str_eq(name, "GOLD_GAUNTLETS") || str_eq(name, "GOLDEN_GAUNTLETS") {
            self.save.upgrades & Upgrades::GOLD_GAUNTLETS == Upgrades::GOLD_GAUNTLETS
        } else if str_eq(name, "SILVER_SCALE") || str_eq(name, "SCALE") {
            self.save.upgrades & Upgrades::SILVER_SCALE == Upgrades::SILVER_SCALE
        } else if str_eq(name, "GOLD_SCALE") || str_eq(name, "GOLDEN_SCALE") {
            self.save.upgrades & Upgrades::GOLD_SCALE == Upgrades::GOLD_SCALE
        } else if str_eq(name, "BOMB_BAG") || str_eq(name, "BOMBS") {
            self.save.upgrades & (Upgrades::BOMB_BAG_20 | Upgrades::BOMB_BAG_30 | Upgrades::BOMB_BAG_40) != 0
        } else if str_eq(name, "QUIVER") {
            self.save.upgrades & (Upgrades::QUIVER_50 | Upgrades::QUIVER_40 | Upgrades::QUIVER_30) != 0
        } else if str_eq(name, "BULLET_BAG") {
            self.save.upgrades & (Upgrades::BULLET_BAG_30 | Upgrades::BULLET_BAG_40 | Upgrades::BULLET_BAG_50) != 0
        } else if str_eq(name, "WALLET") || str_eq(name, "ADULTS_WALLET") || str_eq(name, "GIANTS_WALLET") {
            self.save.upgrades & Upgrades::WALLET_MASK != 0
        } else if str_eq(name, "MAGIC") || str_eq(name, "MAGIC_METER") {
            self.save.magic != MagicCapacity::NoMagic
        } else if str_eq(name, "DOUBLE_MAGIC") {
            self.save.magic == MagicCapacity::Large
        } else if str_eq(name, "ZELDAS_LULLABY") || str_eq(name, "LULLABY") {
            self.save.quest_items & QuestItems::ZELDAS_LULLABY == QuestItems::ZELDAS_LULLABY
        } else if str_eq(name, "EPONAS_SONG") || str_eq(name, "EPONA") {
            self.save.quest_items & QuestItems::EPONAS_SONG == QuestItems::EPONAS_SONG
        } else if str_eq(name, "SARIAS_SONG") || str_eq(name, "SARIA") {
            self.save.quest_items & QuestItems::SARIAS_SONG == QuestItems::SARIAS_SONG
        } else if str_eq(name, "SUNS_SONG") || str_eq(name, "SUN") {
            self.save.quest_items & QuestItems::SUNS_SONG == QuestItems::SUNS_SONG
        } else if str_eq(name, "SONG_OF_TIME") || str_eq(name, "TIME") {
            self.save.quest_items & QuestItems::SONG_OF_TIME == QuestItems::SONG_OF_TIME
        } else if str_eq(name, "SONG_OF_STORMS") || str_eq(name, "STORMS") {
            self.save.quest_items & QuestItems::SONG_OF_STORMS == QuestItems::SONG_OF_STORMS
        } else if str_eq(name, "MINUET_OF_FOREST") || str_eq(name, "MINUET") {
            self.save.quest_items & QuestItems::MINUET_OF_FOREST == QuestItems::MINUET_OF_FOREST
        } else if str_eq(name, "BOLERO_OF_FIRE") || str_eq(name, "BOLERO") {
            self.save.quest_items & QuestItems::BOLERO_OF_FIRE == QuestItems::BOLERO_OF_FIRE
        } else if str_eq(name, "SERENADE_OF_WATER") || str_eq(name, "SERENADE") {
            self.save.quest_items & QuestItems::SERENADE_OF_WATER == QuestItems::SERENADE_OF_WATER
        } else if str_eq(name, "REQUIEM_OF_SPIRIT") || str_eq(name, "REQUIEM") {
            self.save.quest_items & QuestItems::REQUIEM_OF_SPIRIT == QuestItems::REQUIEM_OF_SPIRIT
        } else if str_eq(name, "NOCTURNE_OF_SHADOW") || str_eq(name, "NOCTURNE") {
            self.save.quest_items & QuestItems::NOCTURNE_OF_SHADOW == QuestItems::NOCTURNE_OF_SHADOW
        } else if str_eq(name, "PRELUDE_OF_LIGHT") || str_eq(name, "PRELUDE") {
            self.save.quest_items & QuestItems::PRELUDE_OF_LIGHT == QuestItems::PRELUDE_OF_LIGHT
        } else if str_eq(name, "KOKIRI_EMERALD") {
            self.save.quest_items & QuestItems::KOKIRI_EMERALD == QuestItems::KOKIRI_EMERALD
        } else if str_eq(name, "GORON_RUBY") {
            self.save.quest_items & QuestItems::GORON_RUBY == QuestItems::GORON_RUBY
        } else if str_eq(name, "ZORA_SAPPHIRE") {
            self.save.quest_items & QuestItems::ZORA_SAPPHIRE == QuestItems::ZORA_SAPPHIRE
        } else if str_eq(name, "FOREST_MEDALLION") {
            self.save.quest_items & QuestItems::FOREST_MEDALLION == QuestItems::FOREST_MEDALLION
        } else if str_eq(name, "FIRE_MEDALLION") {
            self.save.quest_items & QuestItems::FIRE_MEDALLION == QuestItems::FIRE_MEDALLION
        } else if str_eq(name, "WATER_MEDALLION") {
            self.save.quest_items & QuestItems::WATER_MEDALLION == QuestItems::WATER_MEDALLION
        } else if str_eq(name, "SPIRIT_MEDALLION") {
            self.save.quest_items & QuestItems::SPIRIT_MEDALLION == QuestItems::SPIRIT_MEDALLION
        } else if str_eq(name, "SHADOW_MEDALLION") {
            self.save.quest_items & QuestItems::SHADOW_MEDALLION == QuestItems::SHADOW_MEDALLION
        } else if str_eq(name, "LIGHT_MEDALLION") {
            self.save.quest_items & QuestItems::LIGHT_MEDALLION == QuestItems::LIGHT_MEDALLION
        } else if str_eq(name, "GERUDO_CARD") || str_eq(name, "GERUDO_MEMBERSHIP_CARD") {
            self.save.quest_items & QuestItems::GERUDO_CARD == QuestItems::GERUDO_CARD
        } else if str_eq(name, "STONE_OF_AGONY") {
            self.save.quest_items & QuestItems::STONE_OF_AGONY == QuestItems::STONE_OF_AGONY
        } else if str_eq(name, "BOTTLE") || str_eq(name, "EMPTY_BOTTLE") {
            has_any_bottle(self.save)
        } else if str_eq(name, "DEKU_STICK") || str_eq(name, "STICKS") {
            self.save.upgrades & Upgrades::DEKU_STICK_CAPACITY_MASK != 0
        } else if str_eq(name, "DEKU_NUT") || str_eq(name, "NUTS") {
            self.save.upgrades & Upgrades::DEKU_NUT_CAPACITY_MASK != 0
        } else {
            false
        }
    }

    /// Settings are not stored in save data: no setting has any value.
    pub fn setting_value(&self, name: &str, value: &str) -> (r: bool)
        ensures
            !r,
    {
        false
    }
}

impl<'a> EvalContext for OotEvalContext<'a> {
    /// The player has an item (case-insensitive name) when the save holds it;
    /// only a count of at most 1 is supported.
    open spec fn spec_has_item(&self, item: Seq<char>, count: nat) -> bool {
        spec_oot_has_named_item(self@, spec_to_uppercase(item)) && count <= 1
    }

    fn has_item(&self, item: &str, count: u32) -> (r: bool)
        ensures
            spec_is_ascii(item@) ==> r == (spec_oot_has_named_item(self@, spec_ascii_upper(item@))
                && count <= 1),
    {
        let item_upper = to_uppercase(item);
        let has = self.has_uppercase_item(item_upper.as_str());
        has && count <= 1
    }

    /// Events are not read from OoT save data: none has occurred.
    fn event(&self, name: &str) -> (r: bool)
        ensures
            !r,
    {
        false
    }

    /// Settings are not stored in save data: always unknown.
    fn setting(&self, name: &str) -> (r: Option<bool>)
        ensures
            r == None::<bool>,
    {
        None
    }

    /// Tricks are user preferences, not stored in save data: never enabled.
    fn trick(&self, name: &str) -> (r: bool)
        ensures
            !r,
    {
        false
    }

    /// Whether Link is an adult, per the save.
    fn is_adult(&self) -> (r: bool)
        ensures
            r == self@.is_adult,
    {
        self.save.is_adult
    }

    /// Whether Link is a child, per the save.
    fn is_child(&self) -> (r: bool)
        ensures
            r == !self@.is_adult,
    {
        !self.save.is_adult
    }

    /// OoT has no MM time: always 0.
    fn mm_time(&self) -> (r: u32)
        ensures
            r == 0,
    {
        0
    }
}

/// Law: item lookups are case-insensitive: two names with the same uppercase
/// form name the same item.
pub proof fn lemma_oot_item_lookup_case_insensitive(ctx: OotEvalContext, a: Seq<char>, b: Seq<char>, count: nat)
    requires
        spec_to_uppercase(a) == spec_to_uppercase(b),
    ensures
        ctx.spec_has_item(a, count) == ctx.spec_has_item(b, count),
{
}

/// Law: a count above 1 is never reported as held.
pub proof fn lemma_oot_single_count(ctx: OotEvalContext, item: Seq<char>, count: nat)
    requires
        count > 1,
    ensures
        !ctx.spec_has_item(item, count),
{
}

/// The lengths of the item names.
proof fn lemma_item_name_lengths()
    ensures
        "ADULTS_WALLET"@.len() == 13,
        "BEANS"@.len() == 5,
        "BIGGORON_SWORD"@.len() == 14,
        "BOLERO"@.len() == 6,
        "BOLERO_OF_FIRE"@.len() == 14,
        "BOMBCHU"@.len() == 7,
        "BOMBCHUS"@.len() == 8,
        "BOMBS"@.len() == 5,
        "BOMB_BAG"@.len() == 8,
        "BOOMERANG"@.len() == 9,
        "BOTTLE"@.len() == 6,
        "BOW"@.len() == 3,
        "BULLET_BAG"@.len() == 10,
        "DEKU_NUT"@.len() == 8,
        "DEKU_SHIELD"@.len() == 11,
        "DEKU_STICK"@.len() == 10,
        "DIN"@.len() == 3,
        "DINS_FIRE"@.len() == 9,
        "DOUBLE_MAGIC"@.len() == 12,
        "EMPTY_BOTTLE"@.len() == 12,
        "EPONA"@.len() == 5,
        "EPONAS_SONG"@.len() == 11,
        "FAIRY_OCARINA"@.len() == 13,
        "FAIRY_SLINGSHOT"@.len() == 15,
        "FARORE"@.len() == 6,
        "FARORES_WIND"@.len() == 12,
        "FIRE_ARROW"@.len() == 10,
        "FIRE_ARROWS"@.len() == 11,
        "FIRE_MEDALLION"@.len() == 14,
        "FOREST_MEDALLION"@.len() == 16,
        "GERUDO_CARD"@.len() == 11,
        "GERUDO_MEMBERSHIP_CARD"@.len() == 22,
        "GIANTS_KNIFE"@.len() == 12,
        "GIANTS_WALLET"@.len() == 13,
        "GOLDEN_GAUNTLETS"@.len() == 16,
        "GOLDEN_SCALE"@.len() == 12,
        "GOLD_GAUNTLETS"@.len() == 14,
        "GOLD_SCALE"@.len() == 10,
        "GORON_BRACELET"@.len() == 14,
        "GORON_RUBY"@.len() == 10,
        "GORON_TUNIC"@.len() == 11,
        "HAMMER"@.len() == 6,
        "HOOKSHOT"@.len() == 8,
        "HOVER_BOOTS"@.len() == 11,
        "HYLIAN_SHIELD"@.len() == 13,
        "ICE_ARROW"@.len() == 9,
        "ICE_ARROWS"@.len() == 10,
        "IRON_BOOTS"@.len() == 10,
        "KOKIRI_EMERALD"@.len() == 14,
        "KOKIRI_SWORD"@.len() == 12,
        "LENS"@.len() == 4,
        "LENS_OF_TRUTH"@.len() == 13,
        "LIGHT_ARROW"@.len() == 11,
        "LIGHT_ARROWS"@.len() == 12,
        "LIGHT_MEDALLION"@.len() == 15,
        "LONGSHOT"@.len() == 8,
        "LULLABY"@.len() == 7,
        "MAGIC"@.len() == 5,
        "MAGIC_BEAN"@.len() == 10,
        "MAGIC_METER"@.len() == 11,
        "MASTER_SWORD"@.len() == 12,
        "MEGATON_HAMMER"@.len() == 14,
        "MINUET"@.len() == 6,
        "MINUET_OF_FOREST"@.len() == 16,
        "MIRROR_SHIELD"@.len() == 13,
        "NAYRU"@.len() == 5,
        "NAYRUS_LOVE"@.len() == 11,
        "NOCTURNE"@.len() == 8,
        "NOCTURNE_OF_SHADOW"@.len() == 18,
        "NUTS"@.len() == 4,
        "OCARINA"@.len() == 7,
        "OCARINA_OF_TIME"@.len() == 15,
        "PRELUDE"@.len() == 7,
        "PRELUDE_OF_LIGHT"@.len() == 16,
        "QUIVER"@.len() == 6,
        "REQUIEM"@.len() == 7,
        "REQUIEM_OF_SPIRIT"@.len() == 17,
        "SARIA"@.len() == 5,
        "SARIAS_SONG"@.len() == 11,
        "SCALE"@.len() == 5,
        "SERENADE"@.len() == 8,
        "SERENADE_OF_WATER"@.len() == 17,
        "SHADOW_MEDALLION"@.len() == 16,
        "SILVER_GAUNTLETS"@.len() == 16,
        "SILVER_SCALE"@.len() == 12,
        "SLINGSHOT"@.len() == 9,
        "SONG_OF_STORMS"@.len() == 14,
        "SONG_OF_TIME"@.len() == 12,
        "SPIRIT_MEDALLION"@.len() == 16,
        "STICKS"@.len() == 6,
        "STONE_OF_AGONY"@.len() == 14,
        "STORMS"@.len() == 6,
        "STRENGTH"@.len() == 8,
        "SUN"@.len() == 3,
        "SUNS_SONG"@.len() == 9,
        "SWORD_BIGGORON"@.len() == 14,
        "TIME"@.len() == 4,
        "WALLET"@.len() == 6,
        "WATER_MEDALLION"@.len() == 15,
        "ZELDAS_LULLABY"@.len() == 14,
        "ZORA_SAPPHIRE"@.len() == 13,
        "ZORA_TUNIC"@.len() == 10,
{
    reveal_strlit("ADULTS_WALLET");
    reveal_strlit("BEANS");
    reveal_strlit("BIGGORON_SWORD");
    reveal_strlit("BOLERO");
    reveal_strlit("BOLERO_OF_FIRE");
    reveal_strlit("BOMBCHU");
    reveal_strlit("BOMBCHUS");
    reveal_strlit("BOMBS");
    reveal_strlit("BOMB_BAG");
    reveal_strlit("BOOMERANG");
    reveal_strlit("BOTTLE");
    reveal_strlit("BOW");
    reveal_strlit("BULLET_BAG");
    reveal_strlit("DEKU_NUT");
    reveal_strlit("DEKU_SHIELD");
    reveal_strlit("DEKU_STICK");
    reveal_strlit("DIN");
    reveal_strlit("DINS_FIRE");
    reveal_strlit("DOUBLE_MAGIC");
    reveal_strlit("EMPTY_BOTTLE");
    reveal_strlit("EPONA");
    reveal_strlit("EPONAS_SONG");
    reveal_strlit("FAIRY_OCARINA");
    reveal_strlit("FAIRY_SLINGSHOT");
    reveal_strlit("FARORE");
    reveal_strlit("FARORES_WIND");
    reveal_strlit("FIRE_ARROW");
    reveal_strlit("FIRE_ARROWS");
    reveal_strlit("FIRE_MEDALLION");
    reveal_strlit("FOREST_MEDALLION");
    reveal_strlit("GERUDO_CARD");
    reveal_strlit("GERUDO_MEMBERSHIP_CARD");
    reveal_strlit("GIANTS_KNIFE");
    reveal_strlit("GIANTS_WALLET");
    reveal_strlit("GOLDEN_GAUNTLETS");
    reveal_strlit("GOLDEN_SCALE");
    reveal_strlit("GOLD_GAUNTLETS");
    reveal_strlit("GOLD_SCALE");
    reveal_strlit("GORON_BRACELET");
    reveal_strlit("GORON_RUBY");
    reveal_strlit("GORON_TUNIC");
    reveal_strlit("HAMMER");
    reveal_strlit("HOOKSHOT");
    reveal_strlit("HOVER_BOOTS");
    reveal_strlit("HYLIAN_SHIELD");
    reveal_strlit("ICE_ARROW");
    reveal_strlit("ICE_ARROWS");
    reveal_strlit("IRON_BOOTS");
    reveal_strlit("KOKIRI_EMERALD");
    reveal_strlit("KOKIRI_SWORD");
    reveal_strlit("LENS");
    reveal_strlit("LENS_OF_TRUTH");
    reveal_strlit("LIGHT_ARROW");
    reveal_strlit("LIGHT_ARROWS");
    reveal_strlit("LIGHT_MEDALLION");
    reveal_strlit("LONGSHOT");
    reveal_strlit("LULLABY");
    reveal_strlit("MAGIC");
    reveal_strlit("MAGIC_BEAN");
    reveal_strlit("MAGIC_METER");
    reveal_strlit("MASTER_SWORD");
    reveal_strlit("MEGATON_HAMMER");
    reveal_strlit("MINUET");
    reveal_strlit("MINUET_OF_FOREST");
    reveal_strlit("MIRROR_SHIELD");
    reveal_strlit("NAYRU");
    reveal_strlit("NAYRUS_LOVE");
    reveal_strlit("NOCTURNE");
    reveal_strlit("NOCTURNE_OF_SHADOW");
    reveal_strlit("NUTS");
    reveal_strlit("OCARINA");
    reveal_strlit("OCARINA_OF_TIME");
    reveal_strlit("PRELUDE");
    reveal_strlit("PRELUDE_OF_LIGHT");
    reveal_strlit("QUIVER");
    reveal_strlit("REQUIEM");
    reveal_strlit("REQUIEM_OF_SPIRIT");
    reveal_strlit("SARIA");
    reveal_strlit("SARIAS_SONG");
    reveal_strlit("SCALE");
    reveal_strlit("SERENADE");
    reveal_strlit("SERENADE_OF_WATER");
    reveal_strlit("SHADOW_MEDALLION");
    reveal_strlit("SILVER_GAUNTLETS");
    reveal_strlit("SILVER_SCALE");
    reveal_strlit("SLINGSHOT");
    reveal_strlit("SONG_OF_STORMS");
    reveal_strlit("SONG_OF_TIME");
    reveal_strlit("SPIRIT_MEDALLION");
    reveal_strlit("STICKS");
    reveal_strlit("STONE_OF_AGONY");
    reveal_strlit("STORMS");
    reveal_strlit("STRENGTH");
    reveal_strlit("SUN");
    reveal_strlit("SUNS_SONG");
    reveal_strlit("SWORD_BIGGORON");
    reveal_strlit("TIME");
    reveal_strlit("WALLET");
    reveal_strlit("WATER_MEDALLION");
    reveal_strlit("ZELDAS_LULLABY");
    reveal_strlit("ZORA_SAPPHIRE");
    reveal_strlit("ZORA_TUNIC");
}

/// What the save holds of `BOW`.
proof fn lemma_item_bow(s: Save)
    ensures
        spec_oot_has_named_item(s, "BOW"@) == (s.inv.bow),
{
    lemma_item_name_lengths();
}

/// What the save holds of `FIRE_ARROW`.
proof fn lemma_item_fire_arrow(s: Save)
    ensures
        spec_oot_has_named_item(s, "FIRE_ARROW"@) == (s.inv.fire_arrows),
{
    lemma_item_name_lengths();
}

/// What the save holds of `FIRE_ARROWS`.
proof fn lemma_item_fire_arrows(s: Save)
    ensures
        spec_oot_has_named_item(s, "FIRE_ARROWS"@) == (s.inv.fire_arrows),
{
    lemma_item_name_lengths();
}

/// What the save holds of `ICE_ARROW`.
proof fn lemma_item_ice_arrow(s: Save)
    ensures
        spec_oot_has_named_item(s, "ICE_ARROW"@) == (s.inv.ice_arrows),
{
    lemma_item_name_lengths();
}

/// What the save holds of `ICE_ARROWS`.
proof fn lemma_item_ice_arrows(s: Save)
    ensures
        spec_oot_has_named_item(s, "ICE_ARROWS"@) == (s.inv.ice_arrows),
{
    lemma_item_name_lengths();
    reveal_strlit("ICE_ARROWS");
    reveal_strlit("FIRE_ARROW");
    assert("ICE_ARROWS"@[0] != "FIRE_ARROW"@[0]);
}

/// What the save holds of `LIGHT_ARROW`.
proof fn lemma_item_light_arrow(s: Save)
    ensures
        spec_oot_has_named_item(s, "LIGHT_ARROW"@) == (s.inv.light_arrows),
{
    lemma_item_name_lengths();
    reveal_strlit("LIGHT_ARROW");
    reveal_strlit("FIRE_ARROWS");
    assert("LIGHT_ARROW"@[0] != "FIRE_ARROWS"@[0]);
}

/// What the save holds of `LIGHT_ARROWS`.
proof fn lemma_item_light_arrows(s: Save)
    ensures
        spec_oot_has_named_item(s, "LIGHT_ARROWS"@) == (s.inv.light_arrows),
{
    lemma_item_name_lengths();
}

/// What the save holds of `DINS_FIRE`.
proof fn lemma_item_dins_fire(s: Save)
    ensures
        spec_oot_has_named_item(s, "DINS_FIRE"@) == (s.inv.dins_fire),
{
    lemma_item_name_lengths();
    reveal_strlit("DINS_FIRE");
    reveal_strlit("ICE_ARROW");
    assert("DINS_FIRE"@[0] != "ICE_ARROW"@[0]);
}

/// What the save holds of `DIN`.
proof fn lemma_item_din(s: Save)
    ensures
        spec_oot_has_named_item(s, "DIN"@) == (s.inv.dins_fire),
{
    lemma_item_name_lengths();
    reveal_strlit("DIN");
    reveal_strlit("BOW");
    assert("DIN"@[0] != "BOW"@[0]);
}

/// What the save holds of `FARORES_WIND`.
proof fn lemma_item_farores_wind(s: Save)
    ensures
        spec_oot_has_named_item(s, "FARORES_WIND"@) == (s.inv.farores_wind),
{
    lemma_item_name_lengths();
    reveal_strlit("FARORES_WIND");
    reveal_strlit("LIGHT_ARROWS");
    assert("FARORES_WIND"@[0] != "LIGHT_ARROWS"@[0]);
}

/// What the save holds of `FARORE`.
proof fn lemma_item_farore(s: Save)
    ensures
        spec_oot_has_named_item(s, "FARORE"@) == (s.inv.farores_wind),
{
    lemma_item_name_lengths();
}

/// What the save holds of `NAYRUS_LOVE`.
proof fn lemma_item_nayrus_love(s: Save)
    ensures
        spec_oot_has_named_item(s, "NAYRUS_LOVE"@) == (s.inv.nayrus_love),
{
    lemma_item_name_lengths();
    reveal_strlit("NAYRUS_LOVE");
    reveal_strlit("FIRE_ARROWS");
    assert("NAYRUS_LOVE"@[0] != "FIRE_ARROWS"@[0]);
    reveal_strlit("LIGHT_ARROW");
    assert("NAYRUS_LOVE"@[0] != "LIGHT_ARROW"@[0]);
}

/// What the save holds of `NAYRU`.
proof fn lemma_item_nayru(s: Save)
    ensures
        spec_oot_has_named_item(s, "NAYRU"@) == (s.inv.nayrus_love),
{
    lemma_item_name_lengths();
}

/// What the save holds of `SLINGSHOT`.
proof fn lemma_item_slingshot(s: Save)
    ensures
        spec_oot_has_named_item(s, "SLINGSHOT"@) == (s.inv.slingshot),
{
    lemma_item_name_lengths();
    reveal_strlit("SLINGSHOT");
    reveal_strlit("ICE_ARROW");
    assert("SLINGSHOT"@[0] != "ICE_ARROW"@[0]);
    reveal_strlit("DINS_FIRE");
    assert("SLINGSHOT"@[0] != "DINS_FIRE"@[0]);
}

/// What the save holds of `FAIRY_SLINGSHOT`.
proof fn lemma_item_fairy_slingshot(s: Save)
    ensures
        spec_oot_has_named_item(s, "FAIRY_SLINGSHOT"@) == (s.inv.slingshot),
{
    lemma_item_name_lengths();
}

/// What the save holds of `OCARINA`.
proof fn lemma_item_ocarina(s: Save)
    ensures
        spec_oot_has_named_item(s, "OCARINA"@) == (s.inv.ocarina != Ocarina::NoOcarina),
{
    lemma_item_name_lengths();
}

/// What the save holds of `OCARINA_OF_TIME`.
proof fn lemma_item_ocarina_of_time(s: Save)
    ensures
        spec_oot_has_named_item(s, "OCARINA_OF_TIME"@) == (s.inv.ocarina != Ocarina::NoOcarina),
{
    lemma_item_name_lengths();
    reveal_strlit("OCARINA_OF_TIME");
    reveal_strlit("FAIRY_SLINGSHOT");
    assert("OCARINA_OF_TIME"@[0] != "FAIRY_SLINGSHOT"@[0]);
}

/// What the save holds of `FAIRY_OCARINA`.
proof fn lemma_item_fairy_ocarina(s: Save)
    ensures
        spec_oot_has_named_item(s, "FAIRY_OCARINA"@) == (s.inv.ocarina != Ocarina::NoOcarina),
{
    lemma_item_name_lengths();
}

/// What the save holds of `BOMBCHU`.
proof fn lemma_item_bombchu(s: Save)
    ensures
        spec_oot_has_named_item(s, "BOMBCHU"@) == (s.inv.bombchus),
{
    lemma_item_name_lengths();
    reveal_strlit("BOMBCHU");
    reveal_strlit("OCARINA");
    assert("BOMBCHU"@[0] != "OCARINA"@[0]);
}

/// What the save holds of `BOMBCHUS`.
proof fn lemma_item_bombchus(s: Save)
    ensures
        spec_oot_has_named_item(s, "BOMBCHUS"@) == (s.inv.bombchus),
{
    lemma_item_name_lengths();
}

/// What the save holds of `HOOKSHOT`.
proof fn lemma_item_hookshot(s: Save)
    ensures
        spec_oot_has_named_item(s, "HOOKSHOT"@) == (s.inv.hookshot == Hookshot::Hookshot || s.inv.hookshot == Hookshot::Longshot),
{
    lemma_item_name_lengths();
    reveal_strlit("HOOKSHOT");
    reveal_strlit("BOMBCHUS");
    assert("HOOKSHOT"@[0] != "BOMBCHUS"@[0]);
}

/// What the save holds of `LONGSHOT`.
proof fn lemma_item_longshot(s: Save)
    ensures
        spec_oot_has_named_item(s, "LONGSHOT"@) == (s.inv.hookshot == Hookshot::Longshot),
{
    lemma_item_name_lengths();
    reveal_strlit("LONGSHOT");
    reveal_strlit("BOMBCHUS");
    assert("LONGSHOT"@[0] != "BOMBCHUS"@[0]);
    reveal_strlit("HOOKSHOT");
    assert("LONGSHOT"@[0] != "HOOKSHOT"@[0]);
}

/// What the save holds of `BOOMERANG`.
proof fn lemma_item_boomerang(s: Save)
    ensures
        spec_oot_has_named_item(s, "BOOMERANG"@) == (s.inv.boomerang),
{
    lemma_item_name_lengths();
    reveal_strlit("BOOMERANG");
    reveal_strlit("ICE_ARROW");
    assert("BOOMERANG"@[0] != "ICE_ARROW"@[0]);
    reveal_strlit("DINS_FIRE");
    assert("BOOMERANG"@[0] != "DINS_FIRE"@[0]);
    reveal_strlit("SLINGSHOT");
    assert("BOOMERANG"@[0] != "SLINGSHOT"@[0]);
}

/// What the save holds of `LENS`.
proof fn lemma_item_lens(s: Save)
    ensures
        spec_oot_has_named_item(s, "LENS"@) == (s.inv.lens),
{
    lemma_item_name_lengths();
}

/// What the save holds of `LENS_OF_TRUTH`.
proof fn lemma_item_lens_of_truth(s: Save)
    ensures
        spec_oot_has_named_item(s, "LENS_OF_TRUTH"@) == (s.inv.lens),
{
    lemma_item_name_lengths();
    reveal_strlit("LENS_OF_TRUTH");
    reveal_strlit("FAIRY_OCARINA");
    assert("LENS_OF_TRUTH"@[0] != "FAIRY_OCARINA"@[0]);
}

/// What the save holds of `MAGIC_BEAN`.
proof fn lemma_item_magic_bean(s: Save)
    ensures
        spec_oot_has_named_item(s, "MAGIC_BEAN"@) == (s.inv.beans),
{
    lemma_item_name_lengths();
    reveal_strlit("MAGIC_BEAN");
    reveal_strlit("FIRE_ARROW");
    assert("MAGIC_BEAN"@[0] != "FIRE_ARROW"@[0]);
    reveal_strlit("ICE_ARROWS");
    assert("MAGIC_BEAN"@[0] != "ICE_ARROWS"@[0]);
}

/// What the save holds of `BEANS`.
proof fn lemma_item_beans(s: Save)
    ensures
        spec_oot_has_named_item(s, "BEANS"@) == (s.inv.beans),
{
    lemma_item_name_lengths();
    reveal_strlit("BEANS");
    reveal_strlit("NAYRU");
    assert("BEANS"@[0] != "NAYRU"@[0]);
}

/// What the save holds of `HAMMER`.
proof fn lemma_item_hammer(s: Save)
    ensures
        spec_oot_has_named_item(s, "HAMMER"@) == (s.inv.hammer),
{
    lemma_item_name_lengths();
    reveal_strlit("HAMMER");
    reveal_strlit("FARORE");
    assert("HAMMER"@[0] != "FARORE"@[0]);
}

/// What the save holds of `MEGATON_HAMMER`.
proof fn lemma_item_megaton_hammer(s: Save)
    ensures
        spec_oot_has_named_item(s, "MEGATON_HAMMER"@) == (s.inv.hammer),
{
    lemma_item_name_lengths();
}

/// What the save holds of `KOKIRI_SWORD`.
proof fn lemma_item_kokiri_sword(s: Save)
    ensures
        spec_oot_has_named_item(s, "KOKIRI_SWORD"@) == (s.equipment & 0x0001u16 == 0x0001u16),
{
    lemma_item_name_lengths();
    reveal_strlit("KOKIRI_SWORD");
    reveal_strlit("LIGHT_ARROWS");
    assert("KOKIRI_SWORD"@[0] != "LIGHT_ARROWS"@[0]);
    reveal_strlit("FARORES_WIND");
    assert("KOKIRI_SWORD"@[0] != "FARORES_WIND"@[0]);
}

/// What the save holds of `MASTER_SWORD`.
proof fn lemma_item_master_sword(s: Save)
    ensures
        spec_oot_has_named_item(s, "MASTER_SWORD"@) == (s.equipment & 0x0002u16 == 0x0002u16),
{
    lemma_item_name_lengths();
    reveal_strlit("MASTER_SWORD");
    reveal_strlit("LIGHT_ARROWS");
    assert("MASTER_SWORD"@[0] != "LIGHT_ARROWS"@[0]);
    reveal_strlit("FARORES_WIND");
    assert("MASTER_SWORD"@[0] != "FARORES_WIND"@[0]);
    reveal_strlit("KOKIRI_SWORD");
    assert("MASTER_SWORD"@[0] != "KOKIRI_SWORD"@[0]);
}

/// What the save holds of `GIANTS_KNIFE`.
proof fn lemma_item_giants_knife(s: Save)
    ensures
        spec_oot_has_named_item(s, "GIANTS_KNIFE"@) == (s.biggoron_sword || s.equipment & 0x0004u16 == 0x0004u16),
{
    lemma_item_name_lengths();
    reveal_strlit("GIANTS_KNIFE");
    reveal_strlit("LIGHT_ARROWS");
    assert("GIANTS_KNIFE"@[0] != "LIGHT_ARROWS"@[0]);
    reveal_strlit("FARORES_WIND");
    assert("GIANTS_KNIFE"@[0] != "FARORES_WIND"@[0]);
    reveal_strlit("KOKIRI_SWORD");
    assert("GIANTS_KNIFE"@[0] != "KOKIRI_SWORD"@[0]);
    reveal_strlit("MASTER_SWORD");
    assert("GIANTS_KNIFE"@[0] != "MASTER_SWORD"@[0]);
}

/// What the save holds of `BIGGORON_SWORD`.
proof fn lemma_item_biggoron_sword(s: Save)
    ensures
        spec_oot_has_named_item(s, "BIGGORON_SWORD"@) == (s.biggoron_sword || s.equipment & 0x0004u16 == 0x0004u16),
{
    lemma_item_name_lengths();
    reveal_strlit("BIGGORON_SWORD");
    reveal_strlit("MEGATON_HAMMER");
    assert("BIGGORON_SWORD"@[0] != "MEGATON_HAMMER"@[0]);
}

/// What the save holds of `SWORD_BIGGORON`.
proof fn lemma_item_sword_biggoron(s: Save)
    ensures
        spec_oot_has_named_item(s, "SWORD_BIGGORON"@) == (s.biggoron_sword || s.equipment & 0x0004u16 == 0x0004u16),
{
    lemma_item_name_lengths();
    reveal_strlit("SWORD_BIGGORON");
    reveal_strlit("MEGATON_HAMMER");
    assert("SWORD_BIGGORON"@[0] != "MEGATON_HAMMER"@[0]);
}

/// What the save holds of `DEKU_SHIELD`.
proof fn lemma_item_deku_shield(s: Save)
    ensures
        spec_oot_has_named_item(s, "DEKU_SHIELD"@) == (s.equipment & 0x0010u16 == 0x0010u16),
{
    lemma_item_name_lengths();
    reveal_strlit("DEKU_SHIELD");
    reveal_strlit("FIRE_ARROWS");
    assert("DEKU_SHIELD"@[0] != "FIRE_ARROWS"@[0]);
    reveal_strlit("LIGHT_ARROW");
    assert("DEKU_SHIELD"@[0] != "LIGHT_ARROW"@[0]);
    reveal_strlit("NAYRUS_LOVE");
    assert("DEKU_SHIELD"@[0] != "NAYRUS_LOVE"@[0]);
}

/// What the save holds of `HYLIAN_SHIELD`.
proof fn lemma_item_hylian_shield(s: Save)
    ensures
        spec_oot_has_named_item(s, "HYLIAN_SHIELD"@) == (s.equipment & 0x0020u16 == 0x0020u16),
{
    lemma_item_name_lengths();
    reveal_strlit("HYLIAN_SHIELD");
    reveal_strlit("FAIRY_OCARINA");
    assert("HYLIAN_SHIELD"@[0] != "FAIRY_OCARINA"@[0]);
    reveal_strlit("LENS_OF_TRUTH");
    assert("HYLIAN_SHIELD"@[0] != "LENS_OF_TRUTH"@[0]);
}

/// What the save holds of `MIRROR_SHIELD`.
proof fn lemma_item_mirror_shield(s: Save)
    ensures
        spec_oot_has_named_item(s, "MIRROR_SHIELD"@) == (s.equipment & 0x0040u16 == 0x0040u16),
{
    lemma_item_name_lengths();
    reveal_strlit("MIRROR_SHIELD");
    reveal_strlit("FAIRY_OCARINA");
    assert("MIRROR_SHIELD"@[0] != "FAIRY_OCARINA"@[0]);
    reveal_strlit("LENS_OF_TRUTH");
    assert("MIRROR_SHIELD"@[0] != "LENS_OF_TRUTH"@[0]);
    reveal_strlit("HYLIAN_SHIELD");
    assert("MIRROR_SHIELD"@[0] != "HYLIAN_SHIELD"@[0]);
}

/// What the save holds of `GORON_TUNIC`.
proof fn lemma_item_goron_tunic(s: Save)
    ensures
        spec_oot_has_named_item(s, "GORON_TUNIC"@) == (s.equipment & 0x0200u16 == 0x0200u16),
{
    lemma_item_name_lengths();
    reveal_strlit("GORON_TUNIC");
    reveal_strlit("FIRE_ARROWS");
    assert("GORON_TUNIC"@[0] != "FIRE_ARROWS"@[0]);
    reveal_strlit("LIGHT_ARROW");
    assert("GORON_TUNIC"@[0] != "LIGHT_ARROW"@[0]);
    reveal_strlit("NAYRUS_LOVE");
    assert("GORON_TUNIC"@[0] != "NAYRUS_LOVE"@[0]);
    reveal_strlit("DEKU_SHIELD");
    assert("GORON_TUNIC"@[0] != "DEKU_SHIELD"@[0]);
}

/// What the save holds of `ZORA_TUNIC`.
proof fn lemma_item_zora_tunic(s: Save)
    ensures
        spec_oot_has_named_item(s, "ZORA_TUNIC"@) == (s.equipment & 0x0400u16 == 0x0400u16),
{
    lemma_item_name_lengths();
    reveal_strlit("ZORA_TUNIC");
    reveal_strlit("FIRE_ARROW");
    assert("ZORA_TUNIC"@[0] != "FIRE_ARROW"@[0]);
    reveal_strlit("ICE_ARROWS");
    assert("ZORA_TUNIC"@[0] != "ICE_ARROWS"@[0]);
    reveal_strlit("MAGIC_BEAN");
    assert("ZORA_TUNIC"@[0] != "MAGIC_BEAN"@[0]);
}

/// What the save holds of `IRON_BOOTS`.
proof fn lemma_item_iron_boots(s: Save)
    ensures
        spec_oot_has_named_item(s, "IRON_BOOTS"@) == (s.equipment & 0x2000u16 == 0x2000u16),
{
    lemma_item_name_lengths();
    reveal_strlit("IRON_BOOTS");
    reveal_strlit("FIRE_ARROW");
    assert("IRON_BOOTS"@[0] != "FIRE_ARROW"@[0]);
    reveal_strlit("ICE_ARROWS");
    assert("IRON_BOOTS"@[1] != "ICE_ARROWS"@[1]);
    reveal_strlit("MAGIC_BEAN");
    assert("IRON_BOOTS"@[0] != "MAGIC_BEAN"@[0]);
    reveal_strlit("ZORA_TUNIC");
    assert("IRON_BOOTS"@[0] != "ZORA_TUNIC"@[0]);
}

/// What the save holds of `HOVER_BOOTS`.
proof fn lemma_item_hover_boots(s: Save)
    ensures
        spec_oot_has_named_item(s, "HOVER_BOOTS"@) == (s.equipment & 0x4000u16 == 0x4000u16),
{
    lemma_item_name_lengths();
    reveal_strlit("HOVER_BOOTS");
    reveal_strlit("FIRE_ARROWS");
    assert("HOVER_BOOTS"@[0] != "FIRE_ARROWS"@[0]);
    reveal_strlit("LIGHT_ARROW");
    assert("HOVER_BOOTS"@[0] != "LIGHT_ARROW"@[0]);
    reveal_strlit("NAYRUS_LOVE");
    assert("HOVER_BOOTS"@[0] != "NAYRUS_LOVE"@[0]);
    reveal_strlit("DEKU_SHIELD");
    assert("HOVER_BOOTS"@[0] != "DEKU_SHIELD"@[0]);
    reveal_strlit("GORON_TUNIC");
    assert("HOVER_BOOTS"@[0] != "GORON_TUNIC"@[0]);
}

/// What the save holds of `GORON_BRACELET`.
proof fn lemma_item_goron_bracelet(s: Save)
    ensures
        spec_oot_has_named_item(s, "GORON_BRACELET"@) == (s.upgrades & 0x0000_0040u32 == 0x0000_0040u32),
{
    lemma_item_name_lengths();
    reveal_strlit("GORON_BRACELET");
    reveal_strlit("MEGATON_HAMMER");
    assert("GORON_BRACELET"@[0] != "MEGATON_HAMMER"@[0]);
    reveal_strlit("BIGGORON_SWORD");
    assert("GORON_BRACELET"@[0] != "BIGGORON_SWORD"@[0]);
    reveal_strlit("SWORD_BIGGORON");
    assert("GORON_BRACELET"@[0] != "SWORD_BIGGORON"@[0]);
}

/// What the save holds of `STRENGTH`.
proof fn lemma_item_strength(s: Save)
    ensures
        spec_oot_has_named_item(s, "STRENGTH"@) == (s.upgrades & 0x0000_0040u32 == 0x0000_0040u32),
{
    lemma_item_name_lengths();
    reveal_strlit("STRENGTH");
    reveal_strlit("BOMBCHUS");
    assert("STRENGTH"@[0] != "BOMBCHUS"@[0]);
    reveal_strlit("HOOKSHOT");
    assert("STRENGTH"@[0] != "HOOKSHOT"@[0]);
    reveal_strlit("LONGSHOT");
    assert("STRENGTH"@[0] != "LONGSHOT"@[0]);
}

/// What the save holds of `SILVER_GAUNTLETS`.
proof fn lemma_item_silver_gauntlets(s: Save)
    ensures
        spec_oot_has_named_item(s, "SILVER_GAUNTLETS"@) == (s.upgrades & 0x0000_0080u32 == 0x0000_0080u32),
{
    lemma_item_name_lengths();
}

/// What the save holds of `GOLD_GAUNTLETS`.
proof fn lemma_item_gold_gauntlets(s: Save)
    ensures
        spec_oot_has_named_item(s, "GOLD_GAUNTLETS"@) == (s.upgrades & 0x0000_00c0u32 == 0x0000_00c0u32),
{
    lemma_item_name_lengths();
    reveal_strlit("GOLD_GAUNTLETS");
    reveal_strlit("MEGATON_HAMMER");
    assert("GOLD_GAUNTLETS"@[0] != "MEGATON_HAMMER"@[0]);
    reveal_strlit("BIGGORON_SWORD");
    assert("GOLD_GAUNTLETS"@[0] != "BIGGORON_SWORD"@[0]);
    reveal_strlit("SWORD_BIGGORON");
    assert("GOLD_GAUNTLETS"@[0] != "SWORD_BIGGORON"@[0]);
    reveal_strlit("GORON_BRACELET");
    assert("GOLD_GAUNTLETS"@[2] != "GORON_BRACELET"@[2]);
}

/// What the save holds of `GOLDEN_GAUNTLETS`.
proof fn lemma_item_golden_gauntlets(s: Save)
    ensures
        spec_oot_has_named_item(s, "GOLDEN_GAUNTLETS"@) == (s.upgrades & 0x0000_00c0u32 == 0x0000_00c0u32),
{
    lemma_item_name_lengths();
    reveal_strlit("GOLDEN_GAUNTLETS");
    reveal_strlit("SILVER_GAUNTLETS");
    assert("GOLDEN_GAUNTLETS"@[0] != "SILVER_GAUNTLETS"@[0]);
}

/// What the save holds of `SILVER_SCALE`.
proof fn lemma_item_silver_scale(s: Save)
    ensures
        spec_oot_has_named_item(s, "SILVER_SCALE"@) == (s.upgrades & 0x0000_0200u32 == 0x0000_0200u32),
{
    lemma_item_name_lengths();
    reveal_strlit("SILVER_SCALE");
    reveal_strlit("LIGHT_ARROWS");
    assert("SILVER_SCALE"@[0] != "LIGHT_ARROWS"@[0]);
    reveal_strlit("FARORES_WIND");
    assert("SILVER_SCALE"@[0] != "FARORES_WIND"@[0]);
    reveal_strlit("KOKIRI_SWORD");
    assert("SILVER_SCALE"@[0] != "KOKIRI_SWORD"@[0]);
    reveal_strlit("MASTER_SWORD");
    assert("SILVER_SCALE"@[0] != "MASTER_SWORD"@[0]);
    reveal_strlit("GIANTS_KNIFE");
    assert("SILVER_SCALE"@[0] != "GIANTS_KNIFE"@[0]);
}

/// What the save holds of `SCALE`.
proof fn lemma_item_scale(s: Save)
    ensures
        spec_oot_has_named_item(s, "SCALE"@) == (s.upgrades & 0x0000_0200u32 == 0x0000_0200u32),
{
    lemma_item_name_lengths();
    reveal_strlit("SCALE");
    reveal_strlit("NAYRU");
    assert("SCALE"@[0] != "NAYRU"@[0]);
    reveal_strlit("BEANS");
    assert("SCALE"@[0] != "BEANS"@[0]);
}

/// What the save holds of `GOLD_SCALE`.
proof fn lemma_item_gold_scale(s: Save)
    ensures
        spec_oot_has_named_item(s, "GOLD_SCALE"@) == (s.upgrades & 0x0000_0400u32 == 0x0000_0400u32),
{
    lemma_item_name_lengths();
    reveal_strlit("GOLD_SCALE");
    reveal_strlit("FIRE_ARROW");
    assert("GOLD_SCALE"@[0] != "FIRE_ARROW"@[0]);
    reveal_strlit("ICE_ARROWS");
    assert("GOLD_SCALE"@[0] != "ICE_ARROWS"@[0]);
    reveal_strlit("MAGIC_BEAN");
    assert("GOLD_SCALE"@[0] != "MAGIC_BEAN"@[0]);
    reveal_strlit("ZORA_TUNIC");
    assert("GOLD_SCALE"@[0] != "ZORA_TUNIC"@[0]);
    reveal_strlit("IRON_BOOTS");
    assert("GOLD_SCALE"@[0] != "IRON_BOOTS"@[0]);
}

/// What the save holds of `GOLDEN_SCALE`.
proof fn lemma_item_golden_scale(s: Save)
    ensures
        spec_oot_has_named_item(s, "GOLDEN_SCALE"@) == (s.upgrades & 0x0000_0400u32 == 0x0000_0400u32),
{
    lemma_item_name_lengths();
    reveal_strlit("GOLDEN_SCALE");
    reveal_strlit("LIGHT_ARROWS");
    assert("GOLDEN_SCALE"@[0] != "LIGHT_ARROWS"@[0]);
    reveal_strlit("FARORES_WIND");
    assert("GOLDEN_SCALE"@[0] != "FARORES_WIND"@[0]);
    reveal_strlit("KOKIRI_SWORD");
    assert("GOLDEN_SCALE"@[0] != "KOKIRI_SWORD"@[0]);
    reveal_strlit("MASTER_SWORD");
    assert("GOLDEN_SCALE"@[0] != "MASTER_SWORD"@[0]);
    reveal_strlit("GIANTS_KNIFE");
    assert("GOLDEN_SCALE"@[1] != "GIANTS_KNIFE"@[1]);
    reveal_strlit("SILVER_SCALE");
    assert("GOLDEN_SCALE"@[0] != "SILVER_SCALE"@[0]);
}

/// What the save holds of `BOMB_BAG`.
proof fn lemma_item_bomb_bag(s: Save)
    ensures
        spec_oot_has_named_item(s, "BOMB_BAG"@) == (s.upgrades & (0x0000_0008u32 | 0x0000_0010u32 | 0x0000_0018u32) != 0),
{
    lemma_item_name_lengths();
    reveal_strlit("BOMB_BAG");
    reveal_strlit("BOMBCHUS");
    assert("BOMB_BAG"@[4] != "BOMBCHUS"@[4]);
    reveal_strlit("HOOKSHOT");
    assert("BOMB_BAG"@[0] != "HOOKSHOT"@[0]);
    reveal_strlit("LONGSHOT");
    assert("BOMB_BAG"@[0] != "LONGSHOT"@[0]);
    reveal_strlit("STRENGTH");
    assert("BOMB_BAG"@[0] != "STRENGTH"@[0]);
}

/// What the save holds of `BOMBS`.
proof fn lemma_item_bombs(s: Save)
    ensures
        spec_oot_has_named_item(s, "BOMBS"@) == (s.upgrades & (0x0000_0008u32 | 0x0000_0010u32 | 0x0000_0018u32) != 0),
{
    lemma_item_name_lengths();
    reveal_strlit("BOMBS");
    reveal_strlit("NAYRU");
    assert("BOMBS"@[0] != "NAYRU"@[0]);
    reveal_strlit("BEANS");
    assert("BOMBS"@[1] != "BEANS"@[1]);
    reveal_strlit("SCALE");
    assert("BOMBS"@[0] != "SCALE"@[0]);
}

/// What the save holds of `QUIVER`.
proof fn lemma_item_quiver(s: Save)
    ensures
        spec_oot_has_named_item(s, "QUIVER"@) == (s.upgrades & (0x0000_0003u32 | 0x0000_0002u32 | 0x0000_0001u32) != 0),
{
    lemma_item_name_lengths();
    reveal_strlit("QUIVER");
    reveal_strlit("FARORE");
    assert("QUIVER"@[0] != "FARORE"@[0]);
    reveal_strlit("HAMMER");
    assert("QUIVER"@[0] != "HAMMER"@[0]);
}

/// What the save holds of `BULLET_BAG`.
proof fn lemma_item_bullet_bag(s: Save)
    ensures
        spec_oot_has_named_item(s, "BULLET_BAG"@) == (s.upgrades & (0x0000_4000u32 | 0x0000_8000u32 | 0x0000_c000u32) != 0),
{
    lemma_item_name_lengths();
    reveal_strlit("BULLET_BAG");
    reveal_strlit("FIRE_ARROW");
    assert("BULLET_BAG"@[0] != "FIRE_ARROW"@[0]);
    reveal_strlit("ICE_ARROWS");
    assert("BULLET_BAG"@[0] != "ICE_ARROWS"@[0]);
    reveal_strlit("MAGIC_BEAN");
    assert("BULLET_BAG"@[0] != "MAGIC_BEAN"@[0]);
    reveal_strlit("ZORA_TUNIC");
    assert("BULLET_BAG"@[0] != "ZORA_TUNIC"@[0]);
    reveal_strlit("IRON_BOOTS");
    assert("BULLET_BAG"@[0] != "IRON_BOOTS"@[0]);
    reveal_strlit("GOLD_SCALE");
    assert("BULLET_BAG"@[0] != "GOLD_SCALE"@[0]);
}

/// What the save holds of `WALLET`.
proof fn lemma_item_wallet(s: Save)
    ensures
        spec_oot_has_named_item(s, "WALLET"@) == (s.upgrades & 0x0000_3000u32 != 0),
{
    lemma_item_name_lengths();
    reveal_strlit("WALLET");
    reveal_strlit("FARORE");
    assert("WALLET"@[0] != "FARORE"@[0]);
    reveal_strlit("HAMMER");
    assert("WALLET"@[0] != "HAMMER"@[0]);
    reveal_strlit("QUIVER");
    assert("WALLET"@[0] != "QUIVER"@[0]);
}

/// What the save holds of `ADULTS_WALLET`.
proof fn lemma_item_adults_wallet(s: Save)
    ensures
        spec_oot_has_named_item(s, "ADULTS_WALLET"@) == (s.upgrades & 0x0000_3000u32 != 0),
{
    lemma_item_name_lengths();
    reveal_strlit("ADULTS_WALLET");
    reveal_strlit("FAIRY_OCARINA");
    assert("ADULTS_WALLET"@[0] != "FAIRY_OCARINA"@[0]);
    reveal_strlit("LENS_OF_TRUTH");
    assert("ADULTS_WALLET"@[0] != "LENS_OF_TRUTH"@[0]);
    reveal_strlit("HYLIAN_SHIELD");
    assert("ADULTS_WALLET"@[0] != "HYLIAN_SHIELD"@[0]);
    reveal_strlit("MIRROR_SHIELD");
    assert("ADULTS_WALLET"@[0] != "MIRROR_SHIELD"@[0]);
}

/// What the save holds of `GIANTS_WALLET`.
proof fn lemma_item_giants_wallet(s: Save)
    ensures
        spec_oot_has_named_item(s, "GIANTS_WALLET"@) == (s.upgrades & 0x0000_3000u32 != 0),
{
    lemma_item_name_lengths();
    reveal_strlit("GIANTS_WALLET");
    reveal_strlit("FAIRY_OCARINA");
    assert("GIANTS_WALLET"@[0] != "FAIRY_OCARINA"@[0]);
    reveal_strlit("LENS_OF_TRUTH");
    assert("GIANTS_WALLET"@[0] != "LENS_OF_TRUTH"@[0]);
    reveal_strlit("HYLIAN_SHIELD");
    assert("GIANTS_WALLET"@[0] != "HYLIAN_SHIELD"@[0]);
    reveal_strlit("MIRROR_SHIELD");
    assert("GIANTS_WALLET"@[0] != "MIRROR_SHIELD"@[0]);
}

/// What the save holds of `MAGIC`.
proof fn lemma_item_magic(s: Save)
    ensures
        spec_oot_has_named_item(s, "MAGIC"@) == (s.magic != MagicCapacity::NoMagic),
{
    lemma_item_name_lengths();
    reveal_strlit("MAGIC");
    reveal_strlit("NAYRU");
    assert("MAGIC"@[0] != "NAYRU"@[0]);
    reveal_strlit("BEANS");
    assert("MAGIC"@[0] != "BEANS"@[0]);
    reveal_strlit("SCALE");
    assert("MAGIC"@[0] != "SCALE"@[0]);
    reveal_strlit("BOMBS");
    assert("MAGIC"@[0] != "BOMBS"@[0]);
}

/// What the save holds of `MAGIC_METER`.
proof fn lemma_item_magic_meter(s: Save)
    ensures
        spec_oot_has_named_item(s, "MAGIC_METER"@) == (s.magic != MagicCapacity::NoMagic),
{
    lemma_item_name_lengths();
    reveal_strlit("MAGIC_METER");
    reveal_strlit("FIRE_ARROWS");
    assert("MAGIC_METER"@[0] != "FIRE_ARROWS"@[0]);
    reveal_strlit("LIGHT_ARROW");
    assert("MAGIC_METER"@[0] != "LIGHT_ARROW"@[0]);
    reveal_strlit("NAYRUS_LOVE");
    assert("MAGIC_METER"@[0] != "NAYRUS_LOVE"@[0]);
    reveal_strlit("DEKU_SHIELD");
    assert("MAGIC_METER"@[0] != "DEKU_SHIELD"@[0]);
    reveal_strlit("GORON_TUNIC");
    assert("MAGIC_METER"@[0] != "GORON_TUNIC"@[0]);
    reveal_strlit("HOVER_BOOTS");
    assert("MAGIC_METER"@[0] != "HOVER_BOOTS"@[0]);
}

/// What the save holds of `DOUBLE_MAGIC`.
proof fn lemma_item_double_magic(s: Save)
    ensures
        spec_oot_has_named_item(s, "DOUBLE_MAGIC"@) == (s.magic == MagicCapacity::Large),
{
    lemma_item_name_lengths();
    reveal_strlit("DOUBLE_MAGIC");
    reveal_strlit("LIGHT_ARROWS");
    assert("DOUBLE_MAGIC"@[0] != "LIGHT_ARROWS"@[0]);
    reveal_strlit("FARORES_WIND");
    assert("DOUBLE_MAGIC"@[0] != "FARORES_WIND"@[0]);
    reveal_strlit("KOKIRI_SWORD");
    assert("DOUBLE_MAGIC"@[0] != "KOKIRI_SWORD"@[0]);
    reveal_strlit("MASTER_SWORD");
    assert("DOUBLE_MAGIC"@[0] != "MASTER_SWORD"@[0]);
    reveal_strlit("GIANTS_KNIFE");
    assert("DOUBLE_MAGIC"@[0] != "GIANTS_KNIFE"@[0]);
    reveal_strlit("SILVER_SCALE");
    assert("DOUBLE_MAGIC"@[0] != "SILVER_SCALE"@[0]);
    reveal_strlit("GOLDEN_SCALE");
    assert("DOUBLE_MAGIC"@[0] != "GOLDEN_SCALE"@[0]);
}

/// What the save holds of `ZELDAS_LULLABY`.
proof fn lemma_item_zeldas_lullaby(s: Save)
    ensures
        spec_oot_has_named_item(s, "ZELDAS_LULLABY"@) == (s.quest_items & 0x0000_1000u32 == 0x0000_1000u32),
{
    lemma_item_name_lengths();
    reveal_strlit("ZELDAS_LULLABY");
    reveal_strlit("MEGATON_HAMMER");
    assert("ZELDAS_LULLABY"@[0] != "MEGATON_HAMMER"@[0]);
    reveal_strlit("BIGGORON_SWORD");
    assert("ZELDAS_LULLABY"@[0] != "BIGGORON_SWORD"@[0]);
    reveal_strlit("SWORD_BIGGORON");
    assert("ZELDAS_LULLABY"@[0] != "SWORD_BIGGORON"@[0]);
    reveal_strlit("GORON_BRACELET");
    assert("ZELDAS_LULLABY"@[0] != "GORON_BRACELET"@[0]);
    reveal_strlit("GOLD_GAUNTLETS");
    assert("ZELDAS_LULLABY"@[0] != "GOLD_GAUNTLETS"@[0]);
}

/// What the save holds of `LULLABY`.
proof fn lemma_item_lullaby(s: Save)
    ensures
        spec_oot_has_named_item(s, "LULLABY"@) == (s.quest_items & 0x0000_1000u32 == 0x0000_1000u32),
{
    lemma_item_name_lengths();
    reveal_strlit("LULLABY");
    reveal_strlit("OCARINA");
    assert("LULLABY"@[0] != "OCARINA"@[0]);
    reveal_strlit("BOMBCHU");
    assert("LULLABY"@[0] != "BOMBCHU"@[0]);
}

/// What the save holds of `EPONAS_SONG`.
proof fn lemma_item_eponas_song(s: Save)
    ensures
        spec_oot_has_named_item(s, "EPONAS_SONG"@) == (s.quest_items & 0x0000_2000u32 == 0x0000_2000u32),
{
    lemma_item_name_lengths();
    reveal_strlit("EPONAS_SONG");
    reveal_strlit("FIRE_ARROWS");
    assert("EPONAS_SONG"@[0] != "FIRE_ARROWS"@[0]);
    reveal_strlit("LIGHT_ARROW");
    assert("EPONAS_SONG"@[0] != "LIGHT_ARROW"@[0]);
    reveal_strlit("NAYRUS_LOVE");
    assert("EPONAS_SONG"@[0] != "NAYRUS_LOVE"@[0]);
    reveal_strlit("DEKU_SHIELD");
    assert("EPONAS_SONG"@[0] != "DEKU_SHIELD"@[0]);
    reveal_strlit("GORON_TUNIC");
    assert("EPONAS_SONG"@[0] != "GORON_TUNIC"@[0]);
    reveal_strlit("HOVER_BOOTS");
    assert("EPONAS_SONG"@[0] != "HOVER_BOOTS"@[0]);
    reveal_strlit("MAGIC_METER");
    assert("EPONAS_SONG"@[0] != "MAGIC_METER"@[0]);
}

/// What the save holds of `EPONA`.
proof fn lemma_item_epona(s: Save)
    ensures
        spec_oot_has_named_item(s, "EPONA"@) == (s.quest_items & 0x0000_2000u32 == 0x0000_2000u32),
{
    lemma_item_name_lengths();
    reveal_strlit("EPONA");
    reveal_strlit("NAYRU");
    assert("EPONA"@[0] != "NAYRU"@[0]);
    reveal_strlit("BEANS");
    assert("EPONA"@[0] != "BEANS"@[0]);
    reveal_strlit("SCALE");
    assert("EPONA"@[0] != "SCALE"@[0]);
    reveal_strlit("BOMBS");
    assert("EPONA"@[0] != "BOMBS"@[0]);
    reveal_strlit("MAGIC");
    assert("EPONA"@[0] != "MAGIC"@[0]);
}

/// What the save holds of `SARIAS_SONG`.
proof fn lemma_item_sarias_song(s: Save)
    ensures
        spec_oot_has_named_item(s, "SARIAS_SONG"@) == (s.quest_items & 0x0000_4000u32 == 0x0000_4000u32),
{
    lemma_item_name_lengths();
    reveal_strlit("SARIAS_SONG");
    reveal_strlit("FIRE_ARROWS");
    assert("SARIAS_SONG"@[0] != "FIRE_ARROWS"@[0]);
    reveal_strlit("LIGHT_ARROW");
    assert("SARIAS_SONG"@[0] != "LIGHT_ARROW"@[0]);
    reveal_strlit("NAYRUS_LOVE");
    assert("SARIAS_SONG"@[0] != "NAYRUS_LOVE"@[0]);
    reveal_strlit("DEKU_SHIELD");
    assert("SARIAS_SONG"@[0] != "DEKU_SHIELD"@[0]);
    reveal_strlit("GORON_TUNIC");
    assert("SARIAS_SONG"@[0] != "GORON_TUNIC"@[0]);
    reveal_strlit("HOVER_BOOTS");
    assert("SARIAS_SONG"@[0] != "HOVER_BOOTS"@[0]);
    reveal_strlit("MAGIC_METER");
    assert("SARIAS_SONG"@[0] != "MAGIC_METER"@[0]);
    reveal_strlit("EPONAS_SONG");
    assert("SARIAS_SONG"@[0] != "EPONAS_SONG"@[0]);
}

/// What the save holds of `SARIA`.
proof fn lemma_item_saria(s: Save)
    ensures
        spec_oot_has_named_item(s, "SARIA"@) == (s.quest_items & 0x0000_4000u32 == 0x0000_4000u32),
{
    lemma_item_name_lengths();
    reveal_strlit("SARIA");
    reveal_strlit("NAYRU");
    assert("SARIA"@[0] != "NAYRU"@[0]);
    reveal_strlit("BEANS");
    assert("SARIA"@[0] != "BEANS"@[0]);
    reveal_strlit("SCALE");
    assert("SARIA"@[1] != "SCALE"@[1]);
    reveal_strlit("BOMBS");
    assert("SARIA"@[0] != "BOMBS"@[0]);
    reveal_strlit("MAGIC");
    assert("SARIA"@[0] != "MAGIC"@[0]);
    reveal_strlit("EPONA");
    assert("SARIA"@[0] != "EPONA"@[0]);
}

/// What the save holds of `SUNS_SONG`.
proof fn lemma_item_suns_song(s: Save)
    ensures
        spec_oot_has_named_item(s, "SUNS_SONG"@) == (s.quest_items & 0x0000_8000u32 == 0x0000_8000u32),
{
    lemma_item_name_lengths();
    reveal_strlit("SUNS_SONG");
    reveal_strlit("ICE_ARROW");
    assert("SUNS_SONG"@[0] != "ICE_ARROW"@[0]);
    reveal_strlit("DINS_FIRE");
    assert("SUNS_SONG"@[0] != "DINS_FIRE"@[0]);
    reveal_strlit("SLINGSHOT");
    assert("SUNS_SONG"@[1] != "SLINGSHOT"@[1]);
    reveal_strlit("BOOMERANG");
    assert("SUNS_SONG"@[0] != "BOOMERANG"@[0]);
}

/// What the save holds of `SUN`.
proof fn lemma_item_sun(s: Save)
    ensures
        spec_oot_has_named_item(s, "SUN"@) == (s.quest_items & 0x0000_8000u32 == 0x0000_8000u32),
{
    lemma_item_name_lengths();
    reveal_strlit("SUN");
    reveal_strlit("BOW");
    assert("SUN"@[0] != "BOW"@[0]);
    reveal_strlit("DIN");
    assert("SUN"@[0] != "DIN"@[0]);
}

/// What the save holds of `SONG_OF_TIME`.
proof fn lemma_item_song_of_time(s: Save)
    ensures
        spec_oot_has_named_item(s, "SONG_OF_TIME"@) == (s.quest_items & 0x0001_0000u32 == 0x0001_0000u32),
{
    lemma_item_name_lengths();
    reveal_strlit("SONG_OF_TIME");
    reveal_strlit("LIGHT_ARROWS");
    assert("SONG_OF_TIME"@[0] != "LIGHT_ARROWS"@[0]);
    reveal_strlit("FARORES_WIND");
    assert("SONG_OF_TIME"@[0] != "FARORES_WIND"@[0]);
    reveal_strlit("KOKIRI_SWORD");
    assert("SONG_OF_TIME"@[0] != "KOKIRI_SWORD"@[0]);
    reveal_strlit("MASTER_SWORD");
    assert("SONG_OF_TIME"@[0] != "MASTER_SWORD"@[0]);
    reveal_strlit("GIANTS_KNIFE");
    assert("SONG_OF_TIME"@[0] != "GIANTS_KNIFE"@[0]);
    reveal_strlit("SILVER_SCALE");
    assert("SONG_OF_TIME"@[1] != "SILVER_SCALE"@[1]);
    reveal_strlit("GOLDEN_SCALE");
    assert("SONG_OF_TIME"@[0] != "GOLDEN_SCALE"@[0]);
    reveal_strlit("DOUBLE_MAGIC");
    assert("SONG_OF_TIME"@[0] != "DOUBLE_MAGIC"@[0]);
}

/// What the save holds of `TIME`.
proof fn lemma_item_time(s: Save)
    ensures
        spec_oot_has_named_item(s, "TIME"@) == (s.quest_items & 0x0001_0000u32 == 0x0001_0000u32),
{
    lemma_item_name_lengths();
    reveal_strlit("TIME");
    reveal_strlit("LENS");
    assert("TIME"@[0] != "LENS"@[0]);
}

/// What the save holds of `SONG_OF_STORMS`.
proof fn lemma_item_song_of_storms(s: Save)
    ensures
        spec_oot_has_named_item(s, "SONG_OF_STORMS"@) == (s.quest_items & 0x0002_0000u32 == 0x0002_0000u32),
{
    lemma_item_name_lengths();
    reveal_strlit("SONG_OF_STORMS");
    reveal_strlit("MEGATON_HAMMER");
    assert("SONG_OF_STORMS"@[0] != "MEGATON_HAMMER"@[0]);
    reveal_strlit("BIGGORON_SWORD");
    assert("SONG_OF_STORMS"@[0] != "BIGGORON_SWORD"@[0]);
    reveal_strlit("SWORD_BIGGORON");
    assert("SONG_OF_STORMS"@[1] != "SWORD_BIGGORON"@[1]);
    reveal_strlit("GORON_BRACELET");
    assert("SONG_OF_STORMS"@[0] != "GORON_BRACELET"@[0]);
    reveal_strlit("GOLD_GAUNTLETS");
    assert("SONG_OF_STORMS"@[0] != "GOLD_GAUNTLETS"@[0]);
    reveal_strlit("ZELDAS_LULLABY");
    assert("SONG_OF_STORMS"@[0] != "ZELDAS_LULLABY"@[0]);
}

/// What the save holds of `STORMS`.
proof fn lemma_item_storms(s: Save)
    ensures
        spec_oot_has_named_item(s, "STORMS"@) == (s.quest_items & 0x0002_0000u32 == 0x0002_0000u32),
{
    lemma_item_name_lengths();
    reveal_strlit("STORMS");
    reveal_strlit("FARORE");
    assert("STORMS"@[0] != "FARORE"@[0]);
    reveal_strlit("HAMMER");
    assert("STORMS"@[0] != "HAMMER"@[0]);
    reveal_strlit("QUIVER");
    assert("STORMS"@[0] != "QUIVER"@[0]);
    reveal_strlit("WALLET");
    assert("STORMS"@[0] != "WALLET"@[0]);
}

/// What the save holds of `MINUET_OF_FOREST`.
proof fn lemma_item_minuet_of_forest(s: Save)
    ensures
        spec_oot_has_named_item(s, "MINUET_OF_FOREST"@) == (s.quest_items & 0x0000_0040u32 == 0x0000_0040u32),
{
    lemma_item_name_lengths();
    reveal_strlit("MINUET_OF_FOREST");
    reveal_strlit("SILVER_GAUNTLETS");
    assert("MINUET_OF_FOREST"@[0] != "SILVER_GAUNTLETS"@[0]);
    reveal_strlit("GOLDEN_GAUNTLETS");
    assert("MINUET_OF_FOREST"@[0] != "GOLDEN_GAUNTLETS"@[0]);
}

/// What the save holds of `MINUET`.
proof fn lemma_item_minuet(s: Save)
    ensures
        spec_oot_has_named_item(s, "MINUET"@) == (s.quest_items & 0x0000_0040u32 == 0x0000_0040u32),
{
    lemma_item_name_lengths();
    reveal_strlit("MINUET");
    reveal_strlit("FARORE");
    assert("MINUET"@[0] != "FARORE"@[0]);
    reveal_strlit("HAMMER");
    assert("MINUET"@[0] != "HAMMER"@[0]);
    reveal_strlit("QUIVER");
    assert("MINUET"@[0] != "QUIVER"@[0]);
    reveal_strlit("WALLET");
    assert("MINUET"@[0] != "WALLET"@[0]);
    reveal_strlit("STORMS");
    assert("MINUET"@[0] != "STORMS"@[0]);
}

/// What the save holds of `BOLERO_OF_FIRE`.
proof fn lemma_item_bolero_of_fire(s: Save)
    ensures
        spec_oot_has_named_item(s, "BOLERO_OF_FIRE"@) == (s.quest_items & 0x0000_0080u32 == 0x0000_0080u32),
{
    lemma_item_name_lengths();
    reveal_strlit("BOLERO_OF_FIRE");
    reveal_strlit("MEGATON_HAMMER");
    assert("BOLERO_OF_FIRE"@[0] != "MEGATON_HAMMER"@[0]);
    reveal_strlit("BIGGORON_SWORD");
    assert("BOLERO_OF_FIRE"@[1] != "BIGGORON_SWORD"@[1]);
    reveal_strlit("SWORD_BIGGORON");
    assert("BOLERO_OF_FIRE"@[0] != "SWORD_BIGGORON"@[0]);
    reveal_strlit("GORON_BRACELET");
    assert("BOLERO_OF_FIRE"@[0] != "GORON_BRACELET"@[0]);
    reveal_strlit("GOLD_GAUNTLETS");
    assert("BOLERO_OF_FIRE"@[0] != "GOLD_GAUNTLETS"@[0]);
    reveal_strlit("ZELDAS_LULLABY");
    assert("BOLERO_OF_FIRE"@[0] != "ZELDAS_LULLABY"@[0]);
    reveal_strlit("SONG_OF_STORMS");
    assert("BOLERO_OF_FIRE"@[0] != "SONG_OF_STORMS"@[0]);
}

/// What the save holds of `BOLERO`.
proof fn lemma_item_bolero(s: Save)
    ensures
        spec_oot_has_named_item(s, "BOLERO"@) == (s.quest_items & 0x0000_0080u32 == 0x0000_0080u32),
{
    lemma_item_name_lengths();
    reveal_strlit("BOLERO");
    reveal_strlit("FARORE");
    assert("BOLERO"@[0] != "FARORE"@[0]);
    reveal_strlit("HAMMER");
    assert("BOLERO"@[0] != "HAMMER"@[0]);
    reveal_strlit("QUIVER");
    assert("BOLERO"@[0] != "QUIVER"@[0]);
    reveal_strlit("WALLET");
    assert("BOLERO"@[0] != "WALLET"@[0]);
    reveal_strlit("STORMS");
    assert("BOLERO"@[0] != "STORMS"@[0]);
    reveal_strlit("MINUET");
    assert("BOLERO"@[0] != "MINUET"@[0]);
}

/// What the save holds of `SERENADE_OF_WATER`.
proof fn lemma_item_serenade_of_water(s: Save)
    ensures
        spec_oot_has_named_item(s, "SERENADE_OF_WATER"@) == (s.quest_items & 0x0000_0100u32 == 0x0000_0100u32),
{
    lemma_item_name_lengths();
}

/// What the save holds of `SERENADE`.
proof fn lemma_item_serenade(s: Save)
    ensures
        spec_oot_has_named_item(s, "SERENADE"@) == (s.quest_items & 0x0000_0100u32 == 0x0000_0100u32),
{
    lemma_item_name_lengths();
    reveal_strlit("SERENADE");
    reveal_strlit("BOMBCHUS");
    assert("SERENADE"@[0] != "BOMBCHUS"@[0]);
    reveal_strlit("HOOKSHOT");
    assert("SERENADE"@[0] != "HOOKSHOT"@[0]);
    reveal_strlit("LONGSHOT");
    assert("SERENADE"@[0] != "LONGSHOT"@[0]);
    reveal_strlit("STRENGTH");
    assert("SERENADE"@[1] != "STRENGTH"@[1]);
    reveal_strlit("BOMB_BAG");
    assert("SERENADE"@[0] != "BOMB_BAG"@[0]);
}

/// What the save holds of `REQUIEM_OF_SPIRIT`.
proof fn lemma_item_requiem_of_spirit(s: Save)
    ensures
        spec_oot_has_named_item(s, "REQUIEM_OF_SPIRIT"@) == (s.quest_items & 0x0000_0200u32 == 0x0000_0200u32),
{
    lemma_item_name_lengths();
    reveal_strlit("REQUIEM_OF_SPIRIT");
    reveal_strlit("SERENADE_OF_WATER");
    assert("REQUIEM_OF_SPIRIT"@[0] != "SERENADE_OF_WATER"@[0]);
}

/// What the save holds of `REQUIEM`.
proof fn lemma_item_requiem(s: Save)
    ensures
        spec_oot_has_named_item(s, "REQUIEM"@) == (s.quest_items & 0x0000_0200u32 == 0x0000_0200u32),
{
    lemma_item_name_lengths();
    reveal_strlit("REQUIEM");
    reveal_strlit("OCARINA");
    assert("REQUIEM"@[0] != "OCARINA"@[0]);
    reveal_strlit("BOMBCHU");
    assert("REQUIEM"@[0] != "BOMBCHU"@[0]);
    reveal_strlit("LULLABY");
    assert("REQUIEM"@[0] != "LULLABY"@[0]);
}

/// What the save holds of `NOCTURNE_OF_SHADOW`.
proof fn lemma_item_nocturne_of_shadow(s: Save)
    ensures
        spec_oot_has_named_item(s, "NOCTURNE_OF_SHADOW"@) == (s.quest_items & 0x0000_0400u32 == 0x0000_0400u32),
{
    lemma_item_name_lengths();
}

/// What the save holds of `NOCTURNE`.
proof fn lemma_item_nocturne(s: Save)
    ensures
        spec_oot_has_named_item(s, "NOCTURNE"@) == (s.quest_items & 0x0000_0400u32 == 0x0000_0400u32),
{
    lemma_item_name_lengths();
    reveal_strlit("NOCTURNE");
    reveal_strlit("BOMBCHUS");
    assert("NOCTURNE"@[0] != "BOMBCHUS"@[0]);
    reveal_strlit("HOOKSHOT");
    assert("NOCTURNE"@[0] != "HOOKSHOT"@[0]);
    reveal_strlit("LONGSHOT");
    assert("NOCTURNE"@[0] != "LONGSHOT"@[0]);
    reveal_strlit("STRENGTH");
    assert("NOCTURNE"@[0] != "STRENGTH"@[0]);
    reveal_strlit("BOMB_BAG");
    assert("NOCTURNE"@[0] != "BOMB_BAG"@[0]);
    reveal_strlit("SERENADE");
    assert("NOCTURNE"@[0] != "SERENADE"@[0]);
}

/// What the save holds of `PRELUDE_OF_LIGHT`.
proof fn lemma_item_prelude_of_light(s: Save)
    ensures
        spec_oot_has_named_item(s, "PRELUDE_OF_LIGHT"@) == (s.quest_items & 0x0000_0800u32 == 0x0000_0800u32),
{
    lemma_item_name_lengths();
    reveal_strlit("PRELUDE_OF_LIGHT");
    reveal_strlit("SILVER_GAUNTLETS");
    assert("PRELUDE_OF_LIGHT"@[0] != "SILVER_GAUNTLETS"@[0]);
    reveal_strlit("GOLDEN_GAUNTLETS");
    assert("PRELUDE_OF_LIGHT"@[0] != "GOLDEN_GAUNTLETS"@[0]);
    reveal_strlit("MINUET_OF_FOREST");
    assert("PRELUDE_OF_LIGHT"@[0] != "MINUET_OF_FOREST"@[0]);
}

/// What the save holds of `PRELUDE`.
proof fn lemma_item_prelude(s: Save)
    ensures
        spec_oot_has_named_item(s, "PRELUDE"@) == (s.quest_items & 0x0000_0800u32 == 0x0000_0800u32),
{
    lemma_item_name_lengths();
    reveal_strlit("PRELUDE");
    reveal_strlit("OCARINA");
    assert("PRELUDE"@[0] != "OCARINA"@[0]);
    reveal_strlit("BOMBCHU");
    assert("PRELUDE"@[0] != "BOMBCHU"@[0]);
    reveal_strlit("LULLABY");
    assert("PRELUDE"@[0] != "LULLABY"@[0]);
    reveal_strlit("REQUIEM");
    assert("PRELUDE"@[0] != "REQUIEM"@[0]);
}

/// What the save holds of `KOKIRI_EMERALD`.
proof fn lemma_item_kokiri_emerald(s: Save)
    ensures
        spec_oot_has_named_item(s, "KOKIRI_EMERALD"@) == (s.quest_items & 0x0004_0000u32 == 0x0004_0000u32),
{
    lemma_item_name_lengths();
    reveal_strlit("KOKIRI_EMERALD");
    reveal_strlit("MEGATON_HAMMER");
    assert("KOKIRI_EMERALD"@[0] != "MEGATON_HAMMER"@[0]);
    reveal_strlit("BIGGORON_SWORD");
    assert("KOKIRI_EMERALD"@[0] != "BIGGORON_SWORD"@[0]);
    reveal_strlit("SWORD_BIGGORON");
    assert("KOKIRI_EMERALD"@[0] != "SWORD_BIGGORON"@[0]);
    reveal_strlit("GORON_BRACELET");
    assert("KOKIRI_EMERALD"@[0] != "GORON_BRACELET"@[0]);
    reveal_strlit("GOLD_GAUNTLETS");
    assert("KOKIRI_EMERALD"@[0] != "GOLD_GAUNTLETS"@[0]);
    reveal_strlit("ZELDAS_LULLABY");
    assert("KOKIRI_EMERALD"@[0] != "ZELDAS_LULLABY"@[0]);
    reveal_strlit("SONG_OF_STORMS");
    assert("KOKIRI_EMERALD"@[0] != "SONG_OF_STORMS"@[0]);
    reveal_strlit("BOLERO_OF_FIRE");
    assert("KOKIRI_EMERALD"@[0] != "BOLERO_OF_FIRE"@[0]);
}

/// What the save holds of `GORON_RUBY`.
proof fn lemma_item_goron_ruby(s: Save)
    ensures
        spec_oot_has_named_item(s, "GORON_RUBY"@) == (s.quest_items & 0x0008_0000u32 == 0x0008_0000u32),
{
    lemma_item_name_lengths();
    reveal_strlit("GORON_RUBY");
    reveal_strlit("FIRE_ARROW");
    assert("GORON_RUBY"@[0] != "FIRE_ARROW"@[0]);
    reveal_strlit("ICE_ARROWS");
    assert("GORON_RUBY"@[0] != "ICE_ARROWS"@[0]);
    reveal_strlit("MAGIC_BEAN");
    assert("GORON_RUBY"@[0] != "MAGIC_BEAN"@[0]);
    reveal_strlit("ZORA_TUNIC");
    assert("GORON_RUBY"@[0] != "ZORA_TUNIC"@[0]);
    reveal_strlit("IRON_BOOTS");
    assert("GORON_RUBY"@[0] != "IRON_BOOTS"@[0]);
    reveal_strlit("GOLD_SCALE");
    assert("GORON_RUBY"@[2] != "GOLD_SCALE"@[2]);
    reveal_strlit("BULLET_BAG");
    assert("GORON_RUBY"@[0] != "BULLET_BAG"@[0]);
}

/// What the save holds of `ZORA_SAPPHIRE`.
proof fn lemma_item_zora_sapphire(s: Save)
    ensures
        spec_oot_has_named_item(s, "ZORA_SAPPHIRE"@) == (s.quest_items & 0x0010_0000u32 == 0x0010_0000u32),
{
    lemma_item_name_lengths();
    reveal_strlit("ZORA_SAPPHIRE");
    reveal_strlit("FAIRY_OCARINA");
    assert("ZORA_SAPPHIRE"@[0] != "FAIRY_OCARINA"@[0]);
    reveal_strlit("LENS_OF_TRUTH");
    assert("ZORA_SAPPHIRE"@[0] != "LENS_OF_TRUTH"@[0]);
    reveal_strlit("HYLIAN_SHIELD");
    assert("ZORA_SAPPHIRE"@[0] != "HYLIAN_SHIELD"@[0]);
    reveal_strlit("MIRROR_SHIELD");
    assert("ZORA_SAPPHIRE"@[0] != "MIRROR_SHIELD"@[0]);
    reveal_strlit("ADULTS_WALLET");
    assert("ZORA_SAPPHIRE"@[0] != "ADULTS_WALLET"@[0]);
    reveal_strlit("GIANTS_WALLET");
    assert("ZORA_SAPPHIRE"@[0] != "GIANTS_WALLET"@[0]);
}

/// What the save holds of `FOREST_MEDALLION`.
proof fn lemma_item_forest_medallion(s: Save)
    ensures
        spec_oot_has_named_item(s, "FOREST_MEDALLION"@) == (s.quest_items & 0x0000_0001u32 == 0x0000_0001u32),
{
    lemma_item_name_lengths();
    reveal_strlit("FOREST_MEDALLION");
    reveal_strlit("SILVER_GAUNTLETS");
    assert("FOREST_MEDALLION"@[0] != "SILVER_GAUNTLETS"@[0]);
    reveal_strlit("GOLDEN_GAUNTLETS");
    assert("FOREST_MEDALLION"@[0] != "GOLDEN_GAUNTLETS"@[0]);
    reveal_strlit("MINUET_OF_FOREST");
    assert("FOREST_MEDALLION"@[0] != "MINUET_OF_FOREST"@[0]);
    reveal_strlit("PRELUDE_OF_LIGHT");
    assert("FOREST_MEDALLION"@[0] != "PRELUDE_OF_LIGHT"@[0]);
}

/// What the save holds of `FIRE_MEDALLION`.
proof fn lemma_item_fire_medallion(s: Save)
    ensures
        spec_oot_has_named_item(s, "FIRE_MEDALLION"@) == (s.quest_items & 0x0000_0002u32 == 0x0000_0002u32),
{
    lemma_item_name_lengths();
    reveal_strlit("FIRE_MEDALLION");
    reveal_strlit("MEGATON_HAMMER");
    assert("FIRE_MEDALLION"@[0] != "MEGATON_HAMMER"@[0]);
    reveal_strlit("BIGGORON_SWORD");
    assert("FIRE_MEDALLION"@[0] != "BIGGORON_SWORD"@[0]);
    reveal_strlit("SWORD_BIGGORON");
    assert("FIRE_MEDALLION"@[0] != "SWORD_BIGGORON"@[0]);
    reveal_strlit("GORON_BRACELET");
    assert("FIRE_MEDALLION"@[0] != "GORON_BRACELET"@[0]);
    reveal_strlit("GOLD_GAUNTLETS");
    assert("FIRE_MEDALLION"@[0] != "GOLD_GAUNTLETS"@[0]);
    reveal_strlit("ZELDAS_LULLABY");
    assert("FIRE_MEDALLION"@[0] != "ZELDAS_LULLABY"@[0]);
    reveal_strlit("SONG_OF_STORMS");
    assert("FIRE_MEDALLION"@[0] != "SONG_OF_STORMS"@[0]);
    reveal_strlit("BOLERO_OF_FIRE");
    assert("FIRE_MEDALLION"@[0] != "BOLERO_OF_FIRE"@[0]);
    reveal_strlit("KOKIRI_EMERALD");
    assert("FIRE_MEDALLION"@[0] != "KOKIRI_EMERALD"@[0]);
}

/// What the save holds of `WATER_MEDALLION`.
proof fn lemma_item_water_medallion(s: Save)
    ensures
        spec_oot_has_named_item(s, "WATER_MEDALLION"@) == (s.quest_items & 0x0000_0004u32 == 0x0000_0004u32),
{
    lemma_item_name_lengths();
    reveal_strlit("WATER_MEDALLION");
    reveal_strlit("FAIRY_SLINGSHOT");
    assert("WATER_MEDALLION"@[0] != "FAIRY_SLINGSHOT"@[0]);
    reveal_strlit("OCARINA_OF_TIME");
    assert("WATER_MEDALLION"@[0] != "OCARINA_OF_TIME"@[0]);
}

/// What the save holds of `SPIRIT_MEDALLION`.
proof fn lemma_item_spirit_medallion(s: Save)
    ensures
        spec_oot_has_named_item(s, "SPIRIT_MEDALLION"@) == (s.quest_items & 0x0000_0008u32 == 0x0000_0008u32),
{
    lemma_item_name_lengths();
    reveal_strlit("SPIRIT_MEDALLION");
    reveal_strlit("SILVER_GAUNTLETS");
    assert("SPIRIT_MEDALLION"@[1] != "SILVER_GAUNTLETS"@[1]);
    reveal_strlit("GOLDEN_GAUNTLETS");
    assert("SPIRIT_MEDALLION"@[0] != "GOLDEN_GAUNTLETS"@[0]);
    reveal_strlit("MINUET_OF_FOREST");
    assert("SPIRIT_MEDALLION"@[0] != "MINUET_OF_FOREST"@[0]);
    reveal_strlit("PRELUDE_OF_LIGHT");
    assert("SPIRIT_MEDALLION"@[0] != "PRELUDE_OF_LIGHT"@[0]);
    reveal_strlit("FOREST_MEDALLION");
    assert("SPIRIT_MEDALLION"@[0] != "FOREST_MEDALLION"@[0]);
}

/// What the save holds of `SHADOW_MEDALLION`.
proof fn lemma_item_shadow_medallion(s: Save)
    ensures
        spec_oot_has_named_item(s, "SHADOW_MEDALLION"@) == (s.quest_items & 0x0000_0010u32 == 0x0000_0010u32),
{
    lemma_item_name_lengths();
    reveal_strlit("SHADOW_MEDALLION");
    reveal_strlit("SILVER_GAUNTLETS");
    assert("SHADOW_MEDALLION"@[1] != "SILVER_GAUNTLETS"@[1]);
    reveal_strlit("GOLDEN_GAUNTLETS");
    assert("SHADOW_MEDALLION"@[0] != "GOLDEN_GAUNTLETS"@[0]);
    reveal_strlit("MINUET_OF_FOREST");
    assert("SHADOW_MEDALLION"@[0] != "MINUET_OF_FOREST"@[0]);
    reveal_strlit("PRELUDE_OF_LIGHT");
    assert("SHADOW_MEDALLION"@[0] != "PRELUDE_OF_LIGHT"@[0]);
    reveal_strlit("FOREST_MEDALLION");
    assert("SHADOW_MEDALLION"@[0] != "FOREST_MEDALLION"@[0]);
    reveal_strlit("SPIRIT_MEDALLION");
    assert("SHADOW_MEDALLION"@[1] != "SPIRIT_MEDALLION"@[1]);
}

/// What the save holds of `LIGHT_MEDALLION`.
proof fn lemma_item_light_medallion(s: Save)
    ensures
        spec_oot_has_named_item(s, "LIGHT_MEDALLION"@) == (s.quest_items & 0x0000_0020u32 == 0x0000_0020u32),
{
    lemma_item_name_lengths();
    reveal_strlit("LIGHT_MEDALLION");
    reveal_strlit("FAIRY_SLINGSHOT");
    assert("LIGHT_MEDALLION"@[0] != "FAIRY_SLINGSHOT"@[0]);
    reveal_strlit("OCARINA_OF_TIME");
    assert("LIGHT_MEDALLION"@[0] != "OCARINA_OF_TIME"@[0]);
    reveal_strlit("WATER_MEDALLION");
    assert("LIGHT_MEDALLION"@[0] != "WATER_MEDALLION"@[0]);
}

/// What the save holds of `GERUDO_CARD`.
proof fn lemma_item_gerudo_card(s: Save)
    ensures
        spec_oot_has_named_item(s, "GERUDO_CARD"@) == (s.quest_items & 0x0040_0000u32 == 0x0040_0000u32),
{
    lemma_item_name_lengths();
    reveal_strlit("GERUDO_CARD");
    reveal_strlit("FIRE_ARROWS");
    assert("GERUDO_CARD"@[0] != "FIRE_ARROWS"@[0]);
    reveal_strlit("LIGHT_ARROW");
    assert("GERUDO_CARD"@[0] != "LIGHT_ARROW"@[0]);
    reveal_strlit("NAYRUS_LOVE");
    assert("GERUDO_CARD"@[0] != "NAYRUS_LOVE"@[0]);
    reveal_strlit("DEKU_SHIELD");
    assert("GERUDO_CARD"@[0] != "DEKU_SHIELD"@[0]);
    reveal_strlit("GORON_TUNIC");
    assert("GERUDO_CARD"@[1] != "GORON_TUNIC"@[1]);
    reveal_strlit("HOVER_BOOTS");
    assert("GERUDO_CARD"@[0] != "HOVER_BOOTS"@[0]);
    reveal_strlit("MAGIC_METER");
    assert("GERUDO_CARD"@[0] != "MAGIC_METER"@[0]);
    reveal_strlit("EPONAS_SONG");
    assert("GERUDO_CARD"@[0] != "EPONAS_SONG"@[0]);
    reveal_strlit("SARIAS_SONG");
    assert("GERUDO_CARD"@[0] != "SARIAS_SONG"@[0]);
}

/// What the save holds of `GERUDO_MEMBERSHIP_CARD`.
proof fn lemma_item_gerudo_membership_card(s: Save)
    ensures
        spec_oot_has_named_item(s, "GERUDO_MEMBERSHIP_CARD"@) == (s.quest_items & 0x0040_0000u32 == 0x0040_0000u32),
{
    lemma_item_name_lengths();
}

/// What the save holds of `STONE_OF_AGONY`.
proof fn lemma_item_stone_of_agony(s: Save)
    ensures
        spec_oot_has_named_item(s, "STONE_OF_AGONY"@) == (s.quest_items & 0x0020_0000u32 == 0x0020_0000u32),
{
    lemma_item_name_lengths();
    reveal_strlit("STONE_OF_AGONY");
    reveal_strlit("MEGATON_HAMMER");
    assert("STONE_OF_AGONY"@[0] != "MEGATON_HAMMER"@[0]);
    reveal_strlit("BIGGORON_SWORD");
    assert("STONE_OF_AGONY"@[0] != "BIGGORON_SWORD"@[0]);
    reveal_strlit("SWORD_BIGGORON");
    assert("STONE_OF_AGONY"@[1] != "SWORD_BIGGORON"@[1]);
    reveal_strlit("GORON_BRACELET");
    assert("STONE_OF_AGONY"@[0] != "GORON_BRACELET"@[0]);
    reveal_strlit("GOLD_GAUNTLETS");
    assert("STONE_OF_AGONY"@[0] != "GOLD_GAUNTLETS"@[0]);
    reveal_strlit("ZELDAS_LULLABY");
    assert("STONE_OF_AGONY"@[0] != "ZELDAS_LULLABY"@[0]);
    reveal_strlit("SONG_OF_STORMS");
    assert("STONE_OF_AGONY"@[1] != "SONG_OF_STORMS"@[1]);
    reveal_strlit("BOLERO_OF_FIRE");
    assert("STONE_OF_AGONY"@[0] != "BOLERO_OF_FIRE"@[0]);
    reveal_strlit("KOKIRI_EMERALD");
    assert("STONE_OF_AGONY"@[0] != "KOKIRI_EMERALD"@[0]);
    reveal_strlit("FIRE_MEDALLION");
    assert("STONE_OF_AGONY"@[0] != "FIRE_MEDALLION"@[0]);
}

/// What the save holds of `BOTTLE`.
proof fn lemma_item_bottle(s: Save)
    ensures
        spec_oot_has_named_item(s, "BOTTLE"@) == (spec_has_any_bottle(s)),
{
    lemma_item_name_lengths();
    reveal_strlit("BOTTLE");
    reveal_strlit("FARORE");
    assert("BOTTLE"@[0] != "FARORE"@[0]);
    reveal_strlit("HAMMER");
    assert("BOTTLE"@[0] != "HAMMER"@[0]);
    reveal_strlit("QUIVER");
    assert("BOTTLE"@[0] != "QUIVER"@[0]);
    reveal_strlit("WALLET");
    assert("BOTTLE"@[0] != "WALLET"@[0]);
    reveal_strlit("STORMS");
    assert("BOTTLE"@[0] != "STORMS"@[0]);
    reveal_strlit("MINUET");
    assert("BOTTLE"@[0] != "MINUET"@[0]);
    reveal_strlit("BOLERO");
    assert("BOTTLE"@[2] != "BOLERO"@[2]);
}

/// What the save holds of `EMPTY_BOTTLE`.
proof fn lemma_item_empty_bottle(s: Save)
    ensures
        spec_oot_has_named_item(s, "EMPTY_BOTTLE"@) == (spec_has_any_bottle(s)),
{
    lemma_item_name_lengths();
    reveal_strlit("EMPTY_BOTTLE");
    reveal_strlit("LIGHT_ARROWS");
    assert("EMPTY_BOTTLE"@[0] != "LIGHT_ARROWS"@[0]);
    reveal_strlit("FARORES_WIND");
    assert("EMPTY_BOTTLE"@[0] != "FARORES_WIND"@[0]);
    reveal_strlit("KOKIRI_SWORD");
    assert("EMPTY_BOTTLE"@[0] != "KOKIRI_SWORD"@[0]);
    reveal_strlit("MASTER_SWORD");
    assert("EMPTY_BOTTLE"@[0] != "MASTER_SWORD"@[0]);
    reveal_strlit("GIANTS_KNIFE");
    assert("EMPTY_BOTTLE"@[0] != "GIANTS_KNIFE"@[0]);
    reveal_strlit("SILVER_SCALE");
    assert("EMPTY_BOTTLE"@[0] != "SILVER_SCALE"@[0]);
    reveal_strlit("GOLDEN_SCALE");
    assert("EMPTY_BOTTLE"@[0] != "GOLDEN_SCALE"@[0]);
    reveal_strlit("DOUBLE_MAGIC");
    assert("EMPTY_BOTTLE"@[0] != "DOUBLE_MAGIC"@[0]);
    reveal_strlit("SONG_OF_TIME");
    assert("EMPTY_BOTTLE"@[0] != "SONG_OF_TIME"@[0]);
}

/// What the save holds of `DEKU_STICK`.
proof fn lemma_item_deku_stick(s: Save)
    ensures
        spec_oot_has_named_item(s, "DEKU_STICK"@) == (s.upgrades & 0x000e_0000u32 != 0),
{
    lemma_item_name_lengths();
    reveal_strlit("DEKU_STICK");
    reveal_strlit("FIRE_ARROW");
    assert("DEKU_STICK"@[0] != "FIRE_ARROW"@[0]);
    reveal_strlit("ICE_ARROWS");
    assert("DEKU_STICK"@[0] != "ICE_ARROWS"@[0]);
    reveal_strlit("MAGIC_BEAN");
    assert("DEKU_STICK"@[0] != "MAGIC_BEAN"@[0]);
    reveal_strlit("ZORA_TUNIC");
    assert("DEKU_STICK"@[0] != "ZORA_TUNIC"@[0]);
    reveal_strlit("IRON_BOOTS");
    assert("DEKU_STICK"@[0] != "IRON_BOOTS"@[0]);
    reveal_strlit("GOLD_SCALE");
    assert("DEKU_STICK"@[0] != "GOLD_SCALE"@[0]);
    reveal_strlit("BULLET_BAG");
    assert("DEKU_STICK"@[0] != "BULLET_BAG"@[0]);
    reveal_strlit("GORON_RUBY");
    assert("DEKU_STICK"@[0] != "GORON_RUBY"@[0]);
}

/// What the save holds of `STICKS`.
proof fn lemma_item_sticks(s: Save)
    ensures
        spec_oot_has_named_item(s, "STICKS"@) == (s.upgrades & 0x000e_0000u32 != 0),
{
    lemma_item_name_lengths();
    reveal_strlit("STICKS");
    reveal_strlit("FARORE");
    assert("STICKS"@[0] != "FARORE"@[0]);
    reveal_strlit("HAMMER");
    assert("STICKS"@[0] != "HAMMER"@[0]);
    reveal_strlit("QUIVER");
    assert("STICKS"@[0] != "QUIVER"@[0]);
    reveal_strlit("WALLET");
    assert("STICKS"@[0] != "WALLET"@[0]);
    reveal_strlit("STORMS");
    assert("STICKS"@[2] != "STORMS"@[2]);
    reveal_strlit("MINUET");
    assert("STICKS"@[0] != "MINUET"@[0]);
    reveal_strlit("BOLERO");
    assert("STICKS"@[0] != "BOLERO"@[0]);
    reveal_strlit("BOTTLE");
    assert("STICKS"@[0] != "BOTTLE"@[0]);
}

/// What the save holds of `DEKU_NUT`.
proof fn lemma_item_deku_nut(s: Save)
    ensures
        spec_oot_has_named_item(s, "DEKU_NUT"@) == (s.upgrades & 0x0070_0000u32 != 0),
{
    lemma_item_name_lengths();
    reveal_strlit("DEKU_NUT");
    reveal_strlit("BOMBCHUS");
    assert("DEKU_NUT"@[0] != "BOMBCHUS"@[0]);
    reveal_strlit("HOOKSHOT");
    assert("DEKU_NUT"@[0] != "HOOKSHOT"@[0]);
    reveal_strlit("LONGSHOT");
    assert("DEKU_NUT"@[0] != "LONGSHOT"@[0]);
    reveal_strlit("STRENGTH");
    assert("DEKU_NUT"@[0] != "STRENGTH"@[0]);
    reveal_strlit("BOMB_BAG");
    assert("DEKU_NUT"@[0] != "BOMB_BAG"@[0]);
    reveal_strlit("SERENADE");
    assert("DEKU_NUT"@[0] != "SERENADE"@[0]);
    reveal_strlit("NOCTURNE");
    assert("DEKU_NUT"@[0] != "NOCTURNE"@[0]);
}

/// What the save holds of `NUTS`.
proof fn lemma_item_nuts(s: Save)
    ensures
        spec_oot_has_named_item(s, "NUTS"@) == (s.upgrades & 0x0070_0000u32 != 0),
{
    lemma_item_name_lengths();
    reveal_strlit("NUTS");
    reveal_strlit("LENS");
    assert("NUTS"@[0] != "LENS"@[0]);
    reveal_strlit("TIME");
    assert("NUTS"@[0] != "TIME"@[0]);
}

/// Law: each item name of the OoT logic is answered from its own part of
/// the save: the inventory flag of the item, its own bit of the equipment,
/// upgrade or quest status words (the values written out below), the
/// ocarina, hookshot and magic levels, or the bottle slots.
pub proof fn lemma_oot_item_names(s: Save)
    ensures
        spec_oot_has_named_item(s, "BOW"@) == (s.inv.bow),
        spec_oot_has_named_item(s, "FIRE_ARROW"@) == (s.inv.fire_arrows),
        spec_oot_has_named_item(s, "FIRE_ARROWS"@) == (s.inv.fire_arrows),
        spec_oot_has_named_item(s, "ICE_ARROW"@) == (s.inv.ice_arrows),
        spec_oot_has_named_item(s, "ICE_ARROWS"@) == (s.inv.ice_arrows),
        spec_oot_has_named_item(s, "LIGHT_ARROW"@) == (s.inv.light_arrows),
        spec_oot_has_named_item(s, "LIGHT_ARROWS"@) == (s.inv.light_arrows),
        spec_oot_has_named_item(s, "DINS_FIRE"@) == (s.inv.dins_fire),
        spec_oot_has_named_item(s, "DIN"@) == (s.inv.dins_fire),
        spec_oot_has_named_item(s, "FARORES_WIND"@) == (s.inv.farores_wind),
        spec_oot_has_named_item(s, "FARORE"@) == (s.inv.farores_wind),
        spec_oot_has_named_item(s, "NAYRUS_LOVE"@) == (s.inv.nayrus_love),
        spec_oot_has_named_item(s, "NAYRU"@) == (s.inv.nayrus_love),
        spec_oot_has_named_item(s, "SLINGSHOT"@) == (s.inv.slingshot),
        spec_oot_has_named_item(s, "FAIRY_SLINGSHOT"@) == (s.inv.slingshot),
        spec_oot_has_named_item(s, "OCARINA"@) == (s.inv.ocarina != Ocarina::NoOcarina),
        spec_oot_has_named_item(s, "OCARINA_OF_TIME"@) == (s.inv.ocarina != Ocarina::NoOcarina),
        spec_oot_has_named_item(s, "FAIRY_OCARINA"@) == (s.inv.ocarina != Ocarina::NoOcarina),
        spec_oot_has_named_item(s, "BOMBCHU"@) == (s.inv.bombchus),
        spec_oot_has_named_item(s, "BOMBCHUS"@) == (s.inv.bombchus),
        spec_oot_has_named_item(s, "HOOKSHOT"@) == (s.inv.hookshot == Hookshot::Hookshot || s.inv.hookshot == Hookshot::Longshot),
        spec_oot_has_named_item(s, "LONGSHOT"@) == (s.inv.hookshot == Hookshot::Longshot),
        spec_oot_has_named_item(s, "BOOMERANG"@) == (s.inv.boomerang),
        spec_oot_has_named_item(s, "LENS"@) == (s.inv.lens),
        spec_oot_has_named_item(s, "LENS_OF_TRUTH"@) == (s.inv.lens),
        spec_oot_has_named_item(s, "MAGIC_BEAN"@) == (s.inv.beans),
        spec_oot_has_named_item(s, "BEANS"@) == (s.inv.beans),
        spec_oot_has_named_item(s, "HAMMER"@) == (s.inv.hammer),
        spec_oot_has_named_item(s, "MEGATON_HAMMER"@) == (s.inv.hammer),
        spec_oot_has_named_item(s, "KOKIRI_SWORD"@) == (s.equipment & 0x0001u16 == 0x0001u16),
        spec_oot_has_named_item(s, "MASTER_SWORD"@) == (s.equipment & 0x0002u16 == 0x0002u16),
        spec_oot_has_named_item(s, "GIANTS_KNIFE"@) == (s.biggoron_sword || s.equipment & 0x0004u16 == 0x0004u16),
        spec_oot_has_named_item(s, "BIGGORON_SWORD"@) == (s.biggoron_sword || s.equipment & 0x0004u16 == 0x0004u16),
        spec_oot_has_named_item(s, "SWORD_BIGGORON"@) == (s.biggoron_sword || s.equipment & 0x0004u16 == 0x0004u16),
        spec_oot_has_named_item(s, "DEKU_SHIELD"@) == (s.equipment & 0x0010u16 == 0x0010u16),
        spec_oot_has_named_item(s, "HYLIAN_SHIELD"@) == (s.equipment & 0x0020u16 == 0x0020u16),
        spec_oot_has_named_item(s, "MIRROR_SHIELD"@) == (s.equipment & 0x0040u16 == 0x0040u16),
        spec_oot_has_named_item(s, "GORON_TUNIC"@) == (s.equipment & 0x0200u16 == 0x0200u16),
        spec_oot_has_named_item(s, "ZORA_TUNIC"@) == (s.equipment & 0x0400u16 == 0x0400u16),
        spec_oot_has_named_item(s, "IRON_BOOTS"@) == (s.equipment & 0x2000u16 == 0x2000u16),
        spec_oot_has_named_item(s, "HOVER_BOOTS"@) == (s.equipment & 0x4000u16 == 0x4000u16),
        spec_oot_has_named_item(s, "GORON_BRACELET"@) == (s.upgrades & 0x0000_0040u32 == 0x0000_0040u32),
        spec_oot_has_named_item(s, "STRENGTH"@) == (s.upgrades & 0x0000_0040u32 == 0x0000_0040u32),
        spec_oot_has_named_item(s, "SILVER_GAUNTLETS"@) == (s.upgrades & 0x0000_0080u32 == 0x0000_0080u32),
        spec_oot_has_named_item(s, "GOLD_GAUNTLETS"@) == (s.upgrades & 0x0000_00c0u32 == 0x0000_00c0u32),
        spec_oot_has_named_item(s, "GOLDEN_GAUNTLETS"@) == (s.upgrades & 0x0000_00c0u32 == 0x0000_00c0u32),
        spec_oot_has_named_item(s, "SILVER_SCALE"@) == (s.upgrades & 0x0000_0200u32 == 0x0000_0200u32),
        spec_oot_has_named_item(s, "SCALE"@) == (s.upgrades & 0x0000_0200u32 == 0x0000_0200u32),
        spec_oot_has_named_item(s, "GOLD_SCALE"@) == (s.upgrades & 0x0000_0400u32 == 0x0000_0400u32),
        spec_oot_has_named_item(s, "GOLDEN_SCALE"@) == (s.upgrades & 0x0000_0400u32 == 0x0000_0400u32),
        spec_oot_has_named_item(s, "BOMB_BAG"@) == (s.upgrades & (0x0000_0008u32 | 0x0000_0010u32 | 0x0000_0018u32) != 0),
        spec_oot_has_named_item(s, "BOMBS"@) == (s.upgrades & (0x0000_0008u32 | 0x0000_0010u32 | 0x0000_0018u32) != 0),
        spec_oot_has_named_item(s, "QUIVER"@) == (s.upgrades & (0x0000_0003u32 | 0x0000_0002u32 | 0x0000_0001u32) != 0),
        spec_oot_has_named_item(s, "BULLET_BAG"@) == (s.upgrades & (0x0000_4000u32 | 0x0000_8000u32 | 0x0000_c000u32) != 0),
        spec_oot_has_named_item(s, "WALLET"@) == (s.upgrades & 0x0000_3000u32 != 0),
        spec_oot_has_named_item(s, "ADULTS_WALLET"@) == (s.upgrades & 0x0000_3000u32 != 0),
        spec_oot_has_named_item(s, "GIANTS_WALLET"@) == (s.upgrades & 0x0000_3000u32 != 0),
        spec_oot_has_named_item(s, "MAGIC"@) == (s.magic != MagicCapacity::NoMagic),
        spec_oot_has_named_item(s, "MAGIC_METER"@) == (s.magic != MagicCapacity::NoMagic),
        spec_oot_has_named_item(s, "DOUBLE_MAGIC"@) == (s.magic == MagicCapacity::Large),
        spec_oot_has_named_item(s, "ZELDAS_LULLABY"@) == (s.quest_items & 0x0000_1000u32 == 0x0000_1000u32),
        spec_oot_has_named_item(s, "LULLABY"@) == (s.quest_items & 0x0000_1000u32 == 0x0000_1000u32),
        spec_oot_has_named_item(s, "EPONAS_SONG"@) == (s.quest_items & 0x0000_2000u32 == 0x0000_2000u32),
        spec_oot_has_named_item(s, "EPONA"@) == (s.quest_items & 0x0000_2000u32 == 0x0000_2000u32),
        spec_oot_has_named_item(s, "SARIAS_SONG"@) == (s.quest_items & 0x0000_4000u32 == 0x0000_4000u32),
        spec_oot_has_named_item(s, "SARIA"@) == (s.quest_items & 0x0000_4000u32 == 0x0000_4000u32),
        spec_oot_has_named_item(s, "SUNS_SONG"@) == (s.quest_items & 0x0000_8000u32 == 0x0000_8000u32),
        spec_oot_has_named_item(s, "SUN"@) == (s.quest_items & 0x0000_8000u32 == 0x0000_8000u32),
        spec_oot_has_named_item(s, "SONG_OF_TIME"@) == (s.quest_items & 0x0001_0000u32 == 0x0001_0000u32),
        spec_oot_has_named_item(s, "TIME"@) == (s.quest_items & 0x0001_0000u32 == 0x0001_0000u32),
        spec_oot_has_named_item(s, "SONG_OF_STORMS"@) == (s.quest_items & 0x0002_0000u32 == 0x0002_0000u32),
        spec_oot_has_named_item(s, "STORMS"@) == (s.quest_items & 0x0002_0000u32 == 0x0002_0000u32),
        spec_oot_has_named_item(s, "MINUET_OF_FOREST"@) == (s.quest_items & 0x0000_0040u32 == 0x0000_0040u32),
        spec_oot_has_named_item(s, "MINUET"@) == (s.quest_items & 0x0000_0040u32 == 0x0000_0040u32),
        spec_oot_has_named_item(s, "BOLERO_OF_FIRE"@) == (s.quest_items & 0x0000_0080u32 == 0x0000_0080u32),
        spec_oot_has_named_item(s, "BOLERO"@) == (s.quest_items & 0x0000_0080u32 == 0x0000_0080u32),
        spec_oot_has_named_item(s, "SERENADE_OF_WATER"@) == (s.quest_items & 0x0000_0100u32 == 0x0000_0100u32),
        spec_oot_has_named_item(s, "SERENADE"@) == (s.quest_items & 0x0000_0100u32 == 0x0000_0100u32),
        spec_oot_has_named_item(s, "REQUIEM_OF_SPIRIT"@) == (s.quest_items & 0x0000_0200u32 == 0x0000_0200u32),
        spec_oot_has_named_item(s, "REQUIEM"@) == (s.quest_items & 0x0000_0200u32 == 0x0000_0200u32),
        spec_oot_has_named_item(s, "NOCTURNE_OF_SHADOW"@) == (s.quest_items & 0x0000_0400u32 == 0x0000_0400u32),
        spec_oot_has_named_item(s, "NOCTURNE"@) == (s.quest_items & 0x0000_0400u32 == 0x0000_0400u32),
        spec_oot_has_named_item(s, "PRELUDE_OF_LIGHT"@) == (s.quest_items & 0x0000_0800u32 == 0x0000_0800u32),
        spec_oot_has_named_item(s, "PRELUDE"@) == (s.quest_items & 0x0000_0800u32 == 0x0000_0800u32),
        spec_oot_has_named_item(s, "KOKIRI_EMERALD"@) == (s.quest_items & 0x0004_0000u32 == 0x0004_0000u32),
        spec_oot_has_named_item(s, "GORON_RUBY"@) == (s.quest_items & 0x0008_0000u32 == 0x0008_0000u32),
        spec_oot_has_named_item(s, "ZORA_SAPPHIRE"@) == (s.quest_items & 0x0010_0000u32 == 0x0010_0000u32),
        spec_oot_has_named_item(s, "FOREST_MEDALLION"@) == (s.quest_items & 0x0000_0001u32 == 0x0000_0001u32),
        spec_oot_has_named_item(s, "FIRE_MEDALLION"@) == (s.quest_items & 0x0000_0002u32 == 0x0000_0002u32),
        spec_oot_has_named_item(s, "WATER_MEDALLION"@) == (s.quest_items & 0x0000_0004u32 == 0x0000_0004u32),
        spec_oot_has_named_item(s, "SPIRIT_MEDALLION"@) == (s.quest_items & 0x0000_0008u32 == 0x0000_0008u32),
        spec_oot_has_named_item(s, "SHADOW_MEDALLION"@) == (s.quest_items & 0x0000_0010u32 == 0x0000_0010u32),
        spec_oot_has_named_item(s, "LIGHT_MEDALLION"@) == (s.quest_items & 0x0000_0020u32 == 0x0000_0020u32),
        spec_oot_has_named_item(s, "GERUDO_CARD"@) == (s.quest_items & 0x0040_0000u32 == 0x0040_0000u32),
        spec_oot_has_named_item(s, "GERUDO_MEMBERSHIP_CARD"@) == (s.quest_items & 0x0040_0000u32 == 0x0040_0000u32),
        spec_oot_has_named_item(s, "STONE_OF_AGONY"@) == (s.quest_items & 0x0020_0000u32 == 0x0020_0000u32),
        spec_oot_has_named_item(s, "BOTTLE"@) == (spec_has_any_bottle(s)),
        spec_oot_has_named_item(s, "EMPTY_BOTTLE"@) == (spec_has_any_bottle(s)),
        spec_oot_has_named_item(s, "DEKU_STICK"@) == (s.upgrades & 0x000e_0000u32 != 0),
        spec_oot_has_named_item(s, "STICKS"@) == (s.upgrades & 0x000e_0000u32 != 0),
        spec_oot_has_named_item(s, "DEKU_NUT"@) == (s.upgrades & 0x0070_0000u32 != 0),
        spec_oot_has_named_item(s, "NUTS"@) == (s.upgrades & 0x0070_0000u32 != 0),
{
    lemma_item_bow(s);
    lemma_item_fire_arrow(s);
    lemma_item_fire_arrows(s);
    lemma_item_ice_arrow(s);
    lemma_item_ice_arrows(s);
    lemma_item_light_arrow(s);
    lemma_item_light_arrows(s);
    lemma_item_dins_fire(s);
    lemma_item_din(s);
    lemma_item_farores_wind(s);
    lemma_item_farore(s);
    lemma_item_nayrus_love(s);
    lemma_item_nayru(s);
    lemma_item_slingshot(s);
    lemma_item_fairy_slingshot(s);
    lemma_item_ocarina(s);
    lemma_item_ocarina_of_time(s);
    lemma_item_fairy_ocarina(s);
    lemma_item_bombchu(s);
    lemma_item_bombchus(s);
    lemma_item_hookshot(s);
    lemma_item_longshot(s);
    lemma_item_boomerang(s);
    lemma_item_lens(s);
    lemma_item_lens_of_truth(s);
    lemma_item_magic_bean(s);
    lemma_item_beans(s);
    lemma_item_hammer(s);
    lemma_item_megaton_hammer(s);
    lemma_item_kokiri_sword(s);
    lemma_item_master_sword(s);
    lemma_item_giants_knife(s);
    lemma_item_biggoron_sword(s);
    lemma_item_sword_biggoron(s);
    lemma_item_deku_shield(s);
    lemma_item_hylian_shield(s);
    lemma_item_mirror_shield(s);
    lemma_item_goron_tunic(s);
    lemma_item_zora_tunic(s);
    lemma_item_iron_boots(s);
    lemma_item_hover_boots(s);
    lemma_item_goron_bracelet(s);
    lemma_item_strength(s);
    lemma_item_silver_gauntlets(s);
    lemma_item_gold_gauntlets(s);
    lemma_item_golden_gauntlets(s);
    lemma_item_silver_scale(s);
    lemma_item_scale(s);
    lemma_item_gold_scale(s);
    lemma_item_golden_scale(s);
    lemma_item_bomb_bag(s);
    lemma_item_bombs(s);
    lemma_item_quiver(s);
    lemma_item_bullet_bag(s);
    lemma_item_wallet(s);
    lemma_item_adults_wallet(s);
    lemma_item_giants_wallet(s);
    lemma_item_magic(s);
    lemma_item_magic_meter(s);
    lemma_item_double_magic(s);
    lemma_item_zeldas_lullaby(s);
    lemma_item_lullaby(s);
    lemma_item_eponas_song(s);
    lemma_item_epona(s);
    lemma_item_sarias_song(s);
    lemma_item_saria(s);
    lemma_item_suns_song(s);
    lemma_item_sun(s);
    lemma_item_song_of_time(s);
    lemma_item_time(s);
    lemma_item_song_of_storms(s);
    lemma_item_storms(s);
    lemma_item_minuet_of_forest(s);
    lemma_item_minuet(s);
    lemma_item_bolero_of_fire(s);
    lemma_item_bolero(s);
    lemma_item_serenade_of_water(s);
    lemma_item_serenade(s);
    lemma_item_requiem_of_spirit(s);
    lemma_item_requiem(s);
    lemma_item_nocturne_of_shadow(s);
    lemma_item_nocturne(s);
    lemma_item_prelude_of_light(s);
    lemma_item_prelude(s);
    lemma_item_kokiri_emerald(s);
    lemma_item_goron_ruby(s);
    lemma_item_zora_sapphire(s);
    lemma_item_forest_medallion(s);
    lemma_item_fire_medallion(s);
    lemma_item_water_medallion(s);
    lemma_item_spirit_medallion(s);
    lemma_item_shadow_medallion(s);
    lemma_item_light_medallion(s);
    lemma_item_gerudo_card(s);
    lemma_item_gerudo_membership_card(s);
    lemma_item_stone_of_agony(s);
    lemma_item_bottle(s);
    lemma_item_empty_bottle(s);
    lemma_item_deku_stick(s);
    lemma_item_sticks(s);
    lemma_item_deku_nut(s);
    lemma_item_nuts(s);
}

} // verus!
