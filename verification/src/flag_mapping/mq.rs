//! Master Quest integration: the dungeons that have a Master Quest variant.

use vstd::prelude::*;

use super::checking::spec_select;
use super::{FlagMapping, OotMappings};
use crate::location_table::{spec_lookup, LocationMapping};
use crate::text::{spec_contains_str, spec_starts_with, str_contains, str_starts_with};

verus! {

/// The eight main dungeons (those with a boss and a dungeon reward).
#[derive(Debug, Clone, Copy, PartialEq, Eq, Hash, Structural)]
pub enum MainDungeon {
    DekuTree,
    DodongosCavern,
    JabuJabu,
    ForestTemple,
    FireTemple,
    WaterTemple,
    ShadowTemple,
    SpiritTemple,
}

/// A dungeon, as the tracker's knowledge of Master Quest dungeons names it.
#[derive(Debug, Clone, Copy, PartialEq, Eq, Hash, Structural)]
pub enum Dungeon {
    Main(MainDungeon),
    IceCavern,
    BottomOfTheWell,
    GerudoTrainingGround,
    GanonsCastle,
}

/// A dungeon, as the randomizer settings name it for Master Quest selection.
#[derive(Debug, Clone, Copy, PartialEq, Eq, Hash, Structural)]
pub enum MqDungeon {
    DekuTree,
    DodongosCavern,
    JabuJabu,
    ForestTemple,
    FireTemple,
    WaterTemple,
    ShadowTemple,
    SpiritTemple,
    IceCavern,
    BottomOfTheWell,
    GerudoTrainingGround,
    GanonsCastle,
}

/// The settings name of a dungeon: each dungeon to the one of the same name.
pub open spec fn spec_dungeon_to_mq(d: Dungeon) -> MqDungeon {
    match d {
        Dungeon::Main(MainDungeon::DekuTree) => MqDungeon::DekuTree,
        Dungeon::Main(MainDungeon::DodongosCavern) => MqDungeon::DodongosCavern,
        Dungeon::Main(MainDungeon::JabuJabu) => MqDungeon::JabuJabu,
        Dungeon::Main(MainDungeon::ForestTemple) => MqDungeon::ForestTemple,
        Dungeon::Main(MainDungeon::FireTemple) => MqDungeon::FireTemple,
        Dungeon::Main(MainDungeon::WaterTemple) => MqDungeon::WaterTemple,
        Dungeon::Main(MainDungeon::ShadowTemple) => MqDungeon::ShadowTemple,
        Dungeon::Main(MainDungeon::SpiritTemple) => MqDungeon::SpiritTemple,
        Dungeon::IceCavern => MqDungeon::IceCavern,
        Dungeon::BottomOfTheWell => MqDungeon::BottomOfTheWell,
        Dungeon::GerudoTrainingGround => MqDungeon::GerudoTrainingGround,
        Dungeon::GanonsCastle => MqDungeon::GanonsCastle,
    }
}

/// Converts a dungeon of the tracker's knowledge to the dungeon of the same
/// name in the randomizer settings.
pub fn dungeon_to_mq_dungeon(dungeon: &Dungeon) -> (r: MqDungeon)
    ensures
        r == spec_dungeon_to_mq(*dungeon),
{
    match dungeon {
        Dungeon::Main(MainDungeon::DekuTree) => MqDungeon::DekuTree,
        Dungeon::Main(MainDungeon::DodongosCavern) => MqDungeon::DodongosCavern,
        Dungeon::Main(MainDungeon::JabuJabu) => MqDungeon::JabuJabu,
        Dungeon::Main(MainDungeon::ForestTemple) => MqDungeon::ForestTemple,
        Dungeon::Main(MainDungeon::FireTemple) => MqDungeon::FireTemple,
        Dungeon::Main(MainDungeon::WaterTemple) => MqDungeon::WaterTemple,
        Dungeon::Main(MainDungeon::ShadowTemple) => MqDungeon::ShadowTemple,
        Dungeon::Main(MainDungeon::SpiritTemple) => MqDungeon::SpiritTemple,
        Dungeon::IceCavern => MqDungeon::IceCavern,
        Dungeon::BottomOfTheWell => MqDungeon::BottomOfTheWell,
        Dungeon::GerudoTrainingGround => MqDungeon::GerudoTrainingGround,
        Dungeon::GanonsCastle => MqDungeon::GanonsCastle,
    }
}

/// Law: the conversion is a bijection: distinct dungeons have distinct
/// settings names, and every settings name belongs to some dungeon.
pub proof fn lemma_dungeon_to_mq_bijective(a: Dungeon, b: Dungeon, m: MqDungeon)
    ensures
        spec_dungeon_to_mq(a) == spec_dungeon_to_mq(b) ==> a == b,
        exists|d: Dungeon| spec_dungeon_to_mq(d) == m,
{
    let d = match m {
        MqDungeon::DekuTree => Dungeon::Main(MainDungeon::DekuTree),
        MqDungeon::DodongosCavern => Dungeon::Main(MainDungeon::DodongosCavern),
        MqDungeon::JabuJabu => Dungeon::Main(MainDungeon::JabuJabu),
        MqDungeon::ForestTemple => Dungeon::Main(MainDungeon::ForestTemple),
        MqDungeon::FireTemple => Dungeon::Main(MainDungeon::FireTemple),
        MqDungeon::WaterTemple => Dungeon::Main(MainDungeon::WaterTemple),
        MqDungeon::ShadowTemple => Dungeon::Main(MainDungeon::ShadowTemple),
        MqDungeon::SpiritTemple => Dungeon::Main(MainDungeon::SpiritTemple),
        MqDungeon::IceCavern => Dungeon::IceCavern,
        MqDungeon::BottomOfTheWell => Dungeon::BottomOfTheWell,
        MqDungeon::GerudoTrainingGround => Dungeon::GerudoTrainingGround,
        MqDungeon::GanonsCastle => Dungeon::GanonsCastle,
    };
    assert(spec_dungeon_to_mq(d) == m);
}

// ============================================================================
// Mappings active for the Master Quest settings
// ============================================================================
//
// Whether a location is active for the current settings (its dungeon is
// played in the variant, vanilla or Master Quest, that the location belongs
// to) is decided by the randomizer settings; the functions below take that
// decision as an activity flag per table entry, in table order.

/// Returns the mappings that are active for the current settings, in table
/// order.
pub fn get_active_mappings(table: &OotMappings, active: &Vec<bool>) -> (r: Vec<FlagMapping>)
    requires
        active@.len() == table@.len(),
    ensures
        r@ == spec_select(table@, active@),
{
    let all = table.all_entries();
    select(&all, active)
}

/// The entries of `ms` whose flag in `active` is set, in order.
fn select(ms: &Vec<FlagMapping>, active: &Vec<bool>) -> (r: Vec<FlagMapping>)
    requires
        active@.len() == ms@.len(),
    ensures
        r@ == spec_select(ms@, active@),
{
    let n = ms.len();
    let mut r: Vec<FlagMapping> = Vec::new();
    let mut i: usize = 0;
    while i < n
        invariant
            n == ms@.len(),
            n == active@.len(),
            i <= n,
            r@ == spec_select(ms@.take(i as int), active@.take(i as int)),
        decreases n - i,
    {
        assert(ms@.take(i + 1).drop_last() =~= ms@.take(i as int));
        assert(active@.take(i + 1).drop_last() =~= active@.take(i as int));
        if active[i] {
            r.push(ms[i]);
        }
        i = i + 1;
    }
    assert(ms@.take(n as int) =~= ms@);
    assert(active@.take(n as int) =~= active@);
    r
}

/// Returns the flag mapping for a location if the location exists and is
/// active for the current settings (`active`), `None` otherwise.
pub fn get_active_mapping<'t>(table: &'t OotMappings, location_id: &str, active: bool) -> (r: Option<
    &'t FlagMapping,
>)
    ensures
        match r {
            Some(m) => active && spec_lookup(table@, location_id@) == Some(*m),
            None => !active || spec_lookup(table@, location_id@) is None,
        },
{
    let mapping = table.get(location_id);
    match mapping {
        Some(m) => if active {
            Some(m)
        } else {
            None
        },
        None => None,
    }
}

/// Returns the count of locations active for the current settings.
pub fn active_location_count(table: &OotMappings, active: &Vec<bool>) -> (r: usize)
    requires
        active@.len() == table@.len(),
    ensures
        r == spec_select(table@, active@).len(),
{
    get_active_mappings(table, active).len()
}

/// The activity flags of the mapped entries only: an entry counts as active
/// and mapped when both hold.
pub open spec fn spec_active_and_mapped(ms: Seq<FlagMapping>, active: Seq<bool>) -> Seq<bool> {
    Seq::new(active.len(), |i: int| active[i] && ms[i].spec_complete())
}

/// Returns the mapped (non-stub) locations active for the current settings,
/// in table order.
pub fn get_active_mapped_locations(table: &OotMappings, active: &Vec<bool>) -> (r: Vec<FlagMapping>)
    requires
        active@.len() == table@.len(),
    ensures
        r@ == spec_select(table@, spec_active_and_mapped(table@, active@)),
{
    let all = table.all_entries();
    let n = all.len();
    let mut flags: Vec<bool> = Vec::new();
    let mut i: usize = 0;
    while i < n
        invariant
            n == all@.len(),
            n == active@.len(),
            i <= n,
            flags@ == spec_active_and_mapped(all@, active@).take(i as int),
        decreases n - i,
    {
        let keep = active[i] && all[i].is_mapped();
        flags.push(keep);
        assert(flags@ =~= spec_active_and_mapped(all@, active@).take(i + 1));
        i = i + 1;
    }
    assert(flags@ =~= spec_active_and_mapped(all@, active@));
    select(&all, &flags)
}

/// Returns the count of mapped (non-stub) locations active for the current
/// settings.
pub fn active_mapped_count(table: &OotMappings, active: &Vec<bool>) -> (r: usize)
    requires
        active@.len() == table@.len(),
    ensures
        r == spec_select(table@, spec_active_and_mapped(table@, active@)).len(),
{
    get_active_mapped_locations(table, active).len()
}

/// Returns the mappings of a dungeon's variant: those whose location ID
/// starts with the variant's location prefix (such as `"mq_oot_mq_deku_tree"`).
pub fn get_dungeon_mappings(table: &OotMappings, prefix: &str) -> (r: Vec<FlagMapping>)
    ensures
        r@ == table@.filter(|m: FlagMapping| spec_starts_with(m.location_id@, prefix@)),
{
    let all = table.all_entries();
    let mut r: Vec<FlagMapping> = Vec::new();
    let n = all.len();
    let mut i: usize = 0;
    while i < n
        invariant
            n == all@.len(),
            i <= n,
            r@ == all@.take(i as int).filter(|m: FlagMapping| spec_starts_with(m.location_id@, prefix@)),
        decreases n - i,
    {
        proof {
            reveal_with_fuel(Seq::filter, 1);
            assert(all@.take(i + 1).drop_last() =~= all@.take(i as int));
        }
        if str_starts_with(all[i].location_id, prefix) {
            r.push(all[i]);
        }
        i = i + 1;
    }
    assert(all@.take(n as int) =~= all@);
    r
}

// ============================================================================
// Whether a location is active for the settings
// ============================================================================

/// Whether location `id` is active for the settings. A Master Quest location
/// (`mq_oot_…`) is active when its dungeon is played in Master Quest: its
/// dungeon as the randomizer names it from the ID (`location_dungeon`), or
/// Ganon's Castle for an ID naming `_ganon_` that the randomizer does not
/// place; an MQ location of no known dungeon is inactive. Any other location
/// is active as the settings say (`location_active`). `mq_dungeons` are the
/// dungeons the settings play in Master Quest.
pub open spec fn spec_location_active(
    id: Seq<char>,
    location_dungeon: Option<MqDungeon>,
    mq_dungeons: Seq<MqDungeon>,
    location_active: bool,
) -> bool {
    if spec_starts_with(id, "mq_oot_"@) {
        match location_dungeon {
            Some(d) => mq_dungeons.contains(d),
            None => spec_contains_str(id, "_ganon_"@) && mq_dungeons.contains(MqDungeon::GanonsCastle),
        }
    } else {
        location_active
    }
}

fn contains_mq_dungeon(v: &Vec<MqDungeon>, d: MqDungeon) -> (r: bool)
    ensures
        r == v@.contains(d),
{
    let mut j: usize = 0;
    while j < v.len()
        invariant
            j <= v@.len(),
            forall|x: int| 0 <= x < j ==> v@[x] != d,
        decreases v@.len() - j,
    {
        if v[j] == d {
            assert(v@[j as int] == d);
            return true;
        }
        j = j + 1;
    }
    false
}

/// Whether a location is active for the settings (see
/// `spec_location_active`); the randomizer's own answers come in as
/// arguments.
pub fn is_location_active_for_settings(
    location_id: &str,
    location_dungeon: Option<MqDungeon>,
    mq_dungeons: &Vec<MqDungeon>,
    location_active: bool,
) -> (r: bool)
    ensures
        r == spec_location_active(location_id@, location_dungeon, mq_dungeons@, location_active),
{
    if str_starts_with(location_id, "mq_oot_") {
        match location_dungeon {
            Some(d) => contains_mq_dungeon(mq_dungeons, d),
            None => {
                if str_contains(location_id, "_ganon_") {
                    contains_mq_dungeon(mq_dungeons, MqDungeon::GanonsCastle)
                } else {
                    false
                }
            },
        }
    } else {
        location_active
    }
}

/// The activity flag of every table entry, in table order, for the settings:
/// `location_dungeons[i]` is the dungeon the randomizer names from entry
/// `i`'s location ID, and `location_active[i]` what the settings say of a
/// location outside Master Quest dungeons.
pub fn location_activity(
    table: &OotMappings,
    location_dungeons: &Vec<Option<MqDungeon>>,
    mq_dungeons: &Vec<MqDungeon>,
    location_active: &Vec<bool>,
) -> (r: Vec<bool>)
    requires
        location_dungeons@.len() == table@.len(),
        location_active@.len() == table@.len(),
    ensures
        r@ == spec_location_activity(table@, location_dungeons@, mq_dungeons@, location_active@),
{
    let all = table.all_entries();
    let n = all.len();
    let mut r: Vec<bool> = Vec::new();
    let mut i: usize = 0;
    while i < n
        invariant
            n == all@.len(),
            all@ == table@,
            location_dungeons@.len() == n,
            location_active@.len() == n,
            i <= n,
            r@.len() == i,
            forall|j: int|
                0 <= j < i ==> #[trigger] r@[j] == spec_location_active(
                    all@[j].location_id@,
                    location_dungeons@[j],
                    mq_dungeons@,
                    location_active@[j],
                ),
        decreases n - i,
    {
        let a = is_location_active_for_settings(all[i].location_id, location_dungeons[i], mq_dungeons, location_active[i]);
        r.push(a);
        i = i + 1;
    }
    assert(r@ =~= spec_location_activity(table@, location_dungeons@, mq_dungeons@, location_active@));
    r
}

/// The activity flag of every entry of `ms`, in order (see
/// `spec_location_active`).
pub open spec fn spec_location_activity(
    ms: Seq<FlagMapping>,
    location_dungeons: Seq<Option<MqDungeon>>,
    mq_dungeons: Seq<MqDungeon>,
    location_active: Seq<bool>,
) -> Seq<bool> {
    Seq::new(
        ms.len(),
        |i: int| spec_location_active(ms[i].location_id@, location_dungeons[i], mq_dungeons, location_active[i]),
    )
}

// ============================================================================
// Master Quest settings from the tracker's knowledge
// ============================================================================

/// Whether the tracker knows a dungeon to be vanilla or Master Quest.
#[derive(Debug, Clone, Copy, PartialEq, Eq, Hash, Structural)]
pub enum Mq {
    Vanilla,
    Mq,
}

/// All dungeons with a Master Quest variant, as the settings name them.
pub open spec fn spec_all_mq_dungeons() -> Seq<MqDungeon> {
    seq![
        MqDungeon::DekuTree,
        MqDungeon::DodongosCavern,
        MqDungeon::JabuJabu,
        MqDungeon::ForestTemple,
        MqDungeon::FireTemple,
        MqDungeon::WaterTemple,
        MqDungeon::ShadowTemple,
        MqDungeon::SpiritTemple,
        MqDungeon::IceCavern,
        MqDungeon::BottomOfTheWell,
        MqDungeon::GerudoTrainingGround,
        MqDungeon::GanonsCastle,
    ]
}

/// Whether the settings built from the knowledge `known` play dungeon `d` in
/// Master Quest: as the last knowledge entry for `d` says, and as the
/// initial settings (`initial`) say when the knowledge has none.
pub open spec fn spec_dungeon_is_mq(initial: Seq<MqDungeon>, known: Seq<(Dungeon, Mq)>, d: MqDungeon) -> bool
    decreases known.len(),
{
    if known.len() == 0 {
        initial.contains(d)
    } else if spec_dungeon_to_mq(known.last().0) == d {
        known.last().1 == Mq::Mq
    } else {
        spec_dungeon_is_mq(initial, known.drop_last(), d)
    }
}

/// The dungeons that the settings built from the knowledge play in Master
/// Quest, in the order of `spec_all_mq_dungeons`.
pub open spec fn spec_mq_from_knowledge(initial: Seq<MqDungeon>, known: Seq<(Dungeon, Mq)>) -> Seq<MqDungeon> {
    spec_all_mq_dungeons().filter(|d: MqDungeon| spec_dungeon_is_mq(initial, known, d))
}

/// Every dungeon is listed in `spec_all_mq_dungeons`.
proof fn lemma_all_mq_dungeons_listed(d: MqDungeon)
    ensures
        spec_all_mq_dungeons().contains(d),
{
    let all = spec_all_mq_dungeons();
    match d {
        MqDungeon::DekuTree => assert(all[0] == d),
        MqDungeon::DodongosCavern => assert(all[1] == d),
        MqDungeon::JabuJabu => assert(all[2] == d),
        MqDungeon::ForestTemple => assert(all[3] == d),
        MqDungeon::FireTemple => assert(all[4] == d),
        MqDungeon::WaterTemple => assert(all[5] == d),
        MqDungeon::ShadowTemple => assert(all[6] == d),
        MqDungeon::SpiritTemple => assert(all[7] == d),
        MqDungeon::IceCavern => assert(all[8] == d),
        MqDungeon::BottomOfTheWell => assert(all[9] == d),
        MqDungeon::GerudoTrainingGround => assert(all[10] == d),
        MqDungeon::GanonsCastle => assert(all[11] == d),
    }
}

/// Law: a dungeon is in the Master Quest list built from the knowledge
/// exactly when the knowledge (or, without an entry, the initial settings)
/// makes it Master Quest.
pub proof fn lemma_mq_from_knowledge(initial: Seq<MqDungeon>, known: Seq<(Dungeon, Mq)>, d: MqDungeon)
    ensures
        spec_mq_from_knowledge(initial, known).contains(d) == spec_dungeon_is_mq(initial, known, d),
{
    let pred = |x: MqDungeon| spec_dungeon_is_mq(initial, known, x);
    lemma_all_mq_dungeons_listed(d);
    if spec_dungeon_is_mq(initial, known, d) {
        let i = choose|i: int| 0 <= i < spec_all_mq_dungeons().len() && spec_all_mq_dungeons()[i] == d;
        spec_all_mq_dungeons().lemma_filter_contains(pred, i);
    }
    if spec_mq_from_knowledge(initial, known).contains(d) {
        spec_all_mq_dungeons().lemma_filter_contains_rev(pred, d);
        let i = choose|i: int| 0 <= i < spec_mq_from_knowledge(initial, known).len()
            && spec_mq_from_knowledge(initial, known)[i] == d;
        spec_all_mq_dungeons().lemma_filter_pred(pred, i);
    }
}

/// Whether the settings built from the knowledge play dungeon `d` in Master
/// Quest.
fn dungeon_is_mq(initial: &Vec<MqDungeon>, known: &Vec<(Dungeon, Mq)>, d: MqDungeon) -> (r: bool)
    ensures
        r == spec_dungeon_is_mq(initial@, known@, d),
{
    let mut i: usize = known.len();
    assert(known@.take(i as int) =~= known@);
    while i > 0
        invariant
            i <= known@.len(),
            spec_dungeon_is_mq(initial@, known@, d) == spec_dungeon_is_mq(initial@, known@.take(i as int), d),
        decreases i,
    {
        let (dungeon, mq) = known[i - 1];
        assert(known@.take(i as int).drop_last() =~= known@.take(i - 1));
        if dungeon_to_mq_dungeon(&dungeon) == d {
            return match mq {
                Mq::Mq => true,
                Mq::Vanilla => false,
            };
        }
        i = i - 1;
    }
    assert(known@.take(0).len() == 0);
    contains_mq_dungeon(initial, d)
}

fn all_mq_dungeons() -> (v: Vec<MqDungeon>)
    ensures
        v@ == spec_all_mq_dungeons(),
{
    let v = vec![
        MqDungeon::DekuTree,
        MqDungeon::DodongosCavern,
        MqDungeon::JabuJabu,
        MqDungeon::ForestTemple,
        MqDungeon::FireTemple,
        MqDungeon::WaterTemple,
        MqDungeon::ShadowTemple,
        MqDungeon::SpiritTemple,
        MqDungeon::IceCavern,
        MqDungeon::BottomOfTheWell,
        MqDungeon::GerudoTrainingGround,
        MqDungeon::GanonsCastle,
    ];
    assert(v@ =~= spec_all_mq_dungeons());
    v
}

/// The dungeons that the settings built from the tracker's knowledge play in
/// Master Quest: starting from the initial settings (`initial`), each
/// dungeon the knowledge names is set to Master Quest or vanilla as the
/// knowledge says (the last entry for a dungeon counting).
pub fn mq_settings_from_knowledge(initial: &Vec<MqDungeon>, known: &Vec<(Dungeon, Mq)>) -> (r: Vec<MqDungeon>)
    ensures
        r@ == spec_mq_from_knowledge(initial@, known@),
{
    let all = all_mq_dungeons();
    let mut r: Vec<MqDungeon> = Vec::new();
    let mut j: usize = 0;
    while j < all.len()
        invariant
            all@ == spec_all_mq_dungeons(),
            j <= all@.len(),
            r@ == all@.take(j as int).filter(|d: MqDungeon| spec_dungeon_is_mq(initial@, known@, d)),
        decreases all@.len() - j,
    {
        proof {
            reveal_with_fuel(Seq::filter, 1);
            assert(all@.take(j + 1).drop_last() =~= all@.take(j as int));
        }
        if dungeon_is_mq(initial, known, all[j]) {
            r.push(all[j]);
        }
        j = j + 1;
    }
    assert(all@.take(all@.len() as int) =~= all@);
    r
}

/// Law: the Master Quest list built from the knowledge follows it: without
/// knowledge it is the initial list; a new knowledge entry for a dungeon
/// puts it in the list exactly when the entry says Master Quest, and leaves
/// every other dungeon as it was.
pub proof fn lemma_mq_list_follows_knowledge(
    initial: Seq<MqDungeon>,
    known: Seq<(Dungeon, Mq)>,
    g: Dungeon,
    mq: Mq,
    d: MqDungeon,
)
    ensures
        spec_mq_from_knowledge(initial, Seq::empty()).contains(d) == initial.contains(d),
        spec_mq_from_knowledge(initial, known.push((g, mq))).contains(spec_dungeon_to_mq(g)) == (mq == Mq::Mq),
        d != spec_dungeon_to_mq(g) ==> spec_mq_from_knowledge(initial, known.push((g, mq))).contains(d)
            == spec_mq_from_knowledge(initial, known).contains(d),
{
    lemma_mq_from_knowledge(initial, Seq::empty(), d);
    lemma_mq_from_knowledge(initial, known.push((g, mq)), spec_dungeon_to_mq(g));
    lemma_mq_from_knowledge(initial, known.push((g, mq)), d);
    lemma_mq_from_knowledge(initial, known, d);
    assert(known.push((g, mq)).drop_last() =~= known);
}

/// Law: a Master Quest location (ID starting with `mq_oot_`) of a known
/// dungeon is active exactly when the settings play that dungeon in Master
/// Quest, so with knowledge that a dungeon is vanilla none of its Master
/// Quest locations is active; a location whose ID does not start with
/// `mq_oot_` is active exactly as the settings say.
pub proof fn lemma_mq_location_activity(
    id: Seq<char>,
    d: MqDungeon,
    mq_dungeons: Seq<MqDungeon>,
    location_active: bool,
    initial: Seq<MqDungeon>,
    known: Seq<(Dungeon, Mq)>,
    g: Dungeon,
)
    ensures
        spec_starts_with(id, "mq_oot_"@) ==> spec_location_active(id, Some(d), mq_dungeons, location_active)
            == mq_dungeons.contains(d),
        !spec_starts_with(id, "mq_oot_"@) ==> spec_location_active(id, Some(d), mq_dungeons, location_active)
            == location_active,
        spec_starts_with(id, "mq_oot_"@) ==> !spec_location_active(
            id,
            Some(spec_dungeon_to_mq(g)),
            spec_mq_from_knowledge(initial, known.push((g, Mq::Vanilla))),
            location_active,
        ),
        spec_starts_with(id, "mq_oot_"@) ==> spec_location_active(
            id,
            Some(spec_dungeon_to_mq(g)),
            spec_mq_from_knowledge(initial, known.push((g, Mq::Mq))),
            location_active,
        ),
{
    lemma_mq_list_follows_knowledge(initial, known, g, Mq::Vanilla, d);
    lemma_mq_list_follows_knowledge(initial, known, g, Mq::Mq, d);
}

/// Law: each dungeon of the tracker's knowledge is the settings' dungeon of
/// the same name, and no two dungeons share one.
pub proof fn lemma_dungeon_names(a: Dungeon, b: Dungeon)
    ensures
        a != b ==> spec_dungeon_to_mq(a) != spec_dungeon_to_mq(b),
        a == Dungeon::Main(MainDungeon::DekuTree) <==> spec_dungeon_to_mq(a) == MqDungeon::DekuTree,
        a == Dungeon::Main(MainDungeon::DodongosCavern) <==> spec_dungeon_to_mq(a) == MqDungeon::DodongosCavern,
        a == Dungeon::Main(MainDungeon::JabuJabu) <==> spec_dungeon_to_mq(a) == MqDungeon::JabuJabu,
        a == Dungeon::Main(MainDungeon::ForestTemple) <==> spec_dungeon_to_mq(a) == MqDungeon::ForestTemple,
        a == Dungeon::Main(MainDungeon::FireTemple) <==> spec_dungeon_to_mq(a) == MqDungeon::FireTemple,
        a == Dungeon::Main(MainDungeon::WaterTemple) <==> spec_dungeon_to_mq(a) == MqDungeon::WaterTemple,
        a == Dungeon::Main(MainDungeon::ShadowTemple) <==> spec_dungeon_to_mq(a) == MqDungeon::ShadowTemple,
        a == Dungeon::Main(MainDungeon::SpiritTemple) <==> spec_dungeon_to_mq(a) == MqDungeon::SpiritTemple,
        a == Dungeon::IceCavern <==> spec_dungeon_to_mq(a) == MqDungeon::IceCavern,
        a == Dungeon::BottomOfTheWell <==> spec_dungeon_to_mq(a) == MqDungeon::BottomOfTheWell,
        a == Dungeon::GerudoTrainingGround <==> spec_dungeon_to_mq(a) == MqDungeon::GerudoTrainingGround,
        a == Dungeon::GanonsCastle <==> spec_dungeon_to_mq(a) == MqDungeon::GanonsCastle,
{
}

} // verus!
