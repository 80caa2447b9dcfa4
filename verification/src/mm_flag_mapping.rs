//! MM flag data structures and location mappings.
//!
//! Maps location IDs to the flags in the Majora's Mask save data that record
//! whether the location has been checked. MM save data holds per-scene flags
//! (chests, two switch banks, cleared rooms, collectibles, cleared floors,
//! visited rooms) and global flags (spider house tokens, events, week events,
//! item get flags).

use vstd::prelude::*;

use crate::flag_mapping::checking::{
    spec_location_logic, spec_opt_view, Accessibility, CheckStatus, LocationCheckResult,
    WorldLocation, get_location_logic,
};
use crate::location_table::{
    spec_built, spec_count, stub_or_complete, LocationMapping, LocationTable,
};

pub mod mm_scene;
pub mod owl_bits;

verus! {

/// Types of flags used to track location checks in MM save data.
#[derive(Debug, Clone, Copy, PartialEq, Eq, Hash, Structural)]
pub enum MmFlagType {
    /// Chest opened flags (scene flags offset 0x00).
    Chest,
    /// Switch/trigger flags bank 0 (scene flags offset 0x04).
    Switch0,
    /// Switch/trigger flags bank 1 (scene flags offset 0x08).
    Switch1,
    /// Room clear flags (scene flags offset 0x0C).
    ClearedRoom,
    /// Collectible item flags (scene flags offset 0x10).
    Collectible,
    /// Gold Skulltula flags for the spider houses.
    GoldSkulltula,
    /// Event flags for global game events.
    EventInf,
    /// Week event flags that persist across cycles.
    WeekEventReg,
    /// Item get flags.
    ItemGetInf,
    /// Shop item flags.
    Shop,
    /// Scrub/merchant purchase flags.
    Scrub,
    /// Great Fairy reward flags.
    GreatFairy,
    /// Boss defeated flags.
    Boss,
    /// Song learned flags.
    Song,
    /// Cow/milk flags.
    Cow,
    /// Stray fairy flags.
    StrayFairy,
    /// Owl statue flags.
    OwlStatue,
    /// Moon's Tear related flags.
    MoonsTear,
    /// Gossip stone hint flags.
    GossipStone,
}

/// The byte offset within scene flags of a scene-based MM flag type.
pub open spec fn spec_mm_scene_offset(t: MmFlagType) -> Option<usize> {
    match t {
        MmFlagType::Chest => Some(0x00),
        MmFlagType::Switch0 => Some(0x04),
        MmFlagType::Switch1 => Some(0x08),
        MmFlagType::ClearedRoom => Some(0x0C),
        MmFlagType::Collectible => Some(0x10),
        _ => None,
    }
}

impl MmFlagType {
    /// Returns the byte offset within scene flags for scene-based flag types,
    /// `None` for global flag types that aren't stored per-scene.
    pub fn scene_offset(&self) -> (r: Option<usize>)
        ensures
            r == spec_mm_scene_offset(*self),
    {
        match self {
            MmFlagType::Chest => Some(0x00),
            MmFlagType::Switch0 => Some(0x04),
            MmFlagType::Switch1 => Some(0x08),
            MmFlagType::ClearedRoom => Some(0x0C),
            MmFlagType::Collectible => Some(0x10),
            MmFlagType::GoldSkulltula | MmFlagType::EventInf | MmFlagType::WeekEventReg
            | MmFlagType::ItemGetInf | MmFlagType::Shop | MmFlagType::Scrub
            | MmFlagType::GreatFairy | MmFlagType::Boss | MmFlagType::Song | MmFlagType::Cow
            | MmFlagType::StrayFairy | MmFlagType::OwlStatue | MmFlagType::MoonsTear
            | MmFlagType::GossipStone => None,
        }
    }

    /// Returns whether this flag type is stored per-scene.
    pub fn is_scene_based(&self) -> (r: bool)
        ensures
            r == spec_mm_scene_offset(*self).is_some(),
    {
        self.scene_offset().is_some()
    }
}

/// Mapping from a location ID to its flag address in MM memory.
///
/// Either a complete mapping (flag type and bit, with a scene ID for
/// scene-based flags) or a stub mapping (all optional fields `None`).
#[derive(Debug, Clone, Copy, PartialEq, Eq)]
pub struct MmFlagMapping {
    /// The unique location identifier from OoTMM world data.
    pub location_id: &'static str,
    /// The scene ID where this flag is stored (None for unmapped stubs or global flags).
    pub scene_id: Option<u8>,
    /// The type of flag used for this location (None for unmapped stubs).
    pub flag_type: Option<MmFlagType>,
    /// The bit mask within the flag word (None for unmapped stubs).
    pub flag_bit: Option<u32>,
}

/// An unmapped MM stub.
pub open spec fn spec_mm_stub(location_id: &'static str) -> MmFlagMapping {
    MmFlagMapping { location_id, scene_id: None, flag_type: None, flag_bit: None }
}

/// A fully mapped, scene-based MM location.
pub open spec fn spec_mm_mapped(location_id: &'static str, scene_id: u8, flag_type: MmFlagType, flag_bit: u32) -> MmFlagMapping {
    MmFlagMapping {
        location_id,
        scene_id: Some(scene_id),
        flag_type: Some(flag_type),
        flag_bit: Some(flag_bit),
    }
}

/// A global MM flag mapping (no scene).
pub open spec fn spec_mm_global(location_id: &'static str, flag_type: MmFlagType, flag_bit: u32) -> MmFlagMapping {
    MmFlagMapping { location_id, scene_id: None, flag_type: Some(flag_type), flag_bit: Some(flag_bit) }
}

impl MmFlagMapping {
    /// Creates a new unmapped stub mapping for a location.
    pub fn stub(location_id: &'static str) -> (r: Self)
        ensures
            r == spec_mm_stub(location_id),
    {
        MmFlagMapping { location_id, scene_id: None, flag_type: None, flag_bit: None }
    }

    /// Creates a new fully mapped location.
    pub fn mapped(location_id: &'static str, scene_id: u8, flag_type: MmFlagType, flag_bit: u32) -> (r:
        Self)
        ensures
            r == spec_mm_mapped(location_id, scene_id, flag_type, flag_bit),
    {
        MmFlagMapping {
            location_id,
            scene_id: Some(scene_id),
            flag_type: Some(flag_type),
            flag_bit: Some(flag_bit),
        }
    }

    /// Creates a new global flag mapping (no scene_id).
    pub fn global(location_id: &'static str, flag_type: MmFlagType, flag_bit: u32) -> (r: Self)
        ensures
            r == spec_mm_global(location_id, flag_type, flag_bit),
    {
        MmFlagMapping { location_id, scene_id: None, flag_type: Some(flag_type), flag_bit: Some(flag_bit) }
    }

    /// Returns whether this is an unmapped stub.
    pub fn is_stub(&self) -> (r: bool)
        ensures
            r == self.flag_type.is_none(),
    {
        self.flag_type.is_none()
    }

    /// Returns whether this mapping is complete (has flag type and bit).
    pub fn is_mapped(&self) -> (r: bool)
        ensures
            r == (self.flag_type.is_some() && self.flag_bit.is_some()),
    {
        self.flag_type.is_some() && self.flag_bit.is_some()
    }
}

impl LocationMapping for MmFlagMapping {
    open spec fn spec_id(&self) -> Seq<char> {
        self.location_id@
    }

    open spec fn spec_stub(&self) -> bool {
        self.flag_type.is_none()
    }

    open spec fn spec_complete(&self) -> bool {
        self.flag_type.is_some() && self.flag_bit.is_some()
    }

    open spec fn spec_stub_of(location_id: &'static str) -> Self {
        spec_mm_stub(location_id)
    }

    proof fn lemma_stub_of(location_id: &'static str) {
    }

    fn location_key(&self) -> (r: &'static str) {
        self.location_id
    }

    fn stub_of(location_id: &'static str) -> (r: Self) {
        MmFlagMapping::stub(location_id)
    }

    fn stub_check(&self) -> (r: bool) {
        self.is_stub()
    }

    fn complete_check(&self) -> (r: bool) {
        self.is_mapped()
    }
}

// ============================================================================
// The MM mapping table and its queries
// ============================================================================

/// The table of MM location mappings.
pub type MmMappings = LocationTable<MmFlagMapping>;

/// The researched MM mappings: the ten owl statues, global flags in the quest
/// status word.
pub open spec fn spec_known_mm_mappings() -> Seq<MmFlagMapping> {
    seq![
        spec_mm_global("mm_clock_town_owl_statue", MmFlagType::OwlStatue, 1u32 << owl_bits::OWL_CLOCK_TOWN),
        spec_mm_global("mm_milk_road_owl_statue", MmFlagType::OwlStatue, 1u32 << owl_bits::OWL_MILK_ROAD),
        spec_mm_global("mm_southern_swamp_owl_statue", MmFlagType::OwlStatue, 1u32 << owl_bits::OWL_SOUTHERN_SWAMP),
        spec_mm_global("mm_woodfall_owl_statue", MmFlagType::OwlStatue, 1u32 << owl_bits::OWL_WOODFALL),
        spec_mm_global("mm_mountain_village_owl_statue", MmFlagType::OwlStatue, 1u32 << owl_bits::OWL_MOUNTAIN_VILLAGE),
        spec_mm_global("mm_snowhead_owl_statue", MmFlagType::OwlStatue, 1u32 << owl_bits::OWL_SNOWHEAD),
        spec_mm_global("mm_zora_cape_owl_statue", MmFlagType::OwlStatue, 1u32 << owl_bits::OWL_ZORA_CAPE),
        spec_mm_global("mm_great_bay_coast_owl_statue", MmFlagType::OwlStatue, 1u32 << owl_bits::OWL_GREAT_BAY),
        spec_mm_global("mm_ikana_canyon_owl_statue", MmFlagType::OwlStatue, 1u32 << owl_bits::OWL_IKANA_CANYON),
        spec_mm_global("mm_stone_tower_owl_statue", MmFlagType::OwlStatue, 1u32 << owl_bits::OWL_STONE_TOWER),
    ]
}

/// The researched MM mappings, in the order they are added to the table.
fn known_mm_mappings() -> (v: Vec<MmFlagMapping>)
    ensures
        v@ == spec_known_mm_mappings(),
{
    let v = vec![
        MmFlagMapping::global("mm_clock_town_owl_statue", MmFlagType::OwlStatue, 1u32 << owl_bits::OWL_CLOCK_TOWN),
        MmFlagMapping::global("mm_milk_road_owl_statue", MmFlagType::OwlStatue, 1u32 << owl_bits::OWL_MILK_ROAD),
        MmFlagMapping::global("mm_southern_swamp_owl_statue", MmFlagType::OwlStatue, 1u32 << owl_bits::OWL_SOUTHERN_SWAMP),
        MmFlagMapping::global("mm_woodfall_owl_statue", MmFlagType::OwlStatue, 1u32 << owl_bits::OWL_WOODFALL),
        MmFlagMapping::global("mm_mountain_village_owl_statue", MmFlagType::OwlStatue, 1u32 << owl_bits::OWL_MOUNTAIN_VILLAGE),
        MmFlagMapping::global("mm_snowhead_owl_statue", MmFlagType::OwlStatue, 1u32 << owl_bits::OWL_SNOWHEAD),
        MmFlagMapping::global("mm_zora_cape_owl_statue", MmFlagType::OwlStatue, 1u32 << owl_bits::OWL_ZORA_CAPE),
        MmFlagMapping::global("mm_great_bay_coast_owl_statue", MmFlagType::OwlStatue, 1u32 << owl_bits::OWL_GREAT_BAY),
        MmFlagMapping::global("mm_ikana_canyon_owl_statue", MmFlagType::OwlStatue, 1u32 << owl_bits::OWL_IKANA_CANYON),
        MmFlagMapping::global("mm_stone_tower_owl_statue", MmFlagType::OwlStatue, 1u32 << owl_bits::OWL_STONE_TOWER),
    ];
    assert(v@ =~= spec_known_mm_mappings());
    v
}

/// Builds the MM mapping table from the MM location IDs of the world data:
/// every location starts as a stub, and the researched mappings replace the
/// stubs of their locations (or add their locations).
pub fn mm_mappings(location_ids: Vec<&'static str>) -> (t: MmMappings)
    ensures
        t@ == spec_built(location_ids@, spec_known_mm_mappings()),
        t.spec_location_ids() == location_ids@,
{
    let known = known_mm_mappings();
    proof {
        assert forall|i: int| 0 <= i < known@.len() implies #[trigger] known@[i].spec_stub()
            != known@[i].spec_complete() by {
            assert(known@[i].flag_type.is_some() && known@[i].flag_bit.is_some());
        }
        assert(stub_or_complete(known@));
    }
    LocationTable::build(location_ids, known)
}

/// Returns the flag mapping for a MM location ID, if it exists (even if it is
/// an unmapped stub), or `None` if the location ID is not recognized.
pub fn get_mm_mapping<'t>(table: &'t MmMappings, location_id: &str) -> (r: Option<&'t MmFlagMapping>)
    ensures
        match r {
            Some(m) => crate::location_table::spec_lookup(table@, location_id@) == Some(*m),
            None => crate::location_table::spec_lookup(table@, location_id@) is None,
        },
{
    table.get(location_id)
}

/// Returns all MM location mappings, mapped locations and stubs alike.
pub fn get_all_mm_mappings(table: &MmMappings) -> (r: Vec<MmFlagMapping>)
    ensures
        r@ == table@,
{
    table.all_entries()
}

/// Returns the count of all MM locations: the mapped locations and the
/// stubs together, and no fewer than the world's location IDs when no ID
/// occurs twice among them.
pub fn mm_location_count(table: &MmMappings) -> (r: usize)
    ensures
        r == table@.len(),
        r == spec_count(table@, |m: MmFlagMapping| m.spec_complete()) + spec_count(table@, |m: MmFlagMapping| m.spec_stub()),
        crate::location_table::ids_distinct(table.spec_location_ids()) ==> table.spec_location_ids().len() <= r,
{
    table.len()
}

/// Returns the count of mapped (non-stub) MM locations.
pub fn mm_mapped_count(table: &MmMappings) -> (r: usize)
    ensures
        r == spec_count(table@, |m: MmFlagMapping| m.spec_complete()),
{
    table.mapped_count()
}

/// Returns the count of unmapped MM stub locations; with the mapped count it
/// adds up to the count of all locations.
pub fn mm_stub_count(table: &MmMappings) -> (r: usize)
    ensures
        r == spec_count(table@, |m: MmFlagMapping| m.spec_stub()),
        r + spec_count(table@, |m: MmFlagMapping| m.spec_complete()) == table@.len(),
{
    table.stub_count()
}

/// Returns only the mapped (non-stub) MM locations.
pub fn get_mm_mapped_locations(table: &MmMappings) -> (r: Vec<MmFlagMapping>)
    ensures
        r@ == table@.filter(|m: MmFlagMapping| m.spec_complete()),
{
    table.mapped_entries()
}

/// Returns only the MM stub locations.
pub fn get_mm_stub_locations(table: &MmMappings) -> (r: Vec<MmFlagMapping>)
    ensures
        r@ == table@.filter(|m: MmFlagMapping| m.spec_stub()),
{
    table.stub_entries()
}

/// Returns all MM mappings for a specific scene.
pub fn get_mm_mappings_for_scene(table: &MmMappings, scene_id: u8) -> (r: Vec<MmFlagMapping>)
    ensures
        r@ == table@.filter(|m: MmFlagMapping| m.scene_id == Some(scene_id)),
{
    let all = table.all_entries();
    let mut r: Vec<MmFlagMapping> = Vec::new();
    let n = all.len();
    let mut i: usize = 0;
    while i < n
        invariant
            n == all@.len(),
            i <= n,
            r@ == all@.take(i as int).filter(|m: MmFlagMapping| m.scene_id == Some(scene_id)),
        decreases n - i,
    {
        proof {
            reveal_with_fuel(Seq::filter, 1);
            assert(all@.take(i + 1).drop_last() =~= all@.take(i as int));
        }
        let matches = match all[i].scene_id {
            Some(s) => s == scene_id,
            None => false,
        };
        if matches {
            r.push(all[i]);
        }
        i = i + 1;
    }
    assert(all@.take(n as int) =~= all@);
    r
}

/// Returns all MM mappings for a specific flag type.
pub fn get_mm_mappings_by_flag_type(table: &MmMappings, flag_type: MmFlagType) -> (r: Vec<MmFlagMapping>)
    ensures
        r@ == table@.filter(|m: MmFlagMapping| m.flag_type == Some(flag_type)),
{
    let all = table.all_entries();
    let mut r: Vec<MmFlagMapping> = Vec::new();
    let n = all.len();
    let mut i: usize = 0;
    while i < n
        invariant
            n == all@.len(),
            i <= n,
            r@ == all@.take(i as int).filter(|m: MmFlagMapping| m.flag_type == Some(flag_type)),
        decreases n - i,
    {
        proof {
            reveal_with_fuel(Seq::filter, 1);
            assert(all@.take(i + 1).drop_last() =~= all@.take(i as int));
        }
        let matches = match all[i].flag_type {
            Some(t) => t == flag_type,
            None => false,
        };
        if matches {
            r.push(all[i]);
        }
        i = i + 1;
    }
    assert(all@.take(n as int) =~= all@);
    r
}

/// Returns all MM location IDs from the world data; each of them looks up
/// to the table's entry for that ID.
pub fn get_all_mm_location_ids(table: &MmMappings) -> (r: Vec<&'static str>)
    ensures
        r@ == table.spec_location_ids(),
        forall|i: int|
            0 <= i < r@.len() ==> (crate::location_table::spec_lookup(table@, #[trigger] r@[i]@) matches Some(
                m,
            ) && m.spec_id() == r@[i]@),
{
    table.location_ids()
}

/// The mapped (non-stub) MM locations, in table order.
pub open spec fn spec_mm_mapped_locations(table: MmMappings) -> Seq<MmFlagMapping> {
    table@.filter(|m: MmFlagMapping| m.spec_complete())
}

/// `r` is the check result of MM mapping `m` with check status `status`.
pub open spec fn spec_mm_result_for(
    r: LocationCheckResult,
    m: MmFlagMapping,
    status: CheckStatus,
    world: Seq<WorldLocation>,
) -> bool {
    &&& r.location_id@ == m.location_id@
    &&& r.status == status
    &&& r.is_mapped == m.spec_complete()
    &&& spec_opt_view(r.logic) == spec_location_logic(world, m.location_id@)
    &&& r.accessibility == Accessibility::Unknown
}

/// Builds the check results of the mapped MM locations, in table order, from
/// their check statuses: accessibility is not evaluated for MM locations and
/// is unknown.
pub fn mm_location_results(table: &MmMappings, world: &Vec<WorldLocation>, statuses: &Vec<CheckStatus>) -> (r:
    Vec<LocationCheckResult>)
    requires
        statuses@.len() == spec_mm_mapped_locations(*table).len(),
    ensures
        r@.len() == statuses@.len(),
        forall|i: int|
            0 <= i < r@.len() ==> #[trigger] spec_mm_result_for(
                r@[i],
                spec_mm_mapped_locations(*table)[i],
                statuses@[i],
                world@,
            ),
{
    let mapped = table.mapped_entries();
    let n = mapped.len();
    let mut r: Vec<LocationCheckResult> = Vec::new();
    let mut i: usize = 0;
    while i < n
        invariant
            n == mapped@.len(),
            n == statuses@.len(),
            mapped@ == spec_mm_mapped_locations(*table),
            i <= n,
            r@.len() == i,
            forall|j: int|
                0 <= j < i ==> #[trigger] spec_mm_result_for(r@[j], mapped@[j], statuses@[j], world@),
        decreases n - i,
    {
        let logic = get_location_logic(world, mapped[i].location_id);
        let res = LocationCheckResult {
            location_id: mapped[i].location_id.to_owned(),
            status: statuses[i],
            is_mapped: mapped[i].is_mapped(),
            logic,
            accessibility: Accessibility::Unknown,
        };
        r.push(res);
        i = i + 1;
    }
    r
}

} // verus!
