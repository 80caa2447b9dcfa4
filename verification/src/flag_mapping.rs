//! OoT flag mapping for location check tracking.
//!
//! Maps location IDs to the flags in the OoT save data that record whether
//! the location has been checked.

use vstd::prelude::*;

use crate::location_table::{
    spec_built, spec_count, stub_or_complete, LocationMapping, LocationTable,
};

pub mod checking;
pub mod eval;
pub mod mappings;
pub mod mq;
pub mod scenes;

pub use scenes as scene;

use mappings::{known_oot_mappings, spec_known_oot_mappings};

verus! {

/// Types of flags used to track location checks in OoT save data.
///
/// Each location in the game is tracked by one of these flag types,
/// stored in specific memory regions within the save context.
#[derive(Debug, Clone, Copy, PartialEq, Eq, Hash, Structural)]
pub enum FlagType {
    /// Chest opened flags (scene flags offset 0x00).
    Chest,
    /// Switch/trigger flags (scene flags offset 0x04).
    Switch,
    /// Room clear flags (scene flags offset 0x08).
    RoomClear,
    /// Collectible item flags (scene flags offset 0x0C).
    Collectible,
    /// Gold Skulltula flags (separate from scene flags).
    GoldSkulltula,
    /// Event check flags (event_chk_inf).
    EventChkInf,
    /// Item get flags (item_get_inf).
    ItemGetInf,
    /// Info table flags (inf_table).
    InfTable,
    /// Shop item flags.
    Shop,
    /// Scrub/merchant purchase flags.
    Scrub,
    /// Great Fairy reward flags.
    GreatFairy,
    /// Boss defeated flags.
    Boss,
    /// Song learned flags.
    Song,
    /// Fishing pond flags.
    Fishing,
    /// Cow/milk flags.
    Cow,
    /// Gossip stone flags.
    GossipStone,
}

/// The byte offset within scene flags of a scene-based flag type.
pub open spec fn spec_scene_offset(t: FlagType) -> Option<usize> {
    match t {
        FlagType::Chest => Some(0x00),
        FlagType::Switch => Some(0x04),
        FlagType::RoomClear => Some(0x08),
        FlagType::Collectible => Some(0x0C),
        _ => None,
    }
}

impl FlagType {
    /// Returns the byte offset within scene flags for scene-based flag types,
    /// `None` for global flag types that aren't stored per-scene.
    pub fn scene_offset(&self) -> (r: Option<usize>)
        ensures
            r == spec_scene_offset(*self),
    {
        match self {
            FlagType::Chest => Some(0x00),
            FlagType::Switch => Some(0x04),
            FlagType::RoomClear => Some(0x08),
            FlagType::Collectible => Some(0x0C),
            FlagType::GoldSkulltula | FlagType::EventChkInf | FlagType::ItemGetInf
            | FlagType::InfTable | FlagType::Shop | FlagType::Scrub | FlagType::GreatFairy
            | FlagType::Boss | FlagType::Song | FlagType::Fishing | FlagType::Cow
            | FlagType::GossipStone => None,
        }
    }

    /// Returns whether this flag type is stored per-scene.
    pub fn is_scene_based(&self) -> (r: bool)
        ensures
            r == spec_scene_offset(*self).is_some(),
    {
        self.scene_offset().is_some()
    }
}

/// Mapping from a location ID to its flag address in memory.
///
/// Either a complete mapping (flag type and bit, with a scene ID for
/// scene-based flags) or a stub mapping (all optional fields `None`).
#[derive(Debug, Clone, Copy, PartialEq, Eq)]
pub struct FlagMapping {
    /// The unique location identifier from OoTMM world data.
    pub location_id: &'static str,
    /// The scene ID where this flag is stored (None for unmapped stubs or global flags).
    pub scene_id: Option<u8>,
    /// The type of flag used for this location (None for unmapped stubs).
    pub flag_type: Option<FlagType>,
    /// The bit mask within the flag word (None for unmapped stubs).
    pub flag_bit: Option<u32>,
}

/// A fully mapped location.
pub open spec fn spec_mapped(location_id: &'static str, scene_id: u8, flag_type: FlagType, flag_bit: u32) -> FlagMapping {
    FlagMapping {
        location_id,
        scene_id: Some(scene_id),
        flag_type: Some(flag_type),
        flag_bit: Some(flag_bit),
    }
}

/// An unmapped stub.
pub open spec fn spec_stub(location_id: &'static str) -> FlagMapping {
    FlagMapping { location_id, scene_id: None, flag_type: None, flag_bit: None }
}

impl FlagMapping {
    /// Creates a new unmapped stub mapping for a location.
    pub fn stub(location_id: &'static str) -> (r: Self)
        ensures
            r == spec_stub(location_id),
    {
        FlagMapping { location_id, scene_id: None, flag_type: None, flag_bit: None }
    }

    /// Creates a new fully mapped location.
    pub fn mapped(location_id: &'static str, scene_id: u8, flag_type: FlagType, flag_bit: u32) -> (r:
        Self)
        ensures
            r == spec_mapped(location_id, scene_id, flag_type, flag_bit),
    {
        FlagMapping {
            location_id,
            scene_id: Some(scene_id),
            flag_type: Some(flag_type),
            flag_bit: Some(flag_bit),
        }
    }

    /// Creates a new global flag mapping (no scene_id).
    pub fn global(location_id: &'static str, flag_type: FlagType, flag_bit: u32) -> (r: Self)
        ensures
            r == (FlagMapping {
                location_id,
                scene_id: None,
                flag_type: Some(flag_type),
                flag_bit: Some(flag_bit),
            }),
    {
        FlagMapping { location_id, scene_id: None, flag_type: Some(flag_type), flag_bit: Some(flag_bit) }
    }

    /// Returns whether this is an unmapped stub.
    pub fn is_stub(&self) -> (r: bool)
        ensures
            r == self.flag_type.is_none(),
    {
        self.flag_type.is_none()
    }

    /// Returns whether this mapping is complete (has flag type and bit).
    pub fn is_mapped(&self) -> (r: bool)
        ensures
            r == (self.flag_type.is_some() && self.flag_bit.is_some()),
    {
        self.flag_type.is_some() && self.flag_bit.is_some()
    }
}

impl LocationMapping for FlagMapping {
    open spec fn spec_id(&self) -> Seq<char> {
        self.location_id@
    }

    open spec fn spec_stub(&self) -> bool {
        self.flag_type.is_none()
    }

    open spec fn spec_complete(&self) -> bool {
        self.flag_type.is_some() && self.flag_bit.is_some()
    }

    open spec fn spec_stub_of(location_id: &'static str) -> Self {
        spec_stub(location_id)
    }

    proof fn lemma_stub_of(location_id: &'static str) {
    }

    fn location_key(&self) -> (r: &'static str) {
        self.location_id
    }

    fn stub_of(location_id: &'static str) -> (r: Self) {
        FlagMapping::stub(location_id)
    }

    fn stub_check(&self) -> (r: bool) {
        self.is_stub()
    }

    fn complete_check(&self) -> (r: bool) {
        self.is_mapped()
    }
}

/// Law: a stub is a stub and not mapped; a mapped or global location is
/// mapped and not a stub.
pub proof fn lemma_mapping_kinds(location_id: &'static str, scene_id: u8, flag_type: FlagType, flag_bit: u32)
    ensures
        spec_stub(location_id).spec_stub() && !spec_stub(location_id).spec_complete(),
        spec_mapped(location_id, scene_id, flag_type, flag_bit).spec_complete(),
        !spec_mapped(location_id, scene_id, flag_type, flag_bit).spec_stub(),
{
}

// ============================================================================
// The OoT mapping table and its queries
// ============================================================================

/// The table of OoT location mappings.
pub type OotMappings = LocationTable<FlagMapping>;

/// Whether every mapping of `s` is complete (has a flag type and a bit).
pub open spec fn all_complete(s: Seq<FlagMapping>) -> bool {
    forall|i: int| 0 <= i < s.len() ==> (#[trigger] s[i]).flag_type.is_some() && s[i].flag_bit.is_some()
}

/// Completeness is kept by concatenation.
pub proof fn lemma_all_complete_concat(a: Seq<FlagMapping>, b: Seq<FlagMapping>)
    requires
        all_complete(a),
        all_complete(b),
    ensures
        all_complete(a + b),
{
    assert forall|i: int| 0 <= i < (a + b).len() implies (#[trigger] (a + b)[i]).flag_type.is_some()
        && (a + b)[i].flag_bit.is_some() by {
        if i < a.len() {
            assert((a + b)[i] == a[i]);
        } else {
            assert((a + b)[i] == b[i - a.len()]);
        }
    }
}

/// Builds the OoT mapping table from the OoT location IDs of the world data:
/// every location starts as a stub, and the researched mappings replace the
/// stubs of their locations (or add their locations).
pub fn oot_mappings(location_ids: Vec<&'static str>) -> (t: OotMappings)
    ensures
        t@ == spec_built(location_ids@, spec_known_oot_mappings()),
        t.spec_location_ids() == location_ids@,
{
    let known = known_oot_mappings();
    proof {
        assert forall|i: int| 0 <= i < known@.len() implies #[trigger] known@[i].spec_stub()
            != known@[i].spec_complete() by {
            assert(known@[i].flag_type.is_some() && known@[i].flag_bit.is_some());
        }
    }
    LocationTable::build(location_ids, known)
}

/// Returns the flag mapping for a location ID, if it exists (even if it is an
/// unmapped stub), or `None` if the location ID is not recognized.
pub fn get_mapping<'t>(table: &'t OotMappings, location_id: &str) -> (r: Option<&'t FlagMapping>)
    ensures
        match r {
            Some(m) => crate::location_table::spec_lookup(table@, location_id@) == Some(*m),
            None => crate::location_table::spec_lookup(table@, location_id@) is None,
        },
{
    table.get(location_id)
}

/// Returns all OoT location mappings, mapped locations and stubs alike.
pub fn get_all_oot_mappings(table: &OotMappings) -> (r: Vec<FlagMapping>)
    ensures
        r@ == table@,
{
    table.all_entries()
}

/// Returns the count of all OoT locations: the mapped locations and the
/// stubs together, and no fewer than the world's location IDs when no ID
/// occurs twice among them.
pub fn oot_location_count(table: &OotMappings) -> (r: usize)
    ensures
        r == table@.len(),
        r == spec_count(table@, |m: FlagMapping| m.spec_complete()) + spec_count(table@, |m: FlagMapping| m.spec_stub()),
        crate::location_table::ids_distinct(table.spec_location_ids()) ==> table.spec_location_ids().len() <= r,
{
    table.len()
}

/// Returns the count of mapped (non-stub) OoT locations.
pub fn oot_mapped_count(table: &OotMappings) -> (r: usize)
    ensures
        r == spec_count(table@, |m: FlagMapping| m.spec_complete()),
{
    table.mapped_count()
}

/// Returns the count of unmapped stub locations; with the mapped count it adds
/// up to the count of all locations.
pub fn oot_stub_count(table: &OotMappings) -> (r: usize)
    ensures
        r == spec_count(table@, |m: FlagMapping| m.spec_stub()),
        r + spec_count(table@, |m: FlagMapping| m.spec_complete()) == table@.len(),
{
    table.stub_count()
}

/// Returns only the mapped (non-stub) locations.
pub fn get_mapped_locations(table: &OotMappings) -> (r: Vec<FlagMapping>)
    ensures
        r@ == table@.filter(|m: FlagMapping| m.spec_complete()),
{
    table.mapped_entries()
}

/// Returns only the stub locations.
pub fn get_stub_locations(table: &OotMappings) -> (r: Vec<FlagMapping>)
    ensures
        r@ == table@.filter(|m: FlagMapping| m.spec_stub()),
{
    table.stub_entries()
}

/// Returns all mappings for a specific scene.
pub fn get_mappings_for_scene(table: &OotMappings, scene_id: u8) -> (r: Vec<FlagMapping>)
    ensures
        r@ == table@.filter(|m: FlagMapping| m.scene_id == Some(scene_id)),
{
    let all = table.all_entries();
    let mut r: Vec<FlagMapping> = Vec::new();
    let n = all.len();
    let mut i: usize = 0;
    while i < n
        invariant
            n == all@.len(),
            i <= n,
            r@ == all@.take(i as int).filter(|m: FlagMapping| m.scene_id == Some(scene_id)),
        decreases n - i,
    {
        proof {
            reveal_with_fuel(Seq::filter, 1);
            assert(all@.take(i + 1).drop_last() =~= all@.take(i as int));
        }
        let matches = match all[i].scene_id {
            Some(s) => s == scene_id,
            None => false,
        };
        if matches {
            r.push(all[i]);
        }
        i = i + 1;
    }
    assert(all@.take(n as int) =~= all@);
    r
}

/// Returns all mappings for a specific flag type.
pub fn get_mappings_by_flag_type(table: &OotMappings, flag_type: FlagType) -> (r: Vec<FlagMapping>)
    ensures
        r@ == table@.filter(|m: FlagMapping| m.flag_type == Some(flag_type)),
{
    let all = table.all_entries();
    let mut r: Vec<FlagMapping> = Vec::new();
    let n = all.len();
    let mut i: usize = 0;
    while i < n
        invariant
            n == all@.len(),
            i <= n,
            r@ == all@.take(i as int).filter(|m: FlagMapping| m.flag_type == Some(flag_type)),
        decreases n - i,
    {
        proof {
            reveal_with_fuel(Seq::filter, 1);
            assert(all@.take(i + 1).drop_last() =~= all@.take(i as int));
        }
        let matches = match all[i].flag_type {
            Some(t) => t == flag_type,
            None => false,
        };
        if matches {
            r.push(all[i]);
        }
        i = i + 1;
    }
    assert(all@.take(n as int) =~= all@);
    r
}

/// Returns all OoT location IDs from the world data; each of them looks up
/// to the table's entry for that ID.
pub fn get_all_oot_location_ids(table: &OotMappings) -> (r: Vec<&'static str>)
    ensures
        r@ == table.spec_location_ids(),
        forall|i: int|
            0 <= i < r@.len() ==> (crate::location_table::spec_lookup(table@, #[trigger] r@[i]@) matches Some(
                m,
            ) && m.spec_id() == r@[i]@),
{
    table.location_ids()
}

} // verus!
