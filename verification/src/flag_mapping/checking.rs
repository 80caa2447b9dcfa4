//! Location status checking: reading the check status of mapped locations
//! from the OoT save flags, and summarizing it.

use vstd::prelude::*;

use super::{FlagMapping, FlagType, OotMappings};
use super::mq::{
    get_active_mapped_locations, location_activity, mq_settings_from_knowledge, spec_active_and_mapped,
    spec_location_activity, spec_mq_from_knowledge, Dungeon, Mq, MqDungeon,
};
use crate::location_table::LocationMapping;
use crate::text::str_eq;

verus! {

/// Status of a location check.
#[derive(Debug, Clone, Copy, PartialEq, Eq, Structural)]
pub enum CheckStatus {
    /// Location has been checked (item collected).
    Checked,
    /// Location has not been checked yet.
    Unchecked,
    /// User has decided to skip this location (won't complete it).
    Skipped,
    /// Check status cannot be determined (unmapped or unknown).
    Unknown,
}

/// Accessibility status based on logic evaluation.
#[derive(Debug, Clone, Copy, PartialEq, Eq, Structural)]
pub enum Accessibility {
    /// The location is accessible with current items and state.
    Available,
    /// The location is not accessible yet.
    Unavailable,
    /// Accessibility cannot be determined (no logic defined or evaluation failed).
    Unknown,
}

impl Default for Accessibility {
    /// Accessibility is unknown until evaluated.
    fn default() -> (r: Self)
        ensures
            r == Accessibility::Unknown,
    {
        Accessibility::Unknown
    }
}

/// Result of checking a location.
#[derive(Debug, Clone)]
pub struct LocationCheckResult {
    /// The location ID.
    pub location_id: String,
    /// Whether the location has been checked.
    pub status: CheckStatus,
    /// Whether this location has a valid flag mapping.
    pub is_mapped: bool,
    /// Logic expression required to access this location (if available).
    pub logic: Option<String>,
    /// Accessibility based on logic evaluation.
    pub accessibility: Accessibility,
}

/// Summary of checked locations.
#[derive(Debug, Clone)]
pub struct CheckedLocationsSummary {
    /// Total number of mapped locations.
    pub total_mapped: usize,
    /// Number of checked locations.
    pub checked_count: usize,
    /// Number of unchecked locations.
    pub unchecked_count: usize,
    /// Number of skipped locations.
    pub skipped_count: usize,
    /// Number of locations with unknown status.
    pub unknown_count: usize,
    /// Number of available (accessible) unchecked locations.
    pub available_count: usize,
    /// Number of unavailable (inaccessible) unchecked locations.
    pub unavailable_count: usize,
    /// List of location check results.
    pub locations: Vec<LocationCheckResult>,
    /// Current scene ID from RAM (used for auto-scrolling the check tracker).
    pub current_scene_id: Option<u8>,
    /// Which game is currently active: "oot", or `None` if unknown.
    pub current_game: Option<String>,
}

// ============================================================================
// The flag state read from the OoT save
// ============================================================================

/// The four flag words of one scene in the OoT save.
#[derive(Debug, Clone, Copy, PartialEq, Eq, Structural)]
pub struct OotSceneFlags {
    /// Opened chests.
    pub chest: u32,
    /// Switches and triggers.
    pub switch: u32,
    /// Cleared rooms.
    pub room_clear: u32,
    /// Collected collectibles.
    pub collectible: u32,
}

/// The OoT game state that location checks are read from: the locations the
/// user skipped, the per-scene flags (indexed by scene ID; a scene beyond the
/// end has all flags clear) and the global flag words.
#[derive(Debug, Clone)]
pub struct OotFlagState {
    /// Locations the user has marked as skipped.
    pub skipped_locations: Vec<String>,
    /// Scene flags, indexed by scene ID.
    pub scene_flags: Vec<OotSceneFlags>,
    /// Gold Skulltula flags.
    pub gold_skulltulas: u32,
    /// Event check flags.
    pub event_chk_inf: u32,
    /// Item get flags.
    pub item_get_inf: u32,
    /// Info table flags.
    pub inf_table: u32,
}

/// Whether the user skipped the location `id`.
pub open spec fn spec_is_skipped(st: OotFlagState, id: Seq<char>) -> bool {
    exists|i: int| 0 <= i < st.skipped_locations@.len() && #[trigger] st.skipped_locations@[i]@ == id
}

/// The flags of `scene`, all clear for a scene beyond the end.
pub open spec fn spec_scene_flags(st: OotFlagState, scene: u8) -> OotSceneFlags {
    if (scene as int) < st.scene_flags@.len() {
        st.scene_flags@[scene as int]
    } else {
        OotSceneFlags { chest: 0, switch: 0, room_clear: 0, collectible: 0 }
    }
}

/// Checked if `bit` is set in `word`, else unchecked.
pub open spec fn spec_bit_status(word: u32, bit: u32) -> CheckStatus {
    if word & bit != 0 {
        CheckStatus::Checked
    } else {
        CheckStatus::Unchecked
    }
}

/// The status of a scene flag of type `t` in `scene`.
pub open spec fn spec_scene_status(st: OotFlagState, scene: Option<u8>, t: FlagType, bit: u32) -> CheckStatus {
    match scene {
        Some(s) => {
            let f = spec_scene_flags(st, s);
            let word = match t {
                FlagType::Chest => f.chest,
                FlagType::Switch => f.switch,
                FlagType::RoomClear => f.room_clear,
                _ => f.collectible,
            };
            spec_bit_status(word, bit)
        },
        None => CheckStatus::Unknown,
    }
}

/// The check status of a location: skipped if the user skipped it; unknown
/// for a stub, for a scene flag without a scene and for flag types that are
/// not read; otherwise checked exactly when its bit is set in its flag word.
pub open spec fn spec_check_status(m: FlagMapping, st: OotFlagState) -> CheckStatus {
    if spec_is_skipped(st, m.location_id@) {
        CheckStatus::Skipped
    } else {
        match (m.flag_type, m.flag_bit) {
            (Some(t), Some(bit)) => match t {
                FlagType::Chest | FlagType::Switch | FlagType::RoomClear | FlagType::Collectible => {
                    spec_scene_status(st, m.scene_id, t, bit)
                },
                FlagType::GoldSkulltula => spec_bit_status(st.gold_skulltulas, bit),
                FlagType::EventChkInf => spec_bit_status(st.event_chk_inf, bit),
                FlagType::ItemGetInf => spec_bit_status(st.item_get_inf, bit),
                FlagType::InfTable => spec_bit_status(st.inf_table, bit),
                _ => CheckStatus::Unknown,
            },
            _ => CheckStatus::Unknown,
        }
    }
}

/// Law: a location the user skipped is skipped. Otherwise a mapped scene
/// flag is read from its own scene's word of its kind (chest, switch, room
/// clear or collectible; a scene beyond the state's table has all flags
/// clear), a Gold Skulltula, event, item-get or info-table flag from its
/// own global word, and the location is checked exactly when that word
/// shares a bit with the mapping's bit; a stub, a scene flag without a
/// scene and the flag kinds that are not read are unknown.
pub proof fn lemma_check_status_reads_its_flag(m: FlagMapping, st: OotFlagState)
    ensures
        spec_is_skipped(st, m.location_id@) ==> spec_check_status(m, st) == CheckStatus::Skipped,
        !spec_is_skipped(st, m.location_id@) && (m.flag_type is None || m.flag_bit is None)
            ==> spec_check_status(m, st) == CheckStatus::Unknown,
        ({
            let t = m.flag_type->0;
            let bit = m.flag_bit->0;
            let scene_kind = t == FlagType::Chest || t == FlagType::Switch || t == FlagType::RoomClear || t
                == FlagType::Collectible;
            let word = if t == FlagType::Chest {
                st.scene_flags@[m.scene_id->0 as int].chest
            } else if t == FlagType::Switch {
                st.scene_flags@[m.scene_id->0 as int].switch
            } else if t == FlagType::RoomClear {
                st.scene_flags@[m.scene_id->0 as int].room_clear
            } else {
                st.scene_flags@[m.scene_id->0 as int].collectible
            };
            let global = if t == FlagType::GoldSkulltula {
                st.gold_skulltulas
            } else if t == FlagType::EventChkInf {
                st.event_chk_inf
            } else if t == FlagType::ItemGetInf {
                st.item_get_inf
            } else {
                st.inf_table
            };
            let global_kind = t == FlagType::GoldSkulltula || t == FlagType::EventChkInf || t
                == FlagType::ItemGetInf || t == FlagType::InfTable;
            !spec_is_skipped(st, m.location_id@) && m.flag_type is Some && m.flag_bit is Some ==> {
                &&& scene_kind && m.scene_id is Some && (m.scene_id->0 as int) < st.scene_flags@.len()
                    ==> spec_check_status(m, st) == (if word & bit != 0 {
                    CheckStatus::Checked
                } else {
                    CheckStatus::Unchecked
                })
                &&& scene_kind && m.scene_id is Some && (m.scene_id->0 as int) >= st.scene_flags@.len()
                    ==> spec_check_status(m, st) == CheckStatus::Unchecked
                &&& scene_kind && m.scene_id is None ==> spec_check_status(m, st) == CheckStatus::Unknown
                &&& global_kind ==> spec_check_status(m, st) == (if global & bit != 0 {
                    CheckStatus::Checked
                } else {
                    CheckStatus::Unchecked
                })
                &&& !scene_kind && !global_kind ==> spec_check_status(m, st) == CheckStatus::Unknown
            }
        }),
{
    if !spec_is_skipped(st, m.location_id@) && m.flag_type is Some && m.flag_bit is Some {
        let s = m.scene_id->0;
        if (s as int) >= st.scene_flags@.len() {
            assert(0u32 & m.flag_bit->0 == 0) by (bit_vector);
        }
    }
}

fn bit_status(word: u32, bit: u32) -> (r: CheckStatus)
    ensures
        r == spec_bit_status(word, bit),
{
    if word & bit != 0 {
        CheckStatus::Checked
    } else {
        CheckStatus::Unchecked
    }
}

/// Whether the user skipped the location `id`.
pub fn is_skipped(state: &OotFlagState, id: &str) -> (r: bool)
    ensures
        r == spec_is_skipped(*state, id@),
{
    let n = state.skipped_locations.len();
    let mut i: usize = 0;
    while i < n
        invariant
            n == state.skipped_locations@.len(),
            i <= n,
            forall|j: int| 0 <= j < i ==> state.skipped_locations@[j]@ != id@,
        decreases n - i,
    {
        if str_eq(state.skipped_locations[i].as_str(), id) {
            return true;
        }
        i = i + 1;
    }
    false
}

/// The flags of `scene`, all clear for a scene beyond the end.
pub fn scene_flags(state: &OotFlagState, scene: u8) -> (r: OotSceneFlags)
    ensures
        r == spec_scene_flags(*state, scene),
{
    if (scene as usize) < state.scene_flags.len() {
        state.scene_flags[scene as usize]
    } else {
        OotSceneFlags { chest: 0, switch: 0, room_clear: 0, collectible: 0 }
    }
}

/// Checks if a specific location has been checked based on the current game
/// state: `Skipped` if the user has marked it skipped, `Checked` if its flag
/// is set, `Unchecked` if not, `Unknown` if it is unmapped or its flag type
/// is not read.
pub fn check_location_status(mapping: &FlagMapping, state: &OotFlagState) -> (r: CheckStatus)
    ensures
        r == spec_check_status(*mapping, *state),
{
    if is_skipped(state, mapping.location_id) {
        return CheckStatus::Skipped;
    }
    if mapping.is_stub() {
        return CheckStatus::Unknown;
    }
    let flag_type = match mapping.flag_type {
        Some(ft) => ft,
        None => return CheckStatus::Unknown,
    };
    let flag_bit = match mapping.flag_bit {
        Some(fb) => fb,
        None => return CheckStatus::Unknown,
    };
    match flag_type {
        FlagType::Chest => match mapping.scene_id {
            Some(scene_id) => bit_status(scene_flags(state, scene_id).chest, flag_bit),
            None => CheckStatus::Unknown,
        },
        FlagType::Switch => match mapping.scene_id {
            Some(scene_id) => bit_status(scene_flags(state, scene_id).switch, flag_bit),
            None => CheckStatus::Unknown,
        },
        FlagType::RoomClear => match mapping.scene_id {
            Some(scene_id) => bit_status(scene_flags(state, scene_id).room_clear, flag_bit),
            None => CheckStatus::Unknown,
        },
        FlagType::Collectible => match mapping.scene_id {
            Some(scene_id) => bit_status(scene_flags(state, scene_id).collectible, flag_bit),
            None => CheckStatus::Unknown,
        },
        FlagType::GoldSkulltula => bit_status(state.gold_skulltulas, flag_bit),
        FlagType::EventChkInf => bit_status(state.event_chk_inf, flag_bit),
        FlagType::ItemGetInf => bit_status(state.item_get_inf, flag_bit),
        FlagType::InfTable => bit_status(state.inf_table, flag_bit),
        FlagType::Shop | FlagType::Scrub | FlagType::GreatFairy | FlagType::Boss | FlagType::Song
        | FlagType::Fishing | FlagType::Cow | FlagType::GossipStone => CheckStatus::Unknown,
    }
}

// ============================================================================
// Location logic from the world data
// ============================================================================

/// What the world data says of one location: its logic expression, and the
/// outcome of evaluating its region's reachability and its logic against the
/// current save (the evaluation itself belongs to the randomizer's logic
/// engine; `logic_result` is `None` when the evaluation failed).
#[derive(Debug, Clone)]
pub struct WorldLocation {
    /// The location ID.
    pub location_id: String,
    /// The logic expression required to access the location, if any.
    pub logic: Option<String>,
    /// Whether the location's region is known to the world data.
    pub region_found: bool,
    /// Whether the location's region is reachable with the current save.
    pub region_reachable: bool,
    /// The value the logic expression evaluated to, `None` on an error.
    pub logic_result: Option<bool>,
}

/// The first world-data entry for location `id`, if any.
pub open spec fn spec_world_entry(world: Seq<WorldLocation>, id: Seq<char>) -> Option<WorldLocation>
    decreases world.len(),
{
    if world.len() == 0 {
        None
    } else if world[0].location_id@ == id {
        Some(world[0])
    } else {
        spec_world_entry(world.drop_first(), id)
    }
}

/// The logic expression of location `id` (its view), if the world data has
/// the location and the location has logic.
pub open spec fn spec_location_logic(world: Seq<WorldLocation>, id: Seq<char>) -> Option<Seq<char>> {
    match spec_world_entry(world, id) {
        Some(e) => match e.logic {
            Some(l) => Some(l@),
            None => None,
        },
        None => None,
    }
}

/// Accessibility of a location from its world-data entry: unknown if the
/// location or its region is not found; unavailable if the region is not
/// reachable; available if it has no logic; otherwise what its logic
/// evaluated to (unknown on an evaluation error).
pub open spec fn spec_entry_accessibility(entry: Option<WorldLocation>) -> Accessibility {
    match entry {
        None => Accessibility::Unknown,
        Some(e) => if !e.region_found {
            Accessibility::Unknown
        } else if !e.region_reachable {
            Accessibility::Unavailable
        } else {
            match e.logic {
                None => Accessibility::Available,
                Some(_) => match e.logic_result {
                    Some(true) => Accessibility::Available,
                    Some(false) => Accessibility::Unavailable,
                    None => Accessibility::Unknown,
                },
            }
        },
    }
}

/// Accessibility of location `id` according to the world data.
pub open spec fn spec_accessibility(world: Seq<WorldLocation>, id: Seq<char>) -> Accessibility {
    spec_entry_accessibility(spec_world_entry(world, id))
}

/// The index of the first world-data entry for location `id`.
fn find_world_entry(world: &Vec<WorldLocation>, id: &str) -> (r: Option<usize>)
    ensures
        match r {
            Some(i) => i < world@.len() && spec_world_entry(world@, id@) == Some(world@[i as int]),
            None => spec_world_entry(world@, id@) is None,
        },
{
    let n = world.len();
    let mut i: usize = 0;
    assert(world@.subrange(0, n as int) =~= world@);
    while i < n
        invariant
            n == world@.len(),
            i <= n,
            spec_world_entry(world@, id@) == spec_world_entry(world@.subrange(i as int, n as int), id@),
        decreases n - i,
    {
        let ghost rest = world@.subrange(i as int, n as int);
        assert(rest.drop_first() =~= world@.subrange(i + 1, n as int));
        assert(rest[0] == world@[i as int]);
        if str_eq(world[i].location_id.as_str(), id) {
            return Some(i);
        }
        i = i + 1;
    }
    assert(world@.subrange(n as int, n as int).len() == 0);
    None
}

/// Accessibility from a world-data entry (see `spec_entry_accessibility`).
pub fn entry_accessibility(entry: Option<&WorldLocation>) -> (r: Accessibility)
    ensures
        r == spec_entry_accessibility(
            match entry {
                Some(e) => Some(*e),
                None => None,
            },
        ),
{
    match entry {
        None => Accessibility::Unknown,
        Some(e) => {
            if !e.region_found {
                Accessibility::Unknown
            } else if !e.region_reachable {
                Accessibility::Unavailable
            } else {
                match &e.logic {
                    None => Accessibility::Available,
                    Some(_) => match e.logic_result {
                        Some(true) => Accessibility::Available,
                        Some(false) => Accessibility::Unavailable,
                        None => Accessibility::Unknown,
                    },
                }
            }
        },
    }
}

/// Evaluates accessibility for a location from the world data.
pub fn evaluate_accessibility(world: &Vec<WorldLocation>, location_id: &str) -> (r: Accessibility)
    ensures
        r == spec_accessibility(world@, location_id@),
{
    match find_world_entry(world, location_id) {
        Some(i) => entry_accessibility(Some(&world[i])),
        None => entry_accessibility(None),
    }
}

/// Returns the logic expression for a location from the world data, `None`
/// if the location is not found or has no logic.
pub fn get_location_logic(world: &Vec<WorldLocation>, location_id: &str) -> (r: Option<String>)
    ensures
        match r {
            Some(l) => spec_location_logic(world@, location_id@) == Some(l@),
            None => spec_location_logic(world@, location_id@) is None,
        },
{
    match find_world_entry(world, location_id) {
        Some(i) => match &world[i].logic {
            Some(l) => Some(l.clone()),
            None => None,
        },
        None => None,
    }
}

// ============================================================================
// Check results for all mapped locations
// ============================================================================

/// The view of an optional string.
pub open spec fn spec_opt_view(o: Option<String>) -> Option<Seq<char>> {
    match o {
        Some(s) => Some(s@),
        None => None,
    }
}

/// `r` is the check result of mapping `m`: its location ID, its check status,
/// whether it is mapped, and its logic and accessibility from the world data.
pub open spec fn spec_result_for(
    r: LocationCheckResult,
    m: FlagMapping,
    st: OotFlagState,
    world: Seq<WorldLocation>,
) -> bool {
    &&& r.location_id@ == m.location_id@
    &&& r.status == spec_check_status(m, st)
    &&& r.is_mapped == m.spec_complete()
    &&& spec_opt_view(r.logic) == spec_location_logic(world, m.location_id@)
    &&& r.accessibility == spec_accessibility(world, m.location_id@)
}

/// `rs` are the check results of the mappings `ms`, in order.
pub open spec fn spec_results_for(
    rs: Seq<LocationCheckResult>,
    ms: Seq<FlagMapping>,
    st: OotFlagState,
    world: Seq<WorldLocation>,
) -> bool {
    &&& rs.len() == ms.len()
    &&& forall|i: int| 0 <= i < rs.len() ==> #[trigger] spec_result_for(rs[i], ms[i], st, world)
}

/// The mapped (non-stub) locations of the table, in table order.
pub open spec fn spec_mapped_locations(table: OotMappings) -> Seq<FlagMapping> {
    table@.filter(|m: FlagMapping| m.spec_complete())
}

/// The check result of one location.
pub fn location_result(mapping: &FlagMapping, state: &OotFlagState, world: &Vec<WorldLocation>) -> (r:
    LocationCheckResult)
    ensures
        spec_result_for(r, *mapping, *state, world@),
{
    let location_id = mapping.location_id.to_owned();
    let accessibility = evaluate_accessibility(world, mapping.location_id);
    let logic = get_location_logic(world, mapping.location_id);
    LocationCheckResult {
        location_id,
        status: check_location_status(mapping, state),
        is_mapped: mapping.is_mapped(),
        logic,
        accessibility,
    }
}

/// Returns the check results of all mapped OoT locations, in table order.
pub fn get_all_checked_locations(table: &OotMappings, state: &OotFlagState, world: &Vec<WorldLocation>) -> (r:
    Vec<LocationCheckResult>)
    ensures
        spec_results_for(r@, spec_mapped_locations(*table), *state, world@),
        forall|i: int| 0 <= i < r@.len() ==> (#[trigger] r@[i]).is_mapped,
{
    let mapped = table.mapped_entries();
    let n = mapped.len();
    let mut r: Vec<LocationCheckResult> = Vec::new();
    let mut i: usize = 0;
    while i < n
        invariant
            n == mapped@.len(),
            mapped@ == spec_mapped_locations(*table),
            i <= n,
            r@.len() == i,
            forall|j: int| 0 <= j < i ==> #[trigger] spec_result_for(r@[j], mapped@[j], *state, world@),
            forall|j: int| 0 <= j < i ==> (#[trigger] r@[j]).is_mapped,
        decreases n - i,
    {
        proof {
            table@.lemma_filter_pred(|m: FlagMapping| m.spec_complete(), i as int);
        }
        let res = location_result(&mapped[i], state, world);
        r.push(res);
        i = i + 1;
    }
    r
}

/// Returns the check results of all OoT locations followed, when MM save
/// data is present, by the check results of the MM locations.
pub fn get_all_checked_locations_combo(
    table: &OotMappings,
    state: &OotFlagState,
    world: &Vec<WorldLocation>,
    mm_results: Option<Vec<LocationCheckResult>>,
) -> (r: Vec<LocationCheckResult>)
    ensures
        spec_results_for(
            r@.take(spec_mapped_locations(*table).len() as int),
            spec_mapped_locations(*table),
            *state,
            world@,
        ),
        match mm_results {
            Some(mm) => r@ == r@.take(spec_mapped_locations(*table).len() as int) + mm@,
            None => r@.len() == spec_mapped_locations(*table).len(),
        },
        r@.len() == spec_mapped_locations(*table).len() + match mm_results {
            Some(mm) => mm@.len(),
            None => 0,
        },
        forall|i: int| 0 <= i < spec_mapped_locations(*table).len() ==> (#[trigger] r@[i]).is_mapped,
{
    let mut results = get_all_checked_locations(table, state, world);
    let ghost oot = results@;
    assert(oot.take(oot.len() as int) =~= oot);
    match mm_results {
        Some(mut mm) => {
            results.append(&mut mm);
            assert(results@.take(oot.len() as int) =~= oot);
        },
        None => {},
    }
    results
}

/// Returns the check status of every mapped OoT location, paired with its
/// location ID, in table order.
pub fn get_checked_locations_map(table: &OotMappings, state: &OotFlagState) -> (r: Vec<(String, CheckStatus)>)
    ensures
        r@.len() == spec_mapped_locations(*table).len(),
        forall|i: int|
            0 <= i < r@.len() ==> (#[trigger] r@[i]).0@ == spec_mapped_locations(*table)[i].location_id@
                && r@[i].1 == spec_check_status(spec_mapped_locations(*table)[i], *state),
{
    let mapped = table.mapped_entries();
    let n = mapped.len();
    let mut r: Vec<(String, CheckStatus)> = Vec::new();
    let mut i: usize = 0;
    while i < n
        invariant
            n == mapped@.len(),
            mapped@ == spec_mapped_locations(*table),
            i <= n,
            r@.len() == i,
            forall|j: int|
                0 <= j < i ==> (#[trigger] r@[j]).0@ == mapped@[j].location_id@ && r@[j].1
                    == spec_check_status(mapped@[j], *state),
        decreases n - i,
    {
        let id = mapped[i].location_id.to_owned();
        let status = check_location_status(&mapped[i], state);
        r.push((id, status));
        i = i + 1;
    }
    r
}

// ============================================================================
// Summary
// ============================================================================

/// The number of results with status `st`.
pub open spec fn spec_count_status(s: Seq<LocationCheckResult>, st: CheckStatus) -> nat
    decreases s.len(),
{
    if s.len() == 0 {
        0
    } else {
        spec_count_status(s.drop_last(), st) + if s.last().status == st {
            1nat
        } else {
            0nat
        }
    }
}

/// The number of unchecked results with accessibility `a`.
pub open spec fn spec_count_unchecked_with(s: Seq<LocationCheckResult>, a: Accessibility) -> nat
    decreases s.len(),
{
    if s.len() == 0 {
        0
    } else {
        spec_count_unchecked_with(s.drop_last(), a) + if s.last().status == CheckStatus::Unchecked
            && s.last().accessibility == a {
            1nat
        } else {
            0nat
        }
    }
}

/// Law: every result has exactly one status, so the four status counts add
/// up to the number of results; the available and the unavailable unchecked
/// results are among the unchecked ones.
pub proof fn lemma_status_counts(s: Seq<LocationCheckResult>)
    ensures
        spec_count_status(s, CheckStatus::Checked) + spec_count_status(s, CheckStatus::Unchecked)
            + spec_count_status(s, CheckStatus::Skipped) + spec_count_status(s, CheckStatus::Unknown)
            == s.len(),
        spec_count_unchecked_with(s, Accessibility::Available) + spec_count_unchecked_with(
            s,
            Accessibility::Unavailable,
        ) <= spec_count_status(s, CheckStatus::Unchecked),
    decreases s.len(),
{
    if s.len() > 0 {
        lemma_status_counts(s.drop_last());
    }
}

/// The game reported as active: unknown when MM save data is present and no
/// scene is active (scene 0xFF), otherwise OoT.
pub open spec fn spec_current_game(scene_id: u8, mm_active: bool) -> Option<Seq<char>> {
    if mm_active && scene_id == 0xFF {
        None
    } else {
        Some("oot"@)
    }
}

/// Counts the results by status and accessibility and records the current
/// scene and game.
pub fn summarize_checked_locations(locations: Vec<LocationCheckResult>, current_scene_id: u8, mm_active: bool) -> (r:
    CheckedLocationsSummary)
    ensures
        r.locations@ == locations@,
        r.total_mapped == locations@.len(),
        r.checked_count == spec_count_status(locations@, CheckStatus::Checked),
        r.unchecked_count == spec_count_status(locations@, CheckStatus::Unchecked),
        r.skipped_count == spec_count_status(locations@, CheckStatus::Skipped),
        r.unknown_count == spec_count_status(locations@, CheckStatus::Unknown),
        r.available_count == spec_count_unchecked_with(locations@, Accessibility::Available),
        r.unavailable_count == spec_count_unchecked_with(locations@, Accessibility::Unavailable),
        r.checked_count + r.unchecked_count + r.skipped_count + r.unknown_count == r.total_mapped,
        r.available_count + r.unavailable_count <= r.unchecked_count,
        r.current_scene_id == Some(current_scene_id),
        spec_opt_view(r.current_game) == spec_current_game(current_scene_id, mm_active),
{
    let n = locations.len();
    let mut checked: usize = 0;
    let mut unchecked: usize = 0;
    let mut skipped: usize = 0;
    let mut unknown: usize = 0;
    let mut available: usize = 0;
    let mut unavailable: usize = 0;
    let mut i: usize = 0;
    while i < n
        invariant
            n == locations@.len(),
            i <= n,
            checked == spec_count_status(locations@.take(i as int), CheckStatus::Checked),
            unchecked == spec_count_status(locations@.take(i as int), CheckStatus::Unchecked),
            skipped == spec_count_status(locations@.take(i as int), CheckStatus::Skipped),
            unknown == spec_count_status(locations@.take(i as int), CheckStatus::Unknown),
            available == spec_count_unchecked_with(locations@.take(i as int), Accessibility::Available),
            unavailable == spec_count_unchecked_with(
                locations@.take(i as int),
                Accessibility::Unavailable,
            ),
            checked + unchecked + skipped + unknown == i,
        decreases n - i,
    {
        let ghost pre = locations@.take(i as int);
        let ghost cur = locations@.take(i + 1);
        assert(cur.drop_last() =~= pre);
        assert(cur.last() == locations@[i as int]);
        proof {
            lemma_status_counts(pre);
        }
        let status = locations[i].status;
        let accessibility = locations[i].accessibility;
        match status {
            CheckStatus::Checked => checked = checked + 1,
            CheckStatus::Unchecked => {
                unchecked = unchecked + 1;
                match accessibility {
                    Accessibility::Available => available = available + 1,
                    Accessibility::Unavailable => unavailable = unavailable + 1,
                    Accessibility::Unknown => {},
                }
            },
            CheckStatus::Skipped => skipped = skipped + 1,
            CheckStatus::Unknown => unknown = unknown + 1,
        }
        i = i + 1;
    }
    assert(locations@.take(n as int) =~= locations@);
    proof {
        lemma_status_counts(locations@);
    }
    let current_game = if mm_active && current_scene_id == 0xFF {
        None
    } else {
        Some("oot".to_owned())
    };
    proof {
        reveal_strlit("oot");
    }
    CheckedLocationsSummary {
        total_mapped: n,
        checked_count: checked,
        unchecked_count: unchecked,
        skipped_count: skipped,
        unknown_count: unknown,
        available_count: available,
        unavailable_count: unavailable,
        locations,
        current_scene_id: Some(current_scene_id),
        current_game,
    }
}

/// Returns a summary of the check results of the OoT locations and, when MM
/// save data is present, of the MM locations.
pub fn get_checked_locations_summary(
    table: &OotMappings,
    state: &OotFlagState,
    world: &Vec<WorldLocation>,
    mm_results: Option<Vec<LocationCheckResult>>,
    current_scene_id: u8,
) -> (r: CheckedLocationsSummary)
    ensures
        spec_results_for(
            r.locations@.take(spec_mapped_locations(*table).len() as int),
            spec_mapped_locations(*table),
            *state,
            world@,
        ),
        match mm_results {
            Some(mm) => r.locations@ == r.locations@.take(spec_mapped_locations(*table).len() as int) + mm@,
            None => r.locations@.len() == spec_mapped_locations(*table).len(),
        },
        r.total_mapped == r.locations@.len(),
        r.checked_count == spec_count_status(r.locations@, CheckStatus::Checked),
        r.unchecked_count == spec_count_status(r.locations@, CheckStatus::Unchecked),
        r.skipped_count == spec_count_status(r.locations@, CheckStatus::Skipped),
        r.unknown_count == spec_count_status(r.locations@, CheckStatus::Unknown),
        r.available_count == spec_count_unchecked_with(r.locations@, Accessibility::Available),
        r.unavailable_count == spec_count_unchecked_with(r.locations@, Accessibility::Unavailable),
        r.checked_count + r.unchecked_count + r.skipped_count + r.unknown_count == r.total_mapped,
        r.current_scene_id == Some(current_scene_id),
        spec_opt_view(r.current_game) == spec_current_game(current_scene_id, mm_results is Some),
{
    let mm_active = mm_results.is_some();
    let locations = get_all_checked_locations_combo(table, state, world, mm_results);
    summarize_checked_locations(locations, current_scene_id, mm_active)
}

// ============================================================================
// Filtering by the active dungeon variants (vanilla or Master Quest)
// ============================================================================

/// The mappings of `ms` whose flag in `active` is set, in order.
pub open spec fn spec_select(ms: Seq<FlagMapping>, active: Seq<bool>) -> Seq<FlagMapping>
    decreases ms.len(),
{
    if ms.len() == 0 || active.len() == 0 {
        Seq::empty()
    } else {
        let rest = spec_select(ms.drop_last(), active.drop_last());
        if active.last() {
            rest.push(ms.last())
        } else {
            rest
        }
    }
}

/// Returns the check results of the mapped OoT locations that are active for
/// the current Master Quest settings, in table order; `active` holds, for
/// each table entry in table order, whether it is active (as
/// `location_activity` computes it from the settings).
pub fn get_all_checked_locations_filtered(
    table: &OotMappings,
    state: &OotFlagState,
    world: &Vec<WorldLocation>,
    active: &Vec<bool>,
) -> (r: Vec<LocationCheckResult>)
    requires
        active@.len() == table@.len(),
    ensures
        spec_results_for(r@, spec_select(table@, spec_active_and_mapped(table@, active@)), *state, world@),
{
    let selected = get_active_mapped_locations(table, active);
    let n = selected.len();
    let mut r: Vec<LocationCheckResult> = Vec::new();
    let mut i: usize = 0;
    while i < n
        invariant
            n == selected@.len(),
            selected@ == spec_select(table@, spec_active_and_mapped(table@, active@)),
            i <= n,
            r@.len() == i,
            forall|j: int| 0 <= j < i ==> #[trigger] spec_result_for(r@[j], selected@[j], *state, world@),
        decreases n - i,
    {
        let res = location_result(&selected[i], state, world);
        r.push(res);
        i = i + 1;
    }
    r
}

/// Returns a summary of the check results of the OoT locations that are
/// active for the current Master Quest settings (`active`: one flag per
/// table entry, as `location_activity` computes it).
pub fn get_checked_locations_summary_filtered(
    table: &OotMappings,
    state: &OotFlagState,
    world: &Vec<WorldLocation>,
    active: &Vec<bool>,
    current_scene_id: u8,
    mm_active: bool,
) -> (r: CheckedLocationsSummary)
    requires
        active@.len() == table@.len(),
    ensures
        spec_results_for(r.locations@, spec_select(table@, spec_active_and_mapped(table@, active@)), *state, world@),
        r.total_mapped == r.locations@.len(),
        r.checked_count == spec_count_status(r.locations@, CheckStatus::Checked),
        r.unchecked_count == spec_count_status(r.locations@, CheckStatus::Unchecked),
        r.skipped_count == spec_count_status(r.locations@, CheckStatus::Skipped),
        r.unknown_count == spec_count_status(r.locations@, CheckStatus::Unknown),
        r.available_count == spec_count_unchecked_with(r.locations@, Accessibility::Available),
        r.unavailable_count == spec_count_unchecked_with(r.locations@, Accessibility::Unavailable),
        r.checked_count + r.unchecked_count + r.skipped_count + r.unknown_count == r.total_mapped,
        r.current_scene_id == Some(current_scene_id),
        spec_opt_view(r.current_game) == spec_current_game(current_scene_id, mm_active),
{
    let locations = get_all_checked_locations_filtered(table, state, world, active);
    summarize_checked_locations(locations, current_scene_id, mm_active)
}

/// Returns a summary of the check results of the OoT locations that are
/// active for the Master Quest settings of the tracker's knowledge: the
/// settings start from `initial_mq` and take each dungeon's vanilla or Master
/// Quest choice from `known`; `location_dungeons` and `location_active` are
/// the randomizer's answers for each table entry (the dungeon it names from
/// the location ID, and whether a location outside Master Quest dungeons is
/// active).
pub fn get_checked_locations_summary_for_knowledge(
    table: &OotMappings,
    state: &OotFlagState,
    world: &Vec<WorldLocation>,
    initial_mq: &Vec<MqDungeon>,
    known: &Vec<(Dungeon, Mq)>,
    location_dungeons: &Vec<Option<MqDungeon>>,
    location_active: &Vec<bool>,
    current_scene_id: u8,
    mm_active: bool,
) -> (r: CheckedLocationsSummary)
    requires
        location_dungeons@.len() == table@.len(),
        location_active@.len() == table@.len(),
    ensures
        spec_results_for(
            r.locations@,
            spec_select(
                table@,
                spec_active_and_mapped(
                    table@,
                    spec_location_activity(
                        table@,
                        location_dungeons@,
                        spec_mq_from_knowledge(initial_mq@, known@),
                        location_active@,
                    ),
                ),
            ),
            *state,
            world@,
        ),
        r.total_mapped == r.locations@.len(),
        r.checked_count + r.unchecked_count + r.skipped_count + r.unknown_count == r.total_mapped,
        r.checked_count == spec_count_status(r.locations@, CheckStatus::Checked),
        r.unchecked_count == spec_count_status(r.locations@, CheckStatus::Unchecked),
        r.skipped_count == spec_count_status(r.locations@, CheckStatus::Skipped),
        r.unknown_count == spec_count_status(r.locations@, CheckStatus::Unknown),
        r.available_count == spec_count_unchecked_with(r.locations@, Accessibility::Available),
        r.unavailable_count == spec_count_unchecked_with(r.locations@, Accessibility::Unavailable),
        r.current_scene_id == Some(current_scene_id),
        spec_opt_view(r.current_game) == spec_current_game(current_scene_id, mm_active),
{
    let mq_dungeons = mq_settings_from_knowledge(initial_mq, known);
    let active = location_activity(table, location_dungeons, &mq_dungeons, location_active);
    get_checked_locations_summary_filtered(table, state, world, &active, current_scene_id, mm_active)
}

// ============================================================================
// Laws
// ============================================================================

/// Law: the world data's entry for a location is its first entry with that
/// location ID, and there is none when no entry has the ID.
pub proof fn lemma_world_entry_first(world: Seq<WorldLocation>, id: Seq<char>, i: int)
    ensures
        0 <= i < world.len() && world[i].location_id@ == id && (forall|j: int|
            0 <= j < i ==> (#[trigger] world[j]).location_id@ != id) ==> spec_world_entry(world, id) == Some(
            world[i],
        ),
        (forall|j: int| 0 <= j < world.len() ==> (#[trigger] world[j]).location_id@ != id) ==> spec_world_entry(
            world,
            id,
        ) is None,
    decreases world.len(),
{
    if world.len() > 0 {
        let rest = world.drop_first();
        lemma_world_entry_first(rest, id, i - 1);
        if (forall|j: int| 0 <= j < world.len() ==> (#[trigger] world[j]).location_id@ != id) {
            assert forall|j: int| 0 <= j < rest.len() implies (#[trigger] rest[j]).location_id@ != id by {
                assert(rest[j] == world[j + 1]);
            }
        }
        if 0 < i < world.len() && world[i].location_id@ == id && (forall|j: int|
            0 <= j < i ==> (#[trigger] world[j]).location_id@ != id) {
            assert(world[0].location_id@ != id);
            assert(rest[i - 1] == world[i]);
            assert forall|j: int| 0 <= j < i - 1 implies (#[trigger] rest[j]).location_id@ != id by {
                assert(rest[j] == world[j + 1]);
            }
        }
    }
}

/// Law: a location is available exactly when the world data has it, its
/// region is found and reachable, and it has no logic or its logic held; it
/// is unavailable exactly when its region is found but not reachable, or
/// reachable with logic that failed; in every other case (no entry, region
/// not found, logic that could not be evaluated) it is unknown.
pub proof fn lemma_accessibility_cases(entry: Option<WorldLocation>)
    ensures
        (spec_entry_accessibility(entry) == Accessibility::Available) <==> (entry is Some && entry->0.region_found
            && entry->0.region_reachable && (entry->0.logic is None || entry->0.logic_result == Some(true))),
        (spec_entry_accessibility(entry) == Accessibility::Unavailable) <==> (entry is Some
            && entry->0.region_found && (!entry->0.region_reachable || (entry->0.logic is Some
            && entry->0.logic_result == Some(false)))),
        (spec_entry_accessibility(entry) == Accessibility::Unknown) <==> (entry is None || !entry->0.region_found
            || (entry->0.region_reachable && entry->0.logic is Some && entry->0.logic_result is None)),
{
}

/// Law: the status counts of a summary count the results with that status,
/// and the accessibility counts the unchecked results with that
/// accessibility.
pub proof fn lemma_counts_are_filters(s: Seq<LocationCheckResult>, st: CheckStatus, a: Accessibility)
    ensures
        spec_count_status(s, st) == s.filter(|r: LocationCheckResult| r.status == st).len(),
        spec_count_unchecked_with(s, a) == s.filter(
            |r: LocationCheckResult| r.status == CheckStatus::Unchecked && r.accessibility == a,
        ).len(),
    decreases s.len(),
{
    reveal_with_fuel(Seq::filter, 1);
    if s.len() > 0 {
        lemma_counts_are_filters(s.drop_last(), st, a);
    }
}

} // verus!
