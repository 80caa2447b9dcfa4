//! Knowledge inference: where the dungeon rewards are, read from the
//! dungeon-info screen of the pause menu and from text boxes, and derived by
//! elimination.

use vstd::prelude::*;

use crate::flag_mapping::mq::MainDungeon;

verus! {

/// A spiritual stone.
#[derive(Debug, Clone, Copy, PartialEq, Eq, Hash, Structural)]
pub enum Stone {
    KokiriEmerald,
    GoronRuby,
    ZoraSapphire,
}

/// A medallion.
#[derive(Debug, Clone, Copy, PartialEq, Eq, Hash, Structural)]
pub enum Medallion {
    Light,
    Forest,
    Fire,
    Water,
    Shadow,
    Spirit,
}

/// A dungeon reward: a medallion or a spiritual stone.
#[derive(Debug, Clone, Copy, PartialEq, Eq, Hash, Structural)]
pub enum DungeonReward {
    Medallion(Medallion),
    Stone(Stone),
}

/// Where a dungeon reward is: at the end of a main dungeon, or on Link's
/// Pocket (given at the start).
#[derive(Debug, Clone, Copy, PartialEq, Eq, Hash, Structural)]
pub enum DungeonRewardLocation {
    Dungeon(MainDungeon),
    LinksPocket,
}

/// The known locations of the dungeon rewards.
#[derive(Debug, Clone, Copy, PartialEq, Eq, Structural, Default)]
pub struct RewardKnowledge {
    pub light_medallion: Option<DungeonRewardLocation>,
    pub forest_medallion: Option<DungeonRewardLocation>,
    pub fire_medallion: Option<DungeonRewardLocation>,
    pub water_medallion: Option<DungeonRewardLocation>,
    pub shadow_medallion: Option<DungeonRewardLocation>,
    pub spirit_medallion: Option<DungeonRewardLocation>,
    pub kokiri_emerald: Option<DungeonRewardLocation>,
    pub goron_ruby: Option<DungeonRewardLocation>,
    pub zora_sapphire: Option<DungeonRewardLocation>,
}

/// The known location of reward `r`.
pub open spec fn spec_get(k: RewardKnowledge, r: DungeonReward) -> Option<DungeonRewardLocation> {
    match r {
        DungeonReward::Medallion(Medallion::Light) => k.light_medallion,
        DungeonReward::Medallion(Medallion::Forest) => k.forest_medallion,
        DungeonReward::Medallion(Medallion::Fire) => k.fire_medallion,
        DungeonReward::Medallion(Medallion::Water) => k.water_medallion,
        DungeonReward::Medallion(Medallion::Shadow) => k.shadow_medallion,
        DungeonReward::Medallion(Medallion::Spirit) => k.spirit_medallion,
        DungeonReward::Stone(Stone::KokiriEmerald) => k.kokiri_emerald,
        DungeonReward::Stone(Stone::GoronRuby) => k.goron_ruby,
        DungeonReward::Stone(Stone::ZoraSapphire) => k.zora_sapphire,
    }
}

impl View for RewardKnowledge {
    type V = Map<DungeonReward, DungeonRewardLocation>;

    /// The map from each reward whose location is known to that location.
    open spec fn view(&self) -> Map<DungeonReward, DungeonRewardLocation> {
        Map::new(|r: DungeonReward| spec_get(*self, r) is Some, |r: DungeonReward| spec_get(*self, r)->0)
    }
}

impl RewardKnowledge {
    /// The known location of reward `r`, if any.
    pub fn get(&self, r: DungeonReward) -> (l: Option<DungeonRewardLocation>)
        ensures
            l == spec_get(*self, r),
            match l {
                Some(loc) => self@.contains_key(r) && self@[r] == loc,
                None => !self@.contains_key(r),
            },
    {
        match r {
            DungeonReward::Medallion(Medallion::Light) => self.light_medallion,
            DungeonReward::Medallion(Medallion::Forest) => self.forest_medallion,
            DungeonReward::Medallion(Medallion::Fire) => self.fire_medallion,
            DungeonReward::Medallion(Medallion::Water) => self.water_medallion,
            DungeonReward::Medallion(Medallion::Shadow) => self.shadow_medallion,
            DungeonReward::Medallion(Medallion::Spirit) => self.spirit_medallion,
            DungeonReward::Stone(Stone::KokiriEmerald) => self.kokiri_emerald,
            DungeonReward::Stone(Stone::GoronRuby) => self.goron_ruby,
            DungeonReward::Stone(Stone::ZoraSapphire) => self.zora_sapphire,
        }
    }

    /// Records that reward `r` is at `loc`.
    pub fn insert(&mut self, r: DungeonReward, loc: DungeonRewardLocation)
        ensures
            final(self)@ == old(self)@.insert(r, loc),
    {
        match r {
            DungeonReward::Medallion(Medallion::Light) => self.light_medallion = Some(loc),
            DungeonReward::Medallion(Medallion::Forest) => self.forest_medallion = Some(loc),
            DungeonReward::Medallion(Medallion::Fire) => self.fire_medallion = Some(loc),
            DungeonReward::Medallion(Medallion::Water) => self.water_medallion = Some(loc),
            DungeonReward::Medallion(Medallion::Shadow) => self.shadow_medallion = Some(loc),
            DungeonReward::Medallion(Medallion::Spirit) => self.spirit_medallion = Some(loc),
            DungeonReward::Stone(Stone::KokiriEmerald) => self.kokiri_emerald = Some(loc),
            DungeonReward::Stone(Stone::GoronRuby) => self.goron_ruby = Some(loc),
            DungeonReward::Stone(Stone::ZoraSapphire) => self.zora_sapphire = Some(loc),
        }
        assert(self@ =~= old(self)@.insert(r, loc));
    }
}

// ============================================================================
// Enumerations
// ============================================================================

/// All dungeon rewards.
pub open spec fn spec_all_rewards() -> Seq<DungeonReward> {
    seq![
        DungeonReward::Medallion(Medallion::Light),
        DungeonReward::Medallion(Medallion::Forest),
        DungeonReward::Medallion(Medallion::Fire),
        DungeonReward::Medallion(Medallion::Water),
        DungeonReward::Medallion(Medallion::Shadow),
        DungeonReward::Medallion(Medallion::Spirit),
        DungeonReward::Stone(Stone::KokiriEmerald),
        DungeonReward::Stone(Stone::GoronRuby),
        DungeonReward::Stone(Stone::ZoraSapphire),
    ]
}

/// All main dungeons.
pub open spec fn spec_all_main_dungeons() -> Seq<MainDungeon> {
    seq![
        MainDungeon::DekuTree,
        MainDungeon::DodongosCavern,
        MainDungeon::JabuJabu,
        MainDungeon::ForestTemple,
        MainDungeon::FireTemple,
        MainDungeon::WaterTemple,
        MainDungeon::ShadowTemple,
        MainDungeon::SpiritTemple,
    ]
}

/// Every reward is listed in `spec_all_rewards`.
proof fn lemma_all_rewards_listed(r: DungeonReward)
    ensures
        spec_all_rewards().contains(r),
{
    let all = spec_all_rewards();
    match r {
        DungeonReward::Medallion(Medallion::Light) => assert(all[0] == r),
        DungeonReward::Medallion(Medallion::Forest) => assert(all[1] == r),
        DungeonReward::Medallion(Medallion::Fire) => assert(all[2] == r),
        DungeonReward::Medallion(Medallion::Water) => assert(all[3] == r),
        DungeonReward::Medallion(Medallion::Shadow) => assert(all[4] == r),
        DungeonReward::Medallion(Medallion::Spirit) => assert(all[5] == r),
        DungeonReward::Stone(Stone::KokiriEmerald) => assert(all[6] == r),
        DungeonReward::Stone(Stone::GoronRuby) => assert(all[7] == r),
        DungeonReward::Stone(Stone::ZoraSapphire) => assert(all[8] == r),
    }
}

fn all_rewards() -> (v: Vec<DungeonReward>)
    ensures
        v@ == spec_all_rewards(),
{
    let v = vec![
        DungeonReward::Medallion(Medallion::Light),
        DungeonReward::Medallion(Medallion::Forest),
        DungeonReward::Medallion(Medallion::Fire),
        DungeonReward::Medallion(Medallion::Water),
        DungeonReward::Medallion(Medallion::Shadow),
        DungeonReward::Medallion(Medallion::Spirit),
        DungeonReward::Stone(Stone::KokiriEmerald),
        DungeonReward::Stone(Stone::GoronRuby),
        DungeonReward::Stone(Stone::ZoraSapphire),
    ];
    assert(v@ =~= spec_all_rewards());
    v
}

fn all_main_dungeons() -> (v: Vec<MainDungeon>)
    ensures
        v@ == spec_all_main_dungeons(),
{
    let v = vec![
        MainDungeon::DekuTree,
        MainDungeon::DodongosCavern,
        MainDungeon::JabuJabu,
        MainDungeon::ForestTemple,
        MainDungeon::FireTemple,
        MainDungeon::WaterTemple,
        MainDungeon::ShadowTemple,
        MainDungeon::SpiritTemple,
    ];
    assert(v@ =~= spec_all_main_dungeons());
    v
}

// ============================================================================
// Inputs
// ============================================================================

/// What knowledge inference reads from the game state and the tracker
/// settings, as plain values.
#[derive(Debug, Clone)]
pub struct KnowledgeInputs {
    /// Whether the save is in gameplay (not on the title or file select screen).
    pub gameplay: bool,
    /// How the dungeon-info screen is opened: 0 never, 1 with A, 2 and above with D-down.
    pub cfg_dungeon_info_enable: u8,
    /// Whether A is held on controller 1.
    pub pad_a: bool,
    /// Whether D-down is held on controller 1.
    pub pad_d_down: bool,
    /// The pause menu state (6 while the pause menu is open).
    pub pause_state: u8,
    /// The pause menu screen shown (0 for the item select screen).
    pub pause_screen_idx: u8,
    /// Whether the pause menu is switching screens.
    pub pause_changing: bool,
    /// Whether the dungeon-info screen shows rewards.
    pub cfg_dungeon_info_reward_enable: bool,
    /// Whether a reward is only shown once the Temple of Time altar was read.
    pub cfg_dungeon_info_reward_need_altar: bool,
    /// Whether a dungeon's reward is only shown once its compass is owned.
    pub cfg_dungeon_info_reward_need_compass: bool,
    /// The rewards of the seed, each with its location, as the dungeon-info
    /// screen lists them.
    pub cfg_dungeon_rewards: Vec<(DungeonRewardLocation, DungeonReward)>,
    /// Whether the altar text naming the medallion locations was read.
    pub altar_read_medallion_locations: bool,
    /// Whether the altar text naming the stone locations was read.
    pub altar_read_stone_locations: bool,
    /// The main dungeons whose compass is owned.
    pub compasses: Vec<MainDungeon>,
    /// The rewards held in the save's quest status.
    pub quest_rewards: Vec<DungeonReward>,
    /// Whether a text box is open.
    pub text_box_open: bool,
}

// ============================================================================
// The rules
// ============================================================================

/// The dungeon-info screen is being looked at: its button is held, the pause
/// menu is open on the item select screen and not switching, and rewards are
/// shown.
pub open spec fn spec_info_screen_shown(i: KnowledgeInputs) -> bool {
    let pressed = if i.cfg_dungeon_info_enable == 0 {
        false
    } else if i.cfg_dungeon_info_enable == 1 {
        i.pad_a
    } else {
        i.pad_d_down
    };
    pressed && i.pause_state == 6 && i.pause_screen_idx == 0 && !i.pause_changing
        && i.cfg_dungeon_info_reward_enable
}

/// The dungeon-info screen reveals that `reward` is at `loc`: the altar was
/// read if that is needed, and the dungeon's compass is owned if that is
/// needed.
pub open spec fn spec_reward_revealed(i: KnowledgeInputs, loc: DungeonRewardLocation, reward: DungeonReward) -> bool {
    &&& (i.cfg_dungeon_info_reward_need_altar ==> match reward {
        DungeonReward::Medallion(_) => i.altar_read_medallion_locations,
        DungeonReward::Stone(_) => i.altar_read_stone_locations,
    })
    &&& (i.cfg_dungeon_info_reward_need_compass ==> match loc {
        DungeonRewardLocation::Dungeon(d) => i.compasses@.contains(d),
        DungeonRewardLocation::LinksPocket => true,
    })
}

/// Records the revealed rewards of `pairs`, in order.
pub open spec fn spec_record_revealed(
    m: Map<DungeonReward, DungeonRewardLocation>,
    pairs: Seq<(DungeonRewardLocation, DungeonReward)>,
    i: KnowledgeInputs,
) -> Map<DungeonReward, DungeonRewardLocation>
    decreases pairs.len(),
{
    if pairs.len() == 0 {
        m
    } else {
        let m2 = spec_record_revealed(m, pairs.drop_last(), i);
        let (loc, reward) = pairs.last();
        if spec_reward_revealed(i, loc, reward) {
            m2.insert(reward, loc)
        } else {
            m2
        }
    }
}

/// The knowledge after reading the dungeon-info screen.
pub open spec fn spec_after_info_screen(m: Map<DungeonReward, DungeonRewardLocation>, i: KnowledgeInputs) -> Map<
    DungeonReward,
    DungeonRewardLocation,
> {
    if spec_info_screen_shown(i) {
        spec_record_revealed(m, i.cfg_dungeon_rewards@, i)
    } else {
        m
    }
}

/// The knowledge after reading the open text box: `text` is the knowledge
/// merged with what the text box says, or `None` when the two conflict.
pub open spec fn spec_after_text(
    m: Map<DungeonReward, DungeonRewardLocation>,
    i: KnowledgeInputs,
    text: Option<Map<DungeonReward, DungeonRewardLocation>>,
) -> Map<DungeonReward, DungeonRewardLocation> {
    if i.text_box_open {
        match text {
            Some(t) => t,
            None => m,
        }
    } else {
        m
    }
}

/// The rewards that the save holds.
pub open spec fn spec_owned_rewards(i: KnowledgeInputs) -> Seq<DungeonReward> {
    spec_all_rewards().filter(|r: DungeonReward| i.quest_rewards@.contains(r))
}

/// Dungeon rewards are not shuffled, so when exactly one reward is held it
/// was on Link's Pocket.
pub open spec fn spec_after_pocket(m: Map<DungeonReward, DungeonRewardLocation>, i: KnowledgeInputs) -> Map<
    DungeonReward,
    DungeonRewardLocation,
> {
    if spec_owned_rewards(i).len() == 1 {
        m.insert(spec_owned_rewards(i)[0], DungeonRewardLocation::LinksPocket)
    } else {
        m
    }
}

/// The rewards whose location is not known.
pub open spec fn spec_unplaced_rewards(m: Map<DungeonReward, DungeonRewardLocation>) -> Seq<DungeonReward> {
    spec_all_rewards().filter(|r: DungeonReward| !m.contains_key(r))
}

/// Some reward is known to be at the end of dungeon `d`.
pub open spec fn spec_claimed(m: Map<DungeonReward, DungeonRewardLocation>, d: MainDungeon) -> bool {
    exists|r: DungeonReward| m.contains_key(r) && m[r] == DungeonRewardLocation::Dungeon(d)
}

/// The main dungeons whose reward is not known.
pub open spec fn spec_unclaimed_dungeons(m: Map<DungeonReward, DungeonRewardLocation>) -> Seq<MainDungeon> {
    spec_all_main_dungeons().filter(|d: MainDungeon| !spec_claimed(m, d))
}

/// When exactly one reward is unplaced, exactly one main dungeon is unclaimed.
pub open spec fn spec_elimination_consistent(m: Map<DungeonReward, DungeonRewardLocation>) -> bool {
    spec_unplaced_rewards(m).len() == 1 ==> spec_unclaimed_dungeons(m).len() == 1
}

/// By elimination: when one reward and one dungeon are left, the reward is
/// at the end of that dungeon.
pub open spec fn spec_after_elimination(m: Map<DungeonReward, DungeonRewardLocation>) -> Map<
    DungeonReward,
    DungeonRewardLocation,
> {
    if spec_unplaced_rewards(m).len() == 1 && spec_unclaimed_dungeons(m).len() == 1 {
        m.insert(
            spec_unplaced_rewards(m)[0],
            DungeonRewardLocation::Dungeon(spec_unclaimed_dungeons(m)[0]),
        )
    } else {
        m
    }
}

/// The view of an optional knowledge value.
pub open spec fn spec_opt_knowledge(t: Option<RewardKnowledge>) -> Option<Map<DungeonReward, DungeonRewardLocation>> {
    match t {
        Some(k) => Some(k@),
        None => None,
    }
}

/// The knowledge before the elimination step.
pub open spec fn spec_before_elimination(
    m: Map<DungeonReward, DungeonRewardLocation>,
    i: KnowledgeInputs,
    text: Option<RewardKnowledge>,
) -> Map<DungeonReward, DungeonRewardLocation> {
    spec_after_pocket(spec_after_text(spec_after_info_screen(m, i), i, spec_opt_knowledge(text)), i)
}

/// The knowledge after an update: unchanged outside gameplay; otherwise the
/// dungeon-info screen, the text box, Link's Pocket and elimination rules
/// applied in turn.
pub open spec fn spec_update_knowledge(
    m: Map<DungeonReward, DungeonRewardLocation>,
    i: KnowledgeInputs,
    text: Option<RewardKnowledge>,
) -> Map<DungeonReward, DungeonRewardLocation> {
    if !i.gameplay {
        m
    } else {
        spec_after_elimination(spec_before_elimination(m, i, text))
    }
}

// ============================================================================
// Applying the rules
// ============================================================================

fn contains_dungeon(v: &Vec<MainDungeon>, d: MainDungeon) -> (r: bool)
    ensures
        r == v@.contains(d),
{
    let mut j: usize = 0;
    while j < v.len()
        invariant
            j <= v@.len(),
            forall|x: int| 0 <= x < j ==> v@[x] != d,
        decreases v@.len() - j,
    {
        if v[j] == d {
            assert(v@[j as int] == d);
            return true;
        }
        j = j + 1;
    }
    false
}

fn contains_reward(v: &Vec<DungeonReward>, r: DungeonReward) -> (b: bool)
    ensures
        b == v@.contains(r),
{
    let mut j: usize = 0;
    while j < v.len()
        invariant
            j <= v@.len(),
            forall|x: int| 0 <= x < j ==> v@[x] != r,
        decreases v@.len() - j,
    {
        if v[j] == r {
            assert(v@[j as int] == r);
            return true;
        }
        j = j + 1;
    }
    false
}

/// Whether the dungeon-info screen is being looked at.
pub fn info_screen_shown(i: &KnowledgeInputs) -> (r: bool)
    ensures
        r == spec_info_screen_shown(*i),
{
    let pressed = if i.cfg_dungeon_info_enable == 0 {
        false
    } else if i.cfg_dungeon_info_enable == 1 {
        i.pad_a
    } else {
        i.pad_d_down
    };
    pressed && i.pause_state == 6 && i.pause_screen_idx == 0 && !i.pause_changing
        && i.cfg_dungeon_info_reward_enable
}

/// Whether the dungeon-info screen reveals that `reward` is at `loc`.
pub fn reward_revealed(i: &KnowledgeInputs, loc: DungeonRewardLocation, reward: DungeonReward) -> (r: bool)
    ensures
        r == spec_reward_revealed(*i, loc, reward),
{
    let mut known = true;
    if i.cfg_dungeon_info_reward_need_altar {
        known = known && match reward {
            DungeonReward::Medallion(_) => i.altar_read_medallion_locations,
            DungeonReward::Stone(_) => i.altar_read_stone_locations,
        };
    }
    if i.cfg_dungeon_info_reward_need_compass {
        match loc {
            DungeonRewardLocation::Dungeon(d) => {
                known = known && contains_dungeon(&i.compasses, d);
            },
            DungeonRewardLocation::LinksPocket => {},
        }
    }
    known
}

/// Records what the dungeon-info screen reveals, when it is being looked at.
fn record_info_screen(k: &mut RewardKnowledge, i: &KnowledgeInputs)
    ensures
        final(k)@ == spec_after_info_screen(old(k)@, *i),
{
    if !info_screen_shown(i) {
        return;
    }
    let ghost k0 = k@;
    let pairs = &i.cfg_dungeon_rewards;
    let n = pairs.len();
    let mut j: usize = 0;
    assert(pairs@.take(0) =~= Seq::<(DungeonRewardLocation, DungeonReward)>::empty());
    while j < n
        invariant
            n == pairs@.len(),
            pairs@ == i.cfg_dungeon_rewards@,
            j <= n,
            k@ == spec_record_revealed(k0, pairs@.take(j as int), *i),
        decreases n - j,
    {
        assert(pairs@.take(j + 1).drop_last() =~= pairs@.take(j as int));
        let (loc, reward) = pairs[j];
        if reward_revealed(i, loc, reward) {
            k.insert(reward, loc);
        }
        j = j + 1;
    }
    assert(pairs@.take(n as int) =~= pairs@);
}

/// The rewards that the save holds.
fn owned_rewards(i: &KnowledgeInputs) -> (v: Vec<DungeonReward>)
    ensures
        v@ == spec_owned_rewards(*i),
{
    let all = all_rewards();
    let mut v: Vec<DungeonReward> = Vec::new();
    let mut j: usize = 0;
    while j < all.len()
        invariant
            all@ == spec_all_rewards(),
            j <= all@.len(),
            v@ == all@.take(j as int).filter(|r: DungeonReward| i.quest_rewards@.contains(r)),
        decreases all@.len() - j,
    {
        proof {
            reveal_with_fuel(Seq::filter, 1);
            assert(all@.take(j + 1).drop_last() =~= all@.take(j as int));
        }
        if contains_reward(&i.quest_rewards, all[j]) {
            v.push(all[j]);
        }
        j = j + 1;
    }
    assert(all@.take(all@.len() as int) =~= all@);
    v
}

/// The rewards whose location is not known.
fn unplaced_rewards(k: &RewardKnowledge) -> (v: Vec<DungeonReward>)
    ensures
        v@ == spec_unplaced_rewards(k@),
{
    let all = all_rewards();
    let mut v: Vec<DungeonReward> = Vec::new();
    let mut j: usize = 0;
    while j < all.len()
        invariant
            all@ == spec_all_rewards(),
            j <= all@.len(),
            v@ == all@.take(j as int).filter(|r: DungeonReward| !k@.contains_key(r)),
        decreases all@.len() - j,
    {
        proof {
            reveal_with_fuel(Seq::filter, 1);
            assert(all@.take(j + 1).drop_last() =~= all@.take(j as int));
        }
        if k.get(all[j]).is_none() {
            v.push(all[j]);
        }
        j = j + 1;
    }
    assert(all@.take(all@.len() as int) =~= all@);
    v
}

/// Whether some reward is known to be at the end of dungeon `d`.
fn is_claimed(k: &RewardKnowledge, d: MainDungeon) -> (b: bool)
    ensures
        b == spec_claimed(k@, d),
{
    let all = all_rewards();
    let mut j: usize = 0;
    while j < all.len()
        invariant
            all@ == spec_all_rewards(),
            j <= all@.len(),
            forall|x: int| 0 <= x < j ==> spec_get(*k, #[trigger] all@[x]) != Some(DungeonRewardLocation::Dungeon(d)),
        decreases all@.len() - j,
    {
        match k.get(all[j]) {
            Some(DungeonRewardLocation::Dungeon(e)) => {
                if e == d {
                    assert(k@.contains_key(all@[j as int]));
                    return true;
                }
            },
            _ => {},
        }
        j = j + 1;
    }
    assert forall|r: DungeonReward| !(k@.contains_key(r) && k@[r] == DungeonRewardLocation::Dungeon(d)) by {
        lemma_all_rewards_listed(r);
        let x = choose|x: int| 0 <= x < all@.len() && all@[x] == r;
        assert(spec_get(*k, all@[x]) != Some(DungeonRewardLocation::Dungeon(d)));
    }
    false
}

/// The main dungeons whose reward is not known.
fn unclaimed_dungeons(k: &RewardKnowledge) -> (v: Vec<MainDungeon>)
    ensures
        v@ == spec_unclaimed_dungeons(k@),
{
    let all = all_main_dungeons();
    let mut v: Vec<MainDungeon> = Vec::new();
    let mut j: usize = 0;
    while j < all.len()
        invariant
            all@ == spec_all_main_dungeons(),
            j <= all@.len(),
            v@ == all@.take(j as int).filter(|d: MainDungeon| !spec_claimed(k@, d)),
        decreases all@.len() - j,
    {
        proof {
            reveal_with_fuel(Seq::filter, 1);
            assert(all@.take(j + 1).drop_last() =~= all@.take(j as int));
        }
        if !is_claimed(k, all[j]) {
            v.push(all[j]);
        }
        j = j + 1;
    }
    assert(all@.take(all@.len() as int) =~= all@);
    v
}

/// The knowledge after the dungeon-info screen, text box and Link's Pocket
/// rules (everything but elimination).
pub fn knowledge_before_elimination(k: &RewardKnowledge, i: &KnowledgeInputs, text_knowledge: &Option<RewardKnowledge>) -> (r:
    RewardKnowledge)
    ensures
        r@ == spec_before_elimination(k@, *i, *text_knowledge),
{
    let mut r = *k;
    record_info_screen(&mut r, i);
    if i.text_box_open {
        match text_knowledge {
            Some(t) => {
                r = *t;
            },
            None => {},
        }
    }
    let owned = owned_rewards(i);
    if owned.len() == 1 {
        r.insert(owned[0], DungeonRewardLocation::LinksPocket);
    }
    r
}

/// Whether elimination can be applied consistently: when exactly one reward
/// is unplaced, exactly one main dungeon is unclaimed.
pub fn elimination_is_consistent(k: &RewardKnowledge) -> (b: bool)
    ensures
        b == spec_elimination_consistent(k@),
{
    let unplaced = unplaced_rewards(k);
    if unplaced.len() == 1 {
        unclaimed_dungeons(k).len() == 1
    } else {
        true
    }
}

/// Updates the knowledge of the dungeon reward locations from the game
/// state: outside gameplay nothing changes; otherwise the rewards that the
/// dungeon-info screen reveals are recorded, the knowledge merged with the
/// open text box (`text_knowledge`, `None` when they conflict) is taken, a
/// single held reward is placed on Link's Pocket, and a single unplaced
/// reward is placed in the single unclaimed dungeon.
pub fn update_knowledge(k: &mut RewardKnowledge, input: &KnowledgeInputs, text_knowledge: Option<RewardKnowledge>)
    requires
        input.gameplay ==> spec_elimination_consistent(
            spec_before_elimination(old(k)@, *input, text_knowledge),
        ),
    ensures
        final(k)@ == spec_update_knowledge(old(k)@, *input, text_knowledge),
        !input.gameplay ==> *final(k) == *old(k),
        input.gameplay && spec_owned_rewards(*input).len() == 1 ==> final(k)@.contains_key(
            spec_owned_rewards(*input)[0],
        ) && final(k)@[spec_owned_rewards(*input)[0]] == DungeonRewardLocation::LinksPocket,
        input.gameplay && spec_unplaced_rewards(spec_before_elimination(old(k)@, *input, text_knowledge)).len()
            == 1 ==> final(k)@[spec_unplaced_rewards(
            spec_before_elimination(old(k)@, *input, text_knowledge),
        )[0]] == DungeonRewardLocation::Dungeon(
            spec_unclaimed_dungeons(spec_before_elimination(old(k)@, *input, text_knowledge))[0],
        ),
{
    if !input.gameplay {
        return;
    }
    let before = knowledge_before_elimination(k, input, &text_knowledge);
    *k = before;
    let unplaced = unplaced_rewards(k);
    if unplaced.len() == 1 {
        let unclaimed = unclaimed_dungeons(k);
        if unclaimed.len() == 1 {
            proof {
                spec_all_rewards().lemma_filter_pred(|r: DungeonReward| !before@.contains_key(r), 0);
            }
            k.insert(unplaced[0], DungeonRewardLocation::Dungeon(unclaimed[0]));
        }
    }
}

// ============================================================================
// Laws
// ============================================================================

/// Law: the dungeon-info screen counts as looked at only through its
/// configured button: never with setting 0, with A held for setting 1 and
/// with D-down held for settings 2 and above; in every case the pause menu
/// must be open (state 6) on the item select screen (index 0), not
/// switching, with rewards shown.
pub proof fn lemma_info_screen_button(i: KnowledgeInputs)
    ensures
        i.cfg_dungeon_info_enable == 0 ==> !spec_info_screen_shown(i),
        i.cfg_dungeon_info_enable == 1 ==> (spec_info_screen_shown(i) <==> (i.pad_a && i.pause_state == 6
            && i.pause_screen_idx == 0 && !i.pause_changing && i.cfg_dungeon_info_reward_enable)),
        i.cfg_dungeon_info_enable >= 2 ==> (spec_info_screen_shown(i) <==> (i.pad_d_down && i.pause_state
            == 6 && i.pause_screen_idx == 0 && !i.pause_changing && i.cfg_dungeon_info_reward_enable)),
{
}

/// Law: with the dungeon-info screen disabled (setting 0), no text box open
/// and not exactly one reward held, the rules before elimination learn
/// nothing: the rewards the screen would list are not recorded.
pub proof fn lemma_disabled_screen_records_nothing(
    m: Map<DungeonReward, DungeonRewardLocation>,
    i: KnowledgeInputs,
    text: Option<RewardKnowledge>,
)
    requires
        i.cfg_dungeon_info_enable == 0,
        !i.text_box_open,
        spec_owned_rewards(i).len() != 1,
    ensures
        spec_after_info_screen(m, i) == m,
        spec_before_elimination(m, i, text) == m,
{
}

/// Every listed pair whose reward is not listed again later is recorded at
/// its location, when nothing more is needed to reveal a reward.
proof fn lemma_record_listed(
    m: Map<DungeonReward, DungeonRewardLocation>,
    pairs: Seq<(DungeonRewardLocation, DungeonReward)>,
    i: KnowledgeInputs,
    j: int,
)
    requires
        !i.cfg_dungeon_info_reward_need_altar,
        !i.cfg_dungeon_info_reward_need_compass,
        0 <= j < pairs.len(),
        forall|k: int| j < k < pairs.len() ==> (#[trigger] pairs[k]).1 != pairs[j].1,
    ensures
        spec_record_revealed(m, pairs, i).contains_key(pairs[j].1),
        spec_record_revealed(m, pairs, i)[pairs[j].1] == pairs[j].0,
    decreases pairs.len(),
{
    let rest = pairs.drop_last();
    let last = pairs.last();
    assert(spec_reward_revealed(i, last.0, last.1));
    if j < pairs.len() - 1 {
        assert forall|k: int| j < k < rest.len() implies (#[trigger] rest[k]).1 != rest[j].1 by {
            assert(rest[k] == pairs[k]);
        }
        lemma_record_listed(m, rest, i, j);
        assert(rest[j] == pairs[j]);
        assert(pairs[pairs.len() - 1] == last);
    }
}

/// Law: when the dungeon-info screen is looked at through its button (A for
/// setting 1, D-down for settings 2 and above, with the pause menu open on
/// the item select screen, not switching, rewards shown) and neither the
/// altar nor a compass is needed, every reward the screen lists is recorded
/// at the location listed last for it.
pub proof fn lemma_shown_screen_records_rewards(
    m: Map<DungeonReward, DungeonRewardLocation>,
    i: KnowledgeInputs,
    j: int,
)
    requires
        (i.cfg_dungeon_info_enable == 1 && i.pad_a) || (i.cfg_dungeon_info_enable >= 2 && i.pad_d_down),
        i.pause_state == 6,
        i.pause_screen_idx == 0,
        !i.pause_changing,
        i.cfg_dungeon_info_reward_enable,
        !i.cfg_dungeon_info_reward_need_altar,
        !i.cfg_dungeon_info_reward_need_compass,
        0 <= j < i.cfg_dungeon_rewards@.len(),
        forall|k: int|
            j < k < i.cfg_dungeon_rewards@.len() ==> (#[trigger] i.cfg_dungeon_rewards@[k]).1
                != i.cfg_dungeon_rewards@[j].1,
    ensures
        spec_after_info_screen(m, i).contains_key(i.cfg_dungeon_rewards@[j].1),
        spec_after_info_screen(m, i)[i.cfg_dungeon_rewards@[j].1] == i.cfg_dungeon_rewards@[j].0,
{
    lemma_record_listed(m, i.cfg_dungeon_rewards@, i, j);
}

/// Law: the dungeon-info screen reveals a reward unless a requirement holds
/// it back: when the altar is needed, a medallion needs the altar text on
/// medallion locations and a stone the altar text on stone locations; when
/// compasses are needed, a reward at the end of a dungeon needs that
/// dungeon's compass (a reward on Link's Pocket needs none).
pub proof fn lemma_reward_reveal_requirements(i: KnowledgeInputs, loc: DungeonRewardLocation, reward: DungeonReward)
    ensures
        !i.cfg_dungeon_info_reward_need_altar && !i.cfg_dungeon_info_reward_need_compass ==> spec_reward_revealed(
            i,
            loc,
            reward,
        ),
        i.cfg_dungeon_info_reward_need_altar && reward is Medallion && !i.altar_read_medallion_locations
            ==> !spec_reward_revealed(i, loc, reward),
        i.cfg_dungeon_info_reward_need_altar && reward is Stone && !i.altar_read_stone_locations
            ==> !spec_reward_revealed(i, loc, reward),
        i.cfg_dungeon_info_reward_need_compass && loc is Dungeon && !i.compasses@.contains(loc->0)
            ==> !spec_reward_revealed(i, loc, reward),
        (!i.cfg_dungeon_info_reward_need_altar || (reward is Medallion && i.altar_read_medallion_locations)
            || (reward is Stone && i.altar_read_stone_locations)) && (!i.cfg_dungeon_info_reward_need_compass
            || loc is LinksPocket || (loc is Dungeon && i.compasses@.contains(loc->0)))
            ==> spec_reward_revealed(i, loc, reward),
{
}

/// Law: exactly one held reward is placed on Link's Pocket; otherwise the
/// Link's Pocket rule leaves the knowledge as it is.
pub proof fn lemma_pocket_rule(m: Map<DungeonReward, DungeonRewardLocation>, i: KnowledgeInputs)
    ensures
        spec_owned_rewards(i).len() == 1 ==> spec_after_pocket(m, i) == m.insert(
            spec_owned_rewards(i)[0],
            DungeonRewardLocation::LinksPocket,
        ),
        spec_owned_rewards(i).len() != 1 ==> spec_after_pocket(m, i) == m,
        forall|r: DungeonReward| #[trigger] spec_owned_rewards(i).contains(r) <==> i.quest_rewards@.contains(r),
{
    assert forall|r: DungeonReward| #[trigger] spec_owned_rewards(i).contains(r) <==> i.quest_rewards@.contains(r) by {
        let pred = |x: DungeonReward| i.quest_rewards@.contains(x);
        lemma_all_rewards_listed(r);
        if i.quest_rewards@.contains(r) {
            let k = choose|k: int| 0 <= k < spec_all_rewards().len() && spec_all_rewards()[k] == r;
            spec_all_rewards().lemma_filter_contains(pred, k);
        }
        if spec_owned_rewards(i).contains(r) {
            spec_all_rewards().lemma_filter_contains_rev(pred, r);
        }
    }
}

/// The rewards not placed by `m`, when all but `r` are placed.
proof fn lemma_one_unplaced(m: Map<DungeonReward, DungeonRewardLocation>, r: DungeonReward)
    requires
        !m.contains_key(r),
        forall|x: DungeonReward| x != r ==> #[trigger] m.contains_key(x),
    ensures
        spec_unplaced_rewards(m) == seq![r],
{
    reveal_with_fuel(Seq::filter, 10);
    let all = spec_all_rewards();
    assert(all.drop_last().drop_last().drop_last().drop_last().drop_last().drop_last().drop_last().drop_last()
        .drop_last() =~= Seq::<DungeonReward>::empty());
    assert(spec_unplaced_rewards(m) =~= seq![r]);
}

/// The dungeons left unclaimed by `m`, when all but `d` are claimed.
proof fn lemma_one_unclaimed(m: Map<DungeonReward, DungeonRewardLocation>, d: MainDungeon)
    requires
        !spec_claimed(m, d),
        forall|e: MainDungeon| e != d ==> #[trigger] spec_claimed(m, e),
    ensures
        spec_unclaimed_dungeons(m) == seq![d],
{
    reveal_with_fuel(Seq::filter, 9);
    let all = spec_all_main_dungeons();
    assert(all.drop_last().drop_last().drop_last().drop_last().drop_last().drop_last().drop_last().drop_last()
        =~= Seq::<MainDungeon>::empty());
    assert(spec_unclaimed_dungeons(m) =~= seq![d]);
}

/// Law (elimination): when every reward but `r` has a known location and
/// every main dungeon but `d` is known to hold one of them, `r` is placed at
/// the end of `d` and nothing else changes.
pub proof fn lemma_elimination_places_last_reward(
    m: Map<DungeonReward, DungeonRewardLocation>,
    r: DungeonReward,
    d: MainDungeon,
)
    requires
        !m.contains_key(r),
        forall|x: DungeonReward| x != r ==> #[trigger] m.contains_key(x),
        forall|x: DungeonReward| #[trigger] m.contains_key(x) ==> m[x] != DungeonRewardLocation::Dungeon(d),
        forall|e: MainDungeon| e != d ==> #[trigger] m.values().contains(DungeonRewardLocation::Dungeon(e)),
    ensures
        spec_after_elimination(m) == m.insert(r, DungeonRewardLocation::Dungeon(d)),
{
    lemma_one_unplaced(m, r);
    assert forall|e: MainDungeon| e != d implies #[trigger] spec_claimed(m, e) by {
        assert(m.values().contains(DungeonRewardLocation::Dungeon(e)));
        let x = choose|x: DungeonReward| #[trigger] m.contains_key(x) && m[x] == DungeonRewardLocation::Dungeon(e);
    }
    lemma_one_unclaimed(m, d);
}

/// Law (elimination): while two different rewards have no known location,
/// elimination places nothing.
pub proof fn lemma_elimination_needs_one_reward(
    m: Map<DungeonReward, DungeonRewardLocation>,
    r1: DungeonReward,
    r2: DungeonReward,
)
    requires
        r1 != r2,
        !m.contains_key(r1),
        !m.contains_key(r2),
    ensures
        spec_after_elimination(m) == m,
{
    let pred = |x: DungeonReward| !m.contains_key(x);
    let u = spec_unplaced_rewards(m);
    lemma_all_rewards_listed(r1);
    lemma_all_rewards_listed(r2);
    let i1 = choose|i: int| 0 <= i < spec_all_rewards().len() && spec_all_rewards()[i] == r1;
    let i2 = choose|i: int| 0 <= i < spec_all_rewards().len() && spec_all_rewards()[i] == r2;
    spec_all_rewards().lemma_filter_contains(pred, i1);
    spec_all_rewards().lemma_filter_contains(pred, i2);
    if u.len() == 1 {
        assert(u.contains(r1) && u.contains(r2));
        assert(false);
    }
}

} // verus!
