//! Tests of dungeon reward knowledge inference.

use oottracker::flag_mapping::mq::MainDungeon;
use oottracker::knowledge::{
    elimination_is_consistent, info_screen_shown, knowledge_before_elimination, reward_revealed,
    update_knowledge, DungeonReward, DungeonRewardLocation, KnowledgeInputs, Medallion,
    RewardKnowledge, Stone,
};

fn inputs() -> KnowledgeInputs {
    KnowledgeInputs {
        gameplay: true,
        cfg_dungeon_info_enable: 1,
        pad_a: false,
        pad_d_down: false,
        pause_state: 0,
        pause_screen_idx: 0,
        pause_changing: false,
        cfg_dungeon_info_reward_enable: true,
        cfg_dungeon_info_reward_need_altar: false,
        cfg_dungeon_info_reward_need_compass: false,
        cfg_dungeon_rewards: vec![
            (DungeonRewardLocation::Dungeon(MainDungeon::DekuTree), DungeonReward::Stone(Stone::KokiriEmerald)),
            (DungeonRewardLocation::Dungeon(MainDungeon::ForestTemple), DungeonReward::Medallion(Medallion::Forest)),
        ],
        altar_read_medallion_locations: false,
        altar_read_stone_locations: false,
        compasses: vec![],
        quest_rewards: vec![],
        text_box_open: false,
    }
}

const EMERALD: DungeonReward = DungeonReward::Stone(Stone::KokiriEmerald);
const FOREST: DungeonReward = DungeonReward::Medallion(Medallion::Forest);

#[test]
fn nothing_changes_outside_gameplay() {
    let mut i = inputs();
    i.gameplay = false;
    i.quest_rewards = vec![EMERALD];
    let mut k = RewardKnowledge::default();
    update_knowledge(&mut k, &i, None);
    assert_eq!(k, RewardKnowledge::default());
}

#[test]
fn single_reward_is_links_pocket() {
    let mut i = inputs();
    i.quest_rewards = vec![EMERALD];
    let mut k = RewardKnowledge::default();
    update_knowledge(&mut k, &i, None);
    assert_eq!(k.get(EMERALD), Some(DungeonRewardLocation::LinksPocket));
    assert_eq!(k.get(FOREST), None);

    // two rewards held: nothing is inferred
    i.quest_rewards = vec![EMERALD, FOREST];
    let mut k = RewardKnowledge::default();
    update_knowledge(&mut k, &i, None);
    assert_eq!(k, RewardKnowledge::default());
}

#[test]
fn info_screen_reveals_rewards() {
    let mut i = inputs();
    assert!(!info_screen_shown(&i));
    i.pad_a = true;
    i.pause_state = 6;
    assert!(info_screen_shown(&i));
    let mut k = RewardKnowledge::default();
    update_knowledge(&mut k, &i, None);
    assert_eq!(k.get(EMERALD), Some(DungeonRewardLocation::Dungeon(MainDungeon::DekuTree)));
    assert_eq!(k.get(FOREST), Some(DungeonRewardLocation::Dungeon(MainDungeon::ForestTemple)));

    // the D-down setting ignores A
    i.cfg_dungeon_info_enable = 2;
    assert!(!info_screen_shown(&i));
    i.pad_d_down = true;
    assert!(info_screen_shown(&i));
    i.pause_changing = true;
    assert!(!info_screen_shown(&i));
}

#[test]
fn info_screen_needs_altar_and_compass_when_configured() {
    let mut i = inputs();
    i.cfg_dungeon_info_reward_need_altar = true;
    i.cfg_dungeon_info_reward_need_compass = true;
    let deku = DungeonRewardLocation::Dungeon(MainDungeon::DekuTree);
    assert!(!reward_revealed(&i, deku, EMERALD));
    i.altar_read_stone_locations = true;
    assert!(!reward_revealed(&i, deku, EMERALD));
    i.compasses = vec![MainDungeon::DekuTree];
    assert!(reward_revealed(&i, deku, EMERALD));
    assert!(!reward_revealed(&i, deku, FOREST));
    assert!(reward_revealed(&i, DungeonRewardLocation::LinksPocket, EMERALD));
}

#[test]
fn text_box_knowledge_is_taken() {
    let mut i = inputs();
    let mut text = RewardKnowledge::default();
    text.insert(FOREST, DungeonRewardLocation::Dungeon(MainDungeon::WaterTemple));
    let mut k = RewardKnowledge::default();
    update_knowledge(&mut k, &i, Some(text));
    assert_eq!(k, RewardKnowledge::default());
    i.text_box_open = true;
    update_knowledge(&mut k, &i, Some(text));
    assert_eq!(k.get(FOREST), Some(DungeonRewardLocation::Dungeon(MainDungeon::WaterTemple)));
    // a conflicting text box changes nothing
    update_knowledge(&mut k, &i, None);
    assert_eq!(k.get(FOREST), Some(DungeonRewardLocation::Dungeon(MainDungeon::WaterTemple)));
}

#[test]
fn last_reward_by_elimination() {
    let dungeons = [
        MainDungeon::DekuTree,
        MainDungeon::DodongosCavern,
        MainDungeon::JabuJabu,
        MainDungeon::ForestTemple,
        MainDungeon::FireTemple,
        MainDungeon::WaterTemple,
        MainDungeon::ShadowTemple,
    ];
    let rewards = [
        DungeonReward::Stone(Stone::KokiriEmerald),
        DungeonReward::Stone(Stone::GoronRuby),
        DungeonReward::Stone(Stone::ZoraSapphire),
        DungeonReward::Medallion(Medallion::Forest),
        DungeonReward::Medallion(Medallion::Fire),
        DungeonReward::Medallion(Medallion::Water),
        DungeonReward::Medallion(Medallion::Shadow),
    ];
    let mut k = RewardKnowledge::default();
    for (r, d) in rewards.iter().zip(dungeons.iter()) {
        k.insert(*r, DungeonRewardLocation::Dungeon(*d));
    }
    k.insert(DungeonReward::Medallion(Medallion::Light), DungeonRewardLocation::LinksPocket);
    let i = inputs();
    let before = knowledge_before_elimination(&k, &i, &None);
    assert!(elimination_is_consistent(&before));
    update_knowledge(&mut k, &i, None);
    assert_eq!(
        k.get(DungeonReward::Medallion(Medallion::Spirit)),
        Some(DungeonRewardLocation::Dungeon(MainDungeon::SpiritTemple))
    );
}

#[test]
fn elimination_consistency() {
    // one reward left but every dungeon claimed: inconsistent
    let mut k = RewardKnowledge::default();
    let all_but_spirit = [
        DungeonReward::Stone(Stone::KokiriEmerald),
        DungeonReward::Stone(Stone::GoronRuby),
        DungeonReward::Stone(Stone::ZoraSapphire),
        DungeonReward::Medallion(Medallion::Forest),
        DungeonReward::Medallion(Medallion::Fire),
        DungeonReward::Medallion(Medallion::Water),
        DungeonReward::Medallion(Medallion::Shadow),
        DungeonReward::Medallion(Medallion::Light),
    ];
    let dungeons = [
        MainDungeon::DekuTree,
        MainDungeon::DodongosCavern,
        MainDungeon::JabuJabu,
        MainDungeon::ForestTemple,
        MainDungeon::FireTemple,
        MainDungeon::WaterTemple,
        MainDungeon::ShadowTemple,
        MainDungeon::SpiritTemple,
    ];
    for (r, d) in all_but_spirit.iter().zip(dungeons.iter()) {
        k.insert(*r, DungeonRewardLocation::Dungeon(*d));
    }
    assert!(!elimination_is_consistent(&k));
    assert!(elimination_is_consistent(&RewardKnowledge::default()));
}
