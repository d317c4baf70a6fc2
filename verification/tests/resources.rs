use mir2_client::ecs::resources::{
    ActiveQuests, FriendList, GroupData, GroupMember, GuildData, TradingState,
};
use mir2_client::shared::{ClientFriend, ClientQuestProgress};

fn friend(index: i32, name: &str) -> ClientFriend {
    ClientFriend {
        index,
        name: name.to_string(),
        memo: String::new(),
        blocked: false,
        online: true,
    }
}

fn quest(index: i32, completed: bool) -> ClientQuestProgress {
    ClientQuestProgress {
        index,
        task_list: vec![format!("task {}", index)],
        taken: true,
        completed,
        new: false,
    }
}

#[test]
fn friend_list_keeps_indices_unique() {
    let mut fl = FriendList::new();
    fl.add_friend(friend(1, "alice"));
    fl.add_friend(friend(2, "bob"));
    fl.add_friend(friend(1, "alice again"));
    assert_eq!(fl.friend_count(), 2);
    assert_eq!(fl.find_friend("bob").unwrap().index, 2);
    assert!(fl.find_friend("alice again").is_none());
    fl.remove_friend(1);
    assert_eq!(fl.friend_count(), 1);
    assert!(fl.find_friend("alice").is_none());
    fl.remove_friend(42);
    assert_eq!(fl.friend_count(), 1);
}

#[test]
fn active_quests_replace_by_index() {
    let mut aq = ActiveQuests::new();
    aq.add_quest(quest(5, false));
    aq.add_quest(quest(6, false));
    aq.add_quest(quest(5, true));
    assert_eq!(aq.quest_count(), 2);
    assert!(aq.find_quest(5).unwrap().completed);
    assert_eq!(aq.quests[0].index, 5);
    aq.remove_quest(5);
    assert_eq!(aq.quest_count(), 1);
    assert!(aq.find_quest(5).is_none());
    assert_eq!(aq.find_quest(6).unwrap().index, 6);
}

#[test]
fn trading_state_resets_windows() {
    let mut t: TradingState<u32> = TradingState::new();
    assert!(!t.is_trading());
    assert_eq!(t.my_items.len(), 10);
    t.start_trade("carol".to_string());
    assert!(t.is_trading());
    t.my_gold = 500;
    t.my_items[3] = Some(9);
    t.confirmed = true;
    t.end_trade();
    assert!(!t.is_trading());
    assert_eq!(t.my_gold, 0);
    assert!(!t.confirmed);
    assert!(t.my_items.iter().all(|s| s.is_none()));
    assert_eq!(t.their_items.len(), 10);
}

#[test]
fn group_and_guild_clear() {
    let mut g = GroupData::new();
    g.members.push(GroupMember {
        name: "dave".to_string(),
        level: 10,
        health_percent: 100,
        mana_percent: 50,
    });
    g.leader = Some("dave".to_string());
    g.in_group = true;
    assert!(g.is_leader("dave"));
    assert!(!g.is_leader("eve"));
    assert_eq!(g.member_count(), 1);
    g.clear();
    assert_eq!(g.member_count(), 0);
    assert!(!g.is_leader("dave"));

    let mut gd = GuildData::new();
    assert_eq!(gd.guild_level, 1);
    gd.guild_name = Some("Knights".to_string());
    gd.in_guild = true;
    gd.guild_level = 3;
    gd.clear();
    assert!(gd.guild_name.is_none());
    assert_eq!(gd.guild_level, 1);
    assert_eq!(gd.member_count(), 0);
}
