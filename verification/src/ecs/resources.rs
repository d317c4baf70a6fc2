// Global game resources kept outside the ECS world: the current map, group,
// guild, friends, quests, trading and hero.

use vstd::prelude::*;
use crate::shared::{ClientFriend, ClientQuestProgress, GuildMember, MirClass, MirGender};
use crate::text::str_eq;

verus! {

/// The current map.
#[derive(Debug, Clone)]
pub struct CurrentMap {
    pub map_index: i32,
    pub file_name: String,
    pub title: String,
}

impl CurrentMap {
    pub fn new(map_index: i32, file_name: String, title: String) -> (m: Self)
        ensures
            m.map_index == map_index,
            m.file_name == file_name,
            m.title == title,
    {
        CurrentMap { map_index, file_name, title }
    }
}

impl Default for CurrentMap {
    fn default() -> (m: Self)
        ensures
            m.map_index == 0,
            m.file_name@.len() == 0,
            m.title@.len() == 0,
    {
        CurrentMap { map_index: 0, file_name: String::new(), title: String::new() }
    }
}

/// A member of the player's group.
#[derive(Debug, Clone)]
pub struct GroupMember {
    pub name: String,
    pub level: u16,
    /// Health percentage (0-100)
    pub health_percent: u8,
    /// Mana percentage (0-100)
    pub mana_percent: u8,
}

/// The player's group.
#[derive(Debug, Clone)]
pub struct GroupData {
    /// Members
    pub members: Vec<GroupMember>,
    /// Leader's name
    pub leader: Option<String>,
    /// Whether the player is in a group
    pub in_group: bool,
}

impl GroupData {
    pub fn new() -> (g: Self)
        ensures
            g.members@.len() == 0,
            g.leader is None,
            !g.in_group,
    {
        GroupData { members: Vec::new(), leader: None, in_group: false }
    }

    /// Whether `name` is the leader's name.
    pub fn is_leader(&self, name: &str) -> (b: bool)
        ensures
            b == (match self.leader {
                Some(l) => l@ == name@,
                None => false,
            }),
    {
        match &self.leader {
            Some(l) => str_eq(l.as_str(), name),
            None => false,
        }
    }

    pub fn member_count(&self) -> (n: usize)
        ensures
            n == self.members@.len(),
    {
        self.members.len()
    }

    /// Leaves the group.
    pub fn clear(&mut self)
        ensures
            final(self).members@.len() == 0,
            final(self).leader is None,
            !final(self).in_group,
    {
        self.members.clear();
        self.leader = None;
        self.in_group = false;
    }
}

impl Default for GroupData {
    fn default() -> (g: Self)
        ensures
            g.members@.len() == 0,
            g.leader is None,
            !g.in_group,
    {
        Self::new()
    }
}

/// The player's guild.
#[derive(Debug, Clone, Default)]
pub struct GuildData {
    /// Guild name
    pub guild_name: Option<String>,
    /// Members
    pub members: Vec<GuildMember>,
    /// Whether the player is in a guild
    pub in_guild: bool,
    /// Guild level
    pub guild_level: u8,
    /// Guild experience
    pub guild_experience: i64,
}

impl GuildData {
    pub fn new() -> (g: Self)
        ensures
            g.guild_name is None,
            g.members@.len() == 0,
            !g.in_guild,
            g.guild_level == 1,
            g.guild_experience == 0,
    {
        GuildData {
            guild_name: None,
            members: Vec::new(),
            in_guild: false,
            guild_level: 1,
            guild_experience: 0,
        }
    }

    pub fn member_count(&self) -> (n: usize)
        ensures
            n == self.members@.len(),
    {
        self.members.len()
    }

    /// Leaves the guild, back to the state of `new`.
    pub fn clear(&mut self)
        ensures
            final(self).guild_name is None,
            final(self).members@.len() == 0,
            !final(self).in_guild,
            final(self).guild_level == 1,
            final(self).guild_experience == 0,
    {
        self.guild_name = None;
        self.members.clear();
        self.in_guild = false;
        self.guild_level = 1;
        self.guild_experience = 0;
    }
}

/// The indices of a list of friends.
pub open spec fn friend_indices(friends: Seq<ClientFriend>) -> Seq<i32> {
    friends.map_values(|f: ClientFriend| f.index)
}

/// The index of the first entry of `friends[i..]` named `name`, or the length.
pub open spec fn first_friend_named_from(friends: Seq<ClientFriend>, name: Seq<char>, i: int) -> int
    decreases friends.len() - i,
{
    if i >= friends.len() || i < 0 {
        friends.len() as int
    } else if friends[i].name@ == name {
        i
    } else {
        first_friend_named_from(friends, name, i + 1)
    }
}

/// Whether a friend has an index other than `index`.
pub open spec fn without_index(index: i32) -> spec_fn(ClientFriend) -> bool {
    |f: ClientFriend| f.index != index
}

/// The friend list; no index appears twice.
#[derive(Debug, Clone, Default)]
pub struct FriendList {
    pub friends: Vec<ClientFriend>,
}

impl FriendList {
    /// No two friends share an index.
    pub open spec fn wf(self) -> bool {
        friend_indices(self.friends@).no_duplicates()
    }

    pub fn new() -> (l: Self)
        ensures
            l.friends@.len() == 0,
            l.wf(),
    {
        FriendList { friends: Vec::new() }
    }

    /// Adds a friend unless one with the same index is already listed.
    pub fn add_friend(&mut self, friend: ClientFriend)
        ensures
            friend_indices(old(self).friends@).contains(friend.index) ==> final(self).friends@
                == old(self).friends@,
            !friend_indices(old(self).friends@).contains(friend.index) ==> final(self).friends@
                == old(self).friends@.push(friend),
            old(self).wf() ==> final(self).wf(),
    {
        let mut i: usize = 0;
        while i < self.friends.len()
            invariant
                i <= self.friends@.len(),
                self.friends@ == old(self).friends@,
                forall|j: int| 0 <= j < i ==> #[trigger] self.friends@[j].index != friend.index,
            decreases self.friends@.len() - i,
        {
            if self.friends[i].index == friend.index {
                assert(friend_indices(self.friends@)[i as int] == friend.index);
                return;
            }
            i = i + 1;
        }
        assert(!friend_indices(self.friends@).contains(friend.index)) by {
            if friend_indices(self.friends@).contains(friend.index) {
                let k = choose|k: int| 0 <= k < friend_indices(self.friends@).len()
                    && friend_indices(self.friends@)[k] == friend.index;
                assert(self.friends@[k].index == friend.index);
            }
        }
        let ghost before = self.friends@;
        self.friends.push(friend);
        assert(friend_indices(self.friends@) =~= friend_indices(before).push(friend.index));
    }

    /// Removes the friend with the given index, keeping the others in order.
    pub fn remove_friend(&mut self, index: i32)
        ensures
            final(self).friends@ == old(self).friends@.filter(without_index(index)),
            old(self).wf() ==> final(self).wf(),
    {
        let ghost pred = without_index(index);
        let mut kept: Vec<ClientFriend> = Vec::new();
        let mut rest: Vec<ClientFriend> = Vec::new();
        std::mem::swap(&mut rest, &mut self.friends);
        let ghost all = rest@;
        let n = rest.len();
        let mut i: usize = 0;
        while i < n
            invariant
                n == all.len(),
                i <= n,
                rest@.len() == n,
                forall|j: int| i <= j < n ==> #[trigger] rest@[j] == all[j],
                all == old(self).friends@,
                kept@ == all.subrange(0, i as int).filter(pred),
                pred == without_index(index),
            decreases n - i,
        {
            let mut f = ClientFriend {
                index: 0,
                name: String::new(),
                memo: String::new(),
                blocked: false,
                online: false,
            };
            std::mem::swap(&mut f, &mut rest[i]);
            proof {
                assert(all.subrange(0, i as int).push(all[i as int]) =~= all.subrange(0, i + 1));
                all.subrange(0, i as int).lemma_filter_push(all[i as int], pred);
            }
            let keep = f.index != index;

            if keep {
                kept.push(f);
            }
            i = i + 1;
        }
        proof {
            assert(all.subrange(0, all.len() as int) =~= all);
            if old(self).wf() {
                lemma_filter_keeps_indices_distinct(all, pred);
            }
        }
        self.friends = kept;
    }

    /// The first friend with the given name.
    pub fn find_friend(&self, name: &str) -> (r: Option<&ClientFriend>)
        ensures
            first_friend_named_from(self.friends@, name@, 0) < self.friends@.len() ==> r == Some(
                &self.friends@[first_friend_named_from(self.friends@, name@, 0)],
            ),
            first_friend_named_from(self.friends@, name@, 0) >= self.friends@.len() ==> r is None,
    {
        let mut i: usize = 0;
        while i < self.friends.len()
            invariant
                i <= self.friends@.len(),
                first_friend_named_from(self.friends@, name@, 0) == first_friend_named_from(
                    self.friends@,
                    name@,
                    i as int,
                ),
            decreases self.friends@.len() - i,
        {
            if str_eq(self.friends[i].name.as_str(), name) {
                return Some(&self.friends[i]);
            }
            i = i + 1;
        }
        None
    }

    pub fn friend_count(&self) -> (n: usize)
        ensures
            n == self.friends@.len(),
    {
        self.friends.len()
    }
}


/// The index of the first quest of `quests[i..]` with quest index `index`, or the length.
pub open spec fn first_quest_from(quests: Seq<ClientQuestProgress>, index: i32, i: int) -> int
    decreases quests.len() - i,
{
    if i >= quests.len() || i < 0 {
        quests.len() as int
    } else if quests[i].index == index {
        i
    } else {
        first_quest_from(quests, index, i + 1)
    }
}

/// Whether a quest has an index other than `index`.
pub open spec fn other_quest(index: i32) -> spec_fn(ClientQuestProgress) -> bool {
    |q: ClientQuestProgress| q.index != index
}

/// The quests in progress.
#[derive(Debug, Clone, Default)]
pub struct ActiveQuests {
    pub quests: Vec<ClientQuestProgress>,
}

impl ActiveQuests {
    pub fn new() -> (a: Self)
        ensures
            a.quests@.len() == 0,
    {
        ActiveQuests { quests: Vec::new() }
    }

    /// Adds a quest, or replaces the first quest with the same index.
    pub fn add_quest(&mut self, quest: ClientQuestProgress)
        ensures
            ({
                let k = first_quest_from(old(self).quests@, quest.index, 0);
                if k < old(self).quests@.len() {
                    final(self).quests@ == old(self).quests@.update(k, quest)
                } else {
                    final(self).quests@ == old(self).quests@.push(quest)
                }
            }),
    {
        let mut i: usize = 0;
        while i < self.quests.len()
            invariant
                i <= self.quests@.len(),
                self.quests@ == old(self).quests@,
                first_quest_from(old(self).quests@, quest.index, 0) == first_quest_from(
                    old(self).quests@,
                    quest.index,
                    i as int,
                ),
            decreases self.quests@.len() - i,
        {
            if self.quests[i].index == quest.index {
                self.quests.set(i, quest);
                return;
            }
            i = i + 1;
        }
        self.quests.push(quest);
    }

    /// Removes every quest with the given index, keeping the others in order.
    pub fn remove_quest(&mut self, index: i32)
        ensures
            final(self).quests@ == old(self).quests@.filter(other_quest(index)),
    {
        let ghost pred = other_quest(index);
        let mut kept: Vec<ClientQuestProgress> = Vec::new();
        let mut rest: Vec<ClientQuestProgress> = Vec::new();
        std::mem::swap(&mut rest, &mut self.quests);
        let ghost all = rest@;
        let n = rest.len();
        let mut i: usize = 0;
        while i < n
            invariant
                n == all.len(),
                i <= n,
                rest@.len() == n,
                forall|j: int| i <= j < n ==> #[trigger] rest@[j] == all[j],
                all == old(self).quests@,
                kept@ == all.subrange(0, i as int).filter(pred),
                pred == other_quest(index),
            decreases n - i,
        {
            let mut q = ClientQuestProgress {
                index: 0,
                task_list: Vec::new(),
                taken: false,
                completed: false,
                new: false,
            };
            std::mem::swap(&mut q, &mut rest[i]);
            proof {
                assert(all.subrange(0, i as int).push(all[i as int]) =~= all.subrange(0, i + 1));
                all.subrange(0, i as int).lemma_filter_push(all[i as int], pred);
            }
            if q.index != index {
                kept.push(q);
            }
            i = i + 1;
        }
        proof {
            assert(all.subrange(0, all.len() as int) =~= all);
        }
        self.quests = kept;
    }

    /// The first quest with the given index.
    pub fn find_quest(&self, index: i32) -> (r: Option<&ClientQuestProgress>)
        ensures
            first_quest_from(self.quests@, index, 0) < self.quests@.len() ==> r == Some(
                &self.quests@[first_quest_from(self.quests@, index, 0)],
            ),
            first_quest_from(self.quests@, index, 0) >= self.quests@.len() ==> r is None,
    {
        let mut i: usize = 0;
        while i < self.quests.len()
            invariant
                i <= self.quests@.len(),
                first_quest_from(self.quests@, index, 0) == first_quest_from(
                    self.quests@,
                    index,
                    i as int,
                ),
            decreases self.quests@.len() - i,
        {
            if self.quests[i].index == index {
                return Some(&self.quests[i]);
            }
            i = i + 1;
        }
        None
    }

    pub fn quest_count(&self) -> (n: usize)
        ensures
            n == self.quests@.len(),
    {
        self.quests.len()
    }
}

/// Ten empty trade slots.
pub open spec fn empty_trade_slots<I>(items: Seq<Option<I>>) -> bool {
    &&& items.len() == 10
    &&& forall|i: int| 0 <= i < 10 ==> #[trigger] items[i] is None
}

fn empty_slots<I>() -> (v: Vec<Option<I>>)
    ensures
        empty_trade_slots(v@),
{
    let mut v: Vec<Option<I>> = Vec::new();
    let mut n: usize = 0;
    while n < 10
        invariant
            n <= 10,
            v@.len() == n,
            forall|i: int| 0 <= i < n ==> #[trigger] v@[i] is None,
        decreases 10 - n,
    {
        v.push(None);
        n = n + 1;
    }
    v
}

/// A trade with another player; `I` is the item record.
#[derive(Debug, Clone)]
pub struct TradingState<I> {
    /// Name of the other player
    pub trading_with: Option<String>,
    /// Whether this side confirmed
    pub confirmed: bool,
    /// Items offered by this side
    pub my_items: Vec<Option<I>>,
    /// Items offered by the other side
    pub their_items: Vec<Option<I>>,
    /// Gold offered by this side
    pub my_gold: u32,
    /// Gold offered by the other side
    pub their_gold: u32,
}

impl<I> TradingState<I> {
    /// No trade, no confirmation, empty windows.
    pub open spec fn is_reset(self) -> bool {
        &&& !self.confirmed
        &&& empty_trade_slots(self.my_items@)
        &&& empty_trade_slots(self.their_items@)
        &&& self.my_gold == 0
        &&& self.their_gold == 0
    }

    pub fn new() -> (t: Self)
        ensures
            t.trading_with is None,
            t.is_reset(),
    {
        TradingState {
            trading_with: None,
            confirmed: false,
            my_items: empty_slots(),
            their_items: empty_slots(),
            my_gold: 0,
            their_gold: 0,
        }
    }

    pub fn is_trading(&self) -> (b: bool)
        ensures
            b == self.trading_with is Some,
    {
        self.trading_with.is_some()
    }

    /// Starts a trade with a player, with empty windows.
    pub fn start_trade(&mut self, player_name: String)
        ensures
            final(self).trading_with == Some(player_name),
            final(self).is_reset(),
    {
        self.trading_with = Some(player_name);
        self.confirmed = false;
        self.clear_items();
    }

    /// Ends the trade, emptying the windows.
    pub fn end_trade(&mut self)
        ensures
            final(self).trading_with is None,
            final(self).is_reset(),
    {
        self.trading_with = None;
        self.confirmed = false;
        self.clear_items();
    }

    fn clear_items(&mut self)
        ensures
            final(self).trading_with == old(self).trading_with,
            final(self).confirmed == old(self).confirmed,
            empty_trade_slots(final(self).my_items@),
            empty_trade_slots(final(self).their_items@),
            final(self).my_gold == 0,
            final(self).their_gold == 0,
    {
        self.my_items = empty_slots();
        self.their_items = empty_slots();
        self.my_gold = 0;
        self.their_gold = 0;
    }
}

impl<I> Default for TradingState<I> {
    fn default() -> (t: Self)
        ensures
            t.trading_with is None,
            t.is_reset(),
    {
        Self::new()
    }
}

/// The player's hero.
#[derive(Debug, Clone)]
pub struct HeroData {
    pub object_id: u32,
    pub name: String,
    pub level: u16,
    pub class: MirClass,
    pub gender: MirGender,
}

impl HeroData {
    pub fn new(object_id: u32, name: String, level: u16, class: MirClass, gender: MirGender) -> (h: Self)
        ensures
            h.object_id == object_id,
            h.name == name,
            h.level == level,
            h.class == class,
            h.gender == gender,
    {
        HeroData { object_id, name, level, class, gender }
    }
}

/// Filtering a friend list whose indices are distinct leaves them distinct.
pub proof fn lemma_filter_keeps_indices_distinct(s: Seq<ClientFriend>, pred: spec_fn(ClientFriend) -> bool)
    requires
        friend_indices(s).no_duplicates(),
    ensures
        friend_indices(s.filter(pred)).no_duplicates(),
    decreases s.len(),
{
    if s.len() > 0 {
        let t = s.drop_last();
        let last = s.last();
        assert(s =~= t.push(last));
        assert(friend_indices(t) =~= friend_indices(s).drop_last());
        lemma_filter_keeps_indices_distinct(t, pred);
        t.lemma_filter_push(last, pred);
        if pred(last) {
            let ft = t.filter(pred);
            assert(friend_indices(ft.push(last)) =~= friend_indices(ft).push(last.index));
            assert forall|k: int| 0 <= k < ft.len() implies #[trigger] ft[k].index != last.index by {
                t.lemma_filter_contains_rev(pred, ft[k]);
                let m = choose|m: int| 0 <= m < t.len() && t[m] == ft[k];
                assert(friend_indices(s)[m] == ft[k].index);
                assert(friend_indices(s)[s.len() - 1] == last.index);
            }
            assert(!friend_indices(ft).contains(last.index)) by {
                if friend_indices(ft).contains(last.index) {
                    let k = choose|k: int| 0 <= k < friend_indices(ft).len() && friend_indices(ft)[k]
                        == last.index;
                    assert(ft[k].index == last.index);
                }
            }
        }
    }
}

/// Filtering out an index that no friend has keeps every friend, in order.
proof fn lemma_filter_absent_index(s: Seq<ClientFriend>, index: i32)
    requires
        !friend_indices(s).contains(index),
    ensures
        s.filter(without_index(index)) == s,
    decreases s.len(),
{
    if s.len() > 0 {
        let t = s.drop_last();
        let last = s.last();
        assert(s =~= t.push(last));
        assert(friend_indices(t) =~= friend_indices(s).drop_last());
        assert(friend_indices(s)[s.len() - 1] == last.index);
        assert(!friend_indices(t).contains(index)) by {
            if friend_indices(t).contains(index) {
                let k = choose|k: int| 0 <= k < friend_indices(t).len() && friend_indices(t)[k] == index;
                assert(friend_indices(s)[k] == index);
            }
        }
        lemma_filter_absent_index(t, index);
        t.lemma_filter_push(last, without_index(index));
    } else {
        assert(s.filter(without_index(index)) =~= s);
    }
}

/// Removing a friend just added under a new index leaves the list as it was
/// before the friend was added.
pub proof fn lemma_remove_undoes_add_friend(friends: Seq<ClientFriend>, friend: ClientFriend)
    requires
        !friend_indices(friends).contains(friend.index),
    ensures
        friends.push(friend).filter(without_index(friend.index)) == friends,
{
    lemma_filter_absent_index(friends, friend.index);
    friends.lemma_filter_push(friend, without_index(friend.index));
}

/// Filtering out an index that no quest has keeps every quest, in order.
proof fn lemma_filter_absent_quest(s: Seq<ClientQuestProgress>, index: i32)
    requires
        forall|j: int| 0 <= j < s.len() ==> #[trigger] s[j].index != index,
    ensures
        s.filter(other_quest(index)) == s,
    decreases s.len(),
{
    if s.len() > 0 {
        let t = s.drop_last();
        let last = s.last();
        assert(s =~= t.push(last));
        assert forall|j: int| 0 <= j < t.len() implies #[trigger] t[j].index != index by {
            assert(t[j] == s[j]);
        }
        lemma_filter_absent_quest(t, index);
        t.lemma_filter_push(last, other_quest(index));
    } else {
        assert(s.filter(other_quest(index)) =~= s);
    }
}

/// When `first_quest_from` finds nothing from `i` on, no quest from `i` on has the index.
proof fn lemma_no_quest_found(s: Seq<ClientQuestProgress>, index: i32, i: int)
    requires
        0 <= i,
        first_quest_from(s, index, i) >= s.len(),
    ensures
        forall|j: int| i <= j < s.len() ==> #[trigger] s[j].index != index,
    decreases s.len() - i,
{
    if i < s.len() {
        lemma_no_quest_found(s, index, i + 1);
    }
}

/// Removing a quest just added under a new index leaves the quests as they
/// were before it was added.
pub proof fn lemma_remove_undoes_add_quest(quests: Seq<ClientQuestProgress>, quest: ClientQuestProgress)
    requires
        first_quest_from(quests, quest.index, 0) >= quests.len(),
    ensures
        quests.push(quest).filter(other_quest(quest.index)) == quests,
{
    lemma_no_quest_found(quests, quest.index, 0);
    lemma_filter_absent_quest(quests, quest.index);
    quests.lemma_filter_push(quest, other_quest(quest.index));
}

} // verus!
