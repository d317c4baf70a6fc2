// The game scene's system schedule: which systems run, in priority order, and
// how long they took.
//
// Layer 1 (100-199): input and network
// Layer 2 (200-299): core logic
// Layer 3 (300-399): presentation decisions
// Layer 4 (400-499): render preparation
// Layer 5 (500-599): other systems

pub mod priority;

use vstd::prelude::*;
use crate::ecs::system_table::{ascending, first_position, stats_match, SystemTable, TimedStats};
use crate::time::{max_span_nanos, Duration};

verus! {

/// Execution statistics of one system.
#[derive(Debug)]
pub struct SystemStats {
    pub name: String,
    pub priority: u32,
    pub execution_count: u64,
    pub total_time: Duration,
    pub average_time: Duration,
    pub last_execution: Duration,
}

impl Clone for SystemStats {
    fn clone(&self) -> (r: Self)
        ensures
            r == *self,
    {
        SystemStats {
            name: self.name.clone(),
            priority: self.priority,
            execution_count: self.execution_count,
            total_time: self.total_time,
            average_time: self.average_time,
            last_execution: self.last_execution,
        }
    }
}

impl SystemStats {
    /// The spans are well formed and the total holds every recorded run.
    pub open spec fn wf(self) -> bool {
        &&& self.total_time.wf()
        &&& self.average_time.wf()
        &&& self.last_execution.wf()
    }

    /// Whether one more run of length `d` can be recorded: std's `Duration`
    /// panics when the total overflows, and the average divides by the count
    /// truncated to 32 bits, which must not be zero.
    pub open spec fn can_record(self, d: Duration) -> bool {
        &&& self.execution_count < u64::MAX
        &&& self.total_time@ + d@ <= max_span_nanos()
        &&& (self.execution_count + 1) % 0x1_0000_0000 != 0
    }

    /// The statistics after one more run of length `d`.
    pub open spec fn recorded(self, d: Duration) -> SystemStats {
        SystemStats {
            execution_count: (self.execution_count + 1) as u64,
            total_time: Duration::spec_from_nanos(self.total_time@ + d@),
            last_execution: d,
            average_time: Duration::spec_from_nanos(
                (self.total_time@ + d@) / ((self.execution_count + 1) % 0x1_0000_0000) as nat,
            ),
            ..self
        }
    }

    /// The statistics with every run forgotten.
    pub open spec fn cleared(self) -> SystemStats {
        SystemStats {
            execution_count: 0,
            total_time: Duration::spec_from_nanos(0),
            last_execution: Duration::spec_from_nanos(0),
            average_time: Duration::spec_from_nanos(0),
            ..self
        }
    }

    pub fn new(name: String, priority: u32) -> (s: Self)
        ensures
            s.name == name,
            s.priority == priority,
            s.execution_count == 0,
            s == s.cleared(),
            s.total_time@ == 0,
            s.average_time@ == 0,
            s.last_execution@ == 0,
            s.wf(),
    {
        SystemStats {
            name,
            priority,
            execution_count: 0,
            total_time: Duration::zero(),
            average_time: Duration::zero(),
            last_execution: Duration::zero(),
        }
    }

    /// Records one run: the count and total grow, the average is the total
    /// divided by the count (truncated to 32 bits), rounded down.
    pub fn record_execution(&mut self, duration: Duration)
        requires
            old(self).wf(),
            duration.wf(),
            old(self).can_record(duration),
        ensures
            final(self).wf(),
            *final(self) == old(self).recorded(duration),
            final(self).execution_count == old(self).execution_count + 1,
            final(self).total_time@ == old(self).total_time@ + duration@,
            final(self).average_time@ == (old(self).total_time@ + duration@) / ((
            old(self).execution_count + 1) % 0x1_0000_0000) as nat,
    {
        self.execution_count = self.execution_count + 1;
        self.total_time = self.total_time.plus(&duration);
        self.last_execution = duration;
        let count: u64 = self.execution_count;
        let count32 = count as u32;
        assert(count32 == (count as int) % 0x1_0000_0000) by (bit_vector)
            requires count32 == count as u32;
        self.average_time = self.total_time.divided_by(count32);
    }

    /// Forgets every recorded run.
    pub fn reset(&mut self)
        ensures
            *final(self) == old(self).cleared(),
            final(self).execution_count == 0,
            final(self).total_time@ == 0,
            final(self).average_time@ == 0,
            final(self).last_execution@ == 0,
            final(self).wf(),
    {
        self.execution_count = 0;
        self.total_time = Duration::zero();
        self.average_time = Duration::zero();
        self.last_execution = Duration::zero();
    }
}

impl TimedStats for SystemStats {
    open spec fn stats_name(&self) -> Seq<char> {
        self.name@
    }

    open spec fn stats_priority(&self) -> u32 {
        self.priority
    }

    open spec fn stats_wf(&self) -> bool {
        self.wf()
    }

    open spec fn stats_cleared(&self) -> Self {
        self.cleared()
    }

    fn name_str(&self) -> (r: &str) {
        self.name.as_str()
    }

    fn clear_runs(&mut self) {
        self.reset();
    }

    fn copy_stats(&self) -> (r: Self) {
        self.clone()
    }
}

/// The game scene's systems, in the order they run.
pub open spec fn game_scene_systems() -> Seq<Seq<char>> {
    seq![
        "InputCollectingSystem"@,
        "ClientNetworkSystem"@,
        "LocalPredictionSystem"@,
        "MovementSystemV2"@,
        "ReconciliationSystem"@,
        "InterpolationSystem"@,
        "AnimationStateSystem"@,
        "MonsterAnimationStateSystem"@,
        "NPCActionSystem"@,
        "TileAnimationSystem"@,
        "AnimationPlaybackSystem"@,
        "MovementInterpolationSystem"@,
        "MouseEventSystem"@,
        "MonsterSystem"@,
        "OcclusionSystem"@,
        "CameraSystem"@,
    ]
}

/// The priorities of the game scene's systems, in the same order.
pub open spec fn game_scene_priorities() -> Seq<u32> {
    seq![100u32, 150, 200, 210, 220, 230, 300, 310, 320, 400, 410, 420, 500, 510, 520, 530]
}

/// The schedule of the game scene: an on/off switch and statistics per system.
pub struct GameSceneScheduler {
    table: SystemTable<SystemStats>,
}

impl GameSceneScheduler {
    /// One switch and one statistics entry for each system, in order.
    pub closed spec fn wf(self) -> bool {
        self.table.wf(game_scene_systems(), game_scene_priorities())
    }

    /// Whether the `i`th system runs.
    pub closed spec fn spec_enabled(self, i: int) -> bool {
        self.table.enabled@[i]
    }

    /// The statistics, in system order.
    pub closed spec fn spec_stats(self) -> Seq<SystemStats> {
        self.table.stats@
    }

    /// A well-formed schedule has one switch and one statistics entry per
    /// system, in running order, each entry with the system's name and priority.
    pub proof fn lemma_stats_layout(self)
        requires
            self.wf(),
        ensures
            self.spec_stats().len() == 16,
            forall|i: int| 0 <= i < 16 ==> (#[trigger] self.spec_stats()[i]).name@ == game_scene_systems()[i]
                && self.spec_stats()[i].priority == game_scene_priorities()[i] && self.spec_stats()[i].wf(),
    {
        assert forall|i: int| 0 <= i < 16 implies (#[trigger] self.spec_stats()[i]).name@ == game_scene_systems()[i]
            && self.spec_stats()[i].priority == game_scene_priorities()[i] && self.spec_stats()[i].wf() by {
            assert(self.table.stats@[i].stats_name() == game_scene_systems()[i]);
        }
    }

    /// Looking up the name of the `i`th entry finds that entry and no other:
    /// each entry that `get_all_stats` lists is what `get_stats` gives for its name.
    pub proof fn lemma_lookup_finds_entry(self, i: int)
        requires
            self.wf(),
            0 <= i < 16,
        ensures
            first_position(game_scene_systems(), self.spec_stats()[i].name@, i),
            forall|k: int| first_position(game_scene_systems(), self.spec_stats()[i].name@, k) ==> k == i,
    {
        self.lemma_stats_layout();
        lemma_game_scene_names_distinct();
        lemma_distinct_first_position(game_scene_systems(), i);
    }

    /// Creates the schedule with every system enabled and no runs recorded.
    pub fn new() -> (s: Self)
        ensures
            s.wf(),
            s.spec_stats().len() == 16,
            forall|i: int| 0 <= i < 16 ==> (#[trigger] s.spec_stats()[i]).name@ == game_scene_systems()[i]
                && s.spec_stats()[i].priority == game_scene_priorities()[i],
            forall|i: int| 0 <= i < 16 ==> #[trigger] s.spec_enabled(i),
            forall|i: int| 0 <= i < 16 ==> (#[trigger] s.spec_stats()[i]).execution_count == 0
                && s.spec_stats()[i] == s.spec_stats()[i].cleared(),
    {
        let mut scheduler = GameSceneScheduler { table: SystemTable::all_enabled(16) };
        scheduler.initialize_stats();
        scheduler
    }

    /// Fills in the statistics, one zeroed entry per system.
    fn initialize_stats(&mut self)
        requires
            old(self).table.stats@.len() == 0,
        ensures
            stats_match(final(self).table.stats@, game_scene_systems(), game_scene_priorities()),
            forall|i: int| 0 <= i < 16 ==> (#[trigger] final(self).table.stats@[i]).execution_count == 0
                && final(self).table.stats@[i] == final(self).table.stats@[i].cleared(),
            final(self).table.enabled@ == old(self).table.enabled@,
    {
        let names = [
            "InputCollectingSystem",
            "ClientNetworkSystem",
            "LocalPredictionSystem",
            "MovementSystemV2",
            "ReconciliationSystem",
            "InterpolationSystem",
            "AnimationStateSystem",
            "MonsterAnimationStateSystem",
            "NPCActionSystem",
            "TileAnimationSystem",
            "AnimationPlaybackSystem",
            "MovementInterpolationSystem",
            "MouseEventSystem",
            "MonsterSystem",
            "OcclusionSystem",
            "CameraSystem",
        ];
        let prios = [
            priority::INPUT_COLLECTING,
            priority::CLIENT_NETWORK,
            priority::LOCAL_PREDICTION,
            priority::MOVEMENT_V2,
            priority::RECONCILIATION,
            priority::INTERPOLATION,
            priority::ANIMATION_STATE,
            priority::MONSTER_ANIMATION_STATE,
            priority::NPC_ACTION,
            priority::TILE_ANIMATION,
            priority::ANIMATION_PLAYBACK,
            priority::MOVEMENT_INTERPOLATION,
            priority::MOUSE_EVENT,
            priority::MONSTER,
            priority::OCCLUSION,
            priority::CAMERA,
        ];
        assert(names@.map_values(|s: &str| s@) =~= game_scene_systems());
        assert(prios@ =~= game_scene_priorities());
        let mut i: usize = 0;
        while i < 16
            invariant
                i <= 16,
                names@.map_values(|s: &str| s@) == game_scene_systems(),
                prios@ == game_scene_priorities(),
                self.table.enabled@ == old(self).table.enabled@,
                stats_match(self.table.stats@, game_scene_systems().subrange(0, i as int), game_scene_priorities().subrange(0, i as int)),
                forall|j: int| 0 <= j < i ==> (#[trigger] self.table.stats@[j]).execution_count == 0
                    && self.table.stats@[j] == self.table.stats@[j].cleared(),
            decreases 16 - i,
        {
            assert(names@.map_values(|s: &str| s@)[i as int] == names@[i as int]@);
            self.table.stats.push(SystemStats::new(String::from_str(names[i]), prios[i]));
            i = i + 1;
        }
        assert(game_scene_systems().subrange(0, 16) =~= game_scene_systems());
        assert(game_scene_priorities().subrange(0, 16) =~= game_scene_priorities());
    }

    /// Turns on every system with the given name; unknown names change nothing.
    pub fn enable_system(&mut self, name: &str)
        requires
            old(self).wf(),
        ensures
            final(self).wf(),
            final(self).spec_stats() == old(self).spec_stats(),
            forall|i: int| 0 <= i < 16 ==> #[trigger] final(self).spec_enabled(i) == if game_scene_systems()[i]
                == name@ {
                true
            } else {
                old(self).spec_enabled(i)
            },
    {
        self.table.set_enabled(name, true, Ghost(game_scene_systems()), Ghost(game_scene_priorities()));
    }

    /// Turns off every system with the given name; unknown names change nothing.
    pub fn disable_system(&mut self, name: &str)
        requires
            old(self).wf(),
        ensures
            final(self).wf(),
            final(self).spec_stats() == old(self).spec_stats(),
            forall|i: int| 0 <= i < 16 ==> #[trigger] final(self).spec_enabled(i) == if game_scene_systems()[i]
                == name@ {
                false
            } else {
                old(self).spec_enabled(i)
            },
    {
        self.table.set_enabled(name, false, Ghost(game_scene_systems()), Ghost(game_scene_priorities()));
    }

    /// Whether the system with the given name runs; false for unknown names.
    pub fn is_enabled(&self, name: &str) -> (b: bool)
        requires
            self.wf(),
        ensures
            b == exists|i: int| 0 <= i < 16 && game_scene_systems()[i] == name@ && #[trigger] self.spec_enabled(i),
    {
        let b = self.table.is_enabled(name, Ghost(game_scene_systems()), Ghost(game_scene_priorities()));
        proof {
            if b {
                let i = choose|i: int| 0 <= i < game_scene_systems().len() && game_scene_systems()[i] == name@
                    && #[trigger] self.table.enabled@[i];
                assert(self.spec_enabled(i));
            }
        }
        b
    }

    /// Records a run of the system with the given name; unknown names change nothing.
    pub fn record_execution(&mut self, name: &str, duration: Duration)
        requires
            old(self).wf(),
            duration.wf(),
            forall|k: int| first_position(game_scene_systems(), name@, k)
                ==> (#[trigger] old(self).spec_stats()[k]).can_record(duration),
        ensures
            final(self).wf(),
            forall|i: int| 0 <= i < 16 ==> #[trigger] final(self).spec_enabled(i) == old(self).spec_enabled(i),
            !game_scene_systems().contains(name@) ==> final(self).spec_stats() == old(self).spec_stats(),
            forall|k: int| first_position(game_scene_systems(), name@, k)
                ==> final(self).spec_stats() == old(self).spec_stats().update(k, old(self).spec_stats()[k].recorded(duration)),
    {
        match self.table.position(name, Ghost(game_scene_systems()), Ghost(game_scene_priorities())) {
            Some(k) => {
                assert(old(self).spec_stats()[k as int] == self.table.stats@[k as int]);
                self.table.stats[k].record_execution(duration);
                assert(self.table.stats@ =~= old(self).table.stats@.update(k as int, old(self).table.stats@[k as int].recorded(duration)));
            },
            None => {},
        }
    }

    /// The statistics of the system with the given name.
    pub fn get_stats(&self, name: &str) -> (r: Option<&SystemStats>)
        requires
            self.wf(),
        ensures
            r is None <==> !game_scene_systems().contains(name@),
            r matches Some(s) ==> exists|k: int| first_position(game_scene_systems(), name@, k) && s == self.spec_stats()[k],
    {
        let r = self.table.get_stats(name, Ghost(game_scene_systems()), Ghost(game_scene_priorities()));
        proof {
            if r is Some {
                let k = choose|k: int| first_position(game_scene_systems(), name@, k) && r->0 == self.table.stats@[k];
                assert(self.spec_stats()[k] == self.table.stats@[k]);
            }
        }
        r
    }

    /// Copies of all statistics, sorted by priority.
    pub fn get_all_stats(&self) -> (r: Vec<SystemStats>)
        requires
            self.wf(),
        ensures
            r@ == self.spec_stats(),
            r@.len() == 16,
            forall|i: int| 0 <= i < 16 ==> (#[trigger] r@[i]).name@ == game_scene_systems()[i] && r@[i].priority == game_scene_priorities()[i],
            forall|i: int, j: int| 0 <= i < j < r@.len() ==> r@[i].priority < r@[j].priority,
    {
        proof {
            self.lemma_stats_layout();
        }
        proof {
            lemma_game_scene_priorities_ascending();
        }
        let r = self.table.get_all_stats();
        assert forall|i: int, j: int| 0 <= i < j < r@.len() implies r@[i].priority < r@[j].priority by {
            assert(r@[i].stats_priority() == game_scene_priorities()[i]);
            assert(r@[j].stats_priority() == game_scene_priorities()[j]);
        }
        r
    }

    /// Forgets every recorded run; names, priorities and switches stay.
    pub fn reset_stats(&mut self)
        requires
            old(self).wf(),
        ensures
            final(self).wf(),
            forall|i: int| 0 <= i < 16 ==> #[trigger] final(self).spec_enabled(i) == old(self).spec_enabled(i),
            forall|i: int| 0 <= i < 16 ==> #[trigger] final(self).spec_stats()[i] == old(self).spec_stats()[i].cleared(),
    {
        self.table.reset_stats(Ghost(game_scene_systems()), Ghost(game_scene_priorities()));
    }
}

impl Default for GameSceneScheduler {
    fn default() -> (s: Self)
        ensures
            s.wf(),
            forall|i: int| 0 <= i < 16 ==> #[trigger] s.spec_enabled(i),
    {
        Self::new()
    }
}

/// The game scene's priorities rise strictly in running order.
pub proof fn lemma_game_scene_priorities_ascending()
    ensures
        ascending(game_scene_priorities()),
{
}

/// No two of the game scene's systems share a name.
pub proof fn lemma_game_scene_names_distinct()
    ensures
        game_scene_systems().no_duplicates(),
{
    reveal_strlit("InputCollectingSystem");
    reveal_strlit("ClientNetworkSystem");
    reveal_strlit("LocalPredictionSystem");
    reveal_strlit("MovementSystemV2");
    reveal_strlit("ReconciliationSystem");
    reveal_strlit("InterpolationSystem");
    reveal_strlit("AnimationStateSystem");
    reveal_strlit("MonsterAnimationStateSystem");
    reveal_strlit("NPCActionSystem");
    reveal_strlit("TileAnimationSystem");
    reveal_strlit("AnimationPlaybackSystem");
    reveal_strlit("MovementInterpolationSystem");
    reveal_strlit("MouseEventSystem");
    reveal_strlit("MonsterSystem");
    reveal_strlit("OcclusionSystem");
    reveal_strlit("CameraSystem");
    let names = game_scene_systems();
    assert forall|i: int, j: int| 0 <= i < names.len() && 0 <= j < names.len() && i != j implies names[i]
        != names[j] by {
        if names[i] == names[j] {
            assert(names[i].len() == names[j].len());
            assert(names[i][0] == names[j][0]);
            assert(names[i][names[i].len() - 1] == names[j][names[j].len() - 1]);
            assert(names[i][1] == names[j][1]);
            assert(names[i][2] == names[j][2]);
        }
    }
}

/// In a list of distinct names the `i`th name is first found at `i`, and
/// nowhere else.
pub proof fn lemma_distinct_first_position(names: Seq<Seq<char>>, i: int)
    requires
        names.no_duplicates(),
        0 <= i < names.len(),
    ensures
        first_position(names, names[i], i),
        forall|k: int| first_position(names, names[i], k) ==> k == i,
{
}

} // verus!
