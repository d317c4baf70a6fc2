// The map viewer's system schedule: a short serial schedule with the same
// switches and statistics as the game scene's.
//
// Layer 1 (100-199): input
// Layer 2 (200-299): core logic
// Layer 3 (300-399): presentation
// Layer 5 (500-599): other systems

pub mod priority;

use vstd::prelude::*;
use crate::ecs::system_table::{ascending, first_position, SystemTable, TimedStats};
use crate::time::Duration;
use crate::ecs::game_scene_scheduler::lemma_distinct_first_position;

pub use crate::ecs::game_scene_scheduler::SystemStats;

verus! {

/// The map viewer's systems, in the order they run.
pub open spec fn map_viewer_systems() -> Seq<Seq<char>> {
    seq![
        "InputCollectingSystem"@,
        "LocalPredictionSystem"@,
        "MovementSystemV2"@,
        "PlayerAnimationSystem"@,
        "CameraSystem"@,
    ]
}

/// The priorities of the map viewer's systems, in the same order.
pub open spec fn map_viewer_priorities() -> Seq<u32> {
    seq![100u32, 200, 210, 300, 530]
}

/// The schedule of the map viewer: an on/off switch and statistics per system.
pub struct MapViewerScheduler {
    table: SystemTable<SystemStats>,
}

impl MapViewerScheduler {
    /// One switch and one statistics entry for each system, in order.
    pub closed spec fn wf(self) -> bool {
        self.table.wf(map_viewer_systems(), map_viewer_priorities())
    }

    /// Whether the `i`th system runs.
    pub closed spec fn spec_enabled(self, i: int) -> bool {
        self.table.enabled@[i]
    }

    /// The statistics, in system order.
    pub closed spec fn spec_stats(self) -> Seq<SystemStats> {
        self.table.stats@
    }

    /// A well-formed schedule has one switch and one statistics entry per
    /// system, in running order, each entry with the system's name and priority.
    pub proof fn lemma_stats_layout(self)
        requires
            self.wf(),
        ensures
            self.spec_stats().len() == 5,
            forall|i: int| 0 <= i < 5 ==> (#[trigger] self.spec_stats()[i]).name@ == map_viewer_systems()[i]
                && self.spec_stats()[i].priority == map_viewer_priorities()[i] && self.spec_stats()[i].wf(),
    {
        assert forall|i: int| 0 <= i < 5 implies (#[trigger] self.spec_stats()[i]).name@ == map_viewer_systems()[i]
            && self.spec_stats()[i].priority == map_viewer_priorities()[i] && self.spec_stats()[i].wf() by {
            assert(self.table.stats@[i].stats_name() == map_viewer_systems()[i]);
        }
    }

    /// Looking up the name of the `i`th entry finds that entry and no other:
    /// each entry that `get_all_stats` lists is what `get_stats` gives for its name.
    pub proof fn lemma_lookup_finds_entry(self, i: int)
        requires
            self.wf(),
            0 <= i < 5,
        ensures
            first_position(map_viewer_systems(), self.spec_stats()[i].name@, i),
            forall|k: int| first_position(map_viewer_systems(), self.spec_stats()[i].name@, k) ==> k == i,
    {
        self.lemma_stats_layout();
        lemma_map_viewer_names_distinct();
        lemma_distinct_first_position(map_viewer_systems(), i);
    }

    /// Creates the schedule with every system enabled and no runs recorded.
    pub fn new() -> (s: Self)
        ensures
            s.wf(),
            s.spec_stats().len() == 5,
            forall|i: int| 0 <= i < 5 ==> (#[trigger] s.spec_stats()[i]).name@ == map_viewer_systems()[i]
                && s.spec_stats()[i].priority == map_viewer_priorities()[i],
            forall|i: int| 0 <= i < 5 ==> #[trigger] s.spec_enabled(i),
            forall|i: int| 0 <= i < 5 ==> (#[trigger] s.spec_stats()[i]).execution_count == 0
                && s.spec_stats()[i] == s.spec_stats()[i].cleared(),
    {
        let mut scheduler = MapViewerScheduler { table: SystemTable::all_enabled(5) };
        scheduler.initialize_stats();
        scheduler
    }

    /// Fills in the statistics, one zeroed entry per system.
    fn initialize_stats(&mut self)
        requires
            old(self).table.stats@.len() == 0,
        ensures
            final(self).table.stats@.len() == 5,
            forall|i: int| 0 <= i < 5 ==> (#[trigger] final(self).table.stats@[i]).name@ == map_viewer_systems()[i]
                && final(self).table.stats@[i].priority == map_viewer_priorities()[i]
                && final(self).table.stats@[i].wf()
                && final(self).table.stats@[i].execution_count == 0
                && final(self).table.stats@[i] == final(self).table.stats@[i].cleared(),
            final(self).table.enabled@ == old(self).table.enabled@,
    {
        let names = [
            "InputCollectingSystem",
            "LocalPredictionSystem",
            "MovementSystemV2",
            "PlayerAnimationSystem",
            "CameraSystem",
        ];
        let prios = [
            priority::INPUT_COLLECTING,
            priority::LOCAL_PREDICTION,
            priority::MOVEMENT_V2,
            priority::PLAYER_ANIMATION,
            priority::CAMERA,
        ];
        assert(names@.map_values(|s: &str| s@) =~= map_viewer_systems());
        assert(prios@ =~= map_viewer_priorities());
        let mut i: usize = 0;
        while i < 5
            invariant
                i <= 5,
                names@.map_values(|s: &str| s@) == map_viewer_systems(),
                prios@ == map_viewer_priorities(),
                self.table.enabled@ == old(self).table.enabled@,
                self.table.stats@.len() == i,
                forall|j: int| 0 <= j < i ==> (#[trigger] self.table.stats@[j]).name@ == map_viewer_systems()[j]
                    && self.table.stats@[j].priority == map_viewer_priorities()[j]
                    && self.table.stats@[j].wf()
                    && self.table.stats@[j].execution_count == 0
                    && self.table.stats@[j] == self.table.stats@[j].cleared(),
            decreases 5 - i,
        {
            assert(names@.map_values(|s: &str| s@)[i as int] == names@[i as int]@);
            self.table.stats.push(SystemStats::new(String::from_str(names[i]), prios[i]));
            i = i + 1;
        }
    }

    /// Turns on every system with the given name; unknown names change nothing.
    pub fn enable_system(&mut self, name: &str)
        requires
            old(self).wf(),
        ensures
            final(self).wf(),
            final(self).spec_stats() == old(self).spec_stats(),
            forall|i: int| 0 <= i < 5 ==> #[trigger] final(self).spec_enabled(i) == if map_viewer_systems()[i]
                == name@ {
                true
            } else {
                old(self).spec_enabled(i)
            },
    {
        self.table.set_enabled(name, true, Ghost(map_viewer_systems()), Ghost(map_viewer_priorities()));
    }

    /// Turns off every system with the given name; unknown names change nothing.
    pub fn disable_system(&mut self, name: &str)
        requires
            old(self).wf(),
        ensures
            final(self).wf(),
            final(self).spec_stats() == old(self).spec_stats(),
            forall|i: int| 0 <= i < 5 ==> #[trigger] final(self).spec_enabled(i) == if map_viewer_systems()[i]
                == name@ {
                false
            } else {
                old(self).spec_enabled(i)
            },
    {
        self.table.set_enabled(name, false, Ghost(map_viewer_systems()), Ghost(map_viewer_priorities()));
    }

    /// Whether the system with the given name runs; false for unknown names.
    pub fn is_enabled(&self, name: &str) -> (b: bool)
        requires
            self.wf(),
        ensures
            b == exists|i: int| 0 <= i < 5 && map_viewer_systems()[i] == name@ && #[trigger] self.spec_enabled(i),
    {
        let b = self.table.is_enabled(name, Ghost(map_viewer_systems()), Ghost(map_viewer_priorities()));
        proof {
            if b {
                let i = choose|i: int| 0 <= i < map_viewer_systems().len() && map_viewer_systems()[i] == name@
                    && #[trigger] self.table.enabled@[i];
                assert(self.spec_enabled(i));
            }
        }
        b
    }

    /// Records a run of the system with the given name; unknown names change nothing.
    pub fn record_execution(&mut self, name: &str, duration: Duration)
        requires
            old(self).wf(),
            duration.wf(),
            forall|k: int| first_position(map_viewer_systems(), name@, k)
                ==> (#[trigger] old(self).spec_stats()[k]).can_record(duration),
        ensures
            final(self).wf(),
            forall|i: int| 0 <= i < 5 ==> #[trigger] final(self).spec_enabled(i) == old(self).spec_enabled(i),
            !map_viewer_systems().contains(name@) ==> final(self).spec_stats() == old(self).spec_stats(),
            forall|k: int| first_position(map_viewer_systems(), name@, k)
                ==> final(self).spec_stats() == old(self).spec_stats().update(k, old(self).spec_stats()[k].recorded(duration)),
    {
        match self.table.position(name, Ghost(map_viewer_systems()), Ghost(map_viewer_priorities())) {
            Some(k) => {
                assert(old(self).spec_stats()[k as int] == self.table.stats@[k as int]);
                self.table.stats[k].record_execution(duration);
                assert(self.table.stats@ =~= old(self).table.stats@.update(k as int, old(self).table.stats@[k as int].recorded(duration)));
            },
            None => {},
        }
    }

    /// The statistics of the system with the given name.
    pub fn get_stats(&self, name: &str) -> (r: Option<&SystemStats>)
        requires
            self.wf(),
        ensures
            r is None <==> !map_viewer_systems().contains(name@),
            r matches Some(s) ==> exists|k: int| first_position(map_viewer_systems(), name@, k) && s == self.spec_stats()[k],
    {
        let r = self.table.get_stats(name, Ghost(map_viewer_systems()), Ghost(map_viewer_priorities()));
        proof {
            if r is Some {
                let k = choose|k: int| first_position(map_viewer_systems(), name@, k) && r->0 == self.table.stats@[k];
                assert(self.spec_stats()[k] == self.table.stats@[k]);
            }
        }
        r
    }

    /// Copies of all statistics, sorted by priority.
    pub fn get_all_stats(&self) -> (r: Vec<SystemStats>)
        requires
            self.wf(),
        ensures
            r@ == self.spec_stats(),
            r@.len() == 5,
            forall|i: int| 0 <= i < 5 ==> (#[trigger] r@[i]).name@ == map_viewer_systems()[i] && r@[i].priority == map_viewer_priorities()[i],
            forall|i: int, j: int| 0 <= i < j < r@.len() ==> r@[i].priority < r@[j].priority,
    {
        proof {
            self.lemma_stats_layout();
        }
        proof {
            lemma_map_viewer_priorities_ascending();
        }
        let r = self.table.get_all_stats();
        assert forall|i: int, j: int| 0 <= i < j < r@.len() implies r@[i].priority < r@[j].priority by {
            assert(r@[i].stats_priority() == map_viewer_priorities()[i]);
            assert(r@[j].stats_priority() == map_viewer_priorities()[j]);
        }
        r
    }

    /// Forgets every recorded run; names, priorities and switches stay.
    pub fn reset_stats(&mut self)
        requires
            old(self).wf(),
        ensures
            final(self).wf(),
            forall|i: int| 0 <= i < 5 ==> #[trigger] final(self).spec_enabled(i) == old(self).spec_enabled(i),
            forall|i: int| 0 <= i < 5 ==> #[trigger] final(self).spec_stats()[i] == old(self).spec_stats()[i].cleared(),
    {
        self.table.reset_stats(Ghost(map_viewer_systems()), Ghost(map_viewer_priorities()));
    }
}

impl Default for MapViewerScheduler {
    fn default() -> (s: Self)
        ensures
            s.wf(),
            forall|i: int| 0 <= i < 5 ==> #[trigger] s.spec_enabled(i),
    {
        Self::new()
    }
}

/// The map viewer's priorities rise strictly in running order.
pub proof fn lemma_map_viewer_priorities_ascending()
    ensures
        ascending(map_viewer_priorities()),
{
}

/// No two of the map viewer's systems share a name.
pub proof fn lemma_map_viewer_names_distinct()
    ensures
        map_viewer_systems().no_duplicates(),
{
    reveal_strlit("InputCollectingSystem");
    reveal_strlit("LocalPredictionSystem");
    reveal_strlit("MovementSystemV2");
    reveal_strlit("PlayerAnimationSystem");
    reveal_strlit("CameraSystem");
    let names = map_viewer_systems();
    assert forall|i: int, j: int| 0 <= i < names.len() && 0 <= j < names.len() && i != j implies names[i]
        != names[j] by {
        if names[i] == names[j] {
            assert(names[i].len() == names[j].len());
            assert(names[i][0] == names[j][0]);
        }
    }
}

} // verus!
