// The parallel schedule of the game scene's systems: the same sixteen systems
// as the serial schedule, run one after another in sequential mode, or with
// layers 3 to 5 run concurrently in parallel mode.
//
// The schedule decides which systems run, in which order and which of them
// run concurrently; the caller runs them and reports back how each went.

use vstd::prelude::*;
use crate::ecs::game_scene_scheduler::{
    game_scene_priorities, game_scene_systems, lemma_distinct_first_position, lemma_game_scene_names_distinct,
    lemma_game_scene_priorities_ascending,
};
use crate::ecs::system_table::{first_position, SystemTable, TimedStats};
use crate::time::{max_span_nanos, Duration};

verus! {

/// How the schedule runs its systems.
#[derive(Debug, Clone, Copy, PartialEq, Eq, Structural)]
pub enum ExecutionMode {
    Sequential,
    Parallel,
}

/// Execution statistics of one system, with the count of concurrent runs.
#[derive(Debug)]
pub struct ParallelSystemStats {
    pub name: String,
    pub priority: u32,
    pub execution_count: u64,
    pub total_time: Duration,
    pub average_time: Duration,
    pub last_execution: Duration,
    pub parallel_executions: u64,
}

impl Clone for ParallelSystemStats {
    fn clone(&self) -> (r: Self)
        ensures
            r == *self,
    {
        ParallelSystemStats {
            name: self.name.clone(),
            priority: self.priority,
            execution_count: self.execution_count,
            total_time: self.total_time,
            average_time: self.average_time,
            last_execution: self.last_execution,
            parallel_executions: self.parallel_executions,
        }
    }
}

impl ParallelSystemStats {
    /// The spans are well formed.
    pub open spec fn wf(self) -> bool {
        &&& self.total_time.wf()
        &&& self.average_time.wf()
        &&& self.last_execution.wf()
    }

    /// Whether one more timed run of length `d` can be recorded: the counters
    /// must not overflow, `std::time::Duration` panics when the total does,
    /// and the average divides by the count truncated to 32 bits, which must
    /// not be zero.
    pub open spec fn can_record(self, d: Duration, is_parallel: bool) -> bool {
        &&& self.execution_count < u64::MAX
        &&& self.total_time@ + d@ <= max_span_nanos()
        &&& (self.execution_count + 1) % 0x1_0000_0000 != 0
        &&& is_parallel ==> self.parallel_executions < u64::MAX
    }

    /// The statistics after one more timed run of length `d`.
    pub open spec fn recorded(self, d: Duration, is_parallel: bool) -> ParallelSystemStats {
        ParallelSystemStats {
            execution_count: (self.execution_count + 1) as u64,
            total_time: Duration::spec_from_nanos(self.total_time@ + d@),
            last_execution: d,
            average_time: Duration::spec_from_nanos(
                (self.total_time@ + d@) / ((self.execution_count + 1) % 0x1_0000_0000) as nat,
            ),
            parallel_executions: if is_parallel {
                (self.parallel_executions + 1) as u64
            } else {
                self.parallel_executions
            },
            ..self
        }
    }

    /// The statistics after one more concurrent run, which is counted but not timed.
    pub open spec fn marked(self) -> ParallelSystemStats {
        ParallelSystemStats { parallel_executions: (self.parallel_executions + 1) as u64, ..self }
    }

    /// The statistics with every run forgotten.
    pub open spec fn cleared(self) -> ParallelSystemStats {
        ParallelSystemStats {
            execution_count: 0,
            total_time: Duration::spec_from_nanos(0),
            last_execution: Duration::spec_from_nanos(0),
            average_time: Duration::spec_from_nanos(0),
            parallel_executions: 0,
            ..self
        }
    }

    pub fn new(name: String, priority: u32) -> (s: Self)
        ensures
            s.name == name,
            s.priority == priority,
            s.execution_count == 0,
            s == s.cleared(),
            s.parallel_executions == 0,
            s.total_time@ == 0,
            s.average_time@ == 0,
            s.last_execution@ == 0,
            s.wf(),
    {
        ParallelSystemStats {
            name,
            priority,
            execution_count: 0,
            total_time: Duration::zero(),
            average_time: Duration::zero(),
            last_execution: Duration::zero(),
            parallel_executions: 0,
        }
    }

    /// Records one timed run: the count and total grow, the average is the
    /// total divided by the count (truncated to 32 bits), rounded down; a
    /// parallel run also counts as such.
    pub fn record_execution(&mut self, duration: Duration, is_parallel: bool)
        requires
            old(self).wf(),
            duration.wf(),
            old(self).can_record(duration, is_parallel),
        ensures
            final(self).wf(),
            *final(self) == old(self).recorded(duration, is_parallel),
    {
        self.execution_count = self.execution_count + 1;
        self.total_time = self.total_time.plus(&duration);
        self.last_execution = duration;
        let count: u64 = self.execution_count;
        let count32 = count as u32;
        assert(count32 == (count as int) % 0x1_0000_0000) by (bit_vector)
            requires count32 == count as u32;
        self.average_time = self.total_time.divided_by(count32);
        if is_parallel {
            self.parallel_executions = self.parallel_executions + 1;
        }
    }

    /// Counts one concurrent run, which is not timed.
    pub fn mark_parallel(&mut self)
        requires
            old(self).parallel_executions < u64::MAX,
        ensures
            *final(self) == old(self).marked(),
    {
        self.parallel_executions = self.parallel_executions + 1;
    }

    /// Forgets every recorded run.
    pub fn reset(&mut self)
        ensures
            *final(self) == old(self).cleared(),
            final(self).wf(),
    {
        self.execution_count = 0;
        self.total_time = Duration::zero();
        self.average_time = Duration::zero();
        self.last_execution = Duration::zero();
        self.parallel_executions = 0;
    }
}

impl TimedStats for ParallelSystemStats {
    open spec fn stats_name(&self) -> Seq<char> {
        self.name@
    }

    open spec fn stats_priority(&self) -> u32 {
        self.priority
    }

    open spec fn stats_wf(&self) -> bool {
        self.wf()
    }

    open spec fn stats_cleared(&self) -> Self {
        self.cleared()
    }

    fn name_str(&self) -> (r: &str) {
        self.name.as_str()
    }

    fn clear_runs(&mut self) {
        self.reset();
    }

    fn copy_stats(&self) -> (r: Self) {
        self.clone()
    }
}

/// One step of an update: which system runs, in which layer, and whether it
/// runs concurrently with the other steps of its layer (then it is counted
/// but not timed).
#[derive(Debug, Clone, Copy, PartialEq, Eq, Structural)]
pub struct UpdateStep {
    pub system: usize,
    pub layer: u8,
    pub concurrent: bool,
}

/// The layer of the `i`th system.
pub open spec fn layer_of(i: int) -> u8 {
    if i < 2 {
        1
    } else if i < 6 {
        2
    } else if i < 9 {
        3
    } else if i < 12 {
        4
    } else {
        5
    }
}

/// Every system in running order, each timed.
pub open spec fn sequential_order() -> Seq<UpdateStep> {
    Seq::new(16, |i: int| UpdateStep { system: i as usize, layer: layer_of(i), concurrent: false })
}

/// The parallel running order: layers 1 and 2 one after another and timed;
/// layers 3 and 4 concurrently; in layer 5 the mouse, monster and camera
/// systems concurrently, then the occlusion system, timed.
pub open spec fn parallel_order() -> Seq<UpdateStep> {
    Seq::new(
        16,
        |i: int|
            if i < 6 {
                UpdateStep { system: i as usize, layer: layer_of(i), concurrent: false }
            } else if i < 14 {
                UpdateStep { system: i as usize, layer: layer_of(i), concurrent: true }
            } else if i == 14 {
                UpdateStep { system: 15, layer: 5, concurrent: true }
            } else {
                UpdateStep { system: 14, layer: 5, concurrent: false }
            },
    )
}

/// The running order of a mode.
pub open spec fn mode_order(mode: ExecutionMode) -> Seq<UpdateStep> {
    match mode {
        ExecutionMode::Sequential => sequential_order(),
        ExecutionMode::Parallel => parallel_order(),
    }
}

/// The steps of `order` whose system is switched on, in order.
pub open spec fn enabled_steps(order: Seq<UpdateStep>, enabled: Seq<bool>) -> Seq<UpdateStep>
    decreases order.len(),
{
    if order.len() == 0 {
        Seq::empty()
    } else {
        let rest = enabled_steps(order.drop_last(), enabled);
        if enabled[order.last().system as int] {
            rest.push(order.last())
        } else {
            rest
        }
    }
}

/// The systems of the steps of `order` are all different.
pub open spec fn distinct_systems(order: Seq<UpdateStep>) -> bool {
    forall|a: int, b: int| 0 <= a < order.len() && 0 <= b < order.len() && a != b ==> order[a].system != order[b].system
}

proof fn lemma_enabled_steps(order: Seq<UpdateStep>, enabled: Seq<bool>)
    ensures
        forall|s: UpdateStep| #[trigger] enabled_steps(order, enabled).contains(s) <==> (order.contains(s)
            && enabled[s.system as int]),
        distinct_systems(order) ==> distinct_systems(enabled_steps(order, enabled)),
    decreases order.len(),
{
    if order.len() > 0 {
        let init = order.drop_last();
        let last = order.last();
        lemma_enabled_steps(init, enabled);
        let rest = enabled_steps(init, enabled);
        assert forall|s: UpdateStep| #[trigger] order.contains(s) <==> (init.contains(s) || s == last) by {
            if order.contains(s) {
                let k = choose|k: int| 0 <= k < order.len() && order[k] == s;
                if k < order.len() - 1 {
                    assert(init[k] == s);
                }
            }
            if init.contains(s) {
                let k = choose|k: int| 0 <= k < init.len() && init[k] == s;
                assert(order[k] == s);
            }
            if s == last {
                assert(order[order.len() - 1] == s);
            }
        }
        if enabled[last.system as int] {
            assert forall|s: UpdateStep| #[trigger] rest.push(last).contains(s) <==> (rest.contains(s) || s == last) by {
                if rest.push(last).contains(s) {
                    let k = choose|k: int| 0 <= k < rest.push(last).len() && rest.push(last)[k] == s;
                    if k < rest.len() {
                        assert(rest[k] == s);
                    }
                }
                if rest.contains(s) {
                    let k = choose|k: int| 0 <= k < rest.len() && rest[k] == s;
                    assert(rest.push(last)[k] == s);
                }
                if s == last {
                    assert(rest.push(last)[rest.len() as int] == s);
                }
            }
        }
        if distinct_systems(order) {
            assert(distinct_systems(init)) by {
                assert forall|a: int, b: int| 0 <= a < init.len() && 0 <= b < init.len() && a != b implies init[a].system
                    != init[b].system by {
                    assert(init[a] == order[a] && init[b] == order[b]);
                }
            }
            if enabled[last.system as int] {
                let r = rest.push(last);
                assert forall|a: int, b: int| 0 <= a < r.len() && 0 <= b < r.len() && a != b implies r[a].system
                    != r[b].system by {
                    if a < rest.len() && b < rest.len() {
                        assert(r[a] == rest[a] && r[b] == rest[b]);
                    } else {
                        let other = if a < rest.len() { a } else { b };
                        assert(rest.contains(rest[other]));
                        assert(init.contains(rest[other]));
                        let k = choose|k: int| 0 <= k < init.len() && init[k] == rest[other];
                        assert(order[k] == init[k]);
                        assert(order[order.len() - 1] == last);
                    }
                }
            }
        }
    }
}

/// In either mode an update runs every switched-on system once, and no
/// switched-off system.
pub proof fn lemma_plan_runs_enabled_systems_once(mode: ExecutionMode, enabled: Seq<bool>)
    requires
        enabled.len() == 16,
    ensures
        forall|i: int| 0 <= i < 16 ==> (enabled[i] <==> exists|k: int|
            0 <= k < enabled_steps(mode_order(mode), enabled).len()
                && #[trigger] enabled_steps(mode_order(mode), enabled)[k].system == i),
        distinct_systems(enabled_steps(mode_order(mode), enabled)),
{
    let order = mode_order(mode);
    let plan = enabled_steps(order, enabled);
    assert(distinct_systems(order)) by {
        assert forall|a: int, b: int| 0 <= a < order.len() && 0 <= b < order.len() && a != b implies order[a].system
            != order[b].system by {
        }
    }
    lemma_enabled_steps(order, enabled);
    assert forall|i: int| 0 <= i < 16 implies (enabled[i] <==> exists|k: int|
        0 <= k < plan.len() && #[trigger] plan[k].system == i) by {
        let j: int = match mode {
            ExecutionMode::Sequential => i,
            ExecutionMode::Parallel => if i == 14 {
                15
            } else if i == 15 {
                14
            } else {
                i
            },
        };
        assert(order[j].system == i);
        assert(order.contains(order[j]));
        if enabled[i] {
            assert(plan.contains(order[j]));
            let k = choose|k: int| 0 <= k < plan.len() && plan[k] == order[j];
            assert(plan[k].system == i);
        }
        if exists|k: int| 0 <= k < plan.len() && #[trigger] plan[k].system == i {
            let k = choose|k: int| 0 <= k < plan.len() && #[trigger] plan[k].system == i;
            assert(plan.contains(plan[k]));
        }
    }
}

/// The schedule of the game scene's systems, serial or parallel.
pub struct ParallelScheduler {
    execution_mode: ExecutionMode,
    table: SystemTable<ParallelSystemStats>,
}

impl ParallelScheduler {
    /// One switch and one statistics entry for each system, in order.
    pub closed spec fn wf(self) -> bool {
        self.table.wf(game_scene_systems(), game_scene_priorities())
    }

    /// Whether the `i`th system runs.
    pub closed spec fn spec_enabled(self, i: int) -> bool {
        self.table.enabled@[i]
    }

    /// All switches, in system order.
    pub closed spec fn spec_switches(self) -> Seq<bool> {
        self.table.enabled@
    }

    /// The statistics, in system order.
    pub closed spec fn spec_stats(self) -> Seq<ParallelSystemStats> {
        self.table.stats@
    }

    /// A well-formed schedule has one switch and one statistics entry per
    /// system, in running order, each entry with the system's name and priority.
    pub proof fn lemma_stats_layout(self)
        requires
            self.wf(),
        ensures
            self.spec_stats().len() == 16,
            forall|i: int| 0 <= i < 16 ==> (#[trigger] self.spec_stats()[i]).name@ == game_scene_systems()[i]
                && self.spec_stats()[i].priority == game_scene_priorities()[i] && self.spec_stats()[i].wf(),
    {
        assert forall|i: int| 0 <= i < 16 implies (#[trigger] self.spec_stats()[i]).name@ == game_scene_systems()[i]
            && self.spec_stats()[i].priority == game_scene_priorities()[i] && self.spec_stats()[i].wf() by {
            assert(self.table.stats@[i].stats_name() == game_scene_systems()[i]);
        }
    }

    /// The mode the schedule runs in.
    pub closed spec fn spec_mode(self) -> ExecutionMode {
        self.execution_mode
    }

    /// Looking up the name of the `i`th entry finds that entry and no other:
    /// each entry that `get_all_stats` lists is what `get_stats` gives for its name.
    pub proof fn lemma_lookup_finds_entry(self, i: int)
        requires
            self.wf(),
            0 <= i < 16,
        ensures
            first_position(game_scene_systems(), self.spec_stats()[i].name@, i),
            forall|k: int| first_position(game_scene_systems(), self.spec_stats()[i].name@, k) ==> k == i,
    {
        self.lemma_stats_layout();
        lemma_game_scene_names_distinct();
        lemma_distinct_first_position(game_scene_systems(), i);
    }

    /// Creates the schedule in the given mode, every system enabled and no runs recorded.
    pub fn new(execution_mode: ExecutionMode) -> (s: Self)
        ensures
            s.wf(),
            s.spec_stats().len() == 16,
            forall|i: int| 0 <= i < 16 ==> (#[trigger] s.spec_stats()[i]).name@ == game_scene_systems()[i]
                && s.spec_stats()[i].priority == game_scene_priorities()[i],
            s.spec_mode() == execution_mode,
            forall|i: int| 0 <= i < 16 ==> #[trigger] s.spec_enabled(i),
            forall|i: int| 0 <= i < 16 ==> (#[trigger] s.spec_stats()[i]).execution_count == 0
                && s.spec_stats()[i] == s.spec_stats()[i].cleared()
                && s.spec_stats()[i].parallel_executions == 0,
    {
        let mut scheduler = ParallelScheduler { execution_mode, table: SystemTable::all_enabled(16) };
        scheduler.initialize_stats();
        scheduler
    }

    /// Fills in the statistics, one zeroed entry per system.
    fn initialize_stats(&mut self)
        requires
            old(self).table.stats@.len() == 0,
        ensures
            final(self).table.stats@.len() == 16,
            forall|i: int| 0 <= i < 16 ==> (#[trigger] final(self).table.stats@[i]).name@ == game_scene_systems()[i]
                && final(self).table.stats@[i].priority == game_scene_priorities()[i]
                && final(self).table.stats@[i].wf()
                && final(self).table.stats@[i].execution_count == 0
                && final(self).table.stats@[i] == final(self).table.stats@[i].cleared()
                && final(self).table.stats@[i].parallel_executions == 0,
            final(self).table.enabled@ == old(self).table.enabled@,
            final(self).execution_mode == old(self).execution_mode,
    {
        let names = [
            "InputCollectingSystem",
            "ClientNetworkSystem",
            "LocalPredictionSystem",
            "MovementSystemV2",
            "ReconciliationSystem",
            "InterpolationSystem",
            "AnimationStateSystem",
            "MonsterAnimationStateSystem",
            "NPCActionSystem",
            "TileAnimationSystem",
            "AnimationPlaybackSystem",
            "MovementInterpolationSystem",
            "MouseEventSystem",
            "MonsterSystem",
            "OcclusionSystem",
            "CameraSystem",
        ];
        let prios: [u32; 16] = [100, 150, 200, 210, 220, 230, 300, 310, 320, 400, 410, 420, 500, 510, 520, 530];
        assert(names@.map_values(|s: &str| s@) =~= game_scene_systems());
        assert(prios@ =~= game_scene_priorities());
        let mut i: usize = 0;
        while i < 16
            invariant
                i <= 16,
                names@.map_values(|s: &str| s@) == game_scene_systems(),
                prios@ == game_scene_priorities(),
                self.table.enabled@ == old(self).table.enabled@,
                self.execution_mode == old(self).execution_mode,
                self.table.stats@.len() == i,
                forall|j: int| 0 <= j < i ==> (#[trigger] self.table.stats@[j]).name@ == game_scene_systems()[j]
                    && self.table.stats@[j].priority == game_scene_priorities()[j]
                    && self.table.stats@[j].wf()
                    && self.table.stats@[j].execution_count == 0
                    && self.table.stats@[j] == self.table.stats@[j].cleared()
                    && self.table.stats@[j].parallel_executions == 0,
            decreases 16 - i,
        {
            assert(names@.map_values(|s: &str| s@)[i as int] == names@[i as int]@);
            self.table.stats.push(ParallelSystemStats::new(String::from_str(names[i]), prios[i]));
            i = i + 1;
        }
    }

    pub fn set_execution_mode(&mut self, mode: ExecutionMode)
        ensures
            final(self).spec_mode() == mode,
            final(self).spec_switches() == old(self).spec_switches(),
            final(self).spec_stats() == old(self).spec_stats(),
            old(self).wf() ==> final(self).wf(),
    {
        self.execution_mode = mode;
    }

    pub fn execution_mode(&self) -> (m: ExecutionMode)
        ensures
            m == self.spec_mode(),
    {
        self.execution_mode
    }

    /// The steps of one update in the current mode: the enabled systems in
    /// the mode's running order.
    pub fn update_plan(&self) -> (plan: Vec<UpdateStep>)
        requires
            self.wf(),
        ensures
            plan@ == enabled_steps(mode_order(self.spec_mode()), self.spec_switches()),
    {
        let order: [UpdateStep; 16] = match self.execution_mode {
            ExecutionMode::Sequential => [
                UpdateStep { system: 0, layer: 1, concurrent: false },
                UpdateStep { system: 1, layer: 1, concurrent: false },
                UpdateStep { system: 2, layer: 2, concurrent: false },
                UpdateStep { system: 3, layer: 2, concurrent: false },
                UpdateStep { system: 4, layer: 2, concurrent: false },
                UpdateStep { system: 5, layer: 2, concurrent: false },
                UpdateStep { system: 6, layer: 3, concurrent: false },
                UpdateStep { system: 7, layer: 3, concurrent: false },
                UpdateStep { system: 8, layer: 3, concurrent: false },
                UpdateStep { system: 9, layer: 4, concurrent: false },
                UpdateStep { system: 10, layer: 4, concurrent: false },
                UpdateStep { system: 11, layer: 4, concurrent: false },
                UpdateStep { system: 12, layer: 5, concurrent: false },
                UpdateStep { system: 13, layer: 5, concurrent: false },
                UpdateStep { system: 14, layer: 5, concurrent: false },
                UpdateStep { system: 15, layer: 5, concurrent: false },
            ],
            ExecutionMode::Parallel => [
                UpdateStep { system: 0, layer: 1, concurrent: false },
                UpdateStep { system: 1, layer: 1, concurrent: false },
                UpdateStep { system: 2, layer: 2, concurrent: false },
                UpdateStep { system: 3, layer: 2, concurrent: false },
                UpdateStep { system: 4, layer: 2, concurrent: false },
                UpdateStep { system: 5, layer: 2, concurrent: false },
                UpdateStep { system: 6, layer: 3, concurrent: true },
                UpdateStep { system: 7, layer: 3, concurrent: true },
                UpdateStep { system: 8, layer: 3, concurrent: true },
                UpdateStep { system: 9, layer: 4, concurrent: true },
                UpdateStep { system: 10, layer: 4, concurrent: true },
                UpdateStep { system: 11, layer: 4, concurrent: true },
                UpdateStep { system: 12, layer: 5, concurrent: true },
                UpdateStep { system: 13, layer: 5, concurrent: true },
                UpdateStep { system: 15, layer: 5, concurrent: true },
                UpdateStep { system: 14, layer: 5, concurrent: false },
            ],
        };
        let ghost full = mode_order(self.spec_mode());
        assert(order@ =~= full);
        let mut plan: Vec<UpdateStep> = Vec::new();
        let mut i: usize = 0;
        while i < 16
            invariant
                i <= 16,
                order@ == full,
                full.len() == 16,
                self.wf(),
                forall|j: int| 0 <= j < 16 ==> (#[trigger] full[j]).system < 16,
                plan@ == enabled_steps(full.subrange(0, i as int), self.spec_switches()),
            decreases 16 - i,
        {
            let step = order[i];
            assert(full.subrange(0, i + 1).drop_last() =~= full.subrange(0, i as int));
            assert(full.subrange(0, i + 1).last() == step);
            if self.table.enabled[step.system] {
                plan.push(step);
            }
            i = i + 1;
        }
        assert(full.subrange(0, 16) =~= full);
        plan
    }

    /// Records how one step of an update went: a timed step records its
    /// duration, a concurrent one is counted.
    pub fn finish_step(&mut self, step: UpdateStep, duration: Duration)
        requires
            old(self).wf(),
            step.system < 16,
            duration.wf(),
            !step.concurrent ==> old(self).spec_stats()[step.system as int].can_record(duration, false),
            step.concurrent ==> old(self).spec_stats()[step.system as int].parallel_executions < u64::MAX,
        ensures
            final(self).wf(),
            final(self).spec_mode() == old(self).spec_mode(),
            final(self).spec_switches() == old(self).spec_switches(),
            final(self).spec_stats() == old(self).spec_stats().update(
                step.system as int,
                if step.concurrent {
                    old(self).spec_stats()[step.system as int].marked()
                } else {
                    old(self).spec_stats()[step.system as int].recorded(duration, false)
                },
            ),
    {
        let k = step.system;
        if step.concurrent {
            self.table.stats[k].mark_parallel();
        } else {
            self.table.stats[k].record_execution(duration, false);
        }
        assert(self.table.stats@ =~= old(self).table.stats@.update(
            k as int,
            if step.concurrent {
                old(self).table.stats@[k as int].marked()
            } else {
                old(self).table.stats@[k as int].recorded(duration, false)
            },
        ));
    }

    /// Turns on every system with the given name; unknown names change nothing.
    pub fn enable_system(&mut self, name: &str)
        requires
            old(self).wf(),
        ensures
            final(self).wf(),
            final(self).spec_mode() == old(self).spec_mode(),
            final(self).spec_stats() == old(self).spec_stats(),
            forall|i: int| 0 <= i < 16 ==> #[trigger] final(self).spec_enabled(i) == if game_scene_systems()[i]
                == name@ {
                true
            } else {
                old(self).spec_enabled(i)
            },
    {
        self.table.set_enabled(name, true, Ghost(game_scene_systems()), Ghost(game_scene_priorities()));
    }

    /// Turns off every system with the given name; unknown names change nothing.
    pub fn disable_system(&mut self, name: &str)
        requires
            old(self).wf(),
        ensures
            final(self).wf(),
            final(self).spec_mode() == old(self).spec_mode(),
            final(self).spec_stats() == old(self).spec_stats(),
            forall|i: int| 0 <= i < 16 ==> #[trigger] final(self).spec_enabled(i) == if game_scene_systems()[i]
                == name@ {
                false
            } else {
                old(self).spec_enabled(i)
            },
    {
        self.table.set_enabled(name, false, Ghost(game_scene_systems()), Ghost(game_scene_priorities()));
    }

    /// The statistics of the system with the given name.
    pub fn get_stats(&self, name: &str) -> (r: Option<&ParallelSystemStats>)
        requires
            self.wf(),
        ensures
            r is None <==> !game_scene_systems().contains(name@),
            r matches Some(s) ==> exists|k: int| first_position(game_scene_systems(), name@, k) && s == self.spec_stats()[k],
    {
        let r = self.table.get_stats(name, Ghost(game_scene_systems()), Ghost(game_scene_priorities()));
        proof {
            if r is Some {
                let k = choose|k: int| first_position(game_scene_systems(), name@, k) && r->0 == self.table.stats@[k];
                assert(self.spec_stats()[k] == self.table.stats@[k]);
            }
        }
        r
    }

    /// Copies of all statistics, sorted by priority.
    pub fn get_all_stats(&self) -> (r: Vec<ParallelSystemStats>)
        requires
            self.wf(),
        ensures
            r@ == self.spec_stats(),
            r@.len() == 16,
            forall|i: int| 0 <= i < 16 ==> (#[trigger] r@[i]).name@ == game_scene_systems()[i] && r@[i].priority == game_scene_priorities()[i],
            forall|i: int, j: int| 0 <= i < j < r@.len() ==> r@[i].priority < r@[j].priority,
    {
        proof {
            self.lemma_stats_layout();
        }
        proof {
            lemma_game_scene_priorities_ascending();
        }
        let r = self.table.get_all_stats();
        assert forall|i: int, j: int| 0 <= i < j < r@.len() implies r@[i].priority < r@[j].priority by {
            assert(r@[i].stats_priority() == game_scene_priorities()[i]);
            assert(r@[j].stats_priority() == game_scene_priorities()[j]);
        }
        r
    }

    /// Forgets every recorded run; names, priorities, switches and mode stay.
    pub fn reset_stats(&mut self)
        requires
            old(self).wf(),
        ensures
            final(self).wf(),
            final(self).spec_mode() == old(self).spec_mode(),
            final(self).spec_switches() == old(self).spec_switches(),
            forall|i: int| 0 <= i < 16 ==> #[trigger] final(self).spec_stats()[i] == old(self).spec_stats()[i].cleared(),
    {
        self.table.reset_stats(Ghost(game_scene_systems()), Ghost(game_scene_priorities()));
    }
}

impl Default for ParallelScheduler {
    fn default() -> (s: Self)
        ensures
            s.wf(),
            s.spec_mode() == ExecutionMode::Parallel,
            forall|i: int| 0 <= i < 16 ==> #[trigger] s.spec_enabled(i),
    {
        Self::new(ExecutionMode::Parallel)
    }
}

} // verus!
