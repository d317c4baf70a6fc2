// A table of systems: an on/off switch and execution statistics for each,
// kept in running order. The schedulers keep their systems in one.

use vstd::prelude::*;
use crate::text::str_eq;

verus! {

/// What a scheduler's statistics entry offers the table that holds it.
pub trait TimedStats: Sized {
    /// The name of the system the entry belongs to.
    spec fn stats_name(&self) -> Seq<char>;

    /// The priority of that system.
    spec fn stats_priority(&self) -> u32;

    /// The entry is well formed.
    spec fn stats_wf(&self) -> bool;

    /// The entry with every recorded run forgotten.
    spec fn stats_cleared(&self) -> Self;

    /// The system's name.
    fn name_str(&self) -> (r: &str)
        ensures
            r@ == self.stats_name(),
    ;

    /// Forgets every recorded run.
    fn clear_runs(&mut self)
        ensures
            *final(self) == old(self).stats_cleared(),
            final(self).stats_wf(),
            final(self).stats_name() == old(self).stats_name(),
            final(self).stats_priority() == old(self).stats_priority(),
    ;

    /// A copy of the entry.
    fn copy_stats(&self) -> (r: Self)
        ensures
            r == *self,
    ;
}

/// Statistics listed in a row, one entry per system, with the given names and priorities.
pub open spec fn stats_match<S: TimedStats>(stats: Seq<S>, names: Seq<Seq<char>>, prios: Seq<u32>) -> bool {
    &&& stats.len() == names.len()
    &&& stats.len() == prios.len()
    &&& forall|i: int| 0 <= i < stats.len() ==> (#[trigger] stats[i]).stats_name() == names[i]
        && stats[i].stats_priority() == prios[i] && stats[i].stats_wf()
}

/// The priorities rise strictly along the row.
pub open spec fn ascending(prios: Seq<u32>) -> bool {
    forall|i: int, j: int| 0 <= i < j < prios.len() ==> prios[i] < prios[j]
}

/// `k` is the first position of `name` in `names`.
pub open spec fn first_position(names: Seq<Seq<char>>, name: Seq<char>, k: int) -> bool {
    &&& 0 <= k < names.len()
    &&& names[k] == name
    &&& forall|j: int| 0 <= j < k ==> names[j] != name
}

/// Switches and statistics of a row of systems.
pub(crate) struct SystemTable<S> {
    pub(crate) enabled: Vec<bool>,
    pub(crate) stats: Vec<S>,
}

impl<S: TimedStats> SystemTable<S> {
    /// One switch and one statistics entry for each named system, in order.
    pub(crate) open spec fn wf(self, names: Seq<Seq<char>>, prios: Seq<u32>) -> bool {
        &&& self.enabled@.len() == names.len()
        &&& stats_match(self.stats@, names, prios)
    }

    /// A table with every system switched on and no statistics yet.
    pub(crate) fn all_enabled(n: usize) -> (t: Self)
        ensures
            t.enabled@.len() == n,
            forall|i: int| 0 <= i < n ==> #[trigger] t.enabled@[i],
            t.stats@.len() == 0,
    {
        let mut enabled: Vec<bool> = Vec::new();
        let mut k: usize = 0;
        while k < n
            invariant
                k <= n,
                enabled@.len() == k,
                forall|i: int| 0 <= i < k ==> #[trigger] enabled@[i],
            decreases n - k,
        {
            enabled.push(true);
            k = k + 1;
        }
        SystemTable { enabled, stats: Vec::new() }
    }

    /// Sets the switch of every system with the given name.
    pub(crate) fn set_enabled(&mut self, name: &str, on: bool, Ghost(names): Ghost<Seq<Seq<char>>>, Ghost(prios): Ghost<Seq<u32>>)
        requires
            old(self).wf(names, prios),
        ensures
            final(self).wf(names, prios),
            final(self).stats@ == old(self).stats@,
            forall|i: int| 0 <= i < names.len() ==> #[trigger] final(self).enabled@[i] == if names[i]
                == name@ {
                on
            } else {
                old(self).enabled@[i]
            },
    {
        let mut i: usize = 0;
        while i < self.stats.len()
            invariant
                i <= names.len(),
                self.stats@ == old(self).stats@,
                self.enabled@.len() == names.len(),
                stats_match(self.stats@, names, prios),
                forall|j: int| 0 <= j < i ==> #[trigger] self.enabled@[j] == if names[j]
                    == name@ {
                    on
                } else {
                    old(self).enabled@[j]
                },
                forall|j: int| i <= j < names.len() ==> #[trigger] self.enabled@[j] == old(self).enabled@[j],
            decreases names.len() - i,
        {
            assert(self.stats@[i as int].stats_name() == names[i as int]);
            if str_eq(self.stats[i].name_str(), name) {
                self.enabled.set(i, on);
            }
            i = i + 1;
        }
    }

    /// Whether a system with the given name runs; false for unknown names.
    pub(crate) fn is_enabled(&self, name: &str, Ghost(names): Ghost<Seq<Seq<char>>>, Ghost(prios): Ghost<Seq<u32>>) -> (b: bool)
        requires
            self.wf(names, prios),
        ensures
            b == exists|i: int| 0 <= i < names.len() && names[i] == name@ && #[trigger] self.enabled@[i],
    {
        let mut i: usize = 0;
        while i < self.stats.len()
            invariant
                i <= names.len(),
                self.wf(names, prios),
                forall|j: int| 0 <= j < i ==> !(names[j] == name@ && #[trigger] self.enabled@[j]),
            decreases names.len() - i,
        {
            assert(self.stats@[i as int].stats_name() == names[i as int]);
            if str_eq(self.stats[i].name_str(), name) && self.enabled[i] {
                assert(self.enabled@[i as int]);
                return true;
            }
            i = i + 1;
        }
        false
    }

    /// The first position of the system with the given name, if there is one.
    pub(crate) fn position(&self, name: &str, Ghost(names): Ghost<Seq<Seq<char>>>, Ghost(prios): Ghost<Seq<u32>>) -> (r: Option<usize>)
        requires
            self.wf(names, prios),
        ensures
            r is None <==> !names.contains(name@),
            r matches Some(k) ==> first_position(names, name@, k as int),
    {
        let mut i: usize = 0;
        while i < self.stats.len()
            invariant
                i <= names.len(),
                self.wf(names, prios),
                forall|j: int| 0 <= j < i ==> #[trigger] names[j] != name@,
            decreases names.len() - i,
        {
            assert(self.stats@[i as int].stats_name() == names[i as int]);
            if str_eq(self.stats[i].name_str(), name) {
                return Some(i);
            }
            i = i + 1;
        }
        assert(!names.contains(name@));
        None
    }

    /// The statistics of the first system with the given name.
    pub(crate) fn get_stats(&self, name: &str, Ghost(names): Ghost<Seq<Seq<char>>>, Ghost(prios): Ghost<Seq<u32>>) -> (r: Option<&S>)
        requires
            self.wf(names, prios),
        ensures
            r is None <==> !names.contains(name@),
            r matches Some(s) ==> exists|k: int| first_position(names, name@, k) && s == self.stats@[k],
    {
        match self.position(name, Ghost(names), Ghost(prios)) {
            Some(k) => Some(&self.stats[k]),
            None => None,
        }
    }

    /// Copies of all statistics, in running order.
    pub(crate) fn get_all_stats(&self) -> (r: Vec<S>)
        ensures
            r@ == self.stats@,
    {
        let mut r: Vec<S> = Vec::new();
        let mut i: usize = 0;
        while i < self.stats.len()
            invariant
                i <= self.stats@.len(),
                r@ == self.stats@.subrange(0, i as int),
            decreases self.stats@.len() - i,
        {
            r.push(self.stats[i].copy_stats());
            assert(r@ =~= self.stats@.subrange(0, i + 1));
            i = i + 1;
        }
        assert(r@ =~= self.stats@);
        r
    }

    /// Forgets every recorded run; names, priorities and switches stay.
    pub(crate) fn reset_stats(&mut self, Ghost(names): Ghost<Seq<Seq<char>>>, Ghost(prios): Ghost<Seq<u32>>)
        requires
            old(self).wf(names, prios),
        ensures
            final(self).wf(names, prios),
            final(self).enabled@ == old(self).enabled@,
            forall|i: int| 0 <= i < names.len() ==> #[trigger] final(self).stats@[i] == old(self).stats@[i].stats_cleared(),
    {
        let mut i: usize = 0;
        while i < self.stats.len()
            invariant
                i <= names.len(),
                self.enabled@ == old(self).enabled@,
                stats_match(self.stats@, names, prios),
                self.enabled@.len() == names.len(),
                forall|j: int| 0 <= j < i ==> #[trigger] self.stats@[j] == old(self).stats@[j].stats_cleared(),
                forall|j: int| i <= j < names.len() ==> #[trigger] self.stats@[j] == old(self).stats@[j],
            decreases names.len() - i,
        {
            self.stats[i].clear_runs();
            i = i + 1;
        }
    }
}

} // verus!
