// Client-side prediction records.

use vstd::prelude::*;
use std::collections::VecDeque;
use crate::time::{as_millis, elapsed, now};

verus! {

/// A position the client predicted.
#[derive(Debug, Clone, Copy)]
pub struct PredictedPosition {
    /// Grid position
    pub position: (i32, i32),
    /// Timestamp (milliseconds)
    pub timestamp: u64,
    /// Input sequence number
    pub sequence: u32,
}

impl PredictedPosition {
    pub fn new(position: (i32, i32), timestamp: u64, sequence: u32) -> (p: Self)
        ensures
            p.position == position,
            p.timestamp == timestamp,
            p.sequence == sequence,
    {
        PredictedPosition { position, timestamp, sequence }
    }
}

/// How far predictions are trusted.
#[derive(Debug, Clone, Copy, PartialEq, Eq, Structural)]
pub enum PredictionWeight {
    /// Fully (a weight of 1.0): low latency.
    Full,
    /// Mostly (0.7): latency above 100 ms.
    Reduced,
    /// Half (0.5): latency above 200 ms.
    Half,
}

/// The weight for a measured latency.
pub open spec fn weight_for(latency_ms: u64) -> PredictionWeight {
    if latency_ms > 200 {
        PredictionWeight::Half
    } else if latency_ms > 100 {
        PredictionWeight::Reduced
    } else {
        PredictionWeight::Full
    }
}

/// The newest `max` entries of `s`.
pub open spec fn newest(s: Seq<PredictedPosition>, max: nat) -> Seq<PredictedPosition> {
    if s.len() > max {
        s.subrange(s.len() - max, s.len() as int)
    } else {
        s
    }
}

/// The entries of `s` at most `max_age` milliseconds older than `now`, in order.
pub open spec fn recent(s: Seq<PredictedPosition>, now: u64, max_age: u64) -> Seq<PredictedPosition>
    decreases s.len(),
{
    if s.len() == 0 {
        Seq::empty()
    } else {
        let rest = recent(s.drop_last(), now, max_age);
        if now - s.last().timestamp <= max_age {
            rest.push(s.last())
        } else {
            rest
        }
    }
}

/// The client's recent predictions, with a correction target and how far
/// predictions are trusted.
#[derive(Debug, Clone)]
pub struct PredictionState {
    /// Predicted positions, oldest first
    pub predicted_positions: VecDeque<PredictedPosition>,
    /// Where the server says the player should be
    pub correction_target: Option<(i32, i32)>,
    pub prediction_weight: PredictionWeight,
    /// How many predictions are kept
    pub max_history: usize,
}

impl PredictionState {
    /// No predictions, no target, full trust, and up to ten predictions kept.
    pub fn new() -> (p: Self)
        ensures
            p.predicted_positions@.len() == 0,
            p.correction_target is None,
            p.prediction_weight == PredictionWeight::Full,
            p.max_history == 10,
    {
        PredictionState {
            predicted_positions: VecDeque::new(),
            correction_target: None,
            prediction_weight: PredictionWeight::Full,
            max_history: 10,
        }
    }

    /// Adds a prediction; the oldest ones go once more than the maximum are kept.
    pub fn add_predicted_position(&mut self, position: (i32, i32), timestamp: u64, sequence: u32)
        ensures
            final(self).predicted_positions@ == newest(
                old(self).predicted_positions@.push(PredictedPosition { position, timestamp, sequence }),
                old(self).max_history as nat,
            ),
            final(self).predicted_positions@.len() <= old(self).max_history,
            final(self).correction_target == old(self).correction_target,
            final(self).prediction_weight == old(self).prediction_weight,
            final(self).max_history == old(self).max_history,
    {
        let ghost added = self.predicted_positions@.push(PredictedPosition { position, timestamp, sequence });
        self.predicted_positions.push_back(PredictedPosition::new(position, timestamp, sequence));
        assert(self.predicted_positions@ == added);
        while self.predicted_positions.len() > self.max_history
            invariant
                self.max_history == old(self).max_history,
                self.correction_target == old(self).correction_target,
                self.prediction_weight == old(self).prediction_weight,
                self.predicted_positions@.len() <= added.len(),
                self.predicted_positions@ == added.subrange(added.len() - self.predicted_positions@.len(), added.len() as int),
                added.len() > self.max_history ==> self.predicted_positions@.len() >= self.max_history,
                added.len() <= self.max_history ==> self.predicted_positions@ == added,
            decreases self.predicted_positions@.len(),
        {
            let ghost before = self.predicted_positions@;
            self.predicted_positions.pop_front();
            assert(self.predicted_positions@ =~= added.subrange(added.len() - self.predicted_positions@.len(), added.len() as int));
        }
        assert(self.predicted_positions@ =~= newest(added, self.max_history as nat));
    }

    /// The newest prediction.
    pub fn latest_predicted_position(&self) -> (r: Option<&PredictedPosition>)
        ensures
            self.predicted_positions@.len() == 0 ==> r is None,
            self.predicted_positions@.len() > 0 ==> r == Some(&self.predicted_positions@.last()),
    {
        let n = self.predicted_positions.len();
        if n == 0 {
            None
        } else {
            Some(&self.predicted_positions[n - 1])
        }
    }

    /// Drops the predictions more than `max_age_ms` older than `current_time`;
    /// no prediction may be newer than `current_time`.
    pub fn cleanup_old_predictions(&mut self, current_time: u64, max_age_ms: u64)
        requires
            forall|i: int| 0 <= i < old(self).predicted_positions@.len()
                ==> (#[trigger] old(self).predicted_positions@[i]).timestamp <= current_time,
        ensures
            final(self).predicted_positions@ == recent(old(self).predicted_positions@, current_time, max_age_ms),
            final(self).correction_target == old(self).correction_target,
            final(self).prediction_weight == old(self).prediction_weight,
            final(self).max_history == old(self).max_history,
    {
        let ghost orig = self.predicted_positions@;
        let n = self.predicted_positions.len();
        let mut i: usize = 0;
        while i < n
            invariant
                n == orig.len(),
                i <= n,
                forall|j: int| 0 <= j < orig.len() ==> (#[trigger] orig[j]).timestamp <= current_time,
                self.predicted_positions@ == orig.skip(i as int) + recent(orig.take(i as int), current_time, max_age_ms),
                self.correction_target == old(self).correction_target,
                self.prediction_weight == old(self).prediction_weight,
                self.max_history == old(self).max_history,
            decreases n - i,
        {
            let ghost kept = recent(orig.take(i as int), current_time, max_age_ms);
            assert(self.predicted_positions@.len() > 0);
            assert(self.predicted_positions@[0] == orig[i as int]);
            let p = self.predicted_positions.pop_front().unwrap();
            assert(orig.take(i + 1).drop_last() =~= orig.take(i as int));
            assert(orig.take(i + 1).last() == p);
            if current_time - p.timestamp <= max_age_ms {
                self.predicted_positions.push_back(p);
            }
            assert(self.predicted_positions@ =~= orig.skip(i + 1) + recent(orig.take(i + 1), current_time, max_age_ms));
            i = i + 1;
        }
        assert(orig.take(n as int) =~= orig);
        assert(self.predicted_positions@ =~= recent(orig, current_time, max_age_ms));
    }

    pub fn set_correction_target(&mut self, target: (i32, i32))
        ensures
            final(self).correction_target == Some(target),
            final(self).predicted_positions@ == old(self).predicted_positions@,
            final(self).prediction_weight == old(self).prediction_weight,
            final(self).max_history == old(self).max_history,
    {
        self.correction_target = Some(target);
    }

    pub fn clear_correction_target(&mut self)
        ensures
            final(self).correction_target is None,
            final(self).predicted_positions@ == old(self).predicted_positions@,
            final(self).prediction_weight == old(self).prediction_weight,
            final(self).max_history == old(self).max_history,
    {
        self.correction_target = None;
    }

    /// Trusts predictions less as the latency grows.
    pub fn adjust_prediction_weight(&mut self, latency_ms: u64)
        ensures
            final(self).prediction_weight == weight_for(latency_ms),
            final(self).predicted_positions@ == old(self).predicted_positions@,
            final(self).correction_target == old(self).correction_target,
            final(self).max_history == old(self).max_history,
    {
        self.prediction_weight = if latency_ms > 200 {
            PredictionWeight::Half
        } else if latency_ms > 100 {
            PredictionWeight::Reduced
        } else {
            PredictionWeight::Full
        };
    }
}

impl Default for PredictionState {
    fn default() -> (p: Self)
        ensures
            p.predicted_positions@.len() == 0,
            p.correction_target is None,
            p.prediction_weight == PredictionWeight::Full,
            p.max_history == 10,
    {
        Self::new()
    }
}

/// The last state the server confirmed for an entity, at a position of type `P`.
#[derive(Debug, Clone)]
pub struct ServerState<P> {
    pub position: P,
    pub direction: u8,
    /// When the state was last updated
    pub last_update_time: std::time::Instant,
    /// Sequence number of the last update taken
    pub sequence_number: u32,
}

impl<P> ServerState<P> {
    pub fn new(position: P, direction: u8) -> (s: Self)
        ensures
            s.position == position,
            s.direction == direction,
            s.sequence_number == 0,
    {
        ServerState { position, direction, last_update_time: now(), sequence_number: 0 }
    }

    /// Takes an update unless an update with a higher sequence number was
    /// already taken; the sequence number never goes back.
    pub fn update(&mut self, position: P, direction: u8, sequence: u32)
        ensures
            sequence >= old(self).sequence_number ==> final(self).position == position && final(self).direction
                == direction && final(self).sequence_number == sequence,
            sequence < old(self).sequence_number ==> final(self).position == old(self).position
                && final(self).direction == old(self).direction && final(self).sequence_number
                == old(self).sequence_number && final(self).last_update_time == old(self).last_update_time,
            final(self).sequence_number >= old(self).sequence_number,
    {
        if sequence >= self.sequence_number {
            self.position = position;
            self.direction = direction;
            self.sequence_number = sequence;
            self.last_update_time = now();
        }
    }

    /// Milliseconds since the last update taken.
    pub fn get_latency_ms(&self) -> u128 {
        let since = elapsed(&self.last_update_time);
        as_millis(&since)
    }
}

} // verus!
