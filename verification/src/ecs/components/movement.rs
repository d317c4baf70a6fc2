// Movement components: the path being followed and the movement state.

use vstd::prelude::*;
use crate::time::now;

verus! {

/// A path found by the path finder, in grid coordinates.
#[derive(Debug, Clone)]
pub struct Path {
    /// Waypoints (grid coordinates)
    pub waypoints: Vec<(i32, i32)>,
    /// Index of the current waypoint
    pub current_index: usize,
    /// Whether the path is in use
    pub is_valid: bool,
}

impl Path {
    pub fn new() -> (p: Self)
        ensures
            p.waypoints@.len() == 0,
            p.current_index == 0,
            !p.is_valid,
    {
        Path { waypoints: Vec::new(), current_index: 0, is_valid: false }
    }

    /// Starts following new waypoints; the path is valid when there are any.
    pub fn set_path(&mut self, waypoints: Vec<(i32, i32)>)
        ensures
            final(self).waypoints@ == waypoints@,
            final(self).current_index == 0,
            final(self).is_valid == (waypoints@.len() > 0),
    {
        self.waypoints = waypoints;
        self.current_index = 0;
        self.is_valid = self.waypoints.len() > 0;
    }

    /// The waypoint being walked to, if the index is inside the path.
    pub fn current_waypoint(&self) -> (r: Option<(i32, i32)>)
        ensures
            self.current_index < self.waypoints@.len() ==> r == Some(
                self.waypoints@[self.current_index as int],
            ),
            self.current_index >= self.waypoints@.len() ==> r is None,
    {
        if self.current_index < self.waypoints.len() {
            Some(self.waypoints[self.current_index])
        } else {
            None
        }
    }

    /// Moves to the next waypoint; at the last one the path becomes invalid and
    /// false is returned. An empty path has no last waypoint, so it may not be advanced.
    pub fn advance(&mut self) -> (moved: bool)
        requires
            old(self).waypoints@.len() > 0,
        ensures
            moved == (old(self).current_index < old(self).waypoints@.len() - 1),
            moved ==> final(self).current_index == old(self).current_index + 1
                && final(self).is_valid == old(self).is_valid,
            !moved ==> final(self).current_index == old(self).current_index
                && !final(self).is_valid,
            final(self).waypoints@ == old(self).waypoints@,
    {
        if self.current_index < self.waypoints.len() - 1 {
            self.current_index = self.current_index + 1;
            true
        } else {
            self.is_valid = false;
            false
        }
    }

    pub fn clear(&mut self)
        ensures
            final(self).waypoints@.len() == 0,
            final(self).current_index == 0,
            !final(self).is_valid,
    {
        self.waypoints.clear();
        self.current_index = 0;
        self.is_valid = false;
    }

    /// Complete when invalid or past the last waypoint.
    pub fn is_complete(&self) -> (b: bool)
        ensures
            b == (!self.is_valid || self.current_index >= self.waypoints@.len()),
    {
        !self.is_valid || self.current_index >= self.waypoints.len()
    }
}

/// Movement states.
#[derive(Debug, Clone, Copy, PartialEq, Eq, Structural)]
pub enum MovementState {
    /// Standing still
    Idle,
    /// Walking
    Walking,
    /// Running
    Running,
    /// Knocked back
    Knocked,
}

/// Name under which the systems refer to the movement state.
pub type MovementType = MovementState;

/// The movement state of an entity and when it last changed.
#[derive(Debug, Clone)]
pub struct Movement {
    pub state: MovementState,
    pub last_change_time: std::time::Instant,
}

impl Movement {
    pub fn new() -> (m: Self)
        ensures
            m.state == MovementState::Idle,
    {
        Movement { state: MovementState::Idle, last_change_time: now() }
    }

    /// Changes the state; the change time is only renewed when the state differs.
    pub fn set_state(&mut self, state: MovementState)
        ensures
            final(self).state == state,
            old(self).state == state ==> final(self).last_change_time == old(self).last_change_time,
    {
        if self.state != state {
            self.state = state;
            self.last_change_time = now();
        }
    }

    pub fn is_moving(&self) -> (b: bool)
        ensures
            b == (self.state == MovementState::Walking || self.state == MovementState::Running),
    {
        match self.state {
            MovementState::Walking | MovementState::Running => true,
            _ => false,
        }
    }
}

impl Default for Movement {
    fn default() -> (m: Self)
        ensures
            m.state == MovementState::Idle,
    {
        Self::new()
    }
}

} // verus!
