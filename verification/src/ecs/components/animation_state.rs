// Animation states and their frame timings.

use vstd::prelude::*;
use crate::time::{elapsed, from_std, now, Duration};

verus! {

/// Animation states of a character.
#[derive(Debug, Clone, Copy, PartialEq, Eq, Structural)]
pub enum AnimationState {
    Idle,
    Walk,
    Run,
    Attack,
    Hit,
    Die,
    Spell,
    Harvest,
}

impl AnimationState {
    pub open spec fn spec_frame_count(self) -> u8 {
        match self {
            AnimationState::Idle => 4,
            AnimationState::Walk => 6,
            AnimationState::Run => 6,
            AnimationState::Attack => 6,
            AnimationState::Hit => 2,
            AnimationState::Die => 10,
            AnimationState::Spell => 10,
            AnimationState::Harvest => 8,
        }
    }

    /// Number of frames of the animation.
    pub fn frame_count(&self) -> (n: u8)
        ensures
            n == self.spec_frame_count(),
    {
        match self {
            AnimationState::Idle => 4,
            AnimationState::Walk => 6,
            AnimationState::Run => 6,
            AnimationState::Attack => 6,
            AnimationState::Hit => 2,
            AnimationState::Die => 10,
            AnimationState::Spell => 10,
            AnimationState::Harvest => 8,
        }
    }

    /// Ticks between two frames.
    pub fn frame_interval(&self) -> (n: u32)
        ensures
            n == match *self {
                AnimationState::Idle => 12u32,
                AnimationState::Walk => 6,
                AnimationState::Run => 4,
                AnimationState::Attack => 5,
                AnimationState::Hit => 10,
                AnimationState::Die => 12,
                AnimationState::Spell => 6,
                AnimationState::Harvest => 8,
            },
    {
        match self {
            AnimationState::Idle => 12,
            AnimationState::Walk => 6,
            AnimationState::Run => 4,
            AnimationState::Attack => 5,
            AnimationState::Hit => 10,
            AnimationState::Die => 12,
            AnimationState::Spell => 6,
            AnimationState::Harvest => 8,
        }
    }

    /// Whether the animation loops: idle, walking, running and harvesting do.
    pub fn is_looping(&self) -> (b: bool)
        ensures
            b == (*self == AnimationState::Idle || *self == AnimationState::Walk || *self
                == AnimationState::Run || *self == AnimationState::Harvest),
    {
        match self {
            AnimationState::Idle | AnimationState::Walk | AnimationState::Run
            | AnimationState::Harvest => true,
            _ => false,
        }
    }
}

/// The animation a character plays, with the state it came from and when
/// it changed.
#[derive(Debug, Clone)]
pub struct AnimationControl {
    pub current_state: AnimationState,
    pub previous_state: AnimationState,
    /// When the state last changed
    pub state_change_time: std::time::Instant,
    /// How long a change of state counts as a transition
    pub transition_duration: Duration,
    /// Whether the last change was forced
    pub force_change: bool,
    /// Facing direction (0-7)
    pub direction: u8,
    pub loop_animation: bool,
    pub current_frame: u8,
}

impl AnimationControl {
    /// Idle, facing 0, on the first frame, looping; a change counts as a
    /// transition for 100 ms.
    pub fn new() -> (a: Self)
        ensures
            a.current_state == AnimationState::Idle,
            a.previous_state == AnimationState::Idle,
            a.transition_duration@ == 100_000_000,
            !a.force_change,
            a.direction == 0,
            a.loop_animation,
            a.current_frame == 0,
    {
        AnimationControl {
            current_state: AnimationState::Idle,
            previous_state: AnimationState::Idle,
            state_change_time: now(),
            transition_duration: Duration::new(0, 100_000_000),
            force_change: false,
            direction: 0,
            loop_animation: true,
            current_frame: 0,
        }
    }

    /// Changes to `state` unless it is the current one.
    pub fn set_state(&mut self, state: AnimationState)
        ensures
            old(self).current_state != state ==> final(self).current_state == state
                && final(self).previous_state == old(self).current_state && !final(self).force_change
                && final(self).current_frame == 0 && final(self).loop_animation == (state == AnimationState::Idle
                || state == AnimationState::Walk || state == AnimationState::Run || state == AnimationState::Harvest),
            old(self).current_state == state ==> final(self).current_state == old(self).current_state
                && final(self).previous_state == old(self).previous_state && final(self).force_change
                == old(self).force_change && final(self).current_frame == old(self).current_frame
                && final(self).loop_animation == old(self).loop_animation
                && final(self).state_change_time == old(self).state_change_time,
            final(self).direction == old(self).direction,
            final(self).transition_duration == old(self).transition_duration,
    {
        self.set_state_with_force(state, false);
    }

    /// Changes to `state`, also when it is the current one if `force` is set:
    /// the old state is kept as the previous one, the frame restarts and the
    /// animation loops as the state does.
    pub fn set_state_with_force(&mut self, state: AnimationState, force: bool)
        ensures
            (old(self).current_state != state || force) ==> final(self).current_state == state
                && final(self).previous_state == old(self).current_state && final(self).force_change == force
                && final(self).current_frame == 0 && final(self).loop_animation == (state == AnimationState::Idle
                || state == AnimationState::Walk || state == AnimationState::Run || state == AnimationState::Harvest),
            !(old(self).current_state != state || force) ==> final(self).current_state == old(self).current_state
                && final(self).previous_state == old(self).previous_state && final(self).force_change
                == old(self).force_change && final(self).current_frame == old(self).current_frame
                && final(self).loop_animation == old(self).loop_animation
                && final(self).state_change_time == old(self).state_change_time,
            final(self).direction == old(self).direction,
            final(self).transition_duration == old(self).transition_duration,
    {
        if self.current_state != state || force {
            self.previous_state = self.current_state;
            self.current_state = state;
            self.state_change_time = now();
            self.force_change = force;
            self.current_frame = 0;
            self.loop_animation = state.is_looping();
        }
    }

    /// How long ago the state changed (`Instant::elapsed`).
    pub fn state_duration(&self) -> std::time::Duration {
        elapsed(&self.state_change_time)
    }

    /// Whether a state that has lasted `elapsed` is still in transition.
    pub fn is_transitioning_after(&self, elapsed: Duration) -> (b: bool)
        ensures
            b == (elapsed@ < self.transition_duration@),
    {
        elapsed.as_nanos() < self.transition_duration.as_nanos()
    }

    /// Whether the state changed less than the transition duration ago. The
    /// time spent in the state is read from the clock, so the result is that
    /// of `is_transitioning_after` for some span: never true for a transition
    /// of no length.
    pub fn is_transitioning(&self) -> (b: bool)
        ensures
            b ==> self.transition_duration@ > 0,
    {
        let spent = self.state_duration();
        let d = from_std(&spent);
        self.is_transitioning_after(d)
    }

    /// Whether the animation is on its last frame or past it.
    pub fn is_finished(&self) -> (b: bool)
        ensures
            b == (self.current_frame >= self.current_state.spec_frame_count() - 1),
    {
        self.current_frame >= self.current_state.frame_count() - 1
    }
}

impl Default for AnimationControl {
    fn default() -> (a: Self)
        ensures
            a.current_state == AnimationState::Idle,
            a.previous_state == AnimationState::Idle,
            a.current_frame == 0,
            a.loop_animation,
    {
        Self::new()
    }
}

} // verus!
