// The player state machine.
//
//     Idle ──┬──> Walking ──> Idle
//            ├──> Running ──> Idle
//            ├──> Attacking ──> Idle
//            ├──> Casting ──> Idle
//            ├──> Hit ──> Idle
//            └──> Dead (final)

use vstd::prelude::*;
use crate::time::{as_millis, elapsed, now};

verus! {

/// Player states.
#[derive(Debug, Clone, Copy, PartialEq, Eq, Structural)]
pub enum PlayerState {
    /// Standing still
    Idle,
    /// Walking
    Walking,
    /// Running
    Running,
    /// Attacking
    Attacking,
    /// Casting a spell
    Casting,
    /// Being hit
    Hit,
    /// Dead; no state follows it
    Dead,
}

/// Which transitions the machine allows.
pub open spec fn can_transition(from: PlayerState, to: PlayerState) -> bool {
    match (from, to) {
        (PlayerState::Dead, _) => false,
        (_, PlayerState::Dead) => true,
        (PlayerState::Hit, PlayerState::Idle) => true,
        (PlayerState::Hit, _) => false,
        (PlayerState::Attacking, PlayerState::Idle) => true,
        (PlayerState::Attacking, _) => false,
        (PlayerState::Casting, PlayerState::Idle) => true,
        (PlayerState::Casting, _) => false,
        (PlayerState::Walking, PlayerState::Idle) => true,
        (PlayerState::Walking, PlayerState::Running) => true,
        (PlayerState::Walking, PlayerState::Walking) => true,
        (PlayerState::Running, PlayerState::Idle) => true,
        (PlayerState::Running, PlayerState::Walking) => true,
        (PlayerState::Running, PlayerState::Running) => true,
        (PlayerState::Idle, _) => true,
        _ => false,
    }
}

impl PlayerState {
    /// Frames of the state's animation.
    pub fn frame_count(&self) -> (n: i32)
        ensures
            n == match *self {
                PlayerState::Idle => 4i32,
                PlayerState::Walking => 6,
                PlayerState::Running => 6,
                PlayerState::Attacking => 6,
                PlayerState::Casting => 6,
                PlayerState::Hit => 2,
                PlayerState::Dead => 10,
            },
    {
        match self {
            PlayerState::Idle => 4,
            PlayerState::Walking => 6,
            PlayerState::Running => 6,
            PlayerState::Attacking => 6,
            PlayerState::Casting => 6,
            PlayerState::Hit => 2,
            PlayerState::Dead => 10,
        }
    }

    /// Milliseconds between frames of the state's animation.
    pub fn frame_interval(&self) -> (n: i32)
        ensures
            n == match *self {
                PlayerState::Idle => 300i32,
                PlayerState::Walking => 100,
                PlayerState::Running => 83,
                PlayerState::Attacking => 100,
                PlayerState::Casting => 120,
                PlayerState::Hit => 150,
                PlayerState::Dead => 200,
            },
    {
        match self {
            PlayerState::Idle => 300,
            PlayerState::Walking => 100,
            PlayerState::Running => 83,
            PlayerState::Attacking => 100,
            PlayerState::Casting => 120,
            PlayerState::Hit => 150,
            PlayerState::Dead => 200,
        }
    }

    /// Whether the machine may go from this state to `target`.
    pub fn can_transition_to(&self, target: PlayerState) -> (b: bool)
        ensures
            b == can_transition(*self, target),
    {
        match (self, target) {
            (PlayerState::Dead, _) => false,
            (_, PlayerState::Dead) => true,
            (PlayerState::Hit, PlayerState::Idle) => true,
            (PlayerState::Hit, _) => false,
            (PlayerState::Attacking, PlayerState::Idle) => true,
            (PlayerState::Attacking, _) => false,
            (PlayerState::Casting, PlayerState::Idle) => true,
            (PlayerState::Casting, _) => false,
            (PlayerState::Walking, PlayerState::Idle) => true,
            (PlayerState::Walking, PlayerState::Running) => true,
            (PlayerState::Walking, PlayerState::Walking) => true,
            (PlayerState::Running, PlayerState::Idle) => true,
            (PlayerState::Running, PlayerState::Walking) => true,
            (PlayerState::Running, PlayerState::Running) => true,
            (PlayerState::Idle, _) => true,
            _ => false,
        }
    }

    /// Walking and running are the moving states.
    pub fn is_moving(&self) -> (b: bool)
        ensures
            b == (*self == PlayerState::Walking || *self == PlayerState::Running),
    {
        match self {
            PlayerState::Walking | PlayerState::Running => true,
            _ => false,
        }
    }

    /// Attacking, casting and being hit are actions that play to their end.
    pub fn is_action(&self) -> (b: bool)
        ensures
            b == (*self == PlayerState::Attacking || *self == PlayerState::Casting || *self
                == PlayerState::Hit),
    {
        match self {
            PlayerState::Attacking | PlayerState::Casting | PlayerState::Hit => true,
            _ => false,
        }
    }
}

/// Input events that drive the machine.
#[derive(Debug, Clone, Copy, PartialEq, Eq, Structural)]
pub enum PlayerInputEvent {
    /// Start walking
    StartWalking,
    /// Start running
    StartRunning,
    /// Stop moving
    StopMoving,
    /// Attack
    Attack,
    /// Cast a spell
    CastSpell,
    /// Take damage
    TakeDamage,
    /// Die
    Die,
}

/// The state that an event asks for.
pub open spec fn event_target(e: PlayerInputEvent) -> PlayerState {
    match e {
        PlayerInputEvent::StartWalking => PlayerState::Walking,
        PlayerInputEvent::StartRunning => PlayerState::Running,
        PlayerInputEvent::StopMoving => PlayerState::Idle,
        PlayerInputEvent::Attack => PlayerState::Attacking,
        PlayerInputEvent::CastSpell => PlayerState::Casting,
        PlayerInputEvent::TakeDamage => PlayerState::Hit,
        PlayerInputEvent::Die => PlayerState::Dead,
    }
}

/// The part of the machine that transitions change: current state, previous
/// state and whether a transition is under way.
pub struct MachineView {
    pub current: PlayerState,
    pub previous: PlayerState,
    pub transitioning: bool,
}

/// The machine after a request to go to `target`: refused requests and
/// requests for the current state change nothing.
pub open spec fn after_transition(m: MachineView, target: PlayerState) -> MachineView {
    if can_transition(m.current, target) && m.current != target {
        MachineView { current: target, previous: m.current, transitioning: true }
    } else {
        m
    }
}

/// The machine after a sequence of input events, handled in order.
pub open spec fn after_events(m: MachineView, events: Seq<PlayerInputEvent>) -> MachineView
    decreases events.len(),
{
    if events.len() == 0 {
        m
    } else {
        after_events(after_transition(m, event_target(events[0])), events.drop_first())
    }
}

/// The player state machine component.
#[derive(Debug, Clone)]
pub struct PlayerStateMachine {
    /// Current state
    pub current_state: PlayerState,
    /// Previous state, to go back to
    pub previous_state: PlayerState,
    /// When the current state was entered
    pub state_enter_time: std::time::Instant,
    /// Whether a transition is under way
    pub is_transitioning: bool,
}

impl View for PlayerStateMachine {
    type V = MachineView;

    open spec fn view(&self) -> MachineView {
        MachineView {
            current: self.current_state,
            previous: self.previous_state,
            transitioning: self.is_transitioning,
        }
    }
}

impl PlayerStateMachine {
    pub fn new() -> (m: Self)
        ensures
            m.current_state == PlayerState::Idle,
            m.previous_state == PlayerState::Idle,
            !m.is_transitioning,
    {
        PlayerStateMachine {
            current_state: PlayerState::Idle,
            previous_state: PlayerState::Idle,
            state_enter_time: now(),
            is_transitioning: false,
        }
    }

    /// Requests a transition; returns whether it is allowed. An allowed
    /// transition to another state records the old one and starts a transition.
    pub fn transition_to(&mut self, new_state: PlayerState) -> (ok: bool)
        ensures
            ok == can_transition(old(self).current_state, new_state),
            final(self)@ == after_transition(old(self)@, new_state),
            !(ok && old(self).current_state != new_state) ==> *final(self) == *old(self),
    {
        if !self.current_state.can_transition_to(new_state) {
            return false;
        }
        if self.current_state != new_state {
            self.previous_state = self.current_state;
            self.current_state = new_state;
            self.state_enter_time = now();
            self.is_transitioning = true;
        }
        true
    }

    /// Milliseconds spent in the current state. Nothing is stated of the value:
    /// it depends on the time of the call.
    pub fn state_duration(&self) -> u64 {
        let d = elapsed(&self.state_enter_time);
        let ms = as_millis(&d);
        ms as u64
    }

    /// Requests a transition back to the previous state.
    pub fn revert_to_previous(&mut self)
        ensures
            final(self)@ == after_transition(old(self)@, old(self).previous_state),
            after_transition(old(self)@, old(self).previous_state) == old(self)@ ==> *final(self)
                == *old(self),
    {
        let prev = self.previous_state;
        self.transition_to(prev);
    }

    /// Marks the transition as finished.
    pub fn complete_transition(&mut self)
        ensures
            final(self).current_state == old(self).current_state,
            final(self).previous_state == old(self).previous_state,
            !final(self).is_transitioning,
            final(self).state_enter_time == old(self).state_enter_time,
    {
        self.is_transitioning = false;
    }

    pub fn is_in_state(&self, state: PlayerState) -> (b: bool)
        ensures
            b == (self.current_state == state),
    {
        self.current_state == state
    }

    /// Handles an input event by requesting the state it asks for.
    pub fn handle_event(&mut self, event: PlayerInputEvent)
        ensures
            final(self)@ == after_transition(old(self)@, event_target(event)),
            after_transition(old(self)@, event_target(event)) == old(self)@ ==> *final(self)
                == *old(self),
    {
        let new_state = match event {
            PlayerInputEvent::StartWalking => PlayerState::Walking,
            PlayerInputEvent::StartRunning => PlayerState::Running,
            PlayerInputEvent::StopMoving => PlayerState::Idle,
            PlayerInputEvent::Attack => PlayerState::Attacking,
            PlayerInputEvent::CastSpell => PlayerState::Casting,
            PlayerInputEvent::TakeDamage => PlayerState::Hit,
            PlayerInputEvent::Die => PlayerState::Dead,
        };
        self.transition_to(new_state);
    }
}

impl Default for PlayerStateMachine {
    fn default() -> (m: Self)
        ensures
            m.current_state == PlayerState::Idle,
            m.previous_state == PlayerState::Idle,
            !m.is_transitioning,
    {
        Self::new()
    }
}

/// Death is final: once dead, no sequence of events brings the player back.
pub proof fn lemma_dead_is_final(m: MachineView, events: Seq<PlayerInputEvent>)
    requires
        m.current == PlayerState::Dead,
    ensures
        after_events(m, events) == m,
    decreases events.len(),
{
    if events.len() > 0 {
        lemma_dead_is_final(after_transition(m, event_target(events[0])), events.drop_first());
    }
}

/// A living player that receives `Die` is dead, whatever it was doing.
pub proof fn lemma_die_always_kills(m: MachineView)
    requires
        m.current != PlayerState::Dead,
    ensures
        after_transition(m, event_target(PlayerInputEvent::Die)).current == PlayerState::Dead,
        after_transition(m, event_target(PlayerInputEvent::Die)).previous == m.current,
{
}

/// An action (attack, cast, hit) is only left for idle or death.
pub proof fn lemma_actions_end_in_idle_or_death(m: MachineView, target: PlayerState)
    requires
        m.current == PlayerState::Attacking || m.current == PlayerState::Casting || m.current
            == PlayerState::Hit,
    ensures
        after_transition(m, target).current == m.current
            || after_transition(m, target).current == PlayerState::Idle
            || after_transition(m, target).current == PlayerState::Dead,
{
}

/// Every state the machine reaches from idle through events is one of its states
/// reached by allowed transitions: the previous state always could go to the current one.
pub proof fn lemma_previous_leads_to_current(m: MachineView, target: PlayerState)
    requires
        after_transition(m, target) != m,
    ensures
        can_transition(after_transition(m, target).previous, after_transition(m, target).current),
        after_transition(m, target).transitioning,
{
}

/// What the machine allows, over every pair of states: a living player can
/// always stop (go back to idle) and can always die; the dead go nowhere;
/// attacking, casting and being hit are left only for idle or death; idle
/// can start anything; walking and running switch freely between each
/// other.
pub proof fn lemma_transition_rules(from: PlayerState, to: PlayerState)
    ensures
        from != PlayerState::Dead ==> can_transition(from, PlayerState::Idle),
        from != PlayerState::Dead ==> can_transition(from, PlayerState::Dead),
        from == PlayerState::Dead ==> !can_transition(from, to),
        (from == PlayerState::Attacking || from == PlayerState::Casting || from == PlayerState::Hit)
            ==> (can_transition(from, to) <==> (to == PlayerState::Idle || to == PlayerState::Dead)),
        from == PlayerState::Idle ==> can_transition(from, to),
        (from == PlayerState::Walking || from == PlayerState::Running) ==> (can_transition(from, to) <==> (
        to != PlayerState::Attacking && to != PlayerState::Casting && to != PlayerState::Hit)),
{
}

/// Stopping takes every living player back to idle, through the machine's
/// own request: an attack, a cast or a hit ends this way.
pub proof fn lemma_stop_returns_to_idle(m: MachineView)
    requires
        m.current != PlayerState::Dead,
    ensures
        after_transition(m, event_target(PlayerInputEvent::StopMoving)).current == PlayerState::Idle,
{
}

} // verus!
