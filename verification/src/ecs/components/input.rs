// Input components: target selection and movement modes.

use vstd::prelude::*;
use crate::time::now;

verus! {

/// What the player has selected.
#[derive(Debug, Clone, Copy, PartialEq, Eq, Structural)]
pub enum TargetType {
    /// Nothing is selected
    NoTarget,
    /// A monster entity id
    Monster(u32),
    /// A player entity id
    Player(u32),
    /// An NPC entity id
    NPC(u32),
    /// A ground location (x, y)
    Location(i32, i32),
}

/// The currently selected target.
#[derive(Debug, Clone, Copy)]
pub struct TargetSelection {
    pub current: TargetType,
    pub last_update: std::time::Instant,
}

impl TargetSelection {
    pub fn new() -> (t: Self)
        ensures
            t.current == TargetType::NoTarget,
    {
        TargetSelection { current: TargetType::NoTarget, last_update: now() }
    }

    pub fn select_monster(&mut self, id: u32)
        ensures
            final(self).current == TargetType::Monster(id),
    {
        self.current = TargetType::Monster(id);
        self.last_update = now();
    }

    pub fn select_player(&mut self, id: u32)
        ensures
            final(self).current == TargetType::Player(id),
    {
        self.current = TargetType::Player(id);
        self.last_update = now();
    }

    pub fn select_location(&mut self, x: i32, y: i32)
        ensures
            final(self).current == TargetType::Location(x, y),
    {
        self.current = TargetType::Location(x, y);
        self.last_update = now();
    }

    pub fn clear(&mut self)
        ensures
            final(self).current == TargetType::NoTarget,
    {
        self.current = TargetType::NoTarget;
        self.last_update = now();
    }

    pub fn has_target(&self) -> (b: bool)
        ensures
            b == (self.current != TargetType::NoTarget),
    {
        match self.current {
            TargetType::NoTarget => false,
            _ => true,
        }
    }

    /// The selected monster's id, when a monster is selected.
    pub fn get_monster_id(&self) -> (r: Option<u32>)
        ensures
            r == (match self.current {
                TargetType::Monster(id) => Some(id),
                _ => None,
            }),
    {
        match self.current {
            TargetType::Monster(id) => Some(id),
            _ => None,
        }
    }

    /// The selected ground location, when a location is selected.
    pub fn get_location(&self) -> (r: Option<(i32, i32)>)
        ensures
            r == (match self.current {
                TargetType::Location(x, y) => Some((x, y)),
                _ => None,
            }),
    {
        match self.current {
            TargetType::Location(x, y) => Some((x, y)),
            _ => None,
        }
    }
}

impl Default for TargetSelection {
    fn default() -> (t: Self)
        ensures
            t.current == TargetType::NoTarget,
    {
        Self::new()
    }
}

/// Movement modes of the player.
#[derive(Debug, Clone, Copy, PartialEq, Eq, Structural)]
pub enum MovementMode {
    /// Not moving
    NoMovement,
    /// Path finding (double click): follows a full path, continues after release
    Pathfinding,
    /// Direct following (long press): straight line, stops on release
    DirectFollow,
}

impl Default for MovementMode {
    fn default() -> (m: Self)
        ensures
            m == MovementMode::NoMovement,
    {
        MovementMode::NoMovement
    }
}

} // verus!
