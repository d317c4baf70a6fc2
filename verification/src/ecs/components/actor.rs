// Monster and NPC components.

use vstd::prelude::*;

verus! {

/// AI modes of a monster.
#[derive(Debug, Clone, Copy, PartialEq, Eq, Structural)]
pub enum AIMode {
    Idle,
    Patrol,
    Chase,
    Attack,
    Retreat,
}

/// AI actions of a monster.
#[derive(Debug, Clone, Copy, PartialEq, Eq, Structural)]
pub enum AIAction {
    Idle,
    Patrol,
    Chase,
    Attack,
    Retreat,
}

/// NPC data component.
#[derive(Debug, Clone)]
pub struct NPCData {
    pub id: u32,
    pub name: String,
    pub npc_index: u16,
    pub dialogue_id: u32,
    /// Tint colour (ARGB)
    pub colour: i32,
    /// Action switch timer (milliseconds)
    pub action_timer: u32,
    /// Delay before the next action switch (milliseconds)
    pub next_action_delay: u32,
}

/// Quest icons shown above an NPC.
#[derive(Debug, Clone, Copy, PartialEq, Eq, Structural)]
pub enum QuestIcon {
    /// No quest
    NoQuest,
    /// A quest can be accepted (yellow exclamation mark)
    Available,
    /// A quest can be handed in (yellow question mark)
    Complete,
    /// A quest is in progress (grey question mark)
    Incomplete,
}

/// Quest marker component.
#[derive(Debug, Clone, Copy)]
pub struct QuestMarker {
    pub icon: QuestIcon,
}

impl QuestMarker {
    pub fn new(icon: QuestIcon) -> (m: Self)
        ensures
            m.icon == icon,
    {
        QuestMarker { icon }
    }
}

/// NPC component.
#[derive(Debug, Clone)]
pub struct NPC {
    pub name: String,
    pub npc_type: String,
    pub can_interact: bool,
}

impl NPC {
    pub fn new(name: String, npc_type: String) -> (n: Self)
        ensures
            n.name == name,
            n.npc_type == npc_type,
            n.can_interact,
    {
        NPC { name, npc_type, can_interact: true }
    }
}

/// AI states of a monster component.
#[derive(Debug, Clone, Copy, PartialEq, Eq, Structural)]
pub enum MonsterAIState {
    Idle,
    Patrol,
    Chase,
    Attack,
    Dead,
}

/// Monster component.
#[derive(Debug, Clone)]
pub struct Monster {
    pub name: String,
    pub monster_type: u16,
    pub ai_state: MonsterAIState,
    pub target_id: Option<u32>,
}

impl Monster {
    pub fn new(name: String, monster_type: u16) -> (m: Self)
        ensures
            m.name == name,
            m.monster_type == monster_type,
            m.ai_state == MonsterAIState::Idle,
            m.target_id is None,
    {
        Monster { name, monster_type, ai_state: MonsterAIState::Idle, target_id: None }
    }
}

} // verus!
