// Player components: identity, actions, appearance, visibility and guild membership.

use vstd::prelude::*;
use crate::shared::{MirAction, MirClass, MirDirection, MirGender};

verus! {

/// Identity of a player character.
#[derive(Debug, Clone)]
pub struct PlayerData {
    pub id: u32,
    pub name: String,
    pub class: MirClass,
    pub gender: MirGender,
    /// Level, kept for display and level checks
    pub level: u16,
}

/// Marks the local player (there is one).
#[derive(Debug, Clone, Copy)]
pub struct LocalPlayer;

/// Marks a player synchronised over the network.
#[derive(Debug, Clone, Copy)]
pub struct RemotePlayer {
    pub id: u32,
}

/// Another player as the client sees it.
#[derive(Debug, Clone)]
pub struct OtherPlayer {
    pub name: String,
    pub class: MirClass,
    pub gender: MirGender,
    pub level: u16,
    pub guild_name: Option<String>,
}

impl OtherPlayer {
    pub fn new(name: String, class: MirClass, gender: MirGender, level: u16) -> (p: Self)
        ensures
            p.name == name,
            p.class == class,
            p.gender == gender,
            p.level == level,
            p.guild_name is None,
    {
        OtherPlayer { name, class, gender, level, guild_name: None }
    }
}

/// Player actions.
#[derive(Debug, Clone, Copy, PartialEq, Eq, Structural)]
pub enum PlayerAction {
    Stand,
    Walk,
    Run,
    /// First attack
    Attack1,
    /// Second attack
    Attack2,
    /// Third attack
    Attack3,
}

impl PlayerAction {
    pub open spec fn spec_frame_count(self) -> i32 {
        match self {
            PlayerAction::Stand => 4,
            _ => 6,
        }
    }

    pub open spec fn spec_frame_interval(self) -> i32 {
        match self {
            PlayerAction::Stand => 30,
            PlayerAction::Walk => 4,
            PlayerAction::Run => 2,
            _ => 1,
        }
    }

    /// The matching object action.
    pub fn to_mir_action(&self) -> (a: MirAction)
        ensures
            a == match *self {
                PlayerAction::Stand => MirAction::Standing,
                PlayerAction::Walk => MirAction::Walking,
                PlayerAction::Run => MirAction::Running,
                PlayerAction::Attack1 => MirAction::Attack1,
                PlayerAction::Attack2 => MirAction::Attack2,
                PlayerAction::Attack3 => MirAction::Attack3,
            },
    {
        match self {
            PlayerAction::Stand => MirAction::Standing,
            PlayerAction::Walk => MirAction::Walking,
            PlayerAction::Run => MirAction::Running,
            PlayerAction::Attack1 => MirAction::Attack1,
            PlayerAction::Attack2 => MirAction::Attack2,
            PlayerAction::Attack3 => MirAction::Attack3,
        }
    }

    /// Whether the action is one of the attacks.
    pub fn is_attack(&self) -> (b: bool)
        ensures
            b == (*self == PlayerAction::Attack1 || *self == PlayerAction::Attack2 || *self
                == PlayerAction::Attack3),
    {
        match self {
            PlayerAction::Attack1 | PlayerAction::Attack2 | PlayerAction::Attack3 => true,
            _ => false,
        }
    }

    /// Frames of the action (the frame tables supersede these numbers).
    pub fn frame_count(&self) -> (n: i32)
        ensures
            n == self.spec_frame_count(),
    {
        match self {
            PlayerAction::Stand => 4,
            PlayerAction::Walk => 6,
            PlayerAction::Run => 6,
            PlayerAction::Attack1 => 6,
            PlayerAction::Attack2 => 6,
            PlayerAction::Attack3 => 6,
        }
    }

    /// Ticks between frames (the frame tables supersede these numbers).
    pub fn frame_interval(&self) -> (n: i32)
        ensures
            n == self.spec_frame_interval(),
    {
        match self {
            PlayerAction::Stand => 30,
            PlayerAction::Walk => 4,
            PlayerAction::Run => 2,
            PlayerAction::Attack1 => 1,
            PlayerAction::Attack2 => 1,
            PlayerAction::Attack3 => 1,
        }
    }

    /// Duration of the action in milliseconds: frames times interval times 100.
    pub fn duration_ms(&self) -> (d: u64)
        ensures
            d == self.spec_frame_count() * self.spec_frame_interval() * 100,
    {
        (self.frame_count() * self.frame_interval() * 100) as u64
    }

    /// First frame of the action in the character library.
    pub fn frame_start(&self) -> (n: i32)
        ensures
            n == match *self {
                PlayerAction::Stand => 0i32,
                PlayerAction::Walk => 32,
                PlayerAction::Run => 80,
                PlayerAction::Attack1 => 128,
                PlayerAction::Attack2 => 176,
                PlayerAction::Attack3 => 224,
            },
    {
        match self {
            PlayerAction::Stand => 0,
            PlayerAction::Walk => 32,
            PlayerAction::Run => 80,
            PlayerAction::Attack1 => 128,
            PlayerAction::Attack2 => 176,
            PlayerAction::Attack3 => 224,
        }
    }
}

/// The core state of a character: where it faces and what it does.
#[derive(Debug, Clone)]
pub struct Player {
    /// Facing direction
    pub direction: MirDirection,
    /// Current action, written by the player control system only
    pub action: PlayerAction,
}

/// An attack in progress.
#[derive(Debug, Clone, Copy)]
pub struct AttackState {
    /// When the attack started
    pub start_time: std::time::Instant,
    /// Which attack
    pub attack_type: PlayerAction,
}

/// Movement modes.
#[derive(Debug, Clone, Copy, PartialEq, Eq, Structural)]
pub enum MoveMode {
    Idle,
    DirectFollow,
    AutoPathfinding,
}

/// What a player looks like.
#[derive(Debug, Clone)]
pub struct PlayerAppearance {
    pub class: MirClass,
    pub gender: MirGender,
    pub hair: u8,
    pub weapon: i16,
    pub armour: i16,
    pub weapon_effect: i16,
    pub wing_effect: u8,
}

impl Default for PlayerAppearance {
    fn default() -> (a: Self)
        ensures
            a.class == MirClass::Warrior,
            a.gender == MirGender::Male,
            a.hair == 0,
            a.weapon == -1,
            a.armour == 0,
            a.weapon_effect == 0,
            a.wing_effect == 0,
    {
        PlayerAppearance {
            class: MirClass::Warrior,
            gender: MirGender::Male,
            hair: 0,
            weapon: -1,
            armour: 0,
            weapon_effect: 0,
            wing_effect: 0,
        }
    }
}

/// Whether an entity is drawn.
#[derive(Debug, Clone, Copy)]
pub struct Visibility {
    /// Hidden (hiding spell, stealth)
    pub hidden: bool,
    /// Dead
    pub dead: bool,
}

impl Visibility {
    pub fn new() -> (v: Self)
        ensures
            !v.hidden,
            !v.dead,
    {
        Visibility { hidden: false, dead: false }
    }

    pub fn is_visible(&self) -> (b: bool)
        ensures
            b == !self.hidden,
    {
        !self.hidden
    }
}

impl Default for Visibility {
    fn default() -> (v: Self)
        ensures
            !v.hidden,
            !v.dead,
    {
        Self::new()
    }
}

/// Membership of a guild; rank 0 is the leader, 1 an officer, 2 a member.
#[derive(Debug, Clone)]
pub struct GuildMembership {
    pub guild_name: String,
    pub rank: u8,
}

impl GuildMembership {
    pub fn new(guild_name: String, rank: u8) -> (g: Self)
        ensures
            g.guild_name == guild_name,
            g.rank == rank,
    {
        GuildMembership { guild_name, rank }
    }

    pub fn is_leader(&self) -> (b: bool)
        ensures
            b == (self.rank == 0),
    {
        self.rank == 0
    }

    pub fn is_officer(&self) -> (b: bool)
        ensures
            b == (self.rank <= 1),
    {
        self.rank <= 1
    }
}

} // verus!
