// ECS components. The submodules hold the components by topic; this module
// also holds the components of the earlier flat layout, which the map viewer
// and the magic system still use.

pub mod actor;
pub mod animation_state;
pub mod base;
pub mod combat;
pub mod input;
pub mod item;
pub mod map;
pub mod movement;
pub mod network;
pub mod player;
pub mod prediction;
pub mod render;
pub mod state_machine;

pub use self::actor::{AIAction, AIMode, Monster, MonsterAIState, NPCData, QuestIcon, QuestMarker, NPC};
pub use self::base::Sprite;
pub use self::combat::{CombatStats, Health, Mana};
pub use self::input::{TargetSelection, TargetType};
pub use self::item::{Equipment, GroundItem, Inventory, ItemDrop};
pub use self::map::{AnimatedTile, Door, DoorState, MapData, MapTile, TileBrightness, TileLayer, CELL_HEIGHT, CELL_WIDTH};
pub use self::network::{Lifetime, NetworkObjectType, NetworkSync};
pub use self::player::{LocalPlayer, MoveMode, OtherPlayer, PlayerAppearance, RemotePlayer};
pub use self::render::{RenderConfig, RenderLayer, RenderOrder};
pub use crate::objects::SpriteBlendMode;
pub use crate::shared::{MirAction, MirClass, MirDirection, MirGender};

use vstd::prelude::*;
use crate::controls::types::Point;

verus! {

/// A frame animation driven by elapsed milliseconds.
#[derive(Debug, Clone)]
pub struct Animation {
    pub action: MirAction,
    /// Direction 0-7
    pub direction: u8,
    pub frame_count: u8,
    pub frame_index: u8,
    /// Milliseconds per frame
    pub frame_interval: u32,
    pub frame_timer: u32,
    pub loop_animation: bool,
}

impl Animation {
    pub fn new(action: MirAction, frame_count: u8, frame_interval: u32) -> (a: Self)
        ensures
            a.action == action,
            a.direction == 0,
            a.frame_count == frame_count,
            a.frame_index == 0,
            a.frame_interval == frame_interval,
            a.frame_timer == 0,
            a.loop_animation,
    {
        Animation {
            action,
            direction: 0,
            frame_count,
            frame_index: 0,
            frame_interval,
            frame_timer: 0,
            loop_animation: true,
        }
    }

    /// Whether the next `update(delta_ms)` reaches the end of a frame.
    pub open spec fn frame_ends(self, delta_ms: u32) -> bool {
        self.frame_timer + delta_ms >= self.frame_interval
    }

    /// Advances by `delta_ms`. When a frame ends the timer restarts and the
    /// next frame begins; past the last frame a looping animation starts over
    /// and any other stays on its last frame and reports that it finished.
    pub fn update(&mut self, delta_ms: u32) -> (finished: bool)
        requires
            old(self).frame_timer + delta_ms <= u32::MAX,
            old(self).frame_ends(delta_ms) ==> old(self).frame_index < 255,
            old(self).frame_ends(delta_ms) && !old(self).loop_animation && old(self).frame_index + 1
                >= old(self).frame_count ==> old(self).frame_count >= 1,
        ensures
            !old(self).frame_ends(delta_ms) ==> !finished && final(self).frame_timer == old(
                self,
            ).frame_timer + delta_ms && final(self).frame_index == old(self).frame_index,
            old(self).frame_ends(delta_ms) ==> final(self).frame_timer == 0,
            old(self).frame_ends(delta_ms) && old(self).frame_index + 1 < old(self).frame_count
                ==> !finished && final(self).frame_index == old(self).frame_index + 1,
            old(self).frame_ends(delta_ms) && old(self).frame_index + 1 >= old(self).frame_count
                && old(self).loop_animation ==> !finished && final(self).frame_index == 0,
            old(self).frame_ends(delta_ms) && old(self).frame_index + 1 >= old(self).frame_count
                && !old(self).loop_animation ==> finished && final(self).frame_index == old(
                self,
            ).frame_count - 1,
            final(self).frame_count == old(self).frame_count,
            final(self).frame_interval == old(self).frame_interval,
            final(self).loop_animation == old(self).loop_animation,
            final(self).action == old(self).action,
            final(self).direction == old(self).direction,
    {
        self.frame_timer = self.frame_timer + delta_ms;
        if self.frame_timer >= self.frame_interval {
            self.frame_timer = 0;
            self.frame_index = self.frame_index + 1;
            if self.frame_index >= self.frame_count {
                if self.loop_animation {
                    self.frame_index = 0;
                } else {
                    self.frame_index = self.frame_count - 1;
                    return true;
                }
            }
        }
        false
    }
}

/// Identity and wealth of a player character.
#[derive(Debug, Clone)]
pub struct PlayerData {
    pub id: u32,
    pub name: String,
    pub class: MirClass,
    pub gender: MirGender,
    pub exp: i64,
    pub gold: u32,
}

/// A spell being cast.
#[derive(Debug, Clone)]
pub struct SpellData {
    pub spell_id: u16,
    pub caster_id: u32,
    pub target_pos: Point,
    pub power: i32,
}

/// Actions of the viewer's controllable character.
#[derive(Debug, Clone, Copy, PartialEq, Eq, Structural)]
pub enum PlayerAction {
    Stand,
    Walk,
    Run,
}

impl PlayerAction {
    pub fn frame_count(&self) -> (n: i32)
        ensures
            n == match *self {
                PlayerAction::Stand => 4i32,
                PlayerAction::Walk => 6,
                PlayerAction::Run => 6,
            },
    {
        match self {
            PlayerAction::Stand => 4,
            PlayerAction::Walk => 6,
            PlayerAction::Run => 6,
        }
    }

    pub fn frame_interval(&self) -> (n: i32)
        ensures
            n == match *self {
                PlayerAction::Stand => 30i32,
                PlayerAction::Walk => 6,
                PlayerAction::Run => 5,
            },
    {
        match self {
            PlayerAction::Stand => 30,
            PlayerAction::Walk => 6,
            PlayerAction::Run => 5,
        }
    }

    pub fn frame_start(&self) -> (n: i32)
        ensures
            n == match *self {
                PlayerAction::Stand => 0i32,
                PlayerAction::Walk => 32,
                PlayerAction::Run => 80,
            },
    {
        match self {
            PlayerAction::Stand => 0,
            PlayerAction::Walk => 32,
            PlayerAction::Run => 80,
        }
    }
}

/// Frames of an action's animation.
pub open spec fn action_frame_count(a: PlayerAction) -> i32 {
    match a {
        PlayerAction::Stand => 4i32,
        PlayerAction::Walk => 6,
        PlayerAction::Run => 6,
    }
}

/// Ticks each frame of an action's animation is shown.
pub open spec fn action_frame_interval(a: PlayerAction) -> i32 {
    match a {
        PlayerAction::Stand => 30i32,
        PlayerAction::Walk => 6,
        PlayerAction::Run => 5,
    }
}

/// The animation frame of a player on the map: the action, the frame shown,
/// the ticks already spent on it and whether the player moves.
#[derive(Debug, Clone, Copy, PartialEq, Eq, Structural)]
pub struct PlayerFrame {
    pub action: PlayerAction,
    pub frame_index: i32,
    pub frame_time: i32,
    pub is_moving: bool,
}

/// The frame after one tick. A moving player walks, or runs when `running`,
/// and counts the tick; once the ticks reach the action's interval they
/// restart and the next frame shows, the first again after the last. A player
/// that does not move stands on the first frame.
pub open spec fn stepped_frame(f: PlayerFrame, moving: bool, running: bool) -> PlayerFrame {
    if moving {
        let action = if running {
            PlayerAction::Run
        } else {
            PlayerAction::Walk
        };
        let t = f.frame_time + 1;
        if t >= action_frame_interval(action) {
            let i = f.frame_index + 1;
            PlayerFrame {
                action,
                frame_index: if i >= action_frame_count(action) {
                    0
                } else {
                    i as i32
                },
                frame_time: 0,
                is_moving: true,
            }
        } else {
            PlayerFrame { action, frame_index: f.frame_index, frame_time: t as i32, is_moving: true }
        }
    } else {
        PlayerFrame { action: PlayerAction::Stand, frame_index: 0, frame_time: 0, is_moving: false }
    }
}

impl PlayerFrame {
    /// Standing on the first frame.
    pub fn new() -> (f: Self)
        ensures
            f == (PlayerFrame { action: PlayerAction::Stand, frame_index: 0, frame_time: 0, is_moving: false }),
    {
        PlayerFrame { action: PlayerAction::Stand, frame_index: 0, frame_time: 0, is_moving: false }
    }

    /// Advances the animation by one tick; whether the player moves, and
    /// whether it runs, is decided from its speed by the caller.
    pub fn step(&mut self, moving: bool, running: bool)
        requires
            moving ==> old(self).frame_time < i32::MAX,
            moving ==> old(self).frame_index < i32::MAX,
        ensures
            *final(self) == stepped_frame(*old(self), moving, running),
    {
        if moving {
            self.is_moving = true;
            self.action = if running {
                PlayerAction::Run
            } else {
                PlayerAction::Walk
            };
            self.frame_time = self.frame_time + 1;
            let frame_interval = self.action.frame_interval();
            if self.frame_time >= frame_interval {
                self.frame_time = 0;
                self.frame_index = self.frame_index + 1;
                let frame_count = self.action.frame_count();
                if self.frame_index >= frame_count {
                    self.frame_index = 0;
                }
            }
        } else {
            self.is_moving = false;
            self.action = PlayerAction::Stand;
            self.frame_index = 0;
            self.frame_time = 0;
        }
    }
}

/// Spells and skills; the five classes own the number ranges 1-17, 31-55,
/// 61-86, 91-107 and 121-141.
#[derive(Debug, Clone, Copy, PartialEq, Eq, Structural, Hash)]
pub enum SpellType {
    NoSpell,
    Fencing,
    Slaying,
    Thrusting,
    HalfMoon,
    ShoulderDash,
    TwinDrakeBlade,
    Entrapment,
    FlamingSword,
    LionRoar,
    CrossHalfMoon,
    BladeAvalanche,
    ProtectionField,
    Rage,
    CounterAttack,
    SlashingBurst,
    Fury,
    ImmortalSkin,
    FireBall,
    Repulsion,
    ElectricShock,
    GreatFireBall,
    HellFire,
    ThunderBolt,
    Teleport,
    FireBang,
    FireWall,
    Lightning,
    FrostCrunch,
    ThunderStorm,
    MagicShield,
    TurnUndead,
    Vampirism,
    IceStorm,
    FlameDisruptor,
    Mirroring,
    FlameField,
    Blizzard,
    MagicBooster,
    MeteorStrike,
    IceThrust,
    FastMove,
    StormEscape,
    Healing,
    SpiritSword,
    Poisoning,
    SoulFireBall,
    SummonSkeleton,
    Hiding,
    MassHiding,
    SoulShield,
    Revelation,
    BlessedArmour,
    EnergyRepulsor,
    TrapHexagon,
    Purification,
    MassHealing,
    Hallucination,
    UltimateEnhancer,
    SummonShinsu,
    Reincarnation,
    SummonHolyDeva,
    Curse,
    Plague,
    PoisonCloud,
    EnergyShield,
    PetEnhancer,
    HealingCircle,
    FatalSword,
    DoubleSlash,
    Haste,
    FlashDash,
    LightBody,
    HeavenlySword,
    FireBurst,
    Trap,
    PoisonSword,
    MoonLight,
    MPEater,
    SwiftFeet,
    DarkBody,
    Hemorrhage,
    CrescentSlash,
    MoonMist,
    CatTongue,
    Focus,
    StraightShot,
    DoubleShot,
    ExplosiveTrap,
    DelayedExplosion,
    Meditation,
    BackStep,
    ElementalShot,
    Concentration,
    Stonetrap,
    ElementalBarrier,
    SummonVampire,
    VampireShot,
    SummonToad,
    PoisonShot,
    CrippleShot,
    SummonSnakes,
    NapalmShot,
    OneWithNature,
    BindingShot,
    MentalState,
}

/// The number of a spell in the game data.
pub open spec fn spell_number(s: SpellType) -> u8 {
    match s {
            SpellType::NoSpell => 0u8,
            SpellType::Fencing => 1u8,
            SpellType::Slaying => 2u8,
            SpellType::Thrusting => 3u8,
            SpellType::HalfMoon => 4u8,
            SpellType::ShoulderDash => 5u8,
            SpellType::TwinDrakeBlade => 6u8,
            SpellType::Entrapment => 7u8,
            SpellType::FlamingSword => 8u8,
            SpellType::LionRoar => 9u8,
            SpellType::CrossHalfMoon => 10u8,
            SpellType::BladeAvalanche => 11u8,
            SpellType::ProtectionField => 12u8,
            SpellType::Rage => 13u8,
            SpellType::CounterAttack => 14u8,
            SpellType::SlashingBurst => 15u8,
            SpellType::Fury => 16u8,
            SpellType::ImmortalSkin => 17u8,
            SpellType::FireBall => 31u8,
            SpellType::Repulsion => 32u8,
            SpellType::ElectricShock => 33u8,
            SpellType::GreatFireBall => 34u8,
            SpellType::HellFire => 35u8,
            SpellType::ThunderBolt => 36u8,
            SpellType::Teleport => 37u8,
            SpellType::FireBang => 38u8,
            SpellType::FireWall => 39u8,
            SpellType::Lightning => 40u8,
            SpellType::FrostCrunch => 41u8,
            SpellType::ThunderStorm => 42u8,
            SpellType::MagicShield => 43u8,
            SpellType::TurnUndead => 44u8,
            SpellType::Vampirism => 45u8,
            SpellType::IceStorm => 46u8,
            SpellType::FlameDisruptor => 47u8,
            SpellType::Mirroring => 48u8,
            SpellType::FlameField => 49u8,
            SpellType::Blizzard => 50u8,
            SpellType::MagicBooster => 51u8,
            SpellType::MeteorStrike => 52u8,
            SpellType::IceThrust => 53u8,
            SpellType::FastMove => 54u8,
            SpellType::StormEscape => 55u8,
            SpellType::Healing => 61u8,
            SpellType::SpiritSword => 62u8,
            SpellType::Poisoning => 63u8,
            SpellType::SoulFireBall => 64u8,
            SpellType::SummonSkeleton => 65u8,
            SpellType::Hiding => 67u8,
            SpellType::MassHiding => 68u8,
            SpellType::SoulShield => 69u8,
            SpellType::Revelation => 70u8,
            SpellType::BlessedArmour => 71u8,
            SpellType::EnergyRepulsor => 72u8,
            SpellType::TrapHexagon => 73u8,
            SpellType::Purification => 74u8,
            SpellType::MassHealing => 75u8,
            SpellType::Hallucination => 76u8,
            SpellType::UltimateEnhancer => 77u8,
            SpellType::SummonShinsu => 78u8,
            SpellType::Reincarnation => 79u8,
            SpellType::SummonHolyDeva => 80u8,
            SpellType::Curse => 81u8,
            SpellType::Plague => 82u8,
            SpellType::PoisonCloud => 83u8,
            SpellType::EnergyShield => 84u8,
            SpellType::PetEnhancer => 85u8,
            SpellType::HealingCircle => 86u8,
            SpellType::FatalSword => 91u8,
            SpellType::DoubleSlash => 92u8,
            SpellType::Haste => 93u8,
            SpellType::FlashDash => 94u8,
            SpellType::LightBody => 95u8,
            SpellType::HeavenlySword => 96u8,
            SpellType::FireBurst => 97u8,
            SpellType::Trap => 98u8,
            SpellType::PoisonSword => 99u8,
            SpellType::MoonLight => 100u8,
            SpellType::MPEater => 101u8,
            SpellType::SwiftFeet => 102u8,
            SpellType::DarkBody => 103u8,
            SpellType::Hemorrhage => 104u8,
            SpellType::CrescentSlash => 105u8,
            SpellType::MoonMist => 106u8,
            SpellType::CatTongue => 107u8,
            SpellType::Focus => 121u8,
            SpellType::StraightShot => 122u8,
            SpellType::DoubleShot => 123u8,
            SpellType::ExplosiveTrap => 124u8,
            SpellType::DelayedExplosion => 125u8,
            SpellType::Meditation => 126u8,
            SpellType::BackStep => 127u8,
            SpellType::ElementalShot => 128u8,
            SpellType::Concentration => 129u8,
            SpellType::Stonetrap => 130u8,
            SpellType::ElementalBarrier => 131u8,
            SpellType::SummonVampire => 132u8,
            SpellType::VampireShot => 133u8,
            SpellType::SummonToad => 134u8,
            SpellType::PoisonShot => 135u8,
            SpellType::CrippleShot => 136u8,
            SpellType::SummonSnakes => 137u8,
            SpellType::NapalmShot => 138u8,
            SpellType::OneWithNature => 139u8,
            SpellType::BindingShot => 140u8,
            SpellType::MentalState => 141u8,
    }
}

/// The display name of a spell; spells without one are "unknown skill".
pub open spec fn spell_name(s: SpellType) -> Seq<char> {
    match s {
            SpellType::NoSpell => "无"@,
            SpellType::Fencing => "基本剑术"@,
            SpellType::Slaying => "攻杀剑术"@,
            SpellType::Thrusting => "刺杀剑术"@,
            SpellType::HalfMoon => "半月弯刀"@,
            SpellType::ShoulderDash => "野蛮冲撞"@,
            SpellType::LionRoar => "狮子吼"@,
            SpellType::FireBall => "火球术"@,
            SpellType::GreatFireBall => "大火球"@,
            SpellType::HellFire => "地狱火"@,
            SpellType::ThunderBolt => "雷电术"@,
            SpellType::Teleport => "瞬息移动"@,
            SpellType::Lightning => "疾光电影"@,
            SpellType::MagicShield => "魔法盾"@,
            SpellType::Healing => "治愈术"@,
            SpellType::SpiritSword => "精神力战法"@,
            SpellType::Poisoning => "施毒术"@,
            SpellType::SummonSkeleton => "召唤骷髅"@,
            SpellType::Hiding => "隐身术"@,
            SpellType::SoulShield => "幽灵盾"@,
            SpellType::FatalSword => "致命剑术"@,
            SpellType::DoubleSlash => "双倍斩"@,
            SpellType::Haste => "加速"@,
            SpellType::FlashDash => "闪避"@,
            SpellType::Focus => "集中"@,
            SpellType::StraightShot => "直射"@,
            SpellType::DoubleShot => "双射"@,
            SpellType::Meditation => "冥想"@,
            _ => "未知技能"@,
    }
}

/// The class that learns a spell, by number range; warrior when none matches.
pub open spec fn class_of_spell_number(id: u8) -> MirClass {
    if 1 <= id <= 17 {
        MirClass::Warrior
    } else if 31 <= id <= 55 {
        MirClass::Wizard
    } else if 61 <= id <= 86 {
        MirClass::Taoist
    } else if 91 <= id <= 107 {
        MirClass::Assassin
    } else if 121 <= id <= 141 {
        MirClass::Archer
    } else {
        MirClass::Warrior
    }
}

impl SpellType {
    /// The number of the spell in the game data.
    pub fn number(&self) -> (n: u8)
        ensures
            n == spell_number(*self),
    {
        match self {
            SpellType::NoSpell => 0,
            SpellType::Fencing => 1,
            SpellType::Slaying => 2,
            SpellType::Thrusting => 3,
            SpellType::HalfMoon => 4,
            SpellType::ShoulderDash => 5,
            SpellType::TwinDrakeBlade => 6,
            SpellType::Entrapment => 7,
            SpellType::FlamingSword => 8,
            SpellType::LionRoar => 9,
            SpellType::CrossHalfMoon => 10,
            SpellType::BladeAvalanche => 11,
            SpellType::ProtectionField => 12,
            SpellType::Rage => 13,
            SpellType::CounterAttack => 14,
            SpellType::SlashingBurst => 15,
            SpellType::Fury => 16,
            SpellType::ImmortalSkin => 17,
            SpellType::FireBall => 31,
            SpellType::Repulsion => 32,
            SpellType::ElectricShock => 33,
            SpellType::GreatFireBall => 34,
            SpellType::HellFire => 35,
            SpellType::ThunderBolt => 36,
            SpellType::Teleport => 37,
            SpellType::FireBang => 38,
            SpellType::FireWall => 39,
            SpellType::Lightning => 40,
            SpellType::FrostCrunch => 41,
            SpellType::ThunderStorm => 42,
            SpellType::MagicShield => 43,
            SpellType::TurnUndead => 44,
            SpellType::Vampirism => 45,
            SpellType::IceStorm => 46,
            SpellType::FlameDisruptor => 47,
            SpellType::Mirroring => 48,
            SpellType::FlameField => 49,
            SpellType::Blizzard => 50,
            SpellType::MagicBooster => 51,
            SpellType::MeteorStrike => 52,
            SpellType::IceThrust => 53,
            SpellType::FastMove => 54,
            SpellType::StormEscape => 55,
            SpellType::Healing => 61,
            SpellType::SpiritSword => 62,
            SpellType::Poisoning => 63,
            SpellType::SoulFireBall => 64,
            SpellType::SummonSkeleton => 65,
            SpellType::Hiding => 67,
            SpellType::MassHiding => 68,
            SpellType::SoulShield => 69,
            SpellType::Revelation => 70,
            SpellType::BlessedArmour => 71,
            SpellType::EnergyRepulsor => 72,
            SpellType::TrapHexagon => 73,
            SpellType::Purification => 74,
            SpellType::MassHealing => 75,
            SpellType::Hallucination => 76,
            SpellType::UltimateEnhancer => 77,
            SpellType::SummonShinsu => 78,
            SpellType::Reincarnation => 79,
            SpellType::SummonHolyDeva => 80,
            SpellType::Curse => 81,
            SpellType::Plague => 82,
            SpellType::PoisonCloud => 83,
            SpellType::EnergyShield => 84,
            SpellType::PetEnhancer => 85,
            SpellType::HealingCircle => 86,
            SpellType::FatalSword => 91,
            SpellType::DoubleSlash => 92,
            SpellType::Haste => 93,
            SpellType::FlashDash => 94,
            SpellType::LightBody => 95,
            SpellType::HeavenlySword => 96,
            SpellType::FireBurst => 97,
            SpellType::Trap => 98,
            SpellType::PoisonSword => 99,
            SpellType::MoonLight => 100,
            SpellType::MPEater => 101,
            SpellType::SwiftFeet => 102,
            SpellType::DarkBody => 103,
            SpellType::Hemorrhage => 104,
            SpellType::CrescentSlash => 105,
            SpellType::MoonMist => 106,
            SpellType::CatTongue => 107,
            SpellType::Focus => 121,
            SpellType::StraightShot => 122,
            SpellType::DoubleShot => 123,
            SpellType::ExplosiveTrap => 124,
            SpellType::DelayedExplosion => 125,
            SpellType::Meditation => 126,
            SpellType::BackStep => 127,
            SpellType::ElementalShot => 128,
            SpellType::Concentration => 129,
            SpellType::Stonetrap => 130,
            SpellType::ElementalBarrier => 131,
            SpellType::SummonVampire => 132,
            SpellType::VampireShot => 133,
            SpellType::SummonToad => 134,
            SpellType::PoisonShot => 135,
            SpellType::CrippleShot => 136,
            SpellType::SummonSnakes => 137,
            SpellType::NapalmShot => 138,
            SpellType::OneWithNature => 139,
            SpellType::BindingShot => 140,
            SpellType::MentalState => 141,
        }
    }

    /// The display name of the spell.
    pub fn name(&self) -> (s: &'static str)
        ensures
            s@ == spell_name(*self),
    {
        proof {
            reveal_strlit("无");
            reveal_strlit("基本剑术");
            reveal_strlit("攻杀剑术");
            reveal_strlit("刺杀剑术");
            reveal_strlit("半月弯刀");
            reveal_strlit("野蛮冲撞");
            reveal_strlit("狮子吼");
            reveal_strlit("火球术");
            reveal_strlit("大火球");
            reveal_strlit("地狱火");
            reveal_strlit("雷电术");
            reveal_strlit("瞬息移动");
            reveal_strlit("疾光电影");
            reveal_strlit("魔法盾");
            reveal_strlit("治愈术");
            reveal_strlit("精神力战法");
            reveal_strlit("施毒术");
            reveal_strlit("召唤骷髅");
            reveal_strlit("隐身术");
            reveal_strlit("幽灵盾");
            reveal_strlit("致命剑术");
            reveal_strlit("双倍斩");
            reveal_strlit("加速");
            reveal_strlit("闪避");
            reveal_strlit("集中");
            reveal_strlit("直射");
            reveal_strlit("双射");
            reveal_strlit("冥想");
            reveal_strlit("未知技能");
        }
        match self {
            SpellType::NoSpell => "无",
            SpellType::Fencing => "基本剑术",
            SpellType::Slaying => "攻杀剑术",
            SpellType::Thrusting => "刺杀剑术",
            SpellType::HalfMoon => "半月弯刀",
            SpellType::ShoulderDash => "野蛮冲撞",
            SpellType::LionRoar => "狮子吼",
            SpellType::FireBall => "火球术",
            SpellType::GreatFireBall => "大火球",
            SpellType::HellFire => "地狱火",
            SpellType::ThunderBolt => "雷电术",
            SpellType::Teleport => "瞬息移动",
            SpellType::Lightning => "疾光电影",
            SpellType::MagicShield => "魔法盾",
            SpellType::Healing => "治愈术",
            SpellType::SpiritSword => "精神力战法",
            SpellType::Poisoning => "施毒术",
            SpellType::SummonSkeleton => "召唤骷髅",
            SpellType::Hiding => "隐身术",
            SpellType::SoulShield => "幽灵盾",
            SpellType::FatalSword => "致命剑术",
            SpellType::DoubleSlash => "双倍斩",
            SpellType::Haste => "加速",
            SpellType::FlashDash => "闪避",
            SpellType::Focus => "集中",
            SpellType::StraightShot => "直射",
            SpellType::DoubleShot => "双射",
            SpellType::Meditation => "冥想",
            _ => "未知技能",
        }
    }

    /// The class that learns the spell.
    pub fn required_class(&self) -> (c: MirClass)
        ensures
            c == class_of_spell_number(spell_number(*self)),
    {
        let id = self.number();
        if id >= 1 && id <= 17 {
            MirClass::Warrior
        } else if id >= 31 && id <= 55 {
            MirClass::Wizard
        } else if id >= 61 && id <= 86 {
            MirClass::Taoist
        } else if id >= 91 && id <= 107 {
            MirClass::Assassin
        } else if id >= 121 && id <= 141 {
            MirClass::Archer
        } else {
            MirClass::Warrior
        }
    }
}

/// A spell the player has learned.
#[derive(Debug, Clone, Copy)]
pub struct LearnedMagic {
    pub spell: SpellType,
    /// Skill level (0-3)
    pub level: u8,
    /// Skill experience
    pub experience: u32,
    /// Bound hot-key slot (F1-F8)
    pub key_slot: Option<u8>,
}

impl LearnedMagic {
    pub fn new(spell: SpellType) -> (m: Self)
        ensures
            m.spell == spell,
            m.level == 0,
            m.experience == 0,
            m.key_slot is None,
    {
        LearnedMagic { spell, level: 0, experience: 0, key_slot: None }
    }
}

/// The spells of a list of learned magic.
pub open spec fn learned_spells(magics: Seq<LearnedMagic>) -> Seq<SpellType> {
    magics.map_values(|m: LearnedMagic| m.spell)
}

/// The index of the first entry in `magics[i..]` bound to `slot`, or the length.
pub open spec fn first_in_slot_from(magics: Seq<LearnedMagic>, slot: u8, i: int) -> int
    decreases magics.len() - i,
{
    if i >= magics.len() || i < 0 {
        magics.len() as int
    } else if magics[i].key_slot == Some(slot) {
        i
    } else {
        first_in_slot_from(magics, slot, i + 1)
    }
}

/// The spells the player has learned, each at most once.
#[derive(Debug, Clone)]
pub struct MagicList {
    pub magics: Vec<LearnedMagic>,
}

impl MagicList {
    /// No spell is learned twice.
    pub open spec fn wf(self) -> bool {
        learned_spells(self.magics@).no_duplicates()
    }

    pub fn new() -> (l: Self)
        ensures
            l.magics@.len() == 0,
            l.wf(),
    {
        MagicList { magics: Vec::new() }
    }

    /// Learns a spell; returns false, changing nothing, when it is already learned.
    pub fn learn(&mut self, spell: SpellType) -> (learned: bool)
        ensures
            learned == !learned_spells(old(self).magics@).contains(spell),
            learned ==> final(self).magics@ == old(self).magics@.push(LearnedMagic::spec_new(spell)),
            !learned ==> final(self).magics@ == old(self).magics@,
            old(self).wf() ==> final(self).wf(),
    {
        if self.has_learned(spell) {
            return false;
        }
        let ghost before = self.magics@;
        self.magics.push(LearnedMagic::new(spell));
        proof {
            assert(learned_spells(self.magics@) =~= learned_spells(before).push(spell));
        }
        true
    }

    /// Whether the spell is learned.
    pub fn has_learned(&self, spell: SpellType) -> (b: bool)
        ensures
            b == learned_spells(self.magics@).contains(spell),
    {
        let mut i: usize = 0;
        while i < self.magics.len()
            invariant
                i <= self.magics@.len(),
                forall|j: int| 0 <= j < i ==> #[trigger] self.magics@[j].spell != spell,
            decreases self.magics@.len() - i,
        {
            if self.magics[i].spell == spell {
                assert(learned_spells(self.magics@)[i as int] == spell);
                return true;
            }
            i = i + 1;
        }
        assert(!learned_spells(self.magics@).contains(spell)) by {
            if learned_spells(self.magics@).contains(spell) {
                let k = choose|k: int| 0 <= k < learned_spells(self.magics@).len()
                    && learned_spells(self.magics@)[k] == spell;
                assert(self.magics@[k].spell == spell);
            }
        }
        false
    }

    /// The entry of a learned spell, to change it in place.
    pub fn get_mut(&mut self, spell: SpellType) -> (r: Option<&mut LearnedMagic>)
        ensures
            r is Some == learned_spells(old(self).magics@).contains(spell),
            r is None ==> final(self).magics@ == old(self).magics@,
            r matches Some(m) ==> exists|i: int| #![trigger old(self).magics@[i]]
                0 <= i < old(self).magics@.len()
                && old(self).magics@[i].spell == spell
                && (forall|j: int| 0 <= j < i ==> #[trigger] old(self).magics@[j].spell != spell)
                && *m == old(self).magics@[i]
                && final(self).magics@ == old(self).magics@.update(i, *final(m)),
    {
        let mut i: usize = 0;
        while i < self.magics.len()
            invariant
                i <= self.magics@.len(),
                self.magics@ == old(self).magics@,
                forall|j: int| 0 <= j < i ==> #[trigger] self.magics@[j].spell != spell,
            decreases self.magics@.len() - i,
        {
            if self.magics[i].spell == spell {
                assert(learned_spells(self.magics@)[i as int] == spell);
                return Some(&mut self.magics[i]);
            }
            i = i + 1;
        }
        assert(!learned_spells(self.magics@).contains(spell)) by {
            if learned_spells(self.magics@).contains(spell) {
                let k = choose|k: int| 0 <= k < learned_spells(self.magics@).len()
                    && learned_spells(self.magics@)[k] == spell;
                assert(self.magics@[k].spell == spell);
            }
        }
        None
    }

    /// The first learned spell bound to a hot-key slot.
    pub fn get_by_slot(&self, slot: u8) -> (r: Option<&LearnedMagic>)
        ensures
            first_in_slot_from(self.magics@, slot, 0) < self.magics@.len() ==> r == Some(
                &self.magics@[first_in_slot_from(self.magics@, slot, 0)],
            ),
            first_in_slot_from(self.magics@, slot, 0) >= self.magics@.len() ==> r is None,
    {
        let mut i: usize = 0;
        while i < self.magics.len()
            invariant
                i <= self.magics@.len(),
                first_in_slot_from(self.magics@, slot, 0) == first_in_slot_from(
                    self.magics@,
                    slot,
                    i as int,
                ),
            decreases self.magics@.len() - i,
        {
            if self.magics[i].key_slot == Some(slot) {
                return Some(&self.magics[i]);
            }
            i = i + 1;
        }
        None
    }
}

impl LearnedMagic {
    pub open spec fn spec_new(spell: SpellType) -> LearnedMagic {
        LearnedMagic { spell, level: 0, experience: 0, key_slot: None }
    }
}

impl Default for MagicList {
    fn default() -> (l: Self)
        ensures
            l.magics@.len() == 0,
    {
        Self::new()
    }
}

/// The spells that can be learned, each with the level it needs.
#[derive(Debug, Clone)]
pub struct LearnableMagicList {
    /// (spell, required level)
    pub spells: Vec<(SpellType, u16)>,
}

/// The spells of `spells` that a player of `level` who knows `learned` may learn
/// now, in list order.
pub open spec fn available_spells(spells: Seq<(SpellType, u16)>, level: u16, learned: Seq<SpellType>) -> Seq<SpellType>
    decreases spells.len(),
{
    if spells.len() == 0 {
        Seq::empty()
    } else {
        let rest = available_spells(spells.drop_last(), level, learned);
        let (s, req) = spells.last();
        if req <= level && !learned.contains(s) {
            rest.push(s)
        } else {
            rest
        }
    }
}

/// The default learnable spells of a class, with their levels.
pub open spec fn class_spells(class: MirClass) -> Seq<(SpellType, u16)> {
    match class {
        MirClass::Warrior => seq![
            (SpellType::Fencing, 7u16),
            (SpellType::Slaying, 15u16),
            (SpellType::Thrusting, 22u16),
            (SpellType::HalfMoon, 28u16),
            (SpellType::ShoulderDash, 30u16),
            (SpellType::LionRoar, 36u16),
        ],
        MirClass::Wizard => seq![
            (SpellType::FireBall, 7u16),
            (SpellType::Repulsion, 12u16),
            (SpellType::ElectricShock, 13u16),
            (SpellType::GreatFireBall, 15u16),
            (SpellType::HellFire, 19u16),
            (SpellType::ThunderBolt, 22u16),
            (SpellType::Teleport, 25u16),
            (SpellType::Lightning, 29u16),
            (SpellType::MagicShield, 31u16),
        ],
        MirClass::Taoist => seq![
            (SpellType::Healing, 7u16),
            (SpellType::SpiritSword, 9u16),
            (SpellType::Poisoning, 14u16),
            (SpellType::SoulFireBall, 18u16),
            (SpellType::SummonSkeleton, 19u16),
            (SpellType::Hiding, 20u16),
            (SpellType::SoulShield, 24u16),
        ],
        MirClass::Assassin => seq![
            (SpellType::FatalSword, 7u16),
            (SpellType::DoubleSlash, 15u16),
            (SpellType::Haste, 20u16),
            (SpellType::FlashDash, 25u16),
        ],
        MirClass::Archer => seq![
            (SpellType::Focus, 7u16),
            (SpellType::StraightShot, 9u16),
            (SpellType::DoubleShot, 15u16),
            (SpellType::Meditation, 20u16),
        ],
    }
}

impl LearnableMagicList {
    pub fn new() -> (l: Self)
        ensures
            l.spells@.len() == 0,
    {
        LearnableMagicList { spells: Vec::new() }
    }

    /// Adds a learnable spell with its required level.
    pub fn add(&mut self, spell: SpellType, required_level: u16)
        ensures
            final(self).spells@ == old(self).spells@.push((spell, required_level)),
    {
        self.spells.push((spell, required_level));
    }

    /// The spells a player of `player_level` may learn now: those whose level is
    /// reached and which are not learned yet, in list order.
    pub fn get_available(&self, player_level: u16, learned: &MagicList) -> (r: Vec<SpellType>)
        ensures
            r@ == available_spells(self.spells@, player_level, learned_spells(learned.magics@)),
    {
        let mut r: Vec<SpellType> = Vec::new();
        let mut i: usize = 0;
        while i < self.spells.len()
            invariant
                i <= self.spells@.len(),
                r@ == available_spells(
                    self.spells@.subrange(0, i as int),
                    player_level,
                    learned_spells(learned.magics@),
                ),
            decreases self.spells@.len() - i,
        {
            let (spell, req) = self.spells[i];
            proof {
                assert(self.spells@.subrange(0, i + 1).drop_last() =~= self.spells@.subrange(
                    0,
                    i as int,
                ));
            }
            if req <= player_level && !learned.has_learned(spell) {
                r.push(spell);
            }
            i = i + 1;
        }
        proof {
            assert(self.spells@.subrange(0, self.spells@.len() as int) =~= self.spells@);
        }
        r
    }

    /// The default learnable spells of a class.
    pub fn init_for_class(class: MirClass) -> (l: Self)
        ensures
            l.spells@ == class_spells(class),
    {
        let mut list = Self::new();
        match class {
            MirClass::Warrior => {
                list.add(SpellType::Fencing, 7);
                list.add(SpellType::Slaying, 15);
                list.add(SpellType::Thrusting, 22);
                list.add(SpellType::HalfMoon, 28);
                list.add(SpellType::ShoulderDash, 30);
                list.add(SpellType::LionRoar, 36);
            },
            MirClass::Wizard => {
                list.add(SpellType::FireBall, 7);
                list.add(SpellType::Repulsion, 12);
                list.add(SpellType::ElectricShock, 13);
                list.add(SpellType::GreatFireBall, 15);
                list.add(SpellType::HellFire, 19);
                list.add(SpellType::ThunderBolt, 22);
                list.add(SpellType::Teleport, 25);
                list.add(SpellType::Lightning, 29);
                list.add(SpellType::MagicShield, 31);
            },
            MirClass::Taoist => {
                list.add(SpellType::Healing, 7);
                list.add(SpellType::SpiritSword, 9);
                list.add(SpellType::Poisoning, 14);
                list.add(SpellType::SoulFireBall, 18);
                list.add(SpellType::SummonSkeleton, 19);
                list.add(SpellType::Hiding, 20);
                list.add(SpellType::SoulShield, 24);
            },
            MirClass::Assassin => {
                list.add(SpellType::FatalSword, 7);
                list.add(SpellType::DoubleSlash, 15);
                list.add(SpellType::Haste, 20);
                list.add(SpellType::FlashDash, 25);
            },
            MirClass::Archer => {
                list.add(SpellType::Focus, 7);
                list.add(SpellType::StraightShot, 9);
                list.add(SpellType::DoubleShot, 15);
                list.add(SpellType::Meditation, 20);
            },
        }
        assert(list.spells@ =~= class_spells(class));
        list
    }
}

impl Default for LearnableMagicList {
    fn default() -> (l: Self)
        ensures
            l.spells@.len() == 0,
    {
        Self::new()
    }
}

/// Learning a spell makes it learned, and learning it again changes nothing.
pub proof fn lemma_learn_is_idempotent(magics: Seq<LearnedMagic>, spell: SpellType)
    ensures
        learned_spells(magics.push(LearnedMagic::spec_new(spell))).contains(spell),
        learned_spells(magics.push(LearnedMagic::spec_new(spell))) == learned_spells(magics).push(
            spell,
        ),
{
    assert(learned_spells(magics.push(LearnedMagic::spec_new(spell))) =~= learned_spells(
        magics,
    ).push(spell));
    assert(learned_spells(magics.push(LearnedMagic::spec_new(spell)))[magics.len() as int]
        == spell);
}

/// Every spell that is offered has its level reached and is not learned yet,
/// and it comes from the list.
pub proof fn lemma_available_spells_sound(spells: Seq<(SpellType, u16)>, level: u16, learned: Seq<SpellType>, s: SpellType)
    requires
        available_spells(spells, level, learned).contains(s),
    ensures
        !learned.contains(s),
        exists|i: int| 0 <= i < spells.len() && #[trigger] spells[i].0 == s && spells[i].1 <= level,
    decreases spells.len(),
{
    let rest = available_spells(spells.drop_last(), level, learned);
    let (t, req) = spells.last();
    if req <= level && !learned.contains(t) && s == t {
        assert(spells[spells.len() - 1].0 == s);
    } else {
        if req <= level && !learned.contains(t) {
            let k = choose|k: int| 0 <= k < rest.push(t).len() && rest.push(t)[k] == s;
            assert(rest[k] == s);
        }
        assert(rest.contains(s));
        lemma_available_spells_sound(spells.drop_last(), level, learned, s);
        let i = choose|i: int| 0 <= i < spells.drop_last().len() && #[trigger] spells.drop_last()[i].0 == s
            && spells.drop_last()[i].1 <= level;
        assert(spells[i].0 == s);
    }
}

/// The five classes own disjoint ranges of spell numbers: warriors 1-17,
/// wizards 31-55, taoists 61-86, assassins 91-107 and archers 121-141.
pub proof fn lemma_spell_number_ranges(id: u8)
    ensures
        1 <= id <= 17 ==> class_of_spell_number(id) == MirClass::Warrior,
        31 <= id <= 55 ==> class_of_spell_number(id) == MirClass::Wizard,
        61 <= id <= 86 ==> class_of_spell_number(id) == MirClass::Taoist,
        91 <= id <= 107 ==> class_of_spell_number(id) == MirClass::Assassin,
        121 <= id <= 141 ==> class_of_spell_number(id) == MirClass::Archer,
{
}

/// The default spell list of every class: it starts with a spell learnable
/// at level 7, the levels rise strictly along the list, every spell on it
/// belongs to that class by its number, no spell appears twice, and it has
/// 6 spells for warriors, 9 for wizards, 7 for taoists and 4 for assassins
/// and archers.
pub proof fn lemma_class_spells_shape(c: MirClass)
    ensures
        class_spells(c).len() == match c {
            MirClass::Warrior => 6int,
            MirClass::Wizard => 9,
            MirClass::Taoist => 7,
            MirClass::Assassin => 4,
            MirClass::Archer => 4,
        },
        class_spells(c)[0].1 == 7,
        forall|i: int, j: int| 0 <= i < j < class_spells(c).len() ==> class_spells(c)[i].1 < class_spells(c)[j].1,
        forall|i: int| 0 <= i < class_spells(c).len() ==> class_of_spell_number(
            spell_number(#[trigger] class_spells(c)[i].0),
        ) == c,
        forall|i: int, j: int| 0 <= i < j < class_spells(c).len() ==> class_spells(c)[i].0 != class_spells(c)[j].0,
{
    let s = class_spells(c);
    assert forall|i: int, j: int| 0 <= i < j < s.len() implies s[i].0 != s[j].0 by {
        assert(s[i].1 < s[j].1);
        if s[i].0 == s[j].0 {
            assert(spell_number(s[i].0) == spell_number(s[j].0));
        }
    }
}

proof fn lemma_only_first_available(s: Seq<(SpellType, u16)>, level: u16)
    requires
        s.len() >= 1,
        s[0].1 <= level,
        forall|k: int| 1 <= k < s.len() ==> (#[trigger] s[k]).1 > level,
    ensures
        available_spells(s, level, Seq::empty()) == seq![s[0].0],
    decreases s.len(),
{
    let t = s.drop_last();
    if s.len() == 1 {
        assert(t.len() == 0);
        assert(available_spells(t, level, Seq::empty()) == Seq::<SpellType>::empty());
        assert(!Seq::<SpellType>::empty().contains(s[0].0));
        assert(Seq::<SpellType>::empty().push(s[0].0) =~= seq![s[0].0]);
    } else {
        assert forall|k: int| 1 <= k < t.len() implies (#[trigger] t[k]).1 > level by {
            assert(t[k] == s[k]);
        }
        lemma_only_first_available(t, level);
        assert(s.last() == s[s.len() - 1]);
    }
}

/// A new player of any class who reaches level 7 can learn exactly one
/// spell, the first of the class's list, and it is a spell of that class.
pub proof fn lemma_first_spell_at_level_seven(c: MirClass)
    ensures
        available_spells(class_spells(c), 7, Seq::empty()) == seq![class_spells(c)[0].0],
        class_of_spell_number(spell_number(class_spells(c)[0].0)) == c,
{
    lemma_class_spells_shape(c);
    let s = class_spells(c);
    assert forall|k: int| 1 <= k < s.len() implies (#[trigger] s[k]).1 > 7u16 by {
        assert(s[0].1 < s[k].1);
    }
    lemma_only_first_available(s, 7);
}

} // verus!
