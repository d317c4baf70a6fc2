// Enumerations shared by client and server: classes, genders, directions,
// actions and item types of the game.

use vstd::prelude::*;

verus! {

/// Character classes.
#[derive(Debug, Clone, Copy, PartialEq, Eq, Structural, Hash)]
pub enum MirClass {
    Warrior,
    Wizard,
    Taoist,
    Assassin,
    Archer,
}

/// Character genders.
#[derive(Debug, Clone, Copy, PartialEq, Eq, Structural, Hash)]
pub enum MirGender {
    Male,
    Female,
}

/// The eight facing directions, clockwise from up.
#[derive(Debug, Clone, Copy, PartialEq, Eq, Structural, Hash)]
pub enum MirDirection {
    Up,
    UpRight,
    Right,
    DownRight,
    Down,
    DownLeft,
    Left,
    UpLeft,
}

/// Animated actions of map objects.
#[derive(Debug, Clone, Copy, PartialEq, Eq, Structural, Hash)]
pub enum MirAction {
    Standing,
    Walking,
    Running,
    Pushed,
    DashL,
    DashR,
    DashFail,
    Stance,
    Stance2,
    Attack1,
    Attack2,
    Attack3,
    Attack4,
    Attack5,
    AttackRange1,
    AttackRange2,
    AttackRange3,
    Special,
    Struck,
    Harvest,
    Spell,
    Die,
    Dead,
    Skeleton,
    Show,
    Hide,
    Stoned,
    Appear,
    Revive,
    SitDown,
    Mine,
    Sneek,
    DashAttack,
    Lunge,
    WalkingBow,
    RunningBow,
    Jump,
    MountStanding,
    MountWalking,
    MountRunning,
    MountStruck,
    MountAttack,
    FishingCast,
    FishingWait,
    FishingReel,
}

/// Kinds of items.
#[derive(Debug, Clone, Copy, PartialEq, Eq, Structural, Hash)]
pub enum ItemType {
    Nothing,
    Weapon,
    Armour,
    Helmet,
    Necklace,
    Bracelet,
    Ring,
    Amulet,
    Belt,
    Boots,
    Stone,
    Torch,
    Potion,
    Ore,
    Meat,
    CraftingMaterial,
    Scroll,
    Gem,
    Mount,
    Book,
    Script,
    Reins,
    Bells,
    Saddle,
    Ribbon,
    Mask,
    Food,
    Hook,
    FishingFloat,
    Bait,
    Finder,
    Reel,
    Fish,
    Quest,
    Awakening,
    Pets,
    Transform,
    Deco,
    Socket,
    MonsterSpawn,
    SiegeAmmo,
    SealedHero,
}

/// A friend in the friend list.
#[derive(Debug, Clone)]
pub struct ClientFriend {
    pub index: i32,
    pub name: String,
    pub memo: String,
    pub blocked: bool,
    pub online: bool,
}

/// A member of a guild.
#[derive(Debug, Clone)]
pub struct GuildMember {
    pub name: String,
    pub id: i32,
    pub online: bool,
}

/// Progress of a quest the player has taken.
#[derive(Debug, Clone)]
pub struct ClientQuestProgress {
    /// Quest index
    pub index: i32,
    /// Task descriptions
    pub task_list: Vec<String>,
    pub taken: bool,
    pub completed: bool,
    pub new: bool,
}

} // verus!
