// Render components: layers, ordering and the render configuration.

use vstd::prelude::*;

verus! {

/// Render layers, drawn from ground to UI.
#[derive(Debug, Clone, Copy, PartialEq, Eq, Structural, PartialOrd, Ord)]
pub enum RenderLayer {
    /// Ground
    Ground,
    /// Items on the ground
    GroundItem,
    /// Shadows
    Shadow,
    /// Players, monsters and NPCs
    Object,
    /// Spell and explosion effects
    Effect,
    /// UI elements
    UI,
}

impl RenderLayer {
    /// The drawing rank of the layer: ground first.
    pub open spec fn spec_rank(self) -> int {
        match self {
            RenderLayer::Ground => 0,
            RenderLayer::GroundItem => 1,
            RenderLayer::Shadow => 2,
            RenderLayer::Object => 3,
            RenderLayer::Effect => 4,
            RenderLayer::UI => 5,
        }
    }

    /// The discriminant of the layer: ground is 0, UI is 5.
    pub fn rank(&self) -> (r: u8)
        ensures
            r == self.spec_rank(),
    {
        match self {
            RenderLayer::Ground => 0,
            RenderLayer::GroundItem => 1,
            RenderLayer::Shadow => 2,
            RenderLayer::Object => 3,
            RenderLayer::Effect => 4,
            RenderLayer::UI => 5,
        }
    }
}

/// Where an entity is drawn: its layer, then its order inside the layer (its Y).
#[derive(Debug, Clone, Copy)]
pub struct RenderOrder {
    pub layer: RenderLayer,
    pub z_order: i32,
}

impl RenderOrder {
    pub fn new(layer: RenderLayer, z_order: i32) -> (o: Self)
        ensures
            o.layer == layer,
            o.z_order == z_order,
    {
        RenderOrder { layer, z_order }
    }

}

/// Which layers and overlays the renderer draws.
#[derive(Debug, Clone)]
pub struct RenderConfig {
    pub show_back: bool,
    pub show_middle: bool,
    pub show_front: bool,
    pub show_grid: bool,
    pub show_obstacles: bool,
    pub show_animations: bool,
    pub show_borders: bool,
    /// NPC border debugging
    pub show_npc_borders: bool,
    /// Monster border debugging
    pub show_monster_borders: bool,
    /// Effect border debugging
    pub show_effect_borders: bool,
    pub show_path: bool,
    pub max_fps: u32,
    pub enable_lod: bool,
}

impl Default for RenderConfig {
    fn default() -> (c: Self)
        ensures
            c.show_back && c.show_middle && c.show_front && c.show_animations,
            !c.show_grid && !c.show_obstacles && !c.show_borders && !c.show_npc_borders,
            !c.show_monster_borders && !c.show_effect_borders && !c.show_path && !c.enable_lod,
            c.max_fps == 60,
    {
        RenderConfig {
            show_back: true,
            show_middle: true,
            show_front: true,
            show_grid: false,
            show_obstacles: false,
            show_animations: true,
            show_borders: false,
            show_npc_borders: false,
            show_monster_borders: false,
            show_effect_borders: false,
            show_path: false,
            max_fps: 60,
            enable_lod: false,
        }
    }
}

/// The keys the map viewer's renderer settings answer to.
#[derive(Debug, Clone, Copy, PartialEq, Eq, Structural)]
pub enum ConfigKey {
    /// M: pick another map.
    LoadMap,
    /// 1: the back layer.
    Back,
    /// 2: the middle layer.
    Middle,
    /// 3: the front layer.
    Front,
    /// B: texture borders.
    Borders,
    /// G: the grid.
    Grid,
    /// O: obstacles.
    Obstacles,
    /// A: animations.
    Animations,
    /// L: level-of-detail filtering.
    Lod,
    /// P: the path being walked.
    Path,
    /// F9: monster borders.
    MonsterBorders,
    /// F10: NPC borders.
    NpcBorders,
    /// F11: effect borders.
    EffectBorders,
    /// = or keypad +: ten frames per second more.
    RaiseFps,
    /// - or keypad -: ten frames per second fewer.
    LowerFps,
    /// Escape: quit.
    Quit,
}

/// What the caller does after a key press, beyond the settings change.
#[derive(Debug, Clone, Copy, PartialEq, Eq, Structural)]
pub enum ConfigKeyAction {
    /// Pick and load another map.
    LoadMap,
    /// Quit the viewer.
    Quit,
    /// Nothing: the settings changed.
    Applied,
}

/// The settings after a press of `key`: switches flip; the frame cap rises
/// by ten up to 300 or falls by ten down to 30.
pub open spec fn config_after_key(c: RenderConfig, key: ConfigKey) -> RenderConfig {
    match key {
        ConfigKey::Back => RenderConfig { show_back: !c.show_back, ..c },
        ConfigKey::Middle => RenderConfig { show_middle: !c.show_middle, ..c },
        ConfigKey::Front => RenderConfig { show_front: !c.show_front, ..c },
        ConfigKey::Borders => RenderConfig { show_borders: !c.show_borders, ..c },
        ConfigKey::Grid => RenderConfig { show_grid: !c.show_grid, ..c },
        ConfigKey::Obstacles => RenderConfig { show_obstacles: !c.show_obstacles, ..c },
        ConfigKey::Animations => RenderConfig { show_animations: !c.show_animations, ..c },
        ConfigKey::Lod => RenderConfig { enable_lod: !c.enable_lod, ..c },
        ConfigKey::Path => RenderConfig { show_path: !c.show_path, ..c },
        ConfigKey::MonsterBorders => RenderConfig { show_monster_borders: !c.show_monster_borders, ..c },
        ConfigKey::NpcBorders => RenderConfig { show_npc_borders: !c.show_npc_borders, ..c },
        ConfigKey::EffectBorders => RenderConfig { show_effect_borders: !c.show_effect_borders, ..c },
        ConfigKey::RaiseFps => RenderConfig {
            max_fps: if c.max_fps + 10 < 300 { (c.max_fps + 10) as u32 } else { 300 },
            ..c
        },
        ConfigKey::LowerFps => RenderConfig {
            max_fps: if c.max_fps >= 40 { (c.max_fps - 10) as u32 } else { 30 },
            ..c
        },
        ConfigKey::LoadMap | ConfigKey::Quit => c,
    }
}

impl RenderConfig {
    /// Answers a key press: flips a switch or moves the frame cap, or tells
    /// the caller to load a map or quit.
    pub fn handle_key(&mut self, key: ConfigKey) -> (action: ConfigKeyAction)
        requires
            key == ConfigKey::RaiseFps ==> old(self).max_fps + 10 <= u32::MAX,
        ensures
            *final(self) == config_after_key(*old(self), key),
            action == match key {
                ConfigKey::LoadMap => ConfigKeyAction::LoadMap,
                ConfigKey::Quit => ConfigKeyAction::Quit,
                _ => ConfigKeyAction::Applied,
            },
    {
        match key {
            ConfigKey::LoadMap => ConfigKeyAction::LoadMap,
            ConfigKey::Quit => ConfigKeyAction::Quit,
            ConfigKey::Back => {
                self.show_back = !self.show_back;
                ConfigKeyAction::Applied
            },
            ConfigKey::Middle => {
                self.show_middle = !self.show_middle;
                ConfigKeyAction::Applied
            },
            ConfigKey::Front => {
                self.show_front = !self.show_front;
                ConfigKeyAction::Applied
            },
            ConfigKey::Borders => {
                self.show_borders = !self.show_borders;
                ConfigKeyAction::Applied
            },
            ConfigKey::Grid => {
                self.show_grid = !self.show_grid;
                ConfigKeyAction::Applied
            },
            ConfigKey::Obstacles => {
                self.show_obstacles = !self.show_obstacles;
                ConfigKeyAction::Applied
            },
            ConfigKey::Animations => {
                self.show_animations = !self.show_animations;
                ConfigKeyAction::Applied
            },
            ConfigKey::Lod => {
                self.enable_lod = !self.enable_lod;
                ConfigKeyAction::Applied
            },
            ConfigKey::Path => {
                self.show_path = !self.show_path;
                ConfigKeyAction::Applied
            },
            ConfigKey::MonsterBorders => {
                self.show_monster_borders = !self.show_monster_borders;
                ConfigKeyAction::Applied
            },
            ConfigKey::NpcBorders => {
                self.show_npc_borders = !self.show_npc_borders;
                ConfigKeyAction::Applied
            },
            ConfigKey::EffectBorders => {
                self.show_effect_borders = !self.show_effect_borders;
                ConfigKeyAction::Applied
            },
            ConfigKey::RaiseFps => {
                let raised = self.max_fps + 10;
                self.max_fps = if raised < 300 { raised } else { 300 };
                ConfigKeyAction::Applied
            },
            ConfigKey::LowerFps => {
                // `saturating_sub(10)` floored at 30
                self.max_fps = if self.max_fps >= 40 { self.max_fps - 10 } else { 30 };
                ConfigKeyAction::Applied
            },
        }
    }
}

/// A switch key pressed twice leaves the settings as they were.
#[verifier::rlimit(80)]
pub proof fn lemma_switch_key_twice_restores(c: RenderConfig, key: ConfigKey)
    requires
        key != ConfigKey::RaiseFps,
        key != ConfigKey::LowerFps,
    ensures
        config_after_key(config_after_key(c, key), key) == c,
{
    match key {
        ConfigKey::Back => {},
        ConfigKey::Middle => {},
        ConfigKey::Front => {},
        ConfigKey::Borders => {},
        ConfigKey::Grid => {},
        ConfigKey::Obstacles => {},
        ConfigKey::Animations => {},
        ConfigKey::Lod => {},
        ConfigKey::Path => {},
        ConfigKey::MonsterBorders => {},
        ConfigKey::NpcBorders => {},
        ConfigKey::EffectBorders => {},
        _ => {},
    }
}

/// Once the frame cap lies between 30 and 300, no key moves it out.
pub proof fn lemma_fps_cap_stays_in_range(c: RenderConfig, key: ConfigKey)
    requires
        30 <= c.max_fps <= 300,
    ensures
        30 <= config_after_key(c, key).max_fps <= 300,
{
}

} // verus!
