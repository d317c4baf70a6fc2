// The game's scene flow: login, character selection and the game itself.
// The state here decides what a scene switch entails; the caller builds the
// scenes and carries out the work the switch asks for.

use vstd::prelude::*;

verus! {

/// The scenes the game moves between.
#[derive(Debug, Clone, Copy, PartialEq, Eq, Structural)]
pub enum SceneType {
    Login,
    Select,
    Game,
}

/// What the caller does when the scene changes, before building the new scene.
#[derive(Debug, Clone, Copy, PartialEq, Eq, Structural)]
pub enum SceneSwitchWork {
    /// Back at the login: the server connection is asked to close.
    SendDisconnect,
    /// To the character selection: nothing beyond the new scene.
    NothingElse,
    /// Into the game: the previous game objects are removed first.
    ClearGameObjects,
}

/// The work a switch to `target` asks for.
pub open spec fn switch_work(target: SceneType) -> SceneSwitchWork {
    match target {
        SceneType::Login => SceneSwitchWork::SendDisconnect,
        SceneType::Select => SceneSwitchWork::NothingElse,
        SceneType::Game => SceneSwitchWork::ClearGameObjects,
    }
}

/// The game's scene state.
pub struct GameState {
    scene_type: SceneType,
}

impl GameState {
    /// The scene the game is in.
    pub closed spec fn spec_scene(self) -> SceneType {
        self.scene_type
    }

    /// The game starts at the login scene.
    pub fn new() -> (s: Self)
        ensures
            s.spec_scene() == SceneType::Login,
    {
        GameState { scene_type: SceneType::Login }
    }

    /// Moves to `scene_type` and says what has to be done for it; switching
    /// to the current scene is a switch too.
    pub fn switch_scene(&mut self, scene_type: SceneType) -> (work: SceneSwitchWork)
        ensures
            final(self).spec_scene() == scene_type,
            work == switch_work(scene_type),
    {
        self.scene_type = scene_type;
        match scene_type {
            SceneType::Login => SceneSwitchWork::SendDisconnect,
            SceneType::Select => SceneSwitchWork::NothingElse,
            SceneType::Game => SceneSwitchWork::ClearGameObjects,
        }
    }

    /// The scene the game is in.
    pub fn current_scene_type(&self) -> (t: SceneType)
        ensures
            t == self.spec_scene(),
    {
        self.scene_type
    }
}

} // verus!
