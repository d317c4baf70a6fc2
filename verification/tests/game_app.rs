use mir2_client::ecs::game_app::{GameState, SceneSwitchWork, SceneType};

#[test]
fn game_starts_at_login() {
    let g = GameState::new();
    assert_eq!(g.current_scene_type(), SceneType::Login);
}

#[test]
fn scene_switches_ask_for_their_work() {
    let mut g = GameState::new();
    assert_eq!(g.switch_scene(SceneType::Select), SceneSwitchWork::NothingElse);
    assert_eq!(g.current_scene_type(), SceneType::Select);
    assert_eq!(g.switch_scene(SceneType::Game), SceneSwitchWork::ClearGameObjects);
    assert_eq!(g.current_scene_type(), SceneType::Game);
    assert_eq!(g.switch_scene(SceneType::Login), SceneSwitchWork::SendDisconnect);
    assert_eq!(g.current_scene_type(), SceneType::Login);
}
