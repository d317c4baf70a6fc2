use mir2_client::ecs::components::render::{ConfigKey, ConfigKeyAction, RenderConfig};

#[test]
fn config_keys_toggle_switches() {
    let mut c = RenderConfig::default();
    assert_eq!(c.handle_key(ConfigKey::Grid), ConfigKeyAction::Applied);
    assert!(c.show_grid);
    c.handle_key(ConfigKey::Grid);
    assert!(!c.show_grid);
    c.handle_key(ConfigKey::Back);
    assert!(!c.show_back);
    c.handle_key(ConfigKey::MonsterBorders);
    assert!(c.show_monster_borders);
    assert_eq!(c.handle_key(ConfigKey::LoadMap), ConfigKeyAction::LoadMap);
    assert_eq!(c.handle_key(ConfigKey::Quit), ConfigKeyAction::Quit);
}

#[test]
fn frame_cap_moves_by_ten_within_bounds() {
    let mut c = RenderConfig::default();
    assert_eq!(c.max_fps, 60);
    c.handle_key(ConfigKey::RaiseFps);
    assert_eq!(c.max_fps, 70);
    c.max_fps = 295;
    c.handle_key(ConfigKey::RaiseFps);
    assert_eq!(c.max_fps, 300);
    c.handle_key(ConfigKey::LowerFps);
    assert_eq!(c.max_fps, 290);
    c.max_fps = 35;
    c.handle_key(ConfigKey::LowerFps);
    assert_eq!(c.max_fps, 30);
    c.max_fps = 5;
    c.handle_key(ConfigKey::LowerFps);
    assert_eq!(c.max_fps, 30);
}
