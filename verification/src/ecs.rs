pub mod components;
pub mod game_app;
pub mod map_loader;
pub mod game_scene_scheduler;
pub mod map_viewer_scheduler;
pub mod parallel_scheduler;
pub mod resources;
pub mod system_table;
