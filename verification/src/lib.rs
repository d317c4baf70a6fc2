//! Client-side game logic for a Legend of Mir 2 client: UI geometry types,
//! ECS components, system schedulers, resource-library parsing and map-cell
//! decoding, each with its contract proved by Verus.

pub mod controls;
pub mod downloader;
pub mod text;
pub mod shared;
pub mod time;
pub mod ecs;
pub mod objects;
pub mod map_view;
pub mod map_file;
pub mod le_bytes;
pub mod lib_stats;
pub mod mlibrary;
