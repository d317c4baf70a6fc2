// Map components: tiles, doors, map data and bounds.

use vstd::prelude::*;
use crate::objects::CellInfo;

verus! {

/// Tile layers, back to front.
#[derive(Debug, Clone, Copy, PartialEq, Eq, Structural, PartialOrd, Ord)]
pub enum TileLayer {
    Back,
    Middle,
    Front,
}

/// How bright a map tile is drawn.
#[derive(Debug, Clone, Copy, PartialEq, Eq, Structural)]
pub enum TileBrightness {
    /// Drawn as it is (a brightness factor of 1.0).
    Normal,
    /// Drawn brighter (a factor of 1.5), for still light effects.
    Raised,
}

/// A tile of the map, placed on a grid cell in one layer.
#[derive(Debug, Clone, Copy, PartialEq, Eq, Structural)]
pub struct MapTile {
    pub grid_x: i32,
    pub grid_y: i32,
    pub layer: TileLayer,
    pub library_index: i16,
    pub image_index: i32,
    pub use_blend: bool,
    pub brightness: TileBrightness,
    pub z_order: i32,
}

/// An animated tile.
#[derive(Debug, Clone, Copy, PartialEq, Eq, Structural)]
pub struct AnimatedTile {
    pub frame_count: u8,
    pub frame_interval: u8,
    pub base_image_index: i32,
}

/// Door states.
#[derive(Debug, Clone, Copy, PartialEq, Eq, Structural)]
pub enum DoorState {
    Closed,
    Opening,
    Open,
    Closing,
}

/// A door on the map.
#[derive(Debug, Clone)]
pub struct Door {
    pub door_index: u8,
    pub door_offset: i32,
    pub state: DoorState,
    pub current_frame: i32,
    pub last_tick: std::time::Instant,
}

/// The cells of the loaded map, indexed `[x][y]`.
#[derive(Debug, Clone)]
pub struct MapData {
    pub cells: Vec<Vec<CellInfo>>,
    pub width: i32,
    pub height: i32,
}

/// Map bounds for collision checks.
#[derive(Debug, Clone, Copy)]
pub struct MapBounds {
    pub width: i32,
    pub height: i32,
}

impl MapBounds {
    pub fn new(width: i32, height: i32) -> (b: Self)
        ensures
            b.width == width,
            b.height == height,
    {
        MapBounds { width, height }
    }

    /// Whether a grid cell lies on the map.
    pub fn contains(&self, x: i32, y: i32) -> (b: bool)
        ensures
            b == (0 <= x < self.width && 0 <= y < self.height),
    {
        x >= 0 && y >= 0 && x < self.width && y < self.height
    }
}

/// Width of a map cell in pixels.
pub const CELL_WIDTH: i32 = 48;

/// Height of a map cell in pixels.
pub const CELL_HEIGHT: i32 = 32;

} // verus!
