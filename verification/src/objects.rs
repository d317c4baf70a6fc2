// Map-object data shared by the renderers: sprite blending modes.

use vstd::prelude::*;

verus! {

/// How a sprite is blended onto the frame.
#[derive(Debug, Clone, Copy, PartialEq, Eq, Structural)]
pub enum SpriteBlendMode {
    /// Ordinary alpha blending.
    Alpha,
    /// Additive blending, for light and fire effects.
    Additive,
}

} // verus!

verus! {

/// One cell of a map as the map reader decodes it.
#[derive(Debug, Clone, Copy, PartialEq, Eq, Structural, Default)]
pub struct CellInfo {
    /// Library of the back (floor) image
    pub back_index: i16,
    /// Back image; bit 29 marks a high wall, the low 29 bits are the image number plus one
    pub back_image: i32,
    /// Library of the middle image
    pub middle_index: i16,
    /// Middle image number plus one, zero for none
    pub middle_image: i16,
    /// Library of the front image
    pub front_index: i16,
    /// Front image; bit 15 marks a low wall, the low 15 bits are the image number plus one
    pub front_image: i32,
    /// Door index; bit 7 marks an entity door
    pub door_index: u8,
    /// Door frame offset; bit 7 marks an open door
    pub door_offset: u8,
    /// Front animation frames; bit 7 asks for additive blending
    pub front_animation_frame: u8,
    /// Front animation tick (frames are held `1 + tick` counts)
    pub front_animation_tick: u8,
    /// Middle animation frames
    pub middle_animation_frame: u8,
    /// Middle animation tick
    pub middle_animation_tick: u8,
    /// First image of a middle tile animation, plus one
    pub tile_animation_image: i16,
    /// Offset added to the tile animation image
    pub tile_animation_offset: i16,
    /// Number of frames of the tile animation
    pub tile_animation_frames: u8,
    /// Light level
    pub light: u8,
}

} // verus!

verus! {

/// A decoded map: its size and its cells, indexed `[x][y]`.
#[derive(Debug, Clone)]
pub struct MapReader {
    pub width: i32,
    pub height: i32,
    pub map_cells: Vec<Vec<CellInfo>>,
}

impl MapReader {
    /// One column of `height` cells for each of the `width` columns.
    pub open spec fn wf(self) -> bool {
        &&& self.width >= 0
        &&& self.height >= 0
        &&& self.map_cells@.len() == self.width
        &&& forall|x: int| 0 <= x < self.width ==> (#[trigger] self.map_cells@[x])@.len() == self.height
    }
}

} // verus!
