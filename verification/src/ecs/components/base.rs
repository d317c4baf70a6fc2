// Core components carried by every rendered entity.

use vstd::prelude::*;
use crate::objects::SpriteBlendMode;

verus! {

/// Sprite rendering component.
#[derive(Debug, Clone)]
pub struct Sprite {
    /// Library index (0 = Tiles, 1 = SmTiles, 2 = Objects, ...)
    pub library: i32,
    /// Image index in the library
    pub index: i32,
    /// Current frame
    pub frame: i32,
    /// Blending mode
    pub blend_mode: SpriteBlendMode,
}

impl Sprite {
    pub fn new(library: i32, index: i32) -> (s: Self)
        ensures
            s.library == library,
            s.index == index,
            s.frame == 0,
            s.blend_mode == SpriteBlendMode::Alpha,
    {
        Sprite { library, index, frame: 0, blend_mode: SpriteBlendMode::Alpha }
    }

    pub fn with_blend(library: i32, index: i32, blend_mode: SpriteBlendMode) -> (s: Self)
        ensures
            s.library == library,
            s.index == index,
            s.frame == 0,
            s.blend_mode == blend_mode,
    {
        Sprite { library, index, frame: 0, blend_mode }
    }
}

/// The animation frames that the animation system chose for an entity.
#[derive(Debug, Clone, Copy)]
pub struct AnimationFrame {
    /// Current body/hair frame
    pub character_frame: i32,
    /// Current weapon frame
    pub weapon_frame: i32,
}

impl AnimationFrame {
    pub fn new() -> (f: Self)
        ensures
            f.character_frame == 0,
            f.weapon_frame == 0,
    {
        AnimationFrame { character_frame: 0, weapon_frame: 0 }
    }
}

impl Default for AnimationFrame {
    fn default() -> (f: Self)
        ensures
            f.character_frame == 0,
            f.weapon_frame == 0,
    {
        Self::new()
    }
}

} // verus!
