// What the map viewers decide about a map: which cell lies where, which
// texture each layer of a cell shows, how animated tiles step through their
// frames, which overlays are switched on, and what the cell under the mouse
// holds. Drawing, the camera and texture loading are the caller's.

use vstd::prelude::*;
use crate::objects::{CellInfo, MapReader};
use crate::text::{decimal, push_decimal, push_str, signed_decimal, push_signed};

verus! {

/// The animation counter runs from 0 to 999 and wraps.
pub const ANIMATION_PERIOD: i32 = 1000;

/// A map as the viewer holds it: its cells, indexed `[x][y]`, a running
/// animation counter and the map's name.
#[derive(Debug)]
pub struct MapGrid {
    pub cells: Vec<Vec<CellInfo>>,
    pub width: i32,
    pub height: i32,
    pub animation_count: i32,
    pub map_name: String,
}

impl MapGrid {
    /// One column of `height` cells per column, and the counter in its range.
    pub open spec fn wf(self) -> bool {
        &&& self.width >= 0
        &&& self.height >= 0
        &&& self.cells@.len() == self.width
        &&& forall|x: int| 0 <= x < self.width ==> (#[trigger] self.cells@[x])@.len() == self.height
        &&& 0 <= self.animation_count < ANIMATION_PERIOD
    }

    /// No map loaded yet.
    pub fn empty() -> (m: Self)
        ensures
            m.wf(),
            m.width == 0,
            m.height == 0,
            m.animation_count == 0,
            m.map_name@ == "未加载"@,
    {
        MapGrid {
            cells: Vec::new(),
            width: 0,
            height: 0,
            animation_count: 0,
            map_name: String::from_str("未加载"),
        }
    }

    /// The decoded map under the given name, its animation at the start.
    pub fn from_reader(reader: MapReader, map_name: String) -> (m: Self)
        requires
            reader.wf(),
        ensures
            m.wf(),
            m.cells@ == reader.map_cells@,
            m.width == reader.width,
            m.height == reader.height,
            m.animation_count == 0,
            m.map_name == map_name,
    {
        MapGrid {
            cells: reader.map_cells,
            width: reader.width,
            height: reader.height,
            animation_count: 0,
            map_name,
        }
    }

    /// The cell at `(x, y)`, if it lies on the map.
    pub fn get_cell(&self, x: i32, y: i32) -> (r: Option<&CellInfo>)
        requires
            self.wf(),
        ensures
            r is Some <==> (0 <= x < self.width && 0 <= y < self.height),
            r matches Some(c) ==> *c == self.cells@[x as int]@[y as int],
    {
        if x >= 0 && x < self.width && y >= 0 && y < self.height {
            Some(&self.cells[x as usize][y as usize])
        } else {
            None
        }
    }

    /// One frame on: the counter steps by one and wraps at the period.
    pub fn advance_animation(&mut self)
        requires
            old(self).wf(),
        ensures
            final(self).wf(),
            final(self).animation_count == (old(self).animation_count + 1) % ANIMATION_PERIOD as int,
            final(self).cells == old(self).cells,
            final(self).width == old(self).width,
            final(self).height == old(self).height,
            final(self).map_name == old(self).map_name,
    {
        self.animation_count = (self.animation_count + 1) % ANIMATION_PERIOD;
    }
}

/// The back texture of a cell: for a positive back image, its low 29 bits minus one.
pub open spec fn back_texture_of(cell: CellInfo) -> Option<int> {
    if cell.back_image > 0 {
        Some((cell.back_image & 0x1FFFFFFF) - 1)
    } else {
        None
    }
}

/// The back texture of a cell.
pub fn back_texture_index(cell: &CellInfo) -> (r: Option<i32>)
    ensures
        r matches Some(i) ==> back_texture_of(*cell) == Some(i as int),
        r is None ==> back_texture_of(*cell) is None,
{
    if cell.back_image > 0 {
        let raw = cell.back_image;
        let masked = raw & 0x1FFFFFFF;
        assert(0 <= masked <= 0x1FFFFFFF) by (bit_vector)
            requires masked == raw & 0x1FFFFFFF;
        Some(masked - 1)
    } else {
        None
    }
}

/// The still middle texture of a cell: for a positive middle image, the image minus one.
pub fn middle_texture_index(cell: &CellInfo) -> (r: Option<i32>)
    ensures
        r == if cell.middle_image > 0 {
            Some((cell.middle_image - 1) as i32)
        } else {
            None::<i32>
        },
{
    if cell.middle_image > 0 {
        Some((cell.middle_image - 1) as i32)
    } else {
        None
    }
}

/// Whether a texture has one of the two tile sizes, 48x32 or 96x64.
pub open spec fn is_tile_size(width: i16, height: i16) -> bool {
    (width == 48 && height == 32) || (width == 96 && height == 64)
}

/// Whether a texture has a tile size: still middle tiles of other sizes are
/// not drawn.
pub fn is_standard_tile_size(width: i16, height: i16) -> (b: bool)
    ensures
        b == is_tile_size(width, height),
{
    (width == 48 && height == 32) || (width == 96 && height == 64)
}

/// Whether a front texture is a large object, drawn with its bottom on the
/// cell's bottom edge rather than from the cell's top.
pub fn is_large_texture(width: i16, height: i16) -> (b: bool)
    ensures
        b == !is_tile_size(width, height),
{
    (width != 48 || height != 32) && (width != 96 || height != 64)
}

/// The first even cell at or before `v`: back tiles cover two by two cells.
pub fn back_start(v: i32) -> (r: i32)
    requires
        v > i32::MIN,
    ensures
        r == if v % 2 == 0 {
            v as int
        } else {
            v - 1
        },
{
    if v % 2 == 0 {
        v
    } else {
        v - 1
    }
}

/// How a front sprite is tinted.
#[derive(Debug, Clone, Copy, PartialEq, Eq, Structural)]
pub enum TileTint {
    /// Plain white, alpha blended.
    Plain,
    /// Brighter, for still light effects.
    Bright,
    /// Brighter and slightly see-through, for moving fire and light.
    Glow,
}

/// How far in front a front sprite is drawn: doors over animations over still tiles.
#[derive(Debug, Clone, Copy, PartialEq, Eq, Structural)]
pub enum FrontDepth {
    Still,
    Animated,
    Door,
}

/// A front tile as the viewer draws it.
#[derive(Debug, Clone, Copy, PartialEq, Eq, Structural)]
pub struct FrontSprite {
    /// The library the texture comes from.
    pub library: i16,
    /// The texture shown now.
    pub image_index: i32,
    /// The first texture of the animation.
    pub base_index: i32,
    /// Blended: shifted one cell left and four cells up, and tinted.
    pub use_blend: bool,
    /// Number of animation frames, zero for a still tile.
    pub frames: u8,
    /// Counts each frame is held, less one.
    pub tick: u8,
    pub has_door: bool,
    pub tint: TileTint,
    pub depth: FrontDepth,
}

/// The frame an animation of `frames` frames, each held `1 + tick` counts,
/// shows at counter `count`.
pub open spec fn frame_offset(count: int, frames: int, tick: int) -> int {
    (count % (frames + frames * tick)) / (1 + tick)
}

/// Whether the viewer draws a front tile for the cell: the low 15 bits of
/// the front image, minus one, are not -1, and the library is neither -1
/// nor 200.
pub open spec fn shows_front(cell: CellInfo) -> bool {
    (cell.front_image & 0x7FFF) - 1 != -1 && cell.front_index != -1 && cell.front_index != 200
}

/// The front sprite of a cell at animation counter `count`.
pub open spec fn front_sprite_of(cell: CellInfo, count: int) -> Option<FrontSprite> {
    let base = (cell.front_image & 0x7FFF) - 1;
    let use_blend = cell.front_animation_frame & 0x80 != 0;
    let frames = cell.front_animation_frame & 0x7F;
    let tick = cell.front_animation_tick;
    let has_door = cell.door_index > 0;
    if !shows_front(cell) {
        None
    } else {
        Some(FrontSprite {
            library: cell.front_index,
            image_index: (if frames > 0 {
                base + frame_offset(count, frames as int, tick as int)
            } else {
                base
            }) as i32,
            base_index: base as i32,
            use_blend,
            frames,
            tick,
            has_door,
            tint: if use_blend && frames == 0 {
                TileTint::Bright
            } else if use_blend {
                TileTint::Glow
            } else {
                TileTint::Plain
            },
            depth: if has_door {
                FrontDepth::Door
            } else if frames > 0 {
                FrontDepth::Animated
            } else {
                FrontDepth::Still
            },
        })
    }
}

/// The front sprite of a cell at animation counter `count`, still or animated.
pub fn front_sprite(cell: &CellInfo, count: i32) -> (r: Option<FrontSprite>)
    requires
        count >= 0,
    ensures
        r == front_sprite_of(*cell, count as int),
{
    let raw = cell.front_image;
    let masked = raw & 0x7FFF;
    assert(0 <= masked <= 0x7FFF) by (bit_vector)
        requires masked == raw & 0x7FFF;
    let base = masked - 1;
    if base == -1 || cell.front_index == -1 || cell.front_index == 200 {
        return None;
    }
    let raw_animation = cell.front_animation_frame;
    let use_blend = (raw_animation & 0x80) != 0;
    let animation = raw_animation & 0x7F;
    assert(animation <= 127) by (bit_vector)
        requires animation == raw_animation & 0x7F;
    let has_animation = animation > 0;
    let has_door = cell.door_index > 0;
    let tick = cell.front_animation_tick;
    let mut index = base;
    if has_animation {
        assert(animation as i32 * tick as i32 <= 127 * 255) by (nonlinear_arith)
            requires animation <= 127, tick <= 255;
        let total: i32 = animation as i32 + (animation as i32 * tick as i32);
        assert(total >= 1);
        let rem = count % total;
        let hold: i32 = 1 + tick as i32;
        let offset = rem / hold;
        assert(0 <= rem < total);
        assert(0 <= offset <= rem) by (nonlinear_arith)
            requires offset == rem / hold, rem >= 0, hold >= 1;
        index = index + offset;
    }
    let tint = if use_blend && !has_animation {
        TileTint::Bright
    } else if use_blend && has_animation {
        TileTint::Glow
    } else {
        TileTint::Plain
    };
    let depth = if has_door {
        FrontDepth::Door
    } else if has_animation {
        FrontDepth::Animated
    } else {
        FrontDepth::Still
    };
    Some(FrontSprite {
        library: cell.front_index,
        image_index: index,
        base_index: base,
        use_blend,
        frames: animation,
        tick,
        has_door,
        tint,
        depth,
    })
}

/// The front sprite of an animated cell, as the per-frame pass redraws it:
/// still front tiles are left to the static pass, and a blended animation
/// glows.
pub fn animated_front_sprite(cell: &CellInfo, count: i32) -> (r: Option<FrontSprite>)
    requires
        count >= 0,
    ensures
        r == match front_sprite_of(*cell, count as int) {
            Some(s) => if s.frames > 0 {
                Some(FrontSprite { depth: FrontDepth::Animated, ..s })
            } else {
                None
            },
            None => None,
        },
{
    match front_sprite(cell, count) {
        Some(s) => {
            if s.frames > 0 {
                Some(FrontSprite { depth: FrontDepth::Animated, ..s })
            } else {
                None
            }
        },
        None => None,
    }
}

/// The texture an animated middle tile shows at counter `count`: frames
/// change every ten counts, starting from the animation image minus one
/// plus the offset.
pub open spec fn middle_animation_of(cell: CellInfo, count: int) -> Option<int> {
    if cell.tile_animation_frames > 0 && cell.tile_animation_image > 0 {
        Some(
            (cell.tile_animation_image - 1) + cell.tile_animation_offset + (count / 10)
                % (cell.tile_animation_frames as int),
        )
    } else {
        None
    }
}

/// The texture an animated middle tile shows at counter `count`.
pub fn middle_animation_image(cell: &CellInfo, count: i32) -> (r: Option<i32>)
    requires
        count >= 0,
    ensures
        r matches Some(i) ==> middle_animation_of(*cell, count as int) == Some(i as int),
        r is None ==> middle_animation_of(*cell, count as int) is None,
{
    if cell.tile_animation_frames > 0 && cell.tile_animation_image > 0 {
        let base: i32 = (cell.tile_animation_image - 1) as i32;
        let frames: i32 = cell.tile_animation_frames as i32;
        let current = (count / 10) % frames;
        assert(0 <= current < frames);
        Some(base + cell.tile_animation_offset as i32 + current)
    } else {
        None
    }
}

/// Which layers and overlays the viewer shows.
#[derive(Debug, Clone, Copy, PartialEq, Eq, Structural)]
pub struct ViewSettings {
    pub show_back: bool,
    pub show_middle: bool,
    pub show_front: bool,
    pub show_grid: bool,
    /// Outline each texture.
    pub show_border: bool,
    /// Flip textures vertically (for checking texture orientation).
    pub flip_texture_y: bool,
    pub show_info: bool,
}

impl Default for ViewSettings {
    /// Only the back layer and the information text are shown at first.
    fn default() -> (s: Self)
        ensures
            s == (ViewSettings {
                show_back: true,
                show_middle: false,
                show_front: false,
                show_grid: false,
                show_border: false,
                flip_texture_y: false,
                show_info: true,
            }),
    {
        ViewSettings {
            show_back: true,
            show_middle: false,
            show_front: false,
            show_grid: false,
            show_border: false,
            flip_texture_y: false,
            show_info: true,
        }
    }
}

/// The keys the viewer answers to.
#[derive(Debug, Clone, Copy, PartialEq, Eq, Structural)]
pub enum ViewerKey {
    /// M: pick a map file.
    LoadMap,
    /// G: the grid.
    Grid,
    /// B: texture borders.
    Border,
    /// F: vertical texture flip.
    Flip,
    /// I: the information text.
    Info,
    /// 1: the back layer.
    Back,
    /// 2: the middle layer.
    Middle,
    /// 3: the front layer.
    Front,
}

/// The settings after a press of `key`: every key but M flips its switch.
pub open spec fn settings_after_key(s: ViewSettings, key: ViewerKey) -> ViewSettings {
    match key {
        ViewerKey::LoadMap => s,
        ViewerKey::Grid => ViewSettings { show_grid: !s.show_grid, ..s },
        ViewerKey::Border => ViewSettings { show_border: !s.show_border, ..s },
        ViewerKey::Flip => ViewSettings { flip_texture_y: !s.flip_texture_y, ..s },
        ViewerKey::Info => ViewSettings { show_info: !s.show_info, ..s },
        ViewerKey::Back => ViewSettings { show_back: !s.show_back, ..s },
        ViewerKey::Middle => ViewSettings { show_middle: !s.show_middle, ..s },
        ViewerKey::Front => ViewSettings { show_front: !s.show_front, ..s },
    }
}

impl ViewSettings {
    /// Answers a key press; says whether a map file is to be picked.
    pub fn handle_key(&mut self, key: ViewerKey) -> (pick_map: bool)
        ensures
            *final(self) == settings_after_key(*old(self), key),
            pick_map == (key == ViewerKey::LoadMap),
    {
        match key {
            ViewerKey::LoadMap => {
                return true;
            },
            ViewerKey::Grid => self.show_grid = !self.show_grid,
            ViewerKey::Border => self.show_border = !self.show_border,
            ViewerKey::Flip => self.flip_texture_y = !self.flip_texture_y,
            ViewerKey::Info => self.show_info = !self.show_info,
            ViewerKey::Back => self.show_back = !self.show_back,
            ViewerKey::Middle => self.show_middle = !self.show_middle,
            ViewerKey::Front => self.show_front = !self.show_front,
        }
        false
    }
}

/// Pressing the same switch key twice leaves the settings as they were.
pub proof fn lemma_key_twice_restores(s: ViewSettings, key: ViewerKey)
    ensures
        settings_after_key(settings_after_key(s, key), key) == s,
{
}

/// What the information panel shows of the cell under the mouse.
#[derive(Debug, Clone, Copy, PartialEq, Eq, Structural)]
pub struct CellSummary {
    pub grid_x: i32,
    pub grid_y: i32,
    /// The low 29 bits of the back image.
    pub back_image_value: i32,
    /// The back texture: the value minus one, or -1 for none.
    pub back_texture_index: i32,
    pub back_library: i16,
    pub middle_image_value: i16,
    pub middle_texture_index: i32,
    pub middle_library: i16,
    /// The low 15 bits of the front image.
    pub front_image_value: i32,
    pub front_texture_index: i32,
    pub front_library: i16,
    /// The back layer has a library ("Tiles"), else "None".
    pub has_back_library: bool,
    /// The middle layer has a library ("Smtiles"), else "None".
    pub has_middle_library: bool,
    /// The front layer has a library ("Objects"), else "None".
    pub has_front_library: bool,
    /// Bit 29 of the back image.
    pub high_wall: bool,
    /// Bit 15 of the front image.
    pub low_wall: bool,
    /// The low seven bits of the door offset.
    pub door_offset: u8,
    /// The low seven bits of the door index.
    pub door_index: u8,
    /// Bit 7 of the door offset or of the door index.
    pub door_entity: bool,
    pub light: u8,
}

/// The texture for a stored image value: the value minus one, or -1 for none.
pub open spec fn texture_of_value(v: int) -> int {
    if v > 0 {
        v - 1
    } else {
        -1
    }
}

/// The summary of the cell at `(x, y)`.
pub open spec fn cell_summary_of(cell: CellInfo, x: i32, y: i32) -> CellSummary {
    let back_value = cell.back_image & 0x1FFFFFFF;
    let front_value = cell.front_image & 0x7FFF;
    CellSummary {
        grid_x: x,
        grid_y: y,
        back_image_value: back_value,
        back_texture_index: texture_of_value(back_value as int) as i32,
        back_library: cell.back_index,
        middle_image_value: cell.middle_image,
        middle_texture_index: texture_of_value(cell.middle_image as int) as i32,
        middle_library: cell.middle_index,
        front_image_value: front_value,
        front_texture_index: texture_of_value(front_value as int) as i32,
        front_library: cell.front_index,
        has_back_library: cell.back_index >= 0,
        has_middle_library: cell.middle_index >= 0,
        has_front_library: cell.front_index >= 0,
        high_wall: cell.back_image & 0x20000000 != 0,
        low_wall: cell.front_image & 0x8000 != 0,
        door_offset: cell.door_offset & 0x7F,
        door_index: cell.door_index & 0x7F,
        door_entity: cell.door_offset & 0x80 != 0 || cell.door_index & 0x80 != 0,
        light: cell.light,
    }
}

fn texture_from_value(v: i32) -> (r: i32)
    ensures
        r == texture_of_value(v as int),
{
    if v > 0 {
        v - 1
    } else {
        -1
    }
}

/// Summarises the cell at `(x, y)` for the information panel.
pub fn cell_summary(cell: &CellInfo, x: i32, y: i32) -> (r: CellSummary)
    ensures
        r == cell_summary_of(*cell, x, y),
{
    let back_value = cell.back_image & 0x1FFFFFFF;
    let front_value = cell.front_image & 0x7FFF;
    CellSummary {
        grid_x: x,
        grid_y: y,
        back_image_value: back_value,
        back_texture_index: texture_from_value(back_value),
        back_library: cell.back_index,
        middle_image_value: cell.middle_image,
        middle_texture_index: texture_from_value(cell.middle_image as i32),
        middle_library: cell.middle_index,
        front_image_value: front_value,
        front_texture_index: texture_from_value(front_value),
        front_library: cell.front_index,
        has_back_library: cell.back_index >= 0,
        has_middle_library: cell.middle_index >= 0,
        has_front_library: cell.front_index >= 0,
        high_wall: (cell.back_image & 0x20000000) != 0,
        low_wall: (cell.front_image & 0x8000) != 0,
        door_offset: cell.door_offset & 0x7F,
        door_index: cell.door_index & 0x7F,
        door_entity: (cell.door_offset & 0x80) != 0 || (cell.door_index & 0x80) != 0,
        light: cell.light,
    }
}

/// The file name of a map library: `Tiles.Lib` for 100, `Tiles2.Lib` to
/// `Tiles10.Lib` for 101 to 109, `SmTiles.Lib` for 110, `SmTiles2.Lib` to
/// `SmTiles10.Lib` for 111 to 119, `AniTiles1.Lib` for 190 and
/// `Unknown_<n>.Lib` for anything else.
pub open spec fn library_file_name_of(file_index: i32) -> Seq<char> {
    if file_index == 100 {
        "Tiles.Lib"@
    } else if 101 <= file_index <= 109 {
        "Tiles"@ + decimal((file_index - 99) as nat) + ".Lib"@
    } else if file_index == 110 {
        "SmTiles.Lib"@
    } else if 111 <= file_index <= 119 {
        "SmTiles"@ + decimal((file_index - 109) as nat) + ".Lib"@
    } else if file_index == 190 {
        "AniTiles1.Lib"@
    } else {
        "Unknown_"@ + signed_decimal(file_index as int) + ".Lib"@
    }
}

/// The file name of a map library.
pub fn library_file_name(file_index: i32) -> (r: String)
    ensures
        r@ == library_file_name_of(file_index),
{
    let mut s = String::new();
    if file_index == 100 {
        push_str(&mut s, "Tiles.Lib");
    } else if 101 <= file_index && file_index <= 109 {
        push_str(&mut s, "Tiles");
        push_decimal(&mut s, (file_index - 99) as u64);
        push_str(&mut s, ".Lib");
    } else if file_index == 110 {
        push_str(&mut s, "SmTiles.Lib");
    } else if 111 <= file_index && file_index <= 119 {
        push_str(&mut s, "SmTiles");
        push_decimal(&mut s, (file_index - 109) as u64);
        push_str(&mut s, ".Lib");
    } else if file_index == 190 {
        push_str(&mut s, "AniTiles1.Lib");
    } else {
        push_str(&mut s, "Unknown_");
        push_signed(&mut s, file_index as i64);
        push_str(&mut s, ".Lib");
    }
    s
}

} // verus!
