// Turning a decoded map into the tiles the renderer draws: a back tile on
// every other cell of every other row, a middle tile and a front tile per
// cell, with animations and doors where the cell asks for them.

use vstd::prelude::*;
use crate::ecs::components::{
    AnimatedTile, Door, DoorState, MapData, MapTile, TileBrightness, TileLayer,
};
use crate::objects::{CellInfo, MapReader};
use crate::time::now;

verus! {

/// A front tile with its animation, if it has one.
#[derive(Debug, Clone, Copy, PartialEq, Eq, Structural)]
pub struct FrontTile {
    pub tile: MapTile,
    pub animation: Option<AnimatedTile>,
}

/// What one cell puts on the map. A front tile also gets an occlusion
/// component (it can hide characters behind it), and a door where the cell
/// has one.
#[derive(Debug, Clone)]
pub struct CellTiles {
    pub back: Option<MapTile>,
    pub middle: Option<MapTile>,
    pub middle_animation: Option<AnimatedTile>,
    pub front: Option<FrontTile>,
    pub door: Option<Door>,
}

/// A loaded map: its data and the tiles of each cell, indexed `[x][y]`.
#[derive(Debug, Clone)]
pub struct LoadedMap {
    pub map_data: MapData,
    pub tiles: Vec<Vec<CellTiles>>,
}

/// The back tile of a cell: the low 29 bits of the back image, minus one,
/// from the back library; none for an empty image, a library of -1 or a
/// negative index.
pub open spec fn back_tile_of(cell: CellInfo, x: i32, y: i32) -> Option<MapTile> {
    let index = (cell.back_image & 0x1FFFFFFF) - 1;
    if cell.back_image == 0 || cell.back_index == -1 || index < 0 {
        None
    } else {
        Some(MapTile {
            grid_x: x,
            grid_y: y,
            layer: TileLayer::Back,
            library_index: cell.back_index,
            image_index: index as i32,
            use_blend: false,
            brightness: TileBrightness::Normal,
            z_order: 0,
        })
    }
}

/// The number of middle animation frames: the low four bits.
pub open spec fn middle_frames(cell: CellInfo) -> u8 {
    cell.middle_animation_frame & 0x0f
}

/// The middle tile of a cell: the low 15 bits of the middle image, minus
/// one; none for a negative index or library. An animated middle tile
/// (frames in the low four bits) blends when it has 8 or 10 frames.
pub open spec fn middle_tile_of(cell: CellInfo, x: i32, y: i32) -> Option<MapTile> {
    let index = (cell.middle_image & 0x7FFF) - 1;
    if index < 0 || cell.middle_index < 0 {
        None
    } else {
        let frames = middle_frames(cell);
        Some(MapTile {
            grid_x: x,
            grid_y: y,
            layer: TileLayer::Middle,
            library_index: cell.middle_index,
            image_index: index as i32,
            use_blend: frames > 0 && (frames == 10 || frames == 8),
            brightness: TileBrightness::Normal,
            z_order: 1000,
        })
    }
}

/// The animation of the middle tile, for a cell with one and frames.
pub open spec fn middle_animation_of(cell: CellInfo) -> Option<AnimatedTile> {
    let index = (cell.middle_image & 0x7FFF) - 1;
    if index < 0 || cell.middle_index < 0 || middle_frames(cell) == 0 {
        None
    } else {
        Some(AnimatedTile {
            frame_count: middle_frames(cell),
            frame_interval: cell.middle_animation_tick,
            base_image_index: index as i32,
        })
    }
}

/// Whether a cell has a front tile: a non-negative index from the low 15
/// bits of the front image, minus one, and a library that is neither
/// negative nor 200.
pub open spec fn has_front_tile(cell: CellInfo) -> bool {
    (cell.front_image & 0x7FFF) - 1 >= 0 && cell.front_index >= 0 && cell.front_index != 200
}

/// The front tile of a cell. Bit 7 of the animation byte asks for blending,
/// the low seven bits count the frames; a blended tile that does not move
/// is drawn brighter.
pub open spec fn front_tile_of(cell: CellInfo, x: i32, y: i32) -> Option<FrontTile> {
    let index = (cell.front_image & 0x7FFF) - 1;
    let use_blend = cell.front_animation_frame & 0x80 != 0;
    let frames = cell.front_animation_frame & 0x7F;
    if !has_front_tile(cell) {
        None
    } else {
        Some(FrontTile {
            tile: MapTile {
                grid_x: x,
                grid_y: y,
                layer: TileLayer::Front,
                library_index: cell.front_index,
                image_index: index as i32,
                use_blend,
                brightness: if use_blend && frames == 0 {
                    TileBrightness::Raised
                } else {
                    TileBrightness::Normal
                },
                z_order: 2000,
            },
            animation: if frames > 0 {
                Some(AnimatedTile {
                    frame_count: frames,
                    frame_interval: cell.front_animation_tick,
                    base_image_index: index as i32,
                })
            } else {
                None
            },
        })
    }
}

/// The tiles a cell at `(x, y)` puts on the map, door aside: back tiles only
/// on cells with even coordinates.
pub open spec fn cell_tiles_match(t: CellTiles, cell: CellInfo, x: i32, y: i32) -> bool {
    &&& t.back == if x % 2 == 0 && y % 2 == 0 {
        back_tile_of(cell, x, y)
    } else {
        None
    }
    &&& t.middle == middle_tile_of(cell, x, y)
    &&& t.middle_animation == middle_animation_of(cell)
    &&& t.front == front_tile_of(cell, x, y)
    &&& (t.door is Some <==> (has_front_tile(cell) && cell.door_index > 0))
    &&& t.door matches Some(d) ==> d.door_index == cell.door_index && d.door_offset == cell.door_offset as i32
        && d.state == DoorState::Closed && d.current_frame == 0
}

fn back_tile(cell: &CellInfo, x: i32, y: i32) -> (r: Option<MapTile>)
    ensures
        r == back_tile_of(*cell, x, y),
{
    let raw = cell.back_image;
    let masked = raw & 0x1FFFFFFF;
    assert(0 <= masked <= 0x1FFFFFFF) by (bit_vector)
        requires masked == raw & 0x1FFFFFFF;
    let index = masked - 1;
    if cell.back_image == 0 || cell.back_index == -1 || index < 0 {
        None
    } else {
        Some(MapTile {
            grid_x: x,
            grid_y: y,
            layer: TileLayer::Back,
            library_index: cell.back_index,
            image_index: index,
            use_blend: false,
            brightness: TileBrightness::Normal,
            z_order: 0,
        })
    }
}

fn middle_tile(cell: &CellInfo, x: i32, y: i32) -> (r: (Option<MapTile>, Option<AnimatedTile>))
    ensures
        r.0 == middle_tile_of(*cell, x, y),
        r.1 == middle_animation_of(*cell),
{
    let raw = cell.middle_image;
    let masked = raw & 0x7FFF;
    assert(0 <= masked <= 0x7FFF) by (bit_vector)
        requires masked == raw & 0x7FFF;
    let index = masked - 1;
    if index < 0 || cell.middle_index < 0 {
        return (None, None);
    }
    let mut animation = cell.middle_animation_frame;
    let use_blend = (animation & 0x0f) > 0;
    animation = animation & 0x0f;
    if animation > 0 {
        let tile = MapTile {
            grid_x: x,
            grid_y: y,
            layer: TileLayer::Middle,
            library_index: cell.middle_index,
            image_index: index as i32,
            use_blend: use_blend && (animation == 10 || animation == 8),
            brightness: TileBrightness::Normal,
            z_order: 1000,
        };
        let anim = AnimatedTile {
            frame_count: animation,
            frame_interval: cell.middle_animation_tick,
            base_image_index: index as i32,
        };
        (Some(tile), Some(anim))
    } else {
        let tile = MapTile {
            grid_x: x,
            grid_y: y,
            layer: TileLayer::Middle,
            library_index: cell.middle_index,
            image_index: index as i32,
            use_blend: false,
            brightness: TileBrightness::Normal,
            z_order: 1000,
        };
        (Some(tile), None)
    }
}

fn front_tile(cell: &CellInfo, x: i32, y: i32) -> (r: (Option<FrontTile>, Option<Door>))
    ensures
        r.0 == front_tile_of(*cell, x, y),
        r.1 is Some <==> (has_front_tile(*cell) && cell.door_index > 0),
        r.1 matches Some(d) ==> d.door_index == cell.door_index && d.door_offset == cell.door_offset as i32
            && d.state == DoorState::Closed && d.current_frame == 0,
{
    let raw = cell.front_image;
    let masked = raw & 0x7FFF;
    assert(0 <= masked <= 0x7FFF) by (bit_vector)
        requires masked == raw & 0x7FFF;
    let index = masked - 1;
    if index < 0 || cell.front_index < 0 || cell.front_index == 200 {
        return (None, None);
    }
    let mut animation = cell.front_animation_frame;
    let use_blend = (animation & 0x80) != 0;
    animation = animation & 0x7F;
    let has_animation = animation > 0;
    let has_door = cell.door_index > 0;
    let tile = MapTile {
        grid_x: x,
        grid_y: y,
        layer: TileLayer::Front,
        library_index: cell.front_index,
        image_index: index,
        use_blend,
        brightness: if use_blend && !has_animation {
            TileBrightness::Raised
        } else {
            TileBrightness::Normal
        },
        z_order: 2000,
    };
    let anim = if has_animation {
        Some(AnimatedTile {
            frame_count: animation,
            frame_interval: cell.front_animation_tick,
            base_image_index: index,
        })
    } else {
        None
    };
    let door = if has_door {
        Some(Door {
            door_index: cell.door_index,
            door_offset: cell.door_offset as i32,
            state: DoorState::Closed,
            current_frame: 0,
            last_tick: now(),
        })
    } else {
        None
    };
    (Some(FrontTile { tile, animation: anim }), door)
}

/// Builds the tiles of a decoded map.
pub struct MapLoader;

impl MapLoader {
    /// The map's data and the tiles of each of its cells, in column order.
    pub fn load_map(reader: MapReader) -> (r: LoadedMap)
        requires
            reader.wf(),
        ensures
            r.map_data.width == reader.width,
            r.map_data.height == reader.height,
            r.map_data.cells@ == reader.map_cells@,
            r.tiles@.len() == reader.width,
            forall|x: int| 0 <= x < reader.width ==> (#[trigger] r.tiles@[x])@.len() == reader.height,
            forall|x: int, y: int|
                0 <= x < reader.width && 0 <= y < reader.height ==> cell_tiles_match(
                    #[trigger] r.tiles@[x]@[y],
                    reader.map_cells@[x]@[y],
                    x as i32,
                    y as i32,
                ),
    {
        let width = reader.width;
        let height = reader.height;
        let mut tiles: Vec<Vec<CellTiles>> = Vec::new();
        let mut x: i32 = 0;
        while x < width
            invariant
                0 <= x <= width,
                width == reader.width,
                height == reader.height,
                reader.wf(),
                tiles@.len() == x,
                forall|i: int| 0 <= i < x ==> (#[trigger] tiles@[i])@.len() == height,
                forall|i: int, j: int|
                    0 <= i < x && 0 <= j < height ==> cell_tiles_match(
                        #[trigger] tiles@[i]@[j],
                        reader.map_cells@[i]@[j],
                        i as i32,
                        j as i32,
                    ),
            decreases width - x,
        {
            let column = &reader.map_cells[x as usize];
            assert(column@.len() == height);
            let mut col_tiles: Vec<CellTiles> = Vec::new();
            let mut y: i32 = 0;
            while y < height
                invariant
                    0 <= x < width,
                    0 <= y <= height,
                    column@.len() == height,
                    col_tiles@.len() == y,
                    forall|j: int| 0 <= j < y ==> cell_tiles_match(#[trigger] col_tiles@[j], column@[j], x, j as i32),
                decreases height - y,
            {
                let cell = &column[y as usize];
                let back = if x % 2 == 0 && y % 2 == 0 {
                    back_tile(cell, x, y)
                } else {
                    None
                };
                let (middle, middle_animation) = middle_tile(cell, x, y);
                let (front, door) = front_tile(cell, x, y);
                col_tiles.push(CellTiles { back, middle, middle_animation, front, door });
                y = y + 1;
            }
            tiles.push(col_tiles);
            x = x + 1;
        }
        let map_data = MapData { cells: reader.map_cells, width, height };
        LoadedMap { map_data, tiles }
    }
}

/// What a front tile's animation byte means: bit 7 asks for blending and
/// the low seven bits count the frames, so an animation never has more than
/// 127 frames and its count ignores the blend bit; the animation runs from
/// the tile's own image, as often as the cell's tick says. The middle
/// layer counts its frames in the low four bits.
pub proof fn lemma_animation_bytes(cell: CellInfo, x: i32, y: i32)
    ensures
        front_tile_of(cell, x, y) matches Some(f) ==> {
            &&& f.tile.use_blend == (cell.front_animation_frame >= 128)
            &&& (f.animation is Some <==> cell.front_animation_frame % 128 != 0)
            &&& f.animation matches Some(a) ==> {
                &&& a.frame_count == cell.front_animation_frame % 128
                &&& 1 <= a.frame_count <= 127
                &&& a.frame_interval == cell.front_animation_tick
                &&& a.base_image_index == f.tile.image_index
            }
        },
        middle_animation_of(cell) matches Some(a) ==> a.frame_count == cell.middle_animation_frame % 16
            && 1 <= a.frame_count <= 15,
{
    let b = cell.front_animation_frame;
    assert(b & 0x7F == b % 128) by (bit_vector);
    assert((b & 0x80 != 0) == (b >= 128)) by (bit_vector);
    let m = cell.middle_animation_frame;
    assert(m & 0x0f == m % 16) by (bit_vector);
}

} // verus!
