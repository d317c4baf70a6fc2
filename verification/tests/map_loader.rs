use mir2_client::ecs::components::{DoorState, TileBrightness, TileLayer};
use mir2_client::ecs::map_loader::MapLoader;
use mir2_client::objects::{CellInfo, MapReader};

fn busy_cell() -> CellInfo {
    CellInfo {
        back_image: 0x2000_0003,
        back_index: 1,
        middle_image: 8,
        middle_index: 2,
        middle_animation_frame: 10,
        middle_animation_tick: 4,
        front_image: 0x8000 | 6,
        front_index: 5,
        front_animation_frame: 0x80,
        door_index: 2,
        door_offset: 7,
        ..CellInfo::default()
    }
}

#[test]
fn cells_become_tiles() {
    let reader = MapReader { width: 2, height: 2, map_cells: vec![vec![busy_cell(); 2]; 2] };
    let loaded = MapLoader::load_map(reader);
    assert_eq!(loaded.map_data.width, 2);
    assert_eq!(loaded.tiles.len(), 2);
    let t = &loaded.tiles[0][0];
    let back = t.back.unwrap();
    assert_eq!(back.layer, TileLayer::Back);
    assert_eq!(back.image_index, 2);
    assert_eq!(back.library_index, 1);
    assert_eq!(back.z_order, 0);
    assert!(loaded.tiles[0][1].back.is_none());
    assert!(loaded.tiles[1][0].back.is_none());
    let middle = t.middle.unwrap();
    assert_eq!(middle.image_index, 7);
    assert!(middle.use_blend);
    assert_eq!(middle.z_order, 1000);
    let anim = t.middle_animation.unwrap();
    assert_eq!((anim.frame_count, anim.frame_interval, anim.base_image_index), (10, 4, 7));
    let front = t.front.unwrap();
    assert_eq!(front.tile.image_index, 5);
    assert!(front.tile.use_blend);
    assert_eq!(front.tile.brightness, TileBrightness::Raised);
    assert!(front.animation.is_none());
    let door = t.door.as_ref().unwrap();
    assert_eq!(door.door_index, 2);
    assert_eq!(door.door_offset, 7);
    assert_eq!(door.state, DoorState::Closed);
}

#[test]
fn empty_cells_give_no_tiles() {
    let reader = MapReader { width: 1, height: 1, map_cells: vec![vec![CellInfo::default()]] };
    let loaded = MapLoader::load_map(reader);
    let t = &loaded.tiles[0][0];
    assert!(t.back.is_none() && t.middle.is_none() && t.front.is_none() && t.door.is_none());
}

#[test]
fn front_library_200_is_skipped() {
    let c = CellInfo { front_image: 3, front_index: 200, door_index: 1, ..CellInfo::default() };
    let loaded = MapLoader::load_map(MapReader { width: 1, height: 1, map_cells: vec![vec![c]] });
    assert!(loaded.tiles[0][0].front.is_none());
    assert!(loaded.tiles[0][0].door.is_none());
}
