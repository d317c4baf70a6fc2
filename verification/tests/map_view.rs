use mir2_client::map_view::{
    back_start, back_texture_index, cell_summary, front_sprite, animated_front_sprite, is_large_texture,
    is_standard_tile_size, library_file_name, middle_animation_image, middle_texture_index, FrontDepth, MapGrid,
    TileTint, ViewSettings, ViewerKey,
};
use mir2_client::objects::{CellInfo, MapReader};

fn cell() -> CellInfo {
    CellInfo::default()
}

#[test]
fn back_texture_masks_flags_and_subtracts_one() {
    let c = CellInfo { back_image: 0x2000_0005, ..cell() };
    assert_eq!(back_texture_index(&c), Some(4));
    let c = CellInfo { back_image: 0, ..cell() };
    assert_eq!(back_texture_index(&c), None);
    let c = CellInfo { back_image: 0x2000_0000, ..cell() };
    assert_eq!(back_texture_index(&c), Some(-1));
}

#[test]
fn middle_texture_is_image_minus_one() {
    assert_eq!(middle_texture_index(&CellInfo { middle_image: 7, ..cell() }), Some(6));
    assert_eq!(middle_texture_index(&CellInfo { middle_image: 0, ..cell() }), None);
}

#[test]
fn still_front_tile() {
    let c = CellInfo { front_image: 0x8000 | 11, front_index: 3, ..cell() };
    let s = front_sprite(&c, 17).unwrap();
    assert_eq!(s.image_index, 10);
    assert_eq!(s.base_index, 10);
    assert_eq!(s.library, 3);
    assert_eq!(s.tint, TileTint::Plain);
    assert_eq!(s.depth, FrontDepth::Still);
    assert!(animated_front_sprite(&c, 17).is_none());
}

#[test]
fn front_tiles_skipped() {
    assert!(front_sprite(&CellInfo { front_image: 0, front_index: 3, ..cell() }, 0).is_none());
    assert!(front_sprite(&CellInfo { front_image: 5, front_index: 200, ..cell() }, 0).is_none());
    assert!(front_sprite(&CellInfo { front_image: 5, front_index: -1, ..cell() }, 0).is_none());
    assert!(front_sprite(&CellInfo { front_image: 5, front_index: -2, ..cell() }, 0).is_some());
}

#[test]
fn animated_front_tile_steps_through_frames() {
    // 4 frames, each held 3 counts: a cycle of 12
    let c = CellInfo { front_image: 101, front_index: 1, front_animation_frame: 0x80 | 4, front_animation_tick: 2, ..cell() };
    let frames: Vec<i32> = (0..13).map(|n| front_sprite(&c, n).unwrap().image_index).collect();
    assert_eq!(frames, vec![100, 100, 100, 101, 101, 101, 102, 102, 102, 103, 103, 103, 100]);
    let s = front_sprite(&c, 5).unwrap();
    assert_eq!(s.tint, TileTint::Glow);
    assert_eq!(s.depth, FrontDepth::Animated);
    assert!(s.use_blend);
    assert_eq!(animated_front_sprite(&c, 5), Some(s));
}

#[test]
fn blended_still_tile_is_bright_and_doors_go_in_front() {
    let c = CellInfo { front_image: 2, front_index: 0, front_animation_frame: 0x80, door_index: 3, ..cell() };
    let s = front_sprite(&c, 0).unwrap();
    assert_eq!(s.tint, TileTint::Bright);
    assert_eq!(s.depth, FrontDepth::Door);
    assert!(s.has_door);
}

#[test]
fn middle_animation_changes_every_ten_counts() {
    let c = CellInfo { tile_animation_image: 21, tile_animation_offset: 5, tile_animation_frames: 3, ..cell() };
    assert_eq!(middle_animation_image(&c, 0), Some(25));
    assert_eq!(middle_animation_image(&c, 9), Some(25));
    assert_eq!(middle_animation_image(&c, 10), Some(26));
    assert_eq!(middle_animation_image(&c, 25), Some(27));
    assert_eq!(middle_animation_image(&c, 30), Some(25));
    assert_eq!(middle_animation_image(&CellInfo { tile_animation_frames: 0, ..c }, 30), None);
}

#[test]
fn tile_sizes() {
    assert!(is_standard_tile_size(48, 32));
    assert!(is_standard_tile_size(96, 64));
    assert!(!is_standard_tile_size(48, 64));
    assert!(is_large_texture(100, 200));
    assert!(!is_large_texture(96, 64));
}

#[test]
fn back_rows_start_even() {
    assert_eq!(back_start(6), 6);
    assert_eq!(back_start(7), 6);
    assert_eq!(back_start(0), 0);
    assert_eq!(back_start(-3), -4);
}

#[test]
fn library_names() {
    assert_eq!(library_file_name(100), "Tiles.Lib");
    assert_eq!(library_file_name(101), "Tiles2.Lib");
    assert_eq!(library_file_name(109), "Tiles10.Lib");
    assert_eq!(library_file_name(110), "SmTiles.Lib");
    assert_eq!(library_file_name(115), "SmTiles6.Lib");
    assert_eq!(library_file_name(190), "AniTiles1.Lib");
    assert_eq!(library_file_name(7), "Unknown_7.Lib");
    assert_eq!(library_file_name(-12), "Unknown_-12.Lib");
}

#[test]
fn cell_summary_fields() {
    let c = CellInfo {
        back_image: 0x2000_0010,
        back_index: 2,
        middle_image: 0,
        middle_index: -1,
        front_image: 0x8000 | 3,
        front_index: 4,
        door_index: 0x85,
        door_offset: 0x02,
        light: 9,
        ..cell()
    };
    let s = cell_summary(&c, 12, 34);
    assert_eq!((s.grid_x, s.grid_y), (12, 34));
    assert_eq!(s.back_image_value, 0x10);
    assert_eq!(s.back_texture_index, 0xF);
    assert_eq!(s.middle_texture_index, -1);
    assert!(!s.has_middle_library);
    assert_eq!(s.front_image_value, 3);
    assert_eq!(s.front_texture_index, 2);
    assert!(s.high_wall);
    assert!(s.low_wall);
    assert_eq!(s.door_index, 5);
    assert_eq!(s.door_offset, 2);
    assert!(s.door_entity);
    assert_eq!(s.light, 9);
}

#[test]
fn view_keys_toggle() {
    let mut v = ViewSettings::default();
    assert!(v.show_back && !v.show_middle && !v.show_front && v.show_info && !v.show_grid);
    assert!(!v.handle_key(ViewerKey::Grid));
    assert!(v.show_grid);
    assert!(!v.handle_key(ViewerKey::Grid));
    assert!(!v.show_grid);
    assert!(v.handle_key(ViewerKey::LoadMap));
    assert_eq!(v, ViewSettings::default());
    v.handle_key(ViewerKey::Middle);
    v.handle_key(ViewerKey::Back);
    assert!(v.show_middle && !v.show_back);
}

#[test]
fn grid_cells_and_animation() {
    let reader = MapReader {
        width: 2,
        height: 3,
        map_cells: vec![vec![cell(); 3], vec![CellInfo { light: 4, ..cell() }; 3]],
    };
    let mut g = MapGrid::from_reader(reader, String::from("n0"));
    assert_eq!(g.get_cell(1, 2).unwrap().light, 4);
    assert!(g.get_cell(2, 0).is_none());
    assert!(g.get_cell(0, -1).is_none());
    for _ in 0..999 {
        g.advance_animation();
    }
    assert_eq!(g.animation_count, 999);
    g.advance_animation();
    assert_eq!(g.animation_count, 0);
    let e = MapGrid::empty();
    assert_eq!(e.width, 0);
    assert_eq!(e.map_name, "未加载");
}
