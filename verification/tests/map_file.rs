use mir2_client::map_file::load_map;

fn header(width: i16, height: i16) -> Vec<u8> {
    let mut b = vec![0u8; 52];
    b[0..2].copy_from_slice(&width.to_le_bytes());
    b[2..4].copy_from_slice(&height.to_le_bytes());
    b
}

fn record(back: u16, middle: u16, front: u16, tail: [u8; 8]) -> Vec<u8> {
    let mut r = Vec::new();
    r.extend_from_slice(&back.to_le_bytes());
    r.extend_from_slice(&middle.to_le_bytes());
    r.extend_from_slice(&front.to_le_bytes());
    r.extend_from_slice(&tail);
    r
}

#[test]
fn reads_type_two_maps_column_by_column() {
    let mut b = header(2, 1);
    b.extend(record(0x8005, 0x0003, 0x7fff, [1, 2, 3, 4, 99, 6, 98, 97]));
    b.extend(record(0x0001, 0x8000, 0x0000, [0, 0, 0, 0, 0, 7, 0, 0]));
    let m = load_map(&b).unwrap();
    assert_eq!((m.width, m.height), (2, 1));
    let t = m.tiles[0][0];
    assert_eq!(t.back_image, 5);
    assert!(t.back_blend);
    assert_eq!(t.middle_image, 3);
    assert!(!t.middle_blend);
    assert_eq!(t.front_image, 0x7fff);
    assert!(!t.front_blend);
    assert_eq!((t.door_index, t.door_offset, t.front_anim_frame, t.front_anim_tick, t.light), (1, 2, 3, 4, 6));
    assert_eq!((t.back_index, t.middle_index, t.front_index), (0, 1, 2));
    let u = m.tiles[1][0];
    assert_eq!(u.back_image, 1);
    assert_eq!(u.middle_image, 0);
    assert!(u.middle_blend);
    assert_eq!(u.light, 7);
}

#[test]
fn reads_type_three_maps_skipping_extra_bytes() {
    let mut b = header(1, 2);
    for i in 0..2u16 {
        b.extend(record(10 + i, 0, 0, [0, 0, 0, 0, 0, i as u8, 0, 0]));
        b.extend(vec![0xAAu8; 22]);
    }
    let m = load_map(&b).unwrap();
    assert_eq!(m.tiles[0][0].back_image, 10);
    assert_eq!(m.tiles[0][1].back_image, 11);
    assert_eq!(m.tiles[0][1].light, 1);
}

#[test]
fn unknown_sizes_are_refused() {
    let mut b = header(2, 2);
    b.extend(vec![0u8; 10]);
    match load_map(&b) {
        Err(e) => assert_eq!(e, "Unknown map format, size: 62"),
        Ok(_) => panic!("a map of unknown type was read"),
    }
}

#[test]
fn empty_map() {
    let b = header(0, 5);
    let m = load_map(&b).unwrap();
    assert_eq!(m.width, 0);
    assert!(m.tiles.is_empty());
}
