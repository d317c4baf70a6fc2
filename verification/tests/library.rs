use mir2_client::mlibrary::{next_image_index, previous_image_index};
use flate2::write::ZlibEncoder;
use flate2::Compression;
use std::io::Write;

use mir2_client::lib_stats::{
    classify, read_image_index, read_image_metadata, read_library_header, scan_library, ImageClass, LibraryScan,
};
use mir2_client::mlibrary::{convert_555_to_rgba, LibraryError, MLibraryData};

fn zlib(data: &[u8]) -> Vec<u8> {
    let mut e = ZlibEncoder::new(Vec::new(), Compression::default());
    e.write_all(data).unwrap();
    e.finish().unwrap()
}

fn image_record(width: i16, height: i16, pixels: &[u8], mask: Option<&[u8]>) -> Vec<u8> {
    let compressed = zlib(pixels);
    let mut r = Vec::new();
    r.extend_from_slice(&width.to_le_bytes());
    r.extend_from_slice(&height.to_le_bytes());
    r.extend_from_slice(&3i16.to_le_bytes());
    r.extend_from_slice(&(-4i16).to_le_bytes());
    r.push(5);
    r.push(6);
    r.push(if mask.is_some() { 1 } else { 0 });
    r.extend_from_slice(&(compressed.len() as i32).to_le_bytes());
    r.extend_from_slice(&compressed);
    if let Some(m) = mask {
        let mc = zlib(m);
        r.extend_from_slice(&(mc.len() as i32).to_le_bytes());
        r.extend_from_slice(&mc);
    }
    r
}

/// A library of `images`, with offsets written in order; `None` stands for offset zero.
fn library(images: &[Option<Vec<u8>>]) -> Vec<u8> {
    let mut b = Vec::new();
    b.extend_from_slice(&(images.len() as i32).to_le_bytes());
    b.extend_from_slice(&0i32.to_le_bytes());
    b.extend_from_slice(&2i32.to_le_bytes());
    let mut at = 12 + 4 * images.len();
    let mut body = Vec::new();
    for img in images {
        match img {
            Some(rec) => {
                b.extend_from_slice(&(at as u32).to_le_bytes());
                at += rec.len();
                body.extend_from_slice(rec);
            }
            None => b.extend_from_slice(&0u32.to_le_bytes()),
        }
    }
    b.extend(body);
    b
}

#[test]
fn converts_555_pixels() {
    // white, black, pure red, pure green (bit 5 up), pure blue
    let data = [0xff, 0x7f, 0x00, 0x00, 0x00, 0x7c, 0xe0, 0x03, 0x1f, 0x00, 0x99];
    let rgba = convert_555_to_rgba(&data);
    assert_eq!(
        rgba,
        vec![255, 255, 255, 255, 0, 0, 0, 0, 255, 0, 0, 255, 0, 255, 0, 255, 0, 0, 255, 255]
    );
    let one = convert_555_to_rgba(&[0x21, 0x04]);
    assert_eq!(one, vec![8, 8, 8, 255]);
}

#[test]
fn loads_header_and_offsets() {
    let bytes = library(&[None, Some(image_record(1, 1, &[0xff, 0x7f], None))]);
    let lib = MLibraryData::load(String::from("mem.lib"), bytes).unwrap();
    assert_eq!(lib.image_count(), 2);
}

#[test]
fn truncated_library_is_refused() {
    assert_eq!(MLibraryData::load(String::from("x"), vec![1, 2, 3]).err(), Some(LibraryError::Truncated));
    let mut b = Vec::new();
    b.extend_from_slice(&3i32.to_le_bytes());
    b.extend_from_slice(&[0u8; 8]);
    b.extend_from_slice(&[0u8; 8]);
    assert_eq!(MLibraryData::load(String::from("x"), b).err(), Some(LibraryError::Truncated));
}

#[test]
fn reads_images_and_caches_them() {
    let pixels = [0x00, 0x7c, 0x1f, 0x00];
    let bytes = library(&[
        Some(image_record(2, 1, &pixels, Some(&[1, 2, 3]))),
        None,
        Some(image_record(0, 1, &pixels, None)),
    ]);
    let mut lib = MLibraryData::load(String::from("mem.lib"), bytes).unwrap();
    let img = lib.get_image(0).unwrap().unwrap();
    assert_eq!((img.width, img.height, img.offset_x, img.offset_y), (2, 1, 3, -4));
    assert_eq!(img.rgba_data, vec![255, 0, 0, 255, 0, 0, 255, 255]);
    let mask = img.mask.unwrap();
    assert_eq!((mask.width, mask.height, mask.data.clone()), (5, 6, vec![1, 2, 3]));
    let again = lib.get_image(0).unwrap().unwrap();
    assert_eq!(again.rgba_data, img.rgba_data);
    assert!(lib.get_image(1).unwrap().is_none());
    assert!(lib.get_image(2).unwrap().is_none());
    assert!(lib.get_image(3).unwrap().is_none());
    lib.clear_cache();
    assert_eq!(lib.get_image(0).unwrap().unwrap().rgba_data, vec![255, 0, 0, 255, 0, 0, 255, 255]);
}

#[test]
fn corrupt_and_short_images_are_errors() {
    let mut rec = image_record(1, 1, &[1, 2], None);
    let n = rec.len();
    rec[n - 3] ^= 0xff;
    rec[n - 2] ^= 0xff;
    let bytes = library(&[Some(rec)]);
    let mut lib = MLibraryData::load(String::from("bad.lib"), bytes).unwrap();
    assert_eq!(lib.get_image(0).err(), Some(LibraryError::Corrupt));

    let rec = image_record(1, 1, &[1, 2], None);
    let mut bytes = library(&[Some(rec)]);
    bytes.truncate(bytes.len() - 2);
    let mut lib = MLibraryData::load(String::from("short.lib"), bytes).unwrap();
    assert_eq!(lib.get_image(0).err(), Some(LibraryError::Truncated));
}

#[test]
fn cache_keeps_at_most_a_hundred_images() {
    let images: Vec<Option<Vec<u8>>> = (0..130).map(|i| Some(image_record(1, 1, &[i as u8, 0], None))).collect();
    let mut lib = MLibraryData::load(String::from("many.lib"), library(&images)).unwrap();
    for i in 0..130 {
        let img = lib.get_image(i).unwrap().unwrap();
        assert_eq!(img.rgba_data[2], ((i as u8 % 32) << 3) | ((i as u8 % 32) >> 2));
    }
    for i in 0..130 {
        assert!(lib.get_image(i).unwrap().is_some());
    }
}

#[test]
fn stats_header_and_metadata() {
    let mut b = Vec::new();
    b.extend_from_slice(&7i32.to_le_bytes());
    b.extend_from_slice(&(-2i32).to_le_bytes());
    b.extend_from_slice(&9i32.to_le_bytes());
    let h = read_library_header(&b);
    assert_eq!((h.version, h.count, h.frame_seek), (7, -2, 9));
    assert_eq!(read_image_index(&(-5i32).to_le_bytes()).offset, -5);
    let mut m = Vec::new();
    for v in [10i16, -20, 30, -40] {
        m.extend_from_slice(&v.to_le_bytes());
    }
    m.extend_from_slice(&[1, 2, 3]);
    m.extend_from_slice(&123456i32.to_le_bytes());
    let md = read_image_metadata(&m);
    assert_eq!((md.width, md.height, md.offset_x, md.offset_y), (10, -20, 30, -40));
    assert_eq!((md.shadow_x, md.shadow_y, md.shadow, md.data_length), (1, 2, 3, 123456));
}

#[test]
fn scan_counts_each_class() {
    let mut b = vec![0u8; 17];
    b[0] = 4;
    b[2] = 4;
    b[11] = 1;
    let valid = read_image_metadata(&b);
    let mut no_data = valid;
    no_data.data_length = 0;
    let mut no_size = valid;
    no_size.width = 0;
    assert_eq!(classify(Some(valid)), ImageClass::Valid);
    assert_eq!(classify(Some(no_data)), ImageClass::ZeroDataLength);
    assert_eq!(classify(Some(no_size)), ImageClass::ZeroDimension);
    assert_eq!(classify(None), ImageClass::InvalidOffset);
    let mut s = LibraryScan::new();
    s.record(0, Some(valid));
    s.record(1, Some(no_size));
    s.record(2, None);
    s.record(3, Some(no_data));
    s.record(4, Some(valid));
    assert_eq!(
        (s.valid_count, s.zero_dimension_count, s.zero_data_length_count, s.invalid_offset_count),
        (2, 1, 1, 1)
    );
    let listed: Vec<usize> = s.zero_images.iter().map(|(i, _)| *i).collect();
    assert_eq!(listed, vec![1, 3]);
}

#[test]
fn browsing_wraps_around_the_library() {
    assert_eq!(next_image_index(0, 3), 1);
    assert_eq!(next_image_index(2, 3), 0);
    assert_eq!(previous_image_index(0, 3), 2);
    assert_eq!(previous_image_index(2, 3), 1);
    for count in 1..6usize {
        for i in 0..count {
            assert_eq!(previous_image_index(next_image_index(i, count), count), i);
            assert_eq!(next_image_index(previous_image_index(i, count), count), i);
        }
    }
}

fn metadata_bytes(width: i16, height: i16, data_length: i32) -> Vec<u8> {
    let mut r = Vec::new();
    r.extend_from_slice(&width.to_le_bytes());
    r.extend_from_slice(&height.to_le_bytes());
    r.extend_from_slice(&[0, 0, 0, 0, 1, 2, 0]);
    r.extend_from_slice(&data_length.to_le_bytes());
    // the scan reads 17 bytes of metadata; the last two are not used
    r.extend_from_slice(&[0, 0]);
    r
}

#[test]
fn scans_a_whole_library_file() {
    // header: version 2, five images, frame seek 0
    let mut b = Vec::new();
    b.extend_from_slice(&2i32.to_le_bytes());
    b.extend_from_slice(&5i32.to_le_bytes());
    b.extend_from_slice(&0i32.to_le_bytes());
    let body_at = 12 + 4 * 5;
    let offsets = [body_at as i32, 0, (body_at + 17) as i32, (body_at + 34) as i32, 10_000];
    for o in offsets {
        b.extend_from_slice(&o.to_le_bytes());
    }
    b.extend(metadata_bytes(48, 32, 100));
    b.extend(metadata_bytes(0, 32, 100));
    b.extend(metadata_bytes(48, 32, 0));
    let (header, scan) = scan_library(&b).unwrap();
    assert_eq!((header.version, header.count), (2, 5));
    assert_eq!(scan.valid_count, 1);
    assert_eq!(scan.invalid_offset_count, 2);
    assert_eq!(scan.zero_dimension_count, 1);
    assert_eq!(scan.zero_data_length_count, 1);
    assert_eq!(scan.zero_images.iter().map(|(i, _)| *i).collect::<Vec<_>>(), vec![2, 3]);
    // a table cut short cannot be scanned
    assert!(scan_library(&b[..20]).is_none());
    assert!(scan_library(&b[..8]).is_none());
}
