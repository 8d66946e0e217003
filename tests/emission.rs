use stl_thumb::emission::{emit_png, flip_vertical, EmitError};

fn pattern(width: u32, height: u32) -> Vec<u8> {
    (0..width * height * 4).map(|i| (i * 7 % 251) as u8).collect()
}

#[test]
fn flip_reverses_rows() {
    // two rows of one pixel each
    let pixels = vec![1, 2, 3, 4, 5, 6, 7, 8];
    assert_eq!(flip_vertical(&pixels, 1, 2).unwrap(), vec![5, 6, 7, 8, 1, 2, 3, 4]);
}

#[test]
fn flip_keeps_pixels_within_a_row() {
    // 2x3 image: rows are 8 bytes
    let pixels: Vec<u8> = (0..24).collect();
    let flipped = flip_vertical(&pixels, 2, 3).unwrap();
    let expected: Vec<u8> = (16..24).chain(8..16).chain(0..8).collect();
    assert_eq!(flipped, expected);
}

#[test]
fn flip_twice_is_identity() {
    let pixels = pattern(5, 7);
    let once = flip_vertical(&pixels, 5, 7).unwrap();
    assert_ne!(once, pixels);
    assert_eq!(flip_vertical(&once, 5, 7).unwrap(), pixels);
}

#[test]
fn flip_of_single_row_and_empty_image() {
    let row = vec![9, 8, 7, 6, 5, 4, 3, 2];
    assert_eq!(flip_vertical(&row, 2, 1).unwrap(), row);
    assert_eq!(flip_vertical(&vec![], 0, 0).unwrap(), Vec::<u8>::new());
}

#[test]
fn flip_refuses_wrong_size() {
    assert_eq!(flip_vertical(&vec![0; 7], 1, 2), None);
    assert_eq!(flip_vertical(&vec![0; 9], 1, 2), None);
}

#[test]
fn emit_writes_a_png() {
    let png = emit_png(&pattern(4, 3), 4, 3).unwrap();
    assert!(png.len() > 8);
    assert_eq!(&png[..8], &[0x89, b'P', b'N', b'G', 0x0d, 0x0a, 0x1a, 0x0a]);
}

#[test]
fn emit_at_thumbnail_size() {
    let pixels = vec![255u8; 1024 * 768 * 4];
    let png = emit_png(&pixels, 1024, 768).unwrap();
    assert!(png.len() > 8);
    assert_eq!(&png[..8], &[0x89, b'P', b'N', b'G', 0x0d, 0x0a, 0x1a, 0x0a]);
}

#[test]
fn emit_is_reproducible() {
    let pixels = pattern(16, 9);
    assert_eq!(emit_png(&pixels, 16, 9).unwrap(), emit_png(&pixels, 16, 9).unwrap());
}

#[test]
fn emit_encodes_the_flipped_buffer() {
    let pixels = pattern(3, 2);
    let flipped = flip_vertical(&pixels, 3, 2).unwrap();
    let direct = emit_png(&pixels, 3, 2).unwrap();
    let of_flipped = emit_png(&flipped, 3, 2).unwrap();
    assert_ne!(direct, of_flipped);
}

#[test]
fn emit_refuses_wrong_size() {
    assert_eq!(
        emit_png(&vec![0; 10], 2, 2),
        Err(EmitError::BufferSize { width: 2, height: 2, actual: 10 })
    );
}

#[test]
fn emit_refuses_image_without_pixels() {
    assert_eq!(emit_png(&vec![], 0, 0), Err(EmitError::Encoding));
    assert_eq!(emit_png(&vec![], 3, 0), Err(EmitError::Encoding));
}
