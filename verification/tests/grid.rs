use img2irc::grid::{halfblock_bitmap, AnsiImage, GridError};
use img2irc::pixel::{AnsiPixel, AnsiPixelPair};
use photon_rs::PhotonImage;

fn rgba(colors: &[u32]) -> Vec<u8> {
    let mut bytes = Vec::new();
    for color in colors {
        bytes.push((color >> 16) as u8);
        bytes.push((color >> 8) as u8);
        bytes.push(*color as u8);
        bytes.push(0xff);
    }
    bytes
}

fn pair(top: u32, bottom: u32) -> AnsiPixelPair {
    AnsiPixelPair { top: AnsiPixel::new(&top), bottom: AnsiPixel::new(&bottom) }
}

#[test]
fn a_buffer_without_pixels_is_an_empty_image() {
    assert_eq!(AnsiImage::from_raw_pixels(&[], 4).err(), Some(GridError::EmptyImage));
    assert_eq!(AnsiImage::from_raw_pixels(&[], 0).err(), Some(GridError::EmptyImage));
}

#[test]
fn a_width_of_zero_is_an_empty_image() {
    let bytes = rgba(&[0xff0000, 0x00ff00]);
    assert_eq!(AnsiImage::from_raw_pixels(&bytes, 0).err(), Some(GridError::EmptyImage));
    assert_eq!(AnsiImage::from_raw_pixels(&[1, 2, 3], 0).err(), Some(GridError::EmptyImage));
}

#[test]
fn bytes_that_do_not_fill_pixels_are_invalid_dimensions() {
    assert_eq!(AnsiImage::from_raw_pixels(&[1, 2, 3], 1).err(), Some(GridError::InvalidDimensions));
    assert_eq!(
        AnsiImage::from_raw_pixels(&[1, 2, 3, 4, 5], 1).err(),
        Some(GridError::InvalidDimensions)
    );
}

#[test]
fn pixels_that_do_not_fill_rows_are_invalid_dimensions() {
    let bytes = rgba(&[1, 2, 3]);
    assert_eq!(AnsiImage::from_raw_pixels(&bytes, 2).err(), Some(GridError::InvalidDimensions));
    assert_eq!(AnsiImage::from_raw_pixels(&bytes, 4).err(), Some(GridError::InvalidDimensions));
    assert!(AnsiImage::from_raw_pixels(&bytes, 3).is_ok());
    assert!(AnsiImage::from_raw_pixels(&bytes, 1).is_ok());
}

#[test]
fn errors_say_what_is_wrong() {
    assert_eq!(GridError::InvalidDimensions.message(), "invalid grid dimensions");
    assert_eq!(GridError::EmptyImage.message(), "empty image");
}

#[test]
fn an_even_number_of_rows_is_paired_as_it_is() {
    let bytes = rgba(&[0x010101, 0x020202, 0x030303, 0x040404, 0x050505, 0x060606]);
    let image = AnsiImage::from_raw_pixels(&bytes, 3).unwrap();
    assert!(!image.padded);
    assert_eq!(image.bitmap, vec![vec![0x010101, 0x020202, 0x030303], vec![0x040404, 0x050505, 0x060606]]);
    assert_eq!(
        image.halfblock,
        vec![vec![pair(0x010101, 0x040404), pair(0x020202, 0x050505), pair(0x030303, 0x060606)]]
    );
}

#[test]
fn an_odd_number_of_rows_gets_a_black_row() {
    let bytes = rgba(&[0xff0000, 0x00ff00, 0x0000ff, 0xffffff, 0x123456, 0x654321]);
    let image = AnsiImage::from_raw_pixels(&bytes, 2).unwrap();
    assert!(image.padded);
    assert_eq!(
        image.bitmap,
        vec![
            vec![0xff0000, 0x00ff00],
            vec![0x0000ff, 0xffffff],
            vec![0x123456, 0x654321],
            vec![0, 0],
        ]
    );
    assert_eq!(image.halfblock.len(), 2);
    assert_eq!(image.halfblock[0], vec![pair(0xff0000, 0x0000ff), pair(0x00ff00, 0xffffff)]);
    assert_eq!(image.halfblock[1], vec![pair(0x123456, 0), pair(0x654321, 0)]);
}

#[test]
fn rows_of_cells_are_half_the_pixel_rows_rounded_up() {
    for height in 1..=9usize {
        for width in 1..=4usize {
            let colors: Vec<u32> = (0..(height * width) as u32).collect();
            let image = AnsiImage::from_raw_pixels(&rgba(&colors), width as u32).unwrap();
            assert_eq!(image.halfblock.len(), (height + 1) / 2);
            assert_eq!(image.bitmap.len(), 2 * ((height + 1) / 2));
            assert_eq!(image.padded, height % 2 == 1);
            for row in image.halfblock.iter() {
                assert_eq!(row.len(), width);
            }
            for row in image.bitmap.iter() {
                assert_eq!(row.len(), width);
            }
        }
    }
}

#[test]
fn a_single_pixel_is_one_cell_over_black() {
    let image = AnsiImage::from_raw_pixels(&[0xab, 0xcd, 0xef, 0x00], 1).unwrap();
    assert!(image.padded);
    assert_eq!(image.bitmap, vec![vec![0xabcdef], vec![0]]);
    assert_eq!(image.halfblock, vec![vec![pair(0xabcdef, 0)]]);
}

#[test]
fn alpha_plays_no_part() {
    let opaque = AnsiImage::from_raw_pixels(&[1, 2, 3, 255, 4, 5, 6, 255], 1).unwrap();
    let clear = AnsiImage::from_raw_pixels(&[1, 2, 3, 0, 4, 5, 6, 17], 1).unwrap();
    assert_eq!(opaque.bitmap, clear.bitmap);
    assert_eq!(opaque.halfblock, clear.halfblock);
}

#[test]
fn pairing_puts_even_rows_on_top() {
    let bitmap = vec![
        vec![0xff0000, 0x00ff00],
        vec![0x0000ff, 0xffffff],
        vec![0x102030, 0x363636],
        vec![0xeeeeee, 0x000000],
    ];
    let canvas = halfblock_bitmap(&bitmap);
    assert_eq!(
        canvas,
        vec![
            vec![pair(0xff0000, 0x0000ff), pair(0x00ff00, 0xffffff)],
            vec![pair(0x102030, 0xeeeeee), pair(0x363636, 0x000000)],
        ]
    );
    assert_eq!(canvas[1][0].top.irc, 90);
    assert_eq!(canvas[1][0].bottom.ansi, 255);
}

#[test]
fn pairing_nothing_gives_nothing() {
    let bitmap: Vec<Vec<u32>> = Vec::new();
    assert!(halfblock_bitmap(&bitmap).is_empty());
}

#[test]
fn pairing_rows_without_pixels_gives_rows_without_cells() {
    let bitmap: Vec<Vec<u32>> = vec![Vec::new(), Vec::new()];
    let expected: Vec<Vec<AnsiPixelPair>> = vec![Vec::new()];
    assert_eq!(halfblock_bitmap(&bitmap), expected);
}

#[test]
fn a_decoded_image_is_cut_like_its_bytes() {
    let bytes = rgba(&[0xff0000, 0x00ff00, 0x0000ff, 0xffffff, 0x123456, 0x654321]);
    let from_image = AnsiImage::new(PhotonImage::new(bytes.clone(), 2, 3)).unwrap();
    let from_bytes = AnsiImage::from_raw_pixels(&bytes, 2).unwrap();
    assert_eq!(from_image.bitmap, from_bytes.bitmap);
    assert_eq!(from_image.halfblock, from_bytes.halfblock);
    assert_eq!(from_image.padded, from_bytes.padded);
    assert_eq!(from_image.halfblock[1], vec![pair(0x123456, 0), pair(0x654321, 0)]);

    let wide = AnsiImage::new(PhotonImage::new(bytes, 3, 2)).unwrap();
    assert!(!wide.padded);
    assert_eq!(wide.bitmap, vec![vec![0xff0000, 0x00ff00, 0x0000ff], vec![0xffffff, 0x123456, 0x654321]]);
}

#[test]
fn a_decoded_image_without_pixels_is_refused() {
    assert_eq!(AnsiImage::new(PhotonImage::new(Vec::new(), 0, 0)).err(), Some(GridError::EmptyImage));
    assert_eq!(AnsiImage::new(PhotonImage::new(Vec::new(), 3, 0)).err(), Some(GridError::EmptyImage));
    assert_eq!(
        AnsiImage::new(PhotonImage::new(vec![0; 12], 2, 2)).err(),
        Some(GridError::InvalidDimensions)
    );
}
