use cosy::texture::decode_texture;
use std::io::Cursor;

fn png_bytes(width: u32, height: u32, pixels: Vec<u8>) -> Vec<u8> {
    let img = image::RgbaImage::from_raw(width, height, pixels).unwrap();
    let mut bytes: Vec<u8> = Vec::new();
    img.write_to(&mut Cursor::new(&mut bytes), image::ImageFormat::Png).unwrap();
    bytes
}

#[test]
fn decodes_rgba_pixels_byte_for_byte() {
    let pixels = vec![
        255u8, 0, 0, 255, // red
        0, 255, 0, 255, // green
        0, 0, 255, 255, // blue
        10, 20, 30, 40, // translucent gray-ish
    ];
    let bytes = png_bytes(2, 2, pixels.clone());
    let (img, staging) = decode_texture(&bytes).unwrap();
    assert_eq!(img.width, 2);
    assert_eq!(img.height, 2);
    assert_eq!(img.pixels, pixels);
    assert_eq!(staging, 16);
}

#[test]
fn staging_size_is_four_bytes_per_pixel() {
    let pixels = vec![7u8; 3 * 5 * 4];
    let bytes = png_bytes(3, 5, pixels);
    let (img, staging) = decode_texture(&bytes).unwrap();
    assert_eq!(img.pixels.len(), 60);
    assert_eq!(staging, 4 * img.width as u64 * img.height as u64);
}

#[test]
fn undecodable_bytes_yield_nothing() {
    let bytes = vec![1u8, 2, 3, 4, 5];
    assert!(decode_texture(&bytes).is_none());
}
