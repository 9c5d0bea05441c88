//! Decoding real PNG byte streams through the asset loader.

use desktop_sprite::{ColorLayout, PixelFormat, SpriteError, decode_image, pixel_format_of};

fn encode_png(width: u32, height: u32, color: png::ColorType, data: &[u8]) -> Vec<u8> {
    let mut bytes: Vec<u8> = Vec::new();
    {
        let mut encoder = png::Encoder::new(&mut bytes, width, height);
        encoder.set_color(color);
        encoder.set_depth(png::BitDepth::Eight);
        let mut writer = encoder.write_header().unwrap();
        writer.write_image_data(data).unwrap();
    }
    bytes
}

#[test]
fn decodes_rgba_pixels_back() {
    let pixels: Vec<u8> = vec![
        255, 0, 0, 255, 0, 255, 0, 128, 0, 0, 255, 0, 9, 8, 7, 6,
    ];
    let bytes = encode_png(2, 2, png::ColorType::Rgba, &pixels);
    let d = decode_image(&bytes).unwrap();
    assert_eq!(d.width, 2);
    assert_eq!(d.height, 2);
    assert_eq!(d.stride, 8);
    assert_eq!(d.layout, ColorLayout::Rgba);
    assert_eq!(d.pixels, pixels);
}

#[test]
fn decodes_rgb_pixels_back() {
    let pixels: Vec<u8> = vec![10, 20, 30, 40, 50, 60];
    let bytes = encode_png(2, 1, png::ColorType::Rgb, &pixels);
    let d = decode_image(&bytes).unwrap();
    assert_eq!(d.width, 2);
    assert_eq!(d.height, 1);
    assert_eq!(d.stride, 6);
    assert_eq!(d.layout, ColorLayout::Rgb);
    assert_eq!(d.pixels, pixels);
}

#[test]
fn rejects_grayscale_layout() {
    let bytes = encode_png(2, 2, png::ColorType::Grayscale, &[1, 2, 3, 4]);
    assert!(matches!(decode_image(&bytes), Err(SpriteError::AssetDecode(_))));
}

#[test]
fn rejects_bytes_that_are_no_png() {
    let bytes: Vec<u8> = vec![1, 2, 3, 4, 5, 6, 7, 8];
    assert!(matches!(decode_image(&bytes), Err(SpriteError::AssetDecode(_))));
}

#[test]
fn rejects_truncated_png() {
    let pixels: Vec<u8> = vec![10, 20, 30];
    let mut bytes = encode_png(1, 1, png::ColorType::Rgb, &pixels);
    bytes.truncate(bytes.len() / 2);
    assert!(matches!(decode_image(&bytes), Err(SpriteError::AssetDecode(_))));
}

#[test]
fn pixel_format_follows_layout() {
    assert_eq!(pixel_format_of(ColorLayout::Rgb), PixelFormat::Rgb24);
    assert_eq!(pixel_format_of(ColorLayout::Rgba), PixelFormat::Argb8888);
}
