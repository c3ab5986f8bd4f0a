use ocean_engine::texture::{TextureError, TextureImage};
use std::io::Cursor;

fn encode_png(img: &image::RgbaImage) -> Vec<u8> {
    let mut bytes = Cursor::new(Vec::new());
    img.write_to(&mut bytes, image::ImageFormat::Png).expect("encode");
    bytes.into_inner()
}

#[test]
fn decodes_png_to_rgba() {
    let mut img = image::RgbaImage::new(2, 1);
    img.put_pixel(0, 0, image::Rgba([255, 0, 0, 255]));
    img.put_pixel(1, 0, image::Rgba([0, 0, 255, 128]));
    let bytes = encode_png(&img);
    let tex = TextureImage::from_bytes(&bytes).expect("valid png");
    assert_eq!(tex.width(), 2);
    assert_eq!(tex.height(), 1);
    assert_eq!(tex.pixels(), &[255, 0, 0, 255, 0, 0, 255, 128]);
}

#[test]
fn grayscale_png_becomes_rgba() {
    let img = image::GrayImage::from_pixel(1, 2, image::Luma([9]));
    let mut bytes = Cursor::new(Vec::new());
    img.write_to(&mut bytes, image::ImageFormat::Png).expect("encode");
    let tex = TextureImage::from_bytes(bytes.get_ref()).expect("valid png");
    assert_eq!(tex.width(), 1);
    assert_eq!(tex.height(), 2);
    assert_eq!(tex.pixels(), &[9, 9, 9, 255, 9, 9, 9, 255]);
}

#[test]
fn malformed_bytes_give_decode_error() {
    let r = TextureImage::from_bytes(&[1, 2, 3, 4, 5]);
    assert!(matches!(r, Err(TextureError::Decode(_))));
    let empty = TextureImage::from_bytes(&[]);
    assert!(matches!(empty, Err(TextureError::Decode(_))));
}

#[test]
fn single_color_texture() {
    let tex = TextureImage::from_color([10, 20, 30, 255]);
    assert_eq!(tex.width(), 1);
    assert_eq!(tex.height(), 1);
    assert_eq!(tex.pixels(), &[10, 20, 30, 255]);
}

#[test]
fn pixel_data_must_fit_size() {
    assert!(TextureImage::new(2, 2, vec![0; 16]).is_some());
    assert!(TextureImage::new(2, 2, vec![0; 15]).is_none());
    assert!(TextureImage::new(0, 5, vec![]).is_some());
    assert!(TextureImage::new(1, 1, vec![]).is_none());
}
