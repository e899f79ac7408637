use image_service::geometry::fit_dimensions;
use image_service::error::ImageError;
use image_service::options::{FilterKind, FormatKind, ImageFilter, OutputFormat};
use image_service::pipeline::encode_image;
use image_service::raster::Image;

fn solid(width: u32, height: u32, rgba: [u8; 4]) -> Image {
    let mut px = Vec::new();
    for _ in 0..(width * height) {
        px.extend_from_slice(&rgba);
    }
    match Image::from_rgba(width, height, px, 0, "image/png") {
        Ok(img) => img,
        Err(e) => panic!("{:?}", e),
    }
}

fn two_pixels() -> Image {
    let px = vec![1, 2, 3, 4, 5, 6, 7, 8];
    Image::from_rgba(2, 1, px, 8, "image/png").unwrap()
}

#[test]
fn from_rgba_rejects_empty_image() {
    let r = Image::from_rgba(0, 3, vec![], 0, "image/png");
    assert!(matches!(r, Err(ImageError::DecodeError(_))));
}

#[test]
fn from_rgba_rejects_mismatched_samples() {
    let r = Image::from_rgba(2, 2, vec![0; 15], 0, "image/png");
    assert!(matches!(r, Err(ImageError::DecodeError(_))));
}

#[test]
fn from_rgba_keeps_fields() {
    let img = Image::from_rgba(1, 2, vec![9; 8], 42, "image/gif").unwrap();
    assert_eq!(img.width(), 1);
    assert_eq!(img.height(), 2);
    assert_eq!(img.size(), 42);
    assert_eq!(img.format(), "image/gif");
    assert_eq!(img.img_data(), &vec![9; 8]);
    let stats = img.stats();
    assert_eq!((stats.width, stats.height, stats.size), (1, 2, 42));
    assert_eq!(stats.format, "image/gif");
}

#[test]
fn fit_dimensions_examples() {
    assert_eq!(fit_dimensions(40, 20, 10, 10), (10, 5));
    assert_eq!(fit_dimensions(20, 40, 10, 10), (5, 10));
    assert_eq!(fit_dimensions(3, 1000, 10, 10), (1, 10));
    assert_eq!(fit_dimensions(1000, 3, 10, 10), (10, 1));
    assert_eq!(fit_dimensions(30, 20, 100, 100), (100, 66));
    assert_eq!(fit_dimensions(7, 7, 5, 9), (5, 5));
}

#[test]
fn resize_without_aspect_is_exact() {
    let img = solid(10, 10, [255, 0, 0, 255]);
    let out = img.resize(5, 3, ImageFilter::default(), false).unwrap();
    assert_eq!((out.width(), out.height()), (5, 3));
    assert_eq!(out.img_data().len(), 5 * 3 * 4);
    assert!(out.img_data().chunks(4).all(|p| p == [255, 0, 0, 255]));
}

#[test]
fn resize_keeping_aspect_fits_box() {
    let img = solid(40, 20, [0, 255, 0, 255]);
    let out = img.resize(10, 10, ImageFilter::parse("gaussian").unwrap(), true).unwrap();
    assert_eq!((out.width(), out.height()), (10, 5));
    let tall = solid(3, 1000, [0, 0, 255, 255]);
    let out = tall.resize(10, 10, ImageFilter::default(), true).unwrap();
    assert_eq!((out.width(), out.height()), (1, 10));
}

#[test]
fn resize_keeps_upload_size_and_label() {
    let img = Image::from_rgba(2, 2, vec![7; 16], 99, "image/bmp").unwrap();
    let out = img.resize(4, 4, ImageFilter::default(), false).unwrap();
    assert_eq!(out.size(), 99);
    assert_eq!(out.format(), "image/bmp");
}

#[test]
fn resize_rejects_empty_box() {
    let img = solid(4, 4, [1, 1, 1, 1]);
    let r = img.resize(0, 5, ImageFilter::default(), false);
    assert!(matches!(r, Err(ImageError::InvalidParameter(_))));
    let r = img.resize(5, 0, ImageFilter::default(), true);
    assert!(matches!(r, Err(ImageError::InvalidParameter(_))));
}

#[test]
fn resize_rejects_oversized_result() {
    let img = solid(1, 1, [1, 1, 1, 1]);
    let r = img.resize(100_000, 100_000, ImageFilter::default(), false);
    assert!(matches!(r, Err(ImageError::InvalidParameter(_))));
}

#[test]
fn rotate_zero_is_identity() {
    let img = two_pixels();
    let out = img.rotate(0).unwrap();
    assert_eq!((out.width(), out.height()), (2, 1));
    assert_eq!(out.img_data(), img.img_data());
}

#[test]
fn rotate_full_turn_matches_zero() {
    let img = solid(3, 2, [4, 5, 6, 7]);
    let a = img.rotate(360).unwrap();
    let b = img.rotate(0).unwrap();
    assert_eq!((a.width(), a.height()), (b.width(), b.height()));
    assert_eq!(a.img_data(), b.img_data());
    let d = two_pixels().rotate(360).unwrap();
    assert_eq!((d.width(), d.height()), (2, 1));
    assert_eq!(d.img_data(), two_pixels().img_data());
    let c = two_pixels().rotate(720).unwrap();
    assert_eq!(c.img_data(), two_pixels().img_data());
}

#[test]
fn rotate_quarter_turns() {
    let img = two_pixels();
    let r90 = img.rotate(90).unwrap();
    assert_eq!((r90.width(), r90.height()), (1, 2));
    assert_eq!(r90.img_data(), &vec![1, 2, 3, 4, 5, 6, 7, 8]);
    let r180 = img.rotate(180).unwrap();
    assert_eq!((r180.width(), r180.height()), (2, 1));
    assert_eq!(r180.img_data(), &vec![5, 6, 7, 8, 1, 2, 3, 4]);
    let r270 = img.rotate(270).unwrap();
    assert_eq!((r270.width(), r270.height()), (1, 2));
    assert_eq!(r270.img_data(), &vec![5, 6, 7, 8, 1, 2, 3, 4]);
    let r450 = img.rotate(450).unwrap();
    assert_eq!(r450.img_data(), r90.img_data());
}

#[test]
fn rotate_square_clockwise() {
    // a b      c a
    // c d  ->  d b
    let px = vec![1, 0, 0, 0, 2, 0, 0, 0, 3, 0, 0, 0, 4, 0, 0, 0];
    let img = Image::from_rgba(2, 2, px, 0, "image/png").unwrap();
    let out = img.rotate(90).unwrap();
    let firsts: Vec<u8> = out.img_data().chunks(4).map(|p| p[0]).collect();
    assert_eq!(firsts, vec![3, 1, 4, 2]);
}

#[test]
fn rotate_refuses_other_angles() {
    let img = two_pixels();
    assert!(matches!(img.rotate(45), Err(ImageError::InvalidParameter(_))));
    assert!(matches!(img.rotate(361), Err(ImageError::InvalidParameter(_))));
}

#[test]
fn write_to_appends_png() {
    let img = solid(3, 3, [10, 20, 30, 255]);
    let mut buf = vec![0xAA];
    img.write_to(&mut buf, OutputFormat::default()).unwrap();
    assert_eq!(buf[0], 0xAA);
    assert_eq!(&buf[1..9], &[0x89, b'P', b'N', b'G', 0x0D, 0x0A, 0x1A, 0x0A]);
    let back = image::load_from_memory(&buf[1..]).unwrap();
    assert_eq!((back.width(), back.height()), (3, 3));
}

#[test]
fn encode_jpeg_and_gif() {
    let img = solid(4, 4, [200, 100, 50, 255]);
    let jpeg = encode_image(&img, OutputFormat { format: FormatKind::Jpeg(100) }).unwrap();
    assert_eq!(&jpeg.bytes[0..2], &[0xFF, 0xD8]);
    assert_eq!(jpeg.mime, "image/jpeg");
    let gif = encode_image(&img, OutputFormat::parse("GIF").unwrap()).unwrap();
    assert_eq!(&gif.bytes[0..4], b"GIF8");
    assert_eq!(gif.mime, "image/gif");
}

#[test]
fn filter_default_is_nearest() {
    assert_eq!(ImageFilter::default().filter, FilterKind::Nearest);
}
