use std::io::Cursor;

use image::{DynamicImage, ImageBuffer, ImageOutputFormat, Luma, Rgb};
use physics::import_freepbr::{is_zip_package, material_images, ImageKind, ImportError};

fn rgb_png(w: u32, h: u32, pixels: Vec<u8>) -> Vec<u8> {
    let img: ImageBuffer<Rgb<u8>, Vec<u8>> = ImageBuffer::from_raw(w, h, pixels).unwrap();
    let mut out = Cursor::new(Vec::new());
    DynamicImage::ImageRgb8(img).write_to(&mut out, ImageOutputFormat::Png).unwrap();
    out.into_inner()
}

fn gray_png(w: u32, h: u32, pixels: Vec<u8>) -> Vec<u8> {
    let img: ImageBuffer<Luma<u8>, Vec<u8>> = ImageBuffer::from_raw(w, h, pixels).unwrap();
    let mut out = Cursor::new(Vec::new());
    DynamicImage::ImageLuma8(img).write_to(&mut out, ImageOutputFormat::Png).unwrap();
    out.into_inner()
}

fn names(list: &[&str]) -> Vec<String> {
    list.iter().map(|s| s.to_string()).collect()
}

#[test]
fn images_of_a_full_package() {
    let n = names(&["m_albedo.png", "m_normal-ogl.png", "m_rough.png", "m_metal.png", "notes.txt", "m_ao.png"]);
    let d = vec![
        rgb_png(2, 1, vec![1, 2, 3, 4, 5, 6]),
        rgb_png(2, 1, vec![7, 8, 9, 10, 11, 12]),
        gray_png(2, 1, vec![20, 21]),
        gray_png(3, 1, vec![30, 31, 32]),
        b"not an image".to_vec(),
        gray_png(2, 1, vec![40, 41]),
    ];
    let images = material_images(&n, &d).unwrap();
    assert_eq!((images.albedo.width, images.albedo.height), (2, 1));
    assert_eq!(images.albedo.pixels, vec![1, 2, 3, 4, 5, 6]);
    assert_eq!(images.normal.pixels, vec![7, 8, 9, 10, 11, 12]);
    assert_eq!(images.metallic_roughness.pixels, vec![0, 20, 30, 0, 21, 31]);
    assert_eq!(images.ao.unwrap().pixels, vec![40, 41]);
    assert!(images.emissive.is_none());
}

#[test]
fn roughness_alone_is_used_as_rgb() {
    let n = names(&["a_albedo.png", "a_normal.png", "a_rough.png"]);
    let d = vec![rgb_png(1, 1, vec![1, 1, 1]), rgb_png(1, 1, vec![2, 2, 2]), gray_png(1, 1, vec![9])];
    let images = material_images(&n, &d).unwrap();
    assert_eq!(images.metallic_roughness.pixels, vec![9, 9, 9]);
}

#[test]
fn package_errors() {
    let n = names(&["a_albedo.png", "a_rough.png"]);
    let d = vec![rgb_png(1, 1, vec![1, 1, 1]), gray_png(1, 1, vec![9])];
    assert!(matches!(material_images(&n, &d), Err(ImportError::Missing(ImageKind::Normal))));
    let n = names(&["a_albedo.png", "a_normal.png", "a_rough.png"]);
    let d = vec![rgb_png(1, 1, vec![1, 1, 1]), b"junk".to_vec(), gray_png(1, 1, vec![9])];
    assert!(matches!(material_images(&n, &d), Err(ImportError::Undecodable(1))));
    let n = names(&["a_albedo.png", "a_normal.png", "a_rough.png", "a_metal.png"]);
    let d = vec![
        rgb_png(2, 1, vec![1, 1, 1, 1, 1, 1]),
        rgb_png(2, 1, vec![2, 2, 2, 2, 2, 2]),
        gray_png(1, 1, vec![9]),
        gray_png(2, 1, vec![3, 3]),
    ];
    assert!(matches!(material_images(&n, &d), Err(ImportError::PixelOutOfBounds)));
}

#[test]
fn zip_packages_by_extension() {
    assert!(is_zip_package(&Some("zip".to_string())));
    assert!(!is_zip_package(&Some("ZIP".to_string())));
    assert!(!is_zip_package(&None));
}
