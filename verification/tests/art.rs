use std::io::Cursor;

use image::{DynamicImage, ImageFormat, Rgba, RgbaImage};
use on_blast::art::{
    blur_backdrop, decode_rgba, finish_backdrop, make_thumbnail, process_cover,
};
use on_blast::raster::{Raster, Rgb};

fn keep(_: u32, _: u32, alpha: u8) -> u8 {
    alpha
}

fn clear(_: u32, _: u32, _: u8) -> u8 {
    0
}

/// An image whose pixels all differ as far as bytes allow.
fn picture(width: u32, height: u32) -> DynamicImage {
    DynamicImage::ImageRgba8(RgbaImage::from_fn(width, height, |x, y| {
        Rgba([(x % 251) as u8, (y % 241) as u8, ((x + y) % 239) as u8, 255])
    }))
}

fn plain(width: u32, height: u32) -> DynamicImage {
    DynamicImage::ImageRgba8(RgbaImage::from_pixel(width, height, Rgba([200, 100, 50, 255])))
}

fn png(img: &DynamicImage) -> Vec<u8> {
    let mut out = Cursor::new(Vec::new());
    img.write_to(&mut out, ImageFormat::Png).unwrap();
    out.into_inner()
}

fn near(a: u8, b: u8) -> bool {
    a.abs_diff(b) <= 2
}

#[test]
fn a_stored_cover_is_shown_as_it_is() {
    let img = picture(90, 60);
    let art = decode_rgba(&png(&img), 4, &keep).unwrap();
    assert_eq!((art.sharp.width, art.sharp.height), (90, 60));
    assert_eq!(art.sharp.rgba, img.to_rgba8().into_raw());
    assert_eq!((art.blurred.width, art.blurred.height), (360, 560));
    assert_eq!(art.blurred.rgba.len(), 4 * 360 * 560);
}

#[test]
fn bytes_that_are_no_image_give_no_art() {
    assert!(decode_rgba(b"{\"error\": 404}", 4, &keep).is_none());
    assert!(decode_rgba(b"", 4, &keep).is_none());
    assert!(process_cover(b"{\"error\": 404}", 4, &keep).is_none());
}

#[test]
fn a_backdrop_has_the_colour_of_the_cover() {
    let (backdrop, color) = blur_backdrop(&plain(120, 120), 4, &keep);
    assert!(near(color.r, 200) && near(color.g, 100) && near(color.b, 50));
    let middle = 4 * (280 * 360 + 180);
    assert!(near(backdrop.rgba[middle], 200));
    assert!(near(backdrop.rgba[middle + 1], 100));
    assert!(near(backdrop.rgba[middle + 2], 50));
}

#[test]
fn a_backdrop_is_blurred() {
    let (backdrop, _) = blur_backdrop(&picture(48, 48), 0, &keep);
    let (again, _) = blur_backdrop(&picture(48, 48), 0, &keep);
    assert_eq!(backdrop, again);
    // The columns of the picture run from dark to bright; blurred they are closer.
    let left = backdrop.rgba[4 * (280 * 360)];
    let right = backdrop.rgba[4 * (280 * 360 + 359)];
    assert!(left > 0 && right < 47 && left < right);
}

#[test]
fn the_corners_of_a_backdrop_are_cut() {
    let (backdrop, _) = blur_backdrop(&plain(120, 120), 8, &clear);
    let alpha = |x: usize, y: usize| backdrop.rgba[4 * (y * 360 + x) + 3];
    for (x, y) in [(0, 0), (359, 0), (0, 559), (359, 559), (7, 7), (352, 552)] {
        assert_eq!(alpha(x, y), 0);
    }
    for (x, y) in [(8, 0), (0, 8), (8, 8), (180, 280), (351, 559), (359, 551)] {
        assert_eq!(alpha(x, y), 255);
    }
}

#[test]
fn a_blurred_cover_is_stretched_to_the_popup() {
    let mut rgba: Vec<u8> = Vec::new();
    for _ in 0..4 {
        rgba.extend([10, 20, 30, 255]);
    }
    let small = Raster { width: 2, height: 2, rgba };
    let (backdrop, color) = finish_backdrop(&small, 0, &keep);
    assert_eq!(color, Rgb { r: 10, g: 20, b: 30 });
    assert_eq!((backdrop.width, backdrop.height), (360, 560));
    assert!(backdrop.rgba.chunks(4).all(|p| p == [10, 20, 30, 255]));
}

#[test]
fn a_large_cover_shrinks_to_a_thumbnail() {
    let thumb = make_thumbnail(&picture(801, 600));
    assert_eq!((thumb.width(), thumb.height()), (400, 400));
    let (stored, art) = process_cover(&png(&picture(500, 900)), 4, &keep).unwrap();
    assert_eq!((stored.width(), stored.height()), (400, 400));
    assert_eq!((art.sharp.width, art.sharp.height), (400, 400));
    assert_eq!(art.sharp.rgba, stored.to_rgba8().into_raw());
}

#[test]
fn a_banner_is_cut_to_its_centre() {
    let banner = picture(31, 10);
    let thumb = make_thumbnail(&banner).to_rgba8();
    assert_eq!(thumb.dimensions(), (10, 10));
    let whole = banner.to_rgba8();
    for y in 0..10 {
        for x in 0..10 {
            assert_eq!(thumb.get_pixel(x, y), whole.get_pixel(x + 10, y));
        }
    }
    let tall = picture(6, 9);
    let thumb = make_thumbnail(&tall).to_rgba8();
    assert_eq!(thumb.dimensions(), (6, 6));
    assert_eq!(thumb.get_pixel(2, 0), tall.to_rgba8().get_pixel(2, 1));
}

#[test]
fn a_wide_banner_is_shown() {
    let banner = DynamicImage::new_luma8(400_000, 10);
    let (stored, art) = process_cover(&png(&banner), 4, &keep).unwrap();
    assert_eq!((stored.width(), stored.height()), (10, 10));
    assert_eq!((art.sharp.width, art.sharp.height), (10, 10));
    assert_eq!(art.sharp.rgba, [0, 0, 0, 255].repeat(100));
    assert_eq!((art.blurred.width, art.blurred.height), (360, 560));
}

#[test]
fn a_square_cover_of_the_right_size_is_kept() {
    let cover = picture(400, 400);
    assert_eq!(make_thumbnail(&cover).to_rgba8(), cover.to_rgba8());
}
