use on_blast::raster::{average_color, round_corners, Raster, Rgb};

fn plain(width: u32, height: u32, pixel: [u8; 4]) -> Raster {
    let mut rgba: Vec<u8> = Vec::new();
    for _ in 0..width * height {
        rgba.extend(pixel);
    }
    Raster { width, height, rgba }
}

fn alphas(img: &Raster) -> Vec<u8> {
    img.rgba.chunks(4).map(|p| p[3]).collect()
}

#[test]
fn a_plain_image_has_its_colour() {
    assert_eq!(average_color(&plain(3, 5, [7, 80, 255, 0])), Rgb { r: 7, g: 80, b: 255 });
}

#[test]
fn means_are_rounded_down() {
    let img = Raster { width: 2, height: 1, rgba: vec![0, 10, 255, 255, 1, 13, 254, 0] };
    assert_eq!(average_color(&img), Rgb { r: 0, g: 11, b: 254 });
}

#[test]
fn no_pixels_are_black() {
    let img = Raster { width: 0, height: 4, rgba: Vec::new() };
    assert_eq!(average_color(&img), Rgb { r: 0, g: 0, b: 0 });
}

#[test]
fn bytes_behind_the_pixels_do_not_count() {
    let img = Raster { width: 1, height: 1, rgba: vec![9, 9, 9, 9, 200, 200, 200, 200] };
    assert_eq!(average_color(&img), Rgb { r: 9, g: 9, b: 9 });
}

#[test]
fn all_four_corners_are_faded_alike() {
    let mut img = plain(5, 4, [1, 2, 3, 100]);
    round_corners(&mut img, 2, &|cx: u32, cy: u32, alpha: u8| alpha + 10 * cy as u8 + cx as u8);
    assert_eq!(
        alphas(&img),
        vec![
            100, 101, 100, 101, 100, //
            110, 111, 100, 111, 110, //
            110, 111, 100, 111, 110, //
            100, 101, 100, 101, 100,
        ]
    );
    assert!(img.rgba.chunks(4).all(|p| p[..3] == [1, 2, 3]));
}

#[test]
fn corners_reach_half_of_the_shorter_side_at_most() {
    let mut img = plain(5, 3, [0, 0, 0, 255]);
    round_corners(&mut img, 9, &|_: u32, _: u32, _: u8| 0);
    assert_eq!(
        alphas(&img),
        vec![
            0, 255, 255, 255, 0, //
            255, 255, 255, 255, 255, //
            0, 255, 255, 255, 0,
        ]
    );
}

#[test]
fn corners_without_cells_are_left_alone() {
    let mut img = plain(4, 4, [0, 0, 0, 255]);
    round_corners(&mut img, 0, &|_: u32, _: u32, _: u8| 0);
    assert_eq!(img, plain(4, 4, [0, 0, 0, 255]));
}
