//! Covers: their thumbnails, their blurred backdrops and their colour.
use vstd::prelude::*;

use crate::raster::{average_color, channel_at, mean_color, round_corners, rounded, Raster, Rgb};

verus! {

/// Cover thumbnail size: crisp enough for the popup hero, and far smaller than a
/// full-resolution cover, which is paid once per monitor.
pub const THUMB_SIZE: u32 = 400;

/// Backdrop texture width, which is also the width of the popup.
pub const BACKDROP_WIDTH: u32 = 360;

/// Backdrop texture height. It is nominal: the renderer stretches the texture to
/// the real popup.
pub const BACKDROP_HEIGHT: u32 = 560;

/// Resolution the cover is blurred at. Small enough to be free, and the blur
/// hides the upscale back to popup size.
pub const BLUR_SRC_SIZE: u32 = 48;

/// Gaussian sigma for the backdrop blur.
pub const BLUR_SIGMA: u8 = 6;

#[verifier::external_type_specification]
#[verifier::external_body]
pub struct ExDynamicImage(image::DynamicImage);

#[verifier::external_type_specification]
#[verifier::external_body]
pub struct ExImageError(image::ImageError);

/// The image that encoded bytes stand for, where they stand for one.
pub uninterp spec fn decoded_image(bytes: Seq<u8>) -> Option<image::DynamicImage>;

/// The width of an image.
pub uninterp spec fn image_width(img: image::DynamicImage) -> u32;

/// The height of an image.
pub uninterp spec fn image_height(img: image::DynamicImage) -> u32;

/// The pixels of an image, row by row, as bytes of red, green, blue and alpha.
pub uninterp spec fn image_rgba(img: image::DynamicImage) -> Seq<u8>;

/// The cut-out of an image whose top left corner is `(x, y)`.
pub uninterp spec fn cropped_image(
    img: image::DynamicImage,
    x: u32,
    y: u32,
    width: u32,
    height: u32,
) -> image::DynamicImage;

/// An image resampled to a size with a triangle filter.
pub uninterp spec fn resized_image(
    img: image::DynamicImage,
    width: u32,
    height: u32,
) -> image::DynamicImage;

/// Pixels of one size resampled to another with a triangle filter.
pub uninterp spec fn resized_rgba(
    rgba: Seq<u8>,
    width: u32,
    height: u32,
    nwidth: u32,
    nheight: u32,
) -> Seq<u8>;

/// Whether pixels are an outcome of blurring others of that size. The blur
/// computes its weights with the machine's exponential function, so that one
/// input may have more than one outcome.
pub uninterp spec fn blurs_to(
    rgba: Seq<u8>,
    width: u32,
    height: u32,
    sigma: u8,
    out: Seq<u8>,
) -> bool;

/// How much of a cut of `len` at `at` lies within `size`.
pub open spec fn clipped(at: u32, len: u32, size: u32) -> u32 {
    if at >= size {
        0
    } else if len <= size - at {
        len
    } else {
        (size - at) as u32
    }
}

/// One channel of a pixel of an image: red, green, blue or alpha.
pub open spec fn pixel_channel(img: image::DynamicImage, x: int, y: int, channel: int) -> u8 {
    channel_at(image_rgba(img), y * image_width(img) + x, channel)
}

/// Whether an image shows the cut-out of another whose top left corner is
/// `(x0, y0)`, pixel for pixel.
pub open spec fn shows_cut(
    whole: image::DynamicImage,
    x0: u32,
    y0: u32,
    part: image::DynamicImage,
) -> bool {
    forall|x: int, y: int, c: int|
        0 <= x < image_width(part) && 0 <= y < image_height(part) && 0 <= c < 4
            ==> #[trigger] pixel_channel(part, x, y, c) == pixel_channel(whole, x0 + x, y0 + y, c)
}

/// `image::load_from_memory` decodes bytes or fails, by what the bytes are alone,
/// as long as no decoding hook is registered with the crate.
pub assume_specification[ image::load_from_memory ](buffer: &[u8]) -> (r: Result<
    image::DynamicImage,
    image::ImageError,
>)
    ensures
        match r {
            Ok(img) => decoded_image(buffer@) == Some(img),
            Err(_) => decoded_image(buffer@) is None,
        },
;

/// `image::DynamicImage::width` is the width of the image.
pub assume_specification[ image::DynamicImage::width ](img: &image::DynamicImage) -> (r: u32)
    ensures
        r == image_width(*img),
;

/// `image::DynamicImage::height` is the height of the image. An image holds its
/// pixels in a vector, with a byte or more for each of them, and no vector takes
/// more bytes than `isize::MAX`; so there are no more pixels than that.
pub assume_specification[ image::DynamicImage::height ](img: &image::DynamicImage) -> (r: u32)
    ensures
        r == image_height(*img),
        image_width(*img) * r <= isize::MAX,
;

/// `image::DynamicImage::crop_imm` cuts out a rectangle, as far as it lies within
/// the image, and leaves its pixels as they are.
pub assume_specification[ image::DynamicImage::crop_imm ](
    img: &image::DynamicImage,
    x: u32,
    y: u32,
    width: u32,
    height: u32,
) -> (r: image::DynamicImage)
    ensures
        r == cropped_image(*img, x, y, width, height),
        image_width(r) == clipped(x, width, image_width(*img)),
        image_height(r) == clipped(y, height, image_height(*img)),
        shows_cut(*img, x, y, r),
;

/// `image::DynamicImage::resize_exact` with the triangle filter resamples an
/// image to exactly the size asked for. What is held as floats halfway through,
/// of the old width and the new height, would panic where it is too large for the
/// machine. The filter weighs pixels by distances in single precision, which are
/// too coarse for some sizes of many millions, and it panics there; they are fine
/// enough for every image where the new size is as small as is asked here.
#[verifier::external_body]
fn resize_image(img: &image::DynamicImage, width: u32, height: u32) -> (r: image::DynamicImage)
    requires
        16 * (image_width(*img) * height) <= isize::MAX,
        width <= 4096,
        height <= 4096,
    ensures
        r == resized_image(*img, width, height),
        image_width(r) == width,
        image_height(r) == height,
{
    img.resize_exact(width, height, image::imageops::FilterType::Triangle)
}

/// `image::DynamicImage::to_rgba8` converts an image to bytes, four for each
/// pixel. More bytes than the machine can hold would panic.
#[verifier::external_body]
fn to_raster(img: &image::DynamicImage) -> (r: Raster)
    requires
        4 * (image_width(*img) * image_height(*img)) <= isize::MAX,
    ensures
        r.width == image_width(*img),
        r.height == image_height(*img),
        r.rgba@ == image_rgba(*img),
        r.wf(),
{
    let buf = img.to_rgba8();
    Raster { width: buf.width(), height: buf.height(), rgba: buf.into_raw() }
}

/// `image::imageops::blur` blurs pixels and keeps their size. An image without
/// pixels would panic, and so would one too large to hold as floats. Which of
/// its outcomes a blur has is left unsaid: its weights come from an exponential
/// function whose precision varies between platforms.
#[verifier::external_body]
fn blur(img: &Raster, sigma: u8) -> (r: Raster)
    requires
        img.wf(),
        img.width > 0,
        img.height > 0,
        16 * (img.width * img.height) <= isize::MAX,
    ensures
        r.width == img.width,
        r.height == img.height,
        r.rgba@.len() == 4 * (img.width * img.height),
        blurs_to(img.rgba@, img.width, img.height, sigma, r.rgba@),
{
    let buf = image::RgbaImage::from_raw(img.width, img.height, img.rgba.clone()).unwrap();
    let out = image::imageops::blur(&buf, sigma.into());
    Raster { width: out.width(), height: out.height(), rgba: out.into_raw() }
}

/// `image::imageops::resize` with the triangle filter resamples pixels to
/// exactly the size asked for. It panics as `resize_exact` does, on what is too
/// large for the machine halfway through and on new sizes too large for the
/// precision of the filter.
#[verifier::external_body]
fn resize(img: &Raster, width: u32, height: u32) -> (r: Raster)
    requires
        img.wf(),
        16 * (img.width * height) <= isize::MAX,
        width <= 4096,
        height <= 4096,
    ensures
        r.width == width,
        r.height == height,
        r.rgba@.len() == 4 * (width * height),
        r.rgba@ == resized_rgba(img.rgba@, img.width, img.height, width, height),
{
    let buf = image::RgbaImage::from_raw(img.width, img.height, img.rgba.clone()).unwrap();
    let filter = image::imageops::FilterType::Triangle;
    let out = image::imageops::resize(&buf, width, height, filter);
    Raster { width: out.width(), height: out.height(), rgba: out.into_raw() }
}

/// A cover ready to be drawn: the sharp image, the backdrop and the average
/// colour.
#[derive(Debug, Clone, PartialEq)]
pub struct Art {
    pub sharp: Raster,
    pub blurred: Raster,
    pub color: Rgb,
}

/// The backdrop of a blurred cover: its pixels stretched to the popup box, with
/// the corners faded.
pub open spec fn stretched<F: Fn(u32, u32, u8) -> u8>(
    small: Raster,
    cells: u32,
    fade: F,
    backdrop: Raster,
) -> bool {
    &&& backdrop.width == BACKDROP_WIDTH
    &&& backdrop.height == BACKDROP_HEIGHT
    &&& rounded(
        resized_rgba(small.rgba@, small.width, small.height, BACKDROP_WIDTH, BACKDROP_HEIGHT),
        BACKDROP_WIDTH,
        BACKDROP_HEIGHT,
        cells,
        fade,
        backdrop.rgba@,
    )
}

/// Whether small pixels are an outcome of blurring a cover: it is shrunk first,
/// and the blur hides that.
pub open spec fn blurred_cover(img: image::DynamicImage, small: Raster) -> bool {
    &&& small.width == BLUR_SRC_SIZE
    &&& small.height == BLUR_SRC_SIZE
    &&& small.rgba@.len() == 4 * (BLUR_SRC_SIZE * BLUR_SRC_SIZE)
    &&& blurs_to(
        image_rgba(resized_image(img, BLUR_SRC_SIZE, BLUR_SRC_SIZE)),
        BLUR_SRC_SIZE,
        BLUR_SRC_SIZE,
        BLUR_SIGMA,
        small.rgba@,
    )
}

/// Whether a backdrop and a colour are a cover's: both come from one outcome of
/// blurring it.
pub open spec fn backdrop_of<F: Fn(u32, u32, u8) -> u8>(
    img: image::DynamicImage,
    cells: u32,
    fade: F,
    backdrop: Raster,
    color: Rgb,
) -> bool {
    exists|small: Raster| #[trigger]
        blurred_cover(img, small) && color == mean_color(small) && stretched(
            small,
            cells,
            fade,
            backdrop,
        )
}

/// Whether art is an image's: the image itself as the sharp cover, with its
/// backdrop and colour.
pub open spec fn art_of<F: Fn(u32, u32, u8) -> u8>(
    img: image::DynamicImage,
    cells: u32,
    fade: F,
    art: Art,
) -> bool {
    &&& art.sharp.width == image_width(img)
    &&& art.sharp.height == image_height(img)
    &&& art.sharp.rgba@ == image_rgba(img)
    &&& backdrop_of(img, cells, fade, art.blurred, art.color)
}

/// Whether the machine can hold what is made of an image on the way to its art:
/// its pixels as bytes, and as floats what is halfway to the size it is blurred
/// at. It can for every thumbnail.
pub open spec fn workable(img: image::DynamicImage) -> bool {
    &&& 4 * (image_width(img) * image_height(img)) <= isize::MAX
    &&& 16 * (image_width(img) * BLUR_SRC_SIZE) <= isize::MAX
}

/// The shorter side of an image.
pub open spec fn image_side(img: image::DynamicImage) -> u32 {
    if image_width(img) <= image_height(img) {
        image_width(img)
    } else {
        image_height(img)
    }
}

/// Where the centre square of an image starts, from the left.
pub open spec fn square_x(img: image::DynamicImage) -> u32 {
    ((image_width(img) - image_side(img)) / 2) as u32
}

/// Where the centre square of an image starts, from the top.
pub open spec fn square_y(img: image::DynamicImage) -> u32 {
    ((image_height(img) - image_side(img)) / 2) as u32
}

/// The centre square of an image, no larger than a thumbnail.
pub open spec fn thumbnail_of(img: image::DynamicImage) -> image::DynamicImage {
    let side = image_side(img);
    let square = cropped_image(img, square_x(img), square_y(img), side, side);
    if side > THUMB_SIZE {
        resized_image(square, THUMB_SIZE, THUMB_SIZE)
    } else {
        square
    }
}

/// Whether an image is the centre square of another, pixel for pixel.
pub open spec fn centre_square(img: image::DynamicImage, square: image::DynamicImage) -> bool {
    &&& image_width(square) == image_side(img)
    &&& image_height(square) == image_side(img)
    &&& shows_cut(img, square_x(img), square_y(img), square)
}

/// Whether an image is as a thumbnail of another is: a square, no larger than a
/// thumbnail and never scaled up, and made of the centre of the other, pixel for
/// pixel where that is small enough.
pub open spec fn fits_thumbnail(img: image::DynamicImage, thumb: image::DynamicImage) -> bool {
    let side = image_side(img);
    &&& image_width(thumb) == image_height(thumb)
    &&& image_width(thumb) == if side <= THUMB_SIZE {
        side
    } else {
        THUMB_SIZE
    }
    &&& side <= THUMB_SIZE ==> shows_cut(img, square_x(img), square_y(img), thumb)
    &&& exists|centre: image::DynamicImage| #[trigger]
        centre_square(img, centre) && thumb == if side <= THUMB_SIZE {
            centre
        } else {
            resized_image(centre, THUMB_SIZE, THUMB_SIZE)
        }
}

/// Makes the backdrop out of the blurred cover: its average colour, and its
/// pixels stretched to the popup box with the corners cut.
pub fn finish_backdrop<F: Fn(u32, u32, u8) -> u8>(small: &Raster, cells: u32, fade: &F) -> (r: (
    Raster,
    Rgb,
))
    requires
        small.wf(),
        small.width * small.height <= u32::MAX,
        16 * (small.width * BACKDROP_HEIGHT) <= isize::MAX,
        forall|cx: u32, cy: u32, a: u8| call_requires(*fade, (cx, cy, a)),
    ensures
        stretched(*small, cells, *fade, r.0),
        r.1 == mean_color(*small),
{
    let color = average_color(small);
    let mut full = resize(small, BACKDROP_WIDTH, BACKDROP_HEIGHT);
    round_corners(&mut full, cells, fade);
    (full, color)
}

/// Blurs tiny (the blur hides the upscale), then stretches to the popup box: the
/// texture has to reach popup scale, because that's where the corners are cut.
pub fn blur_backdrop<F: Fn(u32, u32, u8) -> u8>(
    img: &image::DynamicImage,
    cells: u32,
    fade: &F,
) -> (r: (Raster, Rgb))
    requires
        workable(*img),
        forall|cx: u32, cy: u32, a: u8| call_requires(*fade, (cx, cy, a)),
    ensures
        backdrop_of(*img, cells, *fade, r.0, r.1),
{
    let small = resize_image(img, BLUR_SRC_SIZE, BLUR_SRC_SIZE);
    let blurred = blur(&to_raster(&small), BLUR_SIGMA);
    assert(blurred_cover(*img, blurred));
    finish_backdrop(&blurred, cells, fade)
}

/// Makes the art of an image: the image itself, its backdrop and its colour.
pub fn make_art<F: Fn(u32, u32, u8) -> u8>(
    img: &image::DynamicImage,
    cells: u32,
    fade: &F,
) -> (r: Art)
    requires
        workable(*img),
        forall|cx: u32, cy: u32, a: u8| call_requires(*fade, (cx, cy, a)),
    ensures
        art_of(*img, cells, *fade, r),
{
    let (blurred, color) = blur_backdrop(img, cells, fade);
    Art { sharp: to_raster(img), blurred, color }
}

/// Whether the machine can hold what is made of an image on the way to its art.
fn is_workable(img: &image::DynamicImage) -> (r: bool)
    ensures
        r == workable(*img),
{
    let w: u128 = img.width() as u128;
    let h: u128 = img.height() as u128;
    assert(0 <= w * h <= 0xffff_ffff * 0xffff_ffff) by (nonlinear_arith)
        requires
            0 <= w <= 0xffff_ffff,
            0 <= h <= 0xffff_ffff,
    ;
    let most: u128 = isize::MAX as u128;
    let small: u128 = BLUR_SRC_SIZE as u128;
    assert(0 <= w * small <= 0xffff_ffff * 48);
    4 * (w * h) <= most && 16 * (w * small) <= most
}

/// Decodes a stored thumbnail into the sharp cover and its backdrop. `None` means
/// that the bytes are no image, or one too large for the machine.
pub fn decode_rgba<F: Fn(u32, u32, u8) -> u8>(bytes: &[u8], cells: u32, fade: &F) -> (r: Option<
    Art,
>)
    requires
        forall|cx: u32, cy: u32, a: u8| call_requires(*fade, (cx, cy, a)),
    ensures
        match decoded_image(bytes@) {
            Some(img) if workable(img) => r matches Some(art) && art_of(img, cells, *fade, art),
            _ => r is None,
        },
{
    match image::load_from_memory(bytes) {
        Ok(img) => if is_workable(&img) {
            Some(make_art(&img, cells, fade))
        } else {
            None
        },
        Err(_) => None,
    }
}

/// The centre square of an image that the machine holds can be scaled down.
proof fn lemma_square_fits(w: u32, h: u32, side: u32)
    requires
        w * h <= isize::MAX,
        side <= w,
        side <= h,
    ensures
        16 * (side * THUMB_SIZE) <= isize::MAX,
{
    assert(side * side <= w * h) by (nonlinear_arith)
        requires
            side <= w,
            side <= h,
    ;
    if side >= 6400 {
        assert(6400 * side <= side * side) by (nonlinear_arith)
            requires
                side >= 6400,
        ;
    }
}

/// Centre-crops an image to a square (players hand back banner art, too) and
/// scales it down to [`THUMB_SIZE`].
pub fn make_thumbnail(img: &image::DynamicImage) -> (r: image::DynamicImage)
    ensures
        r == thumbnail_of(*img),
        fits_thumbnail(*img, r),
{
    let w: u32 = img.width();
    let h: u32 = img.height();
    let side: u32 = if w <= h {
        w
    } else {
        h
    };
    let square = img.crop_imm((w - side) / 2, (h - side) / 2, side, side);
    assert(centre_square(*img, square));
    if side > THUMB_SIZE {
        proof {
            lemma_square_fits(w, h, side);
        }
        resize_image(&square, THUMB_SIZE, THUMB_SIZE)
    } else {
        square
    }
}

/// Makes a thumbnail and its art out of fetched bytes. `None` means that they are
/// no image, and that the fetch is to be tried again.
pub fn process_cover<F: Fn(u32, u32, u8) -> u8>(bytes: &[u8], cells: u32, fade: &F) -> (r: Option<
    (image::DynamicImage, Art),
>)
    requires
        forall|cx: u32, cy: u32, a: u8| call_requires(*fade, (cx, cy, a)),
    ensures
        match decoded_image(bytes@) {
            Some(img) => {
                &&& r matches Some((thumb, art))
                &&& thumb == thumbnail_of(img)
                &&& fits_thumbnail(img, thumb)
                &&& art_of(thumb, cells, *fade, art)
            },
            None => r is None,
        },
{
    match image::load_from_memory(bytes) {
        Ok(img) => {
            let thumb = make_thumbnail(&img);
            proof {
                let side = image_width(thumb);
                assert(side * side <= THUMB_SIZE * THUMB_SIZE) by (nonlinear_arith)
                    requires
                        0 <= side <= THUMB_SIZE,
                ;
            }
            let art = make_art(&thumb, cells, fade);
            Some((thumb, art))
        },
        Err(_) => None,
    }
}

} // verus!
