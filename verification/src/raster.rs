//! Pixels, their average colour and their rounded corners.
use vstd::prelude::*;

verus! {

/// A colour, each channel from none to full.
#[derive(Debug, Clone, Copy, PartialEq, Eq, Structural)]
pub struct Rgb {
    pub r: u8,
    pub g: u8,
    pub b: u8,
}

/// Pixels row by row, each of red, green, blue and alpha.
#[derive(Debug, Clone, PartialEq)]
pub struct Raster {
    pub width: u32,
    pub height: u32,
    pub rgba: Vec<u8>,
}

impl Raster {
    /// Whether there are bytes for every pixel.
    pub open spec fn wf(&self) -> bool {
        4 * (self.width * self.height) <= self.rgba.len()
    }
}

/// One channel of a pixel.
pub open spec fn channel_at(rgba: Seq<u8>, pixel: int, channel: int) -> u8 {
    rgba[4 * pixel + channel]
}

/// The sum of one channel over the first `n` pixels.
pub open spec fn channel_sum(rgba: Seq<u8>, n: nat, channel: int) -> nat
    decreases n,
{
    if n == 0 {
        0
    } else {
        channel_sum(rgba, (n - 1) as nat, channel) + channel_at(rgba, n - 1, channel) as nat
    }
}

/// The mean of one channel, rounded down; nothing for no pixels.
pub open spec fn channel_mean(img: Raster, channel: int) -> u8 {
    let n = (img.width * img.height) as nat;
    if n == 0 {
        0
    } else {
        (channel_sum(img.rgba@, n, channel) / n) as u8
    }
}

/// The mean colour of an image.
pub open spec fn mean_color(img: Raster) -> Rgb {
    Rgb { r: channel_mean(img, 0), g: channel_mean(img, 1), b: channel_mean(img, 2) }
}

proof fn lemma_sum_bound(rgba: Seq<u8>, n: nat, channel: int)
    ensures
        channel_sum(rgba, n, channel) <= 255 * n,
    decreases n,
{
    if n > 0 {
        lemma_sum_bound(rgba, (n - 1) as nat, channel);
    }
}

proof fn lemma_plain_sum(rgba: Seq<u8>, n: nat, channel: int, value: u8)
    requires
        forall|i: int| 0 <= i < n ==> #[trigger] channel_at(rgba, i, channel) == value,
    ensures
        channel_sum(rgba, n, channel) == n * value,
    decreases n,
{
    if n > 0 {
        lemma_plain_sum(rgba, (n - 1) as nat, channel, value);
        assert((n - 1) * value + value == n * value) by (nonlinear_arith);
    } else {
        assert(0 * value == 0);
    }
}

proof fn lemma_mean_fits(sum: nat, n: nat)
    requires
        n > 0,
        sum <= 255 * n,
    ensures
        sum / n <= 255,
{
    assert(sum / n <= 255) by (nonlinear_arith)
        requires
            n > 0,
            sum <= 255 * n,
    ;
}

/// The mean colour of an image, each channel rounded down.
pub fn average_color(img: &Raster) -> (r: Rgb)
    requires
        img.wf(),
        img.width * img.height <= u32::MAX,
    ensures
        r == mean_color(*img),
{
    assert(0 <= img.width * img.height) by (nonlinear_arith);
    let n: u64 = img.width as u64 * img.height as u64;
    let mut r: u64 = 0;
    let mut g: u64 = 0;
    let mut b: u64 = 0;
    let mut i: u64 = 0;
    while i < n
        invariant
            i <= n <= u32::MAX,
            4 * n <= img.rgba.len(),
            r == channel_sum(img.rgba@, i as nat, 0),
            g == channel_sum(img.rgba@, i as nat, 1),
            b == channel_sum(img.rgba@, i as nat, 2),
            r <= 255 * i,
            g <= 255 * i,
            b <= 255 * i,
        decreases n - i,
    {
        let at: usize = 4 * i as usize;
        r = r + img.rgba[at] as u64;
        g = g + img.rgba[at + 1] as u64;
        b = b + img.rgba[at + 2] as u64;
        i = i + 1;
    }
    if n == 0 {
        Rgb { r: 0, g: 0, b: 0 }
    } else {
        proof {
            lemma_mean_fits(r as nat, n as nat);
            lemma_mean_fits(g as nat, n as nat);
            lemma_mean_fits(b as nat, n as nat);
        }
        Rgb { r: (r / n) as u8, g: (g / n) as u8, b: (b / n) as u8 }
    }
}

/// Where the alpha of a pixel stands.
pub open spec fn alpha_at(width: u32, x: int, y: int) -> int {
    4 * (y * width + x) + 3
}

/// How many cells a corner can have: at most half of either side.
pub open spec fn corner_cells(width: u32, height: u32, cells: u32) -> u32 {
    let half = if width <= height {
        width / 2
    } else {
        height / 2
    };
    if cells <= half {
        cells
    } else {
        half
    }
}

/// How far from the nearer edge a coordinate lies, where that is within the
/// corner.
pub open spec fn corner_cell(at: int, size: u32, cells: u32) -> Option<u32> {
    if at < cells {
        Some(at as u32)
    } else if at >= size - cells {
        Some((size - 1 - at) as u32)
    } else {
        None
    }
}

/// Whether pixels are others with their corners faded: the alpha of a pixel in a
/// corner is what `fade` makes of it at its distances from the two edges, the
/// same in all four corners, and everything else is as it was.
pub open spec fn rounded<F: Fn(u32, u32, u8) -> u8>(
    before: Seq<u8>,
    width: u32,
    height: u32,
    cells: u32,
    fade: F,
    after: Seq<u8>,
) -> bool {
    let n = corner_cells(width, height, cells);
    &&& after.len() == before.len()
    &&& forall|x: int, y: int|
        0 <= x < width && 0 <= y < height ==> {
            let a = #[trigger] alpha_at(width, x, y);
            match (corner_cell(x, width, n), corner_cell(y, height, n)) {
                (Some(cx), Some(cy)) => call_ensures(fade, (cx, cy, before[a]), after[a]),
                _ => after[a] == before[a],
            }
        }
    &&& forall|i: int|
        0 <= i < before.len() && (i % 4 != 3 || i >= 4 * (width * height)) ==> #[trigger] after[i]
            == before[i]
}

/// Two pixels of one image have their alphas at two places.
proof fn lemma_alphas_differ(width: u32)
    ensures
        forall|x1: int, y1: int, x2: int, y2: int|
            #![trigger alpha_at(width, x1, y1), alpha_at(width, x2, y2)]
            0 <= x1 < width && 0 <= x2 < width && alpha_at(width, x1, y1) == alpha_at(width, x2, y2)
                ==> x1 == x2 && y1 == y2,
{
    assert forall|x1: int, y1: int, x2: int, y2: int|
        #![trigger alpha_at(width, x1, y1), alpha_at(width, x2, y2)]
        0 <= x1 < width && 0 <= x2 < width && alpha_at(width, x1, y1) == alpha_at(
            width,
            x2,
            y2,
        ) implies x1 == x2 && y1 == y2 by {
        assert(y1 == y2) by (nonlinear_arith)
            requires
                0 <= x1 < width,
                0 <= x2 < width,
                y1 * width + x1 == y2 * width + x2,
        ;
    }
}

/// The alpha of a pixel lies within the image.
proof fn lemma_alpha_within(width: u32, height: u32, x: int, y: int)
    requires
        0 <= x < width,
        0 <= y < height,
    ensures
        0 <= y * width + x,
        0 <= alpha_at(width, x, y) < 4 * (width * height),
        alpha_at(width, x, y) % 4 == 3,
{
    assert(0 <= y * width + x < width * height) by (nonlinear_arith)
        requires
            0 <= x < width,
            0 <= y < height,
    ;
    assert((4 * (y * width + x) + 3) % 4 == 3);
}

fn fade_pixel<F: Fn(u32, u32, u8) -> u8>(
    img: &mut Raster,
    x: u32,
    y: u32,
    cx: u32,
    cy: u32,
    fade: &F,
)
    requires
        old(img).wf(),
        x < old(img).width,
        y < old(img).height,
        forall|cx: u32, cy: u32, a: u8| call_requires(*fade, (cx, cy, a)),
    ensures
        final(img).width == old(img).width,
        final(img).height == old(img).height,
        ({
            let at = alpha_at(old(img).width, x as int, y as int);
            &&& 0 <= at < old(img).rgba@.len()
            &&& final(img).rgba@ == old(img).rgba@.update(at, final(img).rgba@[at])
            &&& call_ensures(*fade, (cx, cy, old(img).rgba@[at]), final(img).rgba@[at])
        }),
{
    proof {
        lemma_alpha_within(img.width, img.height, x as int, y as int);
    }
    assert(0 <= y * img.width) by (nonlinear_arith)
        requires
            0 <= y,
            0 <= img.width,
    ;
    let pixel: usize = y as usize * img.width as usize + x as usize;
    let at: usize = 4 * pixel + 3;
    let alpha: u8 = fade(cx, cy, img.rgba[at]);
    img.rgba.set(at, alpha);
}

/// Whether a corner pixel comes before a cell, taking the cells row by row.
spec fn faded_before(width: u32, height: u32, n: u32, x: int, y: int, cx: u32, cy: u32) -> bool {
    match (corner_cell(x, width, n), corner_cell(y, height, n)) {
        (Some(a), Some(b)) => b < cy || (b == cy && a < cx),
        _ => false,
    }
}

/// Whether the corners are faded as far as a cell.
spec fn rounded_before<F: Fn(u32, u32, u8) -> u8>(
    before: Seq<u8>,
    width: u32,
    height: u32,
    n: u32,
    fade: F,
    after: Seq<u8>,
    cx: u32,
    cy: u32,
) -> bool {
    &&& after.len() == before.len()
    &&& forall|x: int, y: int|
        0 <= x < width && 0 <= y < height ==> {
            let a = #[trigger] alpha_at(width, x, y);
            if faded_before(width, height, n, x, y, cx, cy) {
                call_ensures(
                    fade,
                    (corner_cell(x, width, n)->0, corner_cell(y, height, n)->0, before[a]),
                    after[a],
                )
            } else {
                after[a] == before[a]
            }
        }
    &&& forall|i: int|
        0 <= i < before.len() && (i % 4 != 3 || i >= 4 * (width * height)) ==> #[trigger] after[i]
            == before[i]
}

fn fade_cell<F: Fn(u32, u32, u8) -> u8>(
    img: &mut Raster,
    cx: u32,
    cy: u32,
    fade: &F,
    n: u32,
    before: Ghost<Seq<u8>>,
)
    requires
        old(img).wf(),
        cx < n,
        cy < n,
        2 * n <= old(img).width,
        2 * n <= old(img).height,
        forall|cx: u32, cy: u32, a: u8| call_requires(*fade, (cx, cy, a)),
        rounded_before(
            before@,
            old(img).width,
            old(img).height,
            n,
            *fade,
            old(img).rgba@,
            cx,
            cy,
        ),
    ensures
        final(img).width == old(img).width,
        final(img).height == old(img).height,
        rounded_before(
            before@,
            final(img).width,
            final(img).height,
            n,
            *fade,
            final(img).rgba@,
            (cx + 1) as u32,
            cy,
        ),
{
    let ghost w = img.width;
    let ghost h = img.height;
    let right: u32 = img.width - 1 - cx;
    let bottom: u32 = img.height - 1 - cy;
    proof {
        lemma_alphas_differ(w);
        lemma_alpha_within(w, h, cx as int, cy as int);
        lemma_alpha_within(w, h, right as int, cy as int);
        lemma_alpha_within(w, h, right as int, bottom as int);
        lemma_alpha_within(w, h, cx as int, bottom as int);
    }
    fade_pixel(img, cx, cy, cx, cy, fade);
    fade_pixel(img, right, cy, cx, cy, fade);
    fade_pixel(img, right, bottom, cx, cy, fade);
    fade_pixel(img, cx, bottom, cx, cy, fade);
    proof {
        assert forall|x: int, y: int| 0 <= x < w && 0 <= y < h implies ({
            let a = #[trigger] alpha_at(w, x, y);
            if faded_before(w, h, n, x, y, (cx + 1) as u32, cy) {
                call_ensures(
                    *fade,
                    (corner_cell(x, w, n)->0, corner_cell(y, h, n)->0, before@[a]),
                    img.rgba@[a],
                )
            } else {
                img.rgba@[a] == before@[a]
            }
        }) by {
            lemma_alpha_within(w, h, x, y);
        }
    }
}

/// Fades the corners of an image: in each of the four, `cells` cells wide and
/// high, `fade` gives the new alpha of a pixel from its distances to the two
/// edges and its old alpha.
pub fn round_corners<F: Fn(u32, u32, u8) -> u8>(img: &mut Raster, cells: u32, fade: &F)
    requires
        old(img).wf(),
        forall|cx: u32, cy: u32, a: u8| call_requires(*fade, (cx, cy, a)),
    ensures
        final(img).width == old(img).width,
        final(img).height == old(img).height,
        rounded(
            old(img).rgba@,
            old(img).width,
            old(img).height,
            cells,
            *fade,
            final(img).rgba@,
        ),
{
    let half: u32 = if img.width <= img.height {
        img.width / 2
    } else {
        img.height / 2
    };
    let n: u32 = if cells <= half {
        cells
    } else {
        half
    };
    let ghost before = img.rgba@;
    let mut cy: u32 = 0;
    while cy < n
        invariant
            cy <= n,
            2 * n <= img.width,
            2 * n <= img.height,
            img.wf(),
            img.width == old(img).width,
            img.height == old(img).height,
            forall|cx: u32, cy: u32, a: u8| call_requires(*fade, (cx, cy, a)),
            rounded_before(before, img.width, img.height, n, *fade, img.rgba@, 0, cy),
        decreases n - cy,
    {
        let mut cx: u32 = 0;
        while cx < n
            invariant
                cx <= n,
                cy < n,
                2 * n <= img.width,
                2 * n <= img.height,
                img.wf(),
                img.width == old(img).width,
                img.height == old(img).height,
                forall|cx: u32, cy: u32, a: u8| call_requires(*fade, (cx, cy, a)),
                rounded_before(before, img.width, img.height, n, *fade, img.rgba@, cx, cy),
            decreases n - cx,
        {
            fade_cell(img, cx, cy, fade, n, Ghost(before));
            cx = cx + 1;
        }
        assert(rounded_before(
            before,
            img.width,
            img.height,
            n,
            *fade,
            img.rgba@,
            0,
            (cy + 1) as u32,
        ));
        cy = cy + 1;
    }
}

/// An image of one colour has that colour for its mean.
pub proof fn law_plain_image_has_its_colour(img: Raster, color: Rgb)
    requires
        img.wf(),
        img.width > 0,
        img.height > 0,
        forall|i: int|
            0 <= i < img.width * img.height ==> #[trigger] channel_at(img.rgba@, i, 0) == color.r,
        forall|i: int|
            0 <= i < img.width * img.height ==> #[trigger] channel_at(img.rgba@, i, 1) == color.g,
        forall|i: int|
            0 <= i < img.width * img.height ==> #[trigger] channel_at(img.rgba@, i, 2) == color.b,
    ensures
        mean_color(img) == color,
{
    let n = (img.width * img.height) as nat;
    assert(img.width * img.height > 0) by (nonlinear_arith)
        requires
            img.width > 0,
            img.height > 0,
    ;
    lemma_plain_sum(img.rgba@, n, 0, color.r);
    lemma_plain_sum(img.rgba@, n, 1, color.g);
    lemma_plain_sum(img.rgba@, n, 2, color.b);
    vstd::arithmetic::div_mod::lemma_div_multiples_vanish(color.r as int, n as int);
    vstd::arithmetic::div_mod::lemma_div_multiples_vanish(color.g as int, n as int);
    vstd::arithmetic::div_mod::lemma_div_multiples_vanish(color.b as int, n as int);
}

/// Rounding the corners touches no colour, and no alpha beyond the corners.
pub proof fn law_rounding_keeps_the_colours<F: Fn(u32, u32, u8) -> u8>(
    before: Seq<u8>,
    width: u32,
    height: u32,
    cells: u32,
    fade: F,
    after: Seq<u8>,
    x: int,
    y: int,
    channel: int,
)
    requires
        4 * (width * height) <= before.len(),
        rounded(before, width, height, cells, fade, after),
        0 <= x < width,
        0 <= y < height,
        0 <= channel < 4,
        channel < 3 || corner_cell(x, width, corner_cells(width, height, cells)) is None
            || corner_cell(y, height, corner_cells(width, height, cells)) is None,
    ensures
        channel_at(after, y * width + x, channel) == channel_at(before, y * width + x, channel),
{
    lemma_alpha_within(width, height, x, y);
    if channel < 3 {
        assert((4 * (y * width + x) + channel) % 4 == channel);
    }
}

} // verus!
