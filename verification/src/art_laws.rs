//! What becomes of a cover: its thumbnail, its backdrop, its colour and its place
//! in the cache.
use vstd::prelude::*;

use crate::art::{
    art_of, backdrop_of, blurred_cover, blurs_to, centre_square, decoded_image, fits_thumbnail,
    image_height, image_rgba, image_side, image_width, pixel_channel, resized_image, resized_rgba,
    stretched, thumbnail_of, workable, Art,
};
use crate::art_cache::{
    art_dir, art_path, cover_name, covers, file_views, older, place_of, positions, prunes,
    temp_name, url_hash, ArtDir, ArtPath, CachedFile, CachedFileView,
};
use crate::art_load::{fetches, load_start, load_step, LoadAction, LoadEvent, LoadRun, LoadStage};
use crate::raster::{
    alpha_at, channel_at, channel_mean, channel_sum, mean_color, rounded, Raster, Rgb,
};
use crate::text::decimal;
use crate::text_laws::{law_hex_reads_back, law_prefix_and_rest_make_the_text, number_read};

verus! {

/// A thumbnail is made of the square in the middle of the image, as wide and high
/// as the image's shorter side: it is that square where the side is at most four
/// hundred pixels, and that square scaled to four hundred otherwise.
pub proof fn law_thumbnail_is_the_centre(
    img: image::DynamicImage,
    thumb: image::DynamicImage,
) -> (q: image::DynamicImage)
    requires
        fits_thumbnail(img, thumb),
    ensures
        ({
            let w = image_width(img) as int;
            let h = image_height(img) as int;
            let side = if w <= h {
                w
            } else {
                h
            };
            &&& image_width(q) == side
            &&& image_height(q) == side
            &&& forall|x: int, y: int, c: int|
                0 <= x < side && 0 <= y < side && 0 <= c < 4 ==> #[trigger] pixel_channel(
                    q,
                    x,
                    y,
                    c,
                ) == pixel_channel(img, (w - side) / 2 + x, (h - side) / 2 + y, c)
            &&& side <= 400 ==> thumb == q
            &&& side > 400 ==> {
                &&& thumb == resized_image(q, 400, 400)
                &&& image_width(thumb) == 400
                &&& image_height(thumb) == 400
            }
        }),
{
    choose|q: image::DynamicImage| #[trigger]
        centre_square(img, q) && thumb == if image_side(img) <= 400 {
            q
        } else {
            resized_image(q, 400, 400)
        }
}

/// Every thumbnail can be made into art, and so can every image that the machine
/// holds as bytes, and as floats at its own width and the height it is blurred at.
pub proof fn law_thumbnails_are_workable(img: image::DynamicImage)
    ensures
        image_width(img) <= 400 && image_height(img) <= 400 ==> workable(img),
        workable(img) <==> 4 * (image_width(img) * image_height(img)) <= isize::MAX && 768
            * image_width(img) <= isize::MAX,
{
    let w = image_width(img) as int;
    let h = image_height(img) as int;
    if w <= 400 && h <= 400 {
        assert(w * h <= 400 * 400) by (nonlinear_arith)
            requires
                0 <= w <= 400,
                0 <= h <= 400,
        ;
    }
}

/// The art of an image shows the image itself, sharp and pixel for pixel.
pub proof fn law_art_shows_the_image<F: Fn(u32, u32, u8) -> u8>(
    img: image::DynamicImage,
    cells: u32,
    fade: F,
    art: Art,
)
    requires
        art_of(img, cells, fade, art),
    ensures
        art.sharp.width == image_width(img),
        art.sharp.height == image_height(img),
        art.sharp.rgba@ == image_rgba(img),
        backdrop_of(img, cells, fade, art.blurred, art.color),
{
}

/// A backdrop comes from the image scaled to forty-eight pixels a side and
/// blurred with a sigma of six. It is that blur stretched to the popup, three
/// hundred and sixty by five hundred and sixty, but for the alpha of its corners,
/// and its colour is the blur's.
pub proof fn law_backdrop_is_the_blurred_image<F: Fn(u32, u32, u8) -> u8>(
    img: image::DynamicImage,
    cells: u32,
    fade: F,
    backdrop: Raster,
    color: Rgb,
) -> (small: Raster)
    requires
        backdrop_of(img, cells, fade, backdrop, color),
    ensures
        small.width == 48,
        small.height == 48,
        small.rgba@.len() == 4 * 48 * 48,
        blurs_to(image_rgba(resized_image(img, 48, 48)), 48, 48, 6, small.rgba@),
        color == mean_color(small),
        backdrop.width == 360,
        backdrop.height == 560,
        rounded(
            resized_rgba(small.rgba@, 48, 48, 360, 560),
            360,
            560,
            cells,
            fade,
            backdrop.rgba@,
        ),
{
    choose|small: Raster| #[trigger]
        blurred_cover(img, small) && color == mean_color(small) && stretched(
            small,
            cells,
            fade,
            backdrop,
        )
}

/// The sum of a list of numbers.
pub open spec fn total(list: Seq<int>) -> int
    decreases list.len(),
{
    if list.len() == 0 {
        0
    } else {
        list[0] + total(list.skip(1))
    }
}

/// One channel of all pixels of an image, in order.
pub open spec fn channel(img: Raster, c: int) -> Seq<int> {
    Seq::new((img.width * img.height) as nat, |i: int| img.rgba@[4 * i + c] as int)
}

proof fn lemma_total_push(list: Seq<int>, last: int)
    ensures
        total(list.push(last)) == total(list) + last,
    decreases list.len(),
{
    reveal_with_fuel(total, 2);
    if list.len() > 0 {
        assert(list.push(last).skip(1) =~= list.skip(1).push(last));
        lemma_total_push(list.skip(1), last);
    } else {
        assert(list.push(last).skip(1) =~= Seq::<int>::empty());
    }
}

proof fn lemma_sum_is_total(rgba: Seq<u8>, n: nat, c: int)
    ensures
        channel_sum(rgba, n, c) == total(Seq::new(n, |i: int| rgba[4 * i + c] as int)),
    decreases n,
{
    let list = Seq::new(n, |i: int| rgba[4 * i + c] as int);
    if n > 0 {
        let head = Seq::new((n - 1) as nat, |i: int| rgba[4 * i + c] as int);
        lemma_sum_is_total(rgba, (n - 1) as nat, c);
        assert(list =~= head.push(rgba[4 * (n - 1) + c] as int));
        lemma_total_push(head, rgba[4 * (n - 1) + c] as int);
        assert(channel_at(rgba, n - 1, c) == rgba[4 * (n - 1) + c]);
    }
}

proof fn lemma_total_bound(list: Seq<int>)
    requires
        forall|i: int| 0 <= i < list.len() ==> 0 <= #[trigger] list[i] <= 255,
    ensures
        0 <= total(list) <= 255 * list.len(),
    decreases list.len(),
{
    if list.len() > 0 {
        lemma_total_bound(list.skip(1));
    }
}

proof fn lemma_mean(img: Raster, c: int, mean: u8)
    requires
        0 <= c < 3,
        img.width * img.height > 0,
        mean == channel_mean(img, c),
    ensures
        mean * (img.width * img.height) <= total(channel(img, c)) < (mean + 1) * (img.width
            * img.height),
{
    let n = (img.width * img.height) as int;
    let sum = total(channel(img, c));
    lemma_sum_is_total(img.rgba@, n as nat, c);
    lemma_total_bound(channel(img, c));
    assert(sum / n <= 255) by (nonlinear_arith)
        requires
            n > 0,
            0 <= sum <= 255 * n,
    ;
    assert(0 <= sum / n) by (nonlinear_arith)
        requires
            n > 0,
            0 <= sum,
    ;
    assert((sum / n) * n <= sum < (sum / n + 1) * n) by (nonlinear_arith)
        requires
            n > 0,
            0 <= sum,
    ;
}

/// The colour of an image is the average of its pixels, channel by channel and
/// rounded down: as many pixels of it add up to no more than the image's do, and
/// of the next higher one to more.
pub proof fn law_colour_is_the_average(img: Raster)
    requires
        img.width * img.height > 0,
    ensures
        ({
            let n = img.width * img.height;
            let mean = mean_color(img);
            &&& mean.r * n <= total(channel(img, 0)) < (mean.r + 1) * n
            &&& mean.g * n <= total(channel(img, 1)) < (mean.g + 1) * n
            &&& mean.b * n <= total(channel(img, 2)) < (mean.b + 1) * n
        }),
{
    lemma_mean(img, 0, mean_color(img).r);
    lemma_mean(img, 1, mean_color(img).g);
    lemma_mean(img, 2, mean_color(img).b);
}

/// An image without pixels is black.
pub proof fn law_no_pixels_are_black(img: Raster)
    requires
        img.width * img.height == 0,
    ensures
        mean_color(img) == (Rgb { r: 0, g: 0, b: 0 }),
{
}

/// The four corners are faded alike: the alpha of each of the four pixels that
/// are `x` and `y` from their corner's edges is what `fade` makes of the old one
/// there, for all cells that are asked for and reach no further than the middle.
pub proof fn law_corners_are_faded<F: Fn(u32, u32, u8) -> u8>(
    before: Seq<u8>,
    width: u32,
    height: u32,
    cells: u32,
    fade: F,
    after: Seq<u8>,
    x: u32,
    y: u32,
)
    requires
        rounded(before, width, height, cells, fade, after),
        x < cells,
        y < cells,
        2 * (x + 1) <= width,
        2 * (x + 1) <= height,
        2 * (y + 1) <= width,
        2 * (y + 1) <= height,
    ensures
        ({
            let right = width - 1 - x;
            let bottom = height - 1 - y;
            let a = 4 * (y * width + x) + 3;
            let b = 4 * (y * width + right) + 3;
            let c = 4 * (bottom * width + right) + 3;
            let d = 4 * (bottom * width + x) + 3;
            &&& call_ensures(fade, (x, y, before[a]), after[a])
            &&& call_ensures(fade, (x, y, before[b]), after[b])
            &&& call_ensures(fade, (x, y, before[c]), after[c])
            &&& call_ensures(fade, (x, y, before[d]), after[d])
        }),
{
    let right = width - 1 - x;
    let bottom = height - 1 - y;
    let a = alpha_at(width, x as int, y as int);
    let b = alpha_at(width, right, y as int);
    let c = alpha_at(width, right, bottom);
    let d = alpha_at(width, x as int, bottom);
}

/// Nothing else is touched: not the colours, not the alpha of a pixel whose
/// distances from the edges are not both within the cells asked for and short of
/// the middle, and nothing behind the pixels.
pub proof fn law_rest_is_not_faded<F: Fn(u32, u32, u8) -> u8>(
    before: Seq<u8>,
    width: u32,
    height: u32,
    cells: u32,
    fade: F,
    after: Seq<u8>,
    x: int,
    y: int,
)
    requires
        rounded(before, width, height, cells, fade, after),
        0 <= x < width,
        0 <= y < height,
    ensures
        ({
            let dx = if x <= width - 1 - x {
                x
            } else {
                width - 1 - x
            };
            let dy = if y <= height - 1 - y {
                y
            } else {
                height - 1 - y
            };
            let half = if width <= height {
                width as int / 2
            } else {
                height as int / 2
            };
            dx >= cells || dy >= cells || dx >= half || dy >= half ==> after[4 * (y * width + x)
                + 3] == before[4 * (y * width + x) + 3]
        }),
        after.len() == before.len(),
        forall|i: int|
            0 <= i < before.len() && (i % 4 != 3 || i >= 4 * (width * height))
                ==> #[trigger] after[i] == before[i],
{
    let a = alpha_at(width, x, y);
}

/// Covers are cached below the user's cache directory, or below the one that
/// their home holds where that is not set; where neither is known there is no
/// cache.
pub proof fn law_cache_lies_below_the_home<P>(cache_home: Option<P>, home: Option<P>)
    ensures
        cache_home matches Some(base) ==> {
            &&& art_dir(cache_home, home) matches Some(dir)
            &&& dir.base == base
            &&& dir.below == seq!["cosmic-ext-applet-on-blast"@, "art"@]
        },
        cache_home is None ==> match home {
            Some(base) => {
                &&& art_dir(cache_home, home) matches Some(dir)
                &&& dir.base == base
                &&& dir.below == seq![".cache"@, "cosmic-ext-applet-on-blast"@, "art"@]
            },
            None => art_dir(cache_home, home) is None,
        },
{
}

/// The file of a cover is named by sixteen hexadecimal digits that read back as
/// the hash of its URL, and lies in the directory for covers.
pub proof fn law_cover_is_named_by_its_hash<P>(
    url: Seq<char>,
    hash: u64,
    cache_home: Option<P>,
    home: Option<P>,
)
    ensures
        place_of(hash, cache_home, home) is Some <==> cache_home is Some || home is Some,
        place_of(hash, cache_home, home) matches Some(place) ==> {
            &&& place.stem.len() == 16
            &&& number_read(place.stem, 16) == hash
            &&& art_dir(cache_home, home) == Some(place.dir)
        },
        art_path(url, cache_home, home) == place_of(url_hash(url), cache_home, home),
{
    assert(vstd::arithmetic::power::pow(16, 16) == 0x1_0000_0000_0000_0000) by {
        reveal(vstd::arithmetic::power::pow);
        reveal_with_fuel(vstd::arithmetic::power::pow, 17);
    }
    law_hex_reads_back(hash as nat, 16);
}

/// A cover is a PNG file, and a write under way a temporary one with the number
/// of the process in its name.
pub proof fn law_files_are_told_apart_by_name(stem: Seq<char>, process: u32)
    ensures
        cover_name(stem) == stem + ".png"@,
        temp_name(stem, process) == stem + "."@ + decimal(process as nat) + ".tmp"@,
{
}

/// What counts as a cover is a PNG file whose age can be read.
pub proof fn law_covers_are_pngs(files: Seq<CachedFileView>, i: int)
    ensures
        covers(files).contains(i) <==> 0 <= i < files.len() && files[i].extension == Some("png"@)
            && files[i].modified is Some,
{
}

/// Pruning deletes the oldest covers first: one that is deleted changed no later
/// than one that stays, and of two that are deleted the one that changed earlier
/// goes first. Of covers of one age the one listed first goes first.
pub proof fn law_pruning_deletes_the_oldest(
    files: Seq<CachedFileView>,
    max: nat,
    deleted: Seq<int>,
    i: int,
    j: int,
    stays: int,
)
    requires
        prunes(files, max, deleted),
        0 <= i < deleted.len(),
    ensures
        0 <= deleted[i] < files.len(),
        files[deleted[i]].extension == Some("png"@),
        files[deleted[i]].modified is Some,
        0 <= stays < files.len() && files[stays].extension == Some("png"@)
            && files[stays].modified is Some && !deleted.contains(stays) ==> {
            &&& files[deleted[i]].modified->0 <= files[stays].modified->0
            &&& files[deleted[i]].modified == files[stays].modified ==> deleted[i] < stays
        },
        i < j < deleted.len() ==> {
            &&& files[deleted[i]].modified->0 <= files[deleted[j]].modified->0
            &&& files[deleted[i]].modified == files[deleted[j]].modified ==> deleted[i]
                < deleted[j]
        },
{
    assert(covers(files).contains(deleted[i]));
    if 0 <= stays < files.len() && files[stays].extension == Some("png"@)
        && files[stays].modified is Some && !deleted.contains(stays) {
        assert(covers(files).contains(stays));
        assert(older(files, deleted[i], stays));
    }
    if i < j < deleted.len() {
        assert(covers(files).contains(deleted[j]));
        assert(older(files, deleted[i], deleted[j]));
    }
}

/// As many covers are deleted as there are beyond those that may stay.
pub proof fn law_pruning_deletes_the_excess(
    files: Seq<CachedFileView>,
    max: nat,
    deleted: Seq<int>,
)
    requires
        prunes(files, max, deleted),
    ensures
        covers(files).len() > max ==> deleted.len() + max == covers(files).len(),
        covers(files).len() <= max ==> deleted.len() == 0,
{
}

/// A cover is fetched from the file that a `file://` URL names, and any other by
/// asking for its URL.
pub proof fn law_url_says_where_the_cover_is(
    path: Seq<char>,
    url: Seq<char>,
    stage: LoadStage,
    action: LoadAction,
)
    requires
        fetches(url, stage, action),
    ensures
        url == "file://"@ + path ==> {
            &&& stage is Fetching
            &&& action matches LoadAction::ReadFile(file)
            &&& file@ == path
        },
        !("file://"@.is_prefix_of(url)) ==> {
            &&& stage is Asking
            &&& action matches LoadAction::Get(asked)
            &&& asked@ == url
        },
{
    law_prefix_and_rest_make_the_text(url, "file://"@, path);
}

/// A load begins by reading the cover's place in the cache, and where there is no
/// cache by fetching the cover.
pub proof fn law_load_begins_with_the_cache<P>(
    url: Seq<char>,
    cache_home: Option<P>,
    home: Option<P>,
    run: LoadRun<P>,
    action: LoadAction,
)
    requires
        load_start(url, cache_home, home, run, action),
    ensures
        run.url@ == url,
        cache_home is Some || home is Some ==> {
            &&& run.path matches Some(path)
            &&& art_path(url, cache_home, home) == Some(path@)
            &&& run.stage is Cached
            &&& action is ReadCached
        },
        cache_home is None && home is None ==> run.path is None && fetches(url, run.stage, action),
{
}

/// A load goes on as far as what came back allows. Asking leads to the body for a
/// status from two hundred to two hundred ninety-nine and to nothing for any
/// other. A stored cover has the cache listed, and what is beyond a hundred and
/// twenty-eight covers deleted. A failure before the cover is there ends the load
/// without one.
pub proof fn law_load_takes_its_steps<P, F: Fn(u32, u32, u8) -> u8>(
    run: LoadRun<P>,
    event: LoadEvent,
    cells: u32,
    fade: F,
    next: LoadRun<P>,
    action: LoadAction,
)
    requires
        load_step(run, event, cells, fade, next, action),
    ensures
        next.url == run.url,
        next.path == run.path,
        run.stage is Asking ==> match event {
            LoadEvent::Status(status) => if 200 <= status <= 299 {
                next.stage is Fetching && action is ReadBody
            } else {
                action == LoadAction::Finish(None)
            },
            _ => action == LoadAction::Finish(None),
        },
        run.stage is Fetching && !(event is Bytes) ==> action == LoadAction::Finish(None),
        run.stage is Ended ==> action == LoadAction::Finish(None),
        run.stage matches LoadStage::Storing(art) ==> if event is Stored {
            next.stage == LoadStage::Listing(art) && action is ListCache
        } else {
            action == LoadAction::Finish(Some(art))
        },
        run.stage matches LoadStage::Listing(art) ==> match event {
            LoadEvent::Listed(files) => {
                &&& next.stage == LoadStage::Deleting(art)
                &&& action matches LoadAction::Delete(deleted)
                &&& prunes(file_views(files@), 128, positions(deleted@))
            },
            _ => action == LoadAction::Finish(Some(art)),
        },
        run.stage matches LoadStage::Deleting(art) ==> action == LoadAction::Finish(Some(art)),
{
}

/// A fetched image is shown as its thumbnail, which is what is stored where there
/// is a cache, and the art shown is the thumbnail's.
pub proof fn law_fetched_image_is_shown_as_its_thumbnail<P, F: Fn(u32, u32, u8) -> u8>(
    run: LoadRun<P>,
    bytes: Vec<u8>,
    cells: u32,
    fade: F,
    next: LoadRun<P>,
    action: LoadAction,
) -> (thumb: image::DynamicImage)
    requires
        run.stage is Fetching,
        decoded_image(bytes@) is Some,
        load_step(run, LoadEvent::Bytes(bytes), cells, fade, next, action),
    ensures
        fits_thumbnail(decoded_image(bytes@)->0, thumb),
        run.path is Some ==> {
            &&& action == LoadAction::Store(thumb)
            &&& next.stage matches LoadStage::Storing(art)
            &&& art.sharp.rgba@ == image_rgba(thumb)
            &&& art.sharp.width == image_width(thumb)
            &&& art.sharp.height == image_height(thumb)
            &&& backdrop_of(thumb, cells, fade, art.blurred, art.color)
        },
        run.path is None ==> {
            &&& action matches LoadAction::Finish(Some(art))
            &&& art.sharp.rgba@ == image_rgba(thumb)
            &&& art.sharp.width == image_width(thumb)
            &&& art.sharp.height == image_height(thumb)
            &&& backdrop_of(thumb, cells, fade, art.blurred, art.color)
        },
{
    thumbnail_of(decoded_image(bytes@)->0)
}

/// A cached image is shown as it is.
pub proof fn law_cached_image_is_shown_as_it_is<P, F: Fn(u32, u32, u8) -> u8>(
    run: LoadRun<P>,
    bytes: Vec<u8>,
    cells: u32,
    fade: F,
    next: LoadRun<P>,
    action: LoadAction,
)
    requires
        run.stage is Cached,
        decoded_image(bytes@) matches Some(img) && image_width(img) <= 400 && image_height(img)
            <= 400,
        load_step(run, LoadEvent::Bytes(bytes), cells, fade, next, action),
    ensures
        ({
            let img = decoded_image(bytes@)->0;
            &&& next.stage is Ended
            &&& action matches LoadAction::Finish(Some(art))
            &&& art.sharp.rgba@ == image_rgba(img)
            &&& art.sharp.width == image_width(img)
            &&& art.sharp.height == image_height(img)
            &&& backdrop_of(img, cells, fade, art.blurred, art.color)
        }),
{
    law_thumbnails_are_workable(decoded_image(bytes@)->0);
}

/// Directories, paths and files show all they hold.
pub proof fn law_paths_hide_nothing<P>(
    dir: ArtDir<P>,
    path: ArtPath<P>,
    file: CachedFile,
    files: Seq<CachedFile>,
    list: Seq<usize>,
    i: int,
)
    ensures
        dir@.base == dir.base,
        dir@.below.len() == dir.below@.len(),
        0 <= i < dir.below@.len() ==> dir@.below[i] == dir.below@[i]@,
        path@.dir == path.dir@ && path@.stem == path.stem@,
        file.extension matches Some(e) ==> file@.extension == Some(e@),
        file.extension is None ==> file@.extension is None,
        file@.modified == file.modified,
        file_views(files).len() == files.len(),
        0 <= i < files.len() ==> file_views(files)[i] == files[i]@,
        positions(list).len() == list.len(),
        0 <= i < list.len() ==> positions(list)[i] == list[i],
{
}

} // verus!
