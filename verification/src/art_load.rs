//! How the cover of a track is loaded: from the shared cache, else from where
//! its URL points.
//!
//! Reading, fetching and writing are left to the caller. A load asks for one
//! thing at a time and is handed what came back.
use vstd::prelude::*;

use crate::art::{
    art_of, decode_rgba, decoded_image, fits_thumbnail, process_cover, thumbnail_of, workable, Art,
};
use crate::art_cache::{
    art_path, cache_path, file_views, positions, prune_art_cache, prunes, ArtPath, CachedFile,
    ART_CACHE_MAX,
};
use crate::text::{after_prefix, strip_prefix};

verus! {

/// How far a load has come: what it has asked for last.
#[derive(Debug, Clone, PartialEq)]
pub enum LoadStage {
    Cached,
    Asking,
    Fetching,
    Storing(Art),
    Listing(Art),
    Deleting(Art),
    Ended,
}

/// A load under way: the URL of the cover, and where it is cached.
#[derive(Debug, Clone, PartialEq)]
pub struct LoadRun<P> {
    pub url: String,
    pub path: Option<ArtPath<P>>,
    pub stage: LoadStage,
}

/// What a load asks for.
#[derive(Debug)]
pub enum LoadAction {
    /// Read the cached cover.
    ReadCached,
    /// Read a file.
    ReadFile(String),
    /// Ask for a URL.
    Get(String),
    /// Read the body of the answer.
    ReadBody,
    /// Write an image to the cache, complete or not at all.
    Store(image::DynamicImage),
    /// List the files of the cache.
    ListCache,
    /// Delete those of the files just listed, in order.
    Delete(Vec<usize>),
    /// The load is over.
    Finish(Option<Art>),
}

/// What came back of what a load asked for.
#[derive(Debug, Clone, PartialEq)]
pub enum LoadEvent {
    Bytes(Vec<u8>),
    Status(u16),
    Stored,
    Listed(Vec<CachedFile>),
    Deleted,
    Failed,
}

/// Whether an answer has this status: an error page is not taken for a cover.
pub open spec fn is_success(status: u16) -> bool {
    200 <= status < 300
}

/// Whether a load goes on to fetch the cover: from disk for `file://` URLs, and
/// by asking for the URL otherwise.
pub open spec fn fetches(url: Seq<char>, stage: LoadStage, action: LoadAction) -> bool {
    match after_prefix(url, "file://"@) {
        Some(path) => {
            &&& stage is Fetching
            &&& action matches LoadAction::ReadFile(p)
            &&& p@ == path
        },
        None => {
            &&& stage is Asking
            &&& action matches LoadAction::Get(u)
            &&& u@ == url
        },
    }
}

/// How a load starts: with the cache, where there is one.
pub open spec fn load_start<P>(
    url: Seq<char>,
    cache_home: Option<P>,
    home: Option<P>,
    run: LoadRun<P>,
    action: LoadAction,
) -> bool {
    &&& run.url@ == url
    &&& match (art_path(url, cache_home, home), run.path) {
        (Some(path), Some(p)) => p@ == path && run.stage is Cached && action is ReadCached,
        (None, None) => fetches(url, run.stage, action),
        _ => false,
    }
}

/// Whether a load is over, with the art of an image.
pub open spec fn shows<F: Fn(u32, u32, u8) -> u8>(
    img: image::DynamicImage,
    cells: u32,
    fade: F,
    stage: LoadStage,
    action: LoadAction,
) -> bool {
    &&& stage is Ended
    &&& action matches LoadAction::Finish(Some(art))
    &&& art_of(img, cells, fade, art)
}

/// What a load makes of fetched bytes: a thumbnail for the cache, where there is
/// one, and the thumbnail's art. Bytes that are no image end it.
pub open spec fn after_fetch<P, F: Fn(u32, u32, u8) -> u8>(
    run: LoadRun<P>,
    bytes: Seq<u8>,
    cells: u32,
    fade: F,
    stage: LoadStage,
    action: LoadAction,
) -> bool {
    match decoded_image(bytes) {
        Some(img) => {
            &&& fits_thumbnail(img, thumbnail_of(img))
            &&& if run.path is Some {
                &&& stage matches LoadStage::Storing(art)
                &&& art_of(thumbnail_of(img), cells, fade, art)
                &&& action matches LoadAction::Store(thumb)
                &&& thumb == thumbnail_of(img)
            } else {
                shows(thumbnail_of(img), cells, fade, stage, action)
            }
        },
        None => stage is Ended && action == LoadAction::Finish(None),
    }
}

/// One step of a load. A cached cover that can be decoded is shown; a fetched
/// one is shown whether or not it could be cached.
pub open spec fn load_step<P, F: Fn(u32, u32, u8) -> u8>(
    run: LoadRun<P>,
    event: LoadEvent,
    cells: u32,
    fade: F,
    next: LoadRun<P>,
    action: LoadAction,
) -> bool {
    &&& next.url == run.url
    &&& next.path == run.path
    &&& match (run.stage, event) {
        (LoadStage::Cached, LoadEvent::Bytes(bytes)) => match decoded_image(bytes@) {
            Some(img) if workable(img) => shows(img, cells, fade, next.stage, action),
            _ => fetches(run.url@, next.stage, action),
        },
        (LoadStage::Cached, _) => fetches(run.url@, next.stage, action),
        (LoadStage::Asking, LoadEvent::Status(status)) if is_success(status) => next.stage
            is Fetching && action is ReadBody,
        (LoadStage::Fetching, LoadEvent::Bytes(bytes)) => after_fetch(
            run,
            bytes@,
            cells,
            fade,
            next.stage,
            action,
        ),
        (LoadStage::Storing(art), LoadEvent::Stored) => next.stage == LoadStage::Listing(art)
            && action is ListCache,
        (LoadStage::Listing(art), LoadEvent::Listed(files)) => {
            &&& next.stage == LoadStage::Deleting(art)
            &&& action matches LoadAction::Delete(deleted)
            &&& prunes(file_views(files@), ART_CACHE_MAX as nat, positions(deleted@))
        },
        (LoadStage::Storing(art), _) | (LoadStage::Listing(art), _) | (
            LoadStage::Deleting(art),
            _,
        ) => next.stage is Ended && action == LoadAction::Finish(Some(art)),
        _ => next.stage is Ended && action == LoadAction::Finish(None),
    }
}

/// Where the raw encoded image bytes come from.
pub fn fetch_bytes(url: &str) -> (r: (LoadStage, LoadAction))
    ensures
        fetches(url@, r.0, r.1),
{
    match strip_prefix(url, "file://") {
        Some(path) => (LoadStage::Fetching, LoadAction::ReadFile(path.to_owned())),
        None => (LoadStage::Asking, LoadAction::Get(url.to_owned())),
    }
}

/// Starts a load. The cache is shared across instances: with one applet per
/// monitor, the first to fetch a cover writes a thumbnail the others just decode.
pub fn load_art<P>(url: String, cache_home: Option<P>, home: Option<P>) -> (r: (
    LoadRun<P>,
    LoadAction,
))
    ensures
        load_start(url@, cache_home, home, r.0, r.1),
{
    let path = cache_path(url.as_str(), cache_home, home);
    let (stage, action) = if path.is_some() {
        (LoadStage::Cached, LoadAction::ReadCached)
    } else {
        fetch_bytes(url.as_str())
    };
    (LoadRun { url, path, stage }, action)
}

/// Shows what the cache held, or goes on to fetch the cover.
pub fn show_cached(url: &str, art: Option<Art>) -> (r: (LoadStage, LoadAction))
    ensures
        match art {
            Some(_) => r == (LoadStage::Ended, LoadAction::Finish(art)),
            None => fetches(url@, r.0, r.1),
        },
{
    match art {
        Some(_) => (LoadStage::Ended, LoadAction::Finish(art)),
        None => fetch_bytes(url),
    }
}

/// Hands the thumbnail of a fetched cover out to be cached, where there is a
/// cache. `None` in the end means that the load is to be tried again.
pub fn process_and_cache(cover: Option<(image::DynamicImage, Art)>, cached: bool) -> (r: (
    LoadStage,
    LoadAction,
))
    ensures
        r == match cover {
            Some((thumb, art)) => if cached {
                (LoadStage::Storing(art), LoadAction::Store(thumb))
            } else {
                (LoadStage::Ended, LoadAction::Finish(Some(art)))
            },
            None => (LoadStage::Ended, LoadAction::Finish(None)),
        },
{
    match cover {
        Some((thumb, art)) => if cached {
            (LoadStage::Storing(art), LoadAction::Store(thumb))
        } else {
            (LoadStage::Ended, LoadAction::Finish(Some(art)))
        },
        None => (LoadStage::Ended, LoadAction::Finish(None)),
    }
}

/// Takes a load one step on: what it asked for has come back as `event`.
pub fn load_next<P, F: Fn(u32, u32, u8) -> u8>(
    run: LoadRun<P>,
    event: LoadEvent,
    cells: u32,
    fade: &F,
) -> (r: (LoadRun<P>, LoadAction))
    requires
        forall|cx: u32, cy: u32, a: u8| call_requires(*fade, (cx, cy, a)),
    ensures
        load_step(run, event, cells, *fade, r.0, r.1),
{
    let LoadRun { url, path, stage } = run;
    let (stage, action) = match (stage, event) {
        (LoadStage::Cached, LoadEvent::Bytes(bytes)) => show_cached(
            url.as_str(),
            decode_rgba(bytes.as_slice(), cells, fade),
        ),
        (LoadStage::Cached, _) => fetch_bytes(url.as_str()),
        (LoadStage::Asking, LoadEvent::Status(status)) => if 200 <= status && status < 300 {
            (LoadStage::Fetching, LoadAction::ReadBody)
        } else {
            (LoadStage::Ended, LoadAction::Finish(None))
        },
        (LoadStage::Fetching, LoadEvent::Bytes(bytes)) => process_and_cache(
            process_cover(bytes.as_slice(), cells, fade),
            path.is_some(),
        ),
        (LoadStage::Storing(art), LoadEvent::Stored) => (
            LoadStage::Listing(art),
            LoadAction::ListCache,
        ),
        (LoadStage::Listing(art), LoadEvent::Listed(files)) => (
            LoadStage::Deleting(art),
            LoadAction::Delete(prune_art_cache(&files, ART_CACHE_MAX)),
        ),
        (LoadStage::Storing(art), _) => (LoadStage::Ended, LoadAction::Finish(Some(art))),
        (LoadStage::Listing(art), _) => (LoadStage::Ended, LoadAction::Finish(Some(art))),
        (LoadStage::Deleting(art), _) => (LoadStage::Ended, LoadAction::Finish(Some(art))),
        _ => (LoadStage::Ended, LoadAction::Finish(None)),
    };
    (LoadRun { url, path, stage }, action)
}

/// How many steps a load has before it at most.
pub open spec fn load_rank(stage: LoadStage) -> nat {
    match stage {
        LoadStage::Cached => 6,
        LoadStage::Asking => 5,
        LoadStage::Fetching => 4,
        LoadStage::Storing(_) => 3,
        LoadStage::Listing(_) => 2,
        LoadStage::Deleting(_) => 1,
        LoadStage::Ended => 0,
    }
}

/// A load ends, whatever comes back: every step brings it closer to its end, and
/// it finishes exactly when it is there.
pub proof fn law_load_ends<P, F: Fn(u32, u32, u8) -> u8>(
    run: LoadRun<P>,
    event: LoadEvent,
    cells: u32,
    fade: F,
    next: LoadRun<P>,
    action: LoadAction,
)
    requires
        load_step(run, event, cells, fade, next, action),
    ensures
        load_rank(next.stage) < load_rank(run.stage) || next.stage is Ended,
        next.stage is Ended <==> action is Finish,
{
}

/// A cached cover that can be decoded is shown without anything being fetched.
pub proof fn law_cached_cover_is_not_fetched<P, F: Fn(u32, u32, u8) -> u8>(
    run: LoadRun<P>,
    bytes: Vec<u8>,
    cells: u32,
    fade: F,
    next: LoadRun<P>,
    action: LoadAction,
)
    requires
        run.stage is Cached,
        decoded_image(bytes@) matches Some(img) && workable(img),
        load_step(run, LoadEvent::Bytes(bytes), cells, fade, next, action),
    ensures
        action matches LoadAction::Finish(Some(art)) && art_of(
            decoded_image(bytes@)->0,
            cells,
            fade,
            art,
        ),
{
}

/// A broken or missing cache entry is no obstacle: the cover is fetched.
pub proof fn law_broken_cache_entry_is_refetched<P, F: Fn(u32, u32, u8) -> u8>(
    run: LoadRun<P>,
    event: LoadEvent,
    cells: u32,
    fade: F,
    next: LoadRun<P>,
    action: LoadAction,
)
    requires
        run.stage is Cached,
        event matches LoadEvent::Bytes(bytes) ==> decoded_image(bytes@) is None,
        load_step(run, event, cells, fade, next, action),
    ensures
        fetches(run.url@, next.stage, action),
{
}

/// Fetched bytes end a load without a cover exactly when they are no image,
/// whether or not there is a cache, and then nothing is stored.
pub proof fn law_every_fetched_image_is_a_cover<P, F: Fn(u32, u32, u8) -> u8>(
    run: LoadRun<P>,
    bytes: Vec<u8>,
    cells: u32,
    fade: F,
    next: LoadRun<P>,
    action: LoadAction,
)
    requires
        run.stage is Fetching,
        load_step(run, LoadEvent::Bytes(bytes), cells, fade, next, action),
    ensures
        decoded_image(bytes@) is None <==> action == LoadAction::Finish(None),
        decoded_image(bytes@) is Some && run.path is Some <==> action is Store,
{
}

/// An error page is rejected rather than fed to the decoder.
pub proof fn law_error_page_is_rejected<P, F: Fn(u32, u32, u8) -> u8>(
    run: LoadRun<P>,
    status: u16,
    cells: u32,
    fade: F,
    next: LoadRun<P>,
    action: LoadAction,
)
    requires
        run.stage is Asking,
        !is_success(status),
        load_step(run, LoadEvent::Status(status), cells, fade, next, action),
    ensures
        action == LoadAction::Finish(None),
{
}

/// The cache is best-effort: a cover that was fetched is shown, whatever comes of
/// storing it, of listing the cache and of deleting from it.
pub proof fn law_fetched_cover_is_shown<P, F: Fn(u32, u32, u8) -> u8>(
    run: LoadRun<P>,
    art: Art,
    event: LoadEvent,
    cells: u32,
    fade: F,
    next: LoadRun<P>,
    action: LoadAction,
)
    requires
        run.stage == LoadStage::Storing(art) || run.stage == LoadStage::Listing(art) || run.stage
            == LoadStage::Deleting(art),
        load_step(run, event, cells, fade, next, action),
    ensures
        action == LoadAction::Finish(Some(art)) || next.stage == LoadStage::Listing(art)
            || next.stage == LoadStage::Deleting(art),
{
}

/// Nothing is fetched over the network for a `file://` URL.
pub proof fn law_local_cover_is_read_from_disk(url: Seq<char>, stage: LoadStage, action: LoadAction)
    requires
        "file://"@.is_prefix_of(url),
        fetches(url, stage, action),
    ensures
        action matches LoadAction::ReadFile(path) && "file://"@ + path@ == url,
{
    let n = "file://"@.len() as int;
    assert("file://"@ + url.skip(n) =~= url);
}

} // verus!
