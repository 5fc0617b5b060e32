//! Where cover thumbnails are kept, and which of them are deleted.
use std::collections::hash_map::DefaultHasher;
use std::hash::{Hash, Hasher};

use vstd::prelude::*;
use vstd::std_specs::hash::*;

use crate::text::{
    append_decimal, append_hex, decimal, hex, lemma_decimal_injective, lemma_hex_injective,
    lemma_hex_len, same_text,
};

verus! {

/// Cap on cached cover thumbnails. The shared cache is keyed by URL, so this is
/// per cover and not per instance.
pub const ART_CACHE_MAX: usize = 128;

/// The directory of the applet below the user's caches.
pub const APPLET_DIR: &'static str = "cosmic-ext-applet-on-blast";

/// A directory: one that is given, and names below it.
#[derive(Debug, Clone, PartialEq)]
pub struct ArtDir<P> {
    pub base: P,
    pub below: Vec<String>,
}

pub ghost struct ArtDirView<P> {
    pub base: P,
    pub below: Seq<Seq<char>>,
}

impl<P> View for ArtDir<P> {
    type V = ArtDirView<P>;

    open spec fn view(&self) -> ArtDirView<P> {
        ArtDirView { base: self.base, below: self.below@.map_values(|s: String| s@) }
    }
}

/// Where one cover is kept.
#[derive(Debug, Clone, PartialEq)]
pub struct ArtPath<P> {
    pub dir: ArtDir<P>,
    pub stem: String,
}

pub ghost struct ArtPathView<P> {
    pub dir: ArtDirView<P>,
    pub stem: Seq<char>,
}

impl<P> View for ArtPath<P> {
    type V = ArtPathView<P>;

    open spec fn view(&self) -> ArtPathView<P> {
        ArtPathView { dir: self.dir@, stem: self.stem@ }
    }
}

/// The directory of cover thumbnails, given the user's cache directory and home
/// directory as far as they are known: the first of them counts.
pub open spec fn art_dir<P>(cache_home: Option<P>, home: Option<P>) -> Option<ArtDirView<P>> {
    match (cache_home, home) {
        (Some(base), _) => Some(ArtDirView { base, below: seq![APPLET_DIR@, "art"@] }),
        (None, Some(base)) => Some(
            ArtDirView { base, below: seq![".cache"@, APPLET_DIR@, "art"@] },
        ),
        (None, None) => None,
    }
}

/// What hashing a text feeds to a hasher.
pub uninterp spec fn hashed_writes(text: Seq<char>) -> Seq<Seq<u8>>;

/// The hash of a URL.
pub open spec fn url_hash(url: Seq<char>) -> u64 {
    DefaultHasher::spec_finish(hashed_writes(url))
}

/// The place of the cover whose URL has that hash: the file is named by the
/// sixteen digits of the hash.
pub open spec fn place_of<P>(hash: u64, cache_home: Option<P>, home: Option<P>) -> Option<
    ArtPathView<P>,
> {
    match art_dir(cache_home, home) {
        Some(dir) => Some(ArtPathView { dir, stem: hex(hash as nat, 16) }),
        None => None,
    }
}

/// The place of the cover of a URL.
pub open spec fn art_path<P>(
    url: Seq<char>,
    cache_home: Option<P>,
    home: Option<P>,
) -> Option<ArtPathView<P>> {
    place_of(url_hash(url), cache_home, home)
}

/// `<str as std::hash::Hash>::hash` feeds a text to a hasher. What it feeds
/// depends on the text alone, and comes behind what was fed before.
#[verifier::external_body]
fn hash_text(text: &str, hasher: &mut DefaultHasher)
    ensures
        final(hasher)@ == old(hasher)@ + hashed_writes(text@),
{
    text.hash(hasher);
}

/// The directory holding cached cover thumbnails, shared across applet instances.
pub fn art_cache_dir<P>(cache_home: Option<P>, home: Option<P>) -> (r: Option<ArtDir<P>>)
    ensures
        match r {
            Some(dir) => art_dir(cache_home, home) == Some(dir@),
            None => art_dir(cache_home, home) is None,
        },
{
    match cache_home {
        Some(base) => {
            let dir = ArtDir { base, below: vec![APPLET_DIR.to_owned(), "art".to_owned()] };
            assert(dir@.below =~= seq![APPLET_DIR@, "art"@]);
            Some(dir)
        },
        None => match home {
            Some(base) => {
                let dir = ArtDir {
                    base,
                    below: vec![".cache".to_owned(), APPLET_DIR.to_owned(), "art".to_owned()],
                };
                assert(dir@.below =~= seq![".cache"@, APPLET_DIR@, "art"@]);
                Some(dir)
            },
            None => None,
        },
    }
}

/// The place of a cover whose URL has that hash.
pub fn hash_path<P>(hash: u64, cache_home: Option<P>, home: Option<P>) -> (r: Option<ArtPath<P>>)
    ensures
        match r {
            Some(path) => place_of(hash, cache_home, home) == Some(path@),
            None => place_of(hash, cache_home, home) is None,
        },
{
    match art_cache_dir(cache_home, home) {
        Some(dir) => {
            let mut stem = String::new();
            append_hex(&mut stem, hash, 16);
            assert(stem@ =~= hex(hash as nat, 16));
            Some(ArtPath { dir, stem })
        },
        None => None,
    }
}

/// The cache path for an art URL. The hasher has a fixed seed, so every applet
/// instance maps the same URL to the same file.
pub fn cache_path<P>(url: &str, cache_home: Option<P>, home: Option<P>) -> (r: Option<ArtPath<P>>)
    ensures
        match r {
            Some(path) => art_path(url@, cache_home, home) == Some(path@),
            None => art_path(url@, cache_home, home) is None,
        },
{
    let mut hasher = DefaultHasher::new();
    hash_text(url, &mut hasher);
    assert(hasher@ =~= hashed_writes(url@));
    hash_path(hasher.finish(), cache_home, home)
}

/// The name of the file that holds a cover.
pub open spec fn cover_name(stem: Seq<char>) -> Seq<char> {
    stem + ".png"@
}

/// The name of the file that a process writes a cover to before it is complete.
pub open spec fn temp_name(stem: Seq<char>, process: u32) -> Seq<char> {
    stem + "."@ + decimal(process as nat) + ".tmp"@
}

impl<P> ArtPath<P> {
    /// The name of the file that holds the cover.
    pub fn file_name(&self) -> (r: String)
        ensures
            r@ == cover_name(self@.stem),
    {
        let mut name = self.stem.clone();
        name.append(".png");
        name
    }

    /// The name that a process writes the cover under before it renames the file,
    /// so that instances never observe a partially written entry.
    pub fn temp_file_name(&self, process: u32) -> (r: String)
        ensures
            r@ == temp_name(self@.stem, process),
    {
        let mut name = self.stem.clone();
        name.append(".");
        append_decimal(&mut name, process as u64);
        name.append(".tmp");
        name
    }
}

/// A file of the cache: its extension, and the time of its last change in
/// nanoseconds of the epoch, each where it can be read.
#[derive(Debug, Clone, PartialEq)]
pub struct CachedFile {
    pub extension: Option<String>,
    pub modified: Option<i128>,
}

pub ghost struct CachedFileView {
    pub extension: Option<Seq<char>>,
    pub modified: Option<i128>,
}

impl View for CachedFile {
    type V = CachedFileView;

    open spec fn view(&self) -> CachedFileView {
        CachedFileView {
            extension: match self.extension {
                Some(e) => Some(e@),
                None => None,
            },
            modified: self.modified,
        }
    }
}

/// The views of a list of files.
pub open spec fn file_views(files: Seq<CachedFile>) -> Seq<CachedFileView> {
    files.map_values(|f: CachedFile| f@)
}

/// Whether a file is a cover whose age is known.
pub open spec fn is_cover(file: CachedFileView) -> bool {
    file.extension == Some("png"@) && file.modified is Some
}

/// Which files are covers of known age.
pub open spec fn covers(files: Seq<CachedFileView>) -> Set<int> {
    Set::new(|i: int| 0 <= i < files.len() && is_cover(files[i]))
}

/// Whether one file is deleted before another: it changed longer ago, or just as
/// long ago and is listed first.
pub open spec fn older(files: Seq<CachedFileView>, i: int, j: int) -> bool {
    files[i].modified->0 < files[j].modified->0 || (files[i].modified == files[j].modified && i < j)
}

/// Whether deleting files leaves the newest `max` covers: the deleted are the
/// covers beyond them, oldest first.
pub open spec fn prunes(files: Seq<CachedFileView>, max: nat, deleted: Seq<int>) -> bool {
    &&& deleted.len() == if covers(files).len() > max {
        covers(files).len() - max
    } else {
        0
    }
    &&& forall|i: int| 0 <= i < deleted.len() ==> covers(files).contains(#[trigger] deleted[i])
    &&& forall|i: int, j: int|
        0 <= i < j < deleted.len() ==> older(files, #[trigger] deleted[i], #[trigger] deleted[j])
    &&& forall|i: int, c: int|
        0 <= i < deleted.len() && #[trigger] covers(files).contains(c) && !deleted.contains(c)
            ==> older(files, #[trigger] deleted[i], c)
}

fn is_cover_file(file: &CachedFile) -> (r: bool)
    ensures
        r == is_cover(file@),
{
    match (&file.extension, &file.modified) {
        (Some(e), Some(_)) => same_text(e.as_str(), "png"),
        _ => false,
    }
}

/// Positions as mathematical integers.
pub open spec fn positions(list: Seq<usize>) -> Seq<int> {
    list.map_values(|i: usize| i as int)
}

/// Whether positions are those of the covers among the first `n` files, oldest
/// first.
spec fn sorted_covers(files: Seq<CachedFileView>, n: int, list: Seq<usize>) -> bool {
    &&& forall|k: int|
        0 <= k < list.len() ==> 0 <= (#[trigger] list[k]) < n && covers(files).contains(
            list[k] as int,
        )
    &&& forall|i: int, j: int|
        0 <= i < j < list.len() ==> older(
            files,
            (#[trigger] list[i]) as int,
            (#[trigger] list[j]) as int,
        )
    &&& forall|c: int|
        0 <= c < n && #[trigger] covers(files).contains(c) ==> list.contains(c as usize)
}

/// Puts a file that is listed behind all others into its place among the covers.
fn insert_cover(files: &Vec<CachedFile>, list: &mut Vec<usize>, at: usize)
    requires
        at < files.len(),
        is_cover(file_views(files@)[at as int]),
        sorted_covers(file_views(files@), at as int, old(list)@),
    ensures
        sorted_covers(file_views(files@), at + 1, final(list)@),
{
    let ghost views = file_views(files@);
    let ghost before = list@;
    let mut k: usize = list.len();
    while k > 0 && files[list[k - 1]].modified.unwrap() > files[at].modified.unwrap()
        invariant
            at < files.len(),
            views == file_views(files@),
            is_cover(views[at as int]),
            list@ == before,
            sorted_covers(views, at as int, before),
            k <= list.len(),
            forall|i: int|
                k <= i < before.len() ==> older(views, at as int, #[trigger] before[i] as int),
        decreases k,
    {
        k = k - 1;
    }
    list.insert(k, at);
    proof {
        let after = list@;
        assert forall|c: int|
            0 <= c < at + 1 && #[trigger] covers(views).contains(c) implies after.contains(
            c as usize,
        ) by {
            if c == at {
                assert(after[k as int] == at);
            } else {
                let j = choose|j: int| 0 <= j < before.len() && before[j] == c as usize;
                if j < k {
                    assert(after[j] == before[j]);
                } else {
                    assert(after[j + 1] == before[j]);
                }
            }
        }
    }
}

/// Picks the cached files to delete so that `max` covers stay, oldest first.
/// Files that are no covers, such as other instances' unfinished writes, are left
/// alone.
pub fn prune_art_cache(files: &Vec<CachedFile>, max: usize) -> (r: Vec<usize>)
    ensures
        prunes(file_views(files@), max as nat, positions(r@)),
{
    let ghost views = file_views(files@);
    let mut sorted: Vec<usize> = Vec::new();
    let mut i: usize = 0;
    while i < files.len()
        invariant
            i <= files.len(),
            views == file_views(files@),
            sorted_covers(views, i as int, sorted@),
        decreases files.len() - i,
    {
        if is_cover_file(&files[i]) {
            insert_cover(files, &mut sorted, i);
        }
        i = i + 1;
    }
    proof {
        lemma_all_covers(views, sorted@);
    }
    let mut out: Vec<usize> = Vec::new();
    if sorted.len() > max {
        let excess: usize = sorted.len() - max;
        let mut k: usize = 0;
        while k < excess
            invariant
                k <= excess <= sorted.len(),
                out@ == sorted@.take(k as int),
            decreases excess - k,
        {
            out.push(sorted[k]);
            assert(out@ =~= sorted@.take(k + 1));
            k = k + 1;
        }
    }
    proof {
        let deleted = positions(out@);
        assert forall|i: int, c: int|
            0 <= i < deleted.len() && #[trigger] covers(views).contains(c) && !deleted.contains(
                c,
            ) implies older(views, #[trigger] deleted[i], c) by {
            let j = choose|j: int| 0 <= j < sorted.len() && sorted@[j] == c as usize;
            if j < out.len() {
                assert(deleted[j] == c);
            }
            assert(older(views, sorted@[i] as int, sorted@[j] as int));
        }
    }
    out
}

/// The sorted covers are as many as the covers.
proof fn lemma_all_covers(files: Seq<CachedFileView>, list: Seq<usize>)
    requires
        sorted_covers(files, files.len() as int, list),
        files.len() <= usize::MAX,
    ensures
        covers(files).finite(),
        covers(files).len() == list.len(),
{
    let all = positions(list);
    assert(all.no_duplicates());
    all.unique_seq_to_set();
    assert(all.to_set() =~= covers(files)) by {
        assert forall|c: int| covers(files).contains(c) implies all.contains(c) by {
            let j = choose|j: int| 0 <= j < list.len() && list[j] == c as usize;
            assert(all[j] == c);
        }
        assert forall|c: int| all.contains(c) implies covers(files).contains(c) by {
            let j = choose|j: int| 0 <= j < all.len() && all[j] == c;
            assert(list[j] as int == c);
        }
    }
}

/// Two URLs share a cached cover exactly when they hash alike.
pub proof fn law_covers_are_kept_by_hash<P>(
    a: Seq<char>,
    b: Seq<char>,
    cache_home: Option<P>,
    home: Option<P>,
)
    requires
        art_dir(cache_home, home) is Some,
    ensures
        art_path(a, cache_home, home) == art_path(b, cache_home, home) <==> url_hash(a) == url_hash(
            b,
        ),
{
    assert(vstd::arithmetic::power::pow(16, 16) == 0x1_0000_0000_0000_0000) by {
        reveal(vstd::arithmetic::power::pow);
        reveal_with_fuel(vstd::arithmetic::power::pow, 17);
    }
    if hex(url_hash(a) as nat, 16) == hex(url_hash(b) as nat, 16) {
        lemma_hex_injective(url_hash(a) as nat, url_hash(b) as nat, 16);
    }
}

/// A write under way is never taken for a cover.
pub proof fn law_unfinished_write_is_no_cover(stem: Seq<char>, process: u32, other: Seq<char>)
    ensures
        temp_name(stem, process) != cover_name(other),
{
    reveal_strlit(".png");
    reveal_strlit(".tmp");
    assert(temp_name(stem, process).last() == 'p');
    assert(cover_name(other).last() == 'g');
}

/// Two processes, or one process with two covers, never write to the same file
/// at once.
pub proof fn law_writes_stay_apart(hash: u64, process: u32, other_hash: u64, other_process: u32)
    requires
        temp_name(hex(hash as nat, 16), process) == temp_name(
            hex(other_hash as nat, 16),
            other_process,
        ),
    ensures
        hash == other_hash,
        process == other_process,
{
    reveal_strlit(".");
    reveal_strlit(".tmp");
    let a = hex(hash as nat, 16);
    let b = hex(other_hash as nat, 16);
    let name = temp_name(a, process);
    lemma_hex_len(hash as nat, 16);
    lemma_hex_len(other_hash as nat, 16);
    assert(name.take(16) =~= a);
    assert(name.take(16) =~= b);
    assert(vstd::arithmetic::power::pow(16, 16) == 0x1_0000_0000_0000_0000) by {
        reveal(vstd::arithmetic::power::pow);
        reveal_with_fuel(vstd::arithmetic::power::pow, 17);
    }
    lemma_hex_injective(hash as nat, other_hash as nat, 16);
    assert(name.subrange(17, name.len() - 4) =~= decimal(process as nat));
    assert(name.subrange(17, name.len() - 4) =~= decimal(other_process as nat));
    lemma_decimal_injective(process as nat, other_process as nat);
}

/// After pruning there are no more covers than allowed, and no fewer than there
/// were or may be.
pub proof fn law_cache_is_capped(files: Seq<CachedFileView>, max: nat, deleted: Seq<int>)
    requires
        prunes(files, max, deleted),
    ensures
        covers(files).difference(deleted.to_set()).len() == if covers(files).len() > max {
            max
        } else {
            covers(files).len()
        },
{
    let all = covers(files);
    assert(all.subset_of(vstd::set_lib::set_int_range(0, files.len() as int)));
    vstd::set_lib::lemma_int_range(0, files.len() as int);
    vstd::set_lib::lemma_set_subset_finite(
        vstd::set_lib::set_int_range(0, files.len() as int),
        all,
    );
    assert(deleted.no_duplicates());
    deleted.unique_seq_to_set();
    let gone = deleted.to_set();
    assert(gone.subset_of(all));
    vstd::set_lib::lemma_set_disjoint_lens(all.difference(gone), gone);
    assert(all.difference(gone) + gone =~= all);
}

/// Pruning deletes nothing but covers: an unfinished write stays.
pub proof fn law_pruning_spares_other_files(
    files: Seq<CachedFileView>,
    max: nat,
    deleted: Seq<int>,
    i: int,
)
    requires
        prunes(files, max, deleted),
        files[i].extension != Some("png"@),
    ensures
        !deleted.contains(i),
{
    if deleted.contains(i) {
        let k = choose|k: int| 0 <= k < deleted.len() && deleted[k] == i;
        assert(covers(files).contains(deleted[k]));
    }
}

/// A cache within its cap is left alone.
pub proof fn law_small_cache_is_left_alone(files: Seq<CachedFileView>, max: nat, deleted: Seq<int>)
    requires
        prunes(files, max, deleted),
        covers(files).len() <= max,
    ensures
        deleted == Seq::<int>::empty(),
{
}

/// Which files are deleted, and in what order, is settled by the files and the
/// cap.
pub proof fn law_pruning_is_settled(
    files: Seq<CachedFileView>,
    max: nat,
    one: Seq<int>,
    other: Seq<int>,
)
    requires
        prunes(files, max, one),
        prunes(files, max, other),
    ensures
        one == other,
{
    lemma_deleted_within(files, max, one, other);
    lemma_deleted_within(files, max, other, one);
    assert forall|i: int| 0 <= i < one.len() implies one[i] == other[i] by {
        lemma_same_place(files, max, one, other, i);
    }
    assert(one =~= other);
}

proof fn lemma_deleted_within(
    files: Seq<CachedFileView>,
    max: nat,
    one: Seq<int>,
    other: Seq<int>,
)
    requires
        prunes(files, max, one),
        prunes(files, max, other),
    ensures
        forall|i: int| 0 <= i < one.len() ==> other.contains(#[trigger] one[i]),
{
    if exists|i: int| 0 <= i < one.len() && !other.contains(#[trigger] one[i]) {
        let i = choose|i: int| 0 <= i < one.len() && !other.contains(#[trigger] one[i]);
        assert forall|j: int| 0 <= j < other.len() implies one.contains(#[trigger] other[j]) by {
            if !one.contains(other[j]) {
                assert(covers(files).contains(other[j]));
                assert(covers(files).contains(one[i]));
                assert(older(files, one[i], other[j]));
                assert(older(files, other[j], one[i]));
            }
        }
        assert(one.no_duplicates());
        assert(other.no_duplicates());
        one.unique_seq_to_set();
        other.unique_seq_to_set();
        let rest = one.to_set().remove(one[i]);
        assert(one.contains(one[i]));
        assert(other.to_set().subset_of(rest));
        vstd::set_lib::lemma_len_subset(other.to_set(), rest);
    }
}

proof fn lemma_same_place(
    files: Seq<CachedFileView>,
    max: nat,
    one: Seq<int>,
    other: Seq<int>,
    i: int,
)
    requires
        prunes(files, max, one),
        prunes(files, max, other),
        forall|i: int| 0 <= i < one.len() ==> other.contains(#[trigger] one[i]),
        forall|i: int| 0 <= i < other.len() ==> one.contains(#[trigger] other[i]),
        0 <= i < one.len(),
    ensures
        one[i] == other[i],
    decreases i,
{
    assert forall|k: int| 0 <= k < i implies one[k] == other[k] by {
        lemma_same_place(files, max, one, other, k);
    }
    let j = choose|j: int| 0 <= j < other.len() && other[j] == one[i];
    let k = choose|k: int| 0 <= k < one.len() && one[k] == other[i];
    assert(other.contains(one[i]));
    assert(one.contains(other[i]));
    if one[i] != other[i] {
        assert(j > i) by {
            if j < i {
                assert(one[j] == other[j]);
                assert(older(files, one[j], one[i]));
            }
        }
        assert(k > i) by {
            if k < i {
                assert(one[k] == other[k]);
                assert(older(files, other[k], other[i]));
            }
        }
        assert(older(files, one[i], one[k]));
        assert(older(files, other[i], other[j]));
    }
}

} // verus!
