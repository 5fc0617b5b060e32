use std::collections::hash_map::DefaultHasher;
use std::hash::{Hash, Hasher};

use on_blast::art_cache::{
    art_cache_dir, cache_path as cache_path_in, hash_path, prune_art_cache, ArtPath, CachedFile,
};

fn cache_path(url: &str) -> Option<ArtPath<&'static str>> {
    cache_path_in(url, None, Some("/home/me"))
}

fn file(extension: &str, modified: i128) -> CachedFile {
    CachedFile { extension: Some(extension.to_string()), modified: Some(modified) }
}

#[test]
fn cache_path_is_stable_and_url_specific() {
    assert_eq!(cache_path("http://a/1.jpg"), cache_path("http://a/1.jpg"));
    assert_ne!(cache_path("http://a/1.jpg"), cache_path("http://a/2.jpg"));
}

#[test]
fn prune_caps_pngs_and_ignores_tmp() {
    let mut files: Vec<CachedFile> = Vec::new();
    for i in 0..5 {
        files.push(file("png", i));
    }
    // An in-flight temp write from another instance must survive pruning.
    files.push(file("tmp", 0));

    let deleted = prune_art_cache(&files, 3);

    let left: Vec<&CachedFile> = files
        .iter()
        .enumerate()
        .filter(|(i, _)| !deleted.contains(i))
        .map(|(_, f)| f)
        .collect();
    let pngs = left.iter().filter(|f| f.extension.as_deref() == Some("png")).count();
    let tmps = left.iter().filter(|f| f.extension.as_deref() == Some("tmp")).count();
    assert_eq!(pngs, 3, "pngs pruned to cap");
    assert_eq!(tmps, 1, "tmp files untouched");
}

#[test]
fn the_oldest_covers_go_first() {
    let files = vec![file("png", 30), file("png", -10), file("png", 20), file("png", 10)];
    assert_eq!(prune_art_cache(&files, 1), vec![1, 3, 2]);
    assert_eq!(prune_art_cache(&files, 0), vec![1, 3, 2, 0]);
    assert_eq!(prune_art_cache(&files, 4), Vec::<usize>::new());
    assert_eq!(prune_art_cache(&files, 9), Vec::<usize>::new());
}

#[test]
fn covers_of_one_age_go_as_listed() {
    let files = vec![file("png", 5), file("png", 5), file("png", 5)];
    assert_eq!(prune_art_cache(&files, 1), vec![0, 1]);
}

#[test]
fn a_cover_of_unknown_age_is_not_counted() {
    let unknown = CachedFile { extension: Some("png".to_string()), modified: None };
    let bare = CachedFile { extension: None, modified: Some(0) };
    let files = vec![unknown, bare, file("PNG", 0), file("png", 2), file("png", 1)];
    assert_eq!(prune_art_cache(&files, 1), vec![4]);
}

#[test]
fn the_cache_home_counts_before_the_home() {
    let below = vec!["cosmic-ext-applet-on-blast".to_string(), "art".to_string()];
    let dir = art_cache_dir(Some("/cache"), Some("/home/me")).unwrap();
    assert_eq!((dir.base, dir.below), ("/cache", below.clone()));
    let dir = art_cache_dir(Some("/cache"), None).unwrap();
    assert_eq!((dir.base, dir.below), ("/cache", below.clone()));
    let dir = art_cache_dir(None, Some("/home/me")).unwrap();
    let mut hidden = vec![".cache".to_string()];
    hidden.extend(below);
    assert_eq!((dir.base, dir.below), ("/home/me", hidden));
    assert!(art_cache_dir::<&str>(None, None).is_none());
    assert!(cache_path_in::<&str>("http://a/1.jpg", None, None).is_none());
}

#[test]
fn a_cover_is_named_by_the_hash_of_its_url() {
    let mut hasher = DefaultHasher::new();
    "http://a/1.jpg".hash(&mut hasher);
    let name = format!("{:016x}.png", hasher.finish());
    assert_eq!(cache_path("http://a/1.jpg").unwrap().file_name(), name);
}

#[test]
fn a_hash_is_written_with_sixteen_digits() {
    let path = hash_path(0xab_cdef, Some("/cache"), None).unwrap();
    assert_eq!(path.file_name(), "0000000000abcdef.png");
    assert_eq!(path.temp_file_name(4711), "0000000000abcdef.4711.tmp");
    let path = hash_path(u64::MAX, Some("/cache"), None).unwrap();
    assert_eq!(path.file_name(), "ffffffffffffffff.png");
    assert_eq!(path.temp_file_name(0), "ffffffffffffffff.0.tmp");
}

#[test]
fn unfinished_writes_stay_apart() {
    let one = hash_path(1, Some("/cache"), None).unwrap();
    let other = hash_path(2, Some("/cache"), None).unwrap();
    assert_ne!(one.temp_file_name(1), one.temp_file_name(11));
    assert_ne!(one.temp_file_name(1), other.temp_file_name(1));
    assert_ne!(one.temp_file_name(1), one.file_name());
}
