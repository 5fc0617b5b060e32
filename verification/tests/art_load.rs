use std::io::Cursor;

use image::{DynamicImage, ImageFormat};
use on_blast::art::Art;
use on_blast::art_cache::CachedFile;
use on_blast::art_load::{load_art, load_next, LoadAction, LoadEvent, LoadRun, LoadStage};

fn keep(_: u32, _: u32, alpha: u8) -> u8 {
    alpha
}

fn cover(width: u32, height: u32) -> Vec<u8> {
    let mut out = Cursor::new(Vec::new());
    DynamicImage::new_rgb8(width, height).write_to(&mut out, ImageFormat::Png).unwrap();
    out.into_inner()
}

fn start(url: &str) -> (LoadRun<&'static str>, LoadAction) {
    load_art(url.to_string(), None, Some("/home/me"))
}

fn step(run: LoadRun<&'static str>, event: LoadEvent) -> (LoadRun<&'static str>, LoadAction) {
    load_next(run, event, 4, &keep)
}

fn finished(action: LoadAction) -> Option<Art> {
    match action {
        LoadAction::Finish(art) => art,
        other => panic!("not finished: {:?}", other),
    }
}

#[test]
fn a_cached_cover_is_not_fetched() {
    let (run, action) = start("http://a/1.jpg");
    assert!(matches!(action, LoadAction::ReadCached));
    assert_eq!(run.url, "http://a/1.jpg");
    assert!(run.path.is_some());
    let (run, action) = step(run, LoadEvent::Bytes(cover(40, 40)));
    assert_eq!(run.stage, LoadStage::Ended);
    assert_eq!(finished(action).unwrap().sharp.width, 40);
}

#[test]
fn a_broken_cache_entry_is_fetched_anew() {
    for event in [LoadEvent::Failed, LoadEvent::Bytes(b"half a file".to_vec())] {
        let (run, _) = start("http://a/1.jpg");
        let (_, action) = step(run, event);
        assert!(matches!(action, LoadAction::Get(url) if url == "http://a/1.jpg"));
    }
}

#[test]
fn a_fetched_cover_is_stored_and_the_cache_pruned() {
    let (run, _) = start("http://a/1.jpg");
    let (run, _) = step(run, LoadEvent::Failed);
    let (run, action) = step(run, LoadEvent::Status(200));
    assert!(matches!(action, LoadAction::ReadBody));
    let (run, action) = step(run, LoadEvent::Bytes(cover(900, 500)));
    match action {
        LoadAction::Store(thumb) => assert_eq!((thumb.width(), thumb.height()), (400, 400)),
        other => panic!("not stored: {:?}", other),
    }
    let (run, action) = step(run, LoadEvent::Stored);
    assert!(matches!(action, LoadAction::ListCache));
    let files: Vec<CachedFile> = (0..130)
        .map(|i| CachedFile { extension: Some("png".to_string()), modified: Some(1000 - i) })
        .collect();
    let (run, action) = step(run, LoadEvent::Listed(files));
    assert!(matches!(action, LoadAction::Delete(list) if list == vec![129, 128]));
    let (_, action) = step(run, LoadEvent::Deleted);
    assert_eq!(finished(action).unwrap().sharp.width, 400);
}

#[test]
fn a_cover_that_cannot_be_stored_is_shown() {
    let (run, _) = start("file:///music/cover.png");
    let (run, action) = step(run, LoadEvent::Failed);
    assert!(matches!(action, LoadAction::ReadFile(path) if path == "/music/cover.png"));
    let (run, _) = step(run, LoadEvent::Bytes(cover(20, 10)));
    let (_, action) = step(run.clone(), LoadEvent::Failed);
    assert_eq!(finished(action).unwrap().sharp.width, 10);
    let (run, _) = step(run, LoadEvent::Stored);
    let (_, action) = step(run, LoadEvent::Failed);
    assert_eq!(finished(action).unwrap().sharp.width, 10);
}

#[test]
fn an_error_page_is_rejected() {
    for status in [100, 199, 300, 404, 500] {
        let (run, _) = start("http://a/1.jpg");
        let (run, _) = step(run, LoadEvent::Failed);
        let (run, action) = step(run, LoadEvent::Status(status));
        assert!(finished(action).is_none());
        assert_eq!(run.stage, LoadStage::Ended);
    }
}

#[test]
fn a_load_fails_with_what_it_needs() {
    let (run, _) = start("http://a/1.jpg");
    let (run, _) = step(run, LoadEvent::Failed);
    let (_, action) = step(run.clone(), LoadEvent::Failed);
    assert!(finished(action).is_none());
    let (run, _) = step(run, LoadEvent::Status(299));
    let (_, action) = step(run.clone(), LoadEvent::Failed);
    assert!(finished(action).is_none());
    let (_, action) = step(run, LoadEvent::Bytes(b"no image".to_vec()));
    assert!(finished(action).is_none());
}

#[test]
fn without_a_cache_the_cover_is_fetched_and_not_stored() {
    let (run, action) = load_art::<&str>("http://a/1.jpg".to_string(), None, None);
    assert!(run.path.is_none());
    assert!(matches!(action, LoadAction::Get(_)));
    let (run, _) = load_next(run, LoadEvent::Status(200), 4, &keep);
    let (_, action) = load_next(run, LoadEvent::Bytes(cover(30, 30)), 4, &keep);
    assert_eq!(finished(action).unwrap().sharp.width, 30);
}
