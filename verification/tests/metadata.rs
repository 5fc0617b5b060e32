use std::collections::HashMap;

use mpris::{Metadata, MetadataValue};
use on_blast::metadata::{parse_year, read_track, release_year};

fn metadata(entries: Vec<(&str, MetadataValue)>) -> Metadata {
    let mut map: HashMap<String, MetadataValue> = HashMap::new();
    for (key, value) in entries {
        map.insert(key.to_string(), value);
    }
    Metadata::from(map)
}

fn text(s: &str) -> MetadataValue {
    MetadataValue::String(s.to_string())
}

#[test]
fn a_track_is_read_whole() {
    let track = read_track(&metadata(vec![
        ("xesam:title", text("Song")),
        ("xesam:artist", MetadataValue::Array(vec![text("A"), MetadataValue::I32(1), text("B")])),
        ("xesam:album", text("Album")),
        ("xesam:year", MetadataValue::I32(1994)),
        ("mpris:artUrl", text("http://a/1.jpg")),
        ("mpris:length", MetadataValue::I64(65_000_000)),
    ]));
    assert_eq!(track.title.as_deref(), Some("Song"));
    assert_eq!(track.artists, Some(vec!["A".to_string(), "B".to_string()]));
    assert_eq!(track.album.as_deref(), Some("Album"));
    assert_eq!(track.year, Some(1994));
    assert_eq!(track.art_url.as_deref(), Some("http://a/1.jpg"));
    assert_eq!(track.length_us, Some(65_000_000));
}

#[test]
fn nothing_is_read_of_empty_metadata() {
    let track = read_track(&metadata(vec![]));
    assert_eq!(track.title, None);
    assert_eq!(track.artists, None);
    assert_eq!(track.album, None);
    assert_eq!(track.year, None);
    assert_eq!(track.art_url, None);
    assert_eq!(track.length_us, None);
}

#[test]
fn values_of_other_types_are_not_read() {
    let track = read_track(&metadata(vec![
        ("xesam:title", MetadataValue::I32(1)),
        ("xesam:artist", MetadataValue::Bool(true)),
        ("xesam:album", MetadataValue::Array(vec![text("Album")])),
        ("xesam:year", MetadataValue::I64(1994)),
        ("mpris:artUrl", MetadataValue::U8(1)),
        ("mpris:length", MetadataValue::I32(5)),
    ]));
    assert_eq!(track.title, None);
    assert_eq!(track.artists, None);
    assert_eq!(track.album, None);
    assert_eq!(track.year, None);
    assert_eq!(track.art_url, None);
    assert_eq!(track.length_us, None);
}

#[test]
fn a_lone_artist_counts_as_a_list() {
    let track = read_track(&metadata(vec![("xesam:artist", text("Solo"))]));
    assert_eq!(track.artists, Some(vec!["Solo".to_string()]));
}

#[test]
fn a_length_is_sixty_four_bits() {
    let unsigned = read_track(&metadata(vec![("mpris:length", MetadataValue::U64(u64::MAX))]));
    assert_eq!(unsigned.length_us, Some(u64::MAX));
    let negative = read_track(&metadata(vec![("mpris:length", MetadataValue::I64(-1))]));
    assert_eq!(negative.length_us, Some(u64::MAX));
}

#[test]
fn a_year_comes_from_a_number_first() {
    for value in [
        MetadataValue::I32(1994),
        MetadataValue::I16(1994),
        MetadataValue::U32(1994),
        MetadataValue::U16(1994),
    ] {
        let track = read_track(&metadata(vec![
            ("xesam:year", value),
            ("xesam:contentCreated", text("2001-01-01")),
        ]));
        assert_eq!(track.year, Some(1994));
    }
    let small = read_track(&metadata(vec![("xesam:year", MetadataValue::U8(94))]));
    assert_eq!(small.year, Some(94));
}

#[test]
fn a_year_comes_from_the_creation_date_else() {
    let track = read_track(&metadata(vec![
        ("xesam:year", text("1994")),
        ("xesam:contentCreated", text("2001-01-01T00:00:00Z")),
    ]));
    assert_eq!(track.year, Some(2001));
}

#[test]
fn a_negative_year_is_taken_as_its_bits() {
    assert_eq!(release_year(Some(-1), Some(5), Some("2001")), Some(u32::MAX));
    assert_eq!(release_year(None, Some(5), Some("2001")), Some(5));
    assert_eq!(release_year(None, None, Some("2001")), Some(2001));
    assert_eq!(release_year(None, None, None), None);
}

#[test]
fn a_year_ends_after_four_characters() {
    assert_eq!(parse_year("1994"), Some(1994));
    assert_eq!(parse_year("1994-08-29"), Some(1994));
    assert_eq!(parse_year("19945"), Some(1994));
    assert_eq!(parse_year("0042x"), Some(42));
    assert_eq!(parse_year("+123"), Some(123));
    assert_eq!(parse_year("-123"), None);
    assert_eq!(parse_year("++12"), None);
    assert_eq!(parse_year("199"), None);
    assert_eq!(parse_year("19é4"), None);
    assert_eq!(parse_year(""), None);
}
