//! What a player says of its current track.
use vstd::prelude::*;
use vstd::string::*;

use crate::names::texts;

verus! {

#[verifier::external_type_specification]
#[verifier::external_body]
pub struct ExMetadata(mpris::Metadata);

/// A metadata value, as far as the accessors tell values apart.
pub enum Entry {
    Text(Seq<char>),
    /// An array: the strings among its elements, in order.
    Texts(Seq<Seq<char>>),
    I16(i16),
    I32(i32),
    I64(i64),
    U8(u8),
    U16(u16),
    U32(u32),
    U64(u64),
    /// A value that none of the accessors reads.
    Other,
}

#[verifier::external_type_specification]
#[verifier::external_body]
pub struct ExMetadataValue(mpris::MetadataValue);

/// What a metadata value is.
pub uninterp spec fn value_entry(v: mpris::MetadataValue) -> Entry;

/// The keys of a player's metadata and the values that stand there.
pub uninterp spec fn metadata_entries(m: mpris::Metadata) -> Map<Seq<char>, Entry>;

/// The text at a key, where the value is a string.
pub open spec fn text_at(m: Map<Seq<char>, Entry>, key: Seq<char>) -> Option<Seq<char>> {
    if m.contains_key(key) {
        match m[key] {
            Entry::Text(t) => Some(t),
            _ => None,
        }
    } else {
        None
    }
}

/// The texts at a key: the strings of an array, or a lone string.
pub open spec fn texts_at(m: Map<Seq<char>, Entry>, key: Seq<char>) -> Option<Seq<Seq<char>>> {
    if m.contains_key(key) {
        match m[key] {
            Entry::Texts(ts) => Some(ts),
            Entry::Text(t) => Some(seq![t]),
            _ => None,
        }
    } else {
        None
    }
}

/// The signed number that a value is, where it fits 32 bits by its type.
pub open spec fn signed_number(e: Entry) -> Option<i32> {
    match e {
        Entry::I32(n) => Some(n),
        Entry::I16(n) => Some(n as i32),
        _ => None,
    }
}

/// The unsigned number that a value is, where it fits 32 bits by its type.
pub open spec fn unsigned_number(e: Entry) -> Option<u32> {
    match e {
        Entry::U32(n) => Some(n),
        Entry::U16(n) => Some(n as u32),
        Entry::U8(n) => Some(n as u32),
        _ => None,
    }
}

/// The signed number at a key.
pub open spec fn signed_at(m: Map<Seq<char>, Entry>, key: Seq<char>) -> Option<i32> {
    if m.contains_key(key) {
        signed_number(m[key])
    } else {
        None
    }
}

/// The unsigned number at a key.
pub open spec fn unsigned_at(m: Map<Seq<char>, Entry>, key: Seq<char>) -> Option<u32> {
    if m.contains_key(key) {
        unsigned_number(m[key])
    } else {
        None
    }
}

/// The duration at a key: a 64-bit number, a negative one read as unsigned.
pub open spec fn length_at(m: Map<Seq<char>, Entry>, key: Seq<char>) -> Option<u64> {
    if m.contains_key(key) {
        match m[key] {
            Entry::I64(n) => Some(
                if n < 0 {
                    (n + 0x1_0000_0000_0000_0000) as u64
                } else {
                    n as u64
                },
            ),
            Entry::U64(n) => Some(n),
            _ => None,
        }
    } else {
        None
    }
}

/// `mpris::Metadata::title` is the string at `xesam:title`.
pub assume_specification[ mpris::Metadata::title ](m: &mpris::Metadata) -> (r: Option<&str>)
    ensures
        match r {
            Some(t) => text_at(metadata_entries(*m), "xesam:title"@) == Some(t@),
            None => text_at(metadata_entries(*m), "xesam:title"@) is None,
        },
;

/// `mpris::Metadata::album_name` is the string at `xesam:album`.
pub assume_specification[ mpris::Metadata::album_name ](m: &mpris::Metadata) -> (r: Option<&str>)
    ensures
        match r {
            Some(t) => text_at(metadata_entries(*m), "xesam:album"@) == Some(t@),
            None => text_at(metadata_entries(*m), "xesam:album"@) is None,
        },
;

/// `mpris::Metadata::art_url` is the string at `mpris:artUrl`.
pub assume_specification[ mpris::Metadata::art_url ](m: &mpris::Metadata) -> (r: Option<&str>)
    ensures
        match r {
            Some(t) => text_at(metadata_entries(*m), "mpris:artUrl"@) == Some(t@),
            None => text_at(metadata_entries(*m), "mpris:artUrl"@) is None,
        },
;

/// `mpris::Metadata::artists` is the list of strings at `xesam:artist`; a lone
/// string counts as a list of one, and elements that are no strings are left
/// out.
pub assume_specification[ mpris::Metadata::artists ](m: &mpris::Metadata) -> (r: Option<Vec<&str>>)
    ensures
        match r {
            Some(ts) => texts_at(metadata_entries(*m), "xesam:artist"@) == Some(
                ts@.map_values(|t: &str| t@),
            ),
            None => texts_at(metadata_entries(*m), "xesam:artist"@) is None,
        },
;

/// `mpris::Metadata::length_in_microseconds` is the 64-bit number at
/// `mpris:length`, a signed one cast to unsigned.
pub assume_specification[ mpris::Metadata::length_in_microseconds ](m: &mpris::Metadata) -> (r:
    Option<u64>)
    ensures
        r == length_at(metadata_entries(*m), "mpris:length"@),
;

/// `mpris::Metadata::get` is the value at a key, where there is one.
pub assume_specification<'a, 'b>[ mpris::Metadata::get ](
    m: &'a mpris::Metadata,
    key: &'b str,
) -> (r: Option<&'a mpris::MetadataValue>)
    ensures
        match r {
            Some(v) => metadata_entries(*m).contains_key(key@) && metadata_entries(*m)[key@]
                == value_entry(*v),
            None => !metadata_entries(*m).contains_key(key@),
        },
;

/// `mpris::MetadataValue::as_i32` is the number that a value is, where it is a
/// signed one of at most 32 bits.
pub assume_specification[ mpris::MetadataValue::as_i32 ](v: &mpris::MetadataValue) -> (r: Option<
    i32,
>)
    ensures
        r == signed_number(value_entry(*v)),
;

/// `mpris::MetadataValue::as_u32` is the number that a value is, where it is an
/// unsigned one of at most 32 bits.
pub assume_specification[ mpris::MetadataValue::as_u32 ](v: &mpris::MetadataValue) -> (r: Option<
    u32,
>)
    ensures
        r == unsigned_number(value_entry(*v)),
;

/// `mpris::MetadataValue::as_str` is the text that a value is, where it is a
/// string.
pub assume_specification[ mpris::MetadataValue::as_str ](v: &mpris::MetadataValue) -> (r: Option<
    &str,
>)
    ensures
        match r {
            Some(t) => value_entry(*v) == Entry::Text(t@),
            None => !(value_entry(*v) is Text),
        },
;

/// What the applet reads of a track.
#[derive(Debug, Clone, PartialEq)]
pub struct Track {
    pub title: Option<String>,
    pub artists: Option<Vec<String>>,
    pub album: Option<String>,
    pub year: Option<u32>,
    pub art_url: Option<String>,
    pub length_us: Option<u64>,
}

pub struct TrackView {
    pub title: Option<Seq<char>>,
    pub artists: Option<Seq<Seq<char>>>,
    pub album: Option<Seq<char>>,
    pub year: Option<u32>,
    pub art_url: Option<Seq<char>>,
    pub length_us: Option<u64>,
}

/// The text of a string that may be missing.
pub open spec fn opt_text(s: Option<String>) -> Option<Seq<char>> {
    match s {
        Some(t) => Some(t@),
        None => None,
    }
}

impl View for Track {
    type V = TrackView;

    open spec fn view(&self) -> TrackView {
        TrackView {
            title: opt_text(self.title),
            artists: match self.artists {
                Some(a) => Some(texts(a@)),
                None => None,
            },
            album: opt_text(self.album),
            year: self.year,
            art_url: opt_text(self.art_url),
            length_us: self.length_us,
        }
    }
}

pub open spec fn is_digit(c: char) -> bool {
    '0' <= c && c <= '9'
}

pub open spec fn digit_value(c: char) -> int {
    c as int - 48
}

/// The year that a date text starts with: four digits, or a plus sign and
/// three.
pub open spec fn leading_year(s: Seq<char>) -> Option<u32> {
    if s.len() >= 4 && (is_digit(s[0]) || s[0] == '+') && is_digit(s[1]) && is_digit(s[2])
        && is_digit(s[3]) {
        let thousands = if s[0] == '+' {
            0
        } else {
            digit_value(s[0])
        };
        Some(
            (thousands * 1000 + digit_value(s[1]) * 100 + digit_value(s[2]) * 10 + digit_value(
                s[3],
            )) as u32,
        )
    } else {
        None
    }
}

/// The release year: a signed number taken as it lies in 32 bits, else an
/// unsigned one, else the year that the creation date starts with.
pub open spec fn year_of(
    signed: Option<i32>,
    unsigned: Option<u32>,
    created: Option<Seq<char>>,
) -> Option<u32> {
    match signed {
        Some(n) => Some(
            if n < 0 {
                (n + 0x1_0000_0000) as u32
            } else {
                n as u32
            },
        ),
        None => match unsigned {
            Some(n) => Some(n),
            None => match created {
                Some(s) => leading_year(s),
                None => None,
            },
        },
    }
}

/// What the applet reads of a player's metadata.
pub open spec fn track_of(m: Map<Seq<char>, Entry>) -> TrackView {
    TrackView {
        title: text_at(m, "xesam:title"@),
        artists: texts_at(m, "xesam:artist"@),
        album: text_at(m, "xesam:album"@),
        year: year_of(
            signed_at(m, "xesam:year"@),
            unsigned_at(m, "xesam:year"@),
            text_at(m, "xesam:contentCreated"@),
        ),
        art_url: text_at(m, "mpris:artUrl"@),
        length_us: length_at(m, "mpris:length"@),
    }
}

fn digit_of(c: char) -> (r: Option<u32>)
    ensures
        r == (if is_digit(c) {
            Some(digit_value(c) as u32)
        } else {
            None::<u32>
        }),
        r is Some ==> r->0 < 10,
{
    if '0' <= c && c <= '9' {
        Some(c as u32 - 48)
    } else {
        None
    }
}

/// Reads the year at the start of a date such as `1994-08-29`.
pub fn parse_year(s: &str) -> (r: Option<u32>)
    ensures
        r == leading_year(s@),
{
    if s.unicode_len() < 4 {
        return None;
    }
    let first = s.get_char(0);
    let thousands: Option<u32> = if first == '+' {
        Some(0)
    } else {
        digit_of(first)
    };
    let hundreds: Option<u32> = digit_of(s.get_char(1));
    let tens: Option<u32> = digit_of(s.get_char(2));
    let ones: Option<u32> = digit_of(s.get_char(3));
    match (thousands, hundreds, tens, ones) {
        (Some(a), Some(b), Some(c), Some(d)) => Some(a * 1000 + b * 100 + c * 10 + d),
        _ => None,
    }
}

/// Picks the release year out of the values that may give it.
pub fn release_year(
    signed: Option<i32>,
    unsigned: Option<u32>,
    created: Option<&str>,
) -> (r: Option<u32>)
    ensures
        r == year_of(
            signed,
            unsigned,
            match created {
                Some(s) => Some(s@),
                None => None,
            },
        ),
{
    match signed {
        Some(n) => {
            let year: u32 = n as u32;
            assert(n < 0 ==> n as u32 == n + 0x1_0000_0000) by (bit_vector);
            Some(year)
        },
        None => match unsigned {
            Some(n) => Some(n),
            None => match created {
                Some(s) => parse_year(s),
                None => None,
            },
        },
    }
}

fn owned(s: Option<&str>) -> (r: Option<String>)
    ensures
        match s {
            Some(t) => opt_text(r) == Some(t@),
            None => r is None,
        },
{
    match s {
        Some(t) => Some(t.to_owned()),
        None => None,
    }
}

fn owned_all(list: &Vec<&str>) -> (r: Vec<String>)
    ensures
        texts(r@) == list@.map_values(|t: &str| t@),
{
    let mut out: Vec<String> = Vec::new();
    let mut i: usize = 0;
    while i < list.len()
        invariant
            i <= list.len(),
            out.len() == i,
            forall|k: int| 0 <= k < i ==> out@[k]@ == list@[k]@,
        decreases list.len() - i,
    {
        out.push(list[i].to_owned());
        i = i + 1;
    }
    assert(texts(out@) =~= list@.map_values(|t: &str| t@));
    out
}

/// Reads a track out of the metadata that a player reports.
pub fn read_track(m: &mpris::Metadata) -> (r: Track)
    ensures
        r@ == track_of(metadata_entries(*m)),
{
    let artists = match m.artists() {
        Some(list) => Some(owned_all(&list)),
        None => None,
    };
    let (signed, unsigned) = match m.get("xesam:year") {
        Some(v) => (v.as_i32(), v.as_u32()),
        None => (None, None),
    };
    let created = match m.get("xesam:contentCreated") {
        Some(v) => v.as_str(),
        None => None,
    };
    Track {
        title: owned(m.title()),
        artists,
        album: owned(m.album_name()),
        year: release_year(signed, unsigned, created),
        art_url: owned(m.art_url()),
        length_us: m.length_in_microseconds(),
    }
}

/// A four-digit date prefix is the year, whatever follows it.
pub proof fn law_year_ignores_the_rest(s: Seq<char>, rest: Seq<char>)
    requires
        s.len() >= 4,
    ensures
        leading_year(s + rest) == leading_year(s),
        leading_year(s) is Some ==> leading_year(s)->0 <= 9999,
{
}

} // verus!
