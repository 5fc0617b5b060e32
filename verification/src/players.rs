//! The players on the session bus: which of them are kept between polls, how
//! one is found by its name, and what is displayed of it.
//!
//! Talking to the bus is left to the caller, who hands in the names on the bus
//! and what was read of a player.
use vstd::prelude::*;
use vstd::string::*;

use crate::metadata::{opt_text, Track, TrackView};
use crate::names::{sort_names, sorted_names, texts};
use crate::player::{
    first_where, lemma_is_first_where, lemma_not_first_where, PlaybackStatus, PlayerInfo,
    PlayerInfoView,
};
use crate::text::{after_prefix, join, joined, same_text, strip_prefix};

verus! {

/// Proxy meta-player mirroring whichever player is active. Its metadata is
/// briefly empty between hand-offs and blanks the panel, so it's always skipped.
pub const PLAYERCTLD: &'static str = "playerctld";

/// D-Bus well-known name prefix every MPRIS player advertises.
pub const MPRIS_PREFIX: &'static str = "org.mpris.MediaPlayer2.";

/// Transport capabilities; kept per player since they change rarely and each
/// field is a round trip of its own.
#[derive(Debug, Clone, Copy, PartialEq, Eq, Structural)]
pub struct Caps {
    pub next: bool,
    pub prev: bool,
    pub pause: bool,
    pub play: bool,
    pub seek: bool,
}

/// What came back of reading the capabilities; nothing where a read failed.
#[derive(Debug, Clone, Copy, PartialEq, Eq, Structural)]
pub struct CapsReading {
    pub next: Option<bool>,
    pub prev: Option<bool>,
    pub pause: Option<bool>,
    pub play: Option<bool>,
    pub seek: Option<bool>,
}

/// A player that a search of the bus found, by its name without the prefix.
#[derive(Debug, Clone, PartialEq)]
pub struct FoundPlayer {
    pub bus_name: String,
    pub identity: String,
}

pub struct FoundView {
    pub bus_name: Seq<char>,
    pub identity: Seq<char>,
}

impl View for FoundPlayer {
    type V = FoundView;

    open spec fn view(&self) -> FoundView {
        FoundView { bus_name: self.bus_name@, identity: self.identity@ }
    }
}

/// A player that is kept, with its place in the search that found it.
#[derive(Debug, Clone, PartialEq)]
pub struct KnownPlayer {
    pub bus_name: String,
    pub identity: String,
    pub handle: usize,
}

pub struct KnownView {
    pub bus_name: Seq<char>,
    pub identity: Seq<char>,
    pub handle: usize,
}

impl View for KnownPlayer {
    type V = KnownView;

    open spec fn view(&self) -> KnownView {
        KnownView { bus_name: self.bus_name@, identity: self.identity@, handle: self.handle }
    }
}

pub open spec fn found_views(v: Seq<FoundPlayer>) -> Seq<FoundView> {
    v.map_values(|p: FoundPlayer| p@)
}

pub open spec fn known_views(v: Seq<KnownPlayer>) -> Seq<KnownView> {
    v.map_values(|p: KnownPlayer| p@)
}

/// What is known of the bus between polls.
#[derive(Debug, Clone, PartialEq)]
pub struct Cache {
    pub players: Vec<KnownPlayer>,
    pub bus_set: Vec<String>,
    pub caps: Option<(String, Caps)>,
}

pub struct CacheView {
    pub players: Seq<KnownView>,
    pub bus_set: Seq<Seq<char>>,
    pub caps: Option<(Seq<char>, Caps)>,
}

pub open spec fn memo_view(m: Option<(String, Caps)>) -> Option<(Seq<char>, Caps)> {
    match m {
        Some((name, caps)) => Some((name@, caps)),
        None => None,
    }
}

impl View for Cache {
    type V = CacheView;

    open spec fn view(&self) -> CacheView {
        CacheView {
            players: known_views(self.players@),
            bus_set: texts(self.bus_set@),
            caps: memo_view(self.caps),
        }
    }
}

pub open spec fn slot_view(slot: Option<Cache>) -> Option<CacheView> {
    match slot {
        Some(c) => Some(c@),
        None => None,
    }
}

/// The names of a list of players.
pub open spec fn bus_names(players: Seq<KnownView>) -> Seq<Seq<char>> {
    players.map_values(|p: KnownView| p.bus_name)
}

/// The cache of a fresh connection.
pub open spec fn fresh_cache() -> CacheView {
    CacheView { players: Seq::empty(), bus_set: Seq::empty(), caps: None }
}

/// What a cache always says: its set of names is that of its players, in
/// order, and the proxy player is not among them.
pub open spec fn cache_wf(c: CacheView) -> bool {
    &&& c.bus_set == sorted_names(bus_names(c.players))
    &&& forall|i: int| 0 <= i < c.players.len() ==> (#[trigger] c.players[i]).bus_name
        != PLAYERCTLD@
}

/// Of the names on the bus, a live player's without the prefix.
pub open spec fn live_name(name: Seq<char>) -> Option<Seq<char>> {
    match after_prefix(name, MPRIS_PREFIX@) {
        Some(rest) => if rest != PLAYERCTLD@ {
            Some(rest)
        } else {
            None
        },
        None => None,
    }
}

/// The live players' names among those on the bus, in order.
pub open spec fn live_set(names: Seq<Seq<char>>) -> Seq<Seq<char>> {
    sorted_names(names.filter_map(|n: Seq<char>| live_name(n)))
}

/// The players to keep of those found: all but the proxy.
pub open spec fn kept(found: Seq<FoundView>) -> Seq<KnownView>
    decreases found.len(),
{
    if found.len() == 0 {
        Seq::empty()
    } else {
        let p = found.last();
        let before = kept(found.drop_last());
        if p.bus_name != PLAYERCTLD@ {
            before.push(
                KnownView {
                    bus_name: p.bus_name,
                    identity: p.identity,
                    handle: (found.len() - 1) as usize,
                },
            )
        } else {
            before
        }
    }
}

/// A cache after a search of the bus.
pub open spec fn refreshed(c: CacheView, found: Seq<FoundView>) -> CacheView {
    CacheView {
        players: kept(found),
        bus_set: sorted_names(bus_names(kept(found))),
        caps: c.caps,
    }
}

pub open spec fn named(name: Seq<char>) -> spec_fn(KnownView) -> bool {
    |p: KnownView| p.bus_name == name
}

/// Where a player of that name stands.
pub open spec fn position_of(players: Seq<KnownView>, name: Seq<char>) -> Option<int> {
    first_where(players, named(name))
}

/// Enumerates live players (trimmed, sorted, the proxy excluded) from the names
/// on the bus.
pub fn mpris_bus_set(names: &Vec<String>) -> (r: Vec<String>)
    ensures
        texts(r@) == live_set(texts(names@)),
{
    let ghost all = texts(names@);
    let ghost f = |n: Seq<char>| live_name(n);
    let mut set: Vec<String> = Vec::new();
    let mut i: usize = 0;
    assert(all.take(0) =~= Seq::<Seq<char>>::empty());
    assert(texts(set@) =~= Seq::<Seq<char>>::empty());
    assert(all.take(0).filter_map(f) =~= Seq::<Seq<char>>::empty());
    while i < names.len()
        invariant
            i <= names.len(),
            all == texts(names@),
            f == |n: Seq<char>| live_name(n),
            texts(set@) == all.take(i as int).filter_map(f),
        decreases names.len() - i,
    {
        let ghost before = texts(set@);
        proof {
            all.lemma_filter_map_take_succ(f, i as int);
        }
        assert(names@[i as int]@ == all[i as int]);
        match strip_prefix(names[i].as_str(), MPRIS_PREFIX) {
            Some(rest) => {
                if !same_text(rest, PLAYERCTLD) {
                    set.push(rest.to_owned());
                    assert(texts(set@) =~= before.push(rest@));
                    assert(f(all[i as int]) == Some(rest@));
                }
            },
            None => {},
        }
        assert(texts(set@) =~= all.take(i + 1).filter_map(f));
        i = i + 1;
    }
    assert(all.take(i as int) =~= all);
    sort_names(set)
}

/// The sorted names of the players, to compare against a fresh enumeration.
pub fn sorted_trimmed(players: &Vec<KnownPlayer>) -> (r: Vec<String>)
    ensures
        texts(r@) == sorted_names(bus_names(known_views(players@))),
{
    let mut out: Vec<String> = Vec::new();
    let mut i: usize = 0;
    while i < players.len()
        invariant
            i <= players.len(),
            out.len() == i,
            forall|k: int| 0 <= k < i ==> out@[k]@ == players@[k].bus_name@,
        decreases players.len() - i,
    {
        out.push(players[i].bus_name.clone());
        i = i + 1;
    }
    assert(texts(out@) =~= bus_names(known_views(players@)));
    sort_names(out)
}

fn keep_players(found: &Vec<FoundPlayer>) -> (r: Vec<KnownPlayer>)
    ensures
        known_views(r@) == kept(found_views(found@)),
{
    let ghost all = found_views(found@);
    let mut out: Vec<KnownPlayer> = Vec::new();
    let mut i: usize = 0;
    assert(all.take(0) =~= Seq::<FoundView>::empty());
    assert(known_views(out@) =~= Seq::<KnownView>::empty());
    while i < found.len()
        invariant
            i <= found.len(),
            all == found_views(found@),
            known_views(out@) == kept(all.take(i as int)),
        decreases found.len() - i,
    {
        let ghost before = known_views(out@);
        let p = &found[i];
        proof {
            assert(all.take(i + 1).drop_last() =~= all.take(i as int));
            assert(all.take(i + 1).last() == p@);
        }
        if !same_text(p.bus_name.as_str(), PLAYERCTLD) {
            let known = KnownPlayer {
                bus_name: p.bus_name.clone(),
                identity: p.identity.clone(),
                handle: i,
            };
            let ghost k = known@;
            out.push(known);
            assert(known_views(out@) =~= before.push(k));
        }
        i = i + 1;
    }
    assert(all.take(i as int) =~= all);
    out
}

pub(crate) fn refresh(cache: &mut Cache, found: &Vec<FoundPlayer>)
    ensures
        final(cache)@ == refreshed(old(cache)@, found_views(found@)),
{
    let players = keep_players(found);
    let bus_set = sorted_trimmed(&players);
    cache.players = players;
    cache.bus_set = bus_set;
}

pub(crate) fn find_player(players: &Vec<KnownPlayer>, name: &str) -> (r: Option<usize>)
    ensures
        match r {
            Some(i) => position_of(known_views(players@), name@) == Some(i as int) && i
                < players.len(),
            None => position_of(known_views(players@), name@) is None,
        },
{
    let ghost all = known_views(players@);
    let mut i: usize = 0;
    while i < players.len()
        invariant
            i <= players.len(),
            all == known_views(players@),
            forall|k: int| 0 <= k < i ==> !named(name@)(#[trigger] all[k]),
        decreases players.len() - i,
    {
        assert(all[i as int] == players@[i as int]@);
        if same_text(players[i].bus_name.as_str(), name) {
            proof {
                lemma_is_first_where(all, named(name@), i as int);
            }
            return Some(i);
        }
        i = i + 1;
    }
    proof {
        lemma_not_first_where(all, named(name@));
    }
    None
}

/// What came back of one player's summary; nothing where a read failed.
#[derive(Debug, Clone, PartialEq)]
pub struct SummaryReading {
    pub status: Option<PlaybackStatus>,
    pub title: Option<String>,
}

pub struct SummaryReadingView {
    pub status: Option<PlaybackStatus>,
    pub title: Option<Seq<char>>,
}

impl View for SummaryReading {
    type V = SummaryReadingView;

    open spec fn view(&self) -> SummaryReadingView {
        SummaryReadingView { status: self.status, title: opt_text(self.title) }
    }
}

/// What came back of the chosen player; nothing where a read failed.
#[derive(Debug, Clone, PartialEq)]
pub struct PlayerReading {
    pub track: Option<Track>,
    pub status: Option<PlaybackStatus>,
    pub position_us: Option<u64>,
    pub caps: CapsReading,
}

pub struct PlayerReadingView {
    pub track: Option<TrackView>,
    pub status: Option<PlaybackStatus>,
    pub position_us: Option<u64>,
    pub caps: CapsReading,
}

impl View for PlayerReading {
    type V = PlayerReadingView;

    open spec fn view(&self) -> PlayerReadingView {
        PlayerReadingView {
            track: match self.track {
                Some(t) => Some(t@),
                None => None,
            },
            status: self.status,
            position_us: self.position_us,
            caps: self.caps,
        }
    }
}

pub open spec fn or_default<T>(v: Option<T>, default: T) -> T {
    match v {
        Some(x) => x,
        None => default,
    }
}

/// Capabilities as read; one that could not be read is missing.
pub open spec fn caps_read(r: CapsReading) -> Caps {
    Caps {
        next: or_default(r.next, false),
        prev: or_default(r.prev, false),
        pause: or_default(r.pause, false),
        play: or_default(r.play, false),
        seek: or_default(r.seek, false),
    }
}

pub open spec fn no_caps() -> Caps {
    Caps { next: false, prev: false, pause: false, play: false, seek: false }
}

/// Whether the capabilities of a player are remembered.
pub open spec fn remembers(memo: Option<(Seq<char>, Caps)>, name: Seq<char>) -> bool {
    memo matches Some((known, _)) && known == name
}

/// A player's capabilities: the remembered ones, else those just read.
pub open spec fn caps_of(
    name: Seq<char>,
    reading: CapsReading,
    memo: Option<(Seq<char>, Caps)>,
) -> Caps {
    match memo {
        Some((known, caps)) => if known == name {
            caps
        } else {
            caps_read(reading)
        },
        None => caps_read(reading),
    }
}

/// What is displayed of a player, from what was read of it.
pub open spec fn info_of(
    name: Seq<char>,
    reading: PlayerReadingView,
    status: Option<PlaybackStatus>,
    popup_open: bool,
    memo: Option<(Seq<char>, Caps)>,
) -> PlayerInfoView {
    let caps = if popup_open {
        caps_of(name, reading.caps, memo)
    } else {
        no_caps()
    };
    let no_track = TrackView {
        title: None,
        artists: None,
        album: None,
        year: None,
        art_url: None,
        length_us: None,
    };
    let track = or_default(reading.track, no_track);
    PlayerInfoView {
        title: or_default(track.title, "Unknown"@),
        artist: joined(or_default(track.artists, Seq::empty()), ", "@),
        album: or_default(track.album, Seq::empty()),
        year: track.year,
        status: or_default(status, or_default(reading.status, PlaybackStatus::Stopped)),
        art_url: track.art_url,
        bus_name: name,
        position_us: if popup_open {
            or_default(reading.position_us, 0)
        } else {
            0
        },
        length_us: or_default(track.length_us, 0),
        can_go_next: caps.next,
        can_go_previous: caps.prev,
        can_pause: caps.pause,
        can_play: caps.play,
        can_seek: caps.seek,
    }
}

/// The capabilities of a player; those of the last one asked for are remembered
/// until another is.
pub fn caps_for(
    bus_name: &str,
    reading: CapsReading,
    memo: &mut Option<(String, Caps)>,
) -> (r: Caps)
    ensures
        r == caps_of(bus_name@, reading, memo_view(*old(memo))),
        memo_view(*final(memo)) == Some((bus_name@, r)),
{
    match memo {
        Some((name, caps)) => {
            if same_text(name.as_str(), bus_name) {
                return *caps;
            }
        },
        None => {},
    }
    let caps = Caps {
        next: reading.next.unwrap_or(false),
        prev: reading.prev.unwrap_or(false),
        pause: reading.pause.unwrap_or(false),
        play: reading.play.unwrap_or(false),
        seek: reading.seek.unwrap_or(false),
    };
    *memo = Some((bus_name.to_owned(), caps));
    caps
}

fn text_or(s: Option<String>, default: &str) -> (r: String)
    ensures
        r@ == or_default(opt_text(s), default@),
{
    match s {
        Some(t) => t,
        None => default.to_owned(),
    }
}

/// What to display of a player. `status` is a value already read this poll;
/// `popup_open` gates position and capabilities, which only the popup shows.
pub fn player_info(
    bus_name: &str,
    reading: PlayerReading,
    status: Option<PlaybackStatus>,
    popup_open: bool,
    caps_memo: &mut Option<(String, Caps)>,
) -> (r: PlayerInfo)
    ensures
        r@ == info_of(bus_name@, reading@, status, popup_open, memo_view(*old(caps_memo))),
        popup_open ==> memo_view(*final(caps_memo)) == Some(
            (bus_name@, caps_of(bus_name@, reading.caps, memo_view(*old(caps_memo)))),
        ),
        !popup_open ==> *final(caps_memo) == *old(caps_memo),
{
    let track = match reading.track {
        Some(t) => t,
        None => Track {
            title: None,
            artists: None,
            album: None,
            year: None,
            art_url: None,
            length_us: None,
        },
    };
    let status = match status {
        Some(s) => s,
        None => reading.status.unwrap_or(PlaybackStatus::Stopped),
    };
    let artist = match &track.artists {
        Some(list) => join(list, ", "),
        None => String::new(),
    };
    let caps = if popup_open {
        caps_for(bus_name, reading.caps, caps_memo)
    } else {
        Caps { next: false, prev: false, pause: false, play: false, seek: false }
    };
    let position_us: u64 = if popup_open {
        reading.position_us.unwrap_or(0)
    } else {
        0
    };
    proof {
        reveal_strlit("");
    }
    let album = text_or(track.album, "");
    assert("".view() =~= Seq::<char>::empty());
    PlayerInfo {
        title: text_or(track.title, "Unknown"),
        artist,
        album,
        year: track.year,
        status,
        art_url: track.art_url,
        bus_name: bus_name.to_owned(),
        position_us,
        length_us: track.length_us.unwrap_or(0),
        can_go_next: caps.next,
        can_go_previous: caps.prev,
        can_pause: caps.pause,
        can_play: caps.play,
        can_seek: caps.seek,
    }
}

} // verus!
