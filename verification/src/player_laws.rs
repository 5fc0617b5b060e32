//! What is known and displayed of players.
use vstd::prelude::*;

use crate::metadata::Track;
use crate::names::lemma_sorted_names;
use crate::player::{
    active_index, has_track, lemma_first_where, paused, playing, PlaybackStatus, PlayerInfo,
    PlayerSummary, Poll, SummaryView,
};
use crate::players::{
    bus_names, caps_of, info_of, kept, live_name, live_set, named, position_of, refreshed, Cache,
    CacheView, Caps, CapsReading, FoundPlayer, FoundView, KnownPlayer, KnownView, PlayerReading,
    PlayerReadingView, SummaryReading,
};
use crate::text::joined;
use crate::text_laws::law_prefix_and_rest_make_the_text;

verus! {

/// How likely a player is the active one: playing before paused before having a
/// track before none of these.
pub open spec fn rank(status: PlaybackStatus, title: Seq<char>) -> int {
    match status {
        PlaybackStatus::Playing => 3,
        PlaybackStatus::Paused => 2,
        PlaybackStatus::Stopped => if title.len() > 0 {
            1
        } else {
            0
        },
    }
}

/// The picked player has the highest rank, and is the first that has it.
pub proof fn law_pick_is_the_first_of_the_highest_rank(players: Seq<SummaryView>, k: int)
    requires
        0 <= k < players.len(),
    ensures
        active_index(players) matches Some(i) && 0 <= i < players.len() && {
            let chosen = rank(players[i].status, players[i].title);
            let other = rank(players[k].status, players[k].title);
            &&& other <= chosen
            &&& k < i ==> other < chosen
        },
{
    lemma_first_where(players, playing());
    lemma_first_where(players, paused());
    lemma_first_where(players, has_track());
    let s = players[k];
    assert(playing()(s) == (s.status == PlaybackStatus::Playing));
    assert(paused()(s) == (s.status == PlaybackStatus::Paused));
    assert(has_track()(s) == (s.title.len() > 0));
    let c = players[active_index(players)->0];
    assert(playing()(c) == (c.status == PlaybackStatus::Playing));
    assert(paused()(c) == (c.status == PlaybackStatus::Paused));
    assert(has_track()(c) == (c.title.len() > 0));
}

/// What is displayed of a player is what its track says of each part: the title,
/// or a word for an unknown one; the artists in a row; the album; the year; the
/// cover; the length.
pub proof fn law_displayed_track_is_the_one_read(
    name: Seq<char>,
    reading: PlayerReadingView,
    status: Option<PlaybackStatus>,
    popup_open: bool,
    memo: Option<(Seq<char>, Caps)>,
)
    ensures
        ({
            let info = info_of(name, reading, status, popup_open, memo);
            &&& info.bus_name == name
            &&& match reading.track {
                Some(t) => {
                    &&& t.title matches Some(title) ==> info.title == title
                    &&& t.title is None ==> info.title == "Unknown"@
                    &&& t.artists matches Some(artists) ==> info.artist == joined(artists, ", "@)
                    &&& t.artists is None ==> info.artist.len() == 0
                    &&& t.album matches Some(album) ==> info.album == album
                    &&& t.album is None ==> info.album.len() == 0
                    &&& info.year == t.year
                    &&& info.art_url == t.art_url
                    &&& t.length_us matches Some(length) ==> info.length_us == length
                    &&& t.length_us is None ==> info.length_us == 0
                },
                None => {
                    &&& info.title == "Unknown"@
                    &&& info.artist.len() == 0
                    &&& info.album.len() == 0
                    &&& info.year is None
                    &&& info.art_url is None
                    &&& info.length_us == 0
                },
            }
        }),
{
}

/// A status already read counts before one read with the player, and a player
/// whose status cannot be read is stopped.
pub proof fn law_displayed_status_is_the_one_read(
    name: Seq<char>,
    reading: PlayerReadingView,
    status: Option<PlaybackStatus>,
    popup_open: bool,
    memo: Option<(Seq<char>, Caps)>,
)
    ensures
        ({
            let shown = info_of(name, reading, status, popup_open, memo).status;
            &&& status matches Some(s) ==> shown == s
            &&& status is None ==> match reading.status {
                Some(s) => shown == s,
                None => shown == PlaybackStatus::Stopped,
            }
        }),
{
}

/// Position and capabilities are shown with the popup open, as they were read,
/// and neither without it. What could not be read is missing.
pub proof fn law_popup_extras_are_those_read(
    name: Seq<char>,
    reading: PlayerReadingView,
    status: Option<PlaybackStatus>,
    popup_open: bool,
    memo: Option<(Seq<char>, Caps)>,
)
    requires
        memo matches Some((known, _)) ==> known != name,
    ensures
        ({
            let info = info_of(name, reading, status, popup_open, memo);
            if popup_open {
                &&& reading.position_us matches Some(pos) ==> info.position_us == pos
                &&& reading.position_us is None ==> info.position_us == 0
                &&& info.can_go_next <==> reading.caps.next == Some(true)
                &&& info.can_go_previous <==> reading.caps.prev == Some(true)
                &&& info.can_pause <==> reading.caps.pause == Some(true)
                &&& info.can_play <==> reading.caps.play == Some(true)
                &&& info.can_seek <==> reading.caps.seek == Some(true)
            } else {
                &&& info.position_us == 0
                &&& !info.can_go_next && !info.can_go_previous && !info.can_pause
                &&& !info.can_play && !info.can_seek
            }
        }),
{
}

/// Capabilities that are remembered of a player are shown, whatever else was
/// read, and the position is the one read all the same.
pub proof fn law_remembered_caps_are_shown(
    name: Seq<char>,
    reading: PlayerReadingView,
    status: Option<PlaybackStatus>,
    caps: Caps,
)
    ensures
        ({
            let info = info_of(name, reading, status, true, Some((name, caps)));
            &&& info.can_go_next == caps.next
            &&& info.can_go_previous == caps.prev
            &&& info.can_pause == caps.pause
            &&& info.can_play == caps.play
            &&& info.can_seek == caps.seek
            &&& reading.position_us matches Some(pos) ==> info.position_us == pos
        }),
        caps_of(
            name,
            CapsReading { next: None, prev: None, pause: None, play: None, seek: None },
            Some((name, caps)),
        ) == caps,
{
}

/// What is remembered of one player is not taken for another's.
pub proof fn law_memory_of_another_player_does_not_count(
    name: Seq<char>,
    reading: CapsReading,
    memo: Option<(Seq<char>, Caps)>,
)
    requires
        memo matches Some((known, _)) ==> known != name,
    ensures
        ({
            let caps = caps_of(name, reading, memo);
            &&& caps.next <==> reading.next == Some(true)
            &&& caps.prev <==> reading.prev == Some(true)
            &&& caps.pause <==> reading.pause == Some(true)
            &&& caps.play <==> reading.play == Some(true)
            &&& caps.seek <==> reading.seek == Some(true)
        }),
{
}

/// A live player is one whose name stands on the bus behind the prefix that all
/// players have, and that is not the proxy.
pub proof fn law_live_players_are_those_on_the_bus(names: Seq<Seq<char>>, name: Seq<char>)
    ensures
        live_set(names).contains(name) <==> names.contains("org.mpris.MediaPlayer2."@ + name)
            && name != "playerctld"@,
{
    let f = |n: Seq<char>| live_name(n);
    let full = "org.mpris.MediaPlayer2."@ + name;
    let live = names.filter_map(f);
    lemma_sorted_names(live);
    lemma_filter_map_contains(names, f, name);
    assert(live_set(names).contains(name) <==> live.contains(name)) by {
        let sorted = live_set(names);
        broadcast use vstd::seq_lib::group_to_multiset_ensures;

        assert(sorted.contains(name) <==> sorted.to_multiset().count(name) > 0);
        assert(live.contains(name) <==> live.to_multiset().count(name) > 0);
    }
    law_prefix_and_rest_make_the_text(full, "org.mpris.MediaPlayer2."@, name);
    if names.contains(full) && name != "playerctld"@ {
        let i = choose|i: int| 0 <= i < names.len() && names[i] == full;
        assert(f(names[i]) == Some(name));
    }
    if live.contains(name) {
        let i = choose|i: int| 0 <= i < names.len() && f(#[trigger] names[i]) == Some(name);
        law_prefix_and_rest_make_the_text(names[i], "org.mpris.MediaPlayer2."@, name);
        assert(names[i] == full);
    }
}

proof fn lemma_filter_map_contains(
    names: Seq<Seq<char>>,
    f: spec_fn(Seq<char>) -> Option<Seq<char>>,
    name: Seq<char>,
)
    ensures
        names.filter_map(f).contains(name) <==> exists|i: int|
            0 <= i < names.len() && f(#[trigger] names[i]) == Some(name),
    decreases names.len(),
{
    if names.len() > 0 {
        let head = names.drop_last();
        let n = names.len() - 1;
        lemma_filter_map_contains(head, f, name);
        names.lemma_filter_map_take_succ(f, n);
        assert(names.take(n) =~= head);
        assert(names.take(n + 1) =~= names);
        let before = head.filter_map(f);
        let after = names.filter_map(f);
        if before.contains(name) {
            let k = choose|k: int| 0 <= k < before.len() && before[k] == name;
            assert(after[k] == name);
            let i = choose|i: int| 0 <= i < head.len() && f(#[trigger] head[i]) == Some(name);
            assert(names[i] == head[i]);
        }
        if f(names.last()) == Some(name) {
            assert(after.last() == name);
            assert(names[n] == names.last());
        }
        if after.contains(name) && !before.contains(name) {
            let k = choose|k: int| 0 <= k < after.len() && after[k] == name;
            if k < before.len() {
                assert(before[k] == name);
            }
            assert(f(names[n]) == Some(name));
        }
        if exists|i: int| 0 <= i < names.len() && f(#[trigger] names[i]) == Some(name) {
            let i = choose|i: int| 0 <= i < names.len() && f(#[trigger] names[i]) == Some(name);
            if i < n {
                assert(head[i] == names[i]);
            }
        }
    } else {
        assert(names.filter_map(f) =~= Seq::<Seq<char>>::empty());
    }
}

/// A player is found by its name alone, and of several the first.
pub proof fn law_player_is_found_by_name(players: Seq<KnownView>, name: Seq<char>, k: int)
    requires
        0 <= k < players.len(),
        players[k].bus_name == name,
    ensures
        position_of(players, name) matches Some(i) && 0 <= i <= k && players[i].bus_name == name
            && forall|j: int| 0 <= j < i ==> (#[trigger] players[j]).bus_name != name,
{
    lemma_first_where(players, named(name));
    assert(named(name)(players[k]));
    let i = position_of(players, name)->0;
    assert(named(name)(players[i]));
    assert forall|j: int| 0 <= j < i implies (#[trigger] players[j]).bus_name != name by {
        assert(!named(name)(players[j]));
    }
}

/// After a search the set of names is that of the players found, but for the
/// proxy, and remembered capabilities stay.
pub proof fn law_search_renews_the_players(c: CacheView, found: Seq<FoundView>)
    ensures
        refreshed(c, found).players == kept(found),
        refreshed(c, found).bus_set.to_multiset() == bus_names(kept(found)).to_multiset(),
        refreshed(c, found).caps == c.caps,
{
    lemma_sorted_names(bus_names(kept(found)));
}

/// What the records say of their fields, part by part.
pub proof fn law_records_hide_nothing(
    info: PlayerInfo,
    summary: PlayerSummary,
    track: Track,
    reading: PlayerReading,
    brief: SummaryReading,
    found: FoundPlayer,
    known: KnownPlayer,
)
    ensures
        info@.title == info.title@ && info@.artist == info.artist@ && info@.album == info.album@,
        info@.year == info.year && info@.status == info.status && info@.art_url is Some
            == info.art_url is Some,
        info.art_url matches Some(url) ==> info@.art_url == Some(url@),
        info@.bus_name == info.bus_name@ && info@.position_us == info.position_us,
        info@.length_us == info.length_us && info@.can_go_next == info.can_go_next,
        info@.can_go_previous == info.can_go_previous && info@.can_pause == info.can_pause,
        info@.can_play == info.can_play && info@.can_seek == info.can_seek,
        summary@.bus_name == summary.bus_name@ && summary@.identity == summary.identity@,
        summary@.status == summary.status && summary@.title == summary.title@,
        track.title matches Some(t) ==> track@.title == Some(t@),
        track.title is None ==> track@.title is None,
        track.artists matches Some(list) ==> track@.artists == Some(
            list@.map_values(|t: String| t@),
        ),
        track.artists is None ==> track@.artists is None,
        track.album matches Some(t) ==> track@.album == Some(t@),
        track.album is None ==> track@.album is None,
        track.art_url matches Some(t) ==> track@.art_url == Some(t@),
        track.art_url is None ==> track@.art_url is None,
        track@.year == track.year && track@.length_us == track.length_us,
        reading.track matches Some(t) ==> reading@.track == Some(t@),
        reading.track is None ==> reading@.track is None,
        reading@.status == reading.status && reading@.position_us == reading.position_us,
        reading@.caps == reading.caps,
        brief@.status == brief.status,
        brief.title matches Some(t) ==> brief@.title == Some(t@),
        brief.title is None ==> brief@.title is None,
        found@.bus_name == found.bus_name@ && found@.identity == found.identity@,
        known@.bus_name == known.bus_name@ && known@.identity == known.identity@,
        known@.handle == known.handle,
{
}

/// A poll and a cache show all they hold, in order.
pub proof fn law_lists_hide_nothing(poll: Poll, cache: Cache, i: int)
    ensures
        poll@.players.len() == poll.players@.len(),
        0 <= i < poll.players@.len() ==> poll@.players[i] == poll.players@[i]@,
        poll.player matches Some(info) ==> poll@.player == Some(info@),
        poll.player is None ==> poll@.player is None,
        cache@.players.len() == cache.players@.len(),
        0 <= i < cache.players@.len() ==> cache@.players[i] == cache.players@[i]@,
        cache@.bus_set.len() == cache.bus_set@.len(),
        0 <= i < cache.bus_set@.len() ==> cache@.bus_set[i] == cache.bus_set@[i]@,
        cache.caps matches Some((name, caps)) ==> cache@.caps == Some((name@, caps)),
        cache.caps is None ==> cache@.caps is None,
{
}

} // verus!
