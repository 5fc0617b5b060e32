use on_blast::metadata::Track;
use on_blast::player::{PlaybackStatus, Poll};
use on_blast::players::{
    caps_for, mpris_bus_set, player_info, sorted_trimmed, Cache, Caps, CapsReading, FoundPlayer,
    KnownPlayer, PlayerReading, SummaryReading,
};
use on_blast::poll::{poll, poll_cached, PollAction, PollEvent, PollRun};

fn strings(list: &[&str]) -> Vec<String> {
    list.iter().map(|s| s.to_string()).collect()
}

fn found(names: &[&str]) -> Vec<FoundPlayer> {
    names
        .iter()
        .map(|n| FoundPlayer { bus_name: n.to_string(), identity: n.to_uppercase() })
        .collect()
}

fn all_caps(on: bool) -> CapsReading {
    CapsReading {
        next: Some(on),
        prev: Some(on),
        pause: Some(on),
        play: Some(on),
        seek: Some(on),
    }
}

fn no_caps() -> CapsReading {
    CapsReading { next: None, prev: None, pause: None, play: None, seek: None }
}

fn track(title: &str) -> Track {
    Track {
        title: Some(title.to_string()),
        artists: Some(strings(&["A", "B"])),
        album: Some("Album".to_string()),
        year: Some(1994),
        art_url: Some("http://a/1.jpg".to_string()),
        length_us: Some(65_000_000),
    }
}

fn reading(title: &str) -> PlayerReading {
    PlayerReading {
        track: Some(track(title)),
        status: Some(PlaybackStatus::Paused),
        position_us: Some(7),
        caps: all_caps(true),
    }
}

fn summary(status: PlaybackStatus, title: &str) -> SummaryReading {
    SummaryReading { status: Some(status), title: Some(title.to_string()) }
}

/// A poll up to the point where the summaries are asked for.
fn until_summaries(
    slot: &mut Option<Cache>,
    selected: Option<&str>,
    popup_open: bool,
    names: &[&str],
) -> (PollRun, PollAction) {
    let (run, action) = poll(slot, selected.map(str::to_string), popup_open);
    assert_eq!(action, PollAction::Connect);
    let (run, action) = poll_cached(slot, run, PollEvent::Connected);
    assert_eq!(action, PollAction::ListNames);
    let listed: Vec<String> =
        names.iter().map(|n| format!("org.mpris.MediaPlayer2.{n}")).collect();
    let (run, action) = poll_cached(slot, run, PollEvent::Names(listed));
    if names.is_empty() {
        return (run, action);
    }
    assert_eq!(action, PollAction::FindAll);
    poll_cached(slot, run, PollEvent::Found(found(names)))
}

fn finished(action: PollAction) -> Poll {
    match action {
        PollAction::Finish(poll) => poll,
        other => panic!("not finished: {:?}", other),
    }
}

#[test]
fn the_bus_set_is_trimmed_sorted_and_without_the_proxy() {
    let names = strings(&[
        "org.mpris.MediaPlayer2.vlc",
        "org.freedesktop.DBus",
        "org.mpris.MediaPlayer2.playerctld",
        ":1.42",
        "org.mpris.MediaPlayer2.Amberol",
        "org.mpris.MediaPlayer2.playerctld2",
    ]);
    assert_eq!(mpris_bus_set(&names), strings(&["Amberol", "playerctld2", "vlc"]));
    assert_eq!(mpris_bus_set(&Vec::new()), Vec::<String>::new());
}

#[test]
fn names_are_sorted_as_bytes() {
    let known = |n: &str| KnownPlayer {
        bus_name: n.to_string(),
        identity: String::new(),
        handle: 0,
    };
    let players = vec![known("b"), known("é"), known("B"), known("ba"), known("")];
    assert_eq!(sorted_trimmed(&players), strings(&["", "B", "b", "ba", "é"]));
}

#[test]
fn a_first_poll_connects_lists_and_searches() {
    let mut slot = None;
    let (run, action) = until_summaries(&mut slot, None, true, &["playerctld", "vlc", "amberol"]);
    assert_eq!(action, PollAction::ReadSummaries { statuses: true, titles: true });
    let readings = vec![
        summary(PlaybackStatus::Stopped, "v"),
        summary(PlaybackStatus::Playing, "a"),
    ];
    let (run, action) = poll_cached(&mut slot, run, PollEvent::Summaries(readings));
    // The handle is the place in the search, in which the proxy stands first.
    assert_eq!(
        action,
        PollAction::ReadPlayer { handle: 2, status: false, position: true, caps: true }
    );
    let (_, action) = poll_cached(&mut slot, run, PollEvent::Player(reading("Song")));
    let poll = finished(action);
    let names: Vec<&str> = poll.players.iter().map(|p| p.bus_name.as_str()).collect();
    assert_eq!(names, vec!["vlc", "amberol"]);
    assert_eq!(poll.players[1].identity, "AMBEROL");
    assert_eq!(poll.players[1].title, "a");
    let info = poll.player.unwrap();
    assert_eq!(info.bus_name, "amberol");
    assert_eq!(info.title, "Song");
    assert_eq!(info.artist, "A, B");
    assert_eq!(info.album, "Album");
    assert_eq!(info.year, Some(1994));
    // The status of the summary counts, not the one read with the player.
    assert_eq!(info.status, PlaybackStatus::Playing);
    assert_eq!(info.position_us, 7);
    assert_eq!(info.length_us, 65_000_000);
    assert!(info.can_go_next && info.can_go_previous && info.can_pause);
    assert!(info.can_play && info.can_seek);
    let cache = slot.unwrap();
    assert_eq!(cache.bus_set, strings(&["amberol", "vlc"]));
    assert_eq!(cache.players[0].handle, 1);
}

#[test]
fn an_unchanged_bus_is_not_searched_again() {
    let mut slot = None;
    until_summaries(&mut slot, None, false, &["vlc", "amberol"]);
    let (run, action) = poll(&slot, None, false);
    assert_eq!(action, PollAction::ListNames);
    let names =
        strings(&["org.mpris.MediaPlayer2.amberol", "x", "org.mpris.MediaPlayer2.vlc"]);
    let (_, action) = poll_cached(&mut slot, run, PollEvent::Names(names));
    assert_eq!(action, PollAction::ReadSummaries { statuses: true, titles: false });
}

#[test]
fn a_pinned_player_with_the_popup_closed_needs_no_summaries() {
    let mut slot = None;
    let (run, action) = until_summaries(&mut slot, Some("vlc"), false, &["amberol", "vlc"]);
    assert_eq!(action, PollAction::ReadSummaries { statuses: false, titles: false });
    let (run, action) = poll_cached(&mut slot, run, PollEvent::Summaries(Vec::new()));
    assert_eq!(
        action,
        PollAction::ReadPlayer { handle: 1, status: true, position: false, caps: false }
    );
    let (_, action) = poll_cached(&mut slot, run, PollEvent::Player(reading("Song")));
    let info = finished(action).player.unwrap();
    assert_eq!(info.bus_name, "vlc");
    assert_eq!(info.status, PlaybackStatus::Paused);
    assert_eq!(info.position_us, 0);
    assert!(!info.can_seek);
    assert_eq!(slot.unwrap().caps, None);
}

#[test]
fn a_pin_that_is_gone_falls_back_to_the_active_player() {
    let mut slot = None;
    let (run, action) = until_summaries(&mut slot, Some("gone"), false, &["amberol", "vlc"]);
    assert_eq!(action, PollAction::ReadSummaries { statuses: true, titles: false });
    let readings = vec![
        summary(PlaybackStatus::Stopped, ""),
        summary(PlaybackStatus::Playing, ""),
    ];
    let (_, action) = poll_cached(&mut slot, run, PollEvent::Summaries(readings));
    assert_eq!(
        action,
        PollAction::ReadPlayer { handle: 1, status: false, position: false, caps: false }
    );
}

#[test]
fn an_empty_bus_has_no_player() {
    let mut slot = None;
    let (run, action) = until_summaries(&mut slot, None, true, &[]);
    assert_eq!(action, PollAction::ReadSummaries { statuses: true, titles: true });
    let (_, action) = poll_cached(&mut slot, run, PollEvent::Summaries(Vec::new()));
    assert_eq!(finished(action), Poll { player: None, players: Vec::new() });
    assert!(slot.is_some());
}

#[test]
fn a_failure_gives_up_the_connection() {
    let mut slot = None;
    let (run, _) = poll(&slot, None, false);
    let (_, action) = poll_cached(&mut slot, run, PollEvent::Failed);
    assert_eq!(finished(action), Poll::default());
    until_summaries(&mut slot, None, false, &["vlc"]);
    assert!(slot.is_some());
    let (run, _) = poll(&slot, None, false);
    let (_, action) = poll_cached(&mut slot, run, PollEvent::Failed);
    assert_eq!(finished(action), Poll::default());
    assert!(slot.is_none());
}

#[test]
fn capabilities_are_read_once_per_player() {
    let mut memo: Option<(String, Caps)> = None;
    let first = caps_for("vlc", all_caps(true), &mut memo);
    assert!(first.next && first.prev && first.pause && first.play && first.seek);
    let again = caps_for("vlc", no_caps(), &mut memo);
    assert_eq!(again, first);
    let other = caps_for("amberol", no_caps(), &mut memo);
    assert!(!other.next && !other.prev && !other.pause && !other.play && !other.seek);
    assert_eq!(memo.unwrap().0, "amberol");
}

#[test]
fn a_player_that_cannot_be_read_is_unknown() {
    let mut memo = None;
    let nothing =
        PlayerReading { track: None, status: None, position_us: None, caps: no_caps() };
    let info = player_info("vlc", nothing, None, true, &mut memo);
    assert_eq!(info.title, "Unknown");
    assert_eq!(info.artist, "");
    assert_eq!(info.album, "");
    assert_eq!(info.year, None);
    assert_eq!(info.status, PlaybackStatus::Stopped);
    assert_eq!(info.art_url, None);
    assert_eq!(info.bus_name, "vlc");
    assert_eq!((info.position_us, info.length_us), (0, 0));
}

#[test]
fn the_order_on_the_bus_does_not_matter() {
    let names = strings(&["org.mpris.MediaPlayer2.b", "org.mpris.MediaPlayer2.a"]);
    let turned = strings(&["org.mpris.MediaPlayer2.a", "org.mpris.MediaPlayer2.b"]);
    assert_eq!(mpris_bus_set(&names), mpris_bus_set(&turned));
    let twice = strings(&["org.mpris.MediaPlayer2.a", "org.mpris.MediaPlayer2.a"]);
    assert_eq!(mpris_bus_set(&twice), strings(&["a", "a"]));
}
