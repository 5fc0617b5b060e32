use on_blast::app::{AppModel, Message};
use on_blast::config::Config;
use on_blast::player::{PlaybackStatus, PlayerInfo, PlayerSummary, Poll};
use on_blast::view::{
    glyph_size, panel_content, popup_content, secondary_line, stack_glyph_size, Bar, Line,
    PanelContent, PanelText, ARTIST_ICON, IDLE_ICON, NO_ART_ICON, TRACK_ICON,
};

fn app(player: PlayerInfo, track_first: bool) -> AppModel<u8> {
    let mut app = AppModel::new(Config { panel_label_max_length: 10, track_first });
    app.update(Message::Polled(Poll { player: Some(player), players: Vec::new() }));
    app
}

fn info() -> PlayerInfo {
    PlayerInfo {
        title: "A song with a name".to_string(),
        artist: "Band".to_string(),
        album: "Album".to_string(),
        year: Some(1994),
        status: PlaybackStatus::Playing,
        bus_name: "vlc".to_string(),
        position_us: 5_000_000,
        length_us: 65_000_000,
        can_pause: true,
        can_seek: true,
        ..PlayerInfo::default()
    }
}

fn track() -> Line {
    Line { icon: TRACK_ICON, label: "A song wit\u{2026}".to_string() }
}

fn artist() -> Line {
    Line { icon: ARTIST_ICON, label: "Band".to_string() }
}

fn text(content: PanelContent) -> PanelText {
    match content {
        PanelContent::Player { text, .. } => text,
        other => panic!("no player: {:?}", other),
    }
}

#[test]
fn an_idle_panel_shows_its_icon() {
    let app: AppModel<u8> = AppModel::new(Config { panel_label_max_length: 10, track_first: true });
    assert_eq!(panel_content(&app, 40), PanelContent::Idle { icon: IDLE_ICON });
}

#[test]
fn a_panel_stacks_track_and_artist_where_there_is_room() {
    let first = app(info(), true);
    let stacked = PanelText::Stacked { top: track(), bottom: artist() };
    assert_eq!(text(panel_content(&first, 28)), stacked);
    let inline = PanelText::Inline { first: track(), second: artist() };
    assert_eq!(text(panel_content(&first, 27)), inline);
}

#[test]
fn the_artist_comes_first_where_that_is_set() {
    let last = app(info(), false);
    let stacked = PanelText::Stacked { top: artist(), bottom: track() };
    assert_eq!(text(panel_content(&last, 40)), stacked);
    let inline = PanelText::Inline { first: artist(), second: track() };
    assert_eq!(text(panel_content(&last, 16)), inline);
}

#[test]
fn a_track_without_an_artist_stands_alone() {
    let alone = app(PlayerInfo { artist: String::new(), ..info() }, false);
    assert_eq!(text(panel_content(&alone, 40)), PanelText::Title(track()));
    assert_eq!(text(panel_content(&alone, 16)), PanelText::Title(track()));
}

#[test]
fn a_missing_cover_has_a_placeholder() {
    let mut app = app(info(), true);
    match panel_content(&app, 40) {
        PanelContent::Player { placeholder, .. } => assert_eq!(placeholder, Some(NO_ART_ICON)),
        other => panic!("no player: {:?}", other),
    }
    app.album_art = Some(1);
    match panel_content(&app, 40) {
        PanelContent::Player { placeholder, .. } => assert_eq!(placeholder, None),
        other => panic!("no player: {:?}", other),
    }
}

#[test]
fn the_popup_shows_the_track() {
    let content = popup_content(&app(info(), true));
    assert_eq!(content.title, "A song with a name");
    assert_eq!(content.secondary, "Band \u{00b7} Album (1994)");
    assert_eq!((content.position.as_str(), content.length.as_str()), ("0:05", "1:05"));
    assert_eq!(content.bar, Bar::Slider { position_us: 5_000_000, length_us: 65_000_000 });
    assert_eq!(content.picker, None);
}

#[test]
fn the_popup_shows_where_the_slider_is_held() {
    let mut app = app(info(), true);
    app.update(Message::SeekChanged(60_000_000));
    let content = popup_content(&app);
    assert_eq!(content.position, "1:00");
    assert_eq!(content.bar, Bar::Slider { position_us: 60_000_000, length_us: 65_000_000 });
}

#[test]
fn a_player_that_cannot_seek_has_a_read_only_bar() {
    let fixed = popup_content(&app(PlayerInfo { can_seek: false, ..info() }, true));
    assert_eq!(fixed.bar, Bar::ReadOnly { position_us: 5_000_000, length_us: 65_000_000 });
    let endless = popup_content(&app(PlayerInfo { length_us: 0, ..info() }, true));
    assert_eq!(endless.bar, Bar::ReadOnly { position_us: 5_000_000, length_us: 0 });
    assert_eq!(endless.length, "0:00");
}

#[test]
fn buttons_need_their_capability() {
    let content = popup_content(&app(info(), true));
    assert_eq!(content.play_icon, "media-playback-pause-symbolic");
    assert!(content.can_play_pause && !content.can_go_next && !content.can_go_previous);
    let stopped = PlayerInfo {
        status: PlaybackStatus::Stopped,
        can_go_next: true,
        can_go_previous: true,
        ..info()
    };
    let content = popup_content(&app(stopped, true));
    assert_eq!(content.play_icon, "media-playback-start-symbolic");
    assert!(!content.can_play_pause && content.can_go_next && content.can_go_previous);
}

#[test]
fn the_line_below_the_title_never_collapses() {
    assert_eq!(secondary_line(&PlayerInfo::default()), " ");
    let line = |artist: &str, album: &str, year: Option<u32>| {
        secondary_line(&PlayerInfo {
            artist: artist.to_string(),
            album: album.to_string(),
            year,
            ..PlayerInfo::default()
        })
    };
    assert_eq!(line("Band", "", Some(1994)), "Band");
    assert_eq!(line("", "Album", None), "Album");
    assert_eq!(line("", "Album", Some(1994)), "Album (1994)");
    assert_eq!(line("Band", "Album", None), "Band \u{00b7} Album");
    let long = "x".repeat(45);
    assert_eq!(line(&long, "", None), format!("{}\u{2026}", "x".repeat(44)));
}

#[test]
fn the_picker_has_a_row_per_player() {
    let mut app = app(info(), true);
    let summary = |name: &str, status: PlaybackStatus, title: &str| PlayerSummary {
        bus_name: name.to_string(),
        identity: name.to_uppercase(),
        status,
        title: title.to_string(),
    };
    let players = vec![
        summary("vlc", PlaybackStatus::Playing, "Song"),
        summary("amberol", PlaybackStatus::Paused, ""),
        summary("mpv", PlaybackStatus::Stopped, &"y".repeat(60)),
    ];
    app.update(Message::Polled(Poll { player: Some(info()), players }));
    let rows = popup_content(&app).picker.unwrap();
    assert_eq!(rows.len(), 3);
    assert_eq!(rows[0].label, "VLC \u{2014} Song");
    assert_eq!(rows[1].label, "AMBEROL");
    assert_eq!(rows[2].label, format!("MPV \u{2014} {}\u{2026}", "y".repeat(36)));
    assert_eq!(rows[0].icon, "media-playback-start-symbolic");
    assert_eq!(rows[1].icon, "media-playback-pause-symbolic");
    assert_eq!(rows[2].icon, "media-playback-stop-symbolic");
    assert!(rows[0].current && !rows[1].current && !rows[2].current);
    assert_eq!(rows[1].bus_name, "amberol");
}

#[test]
fn a_single_player_needs_no_picker() {
    let mut app = app(info(), true);
    let only = PlayerSummary {
        bus_name: "vlc".to_string(),
        identity: "VLC".to_string(),
        status: PlaybackStatus::Playing,
        title: String::new(),
    };
    app.update(Message::Polled(Poll { player: Some(info()), players: vec![only] }));
    assert_eq!(popup_content(&app).picker, None);
}

#[test]
fn glyphs_are_sized_to_the_text() {
    assert_eq!(glyph_size(0), 12);
    assert_eq!(glyph_size(20), 12);
    assert_eq!(glyph_size(24), 14);
    assert_eq!(glyph_size(40), 18);
    assert_eq!(stack_glyph_size(28), 10);
    assert_eq!(stack_glyph_size(13), 8);
    assert_eq!(stack_glyph_size(39), 13);
    for n in 0..=u16::MAX {
        let inline = ((n as f32) * 0.6).round().clamp(12.0, 18.0) as u16;
        assert_eq!(glyph_size(n), inline);
        let stacked = ((n as f32 * 0.9) / (2.0 * 1.3)).clamp(8.0, 13.0).round() as u16;
        assert_eq!(stack_glyph_size(n), stacked);
    }
}
