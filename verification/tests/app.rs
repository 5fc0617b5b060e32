use on_blast::app::{Action, AnchorRect, AppModel, Message, NOTCH, PIXEL};
use on_blast::config::Config;
use on_blast::player::{PlaybackStatus, PlayerInfo, PlayerSummary, Poll};
use on_blast::raster::Rgb;

type App = AppModel<u8>;

const URL: &str = "http://a/1.jpg";

fn config() -> Config {
    Config { panel_label_max_length: 30, track_first: true }
}

fn info(name: &str) -> PlayerInfo {
    PlayerInfo {
        title: "Song".to_string(),
        status: PlaybackStatus::Playing,
        bus_name: name.to_string(),
        ..PlayerInfo::default()
    }
}

fn with_art(name: &str, url: &str) -> PlayerInfo {
    PlayerInfo { art_url: Some(url.to_string()), ..info(name) }
}

fn summary(name: &str) -> PlayerSummary {
    PlayerSummary {
        bus_name: name.to_string(),
        identity: name.to_string(),
        status: PlaybackStatus::Playing,
        title: String::new(),
    }
}

fn hit(player: PlayerInfo) -> Message<u8> {
    let players = vec![summary(&player.bus_name)];
    Message::Polled(Poll { player: Some(player), players })
}

fn miss() -> Message<u8> {
    Message::Polled(Poll::default())
}

fn loaded(url: &str, handle: Option<u8>) -> Message<u8> {
    let color = handle.map(|n| Rgb { r: n, g: n, b: n });
    Message::ArtLoaded { url: url.to_string(), handle, blurred: handle, color }
}

fn poll_action(popup_open: bool) -> Action {
    Action::Poll { selected: None, popup_open }
}

fn load(url: &str) -> Vec<Action> {
    vec![Action::LoadArt(url.to_string())]
}

#[test]
fn an_idle_applet_polls_every_fourth_tick() {
    let mut app = App::new(config());
    for _ in 0..3 {
        assert_eq!(app.update(Message::Tick), vec![]);
    }
    assert_eq!(app.update(Message::Tick), vec![poll_action(false)]);
    assert!(app.poll_in_flight);
}

#[test]
fn a_playing_applet_polls_every_second_tick_and_a_popup_every_tick() {
    let mut app = App::new(config());
    app.update(hit(info("vlc")));
    assert_eq!(app.update(Message::Tick), vec![]);
    assert_eq!(app.update(Message::Tick), vec![poll_action(false)]);
    app.update(hit(info("vlc")));
    app.popup_opened(1);
    assert_eq!(app.update(Message::Tick), vec![poll_action(true)]);
}

#[test]
fn polls_do_not_stack() {
    let mut app = App::new(config());
    app.popup_opened(1);
    assert_eq!(app.update(Message::Tick), vec![poll_action(true)]);
    for _ in 0..300 {
        assert_eq!(app.update(Message::Tick), vec![]);
    }
    assert_eq!(app.ticks_since_poll, 255);
    app.update(miss());
    assert_eq!(app.update(Message::Tick), vec![poll_action(true)]);
}

#[test]
fn the_popup_opens_with_a_poll() {
    let mut app = App::new(config());
    assert_eq!(app.update(Message::TogglePopup), vec![Action::OpenPopup, poll_action(true)]);
    app.popup_opened(7);
    assert_eq!(app.update(Message::TogglePopup), vec![Action::DestroyPopup(7)]);
    assert_eq!(app.popup, None);
    // A poll is in flight already.
    assert_eq!(app.update(Message::TogglePopup), vec![Action::OpenPopup]);
}

#[test]
fn the_settings_do_not_outlive_the_popup() {
    let mut app = App::new(config());
    app.popup_opened(7);
    assert_eq!(app.update(Message::ToggleSettings), vec![Action::OpenSettings]);
    assert_eq!(app.settings_opened(8), Some(7));
    assert_eq!(
        app.update(Message::TogglePopup),
        vec![Action::DestroyPopup(7), Action::DestroyPopup(8)]
    );
    assert_eq!((app.popup, app.settings_popup), (None, None));
}

#[test]
fn the_settings_toggle_on_their_own() {
    let mut app = App::new(config());
    assert_eq!(app.settings_opened(8), None);
    assert_eq!(app.update(Message::ToggleSettings), vec![Action::DestroyPopup(8)]);
    assert_eq!(app.settings_popup, None);
}

#[test]
fn a_closed_window_is_forgotten() {
    let mut app = App::new(config());
    app.popup_opened(7);
    app.settings_opened(8);
    app.update(Message::PopupClosed(9));
    assert_eq!((app.popup, app.settings_popup), (Some(7), Some(8)));
    app.update(Message::PopupClosed(8));
    assert_eq!((app.popup, app.settings_popup), (Some(7), None));
    app.update(Message::PopupClosed(7));
    assert_eq!(app.popup, None);
}

#[test]
fn the_settings_are_anchored_beside_the_gear() {
    let mut app = App::new(config());
    assert_eq!(app.settings_anchor(), None);
    app.popup_opened(7);
    app.window_resized(9, 100, 100);
    assert_eq!(app.settings_anchor(), None);
    app.window_resized(7, 360, 600);
    let anchor = AnchorRect { x: 328, y: 568, width: 32, height: 32 };
    assert_eq!(app.settings_anchor(), Some(anchor));
    app.window_resized(7, 31, 32);
    let anchor = AnchorRect { x: 0, y: 0, width: 32, height: 32 };
    assert_eq!(app.settings_anchor(), Some(anchor));
}

#[test]
fn a_new_cover_is_loaded_and_shown() {
    let mut app = App::new(config());
    assert_eq!(app.update(hit(with_art("vlc", URL))), load(URL));
    app.update(loaded(URL, Some(3)));
    assert_eq!(app.album_art, Some(3));
    assert_eq!(app.album_art_blurred, Some(3));
    assert_eq!(app.album_art_color, Some(Rgb { r: 3, g: 3, b: 3 }));
    assert_eq!(app.update(hit(with_art("vlc", URL))), vec![]);
    assert_eq!(app.update(hit(with_art("vlc", "http://a/2.jpg"))), load("http://a/2.jpg"));
    assert_eq!(app.album_art, None);
}

#[test]
fn a_cover_is_tried_six_times() {
    let mut app = App::new(config());
    for _ in 0..6 {
        assert_eq!(app.update(hit(with_art("vlc", URL))), load(URL));
        app.update(loaded(URL, None));
    }
    assert_eq!(app.update(hit(with_art("vlc", URL))), vec![]);
    assert_eq!(app.art_attempts, 6);
}

#[test]
fn art_of_another_track_is_ignored() {
    let mut app = App::new(config());
    app.update(hit(with_art("vlc", URL)));
    app.update(loaded("http://a/2.jpg", Some(3)));
    assert_eq!(app.album_art, None);
}

#[test]
fn a_track_without_art_clears_the_cover() {
    let mut app = App::new(config());
    app.update(hit(with_art("vlc", URL)));
    app.update(loaded(URL, Some(3)));
    assert_eq!(app.update(hit(info("vlc"))), vec![]);
    assert_eq!((app.album_art, app.current_art_url.clone()), (None, None));
    assert_eq!(app.reconcile_art(Some(URL)), Some(Action::LoadArt(URL.to_string())));
    assert_eq!(app.reconcile_art(None), None);
}

#[test]
fn three_misses_are_tolerated() {
    let mut app = App::new(config());
    app.update(hit(with_art("vlc", URL)));
    app.update(loaded(URL, Some(3)));
    for _ in 0..3 {
        app.update(miss());
        assert_eq!(app.player.bus_name, "vlc");
        assert_eq!(app.album_art, Some(3));
    }
    app.update(miss());
    assert_eq!(app.player, PlayerInfo::default());
    assert_eq!(app.album_art, None);
}

#[test]
fn a_hit_forgets_the_misses() {
    let mut app = App::new(config());
    app.update(hit(info("vlc")));
    for _ in 0..3 {
        app.update(miss());
    }
    app.update(hit(info("vlc")));
    assert_eq!(app.missed_polls, 0);
    for _ in 0..3 {
        app.update(miss());
    }
    assert_eq!(app.player.bus_name, "vlc");
}

#[test]
fn a_pin_lasts_while_the_player_is_listed() {
    let mut app = App::new(config());
    app.update(hit(with_art("vlc", URL)));
    app.update(loaded(URL, Some(3)));
    app.update(Message::SelectPlayer("vlc".to_string()));
    assert_eq!(app.album_art, None);
    app.update(hit(info("vlc")));
    assert_eq!(app.selected_player.as_deref(), Some("vlc"));
    app.popup_opened(1);
    assert_eq!(
        app.update(Message::Tick),
        vec![Action::Poll { selected: Some("vlc".to_string()), popup_open: true }]
    );
    app.update(hit(info("amberol")));
    assert_eq!(app.selected_player, None);
}

#[test]
fn commands_go_to_the_player_on_display() {
    let mut app = App::new(config());
    app.update(hit(info("vlc")));
    let name = "vlc".to_string();
    assert_eq!(app.update(Message::PlayPause), vec![Action::PlayPause(name.clone())]);
    assert_eq!(app.update(Message::Next), vec![Action::Next(name.clone())]);
    assert_eq!(app.update(Message::Previous), vec![Action::Previous(name)]);
}

#[test]
fn a_notch_skips_a_track() {
    let mut app = App::new(config());
    app.update(hit(info("vlc")));
    let next = Action::Next("vlc".to_string());
    let previous = Action::Previous("vlc".to_string());
    assert_eq!(app.update(Message::Scroll(NOTCH)), vec![next.clone()]);
    assert_eq!(app.update(Message::Scroll(-2 * NOTCH)), vec![previous.clone(), previous]);
    assert_eq!(app.scroll_accum, 0);
    for _ in 0..49 {
        assert_eq!(app.update(Message::Scroll(PIXEL)), vec![]);
    }
    assert_eq!(app.update(Message::Scroll(PIXEL)), vec![next]);
    assert_eq!(app.scroll_accum, 0);
}

#[test]
fn scrolling_keeps_the_remainder() {
    let mut app = App::new(config());
    assert_eq!(app.update(Message::Scroll(NOTCH + 5)).len(), 1);
    assert_eq!(app.scroll_accum, 5);
    assert_eq!(app.update(Message::Scroll(-10)), vec![]);
    assert_eq!(app.scroll_accum, -5);
    assert_eq!(app.update(Message::Scroll(5 - NOTCH)).len(), 1);
    assert_eq!(app.scroll_accum, 0);
}

#[test]
fn a_seek_is_held_until_playback_is_there() {
    let mut app = App::new(config());
    app.update(hit(PlayerInfo { position_us: 1_000_000, ..info("vlc") }));
    assert_eq!(app.update(Message::SeekCommit), vec![]);
    app.update(Message::SeekChanged(30_000_000));
    let seek = Action::SeekTo {
        bus_name: "vlc".to_string(),
        position_us: 30_000_000,
        current_position_us: 1_000_000,
    };
    assert_eq!(app.update(Message::SeekCommit), vec![seek]);
    app.update(hit(PlayerInfo { position_us: 28_000_000, ..info("vlc") }));
    assert_eq!(app.seeking, Some(30_000_000));
    app.update(hit(PlayerInfo { position_us: 32_000_000, ..info("vlc") }));
    assert_eq!(app.seeking, Some(30_000_000));
    app.update(hit(PlayerInfo { position_us: 28_000_001, ..info("vlc") }));
    assert_eq!(app.seeking, None);
}

#[test]
fn settings_are_stored_as_they_change() {
    let mut app = App::new(config());
    let longer = Config { panel_label_max_length: 50, track_first: true };
    assert_eq!(
        app.update(Message::LabelMaxLengthChanged(50)),
        vec![Action::SaveConfig(longer)]
    );
    let swapped = Config { panel_label_max_length: 50, track_first: false };
    assert_eq!(app.update(Message::TrackFirstChanged(false)), vec![Action::SaveConfig(swapped)]);
    assert_eq!(app.update(Message::UpdateConfig(config())), vec![]);
    assert_eq!(app.config, config());
}
