//! What each message does to the applet, part by part, and what it leaves alone.
use vstd::prelude::*;

use crate::app::{
    art_reconciled, beside_gear, fetch_due, initial_state, step, Action, ActionView, AppModel,
    AppState, Message, MessageView, NOTCH, PIXEL,
};
use crate::config::Config;
use crate::player::{PlaybackStatus, PollView};
use crate::raster::Rgb;

verus! {

/// The player on display after a poll is the one polled, in every part, whatever
/// was on display before; and the list for the picker is the one polled.
pub proof fn law_polled_player_is_displayed<H>(s: AppState<H>, poll: PollView)
    ensures
        poll.player matches Some(info) ==> step(s, MessageView::<H>::Polled(poll)).0.player == info,
        step(s, MessageView::<H>::Polled(poll)).0.players == poll.players,
        poll.player is Some ==> step(s, MessageView::<H>::Polled(poll)).0.missed_polls == 0,
{
}

/// A pinned player stays pinned after a poll exactly where a player of its name is
/// on the list that was polled.
pub proof fn law_pin_needs_its_player<H>(s: AppState<H>, poll: PollView, name: Seq<char>)
    requires
        s.selected_player == Some(name),
    ensures
        ({
            let t = step(s, MessageView::<H>::Polled(poll)).0;
            &&& t.selected_player == Some(name) || t.selected_player is None
            &&& t.selected_player is Some <==> exists|i: int|
                0 <= i < poll.players.len() && (#[trigger] poll.players[i]).bus_name == name
        }),
{
}

/// A poll that finds nobody counts as missed while a player is on display. The
/// fourth miss takes the player off, with all that was shown of it; those before
/// change nothing of it.
pub proof fn law_miss_counts_to_four<H>(s: AppState<H>, poll: PollView)
    requires
        poll.player is None,
    ensures
        ({
            let (t, actions) = step(s, MessageView::<H>::Polled(poll));
            let gone = s.player.bus_name.len() > 0 && s.missed_polls >= 3;
            &&& actions.len() == 0
            &&& s.player.bus_name.len() == 0 ==> t.missed_polls == s.missed_polls
            &&& s.player.bus_name.len() > 0 && s.missed_polls < 255 ==> t.missed_polls
                == s.missed_polls + 1
            &&& gone ==> {
                &&& t.player.bus_name.len() == 0
                &&& t.player.title.len() == 0
                &&& t.player.artist.len() == 0
                &&& t.player.album.len() == 0
                &&& t.player.status == PlaybackStatus::Stopped
                &&& t.player.art_url is None
                &&& t.player.position_us == 0
                &&& t.player.length_us == 0
                &&& !t.player.can_go_next && !t.player.can_go_previous && !t.player.can_pause
                &&& !t.player.can_play && !t.player.can_seek
                &&& t.album_art is None
                &&& t.album_art_blurred is None
                &&& t.album_art_color is None
                &&& t.current_art_url is None
                &&& t.art_attempts == 0
                &&& t.seeking is None
            }
            &&& !gone ==> {
                &&& t.player == s.player
                &&& t.album_art == s.album_art
                &&& t.album_art_blurred == s.album_art_blurred
                &&& t.album_art_color == s.album_art_color
                &&& t.current_art_url == s.current_art_url
                &&& t.art_attempts == s.art_attempts
                &&& t.seeking == s.seeking
            }
        }),
{
}

/// Whether the cover that was shown is shown still.
pub open spec fn same_cover<H>(s: AppState<H>, t: AppState<H>) -> bool {
    t.album_art == s.album_art && t.album_art_blurred == s.album_art_blurred && t.album_art_color
        == s.album_art_color
}

/// Whether no cover is shown.
pub open spec fn no_cover<H>(t: AppState<H>) -> bool {
    t.album_art is None && t.album_art_blurred is None && t.album_art_color is None
}

/// A polled track has its cover loaded. A track without a cover shows none. A new
/// URL clears the old cover and is loaded at once, as the first attempt. The same
/// URL is loaded again while its cover is missing, six times in all, and never
/// once it is there; whatever was shown stays.
pub proof fn law_polled_cover_is_loaded<H>(s: AppState<H>, poll: PollView)
    requires
        poll.player is Some,
    ensures
        ({
            let url = poll.player->0.art_url;
            let (t, actions) = step(s, MessageView::<H>::Polled(poll));
            &&& t.current_art_url == url
            &&& url is None ==> no_cover(t) && t.art_attempts == 0 && actions.len() == 0
            &&& url is Some && url != s.current_art_url ==> no_cover(t) && t.art_attempts == 1
                && actions == seq![ActionView::LoadArt(url->0)]
            &&& url is Some && url == s.current_art_url ==> same_cover(s, t)
            &&& url is Some && url == s.current_art_url && s.album_art is None && s.art_attempts
                < 6 ==> t.art_attempts == s.art_attempts + 1 && actions == seq![
                ActionView::LoadArt(url->0),
            ]
            &&& url is Some && url == s.current_art_url && (s.album_art is Some || s.art_attempts
                >= 6) ==> t.art_attempts == s.art_attempts && actions.len() == 0
        }),
{
}

/// The same holds of a cover looked at by itself, and nothing but the cover is
/// touched.
pub proof fn law_reconciled_cover_is_loaded<H>(s: AppState<H>, url: Option<Seq<char>>)
    ensures
        ({
            let t = art_reconciled(s, url);
            &&& t.current_art_url == url
            &&& url is None || url != s.current_art_url ==> no_cover(t)
            &&& url is Some && url == s.current_art_url ==> same_cover(s, t)
            &&& fetch_due(s, url) <==> url is Some && (url != s.current_art_url || s.album_art
                is None && s.art_attempts < 6)
            &&& url is None ==> t.art_attempts == 0
            &&& url is Some && url != s.current_art_url ==> t.art_attempts == 1
            &&& url is Some && url == s.current_art_url ==> t.art_attempts == if fetch_due(s, url) {
                s.art_attempts + 1
            } else {
                s.art_attempts as int
            }
            &&& t.player == s.player
            &&& t.players == s.players
            &&& t.popup == s.popup
            &&& t.settings_popup == s.settings_popup
            &&& t.popup_size == s.popup_size
            &&& t.config == s.config
            &&& t.seeking == s.seeking
            &&& t.missed_polls == s.missed_polls
            &&& t.selected_player == s.selected_player
            &&& t.poll_in_flight == s.poll_in_flight
            &&& t.ticks_since_poll == s.ticks_since_poll
            &&& t.scroll_accum == s.scroll_accum
        }),
{
}

/// Art that was loaded for the current URL is shown: the cover, the backdrop and
/// the colour that came with it.
pub proof fn law_loaded_art_is_shown<H>(
    s: AppState<H>,
    url: Seq<char>,
    handle: Option<H>,
    blurred: Option<H>,
    color: Option<Rgb>,
)
    requires
        s.current_art_url == Some(url),
        handle is Some,
    ensures
        ({
            let (t, actions) = step(s, MessageView::ArtLoaded { url, handle, blurred, color });
            &&& t.album_art == handle
            &&& t.album_art_blurred == blurred
            &&& t.album_art_color == color
            &&& t.current_art_url == s.current_art_url
            &&& t.art_attempts == s.art_attempts
            &&& actions.len() == 0
        }),
{
}

/// A tick polls exactly when none is in flight and enough ticks have passed since
/// the last: one with the popup open, two while something plays, four otherwise.
/// It asks for the pinned player, and for the popup's extras while that is open.
pub proof fn law_tick_polls_in_time<H>(s: AppState<H>)
    ensures
        ({
            let (t, actions) = step(s, MessageView::<H>::Tick);
            let interval: int = if s.popup is Some {
                1
            } else if s.player.status == PlaybackStatus::Playing {
                2
            } else {
                4
            };
            let due = !s.poll_in_flight && s.ticks_since_poll + 1 >= interval;
            &&& due ==> {
                &&& actions == seq![
                    ActionView::Poll {
                        selected: s.selected_player,
                        popup_open: s.popup is Some,
                    },
                ]
                &&& t.poll_in_flight
                &&& t.ticks_since_poll == 0
            }
            &&& !due ==> {
                &&& actions.len() == 0
                &&& t.poll_in_flight == s.poll_in_flight
                &&& s.ticks_since_poll < 255 ==> t.ticks_since_poll == s.ticks_since_poll + 1
                &&& s.ticks_since_poll == 255 ==> t.ticks_since_poll == 255
            }
        }),
{
}

/// The main popup toggles: an open one is destroyed with the settings, and else
/// one is opened, with a poll for what it shows unless one is in flight.
pub proof fn law_popup_toggles<H>(s: AppState<H>)
    ensures
        ({
            let (t, actions) = step(s, MessageView::<H>::TogglePopup);
            &&& t.popup is None
            &&& match (s.popup, s.settings_popup) {
                (Some(id), Some(sid)) => t.settings_popup is None && actions == seq![
                    ActionView::DestroyPopup(id),
                    ActionView::DestroyPopup(sid),
                ],
                (Some(id), None) => t.settings_popup is None && actions == seq![
                    ActionView::DestroyPopup(id),
                ],
                (None, _) => {
                    &&& t.settings_popup == s.settings_popup
                    &&& actions.len() == if s.poll_in_flight {
                        1int
                    } else {
                        2
                    }
                    &&& actions[0] is OpenPopup
                    &&& !s.poll_in_flight ==> actions[1] == (ActionView::Poll {
                        selected: s.selected_player,
                        popup_open: true,
                    }) && t.ticks_since_poll == 0
                },
            }
            &&& t.poll_in_flight == (s.poll_in_flight || s.popup is None)
        }),
{
}

/// The settings popup toggles by itself and leaves the main popup open.
pub proof fn law_settings_toggle<H>(s: AppState<H>)
    ensures
        ({
            let (t, actions) = step(s, MessageView::<H>::ToggleSettings);
            &&& t.popup == s.popup
            &&& t.settings_popup is None
            &&& actions.len() == 1
            &&& s.settings_popup matches Some(id) ==> actions[0] == ActionView::DestroyPopup(id)
            &&& s.settings_popup is None ==> actions[0] is OpenSettings
        }),
{
}

/// A window that was closed is forgotten, and no other.
pub proof fn law_only_the_closed_window_is_forgotten<H>(s: AppState<H>, id: u64)
    ensures
        ({
            let (t, actions) = step(s, MessageView::<H>::PopupClosed(id));
            &&& s.popup == Some(id) ==> t.popup is None
            &&& s.popup != Some(id) ==> t.popup == s.popup
            &&& s.settings_popup == Some(id) ==> t.settings_popup is None
            &&& s.settings_popup != Some(id) ==> t.settings_popup == s.settings_popup
            &&& actions.len() == 0
        }),
{
}

/// A command button asks for its command and for nothing else.
pub proof fn law_buttons_ask_for_their_command<H>(s: AppState<H>)
    ensures
        step(s, MessageView::<H>::PlayPause).1 == seq![ActionView::PlayPause(s.player.bus_name)],
        step(s, MessageView::<H>::Next).1 == seq![ActionView::Next(s.player.bus_name)],
        step(s, MessageView::<H>::Previous).1 == seq![ActionView::Previous(s.player.bus_name)],
        step(s, MessageView::<H>::PlayPause).0 == s,
        step(s, MessageView::<H>::Next).0 == s,
        step(s, MessageView::<H>::Previous).0 == s,
{
}

/// Scrolling up by a notch skips one track ahead, and down by one back; what is
/// less than a notch is kept, and what adds up to one skips.
pub proof fn law_notch_skips_a_track<H>(s: AppState<H>, rest: i32)
    requires
        s.scroll_accum == 0,
        0 <= rest < NOTCH,
    ensures
        ({
            let (t, actions) = step(s, MessageView::<H>::Scroll((NOTCH + rest) as i32));
            &&& actions == seq![ActionView::Next(s.player.bus_name)]
            &&& t.scroll_accum == rest
        }),
        ({
            let (t, actions) = step(s, MessageView::<H>::Scroll((-NOTCH - rest) as i32));
            &&& actions == seq![ActionView::Previous(s.player.bus_name)]
            &&& t.scroll_accum == -rest
        }),
        ({
            let (t, actions) = step(s, MessageView::<H>::Scroll(rest));
            &&& actions.len() == 0
            &&& t.scroll_accum == rest
            &&& step(t, MessageView::<H>::Scroll((NOTCH - rest) as i32)).1 == seq![
                ActionView::Next(s.player.bus_name),
            ]
        }),
        50 * PIXEL == NOTCH,
{
    let up = step(s, MessageView::<H>::Scroll((NOTCH + rest) as i32)).1;
    assert(up =~= seq![ActionView::Next(s.player.bus_name)]);
    let down = step(s, MessageView::<H>::Scroll((-NOTCH - rest) as i32)).1;
    assert(down =~= seq![ActionView::Previous(s.player.bus_name)]);
    let t = step(s, MessageView::<H>::Scroll(rest)).0;
    let then = step(t, MessageView::<H>::Scroll((NOTCH - rest) as i32)).1;
    assert(then =~= seq![ActionView::Next(s.player.bus_name)]);
}

/// A seek is over once playback is less than two seconds from its target, on
/// either side, and no sooner.
pub proof fn law_seek_ends_near_its_target<H>(s: AppState<H>, poll: PollView, target: u64)
    requires
        s.seeking == Some(target),
        poll.player is Some,
    ensures
        ({
            let t = step(s, MessageView::<H>::Polled(poll)).0;
            let apart = poll.player->0.position_us - target;
            &&& -2_000_000 < apart < 2_000_000 ==> t.seeking is None
            &&& !(-2_000_000 < apart < 2_000_000) ==> t.seeking == Some(target)
        }),
{
}

/// Dragging the slider holds it, and letting it go asks the player to move from
/// where it is; without a drag nothing is asked.
pub proof fn law_slider_asks_for_a_seek<H>(s: AppState<H>, pos: u64)
    ensures
        step(s, MessageView::<H>::SeekChanged(pos)).0.seeking == Some(pos),
        step(s, MessageView::<H>::SeekChanged(pos)).1.len() == 0,
        s.seeking is None ==> step(s, MessageView::<H>::SeekCommit).1.len() == 0,
        s.seeking matches Some(target) ==> step(s, MessageView::<H>::SeekCommit).1 == seq![
            ActionView::SeekTo {
                bus_name: s.player.bus_name,
                position_us: target,
                current_position_us: s.player.position_us,
            },
        ],
        step(s, MessageView::<H>::SeekCommit).0 == s,
{
}

/// Each setting is changed to what was asked for, the other one stays, and both
/// are saved; settings that changed elsewhere are taken over and not saved again.
pub proof fn law_settings_are_set<H>(s: AppState<H>, len: u32, first: bool, config: Config)
    ensures
        ({
            let (t, actions) = step(s, MessageView::<H>::LabelMaxLengthChanged(len));
            &&& t.config.panel_label_max_length == len
            &&& t.config.track_first == s.config.track_first
            &&& actions == seq![ActionView::SaveConfig(t.config)]
        }),
        ({
            let (t, actions) = step(s, MessageView::<H>::TrackFirstChanged(first));
            &&& t.config.track_first == first
            &&& t.config.panel_label_max_length == s.config.panel_label_max_length
            &&& actions == seq![ActionView::SaveConfig(t.config)]
        }),
        ({
            let (t, actions) = step(s, MessageView::<H>::UpdateConfig(config));
            &&& t.config == config
            &&& actions.len() == 0
        }),
{
}

/// A choice in the picker pins the player, asks for nothing, and keeps the player
/// on display until a poll.
pub proof fn law_choice_pins_the_player<H>(s: AppState<H>, name: Seq<char>)
    ensures
        ({
            let (t, actions) = step(s, MessageView::<H>::SelectPlayer(name));
            &&& t.selected_player == Some(name)
            &&& t.player == s.player
            &&& t.art_attempts == 0
            &&& actions.len() == 0
        }),
{
}

/// What a message is not about it leaves alone: windows, settings, the player and
/// the list, the cover, the pin, a seek, the counts and the scrolling each change
/// only by the messages that concern them.
pub proof fn law_messages_keep_to_their_own<H>(s: AppState<H>, m: MessageView<H>)
    ensures
        ({
            let t = step(s, m).0;
            &&& t.popup_size == s.popup_size
            &&& !(m is TogglePopup || m is PopupClosed) ==> t.popup == s.popup
            &&& !(m is TogglePopup || m is ToggleSettings || m is PopupClosed)
                ==> t.settings_popup == s.settings_popup
            &&& !(m is UpdateConfig || m is LabelMaxLengthChanged || m is TrackFirstChanged)
                ==> t.config == s.config
            &&& !(m is Polled) ==> t.player == s.player && t.players == s.players
                && t.missed_polls == s.missed_polls
            &&& !(m is Polled || m is SelectPlayer) ==> t.current_art_url == s.current_art_url
                && t.art_attempts == s.art_attempts && t.selected_player == s.selected_player
            &&& !(m is Polled || m is SelectPlayer || m is ArtLoaded) ==> same_cover(s, t)
            &&& !(m is Polled || m is SelectPlayer || m is SeekChanged) ==> t.seeking == s.seeking
            &&& !(m is Polled || m is Tick || m is TogglePopup) ==> t.poll_in_flight
                == s.poll_in_flight
            &&& !(m is Tick || m is TogglePopup) ==> t.ticks_since_poll == s.ticks_since_poll
            &&& !(m is Scroll) ==> t.scroll_accum == s.scroll_accum
        }),
{
}

/// The applet starts with nobody on display, no window, no cover, no pin and no
/// poll, and with the settings it was given.
pub proof fn law_start_is_blank<H>(config: Config)
    ensures
        ({
            let s = initial_state::<H>(config);
            &&& s.config == config
            &&& s.popup is None && s.settings_popup is None && s.popup_size is None
            &&& s.player.bus_name.len() == 0
            &&& s.player.title.len() == 0 && s.player.artist.len() == 0
            &&& s.player.status == PlaybackStatus::Stopped
            &&& no_cover(s) && s.current_art_url is None && s.art_attempts == 0
            &&& s.seeking is None && s.missed_polls == 0 && s.players.len() == 0
            &&& s.selected_player is None && !s.poll_in_flight && s.ticks_since_poll == 0
            &&& s.scroll_accum == 0
        }),
{
}

/// The gear is in the last thirty-two pixels of a side, as far as there are so
/// many.
pub proof fn law_gear_is_at_the_end(length: u32)
    ensures
        length <= 32 ==> beside_gear(length) == 0,
        32 < length && length - 32 <= i32::MAX ==> beside_gear(length) + 32 == length,
        length - 32 > i32::MAX ==> beside_gear(length) == i32::MAX,
{
}

/// The model, the messages and the actions show all they hold.
pub proof fn law_model_hides_nothing<H>(app: AppModel<H>, i: int)
    ensures
        app@.popup == app.popup && app@.settings_popup == app.settings_popup,
        app@.popup_size == app.popup_size && app@.config == app.config,
        app@.player == app.player@,
        app@.album_art == app.album_art && app@.album_art_blurred == app.album_art_blurred,
        app@.album_art_color == app.album_art_color && app@.art_attempts == app.art_attempts,
        app.current_art_url matches Some(url) ==> app@.current_art_url == Some(url@),
        app.current_art_url is None ==> app@.current_art_url is None,
        app@.seeking == app.seeking && app@.missed_polls == app.missed_polls,
        app@.players.len() == app.players@.len(),
        0 <= i < app.players@.len() ==> app@.players[i] == app.players@[i]@,
        app.selected_player matches Some(name) ==> app@.selected_player == Some(name@),
        app.selected_player is None ==> app@.selected_player is None,
        app@.poll_in_flight == app.poll_in_flight,
        app@.ticks_since_poll == app.ticks_since_poll && app@.scroll_accum == app.scroll_accum,
{
}

/// No two different messages or actions are taken for one another.
pub proof fn law_messages_and_actions_stay_apart<H>(m: Message<H>, a: Action)
    ensures
        match m {
            Message::TogglePopup => m@ is TogglePopup,
            Message::ToggleSettings => m@ is ToggleSettings,
            Message::PopupClosed(id) => m@ == MessageView::<H>::PopupClosed(id),
            Message::UpdateConfig(config) => m@ == MessageView::<H>::UpdateConfig(config),
            Message::Tick => m@ is Tick,
            Message::Polled(poll) => m@ == MessageView::<H>::Polled(poll@),
            Message::SelectPlayer(name) => m@ == MessageView::<H>::SelectPlayer(name@),
            Message::ArtLoaded { url, handle, blurred, color } => m@ == (
            MessageView::ArtLoaded { url: url@, handle, blurred, color }),
            Message::PlayPause => m@ is PlayPause,
            Message::Next => m@ is Next,
            Message::Previous => m@ is Previous,
            Message::Scroll(units) => m@ == MessageView::<H>::Scroll(units),
            Message::LabelMaxLengthChanged(len) => m@
                == MessageView::<H>::LabelMaxLengthChanged(len),
            Message::TrackFirstChanged(val) => m@ == MessageView::<H>::TrackFirstChanged(val),
            Message::SeekChanged(pos) => m@ == MessageView::<H>::SeekChanged(pos),
            Message::SeekCommit => m@ is SeekCommit,
        },
        match a {
            Action::DestroyPopup(id) => a@ == ActionView::DestroyPopup(id),
            Action::OpenPopup => a@ is OpenPopup,
            Action::OpenSettings => a@ is OpenSettings,
            Action::Poll { selected: Some(name), popup_open } => a@ == (ActionView::Poll {
                selected: Some(name@),
                popup_open,
            }),
            Action::Poll { selected: None, popup_open } => a@ == (ActionView::Poll {
                selected: None,
                popup_open,
            }),
            Action::LoadArt(url) => a@ == ActionView::LoadArt(url@),
            Action::PlayPause(name) => a@ == ActionView::PlayPause(name@),
            Action::Next(name) => a@ == ActionView::Next(name@),
            Action::Previous(name) => a@ == ActionView::Previous(name@),
            Action::SeekTo { bus_name, position_us, current_position_us } => a@ == (
            ActionView::SeekTo { bus_name: bus_name@, position_us, current_position_us }),
            Action::SaveConfig(config) => a@ == ActionView::SaveConfig(config),
        },
{
}

} // verus!
