//! What holds of the applet over any run of messages.
use vstd::prelude::*;

use crate::app::{
    cadence, fetch_due, initial_state, listed, poll_hit, poll_received, seek_reached, step,
    whole_notches, ActionView, AppState, MessageView, MAX_ART_ATTEMPTS, MAX_MISSED_POLLS, NOTCH,
};
use crate::config::Config;
use crate::player::{no_player, PollView};

verus! {

/// What a state always says: fetches stay within their limit, there is no cover
/// without a URL and no backdrop without a cover, and less than a notch of
/// scrolling is left over.
pub open spec fn app_wf<H>(s: AppState<H>) -> bool {
    &&& s.art_attempts <= MAX_ART_ATTEMPTS
    &&& s.current_art_url is None ==> s.album_art is None && s.art_attempts == 0
    &&& s.album_art is None ==> s.album_art_blurred is None && s.album_art_color is None
    &&& -NOTCH < s.scroll_accum < NOTCH
}

/// The applet starts in such a state.
pub proof fn law_initial_state_is_wf<H>(config: Config)
    ensures
        app_wf(initial_state::<H>(config)),
{
}

/// No message leads out of such states.
pub proof fn law_step_keeps_wf<H>(s: AppState<H>, m: MessageView<H>)
    requires
        app_wf(s),
    ensures
        app_wf(step(s, m).0),
{
}

/// The state after a run of messages.
pub open spec fn run<H>(s: AppState<H>, messages: Seq<MessageView<H>>) -> AppState<H>
    decreases messages.len(),
{
    if messages.len() == 0 {
        s
    } else {
        step(run(s, messages.drop_last()), messages.last()).0
    }
}

/// Whatever happens from the start, the state stays in order.
pub proof fn law_every_reachable_state_is_wf<H>(config: Config, messages: Seq<MessageView<H>>)
    ensures
        app_wf(run(initial_state::<H>(config), messages)),
    decreases messages.len(),
{
    if messages.len() > 0 {
        law_every_reachable_state_is_wf::<H>(config, messages.drop_last());
    }
}

pub open spec fn is_poll(a: ActionView) -> bool {
    a is Poll
}

/// Polls don't stack: one is asked for only while none is in flight, at most one
/// at a time, and it is in flight until it comes back.
pub proof fn law_one_poll_at_a_time<H>(s: AppState<H>, m: MessageView<H>)
    ensures
        ({
            let (t, actions) = step(s, m);
            &&& forall|i: int|
                0 <= i < actions.len() && is_poll(#[trigger] actions[i]) ==> !s.poll_in_flight
                    && t.poll_in_flight
            &&& forall|i: int, j: int|
                0 <= i < actions.len() && 0 <= j < actions.len() && is_poll(#[trigger] actions[i])
                    && is_poll(#[trigger] actions[j]) ==> i == j
            &&& s.poll_in_flight && !(m is Polled) ==> t.poll_in_flight
            &&& m is Polled ==> !t.poll_in_flight
        }),
{
}

/// Whether a step fetches a cover.
pub open spec fn fetches<H>(s: AppState<H>, m: MessageView<H>) -> bool {
    exists|i: int| 0 <= i < step(s, m).1.len() && (#[trigger] step(s, m).1[i]) is LoadArt
}

/// How many steps of a run fetch a cover.
pub open spec fn fetch_count<H>(s: AppState<H>, messages: Seq<MessageView<H>>) -> nat
    decreases messages.len(),
{
    if messages.len() == 0 {
        0
    } else {
        fetch_count(s, messages.drop_last()) + if fetches(
            run(s, messages.drop_last()),
            messages.last(),
        ) {
            1nat
        } else {
            0nat
        }
    }
}

/// A cover is fetched only for the URL that is then current, and each fetch
/// counts as an attempt at it.
pub proof fn law_fetch_is_an_attempt<H>(s: AppState<H>, m: MessageView<H>)
    requires
        app_wf(s),
        fetches(s, m),
    ensures
        ({
            let (t, actions) = step(s, m);
            &&& m is Polled
            &&& actions.len() == 1
            &&& actions[0] is LoadArt
            &&& t.current_art_url == Some(actions[0]->LoadArt_0)
            &&& t.art_attempts == if s.current_art_url == t.current_art_url {
                s.art_attempts + 1
            } else {
                1
            }
            &&& t.album_art is None
        }),
{
}

/// Retries are bounded: while one URL stays current, it is fetched at most
/// [`MAX_ART_ATTEMPTS`] times, those made before counted in.
pub proof fn law_retries_are_bounded<H>(
    s: AppState<H>,
    url: Seq<char>,
    messages: Seq<MessageView<H>>,
)
    requires
        app_wf(s),
        forall|n: int|
            0 <= n <= messages.len() ==> (#[trigger] run(s, messages.take(n))).current_art_url
                == Some(url),
    ensures
        s.art_attempts + fetch_count(s, messages) <= MAX_ART_ATTEMPTS,
{
    lemma_attempts_count(s, url, messages);
}

proof fn lemma_attempts_count<H>(s: AppState<H>, url: Seq<char>, messages: Seq<MessageView<H>>)
    requires
        app_wf(s),
        forall|n: int|
            0 <= n <= messages.len() ==> (#[trigger] run(s, messages.take(n))).current_art_url
                == Some(url),
    ensures
        app_wf(run(s, messages)),
        run(s, messages).art_attempts == s.art_attempts + fetch_count(s, messages),
    decreases messages.len(),
{
    if messages.len() > 0 {
        let head = messages.drop_last();
        assert forall|n: int| 0 <= n <= head.len() implies (#[trigger] run(
            s,
            head.take(n),
        )).current_art_url == Some(url) by {
            assert(head.take(n) =~= messages.take(n));
        }
        lemma_attempts_count(s, url, head);
        let before = run(s, head);
        let m = messages.last();
        assert(messages.take(messages.len() - 1) =~= head);
        assert(messages.take(messages.len() as int) =~= messages);
        law_step_keeps_wf(before, m);
        if fetches(before, m) {
            law_fetch_is_an_attempt(before, m);
        } else {
            match m {
                MessageView::Polled(poll) => {
                    let received = poll_received(before, poll.players);
                    match poll.player {
                        Some(info) => {
                            let hit = poll_hit(received, info);
                            if fetch_due(hit, info.art_url) {
                                assert(step(before, m).1[0] is LoadArt);
                            }
                        },
                        None => {},
                    }
                },
                _ => {},
            }
        }
    } else {
        assert(messages.take(0) =~= messages);
    }
}

/// Art that is past, or that could not be loaded, changes nothing.
pub proof fn law_stale_art_is_ignored<H>(
    s: AppState<H>,
    url: Seq<char>,
    handle: Option<H>,
    blurred: Option<H>,
    color: Option<crate::raster::Rgb>,
)
    ensures
        s.current_art_url != Some(url) || handle is None ==> step(
            s,
            MessageView::ArtLoaded { url, handle, blurred, color },
        ).0 == s,
{
}

/// Once a cover is there, the same track fetches none again.
pub proof fn law_loaded_art_is_kept<H>(s: AppState<H>, poll: PollView)
    requires
        s.album_art is Some,
        poll.player matches Some(info) && info.art_url == s.current_art_url && info.art_url is Some,
    ensures
        step(s, MessageView::Polled(poll)).0.album_art == s.album_art,
        step(s, MessageView::Polled(poll)).1.len() == 0,
{
}

/// Whether a run is of polls that found no player.
pub open spec fn all_misses<H>(messages: Seq<MessageView<H>>) -> bool {
    forall|i: int|
        0 <= i < messages.len() ==> match #[trigger] messages[i] {
            MessageView::Polled(poll) => poll.player is None,
            _ => false,
        }
}

/// A player that drops out for a few polls stays on display with its cover, and
/// goes once [`MAX_MISSED_POLLS`] in a row have missed it.
pub proof fn law_misses_are_tolerated<H>(s: AppState<H>, messages: Seq<MessageView<H>>)
    requires
        s.player.bus_name.len() > 0,
        s.missed_polls == 0,
        all_misses(messages),
        messages.len() <= MAX_MISSED_POLLS,
    ensures
        ({
            let t = run(s, messages);
            if messages.len() < MAX_MISSED_POLLS {
                &&& t.player == s.player
                &&& t.album_art == s.album_art
                &&& t.current_art_url == s.current_art_url
                &&& t.seeking == s.seeking
                &&& t.missed_polls == messages.len()
            } else {
                &&& t.player == no_player()
                &&& t.album_art is None
                &&& t.current_art_url is None
                &&& t.seeking is None
            }
        }),
    decreases messages.len(),
{
    if messages.len() > 0 {
        let head = messages.drop_last();
        assert(all_misses(head));
        law_misses_are_tolerated(s, head);
        assert(messages.last() == messages[messages.len() - 1]);
    }
}

/// Closing the main popup closes the settings popup with it: none is left open,
/// and every window that was open is destroyed.
pub proof fn law_settings_do_not_outlive_the_popup<H>(s: AppState<H>)
    requires
        s.popup is Some,
    ensures
        ({
            let (t, actions) = step(s, MessageView::<H>::TogglePopup);
            &&& t.popup is None
            &&& t.settings_popup is None
            &&& actions.contains(ActionView::DestroyPopup(s.popup->0))
            &&& s.settings_popup is Some ==> actions.contains(
                ActionView::DestroyPopup(s.settings_popup->0),
            )
        }),
{
    let actions = step(s, MessageView::<H>::TogglePopup).1;
    assert(actions[0] == ActionView::DestroyPopup(s.popup->0));
    if s.settings_popup is Some {
        assert(actions[1] == ActionView::DestroyPopup(s.settings_popup->0));
    }
}

/// A popup that is opened and closed by its window leaves no trace of itself.
pub proof fn law_closed_popup_is_gone<H>(s: AppState<H>, id: u64)
    ensures
        step(s, MessageView::<H>::PopupClosed(id)).0.popup != Some(id),
        step(s, MessageView::<H>::PopupClosed(id)).0.settings_popup != Some(id),
{
}

/// Scrolling is never lost: the skips made and what is left over add up to what
/// was scrolled, less than a notch is left, and it never points against the
/// skips.
pub proof fn law_scrolling_adds_up<H>(s: AppState<H>, units: i32)
    ensures
        ({
            let (t, actions) = step(s, MessageView::<H>::Scroll(units));
            let notches = whole_notches(s.scroll_accum + units);
            &&& notches * NOTCH + t.scroll_accum == s.scroll_accum + units
            &&& -NOTCH < t.scroll_accum < NOTCH
            &&& notches > 0 ==> t.scroll_accum >= 0
            &&& notches < 0 ==> t.scroll_accum <= 0
            &&& actions.len() == if notches >= 0 {
                notches
            } else {
                -notches
            }
            &&& forall|i: int|
                0 <= i < actions.len() ==> #[trigger] actions[i] == if notches > 0 {
                    ActionView::Next(s.player.bus_name)
                } else {
                    ActionView::Previous(s.player.bus_name)
                }
        }),
{
    let total = s.scroll_accum + units;
    if total >= 0 {
        assert(total == (total / (NOTCH as int)) * NOTCH + total % (NOTCH as int));
    } else {
        let u = -total;
        assert(u == (u / (NOTCH as int)) * NOTCH + u % (NOTCH as int));
    }
}

/// A seek holds the slider at its target: letting go asks the player to move
/// there and changes nothing, and polls leave the target until playback has
/// come to it.
pub proof fn law_seek_holds_until_reached<H>(s: AppState<H>, pos: u64, poll: PollView)
    ensures
        ({
            let dragged = step(s, MessageView::<H>::SeekChanged(pos)).0;
            let (released, asked) = step(dragged, MessageView::<H>::SeekCommit);
            let t = step(released, MessageView::<H>::Polled(poll)).0;
            &&& dragged.seeking == Some(pos)
            &&& released == dragged
            &&& asked == seq![
                ActionView::SeekTo {
                    bus_name: s.player.bus_name,
                    position_us: pos,
                    current_position_us: s.player.position_us,
                },
            ]
            &&& poll.player matches Some(info) ==> if seek_reached(info.position_us, pos) {
                t.seeking is None
            } else {
                t.seeking == Some(pos)
            }
        }),
{
}

/// A pinned player stays pinned exactly as long as polls list it, and only the
/// user pins one.
pub proof fn law_pin_lasts_while_listed<H>(s: AppState<H>, m: MessageView<H>)
    ensures
        ({
            let t = step(s, m).0;
            match m {
                MessageView::Polled(poll) => t.selected_player == if s.selected_player matches Some(
                    name,
                ) && listed(poll.players, name) {
                    s.selected_player
                } else {
                    None
                },
                MessageView::SelectPlayer(name) => t.selected_player == Some(name),
                _ => t.selected_player == s.selected_player,
            }
        }),
{
}

/// A run of that many ticks and nothing else.
pub open spec fn ticks<H>(n: nat) -> Seq<MessageView<H>> {
    Seq::new(n, |i: int| MessageView::<H>::Tick)
}

/// Ticks poll at the pace of what is on screen: after a poll, those before the
/// last of the interval ask for nothing, and the last asks for the next poll.
pub proof fn law_ticks_keep_the_pace<H>(s: AppState<H>, n: nat)
    requires
        !s.poll_in_flight,
        s.ticks_since_poll == 0,
        n < cadence(s),
    ensures
        ({
            let t = run(s, ticks::<H>(n));
            &&& t == (AppState { ticks_since_poll: n as u8, ..s })
            &&& step(t, MessageView::<H>::Tick).1 == if n + 1 == cadence(s) {
                seq![ActionView::Poll { selected: s.selected_player, popup_open: s.popup is Some }]
            } else {
                seq![]
            }
        }),
    decreases n,
{
    if n > 0 {
        let k = (n - 1) as nat;
        law_ticks_keep_the_pace(s, k);
        assert(ticks::<H>(n).drop_last() =~= ticks::<H>(k));
    }
}

/// Settings are saved as they are: what is written is what is then in force.
pub proof fn law_saved_settings_are_in_force<H>(s: AppState<H>, m: MessageView<H>)
    ensures
        forall|i: int|
            0 <= i < step(s, m).1.len() && (#[trigger] step(s, m).1[i]) is SaveConfig ==> step(
                s,
                m,
            ).1[i] == ActionView::SaveConfig(step(s, m).0.config),
        m is LabelMaxLengthChanged || m is TrackFirstChanged ==> step(s, m).1.len() == 1 && step(
            s,
            m,
        ).1[0] is SaveConfig,
        !(m is LabelMaxLengthChanged || m is TrackFirstChanged || m is UpdateConfig) ==> step(
            s,
            m,
        ).0.config == s.config,
{
}

/// Whom a command is for.
pub open spec fn addressee(a: ActionView) -> Option<Seq<char>> {
    match a {
        ActionView::PlayPause(name) => Some(name),
        ActionView::Next(name) => Some(name),
        ActionView::Previous(name) => Some(name),
        ActionView::SeekTo { bus_name, .. } => Some(bus_name),
        _ => None,
    }
}

/// Commands go to the player on display and to no other.
pub proof fn law_commands_go_to_the_displayed_player<H>(s: AppState<H>, m: MessageView<H>)
    ensures
        forall|i: int|
            0 <= i < step(s, m).1.len() ==> match addressee(#[trigger] step(s, m).1[i]) {
                Some(name) => name == s.player.bus_name,
                None => true,
            },
{
}

/// Choosing a player lets nothing of the last one linger: its cover, the URL of
/// the cover and a seek under way are gone.
pub proof fn law_choice_clears_the_cover<H>(s: AppState<H>, name: Seq<char>)
    ensures
        ({
            let t = step(s, MessageView::<H>::SelectPlayer(name)).0;
            &&& t.album_art is None
            &&& t.album_art_blurred is None
            &&& t.album_art_color is None
            &&& t.current_art_url is None
            &&& t.seeking is None
        }),
{
}

/// The popup never opens without a poll under way that reads what it shows or
/// was under way before.
pub proof fn law_popup_opens_with_a_poll<H>(s: AppState<H>)
    requires
        s.popup is None,
    ensures
        ({
            let (t, actions) = step(s, MessageView::<H>::TogglePopup);
            &&& actions[0] is OpenPopup
            &&& t.poll_in_flight
            &&& !s.poll_in_flight ==> actions.len() == 2 && actions[1] == (ActionView::Poll {
                selected: s.selected_player,
                popup_open: true,
            })
        }),
{
}

} // verus!
