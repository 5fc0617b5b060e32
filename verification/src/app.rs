//! The applet's state and how it answers what happens.
//!
//! Windows are numbers, and covers are whatever the caller draws them from: the
//! type `H`.
use vstd::prelude::*;
use vstd::string::*;

use crate::config::Config;
use crate::metadata::opt_text;
use crate::player::{
    no_player, summaries, PlaybackStatus, PlayerInfo, PlayerInfoView, PlayerSummary, Poll,
    PollView, SummaryView,
};
use crate::raster::Rgb;
use crate::text::same_text;

verus! {

/// Art fetches per URL before giving up, enough to ride out a server generating
/// a cover variant on demand.
pub const MAX_ART_ATTEMPTS: u8 = 6;

/// Empty polls in a row after which the last known player is given up.
pub const MAX_MISSED_POLLS: u8 = 4;

/// How close the position must come to a seek target to count as there.
pub const SEEK_TOLERANCE_US: u64 = 2_000_000;

/// Scroll units in one notch of the wheel: divisible by 120, the steps in which
/// fine wheels report, and by 50 times 256, the fractions of the touchpad pixels
/// that make up a notch.
pub const NOTCH: i32 = 38400;

/// Scroll units in one touchpad pixel; fifty pixels are a notch, so that a fling
/// doesn't skip a dozen tracks.
pub const PIXEL: i32 = 768;

/// Side of the gear button that the settings popup is anchored beside.
pub const GEAR: u32 = 32;

pub struct AppModel<H> {
    pub popup: Option<u64>,
    pub settings_popup: Option<u64>,
    /// Main popup size, used to anchor the settings popup beside the gear.
    pub popup_size: Option<(u32, u32)>,
    pub config: Config,
    pub player: PlayerInfo,
    pub album_art: Option<H>,
    /// Blurred copy of the cover, used as the popup's full-bleed backdrop.
    pub album_art_blurred: Option<H>,
    /// Average cover colour, painted behind the blurred backdrop so the frame is
    /// never bare while art loads.
    pub album_art_color: Option<Rgb>,
    pub current_art_url: Option<String>,
    /// Fetch attempts for `current_art_url`; reset when the URL changes.
    pub art_attempts: u8,
    /// The position the slider is held at, in whole microseconds.
    pub seeking: Option<u64>,
    pub missed_polls: u8,
    /// All players seen on the last poll, for the picker.
    pub players: Vec<PlayerSummary>,
    /// User-pinned player (name without the prefix); `None` means auto-pick.
    pub selected_player: Option<String>,
    /// True while a poll runs, so overlapping ticks don't stack.
    pub poll_in_flight: bool,
    /// Base ticks elapsed since the last poll, for adaptive cadence.
    pub ticks_since_poll: u8,
    /// Scroll units not yet spent on a skip, so a touchpad's pixel stream skips
    /// one track per notch rather than per event.
    pub scroll_accum: i32,
}

/// What an applet's state says.
pub struct AppState<H> {
    pub popup: Option<u64>,
    pub settings_popup: Option<u64>,
    pub popup_size: Option<(u32, u32)>,
    pub config: Config,
    pub player: PlayerInfoView,
    pub album_art: Option<H>,
    pub album_art_blurred: Option<H>,
    pub album_art_color: Option<Rgb>,
    pub current_art_url: Option<Seq<char>>,
    pub art_attempts: u8,
    pub seeking: Option<u64>,
    pub missed_polls: u8,
    pub players: Seq<SummaryView>,
    pub selected_player: Option<Seq<char>>,
    pub poll_in_flight: bool,
    pub ticks_since_poll: u8,
    pub scroll_accum: i32,
}

impl<H> View for AppModel<H> {
    type V = AppState<H>;

    open spec fn view(&self) -> AppState<H> {
        AppState {
            popup: self.popup,
            settings_popup: self.settings_popup,
            popup_size: self.popup_size,
            config: self.config,
            player: self.player@,
            album_art: self.album_art,
            album_art_blurred: self.album_art_blurred,
            album_art_color: self.album_art_color,
            current_art_url: opt_text(self.current_art_url),
            art_attempts: self.art_attempts,
            seeking: self.seeking,
            missed_polls: self.missed_polls,
            players: summaries(self.players@),
            selected_player: opt_text(self.selected_player),
            poll_in_flight: self.poll_in_flight,
            ticks_since_poll: self.ticks_since_poll,
            scroll_accum: self.scroll_accum,
        }
    }
}

/// What happens to the applet.
#[derive(Debug, Clone)]
pub enum Message<H> {
    TogglePopup,
    ToggleSettings,
    PopupClosed(u64),
    UpdateConfig(Config),
    Tick,
    Polled(Poll),
    SelectPlayer(String),
    ArtLoaded { url: String, handle: Option<H>, blurred: Option<H>, color: Option<Rgb> },
    PlayPause,
    Next,
    Previous,
    /// Scrolled by that many scroll units; up is positive.
    Scroll(i32),
    LabelMaxLengthChanged(u32),
    TrackFirstChanged(bool),
    SeekChanged(u64),
    SeekCommit,
}

pub enum MessageView<H> {
    TogglePopup,
    ToggleSettings,
    PopupClosed(u64),
    UpdateConfig(Config),
    Tick,
    Polled(PollView),
    SelectPlayer(Seq<char>),
    ArtLoaded { url: Seq<char>, handle: Option<H>, blurred: Option<H>, color: Option<Rgb> },
    PlayPause,
    Next,
    Previous,
    Scroll(i32),
    LabelMaxLengthChanged(u32),
    TrackFirstChanged(bool),
    SeekChanged(u64),
    SeekCommit,
}

impl<H> View for Message<H> {
    type V = MessageView<H>;

    open spec fn view(&self) -> MessageView<H> {
        match *self {
            Message::TogglePopup => MessageView::TogglePopup,
            Message::ToggleSettings => MessageView::ToggleSettings,
            Message::PopupClosed(id) => MessageView::PopupClosed(id),
            Message::UpdateConfig(config) => MessageView::UpdateConfig(config),
            Message::Tick => MessageView::Tick,
            Message::Polled(poll) => MessageView::Polled(poll@),
            Message::SelectPlayer(name) => MessageView::SelectPlayer(name@),
            Message::ArtLoaded { url, handle, blurred, color } => MessageView::ArtLoaded {
                url: url@,
                handle,
                blurred,
                color,
            },
            Message::PlayPause => MessageView::PlayPause,
            Message::Next => MessageView::Next,
            Message::Previous => MessageView::Previous,
            Message::Scroll(units) => MessageView::Scroll(units),
            Message::LabelMaxLengthChanged(len) => MessageView::LabelMaxLengthChanged(len),
            Message::TrackFirstChanged(val) => MessageView::TrackFirstChanged(val),
            Message::SeekChanged(pos) => MessageView::SeekChanged(pos),
            Message::SeekCommit => MessageView::SeekCommit,
        }
    }
}

/// What the applet wants done.
#[derive(Debug, Clone, PartialEq)]
pub enum Action {
    DestroyPopup(u64),
    OpenPopup,
    OpenSettings,
    /// Poll the bus off the UI thread; `popup_open` gates the popup-only extras.
    Poll { selected: Option<String>, popup_open: bool },
    LoadArt(String),
    PlayPause(String),
    Next(String),
    Previous(String),
    SeekTo { bus_name: String, position_us: u64, current_position_us: u64 },
    SaveConfig(Config),
}

pub enum ActionView {
    DestroyPopup(u64),
    OpenPopup,
    OpenSettings,
    Poll { selected: Option<Seq<char>>, popup_open: bool },
    LoadArt(Seq<char>),
    PlayPause(Seq<char>),
    Next(Seq<char>),
    Previous(Seq<char>),
    SeekTo { bus_name: Seq<char>, position_us: u64, current_position_us: u64 },
    SaveConfig(Config),
}

impl View for Action {
    type V = ActionView;

    open spec fn view(&self) -> ActionView {
        match *self {
            Action::DestroyPopup(id) => ActionView::DestroyPopup(id),
            Action::OpenPopup => ActionView::OpenPopup,
            Action::OpenSettings => ActionView::OpenSettings,
            Action::Poll { selected, popup_open } => ActionView::Poll {
                selected: opt_text(selected),
                popup_open,
            },
            Action::LoadArt(url) => ActionView::LoadArt(url@),
            Action::PlayPause(name) => ActionView::PlayPause(name@),
            Action::Next(name) => ActionView::Next(name@),
            Action::Previous(name) => ActionView::Previous(name@),
            Action::SeekTo { bus_name, position_us, current_position_us } => ActionView::SeekTo {
                bus_name: bus_name@,
                position_us,
                current_position_us,
            },
            Action::SaveConfig(config) => ActionView::SaveConfig(config),
        }
    }
}

pub open spec fn action_views(v: Seq<Action>) -> Seq<ActionView> {
    v.map_values(|a: Action| a@)
}

/// The state before anything happened.
pub open spec fn initial_state<H>(config: Config) -> AppState<H> {
    AppState {
        popup: None,
        settings_popup: None,
        popup_size: None,
        config,
        player: no_player(),
        album_art: None,
        album_art_blurred: None,
        album_art_color: None,
        current_art_url: None,
        art_attempts: 0,
        seeking: None,
        missed_polls: 0,
        players: Seq::empty(),
        selected_player: None,
        poll_in_flight: false,
        ticks_since_poll: 0,
        scroll_accum: 0,
    }
}

/// The state without a cover and without a URL to load one from.
pub open spec fn without_art<H>(s: AppState<H>) -> AppState<H> {
    AppState {
        album_art: None,
        album_art_blurred: None,
        album_art_color: None,
        current_art_url: None,
        art_attempts: 0,
        ..s
    }
}

pub open spec fn poll_spawned<H>(s: AppState<H>) -> AppState<H> {
    AppState { ticks_since_poll: 0, poll_in_flight: true, ..s }
}

pub open spec fn poll_request<H>(s: AppState<H>, popup_open: bool) -> ActionView {
    ActionView::Poll { selected: s.selected_player, popup_open }
}

/// Ticks between polls: position is the only sub-second field and it's
/// popup-only, so polls are fast only while the popup is open.
pub open spec fn cadence<H>(s: AppState<H>) -> u8 {
    if s.popup is Some {
        1
    } else if s.player.status == PlaybackStatus::Playing {
        2
    } else {
        4
    }
}

/// One more, up to what a byte holds.
pub open spec fn count_up(n: u8) -> u8 {
    if n == 255 {
        255
    } else {
        (n + 1) as u8
    }
}

/// The state once a poll said which cover belongs to the track.
pub open spec fn art_reconciled<H>(s: AppState<H>, url: Option<Seq<char>>) -> AppState<H> {
    match url {
        None => without_art(s),
        Some(u) => if s.current_art_url != url {
            AppState { current_art_url: url, art_attempts: 1, ..without_art(s) }
        } else if s.album_art is Some || s.art_attempts >= MAX_ART_ATTEMPTS {
            s
        } else {
            AppState { art_attempts: (s.art_attempts + 1) as u8, ..s }
        },
    }
}

/// Whether a fetch is due: for a new URL, or again while the current one has no
/// cover and has not been tried too often.
pub open spec fn fetch_due<H>(s: AppState<H>, url: Option<Seq<char>>) -> bool {
    url is Some && (s.current_art_url != url || (s.album_art is None && s.art_attempts
        < MAX_ART_ATTEMPTS))
}

/// Whether playback has come to a seek target.
pub open spec fn seek_reached(position_us: u64, target: u64) -> bool {
    -(SEEK_TOLERANCE_US as int) < position_us - target < SEEK_TOLERANCE_US
}

/// Whether a player of that name is on a list.
pub open spec fn listed(players: Seq<SummaryView>, name: Seq<char>) -> bool {
    exists|i: int| 0 <= i < players.len() && (#[trigger] players[i]).bus_name == name
}

/// The state once a poll is back, but for the player on display.
pub open spec fn poll_received<H>(s: AppState<H>, players: Seq<SummaryView>) -> AppState<H> {
    AppState {
        poll_in_flight: false,
        players,
        selected_player: match s.selected_player {
            Some(name) => if listed(players, name) {
                Some(name)
            } else {
                None
            },
            None => None,
        },
        ..s
    }
}

/// The state after a poll that found no player: the last known one is kept for
/// a few ticks.
pub open spec fn poll_missed<H>(s: AppState<H>) -> AppState<H> {
    if s.player.bus_name.len() == 0 {
        s
    } else {
        let missed = count_up(s.missed_polls);
        if missed >= MAX_MISSED_POLLS {
            AppState { player: no_player(), seeking: None, missed_polls: missed, ..without_art(s) }
        } else {
            AppState { missed_polls: missed, ..s }
        }
    }
}

/// The state in which the cover is looked at after a poll that found a player.
pub open spec fn poll_hit<H>(s: AppState<H>, info: PlayerInfoView) -> AppState<H> {
    AppState {
        missed_polls: 0,
        seeking: match s.seeking {
            Some(target) => if seek_reached(info.position_us, target) {
                None
            } else {
                Some(target)
            },
            None => None,
        },
        ..s
    }
}

/// Whole notches in a number of scroll units, towards zero.
pub open spec fn whole_notches(units: int) -> int {
    if units >= 0 {
        units / (NOTCH as int)
    } else {
        -((-units) / (NOTCH as int))
    }
}

/// A skip for each whole notch: forward up, back down.
pub open spec fn skips(notches: int, name: Seq<char>) -> Seq<ActionView> {
    if notches >= 0 {
        Seq::new(notches as nat, |i: int| ActionView::Next(name))
    } else {
        Seq::new((-notches) as nat, |i: int| ActionView::Previous(name))
    }
}

/// How the applet answers a message: the state it goes to and what it wants
/// done, in order.
pub open spec fn step<H>(s: AppState<H>, m: MessageView<H>) -> (AppState<H>, Seq<ActionView>) {
    match m {
        MessageView::TogglePopup => match (s.popup, s.settings_popup) {
            (Some(id), None) => (
                AppState { popup: None, ..s },
                seq![ActionView::DestroyPopup(id)],
            ),
            (Some(id), Some(sid)) => (
                AppState { popup: None, settings_popup: None, ..s },
                seq![ActionView::DestroyPopup(id), ActionView::DestroyPopup(sid)],
            ),
            (None, _) => if s.poll_in_flight {
                (s, seq![ActionView::OpenPopup])
            } else {
                (poll_spawned(s), seq![ActionView::OpenPopup, poll_request(s, true)])
            },
        },
        MessageView::ToggleSettings => match s.settings_popup {
            Some(id) => (
                AppState { settings_popup: None, ..s },
                seq![ActionView::DestroyPopup(id)],
            ),
            None => (s, seq![ActionView::OpenSettings]),
        },
        MessageView::PopupClosed(id) => (
            AppState {
                popup: if s.popup == Some(id) {
                    None
                } else {
                    s.popup
                },
                settings_popup: if s.settings_popup == Some(id) {
                    None
                } else {
                    s.settings_popup
                },
                ..s
            },
            seq![],
        ),
        MessageView::UpdateConfig(config) => (AppState { config, ..s }, seq![]),
        MessageView::Tick => {
            let ticks = count_up(s.ticks_since_poll);
            if s.poll_in_flight || ticks < cadence(s) {
                (AppState { ticks_since_poll: ticks, ..s }, seq![])
            } else {
                (poll_spawned(s), seq![poll_request(s, s.popup is Some)])
            }
        },
        MessageView::Polled(poll) => {
            let received = poll_received(s, poll.players);
            match poll.player {
                None => (poll_missed(received), seq![]),
                Some(info) => {
                    let hit = poll_hit(received, info);
                    (
                        AppState { player: info, ..art_reconciled(hit, info.art_url) },
                        if fetch_due(hit, info.art_url) {
                            seq![ActionView::LoadArt(info.art_url->0)]
                        } else {
                            seq![]
                        },
                    )
                },
            }
        },
        MessageView::SelectPlayer(name) => (
            AppState { selected_player: Some(name), seeking: None, ..without_art(s) },
            seq![],
        ),
        MessageView::ArtLoaded { url, handle, blurred, color } => (
            if s.current_art_url == Some(url) && handle is Some {
                AppState {
                    album_art: handle,
                    album_art_blurred: blurred,
                    album_art_color: color,
                    ..s
                }
            } else {
                s
            },
            seq![],
        ),
        MessageView::PlayPause => (s, seq![ActionView::PlayPause(s.player.bus_name)]),
        MessageView::Next => (s, seq![ActionView::Next(s.player.bus_name)]),
        MessageView::Previous => (s, seq![ActionView::Previous(s.player.bus_name)]),
        MessageView::Scroll(units) => {
            let total = s.scroll_accum + units;
            let notches = whole_notches(total);
            (
                AppState { scroll_accum: (total - notches * NOTCH) as i32, ..s },
                skips(notches, s.player.bus_name),
            )
        },
        MessageView::LabelMaxLengthChanged(len) => {
            let config = Config { panel_label_max_length: len, ..s.config };
            (AppState { config, ..s }, seq![ActionView::SaveConfig(config)])
        },
        MessageView::TrackFirstChanged(val) => {
            let config = Config { track_first: val, ..s.config };
            (AppState { config, ..s }, seq![ActionView::SaveConfig(config)])
        },
        MessageView::SeekChanged(pos) => (AppState { seeking: Some(pos), ..s }, seq![]),
        MessageView::SeekCommit => (
            s,
            match s.seeking {
                Some(pos) => seq![
                    ActionView::SeekTo {
                        bus_name: s.player.bus_name,
                        position_us: pos,
                        current_position_us: s.player.position_us,
                    },
                ],
                None => seq![],
            },
        ),
    }
}

fn nothing() -> (r: Vec<Action>)
    ensures
        action_views(r@) == Seq::<ActionView>::empty(),
{
    let r: Vec<Action> = Vec::new();
    assert(action_views(r@) =~= Seq::<ActionView>::empty());
    r
}

fn only(a: Action) -> (r: Vec<Action>)
    ensures
        action_views(r@) == seq![a@],
{
    let ghost view = a@;
    let mut r: Vec<Action> = Vec::new();
    r.push(a);
    assert(action_views(r@) =~= seq![view]);
    r
}

fn both(a: Action, b: Action) -> (r: Vec<Action>)
    ensures
        action_views(r@) == seq![a@, b@],
{
    let ghost first = a@;
    let ghost second = b@;
    let mut r: Vec<Action> = Vec::new();
    r.push(a);
    r.push(b);
    assert(action_views(r@) =~= seq![first, second]);
    r
}

/// Whether a text that may be missing is a given one.
fn is_text(s: &Option<String>, t: &str) -> (r: bool)
    ensures
        r == (opt_text(*s) == Some(t@)),
{
    match s {
        Some(known) => same_text(known.as_str(), t),
        None => false,
    }
}

fn is_listed(players: &Vec<PlayerSummary>, name: &str) -> (r: bool)
    ensures
        r == listed(summaries(players@), name@),
{
    let ghost all = summaries(players@);
    let mut i: usize = 0;
    while i < players.len()
        invariant
            i <= players.len(),
            all == summaries(players@),
            forall|k: int| 0 <= k < i ==> (#[trigger] all[k]).bus_name != name@,
        decreases players.len() - i,
    {
        assert(all[i as int] == players@[i as int]@);
        if same_text(players[i].bus_name.as_str(), name) {
            return true;
        }
        i = i + 1;
    }
    false
}

/// A rectangle in a window.
#[derive(Debug, Clone, Copy, PartialEq, Eq, Structural)]
pub struct AnchorRect {
    pub x: i32,
    pub y: i32,
    pub width: i32,
    pub height: i32,
}

/// What is left of a length beside the gear, as far as a coordinate reaches.
pub open spec fn beside_gear(length: u32) -> i32 {
    if length < GEAR {
        0
    } else if length - GEAR > i32::MAX {
        i32::MAX
    } else {
        (length - GEAR) as i32
    }
}

fn clear_of_gear(length: u32) -> (r: i32)
    ensures
        r == beside_gear(length),
{
    if length < GEAR {
        0
    } else if length - GEAR > 0x7fff_ffff {
        0x7fff_ffff
    } else {
        (length - GEAR) as i32
    }
}

impl<H> AppModel<H> {
    /// The applet as it starts, with the settings that were stored.
    pub fn new(config: Config) -> (r: Self)
        ensures
            r@ == initial_state::<H>(config),
    {
        let r = AppModel {
            popup: None,
            settings_popup: None,
            popup_size: None,
            config,
            player: PlayerInfo::default(),
            album_art: None,
            album_art_blurred: None,
            album_art_color: None,
            current_art_url: None,
            art_attempts: 0,
            seeking: None,
            missed_polls: 0,
            players: Vec::new(),
            selected_player: None,
            poll_in_flight: false,
            ticks_since_poll: 0,
            scroll_accum: 0,
        };
        assert(r@.players =~= Seq::<SummaryView>::empty());
        r
    }

    /// The main popup has been given a window.
    pub fn popup_opened(&mut self, id: u64)
        ensures
            final(self)@ == (AppState { popup: Some(id), ..old(self)@ }),
    {
        self.popup = Some(id);
    }

    /// The settings popup has been given a window. Its parent is the main popup
    /// while that is open, and the panel otherwise.
    pub fn settings_opened(&mut self, id: u64) -> (parent: Option<u64>)
        ensures
            final(self)@ == (AppState { settings_popup: Some(id), ..old(self)@ }),
            parent == old(self).popup,
    {
        self.settings_popup = Some(id);
        self.popup
    }

    /// A window has a new size. Only the main popup's is of interest.
    pub fn window_resized(&mut self, id: u64, width: u32, height: u32)
        ensures
            final(self)@ == (AppState {
                popup_size: if old(self).popup == Some(id) {
                    Some((width, height))
                } else {
                    old(self).popup_size
                },
                ..old(self)@
            }),
    {
        if let Some(popup) = self.popup {
            if popup == id {
                self.popup_size = Some((width, height));
            }
        }
    }

    /// Where in the main popup the gear is, once the popup's size is known.
    pub fn settings_anchor(&self) -> (r: Option<AnchorRect>)
        ensures
            r == (match self.popup_size {
                Some((w, h)) => Some(
                    AnchorRect {
                        x: beside_gear(w),
                        y: beside_gear(h),
                        width: GEAR as i32,
                        height: GEAR as i32,
                    },
                ),
                None => None,
            }),
    {
        match self.popup_size {
            Some((w, h)) => Some(
                AnchorRect {
                    x: clear_of_gear(w),
                    y: clear_of_gear(h),
                    width: GEAR as i32,
                    height: GEAR as i32,
                },
            ),
            None => None,
        }
    }

    fn clear_art(&mut self)
        ensures
            final(self)@ == without_art(old(self)@),
    {
        self.album_art = None;
        self.album_art_blurred = None;
        self.album_art_color = None;
        self.current_art_url = None;
        self.art_attempts = 0;
    }

    /// Asks for one poll, marking it in flight so ticks don't stack.
    fn spawn_poll(&mut self, popup_open: bool) -> (r: Action)
        ensures
            final(self)@ == poll_spawned(old(self)@),
            r@ == poll_request(old(self)@, popup_open),
    {
        self.ticks_since_poll = 0;
        self.poll_in_flight = true;
        Action::Poll { selected: self.selected_player.clone(), popup_open }
    }

    /// Starts an art fetch when one is due: on a new URL, or as a retry (up to
    /// [`MAX_ART_ATTEMPTS`]) while the current URL still has no art.
    pub fn reconcile_art(&mut self, art_url: Option<&str>) -> (r: Option<Action>)
        ensures
            ({
                let url = match art_url {
                    Some(u) => Some(u@),
                    None => None,
                };
                &&& final(self)@ == art_reconciled(old(self)@, url)
                &&& match r {
                    Some(a) => fetch_due(old(self)@, url) && a@ == ActionView::LoadArt(url->0),
                    None => !fetch_due(old(self)@, url),
                }
            }),
    {
        match art_url {
            None => {
                self.clear_art();
                None
            },
            Some(url) => {
                if !is_text(&self.current_art_url, url) {
                    self.clear_art();
                    self.current_art_url = Some(url.to_owned());
                } else if self.album_art.is_some() || self.art_attempts >= MAX_ART_ATTEMPTS {
                    return None;
                }
                self.art_attempts = self.art_attempts + 1;
                Some(Action::LoadArt(url.to_owned()))
            },
        }
    }

    fn toggle_popup(&mut self) -> (r: Vec<Action>)
        ensures
            (final(self)@, action_views(r@)) == step(old(self)@, MessageView::TogglePopup),
    {
        match self.popup.take() {
            Some(id) => {
                // The settings popup must not outlive the main popup it is
                // anchored to.
                match self.settings_popup.take() {
                    Some(sid) => both(Action::DestroyPopup(id), Action::DestroyPopup(sid)),
                    None => only(Action::DestroyPopup(id)),
                }
            },
            None => {
                if self.poll_in_flight {
                    only(Action::OpenPopup)
                } else {
                    // An immediate poll, so the popup opens with position and
                    // controls populated.
                    let poll = self.spawn_poll(true);
                    both(Action::OpenPopup, poll)
                }
            },
        }
    }

    fn toggle_settings(&mut self) -> (r: Vec<Action>)
        ensures
            (final(self)@, action_views(r@)) == step(old(self)@, MessageView::ToggleSettings),
    {
        match self.settings_popup.take() {
            Some(id) => only(Action::DestroyPopup(id)),
            None => only(Action::OpenSettings),
        }
    }

    fn popup_closed(&mut self, id: u64)
        ensures
            final(self)@ == step(old(self)@, MessageView::PopupClosed(id)).0,
    {
        if let Some(popup) = self.popup {
            if popup == id {
                self.popup = None;
            }
        }
        if let Some(popup) = self.settings_popup {
            if popup == id {
                self.settings_popup = None;
            }
        }
    }

    fn tick(&mut self) -> (r: Vec<Action>)
        ensures
            (final(self)@, action_views(r@)) == step(old(self)@, MessageView::Tick),
    {
        self.ticks_since_poll = self.ticks_since_poll.saturating_add(1);
        let popup_open = self.popup.is_some();
        let desired: u8 = if popup_open {
            1
        } else if self.player.status == PlaybackStatus::Playing {
            2
        } else {
            4
        };
        if self.poll_in_flight || self.ticks_since_poll < desired {
            nothing()
        } else {
            let poll = self.spawn_poll(popup_open);
            only(poll)
        }
    }

    fn missed(&mut self)
        ensures
            final(self)@ == poll_missed(old(self)@),
    {
        if !self.player.bus_name.as_str().is_empty() {
            self.missed_polls = self.missed_polls.saturating_add(1);
            if self.missed_polls >= MAX_MISSED_POLLS {
                self.player = PlayerInfo::default();
                self.clear_art();
                self.seeking = None;
            }
        }
    }

    fn polled(&mut self, poll: Poll) -> (r: Vec<Action>)
        ensures
            (final(self)@, action_views(r@)) == step(old(self)@, MessageView::Polled(poll@)),
    {
        let Poll { player, players } = poll;
        self.poll_in_flight = false;
        self.players = players;
        // Fall back to auto-pick if the pinned player is gone.
        let gone = match &self.selected_player {
            Some(name) => !is_listed(&self.players, name.as_str()),
            None => false,
        };
        if gone {
            self.selected_player = None;
        }
        match player {
            None => {
                self.missed();
                nothing()
            },
            Some(info) => {
                self.missed_polls = 0;
                if let Some(target) = self.seeking {
                    let apart: u64 = if info.position_us >= target {
                        info.position_us - target
                    } else {
                        target - info.position_us
                    };
                    if apart < SEEK_TOLERANCE_US {
                        self.seeking = None;
                    }
                }
                let load = match &info.art_url {
                    Some(url) => self.reconcile_art(Some(url.as_str())),
                    None => self.reconcile_art(None),
                };
                self.player = info;
                match load {
                    Some(action) => only(action),
                    None => nothing(),
                }
            },
        }
    }

    fn select_player(&mut self, name: String)
        ensures
            final(self)@ == step(old(self)@, MessageView::SelectPlayer(name@)).0,
    {
        // Per-player state is reset so the old art doesn't linger.
        self.clear_art();
        self.selected_player = Some(name);
        self.seeking = None;
    }

    fn art_loaded(
        &mut self,
        url: &str,
        handle: Option<H>,
        blurred: Option<H>,
        color: Option<Rgb>,
    )
        ensures
            final(self)@ == step(
                old(self)@,
                MessageView::ArtLoaded { url: url@, handle, blurred, color },
            ).0,
    {
        // Art for a track that is past is ignored; on failure the cover stays
        // missing so that the fetch is retried.
        if is_text(&self.current_art_url, url) && handle.is_some() {
            self.album_art = handle;
            self.album_art_blurred = blurred;
            self.album_art_color = color;
        }
    }

    fn scroll(&mut self, units: i32) -> (r: Vec<Action>)
        ensures
            (final(self)@, action_views(r@)) == step(old(self)@, MessageView::Scroll(units)),
    {
        let ghost name = self.player@.bus_name;
        let total: i64 = self.scroll_accum as i64 + units as i64;
        let forward = total >= 0;
        let mut rest: i64 = if forward {
            total
        } else {
            -total
        };
        let ghost whole = rest as int / (NOTCH as int);
        let mut out: Vec<Action> = Vec::new();
        assert(action_views(out@) =~= Seq::<ActionView>::empty());
        while rest >= NOTCH as i64
            invariant
                0 <= rest <= 0x1_0000_0000,
                name == self.player@.bus_name,
                whole == out@.len() + rest as int / (NOTCH as int),
                total == (if forward {
                    out@.len() * NOTCH + rest
                } else {
                    -(out@.len() * NOTCH + rest)
                }),
                forall|k: int|
                    0 <= k < out@.len() ==> (#[trigger] out@[k])@ == (if forward {
                        ActionView::Next(name)
                    } else {
                        ActionView::Previous(name)
                    }),
            decreases rest,
        {
            rest = rest - NOTCH as i64;
            let bus = self.player.bus_name.clone();
            out.push(
                if forward {
                    Action::Next(bus)
                } else {
                    Action::Previous(bus)
                },
            );
        }
        self.scroll_accum = if forward {
            rest as i32
        } else {
            -(rest as i32)
        };
        proof {
            assert(out@.len() == whole);
            assert(action_views(out@) =~= skips(whole_notches(total as int), name));
        }
        out
    }

    fn seek_commit(&self) -> (r: Vec<Action>)
        ensures
            action_views(r@) == step(self@, MessageView::SeekCommit).1,
    {
        // The slider stays pinned to the target until a poll confirms that the
        // position caught up.
        match self.seeking {
            Some(pos) => only(
                Action::SeekTo {
                    bus_name: self.player.bus_name.clone(),
                    position_us: pos,
                    current_position_us: self.player.position_us,
                },
            ),
            None => nothing(),
        }
    }

    /// Answers a message: changes the state and says what is to be done, in
    /// order.
    pub fn update(&mut self, message: Message<H>) -> (r: Vec<Action>)
        ensures
            (final(self)@, action_views(r@)) == step(old(self)@, message@),
    {
        match message {
            Message::TogglePopup => self.toggle_popup(),
            Message::ToggleSettings => self.toggle_settings(),
            Message::PopupClosed(id) => {
                self.popup_closed(id);
                nothing()
            },
            Message::UpdateConfig(config) => {
                self.config = config;
                nothing()
            },
            Message::Tick => self.tick(),
            Message::Polled(poll) => self.polled(poll),
            Message::SelectPlayer(name) => {
                self.select_player(name);
                nothing()
            },
            Message::ArtLoaded { url, handle, blurred, color } => {
                self.art_loaded(url.as_str(), handle, blurred, color);
                nothing()
            },
            Message::PlayPause => only(Action::PlayPause(self.player.bus_name.clone())),
            Message::Next => only(Action::Next(self.player.bus_name.clone())),
            Message::Previous => only(Action::Previous(self.player.bus_name.clone())),
            Message::Scroll(units) => self.scroll(units),
            Message::LabelMaxLengthChanged(len) => {
                self.config.panel_label_max_length = len;
                only(Action::SaveConfig(self.config))
            },
            Message::TrackFirstChanged(val) => {
                self.config.track_first = val;
                only(Action::SaveConfig(self.config))
            },
            Message::SeekChanged(pos) => {
                self.seeking = Some(pos);
                nothing()
            },
            Message::SeekCommit => self.seek_commit(),
        }
    }
}

} // verus!
