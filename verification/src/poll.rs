//! One poll of the bus, from the names on it to the player on display.
use vstd::prelude::*;
use vstd::string::*;

use crate::metadata::opt_text;
use crate::names::{same_names, texts};
use crate::player::{
    active_index, empty_poll, law_pick_is_one_of_them, pick_active_index, summaries, PlaybackStatus,
    PlayerSummary, Poll, PollView, SummaryView,
};
use crate::players::{
    caps_of, find_player, found_views, fresh_cache, info_of, live_set, mpris_bus_set, or_default,
    player_info, position_of, refresh, refreshed, remembers, slot_view, Cache, CacheView,
    FoundPlayer, FoundView, KnownView, PlayerReading, PlayerReadingView, SummaryReading,
    SummaryReadingView,
};
use crate::text::same_text;

verus! {

/// How far a poll has come: what it has asked for last.
#[derive(Debug, Clone, PartialEq)]
pub enum PollStage {
    Connecting,
    Listing,
    Finding,
    Summarizing,
    Reading { players: Vec<PlayerSummary>, index: usize },
    Done,
}

pub enum StageView {
    Connecting,
    Listing,
    Finding,
    Summarizing,
    Reading { players: Seq<SummaryView>, index: int },
    Done,
}

impl View for PollStage {
    type V = StageView;

    open spec fn view(&self) -> StageView {
        match *self {
            PollStage::Connecting => StageView::Connecting,
            PollStage::Listing => StageView::Listing,
            PollStage::Finding => StageView::Finding,
            PollStage::Summarizing => StageView::Summarizing,
            PollStage::Reading { players, index } => StageView::Reading {
                players: summaries(players@),
                index: index as int,
            },
            PollStage::Done => StageView::Done,
        }
    }
}

/// A poll under way. `selected` pins a player by its name without the prefix,
/// else the most likely active one wins; `popup_open` gates what only the popup
/// shows.
#[derive(Debug, Clone, PartialEq)]
pub struct PollRun {
    pub selected: Option<String>,
    pub popup_open: bool,
    pub stage: PollStage,
}

pub struct RunView {
    pub selected: Option<Seq<char>>,
    pub popup_open: bool,
    pub stage: StageView,
}

impl View for PollRun {
    type V = RunView;

    open spec fn view(&self) -> RunView {
        RunView {
            selected: opt_text(self.selected),
            popup_open: self.popup_open,
            stage: self.stage@,
        }
    }
}

/// What a poll asks for.
#[derive(Debug, Clone, PartialEq)]
pub enum PollAction {
    /// Connect to the bus.
    Connect,
    /// List the names on the bus.
    ListNames,
    /// Search the bus for players.
    FindAll,
    /// Read of each known player its status and its title, each where asked for.
    ReadSummaries { statuses: bool, titles: bool },
    /// Read of the player with that handle its track, and its status, position
    /// and capabilities, each where asked for.
    ReadPlayer { handle: usize, status: bool, position: bool, caps: bool },
    /// The poll is over.
    Finish(Poll),
}

pub enum PollActionView {
    Connect,
    ListNames,
    FindAll,
    ReadSummaries { statuses: bool, titles: bool },
    ReadPlayer { handle: usize, status: bool, position: bool, caps: bool },
    Finish(PollView),
}

impl View for PollAction {
    type V = PollActionView;

    open spec fn view(&self) -> PollActionView {
        match *self {
            PollAction::Connect => PollActionView::Connect,
            PollAction::ListNames => PollActionView::ListNames,
            PollAction::FindAll => PollActionView::FindAll,
            PollAction::ReadSummaries { statuses, titles } => PollActionView::ReadSummaries {
                statuses,
                titles,
            },
            PollAction::ReadPlayer { handle, status, position, caps } => PollActionView::ReadPlayer {
                handle,
                status,
                position,
                caps,
            },
            PollAction::Finish(p) => PollActionView::Finish(p@),
        }
    }
}

/// What came back of what a poll asked for.
#[derive(Debug, Clone, PartialEq)]
pub enum PollEvent {
    Connected,
    Names(Vec<String>),
    Found(Vec<FoundPlayer>),
    /// One reading for each known player, in order; one that is missing counts
    /// as failed.
    Summaries(Vec<SummaryReading>),
    Player(PlayerReading),
    Failed,
}

pub enum PollEventView {
    Connected,
    Names(Seq<Seq<char>>),
    Found(Seq<FoundView>),
    Summaries(Seq<SummaryReadingView>),
    Player(PlayerReadingView),
    Failed,
}

pub open spec fn reading_views(v: Seq<SummaryReading>) -> Seq<SummaryReadingView> {
    v.map_values(|r: SummaryReading| r@)
}

impl View for PollEvent {
    type V = PollEventView;

    open spec fn view(&self) -> PollEventView {
        match *self {
            PollEvent::Connected => PollEventView::Connected,
            PollEvent::Names(names) => PollEventView::Names(texts(names@)),
            PollEvent::Found(found) => PollEventView::Found(found_views(found@)),
            PollEvent::Summaries(readings) => PollEventView::Summaries(reading_views(readings@)),
            PollEvent::Player(reading) => PollEventView::Player(reading@),
            PollEvent::Failed => PollEventView::Failed,
        }
    }
}

/// Where the pinned player stands, if one is pinned and there.
pub open spec fn pinned_index(c: CacheView, run: RunView) -> Option<int> {
    match run.selected {
        Some(name) => position_of(c.players, name),
        None => None,
    }
}

/// Status matters for picking and titles for the picker, so a pinned player
/// with the popup closed needs neither read.
pub open spec fn reads_statuses(c: CacheView, run: RunView) -> bool {
    run.popup_open || pinned_index(c, run) is None
}

/// A player's summary: its name, and of its status and title what was asked for
/// and could be read.
pub open spec fn summary_of(
    p: KnownView,
    reading: Option<SummaryReadingView>,
    statuses: bool,
    titles: bool,
) -> SummaryView {
    SummaryView {
        bus_name: p.bus_name,
        identity: p.identity,
        status: match reading {
            Some(r) => if statuses {
                or_default(r.status, PlaybackStatus::Stopped)
            } else {
                PlaybackStatus::Stopped
            },
            None => PlaybackStatus::Stopped,
        },
        title: match reading {
            Some(r) => if titles {
                or_default(r.title, Seq::empty())
            } else {
                Seq::empty()
            },
            None => Seq::empty(),
        },
    }
}

/// The summaries of all players, in the order of the cache.
pub open spec fn summary_list(
    c: CacheView,
    run: RunView,
    readings: Seq<SummaryReadingView>,
) -> Seq<SummaryView> {
    Seq::new(
        c.players.len(),
        |i: int|
            summary_of(
                c.players[i],
                if i < readings.len() {
                    Some(readings[i])
                } else {
                    None
                },
                reads_statuses(c, run),
                run.popup_open,
            ),
    )
}

/// The player to display: the pinned one, else the one picked.
pub open spec fn chosen_index(c: CacheView, run: RunView, list: Seq<SummaryView>) -> Option<int> {
    match pinned_index(c, run) {
        Some(i) => Some(i),
        None => active_index(list),
    }
}

/// The reads asked for once the players are known.
pub open spec fn summaries_request(c: CacheView, run: RunView) -> PollActionView {
    PollActionView::ReadSummaries { statuses: reads_statuses(c, run), titles: run.popup_open }
}

pub open spec fn at_stage(run: RunView, stage: StageView) -> RunView {
    RunView { selected: run.selected, popup_open: run.popup_open, stage }
}

/// A failed poll finds nothing and gives up the connection, so that the next one
/// reconnects.
pub open spec fn failed_poll(run: RunView) -> (Option<CacheView>, RunView, PollActionView) {
    (None, at_stage(run, StageView::Done), PollActionView::Finish(empty_poll()))
}

/// How a poll starts: by connecting, where there is no connection.
pub open spec fn poll_start(
    slot: Option<CacheView>,
    selected: Option<Seq<char>>,
    popup_open: bool,
) -> (RunView, PollActionView) {
    if slot is None {
        (
            RunView { selected, popup_open, stage: StageView::Connecting },
            PollActionView::Connect,
        )
    } else {
        (RunView { selected, popup_open, stage: StageView::Listing }, PollActionView::ListNames)
    }
}

/// How a poll goes on once the summaries are read.
pub open spec fn after_summaries(
    c: CacheView,
    run: RunView,
    readings: Seq<SummaryReadingView>,
) -> (Option<CacheView>, RunView, PollActionView) {
    let list = summary_list(c, run, readings);
    match chosen_index(c, run, list) {
        Some(i) => (
            Some(c),
            at_stage(run, StageView::Reading { players: list, index: i }),
            PollActionView::ReadPlayer {
                handle: c.players[i].handle,
                status: !reads_statuses(c, run),
                position: run.popup_open,
                caps: run.popup_open && !remembers(c.caps, c.players[i].bus_name),
            },
        ),
        None => (
            Some(c),
            at_stage(run, StageView::Done),
            PollActionView::Finish(PollView { player: None, players: list }),
        ),
    }
}

/// How a poll ends once the chosen player is read.
pub open spec fn after_reading(
    c: CacheView,
    run: RunView,
    list: Seq<SummaryView>,
    index: int,
    reading: PlayerReadingView,
) -> (Option<CacheView>, RunView, PollActionView) {
    let name = c.players[index].bus_name;
    let status = if reads_statuses(c, run) {
        Some(list[index].status)
    } else {
        None
    };
    let caps = if run.popup_open {
        Some((name, caps_of(name, reading.caps, c.caps)))
    } else {
        c.caps
    };
    (
        Some(CacheView { players: c.players, bus_set: c.bus_set, caps }),
        at_stage(run, StageView::Done),
        PollActionView::Finish(
            PollView {
                player: Some(info_of(name, reading, status, run.popup_open, c.caps)),
                players: list,
            },
        ),
    )
}

/// One step of a poll. Players are searched for only where the set of names on
/// the bus has changed; an event that answers nothing asked for fails the poll.
pub open spec fn poll_step(slot: Option<CacheView>, run: RunView, event: PollEventView) -> (
    Option<CacheView>,
    RunView,
    PollActionView,
) {
    match (slot, run.stage, event) {
        (_, StageView::Connecting, PollEventView::Connected) => (
            Some(fresh_cache()),
            at_stage(run, StageView::Listing),
            PollActionView::ListNames,
        ),
        (Some(c), StageView::Listing, PollEventView::Names(names)) => if live_set(names)
            == c.bus_set {
            (Some(c), at_stage(run, StageView::Summarizing), summaries_request(c, run))
        } else {
            (Some(c), at_stage(run, StageView::Finding), PollActionView::FindAll)
        },
        (Some(c), StageView::Finding, PollEventView::Found(found)) => (
            Some(refreshed(c, found)),
            at_stage(run, StageView::Summarizing),
            summaries_request(refreshed(c, found), run),
        ),
        (Some(c), StageView::Summarizing, PollEventView::Summaries(readings)) => after_summaries(
            c,
            run,
            readings,
        ),
        (
            Some(c),
            StageView::Reading { players, index },
            PollEventView::Player(reading),
        ) => if 0 <= index < players.len() && index < c.players.len() {
            after_reading(c, run, players, index, reading)
        } else {
            failed_poll(run)
        },
        _ => failed_poll(run),
    }
}

/// Starts a poll.
pub fn poll(slot: &Option<Cache>, selected: Option<String>, popup_open: bool) -> (r: (
    PollRun,
    PollAction,
))
    ensures
        (r.0@, r.1@) == poll_start(slot_view(*slot), opt_text(selected), popup_open),
{
    if slot.is_none() {
        (PollRun { selected, popup_open, stage: PollStage::Connecting }, PollAction::Connect)
    } else {
        (PollRun { selected, popup_open, stage: PollStage::Listing }, PollAction::ListNames)
    }
}

fn find_pinned(cache: &Cache, selected: &Option<String>) -> (r: Option<usize>)
    ensures
        ({
            let found = match opt_text(*selected) {
                Some(name) => position_of(cache@.players, name),
                None => None,
            };
            match r {
                Some(i) => found == Some(i as int) && i < cache.players.len(),
                None => found is None,
            }
        }),
{
    match selected {
        Some(name) => find_player(&cache.players, name.as_str()),
        None => None,
    }
}

fn fail(slot: &mut Option<Cache>, selected: Option<String>, popup_open: bool) -> (r: (
    PollRun,
    PollAction,
))
    ensures
        *final(slot) is None,
        r.0.selected == selected,
        r.0.popup_open == popup_open,
        r.0.stage == PollStage::Done,
        r.1@ == PollActionView::Finish(empty_poll()),
{
    *slot = None;
    (
        PollRun { selected, popup_open, stage: PollStage::Done },
        PollAction::Finish(Poll::default()),
    )
}

fn summarize(
    cache: &Cache,
    readings: &Vec<SummaryReading>,
    statuses: bool,
    titles: bool,
) -> (r: Vec<PlayerSummary>)
    ensures
        r.len() == cache.players.len(),
        forall|i: int|
            0 <= i < r.len() ==> (#[trigger] r@[i])@ == summary_of(
                cache.players@[i]@,
                if i < readings.len() {
                    Some(readings@[i]@)
                } else {
                    None
                },
                statuses,
                titles,
            ),
{
    let mut out: Vec<PlayerSummary> = Vec::new();
    let mut i: usize = 0;
    while i < cache.players.len()
        invariant
            i <= cache.players.len(),
            out.len() == i,
            forall|k: int|
                0 <= k < i ==> (#[trigger] out@[k])@ == summary_of(
                    cache.players@[k]@,
                    if k < readings.len() {
                        Some(readings@[k]@)
                    } else {
                        None
                    },
                    statuses,
                    titles,
                ),
        decreases cache.players.len() - i,
    {
        let p = &cache.players[i];
        let status = if statuses && i < readings.len() {
            readings[i].status.unwrap_or(PlaybackStatus::Stopped)
        } else {
            PlaybackStatus::Stopped
        };
        let title = if titles && i < readings.len() {
            match &readings[i].title {
                Some(t) => t.clone(),
                None => String::new(),
            }
        } else {
            String::new()
        };
        out.push(
            PlayerSummary {
                bus_name: p.bus_name.clone(),
                identity: p.identity.clone(),
                status,
                title,
            },
        );
        i = i + 1;
    }
    out
}

fn knows_caps(cache: &Cache, name: &str) -> (r: bool)
    ensures
        r == remembers(cache@.caps, name@),
{
    match &cache.caps {
        Some((known, _)) => same_text(known.as_str(), name),
        None => false,
    }
}

/// Takes a poll one step on: what was asked for has come back as `event`.
pub fn poll_cached(slot: &mut Option<Cache>, run: PollRun, event: PollEvent) -> (r: (
    PollRun,
    PollAction,
))
    ensures
        (slot_view(*final(slot)), r.0@, r.1@) == poll_step(
            slot_view(*old(slot)),
            run@,
            event@,
        ),
{
    let ghost view = run@;
    let PollRun { selected, popup_open, stage } = run;
    match (slot.take(), stage, event) {
        (_, PollStage::Connecting, PollEvent::Connected) => {
            let cache = Cache { players: Vec::new(), bus_set: Vec::new(), caps: None };
            proof {
                assert(cache@.players =~= fresh_cache().players);
                assert(cache@.bus_set =~= fresh_cache().bus_set);
            }
            *slot = Some(cache);
            (PollRun { selected, popup_open, stage: PollStage::Listing }, PollAction::ListNames)
        },
        (Some(cache), PollStage::Listing, PollEvent::Names(names)) => {
            let current = mpris_bus_set(&names);
            if same_names(&current, &cache.bus_set) {
                let statuses = popup_open || find_pinned(&cache, &selected).is_none();
                *slot = Some(cache);
                (
                    PollRun { selected, popup_open, stage: PollStage::Summarizing },
                    PollAction::ReadSummaries { statuses, titles: popup_open },
                )
            } else {
                *slot = Some(cache);
                (PollRun { selected, popup_open, stage: PollStage::Finding }, PollAction::FindAll)
            }
        },
        (Some(mut cache), PollStage::Finding, PollEvent::Found(found)) => {
            refresh(&mut cache, &found);
            let statuses = popup_open || find_pinned(&cache, &selected).is_none();
            *slot = Some(cache);
            (
                PollRun { selected, popup_open, stage: PollStage::Summarizing },
                PollAction::ReadSummaries { statuses, titles: popup_open },
            )
        },
        (Some(cache), PollStage::Summarizing, PollEvent::Summaries(readings)) => {
            let pinned = find_pinned(&cache, &selected);
            let statuses = popup_open || pinned.is_none();
            let players = summarize(&cache, &readings, statuses, popup_open);
            proof {
                assert(summaries(players@) =~= summary_list(
                    cache@,
                    view,
                    reading_views(readings@),
                ));
                law_pick_is_one_of_them(summaries(players@));
            }
            let chosen = match pinned {
                Some(i) => Some(i),
                None => pick_active_index(players.as_slice()),
            };
            match chosen {
                Some(index) => {
                    let p = &cache.players[index];
                    let action = PollAction::ReadPlayer {
                        handle: p.handle,
                        status: !statuses,
                        position: popup_open,
                        caps: popup_open && !knows_caps(&cache, p.bus_name.as_str()),
                    };
                    *slot = Some(cache);
                    (
                        PollRun {
                            selected,
                            popup_open,
                            stage: PollStage::Reading { players, index },
                        },
                        action,
                    )
                },
                None => {
                    *slot = Some(cache);
                    (
                        PollRun { selected, popup_open, stage: PollStage::Done },
                        PollAction::Finish(Poll { player: None, players }),
                    )
                },
            }
        },
        (
            Some(cache),
            PollStage::Reading { players, index },
            PollEvent::Player(reading),
        ) => {
            if index < players.len() && index < cache.players.len() {
                let status = if popup_open || find_pinned(&cache, &selected).is_none() {
                    Some(players[index].status)
                } else {
                    None
                };
                let Cache { players: known, bus_set, caps } = cache;
                let mut memo = caps;
                let info = player_info(
                    known[index].bus_name.as_str(),
                    reading,
                    status,
                    popup_open,
                    &mut memo,
                );
                *slot = Some(Cache { players: known, bus_set, caps: memo });
                (
                    PollRun { selected, popup_open, stage: PollStage::Done },
                    PollAction::Finish(Poll { player: Some(info), players }),
                )
            } else {
                fail(slot, selected, popup_open)
            }
        },
        _ => fail(slot, selected, popup_open),
    }
}

} // verus!
