//! Transport controls: how a command reaches the player it is meant for.
use vstd::prelude::*;
use vstd::string::*;

use crate::players::{
    find_player, found_views, fresh_cache, position_of, refresh, refreshed, slot_view, Cache,
    CacheView, FoundPlayer, FoundView,
};

verus! {

/// A command to a player.
#[derive(Debug, Clone, Copy, PartialEq, Eq, Structural)]
pub enum Control {
    PlayPause,
    Next,
    Previous,
    /// Move by that many microseconds.
    Seek(i64),
}

#[derive(Debug, Clone, Copy, PartialEq, Eq, Structural)]
pub enum ControlStage {
    Connecting,
    Finding,
    Done,
}

/// A command on its way.
#[derive(Debug, Clone, PartialEq)]
pub struct ControlRun {
    pub bus_name: String,
    pub control: Control,
    pub stage: ControlStage,
}

pub struct ControlRunView {
    pub bus_name: Seq<char>,
    pub control: Control,
    pub stage: ControlStage,
}

impl View for ControlRun {
    type V = ControlRunView;

    open spec fn view(&self) -> ControlRunView {
        ControlRunView { bus_name: self.bus_name@, control: self.control, stage: self.stage }
    }
}

/// What a command asks for.
#[derive(Debug, Clone, Copy, PartialEq, Eq, Structural)]
pub enum ControlAction {
    /// Connect to the bus.
    Connect,
    /// Search the bus for players.
    FindAll,
    /// Give the command to the player with that handle.
    Invoke { handle: usize, control: Control },
    /// The command reaches nobody.
    Nothing,
}

/// What came back.
#[derive(Debug, Clone, PartialEq)]
pub enum ControlEvent {
    Connected,
    Found(Vec<FoundPlayer>),
    Failed,
}

pub enum ControlEventView {
    Connected,
    Found(Seq<FoundView>),
    Failed,
}

impl View for ControlEvent {
    type V = ControlEventView;

    open spec fn view(&self) -> ControlEventView {
        match *self {
            ControlEvent::Connected => ControlEventView::Connected,
            ControlEvent::Found(found) => ControlEventView::Found(found_views(found@)),
            ControlEvent::Failed => ControlEventView::Failed,
        }
    }
}

/// The player of a name, as far as it is known.
pub open spec fn handle_of(c: CacheView, name: Seq<char>) -> Option<usize> {
    match position_of(c.players, name) {
        Some(i) => Some(c.players[i].handle),
        None => None,
    }
}

/// How a command starts: it goes straight to a player that is known, and
/// connects or searches where that is not so.
pub open spec fn control_start(slot: Option<CacheView>, name: Seq<char>, control: Control) -> (
    ControlStage,
    ControlAction,
) {
    match slot {
        None => (ControlStage::Connecting, ControlAction::Connect),
        Some(c) => match handle_of(c, name) {
            Some(handle) => (ControlStage::Done, ControlAction::Invoke { handle, control }),
            None => (ControlStage::Finding, ControlAction::FindAll),
        },
    }
}

/// How a command goes on.
pub open spec fn control_step(
    slot: Option<CacheView>,
    run: ControlRunView,
    event: ControlEventView,
) -> (Option<CacheView>, ControlStage, ControlAction) {
    match (slot, run.stage, event) {
        (_, ControlStage::Connecting, ControlEventView::Connected) => (
            Some(fresh_cache()),
            ControlStage::Finding,
            ControlAction::FindAll,
        ),
        (Some(c), ControlStage::Finding, ControlEventView::Found(found)) => (
            Some(refreshed(c, found)),
            ControlStage::Done,
            match handle_of(refreshed(c, found), run.bus_name) {
                Some(handle) => ControlAction::Invoke { handle, control: run.control },
                None => ControlAction::Nothing,
            },
        ),
        _ => (slot, ControlStage::Done, ControlAction::Nothing),
    }
}

fn known_handle(cache: &Cache, name: &str) -> (r: Option<usize>)
    ensures
        r == handle_of(cache@, name@),
{
    match find_player(&cache.players, name) {
        Some(i) => Some(cache.players[i].handle),
        None => None,
    }
}

/// Starts a command to the player of that name, known or still to be found.
pub fn with_player(slot: &Option<Cache>, bus_name: &str, control: Control) -> (r: (
    ControlRun,
    ControlAction,
))
    ensures
        r.0@ == (ControlRunView {
            bus_name: bus_name@,
            control,
            stage: control_start(slot_view(*slot), bus_name@, control).0,
        }),
        r.1 == control_start(slot_view(*slot), bus_name@, control).1,
{
    let (stage, action) = match slot {
        None => (ControlStage::Connecting, ControlAction::Connect),
        Some(cache) => match known_handle(cache, bus_name) {
            Some(handle) => (ControlStage::Done, ControlAction::Invoke { handle, control }),
            None => (ControlStage::Finding, ControlAction::FindAll),
        },
    };
    (ControlRun { bus_name: bus_name.to_owned(), control, stage }, action)
}

/// Takes a command one step on: what it asked for has come back as `event`.
pub fn advance(slot: &mut Option<Cache>, run: ControlRun, event: ControlEvent) -> (r: (
    ControlRun,
    ControlAction,
))
    ensures
        slot_view(*final(slot)) == control_step(slot_view(*old(slot)), run@, event@).0,
        r.0@ == (ControlRunView {
            bus_name: run.bus_name@,
            control: run.control,
            stage: control_step(slot_view(*old(slot)), run@, event@).1,
        }),
        r.1 == control_step(slot_view(*old(slot)), run@, event@).2,
{
    let ControlRun { bus_name, control, stage } = run;
    match (slot.take(), stage, event) {
        (_, ControlStage::Connecting, ControlEvent::Connected) => {
            let cache = Cache { players: Vec::new(), bus_set: Vec::new(), caps: None };
            proof {
                assert(cache@.players =~= fresh_cache().players);
                assert(cache@.bus_set =~= fresh_cache().bus_set);
            }
            *slot = Some(cache);
            (ControlRun { bus_name, control, stage: ControlStage::Finding }, ControlAction::FindAll)
        },
        (Some(mut cache), ControlStage::Finding, ControlEvent::Found(found)) => {
            refresh(&mut cache, &found);
            let action = match known_handle(&cache, bus_name.as_str()) {
                Some(handle) => ControlAction::Invoke { handle, control },
                None => ControlAction::Nothing,
            };
            *slot = Some(cache);
            (ControlRun { bus_name, control, stage: ControlStage::Done }, action)
        },
        (cache, _, _) => {
            *slot = cache;
            (ControlRun { bus_name, control, stage: ControlStage::Done }, ControlAction::Nothing)
        },
    }
}

/// Toggles playback.
pub fn play_pause(slot: &Option<Cache>, bus_name: &str) -> (r: (ControlRun, ControlAction))
    ensures
        r.0@ == (ControlRunView {
            bus_name: bus_name@,
            control: Control::PlayPause,
            stage: control_start(slot_view(*slot), bus_name@, Control::PlayPause).0,
        }),
        r.1 == control_start(slot_view(*slot), bus_name@, Control::PlayPause).1,
{
    with_player(slot, bus_name, Control::PlayPause)
}

/// Skips to the next track.
pub fn next(slot: &Option<Cache>, bus_name: &str) -> (r: (ControlRun, ControlAction))
    ensures
        r.0@ == (ControlRunView {
            bus_name: bus_name@,
            control: Control::Next,
            stage: control_start(slot_view(*slot), bus_name@, Control::Next).0,
        }),
        r.1 == control_start(slot_view(*slot), bus_name@, Control::Next).1,
{
    with_player(slot, bus_name, Control::Next)
}

/// Skips to the previous track.
pub fn previous(slot: &Option<Cache>, bus_name: &str) -> (r: (ControlRun, ControlAction))
    ensures
        r.0@ == (ControlRunView {
            bus_name: bus_name@,
            control: Control::Previous,
            stage: control_start(slot_view(*slot), bus_name@, Control::Previous).0,
        }),
        r.1 == control_start(slot_view(*slot), bus_name@, Control::Previous).1,
{
    with_player(slot, bus_name, Control::Previous)
}

/// How far a seek moves: from the current position to the target, both read as
/// signed numbers.
pub open spec fn seek_delta(position_us: u64, current_position_us: u64) -> int {
    (position_us as i64) - (current_position_us as i64)
}

/// Moves playback to a position, given where it is.
pub fn seek_to(
    slot: &Option<Cache>,
    bus_name: &str,
    position_us: u64,
    current_position_us: u64,
) -> (r: (ControlRun, ControlAction))
    requires
        i64::MIN <= seek_delta(position_us, current_position_us) <= i64::MAX,
    ensures
        ({
            let control = Control::Seek(seek_delta(position_us, current_position_us) as i64);
            &&& r.0@ == (ControlRunView {
                bus_name: bus_name@,
                control,
                stage: control_start(slot_view(*slot), bus_name@, control).0,
            })
            &&& r.1 == control_start(slot_view(*slot), bus_name@, control).1
        }),
{
    let delta: i64 = position_us as i64 - current_position_us as i64;
    with_player(slot, bus_name, Control::Seek(delta))
}

} // verus!
