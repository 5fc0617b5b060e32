//! Which player a poll displays and what it reports of it, and which player a
//! command reaches.
use vstd::prelude::*;

use crate::control::{
    control_start, control_step, seek_delta, Control, ControlAction, ControlEvent, ControlEventView,
    ControlRun, ControlRunView, ControlStage,
};
use crate::player::{active_index, law_pick_is_one_of_them, lemma_first_where, PlaybackStatus};
use crate::player_laws::{
    law_pick_is_the_first_of_the_highest_rank, law_player_is_found_by_name, rank,
};
use crate::players::{
    kept, live_set, named, position_of, refreshed, CacheView, Caps, FoundView, PlayerReadingView,
    SummaryReadingView,
};
use crate::poll::{
    poll_start, poll_step, summary_list, PollAction, PollActionView, PollEvent, PollEventView,
    PollRun, PollStage, RunView, StageView,
};
use crate::poll_laws::law_search_keeps_all_but_the_proxy;
use crate::text::joined;

verus! {

/// The status read of the player at a place; one that could not be read is
/// stopped.
pub open spec fn status_read(readings: Seq<SummaryReadingView>, k: int) -> PlaybackStatus {
    if k < readings.len() {
        match readings[k].status {
            Some(status) => status,
            None => PlaybackStatus::Stopped,
        }
    } else {
        PlaybackStatus::Stopped
    }
}

/// The title read of the player at a place; there is none where it could not be
/// read, and it is read only for the popup.
pub open spec fn title_read(
    readings: Seq<SummaryReadingView>,
    k: int,
    popup_open: bool,
) -> Seq<char> {
    if popup_open && k < readings.len() {
        match readings[k].title {
            Some(title) => title,
            None => Seq::empty(),
        }
    } else {
        Seq::empty()
    }
}

/// Whether a player is pinned that is there.
pub open spec fn pin_is_there(c: CacheView, run: RunView) -> bool {
    exists|i: int|
        0 <= i < c.players.len() && run.selected == Some((#[trigger] c.players[i]).bus_name)
}

/// Whether the player at a place is the most likely active one: none has a
/// higher rank, and none before it the same.
pub open spec fn most_active(
    c: CacheView,
    readings: Seq<SummaryReadingView>,
    popup_open: bool,
    i: int,
) -> bool {
    forall|k: int| #[trigger]
        listed_at(c, k) ==> {
            let chosen = rank(status_read(readings, i), title_read(readings, i, popup_open));
            let other = rank(status_read(readings, k), title_read(readings, k, popup_open));
            &&& other <= chosen
            &&& k < i ==> other < chosen
        }
}

/// Whether there is a player at a place.
pub open spec fn listed_at(c: CacheView, k: int) -> bool {
    0 <= k < c.players.len()
}

proof fn lemma_no_pin(c: CacheView, run: RunView)
    requires
        !pin_is_there(c, run),
    ensures
        run.selected matches Some(name) ==> position_of(c.players, name) is None,
{
    if let Some(name) = run.selected {
        lemma_first_where(c.players, named(name));
        if position_of(c.players, name) is Some {
            let i = position_of(c.players, name)->0;
            assert(named(name)(c.players[i]));
            assert(run.selected == Some(c.players[i].bus_name));
        }
    }
}

proof fn lemma_pin(c: CacheView, run: RunView)
    requires
        pin_is_there(c, run),
    ensures
        run.selected matches Some(name) && position_of(c.players, name) matches Some(i) && 0 <= i
            < c.players.len() && c.players[i].bus_name == name && forall|j: int|
            0 <= j < i ==> (#[trigger] c.players[j]).bus_name != name,
{
    let k = choose|i: int|
        0 <= i < c.players.len() && run.selected == Some((#[trigger] c.players[i]).bus_name);
    law_player_is_found_by_name(c.players, run.selected->0, k);
}

/// Without a pinned player that is there, a poll reads and displays the most
/// likely active player, by the statuses and titles that were read: one that
/// plays before one that is paused before one with a track, and the first of
/// several.
pub proof fn law_poll_displays_the_most_active(
    c: CacheView,
    run: RunView,
    readings: Seq<SummaryReadingView>,
    reading: PlayerReadingView,
) -> (i: int)
    requires
        run.stage is Summarizing,
        c.players.len() > 0,
        !pin_is_there(c, run),
    ensures
        listed_at(c, i),
        most_active(c, readings, run.popup_open, i),
        ({
            let (slot1, run1, action1) = poll_step(
                Some(c),
                run,
                PollEventView::Summaries(readings),
            );
            let (_, run2, action2) = poll_step(slot1, run1, PollEventView::Player(reading));
            &&& action1 matches PollActionView::ReadPlayer { handle, status, .. }
            &&& handle == c.players[i].handle
            &&& !status
            &&& action2 matches PollActionView::Finish(poll)
            &&& poll.player matches Some(info)
            &&& info.bus_name == c.players[i].bus_name
            &&& info.status == status_read(readings, i)
        }),
{
    lemma_no_pin(c, run);
    let list = summary_list(c, run, readings);
    law_pick_is_the_first_of_the_highest_rank(list, 0);
    let i = active_index(list)->0;
    assert forall|k: int| #[trigger] listed_at(c, k) implies {
        let chosen = rank(status_read(readings, i), title_read(readings, i, run.popup_open));
        let other = rank(status_read(readings, k), title_read(readings, k, run.popup_open));
        &&& other <= chosen
        &&& k < i ==> other < chosen
    } by {
        law_pick_is_the_first_of_the_highest_rank(list, k);
        assert(list[k].status == status_read(readings, k));
        assert(list[k].title == title_read(readings, k, run.popup_open));
        assert(list[i].status == status_read(readings, i));
        assert(list[i].title == title_read(readings, i, run.popup_open));
    }
    i
}

/// With a pinned player that is there, a poll reads and displays that one, the
/// first of its name. With the popup open its status is the one read for the
/// list, and otherwise the one read with the player.
pub proof fn law_poll_displays_the_pinned(
    c: CacheView,
    run: RunView,
    readings: Seq<SummaryReadingView>,
    reading: PlayerReadingView,
) -> (i: int)
    requires
        run.stage is Summarizing,
        pin_is_there(c, run),
    ensures
        listed_at(c, i),
        run.selected == Some(c.players[i].bus_name),
        forall|j: int| 0 <= j < i ==> run.selected != Some((#[trigger] c.players[j]).bus_name),
        ({
            let (slot1, run1, action1) = poll_step(
                Some(c),
                run,
                PollEventView::Summaries(readings),
            );
            let (_, run2, action2) = poll_step(slot1, run1, PollEventView::Player(reading));
            &&& action1 matches PollActionView::ReadPlayer { handle, status, .. }
            &&& handle == c.players[i].handle
            &&& status <==> !run.popup_open
            &&& action2 matches PollActionView::Finish(poll)
            &&& poll.player matches Some(info)
            &&& info.bus_name == c.players[i].bus_name
            &&& run.popup_open ==> info.status == status_read(readings, i)
            &&& !run.popup_open ==> info.status == match reading.status {
                Some(status) => status,
                None => PlaybackStatus::Stopped,
            }
        }),
{
    lemma_pin(c, run);
    position_of(c.players, run.selected->0)->0
}

/// A finished poll lists every known player in order, each with the status and
/// the title that were read of it, as far as they were wanted.
pub proof fn law_poll_lists_what_was_read(
    c: CacheView,
    run: RunView,
    readings: Seq<SummaryReadingView>,
    reading: PlayerReadingView,
    k: int,
)
    requires
        run.stage is Summarizing,
        listed_at(c, k),
    ensures
        ({
            let (slot1, run1, _) = poll_step(Some(c), run, PollEventView::Summaries(readings));
            let action = poll_step(slot1, run1, PollEventView::Player(reading)).2;
            &&& action matches PollActionView::Finish(poll)
            &&& poll.players.len() == c.players.len()
            &&& poll.players[k].bus_name == c.players[k].bus_name
            &&& poll.players[k].identity == c.players[k].identity
            &&& poll.players[k].title == title_read(readings, k, run.popup_open)
            &&& poll.players[k].status == if run.popup_open || !pin_is_there(c, run) {
                status_read(readings, k)
            } else {
                PlaybackStatus::Stopped
            }
        }),
{
    if pin_is_there(c, run) {
        lemma_pin(c, run);
    } else {
        let i = law_poll_displays_the_most_active(c, run, readings, reading);
    }
}

/// The player that a finished poll displays is as it was read: its track part by
/// part, with the cover's URL, and with the popup open its position.
pub proof fn law_poll_displays_what_was_read(
    c: CacheView,
    run: RunView,
    readings: Seq<SummaryReadingView>,
    reading: PlayerReadingView,
)
    requires
        run.stage is Summarizing,
        c.players.len() > 0,
        reading.track is Some,
    ensures
        ({
            let track = reading.track->0;
            let (slot1, run1, _) = poll_step(Some(c), run, PollEventView::Summaries(readings));
            let action = poll_step(slot1, run1, PollEventView::Player(reading)).2;
            &&& action matches PollActionView::Finish(poll)
            &&& poll.player matches Some(info)
            &&& track.title matches Some(title) ==> info.title == title
            &&& track.title is None ==> info.title == "Unknown"@
            &&& track.artists matches Some(artists) ==> info.artist == joined(artists, ", "@)
            &&& track.artists is None ==> info.artist.len() == 0
            &&& track.album matches Some(album) ==> info.album == album
            &&& track.album is None ==> info.album.len() == 0
            &&& info.year == track.year
            &&& info.art_url == track.art_url
            &&& track.length_us matches Some(length) ==> info.length_us == length
            &&& info.position_us == match (run.popup_open, reading.position_us) {
                (true, Some(pos)) => pos,
                _ => 0,
            }
        }),
{
    if pin_is_there(c, run) {
        lemma_pin(c, run);
    } else {
        let i = law_poll_displays_the_most_active(c, run, readings, reading);
    }
}

/// Capabilities that were read are displayed and remembered with the popup open:
/// they are asked for exactly when those remembered are another player's, and
/// displayed as remembered otherwise. With the popup closed the memory stays.
pub proof fn law_caps_are_read_and_remembered(
    c: CacheView,
    run: RunView,
    readings: Seq<SummaryReadingView>,
    reading: PlayerReadingView,
)
    requires
        run.stage is Summarizing,
        c.players.len() > 0,
    ensures
        ({
            let (slot1, run1, action1) = poll_step(
                Some(c),
                run,
                PollEventView::Summaries(readings),
            );
            let (slot2, _, action2) = poll_step(slot1, run1, PollEventView::Player(reading));
            &&& slot1 == Some(c)
            &&& slot2 matches Some(c2)
            &&& c2.players == c.players
            &&& c2.bus_set == c.bus_set
            &&& action1 matches PollActionView::ReadPlayer { position, caps, .. }
            &&& action2 matches PollActionView::Finish(poll)
            &&& poll.player matches Some(info)
            &&& position <==> run.popup_open
            &&& run.popup_open ==> {
                &&& c2.caps == Some(
                    (
                        info.bus_name,
                        Caps {
                            next: info.can_go_next,
                            prev: info.can_go_previous,
                            pause: info.can_pause,
                            play: info.can_play,
                            seek: info.can_seek,
                        },
                    ),
                )
                &&& caps ==> {
                    &&& info.can_go_next <==> reading.caps.next == Some(true)
                    &&& info.can_go_previous <==> reading.caps.prev == Some(true)
                    &&& info.can_pause <==> reading.caps.pause == Some(true)
                    &&& info.can_play <==> reading.caps.play == Some(true)
                    &&& info.can_seek <==> reading.caps.seek == Some(true)
                }
                &&& caps <==> !(c.caps matches Some((known, _)) && known == info.bus_name)
                &&& !caps ==> c2.caps == c.caps
            }
            &&& !run.popup_open ==> {
                &&& !caps
                &&& c2.caps == c.caps
                &&& !info.can_go_next && !info.can_go_previous && !info.can_pause
                &&& !info.can_play && !info.can_seek
            }
        }),
{
    if pin_is_there(c, run) {
        lemma_pin(c, run);
    } else {
        let i = law_poll_displays_the_most_active(c, run, readings, reading);
    }
}

/// A poll on an empty bus ends with nobody on display and nobody listed, and
/// keeps the connection.
pub proof fn law_empty_bus_has_no_player(
    c: CacheView,
    run: RunView,
    readings: Seq<SummaryReadingView>,
)
    requires
        run.stage is Summarizing,
        c.players.len() == 0,
    ensures
        ({
            let (slot, next, action) = poll_step(
                Some(c),
                run,
                PollEventView::Summaries(readings),
            );
            &&& slot == Some(c)
            &&& next.stage is Done
            &&& action matches PollActionView::Finish(poll)
            &&& poll.player is None
            &&& poll.players.len() == 0
        }),
{
    if pin_is_there(c, run) {
        lemma_pin(c, run);
    } else {
        lemma_no_pin(c, run);
    }
    law_pick_is_one_of_them(summary_list(c, run, readings));
}

/// A poll goes from connecting to listing to searching where needed to the
/// summaries, and carries its pin and whether the popup is open all along.
pub proof fn law_poll_takes_its_steps(
    slot: Option<CacheView>,
    c: CacheView,
    run: RunView,
    names: Seq<Seq<char>>,
    found: Seq<FoundView>,
    event: PollEventView,
)
    ensures
        poll_start(slot, run.selected, run.popup_open).0.selected == run.selected,
        poll_start(slot, run.selected, run.popup_open).0.popup_open == run.popup_open,
        slot is None ==> poll_start(slot, run.selected, run.popup_open).1 is Connect
            && poll_start(slot, run.selected, run.popup_open).0.stage is Connecting,
        slot is Some ==> poll_start(slot, run.selected, run.popup_open).1 is ListNames
            && poll_start(slot, run.selected, run.popup_open).0.stage is Listing,
        poll_step(slot, run, event).1.selected == run.selected,
        poll_step(slot, run, event).1.popup_open == run.popup_open,
        run.stage is Connecting ==> {
            let (slot1, next, action) = poll_step(slot, run, PollEventView::Connected);
            &&& slot1 matches Some(c1)
            &&& c1.players.len() == 0
            &&& c1.bus_set.len() == 0
            &&& c1.caps is None
            &&& next.stage is Listing
            &&& action is ListNames
        },
        run.stage is Listing ==> {
            let (slot1, next, action) = poll_step(Some(c), run, PollEventView::Names(names));
            &&& slot1 == Some(c)
            &&& live_set(names) == c.bus_set ==> {
                &&& next.stage is Summarizing
                &&& action matches PollActionView::ReadSummaries { statuses, titles }
                &&& titles <==> run.popup_open
                &&& statuses <==> run.popup_open || !pin_is_there(c, run)
            }
            &&& live_set(names) != c.bus_set ==> next.stage is Finding && action is FindAll
        },
        run.stage is Finding ==> {
            let (slot1, next, action) = poll_step(Some(c), run, PollEventView::Found(found));
            &&& slot1 matches Some(c1)
            &&& c1.players == kept(found)
            &&& c1.caps == c.caps
            &&& next.stage is Summarizing
            &&& action matches PollActionView::ReadSummaries { statuses, titles }
            &&& titles <==> run.popup_open
            &&& statuses <==> run.popup_open || !pin_is_there(c1, run)
        },
{
    if run.stage is Listing {
        if pin_is_there(c, run) {
            lemma_pin(c, run);
        } else {
            lemma_no_pin(c, run);
        }
    }
    if run.stage is Finding {
        let c1 = refreshed(c, found);
        if pin_is_there(c1, run) {
            lemma_pin(c1, run);
        } else {
            lemma_no_pin(c1, run);
        }
    }
}

/// A command to a player that is known goes to the first of its name at once,
/// just as it is; one to a player that is not is searched for.
pub proof fn law_known_player_is_commanded_at_once(
    c: CacheView,
    name: Seq<char>,
    control: Control,
    k: int,
)
    ensures
        listed_at(c, k) && c.players[k].bus_name == name ==> {
            let (stage, action) = control_start(Some(c), name, control);
            &&& stage is Done
            &&& exists|i: int|
                0 <= i <= k && (#[trigger] c.players[i]).bus_name == name && action
                    == (ControlAction::Invoke { handle: c.players[i].handle, control })
        },
        (forall|i: int| 0 <= i < c.players.len() ==> (#[trigger] c.players[i]).bus_name != name)
            ==> control_start(Some(c), name, control) == (
            ControlStage::Finding,
            ControlAction::FindAll,
        ),
{
    lemma_first_where(c.players, named(name));
    if listed_at(c, k) && c.players[k].bus_name == name {
        law_player_is_found_by_name(c.players, name, k);
    } else if forall|i: int|
        0 <= i < c.players.len() ==> (#[trigger] c.players[i]).bus_name != name {
        if position_of(c.players, name) is Some {
            let i = position_of(c.players, name)->0;
            assert(named(name)(c.players[i]));
        }
    }
}

/// A search that finds the player of a command gives it the command just as it
/// is, at the first place where the search found the name.
pub proof fn law_found_player_is_commanded(
    c: CacheView,
    run: ControlRunView,
    found: Seq<FoundView>,
    k: int,
)
    requires
        run.stage is Finding,
        found.len() <= usize::MAX,
        0 <= k < found.len(),
        found[k].bus_name == run.bus_name,
        run.bus_name != "playerctld"@,
        forall|j: int| 0 <= j < k ==> (#[trigger] found[j]).bus_name != run.bus_name,
    ensures
        ({
            let (slot, stage, action) = control_step(
                Some(c),
                run,
                ControlEventView::Found(found),
            );
            &&& slot matches Some(c1)
            &&& c1.players == kept(found)
            &&& c1.caps == c.caps
            &&& stage is Done
            &&& action == (ControlAction::Invoke { handle: k as usize, control: run.control })
        }),
{
    law_search_keeps_all_but_the_proxy(found);
    let players = kept(found);
    let name = run.bus_name;
    let m = choose|i: int| 0 <= i < players.len() && (#[trigger] players[i]).handle == k;
    assert(players[m].bus_name == name);
    law_player_is_found_by_name(players, name, m);
    let i = position_of(players, name)->0;
    if i < m {
        assert(players[i].handle < players[m].handle);
        assert(found[players[i].handle as int].bus_name == name);
    }
}

/// A search that does not find the player leaves the command undone.
pub proof fn law_missing_player_is_not_commanded(
    c: CacheView,
    run: ControlRunView,
    found: Seq<FoundView>,
)
    requires
        run.stage is Finding,
        found.len() <= usize::MAX,
        forall|j: int| 0 <= j < found.len() ==> (#[trigger] found[j]).bus_name != run.bus_name,
    ensures
        control_step(Some(c), run, ControlEventView::Found(found)).2 is Nothing,
{
    law_search_keeps_all_but_the_proxy(found);
    let players = kept(found);
    lemma_first_where(players, named(run.bus_name));
    if position_of(players, run.bus_name) is Some {
        let i = position_of(players, run.bus_name)->0;
        assert(named(run.bus_name)(players[i]));
        assert(found[players[i].handle as int].bus_name == run.bus_name);
    }
}

/// A command connects where there is no connection, and then searches; where that
/// fails it does nothing and leaves what is known as it was.
pub proof fn law_command_connects_and_searches(
    slot: Option<CacheView>,
    run: ControlRunView,
    name: Seq<char>,
    control: Control,
)
    ensures
        control_start(None, name, control) == (ControlStage::Connecting, ControlAction::Connect),
        run.stage is Connecting ==> {
            let (slot1, stage, action) = control_step(slot, run, ControlEventView::Connected);
            &&& slot1 matches Some(c)
            &&& c.players.len() == 0
            &&& c.bus_set.len() == 0
            &&& c.caps is None
            &&& stage is Finding
            &&& action is FindAll
        },
        control_step(slot, run, ControlEventView::Failed) == (
            slot,
            ControlStage::Done,
            ControlAction::Nothing,
        ),
{
}

/// A seek moves by what is between where playback is and where it is to be.
pub proof fn law_seek_moves_to_the_position(position_us: u64, current_position_us: u64)
    requires
        position_us <= i64::MAX,
        current_position_us <= i64::MAX,
    ensures
        current_position_us + seek_delta(position_us, current_position_us) == position_us,
{
}

/// Runs, events and actions show all they hold, and none is taken for another.
pub proof fn law_runs_hide_nothing(
    run: PollRun,
    event: PollEvent,
    action: PollAction,
    control: ControlRun,
    answer: ControlEvent,
    i: int,
)
    ensures
        run@.popup_open == run.popup_open && run@.stage == run.stage@,
        run.selected matches Some(name) ==> run@.selected == Some(name@),
        run.selected is None ==> run@.selected is None,
        match run.stage {
            PollStage::Connecting => run@.stage is Connecting,
            PollStage::Listing => run@.stage is Listing,
            PollStage::Finding => run@.stage is Finding,
            PollStage::Summarizing => run@.stage is Summarizing,
            PollStage::Reading { players, index } => {
                &&& run@.stage matches StageView::Reading { players: list, index: at }
                &&& at == index
                &&& list.len() == players@.len()
                &&& 0 <= i < list.len() ==> list[i] == players@[i]@
            },
            PollStage::Done => run@.stage is Done,
        },
        match event {
            PollEvent::Connected => event@ is Connected,
            PollEvent::Names(names) => {
                &&& event@ matches PollEventView::Names(list)
                &&& list.len() == names@.len()
                &&& 0 <= i < list.len() ==> list[i] == names@[i]@
            },
            PollEvent::Found(found) => {
                &&& event@ matches PollEventView::Found(list)
                &&& list.len() == found@.len()
                &&& 0 <= i < list.len() ==> list[i] == found@[i]@
            },
            PollEvent::Summaries(readings) => {
                &&& event@ matches PollEventView::Summaries(list)
                &&& list.len() == readings@.len()
                &&& 0 <= i < list.len() ==> list[i] == readings@[i]@
            },
            PollEvent::Player(reading) => event@ == PollEventView::Player(reading@),
            PollEvent::Failed => event@ is Failed,
        },
        match action {
            PollAction::Connect => action@ is Connect,
            PollAction::ListNames => action@ is ListNames,
            PollAction::FindAll => action@ is FindAll,
            PollAction::ReadSummaries { statuses, titles } => action@ == (
            PollActionView::ReadSummaries { statuses, titles }),
            PollAction::ReadPlayer { handle, status, position, caps } => action@ == (
            PollActionView::ReadPlayer { handle, status, position, caps }),
            PollAction::Finish(poll) => action@ == PollActionView::Finish(poll@),
        },
        control@.bus_name == control.bus_name@ && control@.control == control.control
            && control@.stage == control.stage,
        match answer {
            ControlEvent::Connected => answer@ is Connected,
            ControlEvent::Found(found) => {
                &&& answer@ matches ControlEventView::Found(list)
                &&& list.len() == found@.len()
                &&& 0 <= i < list.len() ==> list[i] == found@[i]@
            },
            ControlEvent::Failed => answer@ is Failed,
        },
{
}

} // verus!
