//! What holds of every poll and of every command.
use vstd::prelude::*;

use crate::control::{
    control_start, control_step, handle_of, Control, ControlEventView, ControlRunView,
};
use crate::names::{law_sorting_forgets_order, sorted_names};
use crate::player::{lemma_first_where, law_pick_is_one_of_them, SummaryView};
use crate::players::{
    bus_names, cache_wf, fresh_cache, kept, live_name, named, remembers, CacheView, FoundView,
    PLAYERCTLD,
};
use crate::poll::{
    pinned_index, poll_start, poll_step, summary_list, PollActionView, PollEventView, RunView,
    StageView,
};

verus! {

pub open spec fn slot_wf(slot: Option<CacheView>) -> bool {
    slot is Some ==> cache_wf(slot->0)
}

proof fn lemma_fresh_cache_is_wf()
    ensures
        cache_wf(fresh_cache()),
{
    let none = Seq::<Seq<char>>::empty();
    assert(bus_names(fresh_cache().players) =~= none);
    assert(sorted_names(none) =~= none) by {
        law_sorting_forgets_order(none, none);
        vstd::seq_lib::to_multiset_len(none);
        lemma_sorted_len(none);
    }
}

proof fn lemma_sorted_len(names: Seq<Seq<char>>)
    ensures
        sorted_names(names).len() == names.len(),
{
    crate::names::lemma_sorted_names(names);
    vstd::seq_lib::to_multiset_len(names);
    vstd::seq_lib::to_multiset_len(sorted_names(names));
}

proof fn lemma_kept_skips_the_proxy(found: Seq<FoundView>)
    ensures
        forall|i: int| 0 <= i < kept(found).len() ==> (#[trigger] kept(found)[i]).bus_name
            != PLAYERCTLD@,
    decreases found.len(),
{
    if found.len() > 0 {
        let before = kept(found.drop_last());
        lemma_kept_skips_the_proxy(found.drop_last());
        assert forall|i: int| 0 <= i < kept(found).len() implies (#[trigger] kept(
            found,
        )[i]).bus_name != PLAYERCTLD@ by {
            if i < before.len() {
                assert(kept(found)[i] == before[i]);
            }
        }
    }
}

/// A poll keeps the cache in order: its set of names stays that of its players,
/// and the proxy player stays out of it.
pub proof fn law_poll_keeps_the_cache_in_order(
    slot: Option<CacheView>,
    run: RunView,
    event: PollEventView,
)
    requires
        slot_wf(slot),
    ensures
        slot_wf(poll_step(slot, run, event).0),
{
    lemma_fresh_cache_is_wf();
    match event {
        PollEventView::Found(found) => lemma_kept_skips_the_proxy(found),
        _ => {},
    }
}

/// So does a command.
pub proof fn law_command_keeps_the_cache_in_order(
    slot: Option<CacheView>,
    run: ControlRunView,
    event: ControlEventView,
)
    requires
        slot_wf(slot),
    ensures
        slot_wf(control_step(slot, run, event).0),
{
    lemma_fresh_cache_is_wf();
    match event {
        ControlEventView::Found(found) => lemma_kept_skips_the_proxy(found),
        _ => {},
    }
}

/// A search keeps every player found but the proxy, in the order found, and each
/// keeps the place where it was found.
pub proof fn law_search_keeps_all_but_the_proxy(found: Seq<FoundView>)
    requires
        found.len() <= usize::MAX,
    ensures
        forall|i: int|
            #![trigger kept(found)[i]]
            0 <= i < kept(found).len() ==> {
                let p = kept(found)[i];
                &&& p.handle < found.len()
                &&& found[p.handle as int].bus_name == p.bus_name
                &&& found[p.handle as int].identity == p.identity
                &&& p.bus_name != PLAYERCTLD@
            },
        forall|i: int, j: int|
            0 <= i < j < kept(found).len() ==> (#[trigger] kept(found)[i]).handle < (
            #[trigger] kept(found)[j]).handle,
        forall|k: int|
            #![trigger found[k]]
            0 <= k < found.len() && found[k].bus_name != PLAYERCTLD@ ==> exists|i: int|
                0 <= i < kept(found).len() && (#[trigger] kept(found)[i]).handle == k,
    decreases found.len(),
{
    if found.len() > 0 {
        let head = found.drop_last();
        law_search_keeps_all_but_the_proxy(head);
        let before = kept(head);
        let after = kept(found);
        assert forall|i: int| 0 <= i < before.len() implies after[i] == #[trigger] before[i] by {}
        assert forall|k: int|
            #![trigger found[k]]
            0 <= k < found.len() && found[k].bus_name != PLAYERCTLD@ implies exists|i: int|
            0 <= i < after.len() && (#[trigger] after[i]).handle == k by {
            if k < head.len() {
                assert(head[k] == found[k]);
                let i = choose|i: int| 0 <= i < before.len() && (#[trigger] before[i]).handle == k;
                assert(after[i].handle == k);
            } else {
                assert(after[before.len() as int].handle == k);
            }
        }
    }
}

/// The bus is searched only where its players changed: names that are those of
/// the cache, in whatever order, go straight on, and any others bring a search.
pub proof fn law_search_only_on_change(c: CacheView, run: RunView, names: Seq<Seq<char>>)
    requires
        cache_wf(c),
        run.stage == StageView::Listing,
    ensures
        ({
            let live = names.filter_map(|n: Seq<char>| live_name(n));
            let action = poll_step(Some(c), run, PollEventView::Names(names)).2;
            if live.to_multiset() == bus_names(c.players).to_multiset() {
                action is ReadSummaries
            } else {
                action is FindAll
            }
        }),
{
    law_sorting_forgets_order(
        names.filter_map(|n: Seq<char>| live_name(n)),
        bus_names(c.players),
    );
}

/// Whether a list of summaries is free of the proxy player.
pub open spec fn without_proxy(players: Seq<SummaryView>) -> bool {
    forall|i: int| 0 <= i < players.len() ==> (#[trigger] players[i]).bus_name != PLAYERCTLD@
}

/// Whether what a poll has gathered so far is free of it.
pub open spec fn run_without_proxy(run: RunView) -> bool {
    run.stage matches StageView::Reading { players, .. } ==> without_proxy(players)
}

/// The proxy player is never shown: no poll gathers it, and none that is finished
/// lists it or displays it.
pub proof fn law_proxy_is_never_shown(slot: Option<CacheView>, run: RunView, event: PollEventView)
    requires
        slot_wf(slot),
        run_without_proxy(run),
    ensures
        ({
            let (_, next, action) = poll_step(slot, run, event);
            &&& run_without_proxy(next)
            &&& action matches PollActionView::Finish(poll) ==> without_proxy(poll.players)
                && match poll.player {
                Some(info) => info.bus_name != PLAYERCTLD@,
                None => true,
            }
        }),
{
    if let Some(c) = slot {
        if let PollEventView::Summaries(readings) = event {
            let list = summary_list(c, run, readings);
            assert forall|i: int| 0 <= i < list.len() implies (#[trigger] list[i]).bus_name
                != PLAYERCTLD@ by {
                assert(list[i].bus_name == c.players[i].bus_name);
            }
        }
    }
}

/// A command in the proxy's name reaches nobody.
pub proof fn law_proxy_is_never_commanded(c: CacheView)
    requires
        cache_wf(c),
    ensures
        handle_of(c, PLAYERCTLD@) is None,
{
    lemma_first_where(c.players, named(PLAYERCTLD@));
}

/// A command goes only to a player of the name it was meant for.
pub proof fn law_command_reaches_its_player(c: CacheView, name: Seq<char>)
    ensures
        handle_of(c, name) matches Some(handle) ==> exists|i: int|
            0 <= i < c.players.len() && (#[trigger] c.players[i]).bus_name == name
                && c.players[i].handle == handle,
        handle_of(c, name) is None ==> forall|i: int|
            0 <= i < c.players.len() ==> (#[trigger] c.players[i]).bus_name != name,
{
    lemma_first_where(c.players, named(name));
}

/// A command ends: after connecting and searching once, it has reached its
/// player or nobody.
pub proof fn law_command_ends(
    slot: Option<CacheView>,
    name: Seq<char>,
    control: Control,
    first: ControlEventView,
    second: ControlEventView,
)
    ensures
        ({
            let (stage0, action0) = control_start(slot, name, control);
            let run0 = ControlRunView { bus_name: name, control, stage: stage0 };
            let (slot1, stage1, action1) = control_step(slot, run0, first);
            let run1 = ControlRunView { bus_name: name, control, stage: stage1 };
            let (slot2, stage2, action2) = control_step(slot1, run1, second);
            &&& stage0 is Done ==> action0 is Invoke
            &&& stage2 is Done
            &&& stage1 is Done ==> action1 is Invoke || action1 is Nothing
            &&& action2 is Invoke || action2 is Nothing
        }),
{
}

/// A pinned player that is there is the one displayed, whatever the others do.
pub proof fn law_pinned_player_is_displayed(
    c: CacheView,
    run: RunView,
    event: PollEventView,
    reading: PollEventView,
    i: int,
    name: Seq<char>,
)
    requires
        run.stage is Summarizing,
        run.selected == Some(name),
        event is Summaries,
        reading is Player,
        0 <= i < c.players.len(),
        c.players[i].bus_name == name,
    ensures
        ({
            let (slot1, run1, _) = poll_step(Some(c), run, event);
            let action = poll_step(slot1, run1, reading).2;
            &&& action matches PollActionView::Finish(poll)
            &&& poll.player matches Some(info)
            &&& info.bus_name == name
        }),
{
    lemma_first_where(c.players, named(name));
    assert(named(name)(c.players[i]));
    let j = pinned_index(c, run)->0;
    assert(named(name)(c.players[j]));
}

/// A poll that gets to the summaries displays a player whenever one is known,
/// and lists all of them in order.
pub proof fn law_poll_shows_what_is_there(
    c: CacheView,
    run: RunView,
    event: PollEventView,
    reading: PollEventView,
)
    requires
        run.stage is Summarizing,
        event is Summaries,
        reading is Player,
    ensures
        ({
            let (slot1, run1, action1) = poll_step(Some(c), run, event);
            let last = if c.players.len() == 0 {
                action1
            } else {
                poll_step(slot1, run1, reading).2
            };
            &&& last matches PollActionView::Finish(poll)
            &&& poll.player is Some <==> c.players.len() > 0
            &&& poll.players.len() == c.players.len()
            &&& forall|i: int|
                0 <= i < c.players.len() ==> (#[trigger] poll.players[i]).bus_name
                    == c.players[i].bus_name && poll.players[i].identity == c.players[i].identity
        }),
{
    if let PollEventView::Summaries(readings) = event {
        law_pick_is_one_of_them(summary_list(c, run, readings));
        match run.selected {
            Some(name) => lemma_first_where(c.players, named(name)),
            None => {},
        }
    }
}

/// A failure at any point ends the poll with nothing found, and the next poll
/// reconnects.
pub proof fn law_failure_reconnects(
    slot: Option<CacheView>,
    run: RunView,
    selected: Option<Seq<char>>,
    popup_open: bool,
)
    ensures
        ({
            let (slot1, run1, action) = poll_step(slot, run, PollEventView::Failed);
            &&& slot1 is None
            &&& run1.stage is Done
            &&& action matches PollActionView::Finish(poll)
            &&& poll.player is None
            &&& poll.players.len() == 0
            &&& poll_start(slot1, selected, popup_open).1 is Connect
        }),
{
}

/// How many steps a poll can still take.
pub open spec fn steps_left(stage: StageView) -> nat {
    match stage {
        StageView::Connecting => 5,
        StageView::Listing => 4,
        StageView::Finding => 3,
        StageView::Summarizing => 2,
        StageView::Reading { .. } => 1,
        StageView::Done => 0,
    }
}

/// A poll ends: every step brings it nearer, and it is over exactly when it says
/// so.
pub proof fn law_poll_ends(slot: Option<CacheView>, run: RunView, event: PollEventView)
    ensures
        !(run.stage is Done) ==> steps_left(poll_step(slot, run, event).1.stage) < steps_left(
            run.stage,
        ),
        poll_step(slot, run, event).1.stage is Done <==> poll_step(slot, run, event).2 is Finish,
{
}

/// Capabilities are read once per player: after a poll with the popup open, the
/// next one that displays the same player does not read them again.
pub proof fn law_caps_are_read_once(
    c: CacheView,
    run: RunView,
    reading: PollEventView,
    again: RunView,
    event: PollEventView,
)
    requires
        run.popup_open,
        run.stage matches StageView::Reading { players, index } && 0 <= index < players.len()
            && index < c.players.len(),
        reading is Player,
        again.stage is Summarizing,
        event is Summaries,
    ensures
        ({
            let shown = c.players[run.stage->index].bus_name;
            let slot1 = poll_step(Some(c), run, reading).0;
            let (slot2, run2, action2) = poll_step(slot1, again, event);
            &&& slot1 matches Some(c1)
            &&& remembers(c1.caps, shown)
            &&& c1.players == c.players
            &&& match (run2.stage, action2) {
                (StageView::Reading { index, .. }, PollActionView::ReadPlayer { caps, .. }) => {
                    c.players[index].bus_name == shown ==> !caps
                },
                (StageView::Reading { .. }, _) => false,
                _ => true,
            }
        }),
{
}

/// A closed popup costs little: nothing that only the popup shows is asked for,
/// and with a pinned player that is there no other player's status either.
pub proof fn law_closed_popup_reads_little(
    slot: Option<CacheView>,
    run: RunView,
    event: PollEventView,
)
    requires
        !run.popup_open,
    ensures
        ({
            let (slot1, _, action) = poll_step(slot, run, event);
            match action {
                PollActionView::ReadSummaries { statuses, titles } => {
                    &&& !titles
                    &&& slot1 matches Some(c)
                    &&& statuses <==> pinned_index(c, run) is None
                },
                PollActionView::ReadPlayer { position, caps, .. } => !position && !caps,
                _ => true,
            }
        }),
{
}

/// A command reuses the connection that is there, and never opens a second one.
pub proof fn law_command_reuses_the_connection(
    slot: Option<CacheView>,
    name: Seq<char>,
    control: Control,
    run: ControlRunView,
    event: ControlEventView,
)
    ensures
        control_start(slot, name, control).1 is Connect <==> slot is None,
        !(control_step(slot, run, event).2 is Connect),
        slot is Some ==> control_step(slot, run, event).0 is Some,
{
}

} // verus!
