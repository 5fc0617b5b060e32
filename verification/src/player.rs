//! Players as the applet shows them, and the choice among them.
use vstd::prelude::*;
use vstd::string::*;

use crate::metadata::opt_text;

verus! {

#[derive(Debug, Clone, Copy, PartialEq, Eq, Structural)]
pub enum PlaybackStatus {
    Playing,
    Paused,
    Stopped,
}

/// The player on display.
#[derive(Debug, Clone, PartialEq)]
pub struct PlayerInfo {
    pub title: String,
    pub artist: String,
    pub album: String,
    pub year: Option<u32>,
    pub status: PlaybackStatus,
    pub art_url: Option<String>,
    pub bus_name: String,
    pub position_us: u64,
    pub length_us: u64,
    pub can_go_next: bool,
    pub can_go_previous: bool,
    pub can_pause: bool,
    pub can_play: bool,
    pub can_seek: bool,
}

pub struct PlayerInfoView {
    pub title: Seq<char>,
    pub artist: Seq<char>,
    pub album: Seq<char>,
    pub year: Option<u32>,
    pub status: PlaybackStatus,
    pub art_url: Option<Seq<char>>,
    pub bus_name: Seq<char>,
    pub position_us: u64,
    pub length_us: u64,
    pub can_go_next: bool,
    pub can_go_previous: bool,
    pub can_pause: bool,
    pub can_play: bool,
    pub can_seek: bool,
}

impl View for PlayerInfo {
    type V = PlayerInfoView;

    open spec fn view(&self) -> PlayerInfoView {
        PlayerInfoView {
            title: self.title@,
            artist: self.artist@,
            album: self.album@,
            year: self.year,
            status: self.status,
            art_url: opt_text(self.art_url),
            bus_name: self.bus_name@,
            position_us: self.position_us,
            length_us: self.length_us,
            can_go_next: self.can_go_next,
            can_go_previous: self.can_go_previous,
            can_pause: self.can_pause,
            can_play: self.can_play,
            can_seek: self.can_seek,
        }
    }
}

/// No player: nothing known, nothing possible, stopped.
pub open spec fn no_player() -> PlayerInfoView {
    PlayerInfoView {
        title: Seq::empty(),
        artist: Seq::empty(),
        album: Seq::empty(),
        year: None,
        status: PlaybackStatus::Stopped,
        art_url: None,
        bus_name: Seq::empty(),
        position_us: 0,
        length_us: 0,
        can_go_next: false,
        can_go_previous: false,
        can_pause: false,
        can_play: false,
        can_seek: false,
    }
}

impl Default for PlayerInfo {
    fn default() -> (r: Self)
        ensures
            r@ == no_player(),
    {
        PlayerInfo {
            title: String::new(),
            artist: String::new(),
            album: String::new(),
            year: None,
            status: PlaybackStatus::Stopped,
            art_url: None,
            bus_name: String::new(),
            position_us: 0,
            length_us: 0,
            can_go_next: false,
            can_go_previous: false,
            can_pause: false,
            can_play: false,
            can_seek: false,
        }
    }
}

/// Enough to label and identify a player in the picker, without its full state.
#[derive(Debug, Clone, PartialEq)]
pub struct PlayerSummary {
    pub bus_name: String,
    pub identity: String,
    pub status: PlaybackStatus,
    pub title: String,
}

pub struct SummaryView {
    pub bus_name: Seq<char>,
    pub identity: Seq<char>,
    pub status: PlaybackStatus,
    pub title: Seq<char>,
}

impl View for PlayerSummary {
    type V = SummaryView;

    open spec fn view(&self) -> SummaryView {
        SummaryView {
            bus_name: self.bus_name@,
            identity: self.identity@,
            status: self.status,
            title: self.title@,
        }
    }
}

/// What a list of summaries says.
pub open spec fn summaries(v: Seq<PlayerSummary>) -> Seq<SummaryView> {
    v.map_values(|s: PlayerSummary| s@)
}

/// One tick: the player to display (pinned, else picked) and all of them.
#[derive(Debug, Clone, PartialEq)]
pub struct Poll {
    pub player: Option<PlayerInfo>,
    pub players: Vec<PlayerSummary>,
}

pub struct PollView {
    pub player: Option<PlayerInfoView>,
    pub players: Seq<SummaryView>,
}

impl View for Poll {
    type V = PollView;

    open spec fn view(&self) -> PollView {
        PollView {
            player: match self.player {
                Some(p) => Some(p@),
                None => None,
            },
            players: summaries(self.players@),
        }
    }
}

/// A poll that found nothing.
pub open spec fn empty_poll() -> PollView {
    PollView { player: None, players: Seq::empty() }
}

impl Default for Poll {
    fn default() -> (r: Self)
        ensures
            r@ == empty_poll(),
    {
        let r = Poll { player: None, players: Vec::new() };
        assert(r@.players =~= Seq::<SummaryView>::empty());
        r
    }
}

/// The first position at which a predicate holds.
pub open spec fn first_where<T>(s: Seq<T>, p: spec_fn(T) -> bool) -> Option<int>
    decreases s.len(),
{
    if s.len() == 0 {
        None
    } else {
        match first_where(s.drop_last(), p) {
            Some(i) => Some(i),
            None => if p(s.last()) {
                Some(s.len() - 1)
            } else {
                None
            },
        }
    }
}

/// `first_where` finds a position where there is one, and the lowest.
pub proof fn lemma_first_where<T>(s: Seq<T>, p: spec_fn(T) -> bool)
    ensures
        match first_where(s, p) {
            Some(i) => 0 <= i < s.len() && p(s[i]) && forall|k: int|
                0 <= k < i ==> !p(#[trigger] s[k]),
            None => forall|k: int| 0 <= k < s.len() ==> !p(#[trigger] s[k]),
        },
    decreases s.len(),
{
    if s.len() > 0 {
        let head = s.drop_last();
        lemma_first_where(head, p);
        assert forall|k: int| 0 <= k < s.len() - 1 implies head[k] == #[trigger] s[k] by {}
    }
}

/// What `first_where` is, from the position itself.
pub proof fn lemma_is_first_where<T>(s: Seq<T>, p: spec_fn(T) -> bool, i: int)
    requires
        0 <= i < s.len(),
        p(s[i]),
        forall|k: int| 0 <= k < i ==> !p(#[trigger] s[k]),
    ensures
        first_where(s, p) == Some(i),
{
    lemma_first_where(s, p);
}

/// What `first_where` is, where the predicate holds nowhere.
pub proof fn lemma_not_first_where<T>(s: Seq<T>, p: spec_fn(T) -> bool)
    requires
        forall|k: int| 0 <= k < s.len() ==> !p(#[trigger] s[k]),
    ensures
        first_where(s, p) is None,
{
    lemma_first_where(s, p);
}

pub open spec fn playing() -> spec_fn(SummaryView) -> bool {
    |s: SummaryView| s.status == PlaybackStatus::Playing
}

pub open spec fn paused() -> spec_fn(SummaryView) -> bool {
    |s: SummaryView| s.status == PlaybackStatus::Paused
}

pub open spec fn has_track() -> spec_fn(SummaryView) -> bool {
    |s: SummaryView| s.title.len() > 0
}

/// The most likely active player: the first that plays, else the first that is
/// paused, else the first with a track, else the first.
pub open spec fn active_index(players: Seq<SummaryView>) -> Option<int> {
    if first_where(players, playing()) is Some {
        first_where(players, playing())
    } else if first_where(players, paused()) is Some {
        first_where(players, paused())
    } else if first_where(players, has_track()) is Some {
        first_where(players, has_track())
    } else if players.len() > 0 {
        Some(0)
    } else {
        None
    }
}

/// Picks the most likely active player: Playing > Paused > has-a-track > first.
pub fn pick_active_index(players: &[PlayerSummary]) -> (r: Option<usize>)
    ensures
        match r {
            Some(i) => active_index(summaries(players@)) == Some(i as int),
            None => active_index(summaries(players@)) is None,
        },
{
    let ghost all = summaries(players@);
    let mut first_paused: Option<usize> = None;
    let mut first_with_track: Option<usize> = None;
    let mut i: usize = 0;
    while i < players.len()
        invariant
            i <= players.len(),
            all == summaries(players@),
            forall|k: int| 0 <= k < i ==> !playing()(#[trigger] all[k]),
            match first_paused {
                Some(j) => j < i && paused()(all[j as int]) && forall|k: int|
                    0 <= k < j ==> !paused()(#[trigger] all[k]),
                None => forall|k: int| 0 <= k < i ==> !paused()(#[trigger] all[k]),
            },
            first_paused is None ==> match first_with_track {
                Some(j) => j < i && has_track()(all[j as int]) && forall|k: int|
                    0 <= k < j ==> !has_track()(#[trigger] all[k]),
                None => forall|k: int| 0 <= k < i ==> !has_track()(#[trigger] all[k]),
            },
        decreases players.len() - i,
    {
        let s = &players[i];
        assert(s@ == all[i as int]);
        match s.status {
            PlaybackStatus::Playing => {
                proof {
                    lemma_is_first_where(all, playing(), i as int);
                }
                return Some(i);
            },
            PlaybackStatus::Paused => {
                if first_paused.is_none() {
                    first_paused = Some(i);
                } else if first_with_track.is_none() && !s.title.as_str().is_empty() {
                    first_with_track = Some(i);
                }
            },
            PlaybackStatus::Stopped => {
                if first_with_track.is_none() && !s.title.as_str().is_empty() {
                    first_with_track = Some(i);
                }
            },
        }
        i = i + 1;
    }
    proof {
        lemma_not_first_where(all, playing());
        match first_paused {
            Some(j) => lemma_is_first_where(all, paused(), j as int),
            None => {
                lemma_not_first_where(all, paused());
                match first_with_track {
                    Some(j) => lemma_is_first_where(all, has_track(), j as int),
                    None => lemma_not_first_where(all, has_track()),
                }
            },
        }
    }
    match first_paused {
        Some(j) => Some(j),
        None => match first_with_track {
            Some(j) => Some(j),
            None => if players.len() > 0 {
                Some(0)
            } else {
                None
            },
        },
    }
}

/// A player is picked whenever there is one, and it is one of the list.
pub proof fn law_pick_is_one_of_them(players: Seq<SummaryView>)
    ensures
        active_index(players) is Some <==> players.len() > 0,
        active_index(players) is Some ==> 0 <= active_index(players)->0 < players.len(),
{
    lemma_first_where(players, playing());
    lemma_first_where(players, paused());
    lemma_first_where(players, has_track());
}

/// The picked player is never outranked: while another plays it plays, and
/// while another is paused it plays or is paused.
pub proof fn law_pick_is_never_outranked(players: Seq<SummaryView>, other: int)
    requires
        0 <= other < players.len(),
    ensures
        active_index(players) matches Some(i) && {
            &&& players[other].status == PlaybackStatus::Playing ==> players[i].status
                == PlaybackStatus::Playing && i <= other
            &&& players[other].status == PlaybackStatus::Paused ==> players[i].status
                != PlaybackStatus::Stopped
            &&& players[other].title.len() > 0 ==> players[i].title.len() > 0
                || players[i].status != PlaybackStatus::Stopped
        },
{
    lemma_first_where(players, playing());
    lemma_first_where(players, paused());
    lemma_first_where(players, has_track());
    let s = players[other];
    assert(playing()(s) == (s.status == PlaybackStatus::Playing));
    assert(paused()(s) == (s.status == PlaybackStatus::Paused));
    assert(has_track()(s) == (s.title.len() > 0));
}

} // verus!
