//! What the panel and the popup show.
//!
//! Colours, sizes and widgets are the caller's. Here is decided which texts and
//! icons appear, and what can be pressed.
use vstd::prelude::*;
use vstd::string::*;

use crate::app::{AppModel, AppState};
use crate::player::{
    summaries, PlaybackStatus, PlayerInfo, PlayerInfoView, PlayerSummary, SummaryView,
};
use crate::text::{
    append_decimal, decimal, format_time, same_text, time_text, truncate_label, truncated,
};

verus! {

/// Minimum panel height for the two-line title/artist stack; thinner panels fall
/// back to a single line.
pub const MIN_STACK_PANEL_HEIGHT: u16 = 28;

/// Glyph prefix for the panel's track line.
pub const TRACK_ICON: &'static str = "emblem-music-symbolic";

/// Glyph prefix for the panel's artist line.
pub const ARTIST_ICON: &'static str = "system-users-symbolic";

/// Shown in the panel when nothing is playing.
pub const IDLE_ICON: &'static str = "io.github.cosmic-ext-applet-on-blast-symbolic";

/// Stands in for a missing cover so the panel width stays stable.
pub const NO_ART_ICON: &'static str = "media-optical-symbolic";

/// Stands between track and artist where they share a line.
pub const DASH: &'static str = "\u{2014}";

pub const START_ICON: &'static str = "media-playback-start-symbolic";

pub const PAUSE_ICON: &'static str = "media-playback-pause-symbolic";

pub const STOP_ICON: &'static str = "media-playback-stop-symbolic";

/// The longest title in the popup, in characters.
pub const TITLE_MAX: usize = 34;

/// The longest line of artist and album in the popup, in characters.
pub const SECONDARY_MAX: usize = 44;

/// The longest label in the picker, in characters.
pub const PICKER_MAX: usize = 42;

/// A label with a glyph before it.
#[derive(Debug, Clone, PartialEq)]
pub struct Line {
    pub icon: &'static str,
    pub label: String,
}

pub ghost struct LineView {
    pub icon: Seq<char>,
    pub label: Seq<char>,
}

impl View for Line {
    type V = LineView;

    open spec fn view(&self) -> LineView {
        LineView { icon: self.icon@, label: self.label@ }
    }
}

/// The text of the panel.
#[derive(Debug, Clone, PartialEq)]
pub enum PanelText {
    /// Two lines at a smaller font.
    Stacked { top: Line, bottom: Line },
    /// A track without an artist.
    Title(Line),
    /// A single line, the two parts separated by a dash.
    Inline { first: Line, second: Line },
}

pub ghost enum PanelTextView {
    Stacked { top: LineView, bottom: LineView },
    Title(LineView),
    Inline { first: LineView, second: LineView },
}

impl View for PanelText {
    type V = PanelTextView;

    open spec fn view(&self) -> PanelTextView {
        match *self {
            PanelText::Stacked { top, bottom } => PanelTextView::Stacked {
                top: top@,
                bottom: bottom@,
            },
            PanelText::Title(line) => PanelTextView::Title(line@),
            PanelText::Inline { first, second } => PanelTextView::Inline {
                first: first@,
                second: second@,
            },
        }
    }
}

/// What the panel shows: an icon where there is no player, else the cover, or an
/// icon in its place, and a text.
#[derive(Debug, Clone, PartialEq)]
pub enum PanelContent {
    Idle { icon: &'static str },
    Player { placeholder: Option<&'static str>, text: PanelText },
}

pub ghost enum PanelContentView {
    Idle { icon: Seq<char> },
    Player { placeholder: Option<Seq<char>>, text: PanelTextView },
}

impl View for PanelContent {
    type V = PanelContentView;

    open spec fn view(&self) -> PanelContentView {
        match *self {
            PanelContent::Idle { icon } => PanelContentView::Idle { icon: icon@ },
            PanelContent::Player { placeholder, text } => PanelContentView::Player {
                placeholder: match placeholder {
                    Some(icon) => Some(icon@),
                    None => None,
                },
                text: text@,
            },
        }
    }
}

/// The track line of the panel.
pub open spec fn track_line<H>(s: AppState<H>) -> LineView {
    LineView {
        icon: TRACK_ICON@,
        label: truncated(s.player.title, s.config.panel_label_max_length as nat),
    }
}

/// The artist line of the panel.
pub open spec fn artist_line<H>(s: AppState<H>) -> LineView {
    LineView {
        icon: ARTIST_ICON@,
        label: truncated(s.player.artist, s.config.panel_label_max_length as nat),
    }
}

/// The text of the panel, given how high a cover in it is: track and artist in
/// the order that is set, above each other where there is room.
pub open spec fn panel_text<H>(s: AppState<H>, thumb_size: u16) -> PanelTextView {
    let track = track_line(s);
    let artist = artist_line(s);
    let (first, second) = if s.config.track_first {
        (track, artist)
    } else {
        (artist, track)
    };
    if s.player.artist.len() == 0 {
        PanelTextView::Title(track)
    } else if thumb_size >= MIN_STACK_PANEL_HEIGHT {
        PanelTextView::Stacked { top: first, bottom: second }
    } else {
        PanelTextView::Inline { first, second }
    }
}

/// What the panel shows, given how high a cover in it is.
pub open spec fn panel_view<H>(s: AppState<H>, thumb_size: u16) -> PanelContentView {
    if s.player.bus_name.len() == 0 {
        PanelContentView::Idle { icon: IDLE_ICON@ }
    } else {
        PanelContentView::Player {
            placeholder: if s.album_art is Some {
                None
            } else {
                Some(NO_ART_ICON@)
            },
            text: panel_text(s, thumb_size),
        }
    }
}

/// A number held between two bounds.
pub open spec fn clamped(n: int, low: int, high: int) -> int {
    if n < low {
        low
    } else if n > high {
        high
    } else {
        n
    }
}

/// The nearest whole number to a fraction, the higher one halfway.
pub open spec fn rounded_quotient(n: int, d: int) -> int {
    (2 * n + d) / (2 * d)
}

/// The size of an inline glyph: three fifths of the cover's height, as body text
/// rather than the full panel height has it.
pub fn glyph_size(thumb_size: u16) -> (r: u16)
    ensures
        r == clamped(rounded_quotient(3 * thumb_size, 5), 12, 18),
{
    let size: u32 = (6 * thumb_size as u32 + 5) / 10;
    if size < 12 {
        12
    } else if size > 18 {
        18
    } else {
        size as u16
    }
}

/// The size of a glyph in the two-line stack, for a panel button of that height:
/// as large as the text, of which two lines fill nine tenths of the button at a
/// line height of thirteen tenths.
pub fn stack_glyph_size(height: u16) -> (r: u16)
    ensures
        r == clamped(rounded_quotient(9 * height, 26), 8, 13),
{
    let size: u32 = (18 * height as u32 + 26) / 52;
    if size < 8 {
        8
    } else if size > 13 {
        13
    } else {
        size as u16
    }
}

/// The bar of the popup: a slider where the player can seek, and read-only
/// otherwise.
#[derive(Debug, Clone, Copy, PartialEq, Eq, Structural)]
pub enum Bar {
    Slider { position_us: u64, length_us: u64 },
    ReadOnly { position_us: u64, length_us: u64 },
}

/// A row of the picker.
#[derive(Debug, Clone, PartialEq)]
pub struct PickerRow {
    pub bus_name: String,
    pub icon: &'static str,
    pub label: String,
    pub current: bool,
}

pub ghost struct PickerRowView {
    pub bus_name: Seq<char>,
    pub icon: Seq<char>,
    pub label: Seq<char>,
    pub current: bool,
}

impl View for PickerRow {
    type V = PickerRowView;

    open spec fn view(&self) -> PickerRowView {
        PickerRowView {
            bus_name: self.bus_name@,
            icon: self.icon@,
            label: self.label@,
            current: self.current,
        }
    }
}

pub open spec fn row_views(rows: Seq<PickerRow>) -> Seq<PickerRowView> {
    rows.map_values(|r: PickerRow| r@)
}

/// What the popup shows.
#[derive(Debug, Clone, PartialEq)]
pub struct PopupContent {
    /// One row per player, only when there's a choice.
    pub picker: Option<Vec<PickerRow>>,
    pub title: String,
    pub secondary: String,
    pub bar: Bar,
    pub position: String,
    pub length: String,
    pub play_icon: &'static str,
    pub can_go_previous: bool,
    pub can_play_pause: bool,
    pub can_go_next: bool,
}

pub ghost struct PopupContentView {
    pub picker: Option<Seq<PickerRowView>>,
    pub title: Seq<char>,
    pub secondary: Seq<char>,
    pub bar: Bar,
    pub position: Seq<char>,
    pub length: Seq<char>,
    pub play_icon: Seq<char>,
    pub can_go_previous: bool,
    pub can_play_pause: bool,
    pub can_go_next: bool,
}

impl View for PopupContent {
    type V = PopupContentView;

    open spec fn view(&self) -> PopupContentView {
        PopupContentView {
            picker: match self.picker {
                Some(rows) => Some(row_views(rows@)),
                None => None,
            },
            title: self.title@,
            secondary: self.secondary@,
            bar: self.bar,
            position: self.position@,
            length: self.length@,
            play_icon: self.play_icon@,
            can_go_previous: self.can_go_previous,
            can_play_pause: self.can_play_pause,
            can_go_next: self.can_go_next,
        }
    }
}

/// The album, with its year where that is known.
pub open spec fn album_text(album: Seq<char>, year: Option<u32>) -> Seq<char> {
    match year {
        Some(y) => album + " ("@ + decimal(y as nat) + ")"@,
        None => album,
    }
}

/// Artist and album, as far as there are any.
pub open spec fn credits(info: PlayerInfoView) -> Seq<char> {
    if info.album.len() == 0 {
        info.artist
    } else if info.artist.len() == 0 {
        album_text(info.album, info.year)
    } else {
        info.artist + " \u{00b7} "@ + album_text(info.album, info.year)
    }
}

/// The line below the title: artist and album, or a space where there is
/// neither.
pub open spec fn secondary_text(info: PlayerInfoView) -> Seq<char> {
    if credits(info).len() == 0 {
        " "@
    } else {
        truncated(credits(info), SECONDARY_MAX as nat)
    }
}

/// The position to show: where the slider is held, else where playback is.
pub open spec fn shown_position<H>(s: AppState<H>) -> u64 {
    match s.seeking {
        Some(pos) => pos,
        None => s.player.position_us,
    }
}

/// The bar of the popup.
pub open spec fn bar_view<H>(s: AppState<H>) -> Bar {
    let position_us = shown_position(s);
    let length_us = s.player.length_us;
    if length_us > 0 && s.player.can_seek {
        Bar::Slider { position_us, length_us }
    } else {
        Bar::ReadOnly { position_us, length_us }
    }
}

/// The icon for what a player is doing.
pub open spec fn status_icon(status: PlaybackStatus) -> Seq<char> {
    match status {
        PlaybackStatus::Playing => START_ICON@,
        PlaybackStatus::Paused => PAUSE_ICON@,
        PlaybackStatus::Stopped => STOP_ICON@,
    }
}

/// A player's row in the picker.
pub open spec fn picker_row(p: SummaryView, displayed: Seq<char>) -> PickerRowView {
    let label = if p.title.len() == 0 {
        p.identity
    } else {
        p.identity + " \u{2014} "@ + p.title
    };
    PickerRowView {
        bus_name: p.bus_name,
        icon: status_icon(p.status),
        label: truncated(label, PICKER_MAX as nat),
        current: p.bus_name == displayed,
    }
}

/// What the popup shows.
pub open spec fn popup_view<H>(s: AppState<H>) -> PopupContentView {
    let playing = s.player.status == PlaybackStatus::Playing;
    PopupContentView {
        picker: if s.players.len() > 1 {
            Some(s.players.map_values(|p: SummaryView| picker_row(p, s.player.bus_name)))
        } else {
            None
        },
        title: truncated(s.player.title, TITLE_MAX as nat),
        secondary: secondary_text(s.player),
        bar: bar_view(s),
        position: time_text(shown_position(s)),
        length: time_text(s.player.length_us),
        play_icon: if playing {
            PAUSE_ICON@
        } else {
            START_ICON@
        },
        can_go_previous: s.player.can_go_previous,
        can_play_pause: if playing {
            s.player.can_pause
        } else {
            s.player.can_play
        },
        can_go_next: s.player.can_go_next,
    }
}

/// Decides what the panel shows, given how high a cover in it is.
pub fn panel_content<H>(app: &AppModel<H>, thumb_size: u16) -> (r: PanelContent)
    ensures
        r@ == panel_view(app@, thumb_size),
{
    if app.player.bus_name.as_str().is_empty() {
        return PanelContent::Idle { icon: IDLE_ICON };
    }
    let max: usize = app.config.panel_label_max_length as usize;
    let track = Line { icon: TRACK_ICON, label: truncate_label(app.player.title.as_str(), max) };
    let text = if app.player.artist.as_str().is_empty() {
        PanelText::Title(track)
    } else {
        let artist = Line {
            icon: ARTIST_ICON,
            label: truncate_label(app.player.artist.as_str(), max),
        };
        let (first, second) = if app.config.track_first {
            (track, artist)
        } else {
            (artist, track)
        };
        if thumb_size >= MIN_STACK_PANEL_HEIGHT {
            PanelText::Stacked { top: first, bottom: second }
        } else {
            PanelText::Inline { first, second }
        }
    };
    let placeholder = if app.album_art.is_some() {
        None
    } else {
        Some(NO_ART_ICON)
    };
    PanelContent::Player { placeholder, text }
}

fn album_label(info: &PlayerInfo) -> (r: String)
    ensures
        r@ == album_text(info@.album, info@.year),
{
    let mut out = info.album.clone();
    if let Some(y) = info.year {
        out.append(" (");
        append_decimal(&mut out, y as u64);
        out.append(")");
    }
    out
}

/// The line below the title.
pub fn secondary_line(info: &PlayerInfo) -> (r: String)
    ensures
        r@ == secondary_text(info@),
{
    let mut credits = info.artist.clone();
    if !info.album.as_str().is_empty() {
        if !info.artist.as_str().is_empty() {
            credits.append(" \u{00b7} ");
        }
        let album = album_label(info);
        credits.append(album.as_str());
        proof {
            if info@.artist.len() == 0 {
                assert(credits@ =~= album@);
            }
        }
    }
    if credits.as_str().is_empty() {
        " ".to_owned()
    } else {
        truncate_label(credits.as_str(), SECONDARY_MAX)
    }
}

fn picker_rows(players: &Vec<PlayerSummary>, displayed: &str) -> (r: Vec<PickerRow>)
    ensures
        row_views(r@) == summaries(players@).map_values(
            |p: SummaryView| picker_row(p, displayed@),
        ),
{
    let mut out: Vec<PickerRow> = Vec::new();
    let mut i: usize = 0;
    while i < players.len()
        invariant
            i <= players.len(),
            out.len() == i,
            forall|k: int|
                0 <= k < i ==> (#[trigger] out@[k])@ == picker_row(players@[k]@, displayed@),
        decreases players.len() - i,
    {
        let p = &players[i];
        let mut label = p.identity.clone();
        if !p.title.as_str().is_empty() {
            label.append(" \u{2014} ");
            label.append(p.title.as_str());
        }
        let icon = match p.status {
            PlaybackStatus::Playing => START_ICON,
            PlaybackStatus::Paused => PAUSE_ICON,
            PlaybackStatus::Stopped => STOP_ICON,
        };
        out.push(
            PickerRow {
                bus_name: p.bus_name.clone(),
                icon,
                label: truncate_label(label.as_str(), PICKER_MAX),
                current: same_text(p.bus_name.as_str(), displayed),
            },
        );
        i = i + 1;
    }
    assert(row_views(out@) =~= summaries(players@).map_values(
        |p: SummaryView| picker_row(p, displayed@),
    ));
    out
}

/// Decides what the popup shows.
pub fn popup_content<H>(app: &AppModel<H>) -> (r: PopupContent)
    ensures
        r@ == popup_view(app@),
{
    let picker = if app.players.len() > 1 {
        Some(picker_rows(&app.players, app.player.bus_name.as_str()))
    } else {
        None
    };
    let position_us: u64 = match app.seeking {
        Some(pos) => pos,
        None => app.player.position_us,
    };
    let length_us: u64 = app.player.length_us;
    let bar = if length_us > 0 && app.player.can_seek {
        Bar::Slider { position_us, length_us }
    } else {
        Bar::ReadOnly { position_us, length_us }
    };
    let playing = app.player.status == PlaybackStatus::Playing;
    PopupContent {
        picker,
        title: truncate_label(app.player.title.as_str(), TITLE_MAX),
        secondary: secondary_line(&app.player),
        bar,
        position: format_time(position_us),
        length: format_time(length_us),
        play_icon: if playing {
            PAUSE_ICON
        } else {
            START_ICON
        },
        can_go_previous: app.player.can_go_previous,
        can_play_pause: if playing {
            app.player.can_pause
        } else {
            app.player.can_play
        },
        can_go_next: app.player.can_go_next,
    }
}

/// The line below the title never collapses, so that the popup keeps its height
/// from track to track.
pub proof fn law_secondary_line_never_collapses(info: PlayerInfoView)
    ensures
        secondary_text(info).len() > 0,
{
    reveal_strlit(" ");
}

/// No label of the panel is longer than the setting allows, but for the ellipsis
/// that marks the cut.
pub proof fn law_panel_labels_keep_the_limit<H>(s: AppState<H>)
    ensures
        track_line(s).label.len() <= s.config.panel_label_max_length + 1,
        artist_line(s).label.len() <= s.config.panel_label_max_length + 1,
{
}

/// The setting that puts the track first swaps the two parts of the text and
/// changes nothing else.
pub proof fn law_order_setting_swaps<H>(s: AppState<H>, t: AppState<H>, thumb_size: u16)
    requires
        t == (AppState {
            config: crate::config::Config { track_first: !s.config.track_first, ..s.config },
            ..s
        }),
    ensures
        match (panel_text(s, thumb_size), panel_text(t, thumb_size)) {
            (
                PanelTextView::Stacked { top, bottom },
                PanelTextView::Stacked { top: other_top, bottom: other_bottom },
            ) => top == other_bottom && bottom == other_top,
            (PanelTextView::Title(line), PanelTextView::Title(other)) => line == other,
            (
                PanelTextView::Inline { first, second },
                PanelTextView::Inline { first: other_first, second: other_second },
            ) => first == other_second && second == other_first,
            _ => false,
        },
{
}

/// The panel is idle exactly while there is no player.
pub proof fn law_panel_is_idle_without_a_player<H>(s: AppState<H>, thumb_size: u16)
    ensures
        panel_view(s, thumb_size) is Idle <==> s.player.bus_name.len() == 0,
{
}

/// The slider is held at the target of a seek from the moment it is dragged.
pub proof fn law_slider_shows_the_target<H>(s: AppState<H>, pos: u64)
    ensures
        shown_position(crate::app::step(s, crate::app::MessageView::SeekChanged(pos)).0) == pos,
        shown_position(
            crate::app::step(
                crate::app::step(s, crate::app::MessageView::SeekChanged(pos)).0,
                crate::app::MessageView::SeekCommit,
            ).0,
        ) == pos,
{
}

/// A choice in the picker always names a player on the list, one row for each.
pub proof fn law_picker_lists_the_players<H>(s: AppState<H>)
    requires
        s.players.len() > 1,
    ensures
        ({
            let rows = popup_view(s).picker->0;
            &&& popup_view(s).picker is Some
            &&& rows.len() == s.players.len()
            &&& forall|i: int|
                0 <= i < rows.len() ==> (#[trigger] rows[i]).bus_name == s.players[i].bus_name
        }),
{
}

} // verus!
