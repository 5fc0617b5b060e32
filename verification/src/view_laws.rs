//! What the panel and the popup show, part by part.
use vstd::prelude::*;

use crate::app::AppState;
use crate::config::{LABEL_LENGTH_MAX, LABEL_LENGTH_MIN, LABEL_LENGTH_STEP};
use crate::player::{PlaybackStatus, PlayerInfoView};
use crate::text::{decimal, time_text, truncated};
use crate::view::{
    panel_view, popup_view, secondary_text, Bar, Line, LineView, PanelContent, PanelContentView,
    PanelText, PanelTextView, PickerRow, PopupContent,
};

verus! {

/// The lines of a text, in reading order.
pub open spec fn lines(text: PanelTextView) -> Seq<LineView> {
    match text {
        PanelTextView::Stacked { top, bottom } => seq![top, bottom],
        PanelTextView::Title(line) => seq![line],
        PanelTextView::Inline { first, second } => seq![first, second],
    }
}

/// A panel with a player shows its title behind the track's icon and, where there
/// is one, its artist behind the artist's, in the order that is set and each cut
/// to the length that is set. Two parts are stacked in a panel of twenty-eight
/// pixels or more, and share a line in one that is lower.
pub proof fn law_panel_shows_track_and_artist<H>(s: AppState<H>, thumb_size: u16)
    requires
        s.player.bus_name.len() > 0,
    ensures
        ({
            let max = s.config.panel_label_max_length as nat;
            &&& panel_view(s, thumb_size) matches PanelContentView::Player { text, .. }
            &&& s.player.artist.len() == 0 ==> text is Title && lines(text)[0].icon
                == "emblem-music-symbolic"@ && lines(text)[0].label == truncated(
                s.player.title,
                max,
            )
            &&& s.player.artist.len() > 0 ==> {
                let track = if s.config.track_first {
                    0int
                } else {
                    1
                };
                &&& text is Stacked <==> thumb_size >= 28
                &&& text is Inline <==> thumb_size < 28
                &&& lines(text)[track].icon == "emblem-music-symbolic"@
                &&& lines(text)[track].label == truncated(s.player.title, max)
                &&& lines(text)[1 - track].icon == "system-users-symbolic"@
                &&& lines(text)[1 - track].label == truncated(s.player.artist, max)
            }
        }),
{
}

/// A panel shows the cover where there is one, and an icon in its place where
/// there is none; without a player it shows the applet's icon alone.
pub proof fn law_panel_shows_cover_or_placeholder<H>(s: AppState<H>, thumb_size: u16)
    ensures
        match panel_view(s, thumb_size) {
            PanelContentView::Player { placeholder, .. } => {
                &&& s.player.bus_name.len() > 0
                &&& s.album_art is Some ==> placeholder is None
                &&& s.album_art is None ==> placeholder == Some("media-optical-symbolic"@)
            },
            PanelContentView::Idle { icon } => {
                &&& s.player.bus_name.len() == 0
                &&& icon == "io.github.cosmic-ext-applet-on-blast-symbolic"@
            },
        },
{
}

/// The play button pauses a player that plays and starts any other. It can be
/// pressed exactly where the player says that it can do that, and so can the two
/// beside it.
pub proof fn law_buttons_follow_the_capabilities<H>(s: AppState<H>)
    ensures
        s.player.status == PlaybackStatus::Playing ==> (popup_view(s).can_play_pause
            <==> s.player.can_pause),
        s.player.status != PlaybackStatus::Playing ==> (popup_view(s).can_play_pause
            <==> s.player.can_play),
        popup_view(s).can_go_previous <==> s.player.can_go_previous,
        popup_view(s).can_go_next <==> s.player.can_go_next,
        s.player.status == PlaybackStatus::Playing ==> popup_view(s).play_icon
            == "media-playback-pause-symbolic"@,
        s.player.status != PlaybackStatus::Playing ==> popup_view(s).play_icon
            == "media-playback-start-symbolic"@,
{
}

/// The bar shows where the slider is held or else where playback is, out of the
/// track's length, and the two times beside it say the same. It can be dragged
/// exactly where the player can seek in a track of known length.
pub proof fn law_bar_shows_the_position<H>(s: AppState<H>)
    ensures
        ({
            let shown = match s.seeking {
                Some(pos) => pos,
                None => s.player.position_us,
            };
            &&& popup_view(s).position == time_text(shown)
            &&& popup_view(s).length == time_text(s.player.length_us)
            &&& match popup_view(s).bar {
                Bar::Slider { position_us, length_us } => {
                    &&& s.player.can_seek && s.player.length_us > 0
                    &&& position_us == shown
                    &&& length_us == s.player.length_us
                },
                Bar::ReadOnly { position_us, length_us } => {
                    &&& !s.player.can_seek || s.player.length_us == 0
                    &&& position_us == shown
                    &&& length_us == s.player.length_us
                },
            }
        }),
{
}

/// The popup names the track: its title, cut to thirty-four characters.
pub proof fn law_popup_shows_the_title<H>(s: AppState<H>)
    ensures
        popup_view(s).title == truncated(s.player.title, 34),
        popup_view(s).secondary == secondary_text(s.player),
{
}

/// The line below the title holds the artist, a dot, the album and its year in
/// brackets, as far as each is known, cut to forty-four characters. A year is
/// shown only with its album. Where there is neither artist nor album it is a
/// space.
pub proof fn law_secondary_line_credits_the_track(info: PlayerInfoView)
    ensures
        info.artist.len() == 0 && info.album.len() == 0 ==> secondary_text(info) == " "@,
        info.artist.len() > 0 && info.album.len() == 0 ==> secondary_text(info) == truncated(
            info.artist,
            44,
        ),
        info.artist.len() == 0 && info.album.len() > 0 && info.year is None ==> secondary_text(info)
            == truncated(info.album, 44),
        info.artist.len() == 0 && info.album.len() > 0 && info.year is Some ==> secondary_text(info)
            == truncated(info.album + " ("@ + decimal(info.year->0 as nat) + ")"@, 44),
        info.artist.len() > 0 && info.album.len() > 0 && info.year is None ==> secondary_text(info)
            == truncated(info.artist + " \u{00b7} "@ + info.album, 44),
        info.artist.len() > 0 && info.album.len() > 0 && info.year is Some ==> secondary_text(info)
            == truncated(
            info.artist + " \u{00b7} "@ + (info.album + " ("@ + decimal(info.year->0 as nat)
                + ")"@),
            44,
        ),
{
}

/// There is a picker exactly where there is a choice. It has a row per player in
/// order, which picks that player, is marked where it is the one on display, and
/// shows what the player is, what it plays and whether it plays.
pub proof fn law_picker_shows_each_player<H>(s: AppState<H>, i: int)
    ensures
        popup_view(s).picker is Some <==> s.players.len() >= 2,
        popup_view(s).picker matches Some(rows) ==> rows.len() == s.players.len() && (0 <= i
            < rows.len() ==> {
            let p = s.players[i];
            &&& rows[i].bus_name == p.bus_name
            &&& rows[i].current <==> p.bus_name == s.player.bus_name
            &&& p.title.len() == 0 ==> rows[i].label == truncated(p.identity, 42)
            &&& p.title.len() > 0 ==> rows[i].label == truncated(
                p.identity + " \u{2014} "@ + p.title,
                42,
            )
            &&& p.status == PlaybackStatus::Playing ==> rows[i].icon
                == "media-playback-start-symbolic"@
            &&& p.status == PlaybackStatus::Paused ==> rows[i].icon
                == "media-playback-pause-symbolic"@
            &&& p.status == PlaybackStatus::Stopped ==> rows[i].icon
                == "media-playback-stop-symbolic"@
        }),
{
}

/// Labels can be set from ten to a hundred characters, one at a time.
pub proof fn law_label_length_has_its_range(len: u32)
    ensures
        LABEL_LENGTH_MIN <= len <= LABEL_LENGTH_MAX <==> 10 <= len <= 100,
        len + LABEL_LENGTH_STEP == len + 1,
{
}

/// What is shown hides nothing of what was decided.
pub proof fn law_contents_hide_nothing(
    popup: PopupContent,
    row: PickerRow,
    line: Line,
    panel: PanelContent,
    text: PanelText,
    i: int,
)
    ensures
        popup@.title == popup.title@ && popup@.secondary == popup.secondary@,
        popup@.bar == popup.bar && popup@.position == popup.position@,
        popup@.length == popup.length@ && popup@.play_icon == popup.play_icon@,
        popup@.can_go_previous == popup.can_go_previous,
        popup@.can_play_pause == popup.can_play_pause && popup@.can_go_next == popup.can_go_next,
        popup.picker is None ==> popup@.picker is None,
        popup.picker matches Some(rows) ==> popup@.picker is Some && popup@.picker->0.len()
            == rows@.len() && (0 <= i < rows@.len() ==> popup@.picker->0[i] == rows@[i]@),
        row@.bus_name == row.bus_name@ && row@.icon == row.icon@ && row@.label == row.label@,
        row@.current == row.current,
        line@.icon == line.icon@ && line@.label == line.label@,
        match panel {
            PanelContent::Idle { icon } => panel@ == (PanelContentView::Idle { icon: icon@ }),
            PanelContent::Player { placeholder: Some(icon), text } => panel@ == (
            PanelContentView::Player { placeholder: Some(icon@), text: text@ }),
            PanelContent::Player { placeholder: None, text } => panel@ == (
            PanelContentView::Player { placeholder: None, text: text@ }),
        },
        match text {
            PanelText::Stacked { top, bottom } => text@ == (PanelTextView::Stacked {
                top: top@,
                bottom: bottom@,
            }),
            PanelText::Title(line) => text@ == PanelTextView::Title(line@),
            PanelText::Inline { first, second } => text@ == (PanelTextView::Inline {
                first: first@,
                second: second@,
            }),
        },
{
}

} // verus!
