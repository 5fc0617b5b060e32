use on_blast::player::{pick_active_index, PlaybackStatus, PlayerSummary};

fn summary(status: PlaybackStatus, title: &str) -> PlayerSummary {
    PlayerSummary {
        bus_name: title.to_string(),
        identity: title.to_string(),
        status,
        title: title.to_string(),
    }
}

#[test]
fn pick_prefers_playing() {
    let players = vec![
        summary(PlaybackStatus::Paused, "a"),
        summary(PlaybackStatus::Playing, "b"),
        summary(PlaybackStatus::Stopped, "c"),
    ];
    assert_eq!(pick_active_index(&players), Some(1));
}

#[test]
fn pick_falls_back_to_paused_then_track_then_first() {
    assert_eq!(
        pick_active_index(&[
            summary(PlaybackStatus::Stopped, ""),
            summary(PlaybackStatus::Paused, "b"),
        ]),
        Some(1)
    );
    assert_eq!(
        pick_active_index(&[
            summary(PlaybackStatus::Stopped, ""),
            summary(PlaybackStatus::Stopped, "has-track"),
        ]),
        Some(1)
    );
    assert_eq!(
        pick_active_index(&[
            summary(PlaybackStatus::Stopped, ""),
            summary(PlaybackStatus::Stopped, ""),
        ]),
        Some(0)
    );
}

#[test]
fn pick_empty_is_none() {
    assert_eq!(pick_active_index(&[]), None);
}

#[test]
fn pick_takes_the_first_of_its_rank() {
    let players = vec![
        summary(PlaybackStatus::Stopped, "a"),
        summary(PlaybackStatus::Paused, ""),
        summary(PlaybackStatus::Paused, "c"),
        summary(PlaybackStatus::Stopped, "d"),
    ];
    assert_eq!(pick_active_index(&players), Some(1));
    let playing = vec![
        summary(PlaybackStatus::Playing, ""),
        summary(PlaybackStatus::Playing, "b"),
    ];
    assert_eq!(pick_active_index(&playing), Some(0));
}
