use on_blast::control::{
    advance, next, play_pause, previous, seek_to, Control, ControlAction, ControlEvent,
};
use on_blast::players::{Cache, FoundPlayer, KnownPlayer};

fn cache(names: &[&str]) -> Option<Cache> {
    let players = names
        .iter()
        .enumerate()
        .map(|(i, n)| KnownPlayer {
            bus_name: n.to_string(),
            identity: n.to_string(),
            handle: i + 10,
        })
        .collect();
    Some(Cache { players, bus_set: names.iter().map(|n| n.to_string()).collect(), caps: None })
}

fn found(names: &[&str]) -> Vec<FoundPlayer> {
    names
        .iter()
        .map(|n| FoundPlayer { bus_name: n.to_string(), identity: n.to_string() })
        .collect()
}

#[test]
fn a_command_goes_straight_to_a_known_player() {
    let slot = cache(&["a", "b"]);
    for (action, control) in [
        (play_pause(&slot, "b").1, Control::PlayPause),
        (next(&slot, "b").1, Control::Next),
        (previous(&slot, "b").1, Control::Previous),
        (seek_to(&slot, "b", 5, 7).1, Control::Seek(-2)),
    ] {
        assert_eq!(action, ControlAction::Invoke { handle: 11, control });
    }
}

#[test]
fn a_seek_moves_by_the_difference() {
    let slot = cache(&["a"]);
    let (_, action) = seek_to(&slot, "a", 65_000_000, 5_000_000);
    let control = Control::Seek(60_000_000);
    assert_eq!(action, ControlAction::Invoke { handle: 10, control });
}

#[test]
fn an_unknown_player_is_searched_for() {
    let mut slot = cache(&["a"]);
    let (run, action) = next(&slot, "b");
    assert_eq!(action, ControlAction::FindAll);
    let (_, action) = advance(&mut slot, run, ControlEvent::Found(found(&["playerctld", "a", "b"])));
    assert_eq!(action, ControlAction::Invoke { handle: 2, control: Control::Next });
    let names: Vec<String> = slot.unwrap().bus_set;
    assert_eq!(names, vec!["a".to_string(), "b".to_string()]);
}

#[test]
fn a_command_connects_first() {
    let mut slot = None;
    let (run, action) = play_pause(&slot, "a");
    assert_eq!(action, ControlAction::Connect);
    let (run, action) = advance(&mut slot, run, ControlEvent::Connected);
    assert_eq!(action, ControlAction::FindAll);
    let (_, action) = advance(&mut slot, run, ControlEvent::Found(found(&["a"])));
    assert_eq!(action, ControlAction::Invoke { handle: 0, control: Control::PlayPause });
}

#[test]
fn a_command_to_nobody_does_nothing() {
    let mut slot = None;
    let (run, _) = next(&slot, "a");
    let (_, action) = advance(&mut slot, run, ControlEvent::Failed);
    assert_eq!(action, ControlAction::Nothing);
    assert!(slot.is_none());

    let mut slot = cache(&["a"]);
    let (run, _) = next(&slot, "b");
    let (_, action) = advance(&mut slot, run.clone(), ControlEvent::Failed);
    assert_eq!(action, ControlAction::Nothing);
    assert_eq!(slot, cache(&["a"]));
    let (_, action) = advance(&mut slot, run, ControlEvent::Found(found(&["c"])));
    assert_eq!(action, ControlAction::Nothing);
}

#[test]
fn the_proxy_is_never_commanded() {
    let mut slot = cache(&["a"]);
    let (run, action) = next(&slot, "playerctld");
    assert_eq!(action, ControlAction::FindAll);
    let (_, action) = advance(&mut slot, run, ControlEvent::Found(found(&["playerctld", "a"])));
    assert_eq!(action, ControlAction::Nothing);
}
