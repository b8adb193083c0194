use raise::command::{Command, commands_for};
use raise::decide::{Decision, Selection, decide, decide_from_snapshot, find_position, select_target};
use raise::placement::{ConfigError, PlacementMode, placement_from_flags};
use raise::window::{Window, filter_candidates, focused_matching};

fn win(class: &str, address: &str) -> Window {
    Window::new(class.to_string(), address.to_string())
}

fn abc() -> Vec<Window> {
    vec![win("kitty", "1"), win("kitty", "2"), win("kitty", "3")]
}

fn address_of(d: &Decision<String>) -> Option<String> {
    match d {
        Decision::Focus(a) | Decision::Move(a) | Decision::MoveToEmpty(a) => Some(a.clone()),
        _ => None,
    }
}

const MODES: [PlacementMode; 3] = [
    PlacementMode::Normal,
    PlacementMode::ToCurrentWorkspace,
    PlacementMode::ToNearestEmptyWorkspace,
];

#[test]
fn focused_middle_moves_to_next() {
    let cands = abc();
    let focus = Some(win("kitty", "2"));
    assert_eq!(select_target(&cands, &focus), Selection::Target(2));
    assert_eq!(decide(&cands, &focus, PlacementMode::Normal), Decision::Focus("3".to_string()));
}

#[test]
fn empty_nearest_empty_launches_there() {
    let cands: Vec<Window> = vec![];
    let d = decide(&cands, &None, PlacementMode::ToNearestEmptyWorkspace);
    assert_eq!(d, Decision::LaunchInEmpty);
    assert_eq!(
        commands_for(&d),
        vec![Command::GotoEmptyWorkspace, Command::Launch]
    );
}

#[test]
fn single_focused_window_self_cycles() {
    let cands = vec![win("kitty", "1")];
    let focus = Some(win("kitty", "1"));
    assert_eq!(select_target(&cands, &focus), Selection::Target(0));
    assert_eq!(decide(&cands, &focus, PlacementMode::Normal), Decision::Focus("1".to_string()));
}

#[test]
fn cycling_returns_to_start() {
    let cands = abc();
    for start in 0..cands.len() {
        let mut focus = win("kitty", &cands[start].address);
        let mut seen = Vec::new();
        for _ in 0..cands.len() {
            match decide(&cands, &Some(focus), PlacementMode::Normal) {
                Decision::Focus(a) => {
                    seen.push(a.clone());
                    focus = win("kitty", &a);
                }
                other => panic!("unexpected decision {:?}", other),
            }
        }
        assert_eq!(focus.address, cands[start].address);
        seen.sort();
        assert_eq!(seen, vec!["1".to_string(), "2".to_string(), "3".to_string()]);
    }
}

#[test]
fn last_wraps_to_first() {
    let cands = abc();
    let d = decide(&cands, &Some(win("kitty", "3")), PlacementMode::ToCurrentWorkspace);
    assert_eq!(d, Decision::Move("1".to_string()));
}

#[test]
fn no_candidates_launch_in_every_mode() {
    let cands: Vec<Window> = vec![];
    assert_eq!(decide(&cands, &None, PlacementMode::Normal), Decision::Launch);
    assert_eq!(decide(&cands, &None, PlacementMode::ToCurrentWorkspace), Decision::Launch);
    assert_eq!(
        decide(&cands, &None, PlacementMode::ToNearestEmptyWorkspace),
        Decision::LaunchInEmpty
    );
}

#[test]
fn stale_focus_does_nothing() {
    let cands = abc();
    let focus = Some(win("kitty", "9"));
    for mode in MODES {
        assert_eq!(decide(&cands, &focus, mode), Decision::NoAction);
        assert_eq!(decide(&cands, &focus, mode), Decision::NoAction);
    }
    assert_eq!(select_target(&cands, &focus), Selection::Stale);
    assert!(commands_for(&Decision::NoAction).is_empty());
}

#[test]
fn stale_focus_with_no_candidates_does_nothing() {
    let cands: Vec<Window> = vec![];
    let d = decide(&cands, &Some(win("kitty", "1")), PlacementMode::Normal);
    assert_eq!(d, Decision::NoAction);
}

#[test]
fn placement_keeps_the_target() {
    let cands = abc();
    for focus in [None, Some(win("kitty", "1")), Some(win("kitty", "3"))] {
        let targets: Vec<Option<String>> =
            MODES.iter().map(|m| address_of(&decide(&cands, &focus, *m))).collect();
        assert!(targets[0].is_some());
        assert_eq!(targets[0], targets[1]);
        assert_eq!(targets[1], targets[2]);
    }
    let focus = Some(win("kitty", "1"));
    assert_eq!(decide(&cands, &focus, PlacementMode::Normal), Decision::Focus("2".to_string()));
    assert_eq!(
        decide(&cands, &focus, PlacementMode::ToCurrentWorkspace),
        Decision::Move("2".to_string())
    );
    assert_eq!(
        decide(&cands, &focus, PlacementMode::ToNearestEmptyWorkspace),
        Decision::MoveToEmpty("2".to_string())
    );
}

#[test]
fn nothing_focused_takes_first() {
    let cands = abc();
    assert_eq!(decide(&cands, &None, PlacementMode::Normal), Decision::Focus("1".to_string()));
}

#[test]
fn find_position_takes_first_match() {
    let cands = vec![win("a", "x"), win("a", "y"), win("a", "y")];
    assert_eq!(find_position(&cands, &"y".to_string()), Some(1));
    assert_eq!(find_position(&cands, &"x".to_string()), Some(0));
    assert_eq!(find_position(&cands, &"z".to_string()), None);
}

#[test]
fn filter_keeps_class_and_order() {
    let all = vec![win("kitty", "1"), win("firefox", "2"), win("kitty", "3"), win("Kitty", "4")];
    let cands = filter_candidates(&all, &"kitty".to_string());
    let addrs: Vec<&str> = cands.iter().map(|w| w.address.as_str()).collect();
    assert_eq!(addrs, vec!["1", "3"]);
    assert!(filter_candidates(&all, &"foot".to_string()).is_empty());
}

#[test]
fn focused_of_other_class_is_dropped() {
    let class = "kitty".to_string();
    assert!(focused_matching(Some(win("firefox", "1")), &class).is_none());
    let kept = focused_matching(Some(win("kitty", "1")), &class).unwrap();
    assert_eq!(kept.address, "1");
    assert!(focused_matching(None, &class).is_none());
}

#[test]
fn snapshot_without_window_list_launches() {
    let class = "kitty".to_string();
    let d = decide_from_snapshot(&None, None, &class, PlacementMode::ToNearestEmptyWorkspace);
    assert_eq!(d, Decision::Launch);
}

#[test]
fn snapshot_filters_and_cycles() {
    let class = "kitty".to_string();
    let all = vec![win("kitty", "1"), win("firefox", "2"), win("kitty", "3")];
    let d = decide_from_snapshot(&Some(all), Some(win("kitty", "1")), &class, PlacementMode::Normal);
    assert_eq!(d, Decision::Focus("3".to_string()));
}

#[test]
fn snapshot_focus_of_other_class_takes_first() {
    let class = "kitty".to_string();
    let all = vec![win("firefox", "2"), win("kitty", "3"), win("kitty", "5")];
    let d = decide_from_snapshot(&Some(all), Some(win("firefox", "2")), &class, PlacementMode::Normal);
    assert_eq!(d, Decision::Focus("3".to_string()));
}

#[test]
fn conflicting_flags_are_rejected() {
    assert_eq!(placement_from_flags(true, true), Err(ConfigError::ConflictingPlacement));
    assert_eq!(placement_from_flags(false, false), Ok(PlacementMode::Normal));
    assert_eq!(placement_from_flags(true, false), Ok(PlacementMode::ToCurrentWorkspace));
    assert_eq!(placement_from_flags(false, true), Ok(PlacementMode::ToNearestEmptyWorkspace));
}
