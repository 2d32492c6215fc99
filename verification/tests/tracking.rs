use special_return::command::MoveSilently;
use special_return::event::{Event, ParseError, SpecialRule};
use special_return::tracker::Tracker;

fn order(workspace: &str, address: &str) -> MoveSilently {
    MoveSilently { workspace: workspace.to_string(), address: address.to_string() }
}

#[test]
fn new_tracker_remembers_workspace_one() {
    assert_eq!(Tracker::new().last_workspace(), "1");
}

#[test]
fn focus_change_replaces_remembered_workspace() {
    let mut tracker = Tracker::new();
    assert_eq!(tracker.handle(Event::FocusedWorkspace { name: "7" }), None);
    assert_eq!(tracker.last_workspace(), "7");
    assert_eq!(tracker.handle(Event::FocusedWorkspace { name: "mail" }), None);
    assert_eq!(tracker.last_workspace(), "mail");
}

#[test]
fn irrelevant_event_changes_nothing() {
    let mut tracker = Tracker::new();
    assert_eq!(tracker.handle(Event::Irrelevant), None);
    assert_eq!(tracker.last_workspace(), "1");
}

#[test]
fn spawn_orders_window_to_remembered_workspace() {
    let mut tracker = Tracker::new();
    assert_eq!(
        tracker.handle(Event::SpawnedWindowOnSpecial { address: "abc" }),
        Some(order("1", "abc"))
    );
    assert_eq!(tracker.last_workspace(), "1");
    tracker.handle(Event::FocusedWorkspace { name: "4" });
    assert_eq!(
        tracker.handle(Event::SpawnedWindowOnSpecial { address: "def" }),
        Some(order("4", "def"))
    );
    assert_eq!(tracker.last_workspace(), "4");
}

#[test]
fn workspace_line_sets_last_workspace() {
    for rule in [SpecialRule::Sentinel, SpecialRule::Prefix] {
        let mut tracker = Tracker::new();
        assert_eq!(tracker.feed("workspace>>W", rule), Ok(None));
        assert_eq!(tracker.last_workspace(), "W");
    }
}

#[test]
fn end_to_end_emits_one_command() {
    let mut tracker = Tracker::new();
    let mut commands: Vec<String> = Vec::new();
    for line in ["workspace>>3", "openwindow>>deadbeef,special:special"] {
        if let Some(order) = tracker.feed(line, SpecialRule::Sentinel).unwrap() {
            commands.push(order.command());
        }
    }
    assert_eq!(commands, vec!["movetoworkspacesilent name:3,address:0xdeadbeef".to_string()]);
}

#[test]
fn end_to_end_under_prefix_rule() {
    let mut tracker = Tracker::new();
    let mut commands: Vec<String> = Vec::new();
    let lines = [
        "focusedmon>>DP-2,5",
        "activewindow>>kitty,zsh",
        "openwindow>>aa,special:files,org.kde.dolphin,Home",
        "openwindow>>bb,2,kitty,zsh",
        "openwindow>>cc,special:term,kitty,zsh",
        "workspace>>6",
        "openwindow>>dd,special:term,kitty,zsh",
    ];
    for line in lines {
        if let Some(order) = tracker.feed(line, SpecialRule::Prefix).unwrap() {
            commands.push(order.command());
        }
    }
    assert_eq!(
        commands,
        vec![
            "movetoworkspacesilent name:5,address:0xcc".to_string(),
            "movetoworkspacesilent name:6,address:0xdd".to_string(),
        ]
    );
    assert_eq!(tracker.last_workspace(), "6");
}

#[test]
fn repeated_focus_is_idempotent() {
    let mut tracker = Tracker::new();
    assert_eq!(tracker.handle(Event::FocusedWorkspace { name: "9" }), None);
    let once = tracker.clone();
    for _ in 0..5 {
        assert_eq!(tracker.handle(Event::FocusedWorkspace { name: "9" }), None);
        assert_eq!(tracker, once);
        assert_eq!(tracker.last_workspace(), "9");
    }
    let mut fed = Tracker::new();
    for _ in 0..3 {
        assert_eq!(fed.feed("workspace>>9", SpecialRule::Prefix), Ok(None));
        assert_eq!(fed.last_workspace(), "9");
    }
}

#[test]
fn unreadable_line_leaves_tracker_alone() {
    let mut tracker = Tracker::new();
    tracker.handle(Event::FocusedWorkspace { name: "2" });
    assert_eq!(tracker.feed("workspace", SpecialRule::Prefix), Err(ParseError::MissingSeparator));
    assert_eq!(tracker.last_workspace(), "2");
    assert_eq!(tracker.feed("focusedmon>>DP-1", SpecialRule::Prefix), Err(ParseError::MissingField));
    assert_eq!(tracker.last_workspace(), "2");
}

#[test]
fn special_name_is_not_validated() {
    let mut tracker = Tracker::new();
    assert_eq!(tracker.feed("workspace>>special:foo", SpecialRule::Prefix), Ok(None));
    assert_eq!(tracker.last_workspace(), "special:foo");
}

#[test]
fn handle_all_gives_orders_in_order() {
    let mut tracker = Tracker::new();
    let events = [
        Event::SpawnedWindowOnSpecial { address: "a1" },
        Event::FocusedWorkspace { name: "3" },
        Event::Irrelevant,
        Event::SpawnedWindowOnSpecial { address: "b2" },
        Event::FocusedWorkspace { name: "4" },
        Event::FocusedWorkspace { name: "5" },
        Event::SpawnedWindowOnSpecial { address: "c3" },
        Event::Irrelevant,
    ];
    let orders = tracker.handle_all(&events);
    assert_eq!(orders, vec![order("1", "a1"), order("3", "b2"), order("5", "c3")]);
    assert_eq!(tracker.last_workspace(), "5");
}

#[test]
fn handle_all_of_nothing_does_nothing() {
    let mut tracker = Tracker::new();
    assert_eq!(tracker.handle_all(&[]), Vec::<MoveSilently>::new());
    assert_eq!(tracker.last_workspace(), "1");
}

#[test]
fn handle_all_without_focus_keeps_workspace() {
    let mut tracker = Tracker::new();
    tracker.handle(Event::FocusedWorkspace { name: "8" });
    let events = [Event::Irrelevant, Event::SpawnedWindowOnSpecial { address: "f" }];
    assert_eq!(tracker.handle_all(&events), vec![order("8", "f")]);
    assert_eq!(tracker.last_workspace(), "8");
}
