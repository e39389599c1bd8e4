use kaixu_helper::notice::{notify_changes, render};
use kaixu_helper::presence::{diff, status_label, ChangeEvent, PresenceState, PresenceStatus, StatusLabel};

fn state(name: &str, activity: Option<&str>, status: PresenceStatus) -> PresenceState {
    PresenceState {
        profile_name: name.to_string(),
        activity: activity.map(|a| a.to_string()),
        status,
    }
}

fn status_events(events: &[ChangeEvent]) -> Vec<StatusLabel> {
    events
        .iter()
        .filter_map(|e| match e {
            ChangeEvent::StatusChanged { label, .. } => Some(*label),
            _ => None,
        })
        .collect()
}

#[test]
fn identical_states_give_no_event() {
    let s = state("Alice", Some("Chess"), PresenceStatus::Busy);
    assert!(diff(&s, &s).is_empty());
    let idle = state("Bob", None, PresenceStatus::Offline);
    assert!(diff(&idle, &idle).is_empty());
}

#[test]
fn offline_to_online_is_back() {
    assert_eq!(status_label(PresenceStatus::Offline, PresenceStatus::Online), StatusLabel::Back);
    let e = diff(
        &state("A", None, PresenceStatus::Offline),
        &state("A", None, PresenceStatus::Online),
    );
    assert_eq!(status_events(&e), vec![StatusLabel::Back]);
}

#[test]
fn away_to_online_is_online() {
    assert_eq!(status_label(PresenceStatus::Away, PresenceStatus::Online), StatusLabel::Online);
}

#[test]
fn online_to_busy_is_busy() {
    assert_eq!(status_label(PresenceStatus::Online, PresenceStatus::Busy), StatusLabel::Busy);
}

#[test]
fn snoozed_to_away_is_away() {
    assert_eq!(status_label(PresenceStatus::Snoozed, PresenceStatus::Away), StatusLabel::Away);
}

#[test]
fn remaining_labels() {
    assert_eq!(status_label(PresenceStatus::Online, PresenceStatus::Offline), StatusLabel::Offline);
    assert_eq!(status_label(PresenceStatus::Busy, PresenceStatus::Snoozed), StatusLabel::Snooze);
    assert_eq!(
        status_label(PresenceStatus::Busy, PresenceStatus::Offline),
        StatusLabel::Other(PresenceStatus::Offline)
    );
    assert_eq!(
        status_label(PresenceStatus::Online, PresenceStatus::LookingToPlay),
        StatusLabel::Other(PresenceStatus::LookingToPlay)
    );
    assert_eq!(StatusLabel::Other(PresenceStatus::LookingToTrade).text(), "LookingToTrade");
    assert_eq!(StatusLabel::Snooze.text(), "Snooze");
    assert_eq!(StatusLabel::Back.color(), 0x6ecff6);
    assert_eq!(StatusLabel::Offline.color(), 0x656566);
    assert_eq!(StatusLabel::Busy.color(), 0xff9900);
    assert_eq!(StatusLabel::Away.color(), 0xfff200);
    assert_eq!(StatusLabel::Snooze.color(), 0xfa983a);
    assert_eq!(StatusLabel::Other(PresenceStatus::Offline).color(), 0xffffff);
}

#[test]
fn activity_start_and_stop() {
    let idle = state("A", None, PresenceStatus::Online);
    let playing = state("A", Some("Chess"), PresenceStatus::Online);
    let e = diff(&idle, &playing);
    assert_eq!(e.len(), 1);
    assert!(matches!(&e[0], ChangeEvent::ActivityStarted { label } if label == "Chess"));
    let e = diff(&playing, &idle);
    assert_eq!(e.len(), 1);
    assert!(matches!(&e[0], ChangeEvent::ActivityStopped { label } if label == "Chess"));
}

#[test]
fn empty_activity_counts_as_idle() {
    let idle = state("A", None, PresenceStatus::Online);
    let empty = state("A", Some(""), PresenceStatus::Online);
    assert!(diff(&idle, &empty).is_empty());
}

#[test]
fn switching_activity_starts_the_new_one() {
    let a = state("A", Some("Chess"), PresenceStatus::Online);
    let b = state("A", Some("Go"), PresenceStatus::Online);
    let e = diff(&a, &b);
    assert_eq!(e.len(), 1);
    assert!(matches!(&e[0], ChangeEvent::ActivityStarted { label } if label == "Go"));
}

#[test]
fn activity_status_and_name_in_order() {
    let prev = state("Alice", None, PresenceStatus::Offline);
    let cur = state("Alicia", Some("Chess"), PresenceStatus::Online);
    let e = diff(&prev, &cur);
    assert_eq!(e.len(), 3);
    assert!(matches!(&e[0], ChangeEvent::ActivityStarted { label } if label == "Chess"));
    assert!(matches!(&e[1], ChangeEvent::StatusChanged { label: StatusLabel::Back, .. }));
    assert!(matches!(&e[2], ChangeEvent::NameChanged { from, to } if from == "Alice" && to == "Alicia"));
    let same_status = state("Alicia", Some("Chess"), PresenceStatus::Offline);
    let e = diff(&prev, &same_status);
    assert_eq!(e.len(), 2);
    assert!(matches!(&e[0], ChangeEvent::ActivityStarted { .. }));
    assert!(matches!(&e[1], ChangeEvent::NameChanged { .. }));
}

#[test]
fn alice_starts_tetris_and_comes_back() {
    let prev = state("Alice", None, PresenceStatus::Offline);
    let cur = state("Alice", Some("Tetris"), PresenceStatus::Online);
    let e = diff(&prev, &cur);
    assert_eq!(e.len(), 2);
    assert!(matches!(&e[0], ChangeEvent::ActivityStarted { label } if label == "Tetris"));
    assert!(matches!(&e[1], ChangeEvent::StatusChanged { label: StatusLabel::Back, .. }));
}

#[test]
fn rendered_texts() {
    let n = render("Alice", &ChangeEvent::ActivityStarted { label: "Chess".to_string() }, "2024-01-02 03:04");
    assert_eq!(n.title, "Alice | Chess");
    assert_eq!(n.body, "Started Playing\n2024-01-02 03:04");
    assert_eq!(n.color, 0x32cd32);
    let n = render("Alice", &ChangeEvent::ActivityStopped { label: "Chess".to_string() }, "T");
    assert_eq!(n.title, "Alice | Chess");
    assert_eq!(n.body, "Stopped Playing\nT");
    assert_eq!(n.color, 0xd92121);
    let n = render(
        "Alice",
        &ChangeEvent::StatusChanged {
            from: PresenceStatus::Online,
            to: PresenceStatus::Away,
            label: StatusLabel::Away,
        },
        "T",
    );
    assert_eq!(n.title, "Alice | Away");
    assert_eq!(n.body, "T");
    assert_eq!(n.color, 0xfff200);
    let n = render(
        "Alicia",
        &ChangeEvent::NameChanged { from: "Alice".to_string(), to: "Alicia".to_string() },
        "T",
    );
    assert_eq!(n.title, "Alice | Name Change");
    assert_eq!(n.body, "Alice -> Alicia\nT");
    assert_eq!(n.color, 0x32cd32);
}

#[test]
fn notifications_follow_event_order() {
    let prev = state("Alice", None, PresenceStatus::Offline);
    let cur = state("Alice", Some("Tetris"), PresenceStatus::Online);
    let ns = notify_changes(&prev, &cur, "T");
    assert_eq!(ns.len(), 2);
    assert_eq!(ns[0].title, "Alice | Tetris");
    assert_eq!(ns[1].title, "Alice | Back");
    assert_eq!(ns[1].color, 0x6ecff6);
}
