use icon_watch::display::display_reference;
use icon_watch::state::{FetchError, NotifyError, ObservedProfile, WatchState};
use icon_watch::watcher::{Action, Event, Watcher, DEFAULT_INTERVAL_SECS};

const NOTICE: &str = "The icon URL has been updated.";

fn fetched(reference: &str) -> Event {
    Event::Fetched(Ok(ObservedProfile::new(reference.to_string())))
}

fn fetch_failed() -> Event {
    Event::Fetched(Err(FetchError { detail: "connection refused".to_string() }))
}

fn baseline(w: &Watcher) -> Option<String> {
    w.state.last_image_reference()
}

fn is_sleep(a: &Action, secs: u64) -> bool {
    matches!(a, Action::Sleep { seconds } if *seconds == secs)
}

fn notified_link(a: &Action) -> Option<String> {
    match a {
        Action::Notify { notification, .. } => {
            assert_eq!(notification.message, NOTICE);
            Some(notification.image_link.clone())
        }
        _ => None,
    }
}

#[test]
fn first_fetch_never_notifies() {
    for reference in ["urlA", "", "https://x/y_normal.png"] {
        let mut w = Watcher::new("42".to_string(), 60);
        let a = w.step(&fetched(reference));
        assert!(is_sleep(&a, 60));
        assert_eq!(baseline(&w), Some(reference.to_string()));
    }
}

#[test]
fn change_is_notified_once_and_becomes_baseline() {
    let mut w = Watcher::new("42".to_string(), 60);
    w.step(&fetched("A"));
    let a = w.step(&fetched("B"));
    assert_eq!(notified_link(&a), Some("B".to_string()));
    match &a {
        Action::Notify { change, .. } => {
            assert_eq!(change.old_reference, "A");
            assert_eq!(change.new_reference, "B");
        }
        _ => panic!("expected a notification"),
    }
    assert_eq!(baseline(&w), Some("B".to_string()));
}

#[test]
fn same_reference_is_quiet() {
    let mut w = Watcher::new("42".to_string(), 60);
    w.step(&fetched("A"));
    for _ in 0..5 {
        let a = w.step(&fetched("A"));
        assert!(is_sleep(&a, 60));
        assert_eq!(baseline(&w), Some("A".to_string()));
    }
}

#[test]
fn failed_fetch_keeps_state() {
    let mut w = Watcher::new("42".to_string(), 60);
    let a = w.step(&fetch_failed());
    assert!(is_sleep(&a, 60));
    assert_eq!(baseline(&w), None);

    w.step(&fetched("A"));
    let a = w.step(&fetch_failed());
    assert!(is_sleep(&a, 60));
    assert_eq!(baseline(&w), Some("A".to_string()));
}

#[test]
fn failed_notify_still_advances() {
    let mut w = Watcher::new("42".to_string(), 60);
    w.step(&fetched("A"));
    let a = w.step(&fetched("B"));
    assert!(notified_link(&a).is_some());
    let a = w.step(&Event::Notified(Err(NotifyError { detail: "HTTP error 500".to_string() })));
    assert!(is_sleep(&a, 60));
    assert_eq!(baseline(&w), Some("B".to_string()));
    w.step(&Event::Woke);
    let a = w.step(&fetched("B"));
    assert!(is_sleep(&a, 60));
}

#[test]
fn notice_link_drops_size_marker_but_state_keeps_it() {
    let old = "https://pbs.twimg.com/profile_images/1/old_normal.jpg";
    let new = "https://pbs.twimg.com/profile_images/2/image_normal.jpg";
    let mut w = Watcher::new("42".to_string(), 60);
    w.step(&fetched(old));
    let a = w.step(&fetched(new));
    assert_eq!(
        notified_link(&a),
        Some("https://pbs.twimg.com/profile_images/2/image.jpg".to_string())
    );
    match &a {
        Action::Notify { change, .. } => assert_eq!(change.new_reference, new),
        _ => panic!("expected a notification"),
    }
    assert_eq!(baseline(&w), Some(new.to_string()));
}

#[test]
fn seven_cycle_scenario() {
    let results = [None, Some("urlA"), Some("urlA"), Some("urlB"), None, Some("urlB"), Some("urlC")];
    let mut w = Watcher::new("42".to_string(), 60);
    let mut action = w.start();
    let mut links = Vec::new();
    let mut notified_on = Vec::new();
    for (cycle, result) in results.iter().enumerate() {
        match &action {
            Action::Fetch { subject_id } => assert_eq!(subject_id, "42"),
            _ => panic!("a cycle must open with a fetch"),
        }
        let event = match result {
            Some(r) => fetched(r),
            None => fetch_failed(),
        };
        action = w.step(&event);
        if let Some(link) = notified_link(&action) {
            links.push(link);
            notified_on.push(cycle + 1);
            action = w.step(&Event::Notified(Ok(())));
        }
        assert!(is_sleep(&action, 60));
        action = w.step(&Event::Woke);
    }
    assert_eq!(links, vec!["urlB".to_string(), "urlC".to_string()]);
    assert_eq!(notified_on, vec![4, 7]);
    assert_eq!(baseline(&w), Some("urlC".to_string()));
}

#[test]
fn change_back_is_a_second_event() {
    let mut w = Watcher::new("42".to_string(), 60);
    w.step(&fetched("A"));
    assert_eq!(notified_link(&w.step(&fetched("B"))), Some("B".to_string()));
    assert_eq!(notified_link(&w.step(&fetched("A"))), Some("A".to_string()));
}

#[test]
fn start_and_wake_fetch_the_subject() {
    let mut w = Watcher::with_default_interval("783214".to_string());
    assert_eq!(w.interval_secs, 60);
    assert_eq!(DEFAULT_INTERVAL_SECS, 60);
    match w.start() {
        Action::Fetch { subject_id } => assert_eq!(subject_id, "783214"),
        _ => panic!("expected a fetch"),
    }
    match w.step(&Event::Woke) {
        Action::Fetch { subject_id } => assert_eq!(subject_id, "783214"),
        _ => panic!("expected a fetch"),
    }
    assert_eq!(w.subject_id, "783214");
    assert_eq!(baseline(&w), None);
}

#[test]
fn configured_interval_is_used() {
    let mut w = Watcher::new("1".to_string(), 5);
    assert!(is_sleep(&w.step(&fetched("A")), 5));
    assert!(is_sleep(&w.step(&Event::Notified(Ok(()))), 5));
}

#[test]
fn watch_state_observe_reports_both_references() {
    let mut s = WatchState::new();
    assert_eq!(s.last_image_reference(), None);
    assert!(s.observe(&Ok(ObservedProfile::new("A".to_string()))).is_none());
    let e = s.observe(&Ok(ObservedProfile::new("B_normal".to_string()))).unwrap();
    assert_eq!(e.old_reference, "A");
    assert_eq!(e.new_reference, "B_normal");
    let n = e.notification();
    assert_eq!(n.message, NOTICE);
    assert_eq!(n.image_link, "B");
    assert!(s.observe(&Err(FetchError { detail: "timeout".to_string() })).is_none());
    assert_eq!(s.last_image_reference(), Some("B_normal".to_string()));
}

#[test]
fn display_reference_cases() {
    let cases = [
        ("", ""),
        ("plain.jpg", "plain.jpg"),
        ("_normal", ""),
        ("a_normal.jpg", "a.jpg"),
        ("a_normal_normal.png", "a.png"),
        ("x_norma.jpg", "x_norma.jpg"),
        ("_no_normalrmal", "_normal"),
        ("__normal", "_"),
        ("é_normalü", "éü"),
        ("end_normal", "end"),
    ];
    for (input, expected) in cases {
        assert_eq!(display_reference(input), expected, "input {:?}", input);
        assert_eq!(display_reference(input), input.replace("_normal", ""));
    }
}
