use window_watcher::event::WindowPosition;
use window_watcher::event::WindowSample;
use window_watcher::tracker::Tracker;
use window_watcher::tracker::WindowChange;

fn position(x: i32, y: i32, width: i32, height: i32, is_full_screen: bool) -> WindowPosition {
    WindowPosition { x, y, width, height, is_full_screen }
}

fn sample(app_name: &str, window_title: &str, pos: WindowPosition) -> WindowSample {
    WindowSample {
        app_name: app_name.to_string(),
        window_title: window_title.to_string(),
        position: pos,
    }
}

fn drive(tracker: &mut Tracker, ticks: Vec<(Option<WindowSample>, u64)>) -> Vec<WindowChange> {
    let mut events = Vec::new();
    for (query, timestamp) in ticks {
        if let Some(change) = tracker.tick(query, timestamp) {
            events.push(change);
        }
    }
    events
}

#[test]
fn first_observation_emits() {
    let mut tracker = Tracker::new();
    let pos = position(10, 20, 800, 600, false);
    let event = tracker.tick(Some(sample("editor", "notes.txt", pos)), 1_000);
    let change = event.expect("first observation must publish an event");
    assert_eq!(change.app_name, "editor");
    assert_eq!(change.window_title, "notes.txt");
    assert_eq!(change.timestamp, 1_000);
    assert_eq!(change.position, pos);
    assert_eq!(tracker.last_app().as_str(), "editor");
}

#[test]
fn sequence_a_a_b_b_a_emits_three() {
    let mut tracker = Tracker::new();
    let ticks = vec![
        (Some(sample("A", "a first", position(0, 0, 100, 100, false))), 1),
        (Some(sample("A", "a second", position(1, 1, 100, 100, false))), 2),
        (Some(sample("B", "b first", position(2, 2, 200, 200, true))), 3),
        (Some(sample("B", "b second", position(3, 3, 200, 200, true))), 4),
        (Some(sample("A", "a third", position(4, 4, 100, 100, false))), 5),
    ];
    let events = drive(&mut tracker, ticks);
    assert_eq!(events.len(), 3);

    assert_eq!(events[0].app_name, "A");
    assert_eq!(events[0].window_title, "a first");
    assert_eq!(events[0].timestamp, 1);
    assert_eq!(events[0].position, position(0, 0, 100, 100, false));

    assert_eq!(events[1].app_name, "B");
    assert_eq!(events[1].window_title, "b first");
    assert_eq!(events[1].timestamp, 3);
    assert_eq!(events[1].position, position(2, 2, 200, 200, true));

    assert_eq!(events[2].app_name, "A");
    assert_eq!(events[2].window_title, "a third");
    assert_eq!(events[2].timestamp, 5);
    assert_eq!(events[2].position, position(4, 4, 100, 100, false));
}

#[test]
fn all_failures_publish_nothing_and_loop_stays_live() {
    let mut tracker = Tracker::new();
    for tick_index in 0..50_u64 {
        assert!(tracker.tick(None, tick_index).is_none());
    }
    assert_eq!(tracker.last_app().as_str(), "");
    // The loop is still sampling: the very next success publishes at once.
    let event = tracker.tick(Some(sample("terminal", "shell", position(0, 0, 80, 24, false))), 50);
    assert!(event.is_some());
    assert_eq!(event.unwrap().app_name, "terminal");
}

#[test]
fn duplicate_result_emits_nothing() {
    let mut tracker = Tracker::new();
    let first = tracker.tick(Some(sample("A", "one", position(0, 0, 10, 10, false))), 1);
    assert!(first.is_some());
    let second = tracker.tick(Some(sample("A", "one", position(0, 0, 10, 10, false))), 2);
    assert!(second.is_none());
    assert_eq!(tracker.last_app().as_str(), "A");
}

#[test]
fn two_trackers_emit_independently() {
    let mut first_loop = Tracker::new();
    let mut second_loop = Tracker::new();
    let pos = position(5, 5, 640, 480, false);
    let first_event = first_loop.tick(Some(sample("A", "window", pos)), 7);
    let second_event = second_loop.tick(Some(sample("A", "window", pos)), 8);
    assert!(first_event.is_some());
    assert!(second_event.is_some());
    assert_eq!(first_event.unwrap().app_name, "A");
    assert_eq!(second_event.unwrap().app_name, "A");
}

#[test]
fn event_timestamps_non_decreasing() {
    let mut tracker = Tracker::new();
    let names = ["A", "B", "B", "C", "A", "A", "D"];
    let mut events = Vec::new();
    let mut clock: u64 = 100;
    for (index, name) in names.iter().enumerate() {
        clock += 1_000 + (index as u64 % 3);
        let query = if index == 3 {
            None
        } else {
            Some(sample(name, "title", position(0, 0, 1, 1, false)))
        };
        if let Some(change) = tracker.tick(query, clock) {
            events.push(change);
        }
    }
    assert!(events.len() >= 2);
    for pair in events.windows(2) {
        assert!(pair[0].timestamp <= pair[1].timestamp);
    }
}

#[test]
fn failure_does_not_reset_last_app() {
    let mut tracker = Tracker::new();
    let ticks = vec![
        (Some(sample("A", "one", position(0, 0, 10, 10, false))), 1),
        (None, 2),
        (Some(sample("A", "two", position(0, 0, 10, 10, false))), 3),
    ];
    let events = drive(&mut tracker, ticks);
    // The failed tick is no observation: seeing A again is no change.
    assert_eq!(events.len(), 1);
    assert_eq!(events[0].timestamp, 1);
}

#[test]
fn failure_does_not_suppress_change() {
    let mut tracker = Tracker::new();
    let ticks = vec![
        (Some(sample("A", "one", position(0, 0, 10, 10, false))), 1),
        (None, 2),
        (Some(sample("B", "two", position(0, 0, 10, 10, false))), 3),
    ];
    let events = drive(&mut tracker, ticks);
    assert_eq!(events.len(), 2);
    assert_eq!(events[0].app_name, "A");
    assert_eq!(events[1].app_name, "B");
    assert_eq!(events[1].timestamp, 3);
}

#[test]
fn change_back_emits_again() {
    let mut tracker = Tracker::new();
    let ticks = vec![
        (Some(sample("A", "one", position(0, 0, 10, 10, false))), 1),
        (Some(sample("B", "two", position(0, 0, 10, 10, false))), 2),
        (Some(sample("A", "three", position(0, 0, 10, 10, false))), 3),
    ];
    let events = drive(&mut tracker, ticks);
    assert_eq!(events.len(), 3);
    assert_eq!(events[2].app_name, "A");
    assert_eq!(events[2].window_title, "three");
}

#[test]
fn empty_app_name_first_is_silent() {
    // A fresh tracker encodes "nothing seen yet" as the empty name, so a
    // first observation whose application name is itself empty is
    // indistinguishable from no change and publishes nothing.
    let mut tracker = Tracker::new();
    let event = tracker.tick(Some(sample("", "anonymous", position(0, 0, 10, 10, false))), 1);
    assert!(event.is_none());
    // A later nonempty name is a change.
    let event = tracker.tick(Some(sample("browser", "page", position(0, 0, 10, 10, false))), 2);
    assert!(event.is_some());
}

#[test]
fn event_carries_tick_geometry() {
    let mut tracker = Tracker::new();
    let pos = position(-1920, -300, 1920, 1080, true);
    let event = tracker.tick(Some(sample("player", "movie", pos)), 9_999);
    let change = event.expect("a change must be published");
    assert_eq!(change.position.x, -1920);
    assert_eq!(change.position.y, -300);
    assert_eq!(change.position.width, 1920);
    assert_eq!(change.position.height, 1080);
    assert!(change.position.is_full_screen);
}

#[test]
fn fresh_tracker_has_empty_last_app() {
    let tracker = Tracker::new();
    assert_eq!(tracker.last_app().as_str(), "");
}
