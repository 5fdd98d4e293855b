use nccl_profiler::gap::GapTracker;

fn tracker() -> GapTracker {
    GapTracker::new(String::from("host"), 1)
}

#[test]
fn gap_tracker_transitions() {
    let mut tracker = tracker();

    // no idle interval exists before the first activity completes
    assert_eq!(tracker.begin_transition(|| 100), None);
    tracker.activity_end(200);
    assert_eq!(tracker.begin_transition(|| 500), Some(300));

    // overlapping activity: only the 0 -> 1 transition observes a gap,
    // and the gap starts when the last in-flight activity ends
    assert_eq!(tracker.begin_transition(|| 600), None);
    tracker.activity_end(800);
    tracker.activity_end(700); // out-of-order end keeps the max stamp
    assert_eq!(tracker.begin_transition(|| 1000), Some(200));
    tracker.activity_end(1100);

    // a gap can never be negative
    assert_eq!(tracker.begin_transition(|| 1050), Some(0));
}

#[test]
fn gap_tracker_stall_detection() {
    let mut leaking = tracker();
    assert!(!leaking.check_stalled());

    // a leaked window is reported once, after a whole quiet interval
    assert_eq!(leaking.begin_transition(|| 100), None);
    assert!(!leaking.check_stalled());
    assert!(leaking.check_stalled());
    assert!(!leaking.check_stalled());

    // ongoing activity is never mistaken for a stall
    let mut busy = tracker();
    assert_eq!(busy.begin_transition(|| 100), None);
    assert!(!busy.check_stalled());
    busy.activity_end(200);
    assert_eq!(busy.begin_transition(|| 300), Some(100));
    assert!(!busy.check_stalled());
}

#[test]
fn windows_in_flight_are_counted() {
    let mut tracker = tracker();
    assert_eq!(tracker.in_flight(), 0);
    tracker.activity_begin(|| 1);
    tracker.activity_begin(|| 2);
    assert_eq!(tracker.in_flight(), 2);
    tracker.activity_end(3);
    assert_eq!(tracker.in_flight(), 1);
    tracker.activity_end(4);
    assert_eq!(tracker.in_flight(), 0);
}

#[test]
fn clock_is_read_only_to_measure() {
    let mut tracker = tracker();
    assert_eq!(tracker.begin_transition(|| panic!("no gap to measure")), None);
    assert_eq!(tracker.begin_transition(|| panic!("no gap to measure")), None);
}

#[test]
fn gaps_add_up_to_the_idle_time() {
    let mut tracker = tracker();
    let mut total = 0;
    // idle from 30 to 50 and from 90 to 100; windows overlap in between
    for (begins, time) in [
        (true, 10),
        (true, 20),
        (false, 25),
        (false, 30),
        (true, 50),
        (true, 60),
        (false, 80),
        (false, 90),
        (true, 100),
    ] {
        if begins {
            total += tracker.begin_transition(|| time).unwrap_or(0);
        } else {
            tracker.activity_end(time);
        }
    }
    assert_eq!(total, 20 + 10);
}

#[test]
fn stall_is_reported_once_for_all_time() {
    let mut tracker = tracker();
    tracker.activity_begin(|| 1);
    tracker.check_stalled();
    assert!(tracker.check_stalled());
    tracker.activity_end(2);
    tracker.activity_begin(|| 3);
    assert!(!tracker.check_stalled());
    assert!(!tracker.check_stalled());
}
