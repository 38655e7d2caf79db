use three_body::control::{Control, PAUSE_POLL_MILLIS, START_SEED};

#[test]
fn start_seed_is_three() {
    assert_eq!(START_SEED, 3);
}

#[test]
fn pause_is_polled_every_sixteen_milliseconds() {
    assert_eq!(PAUSE_POLL_MILLIS, 16);
}

#[test]
fn new_control_has_nothing_to_show() {
    let control: Control<f64> = Control::new();
    assert_eq!(control.tick(), 0);
    assert!(!control.is_paused());
    assert_eq!(control.pending_seed(), None);
    assert!(control.snapshot().is_none());
}

#[test]
fn publish_replaces_the_snapshot_only() {
    let mut control: Control<f64> = Control::new();
    control.publish(vec![1.0, 2.0, 3.0]);
    assert_eq!(control.snapshot(), Some(&vec![1.0, 2.0, 3.0]));
    control.publish(vec![4.0]);
    assert_eq!(control.snapshot(), Some(&vec![4.0]));
    assert_eq!(control.tick(), 0);
    assert!(!control.is_paused());
    assert_eq!(control.pending_seed(), None);
}

#[test]
fn count_tick_adds_one() {
    let mut control: Control<u8> = Control::new();
    control.count_tick();
    assert_eq!(control.tick(), 1);
    control.count_tick();
    control.count_tick();
    assert_eq!(control.tick(), 3);
    assert!(control.snapshot().is_none());
    assert_eq!(control.pending_seed(), None);
}

#[test]
fn end_tick_publishes_counts_and_finds_no_request() {
    let mut control: Control<(f64, f64)> = Control::new();
    let reseed = control.end_tick(vec![(0.5, -0.5), (1.0, 0.0)]);
    assert_eq!(reseed, None);
    assert_eq!(control.tick(), 1);
    assert_eq!(control.snapshot(), Some(&vec![(0.5, -0.5), (1.0, 0.0)]));
    let reseed = control.end_tick(vec![(0.25, 0.75)]);
    assert_eq!(reseed, None);
    assert_eq!(control.tick(), 2);
    assert_eq!(control.snapshot(), Some(&vec![(0.25, 0.75)]));
}

#[test]
fn request_reseed_resets_the_tick_count() {
    let mut control: Control<u8> = Control::new();
    for _ in 0..1_000 {
        control.count_tick();
    }
    assert_eq!(control.tick(), 1_000);
    control.request_reseed(42);
    assert_eq!(control.tick(), 0);
    assert_eq!(control.pending_seed(), Some(42));
}

#[test]
fn request_is_served_once() {
    let mut control: Control<u8> = Control::new();
    control.request_reseed(42);
    assert_eq!(control.take_seed(), Some(42));
    assert_eq!(control.pending_seed(), None);
    assert_eq!(control.take_seed(), None);
}

#[test]
fn latest_request_wins() {
    let mut control: Control<u8> = Control::new();
    control.request_reseed(1);
    control.request_reseed(2);
    control.request_reseed(u64::MAX);
    assert_eq!(control.take_seed(), Some(u64::MAX));
    assert_eq!(control.take_seed(), None);
}

#[test]
fn reseed_in_the_middle_of_a_run() {
    let mut control: Control<u8> = Control::new();
    for k in 0..5u8 {
        assert_eq!(control.end_tick(vec![k]), None);
    }
    assert_eq!(control.tick(), 5);

    control.request_reseed(7);
    assert_eq!(control.tick(), 0);
    assert_eq!(control.snapshot(), Some(&vec![4]));

    assert_eq!(control.end_tick(vec![5]), Some(7));
    assert_eq!(control.tick(), 1);
    assert_eq!(control.snapshot(), Some(&vec![5]));

    assert_eq!(control.end_tick(vec![6]), None);
    assert_eq!(control.tick(), 2);
}

#[test]
fn random_reseed_files_the_seed_it_returns() {
    let mut control: Control<u8> = Control::new();
    control.count_tick();
    let seed = control.request_random_reseed();
    assert_eq!(control.tick(), 0);
    assert_eq!(control.pending_seed(), Some(seed));
    assert_eq!(control.take_seed(), Some(seed));
    assert_eq!(control.take_seed(), None);
}

#[test]
fn random_reseed_follows_the_generator() {
    let mut control: Control<u8> = Control::new();
    fastrand::seed(11);
    let first = control.request_random_reseed();
    let second = control.request_random_reseed();
    fastrand::seed(11);
    assert_eq!(fastrand::u64(..), first);
    assert_eq!(fastrand::u64(..), second);
    assert_ne!(first, second);
    assert_eq!(control.take_seed(), Some(second));
}

#[test]
fn toggle_pause_flips_the_flag() {
    let mut control: Control<u8> = Control::new();
    control.toggle_pause();
    assert!(control.is_paused());
    control.toggle_pause();
    assert!(!control.is_paused());
}

#[test]
fn pause_survives_ticks_and_requests() {
    let mut control: Control<u8> = Control::new();
    control.toggle_pause();
    control.end_tick(vec![1]);
    control.request_reseed(9);
    assert_eq!(control.end_tick(vec![2]), Some(9));
    assert!(control.is_paused());
    assert_eq!(control.tick(), 1);
}
