use sge::{FpsCounter, Tick};

#[test]
fn zero_frequency_is_no_clock() {
    assert!(FpsCounter::new(0, 5, true).is_none());
    assert!(FpsCounter::new(1, 5, true).is_some());
}

#[test]
fn deltas_since_previous_tick() {
    let mut c = FpsCounter::new(1000, 100, false).unwrap();
    assert_eq!(c.tick(116), Tick { elapsed: 16, fps: None });
    assert_eq!(c.tick(150), Tick { elapsed: 34, fps: None });
    assert_eq!(c.tick(150), Tick { elapsed: 0, fps: None });
    assert_eq!(c.time_acc(), 0);
}

#[test]
fn timer_going_back_counts_as_no_time() {
    let mut c = FpsCounter::new(1000, 500, true).unwrap();
    assert_eq!(c.tick(400), Tick { elapsed: 0, fps: None });
    assert_eq!(c.tick(450), Tick { elapsed: 50, fps: None });
}

#[test]
fn accumulator_rolls_over_each_second() {
    let mut c = FpsCounter::new(1000, 0, true).unwrap();
    for i in 1..10u64 {
        assert_eq!(c.tick(i * 100), Tick { elapsed: 100, fps: None });
        assert_eq!(c.time_acc(), i * 100);
    }
    assert_eq!(c.tick(1000), Tick { elapsed: 100, fps: Some(10) });
    assert_eq!(c.time_acc(), 0);
    // The frame count started again too: five frames over the next second.
    for i in 1..5u64 {
        assert_eq!(c.tick(1000 + i * 200).fps, None);
    }
    assert_eq!(c.tick(2000).fps, Some(5));
    assert_eq!(c.time_acc(), 0);
}

#[test]
fn frame_rate_is_rounded() {
    // Four frames over 1.2 s: 3.33 frames per second.
    let mut c = FpsCounter::new(1000, 0, true).unwrap();
    for now in [300, 600, 900] {
        assert_eq!(c.tick(now).fps, None);
    }
    assert_eq!(c.tick(1200).fps, Some(3));

    // Three frames over 1.2 s: 2.5, rounded up.
    let mut c = FpsCounter::new(1000, 0, true).unwrap();
    assert_eq!(c.tick(400).fps, None);
    assert_eq!(c.tick(800).fps, None);
    assert_eq!(c.tick(1200).fps, Some(3));

    // One long frame of three seconds.
    let mut c = FpsCounter::new(1000, 0, true).unwrap();
    assert_eq!(c.tick(3000).fps, Some(0));
}

#[test]
fn extreme_timer_values() {
    let mut c = FpsCounter::new(u64::MAX, 0, true).unwrap();
    assert_eq!(c.tick(u64::MAX), Tick { elapsed: u64::MAX, fps: Some(1) });
    assert_eq!(c.frequency(), u64::MAX);
    assert_eq!(c.time_acc(), 0);
}

#[test]
fn title_shows_the_frame_rate() {
    assert_eq!(sge::fps_title("T", 60), "T (60 FPS)");
    assert_eq!(sge::fps_title("Color Cycle", 0), "Color Cycle (0 FPS)");
    assert_eq!(sge::fps_title("", 9), " (9 FPS)");
    assert_eq!(sge::fps_title("x", 10), "x (10 FPS)");
    assert_eq!(sge::fps_title("x", u64::MAX), "x (18446744073709551615 FPS)");
}
