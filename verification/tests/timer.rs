use cdown::timer::Timer;

#[test]
fn new_timer_is_running_with_the_given_seconds() {
    let timer = Timer::new(180);
    assert_eq!(timer.remaining(), 180);
    assert!(!timer.is_paused());
    assert!(!timer.shows_hours());
}

#[test]
fn hours_are_shown_from_an_hour_on() {
    assert!(!Timer::new(0).shows_hours());
    assert!(!Timer::new(3599).shows_hours());
    assert!(Timer::new(3600).shows_hours());
    assert!(Timer::new(u64::MAX).shows_hours());
}

#[test]
fn tick_takes_one_second() {
    let mut timer = Timer::new(2);
    timer.tick();
    assert_eq!(timer.remaining(), 1);
    timer.tick();
    assert_eq!(timer.remaining(), 0);
}

#[test]
fn n_ticks_bring_a_timer_of_n_seconds_to_zero() {
    for n in [0u64, 1, 5, 59, 60, 61, 1000] {
        let mut timer = Timer::new(n);
        let mut ticks = 0;
        while timer.remaining() > 0 {
            timer.tick();
            ticks += 1;
            assert_eq!(timer.remaining(), n - ticks);
        }
        assert_eq!(ticks, n);
        assert_eq!(timer.remaining(), 0);
    }
}

#[test]
fn tick_leaves_a_paused_timer_alone() {
    let mut timer = Timer::new(10);
    timer.toggle();
    for _ in 0..25 {
        timer.tick();
    }
    assert_eq!(timer.remaining(), 10);
    assert!(timer.is_paused());
    timer.toggle();
    timer.tick();
    assert_eq!(timer.remaining(), 9);
}

#[test]
fn a_paused_timer_at_zero_may_be_ticked() {
    let mut timer = Timer::new(0);
    timer.toggle();
    timer.tick();
    assert_eq!(timer.remaining(), 0);
}

#[test]
fn toggle_flips_the_pause_flag_only() {
    let mut timer = Timer::new(4000);
    timer.toggle();
    assert!(timer.is_paused());
    assert_eq!(timer.remaining(), 4000);
    assert!(timer.shows_hours());
}

#[test]
fn two_toggles_give_the_timer_back() {
    let mut timer = Timer::new(42);
    timer.toggle();
    timer.toggle();
    assert!(!timer.is_paused());
    assert_eq!(timer.remaining(), 42);
    timer.toggle();
    let paused = timer.is_paused();
    timer.toggle();
    timer.toggle();
    assert_eq!(timer.is_paused(), paused);
}

#[test]
fn hms_splits_the_seconds() {
    assert_eq!(Timer::new(0).hms(), (0, 0, 0));
    assert_eq!(Timer::new(59).hms(), (0, 0, 59));
    assert_eq!(Timer::new(60).hms(), (0, 1, 0));
    assert_eq!(Timer::new(3599).hms(), (0, 59, 59));
    assert_eq!(Timer::new(3600).hms(), (1, 0, 0));
    assert_eq!(Timer::new(3661).hms(), (1, 1, 1));
    assert_eq!(Timer::new(86399).hms(), (23, 59, 59));
    assert_eq!(Timer::new(360_000).hms(), (100, 0, 0));
}

#[test]
fn hms_adds_up_to_the_seconds_left() {
    for n in [0u64, 1, 59, 60, 61, 3599, 3600, 3601, 3661, 86_400, 123_456_789, u64::MAX] {
        let (h, m, s) = Timer::new(n).hms();
        assert!(m < 60);
        assert!(s < 60);
        assert_eq!(h as u128 * 3600 + m as u128 * 60 + s as u128, n as u128);
    }
}

#[test]
fn hms_of_the_largest_timer() {
    assert_eq!(Timer::new(u64::MAX).hms(), (5_124_095_576_030_431, 0, 15));
}

#[test]
fn face_without_hours() {
    assert_eq!(Timer::new(0).face(), "00:00");
    assert_eq!(Timer::new(5).face(), "00:05");
    assert_eq!(Timer::new(65).face(), "01:05");
    assert_eq!(Timer::new(180).face(), "03:00");
    assert_eq!(Timer::new(3599).face(), "59:59");
}

#[test]
fn face_with_hours_is_not_padded() {
    assert_eq!(Timer::new(3600).face(), "1:00:00");
    assert_eq!(Timer::new(3661).face(), "1:01:01");
    assert_eq!(Timer::new(36_000).face(), "10:00:00");
    assert_eq!(Timer::new(360_000 + 59).face(), "100:00:59");
    assert_eq!(Timer::new(u64::MAX).face(), "5124095576030431:00:15");
}

#[test]
fn hours_stay_on_the_face_below_an_hour() {
    let mut timer = Timer::new(3600);
    timer.tick();
    assert_eq!(timer.face(), "0:59:59");
    while timer.remaining() > 10 {
        timer.tick();
    }
    assert!(timer.shows_hours());
    assert_eq!(timer.face(), "0:00:10");
    while timer.remaining() > 0 {
        timer.tick();
    }
    assert_eq!(timer.face(), "0:00:00");
}

#[test]
fn hours_do_not_appear_later() {
    let mut timer = Timer::new(3599);
    timer.toggle();
    timer.toggle();
    timer.tick();
    assert!(!timer.shows_hours());
    assert_eq!(timer.face(), "59:58");
}
