use std::time::Instant;

use term_timer::timer::Timer;

#[test]
fn from_secs_works() {
    let mut timer = Timer::from_secs(33365);
    let origin = Instant::now();
    while !timer.countup(origin.elapsed().as_micros()) {}
    assert!(timer.get_seconds() == 33366)
}

#[test]
fn tic_works() {
    let mut timer = Timer::new(0, 0, 0);
    let origin = Instant::now();
    while !timer.tic(origin.elapsed().as_micros()) {}
    assert!(timer.get_seconds() == 1)
}

#[test]
fn countup_works() {
    let mut timer = Timer::new(1, 1, 1);
    let origin = Instant::now();
    while !timer.countup(origin.elapsed().as_micros()) {}
    assert!(timer.get_seconds() == 3662)
}

#[test]
fn countdown_works() {
    let mut timer = Timer::new(0, 0, 8);
    let origin = Instant::now();
    while !timer.countdown(origin.elapsed().as_micros()) {}
    assert!(timer.get_seconds() == 7)
}

#[test]
fn from_secs_breaks_a_total_into_fields() {
    let timer = Timer::from_secs(33365);
    assert_eq!(timer.get_digits(), (9, 16, 5));
    assert_eq!(timer.get_millis(), 0);
    assert_eq!(timer.get_seconds(), 33365);
}

#[test]
fn from_secs_takes_minutes_from_the_whole_total() {
    // 3725 s is 1 h 2 min 5 s: the minutes are not those left over after
    // the hours, taken modulo 60 of the seconds.
    assert_eq!(Timer::from_secs(3725).get_digits(), (1, 2, 5));
    assert_eq!(Timer::from_secs(7199).get_digits(), (1, 59, 59));
    assert_eq!(Timer::from_secs(0).get_digits(), (0, 0, 0));
    assert_eq!(Timer::from_secs(59).get_digits(), (0, 0, 59));
    assert_eq!(Timer::from_secs(60).get_digits(), (0, 1, 0));
    assert_eq!(Timer::from_secs(3600).get_digits(), (1, 0, 0));
}

#[test]
fn from_secs_round_trips() {
    for total in [0usize, 1, 59, 60, 61, 3599, 3600, 3601, 86399, 86400, 359999, 1_000_000] {
        let timer = Timer::from_secs(total);
        let (hours, minutes, seconds) = timer.get_digits();
        assert!(minutes < 60 && seconds < 60);
        assert_eq!(hours * 3600 + minutes * 60 + seconds, total);
        assert_eq!(timer.get_seconds(), total);
    }
}

#[test]
fn new_keeps_the_fields_as_given() {
    let timer = Timer::new(1, 2, 3);
    assert_eq!(timer.get_digits(), (1, 2, 3));
    assert_eq!(timer.get_millis(), 0);
    assert_eq!(timer.get_seconds(), 3723);
    let loose = Timer::new(0, 75, 90);
    assert_eq!(loose.get_digits(), (0, 75, 90));
    assert_eq!(loose.get_seconds(), 4590);
}

#[test]
fn nothing_moves_before_a_millisecond() {
    let mut timer = Timer::new(1, 1, 1);
    assert!(!timer.tic(999));
    assert!(!timer.countup(999));
    assert!(!timer.countdown(0));
    assert_eq!(timer.get_digits(), (1, 1, 1));
    assert_eq!(timer.get_millis(), 0);
}

#[test]
fn only_the_millisecond_counter_moves_before_a_second() {
    let mut up = Timer::new(1, 1, 1);
    assert!(!up.countup(1_000));
    assert!(!up.countup(999_999));
    assert_eq!(up.get_digits(), (1, 1, 1));
    assert_eq!(up.get_millis(), 2);

    let mut down = Timer::new(1, 1, 1);
    assert!(!down.countdown(1_000));
    assert_eq!(down.get_millis(), 999);
    assert!(!down.countdown(999_999));
    assert_eq!(down.get_millis(), 998);
    assert_eq!(down.get_digits(), (1, 1, 1));

    let mut tic = Timer::new(1, 1, 1);
    assert!(!tic.tic(999_999));
    assert_eq!(tic.get_digits(), (1, 1, 1));
    assert_eq!(tic.get_millis(), 0);
}

#[test]
fn the_millisecond_counter_wraps() {
    let mut up = Timer::new(0, 0, 0);
    for _ in 0..999 {
        up.countup(1_000);
    }
    assert_eq!(up.get_millis(), 999);
    up.countup(1_000);
    assert_eq!(up.get_millis(), 0);

    let mut down = Timer::new(0, 0, 5);
    down.countdown(1_000);
    assert_eq!(down.get_millis(), 999);
    for _ in 0..999 {
        down.countdown(1_000);
    }
    assert_eq!(down.get_millis(), 0);
    down.countdown(1_000);
    assert_eq!(down.get_millis(), 999);
}

#[test]
fn countup_after_from_secs_adds_one_second() {
    for total in [0usize, 58, 59, 60, 3598, 3599, 3600, 33365, 86399] {
        let mut timer = Timer::from_secs(total);
        assert!(timer.countup(1_000_000));
        assert_eq!(timer.get_seconds(), total + 1);
        assert_eq!(timer.get_digits(), Timer::from_secs(total + 1).get_digits());
        assert_eq!(timer.get_millis(), 1);
    }
}

#[test]
fn countup_carries_into_minutes_and_hours() {
    let mut timer = Timer::new(0, 0, 59);
    assert!(timer.countup(1_000_000));
    assert_eq!(timer.get_digits(), (0, 1, 0));

    let mut timer = Timer::new(0, 59, 59);
    assert!(timer.countup(2_500_000));
    assert_eq!(timer.get_digits(), (1, 0, 0));

    let mut timer = Timer::new(99, 59, 59);
    assert!(timer.countup(1_000_000));
    assert_eq!(timer.get_digits(), (100, 0, 0));

    let mut timer = Timer::new(2, 30, 58);
    assert!(timer.countup(1_000_000));
    assert_eq!(timer.get_digits(), (2, 30, 59));
}

#[test]
fn countdown_after_from_secs_takes_one_second() {
    for total in [1usize, 59, 60, 61, 3599, 3600, 3601, 33365, 86400] {
        let mut timer = Timer::from_secs(total);
        assert!(timer.countdown(1_000_000));
        assert_eq!(timer.get_seconds(), total - 1);
        assert_eq!(timer.get_digits(), Timer::from_secs(total - 1).get_digits());
        assert_eq!(timer.get_millis(), 999);
    }
}

#[test]
fn countdown_borrows_from_minutes_and_hours() {
    let mut timer = Timer::new(0, 1, 0);
    assert!(timer.countdown(1_000_000));
    assert_eq!(timer.get_digits(), (0, 0, 59));

    let mut timer = Timer::new(1, 0, 0);
    assert!(timer.countdown(1_000_000));
    assert_eq!(timer.get_digits(), (0, 59, 59));

    let mut timer = Timer::new(3, 7, 0);
    assert!(timer.countdown(1_000_000));
    assert_eq!(timer.get_digits(), (3, 6, 59));
}

#[test]
fn countdown_stays_at_zero() {
    let mut timer = Timer::from_secs(0);
    assert!(timer.countdown(1_000_000));
    assert_eq!(timer.get_digits(), (0, 0, 0));
    assert_eq!(timer.get_seconds(), 0);
    assert!(timer.countdown(5_000_000));
    assert_eq!(timer.get_seconds(), 0);

    let mut timer = Timer::from_secs(1);
    assert!(timer.countdown(1_000_000));
    assert!(timer.countdown(1_000_000));
    assert_eq!(timer.get_seconds(), 0);
}

#[test]
fn tic_derives_every_field_from_the_total() {
    let mut timer = Timer::new(0, 0, 59);
    assert!(timer.tic(1_000_000));
    assert_eq!(timer.get_digits(), (0, 1, 0));

    let mut timer = Timer::new(0, 59, 59);
    assert!(timer.tic(1_000_000));
    assert_eq!(timer.get_digits(), (1, 0, 0));

    let mut timer = Timer::from_secs(33365);
    assert!(timer.tic(1_000_001));
    assert_eq!(timer.get_digits(), (9, 16, 6));
    assert_eq!(timer.get_millis(), 0);

    // Fields that were not normalized are after a tick.
    let mut timer = Timer::new(0, 0, 75);
    assert!(timer.tic(1_000_000));
    assert_eq!(timer.get_digits(), (0, 1, 16));
}

#[test]
fn a_minute_of_polls_counts_sixty_seconds() {
    let mut timer = Timer::from_secs(3540);
    for _ in 0..60 {
        assert!(timer.countup(1_000_000));
    }
    assert_eq!(timer.get_digits(), (1, 0, 0));
    for _ in 0..60 {
        assert!(timer.countdown(1_000_000));
    }
    assert_eq!(timer.get_digits(), (0, 59, 0));
}
