use passwordless::time::{Duration, Instant, MAX_CLOCK_SECS, MAX_DURATION_SECS, NANOS_PER_SEC};

#[test]
fn duration_new_accepts_what_is_well_formed() {
    assert_eq!(Duration::new(900, 0), Some(Duration { secs: 900, nanos: 0 }));
    assert_eq!(Duration::new(-1, 500_000_000), Some(Duration { secs: -1, nanos: 500_000_000 }));
    assert_eq!(
        Duration::new(MAX_DURATION_SECS, 999_999_999),
        Some(Duration { secs: MAX_DURATION_SECS, nanos: 999_999_999 })
    );
    assert_eq!(
        Duration::new(-MAX_DURATION_SECS, 0),
        Some(Duration { secs: -MAX_DURATION_SECS, nanos: 0 })
    );
    // The longest span backwards: one whole second more, and the rest forwards.
    assert_eq!(
        Duration::new(-MAX_DURATION_SECS - 1, 193_000_000),
        Some(Duration { secs: -MAX_DURATION_SECS - 1, nanos: 193_000_000 })
    );
}

#[test]
fn duration_new_refuses_what_is_out_of_range() {
    assert_eq!(Duration::new(0, NANOS_PER_SEC), None);
    assert_eq!(Duration::new(MAX_DURATION_SECS + 1, 0), None);
    assert_eq!(Duration::new(-MAX_DURATION_SECS - 2, 0), None);
    assert_eq!(Duration::new(-MAX_DURATION_SECS - 2, 999_999_999), None);
    assert_eq!(Duration::new(i64::MAX, 0), None);
    assert_eq!(Duration::new(i64::MIN, 0), None);
}

#[test]
fn duration_seconds_has_no_fraction() {
    assert_eq!(Duration::seconds(0), Duration { secs: 0, nanos: 0 });
    assert_eq!(Duration::seconds(3600), Duration { secs: 3600, nanos: 0 });
    assert_eq!(Duration::seconds(u32::MAX), Duration { secs: 4_294_967_295, nanos: 0 });
}

#[test]
fn plus_without_carry() {
    let t = Instant { secs: 1_700_000_000, nanos: 250_000_000 };
    let d = Duration { secs: 900, nanos: 500_000_000 };
    assert_eq!(t.plus(d), Instant { secs: 1_700_000_900, nanos: 750_000_000 });
}

#[test]
fn plus_carries_a_full_second() {
    let t = Instant { secs: 10, nanos: 999_999_999 };
    assert_eq!(t.plus(Duration { secs: 0, nanos: 1 }), Instant { secs: 11, nanos: 0 });
    assert_eq!(
        t.plus(Duration { secs: 5, nanos: 999_999_999 }),
        Instant { secs: 16, nanos: 999_999_998 }
    );
}

#[test]
fn plus_moves_backwards_by_a_negative_span() {
    let t = Instant { secs: 100, nanos: 0 };
    // Half a second before zero is minus one second plus half a second.
    assert_eq!(
        t.plus(Duration { secs: -1, nanos: 500_000_000 }),
        Instant { secs: 99, nanos: 500_000_000 }
    );
    assert_eq!(t.plus(Duration { secs: -100, nanos: 0 }), Instant { secs: 0, nanos: 0 });
    assert_eq!(t.plus(Duration { secs: -101, nanos: 0 }), Instant { secs: -1, nanos: 0 });
}

#[test]
fn plus_nothing_is_the_same_instant() {
    let t = Instant { secs: -5, nanos: 7 };
    assert_eq!(t.plus(Duration::seconds(0)), t);
}

#[test]
fn is_before_orders_by_seconds_then_fraction() {
    let a = Instant { secs: 5, nanos: 999_999_999 };
    let b = Instant { secs: 6, nanos: 0 };
    let c = Instant { secs: 6, nanos: 1 };
    assert!(a.is_before(&b));
    assert!(b.is_before(&c));
    assert!(a.is_before(&c));
    assert!(!b.is_before(&a));
    assert!(!b.is_before(&b));
    assert!(Instant { secs: -1, nanos: 999_999_999 }.is_before(&Instant { secs: 0, nanos: 0 }));
}

#[test]
fn timestamp_is_the_whole_seconds() {
    assert_eq!(Instant { secs: 1_431_648_000, nanos: 999_999_999 }.timestamp(), 1_431_648_000);
    assert_eq!(Instant { secs: -1, nanos: 1 }.timestamp(), -1);
}

#[test]
fn the_clock_reports_a_well_formed_present() {
    let a = Instant::now();
    let b = Instant::now();
    assert!(a.nanos < NANOS_PER_SEC);
    // Later than the first of January 2020, and within what a clock can report.
    assert!(a.secs > 1_577_836_800);
    assert!(a.secs <= MAX_CLOCK_SECS);
    assert!(!b.is_before(&a));
}

#[test]
fn a_clock_reading_can_be_moved_by_the_longest_duration() {
    let now = Instant::now();
    let far = now.plus(Duration { secs: MAX_DURATION_SECS, nanos: 999_999_999 });
    assert!(now.is_before(&far));
    let long_ago = now.plus(Duration { secs: -MAX_DURATION_SECS, nanos: 0 });
    assert!(long_ago.is_before(&now));
}

#[test]
fn from_signed_counts_backward_nanoseconds() {
    assert_eq!(Duration::from_signed(900, 0), Some(Duration { secs: 900, nanos: 0 }));
    assert_eq!(Duration::from_signed(0, -1), Some(Duration { secs: -1, nanos: 999_999_999 }));
    assert_eq!(
        Duration::from_signed(-1, -500_000_000),
        Some(Duration { secs: -2, nanos: 500_000_000 })
    );
    assert_eq!(Duration::from_signed(5, 1_500_000_000), Some(Duration { secs: 6, nanos: 500_000_000 }));
    assert_eq!(Duration::from_signed(5, -1_000_000_000), Some(Duration { secs: 4, nanos: 0 }));
    assert_eq!(
        Duration::from_signed(0, i32::MIN),
        Some(Duration { secs: -3, nanos: 852_516_352 })
    );
    assert_eq!(
        Duration::from_signed(0, i32::MAX),
        Some(Duration { secs: 2, nanos: 147_483_647 })
    );
}

#[test]
fn from_signed_refuses_what_is_out_of_range() {
    assert_eq!(
        Duration::from_signed(MAX_DURATION_SECS, 999_999_999),
        Some(Duration { secs: MAX_DURATION_SECS, nanos: 999_999_999 })
    );
    assert_eq!(Duration::from_signed(MAX_DURATION_SECS, 1_000_000_000), None);
    assert_eq!(
        Duration::from_signed(MAX_DURATION_SECS + 1, -1),
        Some(Duration { secs: MAX_DURATION_SECS, nanos: 999_999_999 })
    );
    assert_eq!(
        Duration::from_signed(-MAX_DURATION_SECS, 0),
        Some(Duration { secs: -MAX_DURATION_SECS, nanos: 0 })
    );
    assert_eq!(
        Duration::from_signed(-MAX_DURATION_SECS, -1),
        Some(Duration { secs: -MAX_DURATION_SECS - 1, nanos: 999_999_999 })
    );
    // The most negative span that counts in whole milliseconds of an `i64`.
    assert_eq!(
        Duration::from_signed(-MAX_DURATION_SECS, -807_000_000),
        Some(Duration { secs: -MAX_DURATION_SECS - 1, nanos: 193_000_000 })
    );
    assert_eq!(
        Duration::from_signed(-MAX_DURATION_SECS - 1, 0),
        Some(Duration { secs: -MAX_DURATION_SECS - 1, nanos: 0 })
    );
    assert_eq!(Duration::from_signed(-MAX_DURATION_SECS - 1, -1), None);
    assert_eq!(Duration::from_signed(i64::MAX, 0), None);
    assert_eq!(Duration::from_signed(i64::MIN, i32::MIN), None);
}

#[test]
fn from_timestamp_wants_a_fraction_below_one_second() {
    assert_eq!(Instant::from_timestamp(7, 999_999_999), Some(Instant { secs: 7, nanos: 999_999_999 }));
    assert_eq!(Instant::from_timestamp(-7, 0), Some(Instant { secs: -7, nanos: 0 }));
    assert_eq!(Instant::from_timestamp(7, 1_000_000_000), None);
    assert_eq!(Instant::from_timestamp(7, u32::MAX), None);
}

#[test]
fn fits_tells_when_an_instant_can_be_moved() {
    let d = Duration { secs: 10, nanos: 0 };
    assert!(Instant { secs: 0, nanos: 0 }.fits(&d));
    assert!(Instant { secs: i64::MAX - 11, nanos: 0 }.fits(&d));
    assert!(!Instant { secs: i64::MAX - 10, nanos: 0 }.fits(&d));
    assert!(!Instant { secs: i64::MAX, nanos: 0 }.fits(&d));
    let back = Duration { secs: -10, nanos: 0 };
    assert!(Instant { secs: i64::MIN + 10, nanos: 0 }.fits(&back));
    assert!(!Instant { secs: i64::MIN + 9, nanos: 0 }.fits(&back));
}
