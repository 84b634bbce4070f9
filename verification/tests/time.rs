use session_gateway::time::{
    day_start_in_zone, get_local_add_day, get_local_add_minute, get_local_sub_day,
    get_local_sub_minute, get_now_add_day, get_now_day_timestamp, get_now_sub_day, get_utc_add_day,
    get_utc_add_minute, get_utc_now_add_day, get_utc_now_day_timestamp,
    get_utc_now_day_timestamp_for_zone, get_utc_now_sub_day, get_utc_sub_day, get_utc_sub_minute,
    local_timestamp, millis_add_day, millis_add_minute, millis_sub_day, millis_sub_minute,
    nanos_to_millis, nanos_to_ticks, new_uuid, ticks_add_day, ticks_sub_day, ticks_to_nanos,
    timestamp, timestamp_add_minute, timestamp_milliseconds, timestamp_nanos,
    timestamp_sub_minute, zone_day_add, zone_day_sub, DAY, DAY_TICKS, HOUR, MINUTE, MINUTE_TICKS,
    SECOND, TICK,
};

// 2020-01-01T00:00:00Z in ticks
const YEAR_2020: i64 = 15_778_368_000_000_000;

#[test]
fn units() {
    assert_eq!(TICK, 10_000);
    assert_eq!(SECOND, 1_000);
    assert_eq!(MINUTE, 60_000);
    assert_eq!(HOUR, 3_600_000);
    assert_eq!(DAY, 86_400_000);
    assert_eq!(DAY_TICKS, DAY * TICK);
    assert_eq!(MINUTE_TICKS, MINUTE * TICK);
}

#[test]
fn nanoseconds_to_ticks_and_milliseconds_round_towards_zero() {
    assert_eq!(nanos_to_ticks(0), 0);
    assert_eq!(nanos_to_ticks(199), 1);
    assert_eq!(nanos_to_ticks(-199), -1);
    assert_eq!(nanos_to_ticks(-99), 0);
    assert_eq!(nanos_to_ticks(i64::MAX), 92_233_720_368_547_758);
    assert_eq!(nanos_to_ticks(i64::MIN), -92_233_720_368_547_758);
    assert_eq!(nanos_to_millis(1_999_999), 1);
    assert_eq!(nanos_to_millis(-1_999_999), -1);
    assert_eq!(nanos_to_millis(1_000_000_000_555_000_000), 1_000_000_000_555);
}

#[test]
fn ticks_to_nanoseconds() {
    assert_eq!(ticks_to_nanos(7), Some(700));
    assert_eq!(ticks_to_nanos(-7), Some(-700));
    assert_eq!(ticks_to_nanos(92_233_720_368_547_758), Some(9_223_372_036_854_775_800));
    assert_eq!(ticks_to_nanos(92_233_720_368_547_759), None);
    assert_eq!(ticks_to_nanos(-92_233_720_368_547_759), None);
}

#[test]
fn tick_count_moved_by_minutes() {
    assert_eq!(timestamp_add_minute(1_000, 1), 600_001_000);
    assert_eq!(timestamp_add_minute(1_000, -2), 1_000 - 1_200_000_000);
    assert_eq!(timestamp_sub_minute(1_000, 1), 1_000 - 600_000_000);
    assert_eq!(timestamp_sub_minute(0, -3), 1_800_000_000);
    assert_eq!(timestamp_add_minute(i64::MAX - 600_000_000, 1), i64::MAX);
    assert_eq!(timestamp_sub_minute(i64::MIN + 600_000_000, 1), i64::MIN);
    assert_eq!(timestamp_add_minute(YEAR_2020, 24 * 60), YEAR_2020 + DAY_TICKS);
}

#[test]
fn milliseconds_moved_by_days_and_minutes() {
    assert_eq!(millis_add_day(1_000, 1), Some((1_000 + 86_400_000) * 10_000));
    assert_eq!(millis_sub_day(1_000, 1), Some((1_000 - 86_400_000) * 10_000));
    assert_eq!(millis_add_minute(5, 2), Some(120_005 * 10_000));
    assert_eq!(millis_sub_minute(5, 2), Some(-119_995 * 10_000));
    assert_eq!(millis_add_day(0, 0), Some(0));
    assert_eq!(millis_add_day(i64::MAX, 0), None);
    assert_eq!(millis_add_day(922_337_203_685_477, 0), Some(9_223_372_036_854_770_000));
    assert_eq!(millis_add_day(922_337_203_685_478, 0), None);
    assert_eq!(millis_add_day(0, i64::MAX), None);
    assert_eq!(millis_sub_day(0, i64::MIN), None);
    assert_eq!(millis_add_minute(0, i64::MIN), None);
    assert_eq!(millis_sub_minute(i64::MIN, i64::MAX), None);
    // a large step back from a large reading fits again
    assert_eq!(millis_sub_day(86_400_000 * 5, 5), Some(0));
}

#[test]
fn tick_count_moved_by_days() {
    assert_eq!(ticks_add_day(10, 2), Some(10 + 2 * 864_000_000_000));
    assert_eq!(ticks_sub_day(10, 2), Some(10 - 2 * 864_000_000_000));
    assert_eq!(ticks_add_day(i64::MAX, 1), None);
    assert_eq!(ticks_sub_day(i64::MIN, 1), None);
    assert_eq!(ticks_sub_day(0, i64::MIN), None);
    assert_eq!(ticks_add_day(i64::MAX, -1), Some(i64::MAX - 864_000_000_000));
}

#[test]
fn midnight_in_a_zone() {
    // eight hours east of UTC the day starts eight hours earlier
    assert_eq!(day_start_in_zone(YEAR_2020, 480), Some(YEAR_2020 - 8 * 36_000_000_000));
    assert_eq!(day_start_in_zone(YEAR_2020, -300), Some(YEAR_2020 + 5 * 36_000_000_000));
    assert_eq!(day_start_in_zone(YEAR_2020, 0), Some(YEAR_2020));
    assert_eq!(day_start_in_zone(i64::MIN, 1), None);
    assert_eq!(zone_day_add(YEAR_2020, 480, 1), Some(YEAR_2020 - 8 * 36_000_000_000 + DAY_TICKS));
    assert_eq!(zone_day_sub(YEAR_2020, 480, 1), Some(YEAR_2020 - 8 * 36_000_000_000 - DAY_TICKS));
    assert_eq!(zone_day_add(i64::MIN, 1, i64::MAX), None);
    assert_eq!(zone_day_add(i64::MAX, 0, 1), None);
    assert_eq!(zone_day_sub(i64::MAX, 0, 1), Some(i64::MAX - DAY_TICKS));
}

#[test]
fn clock_readings_agree() {
    let nanos = timestamp_nanos().unwrap();
    let ticks = timestamp().unwrap();
    let millis = timestamp_milliseconds().unwrap();
    let local = local_timestamp().unwrap();
    assert!(ticks > YEAR_2020);
    assert!(ticks >= nanos / 100);
    assert!(ticks - nanos / 100 < 60 * 10_000_000);
    assert!(millis >= ticks / 10_000);
    assert!(millis - ticks / 10_000 < 60_000);
    assert!(local >= ticks);
    assert!(local - ticks < 60 * 10_000_000);
}

#[test]
fn now_moved_by_days_and_minutes() {
    let minute: i64 = 600_000_000;
    let now = timestamp().unwrap();
    let near = |got: Option<i64>, want: i64| {
        let got = got.unwrap();
        assert!(got >= want - 10_000 && got - want < minute, "{} vs {}", got, want);
        assert_eq!(got % 10_000, 0);
    };
    near(get_utc_add_day(2), now + 2 * DAY_TICKS);
    near(get_utc_sub_day(2), now - 2 * DAY_TICKS);
    near(get_utc_add_minute(3), now + 3 * minute);
    near(get_utc_sub_minute(3), now - 3 * minute);
    near(get_local_add_day(2), now + 2 * DAY_TICKS);
    near(get_local_sub_day(2), now - 2 * DAY_TICKS);
    near(get_local_add_minute(3), now + 3 * minute);
    near(get_local_sub_minute(3), now - 3 * minute);
    assert_eq!(get_utc_add_day(i64::MAX), None);
    assert_eq!(get_utc_sub_minute(i64::MIN), None);
    assert_eq!(get_local_add_day(i64::MAX), None);
}

#[test]
fn start_of_today() {
    let now = timestamp().unwrap();
    let start = get_utc_now_day_timestamp().unwrap();
    assert_eq!(start % DAY_TICKS, 0);
    assert!(start <= now);
    assert!(now - start < DAY_TICKS + 600_000_000);
    let stable = |read: &dyn Fn() -> Option<i64>, offset: i64| {
        // the day may turn between two readings; then the next pair agrees
        for _ in 0..3 {
            let before = get_utc_now_day_timestamp().unwrap();
            let got = read().unwrap();
            let after = get_utc_now_day_timestamp().unwrap();
            if before == after {
                assert_eq!(got, before + offset);
                return;
            }
        }
        panic!("the day turned three times");
    };
    stable(&|| get_now_day_timestamp(480), -8 * 36_000_000_000);
    stable(&|| get_utc_now_day_timestamp_for_zone(-60), 36_000_000_000);
    stable(&|| get_now_add_day(480, 3), -8 * 36_000_000_000 + 3 * DAY_TICKS);
    stable(&|| get_now_sub_day(480, 3), -8 * 36_000_000_000 - 3 * DAY_TICKS);
    stable(&|| get_utc_now_add_day(1), DAY_TICKS);
    stable(&|| get_utc_now_sub_day(1), -DAY_TICKS);
    assert_eq!(get_now_add_day(0, i64::MAX), None);
    assert_eq!(get_utc_now_sub_day(i64::MIN), None);
    assert_eq!(get_now_day_timestamp(i64::MIN), None);
}

#[test]
fn uuid_is_hyphenated_and_fresh() {
    let a = new_uuid();
    let b = new_uuid();
    assert_ne!(a, b);
    assert_eq!(a.len(), 36);
    for (i, c) in a.chars().enumerate() {
        if i == 8 || i == 13 || i == 18 || i == 23 {
            assert_eq!(c, '-');
        } else {
            assert!(c.is_ascii_hexdigit());
        }
    }
    assert_eq!(a.chars().nth(14), Some('4'));
}
