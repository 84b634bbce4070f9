use vstd::prelude::*;

verus! {

/// Ticks in a millisecond. A tick is 100 nanoseconds.
pub const TICK: i64 = 10_000;

/// Milliseconds in a second.
pub const SECOND: i64 = 1000;

/// Milliseconds in a minute.
pub const MINUTE: i64 = 60 * SECOND;

/// Milliseconds in an hour.
pub const HOUR: i64 = 60 * MINUTE;

/// Milliseconds in a day.
pub const DAY: i64 = 24 * HOUR;

/// Ticks in a minute.
pub const MINUTE_TICKS: i64 = 600_000_000;

/// Ticks in a day.
pub const DAY_TICKS: i64 = 864_000_000_000;

/// `v` as an `i64`, where it is one.
pub open spec fn to_i64(v: int) -> Option<i64> {
    if i64::MIN <= v <= i64::MAX {
        Some(v as i64)
    } else {
        None
    }
}

/// `whole / unit`, rounded towards zero.
pub open spec fn div_to_zero(whole: int, unit: int) -> int
    recommends
        unit > 0,
{
    if whole >= 0 {
        whole / unit
    } else {
        -((-whole) / unit)
    }
}

/// Milliseconds since the epoch, moved by `day` days, in ticks.
pub open spec fn spec_millis_add_day(millis: int, day: int) -> int {
    (millis + day * DAY) * TICK
}

/// Milliseconds since the epoch, moved by `minute` minutes, in ticks.
pub open spec fn spec_millis_add_minute(millis: int, minute: int) -> int {
    (millis + minute * MINUTE) * TICK
}

/// A tick count moved by `minute` minutes.
pub open spec fn spec_timestamp_add_minute(timestamp: int, minute: int) -> int {
    timestamp + minute * MINUTE_TICKS
}

/// A tick count moved by `day` days.
pub open spec fn spec_ticks_add_day(ticks: int, day: int) -> int {
    ticks + day * DAY_TICKS
}

/// Whether `ticks` is a midnight UTC: a whole number of days from the epoch.
pub open spec fn is_day_start(ticks: i64) -> bool {
    ticks as int % (DAY_TICKS as int) == 0
}

/// The tick count of midnight in a zone `timezone_minute` minutes east of
/// UTC, given the tick count of midnight UTC; the first overflow on the way
/// makes it `None`.
pub open spec fn spec_day_start_in_zone(utc_day_start: i64, timezone_minute: i64) -> Option<i64> {
    to_i64(spec_timestamp_add_minute(utc_day_start as int, -timezone_minute))
}

/// Midnight in the zone moved by `day` days; the first overflow on the way
/// makes it `None`.
pub open spec fn spec_zone_day_add(utc_day_start: i64, timezone_minute: i64, day: int) -> Option<
    i64,
> {
    match spec_day_start_in_zone(utc_day_start, timezone_minute) {
        Some(start) => to_i64(spec_ticks_add_day(start as int, day)),
        None => None,
    }
}

fn narrow(v: i128) -> (r: Option<i64>)
    ensures
        r == to_i64(v as int),
{
    if v < i64::MIN as i128 || v > i64::MAX as i128 {
        None
    } else {
        Some(v as i64)
    }
}

/// The whole ticks in `nanos` nanoseconds.
pub fn nanos_to_ticks(nanos: i64) -> (ticks: i64)
    ensures
        ticks == div_to_zero(nanos as int, 100),
{
    nanos / 100
}

/// The whole milliseconds in `nanos` nanoseconds.
pub fn nanos_to_millis(nanos: i64) -> (millis: i64)
    ensures
        millis == div_to_zero(nanos as int, 1_000_000),
{
    nanos / 1_000_000
}

/// The nanoseconds in `ticks` ticks, where an `i64` holds them.
pub fn ticks_to_nanos(ticks: i64) -> (nanos: Option<i64>)
    ensures
        nanos == to_i64(ticks * 100),
{
    narrow((ticks as i128) * 100)
}

/// `(millis + day * DAY) * TICK`, where an `i64` holds it.
pub fn millis_add_day(millis: i64, day: i64) -> (ticks: Option<i64>)
    ensures
        ticks == to_i64(spec_millis_add_day(millis as int, day as int)),
{
    narrow(((millis as i128) + (day as i128) * 86_400_000) * 10_000)
}

/// `(millis - day * DAY) * TICK`, where an `i64` holds it.
pub fn millis_sub_day(millis: i64, day: i64) -> (ticks: Option<i64>)
    ensures
        ticks == to_i64(spec_millis_add_day(millis as int, -day)),
{
    narrow(((millis as i128) - (day as i128) * 86_400_000) * 10_000)
}

/// `(millis + minute * MINUTE) * TICK`, where an `i64` holds it.
pub fn millis_add_minute(millis: i64, minute: i64) -> (ticks: Option<i64>)
    ensures
        ticks == to_i64(spec_millis_add_minute(millis as int, minute as int)),
{
    narrow(((millis as i128) + (minute as i128) * 60_000) * 10_000)
}

/// `(millis - minute * MINUTE) * TICK`, where an `i64` holds it.
pub fn millis_sub_minute(millis: i64, minute: i64) -> (ticks: Option<i64>)
    ensures
        ticks == to_i64(spec_millis_add_minute(millis as int, -minute)),
{
    narrow(((millis as i128) - (minute as i128) * 60_000) * 10_000)
}

/// `ticks + day * DAY_TICKS`, where an `i64` holds it.
pub fn ticks_add_day(ticks: i64, day: i64) -> (moved: Option<i64>)
    ensures
        moved == to_i64(spec_ticks_add_day(ticks as int, day as int)),
{
    narrow((ticks as i128) + (day as i128) * 864_000_000_000)
}

/// `ticks - day * DAY_TICKS`, where an `i64` holds it.
pub fn ticks_sub_day(ticks: i64, day: i64) -> (moved: Option<i64>)
    ensures
        moved == to_i64(spec_ticks_add_day(ticks as int, -day)),
{
    narrow((ticks as i128) - (day as i128) * 864_000_000_000)
}

/// Moves a tick count forward by `minute` minutes.
pub fn timestamp_add_minute(timestamp: i64, minute: i64) -> (moved: i64)
    requires
        i64::MIN <= spec_timestamp_add_minute(timestamp as int, minute as int) <= i64::MAX,
    ensures
        moved == spec_timestamp_add_minute(timestamp as int, minute as int),
{
    ((timestamp as i128) + (minute as i128) * 600_000_000) as i64
}

/// Moves a tick count back by `minute` minutes.
pub fn timestamp_sub_minute(timestamp: i64, minute: i64) -> (moved: i64)
    requires
        i64::MIN <= spec_timestamp_add_minute(timestamp as int, -minute) <= i64::MAX,
    ensures
        moved == spec_timestamp_add_minute(timestamp as int, -minute),
{
    ((timestamp as i128) - (minute as i128) * 600_000_000) as i64
}

/// The tick count of midnight in a zone `timezone_minute` minutes east of
/// UTC, given the tick count of midnight UTC.
pub fn day_start_in_zone(utc_day_start: i64, timezone_minute: i64) -> (start: Option<i64>)
    ensures
        start == spec_day_start_in_zone(utc_day_start, timezone_minute),
{
    narrow((utc_day_start as i128) - (timezone_minute as i128) * 600_000_000)
}

/// Midnight in the zone, `day` days on.
pub fn zone_day_add(utc_day_start: i64, timezone_minute: i64, day: i64) -> (moved: Option<i64>)
    ensures
        moved == spec_zone_day_add(utc_day_start, timezone_minute, day as int),
{
    match day_start_in_zone(utc_day_start, timezone_minute) {
        Some(start) => ticks_add_day(start, day),
        None => None,
    }
}

/// Midnight in the zone, `day` days back.
pub fn zone_day_sub(utc_day_start: i64, timezone_minute: i64, day: i64) -> (moved: Option<i64>)
    ensures
        moved == spec_zone_day_add(utc_day_start, timezone_minute, -day),
{
    match day_start_in_zone(utc_day_start, timezone_minute) {
        Some(start) => ticks_sub_day(start, day),
        None => None,
    }
}

/// Reads the clock: `chrono::Utc::now()`, then `timestamp_nanos_opt` on it,
/// which is `None` where an `i64` cannot hold the nanoseconds. Nothing is
/// claimed of the reading. `Utc::now` panics where the system clock is set
/// before 1970.
#[verifier::external_body]
fn utc_now_nanos() -> (nanos: Option<i64>) {
    chrono::Utc::now().timestamp_nanos_opt()
}

/// Reads the clock: `chrono::Utc::now()`, then `timestamp_millis` on it.
/// Nothing is claimed of the reading. `Utc::now` panics where the system
/// clock is set before 1970.
#[verifier::external_body]
fn utc_now_millis() -> (millis: i64) {
    chrono::Utc::now().timestamp_millis()
}

/// Reads the clock: `chrono::Local::now()`, then `timestamp_nanos_opt` on it,
/// which is `None` where an `i64` cannot hold the nanoseconds. Nothing is
/// claimed of the reading. `Local::now` panics where the system clock is set
/// before 1970 or the machine's time zone cannot be worked out.
#[verifier::external_body]
fn local_now_nanos() -> (nanos: Option<i64>) {
    chrono::Local::now().timestamp_nanos_opt()
}

/// Reads the clock: `chrono::Local::now()`, then `timestamp_millis` on it.
/// Nothing is claimed of the reading. `Local::now` panics where the system
/// clock is set before 1970 or the machine's time zone cannot be worked out.
#[verifier::external_body]
fn local_now_millis() -> (millis: i64) {
    chrono::Local::now().timestamp_millis()
}

/// Reads the clock for the start of the current UTC day:
/// `chrono::Utc::now()`, its `date_naive`, midnight of that date by
/// `and_time`, and `timestamp_nanos_opt` of that instant in UTC. Which day it
/// is depends on the clock; the contract claims only that the reading is
/// midnight, a whole number of days from the epoch. `Utc::now` panics where
/// the system clock is set before 1970.
#[verifier::external_body]
fn utc_today_start_nanos() -> (nanos: Option<i64>)
    ensures
        nanos matches Some(n) ==> n as int % 86_400_000_000_000 == 0,
{
    chrono::Utc::now().date_naive().and_time(chrono::NaiveTime::MIN).and_utc().timestamp_nanos_opt()
}

/// Nanoseconds since the epoch by the system clock, or `None` where an `i64`
/// cannot hold them.
pub fn timestamp_nanos() -> (nanos: Option<i64>) {
    utc_now_nanos()
}

/// Ticks since the epoch by the system clock, or `None` where the clock is
/// out of range.
pub fn timestamp() -> (ticks: Option<i64>)
    ensures
        ticks matches Some(t) ==> exists|nanos: i64| t == #[trigger] div_to_zero(nanos as int, 100),
{
    match utc_now_nanos() {
        Some(nanos) => Some(nanos_to_ticks(nanos)),
        None => None,
    }
}

/// Milliseconds since the epoch by the system clock, or `None` where the
/// clock is out of range.
pub fn timestamp_milliseconds() -> (millis: Option<i64>)
    ensures
        millis matches Some(t) ==> exists|nanos: i64|
            t == #[trigger] div_to_zero(nanos as int, 1_000_000),
{
    match utc_now_nanos() {
        Some(nanos) => Some(nanos_to_millis(nanos)),
        None => None,
    }
}

/// Ticks since the epoch by the local clock, or `None` where the clock is
/// out of range.
pub fn local_timestamp() -> (ticks: Option<i64>)
    ensures
        ticks matches Some(t) ==> exists|nanos: i64| t == #[trigger] div_to_zero(nanos as int, 100),
{
    match local_now_nanos() {
        Some(nanos) => Some(nanos_to_ticks(nanos)),
        None => None,
    }
}

/// The tick count `day` days before now.
pub fn get_utc_sub_day(day: i64) -> (ticks: Option<i64>)
    ensures
        exists|millis: i64| ticks == to_i64(#[trigger] spec_millis_add_day(millis as int, -day)),
{
    millis_sub_day(utc_now_millis(), day)
}

/// The tick count `day` days after now.
pub fn get_utc_add_day(day: i64) -> (ticks: Option<i64>)
    ensures
        exists|millis: i64|
            ticks == to_i64(#[trigger] spec_millis_add_day(millis as int, day as int)),
{
    millis_add_day(utc_now_millis(), day)
}

/// The tick count `minute` minutes before now.
pub fn get_utc_sub_minute(minute: i64) -> (ticks: Option<i64>)
    ensures
        exists|millis: i64|
            ticks == to_i64(#[trigger] spec_millis_add_minute(millis as int, -minute)),
{
    millis_sub_minute(utc_now_millis(), minute)
}

/// The tick count `minute` minutes after now.
pub fn get_utc_add_minute(minute: i64) -> (ticks: Option<i64>)
    ensures
        exists|millis: i64|
            ticks == to_i64(#[trigger] spec_millis_add_minute(millis as int, minute as int)),
{
    millis_add_minute(utc_now_millis(), minute)
}

/// The tick count `day` days before now, by the local clock.
pub fn get_local_sub_day(day: i64) -> (ticks: Option<i64>)
    ensures
        exists|millis: i64| ticks == to_i64(#[trigger] spec_millis_add_day(millis as int, -day)),
{
    millis_sub_day(local_now_millis(), day)
}

/// The tick count `day` days after now, by the local clock.
pub fn get_local_add_day(day: i64) -> (ticks: Option<i64>)
    ensures
        exists|millis: i64|
            ticks == to_i64(#[trigger] spec_millis_add_day(millis as int, day as int)),
{
    millis_add_day(local_now_millis(), day)
}

/// The tick count `minute` minutes before now, by the local clock.
pub fn get_local_sub_minute(minute: i64) -> (ticks: Option<i64>)
    ensures
        exists|millis: i64|
            ticks == to_i64(#[trigger] spec_millis_add_minute(millis as int, -minute)),
{
    millis_sub_minute(local_now_millis(), minute)
}

/// The tick count `minute` minutes after now, by the local clock.
pub fn get_local_add_minute(minute: i64) -> (ticks: Option<i64>)
    ensures
        exists|millis: i64|
            ticks == to_i64(#[trigger] spec_millis_add_minute(millis as int, minute as int)),
{
    millis_add_minute(local_now_millis(), minute)
}

/// The tick count at which the current UTC day began, a whole number of
/// days from the epoch, or `None` where the clock is out of range.
pub fn get_utc_now_day_timestamp() -> (ticks: Option<i64>)
    ensures
        ticks matches Some(t) ==> is_day_start(t),
        ticks matches Some(t) ==> exists|nanos: i64| t == #[trigger] div_to_zero(nanos as int, 100),
{
    match utc_today_start_nanos() {
        Some(nanos) => {
            let ticks: i64 = nanos_to_ticks(nanos);
            assert(is_day_start(ticks)) by {
                let days = nanos as int / 86_400_000_000_000;
                assert(nanos as int == days * 86_400_000_000_000);
                assert(ticks as int == days * 864_000_000_000);
            }
            Some(ticks)
        },
        None => None,
    }
}

/// The tick count at which the current day began in a zone
/// `timezone_minute` minutes east of UTC.
pub fn get_now_day_timestamp(timezone_minute: i64) -> (ticks: Option<i64>)
    ensures
        ticks matches Some(t) ==> exists|utc_day_start: i64|
            is_day_start(utc_day_start) && ticks == #[trigger] spec_day_start_in_zone(
                utc_day_start,
                timezone_minute,
            ),
{
    match get_utc_now_day_timestamp() {
        Some(utc_day_start) => day_start_in_zone(utc_day_start, timezone_minute),
        None => None,
    }
}

/// Midnight today in the zone, `day` days on.
pub fn get_now_add_day(timezone_minute: i64, day: i64) -> (ticks: Option<i64>)
    ensures
        ticks matches Some(t) ==> exists|utc_day_start: i64|
            is_day_start(utc_day_start) && ticks == #[trigger] spec_zone_day_add(
                utc_day_start,
                timezone_minute,
                day as int,
            ),
{
    match get_utc_now_day_timestamp() {
        Some(utc_day_start) => zone_day_add(utc_day_start, timezone_minute, day),
        None => None,
    }
}

/// Midnight today in the zone, `day` days back.
pub fn get_now_sub_day(timezone_minute: i64, day: i64) -> (ticks: Option<i64>)
    ensures
        ticks matches Some(t) ==> exists|utc_day_start: i64|
            is_day_start(utc_day_start) && ticks == #[trigger] spec_zone_day_add(
                utc_day_start,
                timezone_minute,
                -day,
            ),
{
    match get_utc_now_day_timestamp() {
        Some(utc_day_start) => zone_day_sub(utc_day_start, timezone_minute, day),
        None => None,
    }
}

/// The tick count at which the current day began in the zone.
pub fn get_utc_now_day_timestamp_for_zone(timezone_minute: i64) -> (ticks: Option<i64>)
    ensures
        ticks matches Some(t) ==> exists|utc_day_start: i64|
            is_day_start(utc_day_start) && ticks == #[trigger] spec_day_start_in_zone(
                utc_day_start,
                timezone_minute,
            ),
{
    get_now_day_timestamp(timezone_minute)
}

/// Midnight UTC today, `day` days on.
pub fn get_utc_now_add_day(day: i64) -> (ticks: Option<i64>)
    ensures
        ticks matches Some(t) ==> exists|utc_day_start: i64|
            is_day_start(utc_day_start) && ticks == to_i64(
                #[trigger] spec_ticks_add_day(utc_day_start as int, day as int),
            ),
{
    match get_utc_now_day_timestamp() {
        Some(utc_day_start) => ticks_add_day(utc_day_start, day),
        None => None,
    }
}

/// Midnight UTC today, `day` days back.
pub fn get_utc_now_sub_day(day: i64) -> (ticks: Option<i64>)
    ensures
        ticks matches Some(t) ==> exists|utc_day_start: i64|
            is_day_start(utc_day_start) && ticks == to_i64(
                #[trigger] spec_ticks_add_day(utc_day_start as int, -day),
            ),
{
    match get_utc_now_day_timestamp() {
        Some(utc_day_start) => ticks_sub_day(utc_day_start, day),
        None => None,
    }
}

/// The shape of a hyphenated UUID: 36 characters with hyphens after the
/// 8th, 12th, 16th and 20th digit.
pub open spec fn is_hyphenated(text: Seq<char>) -> bool {
    &&& text.len() == 36
    &&& text[8] == '-'
    &&& text[13] == '-'
    &&& text[18] == '-'
    &&& text[23] == '-'
}

/// Draws a random UUID: `uuid::Uuid::new_v4()`, its `hyphenated` form, as a
/// string. The value is random; the contract claims only the shape that the
/// hyphenated form always has. `new_v4` panics where the system has no random
/// bytes to give.
#[verifier::external_body]
fn uuid_v4_hyphenated() -> (text: String)
    ensures
        is_hyphenated(text@),
{
    uuid::Uuid::new_v4().hyphenated().to_string()
}

/// A fresh random UUID in its hyphenated form.
pub fn new_uuid() -> (text: String)
    ensures
        is_hyphenated(text@),
{
    uuid_v4_hyphenated()
}

} // verus!
