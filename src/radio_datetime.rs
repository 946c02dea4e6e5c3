//! What this library relies on from the `radio_datetime_utils` crate: its
//! wrap-safe timestamp difference, its second counter, its BCD and parity
//! decoders, and the date/time aggregate that receives each decoded minute.
//!
//! The aggregate is opaque here. Its readings through getters are named
//! below, and so is the state that each of its operations leaves, as a
//! function of the state before and the arguments: what those states hold
//! (calendar arithmetic, jump detection, the DST and leap-second state
//! machines) is the outside crate's own business. Four private fields that
//! no getter reports are named too, because some operations panic on them:
//! the read-only flag and the three counters of the DST and leap-second
//! majority votes. Of those only what keeps the calls from panicking is said.
use crate::dcf77_helpers::{bcd_value, parity_value};
use crate::{add_minute_panics, wrapped_diff, BIT_BUFFER_SIZE};
use radio_datetime_utils::RadioDateTimeUtils;
use vstd::prelude::*;

verus! {

#[verifier::external_type_specification]
#[verifier::external_body]
pub struct ExRadioDateTimeUtils(RadioDateTimeUtils);

/// The minute that the aggregate holds, as `get_minute` reports it.
pub uninterp spec fn minute_of(d: RadioDateTimeUtils) -> Option<u8>;

/// The leap-second bit mask that the aggregate holds, as `get_leap_second` reports it.
pub uninterp spec fn leap_second_of(d: RadioDateTimeUtils) -> Option<u8>;

/// Whether the aggregate holds a complete date and time, as `is_valid` reports it.
pub uninterp spec fn valid_of(d: RadioDateTimeUtils) -> bool;

/// The DST bit mask that the aggregate holds, as `get_dst` reports it.
pub uninterp spec fn dst_of(d: RadioDateTimeUtils) -> Option<u8>;

/// The hour that the aggregate holds, as `get_hour` reports it.
pub uninterp spec fn hour_of(d: RadioDateTimeUtils) -> Option<u8>;

/// The day of the month that the aggregate holds, as `get_day` reports it.
pub uninterp spec fn day_of(d: RadioDateTimeUtils) -> Option<u8>;

/// The day of the week that the aggregate holds, as `get_weekday` reports it.
pub uninterp spec fn weekday_of(d: RadioDateTimeUtils) -> Option<u8>;

/// The month that the aggregate holds, as `get_month` reports it.
pub uninterp spec fn month_of(d: RadioDateTimeUtils) -> Option<u8>;

/// The year that the aggregate holds, as `get_year` reports it.
pub uninterp spec fn year_of(d: RadioDateTimeUtils) -> Option<u8>;

/// The aggregate's private `is_readonly` flag: set only on the copies that
/// `get_utc` and `get_local_time` return, and then every setter does nothing.
pub uninterp spec fn readonly_of(d: RadioDateTimeUtils) -> bool;

/// The aggregate's private `dst_count`: the DST announcements that
/// `set_dst` has counted since the top of the hour.
pub uninterp spec fn dst_count_of(d: RadioDateTimeUtils) -> u8;

/// The aggregate's private `leap_second_count`: the leap-second
/// announcements that `set_leap_second` has counted since the top of the hour.
pub uninterp spec fn leap_second_count_of(d: RadioDateTimeUtils) -> u8;

/// The aggregate's private `minutes_running`: the minutes that
/// `bump_minutes_running` has counted since the top of the hour.
pub uninterp spec fn minutes_running_of(d: RadioDateTimeUtils) -> u8;

/// `b` holds the date and time fields and the DST mask of `a`, but perhaps
/// the one numbered `field` (minute, hour, weekday, day, month, year, DST
/// mask, from 0).
pub open spec fn same_fields_but(a: RadioDateTimeUtils, b: RadioDateTimeUtils, field: int) -> bool {
    &&& field != 0 ==> minute_of(b) == minute_of(a)
    &&& field != 1 ==> hour_of(b) == hour_of(a)
    &&& field != 2 ==> weekday_of(b) == weekday_of(a)
    &&& field != 3 ==> day_of(b) == day_of(a)
    &&& field != 4 ==> month_of(b) == month_of(a)
    &&& field != 5 ==> year_of(b) == year_of(a)
    &&& field != 6 ==> dst_of(b) == dst_of(a)
}

/// What `set_value!` leaves in a field that held `current`: `value` where it is
/// known, valid by `terms` and within `min..=max`, otherwise `current`.
pub open spec fn set_field(current: Option<u8>, value: Option<u8>, terms: bool, min: u8, max: u8) -> Option<u8> {
    if value matches Some(v) && terms && min <= v <= max {
        value
    } else {
        current
    }
}

/// The private state that a date or time setter leaves alone.
pub open spec fn same_counters(a: RadioDateTimeUtils, b: RadioDateTimeUtils) -> bool {
    &&& readonly_of(b) == readonly_of(a)
    &&& dst_count_of(b) == dst_count_of(a)
    &&& leap_second_count_of(b) == leap_second_count_of(a)
    &&& minutes_running_of(b) == minutes_running_of(a)
}

/// Relies on `radio_datetime_helpers::time_diff`: the difference `t1 - t0`,
/// taken modulo 2^32 when the counter has wrapped.
pub assume_specification[ radio_datetime_utils::radio_datetime_helpers::time_diff ](
    t0: u32,
    t1: u32,
) -> (r: u32)
    ensures
        r == wrapped_diff(t0, t1),
;

/// Relies on `radio_datetime_helpers::increase_second`: resets the counter on a
/// new minute, otherwise increments it and wraps it to 0 (returning `false`)
/// where it reaches `minute_length` or the buffer size of 62.
pub assume_specification[ radio_datetime_utils::radio_datetime_helpers::increase_second ](
    second: &mut u8,
    new_minute: bool,
    minute_length: u8,
) -> (r: bool)
    requires
        *old(second) < 255,
    ensures
        new_minute ==> *final(second) == 0 && r,
        !new_minute && (*old(second) + 1 == minute_length || *old(second) + 1 == BIT_BUFFER_SIZE)
            ==> *final(second) == 0 && !r,
        !new_minute && !(*old(second) + 1 == minute_length || *old(second) + 1 == BIT_BUFFER_SIZE)
            ==> *final(second) == *old(second) + 1 && r,
;

/// Relies on `radio_datetime_helpers::decode_bcd`: the BCD value of
/// `bit_buffer[start..=stop]`, least significant bit first, or `None` when a
/// bit is unknown, a full group of four bits exceeds 9, or the range is 38 bits or longer.
pub assume_specification[ radio_datetime_utils::radio_datetime_helpers::decode_bcd ](
    bit_buffer: &[Option<bool>],
    start: usize,
    stop: usize,
) -> (r: Option<u32>)
    requires
        start <= stop < bit_buffer@.len(),
    ensures
        stop - start >= 38 ==> r is None,
        stop - start < 38 ==> match bcd_value(bit_buffer@.subrange(start as int, stop + 1)) {
            Some(v) => r == Some(v as u32),
            None => r is None,
        },
;

/// Relies on `radio_datetime_helpers::decode_parity`: the exclusive or of the
/// parity bit and `bit_buffer[start..=stop]`, or `None` when any of them is unknown.
pub assume_specification[ radio_datetime_utils::radio_datetime_helpers::decode_parity ](
    bit_buffer: &[Option<bool>],
    start: usize,
    stop: usize,
    parity: Option<bool>,
) -> (r: Option<bool>)
    requires
        start <= stop < bit_buffer@.len(),
    ensures
        r == parity_value(bit_buffer@.subrange(start as int, stop + 1), parity),
;

/// The aggregate that `RadioDateTimeUtils::new` makes.
pub uninterp spec fn new_datetime(sunday: u8) -> RadioDateTimeUtils;

/// The aggregate after `clear_jumps`.
pub uninterp spec fn cleared_jumps(d: RadioDateTimeUtils) -> RadioDateTimeUtils;

/// What `add_minute` returns, with the aggregate after it.
pub uninterp spec fn added_minute(d: RadioDateTimeUtils) -> (bool, RadioDateTimeUtils);

/// The aggregate after `set_minute`.
pub uninterp spec fn with_minute(d: RadioDateTimeUtils, value: Option<u8>, terms: bool, check_jump: bool) -> RadioDateTimeUtils;

/// The aggregate after `set_hour`.
pub uninterp spec fn with_hour(d: RadioDateTimeUtils, value: Option<u8>, terms: bool, check_jump: bool) -> RadioDateTimeUtils;

/// The aggregate after `set_weekday`.
pub uninterp spec fn with_weekday(d: RadioDateTimeUtils, value: Option<u8>, terms: bool, check_jump: bool) -> RadioDateTimeUtils;

/// The aggregate after `set_month`.
pub uninterp spec fn with_month(d: RadioDateTimeUtils, value: Option<u8>, terms: bool, check_jump: bool) -> RadioDateTimeUtils;

/// The aggregate after `set_year`.
pub uninterp spec fn with_year(d: RadioDateTimeUtils, value: Option<u8>, terms: bool, check_jump: bool) -> RadioDateTimeUtils;

/// The aggregate after `set_day`.
pub uninterp spec fn with_day(d: RadioDateTimeUtils, value: Option<u8>, terms: bool, check_jump: bool) -> RadioDateTimeUtils;

/// The aggregate after `set_dst`.
pub uninterp spec fn with_dst(d: RadioDateTimeUtils, value: Option<bool>, announce: Option<bool>, check_jump: bool) -> RadioDateTimeUtils;

/// The aggregate after `set_leap_second`.
pub uninterp spec fn with_leap_second(d: RadioDateTimeUtils, announce: Option<bool>, minute_length: u8) -> RadioDateTimeUtils;

/// The aggregate after `bump_minutes_running`.
pub uninterp spec fn bumped(d: RadioDateTimeUtils) -> RadioDateTimeUtils;

/// Relies on `RadioDateTimeUtils::new`: a fresh aggregate holds no minute, no
/// leap-second state, and so no complete date and time; it is not read-only
/// and its counters are 0.
pub assume_specification[ RadioDateTimeUtils::new ](sunday: u8) -> (r: RadioDateTimeUtils)
    ensures
        r == new_datetime(sunday),
        minute_of(r) is None,
        leap_second_of(r) is None,
        !valid_of(r),
        !readonly_of(r),
        dst_count_of(r) == 0,
        leap_second_count_of(r) == 0,
        minutes_running_of(r) == 0,
;

/// Relies on `RadioDateTimeUtils::get_minute`.
pub assume_specification[ RadioDateTimeUtils::get_minute ](d: &RadioDateTimeUtils) -> (r: Option<u8>)
    ensures
        r == minute_of(*d),
;

/// Relies on `RadioDateTimeUtils::get_leap_second`.
pub assume_specification[ RadioDateTimeUtils::get_leap_second ](d: &RadioDateTimeUtils) -> (r: Option<u8>)
    ensures
        r == leap_second_of(*d),
;

/// Relies on `RadioDateTimeUtils::is_valid`: the DST mask and every date
/// and time field are known.
pub assume_specification[ RadioDateTimeUtils::is_valid ](d: &RadioDateTimeUtils) -> (r: bool)
    ensures
        r == valid_of(*d),
        r == (dst_of(*d) is Some && year_of(*d) is Some && month_of(*d) is Some && day_of(*d) is Some
            && weekday_of(*d) is Some && hour_of(*d) is Some && minute_of(*d) is Some),
;

/// Relies on `RadioDateTimeUtils::get_dst`.
pub assume_specification[ RadioDateTimeUtils::get_dst ](d: &RadioDateTimeUtils) -> (r: Option<u8>)
    ensures
        r == dst_of(*d),
;

/// Relies on `RadioDateTimeUtils::get_hour`.
pub assume_specification[ RadioDateTimeUtils::get_hour ](d: &RadioDateTimeUtils) -> (r: Option<u8>)
    ensures
        r == hour_of(*d),
;

/// Relies on `RadioDateTimeUtils::get_day`.
pub assume_specification[ RadioDateTimeUtils::get_day ](d: &RadioDateTimeUtils) -> (r: Option<u8>)
    ensures
        r == day_of(*d),
;

/// Relies on `RadioDateTimeUtils::get_weekday`.
pub assume_specification[ RadioDateTimeUtils::get_weekday ](d: &RadioDateTimeUtils) -> (r: Option<u8>)
    ensures
        r == weekday_of(*d),
;

/// Relies on `RadioDateTimeUtils::get_month`.
pub assume_specification[ RadioDateTimeUtils::get_month ](d: &RadioDateTimeUtils) -> (r: Option<u8>)
    ensures
        r == month_of(*d),
;

/// Relies on `RadioDateTimeUtils::get_year`.
pub assume_specification[ RadioDateTimeUtils::get_year ](d: &RadioDateTimeUtils) -> (r: Option<u8>)
    ensures
        r == year_of(*d),
;

/// Relies on `RadioDateTimeUtils::clear_jumps`, which clears the jump flags
/// (and the jump bit of a known DST mask); the outcome depends on the
/// aggregate alone, and the date, time, leap-second state and counters stay.
pub assume_specification[ RadioDateTimeUtils::clear_jumps ](d: &mut RadioDateTimeUtils)
    ensures
        *final(d) == cleared_jumps(*old(d)),
        minute_of(*final(d)) == minute_of(*old(d)),
        leap_second_of(*final(d)) == leap_second_of(*old(d)),
        valid_of(*final(d)) == valid_of(*old(d)),
        same_counters(*old(d), *final(d)),
;

/// Relies on `RadioDateTimeUtils::add_minute`, which advances a complete date
/// and time by a minute; the outcome depends on the aggregate alone, and the
/// counters stay. It panics where `add_minute_panics` says: its `incr_hour`
/// unwraps the last day of a February day above 29, and it counts fields up in
/// `u8`.
pub assume_specification[ RadioDateTimeUtils::add_minute ](d: &mut RadioDateTimeUtils) -> (r: bool)
    requires
        !add_minute_panics(*old(d)),
    ensures
        (r, *final(d)) == added_minute(*old(d)),
        same_counters(*old(d), *final(d)),
;

/// Relies on `RadioDateTimeUtils::set_minute`, which takes a minute that is
/// valid by `terms` and in range; the outcome depends on its arguments alone,
/// and the other fields, the leap-second state and the counters stay.
pub assume_specification[ RadioDateTimeUtils::set_minute ](
    d: &mut RadioDateTimeUtils,
    value: Option<u8>,
    terms: bool,
    check_jump: bool,
)
    ensures
        *final(d) == with_minute(*old(d), value, terms, check_jump),
        !readonly_of(*old(d)) ==> minute_of(*final(d)) == set_field(minute_of(*old(d)), value, terms, 0, 59),
        same_fields_but(*old(d), *final(d), 0),
        leap_second_of(*final(d)) == leap_second_of(*old(d)),
        same_counters(*old(d), *final(d)),
;

/// Relies on `RadioDateTimeUtils::set_hour`, which takes an hour that is
/// valid by `terms` and in range; the outcome depends on its arguments alone,
/// and the other fields, the leap-second state and the counters stay.
pub assume_specification[ RadioDateTimeUtils::set_hour ](
    d: &mut RadioDateTimeUtils,
    value: Option<u8>,
    terms: bool,
    check_jump: bool,
)
    ensures
        *final(d) == with_hour(*old(d), value, terms, check_jump),
        !readonly_of(*old(d)) ==> hour_of(*final(d)) == set_field(hour_of(*old(d)), value, terms, 0, 23),
        same_fields_but(*old(d), *final(d), 1),
        leap_second_of(*final(d)) == leap_second_of(*old(d)),
        same_counters(*old(d), *final(d)),
;

/// Relies on `RadioDateTimeUtils::set_weekday`, which takes a day of the week
/// that is valid by `terms` and in range; the outcome depends on its arguments alone,
/// and the other fields, the leap-second state and the counters stay.
pub assume_specification[ RadioDateTimeUtils::set_weekday ](
    d: &mut RadioDateTimeUtils,
    value: Option<u8>,
    terms: bool,
    check_jump: bool,
)
    ensures
        *final(d) == with_weekday(*old(d), value, terms, check_jump),
        !(value is Some && terms) ==> weekday_of(*final(d)) == weekday_of(*old(d)),
        same_fields_but(*old(d), *final(d), 2),
        leap_second_of(*final(d)) == leap_second_of(*old(d)),
        same_counters(*old(d), *final(d)),
;

/// Relies on `RadioDateTimeUtils::set_month`, which takes a month that is
/// valid by `terms` and in range; the outcome depends on its arguments alone,
/// and the other fields, the leap-second state and the counters stay.
pub assume_specification[ RadioDateTimeUtils::set_month ](
    d: &mut RadioDateTimeUtils,
    value: Option<u8>,
    terms: bool,
    check_jump: bool,
)
    ensures
        *final(d) == with_month(*old(d), value, terms, check_jump),
        !readonly_of(*old(d)) ==> month_of(*final(d)) == set_field(month_of(*old(d)), value, terms, 1, 12),
        same_fields_but(*old(d), *final(d), 4),
        leap_second_of(*final(d)) == leap_second_of(*old(d)),
        same_counters(*old(d), *final(d)),
;

/// Relies on `RadioDateTimeUtils::set_year`, which takes a year that is
/// valid by `terms` and in range; the outcome depends on its arguments alone,
/// and the other fields, the leap-second state and the counters stay.
pub assume_specification[ RadioDateTimeUtils::set_year ](
    d: &mut RadioDateTimeUtils,
    value: Option<u8>,
    terms: bool,
    check_jump: bool,
)
    ensures
        *final(d) == with_year(*old(d), value, terms, check_jump),
        !readonly_of(*old(d)) ==> year_of(*final(d)) == set_field(year_of(*old(d)), value, terms, 0, 99),
        same_fields_but(*old(d), *final(d), 5),
        leap_second_of(*final(d)) == leap_second_of(*old(d)),
        same_counters(*old(d), *final(d)),
;

/// Relies on `RadioDateTimeUtils::set_day`, which takes a day of the month
/// that is valid by `terms` and exists in the month; the outcome depends on
/// its arguments alone, and the other fields, the leap-second state and the
/// counters stay.
pub assume_specification[ RadioDateTimeUtils::set_day ](
    d: &mut RadioDateTimeUtils,
    value: Option<u8>,
    terms: bool,
    check_jump: bool,
)
    ensures
        *final(d) == with_day(*old(d), value, terms, check_jump),
        !(value is Some && terms) ==> day_of(*final(d)) == day_of(*old(d)),
        same_fields_but(*old(d), *final(d), 3),
        leap_second_of(*final(d)) == leap_second_of(*old(d)),
        same_counters(*old(d), *final(d)),
;

/// Relies on `RadioDateTimeUtils::set_dst`, which updates the daylight-saving
/// state from its value and the announcement bit; the outcome depends on its
/// arguments alone. It counts a `Some(true)` announcement and doubles the
/// count in a `u8`, so the count must stay below 127; it leaves the date, the
/// time and the leap-second state alone and clears the count at minute 0
/// when neither argument is `None`.
pub assume_specification[ RadioDateTimeUtils::set_dst ](
    d: &mut RadioDateTimeUtils,
    value: Option<bool>,
    announce: Option<bool>,
    check_jump: bool,
)
    requires
        dst_count_of(*old(d)) < 127,
    ensures
        *final(d) == with_dst(*old(d), value, announce, check_jump),
        same_fields_but(*old(d), *final(d), 6),
        leap_second_of(*final(d)) == leap_second_of(*old(d)),
        readonly_of(*final(d)) == readonly_of(*old(d)),
        leap_second_count_of(*final(d)) == leap_second_count_of(*old(d)),
        minutes_running_of(*final(d)) == minutes_running_of(*old(d)),
        dst_count_of(*final(d)) <= dst_count_of(*old(d)) + if announce == Some(true) {
            1int
        } else {
            0
        },
        !readonly_of(*old(d)) && value is Some && announce is Some && minute_of(*old(d)) == Some(0u8)
            ==> dst_count_of(*final(d)) == 0,
;

/// Relies on `RadioDateTimeUtils::set_leap_second`, which updates the
/// leap-second state from the announcement bit and the length of the minute;
/// the outcome depends on its arguments alone. It counts a `Some(true)`
/// announcement and doubles the count in a `u8`, so the count must stay below
/// 127; it leaves the date, the time and the DST mask alone and clears the count at
/// minute 0 when the announcement is known and the length is 60 or 61.
pub assume_specification[ RadioDateTimeUtils::set_leap_second ](
    d: &mut RadioDateTimeUtils,
    announce: Option<bool>,
    minute_length: u8,
)
    requires
        leap_second_count_of(*old(d)) < 127,
    ensures
        *final(d) == with_leap_second(*old(d), announce, minute_length),
        same_fields_but(*old(d), *final(d), 7),
        valid_of(*final(d)) == valid_of(*old(d)),
        readonly_of(*final(d)) == readonly_of(*old(d)),
        dst_count_of(*final(d)) == dst_count_of(*old(d)),
        minutes_running_of(*final(d)) == minutes_running_of(*old(d)),
        leap_second_count_of(*final(d)) <= leap_second_count_of(*old(d)) + if announce == Some(
            true,
        ) {
            1int
        } else {
            0
        },
        !readonly_of(*old(d)) && announce is Some && 60 <= minute_length <= 61 && minute_of(*old(d))
            == Some(0u8) ==> leap_second_count_of(*final(d)) == 0,
;

/// Relies on `RadioDateTimeUtils::bump_minutes_running`, which counts the
/// minutes since the hour in a `u8` and touches nothing else: the outcome
/// depends on the aggregate alone, and the count restarts at minute 0.
pub assume_specification[ RadioDateTimeUtils::bump_minutes_running ](d: &mut RadioDateTimeUtils)
    requires
        minutes_running_of(*old(d)) < 255,
    ensures
        *final(d) == bumped(*old(d)),
        minute_of(*final(d)) == minute_of(*old(d)),
        leap_second_of(*final(d)) == leap_second_of(*old(d)),
        valid_of(*final(d)) == valid_of(*old(d)),
        readonly_of(*final(d)) == readonly_of(*old(d)),
        dst_count_of(*final(d)) == dst_count_of(*old(d)),
        leap_second_count_of(*final(d)) == leap_second_count_of(*old(d)),
        minutes_running_of(*final(d)) <= minutes_running_of(*old(d)) + 1,
        !readonly_of(*old(d)) && minute_of(*old(d)) == Some(0u8) ==> minutes_running_of(*final(d)) == 0,
;

} // verus!
