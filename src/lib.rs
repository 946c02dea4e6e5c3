//! Decoder for the DCF77 longwave time signal: turns the timestamps of the
//! receiver's signal edges into a bit frame per minute, keeps track of the
//! second within the minute and decodes the date and time of a complete frame.
use radio_datetime_utils::radio_datetime_helpers;
use radio_datetime_utils::RadioDateTimeUtils;
use vstd::prelude::*;

pub mod dcf77_helpers;
pub mod frame;
pub mod lemmas;
pub mod radio_datetime;

pub use crate::frame::MinuteFields;

use crate::frame::minute_fields;
use crate::radio_datetime::{
    added_minute, bumped, cleared_jumps, day_of, dst_count_of, dst_of, hour_of, leap_second_count_of,
    leap_second_of, minute_of, minutes_running_of, month_of, new_datetime, readonly_of, valid_of,
    weekday_of, with_day, with_dst, with_hour, with_leap_second, with_minute, with_month,
    with_weekday, with_year, year_of,
};

verus! {

/// Default upper limit for spike detection in microseconds
pub const SPIKE_LIMIT: u32 = 30_000;

/// Maximum time in microseconds for a bit to be considered 0
pub const ACTIVE_LIMIT: u32 = 150_000;

/// Maximum time in microseconds for a bit to be considered 1
pub const ACTIVE_RUNAWAY: u32 = 250_000;

/// Minimum time in microseconds for a new minute to be detected
pub const MINUTE_LIMIT: u32 = 1_500_000;

/// Signal is considered lost after this many microseconds
pub const PASSIVE_RUNAWAY: u32 = 2_500_000;

/// Slots in the bit buffer: the 61 seconds of a minute with a leap second,
/// plus a spare one, as the date/time crate sizes its buffers.
pub const BIT_BUFFER_SIZE: usize = 62;

/// Bit of the aggregate's leap-second mask: a leap second has been announced.
pub const LEAP_ANNOUNCED: u8 = 1;

/// Bit of the aggregate's leap-second mask: a leap second has been processed.
pub const LEAP_PROCESSED: u8 = 2;

/// `t1 - t0` on a 32-bit microsecond counter that may have wrapped in between.
pub open spec fn wrapped_diff(t0: u32, t1: u32) -> u32 {
    if t1 >= t0 {
        (t1 - t0) as u32
    } else {
        (u32::MAX - t0 + t1 + 1) as u32
    }
}

/// The second counter after one step, and whether the step was regular:
/// a new minute resets it, otherwise it counts up and is forced back to 0
/// where it would reach or pass the minute's length (or the end of the buffer).
pub open spec fn second_step(second: u8, new_minute: bool, minute_length: u8) -> (u8, bool) {
    if new_minute {
        (0, true)
    } else if second + 1 >= minute_length || second + 1 >= BIT_BUFFER_SIZE {
        (0, false)
    } else {
        ((second + 1) as u8, true)
    }
}

/// Whether the leap-second mask `leap` is known and has `flag` set.
pub open spec fn leap_flag(leap: Option<u8>, flag: u8) -> bool {
    match leap {
        Some(l) => l & flag != 0,
        None => false,
    }
}

/// Length in seconds of the minute that has just been received.
pub open spec fn this_minute_length_of(leap: Option<u8>) -> u8 {
    if leap_flag(leap, LEAP_PROCESSED) {
        61
    } else {
        60
    }
}

/// Length in seconds of the minute that follows minute `minute`: a leap
/// second is inserted after minute 59 once it has been announced.
pub open spec fn next_minute_length_of(minute: Option<u8>, leap: Option<u8>) -> u8 {
    if minute == Some(59u8) && leap_flag(leap, LEAP_ANNOUNCED) {
        61
    } else {
        60
    }
}

/// Frames that the decoder hands to the aggregate before it stops counting
/// announcements and minutes, unless it has seen the top of an hour: two hours.
pub const FRAMES_PER_VOTE: u8 = 120;

/// Bit of the aggregate's DST mask: a change of daylight-saving time has been announced.
pub const DST_ANNOUNCED: u8 = 1;

/// Bit of the aggregate's DST mask: daylight-saving time is in effect.
pub const DST_SUMMER: u8 = 8;

/// The hour that the aggregate's `add_minute` reaches when the minute rolls
/// over: the next one, or where a DST change is announced the same one (to
/// winter time) or the one after next (to summer time).
pub open spec fn next_hour(hour: u8, dst: u8) -> int {
    if dst & DST_ANNOUNCED != 0 {
        if dst & DST_SUMMER != 0 {
            hour as int
        } else {
            hour + 2
        }
    } else {
        hour + 1
    }
}

/// Whether the aggregate's `add_minute` panics on a complete date and time
/// with these fields. It does so where the day rolls over on a February day
/// above 29, which has no last day of the month; the other cases (a field
/// counted up past 255, a weekday above 8 in February '00) need fields that
/// its setters never store.
pub open spec fn add_minute_panics_at(
    minute: u8,
    hour: u8,
    dst: u8,
    weekday: u8,
    day: u8,
    month: u8,
    year: u8,
) -> bool {
    ||| minute == 255
    ||| minute >= 59 && {
        ||| hour == 255
        ||| dst & DST_ANNOUNCED != 0 && dst & DST_SUMMER == 0 && hour == 254
        ||| next_hour(hour, dst) >= 24 && {
            ||| month == 2 && day > 29
            ||| month == 2 && day < 29 && year == 0 && weekday > 8
            ||| weekday == 255
            ||| day == 255
            ||| day >= 31 && (month == 255 || month == 12 && year == 255)
        }
    }
}

/// Whether the aggregate's `add_minute` panics on `d`: only a complete date
/// and time is advanced at all.
pub open spec fn add_minute_panics(d: RadioDateTimeUtils) -> bool {
    valid_of(d) && add_minute_panics_at(
        minute_of(d)->0,
        hour_of(d)->0,
        dst_of(d)->0,
        weekday_of(d)->0,
        day_of(d)->0,
        month_of(d)->0,
        year_of(d)->0,
    )
}

/// Tell whether the aggregate's `add_minute` panics on a complete date and
/// time with these fields.
fn add_minute_panics_on(
    minute: u8,
    hour: u8,
    dst: u8,
    weekday: u8,
    day: u8,
    month: u8,
    year: u8,
) -> (r: bool)
    ensures
        r == add_minute_panics_at(minute, hour, dst, weekday, day, month, year),
{
    if minute == 255 {
        return true;
    }
    if minute < 59 {
        return false;
    }
    if hour == 255 {
        return true;
    }
    let announced = dst & DST_ANNOUNCED != 0;
    let summer = dst & DST_SUMMER != 0;
    if announced && !summer && hour == 254 {
        return true;
    }
    let next: u16 = if announced {
        if summer {
            hour as u16
        } else {
            hour as u16 + 2
        }
    } else {
        hour as u16 + 1
    };
    if next < 24 {
        return false;
    }
    (month == 2 && day > 29) || (month == 2 && day < 29 && year == 0 && weekday > 8) || weekday
        == 255 || day == 255 || (day >= 31 && (month == 255 || (month == 12 && year == 255)))
}

/// Tell whether the aggregate's `add_minute` can be called on `d`.
fn can_add_minute(d: &RadioDateTimeUtils) -> (r: bool)
    ensures
        r == !add_minute_panics(*d),
{
    if !d.is_valid() {
        return true;
    }
    match (
        d.get_minute(),
        d.get_hour(),
        d.get_dst(),
        d.get_weekday(),
        d.get_day(),
        d.get_month(),
        d.get_year(),
    ) {
        (Some(minute), Some(hour), Some(dst), Some(weekday), Some(day), Some(month), Some(year)) => {
            !add_minute_panics_on(minute, hour, dst, weekday, day, month, year)
        },
        _ => true,
    }
}

/// An announcement that is not counted: known where it is known, but never set.
pub open spec fn uncounted(announce: Option<bool>) -> Option<bool> {
    match announce {
        Some(_) => Some(false),
        None => None,
    }
}

/// An announcement that is not counted: known where it is known, but never set.
fn uncount(announce: Option<bool>) -> (r: Option<bool>)
    ensures
        r == uncounted(announce),
{
    match announce {
        Some(_) => Some(false),
        None => None,
    }
}

/// What a falling edge that ends an active part of `delta` microseconds tells
/// of the bit: a short pulse is 0, a long one 1, and a longer one is broken.
pub open spec fn active_bit(delta: u32) -> Option<bool> {
    if delta < ACTIVE_LIMIT {
        Some(false)
    } else if delta < ACTIVE_RUNAWAY {
        Some(true)
    } else {
        None
    }
}

/// How the decoder is driven.
pub enum DecodeType {
    /// Edges arrive live: `increase_second` runs before `decode_time`.
    Live,
    /// Bits are replayed from a log: `decode_time` runs before `increase_second`.
    LogFile,
}

/// DCF77 decoder: the state of the edge classifier, the second counter, the
/// bit frame of the current minute, and what was decoded from the last
/// complete frame.
///
/// The fields are open so that a log replay (or a test) can set up a state;
/// the methods ask for `wf`, which `new` establishes and they all keep.
pub struct DCF77Utils {
    /// how the decoder is driven
    pub decode_type: DecodeType,
    /// no minute has been decoded properly yet
    pub first_minute: bool,
    /// the last passive part was long enough to mark a new minute
    pub new_minute: bool,
    /// the last passive part ended a second
    pub new_second: bool,
    /// the second within the minute, which indexes the bit buffer
    pub second: u8,
    /// the second before the last `increase_second`, to see how long the minute was
    pub old_second: u8,
    /// one bit per second of the minute, `None` where it is unknown; a slot
    /// is only overwritten when its second comes round again
    pub bit_buffer: [Option<bool>; 62],
    /// the decoded date and time, which also detects jumps between minutes
    pub radio_datetime: RadioDateTimeUtils,
    /// bit 59 of a minute with a processed leap second, which should be 0
    pub leap_second_is_one: Option<bool>,
    /// parity of the minute field, `Some(false)` when it checks out
    pub parity_1: Option<bool>,
    /// parity of the hour field, `Some(false)` when it checks out
    pub parity_2: Option<bool>,
    /// parity of the date fields, `Some(false)` when it checks out
    pub parity_3: Option<bool>,
    /// bit 0 of the last decoded frame, always 0
    pub bit_0: Option<bool>,
    /// bits 1 to 14 of the last decoded frame, least significant bit first
    pub third_party: Option<u16>,
    /// bit 15 of the last decoded frame
    pub call_bit: Option<bool>,
    /// bit 20 of the last decoded frame, always 1
    pub bit_20: Option<bool>,
    /// the first edge only sets the time reference
    pub before_first_edge: bool,
    /// time reference for the next edge, in microseconds
    pub t0: u32,
    /// edges closer than this to the reference, in microseconds, are spikes
    pub spike_limit: u32,
    /// complete frames since one at the top of the hour, up to
    /// `FRAMES_PER_VOTE`: a bound on the aggregate's counts of DST and
    /// leap-second announcements and of minutes
    pub frames_since_hour: u8,
}

impl DCF77Utils {
    /// The decoder's state is usable: both second counters index the bit
    /// buffer, the spike limit lies below the limit of a 0 bit, and the
    /// aggregate is writable, with its counters bounded by `frames_since_hour`.
    pub open spec fn wf(&self) -> bool {
        &&& self.second < BIT_BUFFER_SIZE
        &&& self.old_second < BIT_BUFFER_SIZE
        &&& self.spike_limit < ACTIVE_LIMIT
        &&& self.frames_since_hour <= FRAMES_PER_VOTE
        &&& !readonly_of(self.radio_datetime)
        &&& dst_count_of(self.radio_datetime) <= self.frames_since_hour
        &&& leap_second_count_of(self.radio_datetime) <= self.frames_since_hour
        &&& minutes_running_of(self.radio_datetime) <= self.frames_since_hour
    }

    /// Length of the minute that has just been received, from the aggregate's state.
    pub open spec fn spec_this_minute_length(&self) -> u8 {
        this_minute_length_of(leap_second_of(self.radio_datetime))
    }

    /// Length of the minute to come, from the aggregate's state.
    pub open spec fn spec_next_minute_length(&self) -> u8 {
        next_minute_length_of(minute_of(self.radio_datetime), leap_second_of(self.radio_datetime))
    }

    /// Initialize a new DCF77Utils instance.
    pub fn new(dt: DecodeType) -> (r: Self)
        ensures
            r.wf(),
            r.decode_type == dt,
            r.first_minute,
            !r.new_minute,
            !r.new_second,
            r.second == 0,
            r.old_second == 0,
            forall|i: int| 0 <= i < BIT_BUFFER_SIZE ==> r.bit_buffer[i] is None,
            r.radio_datetime == new_datetime(7),
            minute_of(r.radio_datetime) is None,
            leap_second_of(r.radio_datetime) is None,
            !valid_of(r.radio_datetime),
            r.frames_since_hour == 0,
            r.leap_second_is_one is None,
            r.parity_1 is None,
            r.parity_2 is None,
            r.parity_3 is None,
            r.bit_0 is None,
            r.third_party is None,
            r.call_bit is None,
            r.bit_20 is None,
            r.before_first_edge,
            r.t0 == 0,
            r.spike_limit == SPIKE_LIMIT,
    {
        Self {
            decode_type: dt,
            first_minute: true,
            new_minute: false,
            new_second: false,
            second: 0,
            old_second: 0,
            bit_buffer: [None; 62],
            radio_datetime: RadioDateTimeUtils::new(7),
            leap_second_is_one: None,
            parity_1: None,
            parity_2: None,
            parity_3: None,
            bit_0: None,
            third_party: None,
            call_bit: None,
            bit_20: None,
            before_first_edge: true,
            t0: 0,
            spike_limit: SPIKE_LIMIT,
            frames_since_hour: 0,
        }
    }

    /// Return if this is before the first minute that has been successfully decoded.
    pub fn get_first_minute(&self) -> (r: bool)
        ensures
            r == self.first_minute,
    {
        self.first_minute
    }

    /// Return if a new minute has arrived.
    pub fn get_new_minute(&self) -> (r: bool)
        ensures
            r == self.new_minute,
    {
        self.new_minute
    }

    /// Force the arrival of a new minute.
    ///
    /// This could be useful when reading from a log file.
    ///
    /// This method must be called _before_ `increase_second()`
    pub fn force_new_minute(&mut self)
        ensures
            *final(self) == (DCF77Utils { new_minute: true, ..*old(self) }),
    {
        self.new_minute = true;
    }

    /// Return if a new second has arrived.
    pub fn get_new_second(&self) -> (r: bool)
        ensures
            r == self.new_second,
    {
        self.new_second
    }

    /// Get the old second counter.
    pub fn get_old_second(&self) -> (r: u8)
        ensures
            r == self.old_second,
    {
        self.old_second
    }

    /// Get the second counter.
    pub fn get_second(&self) -> (r: u8)
        ensures
            r == self.second,
    {
        self.second
    }

    /// Get a copy of the date/time structure.
    pub fn get_radio_datetime(&self) -> (r: RadioDateTimeUtils)
        ensures
            r == self.radio_datetime,
    {
        self.radio_datetime
    }

    /// Get the leap-second-is-one anomaly.
    pub fn get_leap_second_is_one(&self) -> (r: Option<bool>)
        ensures
            r == self.leap_second_is_one,
    {
        self.leap_second_is_one
    }

    /// Get the minute parity bit, Some(false) means OK.
    pub fn get_parity_1(&self) -> (r: Option<bool>)
        ensures
            r == self.parity_1,
    {
        self.parity_1
    }

    /// Get the hour parity bit, Some(false) means OK.
    pub fn get_parity_2(&self) -> (r: Option<bool>)
        ensures
            r == self.parity_2,
    {
        self.parity_2
    }

    /// Get the date parity bit, Some(false) means OK.
    pub fn get_parity_3(&self) -> (r: Option<bool>)
        ensures
            r == self.parity_3,
    {
        self.parity_3
    }

    /// Get the value of the current bit.
    pub fn get_current_bit(&self) -> (r: Option<bool>)
        requires
            self.wf(),
        ensures
            r == self.bit_buffer[self.second as int],
    {
        self.bit_buffer[self.second as usize]
    }

    /// Set the value of the current bit and clear the flag indicating arrival of a new minute.
    ///
    /// This could be useful when reading from a log file.
    ///
    /// This method must be called _before_ `increase_second()`
    pub fn set_current_bit(&mut self, value: Option<bool>)
        requires
            old(self).wf(),
        ensures
            final(self).wf(),
            final(self).bit_buffer@ == old(self).bit_buffer@.update(old(self).second as int, value),
            *final(self) == (DCF77Utils {
                bit_buffer: final(self).bit_buffer,
                new_minute: false,
                ..*old(self)
            }),
    {
        self.bit_buffer[self.second as usize] = value;
        self.new_minute = false;
    }

    /// Get the value of bit 0 (must always be 0).
    pub fn get_bit_0(&self) -> (r: Option<bool>)
        ensures
            r == self.bit_0,
    {
        self.bit_0
    }

    /// Get the value of the third-party buffer, a 14-bit number with the least significant bit first.
    pub fn get_third_party_buffer(&self) -> (r: Option<u16>)
        ensures
            r == self.third_party,
    {
        self.third_party
    }

    /// Get the value of the transmitter call bit.
    pub fn get_call_bit(&self) -> (r: Option<bool>)
        ensures
            r == self.call_bit,
    {
        self.call_bit
    }

    /// Get the value of bit 20 (must always be 1).
    pub fn get_bit_20(&self) -> (r: Option<bool>)
        ensures
            r == self.bit_20,
    {
        self.bit_20
    }

    /// Return the current spike limit in microseconds.
    pub fn get_spike_limit(&self) -> (r: u32)
        ensures
            r == self.spike_limit,
    {
        self.spike_limit
    }

    /// Set the new spike limit in microseconds, [0(off)..ACTIVE_LIMIT);
    /// a value outside that range leaves the limit as it is.
    pub fn set_spike_limit(&mut self, value: u32)
        requires
            old(self).wf(),
        ensures
            final(self).wf(),
            *final(self) == (DCF77Utils {
                spike_limit: if value < ACTIVE_LIMIT {
                    value
                } else {
                    old(self).spike_limit
                },
                ..*old(self)
            }),
    {
        if value < ACTIVE_LIMIT {
            self.spike_limit = value;
        }
    }

    /// Determine the bit value if a new edge is received, indicate reception
    /// errors, and check if a new minute has started.
    ///
    /// An edge that comes less than `spike_limit` microseconds after the
    /// reference is a spike: it only moves the reference forward by that time,
    /// so that a train of spikes still adds up to the real duration.
    ///
    /// This method must be called _after_ `increase_second()`
    ///
    /// # Arguments
    /// * `is_low_edge` - indicates that the edge has gone from high to low (as opposed to
    ///                   low-to-high).
    /// * `t` - time stamp of the received edge, in microseconds
    pub fn handle_new_edge(&mut self, is_low_edge: bool, t: u32)
        requires
            old(self).wf(),
        ensures
            final(self).wf(),
            old(self).before_first_edge ==> *final(self) == (DCF77Utils {
                before_first_edge: false,
                t0: t,
                ..*old(self)
            }),
            !old(self).before_first_edge ==> {
                let delta = wrapped_diff(old(self).t0, t);
                let slot = old(self).second as int;
                if delta < old(self).spike_limit {
                    *final(self) == (DCF77Utils {
                        t0: ((old(self).t0 + delta) % 0x1_0000_0000) as u32,
                        ..*old(self)
                    })
                } else if is_low_edge {
                    &&& final(self).bit_buffer@ == old(self).bit_buffer@.update(slot, active_bit(delta))
                    &&& *final(self) == (DCF77Utils {
                        bit_buffer: final(self).bit_buffer,
                        t0: t,
                        new_second: false,
                        ..*old(self)
                    })
                } else if delta < PASSIVE_RUNAWAY {
                    *final(self) == (DCF77Utils {
                        t0: t,
                        new_minute: delta > MINUTE_LIMIT,
                        new_second: true,
                        ..*old(self)
                    })
                } else {
                    &&& final(self).bit_buffer@ == old(self).bit_buffer@.update(slot, None)
                    &&& *final(self) == (DCF77Utils {
                        bit_buffer: final(self).bit_buffer,
                        t0: t,
                        ..*old(self)
                    })
                }
            },
    {
        if self.before_first_edge {
            self.before_first_edge = false;
            self.t0 = t;
            return;
        }
        let t_diff = radio_datetime_helpers::time_diff(self.t0, t);
        if t_diff < self.spike_limit {
            // random positive or negative spike: shift t0 so that a train of
            // spikes still adds up to more than `spike_limit` microseconds
            self.t0 = self.t0.wrapping_add(t_diff);
            return;
        }
        self.t0 = t;
        if is_low_edge {
            // leave self.new_minute unaltered
            self.new_second = false;
            self.bit_buffer[self.second as usize] = if t_diff < ACTIVE_LIMIT {
                Some(false)
            } else if t_diff < ACTIVE_RUNAWAY {
                Some(true)
            } else {
                None  // broken bit, active runaway
            };
        } else if t_diff < PASSIVE_RUNAWAY {
            self.new_minute = t_diff > MINUTE_LIMIT;
            self.new_second = true;
        } else {
            self.bit_buffer[self.second as usize] = None;  // broken bit, passive runaway
        }
    }

    /// Determine the length of _this_ minute in seconds, tolerate None as leap second state.
    pub fn get_this_minute_length(&self) -> (r: u8)
        ensures
            r == self.spec_this_minute_length(),
    {
        match self.radio_datetime.get_leap_second() {
            Some(leap) => if leap & LEAP_PROCESSED != 0 {
                61
            } else {
                60
            },
            None => 60,
        }
    }

    /// Determine the length of _the next_ minute in seconds, tolerate None as a leap second state.
    pub fn get_next_minute_length(&self) -> (r: u8)
        ensures
            r == self.spec_next_minute_length(),
    {
        let minute = self.radio_datetime.get_minute();
        match self.radio_datetime.get_leap_second() {
            Some(leap) => if minute == Some(59u8) && leap & LEAP_ANNOUNCED != 0 {
                61
            } else {
                60
            },
            None => 60,
        }
    }

    /// Increase or reset `second`.
    ///
    /// Returns if the second counter was increased/wrapped normally (true)
    /// or due to an overflow (false).
    ///
    /// This method must be called _after_ `decode_time()`, `handle_new_edge()`,
    /// `set_current_bit()`, and `force_new_minute()`.
    pub fn increase_second(&mut self) -> (r: bool)
        requires
            old(self).wf(),
        ensures
            final(self).wf(),
            (final(self).second, r) == second_step(
                old(self).second,
                old(self).new_minute,
                old(self).spec_next_minute_length(),
            ),
            *final(self) == (DCF77Utils {
                second: final(self).second,
                old_second: old(self).second,
                ..*old(self)
            }),
    {
        self.old_second = self.second;
        let minute_length = self.get_next_minute_length();
        if !self.new_minute && self.second >= minute_length {
            // past the end of a minute that turned out shorter: a missed marker
            self.second = 0;
            return false;
        }
        radio_datetime_helpers::increase_second(&mut self.second, self.new_minute, minute_length)
    }

    /// Clear the jump flags of `self.radio_datetime`, call add_minute() on it and pass on that result.
    /// Where the aggregate's `add_minute` would panic (at the end of a February
    /// day above 29, which a frame can leave behind) the date stays as it is,
    /// and the result is `false`.
    ///
    /// This could be useful for consumers just wanting to advance their current date/time.
    pub fn add_minute(&mut self) -> (r: bool)
        requires
            old(self).wf(),
        ensures
            final(self).wf(),
            ({
                let cleared = cleared_jumps(old(self).radio_datetime);
                (r, final(self).radio_datetime) == if add_minute_panics(cleared) {
                    (false, cleared)
                } else {
                    added_minute(cleared)
                }
            }),
            *final(self) == (DCF77Utils { radio_datetime: final(self).radio_datetime, ..*old(self) }),
    {
        self.radio_datetime.clear_jumps();
        if !can_add_minute(&self.radio_datetime) {
            return false;
        }
        self.radio_datetime.add_minute()
    }

    /// The second counter that tells whether a frame is complete: the one
    /// before the advance in live mode, the current one in log-file mode.
    pub open spec fn spec_last_second(&self) -> u8 {
        match self.decode_type {
            DecodeType::Live => self.old_second,
            DecodeType::LogFile => self.second,
        }
    }

    /// Whether the frame in the buffer is complete: its last second is the
    /// last one of the minute.
    pub open spec fn spec_minute_complete(&self) -> bool {
        self.spec_last_second() + 1 == self.spec_next_minute_length()
    }

    /// The aggregate after the fields `f` of a complete frame have been handed
    /// to it, valid as `spec_validity` says, before its minute counter is
    /// bumped. Unless this is the first minute, the aggregate first advances
    /// by a minute (where its date allows), so that jumps show against the
    /// previous minute. Once `FRAMES_PER_VOTE` frames have passed without the
    /// top of an hour, announcements are handed over without being counted.
    pub open spec fn spec_handed_over(&self, f: MinuteFields, strict_checks: bool) -> RadioDateTimeUtils {
        let cleared = cleared_jumps(self.radio_datetime);
        let (added, advanced) = if self.first_minute || add_minute_panics(cleared) {
            (false, cleared)
        } else {
            added_minute(cleared)
        };
        let counting = self.frames_since_hour < FRAMES_PER_VOTE;
        let (minute_ok, hour_ok, date_ok) = f.spec_validity(strict_checks);
        let d = with_minute(advanced, f.minute, minute_ok, added);
        let d = with_hour(d, f.hour, hour_ok, added);
        let d = with_weekday(d, f.weekday, date_ok, added);
        let d = with_month(d, f.month, date_ok, added);
        let d = with_year(d, f.year, date_ok, added);
        let d = with_day(d, f.day, date_ok, added);
        let d = with_dst(
            d,
            f.dst,
            if counting {
                f.dst_announce
            } else {
                uncounted(f.dst_announce)
            },
            added,
        );
        with_leap_second(
            d,
            if counting {
                f.leap_announce
            } else {
                uncounted(f.leap_announce)
            },
            self.spec_next_minute_length(),
        )
    }

    /// Whether the aggregate restarts all its counts on the frame `f`: it
    /// holds minute 0, and the DST value and both announcements are known.
    pub open spec fn spec_at_hour(f: MinuteFields, handed: RadioDateTimeUtils) -> bool {
        minute_of(handed) == Some(0u8) && f.dst is Some && f.dst_announce is Some
            && f.leap_announce is Some
    }

    /// Decode the time broadcast during the last minute and clear `first_minute` when appropriate.
    ///
    /// Nothing happens unless the frame is complete. Then the date and time
    /// of the aggregate advance by a minute (after the first decoded minute)
    /// and each field of the frame is handed to it, valid where its parity
    /// checks out, or, under strict checks, only where the whole frame checks
    /// out. The frame's diagnostics are kept, and `leap_second_is_one` tells
    /// bit 59 of a minute with a processed leap second. `first_minute` clears
    /// once bits 0 and 20 hold their fixed values and the aggregate holds a
    /// complete date and time, with or without strict checks.
    ///
    /// Two things keep the aggregate from panicking. Its date does not advance
    /// where its `add_minute` would panic (the end of a February day above 29,
    /// which an earlier frame can leave behind). And its counts of
    /// announcements and minutes live in a `u8`: once `FRAMES_PER_VOTE`
    /// complete frames have passed without the top of an hour, announcements
    /// are handed over as `Some(false)`, uncounted, and the minute count is
    /// bumped only at minute 0, until a frame at the top of the hour restarts
    /// the counts.
    ///
    /// This method must be called _before_ `increase_second()` in LogFile mode
    /// and _after_ `increase_second()` in Live mode.
    ///
    /// # Arguments
    /// * `strict_checks` - checks all parities, DST validity, bit 0, and bit 20 when setting
    ///                     date/time
    pub fn decode_time(&mut self, strict_checks: bool)
        requires
            old(self).wf(),
        ensures
            final(self).wf(),
            !old(self).spec_minute_complete() ==> *final(self) == *old(self),
            old(self).spec_minute_complete() ==> {
                let f = minute_fields(old(self).bit_buffer@);
                let handed = old(self).spec_handed_over(f, strict_checks);
                let counting = old(self).frames_since_hour < FRAMES_PER_VOTE;
                &&& final(self).leap_second_is_one == if leap_flag(
                    leap_second_of(final(self).radio_datetime),
                    LEAP_PROCESSED,
                ) {
                    Some(f.bit_59 == Some(true))
                } else {
                    None
                }
                &&& final(self).first_minute == (old(self).first_minute && !(f.spec_fixed_bits_ok()
                    && valid_of(final(self).radio_datetime)))
                &&& *final(self) == (DCF77Utils {
                    radio_datetime: if counting || minute_of(handed) == Some(0u8) {
                        bumped(handed)
                    } else {
                        handed
                    },
                    frames_since_hour: if Self::spec_at_hour(f, handed) {
                        0
                    } else if counting {
                        (old(self).frames_since_hour + 1) as u8
                    } else {
                        old(self).frames_since_hour
                    },
                    first_minute: final(self).first_minute,
                    leap_second_is_one: final(self).leap_second_is_one,
                    parity_1: f.parity_1,
                    parity_2: f.parity_2,
                    parity_3: f.parity_3,
                    bit_0: f.bit_0,
                    third_party: f.third_party,
                    call_bit: f.call_bit,
                    bit_20: f.bit_20,
                    ..*old(self)
                })
            },
    {
        let minute_length = self.get_next_minute_length();
        let last_second = match self.decode_type {
            DecodeType::Live => self.old_second,
            DecodeType::LogFile => self.second,
        };
        if last_second + 1 != minute_length {
            return;
        }
        self.radio_datetime.clear_jumps();
        // compare against the previous minute, advanced, to detect jumps
        let added_minute = if !self.first_minute && can_add_minute(&self.radio_datetime) {
            self.radio_datetime.add_minute()
        } else {
            false
        };
        let fields = MinuteFields::from_frame(&self.bit_buffer);
        self.bit_0 = fields.bit_0;
        self.third_party = fields.third_party;
        self.call_bit = fields.call_bit;
        self.bit_20 = fields.bit_20;
        self.parity_1 = fields.parity_1;
        self.parity_2 = fields.parity_2;
        self.parity_3 = fields.parity_3;

        let (minute_ok, hour_ok, date_ok) = fields.validity(strict_checks);
        self.radio_datetime.set_minute(fields.minute, minute_ok, added_minute);
        self.radio_datetime.set_hour(fields.hour, hour_ok, added_minute);
        self.radio_datetime.set_weekday(fields.weekday, date_ok, added_minute);
        self.radio_datetime.set_month(fields.month, date_ok, added_minute);
        self.radio_datetime.set_year(fields.year, date_ok, added_minute);
        self.radio_datetime.set_day(fields.day, date_ok, added_minute);

        // the aggregate's counts live in a u8: after two hours without the top
        // of an hour, hand announcements over without counting them
        let counting = self.frames_since_hour < FRAMES_PER_VOTE;
        let (dst_announce, leap_announce) = if counting {
            (fields.dst_announce, fields.leap_announce)
        } else {
            (uncount(fields.dst_announce), uncount(fields.leap_announce))
        };
        self.radio_datetime.set_dst(fields.dst, dst_announce, added_minute);
        self.radio_datetime.set_leap_second(leap_announce, minute_length);

        let minute = self.radio_datetime.get_minute();
        if counting || minute == Some(0u8) {
            self.radio_datetime.bump_minutes_running();
        }
        self.frames_since_hour = if minute == Some(0u8) && fields.dst.is_some()
            && fields.dst_announce.is_some() && fields.leap_announce.is_some() {
            0
        } else if counting {
            self.frames_since_hour + 1
        } else {
            self.frames_since_hour
        };

        self.leap_second_is_one = match self.radio_datetime.get_leap_second() {
            Some(leap) => if leap & LEAP_PROCESSED != 0 {
                Some(fields.bit_59 == Some(true))
            } else {
                None
            },
            None => None,
        };
        if fields.bit_0 == Some(false) && fields.bit_20 == Some(true)
            && self.radio_datetime.is_valid() {
            // allow displaying of information after the first properly decoded minute
            self.first_minute = false;
        }
    }
}

} // verus!
