//! The fields of one DCF77 frame: the bits of a received minute, read as
//! flags, BCD numbers and parity checks.
use crate::dcf77_helpers::{
    bcd_value, binary_value, get_binary_value, known_bits, lemma_bcd_two_digits, parity_value,
};
use radio_datetime_utils::radio_datetime_helpers;
use vstd::prelude::*;

verus! {

/// The bits `start..=stop` of the frame `buf`.
pub open spec fn field(buf: Seq<Option<bool>>, start: int, stop: int) -> Seq<Option<bool>> {
    buf.subrange(start, stop + 1)
}

/// The BCD value of the bits `start..=stop` of the frame `buf`.
pub open spec fn bcd_field(buf: Seq<Option<bool>>, start: int, stop: int) -> Option<u8> {
    match bcd_value(field(buf, start, stop)) {
        Some(v) => Some(v as u8),
        None => None,
    }
}

/// The daylight-saving state told by bits 17 and 18, which must be known and
/// differ: it is bit 17 then, and unknown otherwise.
pub open spec fn dst_value(bit_17: Option<bool>, bit_18: Option<bool>) -> Option<bool> {
    if bit_17 is Some && bit_18 is Some && bit_17 != bit_18 {
        bit_17
    } else {
        None
    }
}

/// The fields that the DCF77 frame `buf` carries.
pub open spec fn minute_fields(buf: Seq<Option<bool>>) -> MinuteFields {
    MinuteFields {
        bit_0: buf[0],
        third_party: match binary_value(field(buf, 1, 14)) {
            Some(v) => Some(v as u16),
            None => None,
        },
        call_bit: buf[15],
        dst_announce: buf[16],
        dst: dst_value(buf[17], buf[18]),
        leap_announce: buf[19],
        bit_20: buf[20],
        minute: bcd_field(buf, 21, 27),
        parity_1: parity_value(field(buf, 21, 27), buf[28]),
        hour: bcd_field(buf, 29, 34),
        parity_2: parity_value(field(buf, 29, 34), buf[35]),
        day: bcd_field(buf, 36, 41),
        weekday: bcd_field(buf, 42, 44),
        month: bcd_field(buf, 45, 49),
        year: bcd_field(buf, 50, 57),
        parity_3: parity_value(field(buf, 36, 57), buf[58]),
        bit_59: buf[59],
    }
}

/// The fields of one received minute, as its bit frame carries them. Each is
/// `None` where a bit it depends on is unknown (or a BCD digit is invalid);
/// a parity is `Some(false)` where it checks out.
#[derive(Clone, Copy, Debug, PartialEq, Eq)]
pub struct MinuteFields {
    /// bit 0, always 0
    pub bit_0: Option<bool>,
    /// bits 1 to 14, least significant bit first
    pub third_party: Option<u16>,
    /// bit 15
    pub call_bit: Option<bool>,
    /// bit 16, a change of daylight-saving time is announced
    pub dst_announce: Option<bool>,
    /// bits 17 and 18, daylight-saving time is in effect
    pub dst: Option<bool>,
    /// bit 19, a leap second is announced
    pub leap_announce: Option<bool>,
    /// bit 20, always 1
    pub bit_20: Option<bool>,
    /// bits 21 to 27
    pub minute: Option<u8>,
    /// bits 21 to 27 with parity bit 28
    pub parity_1: Option<bool>,
    /// bits 29 to 34
    pub hour: Option<u8>,
    /// bits 29 to 34 with parity bit 35
    pub parity_2: Option<bool>,
    /// bits 36 to 41
    pub day: Option<u8>,
    /// bits 42 to 44
    pub weekday: Option<u8>,
    /// bits 45 to 49
    pub month: Option<u8>,
    /// bits 50 to 57
    pub year: Option<u8>,
    /// bits 36 to 57 with parity bit 58
    pub parity_3: Option<bool>,
    /// bit 59, the inserted second of a minute with a leap second
    pub bit_59: Option<bool>,
}

impl MinuteFields {
    /// All parities check out, bits 0 and 20 have their fixed values, and the
    /// daylight-saving state is known.
    pub open spec fn spec_strict_ok(&self) -> bool {
        &&& self.parity_1 == Some(false)
        &&& self.parity_2 == Some(false)
        &&& self.parity_3 == Some(false)
        &&& self.bit_0 == Some(false)
        &&& self.bit_20 == Some(true)
        &&& self.dst is Some
    }

    /// Bits 0 and 20 have their fixed values, 0 and 1.
    pub open spec fn spec_fixed_bits_ok(&self) -> bool {
        self.bit_0 == Some(false) && self.bit_20 == Some(true)
    }

    /// Read the fields of a received DCF77 frame. Daylight-saving time is
    /// known only where bits 17 and 18 are both known and differ, and is then
    /// bit 17.
    pub fn from_frame(bit_buffer: &[Option<bool>; 62]) -> (r: MinuteFields)
        ensures
            r == minute_fields(bit_buffer@),
    {
        let bit_17 = bit_buffer[17];
        let bit_18 = bit_buffer[18];
        let dst = if bit_17.is_some() && bit_18.is_some() && bit_17 != bit_18 {
            bit_17
        } else {
            None
        };
        MinuteFields {
            bit_0: bit_buffer[0],
            third_party: get_binary_value(bit_buffer, 1, 14),
            call_bit: bit_buffer[15],
            dst_announce: bit_buffer[16],
            dst,
            leap_announce: bit_buffer[19],
            bit_20: bit_buffer[20],
            minute: bcd_in_frame(bit_buffer, 21, 27),
            parity_1: radio_datetime_helpers::decode_parity(bit_buffer, 21, 27, bit_buffer[28]),
            hour: bcd_in_frame(bit_buffer, 29, 34),
            parity_2: radio_datetime_helpers::decode_parity(bit_buffer, 29, 34, bit_buffer[35]),
            day: bcd_in_frame(bit_buffer, 36, 41),
            weekday: bcd_in_frame(bit_buffer, 42, 44),
            month: bcd_in_frame(bit_buffer, 45, 49),
            year: bcd_in_frame(bit_buffer, 50, 57),
            parity_3: radio_datetime_helpers::decode_parity(bit_buffer, 36, 57, bit_buffer[58]),
            bit_59: bit_buffer[59],
        }
    }

    /// Whether the minute, the hour and the date fields are valid: each by its
    /// own parity, or, under strict checks, all by `spec_strict_ok`.
    pub open spec fn spec_validity(&self, strict_checks: bool) -> (bool, bool, bool) {
        if strict_checks {
            (self.spec_strict_ok(), self.spec_strict_ok(), self.spec_strict_ok())
        } else {
            (self.parity_1 == Some(false), self.parity_2 == Some(false), self.parity_3 == Some(false))
        }
    }

    /// Whether the minute, the hour and the date fields are valid: each by its
    /// own parity, or, under strict checks, all by `strict_ok`.
    pub fn validity(&self, strict_checks: bool) -> (r: (bool, bool, bool))
        ensures
            r == self.spec_validity(strict_checks),
    {
        if strict_checks {
            let ok = self.strict_ok();
            (ok, ok, ok)
        } else {
            (self.parity_1 == Some(false), self.parity_2 == Some(false), self.parity_3 == Some(false))
        }
    }

    /// All parities check out, bits 0 and 20 have their fixed values, and the
    /// daylight-saving state is known.
    pub fn strict_ok(&self) -> (r: bool)
        ensures
            r == self.spec_strict_ok(),
    {
        self.parity_1 == Some(false) && self.parity_2 == Some(false) && self.parity_3 == Some(
            false,
        ) && self.bit_0 == Some(false) && self.bit_20 == Some(true) && self.dst.is_some()
    }
}

/// The BCD value of the bits `start..=stop` (at most eight) of a frame.
fn bcd_in_frame(bit_buffer: &[Option<bool>; 62], start: usize, stop: usize) -> (r: Option<u8>)
    requires
        start <= stop < 62,
        stop - start < 8,
    ensures
        r == bcd_field(bit_buffer@, start as int, stop as int),
{
    proof {
        lemma_bcd_two_digits(known_bits(field(bit_buffer@, start as int, stop as int)));
    }
    match radio_datetime_helpers::decode_bcd(bit_buffer, start, stop) {
        Some(v) => Some(v as u8),
        None => None,
    }
}

} // verus!
