use dcf77_utils::{
    DCF77Utils, DecodeType, MinuteFields, ACTIVE_LIMIT, BIT_BUFFER_SIZE, FRAMES_PER_VOTE,
    LEAP_ANNOUNCED, LEAP_PROCESSED, SPIKE_LIMIT,
};

/// Bits of `value` in BCD over `len` bits, least significant bit first.
fn bcd(value: u8, len: usize) -> Vec<bool> {
    let mut bits = Vec::new();
    for i in 0..len {
        let digit = if i < 4 { value % 10 } else { value / 10 };
        bits.push((digit >> (i % 4)) & 1 == 1);
    }
    bits
}

/// Even parity bit over `bits`.
fn parity(bits: &[bool]) -> bool {
    bits.iter().filter(|b| **b).count() % 2 == 1
}

/// A complete frame (bits 0 to 58) for the given date and time, with
/// summer time, no announcements and correct parities.
fn frame(minute: u8, hour: u8, weekday: u8, day: u8, month: u8, year: u8) -> Vec<bool> {
    let mut f = vec![false; 17];
    f.extend([true, false, false, true]); // summer time, no leap second, bit 20
    let m = bcd(minute, 7);
    f.extend(&m);
    f.push(parity(&m));
    let h = bcd(hour, 6);
    f.extend(&h);
    f.push(parity(&h));
    let mut date = bcd(day, 6);
    date.extend(bcd(weekday, 3));
    date.extend(bcd(month, 5));
    date.extend(bcd(year, 8));
    f.extend(&date);
    f.push(parity(&date));
    assert_eq!(f.len(), 59);
    f
}

fn buffer_of(bits: &[bool]) -> [Option<bool>; 62] {
    let mut buffer = [None; 62];
    for (i, b) in bits.iter().enumerate() {
        buffer[i] = Some(*b);
    }
    buffer
}

fn decoder_with(bits: &[bool]) -> DCF77Utils {
    let mut dcf77 = DCF77Utils::new(DecodeType::LogFile);
    for (i, b) in bits.iter().enumerate() {
        dcf77.bit_buffer[i] = Some(*b);
    }
    dcf77.second = 59;
    dcf77
}

#[test]
fn end_to_end_minute_46() {
    let mut dcf77 = decoder_with(&frame(46, 16, 6, 22, 10, 22));
    dcf77.decode_time(false);
    let dt = dcf77.get_radio_datetime();
    assert_eq!(dt.get_minute(), Some(46));
    assert_eq!(dt.get_hour(), Some(16));
    assert_eq!(dt.get_weekday(), Some(6));
    assert_eq!(dt.get_day(), Some(22));
    assert_eq!(dt.get_month(), Some(10));
    assert_eq!(dt.get_year(), Some(22));
    assert_eq!(dt.get_dst(), Some(radio_datetime_utils::DST_SUMMER));
    assert_eq!(dcf77.get_parity_1(), Some(false));
    assert_eq!(dcf77.get_parity_2(), Some(false));
    assert_eq!(dcf77.get_parity_3(), Some(false));
    assert_eq!(dcf77.get_leap_second_is_one(), None);
    assert_eq!(dcf77.get_first_minute(), false);
    assert_eq!(dcf77.get_third_party_buffer(), Some(0));
}

#[test]
fn end_to_end_minute_46_strict() {
    let mut dcf77 = decoder_with(&frame(46, 16, 6, 22, 10, 22));
    dcf77.decode_time(true);
    let dt = dcf77.get_radio_datetime();
    assert_eq!(dt.get_minute(), Some(46));
    assert_eq!(dt.get_year(), Some(22));
    assert_eq!(dcf77.get_first_minute(), false);
}

#[test]
fn bcd_round_trip_through_frame() {
    for minute in 0..60u8 {
        let f = MinuteFields::from_frame(&buffer_of(&frame(minute, 0, 1, 1, 1, 0)));
        assert_eq!(f.minute, Some(minute));
        assert_eq!(f.parity_1, Some(false));
    }
    for hour in 0..24u8 {
        let f = MinuteFields::from_frame(&buffer_of(&frame(0, hour, 1, 1, 1, 0)));
        assert_eq!(f.hour, Some(hour));
        assert_eq!(f.parity_2, Some(false));
    }
    for year in 0..100u8 {
        let f = MinuteFields::from_frame(&buffer_of(&frame(0, 0, 7, 31, 12, year)));
        assert_eq!(f.year, Some(year));
        assert_eq!(f.day, Some(31));
        assert_eq!(f.month, Some(12));
        assert_eq!(f.weekday, Some(7));
        assert_eq!(f.parity_3, Some(false));
    }
}

#[test]
fn bcd_digit_above_nine_is_none() {
    let mut bits = frame(0, 0, 1, 1, 1, 0);
    // units of the minute: 0b1010 = 10
    bits[22] = true;
    bits[24] = true;
    let f = MinuteFields::from_frame(&buffer_of(&bits));
    assert_eq!(f.minute, None);
}

#[test]
fn single_flipped_bit_breaks_parity() {
    let bits = frame(46, 16, 6, 22, 10, 22);
    for k in 21..=58 {
        let mut flipped = buffer_of(&bits);
        flipped[k] = Some(!bits[k]);
        let mut lost = buffer_of(&bits);
        lost[k] = None;
        let f = MinuteFields::from_frame(&flipped);
        let g = MinuteFields::from_frame(&lost);
        if k <= 28 {
            assert_eq!(f.parity_1, Some(true));
            assert_eq!(g.parity_1, None);
            assert_eq!(f.parity_2, Some(false));
        } else if k <= 35 {
            assert_eq!(f.parity_2, Some(true));
            assert_eq!(g.parity_2, None);
            assert_eq!(f.parity_3, Some(false));
        } else {
            assert_eq!(f.parity_3, Some(true));
            assert_eq!(g.parity_3, None);
            assert_eq!(f.parity_1, Some(false));
        }
    }
}

#[test]
fn dst_needs_two_differing_bits() {
    let bits = frame(46, 16, 6, 22, 10, 22);
    let cases = [
        (Some(true), Some(false), Some(true)),
        (Some(false), Some(true), Some(false)),
        (Some(true), Some(true), None),
        (Some(false), Some(false), None),
        (None, Some(false), None),
        (Some(true), None, None),
        (None, None, None),
    ];
    for (b17, b18, dst) in cases {
        let mut buffer = buffer_of(&bits);
        buffer[17] = b17;
        buffer[18] = b18;
        let f = MinuteFields::from_frame(&buffer);
        assert_eq!(f.dst, dst);
        assert_eq!(f.strict_ok(), dst.is_some());
    }
}

#[test]
fn strict_ok_needs_fixed_bits() {
    let bits = frame(46, 16, 6, 22, 10, 22);
    let mut buffer = buffer_of(&bits);
    assert!(MinuteFields::from_frame(&buffer).strict_ok());
    buffer[0] = Some(true);
    assert!(!MinuteFields::from_frame(&buffer).strict_ok());
    let mut buffer = buffer_of(&bits);
    buffer[20] = Some(false);
    assert!(!MinuteFields::from_frame(&buffer).strict_ok());
}

#[test]
fn bad_bit_20_keeps_first_minute() {
    let mut bits = frame(46, 16, 6, 22, 10, 22);
    bits[20] = false;
    let mut dcf77 = decoder_with(&bits);
    dcf77.decode_time(false);
    assert_eq!(dcf77.get_bit_20(), Some(false));
    assert_eq!(dcf77.get_first_minute(), true);
    assert_eq!(dcf77.get_radio_datetime().get_minute(), Some(46));
}

#[test]
fn leap_second_bit_zero() {
    let mut dcf77 = decoder_with(&frame(59, 16, 6, 22, 10, 22));
    dcf77.bit_buffer[19] = Some(true);
    dcf77.decode_time(false);
    assert_eq!(dcf77.get_this_minute_length(), 60);
    assert_eq!(dcf77.get_next_minute_length(), 61);
    let bits = frame(0, 17, 6, 22, 10, 22);
    for (i, b) in bits.iter().enumerate() {
        dcf77.bit_buffer[i] = Some(*b);
    }
    dcf77.bit_buffer[59] = Some(false);
    dcf77.second = 60;
    dcf77.decode_time(false);
    assert_eq!(
        dcf77.get_radio_datetime().get_leap_second(),
        Some(radio_datetime_utils::LEAP_PROCESSED)
    );
    assert_eq!(dcf77.get_this_minute_length(), 61);
    assert_eq!(dcf77.get_leap_second_is_one(), Some(false));
}

#[test]
fn incomplete_log_minute_changes_nothing() {
    let mut dcf77 = decoder_with(&frame(46, 16, 6, 22, 10, 22));
    dcf77.second = 58;
    dcf77.decode_time(false);
    assert_eq!(dcf77.get_parity_1(), None);
    assert_eq!(dcf77.get_radio_datetime().get_minute(), None);
    assert_eq!(dcf77.get_first_minute(), true);
}

#[test]
fn missed_marker_wraps_once_per_minute() {
    let mut dcf77 = DCF77Utils::new(DecodeType::Live);
    let mut wraps = 0;
    for call in 1..=60u8 {
        let regular = dcf77.increase_second();
        assert!(dcf77.get_second() < dcf77.get_next_minute_length());
        if regular {
            assert_eq!(dcf77.get_second(), call);
            assert_eq!(dcf77.get_old_second(), call - 1);
        } else {
            wraps += 1;
            assert_eq!(call, 60);
            assert_eq!(dcf77.get_second(), 0);
        }
    }
    assert_eq!(wraps, 1);
}

#[test]
fn force_new_minute_resets_second() {
    let mut dcf77 = DCF77Utils::new(DecodeType::LogFile);
    dcf77.second = 12;
    dcf77.force_new_minute();
    assert!(dcf77.get_new_minute());
    assert!(dcf77.increase_second());
    assert_eq!(dcf77.get_second(), 0);
}

#[test]
fn set_current_bit_clears_new_minute() {
    let mut dcf77 = DCF77Utils::new(DecodeType::LogFile);
    dcf77.second = 5;
    dcf77.force_new_minute();
    dcf77.set_current_bit(Some(true));
    assert_eq!(dcf77.get_current_bit(), Some(true));
    assert_eq!(dcf77.bit_buffer[5], Some(true));
    assert!(!dcf77.get_new_minute());
}

#[test]
fn spike_limit_range() {
    let mut dcf77 = DCF77Utils::new(DecodeType::Live);
    assert_eq!(dcf77.get_spike_limit(), SPIKE_LIMIT);
    dcf77.set_spike_limit(0);
    assert_eq!(dcf77.get_spike_limit(), 0);
    dcf77.set_spike_limit(ACTIVE_LIMIT - 1);
    assert_eq!(dcf77.get_spike_limit(), ACTIVE_LIMIT - 1);
    dcf77.set_spike_limit(ACTIVE_LIMIT);
    assert_eq!(dcf77.get_spike_limit(), ACTIVE_LIMIT - 1);
}

#[test]
fn spike_moves_reference_by_its_length() {
    let mut dcf77 = DCF77Utils::new(DecodeType::Live);
    dcf77.handle_new_edge(false, 1_000_000);
    dcf77.handle_new_edge(true, 1_100_000);
    assert_eq!(dcf77.get_current_bit(), Some(false));
    dcf77.handle_new_edge(false, 1_100_000 + SPIKE_LIMIT - 1);
    assert_eq!(dcf77.t0, 1_100_000 + SPIKE_LIMIT - 1);
    assert_eq!(dcf77.get_current_bit(), Some(false));
    assert!(!dcf77.get_new_second());
    assert!(!dcf77.get_new_minute());
}

#[test]
fn spike_across_counter_wrap() {
    let mut dcf77 = DCF77Utils::new(DecodeType::Live);
    dcf77.handle_new_edge(true, u32::MAX - 4);
    dcf77.handle_new_edge(false, 5);
    assert_eq!(dcf77.t0, 5);
    assert!(!dcf77.get_new_second());
}

#[test]
fn edge_classes_at_limits() {
    let cases = [
        (SPIKE_LIMIT, Some(false)),
        (ACTIVE_LIMIT - 1, Some(false)),
        (ACTIVE_LIMIT, Some(true)),
        (249_999, Some(true)),
        (250_000, None),
    ];
    for (delta, bit) in cases {
        let mut dcf77 = DCF77Utils::new(DecodeType::Live);
        dcf77.handle_new_edge(false, 4_000_000_000);
        dcf77.handle_new_edge(true, 4_000_000_000u32.wrapping_add(delta));
        assert_eq!(dcf77.get_current_bit(), bit, "delta {}", delta);
        assert!(!dcf77.get_new_second());
    }
}

#[test]
fn passive_part_across_counter_wrap() {
    let mut dcf77 = DCF77Utils::new(DecodeType::Live);
    dcf77.handle_new_edge(true, u32::MAX - 99_999);
    // 1_600_000 us later, past the wrap: a minute marker
    dcf77.handle_new_edge(false, 1_500_000);
    assert_eq!(dcf77.t0, 1_500_000);
    assert!(dcf77.get_new_second());
    assert!(dcf77.get_new_minute());
}

#[test]
fn passive_runaway_at_limit() {
    let mut dcf77 = DCF77Utils::new(DecodeType::Live);
    dcf77.bit_buffer[0] = Some(true);
    dcf77.handle_new_edge(true, 0);
    dcf77.handle_new_edge(false, 2_500_000);
    assert_eq!(dcf77.get_current_bit(), None);
    assert!(!dcf77.get_new_second());
    assert!(!dcf77.get_new_minute());
}

#[test]
fn binary_value_empty_range_and_none() {
    let buffer = [Some(true), None, Some(true)];
    assert_eq!(dcf77_utils::dcf77_helpers::get_binary_value(&buffer, 1, 0), Some(0));
    assert_eq!(dcf77_utils::dcf77_helpers::get_binary_value(&buffer, 0, 0), Some(1));
    assert_eq!(dcf77_utils::dcf77_helpers::get_binary_value(&buffer, 2, 2), Some(1));
    assert_eq!(dcf77_utils::dcf77_helpers::get_binary_value(&buffer, 0, 2), None);
}

#[test]
fn add_minute_advances_complete_time() {
    let mut dcf77 = decoder_with(&frame(59, 23, 6, 22, 10, 22));
    assert!(!dcf77.add_minute());
    dcf77.decode_time(false);
    assert!(dcf77.add_minute());
    let dt = dcf77.get_radio_datetime();
    assert_eq!(dt.get_minute(), Some(0));
    assert_eq!(dt.get_hour(), Some(0));
    assert_eq!(dt.get_day(), Some(23));
    assert_eq!(dt.get_weekday(), Some(7));
}

#[test]
fn validity_by_parity_or_strict() {
    let bits = frame(46, 16, 6, 22, 10, 22);
    let mut buffer = buffer_of(&bits);
    buffer[26] = Some(!bits[26]);
    let f = MinuteFields::from_frame(&buffer);
    assert_eq!(f.validity(false), (false, true, true));
    assert_eq!(f.validity(true), (false, false, false));
    let g = MinuteFields::from_frame(&buffer_of(&bits));
    assert_eq!(g.validity(false), (true, true, true));
    assert_eq!(g.validity(true), (true, true, true));
}

#[test]
fn constants_match_the_aggregate() {
    assert_eq!(BIT_BUFFER_SIZE, radio_datetime_utils::BIT_BUFFER_SIZE);
    assert_eq!(LEAP_ANNOUNCED, radio_datetime_utils::LEAP_ANNOUNCED);
    assert_eq!(LEAP_PROCESSED, radio_datetime_utils::LEAP_PROCESSED);
}

#[test]
fn strict_first_minute_needs_only_fixed_bits() {
    let mut bits = frame(46, 16, 6, 22, 10, 22);
    bits[26] = !bits[26]; // bad minute parity
    let mut dcf77 = decoder_with(&bits);
    // a complete date and time from an earlier, relaxed decoding
    let good = frame(46, 16, 6, 22, 10, 22);
    for (i, b) in good.iter().enumerate() {
        dcf77.bit_buffer[i] = Some(*b);
    }
    dcf77.first_minute = true;
    dcf77.decode_time(false);
    dcf77.first_minute = true;
    for (i, b) in bits.iter().enumerate() {
        dcf77.bit_buffer[i] = Some(*b);
    }
    dcf77.decode_time(true);
    assert_eq!(dcf77.get_parity_1(), Some(true));
    assert!(dcf77.get_radio_datetime().is_valid());
    assert_eq!(dcf77.get_first_minute(), false);
}

#[test]
fn second_past_shorter_minute_wraps() {
    let mut dcf77 = DCF77Utils::new(DecodeType::LogFile);
    dcf77.second = 60;
    assert_eq!(dcf77.get_next_minute_length(), 60);
    assert_eq!(dcf77.increase_second(), false);
    assert_eq!(dcf77.get_second(), 0);
    assert_eq!(dcf77.get_old_second(), 60);
}

#[test]
fn february_day_above_29_is_not_advanced() {
    let mut dcf77 = decoder_with(&frame(58, 23, 1, 31, 1, 22));
    dcf77.decode_time(false);
    assert_eq!(dcf77.get_first_minute(), false);
    let bits = frame(59, 23, 1, 30, 2, 22);
    for (i, b) in bits.iter().enumerate() {
        dcf77.bit_buffer[i] = Some(*b);
    }
    dcf77.decode_time(false);
    let dt = dcf77.get_radio_datetime();
    assert_eq!(dt.get_month(), Some(2));
    assert_eq!(dt.get_day(), Some(31));
    assert_eq!(dt.get_minute(), Some(59));
    // advancing 23:59 on "February 31" would need the last day of the month
    assert!(!dcf77.add_minute());
    dcf77.decode_time(false);
    assert_eq!(dcf77.get_radio_datetime().get_minute(), Some(59));
}

#[test]
fn many_undecodable_minutes() {
    let mut dcf77 = DCF77Utils::new(DecodeType::LogFile);
    for i in 0..60 {
        dcf77.bit_buffer[i] = Some(true);
    }
    dcf77.second = 59;
    for _ in 0..600 {
        dcf77.decode_time(false);
    }
    assert_eq!(dcf77.frames_since_hour, FRAMES_PER_VOTE);
    assert_eq!(dcf77.get_radio_datetime().get_minute(), None);
    assert_eq!(dcf77.get_first_minute(), true);
}

#[test]
fn top_of_hour_restarts_frame_count() {
    let mut dcf77 = decoder_with(&frame(58, 16, 6, 22, 10, 22));
    dcf77.decode_time(false);
    assert_eq!(dcf77.frames_since_hour, 1);
    let bits = frame(0, 17, 6, 22, 10, 22);
    for (i, b) in bits.iter().enumerate() {
        dcf77.bit_buffer[i] = Some(*b);
    }
    dcf77.decode_time(false);
    assert_eq!(dcf77.get_radio_datetime().get_minute(), Some(0));
    assert_eq!(dcf77.frames_since_hour, 0);
}

#[test]
fn february_day_above_29_advances_within_the_day() {
    let mut dcf77 = decoder_with(&frame(58, 11, 7, 30, 1, 22));
    dcf77.decode_time(false);
    let bits = frame(59, 11, 7, 30, 2, 22);
    for (i, b) in bits.iter().enumerate() {
        dcf77.bit_buffer[i] = Some(*b);
    }
    dcf77.decode_time(false);
    let dt = dcf77.get_radio_datetime();
    assert_eq!(dt.get_month(), Some(2));
    assert_eq!(dt.get_day(), Some(30));
    assert!(dcf77.add_minute());
    let dt = dcf77.get_radio_datetime();
    assert_eq!(dt.get_minute(), Some(0));
    assert_eq!(dt.get_hour(), Some(12));
    assert_eq!(dt.get_day(), Some(30));
}

#[test]
fn dst_constants_match_the_aggregate() {
    assert_eq!(dcf77_utils::DST_ANNOUNCED, radio_datetime_utils::DST_ANNOUNCED);
    assert_eq!(dcf77_utils::DST_SUMMER, radio_datetime_utils::DST_SUMMER);
}
