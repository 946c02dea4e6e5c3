//! Laws of the decoder, stated over the spec functions that its contracts use.
use crate::dcf77_helpers::{
    all_known, bcd_digits, bcd_value, bits_value, known_bits, odd_ones, parity_value,
};
use crate::frame::{field, minute_fields};
use crate::second_step;
use vstd::arithmetic::div_mod::lemma_breakdown;
use vstd::arithmetic::power2::{lemma2_to64, lemma_pow2_unfold, pow2};
use vstd::prelude::*;

verus! {

/// Bit `i` of the binary representation of `d`.
pub open spec fn digit_bit(d: nat, i: int) -> bool {
    (d / pow2(i as nat)) % 2 == 1
}

/// The two-digit value `v` in BCD over `len` bits, least significant bit
/// first: the units digit in the first four bits, the tens digit above them.
pub open spec fn bcd_bits(v: nat, len: nat) -> Seq<Option<bool>> {
    Seq::new(
        len,
        |i: int|
            Some(
                if i < 4 {
                    digit_bit(v % 10, i)
                } else {
                    digit_bit(v / 10, i - 4)
                },
            ),
    )
}

/// The first `n` bits of `d`, read back, give `d` modulo `2^n`.
proof fn lemma_bits_of_value(d: nat, n: nat)
    ensures
        bits_value(Seq::new(n, |i: int| digit_bit(d, i))) == d % pow2(n),
    decreases n,
{
    let s = Seq::new(n, |i: int| digit_bit(d, i));
    if n == 0 {
        lemma2_to64();
    } else {
        let m = (n - 1) as nat;
        assert(s.drop_last() =~= Seq::new(m, |i: int| digit_bit(d, i)));
        lemma_bits_of_value(d, m);
        lemma_pow2_unfold(n);
        vstd::arithmetic::power2::lemma_pow2_pos(m);
        lemma_breakdown(d as int, pow2(m) as int, 2);
        assert(pow2(m) * 2 == pow2(n));
    }
}

/// Decoding the BCD bits of a two-digit value gives the value back, for a
/// field of five to eight bits that is wide enough for its tens digit.
pub proof fn lemma_bcd_round_trip(v: nat, len: nat)
    requires
        4 < len <= 8,
        v <= 99,
        v / 10 < pow2((len - 4) as nat),
    ensures
        bcd_value(bcd_bits(v, len)) == Some(v),
{
    let s = bcd_bits(v, len);
    let b = known_bits(s);
    let units = Seq::new(4, |i: int| digit_bit(v % 10, i));
    let tens = Seq::new((len - 4) as nat, |i: int| digit_bit(v / 10, i));
    assert(all_known(s));
    assert(b.take(4) =~= units);
    assert(b.skip(4) =~= tens);
    lemma2_to64();
    lemma_bits_of_value(v % 10, 4);
    lemma_bits_of_value(v / 10, (len - 4) as nat);
    vstd::arithmetic::div_mod::lemma_small_mod(v % 10, 16);
    vstd::arithmetic::div_mod::lemma_small_mod(v / 10, pow2((len - 4) as nat));
    assert(bits_value(units) == v % 10);
    assert(bits_value(tens) == v / 10);
    if tens.len() == 4 {
        assert(tens.take(4) =~= tens);
        assert(bcd_digits(tens.skip(4)) == Some(0nat));
    }
    assert(bcd_digits(tens) == Some(v / 10));
}

/// Whether the ones of a sequence are odd flips with any one of its bits.
proof fn lemma_odd_ones_flip(s: Seq<bool>, i: int)
    requires
        0 <= i < s.len(),
    ensures
        odd_ones(s.update(i, !s[i])) == !odd_ones(s),
    decreases s.len(),
{
    let t = s.update(i, !s[i]);
    if i < s.len() - 1 {
        assert(t.drop_last() =~= s.drop_last().update(i, !s[i]));
        lemma_odd_ones_flip(s.drop_last(), i);
    } else {
        assert(t.drop_last() =~= s.drop_last());
    }
}

/// Flipping a known bit of a checked range turns a good parity bad, and
/// losing a bit of it makes the parity unknown.
proof fn lemma_parity_value_flip(s: Seq<Option<bool>>, p: Option<bool>, i: int)
    requires
        0 <= i < s.len(),
        parity_value(s, p) == Some(false),
    ensures
        parity_value(s.update(i, Some(!(s[i]->0))), p) == Some(true),
        parity_value(s.update(i, None), p) is None,
{
    let t = s.update(i, Some(!(s[i]->0)));
    assert(known_bits(t) =~= known_bits(s).update(i, !known_bits(s)[i]));
    lemma_odd_ones_flip(known_bits(s), i);
    assert(all_known(t));
    assert(s.update(i, None)[i] is None);
}

/// A frame's parity over `start..=stop` with parity bit `at`, as the decoder checks it.
pub open spec fn group_parity(buf: Seq<Option<bool>>, start: int, stop: int, at: int) -> Option<bool> {
    parity_value(field(buf, start, stop), buf[at])
}

/// One parity group of a frame: a flipped bit among its data bits or its
/// parity bit turns a good parity bad, and an unknown one makes it unknown.
proof fn lemma_group_flip(buf: Seq<Option<bool>>, start: int, stop: int, at: int, k: int)
    requires
        0 <= start <= stop,
        at == stop + 1 < buf.len(),
        start <= k <= at,
        buf[k] is Some,
        group_parity(buf, start, stop, at) == Some(false),
    ensures
        group_parity(buf.update(k, Some(!(buf[k]->0))), start, stop, at) == Some(true),
        group_parity(buf.update(k, None), start, stop, at) is None,
{
    let flipped = buf.update(k, Some(!(buf[k]->0)));
    let lost = buf.update(k, None);
    let s = field(buf, start, stop);
    if k <= stop {
        assert(field(flipped, start, stop) =~= s.update(k - start, Some(!(s[k - start]->0))));
        assert(field(lost, start, stop) =~= s.update(k - start, None));
        assert(flipped[at] == buf[at] && lost[at] == buf[at]);
        lemma_parity_value_flip(s, buf[at], k - start);
    } else {
        assert(field(flipped, start, stop) =~= s);
        assert(field(lost, start, stop) =~= s);
        assert(flipped[at] == Some(!(buf[at]->0)));
        assert(lost[at] is None);
    }
}

/// Flipping any known bit of a parity-checked group of a frame (its data
/// bits or its parity bit) turns that group's good parity bad, and making
/// such a bit unknown makes the parity unknown.
pub proof fn lemma_parity_detects_single_bit(buf: Seq<Option<bool>>, k: int)
    requires
        buf.len() >= 60,
        21 <= k <= 58,
        buf[k] is Some,
    ensures
        21 <= k <= 28 && minute_fields(buf).parity_1 == Some(false) ==> {
            &&& minute_fields(buf.update(k, Some(!(buf[k]->0)))).parity_1 == Some(true)
            &&& minute_fields(buf.update(k, None)).parity_1 is None
        },
        29 <= k <= 35 && minute_fields(buf).parity_2 == Some(false) ==> {
            &&& minute_fields(buf.update(k, Some(!(buf[k]->0)))).parity_2 == Some(true)
            &&& minute_fields(buf.update(k, None)).parity_2 is None
        },
        36 <= k <= 58 && minute_fields(buf).parity_3 == Some(false) ==> {
            &&& minute_fields(buf.update(k, Some(!(buf[k]->0)))).parity_3 == Some(true)
            &&& minute_fields(buf.update(k, None)).parity_3 is None
        },
{
    if 21 <= k <= 28 && minute_fields(buf).parity_1 == Some(false) {
        lemma_group_flip(buf, 21, 27, 28, k);
    }
    if 29 <= k <= 35 && minute_fields(buf).parity_2 == Some(false) {
        lemma_group_flip(buf, 29, 34, 35, k);
    }
    if 36 <= k <= 58 && minute_fields(buf).parity_3 == Some(false) {
        lemma_group_flip(buf, 36, 57, 58, k);
    }
}

/// The second counter and the number of forced wraps after `n` advances from
/// second 0 through minutes of `minute_length` seconds, with no minute marker.
pub open spec fn seconds_without_marker(minute_length: u8, n: nat) -> (u8, nat)
    decreases n,
{
    if n == 0 {
        (0, 0)
    } else {
        let (second, wraps) = seconds_without_marker(minute_length, (n - 1) as nat);
        let (next, regular) = second_step(second, false, minute_length);
        (next, if regular {
            wraps
        } else {
            wraps + 1
        })
    }
}

/// An advance never leaves the second counter at or beyond the minute's
/// length, wherever the counter stood before.
pub proof fn lemma_second_stays_in_minute(second: u8, new_minute: bool, minute_length: u8)
    requires
        0 < minute_length <= 61,
    ensures
        second_step(second, new_minute, minute_length).0 < minute_length,
{
}

/// Without a minute marker, the counter runs from 0 through the minute's
/// seconds, and the advance that completes the minute forces it back to 0:
/// the only forced wrap among those advances.
pub proof fn lemma_missed_marker_wraps_once(minute_length: u8, n: nat)
    requires
        minute_length == 60 || minute_length == 61,
        n <= minute_length,
    ensures
        seconds_without_marker(minute_length, n) == if n < minute_length {
            (n as u8, 0nat)
        } else {
            (0u8, 1nat)
        },
    decreases n,
{
    if n > 0 {
        lemma_missed_marker_wraps_once(minute_length, (n - 1) as nat);
    }
}

} // verus!
