//! Bit-level helpers: values of little-endian bit runs in a buffer of
//! tri-state bits (`None` marks a bit that could not be received).
use vstd::arithmetic::power2::{lemma2_to64, lemma_pow2_strictly_increases, lemma_pow2_unfold, pow2};
use vstd::prelude::*;

verus! {

/// The value of `s` read as a binary number, least significant bit first.
pub open spec fn bits_value(s: Seq<bool>) -> nat
    decreases s.len(),
{
    if s.len() == 0 {
        0
    } else {
        bits_value(s.drop_last()) + if s.last() {
            pow2((s.len() - 1) as nat)
        } else {
            0
        }
    }
}

/// Every bit of `s` was received.
pub open spec fn all_known(s: Seq<Option<bool>>) -> bool {
    forall|i: int| 0 <= i < s.len() ==> s[i] is Some
}

/// The bits of `s`, reading a missing bit as `false`.
pub open spec fn known_bits(s: Seq<Option<bool>>) -> Seq<bool> {
    s.map_values(|b: Option<bool>| b == Some(true))
}

/// The binary value of `s`, least significant bit first, if every bit of it is known.
pub open spec fn binary_value(s: Seq<Option<bool>>) -> Option<nat> {
    if all_known(s) {
        Some(bits_value(known_bits(s)))
    } else {
        None
    }
}

/// The value of `s` read as binary-coded decimal, least significant bit first:
/// each full group of four bits is a decimal digit, and must not exceed 9.
pub open spec fn bcd_digits(s: Seq<bool>) -> Option<nat>
    decreases s.len(),
{
    if s.len() < 4 {
        Some(bits_value(s))
    } else if bits_value(s.take(4)) > 9 {
        None
    } else {
        match bcd_digits(s.skip(4)) {
            Some(high) => Some(bits_value(s.take(4)) + 10 * high),
            None => None,
        }
    }
}

/// The BCD value of `s`, if every bit of it is known and each digit is valid.
pub open spec fn bcd_value(s: Seq<Option<bool>>) -> Option<nat> {
    if all_known(s) {
        bcd_digits(known_bits(s))
    } else {
        None
    }
}

/// Whether `s` holds an odd number of ones.
pub open spec fn odd_ones(s: Seq<bool>) -> bool
    decreases s.len(),
{
    if s.len() == 0 {
        false
    } else {
        odd_ones(s.drop_last()) != s.last()
    }
}

/// The even-parity check of `s` with parity bit `parity`: `Some(false)` when
/// the ones in both together are even, `Some(true)` when they are odd, and
/// `None` when any of them is unknown.
pub open spec fn parity_value(s: Seq<Option<bool>>, parity: Option<bool>) -> Option<bool> {
    match parity {
        Some(p) => if all_known(s) {
            Some(p != odd_ones(known_bits(s)))
        } else {
            None
        },
        None => None,
    }
}

/// A binary number of `n` bits is below `2^n`.
pub proof fn lemma_bits_value_bound(s: Seq<bool>)
    ensures
        bits_value(s) < pow2(s.len()),
    decreases s.len(),
{
    if s.len() > 0 {
        lemma_bits_value_bound(s.drop_last());
        lemma_pow2_unfold(s.len());
    } else {
        lemma2_to64();
    }
}

/// BCD values of at most eight bits have at most two digits.
pub proof fn lemma_bcd_two_digits(s: Seq<bool>)
    requires
        s.len() <= 8,
    ensures
        bcd_digits(s) matches Some(v) ==> v <= 99,
{
    lemma2_to64();
    if s.len() < 4 {
        lemma_bits_value_bound(s);
        if s.len() < 3 {
            lemma_pow2_strictly_increases(s.len(), 3);
        }
    } else {
        let rest = s.skip(4);
        if rest.len() < 4 {
            lemma_bits_value_bound(rest);
            if rest.len() < 3 {
                lemma_pow2_strictly_increases(rest.len(), 3);
            }
            assert(bcd_digits(rest) == Some(bits_value(rest)));
        } else {
            assert(bcd_digits(rest.skip(4)) == Some(0nat));
        }
    }
}

/// Returns the binary value of `bit_buffer[start..=stop]`, least significant bit
/// first, or `None` if any bit in that range is unknown.
pub fn get_binary_value(bit_buffer: &[Option<bool>], start: usize, stop: usize) -> (r: Option<u16>)
    requires
        start <= stop + 1,
        stop < bit_buffer@.len(),
        stop + 1 - start <= 15,
    ensures
        match binary_value(bit_buffer@.subrange(start as int, stop + 1)) {
            Some(v) => r == Some(v as u16),
            None => r is None,
        },
{
    let ghost whole = bit_buffer@.subrange(start as int, stop + 1);
    let mut val: u16 = 0;
    let mut mult: u16 = 1;
    let mut i: usize = start;
    proof {
        lemma2_to64();
    }
    while i <= stop
        invariant
            start <= i <= stop + 1,
            stop < bit_buffer@.len(),
            stop + 1 - start <= 15,
            whole == bit_buffer@.subrange(start as int, stop + 1),
            all_known(bit_buffer@.subrange(start as int, i as int)),
            val == bits_value(known_bits(bit_buffer@.subrange(start as int, i as int))),
            mult == pow2((i - start) as nat),
        decreases stop + 1 - i,
    {
        let ghost done = bit_buffer@.subrange(start as int, i as int);
        let ghost next = bit_buffer@.subrange(start as int, i + 1);
        match bit_buffer[i] {
            None => {
                assert(whole[i - start] is None);
                return None;
            },
            Some(b) => {
                assert(known_bits(next).drop_last() =~= known_bits(done));
                assert(next.drop_last() =~= done);
                proof {
                    lemma_bits_value_bound(known_bits(done));
                    lemma_pow2_unfold((i + 1 - start) as nat);
                    lemma2_to64();
                    if i + 1 - start < 15 {
                        lemma_pow2_strictly_increases((i + 1 - start) as nat, 15);
                    }
                }
                if b {
                    val = val + mult;
                }
                mult = mult * 2;
            },
        }
        i = i + 1;
    }
    assert(bit_buffer@.subrange(start as int, i as int) =~= whole);
    proof {
        lemma_bits_value_bound(known_bits(whole));
    }
    Some(val)
}

} // verus!
