//! Noise readings as integers.
//!
//! A reading is a real number that is not NaN, held as the integer whose order
//! is the order of the reals: the sign-and-magnitude value of the number's
//! 64-bit binary floating-point pattern. Both zeros give 0, a larger number a
//! larger key, so a threshold test is an integer comparison.

use vstd::prelude::*;

verus! {

/// The bit that holds the sign in a 64-bit pattern.
pub const SIGN_BIT: u64 = 0x8000_0000_0000_0000;

/// The largest magnitude that is a number: the pattern of infinity.
pub const MAX_MAGNITUDE: u64 = 0x7FF0_0000_0000_0000;

/// The key of 0.5.
pub const HALF: i64 = 0x3FE0_0000_0000_0000;

/// The key of 1.0.
pub const ONE: i64 = 0x3FF0_0000_0000_0000;

/// The key of 10.0.
pub const TEN: i64 = 0x4024_0000_0000_0000;

/// One sample of a noise field.
#[derive(Clone, Copy, Debug, PartialEq, Eq, Structural)]
pub struct Reading {
    /// The sign-and-magnitude value of the sample's bit pattern.
    pub key: i64,
}

/// The pattern without its sign bit.
pub open spec fn magnitude_of(bits: u64) -> int {
    if bits >= SIGN_BIT {
        bits - SIGN_BIT
    } else {
        bits as int
    }
}

/// Whether a pattern stands for a number: its magnitude is at most that of
/// infinity.
pub open spec fn is_number(bits: u64) -> bool {
    magnitude_of(bits) <= MAX_MAGNITUDE
}

/// The key of a pattern: its magnitude, negated where the sign bit is set.
pub open spec fn key_of(bits: u64) -> int {
    if bits >= SIGN_BIT {
        -magnitude_of(bits)
    } else {
        magnitude_of(bits)
    }
}

impl Reading {
    /// Whether the key is that of some number.
    pub open spec fn wf(self) -> bool {
        -(MAX_MAGNITUDE as int) <= self.key <= MAX_MAGNITUDE as int
    }

    /// The reading of a bit pattern, or `None` where the pattern is a NaN.
    pub fn from_bits(bits: u64) -> (reading: Option<Reading>)
        ensures
            reading.is_some() <==> is_number(bits),
            reading.is_some() ==> reading.unwrap().key == key_of(bits) && reading.unwrap().wf(),
    {
        if bits >= SIGN_BIT {
            let magnitude: u64 = bits - SIGN_BIT;
            if magnitude > MAX_MAGNITUDE {
                None
            } else {
                Some(Reading { key: -(magnitude as i64) })
            }
        } else if bits > MAX_MAGNITUDE {
            None
        } else {
            Some(Reading { key: bits as i64 })
        }
    }

    /// Whether the sample is greater than the number with key `threshold`.
    pub fn exceeds(self, threshold: i64) -> (above: bool)
        ensures
            above == (self.key > threshold),
    {
        self.key > threshold
    }

    /// Whether the sample is less than the number with key `threshold`.
    pub fn is_below(self, threshold: i64) -> (below: bool)
        ensures
            below == (self.key < threshold),
    {
        self.key < threshold
    }
}

/// Keys order as sign and magnitude do: among patterns without the sign bit
/// the larger pattern has the larger key, among those with it the smaller one,
/// no pattern with the sign bit has a key above one without it, and the two
/// zeros share the key 0.
pub proof fn lemma_key_order(a: u64, b: u64)
    ensures
        a < SIGN_BIT && b < SIGN_BIT ==> (key_of(a) < key_of(b) <==> a < b),
        a >= SIGN_BIT && b >= SIGN_BIT ==> (key_of(a) < key_of(b) <==> a > b),
        a >= SIGN_BIT && b < SIGN_BIT ==> key_of(a) <= key_of(b),
        key_of(0) == 0 && key_of(SIGN_BIT) == 0,
{
}

} // verus!
