//! Pitch estimates as IEEE 754 single-precision words.
//!
//! An estimate travels through the pipeline as the 32-bit pattern of the
//! number the estimator produced. The comparisons the pipeline makes on it
//! are defined here on that pattern: the top bit is the sign, the remaining
//! 31 bits grow with the magnitude, and a magnitude above that of infinity
//! is not a number.

use vstd::prelude::*;

verus! {

/// The bit pattern of negative zero: the sign bit alone.
pub const SIGN_BIT: u32 = 0x8000_0000;

/// The bit pattern of positive infinity; every larger magnitude is a NaN.
pub const INFINITY_BITS: u32 = 0x7F80_0000;

/// The bit pattern of 95999.98, the default sanity ceiling in hertz. The
/// estimator is known to emit spurious values at or above it.
pub const DEFAULT_CEILING_BITS: u32 = 0x47BB_7FFD;

/// The pattern without its sign bit.
pub open spec fn magnitude(bits: u32) -> int {
    if bits >= SIGN_BIT {
        bits - SIGN_BIT
    } else {
        bits as int
    }
}

/// Whether the pattern encodes no number at all.
pub open spec fn is_nan(bits: u32) -> bool {
    magnitude(bits) > INFINITY_BITS
}

/// An integer that orders the numbers as the numbers themselves are ordered.
/// Both zeros get 0. It is meaningful only for patterns that are not NaN.
pub open spec fn order_key(bits: u32) -> int {
    if bits >= SIGN_BIT {
        -magnitude(bits)
    } else {
        magnitude(bits)
    }
}

/// The comparison `a < b` of the two encoded numbers: false as soon as one
/// of them is a NaN.
pub open spec fn less_than(a: u32, b: u32) -> bool {
    !is_nan(a) && !is_nan(b) && order_key(a) < order_key(b)
}

/// The comparison `a <= 0` of the encoded number: true for both zeros and
/// every negative number, false for a NaN.
pub open spec fn at_most_zero(bits: u32) -> bool {
    !is_nan(bits) && order_key(bits) <= 0
}

/// One estimate of the fundamental frequency, in hertz.
#[derive(Clone, Copy, Debug, PartialEq, Eq, Structural)]
pub struct PitchSample {
    /// The estimate as a single-precision bit pattern.
    pub bits: u32,
}

impl PitchSample {
    /// Wraps the bit pattern of an estimate.
    pub fn from_bits(bits: u32) -> (sample: PitchSample)
        ensures
            sample.bits == bits,
    {
        PitchSample { bits }
    }

    /// The bit pattern of the estimate.
    pub fn to_bits(&self) -> (bits: u32)
        ensures
            bits == self.bits,
    {
        self.bits
    }

    /// Whether the estimate is zero or negative.
    pub open spec fn silent(&self) -> bool {
        at_most_zero(self.bits)
    }

    /// Whether the estimate lies strictly below the ceiling.
    pub open spec fn plausible(&self, ceiling_bits: u32) -> bool {
        less_than(self.bits, ceiling_bits)
    }

    /// Tells whether the estimate encodes no number.
    pub fn is_nan(&self) -> (nan: bool)
        ensures
            nan == is_nan(self.bits),
    {
        if self.bits >= SIGN_BIT {
            self.bits - SIGN_BIT > INFINITY_BITS
        } else {
            self.bits > INFINITY_BITS
        }
    }

    /// Tells whether the estimate is zero or negative, that is, whether it
    /// reports the absence of a pitch. A NaN is not silence.
    pub fn is_silent(&self) -> (silent: bool)
        ensures
            silent == self.silent(),
    {
        if self.bits >= SIGN_BIT {
            self.bits - SIGN_BIT <= INFINITY_BITS
        } else {
            self.bits == 0
        }
    }

    /// Tells whether the estimate lies strictly below the ceiling, itself
    /// given as a bit pattern. A NaN on either side is never plausible.
    pub fn is_plausible(&self, ceiling_bits: u32) -> (plausible: bool)
        ensures
            plausible == self.plausible(ceiling_bits),
    {
        let ceiling = PitchSample { bits: ceiling_bits };
        if self.is_nan() || ceiling.is_nan() {
            false
        } else if self.bits >= SIGN_BIT {
            if ceiling_bits >= SIGN_BIT {
                self.bits > ceiling_bits
            } else {
                self.bits > SIGN_BIT || ceiling_bits > 0
            }
        } else {
            ceiling_bits < SIGN_BIT && self.bits < ceiling_bits
        }
    }
}

/// The estimates of a batch that lie below the ceiling, in their order.
pub open spec fn plausible_of(batch: Seq<PitchSample>, ceiling_bits: u32) -> Seq<PitchSample> {
    batch.filter(|s: PitchSample| s.plausible(ceiling_bits))
}

/// Keeps the estimates of a batch that lie strictly below the ceiling and
/// drops the others, without reordering.
pub fn forwardable(batch: &Vec<PitchSample>, ceiling_bits: u32) -> (kept: Vec<PitchSample>)
    ensures
        kept@ == plausible_of(batch@, ceiling_bits),
{
    let mut kept: Vec<PitchSample> = Vec::new();
    let mut i: usize = 0;
    while i < batch.len()
        invariant
            i <= batch.len(),
            kept@ == plausible_of(batch@.take(i as int), ceiling_bits),
        decreases batch.len() - i,
    {
        let sample = batch[i];
        proof {
            let pred = |s: PitchSample| s.plausible(ceiling_bits);
            assert(batch@.take(i + 1).drop_last() =~= batch@.take(i as int));
            assert(batch@.take(i + 1).last() == sample);
            reveal(Seq::filter);
        }
        if sample.is_plausible(ceiling_bits) {
            kept.push(sample);
        }
        i += 1;
    }
    proof {
        assert(batch@.take(i as int) =~= batch@);
    }
    kept
}

} // verus!
