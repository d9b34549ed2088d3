//! Anomaly scores and the verdict drawn from them.
//!
//! A score is the number the trained model assigns to one packet: a value
//! between 0 and 1, higher meaning more unusual. The library carries it as the
//! 64 bits of its IEEE 754 binary64 encoding and decides every comparison on
//! those bits, in integer arithmetic. The laws at the end of this file tie
//! what is decided on the bits to the numbers that the bits encode.

use vstd::arithmetic::power2::{
    lemma2_to64_rest, lemma_pow2_adds, lemma_pow2_pos, lemma_pow2_strictly_increases,
    lemma_pow2_unfold, pow2,
};
use vstd::prelude::*;

verus! {

/// The sign bit of a binary64 encoding.
pub const SIGN_BIT: u64 = 0x8000_0000_0000_0000;

/// The encoding of positive infinity. A larger magnitude encodes no number.
pub const INFINITY_BITS: u64 = 0x7FF0_0000_0000_0000;

/// Number of values of the fraction field, the low 52 bits of an encoding.
pub const FRACTION_RANGE: u64 = 0x10_0000_0000_0000;

/// The binary exponent of the unit in which `scaled` counts: a number is its
/// scaled value divided by 2 to this power.
pub const SCALE_EXPONENT: u64 = 1074;

/// The encoding of the alert threshold: the largest binary64 number that is
/// not greater than six tenths.
pub const ANOMALY_THRESHOLD_BITS: u64 = 0x3FE3_3333_3333_3333;

/// An anomaly score, held as the bits of its binary64 encoding.
#[derive(Clone, Copy, Debug, PartialEq, Eq)]
pub struct Score {
    pub bits: u64,
}

impl Score {
    /// The encoding without its sign bit.
    pub open spec fn magnitude(self) -> int {
        if self.bits >= SIGN_BIT {
            self.bits - SIGN_BIT
        } else {
            self.bits as int
        }
    }

    /// Whether the bits encode no number at all.
    pub open spec fn is_nan(self) -> bool {
        self.magnitude() > INFINITY_BITS
    }

    /// An integer that orders the encoded numbers as the numbers themselves
    /// are ordered: among non-negative encodings the bits grow with the
    /// number, a set sign bit mirrors them below zero, and both zeros get 0.
    pub open spec fn rank(self) -> int {
        if self.bits >= SIGN_BIT {
            -self.magnitude()
        } else {
            self.magnitude()
        }
    }

    /// The binary64 comparison `self > other`: false as soon as one side
    /// encodes no number.
    pub open spec fn greater_than(self, other: Score) -> bool {
        !self.is_nan() && !other.is_nan() && self.rank() > other.rank()
    }

    /// The number that the bits encode, multiplied by 2 to the power
    /// `SCALE_EXPONENT`, which makes it an integer. An infinity stands above
    /// every number of its sign.
    pub open spec fn scaled_value(self) -> int {
        if self.bits >= SIGN_BIT {
            -scaled(self.magnitude())
        } else {
            scaled(self.magnitude())
        }
    }

    /// The score 0, which a record carries until the model has scored it.
    pub fn zero() -> (score: Score)
        ensures
            score.bits == 0,
    {
        Score { bits: 0 }
    }

    /// The score with the given binary64 encoding.
    pub fn from_bits(bits: u64) -> (score: Score)
        ensures
            score.bits == bits,
    {
        Score { bits }
    }

    /// Decides `self > other` as binary64 arithmetic does.
    pub fn exceeds(&self, other: &Score) -> (above: bool)
        ensures
            above == self.greater_than(*other),
    {
        let negative: bool = self.bits >= SIGN_BIT;
        let other_negative: bool = other.bits >= SIGN_BIT;
        let magnitude: u64 = if negative {
            self.bits - SIGN_BIT
        } else {
            self.bits
        };
        let other_magnitude: u64 = if other_negative {
            other.bits - SIGN_BIT
        } else {
            other.bits
        };
        if magnitude > INFINITY_BITS || other_magnitude > INFINITY_BITS {
            false
        } else if negative {
            other_negative && magnitude < other_magnitude
        } else if other_negative {
            magnitude > 0 || other_magnitude > 0
        } else {
            magnitude > other_magnitude
        }
    }
}

/// The absolute value encoded by a magnitude, multiplied by 2 to the power
/// `SCALE_EXPONENT`. The high bits of a magnitude are its exponent field, the
/// low 52 its fraction field. With exponent field 0 the value is the fraction
/// in units of 2^-1074; with exponent field `e` above 0 it is the fraction
/// with a leading 1 before its 52 bits, in units of 2^(e - 1075).
pub open spec fn scaled(magnitude: int) -> int {
    let exponent = magnitude / (FRACTION_RANGE as int);
    let fraction = magnitude % (FRACTION_RANGE as int);
    if exponent == 0 {
        fraction
    } else {
        (FRACTION_RANGE + fraction) * pow2((exponent - 1) as nat)
    }
}

/// A larger magnitude encodes a larger absolute value.
pub proof fn lemma_scaled_increases(low: int, high: int)
    requires
        0 <= low < high,
    ensures
        0 <= scaled(low) < scaled(high),
{
    let range = FRACTION_RANGE as int;
    let (e1, f1) = (low / range, low % range);
    let (e2, f2) = (high / range, high % range);
    assert(e1 <= e2);
    if e1 == e2 {
        if e1 > 0 {
            let p = pow2((e1 - 1) as nat) as int;
            lemma_pow2_pos((e1 - 1) as nat);
            assert((range + f1) * p < (range + f2) * p) by (nonlinear_arith)
                requires
                    0 <= f1 < f2,
                    p > 0,
                    range > 0,
            ;
            assert(0 <= (range + f1) * p) by (nonlinear_arith)
                requires
                    0 <= f1,
                    p > 0,
                    range > 0,
            ;
        }
    } else {
        let p2 = pow2((e2 - 1) as nat) as int;
        lemma_pow2_pos((e2 - 1) as nat);
        assert(range * p2 <= (range + f2) * p2) by (nonlinear_arith)
            requires
                0 <= f2,
                p2 > 0,
        ;
        if e1 == 0 {
            assert(range <= range * p2) by (nonlinear_arith)
                requires
                    p2 >= 1,
                    range > 0,
            ;
        } else {
            let p1 = pow2((e1 - 1) as nat) as int;
            lemma_pow2_pos((e1 - 1) as nat);
            lemma_pow2_unfold(e1 as nat);
            assert(pow2(e1 as nat) <= p2) by {
                if e1 < e2 - 1 {
                    lemma_pow2_strictly_increases(e1 as nat, (e2 - 1) as nat);
                }
            }
            assert((range + f1) * p1 < range * (2 * p1)) by (nonlinear_arith)
                requires
                    0 <= f1 < range,
                    p1 > 0,
            ;
            assert(0 <= (range + f1) * p1) by (nonlinear_arith)
                requires
                    0 <= f1,
                    p1 > 0,
                    range > 0,
            ;
            assert(range * (2 * p1) <= range * p2) by (nonlinear_arith)
                requires
                    2 * p1 <= p2,
                    range > 0,
            ;
        }
    }
}

/// The comparison decided on the bits is the comparison of the encoded
/// numbers: where both sides encode a number, `greater_than` holds exactly
/// when the value of the first is greater than the value of the second.
pub proof fn lemma_greater_than_compares_values(a: Score, b: Score)
    requires
        !a.is_nan(),
        !b.is_nan(),
    ensures
        a.greater_than(b) <==> a.scaled_value() > b.scaled_value(),
{
    let (m, n) = (a.magnitude(), b.magnitude());
    if m < n {
        lemma_scaled_increases(m, n);
    } else if n < m {
        lemma_scaled_increases(n, m);
    }
    if m > 0 {
        lemma_scaled_increases(0, m);
    }
    if n > 0 {
        lemma_scaled_increases(0, n);
    }
}

/// The alert threshold as a score.
pub open spec fn anomaly_threshold() -> Score {
    Score { bits: ANOMALY_THRESHOLD_BITS }
}

/// The verdict on a score: an anomaly exactly when the score is greater than
/// the threshold. A score equal to the threshold is no anomaly, and neither is
/// one that encodes no number.
pub open spec fn spec_is_anomaly(score: Score) -> bool {
    score.greater_than(anomaly_threshold())
}

/// Whether a packet with this score is reported as an anomaly.
pub fn is_anomaly(score: Score) -> (anomalous: bool)
    ensures
        anomalous == spec_is_anomaly(score),
        anomalous <==> ANOMALY_THRESHOLD_BITS < score.bits <= INFINITY_BITS,
{
    let threshold = Score { bits: ANOMALY_THRESHOLD_BITS };
    score.exceeds(&threshold)
}

/// A score is an anomaly exactly when the number it encodes is greater than
/// six tenths: the threshold is the largest encoded number that is not.
pub proof fn lemma_verdict_compares_with_six_tenths(score: Score)
    requires
        !score.is_nan(),
    ensures
        spec_is_anomaly(score) <==> 10 * score.scaled_value() > 6 * pow2(SCALE_EXPONENT as nat),
{
    let threshold = ANOMALY_THRESHOLD_BITS as int;
    let unit = pow2(1021) as int;
    lemma_pow2_pos(1021);
    lemma_pow2_adds(53, 1021);
    lemma2_to64_rest();
    assert(pow2(SCALE_EXPONENT as nat) == 0x20_0000_0000_0000 * unit);
    assert(scaled(threshold) == 0x13_3333_3333_3333 * unit);
    assert(scaled(threshold + 1) == 0x13_3333_3333_3334 * unit);
    assert(10 * (0x13_3333_3333_3333 * unit) < 6 * (0x20_0000_0000_0000 * unit)) by (nonlinear_arith)
        requires
            unit > 0,
    ;
    assert(10 * (0x13_3333_3333_3334 * unit) > 6 * (0x20_0000_0000_0000 * unit)) by (nonlinear_arith)
        requires
            unit > 0,
    ;
    let m = score.magnitude();
    if m > 0 {
        lemma_scaled_increases(0, m);
    }
    if m < threshold {
        lemma_scaled_increases(m, threshold);
    } else if m > threshold + 1 {
        lemma_scaled_increases(threshold + 1, m);
    }
}

} // verus!
