//! The multiplier table and the shape of the price band.
//!
//! Each timeframe carries a fixed, dimensionless range multiplier `r`; the
//! table is stated exactly, in thousandths.  The sentiment then decides the
//! band around the current price `p`: each bound of the band is `p` scaled by
//! a signed power of `r`, so a band is fully described by the pair of powers
//! `(min_exponent, max_exponent)`.  A bearish band is `(p / r^2, p)`, a
//! neutral band `(p / r, p * r)`, a bullish band `(p, p * r^2)`; written as
//! powers those are `(-2, 0)`, `(-1, 1)` and `(0, 2)`.

use vstd::prelude::*;

use crate::Sentiment;
use crate::Timeframe;

verus! {

/// The denominator of the multiplier table: `multiplier_per_mille` returns
/// `r` scaled by this constant.
pub const MULTIPLIER_SCALE: u32 = 1000;

/// The fixed multiplier table, in thousandths: the band widens with the
/// holding horizon.
pub open spec fn spec_multiplier_per_mille(timeframe: Timeframe) -> u32 {
    match timeframe {
        Timeframe::Day => 1065,
        Timeframe::Week => 1175,
        Timeframe::Month => 1400,
        Timeframe::Year => 3250,
    }
}

/// Looks up the range multiplier for a timeframe, in thousandths: `1065`
/// stands for `r = 1.065`, and so on.  Total, with no failure mode.
pub fn multiplier_per_mille(timeframe: Timeframe) -> (r: u32)
    ensures
        r == spec_multiplier_per_mille(timeframe),
{
    match timeframe {
        Timeframe::Day => 1065,
        Timeframe::Week => 1175,
        Timeframe::Month => 1400,
        Timeframe::Year => 3250,
    }
}

/// How each bound of the band is derived from the current price: the bound
/// equals the price scaled by the multiplier raised to the exponent, where a
/// negative exponent divides, zero keeps the price, and a positive exponent
/// multiplies.
#[derive(Clone, Copy, Debug, PartialEq, Eq, Structural)]
pub struct RangeShape {
    /// Power of the multiplier applied to the price for the lower bound.
    pub min_exponent: i32,
    /// Power of the multiplier applied to the price for the upper bound.
    pub max_exponent: i32,
}

/// The band for each sentiment: bearish sits below the current price with
/// the squared multiplier, bullish mirrors it above, and neutral applies a
/// single multiplier on both sides.
pub open spec fn spec_range_shape(sentiment: Sentiment) -> RangeShape {
    match sentiment {
        Sentiment::Bearish => RangeShape { min_exponent: -2i32, max_exponent: 0i32 },
        Sentiment::Neutral => RangeShape { min_exponent: -1i32, max_exponent: 1i32 },
        Sentiment::Bullish => RangeShape { min_exponent: 0i32, max_exponent: 2i32 },
    }
}

/// Computes the shape of the band for a sentiment.  Total, with no failure
/// mode.
pub fn range_shape(sentiment: Sentiment) -> (r: RangeShape)
    ensures
        r == spec_range_shape(sentiment),
{
    match sentiment {
        Sentiment::Bearish => RangeShape { min_exponent: -2, max_exponent: 0 },
        Sentiment::Neutral => RangeShape { min_exponent: -1, max_exponent: 1 },
        Sentiment::Bullish => RangeShape { min_exponent: 0, max_exponent: 2 },
    }
}

/// The multiplier strictly exceeds one for every timeframe, so scaling the
/// price by a negative power shrinks it and by a positive power grows it.
pub proof fn lemma_multiplier_exceeds_one(timeframe: Timeframe)
    ensures
        spec_multiplier_per_mille(timeframe) > MULTIPLIER_SCALE,
{
}

/// Whatever the sentiment, the band brackets the current price and has the
/// same width: the lower bound never scales the price up, the upper bound
/// never scales it down, and the two exponents are always two powers apart.
/// With a multiplier above one this gives
/// `min_price <= current price <= max_price`.
pub proof fn lemma_range_shape_brackets_price(sentiment: Sentiment)
    ensures
        spec_range_shape(sentiment).min_exponent <= 0,
        spec_range_shape(sentiment).max_exponent >= 0,
        spec_range_shape(sentiment).max_exponent - spec_range_shape(sentiment).min_exponent == 2,
{
}

} // verus!
