//! Liquidity-provision range calculator.
//!
//! Given a current market price, a market sentiment and a holding timeframe,
//! the library determines a suggested liquidity-provision price band
//! `(min_price, max_price)` around the current price.  The timeframe selects
//! a fixed range multiplier `r`; the sentiment decides how the band is skewed:
//! a bearish band sits entirely below the current price, a bullish band
//! entirely above it, and a neutral band symmetrically around it.
//!
//! The library keeps everything exact: the multiplier table is stated in
//! thousandths, and the skew of the band is stated as the signed power of `r`
//! applied to the current price for each bound.  Turning those exact values
//! into floating-point prices is left to the caller, since the final
//! multiplications and divisions carry no precision guarantee.

use vstd::prelude::*;

pub mod parse;
pub mod range;

verus! {

/// Directional market bias supplied by the caller; it decides how the
/// computed price band is skewed around the current price.
#[derive(Clone, Copy, Debug, PartialEq, Eq, Structural)]
pub enum Sentiment {
    Bullish,
    Bearish,
    Neutral,
}

/// Holding horizon supplied by the caller; it decides the magnitude of the
/// range multiplier.
#[derive(Clone, Copy, Debug, PartialEq, Eq, Structural)]
pub enum Timeframe {
    Day,
    Week,
    Month,
    Year,
}

/// Why an invocation's inputs were rejected.  Every failure of the program is
/// one of these; none is recovered from.
#[derive(Clone, Copy, Debug, PartialEq, Eq, Structural)]
pub enum ParseError {
    /// Fewer than three positional arguments were supplied.
    MissingArgument,
    /// The first argument is not a valid numeric literal.
    InvalidPrice,
    /// The second argument is not one of the recognised sentiment words.
    InvalidSentiment,
    /// The third argument is not one of the recognised timeframe words.
    InvalidTimeframe,
}

} // verus!
