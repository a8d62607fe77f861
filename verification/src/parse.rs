//! Validation of the three positional inputs.
//!
//! The sentiment and timeframe words are matched exactly, case-sensitively
//! and without trimming; anything else is rejected with the error naming the
//! offending argument.  The price itself is a floating-point value and is
//! parsed by the caller; this module only decides the categorical inputs and
//! whether enough arguments were supplied at all.

use vstd::prelude::*;
use vstd::string::StrSliceExecFns;

use crate::ParseError;
use crate::Sentiment;
use crate::Timeframe;

verus! {

/// What `parse_sentiment` returns: only the three exact lower-case words are
/// accepted.
pub open spec fn spec_parse_sentiment(s: Seq<char>) -> Result<Sentiment, ParseError> {
    if s == "bullish"@ {
        Ok(Sentiment::Bullish)
    } else if s == "bearish"@ {
        Ok(Sentiment::Bearish)
    } else if s == "neutral"@ {
        Ok(Sentiment::Neutral)
    } else {
        Err(ParseError::InvalidSentiment)
    }
}

/// What `parse_timeframe` returns: each timeframe is named by a one-letter
/// code or by the full word, and nothing else is accepted.
pub open spec fn spec_parse_timeframe(s: Seq<char>) -> Result<Timeframe, ParseError> {
    if s == "d"@ || s == "day"@ {
        Ok(Timeframe::Day)
    } else if s == "w"@ || s == "week"@ {
        Ok(Timeframe::Week)
    } else if s == "m"@ || s == "month"@ {
        Ok(Timeframe::Month)
    } else if s == "y"@ || s == "year"@ {
        Ok(Timeframe::Year)
    } else {
        Err(ParseError::InvalidTimeframe)
    }
}

/// Character-for-character equality of two string slices.
fn str_eq(a: &str, b: &str) -> (r: bool)
    ensures
        r == (a@ == b@),
{
    let a_len: usize = a.unicode_len();
    let b_len: usize = b.unicode_len();
    if a_len != b_len {
        return false;
    }
    let mut i: usize = 0;
    while i < a_len
        invariant
            a_len == a@.len(),
            b_len == b@.len(),
            a_len == b_len,
            i <= a_len,
            forall|j: int| 0 <= j < i ==> a@[j] == b@[j],
        decreases a_len - i,
    {
        if a.get_char(i) != b.get_char(i) {
            return false;
        }
        i = i + 1;
    }
    proof {
        assert(a@ =~= b@);
    }
    true
}

/// Turns the sentiment argument into its enum value, accepting exactly the
/// literal words `bullish`, `bearish` and `neutral`.
pub fn parse_sentiment(sent_str: &str) -> (r: Result<Sentiment, ParseError>)
    ensures
        r == spec_parse_sentiment(sent_str@),
{
    if str_eq(sent_str, "bullish") {
        Ok(Sentiment::Bullish)
    } else if str_eq(sent_str, "bearish") {
        Ok(Sentiment::Bearish)
    } else if str_eq(sent_str, "neutral") {
        Ok(Sentiment::Neutral)
    } else {
        Err(ParseError::InvalidSentiment)
    }
}

/// Turns the timeframe argument into its enum value, accepting a short code
/// or a full word for each timeframe.
pub fn parse_timeframe(tframe_str: &str) -> (r: Result<Timeframe, ParseError>)
    ensures
        r == spec_parse_timeframe(tframe_str@),
{
    if str_eq(tframe_str, "d") || str_eq(tframe_str, "day") {
        Ok(Timeframe::Day)
    } else if str_eq(tframe_str, "w") || str_eq(tframe_str, "week") {
        Ok(Timeframe::Week)
    } else if str_eq(tframe_str, "m") || str_eq(tframe_str, "month") {
        Ok(Timeframe::Month)
    } else if str_eq(tframe_str, "y") || str_eq(tframe_str, "year") {
        Ok(Timeframe::Year)
    } else {
        Err(ParseError::InvalidTimeframe)
    }
}

/// Decides whether an invocation supplied enough positional arguments.
/// Exactly three are required (price, sentiment, timeframe); extra arguments
/// are ignored, and fewer are reported as a missing argument.
pub fn check_argument_count(supplied: usize) -> (r: Result<(), ParseError>)
    ensures
        supplied >= 3 ==> r == Ok::<(), ParseError>(()),
        supplied < 3 ==> r == Err::<(), ParseError>(ParseError::MissingArgument),
{
    if supplied >= 3 {
        Ok(())
    } else {
        Err(ParseError::MissingArgument)
    }
}

} // verus!
