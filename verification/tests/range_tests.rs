use lp_range::parse::parse_sentiment;
use lp_range::parse::parse_timeframe;
use lp_range::range::multiplier_per_mille;
use lp_range::range::range_shape;
use lp_range::range::RangeShape;
use lp_range::range::MULTIPLIER_SCALE;
use lp_range::Sentiment;
use lp_range::Timeframe;

/// Turns the exact model into prices the way a caller does: the bound is the
/// price scaled by the multiplier raised to the signed exponent.
fn apply(price: f64, r: f64, exponent: i32) -> f64 {
    if exponent < 0 {
        price / r.powi(-exponent)
    } else if exponent == 0 {
        price
    } else {
        price * r.powi(exponent)
    }
}

/// The multiplier as the floating-point value a caller works with.
fn multiplier(timeframe: Timeframe) -> f64 {
    multiplier_per_mille(timeframe) as f64 / MULTIPLIER_SCALE as f64
}

#[test]
fn multiplier_table_is_exact_in_thousandths() {
    assert_eq!(multiplier_per_mille(Timeframe::Day), 1065);
    assert_eq!(multiplier_per_mille(Timeframe::Week), 1175);
    assert_eq!(multiplier_per_mille(Timeframe::Month), 1400);
    assert_eq!(multiplier_per_mille(Timeframe::Year), 3250);
}

#[test]
fn multiplier_matches_the_float_table() {
    assert_eq!(multiplier(Timeframe::Day), 1.065);
    assert_eq!(multiplier(Timeframe::Week), 1.175);
    assert_eq!(multiplier(Timeframe::Month), 1.4);
    assert_eq!(multiplier(Timeframe::Year), 3.25);
}

#[test]
fn multiplier_always_exceeds_one() {
    for tf in [Timeframe::Day, Timeframe::Week, Timeframe::Month, Timeframe::Year] {
        assert!(multiplier_per_mille(tf) > MULTIPLIER_SCALE);
    }
}

#[test]
fn bearish_band_sits_below_the_price() {
    assert_eq!(
        range_shape(Sentiment::Bearish),
        RangeShape { min_exponent: -2, max_exponent: 0 }
    );
}

#[test]
fn neutral_band_is_symmetric_around_the_price() {
    assert_eq!(
        range_shape(Sentiment::Neutral),
        RangeShape { min_exponent: -1, max_exponent: 1 }
    );
}

#[test]
fn bullish_band_sits_above_the_price() {
    assert_eq!(
        range_shape(Sentiment::Bullish),
        RangeShape { min_exponent: 0, max_exponent: 2 }
    );
}

#[test]
fn every_shape_brackets_the_price() {
    for s in [Sentiment::Bullish, Sentiment::Bearish, Sentiment::Neutral] {
        let shape = range_shape(s);
        assert!(shape.min_exponent <= 0);
        assert!(shape.max_exponent >= 0);
        assert_eq!(shape.max_exponent - shape.min_exponent, 2);
    }
}

#[test]
fn neutral_day_scenario() {
    let sentiment = parse_sentiment("neutral").unwrap();
    let timeframe = parse_timeframe("day").unwrap();
    let r = multiplier(timeframe);
    assert_eq!(r, 1.065);
    let shape = range_shape(sentiment);
    let min_price = apply(100.0, r, shape.min_exponent);
    let max_price = apply(100.0, r, shape.max_exponent);
    assert_eq!(min_price, 100.0 / 1.065);
    assert_eq!(max_price, 100.0 * 1.065);
    assert!((min_price - 93.896).abs() < 0.01);
    assert!((max_price - 106.5).abs() < 1e-9);
    assert!(min_price <= 100.0 && 100.0 <= max_price);
}

#[test]
fn bullish_year_scenario() {
    let sentiment = parse_sentiment("bullish").unwrap();
    let timeframe = parse_timeframe("year").unwrap();
    let r = multiplier(timeframe);
    assert_eq!(r, 3.25);
    let shape = range_shape(sentiment);
    let min_price = apply(100.0, r, shape.min_exponent);
    let max_price = apply(100.0, r, shape.max_exponent);
    assert_eq!(min_price, 100.0);
    assert!((max_price - 1056.25).abs() < 1e-9);
    assert!(min_price <= max_price);
}

#[test]
fn bearish_week_scenario() {
    let sentiment = parse_sentiment("bearish").unwrap();
    let timeframe = parse_timeframe("week").unwrap();
    let r = multiplier(timeframe);
    assert_eq!(r, 1.175);
    let shape = range_shape(sentiment);
    let min_price = apply(100.0, r, shape.min_exponent);
    let max_price = apply(100.0, r, shape.max_exponent);
    assert_eq!(min_price, 100.0 / (1.175 * 1.175));
    assert!((min_price - 72.423).abs() < 0.01);
    assert_eq!(max_price, 100.0);
    assert!(min_price <= max_price);
}
