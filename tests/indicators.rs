use stocks_dashboard::indicator::{Indicator, ParseIndicatorError, Period, StdDevMultiplier};

fn bad_param(r: Result<Indicator, ParseIndicatorError>) -> (String, String) {
    match r {
        Err(ParseIndicatorError::ParseInt { name, value }) => (name, value),
        other => panic!("expected a parameter error, got {:?}", other),
    }
}

#[test]
fn parses_each_form() {
    assert!(matches!(
        Indicator::from_str("BB(20, 2)"),
        Ok(Indicator::BollingerBands(Period(20), StdDevMultiplier(2)))
    ));
    assert!(matches!(
        Indicator::from_str("EMA(50)"),
        Ok(Indicator::ExponentialMovingAverage(Period(50)))
    ));
    assert!(matches!(
        Indicator::from_str("SMA(7)"),
        Ok(Indicator::SimpleMovingAverage(Period(7)))
    ));
}

#[test]
fn tolerates_whitespace_around_punctuation() {
    assert!(matches!(
        Indicator::from_str("  BB ( 10 ,3 )  "),
        Ok(Indicator::BollingerBands(Period(10), StdDevMultiplier(3)))
    ));
    assert!(matches!(
        Indicator::from_str("EMA\t(\t65535\t)"),
        Ok(Indicator::ExponentialMovingAverage(Period(65535)))
    ));
}

#[test]
fn empty_literal_is_empty_error() {
    assert!(matches!(Indicator::from_str(""), Err(ParseIndicatorError::Empty)));
}

#[test]
fn non_integer_parameter_names_n() {
    assert_eq!(bad_param(Indicator::from_str("BB(abc,2)")), ("n".to_string(), "abc".to_string()));
}

#[test]
fn out_of_range_parameters_name_their_parameter() {
    assert_eq!(bad_param(Indicator::from_str("BB(20, 256)")), ("k".to_string(), "256".to_string()));
    assert_eq!(bad_param(Indicator::from_str("SMA(65536)")), ("n".to_string(), "65536".to_string()));
    assert_eq!(bad_param(Indicator::from_str("EMA(-5)")), ("n".to_string(), "-5".to_string()));
}

#[test]
fn unrecognized_literals_are_invalid() {
    for s in ["MACD", "bb(20, 2)", "BB(20)", "EMA(5", "SMA(5) x", "   "] {
        assert!(matches!(Indicator::from_str(s), Err(ParseIndicatorError::Invalid)), "{}", s);
    }
}

#[test]
fn formats_canonically() {
    assert_eq!(Indicator::BollingerBands(Period(20), StdDevMultiplier(2)).to_string(), "BB(20, 2)");
    assert_eq!(Indicator::ExponentialMovingAverage(Period(0)).to_string(), "EMA(0)");
    assert_eq!(Indicator::SimpleMovingAverage(Period(1234)).to_string(), "SMA(1234)");
}

#[test]
fn indicator_literals_round_trip() {
    let samples = [
        Indicator::BollingerBands(Period(65535), StdDevMultiplier(255)),
        Indicator::BollingerBands(Period(0), StdDevMultiplier(0)),
        Indicator::ExponentialMovingAverage(Period(9)),
        Indicator::SimpleMovingAverage(Period(100)),
    ];
    for i in samples.iter().copied().chain(Indicator::all()) {
        assert_eq!(Indicator::from_str(&i.to_string()).unwrap(), i);
    }
}

#[test]
fn defaults_per_role() {
    assert_eq!(
        Indicator::all(),
        vec![
            Indicator::BollingerBands(Period::bollinger(), StdDevMultiplier::default()),
            Indicator::ExponentialMovingAverage(Period::moving_average()),
            Indicator::SimpleMovingAverage(Period::moving_average()),
        ]
    );
    assert_eq!(Period::bollinger(), Period(20));
    assert_eq!(StdDevMultiplier::default(), StdDevMultiplier(2));
    assert_eq!(Period::moving_average(), Period(50));
}
