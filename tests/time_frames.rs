use stocks_dashboard::time_frame::{DateRange, ParseTimeFrameError, TimeFrame};

const DAY: i64 = 86_400;
// 2023-11-14 22:13:20 UTC
const NOW: i64 = 1_700_000_000;
// 2023-11-15 00:00:00 UTC
const TOMORROW: i64 = 1_700_006_400;
// 2023-01-01 00:00:00 UTC
const JAN_FIRST: i64 = 1_672_531_200;

#[test]
fn durations_in_seconds() {
    assert_eq!(TimeFrame::FiveDays.duration(), Some(5 * DAY));
    assert_eq!(TimeFrame::OneMonth.duration(), Some(30 * DAY));
    assert_eq!(TimeFrame::ThreeMonths.duration(), Some(90 * DAY));
    assert_eq!(TimeFrame::SixMonths.duration(), Some(180 * DAY));
    assert_eq!(TimeFrame::OneYear.duration(), Some(360 * DAY));
    assert_eq!(TimeFrame::TwoYears.duration(), Some(720 * DAY));
    assert_eq!(TimeFrame::FiveYears.duration(), Some(1800 * DAY));
    assert_eq!(TimeFrame::TenYears.duration(), Some(3600 * DAY));
    assert_eq!(TimeFrame::YearToDate.duration(), None);
    assert_eq!(TimeFrame::Max.duration(), None);
}

#[test]
fn default_is_one_month() {
    assert_eq!(TimeFrame::default(), TimeFrame::OneMonth);
}

#[test]
fn fixed_frames_span_their_duration() {
    for tf in TimeFrame::all() {
        let r = tf.now_date_range_at(NOW);
        match tf.duration() {
            Some(d) => {
                let r = r.unwrap();
                assert_eq!(r.end - r.start, d);
                assert_eq!(r.end, TOMORROW);
            }
            None => {
                if tf == TimeFrame::Max {
                    assert_eq!(r, None);
                }
            }
        }
    }
}

#[test]
fn one_month_range_at_fixed_time() {
    assert_eq!(
        TimeFrame::OneMonth.now_date_range_at(NOW),
        Some(DateRange { start: TOMORROW - 30 * DAY, end: TOMORROW })
    );
}

#[test]
fn year_to_date_starts_on_january_first() {
    assert_eq!(
        TimeFrame::YearToDate.now_date_range_at(NOW),
        Some(DateRange { start: JAN_FIRST, end: TOMORROW })
    );
}

#[test]
fn year_to_date_before_the_epoch() {
    // 1969-07-20 20:17:40 UTC
    let r = TimeFrame::YearToDate.now_date_range_at(-14_182_940).unwrap();
    // 1969-07-21 00:00:00 UTC and 1969-01-01 00:00:00 UTC
    assert_eq!(r, DateRange { start: -31_536_000, end: -14_169_600 });
}

#[test]
fn year_to_date_by_system_clock() {
    let r = TimeFrame::YearToDate.now_date_range().unwrap();
    assert_eq!(r.start % DAY, 0);
    assert_eq!(r.end % DAY, 0);
    assert!(r.start < r.end);
    assert!(r.end - r.start <= 366 * DAY);
    assert_eq!(TimeFrame::Max.now_date_range(), None);
}

#[test]
fn parses_long_and_short_literals() {
    let cases = [
        ("5D", "5d", TimeFrame::FiveDays),
        ("1M", "1mo", TimeFrame::OneMonth),
        ("3M", "3mo", TimeFrame::ThreeMonths),
        ("6M", "6mo", TimeFrame::SixMonths),
        ("YTD", "ytd", TimeFrame::YearToDate),
        ("1Y", "1y", TimeFrame::OneYear),
        ("2Y", "2y", TimeFrame::TwoYears),
        ("5Y", "5y", TimeFrame::FiveYears),
        ("10Y", "10y", TimeFrame::TenYears),
        ("Max", "max", TimeFrame::Max),
    ];
    for (long, short, tf) in cases {
        assert_eq!(TimeFrame::from_str(long), Ok(tf));
        assert_eq!(TimeFrame::from_str(short), Ok(tf));
    }
}

#[test]
fn refuses_empty_and_unknown_literals() {
    assert_eq!(TimeFrame::from_str(""), Err(ParseTimeFrameError::Empty));
    assert_eq!(TimeFrame::from_str("1w"), Err(ParseTimeFrameError::Invalid));
    assert_eq!(TimeFrame::from_str(" 1M"), Err(ParseTimeFrameError::Invalid));
    assert_eq!(TimeFrame::from_str("1mos"), Err(ParseTimeFrameError::Invalid));
    assert_eq!(TimeFrame::from_str("5d "), Err(ParseTimeFrameError::Invalid));
}

#[test]
fn literals_ignore_case() {
    assert_eq!(TimeFrame::from_str("MAX"), Ok(TimeFrame::Max));
    assert_eq!(TimeFrame::from_str("mAx"), Ok(TimeFrame::Max));
    assert_eq!(TimeFrame::from_str("1MO"), Ok(TimeFrame::OneMonth));
    assert_eq!(TimeFrame::from_str("1m"), Ok(TimeFrame::OneMonth));
    assert_eq!(TimeFrame::from_str("Ytd"), Ok(TimeFrame::YearToDate));
    assert_eq!(TimeFrame::from_str("5y"), Ok(TimeFrame::FiveYears));
    assert_eq!(TimeFrame::from_str("10Y"), Ok(TimeFrame::TenYears));
    assert_eq!(TimeFrame::from_str("6Mo"), Ok(TimeFrame::SixMonths));
}

#[test]
fn time_frame_literals_round_trip() {
    for tf in TimeFrame::all() {
        assert_eq!(TimeFrame::from_str(&tf.to_string()), Ok(tf));
    }
    assert_eq!(TimeFrame::TenYears.to_string(), "10Y");
    assert_eq!(TimeFrame::YearToDate.to_string(), "YTD");
}

#[test]
fn interval_codes() {
    assert_eq!(TimeFrame::FiveDays.interval(), "5d");
    assert_eq!(TimeFrame::OneMonth.interval(), "1mo");
    assert_eq!(TimeFrame::YearToDate.interval(), "ytd");
    assert_eq!(TimeFrame::TenYears.interval(), "10y");
    assert_eq!(TimeFrame::Max.interval(), "max");
}
