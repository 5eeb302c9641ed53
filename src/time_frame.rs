//! Time frames of the price chart and the date ranges they span.
use vstd::prelude::*;
use crate::clock::{
    CLOCK_LIMIT, INSTANT_LIMIT, SECS_PER_DAY, clock_now_secs, day_start, jan_first_of,
    start_of_tomorrow, start_of_tomorrow_of, valid_now, year_start_secs,
};
use crate::text::{char_folds, folds_to, str_eq_ignore_case};

verus! {

/// A half-open window `[start, end)` of instants, in seconds since the epoch.
#[derive(Clone, Copy, Debug, PartialEq, Eq, Structural)]
pub struct DateRange {
    pub start: i64,
    pub end: i64,
}

impl DateRange {
    /// Ordered, and inside the span of instants the library handles.
    pub open spec fn wf(self) -> bool {
        -INSTANT_LIMIT <= self.start <= self.end <= INSTANT_LIMIT
    }
}

/// The span of price history shown on the chart.
#[derive(Clone, Copy, Debug, PartialEq, Eq, Structural)]
pub enum TimeFrame {
    FiveDays,
    OneMonth,
    ThreeMonths,
    SixMonths,
    YearToDate,
    OneYear,
    TwoYears,
    FiveYears,
    TenYears,
    Max,
}

/// Why a time frame literal was refused.
#[derive(Clone, Copy, Debug, PartialEq, Eq, Structural)]
pub enum ParseTimeFrameError {
    Empty,
    Invalid,
}

impl Default for TimeFrame {
    fn default() -> (r: TimeFrame)
        ensures
            r == TimeFrame::OneMonth,
    {
        TimeFrame::OneMonth
    }
}

/// The fixed length of a time frame in days, if it has one.
pub open spec fn duration_days(tf: TimeFrame) -> Option<int> {
    match tf {
        TimeFrame::FiveDays => Some(5int),
        TimeFrame::OneMonth => Some(30int),
        TimeFrame::ThreeMonths => Some(30int * 3),
        TimeFrame::SixMonths => Some(30int * 6),
        TimeFrame::OneYear => Some(30int * 12),
        TimeFrame::TwoYears => Some(30int * 12 * 2),
        TimeFrame::FiveYears => Some(30int * 12 * 5),
        TimeFrame::TenYears => Some(30int * 12 * 10),
        TimeFrame::YearToDate | TimeFrame::Max => None,
    }
}

/// The fixed length of a time frame in seconds, if it has one.
pub open spec fn duration_secs(tf: TimeFrame) -> Option<int> {
    match duration_days(tf) {
        Some(d) => Some(d * SECS_PER_DAY),
        None => None,
    }
}

/// The date range a time frame covers when the clock reads `now`: it ends at
/// the start of tomorrow, and starts on January 1st of that end's year for
/// `YearToDate`, or one duration before the end otherwise.
pub open spec fn now_range(tf: TimeFrame, now: int) -> Option<DateRange> {
    let end = start_of_tomorrow(now);
    if tf == TimeFrame::YearToDate {
        Some(DateRange { start: jan_first_of(end) as i64, end: end as i64 })
    } else {
        match duration_secs(tf) {
            Some(d) => Some(DateRange { start: (end - d) as i64, end: end as i64 }),
            None => None,
        }
    }
}

/// The canonical literal of each time frame.
pub open spec fn format_time_frame(tf: TimeFrame) -> Seq<char> {
    match tf {
        TimeFrame::FiveDays => "5D"@,
        TimeFrame::OneMonth => "1M"@,
        TimeFrame::ThreeMonths => "3M"@,
        TimeFrame::SixMonths => "6M"@,
        TimeFrame::YearToDate => "YTD"@,
        TimeFrame::OneYear => "1Y"@,
        TimeFrame::TwoYears => "2Y"@,
        TimeFrame::FiveYears => "5Y"@,
        TimeFrame::TenYears => "10Y"@,
        TimeFrame::Max => "Max"@,
    }
}

/// The market-data service's code for the span of each time frame.
pub open spec fn interval_code(tf: TimeFrame) -> Seq<char> {
    match tf {
        TimeFrame::FiveDays => "5d"@,
        TimeFrame::OneMonth => "1mo"@,
        TimeFrame::ThreeMonths => "3mo"@,
        TimeFrame::SixMonths => "6mo"@,
        TimeFrame::YearToDate => "ytd"@,
        TimeFrame::OneYear => "1y"@,
        TimeFrame::TwoYears => "2y"@,
        TimeFrame::FiveYears => "5y"@,
        TimeFrame::TenYears => "10y"@,
        TimeFrame::Max => "max"@,
    }
}

/// Time frame literals: a long and a short token per variant, in any ASCII
/// casing.
pub open spec fn parse_time_frame(s: Seq<char>) -> Result<TimeFrame, ParseTimeFrameError> {
    if folds_to(s, "5d"@) {
        Ok(TimeFrame::FiveDays)
    } else if folds_to(s, "1m"@) || folds_to(s, "1mo"@) {
        Ok(TimeFrame::OneMonth)
    } else if folds_to(s, "3m"@) || folds_to(s, "3mo"@) {
        Ok(TimeFrame::ThreeMonths)
    } else if folds_to(s, "6m"@) || folds_to(s, "6mo"@) {
        Ok(TimeFrame::SixMonths)
    } else if folds_to(s, "ytd"@) {
        Ok(TimeFrame::YearToDate)
    } else if folds_to(s, "1y"@) {
        Ok(TimeFrame::OneYear)
    } else if folds_to(s, "2y"@) {
        Ok(TimeFrame::TwoYears)
    } else if folds_to(s, "5y"@) {
        Ok(TimeFrame::FiveYears)
    } else if folds_to(s, "10y"@) {
        Ok(TimeFrame::TenYears)
    } else if folds_to(s, "max"@) {
        Ok(TimeFrame::Max)
    } else if s.len() == 0 {
        Err(ParseTimeFrameError::Empty)
    } else {
        Err(ParseTimeFrameError::Invalid)
    }
}

/// Every time frame, in menu order.
#[verifier::opaque]
pub open spec fn time_frames_in_order() -> Seq<TimeFrame> {
    seq![
            TimeFrame::FiveDays,
            TimeFrame::OneMonth,
            TimeFrame::ThreeMonths,
            TimeFrame::SixMonths,
            TimeFrame::YearToDate,
            TimeFrame::OneYear,
            TimeFrame::TwoYears,
            TimeFrame::FiveYears,
            TimeFrame::TenYears,
            TimeFrame::Max,
        ]
}

impl TimeFrame {
    /// Every time frame, in menu order.
    pub fn all() -> (r: Vec<TimeFrame>)
        ensures
            r@ == time_frames_in_order(),
            r@.len() == 10,
    {
        let r = vec![
            TimeFrame::FiveDays,
            TimeFrame::OneMonth,
            TimeFrame::ThreeMonths,
            TimeFrame::SixMonths,
            TimeFrame::YearToDate,
            TimeFrame::OneYear,
            TimeFrame::TwoYears,
            TimeFrame::FiveYears,
            TimeFrame::TenYears,
            TimeFrame::Max,
        ];
        reveal(time_frames_in_order);
        assert(r@ =~= seq![
            TimeFrame::FiveDays,
            TimeFrame::OneMonth,
            TimeFrame::ThreeMonths,
            TimeFrame::SixMonths,
            TimeFrame::YearToDate,
            TimeFrame::OneYear,
            TimeFrame::TwoYears,
            TimeFrame::FiveYears,
            TimeFrame::TenYears,
            TimeFrame::Max,
        ]);
        r
    }

    /// The fixed length of the time frame in seconds; none for `YearToDate`
    /// and `Max`.
    pub fn duration(self) -> (r: Option<i64>)
        ensures
            r matches Some(d) ==> duration_secs(self) == Some(d as int),
            r is None ==> duration_secs(self) is None,
            r matches Some(d) ==> 0 < d <= 3600 * SECS_PER_DAY,
    {
        let days: Option<i64> = match self {
            TimeFrame::FiveDays => Some(5),
            TimeFrame::OneMonth => Some(30),
            TimeFrame::ThreeMonths => Some(30 * 3),
            TimeFrame::SixMonths => Some(30 * 6),
            TimeFrame::OneYear => Some(30 * 12),
            TimeFrame::TwoYears => Some(30 * 12 * 2),
            TimeFrame::FiveYears => Some(30 * 12 * 5),
            TimeFrame::TenYears => Some(30 * 12 * 10),
            TimeFrame::YearToDate | TimeFrame::Max => None,
        };
        match days {
            Some(d) => Some(d * SECS_PER_DAY),
            None => None,
        }
    }

    /// The market-data service's interval code for the time frame.
    pub fn interval(self) -> (r: String)
        ensures
            r@ == interval_code(self),
    {
        let code: &str = match self {
            TimeFrame::FiveDays => "5d",
            TimeFrame::OneMonth => "1mo",
            TimeFrame::ThreeMonths => "3mo",
            TimeFrame::SixMonths => "6mo",
            TimeFrame::YearToDate => "ytd",
            TimeFrame::OneYear => "1y",
            TimeFrame::TwoYears => "2y",
            TimeFrame::FiveYears => "5y",
            TimeFrame::TenYears => "10y",
            TimeFrame::Max => "max",
        };
        String::from_str(code)
    }

    /// The time frame's date range when the clock reads `now`.
    pub fn now_date_range_at(self, now: i64) -> (r: Option<DateRange>)
        requires
            valid_now(now as int),
        ensures
            r == now_range(self, now as int),
            r matches Some(dr) ==> dr.wf(),
            r matches Some(dr) ==> dr.end == start_of_tomorrow(now as int),
            r matches Some(dr) ==> dr.end % SECS_PER_DAY == 0,
            r is None <==> self == TimeFrame::Max,
            self == TimeFrame::YearToDate ==> (r matches Some(dr) && dr.start == jan_first_of(
                dr.end as int,
            ) && dr.start % SECS_PER_DAY == 0),
            duration_secs(self) matches Some(d) ==> (r matches Some(dr) && dr.end - dr.start
                == d),
    {
        let end = start_of_tomorrow_of(now);
        if self == TimeFrame::YearToDate {
            let start = year_start_secs(end);
            proof {
                assert(day_start(now as int) % (SECS_PER_DAY as int) == 0) by {
                    vstd::arithmetic::div_mod::lemma_fundamental_div_mod(
                        now as int,
                        SECS_PER_DAY as int,
                    );
                    vstd::arithmetic::div_mod::lemma_mod_multiples_basic(
                        now as int / (SECS_PER_DAY as int),
                        SECS_PER_DAY as int,
                    );
                }
                assert(end % SECS_PER_DAY == 0) by {
                    vstd::arithmetic::div_mod::lemma_mod_add_multiples_vanish(
                        day_start(now as int),
                        SECS_PER_DAY as int,
                    );
                }
                assert(start % SECS_PER_DAY == 0) by {
                    vstd::arithmetic::div_mod::lemma_mod_sub_multiples_vanish(
                        end as int,
                        SECS_PER_DAY as int,
                    );
                    vstd::arithmetic::div_mod::lemma_sub_mod_noop(
                        end as int,
                        (end - start) as int,
                        SECS_PER_DAY as int,
                    );
                }
            }
            return Some(DateRange { start, end });
        }
        match self.duration() {
            Some(d) => Some(DateRange { start: end - d, end }),
            None => None,
        }
    }

    /// The time frame's date range now, by the system clock. None for `Max`,
    /// and when the clock reads outside the span the library handles.
    pub fn now_date_range(self) -> (r: Option<DateRange>)
        ensures
            self == TimeFrame::Max ==> r is None,
            r matches Some(dr) ==> exists|now: int|
                valid_now(now) && #[trigger] now_range(self, now) == Some(dr),
            r matches Some(dr) ==> dr.wf() && dr.end % SECS_PER_DAY == 0,
            r is Some && duration_secs(self) is Some ==> r->0.end - r->0.start == duration_secs(
                self,
            )->0,
            r is Some && self == TimeFrame::YearToDate ==> r->0.start == jan_first_of(
                r->0.end as int,
            ) && r->0.start % SECS_PER_DAY == 0,
    {
        let now = clock_now_secs();
        if -CLOCK_LIMIT <= now && now <= CLOCK_LIMIT {
            self.now_date_range_at(now)
        } else {
            None
        }
    }

    /// Reads a time frame literal, ignoring ASCII case.
    pub fn from_str(s: &str) -> (r: Result<TimeFrame, ParseTimeFrameError>)
        ensures
            r == parse_time_frame(s@),
    {
        if str_eq_ignore_case(s, "5d") {
            Ok(TimeFrame::FiveDays)
        } else if str_eq_ignore_case(s, "1m") || str_eq_ignore_case(s, "1mo") {
            Ok(TimeFrame::OneMonth)
        } else if str_eq_ignore_case(s, "3m") || str_eq_ignore_case(s, "3mo") {
            Ok(TimeFrame::ThreeMonths)
        } else if str_eq_ignore_case(s, "6m") || str_eq_ignore_case(s, "6mo") {
            Ok(TimeFrame::SixMonths)
        } else if str_eq_ignore_case(s, "ytd") {
            Ok(TimeFrame::YearToDate)
        } else if str_eq_ignore_case(s, "1y") {
            Ok(TimeFrame::OneYear)
        } else if str_eq_ignore_case(s, "2y") {
            Ok(TimeFrame::TwoYears)
        } else if str_eq_ignore_case(s, "5y") {
            Ok(TimeFrame::FiveYears)
        } else if str_eq_ignore_case(s, "10y") {
            Ok(TimeFrame::TenYears)
        } else if str_eq_ignore_case(s, "max") {
            Ok(TimeFrame::Max)
        } else if s.unicode_len() == 0 {
            Err(ParseTimeFrameError::Empty)
        } else {
            Err(ParseTimeFrameError::Invalid)
        }
    }

    /// The canonical literal of the time frame.
    pub fn to_string(&self) -> (r: String)
        ensures
            r@ == format_time_frame(*self),
    {
        let lit: &str = match self {
            TimeFrame::FiveDays => "5D",
            TimeFrame::OneMonth => "1M",
            TimeFrame::ThreeMonths => "3M",
            TimeFrame::SixMonths => "6M",
            TimeFrame::YearToDate => "YTD",
            TimeFrame::OneYear => "1Y",
            TimeFrame::TwoYears => "2Y",
            TimeFrame::FiveYears => "5Y",
            TimeFrame::TenYears => "10Y",
            TimeFrame::Max => "Max",
        };
        String::from_str(lit)
    }
}

/// A literal spelled character by character as a token.
proof fn lemma_folds_literal(s: Seq<char>, lit: Seq<char>)
    requires
        s.len() == lit.len(),
        s.len() >= 1 ==> char_folds(s[0], lit[0]),
        s.len() >= 2 ==> char_folds(s[1], lit[1]),
        s.len() >= 3 ==> char_folds(s[2], lit[2]),
        s.len() <= 3,
    ensures
        folds_to(s, lit),
{
    assert forall|i: int| 0 <= i < s.len() implies char_folds(#[trigger] s[i], lit[i]) by {
        assert(i == 0 || i == 1 || i == 2);
    }
}

/// Reading the canonical literal of a time frame gives that time frame back.
pub proof fn lemma_time_frame_round_trip(tf: TimeFrame)
    ensures
        parse_time_frame(format_time_frame(tf)) == Ok::<TimeFrame, ParseTimeFrameError>(tf),
{
    reveal_strlit("5d");
    reveal_strlit("1m");
    reveal_strlit("1mo");
    reveal_strlit("3m");
    reveal_strlit("3mo");
    reveal_strlit("6m");
    reveal_strlit("6mo");
    reveal_strlit("ytd");
    reveal_strlit("1y");
    reveal_strlit("2y");
    reveal_strlit("5y");
    reveal_strlit("10y");
    reveal_strlit("max");
    reveal_strlit("5D");
    reveal_strlit("1M");
    reveal_strlit("3M");
    reveal_strlit("6M");
    reveal_strlit("YTD");
    reveal_strlit("1Y");
    reveal_strlit("2Y");
    reveal_strlit("5Y");
    reveal_strlit("10Y");
    reveal_strlit("Max");
    match tf {
        TimeFrame::FiveDays => {
            lemma_folds_literal("5D"@, "5d"@);
        },
        TimeFrame::OneMonth => {
            assert(!char_folds("1M"@[0], "5d"@[0]));
            lemma_folds_literal("1M"@, "1m"@);
        },
        TimeFrame::ThreeMonths => {
            assert(!char_folds("3M"@[0], "5d"@[0]));
            assert(!char_folds("3M"@[0], "1m"@[0]));
            assert("3M"@.len() != "1mo"@.len());
            lemma_folds_literal("3M"@, "3m"@);
        },
        TimeFrame::SixMonths => {
            assert(!char_folds("6M"@[0], "5d"@[0]));
            assert(!char_folds("6M"@[0], "1m"@[0]));
            assert("6M"@.len() != "1mo"@.len());
            assert(!char_folds("6M"@[0], "3m"@[0]));
            assert("6M"@.len() != "3mo"@.len());
            lemma_folds_literal("6M"@, "6m"@);
        },
        TimeFrame::YearToDate => {
            assert("YTD"@.len() != "5d"@.len());
            assert("YTD"@.len() != "1m"@.len());
            assert(!char_folds("YTD"@[0], "1mo"@[0]));
            assert("YTD"@.len() != "3m"@.len());
            assert(!char_folds("YTD"@[0], "3mo"@[0]));
            assert("YTD"@.len() != "6m"@.len());
            assert(!char_folds("YTD"@[0], "6mo"@[0]));
            lemma_folds_literal("YTD"@, "ytd"@);
        },
        TimeFrame::OneYear => {
            assert(!char_folds("1Y"@[0], "5d"@[0]));
            assert(!char_folds("1Y"@[1], "1m"@[1]));
            assert("1Y"@.len() != "1mo"@.len());
            assert(!char_folds("1Y"@[0], "3m"@[0]));
            assert("1Y"@.len() != "3mo"@.len());
            assert(!char_folds("1Y"@[0], "6m"@[0]));
            assert("1Y"@.len() != "6mo"@.len());
            assert("1Y"@.len() != "ytd"@.len());
            lemma_folds_literal("1Y"@, "1y"@);
        },
        TimeFrame::TwoYears => {
            assert(!char_folds("2Y"@[0], "5d"@[0]));
            assert(!char_folds("2Y"@[0], "1m"@[0]));
            assert("2Y"@.len() != "1mo"@.len());
            assert(!char_folds("2Y"@[0], "3m"@[0]));
            assert("2Y"@.len() != "3mo"@.len());
            assert(!char_folds("2Y"@[0], "6m"@[0]));
            assert("2Y"@.len() != "6mo"@.len());
            assert("2Y"@.len() != "ytd"@.len());
            assert(!char_folds("2Y"@[0], "1y"@[0]));
            lemma_folds_literal("2Y"@, "2y"@);
        },
        TimeFrame::FiveYears => {
            assert(!char_folds("5Y"@[1], "5d"@[1]));
            assert(!char_folds("5Y"@[0], "1m"@[0]));
            assert("5Y"@.len() != "1mo"@.len());
            assert(!char_folds("5Y"@[0], "3m"@[0]));
            assert("5Y"@.len() != "3mo"@.len());
            assert(!char_folds("5Y"@[0], "6m"@[0]));
            assert("5Y"@.len() != "6mo"@.len());
            assert("5Y"@.len() != "ytd"@.len());
            assert(!char_folds("5Y"@[0], "1y"@[0]));
            assert(!char_folds("5Y"@[0], "2y"@[0]));
            lemma_folds_literal("5Y"@, "5y"@);
        },
        TimeFrame::TenYears => {
            assert("10Y"@.len() != "5d"@.len());
            assert("10Y"@.len() != "1m"@.len());
            assert(!char_folds("10Y"@[1], "1mo"@[1]));
            assert("10Y"@.len() != "3m"@.len());
            assert(!char_folds("10Y"@[0], "3mo"@[0]));
            assert("10Y"@.len() != "6m"@.len());
            assert(!char_folds("10Y"@[0], "6mo"@[0]));
            assert(!char_folds("10Y"@[0], "ytd"@[0]));
            assert("10Y"@.len() != "1y"@.len());
            assert("10Y"@.len() != "2y"@.len());
            assert("10Y"@.len() != "5y"@.len());
            lemma_folds_literal("10Y"@, "10y"@);
        },
        TimeFrame::Max => {
            assert("Max"@.len() != "5d"@.len());
            assert("Max"@.len() != "1m"@.len());
            assert(!char_folds("Max"@[0], "1mo"@[0]));
            assert("Max"@.len() != "3m"@.len());
            assert(!char_folds("Max"@[0], "3mo"@[0]));
            assert("Max"@.len() != "6m"@.len());
            assert(!char_folds("Max"@[0], "6mo"@[0]));
            assert(!char_folds("Max"@[0], "ytd"@[0]));
            assert("Max"@.len() != "1y"@.len());
            assert("Max"@.len() != "2y"@.len());
            assert("Max"@.len() != "5y"@.len());
            assert(!char_folds("Max"@[0], "10y"@[0]));
            lemma_folds_literal("Max"@, "max"@);
        },
    }
}

/// The empty literal is refused as empty.
pub proof fn lemma_time_frame_empty()
    ensures
        parse_time_frame(Seq::<char>::empty()) == Err::<TimeFrame, ParseTimeFrameError>(
            ParseTimeFrameError::Empty,
        ),
{
    reveal_strlit("5d");
    reveal_strlit("1m");
    reveal_strlit("1mo");
    reveal_strlit("3m");
    reveal_strlit("3mo");
    reveal_strlit("6m");
    reveal_strlit("6mo");
    reveal_strlit("ytd");
    reveal_strlit("1y");
    reveal_strlit("2y");
    reveal_strlit("5y");
    reveal_strlit("10y");
    reveal_strlit("max");
    reveal_strlit("5D");
    reveal_strlit("1M");
    reveal_strlit("3M");
    reveal_strlit("6M");
    reveal_strlit("YTD");
    reveal_strlit("1Y");
    reveal_strlit("2Y");
    reveal_strlit("5Y");
    reveal_strlit("10Y");
    reveal_strlit("Max");
    assert("5d"@.len() > 0);
    assert("1m"@.len() > 0);
    assert("1mo"@.len() > 0);
    assert("3m"@.len() > 0);
    assert("3mo"@.len() > 0);
    assert("6m"@.len() > 0);
    assert("6mo"@.len() > 0);
    assert("ytd"@.len() > 0);
    assert("1y"@.len() > 0);
    assert("2y"@.len() > 0);
    assert("5y"@.len() > 0);
    assert("10y"@.len() > 0);
    assert("max"@.len() > 0);
}

} // verus!
