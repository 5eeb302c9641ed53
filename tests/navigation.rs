use stocks_dashboard::date_range::{to_date_ranges, ChartEvent, ChartInput, DateRangeNavigator};
use stocks_dashboard::time_frame::{DateRange, TimeFrame};

const DAY: i64 = 86_400;
const NOW: i64 = 1_700_000_000;
const TOMORROW: i64 = 1_700_006_400;

fn input(event: ChartEvent, symbol: &str, time_frame: TimeFrame) -> ChartInput {
    ChartInput { event, symbol: symbol.to_string(), time_frame, now: NOW }
}

#[test]
fn reset_then_two_pans_back() {
    let inputs = vec![
        input(ChartEvent::Reset, "TSLA", TimeFrame::OneMonth),
        input(ChartEvent::PanBackward, "TSLA", TimeFrame::OneMonth),
        input(ChartEvent::PanBackward, "TSLA", TimeFrame::OneMonth),
    ];
    let out = to_date_ranges(&inputs, "TSLA".to_string(), TimeFrame::OneMonth, NOW);
    let end = TimeFrame::OneMonth.now_date_range_at(NOW).unwrap().end;
    assert_eq!(
        out,
        vec![
            Some(DateRange { start: end - 30 * DAY, end }),
            Some(DateRange { start: end - 60 * DAY, end: end - 30 * DAY }),
            Some(DateRange { start: end - 90 * DAY, end: end - 60 * DAY }),
        ]
    );
}

#[test]
fn symbol_switch_resets_range() {
    let inputs = vec![
        input(ChartEvent::PanBackward, "TSLA", TimeFrame::OneMonth),
        input(ChartEvent::PanBackward, "TSLA", TimeFrame::OneMonth),
        input(ChartEvent::PanBackward, "AAPL", TimeFrame::OneMonth),
    ];
    let out = to_date_ranges(&inputs, "TSLA".to_string(), TimeFrame::OneMonth, NOW);
    assert_eq!(out.len(), 3);
    assert_eq!(out[2], TimeFrame::OneMonth.now_date_range_at(NOW));
}

#[test]
fn time_frame_switch_resets_range() {
    let mut nav = DateRangeNavigator::new("TSLA".to_string(), TimeFrame::OneMonth, NOW);
    let sym = "TSLA".to_string();
    nav.step(ChartEvent::PanBackward, &sym, TimeFrame::OneMonth, NOW);
    let changed = nav.step(ChartEvent::PanBackward, &sym, TimeFrame::FiveDays, NOW);
    assert!(changed);
    assert_eq!(nav.date_range, TimeFrame::FiveDays.now_date_range_at(NOW));
    assert_eq!(nav.time_frame, TimeFrame::FiveDays);
}

#[test]
fn pan_forward_never_passes_now() {
    let mut nav = DateRangeNavigator::new("TSLA".to_string(), TimeFrame::FiveDays, NOW);
    let sym = "TSLA".to_string();
    let changed = nav.step(ChartEvent::PanForward, &sym, TimeFrame::FiveDays, NOW);
    assert!(!changed);
    assert_eq!(nav.date_range, Some(DateRange { start: TOMORROW - 5 * DAY, end: TOMORROW }));
    nav.step(ChartEvent::PanBackward, &sym, TimeFrame::FiveDays, NOW);
    nav.step(ChartEvent::PanBackward, &sym, TimeFrame::FiveDays, NOW);
    nav.step(ChartEvent::PanForward, &sym, TimeFrame::FiveDays, NOW);
    assert_eq!(
        nav.date_range,
        Some(DateRange { start: TOMORROW - 10 * DAY, end: TOMORROW - 5 * DAY })
    );
}

#[test]
fn pan_forward_clamps_to_present_window() {
    // the window was computed a day and a half earlier, then the clock moved on
    let mut nav = DateRangeNavigator::new("TSLA".to_string(), TimeFrame::FiveDays, NOW - 3 * DAY);
    let sym = "TSLA".to_string();
    nav.step(ChartEvent::PanForward, &sym, TimeFrame::FiveDays, NOW);
    assert_eq!(nav.date_range, TimeFrame::FiveDays.now_date_range_at(NOW));
}

#[test]
fn pans_leave_year_to_date_and_max_alone() {
    for tf in [TimeFrame::YearToDate, TimeFrame::Max] {
        let mut nav = DateRangeNavigator::new("TSLA".to_string(), tf, NOW);
        let before = nav.date_range;
        let sym = "TSLA".to_string();
        assert!(!nav.step(ChartEvent::PanBackward, &sym, tf, NOW));
        assert!(!nav.step(ChartEvent::PanForward, &sym, tf, NOW));
        assert_eq!(nav.date_range, before);
    }
}

#[test]
fn repeated_windows_are_emitted_once() {
    let inputs = vec![
        input(ChartEvent::Tick, "TSLA", TimeFrame::OneMonth),
        input(ChartEvent::Reset, "TSLA", TimeFrame::OneMonth),
        input(ChartEvent::PanForward, "TSLA", TimeFrame::OneMonth),
    ];
    let out = to_date_ranges(&inputs, "TSLA".to_string(), TimeFrame::OneMonth, NOW);
    assert_eq!(out, vec![TimeFrame::OneMonth.now_date_range_at(NOW)]);
}

#[test]
fn each_input_uses_its_own_clock() {
    let mut late = input(ChartEvent::Reset, "TSLA", TimeFrame::FiveDays);
    late.now = NOW + 2 * DAY;
    let inputs = vec![input(ChartEvent::PanBackward, "TSLA", TimeFrame::FiveDays), late];
    let out = to_date_ranges(&inputs, "TSLA".to_string(), TimeFrame::FiveDays, NOW);
    assert_eq!(
        out,
        vec![
            Some(DateRange { start: TOMORROW - 10 * DAY, end: TOMORROW - 5 * DAY }),
            Some(DateRange { start: TOMORROW - 3 * DAY, end: TOMORROW + 2 * DAY }),
        ]
    );
}

#[test]
fn max_has_no_window() {
    let inputs = vec![input(ChartEvent::Reset, "TSLA", TimeFrame::Max)];
    let out = to_date_ranges(&inputs, "TSLA".to_string(), TimeFrame::OneMonth, NOW);
    assert_eq!(out, vec![None]);
}
