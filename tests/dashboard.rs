use stocks_dashboard::indicator::{Indicator, Period, StdDevMultiplier};
use stocks_dashboard::overlay::{OverlayCommand, Rect, TargetAreas, UiTarget};
use stocks_dashboard::time_frame::{DateRange, TimeFrame};
use stocks_dashboard::ui_state::{App, InputEvent, UiState};
use stocks_dashboard::widgets::KeyCode;

const DAY: i64 = 86_400;
const NOW: i64 = 1_700_000_000;
const TOMORROW: i64 = 1_700_006_400;
const MS: i64 = NOW * 1000;

fn dashboard() -> App {
    App::new_at("TSLA".to_string(), TimeFrame::OneMonth, None, false, NOW, MS)
}

fn key(d: &mut App, k: KeyCode) {
    d.handle(InputEvent::Key(k), NOW, MS);
}

fn tick(d: &mut App) {
    d.handle(InputEvent::Tick, NOW, MS);
}

#[test]
fn starts_on_present_window() {
    let d = dashboard();
    assert_eq!(d.ui_state.date_range, Some(DateRange { start: TOMORROW - 30 * DAY, end: TOMORROW }));
    assert_eq!(d.ui_state.time_frame_menu.selection(), Some(TimeFrame::OneMonth));
    assert_eq!(d.ui_state.indicator_menu.selection(), None);
    assert_eq!(d.symbol, "TSLA");
    assert!(!d.quit);
}

#[test]
fn starts_on_given_indicator() {
    let ind = Indicator::SimpleMovingAverage(Period(9));
    let d = App::new_at("TSLA".to_string(), TimeFrame::Max, Some(ind), true, NOW, MS);
    assert_eq!(d.ui_state.indicator, Some(ind));
    assert_eq!(d.ui_state.indicator_menu.selected, Some(2));
    assert_eq!(d.ui_state.date_range, None);
    assert!(d.ui_state.debug_draw);
}

#[test]
fn hotkey_opens_on_next_tick() {
    let mut d = dashboard();
    key(&mut d, KeyCode::Char('t'));
    assert_eq!(d.overlay.active, None);
    assert_eq!(d.overlay.pending, vec![OverlayCommand::Toggle(UiTarget::TimeFrameMenu)]);
    tick(&mut d);
    assert_eq!(d.overlay.active, Some(UiTarget::TimeFrameMenu));
    assert!(d.ui_state.time_frame_menu.active);
}

#[test]
fn opening_one_overlay_closes_the_other() {
    let mut d = dashboard();
    key(&mut d, KeyCode::Char('t'));
    tick(&mut d);
    key(&mut d, KeyCode::Char('i'));
    tick(&mut d);
    assert_eq!(d.overlay.active, Some(UiTarget::IndicatorMenu));
    assert!(d.ui_state.indicator_menu.active);
    assert!(!d.ui_state.time_frame_menu.active);
    assert!(!d.ui_state.symbol_field.active);
}

#[test]
fn choosing_a_time_frame_resets_the_window() {
    let mut d = dashboard();
    key(&mut d, KeyCode::Left);
    assert_eq!(
        d.ui_state.date_range,
        Some(DateRange { start: TOMORROW - 60 * DAY, end: TOMORROW - 30 * DAY })
    );
    key(&mut d, KeyCode::Char('t'));
    tick(&mut d);
    key(&mut d, KeyCode::Up);
    key(&mut d, KeyCode::Enter);
    assert_eq!(d.ui_state.time_frame, TimeFrame::FiveDays);
    assert_eq!(d.ui_state.date_range, Some(DateRange { start: TOMORROW - 5 * DAY, end: TOMORROW }));
    tick(&mut d);
    assert_eq!(d.overlay.active, None);
    assert!(!d.ui_state.time_frame_menu.active);
}

#[test]
fn choosing_an_indicator() {
    let mut d = dashboard();
    key(&mut d, KeyCode::Char('i'));
    tick(&mut d);
    key(&mut d, KeyCode::Down);
    key(&mut d, KeyCode::Enter);
    assert_eq!(d.ui_state.indicator, Some(Indicator::BollingerBands(Period(20), StdDevMultiplier(2))));
}

#[test]
fn entering_a_symbol_resets_the_window() {
    let mut d = dashboard();
    key(&mut d, KeyCode::Left);
    key(&mut d, KeyCode::Left);
    key(&mut d, KeyCode::Char('s'));
    tick(&mut d);
    assert!(d.ui_state.symbol_field.active);
    for c in ['a', 'a', 'p', 'l', 'q'] {
        key(&mut d, KeyCode::Char(c));
    }
    assert!(!d.quit);
    key(&mut d, KeyCode::Backspace);
    key(&mut d, KeyCode::Enter);
    assert_eq!(d.symbol, "AAPL");
    assert_eq!(d.ui_state.date_range, TimeFrame::OneMonth.now_date_range_at(NOW));
}

#[test]
fn empty_symbol_is_ignored() {
    let mut d = dashboard();
    key(&mut d, KeyCode::Char('s'));
    tick(&mut d);
    key(&mut d, KeyCode::Enter);
    assert_eq!(d.symbol, "TSLA");
}

#[test]
fn click_on_box_then_miss() {
    let mut d = dashboard();
    let areas = TargetAreas {
        areas: vec![(UiTarget::IndicatorBox, Rect { x: 0, y: 0, width: 20, height: 3 })],
    };
    d.set_target_areas(areas);
    d.handle(InputEvent::Click { column: 5, row: 1 }, NOW, MS);
    tick(&mut d);
    assert_eq!(d.overlay.active, Some(UiTarget::IndicatorMenu));
    d.handle(InputEvent::Click { column: 50, row: 20 }, NOW, MS);
    assert_eq!(d.overlay.active, Some(UiTarget::IndicatorMenu));
    tick(&mut d);
    assert_eq!(d.overlay.active, None);
    assert!(!d.ui_state.indicator_menu.active);
}

#[test]
fn clicking_a_menu_row_picks_it() {
    let mut d = dashboard();
    let areas = TargetAreas {
        areas: vec![
            (UiTarget::TimeFrameBox, Rect { x: 0, y: 0, width: 20, height: 3 }),
            (UiTarget::TimeFrameMenu, Rect { x: 0, y: 3, width: 20, height: 12 }),
        ],
    };
    d.set_target_areas(areas);
    key(&mut d, KeyCode::Char('t'));
    tick(&mut d);
    d.handle(InputEvent::Click { column: 2, row: 8 }, NOW, MS);
    assert_eq!(d.ui_state.time_frame_menu.selection(), Some(TimeFrame::YearToDate));
    key(&mut d, KeyCode::Enter);
    assert_eq!(d.ui_state.time_frame, TimeFrame::YearToDate);
}

#[test]
fn q_quits_only_without_overlay() {
    let mut d = dashboard();
    key(&mut d, KeyCode::Char('q'));
    assert!(d.quit);
}

#[test]
fn frame_rate_reported_on_ticks() {
    let mut d = dashboard();
    for i in 1..=4 {
        d.handle(InputEvent::Tick, NOW, MS + i * 250);
    }
    assert_eq!(d.ui_state.frame_rate, Some(250));
}

#[test]
fn default_state() {
    let s = UiState::default();
    assert_eq!(s.time_frame, TimeFrame::OneMonth);
    assert_eq!(s.indicator, None);
    assert_eq!(s.time_frame_menu.selection(), Some(TimeFrame::OneMonth));
    let r = s.date_range.unwrap();
    assert_eq!(r.end - r.start, 30 * DAY);
}

#[test]
fn system_clock_dashboard() {
    let mut d = App::new("TSLA".to_string(), TimeFrame::FiveDays, None, false).unwrap();
    assert!(d.handle_now(InputEvent::Key(KeyCode::Home)));
    assert_eq!(d.ui_state.date_range, TimeFrame::FiveDays.now_date_range());
}

#[test]
fn own_hotkey_closes_open_menu() {
    let mut d = dashboard();
    key(&mut d, KeyCode::Char('t'));
    tick(&mut d);
    key(&mut d, KeyCode::Down);
    key(&mut d, KeyCode::Char('t'));
    assert_eq!(d.overlay.pending, vec![OverlayCommand::Toggle(UiTarget::TimeFrameMenu)]);
    tick(&mut d);
    assert_eq!(d.overlay.active, None);
    assert!(!d.ui_state.time_frame_menu.active);
    // the navigation was discarded
    assert_eq!(d.ui_state.time_frame_menu.selection(), Some(TimeFrame::OneMonth));
    assert_eq!(d.ui_state.time_frame, TimeFrame::OneMonth);
}

#[test]
fn default_menus_hold_all_candidates() {
    let s = UiState::default();
    assert_eq!(s.time_frame_menu.items, TimeFrame::all());
    assert!(!s.time_frame_menu.allow_empty_selection);
    assert_eq!(s.indicator_menu.items, Indicator::all());
    assert!(s.indicator_menu.allow_empty_selection);
}
