//! The UI state snapshot and the dashboard that derives it, one input event at
//! a time: queued overlay transitions are applied first, then the event is
//! routed to the active widget or to the chart, and the date range follows.
use vstd::prelude::*;
use crate::clock::{clock_now_millis, clock_now_secs, valid_now, CLOCK_LIMIT};
use crate::date_range::{ChartEvent, DateRangeNavigator, next_range};
use crate::frame_rate::{FrameRateCounter, millis_ok, tick, MILLIS_LIMIT};
use crate::indicator::{Indicator, default_indicators};
use crate::overlay::{
    OverlayArbiter, OverlayCommand, Rect, TargetAreas, UiTarget, apply_all, area_in,
    click_commands, hit,
    hotkey_target, hotkey_target_spec, queue_click,
};
use crate::time_frame::{DateRange, TimeFrame, time_frames_in_order};
use crate::widgets::{
    KeyCode, SelectMenuEvent, SelectMenuState, TextFieldEvent, TextFieldState, cursor_down,
    cursor_up, picked, stored_char, value_at,
};

verus! {

/// One input: a key, a left click on a cell, or a timer tick.
#[derive(Clone, Copy, Debug, PartialEq, Eq, Structural)]
pub enum InputEvent {
    Key(KeyCode),
    Click { column: u16, row: u16 },
    Tick,
}

/// What rendering reads once per tick.
#[derive(Clone, Debug)]
pub struct UiState {
    pub date_range: Option<DateRange>,
    pub debug_draw: bool,
    /// The last frame time measured, in milliseconds.
    pub frame_rate: Option<u64>,
    pub indicator: Option<Indicator>,
    pub indicator_menu: SelectMenuState<Indicator>,
    pub symbol_field: TextFieldState,
    pub time_frame: TimeFrame,
    pub time_frame_menu: SelectMenuState<TimeFrame>,
    pub target_areas: TargetAreas,
}

impl Default for UiState {
    /// The state at startup with the default time frame, no indicator, and
    /// the date range of the present by the system clock.
    fn default() -> (r: UiState)
        ensures
            r.time_frame == TimeFrame::OneMonth,
            r.indicator is None,
            !r.debug_draw,
            r.frame_rate is None,
            r.date_range is Some ==> exists|now: int|
                valid_now(now) && r.date_range == #[trigger] crate::time_frame::now_range(
                    TimeFrame::OneMonth,
                    now,
                ),
            r.time_frame_menu.selected == Some(time_frame_row(TimeFrame::OneMonth)),
            r.time_frame_menu.items@ == time_frames_in_order(),
            !r.time_frame_menu.allow_empty_selection,
            r.time_frame_menu.wf(),
            r.indicator_menu.selected is None,
            r.indicator_menu.items@ == default_indicators(),
            r.indicator_menu.allow_empty_selection,
            r.indicator_menu.wf(),
            !r.symbol_field.active,
            !r.time_frame_menu.active,
            !r.indicator_menu.active,
            r.target_areas.areas@.len() == 0,
    {
        let time_frame = TimeFrame::default();
        let mut time_frame_menu = SelectMenuState::new(TimeFrame::all(), false);
        let _ = time_frame_menu.select(Some(time_frame_row_of(time_frame)));
        UiState {
            date_range: time_frame.now_date_range(),
            debug_draw: false,
            frame_rate: None,
            indicator: None,
            indicator_menu: SelectMenuState::new(Indicator::all(), true),
            symbol_field: TextFieldState::new(true),
            time_frame,
            time_frame_menu,
            target_areas: TargetAreas::new(),
        }
    }
}

/// The chart event an input stands for when no overlay is active.
pub open spec fn chart_event_of(ev: InputEvent, active: Option<UiTarget>) -> ChartEvent {
    if active is Some {
        ChartEvent::Tick
    } else {
        match ev {
            InputEvent::Key(KeyCode::Left) => ChartEvent::PanBackward,
            InputEvent::Key(KeyCode::Right) => ChartEvent::PanForward,
            InputEvent::Key(KeyCode::Home) => ChartEvent::Reset,
            _ => ChartEvent::Tick,
        }
    }
}

/// Index of an indicator's kind in the indicator menu.
pub open spec fn indicator_row(i: Indicator) -> usize {
    match i {
        Indicator::BollingerBands(..) => 0,
        Indicator::ExponentialMovingAverage(..) => 1,
        Indicator::SimpleMovingAverage(..) => 2,
    }
}

/// Index of a time frame in the time-frame menu.
pub open spec fn time_frame_row(tf: TimeFrame) -> usize {
    match tf {
        TimeFrame::FiveDays => 0,
        TimeFrame::OneMonth => 1,
        TimeFrame::ThreeMonths => 2,
        TimeFrame::SixMonths => 3,
        TimeFrame::YearToDate => 4,
        TimeFrame::OneYear => 5,
        TimeFrame::TwoYears => 6,
        TimeFrame::FiveYears => 7,
        TimeFrame::TenYears => 8,
        TimeFrame::Max => 9,
    }
}

fn time_frame_row_of(tf: TimeFrame) -> (r: usize)
    ensures
        r == time_frame_row(tf),
{
    match tf {
        TimeFrame::FiveDays => 0,
        TimeFrame::OneMonth => 1,
        TimeFrame::ThreeMonths => 2,
        TimeFrame::SixMonths => 3,
        TimeFrame::YearToDate => 4,
        TimeFrame::OneYear => 5,
        TimeFrame::TwoYears => 6,
        TimeFrame::FiveYears => 7,
        TimeFrame::TenYears => 8,
        TimeFrame::Max => 9,
    }
}

fn indicator_row_of(i: Indicator) -> (r: usize)
    ensures
        r == indicator_row(i),
{
    match i {
        Indicator::BollingerBands(..) => 0,
        Indicator::ExponentialMovingAverage(..) => 1,
        Indicator::SimpleMovingAverage(..) => 2,
    }
}

/// The application state: the snapshot and the state machines behind it.
#[derive(Clone, Debug)]
pub struct App {
    pub ui_state: UiState,
    /// The stock symbol shown.
    pub symbol: String,
    pub overlay: OverlayArbiter,
    pub navigator: DateRangeNavigator,
    pub frame_counter: FrameRateCounter,
    /// Set once the user asked to quit.
    pub quit: bool,
}

impl App {
    /// Each widget is active only while the arbiter holds it active.
    pub open spec fn widgets_follow(&self) -> bool {
        &&& (self.ui_state.symbol_field.active ==> self.overlay.active == Some(UiTarget::StockSymbolField))
        &&& (self.ui_state.time_frame_menu.active ==> self.overlay.active == Some(UiTarget::TimeFrameMenu))
        &&& (self.ui_state.indicator_menu.active ==> self.overlay.active == Some(UiTarget::IndicatorMenu))
    }

    /// Each widget is active exactly while the arbiter holds it active.
    pub open spec fn widgets_match(&self) -> bool {
        &&& (self.ui_state.symbol_field.active <==> self.overlay.active == Some(UiTarget::StockSymbolField))
        &&& (self.ui_state.time_frame_menu.active <==> self.overlay.active == Some(UiTarget::TimeFrameMenu))
        &&& (self.ui_state.indicator_menu.active <==> self.overlay.active == Some(UiTarget::IndicatorMenu))
    }

    /// The cursor of `menu` after a click on `row` that hit `target`: the row
    /// counts from the first line inside the menu's border, as first drawn.
    pub open spec fn menu_pick(
        sel: Option<usize>,
        allow_empty: bool,
        n: nat,
        areas: Seq<(UiTarget, Rect)>,
        target: Option<UiTarget>,
        menu: UiTarget,
        row: u16,
    ) -> Option<usize> {
        if target == Some(menu) && area_in(areas, menu) is Some && row > area_in(areas, menu)->0.y {
            picked(sel, allow_empty, n, row - area_in(areas, menu)->0.y - 1)
        } else {
            sel
        }
    }

    /// What the symbol field holds when a key reaches it: the edit so far, or
    /// nothing if the field opens at this tick.
    pub open spec fn field_before(old_app: App) -> Seq<char> {
        if old_app.ui_state.symbol_field.active {
            old_app.ui_state.symbol_field.value@
        } else {
            Seq::empty()
        }
    }

    pub open spec fn wf(&self) -> bool {
        &&& self.overlay.wf()
        &&& self.ui_state.symbol_field.upper
        &&& self.navigator.wf()
        &&& self.frame_counter.wf()
        &&& self.ui_state.time_frame_menu.wf()
        &&& self.ui_state.time_frame_menu.items@ == time_frames_in_order()
        &&& self.ui_state.time_frame_menu.items@.len() == 10
        &&& !self.ui_state.time_frame_menu.allow_empty_selection
        &&& self.ui_state.indicator_menu.wf()
        &&& self.ui_state.indicator_menu.items@ == default_indicators()
        &&& self.ui_state.indicator_menu.items@.len() == 3
        &&& self.ui_state.indicator_menu.allow_empty_selection
        &&& self.widgets_follow()
        &&& self.ui_state.date_range == self.navigator.date_range
        &&& self.ui_state.time_frame == self.navigator.time_frame
        &&& self.symbol@ == self.navigator.symbol@
    }

    /// The dashboard at startup, with the clock at `now_secs` / `now_millis`.
    pub fn new_at(
        symbol: String,
        time_frame: TimeFrame,
        indicator: Option<Indicator>,
        debug_draw: bool,
        now_secs: i64,
        now_millis: i64,
    ) -> (r: App)
        requires
            valid_now(now_secs as int),
            millis_ok(now_millis as int),
        ensures
            r.wf(),
            r.widgets_match(),
            r.symbol@ == symbol@,
            r.ui_state.time_frame == time_frame,
            r.ui_state.indicator == indicator,
            r.ui_state.debug_draw == debug_draw,
            r.ui_state.date_range == crate::time_frame::now_range(time_frame, now_secs as int),
            r.overlay.active is None,
            r.overlay.pending@.len() == 0,
            r.ui_state.time_frame_menu.selected == Some(time_frame_row(time_frame)),
            r.ui_state.indicator_menu.selected == (match indicator {
                Some(i) => Some(indicator_row(i)),
                None => None::<usize>,
            }),
            !r.quit,
    {
        let mut time_frame_menu = SelectMenuState::new(TimeFrame::all(), false);
        let _ = time_frame_menu.select(Some(time_frame_row_of(time_frame)));
        let mut indicator_menu = SelectMenuState::new(Indicator::all(), true);
        let row = match indicator {
            Some(i) => Some(indicator_row_of(i)),
            None => None,
        };
        let _ = indicator_menu.select(row);
        let navigator = DateRangeNavigator::new(symbol.clone(), time_frame, now_secs);
        let ui = UiState {
            date_range: navigator.date_range,
            debug_draw,
            frame_rate: None,
            indicator,
            indicator_menu,
            symbol_field: TextFieldState::new(true),
            time_frame,
            time_frame_menu,
            target_areas: TargetAreas::new(),
        };
        App {
            ui_state: ui,
            symbol,
            overlay: OverlayArbiter::new(),
            navigator,
            frame_counter: FrameRateCounter::new_at(1000, now_millis),
            quit: false,
        }
    }

    /// The dashboard at startup, by the system clock; none when the clock
    /// reads outside the span the library handles.
    pub fn new(symbol: String, time_frame: TimeFrame, indicator: Option<Indicator>, debug_draw: bool) -> (r: Option<App>)
        ensures
            r matches Some(d) ==> d.wf() && d.widgets_match() && d.symbol@ == symbol@
                && d.ui_state.time_frame == time_frame && d.ui_state.indicator == indicator
                && d.ui_state.debug_draw == debug_draw && !d.quit,
    {
        let now_secs = clock_now_secs();
        let now_millis = clock_now_millis();
        if -CLOCK_LIMIT <= now_secs && now_secs <= CLOCK_LIMIT && -MILLIS_LIMIT <= now_millis
            && now_millis <= MILLIS_LIMIT {
            Some(App::new_at(symbol, time_frame, indicator, debug_draw, now_secs, now_millis))
        } else {
            None
        }
    }

    /// Takes one input event by the system clock; returns false, leaving the
    /// dashboard as it was, when the clock reads outside the span the library
    /// handles.
    pub fn handle_now(&mut self, ev: InputEvent) -> (r: bool)
        requires
            old(self).wf(),
        ensures
            final(self).wf(),
            !r ==> *final(self) == *old(self),
            r ==> exists|now_secs: int|
                valid_now(now_secs) && final(self).ui_state.date_range == #[trigger] next_range(
                    old(self).navigator.date_range,
                    old(self).navigator.symbol@,
                    old(self).navigator.time_frame,
                    chart_event_of(ev, final(self).overlay.active),
                    final(self).symbol@,
                    final(self).ui_state.time_frame,
                    now_secs,
                ),
            r ==> final(self).overlay.active == apply_all(old(self).overlay.active, old(self).overlay.pending@),
    {
        let now_secs = clock_now_secs();
        let now_millis = clock_now_millis();
        if -CLOCK_LIMIT <= now_secs && now_secs <= CLOCK_LIMIT && -MILLIS_LIMIT <= now_millis
            && now_millis <= MILLIS_LIMIT {
            self.handle(ev, now_secs, now_millis);
            true
        } else {
            false
        }
    }

    /// Opens or closes each widget to match the arbiter.
    fn sync_widgets(&mut self)
        requires
            old(self).ui_state.time_frame_menu.wf(),
            old(self).ui_state.indicator_menu.wf(),
        ensures
            final(self).widgets_match(),
            final(self).overlay == old(self).overlay,
            final(self).navigator == old(self).navigator,
            final(self).frame_counter == old(self).frame_counter,
            final(self).symbol == old(self).symbol,
            final(self).quit == old(self).quit,
            final(self).ui_state.date_range == old(self).ui_state.date_range,
            final(self).ui_state.time_frame == old(self).ui_state.time_frame,
            final(self).ui_state.indicator == old(self).ui_state.indicator,
            final(self).ui_state.target_areas == old(self).ui_state.target_areas,
            final(self).ui_state.frame_rate == old(self).ui_state.frame_rate,
            final(self).ui_state.debug_draw == old(self).ui_state.debug_draw,
            final(self).ui_state.time_frame_menu.wf(),
            final(self).ui_state.time_frame_menu.items@ == old(self).ui_state.time_frame_menu.items@,
            final(self).ui_state.time_frame_menu.allow_empty_selection
                == old(self).ui_state.time_frame_menu.allow_empty_selection,
            final(self).ui_state.indicator_menu.wf(),
            final(self).ui_state.indicator_menu.items@ == old(self).ui_state.indicator_menu.items@,
            final(self).ui_state.indicator_menu.allow_empty_selection
                == old(self).ui_state.indicator_menu.allow_empty_selection,
            final(self).ui_state.symbol_field.upper == old(self).ui_state.symbol_field.upper,
            old(self).ui_state.symbol_field.active && old(self).overlay.active == Some(
                UiTarget::StockSymbolField,
            ) ==> final(self).ui_state.symbol_field.value@ == old(self).ui_state.symbol_field.value@,
            !old(self).ui_state.symbol_field.active && old(self).overlay.active == Some(
                UiTarget::StockSymbolField,
            ) ==> final(self).ui_state.symbol_field.value@.len() == 0,
            old(self).overlay.active == Some(UiTarget::TimeFrameMenu)
                ==> final(self).ui_state.time_frame_menu.selected
                == old(self).ui_state.time_frame_menu.selected,
            old(self).overlay.active == Some(UiTarget::IndicatorMenu)
                ==> final(self).ui_state.indicator_menu.selected
                == old(self).ui_state.indicator_menu.selected,
    {
        let active = self.overlay.active;
        let field_on = active == Some(UiTarget::StockSymbolField);
        if self.ui_state.symbol_field.active && !field_on {
            self.ui_state.symbol_field.deactivate();
        } else if !self.ui_state.symbol_field.active && field_on {
            self.ui_state.symbol_field.activate();
        }
        let tf_on = active == Some(UiTarget::TimeFrameMenu);
        if self.ui_state.time_frame_menu.active && !tf_on {
            self.ui_state.time_frame_menu.deactivate();
        } else if !self.ui_state.time_frame_menu.active && tf_on {
            self.ui_state.time_frame_menu.activate();
        }
        let ind_on = active == Some(UiTarget::IndicatorMenu);
        if self.ui_state.indicator_menu.active && !ind_on {
            self.ui_state.indicator_menu.deactivate();
        } else if !self.ui_state.indicator_menu.active && ind_on {
            self.ui_state.indicator_menu.activate();
        }
    }

    /// Replaces the target areas with those of the latest render.
    pub fn set_target_areas(&mut self, areas: TargetAreas)
        requires
            old(self).wf(),
        ensures
            final(self).wf(),
            final(self).ui_state.target_areas.areas@ == areas.areas@,
    {
        self.ui_state.target_areas = areas;
    }

    /// Takes one input event with the clock at `now_secs` / `now_millis`.
    #[verifier::rlimit(60)]
    pub fn handle(&mut self, ev: InputEvent, now_secs: i64, now_millis: i64)
        requires
            old(self).wf(),
            valid_now(now_secs as int),
            millis_ok(now_millis as int),
        ensures
            final(self).wf(),
            // queued transitions are applied before the event is looked at
            final(self).overlay.active == apply_all(old(self).overlay.active, old(self).overlay.pending@),
            // the window follows the navigator's rule
            final(self).ui_state.date_range == next_range(
                old(self).navigator.date_range,
                old(self).navigator.symbol@,
                old(self).navigator.time_frame,
                chart_event_of(ev, final(self).overlay.active),
                final(self).symbol@,
                final(self).ui_state.time_frame,
                now_secs as int,
            ),
            // a tick changes nothing but the overlays and the frame time
            ev == InputEvent::Tick ==> final(self).widgets_match() && final(self).symbol@ == old(
                self,
            ).symbol@ && final(self).ui_state.time_frame == old(self).ui_state.time_frame
                && final(self).ui_state.indicator == old(self).ui_state.indicator
                && final(self).overlay.pending@.len() == 0,
            // a hotkey with no overlay open toggles its overlay at the next tick
            // a hotkey, unless the symbol field takes the key, toggles its overlay at
            // the next tick, also while a menu is open (closing it, or the other menu)
            ev matches InputEvent::Key(KeyCode::Char(c)) ==> (final(self).overlay.active != Some(
                UiTarget::StockSymbolField,
            ) ==> final(self).overlay.pending@ == (if hotkey_target_spec(c) is Some {
                seq![OverlayCommand::Toggle(hotkey_target_spec(c)->0)]
            } else {
                Seq::<OverlayCommand>::empty()
            })),
            // typing in the open symbol field appends the (upper-cased) character
            ev matches InputEvent::Key(KeyCode::Char(c)) ==> (final(self).overlay.active == Some(
                UiTarget::StockSymbolField,
            ) ==> final(self).ui_state.symbol_field.value@.len() == App::field_before(*old(self)).len()
                + 1 && final(self).ui_state.symbol_field.value@.drop_last() == App::field_before(
                *old(self),
            ) && stored_char(true, c, final(self).ui_state.symbol_field.value@.last())),
            // Backspace in the open symbol field removes the last character
            ev == InputEvent::Key(KeyCode::Backspace) && final(self).overlay.active == Some(
                UiTarget::StockSymbolField,
            ) ==> final(self).ui_state.symbol_field.value@ == (if App::field_before(
                *old(self),
            ).len() == 0 {
                App::field_before(*old(self))
            } else {
                App::field_before(*old(self)).drop_last()
            }),
            // Up and Down move the cursor of the open menu, without wraparound
            ev == InputEvent::Key(KeyCode::Up) && final(self).overlay.active == Some(
                UiTarget::TimeFrameMenu,
            ) ==> final(self).ui_state.time_frame_menu.selected == cursor_up(
                old(self).ui_state.time_frame_menu.selected,
                false,
            ),
            ev == InputEvent::Key(KeyCode::Down) && final(self).overlay.active == Some(
                UiTarget::TimeFrameMenu,
            ) ==> final(self).ui_state.time_frame_menu.selected == cursor_down(
                old(self).ui_state.time_frame_menu.selected,
                10,
            ),
            ev == InputEvent::Key(KeyCode::Up) && final(self).overlay.active == Some(
                UiTarget::IndicatorMenu,
            ) ==> final(self).ui_state.indicator_menu.selected == cursor_up(
                old(self).ui_state.indicator_menu.selected,
                true,
            ),
            ev == InputEvent::Key(KeyCode::Down) && final(self).overlay.active == Some(
                UiTarget::IndicatorMenu,
            ) ==> final(self).ui_state.indicator_menu.selected == cursor_down(
                old(self).ui_state.indicator_menu.selected,
                3,
            ),
            // a click asks each overlay's behaviour table
            ev matches InputEvent::Click { column, row } ==> final(self).overlay.pending@ == click_commands(
                hit(old(self).ui_state.target_areas.areas@, column, row),
            ),
            // a click inside the open menu picks the row under it
            ev matches InputEvent::Click { column, row } ==> (final(self).overlay.active == Some(
                UiTarget::TimeFrameMenu,
            ) ==> final(self).ui_state.time_frame_menu.selected == App::menu_pick(
                old(self).ui_state.time_frame_menu.selected,
                false,
                10,
                old(self).ui_state.target_areas.areas@,
                hit(old(self).ui_state.target_areas.areas@, column, row),
                UiTarget::TimeFrameMenu,
                row,
            )),
            ev matches InputEvent::Click { column, row } ==> (final(self).overlay.active == Some(
                UiTarget::IndicatorMenu,
            ) ==> final(self).ui_state.indicator_menu.selected == App::menu_pick(
                old(self).ui_state.indicator_menu.selected,
                true,
                3,
                old(self).ui_state.target_areas.areas@,
                hit(old(self).ui_state.target_areas.areas@, column, row),
                UiTarget::IndicatorMenu,
                row,
            )),
            // Enter or Esc on an open overlay closes it at the next tick
            (ev == InputEvent::Key(KeyCode::Enter) || ev == InputEvent::Key(KeyCode::Esc))
                && final(self).overlay.active is Some ==> final(self).overlay.pending@ == seq![
                OverlayCommand::Close(final(self).overlay.active->0)],
            // Enter on the time-frame menu selects the time frame under the cursor
            ev == InputEvent::Key(KeyCode::Enter) && final(self).overlay.active == Some(
                UiTarget::TimeFrameMenu,
            ) ==> Some(final(self).ui_state.time_frame) == value_at(
                final(self).ui_state.time_frame_menu.items@,
                final(self).ui_state.time_frame_menu.selected,
            ),
            // Enter on the indicator menu selects the indicator under the cursor
            ev == InputEvent::Key(KeyCode::Enter) && final(self).overlay.active == Some(
                UiTarget::IndicatorMenu,
            ) ==> final(self).ui_state.indicator == value_at(
                final(self).ui_state.indicator_menu.items@,
                final(self).ui_state.indicator_menu.selected,
            ),
            // the symbol changes only on a non-empty accepted entry
            final(self).symbol@ != old(self).symbol@ ==> ev == InputEvent::Key(KeyCode::Enter)
                && final(self).overlay.active == Some(UiTarget::StockSymbolField)
                && final(self).symbol@.len() > 0,
            // Enter in the open symbol field takes a non-empty entry as the symbol
            ev == InputEvent::Key(KeyCode::Enter) && old(self).ui_state.symbol_field.active
                && final(self).overlay.active == Some(UiTarget::StockSymbolField)
                && old(self).ui_state.symbol_field.value@.len() > 0
                ==> final(self).symbol@ == old(self).ui_state.symbol_field.value@,
            // 'q' quits when nothing captures the keyboard
            final(self).quit == (old(self).quit || (ev == InputEvent::Key(KeyCode::Char('q'))
                && final(self).overlay.active is None)),
            // ticks drive the frame counter
            ev == InputEvent::Tick ==> final(self).frame_counter == tick(
                old(self).frame_counter,
                now_millis as int,
            ).0,
            ev != InputEvent::Tick ==> final(self).frame_counter == old(self).frame_counter,
    {
        self.overlay.flush();
        self.sync_widgets();
        let active = self.overlay.active;
        let mut chart = ChartEvent::Tick;
        match ev {
            InputEvent::Key(key) => {
                if active == Some(UiTarget::StockSymbolField) {
                    match self.ui_state.symbol_field.handle_key(key) {
                        Some(TextFieldEvent::Accept(s)) => {
                            if s.unicode_len() > 0 {
                                self.symbol = s;
                            }
                            self.overlay.queue(OverlayCommand::Close(UiTarget::StockSymbolField));
                        },
                        Some(TextFieldEvent::Cancel) => {
                            self.overlay.queue(OverlayCommand::Close(UiTarget::StockSymbolField));
                        },
                        None => {},
                    }
                } else if active == Some(UiTarget::TimeFrameMenu) {
                    match self.ui_state.time_frame_menu.handle_key(key) {
                        Some(SelectMenuEvent::Accept(v)) => {
                            if let Some(tf) = v {
                                self.ui_state.time_frame = tf;
                            }
                            self.overlay.queue(OverlayCommand::Close(UiTarget::TimeFrameMenu));
                        },
                        Some(SelectMenuEvent::Cancel) => {
                            self.overlay.queue(OverlayCommand::Close(UiTarget::TimeFrameMenu));
                        },
                        None => {
                            self.queue_hotkey(key);
                        },
                    }
                } else if active == Some(UiTarget::IndicatorMenu) {
                    match self.ui_state.indicator_menu.handle_key(key) {
                        Some(SelectMenuEvent::Accept(v)) => {
                            self.ui_state.indicator = v;
                            self.overlay.queue(OverlayCommand::Close(UiTarget::IndicatorMenu));
                        },
                        Some(SelectMenuEvent::Cancel) => {
                            self.overlay.queue(OverlayCommand::Close(UiTarget::IndicatorMenu));
                        },
                        None => {
                            self.queue_hotkey(key);
                        },
                    }
                } else {
                    match key {
                        KeyCode::Char(c) => {
                            if c == 'q' {
                                self.quit = true;
                            }
                            self.queue_hotkey(key);
                        },
                        KeyCode::Left => {
                            chart = ChartEvent::PanBackward;
                        },
                        KeyCode::Right => {
                            chart = ChartEvent::PanForward;
                        },
                        KeyCode::Home => {
                            chart = ChartEvent::Reset;
                        },
                        _ => {},
                    }
                }
            },
            InputEvent::Click { column, row } => {
                let h = self.ui_state.target_areas.hit_test(column, row);
                if active.is_some() && h == active {
                    self.pick_menu_row(h, row);
                }
                queue_click(&mut self.overlay, h);
            },
            InputEvent::Tick => {
                self.frame_counter.incr_at(now_millis);
                self.ui_state.frame_rate = self.frame_counter.frame_time();
            },
        }
        let symbol = self.symbol.clone();
        self.navigator.step(chart, &symbol, self.ui_state.time_frame, now_secs);
        self.ui_state.date_range = self.navigator.date_range;
    }

    /// Queues the overlay toggle of a hotkey, if `key` is one.
    fn queue_hotkey(&mut self, key: KeyCode)
        requires
            old(self).overlay.wf(),
        ensures
            final(self).overlay.wf(),
            final(self).overlay.active == old(self).overlay.active,
            final(self).overlay.pending@ == (match key {
                KeyCode::Char(c) => match hotkey_target_spec(c) {
                    Some(t) => old(self).overlay.pending@.push(OverlayCommand::Toggle(t)),
                    None => old(self).overlay.pending@,
                },
                _ => old(self).overlay.pending@,
            }),
            final(self).ui_state == old(self).ui_state,
            final(self).symbol == old(self).symbol,
            final(self).navigator == old(self).navigator,
            final(self).frame_counter == old(self).frame_counter,
            final(self).quit == old(self).quit,
    {
        if let KeyCode::Char(c) = key {
            if let Some(t) = hotkey_target(c) {
                self.overlay.queue(OverlayCommand::Toggle(t));
            }
        }
    }

    /// Picks the row under a click inside an open menu.
    fn pick_menu_row(&mut self, target: Option<UiTarget>, row: u16)
        requires
            old(self).ui_state.time_frame_menu.wf(),
            old(self).ui_state.indicator_menu.wf(),
        ensures
            final(self).ui_state.time_frame_menu.wf(),
            final(self).ui_state.indicator_menu.wf(),
            final(self).ui_state.time_frame_menu.active == old(self).ui_state.time_frame_menu.active,
            final(self).ui_state.time_frame_menu.items@ == old(self).ui_state.time_frame_menu.items@,
            final(self).ui_state.time_frame_menu.allow_empty_selection
                == old(self).ui_state.time_frame_menu.allow_empty_selection,
            final(self).ui_state.time_frame_menu.selected == App::menu_pick(
                old(self).ui_state.time_frame_menu.selected,
                old(self).ui_state.time_frame_menu.allow_empty_selection,
                old(self).ui_state.time_frame_menu.items@.len(),
                old(self).ui_state.target_areas.areas@,
                target,
                UiTarget::TimeFrameMenu,
                row,
            ),
            final(self).ui_state.indicator_menu.selected == App::menu_pick(
                old(self).ui_state.indicator_menu.selected,
                old(self).ui_state.indicator_menu.allow_empty_selection,
                old(self).ui_state.indicator_menu.items@.len(),
                old(self).ui_state.target_areas.areas@,
                target,
                UiTarget::IndicatorMenu,
                row,
            ),
            final(self).ui_state.indicator_menu.active == old(self).ui_state.indicator_menu.active,
            final(self).ui_state.indicator_menu.items@ == old(self).ui_state.indicator_menu.items@,
            final(self).ui_state.indicator_menu.allow_empty_selection
                == old(self).ui_state.indicator_menu.allow_empty_selection,
            final(self).ui_state.symbol_field == old(self).ui_state.symbol_field,
            final(self).ui_state.target_areas == old(self).ui_state.target_areas,
            final(self).ui_state.time_frame == old(self).ui_state.time_frame,
            final(self).ui_state.indicator == old(self).ui_state.indicator,
            final(self).ui_state.date_range == old(self).ui_state.date_range,
            final(self).ui_state.frame_rate == old(self).ui_state.frame_rate,
            final(self).ui_state.debug_draw == old(self).ui_state.debug_draw,
            final(self).overlay == old(self).overlay,
            final(self).symbol == old(self).symbol,
            final(self).navigator == old(self).navigator,
            final(self).frame_counter == old(self).frame_counter,
            final(self).quit == old(self).quit,
    {
        if let Some(t) = target {
            if let Some(rect) = self.ui_state.target_areas.area_of(t) {
                // the first row inside the menu's border is row 0
                if row > rect.y {
                    let r = (row - rect.y - 1) as usize;
                    if t == UiTarget::TimeFrameMenu {
                        self.ui_state.time_frame_menu.pick_row(r);
                    } else if t == UiTarget::IndicatorMenu {
                        self.ui_state.indicator_menu.pick_row(r);
                    }
                }
            }
        }
    }
}

/// At most one overlay widget is active in any well-formed dashboard.
pub proof fn lemma_one_widget_active(d: App)
    requires
        d.wf(),
    ensures
        !(d.ui_state.symbol_field.active && d.ui_state.time_frame_menu.active),
        !(d.ui_state.symbol_field.active && d.ui_state.indicator_menu.active),
        !(d.ui_state.time_frame_menu.active && d.ui_state.indicator_menu.active),
{
}

} // verus!
