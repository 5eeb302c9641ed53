//! The date-range navigation state machine: the visible window of the chart,
//! driven by pan and reset events, symbol changes and time-frame changes.
use vstd::prelude::*;
use crate::clock::{INSTANT_LIMIT, valid_now};
use crate::time_frame::{DateRange, TimeFrame, duration_secs, now_range};

verus! {

/// Chart navigation events; `Tick` stands for every event that moves nothing.
#[derive(Clone, Copy, Debug, PartialEq, Eq, Structural)]
pub enum ChartEvent {
    PanBackward,
    PanForward,
    Reset,
    Tick,
}

/// One input of the navigator: the event with the symbol and time frame
/// current when it arrived, and the clock reading (seconds) at its arrival.
#[derive(Clone, Debug)]
pub struct ChartInput {
    pub event: ChartEvent,
    pub symbol: String,
    pub time_frame: TimeFrame,
    pub now: i64,
}

/// The next date range, given the previous state, one input, and the clock
/// reading `now` at that input.
pub open spec fn next_range(
    range: Option<DateRange>,
    symbol: Seq<char>,
    time_frame: TimeFrame,
    ev: ChartEvent,
    new_symbol: Seq<char>,
    new_time_frame: TimeFrame,
    now: int,
) -> Option<DateRange> {
    if symbol != new_symbol || time_frame != new_time_frame {
        now_range(new_time_frame, now)
    } else {
        match ev {
            ChartEvent::PanBackward => pan_backward(range, time_frame),
            ChartEvent::PanForward => pan_forward(range, time_frame, now),
            ChartEvent::Reset => now_range(time_frame, now),
            ChartEvent::Tick => range,
        }
    }
}

/// One duration back from the current start; unchanged for `YearToDate` and
/// `Max`, and where the window would leave the span of instants.
pub open spec fn pan_backward(range: Option<DateRange>, tf: TimeFrame) -> Option<DateRange> {
    match (range, duration_secs(tf)) {
        (Some(r), Some(d)) => if r.start - d >= -INSTANT_LIMIT {
            Some(DateRange { start: (r.start - d) as i64, end: r.start })
        } else {
            range
        },
        _ => range,
    }
}

/// One duration forward from the current end, clamped to the time frame's
/// present window where it would end after it; unchanged for `YearToDate`
/// and `Max`.
pub open spec fn pan_forward(range: Option<DateRange>, tf: TimeFrame, now: int) -> Option<
    DateRange,
> {
    match (range, duration_secs(tf), now_range(tf, now)) {
        (Some(r), Some(d), Some(m)) => if r.end + d > m.end {
            Some(m)
        } else {
            Some(DateRange { start: r.end, end: (r.end + d) as i64 })
        },
        _ => range,
    }
}

/// The navigator's state: the window shown, and the symbol and time frame it
/// was computed for.
#[derive(Clone, Debug)]
pub struct DateRangeNavigator {
    pub date_range: Option<DateRange>,
    pub symbol: String,
    pub time_frame: TimeFrame,
}

impl DateRangeNavigator {
    /// A window is shown exactly when the time frame is not `Max`; it is well
    /// formed, and a `YearToDate` window is a present one.
    pub open spec fn wf(&self) -> bool {
        &&& (self.date_range is None <==> self.time_frame == TimeFrame::Max)
        &&& (self.date_range matches Some(r) ==> r.wf())
        &&& (self.time_frame == TimeFrame::YearToDate ==> exists|now: int|
            valid_now(now) && #[trigger] now_range(TimeFrame::YearToDate, now)
                == self.date_range)
    }

    /// Starts on the present window of `time_frame`.
    pub fn new(symbol: String, time_frame: TimeFrame, now: i64) -> (r: DateRangeNavigator)
        requires
            valid_now(now as int),
        ensures
            r.wf(),
            r.date_range == now_range(time_frame, now as int),
            r.symbol@ == symbol@,
            r.time_frame == time_frame,
    {
        let date_range = time_frame.now_date_range_at(now);
        DateRangeNavigator { date_range, symbol, time_frame }
    }

    /// Takes one input; returns whether the window changed.
    pub fn step(&mut self, ev: ChartEvent, symbol: &String, time_frame: TimeFrame, now: i64) -> (changed: bool)
        requires
            old(self).wf(),
            valid_now(now as int),
        ensures
            final(self).wf(),
            final(self).date_range == next_range(
                old(self).date_range,
                old(self).symbol@,
                old(self).time_frame,
                ev,
                symbol@,
                time_frame,
                now as int,
            ),
            final(self).symbol@ == symbol@,
            final(self).time_frame == time_frame,
            changed == (final(self).date_range != old(self).date_range),
    {
        let prev = self.date_range;
        let symbol_changed = !(self.symbol == *symbol);
        let time_frame_changed = self.time_frame != time_frame;
        let next = if symbol_changed || time_frame_changed {
            time_frame.now_date_range_at(now)
        } else {
            match ev {
                ChartEvent::PanBackward => match (prev, time_frame.duration()) {
                    (Some(r), Some(d)) => if r.start - d >= -INSTANT_LIMIT {
                        Some(DateRange { start: r.start - d, end: r.start })
                    } else {
                        prev
                    },
                    _ => prev,
                },
                ChartEvent::PanForward => {
                    match (prev, time_frame.duration(), time_frame.now_date_range_at(now)) {
                        (Some(r), Some(d), Some(m)) => if r.end + d > m.end {
                            Some(m)
                        } else {
                            Some(DateRange { start: r.end, end: r.end + d })
                        },
                        _ => prev,
                    }
                },
                ChartEvent::Reset => time_frame.now_date_range_at(now),
                ChartEvent::Tick => prev,
            }
        };
        self.date_range = next;
        self.symbol = symbol.clone();
        self.time_frame = time_frame;
        proof {
            if time_frame == TimeFrame::YearToDate {
                if next == now_range(time_frame, now as int) {
                    assert(now_range(TimeFrame::YearToDate, now as int) == self.date_range);
                }
            }
        }
        !opt_range_eq(&next, &prev)
    }
}

/// Whether two optional windows are equal.
pub fn opt_range_eq(a: &Option<DateRange>, b: &Option<DateRange>) -> (r: bool)
    ensures
        r == (*a == *b),
{
    match (a, b) {
        (Some(x), Some(y)) => x.start == y.start && x.end == y.end,
        (None, None) => true,
        _ => false,
    }
}

/// An input in terms of plain values: event, symbol, time frame, clock.
pub type InputView = (ChartEvent, Seq<char>, TimeFrame, int);

/// The windows that follow `inputs` from the navigator state `start`, with
/// each equal consecutive window kept once.
pub open spec fn emitted_ranges(
    start: (Option<DateRange>, Seq<char>, TimeFrame),
    inputs: Seq<InputView>,
) -> Seq<Option<DateRange>>
    decreases inputs.len(),
{
    if inputs.len() == 0 {
        Seq::empty()
    } else {
        let prefix = inputs.drop_last();
        let earlier = emitted_ranges(start, prefix);
        let after = state_after(start, inputs).0;
        if earlier.len() > 0 && earlier.last() == after {
            earlier
        } else {
            earlier.push(after)
        }
    }
}

/// The navigator's state after `inputs`.
pub open spec fn state_after(
    start: (Option<DateRange>, Seq<char>, TimeFrame),
    inputs: Seq<InputView>,
) -> (Option<DateRange>, Seq<char>, TimeFrame)
    decreases inputs.len(),
{
    if inputs.len() == 0 {
        start
    } else {
        let before = state_after(start, inputs.drop_last());
        let last = inputs.last();
        (next_range(before.0, before.1, before.2, last.0, last.1, last.2, last.3), last.1, last.2)
    }
}

/// The abstract view of an input.
pub open spec fn input_view(i: ChartInput) -> InputView {
    (i.event, i.symbol@, i.time_frame, i.now as int)
}

/// Folds the inputs through the navigator, starting from the present window
/// of `init_time_frame` at the clock reading `now`, and keeps each window
/// that differs from the one before it. Each input is taken at its own
/// clock reading.
pub fn to_date_ranges(
    inputs: &Vec<ChartInput>,
    init_symbol: String,
    init_time_frame: TimeFrame,
    now: i64,
) -> (r: Vec<Option<DateRange>>)
    requires
        valid_now(now as int),
        forall|j: int| 0 <= j < inputs@.len() ==> valid_now(#[trigger] inputs@[j].now as int),
    ensures
        r@ == emitted_ranges(
            (now_range(init_time_frame, now as int), init_symbol@, init_time_frame),
            inputs@.map_values(|i: ChartInput| input_view(i)),
        ),
        forall|j: int| 0 <= j < r@.len() ==> (#[trigger] r@[j] matches Some(w) ==> w.wf()),
{
    let ghost start = (now_range(init_time_frame, now as int), init_symbol@, init_time_frame);
    let ghost views = inputs@.map_values(|i: ChartInput| input_view(i));
    let mut nav = DateRangeNavigator::new(init_symbol, init_time_frame, now);
    let mut out: Vec<Option<DateRange>> = Vec::new();
    let mut i: usize = 0;
    while i < inputs.len()
        invariant
            nav.wf(),
            i <= inputs@.len(),
            forall|j: int| 0 <= j < inputs@.len() ==> valid_now(#[trigger] inputs@[j].now as int),
            views == inputs@.map_values(|i: ChartInput| input_view(i)),
            state_after(start, views.subrange(0, i as int)) == (
                nav.date_range,
                nav.symbol@,
                nav.time_frame,
            ),
            out@ == emitted_ranges(start, views.subrange(0, i as int)),
            forall|j: int| 0 <= j < out@.len() ==> (#[trigger] out@[j] matches Some(w) ==> w.wf()),
        decreases inputs@.len() - i,
    {
        let input = &inputs[i];
        assert(valid_now(inputs@[i as int].now as int));
        nav.step(input.event, &input.symbol, input.time_frame, input.now);
        let cur = nav.date_range;
        let repeat = out.len() > 0 && opt_range_eq(&out[out.len() - 1], &cur);
        if !repeat {
            out.push(cur);
        }
        proof {
            let pre = views.subrange(0, i as int);
            let post = views.subrange(0, i as int + 1);
            assert(post.drop_last() =~= pre);
            assert(post.last() == input_view(inputs@[i as int]));
        }
        i = i + 1;
    }
    proof {
        assert(views.subrange(0, inputs@.len() as int) =~= views);
    }
    out
}

/// Panning forward on a time frame with a fixed duration never yields a
/// window that ends after the time frame's present window.
pub proof fn lemma_pan_forward_bounded(
    range: Option<DateRange>,
    symbol: Seq<char>,
    time_frame: TimeFrame,
    now: int,
)
    requires
        valid_now(now),
        duration_secs(time_frame) is Some,
        range is Some,
    ensures
        next_range(range, symbol, time_frame, ChartEvent::PanForward, symbol, time_frame, now)
            matches Some(r) && r.end <= now_range(time_frame, now)->0.end,
{
}

/// Panning either way on `YearToDate` or `Max` leaves the window unchanged.
pub proof fn lemma_pan_without_duration(
    range: Option<DateRange>,
    symbol: Seq<char>,
    time_frame: TimeFrame,
    ev: ChartEvent,
    now: int,
)
    requires
        time_frame == TimeFrame::YearToDate || time_frame == TimeFrame::Max,
        ev == ChartEvent::PanBackward || ev == ChartEvent::PanForward,
    ensures
        next_range(range, symbol, time_frame, ev, symbol, time_frame, now) == range,
{
}

/// A new symbol or a new time frame resets the window to the present window
/// of the new time frame, whatever the event.
pub proof fn lemma_context_switch_resets(
    range: Option<DateRange>,
    symbol: Seq<char>,
    time_frame: TimeFrame,
    ev: ChartEvent,
    new_symbol: Seq<char>,
    new_time_frame: TimeFrame,
    now: int,
)
    requires
        symbol != new_symbol || time_frame != new_time_frame,
    ensures
        next_range(range, symbol, time_frame, ev, new_symbol, new_time_frame, now) == now_range(
            new_time_frame,
            now,
        ),
{
}

/// A navigator state in which a window is shown exactly when the time frame
/// is not `Max`.
pub open spec fn shaped(st: (Option<DateRange>, Seq<char>, TimeFrame)) -> bool {
    st.0 is None <==> st.2 == TimeFrame::Max
}

proof fn lemma_state_after_shaped(
    start: (Option<DateRange>, Seq<char>, TimeFrame),
    inputs: Seq<InputView>,
)
    requires
        shaped(start),
        forall|j: int| 0 <= j < inputs.len() ==> valid_now(#[trigger] inputs[j].3),
    ensures
        shaped(state_after(start, inputs)),
    decreases inputs.len(),
{
    if inputs.len() > 0 {
        let pre = inputs.drop_last();
        assert forall|j: int| 0 <= j < pre.len() implies valid_now(#[trigger] pre[j].3) by {
            assert(pre[j] == inputs[j]);
        }
        lemma_state_after_shaped(start, pre);
        assert(valid_now(inputs[inputs.len() - 1].3));
    }
}

/// Over any run of inputs from a shaped start: a last input that pans forward
/// on an unchanged symbol and time frame with a fixed duration leaves a
/// window that ends no later than the present window at that input.
pub proof fn lemma_run_pan_forward_bounded(
    start: (Option<DateRange>, Seq<char>, TimeFrame),
    inputs: Seq<InputView>,
)
    requires
        shaped(start),
        forall|j: int| 0 <= j < inputs.len() ==> valid_now(#[trigger] inputs[j].3),
        inputs.len() > 0,
        inputs.last().0 == ChartEvent::PanForward,
        inputs.last().1 == state_after(start, inputs.drop_last()).1,
        inputs.last().2 == state_after(start, inputs.drop_last()).2,
        duration_secs(inputs.last().2) is Some,
    ensures
        state_after(start, inputs).0 matches Some(r) && r.end <= now_range(
            inputs.last().2,
            inputs.last().3,
        )->0.end,
{
    let pre = inputs.drop_last();
    assert forall|j: int| 0 <= j < pre.len() implies valid_now(#[trigger] pre[j].3) by {
        assert(pre[j] == inputs[j]);
    }
    lemma_state_after_shaped(start, pre);
    assert(valid_now(inputs[inputs.len() - 1].3));
    let before = state_after(start, pre);
    lemma_pan_forward_bounded(before.0, before.1, before.2, inputs.last().3);
}

/// Over any run of inputs: a last input that pans on an unchanged symbol and
/// `YearToDate` or `Max` time frame leaves the window as it was.
pub proof fn lemma_run_pan_without_duration(
    start: (Option<DateRange>, Seq<char>, TimeFrame),
    inputs: Seq<InputView>,
)
    requires
        inputs.len() > 0,
        inputs.last().0 == ChartEvent::PanBackward || inputs.last().0 == ChartEvent::PanForward,
        inputs.last().1 == state_after(start, inputs.drop_last()).1,
        inputs.last().2 == state_after(start, inputs.drop_last()).2,
        inputs.last().2 == TimeFrame::YearToDate || inputs.last().2 == TimeFrame::Max,
    ensures
        state_after(start, inputs).0 == state_after(start, inputs.drop_last()).0,
{
    let before = state_after(start, inputs.drop_last());
    lemma_pan_without_duration(before.0, before.1, before.2, inputs.last().0, inputs.last().3);
}

/// Over any run of inputs: a last input with a new symbol or time frame
/// resets the window to the present window of its time frame, whatever its
/// event.
pub proof fn lemma_run_context_switch_resets(
    start: (Option<DateRange>, Seq<char>, TimeFrame),
    inputs: Seq<InputView>,
)
    requires
        inputs.len() > 0,
        inputs.last().1 != state_after(start, inputs.drop_last()).1 || inputs.last().2
            != state_after(start, inputs.drop_last()).2,
    ensures
        state_after(start, inputs).0 == now_range(inputs.last().2, inputs.last().3),
{
}

} // verus!
