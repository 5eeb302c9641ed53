//! Event-to-state core of a terminal stock dashboard: time frames and date
//! ranges, indicator selections, the overlay arbitration layer, the widget
//! state machines and the aggregate UI snapshot.
use vstd::prelude::*;

pub mod clock;
pub mod date_range;
pub mod frame_rate;
pub mod indicator;
pub mod market;
pub mod overlay;
pub mod reactive;
pub mod text;
pub mod time_frame;
pub mod ui_state;
pub mod widgets;

verus! {

} // verus!
