//! The market-data boundary: requests are keyed by symbol, time frame and
//! date range; a result is taken only if it answers the latest request, and a
//! failed fetch shows as no data.
use vstd::prelude::*;
use crate::time_frame::{DateRange, TimeFrame};

verus! {

/// What the fetcher is asked for.
#[derive(Clone, Debug)]
pub struct FetchRequest {
    /// Number of the request; later requests have larger numbers.
    pub id: u64,
    pub symbol: String,
    pub time_frame: TimeFrame,
    pub date_range: Option<DateRange>,
}

/// The latest request and the data shown for it.
#[derive(Clone, Debug)]
pub struct FetchTracker<T> {
    /// Number of the latest request, 0 before the first.
    pub latest: u64,
    /// What is shown: none while nothing arrived for the latest request, or
    /// when its fetch failed.
    pub data: Option<T>,
}

impl<T> FetchTracker<T> {
    pub fn new() -> (r: FetchTracker<T>)
        ensures
            r.latest == 0,
            r.data is None,
    {
        FetchTracker { latest: 0, data: None }
    }

    /// Starts a request for a new symbol, time frame or date range; what was
    /// shown is cleared. None once the request numbers are used up.
    pub fn request(&mut self, symbol: String, time_frame: TimeFrame, date_range: Option<DateRange>) -> (r: Option<FetchRequest>)
        ensures
            old(self).latest < u64::MAX ==> (r matches Some(q) && q.id == old(self).latest + 1
                && q.symbol@ == symbol@ && q.time_frame == time_frame && q.date_range
                == date_range && final(self).latest == q.id && final(self).data is None),
            old(self).latest == u64::MAX ==> r is None && final(self).latest == old(self).latest,
    {
        if self.latest == u64::MAX {
            return None;
        }
        self.latest = self.latest + 1;
        self.data = None;
        Some(FetchRequest { id: self.latest, symbol, time_frame, date_range })
    }

    /// A fetch finished: `result` is its data, or none if it failed. Returns
    /// whether it answered the latest request; a superseded one is dropped.
    pub fn complete(&mut self, id: u64, result: Option<T>) -> (taken: bool)
        ensures
            taken == (id == old(self).latest && id != 0),
            final(self).latest == old(self).latest,
            taken ==> final(self).data == result,
            !taken ==> final(self).data == old(self).data,
    {
        if id == self.latest && id != 0 {
            self.data = result;
            true
        } else {
            false
        }
    }
}

} // verus!
