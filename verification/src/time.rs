use vstd::prelude::*;

verus! {

/// A non-negative span of time, counted in whole milliseconds.
///
/// Delays carried by an outcome are interpreted as "time to wait before
/// acting", never as "time the action takes". Non-negativity is built in:
/// the count is unsigned.
#[derive(Clone, Copy, Debug, PartialEq, Eq, Structural)]
pub struct Duration {
    /// The number of milliseconds in the span.
    pub millis: u64,
}

impl Duration {
    /// Builds the span that lasts `millis` milliseconds.
    pub fn from_millis(millis: u64) -> (duration: Duration)
        ensures
            duration.millis == millis,
    {
        Duration { millis }
    }
}

} // verus!
