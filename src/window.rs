use vstd::prelude::*;
use crate::instant::{Timestamp, shifted, ts_le, DROP_OFFSET_SECS};

verus! {

/// The window predicted from the last instant a handle was seen bound
/// (`seen`) and the first instant it was seen free (`lost`).
pub open spec fn predicted(seen: Timestamp, lost: Timestamp) -> Option<(Timestamp, Timestamp)> {
    match (shifted(seen), shifted(lost)) {
        (Some(b), Some(e)) => Some((b, e)),
        _ => None,
    }
}

/// Window begin is `seen` plus the offset, window end is `lost` plus the
/// offset; `None` only when one of them leaves the range of `i64` seconds.
pub fn predict_window(seen: Timestamp, lost: Timestamp) -> (r: Option<(Timestamp, Timestamp)>)
    ensures
        r == predicted(seen, lost),
        r is Some <==> seen.secs + DROP_OFFSET_SECS <= i64::MAX && lost.secs + DROP_OFFSET_SECS <= i64::MAX,
{
    match (seen.plus_drop_offset(), lost.plus_drop_offset()) {
        (Some(b), Some(e)) => Some((b, e)),
        _ => None,
    }
}

/// A window computed from instants in order is itself in order: its begin
/// is no later than its end, and each bound lies exactly the offset after
/// its source instant.
pub proof fn lemma_window_ordered(seen: Timestamp, lost: Timestamp)
    requires
        ts_le(seen, lost),
        predicted(seen, lost) is Some,
    ensures
        ts_le(predicted(seen, lost)->Some_0.0, predicted(seen, lost)->Some_0.1),
        predicted(seen, lost)->Some_0.0.secs == seen.secs + DROP_OFFSET_SECS,
        predicted(seen, lost)->Some_0.1.secs == lost.secs + DROP_OFFSET_SECS,
        predicted(seen, lost)->Some_0.0.nanos == seen.nanos,
        predicted(seen, lost)->Some_0.1.nanos == lost.nanos,
{
}

} // verus!
