//! Range arithmetic on `u64` offsets: checking a range against a bound, and
//! deriving an absolute sub-range from a relative one.

use crate::error::RegionError;
use crate::span::{bound_check, carve, span, span_result};
use std::ops::Range;
use vstd::prelude::*;

verus! {

/// Checks `range` against `len`, the length of a file or the end of an
/// enclosing range.
///
/// The range passes if it starts before `len` and ends at or before it. A
/// start at or beyond `len` is reported as such whatever the end is.
pub fn validate_range(range: &Range<u64>, len: u64) -> (r: Result<(), RegionError>)
    ensures
        r == bound_check(span(*range), len as int),
        r is Ok <==> range.start < len && range.end <= len,
        r == Err::<(), RegionError>(RegionError::StartOutOfBounds) <==> range.start >= len,
        r == Err::<(), RegionError>(RegionError::EndOutOfBounds) <==> range.start < len < range.end,
{
    if range.start >= len {
        Err(RegionError::StartOutOfBounds)
    } else if range.end > len {
        Err(RegionError::EndOutOfBounds)
    } else {
        Ok(())
    }
}

/// Derives from `child`, a range relative to the start of `parent`, the
/// absolute range `[parent.start + child.start, parent.start + child.end)`.
///
/// Each sum is checked for overflow on its own, the start first. The absolute
/// range is then checked against `parent.end`.
pub fn subrange(parent: &Range<u64>, child: Range<u64>) -> (r: Result<Range<u64>, RegionError>)
    ensures
        span_result(r) == carve(span(*parent), span(child)),
        r matches Ok(absolute) ==> absolute.start == parent.start + child.start && absolute.end
            == parent.start + child.end,
        r is Ok <==> parent.start + child.start < parent.end && parent.start + child.end
            <= parent.end,
        r == Err::<Range<u64>, _>(RegionError::StartOverflow) <==> parent.start + child.start
            > u64::MAX,
        r == Err::<Range<u64>, _>(RegionError::EndOverflow) <==> parent.start + child.start
            <= u64::MAX < parent.start + child.end,
        r == Err::<Range<u64>, _>(RegionError::StartOutOfBounds) <==> parent.end <= parent.start
            + child.start <= u64::MAX && parent.start + child.end <= u64::MAX,
        r == Err::<Range<u64>, _>(RegionError::EndOutOfBounds) <==> parent.start + child.start
            < parent.end < parent.start + child.end <= u64::MAX,
{
    let start = match parent.start.checked_add(child.start) {
        Some(start) => start,
        None => { return Err(RegionError::StartOverflow); },
    };
    let end = match parent.start.checked_add(child.end) {
        Some(end) => end,
        None => { return Err(RegionError::EndOverflow); },
    };
    let absolute = start..end;
    match validate_range(&absolute, parent.end) {
        Ok(()) => Ok(absolute),
        Err(e) => Err(e),
    }
}

} // verus!
