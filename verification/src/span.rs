//! The mathematical model: half-open intervals of byte offsets over the
//! unbounded integers, and the outcome of every range computation as a
//! function of such intervals.

use crate::error::RegionError;
use std::ops::Range;
use vstd::prelude::*;

verus! {

/// The half-open interval `[start, end)` of byte offsets.
///
/// A span is the model of a range of `u64` offsets. Its ends are unbounded
/// integers, so sums of offsets can be written down before it is known
/// whether they fit in 64 bits.
pub struct Span {
    pub start: int,
    pub end: int,
}

impl Span {
    /// `start <= end`: the span does not run backwards.
    pub open spec fn well_formed(self) -> bool {
        self.start <= self.end
    }

    /// The number of offsets in a well-formed span.
    pub open spec fn len(self) -> int {
        self.end - self.start
    }

    /// The span holds no offset.
    pub open spec fn is_empty(self) -> bool {
        self.start >= self.end
    }

    /// The span holds `offset`.
    pub open spec fn contains(self, offset: int) -> bool {
        self.start <= offset < self.end
    }

    /// Every offset of the span is one of `outer`.
    pub open spec fn within(self, outer: Span) -> bool {
        forall|offset: int| self.contains(offset) ==> #[trigger] outer.contains(offset)
    }

    /// Both ends are `u64` values.
    pub open spec fn representable(self) -> bool {
        0 <= self.start <= u64::MAX && 0 <= self.end <= u64::MAX
    }

    /// The span starts before `bound` and does not reach past it. This is
    /// what makes a region valid for a file of length `bound`.
    ///
    /// A span that starts at the bound itself does not fit, not even an empty
    /// one: `[0, 0)` does not fit a bound of 0.
    pub open spec fn fits(self, bound: int) -> bool {
        self.start < bound && self.end <= bound
    }

    /// The span moved up by `base`: relative offsets made absolute.
    pub open spec fn shifted(self, base: int) -> Span {
        Span { start: base + self.start, end: base + self.end }
    }

    /// The span `[start, start + len)`.
    pub open spec fn of_len(start: int, len: int) -> Span {
        Span { start, end: start + len }
    }

    /// The span `[0, len)` of a whole file of `len` bytes.
    pub open spec fn whole(len: int) -> Span {
        Span { start: 0, end: len }
    }
}

/// The span that a range of `u64` offsets stands for.
pub open spec fn span(range: Range<u64>) -> Span {
    Span { start: range.start as int, end: range.end as int }
}

/// The outcome of a range computation in the model: a granted range as the
/// span it stands for, a refusal unchanged.
pub open spec fn span_result(r: Result<Range<u64>, RegionError>) -> Result<Span, RegionError> {
    match r {
        Ok(range) => Ok(span(range)),
        Err(e) => Err(e),
    }
}

/// A span checked against a bound: which way it fails to fit, if it does.
/// The start is judged first.
pub open spec fn bound_check(span: Span, bound: int) -> Result<(), RegionError> {
    if span.start >= bound {
        Err(RegionError::StartOutOfBounds)
    } else if span.end > bound {
        Err(RegionError::EndOutOfBounds)
    } else {
        Ok(())
    }
}

/// The sub-window that `child`, given relative to the start of `parent`,
/// selects from `parent`.
///
/// The absolute span is `child` shifted by `parent.start`. It is refused if
/// its start, or else its end, exceeds `u64::MAX`; otherwise it is checked
/// against the end of `parent` as a span is checked against a file's length.
pub open spec fn carve(parent: Span, child: Span) -> Result<Span, RegionError> {
    let absolute = child.shifted(parent.start);
    if absolute.start > u64::MAX {
        Err(RegionError::StartOverflow)
    } else if absolute.end > u64::MAX {
        Err(RegionError::EndOverflow)
    } else {
        match bound_check(absolute, parent.end) {
            Ok(()) => Ok(absolute),
            Err(e) => Err(e),
        }
    }
}

/// The part of the file that a read of up to `buf_len` bytes at `offset`
/// within `region` may transfer.
///
/// A read must begin inside the region; one that does is cut off at the
/// region's end.
pub open spec fn read_grant(region: Span, offset: int, buf_len: int) -> Result<Span, RegionError> {
    let at = region.start + offset;
    if at > u64::MAX {
        Err(RegionError::StartOverflow)
    } else if at >= region.end {
        Err(RegionError::StartOutOfBounds)
    } else {
        Ok(Span::of_len(at, vstd::math::min(buf_len, region.end - at)))
    }
}

/// The part of the file that a write of `buf_len` bytes at `offset` within
/// `region` covers.
///
/// A write is never cut off: it is granted only if all of it lies inside the
/// region, and then the grant is the whole of it.
pub open spec fn write_grant(region: Span, offset: int, buf_len: int) -> Result<Span, RegionError> {
    carve(region, Span::of_len(offset, buf_len))
}

} // verus!
