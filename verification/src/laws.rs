//! What holds of the range computations for all inputs, stated over the
//! model and proved.

use crate::error::RegionError;
use crate::span::{bound_check, carve, read_grant, span, write_grant, Span};
use std::ops::Range;
use vstd::prelude::*;

verus! {

/// A region that starts before the end of a file and ends at or before it is
/// valid for that file.
pub proof fn law_region_inside_file_is_valid(region: Span, len: int)
    requires
        region.start < len,
        region.end <= len,
    ensures
        bound_check(region, len) is Ok,
{
}

/// A region that starts at or beyond the end of a file is refused for its
/// start, whatever its end; one that starts inside the file and ends beyond
/// it is refused for its end.
pub proof fn law_region_outside_file_is_refused(region: Span, len: int)
    ensures
        region.start >= len ==> bound_check(region, len) == Err::<(), _>(
            RegionError::StartOutOfBounds,
        ),
        region.start < len < region.end ==> bound_check(region, len) == Err::<(), _>(
            RegionError::EndOutOfBounds,
        ),
{
}

/// The region that spans a whole file is valid for that file, unless the
/// file is empty: the region `[0, 0)` starts at the end of an empty file and
/// is refused like any other region that does.
pub proof fn law_whole_file_is_valid(len: int)
    requires
        len > 0,
    ensures
        bound_check(Span::whole(len), len) is Ok,
{
}

/// The region that spans a whole file is determined by the file's length:
/// spanning a file twice while its length stays the same gives the same
/// range twice.
pub proof fn law_whole_file_is_determined(first: Range<u64>, second: Range<u64>, len: u64)
    requires
        span(first) == Span::whole(len as int),
        span(second) == Span::whole(len as int),
    ensures
        first == second,
{
}

/// A read that begins inside the region is granted, and may transfer as many
/// bytes as the buffer holds or as the region has left from there, whichever
/// is fewer. A read that begins at or beyond the region's end is refused for
/// its start, provided that the start is a `u64` offset at all; if it is not,
/// the read is refused for the overflow.
pub proof fn law_read_is_granted_iff_it_begins_inside(
    region: Range<u64>,
    offset: u64,
    buf_len: usize,
)
    ensures
        read_grant(span(region), offset as int, buf_len as int) is Ok <==> region.start + offset
            < region.end,
        region.start + offset < region.end ==> read_grant(
            span(region),
            offset as int,
            buf_len as int,
        ) == Ok::<_, RegionError>(
            Span::of_len(
                region.start + offset,
                vstd::math::min(buf_len as int, region.end - (region.start + offset)),
            ),
        ),
        region.end <= region.start + offset <= u64::MAX ==> read_grant(
            span(region),
            offset as int,
            buf_len as int,
        ) == Err::<Span, _>(RegionError::StartOutOfBounds),
{
}

/// A write is granted exactly if it ends at or before the region's end, and
/// then covers exactly the bytes `[start + offset, start + offset + buf_len)`.
///
/// Left out is the empty write placed at the very end of the region: it ends
/// at the region's end, yet does not begin inside the region, and is refused.
pub proof fn law_write_is_granted_iff_it_fits(region: Range<u64>, offset: u64, buf_len: usize)
    requires
        !(buf_len == 0 && region.start + offset == region.end),
    ensures
        write_grant(span(region), offset as int, buf_len as int) is Ok <==> region.start + offset
            + buf_len <= region.end,
        region.start + offset + buf_len <= region.end ==> write_grant(
            span(region),
            offset as int,
            buf_len as int,
        ) == Ok::<_, RegionError>(Span::of_len(region.start + offset, buf_len as int)),
{
}

/// A sub-window `[a, b)` of the region `[s, e)` is granted exactly if
/// `s + b <= e`, and is then `[s + a, s + b)`.
///
/// Left out are the sub-windows that end inside the region without
/// beginning inside it: those with `s + b <= e <= s + a`, such as the empty
/// sub-window placed at the very end of the region. They are refused.
pub proof fn law_subregion_is_granted_iff_it_fits(parent: Range<u64>, child: Range<u64>)
    requires
        !(parent.start + child.end <= parent.end <= parent.start + child.start),
    ensures
        carve(span(parent), span(child)) is Ok <==> parent.start + child.end <= parent.end,
        parent.start + child.end <= parent.end ==> carve(span(parent), span(child)) == Ok::<
            _,
            RegionError,
        >(span(child).shifted(parent.start as int)),
{
}

/// Narrowing twice is narrowing once by the combined offsets: if `first` is
/// granted within `parent`, and `second` within the result, then
/// `[first.start + second.start, first.start + second.end)` is a range of
/// `u64` offsets and is granted within `parent`, with the same result.
pub proof fn law_subregion_composes(
    parent: Range<u64>,
    first: Range<u64>,
    second: Range<u64>,
)
    requires
        carve(span(parent), span(first)) is Ok,
        carve(carve(span(parent), span(first))->Ok_0, span(second)) is Ok,
    ensures
        span(second).shifted(first.start as int).representable(),
        carve(span(parent), span(second).shifted(first.start as int)) == carve(
            carve(span(parent), span(first))->Ok_0,
            span(second),
        ),
{
}

/// Whatever a region grants lies inside the region: a granted sub-window
/// holds no offset that its parent does not hold.
pub proof fn law_subregion_is_within_parent(parent: Range<u64>, child: Range<u64>)
    requires
        carve(span(parent), span(child)) is Ok,
    ensures
        carve(span(parent), span(child))->Ok_0.within(span(parent)),
{
}

} // verus!
