//! The region itself: a borrowed file handle and the range of the file that
//! may be reached through it.

use crate::bounds::{subrange, validate_range};
use crate::error::{FileRegionError, RegionError};
use crate::span::{bound_check, carve, read_grant, span, span_result, write_grant, Span};
use std::ops::Range;
use vstd::prelude::*;

verus! {

/// A window `[start, end)` of absolute byte offsets over a borrowed file
/// handle of type `F`.
///
/// The region borrows the handle and cannot outlive it. It never uses the
/// handle itself: it answers, by arithmetic alone, which span of the file a
/// request may touch, and the caller carries the transfer out on
/// [`file`](FileRegion::file). The range is taken as given; it is compared
/// with the file's length only by [`validate`](FileRegion::validate),
/// [`is_valid`](FileRegion::is_valid) and [`try_new`](FileRegion::try_new).
pub struct FileRegion<'a, F> {
    file: &'a F,
    range: Range<u64>,
}

impl<'a, F> View for FileRegion<'a, F> {
    type V = Span;

    /// The span of the file that the region covers.
    closed spec fn view(&self) -> Span {
        span(self.range)
    }
}

impl<'a, F> FileRegion<'a, F> {
    /// The file handle that the region borrows.
    pub closed spec fn handle(&self) -> &'a F {
        self.file
    }

    /// A region over `file` with the given range. The range is stored as it
    /// is and compared with nothing.
    pub fn new(file: &'a F, range: Range<u64>) -> (r: Self)
        ensures
            r@ == span(range),
            r.handle() == file,
    {
        FileRegion { file, range }
    }

    /// A region over `file` with the given range, provided that the range is
    /// valid for the file's current length. `file_len` is the outcome of
    /// querying the handle for that length.
    ///
    /// A failed query is passed on unchanged; a range that does not fit the
    /// length is refused with the way in which it does not fit.
    pub fn try_new(file: &'a F, range: Range<u64>, file_len: Result<u64, std::io::Error>) -> (r:
        Result<Self, FileRegionError>)
        ensures
            match file_len {
                Err(e) => r matches Err(FileRegionError::Io(x)) && x == e,
                Ok(len) => match bound_check(span(range), len as int) {
                    Ok(()) => r matches Ok(region) && region@ == span(range) && region.handle()
                        == file,
                    Err(e) => r matches Err(FileRegionError::Region(x)) && x == e,
                },
            },
    {
        let region = FileRegion::new(file, range);
        match region.validate(file_len) {
            Ok(()) => Ok(region),
            Err(e) => Err(e),
        }
    }

    /// The region `[0, len)` that spans the whole of `file`, where `file_len`
    /// is the outcome of querying the handle for its current length. Fails
    /// only if that query failed, with the query's own error.
    pub fn from_file(file: &'a F, file_len: Result<u64, std::io::Error>) -> (r: Result<
        Self,
        std::io::Error,
    >)
        ensures
            match file_len {
                Err(e) => r matches Err(x) && x == e,
                Ok(len) => r matches Ok(region) && region@ == Span::whole(len as int)
                    && region.handle() == file,
            },
    {
        match file_len {
            Ok(len) => Ok(FileRegion { file, range: 0..len }),
            Err(e) => Err(e),
        }
    }

    /// The borrowed file handle, for the caller to carry out a transfer on.
    pub fn file(&self) -> (r: &'a F)
        ensures
            r == self.handle(),
    {
        self.file
    }

    /// The range that the region covers, in absolute offsets.
    pub fn range(self) -> (r: Range<u64>)
        ensures
            span(r) == self@,
    {
        self.range
    }

    /// The number of bytes that the region covers.
    pub fn len(&self) -> (r: u64)
        requires
            self@.well_formed(),
        ensures
            r == self@.len(),
    {
        self.range.end - self.range.start
    }

    /// Whether the region covers no byte at all.
    pub fn is_empty(&self) -> (r: bool)
        ensures
            r == self@.is_empty(),
    {
        self.range.start >= self.range.end
    }

    /// Whether the region is valid for the file's current length: whether it
    /// starts before the end of the file and does not reach past it.
    /// `file_len` is the outcome of querying the handle for that length; a
    /// failed query is passed on unchanged.
    pub fn is_valid(&self, file_len: Result<u64, std::io::Error>) -> (r: Result<
        bool,
        std::io::Error,
    >)
        ensures
            match file_len {
                Err(e) => r matches Err(x) && x == e,
                Ok(len) => r matches Ok(valid) && (valid <==> self@.fits(len as int)),
            },
    {
        match file_len {
            Ok(len) => Ok(validate_range(&self.range, len).is_ok()),
            Err(e) => Err(e),
        }
    }

    /// Checks the region against the file's current length and says in which
    /// way it is invalid, if it is. `file_len` is the outcome of querying the
    /// handle for that length; a failed query is passed on unchanged.
    pub fn validate(&self, file_len: Result<u64, std::io::Error>) -> (r: Result<
        (),
        FileRegionError,
    >)
        ensures
            match file_len {
                Err(e) => r matches Err(FileRegionError::Io(x)) && x == e,
                Ok(len) => match bound_check(self@, len as int) {
                    Ok(()) => r is Ok,
                    Err(e) => r matches Err(FileRegionError::Region(x)) && x == e,
                },
            },
    {
        match file_len {
            Ok(len) => match validate_range(&self.range, len) {
                Ok(()) => Ok(()),
                Err(e) => Err(FileRegionError::Region(e)),
            },
            Err(e) => Err(FileRegionError::Io(e)),
        }
    }

    /// Bounds a read of up to `buf_len` bytes at `offset` from the start of
    /// the region, and returns the absolute range of the file to read from.
    ///
    /// The read must begin inside the region: if `start + offset` does not
    /// fit in 64 bits, or lies at or beyond the region's end, the read is
    /// refused and nothing is to be transferred. Otherwise the range begins
    /// at `start + offset` and holds `buf_len` bytes, or as many as the region
    /// has left from there if those are fewer. The caller seeks to the start
    /// of the range and reads at most its length; reading fewer bytes is no
    /// error.
    pub fn read(&self, offset: u64, buf_len: usize) -> (r: Result<Range<u64>, RegionError>)
        ensures
            span_result(r) == read_grant(self@, offset as int, buf_len as int),
            r is Ok <==> self@.start + offset < self@.end,
            r matches Ok(granted) ==> granted.start == self@.start + offset && granted.end
                - granted.start == vstd::math::min(buf_len as int, self@.end - granted.start),
            r matches Ok(granted) ==> span(granted).within(self@),
            r == Err::<Range<u64>, _>(RegionError::StartOverflow) <==> self@.start + offset
                > u64::MAX,
            r == Err::<Range<u64>, _>(RegionError::StartOutOfBounds) <==> self@.end
                <= self@.start + offset <= u64::MAX,
    {
        let start = match self.range.start.checked_add(offset) {
            Some(start) => start,
            None => { return Err(RegionError::StartOverflow); },
        };
        if start >= self.range.end {
            return Err(RegionError::StartOutOfBounds);
        }
        let limit = self.range.end - start;
        let wanted = buf_len as u64;
        let count = if wanted < limit {
            wanted
        } else {
            limit
        };
        Ok(start..start + count)
    }

    /// Bounds a write of `buf_len` bytes at `offset` from the start of the
    /// region, and returns the absolute range of the file to write to.
    ///
    /// The write is granted only as a whole: the range
    /// `[start + offset, start + offset + buf_len)` must begin inside the
    /// region and end at or before the region's end. If either sum does not
    /// fit in 64 bits, or the range does not fit the region, the write is
    /// refused and nothing is to be transferred: a write is never cut short.
    /// The caller seeks to the start of the granted range and writes the
    /// buffer.
    pub fn write(&self, offset: u64, buf_len: usize) -> (r: Result<Range<u64>, RegionError>)
        ensures
            span_result(r) == write_grant(self@, offset as int, buf_len as int),
            r is Ok <==> self@.start + offset < self@.end && self@.start + offset + buf_len
                <= self@.end,
            r matches Ok(granted) ==> granted.start == self@.start + offset && granted.end
                == self@.start + offset + buf_len,
            r matches Ok(granted) ==> span(granted).within(self@),
            r == Err::<Range<u64>, _>(RegionError::StartOverflow) <==> self@.start + offset
                > u64::MAX,
            r == Err::<Range<u64>, _>(RegionError::EndOverflow) <==> self@.start + offset
                <= u64::MAX < self@.start + offset + buf_len,
            r == Err::<Range<u64>, _>(RegionError::StartOutOfBounds) <==> self@.end
                <= self@.start + offset && self@.start + offset + buf_len <= u64::MAX,
            r == Err::<Range<u64>, _>(RegionError::EndOutOfBounds) <==> self@.start + offset
                < self@.end < self@.start + offset + buf_len <= u64::MAX,
    {
        match offset.checked_add(buf_len as u64) {
            Some(end) => subrange(&self.range, offset..end),
            None => match self.range.start.checked_add(offset) {
                Some(_) => Err(RegionError::EndOverflow),
                None => Err(RegionError::StartOverflow),
            },
        }
    }

    /// Narrows the region to `range`, which is given relative to the region's
    /// start. The new region borrows the same handle and covers
    /// `[start + range.start, start + range.end)`.
    ///
    /// Each sum must fit in 64 bits, and the new range must begin before the
    /// end of this region and end at or before it. The file is not consulted:
    /// whether the new region is valid for the file remains to be checked.
    pub fn subregion(self, range: Range<u64>) -> (r: Result<FileRegion<'a, F>, RegionError>)
        ensures
            match r {
                Ok(sub) => carve(self@, span(range)) == Ok::<Span, RegionError>(sub@),
                Err(e) => carve(self@, span(range)) == Err::<Span, RegionError>(e),
            },
            r matches Ok(sub) ==> sub.handle() == self.handle(),
            r matches Ok(sub) ==> sub@.within(self@),
    {
        match subrange(&self.range, range) {
            Ok(absolute) => Ok(FileRegion { file: self.file, range: absolute }),
            Err(e) => Err(e),
        }
    }
}

} // verus!
