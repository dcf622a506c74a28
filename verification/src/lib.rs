//! Bounds-checked windows over an open file.
//!
//! A [`FileRegion`] pairs a borrowed file handle with a half-open range
//! `[start, end)` of absolute byte offsets. Every request made through a
//! region (a read, a write, a narrower sub-window) is answered by
//! overflow-checked range arithmetic: either with the exact range of the file
//! that the request may touch, which always lies inside the region, or with
//! the reason why the request is refused.
//!
//! The region never uses the handle itself. Where an answer depends on the
//! file's current length, the caller queries the handle and hands in the
//! outcome of the query, a length or an I/O error. Where a transfer is
//! granted, the caller carries it out: it seeks to the start of the granted
//! range and reads or writes there. Every transfer repositions the handle's
//! one cursor, so operations on regions that share a handle must not run
//! concurrently; the caller has to serialise them.
//!
//! Contracts are stated over [`Span`], an interval of unbounded integers, and
//! the functions of the [`span`] module; [`laws`] holds what follows for all
//! inputs.

pub mod bounds;
pub mod error;
pub mod laws;
pub mod region;
pub mod span;

pub use bounds::{subrange, validate_range};
pub use error::{FileRegionError, RegionError};
pub use region::FileRegion;
pub use span::Span;
