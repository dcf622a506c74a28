//! The two classes of failure: a request that is wrong in itself, and a file
//! that could not be queried.

use vstd::prelude::*;

verus! {

/// `std::io::Error`, declared so that it can be carried through verified code.
/// Nothing is claimed of its contents.
#[verifier::external_type_specification]
#[verifier::external_body]
pub struct ExIoError(std::io::Error);

/// Why a range was refused. Produced by arithmetic and comparison alone.
#[derive(Debug, Clone, Copy, PartialEq, Eq, Structural)]
pub enum RegionError {
    /// The absolute start offset does not fit in 64 bits.
    StartOverflow,
    /// The absolute end offset does not fit in 64 bits.
    EndOverflow,
    /// The start lies at or beyond the bound it was checked against.
    StartOutOfBounds,
    /// The start lies inside the bound, the end beyond it.
    EndOutOfBounds,
}

/// A failure of an operation on a region: either the underlying file failed,
/// or the request was out of range.
#[derive(Debug)]
pub enum FileRegionError {
    /// The file handle reported an error; it is passed on unchanged.
    Io(std::io::Error),
    /// The requested range is not acceptable.
    Region(RegionError),
}

impl From<std::io::Error> for FileRegionError {
    fn from(error: std::io::Error) -> (r: Self) {
        FileRegionError::Io(error)
    }
}

impl vstd::std_specs::convert::FromSpecImpl<std::io::Error> for FileRegionError {
    open spec fn obeys_from_spec() -> bool {
        true
    }

    open spec fn from_spec(v: std::io::Error) -> Self {
        FileRegionError::Io(v)
    }
}

impl From<RegionError> for FileRegionError {
    fn from(error: RegionError) -> (r: Self) {
        FileRegionError::Region(error)
    }
}

impl vstd::std_specs::convert::FromSpecImpl<RegionError> for FileRegionError {
    open spec fn obeys_from_spec() -> bool {
        true
    }

    open spec fn from_spec(v: RegionError) -> Self {
        FileRegionError::Region(v)
    }
}

} // verus!
