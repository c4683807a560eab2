use vstd::prelude::*;

verus! {

/// What can go wrong while a project is put together or queried.
#[derive(Clone, Copy, Debug, PartialEq, Eq, Structural)]
pub enum Error {
    /// A required geometric field is malformed or missing: an empty or repeated name, a raster
    /// without pixels.
    ConfigurationInvalid,
    /// More than one camera calibration was supplied where a project holds at most one.
    DuplicateCamera,
    /// A query names a scan position that the project does not hold.
    UnknownScanPosition,
}

} // verus!
