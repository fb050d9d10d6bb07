use vstd::prelude::*;

verus! {

/// The errors that the filesystem reports to the protocol layer.
#[derive(Clone, Copy, Debug, PartialEq, Eq, Structural)]
pub enum FsError {
    /// The path, the file or its content could not be found or fetched.
    NotFound,
    /// A path could not be rebuilt while walking the drive.
    GeneralFailure,
    /// A write-family operation: the filesystem is read-only.
    NotImplemented,
}

} // verus!
