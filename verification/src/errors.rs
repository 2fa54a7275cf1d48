//! The error taxonomy of the scheduler subsystem.

use vstd::prelude::*;

verus! {

/// Everything that can go wrong while installing, removing or
/// querying the scheduled job, or while listing sounds.
#[derive(Clone, Debug, PartialEq, Eq)]
pub enum Error {
    /// A unit file already sits at the named path; installing again
    /// is refused until it is removed.
    AlreadyInstalled(String),
    /// The operation needs the unit file to exist, and it does not.
    NotInstalled,
    /// The running OS has no supported scheduling service.
    UnsupportedPlatform,
    /// The calling executable's canonical path could not be resolved.
    BinaryPathUnresolvable,
    /// Writing or removing the named file failed.
    IoFailure(String),
    /// An external scheduler-control command exited non-zero; the
    /// fields carry the human-readable label and the captured
    /// standard-error text.
    ServiceCallFailure { label: String, stderr: String },
    /// No notification sound was found in the searched directories.
    NoSoundsFound,
    /// The last-notification log ends in something that is not a
    /// timestamp.
    InvalidTimestamp,
}

} // verus!
