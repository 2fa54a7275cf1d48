//! The scheduling facilities the library knows how to drive.

use vstd::prelude::*;

verus! {

/// Which OS scheduling service hosts the periodic job.
///
/// Exactly one variant is picked once at process start; the backend's
/// behaviour is polymorphic over it.  `Unsupported` makes every
/// scheduler operation fail immediately.
#[derive(Clone, Copy, Debug, PartialEq, Eq, Structural)]
pub enum Platform {
    /// A launchd agent: one property-list file, loaded and unloaded
    /// with the agent-control binary.
    MacOs,
    /// A systemd user unit: a service file plus a companion timer
    /// file, enabled and disabled with the service-manager binary.
    Linux,
    /// Any other host: scheduling is refused outright.
    Unsupported,
}

} // verus!
