//! The conditions that end the controller before or after its loop.

use vstd::prelude::*;

verus! {

/// Why the controller cannot start, or could not shut down cleanly.
#[derive(Clone, Copy, Debug, PartialEq, Eq, Structural)]
pub enum SetupError {
    /// No device on the bus has the wanted vendor and product identity.
    DeviceNotFound,
    /// Devices with the wanted identity exist, but none could be opened.
    NoAccessibleDevice,
    /// The device exposes no endpoint at all.
    NoEndpoints,
    /// The device exposes a single endpoint, so there is none to write to.
    NoOutboundEndpoint,
    /// The kernel driver that holds the interface could not be detached.
    DriverDetachFailed,
    /// The alternate setting of the interface could not be selected.
    InterfaceConfiguration,
    /// The claimed interface could not be released.
    ReleaseFailed,
    /// The kernel driver could not be attached again.
    ReattachFailed,
}

} // verus!
