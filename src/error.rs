use vstd::prelude::*;

verus! {

/// Everything that can stop a graphics mode change.
#[derive(Debug, Clone, PartialEq, Eq)]
pub enum GfxError {
    /// The PCI device list could not be read.
    DeviceEnumeration,
    /// A bus rescan, an unbind or a remove failed.
    PciOperation,
    /// Loading or unloading the named kernel module failed on every attempt.
    DriverAction(String),
    /// The named kernel module is built into the kernel and cannot be unloaded.
    DriverBuiltin(String),
    /// The named kernel module does not exist.
    MissingModule(String),
    /// A generated configuration file could not be written.
    ConfigWrite,
    /// A display manager service action failed.
    DisplayManagerAction,
    /// The display manager did not reach the awaited state in time.
    DisplayManagerTimeout,
    /// The login session manager could not be queried.
    SessionManager,
    /// Graphical sessions were still open when the wait for them ran out.
    SessionWaitTimeout,
    /// The firmware's dedicated-GPU switch is engaged, so software switching is unsafe.
    HardwareGuard,
    /// `Vfio` was requested while VFIO support is disabled in the configuration.
    VfioDisabled,
}

} // verus!
