use vstd::prelude::*;

verus! {

/// Every way in which the display driver can refuse or fail an operation.
#[derive(Clone, Copy, Debug, PartialEq, Eq, Structural)]
pub enum VgaError {
    /// The firmware configuration device is missing, or does not offer a ramfb entry.
    DeviceNotReady,
    /// The resolution or stride reported for the display is not usable.
    InvalidResolution,
    /// The requested pixel lies outside the visible area.
    InvalidPixelPosition,
    /// The framebuffer range does not hold the requested access, or an address overflowed.
    InvalidFramebuffer,
    /// The pixel layout is not the four-byte layout this driver writes.
    UnsupportedFormat,
    /// A DMA transfer failed, or the device lacks DMA support.
    MmioFault,
    /// A drawing call came before a successful initialisation.
    NotInitialized,
    /// Initialisation was requested while it is running or after it succeeded.
    AlreadyInitialized,
}

} // verus!
