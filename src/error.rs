use vstd::prelude::*;

verus! {

/// Why an operation of the capture pipeline did not happen.
#[derive(Debug, Clone, Copy, PartialEq, Eq, Structural)]
pub enum CaptureError {
    /// The host audio subsystem could not list its input devices.
    Enumeration,
    /// The device could not be opened (busy or gone).
    Open,
    /// The device delivers samples in an encoding that cannot be normalized.
    UnsupportedFormat,
    /// No device stands at the requested or selected position.
    NoDevice,
    /// A stream is already open; a second one is not opened.
    AlreadyActive,
}

} // verus!
