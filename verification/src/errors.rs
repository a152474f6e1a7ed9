//! The error taxonomy of one acquisition.

use vstd::prelude::*;

verus! {

/// Why an acquisition failed. Every variant is fatal: nothing is retried
/// but blank frames, which are no error.
#[derive(Clone, Copy, Debug, PartialEq, Eq, Structural)]
pub enum AcquisitionError {
    /// The device rejected the request to start streaming.
    StreamOpen,
    /// Pulling a raw capture unit from the device failed.
    FrameRead,
    /// A raw capture unit could not be decoded into a frame.
    Decode,
}

/// Why a device matcher could not be built.
#[derive(Clone, Copy, Debug, PartialEq, Eq, Structural)]
pub enum ConfigError {
    /// A name pattern is not a valid regular expression.
    InvalidPattern,
}

} // verus!
