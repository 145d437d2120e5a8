//! Why a buffer could not be decoded.

use vstd::prelude::*;

verus! {

/// One of the five sample arrays of a ping, in the order they are stored.
#[derive(Clone, Copy, Debug, PartialEq, Eq, Structural)]
pub enum Channel {
    /// Port side, low frequency band (16-bit samples).
    PortLowFrequency,
    /// Starboard side, low frequency band (16-bit samples).
    StarboardLowFrequency,
    /// Port side, high frequency band (16-bit samples).
    PortHighFrequency,
    /// Starboard side, high frequency band (16-bit samples).
    StarboardHighFrequency,
    /// Sub-bottom profiler (32-bit samples).
    SubBottomProfiler,
}

/// A decode failure. None of them is recovered from: the decode of the buffer
/// stops where it occurs.
#[derive(Clone, Copy, Debug, PartialEq, Eq, Structural)]
pub enum DecodeError {
    /// No complete ping marker with its counter stands before the end of input.
    FramingError,
    /// Fewer bytes remain than the fixed header takes.
    TruncatedHeaderError,
    /// The bytes run out inside the named channel: in its count field or in
    /// the samples that the count declares.
    TruncatedChannelError { channel: Channel },
}

} // verus!
