//! The ways in which decoding or construction can fail.
use vstd::prelude::*;

verus! {

/// Input bytes that do not hold a whole frame.
#[derive(Clone, Copy, Debug, PartialEq, Eq, Structural)]
pub enum FormatError {
    /// Fewer bytes than the fixed header length.
    TruncatedHeader,
    /// A whole header, but fewer payload bytes after it than it declares.
    TruncatedPayload,
}

/// The system clock reads a time before the Unix epoch.
#[derive(Clone, Copy, Debug, PartialEq, Eq, Structural)]
pub enum ClockError {
    BeforeEpoch,
}

} // verus!
