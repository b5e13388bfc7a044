//! The lifecycle of a decode session.
//!
//! A session moves forward through these stages and never backward.  A call
//! that cannot make progress leaves the stage where it is; a call that fails
//! terminally records the failure separately, without moving the stage.

use vstd::prelude::*;

verus! {

/// How far a decode session has come.
#[derive(Clone, Copy, Debug, PartialEq, Eq, Structural)]
pub enum Phase {
    /// Nothing attempted yet.
    Fresh,
    /// A metadata read was attempted but has not completed.
    MetadataPending,
    /// Dimensions and color layout are known and fixed.
    MetadataReady,
    /// A pixel read was attempted but has not completed.
    PixelsPending,
    /// Every pixel of the frame is decoded.
    PixelsReady,
}

/// Numeric rank of a phase; calls only ever increase it.
pub open spec fn phase_index(p: Phase) -> int {
    match p {
        Phase::Fresh => 0,
        Phase::MetadataPending => 1,
        Phase::MetadataReady => 2,
        Phase::PixelsPending => 3,
        Phase::PixelsReady => 4,
    }
}

/// How the caller chose to drive pixel decoding.  The two ways cannot be
/// mixed on one session.
#[derive(Clone, Copy, Debug, PartialEq, Eq, Structural)]
pub enum DriveMode {
    /// No pixel call made yet.
    Undriven,
    /// Whole-image decoding into the session's own pixel buffer.
    Whole,
    /// Row-at-a-time decoding into buffers the caller owns.
    Manual,
}

} // verus!
