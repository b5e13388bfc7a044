//! The closed result-code enum that every decode operation reports.
//!
//! All rich error information from the underlying decoders collapses into
//! this small set of codes.  `IncompleteInput` is the only retryable code:
//! the caller supplies more bytes and calls again.  Everything but `Success`,
//! `IncompleteInput` and `EndOfFrame` is terminal for the session.

use vstd::prelude::*;

verus! {

/// Result of a decode operation, as a small closed set of codes.
#[derive(Clone, Copy, Debug, PartialEq, Eq, Structural)]
pub enum DecodingResult {
    /// The operation completed.
    Success,
    /// The input bytes are structurally invalid for the format.
    FormatError,
    /// The caller violated the calling convention (wrong phase, short buffer).
    ParameterError,
    /// The input is recognized but uses a feature this crate does not decode.
    UnsupportedFeature,
    /// The byte source ran dry mid-operation; feed more bytes and retry.
    IncompleteInput,
    /// A resource ceiling (such as a decompressed-size cap) was exceeded.
    LimitsExceeded,
    /// An input-derived failure outside the other categories.
    OtherError,
    /// All rows of the current frame are exhausted; not an error.
    EndOfFrame,
}

impl DecodingResult {
    /// Whether this code ends the session: no retry can ever succeed.
    pub open spec fn is_terminal(self) -> bool {
        match self {
            DecodingResult::Success => false,
            DecodingResult::IncompleteInput => false,
            DecodingResult::EndOfFrame => false,
            _ => true,
        }
    }

    /// Whether the caller may retry this operation after feeding more bytes.
    pub open spec fn is_retryable(self) -> bool {
        self == DecodingResult::IncompleteInput
    }

    /// The stable small-integer value of this code, as seen by a host that
    /// switches on the codes exhaustively.
    pub open spec fn spec_code(self) -> u32 {
        match self {
            DecodingResult::Success => 0,
            DecodingResult::FormatError => 1,
            DecodingResult::ParameterError => 2,
            DecodingResult::UnsupportedFeature => 3,
            DecodingResult::IncompleteInput => 4,
            DecodingResult::LimitsExceeded => 5,
            DecodingResult::OtherError => 6,
            DecodingResult::EndOfFrame => 7,
        }
    }

    /// Returns the stable wire value of this code.
    pub fn code(self) -> (c: u32)
        ensures
            c == self.spec_code(),
    {
        match self {
            DecodingResult::Success => 0,
            DecodingResult::FormatError => 1,
            DecodingResult::ParameterError => 2,
            DecodingResult::UnsupportedFeature => 3,
            DecodingResult::IncompleteInput => 4,
            DecodingResult::LimitsExceeded => 5,
            DecodingResult::OtherError => 6,
            DecodingResult::EndOfFrame => 7,
        }
    }

    /// Runtime test for a terminal code; agrees with `is_terminal`.
    pub fn terminal(self) -> (t: bool)
        ensures
            t == self.is_terminal(),
    {
        match self {
            DecodingResult::Success => false,
            DecodingResult::IncompleteInput => false,
            DecodingResult::EndOfFrame => false,
            _ => true,
        }
    }
}

/// Distinct codes have distinct wire values, so a host switching on the
/// integer codes can recover the exact result.
pub proof fn lemma_codes_injective(a: DecodingResult, b: DecodingResult)
    ensures
        a.spec_code() == b.spec_code() ==> a == b,
{
}

} // verus!
