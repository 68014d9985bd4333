//! The generations of the native library and what each of them exposes.
//!
//! A field that a generation removed is not reachable through the facade:
//! every accessor that depends on one names the capability it needs as a
//! precondition, so the selection is settled before the program runs.

use vstd::prelude::*;

verus! {

/// A generation of the native library, oldest first.
#[allow(non_camel_case_types)]
#[derive(Clone, Copy, Debug, PartialEq, Eq, Structural)]
pub enum Generation {
    /// Before 5.0: single-call decode and the frame-start timecode exist.
    V4,
    /// From 5.0 up to 5.1: only the legacy channel fields remain.
    V5_0,
    /// From 5.1 up to 7.0: legacy mask and structured layout coexist.
    V5_1,
    /// From 7.0 on: only the structured layout is left.
    V7_0,
}

impl Generation {
    /// Whether the single-call decode entry point exists.
    pub open spec fn has_single_call_decode(self) -> bool {
        self == Generation::V4
    }

    /// Whether the frame-start timecode field exists.
    pub open spec fn has_frame_start(self) -> bool {
        self == Generation::V4
    }

    /// Whether the channel count, the frame counter and the two layout masks
    /// exist.
    pub open spec fn has_legacy_layout(self) -> bool {
        self != Generation::V7_0
    }

    /// Whether the structured channel layout exists.
    pub open spec fn has_structured_layout(self) -> bool {
        self == Generation::V5_1 || self == Generation::V7_0
    }

    /// Tells whether the single-call decode entry point exists.
    pub fn supports_single_call_decode(self) -> (r: bool)
        ensures
            r == self.has_single_call_decode(),
    {
        matches!(self, Generation::V4)
    }

    /// Tells whether the frame-start timecode field exists.
    pub fn supports_frame_start(self) -> (r: bool)
        ensures
            r == self.has_frame_start(),
    {
        matches!(self, Generation::V4)
    }

    /// Tells whether the legacy channel fields exist.
    pub fn supports_legacy_layout(self) -> (r: bool)
        ensures
            r == self.has_legacy_layout(),
    {
        !matches!(self, Generation::V7_0)
    }

    /// Tells whether the structured channel layout exists.
    pub fn supports_structured_layout(self) -> (r: bool)
        ensures
            r == self.has_structured_layout(),
    {
        matches!(self, Generation::V5_1 | Generation::V7_0)
    }
}

/// Every generation exposes at least one representation of the channel
/// layout, and only the generations from 5.1 up to 7.0 expose both.
pub proof fn lemma_layout_always_available(g: Generation)
    ensures
        g.has_legacy_layout() || g.has_structured_layout(),
        g.has_legacy_layout() && g.has_structured_layout() <==> g == Generation::V5_1,
        g.has_single_call_decode() ==> g.has_legacy_layout() && !g.has_structured_layout(),
{
}

} // verus!
