//! The purpose an audio stream serves, and its native codes.

use libc::c_int;
use vstd::prelude::*;

verus! {

/// The number of service types the native enumeration holds; as a code it
/// names none of them.
pub const AUDIO_SERVICE_TYPE_NB: c_int = 9;

/// What an audio stream is for.
#[derive(Clone, Copy, Debug, PartialEq, Eq, Structural)]
pub enum AudioService {
    Main,
    Effects,
    VisuallyImpaired,
    HearingImpaired,
    Dialogue,
    Commentary,
    Emergency,
    VoiceOver,
    Karaoke,
}

/// The native code that stands for a service type.
pub open spec fn service_code_of(s: AudioService) -> int {
    match s {
        AudioService::Main => 0,
        AudioService::Effects => 1,
        AudioService::VisuallyImpaired => 2,
        AudioService::HearingImpaired => 3,
        AudioService::Dialogue => 4,
        AudioService::Commentary => 5,
        AudioService::Emergency => 6,
        AudioService::VoiceOver => 7,
        AudioService::Karaoke => 8,
    }
}

/// The service type that a native code stands for. The counting code and
/// every code outside the enumeration read as `AudioService::Main`.
pub open spec fn service_of(code: int) -> AudioService {
    if code == 1 {
        AudioService::Effects
    } else if code == 2 {
        AudioService::VisuallyImpaired
    } else if code == 3 {
        AudioService::HearingImpaired
    } else if code == 4 {
        AudioService::Dialogue
    } else if code == 5 {
        AudioService::Commentary
    } else if code == 6 {
        AudioService::Emergency
    } else if code == 7 {
        AudioService::VoiceOver
    } else if code == 8 {
        AudioService::Karaoke
    } else {
        AudioService::Main
    }
}

impl AudioService {
    /// Translates a native code into a service type.
    pub fn from_code(code: c_int) -> (r: AudioService)
        ensures
            r == service_of(code as int),
    {
        match code {
            1 => AudioService::Effects,
            2 => AudioService::VisuallyImpaired,
            3 => AudioService::HearingImpaired,
            4 => AudioService::Dialogue,
            5 => AudioService::Commentary,
            6 => AudioService::Emergency,
            7 => AudioService::VoiceOver,
            8 => AudioService::Karaoke,
            _ => AudioService::Main,
        }
    }

    /// Translates a service type into its native code.
    pub fn code(self) -> (r: c_int)
        ensures
            r as int == service_code_of(self),
    {
        match self {
            AudioService::Main => 0,
            AudioService::Effects => 1,
            AudioService::VisuallyImpaired => 2,
            AudioService::HearingImpaired => 3,
            AudioService::Dialogue => 4,
            AudioService::Commentary => 5,
            AudioService::Emergency => 6,
            AudioService::VoiceOver => 7,
            AudioService::Karaoke => 8,
        }
    }
}

/// Every service type is read back from its own code.
pub proof fn lemma_service_code_round_trip(s: AudioService)
    ensures
        service_of(service_code_of(s)) == s,
        0 <= service_code_of(s) < AUDIO_SERVICE_TYPE_NB,
{
}

} // verus!
