//! State of the speech-to-text overlay as shown to the user.
use vstd::prelude::*;

verus! {

/// State of the speech-to-text overlay (hotkey and microphone loop).
#[derive(Debug, Clone, PartialEq, Eq)]
pub enum SttStatus {
    Stopped,
    Starting,
    Listening,
    Recording,
    Transcribing,
    Error(String),
}

/// The event label of a status, as the user interface expects it.
pub open spec fn status_label(s: SttStatus) -> Seq<char> {
    match s {
        SttStatus::Stopped => "stopped"@,
        SttStatus::Starting => "starting"@,
        SttStatus::Listening => "listening"@,
        SttStatus::Recording => "recording"@,
        SttStatus::Transcribing => "transcribing"@,
        SttStatus::Error(_) => "error"@,
    }
}

impl SttStatus {
    /// The event label of this status (`"recording"`, `"error"`, ...).
    pub fn label(&self) -> (r: &'static str)
        ensures
            r@ == status_label(*self),
    {
        match self {
            SttStatus::Stopped => "stopped",
            SttStatus::Starting => "starting",
            SttStatus::Listening => "listening",
            SttStatus::Recording => "recording",
            SttStatus::Transcribing => "transcribing",
            SttStatus::Error(_) => "error",
        }
    }
}

} // verus!
