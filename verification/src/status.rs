//! The status vocabulary the pipeline broadcasts, and the decisions the
//! tray broadcaster makes from it: which animation to run, how the
//! frame counter advances, and which tooltip to show. Rendering itself
//! is the application's.

use vstd::prelude::*;
use vstd::string::StringExecFns;

verus! {

/// One status notification of the pipeline, in the order a session
/// passes through them.
#[derive(Debug, Clone, PartialEq, Eq)]
pub enum StatusEvent {
    Recording,
    Processing,
    Transcribing,
    Success,
    /// A failed cycle; carries the error detail.
    Error(String),
    Idle,
}

/// The animated tray icon a status calls for; terminal and idle
/// statuses stop the animation instead.
#[derive(Clone, Copy, Debug, PartialEq, Eq, Structural)]
pub enum AnimationKind {
    Recording,
    Processing,
    Transcribing,
}

/// The animation a status calls for, if any.
pub open spec fn animation_spec(s: StatusEvent) -> Option<AnimationKind> {
    match s {
        StatusEvent::Recording => Option::Some(AnimationKind::Recording),
        StatusEvent::Processing => Option::Some(AnimationKind::Processing),
        StatusEvent::Transcribing => Option::Some(AnimationKind::Transcribing),
        StatusEvent::Success => Option::None,
        StatusEvent::Error(_) => Option::None,
        StatusEvent::Idle => Option::None,
    }
}

impl StatusEvent {
    /// The status name, the broadcaster's fixed vocabulary.
    pub fn label(&self) -> (r: &'static str)
        ensures
            *self is Recording ==> r@ == "recording"@,
            *self is Processing ==> r@ == "processing"@,
            *self is Transcribing ==> r@ == "transcribing"@,
            *self is Success ==> r@ == "success"@,
            *self is Error ==> r@ == "error"@,
            *self is Idle ==> r@ == "idle"@,
    {
        match self {
            StatusEvent::Recording => "recording",
            StatusEvent::Processing => "processing",
            StatusEvent::Transcribing => "transcribing",
            StatusEvent::Success => "success",
            StatusEvent::Error(_) => "error",
            StatusEvent::Idle => "idle",
        }
    }

    /// The payload delivered to the UI: the status name, with the
    /// error detail after a colon.
    pub fn ui_text(&self) -> (r: String)
        ensures
            *self matches StatusEvent::Error(m) ==> r@ == "error:"@ + m@,
            *self is Recording ==> r@ == "recording"@,
            *self is Processing ==> r@ == "processing"@,
            *self is Transcribing ==> r@ == "transcribing"@,
            *self is Success ==> r@ == "success"@,
            *self is Idle ==> r@ == "idle"@,
    {
        match self {
            StatusEvent::Error(m) => {
                let mut s = String::from_str("error:");
                s.append(m.as_str());
                s
            },
            _ => String::from_str(self.label()),
        }
    }

    /// The animation the tray shows for this status, if any.
    pub fn animation(&self) -> (r: Option<AnimationKind>)
        ensures
            r == animation_spec(*self),
    {
        match self {
            StatusEvent::Recording => Option::Some(AnimationKind::Recording),
            StatusEvent::Processing => Option::Some(AnimationKind::Processing),
            StatusEvent::Transcribing => Option::Some(AnimationKind::Transcribing),
            _ => Option::None,
        }
    }

    /// The tray tooltip for this status.
    pub fn tooltip(&self) -> (r: &'static str)
        ensures
            *self is Recording ==> r@ == "AquaVoice - Recording..."@,
            *self is Processing ==> r@ == "AquaVoice - Processing..."@,
            *self is Transcribing ==> r@ == "AquaVoice - Transcribing..."@,
            *self is Success ==> r@ == "AquaVoice - Done"@,
            *self is Error ==> r@ == "AquaVoice - Error"@,
            *self is Idle ==> r@ == "AquaVoice - Ready"@,
    {
        match self {
            StatusEvent::Recording => "AquaVoice - Recording...",
            StatusEvent::Processing => "AquaVoice - Processing...",
            StatusEvent::Transcribing => "AquaVoice - Transcribing...",
            StatusEvent::Success => "AquaVoice - Done",
            StatusEvent::Error(_) => "AquaVoice - Error",
            StatusEvent::Idle => "AquaVoice - Ready",
        }
    }
}

/// Advance the animation frame counter: eight frames, wrapping.
pub fn next_frame(frame: u8) -> (r: u8)
    ensures
        r == (frame + 1) % 8,
{
    (((frame as u16) + 1) % 8) as u8
}

} // verus!
