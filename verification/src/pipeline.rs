//! The pipeline controller: a state machine that turns hotkey commands
//! and outside-world outcomes into the next session state and an
//! ordered list of actions for the application to perform.
//!
//! The controller is strictly sequential: the application feeds it one
//! command or outcome at a time and performs the returned actions
//! before the next. Capture chunks may arrive at any point; the buffer
//! flag decides whether they are kept.

use crate::buffer::{buffer_step, BufferEvent, BufferModel, SampleBuffer};
use crate::codec::{encode_container, quantized, wav_bytes, MAX_SAMPLE_RATE};
use crate::status::StatusEvent;
use crate::text::trim_spec;
use crate::transcribe::{
    base64_of, encode_base64, extracted_text, request_body, request_body_chars, request_url,
    request_url_chars, transcript_text, GeminiResponse,
};
use vstd::prelude::*;
use vstd::string::StringExecFns;

verus! {

/// Largest snapshot the pipeline will encode and send: the container,
/// 44 header bytes plus two per sample, then fits the base64 encoder's
/// output-size computation on every machine width.
pub const MAX_SESSION_SAMPLES: usize = 1610612709;

/// A command from the hotkey: press starts a recording, release stops
/// it.
#[derive(Clone, Copy, Debug, PartialEq, Eq, Structural)]
pub enum Command {
    Start,
    Stop,
}

/// Where the controller stands between calls.
#[derive(Clone, Copy, Debug, PartialEq, Eq, Structural)]
pub enum Phase {
    /// Between sessions, waiting for a Start.
    Idle,
    /// The capture flag is set.
    Recording,
    /// A request was handed out; waiting for its outcome.
    AwaitingHttp,
    /// A clipboard write was handed out; waiting for its outcome.
    AwaitingClipboard,
}

/// The outcome of the transcription network call, as the application
/// observed it.
pub enum HttpOutcome {
    /// The request could not be sent or no response arrived; the
    /// transport's error text.
    TransportError(String),
    /// A response with a non-success status; its body, where it could
    /// be read.
    HttpFailure(Option<String>),
    /// A success response whose body was not a well-formed response
    /// document; the parser's error text.
    InvalidJson(String),
    /// A well-formed success response.
    Parsed(GeminiResponse),
}

/// What the application must do next, in the order returned.
#[derive(Debug, Clone, PartialEq, Eq)]
pub enum Action {
    /// Show a status on the UI event sink and the tray broadcaster.
    Notify(StatusEvent),
    /// Send the request to the endpoint and hand back the outcome.
    SendRequest { url: String, body: String },
    /// Write the transcription to the clipboard and hand back whether
    /// the write worked.
    WriteClipboard(String),
    /// The short fixed delay between the clipboard write and the
    /// paste.
    PastePause,
    /// Inject the paste keystroke, best effort.
    Paste,
    /// Hold the terminal status visible for the fixed cooldown.
    Cooldown,
}

/// The buffer event a command is for the sample buffer.
pub open spec fn cmd_event(cmd: Command) -> BufferEvent {
    match cmd {
        Command::Start => BufferEvent::Start,
        Command::Stop => BufferEvent::Stop,
    }
}

/// A failed cycle's tail: the error status with its detail, the
/// cooldown, and the return to idle. No request, clipboard or paste
/// action occurs in it.
pub open spec fn error_cycle(actions: Seq<Action>, detail: Seq<char>) -> bool {
    &&& actions.len() == 3
    &&& (actions[0] matches Action::Notify(StatusEvent::Error(m)) && m@ == detail)
    &&& actions[1] is Cooldown
    &&& (actions[2] matches Action::Notify(StatusEvent::Idle))
}

/// The pipeline controller: the sample buffer, the configuration and
/// the session state machine.
pub struct Pipeline {
    phase: Phase,
    buffer: SampleBuffer,
    sample_rate: u32,
    api_key: String,
    model: String,
}

impl Pipeline {
    /// Where the controller stands.
    pub closed spec fn phase_spec(&self) -> Phase {
        self.phase
    }

    /// The abstract sample buffer.
    pub closed spec fn buffer_model(&self) -> BufferModel {
        self.buffer@
    }

    /// The configured credential.
    pub closed spec fn api_key_spec(&self) -> Seq<char> {
        self.api_key@
    }

    /// The configured model identifier.
    pub closed spec fn model_spec(&self) -> Seq<char> {
        self.model@
    }

    /// The capture sample rate.
    pub closed spec fn rate_spec(&self) -> u32 {
        self.sample_rate
    }

    /// The controller's invariant: the byte rate fits the container
    /// header, and the capture flag is set exactly while recording.
    pub open spec fn wf(&self) -> bool {
        &&& self.rate_spec() <= MAX_SAMPLE_RATE
        &&& (self.phase_spec() is Recording <==> self.buffer_model().recording)
    }

    /// Whether the controller is mid-cycle, unable to take a command.
    pub open spec fn mid_cycle(&self) -> bool {
        self.phase_spec() is AwaitingHttp || self.phase_spec() is AwaitingClipboard
    }

    /// The configuration and rate are untouched.
    pub open spec fn config_unchanged(pre: Pipeline, post: Pipeline) -> bool {
        &&& post.api_key_spec() == pre.api_key_spec()
        &&& post.model_spec() == pre.model_spec()
        &&& post.rate_spec() == pre.rate_spec()
    }

    /// A fresh controller: idle, empty buffer, no credential, the
    /// default model identifier.
    pub fn new(sample_rate: u32) -> (r: Pipeline)
        requires
            sample_rate <= MAX_SAMPLE_RATE,
        ensures
            r.wf(),
            r.phase_spec() is Idle,
            r.buffer_model().samples == Seq::<i64>::empty(),
            !r.buffer_model().recording,
            r.rate_spec() == sample_rate,
            r.api_key_spec() == Seq::<char>::empty(),
            r.model_spec() == "gemini-3-pro-preview"@,
    {
        Pipeline {
            phase: Phase::Idle,
            buffer: SampleBuffer::new(),
            sample_rate,
            api_key: String::new(),
            model: String::from_str("gemini-3-pro-preview"),
        }
    }

    /// Where the controller stands, for the application's loop.
    pub fn phase(&self) -> (r: Phase)
        ensures
            r == self.phase_spec(),
    {
        self.phase
    }

    /// How many samples the buffer holds.
    pub fn buffered_len(&self) -> (r: usize)
        ensures
            r == self.buffer_model().samples.len(),
    {
        self.buffer.len()
    }

    /// Replace the credential.
    pub fn set_api_key(&mut self, api_key: String)
        ensures
            final (self).api_key_spec() == api_key@,
            final (self).model_spec() == old(self).model_spec(),
            final (self).rate_spec() == old(self).rate_spec(),
            final (self).phase_spec() == old(self).phase_spec(),
            final (self).buffer_model() == old(self).buffer_model(),
            old(self).wf() ==> final (self).wf(),
    {
        self.api_key = api_key;
    }

    /// Replace the model identifier.
    pub fn set_model(&mut self, model: String)
        ensures
            final (self).model_spec() == model@,
            final (self).api_key_spec() == old(self).api_key_spec(),
            final (self).rate_spec() == old(self).rate_spec(),
            final (self).phase_spec() == old(self).phase_spec(),
            final (self).buffer_model() == old(self).buffer_model(),
            old(self).wf() ==> final (self).wf(),
    {
        self.model = model;
    }

    /// Deliver a capture chunk: kept in capture order while the capture
    /// flag is set, dropped otherwise.
    pub fn on_chunk(&mut self, chunk: &Vec<i64>)
        ensures
            final (self).buffer_model() == buffer_step(
                old(self).buffer_model(),
                BufferEvent::Chunk(chunk@),
            ),
            final (self).phase_spec() == old(self).phase_spec(),
            Pipeline::config_unchanged(*old(self), *final (self)),
            old(self).wf() ==> final (self).wf(),
    {
        self.buffer.append(chunk);
    }

    /// What a Stop taken while recording leaves behind: the outcome of
    /// the processing step on the snapshot taken at the Stop.
    pub open spec fn stop_outcome(pre: Pipeline, post: Pipeline, actions: Seq<Action>) -> bool {
        Pipeline::processing_outcome(
            pre.buffer_model().samples,
            pre.api_key_spec(),
            pre.model_spec(),
            pre.rate_spec(),
            post,
            actions,
        )
    }

    /// The processing step on a snapshot: reject empty or over-long
    /// audio, abort silently on missing configuration, otherwise hand
    /// out the encoded request.
    pub open spec fn processing_outcome(
        snap: Seq<i64>,
        key: Seq<char>,
        model: Seq<char>,
        rate: u32,
        post: Pipeline,
        actions: Seq<Action>,
    ) -> bool {
        if snap.len() == 0 {
            &&& post.phase_spec() is Idle
            &&& actions.len() == 4
            &&& (actions[0] matches Action::Notify(StatusEvent::Processing))
            &&& (actions[1] matches Action::Notify(StatusEvent::Error(m)) && m@
                == "No audio recorded"@)
            &&& actions[2] is Cooldown
            &&& (actions[3] matches Action::Notify(StatusEvent::Idle))
        } else if snap.len() > MAX_SESSION_SAMPLES {
            &&& post.phase_spec() is Idle
            &&& actions.len() == 4
            &&& (actions[0] matches Action::Notify(StatusEvent::Processing))
            &&& (actions[1] matches Action::Notify(StatusEvent::Error(m)) && m@
                == "audio too long for the WAV container"@)
            &&& actions[2] is Cooldown
            &&& (actions[3] matches Action::Notify(StatusEvent::Idle))
        } else if key.len() == 0 || model.len() == 0 {
            // A configuration error aborts the cycle silently: logged
            // by the application, no error status.
            &&& post.phase_spec() is Idle
            &&& actions.len() == 1
            &&& (actions[0] matches Action::Notify(StatusEvent::Processing))
        } else {
            &&& post.phase_spec() is AwaitingHttp
            &&& actions.len() == 3
            &&& (actions[0] matches Action::Notify(StatusEvent::Processing))
            &&& (actions[1] matches Action::Notify(StatusEvent::Transcribing))
            &&& (actions[2] matches Action::SendRequest { url, body } && url@ == request_url_chars(
                model,
                key,
            ) && body@ == request_body_chars(base64_of(wav_bytes(quantized(snap), rate))))
        }
    }

    /// Take one command. Start opens a session when idle and is
    /// ignored while already recording; Stop while idle is ignored;
    /// Stop while recording clears the capture flag, snapshots the buffer and
    /// runs the processing step.
    pub fn on_command(&mut self, cmd: Command) -> (actions: Vec<Action>)
        requires
            old(self).wf(),
            !old(self).mid_cycle(),
        ensures
            final (self).wf(),
            Pipeline::config_unchanged(*old(self), *final (self)),
            final (self).buffer_model() == buffer_step(old(self).buffer_model(), cmd_event(cmd)),
            cmd is Start && old(self).phase_spec() is Idle ==> {
                &&& final (self).phase_spec() is Recording
                &&& actions@.len() == 1
                &&& (actions@[0] matches Action::Notify(StatusEvent::Recording))
            },
            cmd is Start && old(self).phase_spec() is Recording ==> {
                &&& final (self).phase_spec() is Recording
                &&& actions@.len() == 0
            },
            cmd is Stop && old(self).phase_spec() is Idle ==> {
                &&& final (self).phase_spec() is Idle
                &&& actions@.len() == 0
            },
            cmd is Stop && old(self).phase_spec() is Recording ==> Pipeline::stop_outcome(
                *old(self),
                *final (self),
                actions@,
            ),
    {
        match cmd {
            Command::Start => {
                if self.phase == Phase::Idle {
                    self.buffer.begin();
                    self.phase = Phase::Recording;
                    let mut actions: Vec<Action> = Vec::new();
                    actions.push(Action::Notify(StatusEvent::Recording));
                    actions
                } else {
                    Vec::new()
                }
            },
            Command::Stop => {
                if self.phase == Phase::Recording {
                    let snap = self.buffer.end_session();
                    self.phase = Phase::Idle;
                    self.process_stop(snap)
                } else {
                    Vec::new()
                }
            },
        }
    }

    /// The processing step after a Stop: decide on the snapshot, with
    /// the capture flag already cleared.
    fn process_stop(&mut self, snap: Vec<i64>) -> (actions: Vec<Action>)
        requires
            old(self).wf(),
            old(self).phase_spec() is Idle,
        ensures
            final (self).wf(),
            Pipeline::config_unchanged(*old(self), *final (self)),
            final (self).buffer_model() == old(self).buffer_model(),
            Pipeline::processing_outcome(
                snap@,
                old(self).api_key_spec(),
                old(self).model_spec(),
                old(self).rate_spec(),
                *final (self),
                actions@,
            ),
    {
        if snap.len() == 0 {
            let mut actions: Vec<Action> = Vec::new();
            actions.push(Action::Notify(StatusEvent::Processing));
            actions.push(Action::Notify(StatusEvent::Error(String::from_str("No audio recorded"))));
            actions.push(Action::Cooldown);
            actions.push(Action::Notify(StatusEvent::Idle));
            actions
        } else if snap.len() > MAX_SESSION_SAMPLES {
            let mut actions: Vec<Action> = Vec::new();
            actions.push(Action::Notify(StatusEvent::Processing));
            actions.push(
                Action::Notify(
                    StatusEvent::Error(String::from_str("audio too long for the WAV container")),
                ),
            );
            actions.push(Action::Cooldown);
            actions.push(Action::Notify(StatusEvent::Idle));
            actions
        } else if self.api_key.as_str().is_empty() || self.model.as_str().is_empty() {
            // Missing credential or model: abort silently.
            let mut actions: Vec<Action> = Vec::new();
            actions.push(Action::Notify(StatusEvent::Processing));
            actions
        } else {
            self.dispatch_request(snap)
        }
    }

    /// Encode the snapshot and hand out the transcription request.
    fn dispatch_request(&mut self, snap: Vec<i64>) -> (actions: Vec<Action>)
        requires
            old(self).wf(),
            old(self).phase_spec() is Idle,
            0 < snap@.len() <= MAX_SESSION_SAMPLES,
            old(self).api_key_spec().len() > 0,
            old(self).model_spec().len() > 0,
        ensures
            final (self).wf(),
            Pipeline::config_unchanged(*old(self), *final (self)),
            final (self).buffer_model() == old(self).buffer_model(),
            final (self).phase_spec() is AwaitingHttp,
            actions@.len() == 3,
            actions@[0] matches Action::Notify(StatusEvent::Processing),
            actions@[1] matches Action::Notify(StatusEvent::Transcribing),
            (actions@[2] matches Action::SendRequest { url, body } && url@ == request_url_chars(
                old(self).model_spec(),
                old(self).api_key_spec(),
            ) && body@ == request_body_chars(
                base64_of(wav_bytes(quantized(snap@), old(self).rate_spec())),
            )),
    {
        let wav = match encode_container(&snap, self.sample_rate) {
            Result::Ok(w) => w,
            Result::Err(_) => vstd::pervasive::unreached(),
        };
        proof {
            crate::codec::lemma_wav_len(quantized(snap@), self.sample_rate);
        }
        let b64 = encode_base64(&wav);
        let url = request_url(self.model.as_str(), self.api_key.as_str());
        let body = request_body(b64.as_str());
        let mut actions: Vec<Action> = Vec::new();
        actions.push(Action::Notify(StatusEvent::Processing));
        actions.push(Action::Notify(StatusEvent::Transcribing));
        actions.push(Action::SendRequest { url, body });
        self.phase = Phase::AwaitingHttp;
        actions
    }

    /// Take the outcome of the request that was handed out. A failure
    /// of any kind runs the error cycle with its detail; a well-formed
    /// response either hands the trimmed transcription to the
    /// clipboard or, when it is empty, returns to idle with no action.
    pub fn on_http(&mut self, outcome: HttpOutcome) -> (actions: Vec<Action>)
        requires
            old(self).wf(),
            old(self).phase_spec() is AwaitingHttp,
        ensures
            final (self).wf(),
            Pipeline::config_unchanged(*old(self), *final (self)),
            final (self).buffer_model() == old(self).buffer_model(),
            outcome matches HttpOutcome::TransportError(m) ==> final (self).phase_spec() is Idle
                && error_cycle(actions@, "HTTP request failed: "@ + m@),
            outcome matches HttpOutcome::HttpFailure(Some(b)) ==> final (self).phase_spec() is Idle
                && error_cycle(actions@, "API error: "@ + b@),
            outcome matches HttpOutcome::HttpFailure(None) ==> final (self).phase_spec() is Idle
                && error_cycle(actions@, "API error: Unknown error"@),
            outcome matches HttpOutcome::InvalidJson(m) ==> final (self).phase_spec() is Idle
                && error_cycle(actions@, "JSON parse error: "@ + m@),
            outcome matches HttpOutcome::Parsed(r) ==> {
                let text = trim_spec(extracted_text(r));
                if text.len() == 0 {
                    &&& final (self).phase_spec() is Idle
                    &&& actions@.len() == 0
                } else {
                    &&& final (self).phase_spec() is AwaitingClipboard
                    &&& actions@.len() == 1
                    &&& (actions@[0] matches Action::WriteClipboard(t) && t@ == text)
                }
            },
    {
        match outcome {
            HttpOutcome::TransportError(m) => {
                let mut detail = String::from_str("HTTP request failed: ");
                detail.append(m.as_str());
                self.phase = Phase::Idle;
                Pipeline::error_actions(detail)
            },
            HttpOutcome::HttpFailure(body) => {
                let mut detail = String::from_str("API error: ");
                match &body {
                    Option::Some(b) => detail.append(b.as_str()),
                    Option::None => {
                        detail.append("Unknown error");
                        proof {
                            reveal_strlit("API error: ");
                            reveal_strlit("Unknown error");
                            reveal_strlit("API error: Unknown error");
                            assert("API error: "@ + "Unknown error"@
                                =~= "API error: Unknown error"@);
                        }
                    },
                }
                self.phase = Phase::Idle;
                Pipeline::error_actions(detail)
            },
            HttpOutcome::InvalidJson(m) => {
                let mut detail = String::from_str("JSON parse error: ");
                detail.append(m.as_str());
                self.phase = Phase::Idle;
                Pipeline::error_actions(detail)
            },
            HttpOutcome::Parsed(r) => {
                let text = transcript_text(&r);
                if text.as_str().is_empty() {
                    self.phase = Phase::Idle;
                    Vec::new()
                } else {
                    self.phase = Phase::AwaitingClipboard;
                    let mut actions: Vec<Action> = Vec::new();
                    actions.push(Action::WriteClipboard(text));
                    actions
                }
            },
        }
    }

    /// The error cycle's actions for a detail.
    fn error_actions(detail: String) -> (actions: Vec<Action>)
        ensures
            error_cycle(actions@, detail@),
    {
        let mut actions: Vec<Action> = Vec::new();
        actions.push(Action::Notify(StatusEvent::Error(detail)));
        actions.push(Action::Cooldown);
        actions.push(Action::Notify(StatusEvent::Idle));
        actions
    }

    /// Take the outcome of the clipboard write. Success pauses, pastes
    /// and finishes the cycle as a success; a failed write
    /// short-circuits before the paste, back to idle.
    pub fn on_clipboard(&mut self, ok: bool) -> (actions: Vec<Action>)
        requires
            old(self).wf(),
            old(self).phase_spec() is AwaitingClipboard,
        ensures
            final (self).wf(),
            Pipeline::config_unchanged(*old(self), *final (self)),
            final (self).buffer_model() == old(self).buffer_model(),
            final (self).phase_spec() is Idle,
            ok ==> {
                &&& actions@.len() == 5
                &&& actions@[0] is PastePause
                &&& actions@[1] is Paste
                &&& (actions@[2] matches Action::Notify(StatusEvent::Success))
                &&& actions@[3] is Cooldown
                &&& (actions@[4] matches Action::Notify(StatusEvent::Idle))
            },
            !ok ==> actions@.len() == 0,
    {
        self.phase = Phase::Idle;
        if ok {
            let mut actions: Vec<Action> = Vec::new();
            actions.push(Action::PastePause);
            actions.push(Action::Paste);
            actions.push(Action::Notify(StatusEvent::Success));
            actions.push(Action::Cooldown);
            actions.push(Action::Notify(StatusEvent::Idle));
            actions
        } else {
            Vec::new()
        }
    }
}

/// Law: a Stop taken with an empty buffer reports the no-audio error
/// and never reaches the transcription client — no request is among
/// its actions.
pub proof fn lemma_empty_stop_never_requests(pre: Pipeline, post: Pipeline, actions: Seq<Action>)
    requires
        Pipeline::stop_outcome(pre, post, actions),
        pre.buffer_model().samples.len() == 0,
    ensures
        actions[1] matches Action::Notify(StatusEvent::Error(m)) && m@ == "No audio recorded"@,
        forall|k: int| 0 <= k < actions.len() ==> !(actions[k] is SendRequest),
{
}

/// Law: a failed cycle writes nothing to the clipboard and pastes
/// nothing — its actions are the error status, the cooldown and the
/// return to idle alone.
pub proof fn lemma_error_cycle_touches_nothing(actions: Seq<Action>, detail: Seq<char>)
    requires
        error_cycle(actions, detail),
    ensures
        forall|k: int| 0 <= k < actions.len() ==> !(actions[k] is WriteClipboard),
        forall|k: int| 0 <= k < actions.len() ==> !(actions[k] is Paste),
        forall|k: int| 0 <= k < actions.len() ==> !(actions[k] is SendRequest),
{
}

} // verus!

