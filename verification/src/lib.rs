//! Core of a push-to-talk dictation pipeline: a sample buffer filled by an
//! audio-capture callback, a WAV encoder for the captured samples, the
//! request/response logic of a remote transcription service, and the status
//! state machine that drives one recording session from `recording` through
//! `processing` and `transcribing` to `success` or `error` and back to `idle`.
//!
//! Everything here is plain data in, plain data out: the surrounding
//! application owns the microphone, the network, the clipboard and the tray,
//! and drives the pipeline with commands and event outcomes.

pub mod buffer;
pub mod codec;
pub mod pipeline;
pub mod status;
pub mod text;
pub mod transcribe;
