//! Tests for the pipeline state machine: the command protocol, the
//! status sequences of whole sessions, the error paths, and the
//! request that leaves for the transcription endpoint.

use aquavoice::codec::encode_container;
use aquavoice::pipeline::{Action, Command, HttpOutcome, Phase, Pipeline};
use aquavoice::status::StatusEvent;
use aquavoice::transcribe::{Candidate, CandidateContent, GeminiResponse, ResponsePart};

fn response_with_text(text: &str) -> GeminiResponse {
    GeminiResponse {
        candidates: Some(vec![Candidate {
            content: Some(CandidateContent {
                parts: Some(vec![ResponsePart { text: Some(text.to_string()) }]),
            }),
        }]),
    }
}

fn notified(actions: &[Action]) -> Vec<String> {
    let mut out = Vec::new();
    for a in actions {
        if let Action::Notify(s) = a {
            out.push(s.ui_text());
        }
    }
    out
}

fn ready_pipeline() -> Pipeline {
    let mut p = Pipeline::new(16000);
    p.set_api_key("test-key".to_string());
    p
}

#[test]
fn full_session_with_three_chunks() {
    // Start, three chunks while recording, Stop, a successful
    // transcription, clipboard and paste; the status sequence is
    // recording, processing, transcribing, success, idle.
    let mut p = ready_pipeline();
    let mut statuses: Vec<String> = Vec::new();

    let a = p.on_command(Command::Start);
    statuses.extend(notified(&a));
    assert_eq!(a, vec![Action::Notify(StatusEvent::Recording)]);

    p.on_chunk(&vec![100, 200]);
    p.on_chunk(&vec![300]);
    p.on_chunk(&vec![-400, 500, 600]);
    assert_eq!(p.buffered_len(), 6);

    let a = p.on_command(Command::Stop);
    statuses.extend(notified(&a));
    assert_eq!(a.len(), 3);
    assert_eq!(a[0], Action::Notify(StatusEvent::Processing));
    assert_eq!(a[1], Action::Notify(StatusEvent::Transcribing));
    assert!(matches!(a[2], Action::SendRequest { .. }));
    assert_eq!(p.phase(), Phase::AwaitingHttp);

    let a = p.on_http(HttpOutcome::Parsed(response_with_text("hello world")));
    statuses.extend(notified(&a));
    assert_eq!(a, vec![Action::WriteClipboard("hello world".to_string())]);
    assert_eq!(p.phase(), Phase::AwaitingClipboard);

    let a = p.on_clipboard(true);
    statuses.extend(notified(&a));
    assert_eq!(a.len(), 5);
    assert_eq!(a[0], Action::PastePause);
    assert_eq!(a[1], Action::Paste);
    assert_eq!(a[2], Action::Notify(StatusEvent::Success));
    assert_eq!(a[3], Action::Cooldown);
    assert_eq!(a[4], Action::Notify(StatusEvent::Idle));
    let pastes = a.iter().filter(|x| **x == Action::Paste).count();
    assert_eq!(pastes, 1);
    assert_eq!(p.phase(), Phase::Idle);

    assert_eq!(statuses, vec!["recording", "processing", "transcribing", "success", "idle"]);
}

#[test]
fn empty_stop_reports_no_audio() {
    // Start then Stop with nothing captured: recording, processing,
    // error:No audio recorded, idle — and no request leaves.
    let mut p = ready_pipeline();
    let mut statuses: Vec<String> = Vec::new();

    let a = p.on_command(Command::Start);
    statuses.extend(notified(&a));
    let a = p.on_command(Command::Stop);
    statuses.extend(notified(&a));

    assert_eq!(
        statuses,
        vec!["recording", "processing", "error:No audio recorded", "idle"]
    );
    assert!(a.iter().all(|x| !matches!(x, Action::SendRequest { .. })));
    assert_eq!(p.phase(), Phase::Idle);
}

#[test]
fn no_audio_message_names_no_audio() {
    let mut p = ready_pipeline();
    p.on_command(Command::Start);
    let a = p.on_command(Command::Stop);
    let detail = a.iter().find_map(|x| match x {
        Action::Notify(StatusEvent::Error(m)) => Some(m.clone()),
        _ => None,
    });
    assert!(detail.unwrap().to_lowercase().contains("no audio"));
}

#[test]
fn start_while_recording_is_ignored() {
    let mut p = ready_pipeline();
    p.on_command(Command::Start);
    p.on_chunk(&vec![1, 2, 3]);
    let a = p.on_command(Command::Start);
    assert!(a.is_empty());
    assert_eq!(p.phase(), Phase::Recording);
    // The buffer was not cleared by the repeated Start.
    assert_eq!(p.buffered_len(), 3);
}

#[test]
fn stop_while_idle_is_ignored() {
    let mut p = ready_pipeline();
    let a = p.on_command(Command::Stop);
    assert!(a.is_empty());
    assert_eq!(p.phase(), Phase::Idle);
}

#[test]
fn chunks_outside_recording_are_dropped() {
    let mut p = ready_pipeline();
    p.on_chunk(&vec![1, 2, 3]);
    assert_eq!(p.buffered_len(), 0);
    p.on_command(Command::Start);
    p.on_chunk(&vec![4]);
    p.on_command(Command::Stop);
    p.on_chunk(&vec![5, 6]);
    assert_eq!(p.buffered_len(), 1);
}

#[test]
fn buffer_cleared_on_each_start() {
    let mut p = ready_pipeline();
    p.on_command(Command::Start);
    p.on_chunk(&vec![1, 2, 3, 4]);
    p.on_command(Command::Stop);
    p.on_http(HttpOutcome::TransportError("x".to_string()));
    p.on_command(Command::Start);
    assert_eq!(p.buffered_len(), 0);
    p.on_chunk(&vec![7]);
    assert_eq!(p.buffered_len(), 1);
}

#[test]
fn missing_api_key_aborts_silently() {
    let mut p = Pipeline::new(16000);
    p.on_command(Command::Start);
    p.on_chunk(&vec![10, 20]);
    let a = p.on_command(Command::Stop);
    assert_eq!(a, vec![Action::Notify(StatusEvent::Processing)]);
    assert_eq!(p.phase(), Phase::Idle);
}

#[test]
fn missing_model_aborts_silently() {
    let mut p = ready_pipeline();
    p.set_model(String::new());
    p.on_command(Command::Start);
    p.on_chunk(&vec![10, 20]);
    let a = p.on_command(Command::Stop);
    assert_eq!(a, vec![Action::Notify(StatusEvent::Processing)]);
    assert_eq!(p.phase(), Phase::Idle);
}

fn to_awaiting_http(p: &mut Pipeline) {
    p.on_command(Command::Start);
    p.on_chunk(&vec![11, -22, 33]);
    let a = p.on_command(Command::Stop);
    assert!(matches!(a.last().unwrap(), Action::SendRequest { .. }));
}

#[test]
fn http_failure_carries_body_as_detail() {
    // A non-success status yields the error status carrying the
    // response body, and nothing touches the clipboard.
    let mut p = ready_pipeline();
    to_awaiting_http(&mut p);
    let a = p.on_http(HttpOutcome::HttpFailure(Some("quota exceeded".to_string())));
    assert_eq!(a.len(), 3);
    assert_eq!(
        a[0],
        Action::Notify(StatusEvent::Error("API error: quota exceeded".to_string()))
    );
    assert_eq!(a[1], Action::Cooldown);
    assert_eq!(a[2], Action::Notify(StatusEvent::Idle));
    assert!(a.iter().all(|x| !matches!(x, Action::WriteClipboard(_))));
    assert!(a.iter().all(|x| *x != Action::Paste));
    assert_eq!(p.phase(), Phase::Idle);
}

#[test]
fn http_failure_without_body_is_unknown_error() {
    let mut p = ready_pipeline();
    to_awaiting_http(&mut p);
    let a = p.on_http(HttpOutcome::HttpFailure(None));
    assert_eq!(
        a[0],
        Action::Notify(StatusEvent::Error("API error: Unknown error".to_string()))
    );
}

#[test]
fn transport_error_detail() {
    let mut p = ready_pipeline();
    to_awaiting_http(&mut p);
    let a = p.on_http(HttpOutcome::TransportError("connection refused".to_string()));
    assert_eq!(
        a[0],
        Action::Notify(StatusEvent::Error(
            "HTTP request failed: connection refused".to_string()
        ))
    );
    assert_eq!(p.phase(), Phase::Idle);
}

#[test]
fn invalid_json_detail() {
    let mut p = ready_pipeline();
    to_awaiting_http(&mut p);
    let a = p.on_http(HttpOutcome::InvalidJson("expected value".to_string()));
    assert_eq!(
        a[0],
        Action::Notify(StatusEvent::Error("JSON parse error: expected value".to_string()))
    );
}

#[test]
fn empty_text_writes_nothing_and_returns_to_idle() {
    // An empty transcription is no error: no clipboard write, no
    // paste, straight back to idle.
    let mut p = ready_pipeline();
    to_awaiting_http(&mut p);
    let a = p.on_http(HttpOutcome::Parsed(response_with_text("")));
    assert!(a.is_empty());
    assert_eq!(p.phase(), Phase::Idle);
}

#[test]
fn whitespace_only_text_counts_as_empty() {
    let mut p = ready_pipeline();
    to_awaiting_http(&mut p);
    let a = p.on_http(HttpOutcome::Parsed(response_with_text("  \n\t  ")));
    assert!(a.is_empty());
    assert_eq!(p.phase(), Phase::Idle);
}

#[test]
fn absent_candidates_count_as_empty() {
    let mut p = ready_pipeline();
    to_awaiting_http(&mut p);
    let a = p.on_http(HttpOutcome::Parsed(GeminiResponse { candidates: None }));
    assert!(a.is_empty());
    assert_eq!(p.phase(), Phase::Idle);
}

#[test]
fn transcription_text_is_trimmed_for_clipboard() {
    let mut p = ready_pipeline();
    to_awaiting_http(&mut p);
    let a = p.on_http(HttpOutcome::Parsed(response_with_text("  hello world \n")));
    assert_eq!(a, vec![Action::WriteClipboard("hello world".to_string())]);
}

#[test]
fn clipboard_failure_short_circuits_before_paste() {
    let mut p = ready_pipeline();
    to_awaiting_http(&mut p);
    p.on_http(HttpOutcome::Parsed(response_with_text("hi")));
    let a = p.on_clipboard(false);
    assert!(a.is_empty());
    assert_eq!(p.phase(), Phase::Idle);
}

#[test]
fn request_url_and_body_carry_model_key_and_audio() {
    let mut p = Pipeline::new(8000);
    p.set_api_key("secret".to_string());
    p.set_model("test-model".to_string());
    p.on_command(Command::Start);
    let samples: Vec<i64> = vec![100, -200, 32767];
    p.on_chunk(&samples);
    let a = p.on_command(Command::Stop);
    let (url, body) = match &a[2] {
        Action::SendRequest { url, body } => (url.clone(), body.clone()),
        other => panic!("expected a request, got {:?}", other),
    };
    assert_eq!(
        url,
        "https://generativelanguage.googleapis.com/v1beta/models/test-model:generateContent?key=secret"
    );
    // The body holds the container exactly, as standard base64.
    let marker = "\"data\":\"";
    let at = body.find(marker).unwrap() + marker.len();
    let end = body[at..].find('"').unwrap() + at;
    let b64 = &body[at..end];
    let decoded = base64::Engine::decode(&base64::engine::general_purpose::STANDARD, b64).unwrap();
    let expected = encode_container(&samples, 8000).unwrap();
    assert_eq!(decoded, expected);
    // The fixed instruction follows the audio part.
    let audio_pos = body.find("inline_data").unwrap();
    let text_pos = body.find("\"text\":").unwrap();
    assert!(audio_pos < text_pos);
    assert!(body.contains("\"mime_type\":\"audio/wav\""));
}
