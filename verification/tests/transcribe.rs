//! Tests for the transcription client's request building and response
//! extraction.

use aquavoice::transcribe::{
    extract_text, instruction, request_body, request_url, transcript_text, Candidate,
    CandidateContent, GeminiResponse, ResponsePart,
};

fn response_with_text(text: Option<&str>) -> GeminiResponse {
    GeminiResponse {
        candidates: Some(vec![Candidate {
            content: Some(CandidateContent {
                parts: Some(vec![ResponsePart { text: text.map(|t| t.to_string()) }]),
            }),
        }]),
    }
}

#[test]
fn extract_full_nesting() {
    let r = response_with_text(Some("こんにちは"));
    assert_eq!(extract_text(&r), "こんにちは");
}

#[test]
fn extract_defaults_to_empty_at_each_absent_level() {
    assert_eq!(extract_text(&GeminiResponse { candidates: None }), "");
    assert_eq!(extract_text(&GeminiResponse { candidates: Some(vec![]) }), "");
    assert_eq!(
        extract_text(&GeminiResponse { candidates: Some(vec![Candidate { content: None }]) }),
        ""
    );
    assert_eq!(
        extract_text(&GeminiResponse {
            candidates: Some(vec![Candidate {
                content: Some(CandidateContent { parts: None }),
            }]),
        }),
        ""
    );
    assert_eq!(
        extract_text(&GeminiResponse {
            candidates: Some(vec![Candidate {
                content: Some(CandidateContent { parts: Some(vec![]) }),
            }]),
        }),
        ""
    );
    assert_eq!(extract_text(&response_with_text(None)), "");
}

#[test]
fn extract_takes_the_first_candidate_and_part() {
    let r = GeminiResponse {
        candidates: Some(vec![
            Candidate {
                content: Some(CandidateContent {
                    parts: Some(vec![
                        ResponsePart { text: Some("first".to_string()) },
                        ResponsePart { text: Some("second".to_string()) },
                    ]),
                }),
            },
            Candidate { content: None },
        ]),
    };
    assert_eq!(extract_text(&r), "first");
}

#[test]
fn transcript_is_trimmed() {
    let r = response_with_text(Some("\u{3000} hello \r\n"));
    assert_eq!(transcript_text(&r), "hello");
}

#[test]
fn url_is_the_model_endpoint_with_key_parameter() {
    assert_eq!(
        request_url("gemini-3-pro-preview", "abc123"),
        "https://generativelanguage.googleapis.com/v1beta/models/gemini-3-pro-preview:generateContent?key=abc123"
    );
}

#[test]
fn body_shape_is_audio_part_then_instruction() {
    let body = request_body("QUJD");
    let expected = format!(
        "{{\"contents\":[{{\"parts\":[{{\"inline_data\":{{\"mime_type\":\"audio/wav\",\"data\":\"QUJD\"}}}},{{\"text\":\"{}\"}}]}}]}}",
        instruction()
    );
    assert_eq!(body, expected);
    // The body is well-formed JSON with the declared shape.
    let v: serde_json::Value = serde_json::from_str(&body).unwrap();
    assert_eq!(v["contents"][0]["parts"][0]["inline_data"]["data"], "QUJD");
    assert_eq!(
        v["contents"][0]["parts"][0]["inline_data"]["mime_type"],
        "audio/wav"
    );
    assert_eq!(v["contents"][0]["parts"][1]["text"], instruction());
}

#[test]
fn instruction_is_fixed_and_nonempty() {
    assert!(!instruction().is_empty());
    assert!(instruction().contains("文字起こし"));
}
