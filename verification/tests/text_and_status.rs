//! Tests for whitespace trimming and the status broadcaster decisions.

use aquavoice::status::{next_frame, AnimationKind, StatusEvent};
use aquavoice::text::{is_whitespace_char, trim};

#[test]
fn trim_strips_both_ends() {
    assert_eq!(trim("  hello  "), "hello");
    assert_eq!(trim("\t\nhello world\r\n"), "hello world");
    assert_eq!(trim("hello"), "hello");
    assert_eq!(trim(""), "");
    assert_eq!(trim("   \t\n  "), "");
}

#[test]
fn trim_keeps_inner_whitespace() {
    assert_eq!(trim(" a  b "), "a  b");
}

#[test]
fn trim_handles_unicode_whitespace() {
    assert_eq!(trim("\u{3000}こんにちは\u{3000}"), "こんにちは");
    assert_eq!(trim("\u{00A0}x\u{2028}"), "x");
}

#[test]
fn whitespace_predicate_matches_std() {
    for c in ['\t', '\n', ' ', '\u{3000}', '\u{200A}', 'a', '0', '、', '\u{200B}'] {
        assert_eq!(is_whitespace_char(c), c.is_whitespace(), "mismatch on {:?}", c);
    }
    // Every scalar value agrees with the standard library's predicate.
    for u in 0..=0x10FFFFu32 {
        if let Some(c) = char::from_u32(u) {
            assert_eq!(is_whitespace_char(c), c.is_whitespace(), "mismatch on U+{:04X}", u);
        }
    }
}

#[test]
fn status_labels() {
    assert_eq!(StatusEvent::Recording.label(), "recording");
    assert_eq!(StatusEvent::Processing.label(), "processing");
    assert_eq!(StatusEvent::Transcribing.label(), "transcribing");
    assert_eq!(StatusEvent::Success.label(), "success");
    assert_eq!(StatusEvent::Error("x".to_string()).label(), "error");
    assert_eq!(StatusEvent::Idle.label(), "idle");
}

#[test]
fn error_ui_text_carries_detail() {
    assert_eq!(
        StatusEvent::Error("No audio recorded".to_string()).ui_text(),
        "error:No audio recorded"
    );
    assert_eq!(StatusEvent::Idle.ui_text(), "idle");
}

#[test]
fn animations_run_only_while_working() {
    assert_eq!(StatusEvent::Recording.animation(), Some(AnimationKind::Recording));
    assert_eq!(StatusEvent::Processing.animation(), Some(AnimationKind::Processing));
    assert_eq!(StatusEvent::Transcribing.animation(), Some(AnimationKind::Transcribing));
    assert_eq!(StatusEvent::Success.animation(), None);
    assert_eq!(StatusEvent::Error("e".to_string()).animation(), None);
    assert_eq!(StatusEvent::Idle.animation(), None);
}

#[test]
fn tooltips() {
    assert_eq!(StatusEvent::Recording.tooltip(), "AquaVoice - Recording...");
    assert_eq!(StatusEvent::Processing.tooltip(), "AquaVoice - Processing...");
    assert_eq!(StatusEvent::Transcribing.tooltip(), "AquaVoice - Transcribing...");
    assert_eq!(StatusEvent::Success.tooltip(), "AquaVoice - Done");
    assert_eq!(StatusEvent::Error("e".to_string()).tooltip(), "AquaVoice - Error");
    assert_eq!(StatusEvent::Idle.tooltip(), "AquaVoice - Ready");
}

#[test]
fn frame_counter_wraps_at_eight() {
    assert_eq!(next_frame(0), 1);
    assert_eq!(next_frame(6), 7);
    assert_eq!(next_frame(7), 0);
    assert_eq!(next_frame(255), 0);
}
