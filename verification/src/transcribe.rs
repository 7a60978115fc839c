//! The transcription client's request and response logic: the request
//! URL and JSON body sent to the speech-to-text endpoint, and the
//! extraction of the transcription text from a parsed response.
//!
//! The network call itself is the application's: the library builds the
//! request from plain values and reads the parsed response as plain
//! values.

use crate::text::{trim, trim_spec};
use vstd::prelude::*;
use vstd::string::StringExecFns;

verus! {

/// A parsed response from the transcription endpoint. Every level is
/// optional: a missing level means no transcription was produced, not
/// an error.
pub struct GeminiResponse {
    pub candidates: Option<Vec<Candidate>>,
}

/// One candidate answer of the response.
pub struct Candidate {
    pub content: Option<CandidateContent>,
}

/// The content of one candidate.
pub struct CandidateContent {
    pub parts: Option<Vec<ResponsePart>>,
}

/// One content part; the transcription is its text field.
pub struct ResponsePart {
    pub text: Option<String>,
}

/// The text field of the first part of the first candidate's content,
/// or empty where any level of that nesting is absent.
pub open spec fn extracted_text(r: GeminiResponse) -> Seq<char> {
    match r.candidates {
        Option::None => Seq::empty(),
        Option::Some(cs) => if cs@.len() == 0 {
            Seq::empty()
        } else {
            match cs@[0].content {
                Option::None => Seq::empty(),
                Option::Some(ct) => match ct.parts {
                    Option::None => Seq::empty(),
                    Option::Some(ps) => if ps@.len() == 0 {
                        Seq::empty()
                    } else {
                        match ps@[0].text {
                            Option::None => Seq::empty(),
                            Option::Some(t) => t@,
                        }
                    },
                },
            }
        },
    }
}

/// Walk the response's optional nesting for the transcription text,
/// defaulting to the empty string wherever a level is absent.
pub fn extract_text(r: &GeminiResponse) -> (t: String)
    ensures
        t@ == extracted_text(*r),
{
    match &r.candidates {
        Option::Some(cs) => {
            if cs.len() > 0 {
                match &cs[0].content {
                    Option::Some(ct) => match &ct.parts {
                        Option::Some(ps) => {
                            if ps.len() > 0 {
                                match &ps[0].text {
                                    Option::Some(t) => t.clone(),
                                    Option::None => String::new(),
                                }
                            } else {
                                String::new()
                            }
                        },
                        Option::None => String::new(),
                    },
                    Option::None => String::new(),
                }
            } else {
                String::new()
            }
        },
        Option::None => String::new(),
    }
}

/// The transcription a response yields: the extracted text, trimmed of
/// leading and trailing whitespace.
pub fn transcript_text(r: &GeminiResponse) -> (t: String)
    ensures
        t@ == trim_spec(extracted_text(*r)),
{
    let raw = extract_text(r);
    trim(raw.as_str())
}

/// The fixed instruction sent with every request: transcribe the spoken
/// audio and return only the transcription.
pub open spec fn instruction_text() -> Seq<char> {
    "これは、PC作業時の音声入力のための音声です。音声を文字起こししてください。音声の内容のみを出力し、余計な説明は不要です。"@
}

/// The fixed instruction as a value.
pub fn instruction() -> (r: &'static str)
    ensures
        r@ == instruction_text(),
{
    "これは、PC作業時の音声入力のための音声です。音声を文字起こししてください。音声の内容のみを出力し、余計な説明は不要です。"
}

/// The model-specific endpoint URL, with the credential as a query
/// parameter.
pub open spec fn request_url_chars(model: Seq<char>, key: Seq<char>) -> Seq<char> {
    "https://generativelanguage.googleapis.com/v1beta/models/"@ + model + ":generateContent?key="@
        + key
}

/// Build the endpoint URL for a model and credential.
pub fn request_url(model: &str, key: &str) -> (r: String)
    ensures
        r@ == request_url_chars(model@, key@),
{
    let mut url = String::from_str("https://generativelanguage.googleapis.com/v1beta/models/");
    url.append(model);
    url.append(":generateContent?key=");
    url.append(key);
    url
}

/// The JSON request body: one content with two ordered parts, the
/// audio inline as standard base64 tagged with its media type, then
/// the fixed instruction.
pub open spec fn request_body_chars(b64: Seq<char>) -> Seq<char> {
    "{\"contents\":[{\"parts\":[{\"inline_data\":{\"mime_type\":\"audio/wav\",\"data\":\""@ + b64
        + "\"}},{\"text\":\""@ + instruction_text() + "\"}]}]}"@
}

/// Build the JSON request body around the encoded audio. The base64
/// alphabet and the fixed instruction need no JSON escaping.
pub fn request_body(b64: &str) -> (r: String)
    ensures
        r@ == request_body_chars(b64@),
{
    let mut body = String::from_str(
        "{\"contents\":[{\"parts\":[{\"inline_data\":{\"mime_type\":\"audio/wav\",\"data\":\"",
    );
    body.append(b64);
    body.append("\"}},{\"text\":\"");
    body.append(instruction());
    body.append("\"}]}]}");
    body
}

/// What `encode_base64` returns for given bytes: standard padded
/// base64, a function of the bytes alone.
pub uninterp spec fn base64_of(bytes: Seq<u8>) -> Seq<char>;

/// Relies on the `base64` crate's `Engine::encode` with the
/// `STANDARD` engine: the padded standard-alphabet encoding, a
/// function of the input bytes alone. The length bound keeps the
/// encoder's output-size computation, four output bytes for every
/// three of input, within `usize` on every machine width, so the call
/// cannot panic.
#[verifier::external_body]
pub(crate) fn encode_base64(bytes: &Vec<u8>) -> (r: String)
    requires
        bytes@.len() <= 3221225462,
    ensures
        r@ == base64_of(bytes@),
{
    base64::Engine::encode(&base64::engine::general_purpose::STANDARD, bytes.as_slice())
}

} // verus!
