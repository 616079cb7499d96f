//! Construction of the outbound RECOGNIZE request.
//!
//! The request carries a fixed parameter set: this client issues exactly
//! one RECOGNIZE per session, always with the same control parameters.

use vstd::prelude::*;

verus! {

/// No-input timeout, in milliseconds.
pub const NO_INPUT_TIMEOUT_MS: u32 = 1000;

/// Recognition timeout, in milliseconds.
pub const RECOGNITION_TIMEOUT_MS: u32 = 10000;

/// Speech-complete timeout, in milliseconds.
pub const SPEECH_COMPLETE_TIMEOUT_MS: u32 = 1600;

/// Confidence threshold, in hundredths (the wire value is this over 100).
pub const CONFIDENCE_THRESHOLD_HUNDREDTHS: u32 = 87;

/// The protocol version the session negotiated. The `cancel-if-queue`
/// header exists only from the second version on.
#[derive(Clone, Copy, Debug, PartialEq, Eq, Structural)]
pub enum ProtocolVersion {
    Version1,
    Version2,
}

/// One outbound RECOGNIZE control request, as plain values. The embedding
/// program copies these into the transport's message before sending.
#[derive(Debug)]
pub struct RecognizeRequest {
    /// Generic content-type header.
    pub content_type: String,
    /// `Some(false)` exactly when the negotiated version defines the
    /// `cancel-if-queue` header; `None` means the header is not set.
    pub cancel_if_queue: Option<bool>,
    pub no_input_timeout_ms: u32,
    pub recognition_timeout_ms: u32,
    pub start_input_timers: bool,
    /// Confidence threshold in hundredths.
    pub confidence_threshold_hundredths: u32,
    pub speech_complete_timeout_ms: u32,
    /// The request body; always empty for this client.
    pub body: Vec<u8>,
}

/// What a well-formed RECOGNIZE request for a given protocol version holds.
pub open spec fn recognize_request_wf(req: RecognizeRequest, version: ProtocolVersion) -> bool {
    &&& req.content_type@ == "text/plain"@
    &&& req.cancel_if_queue == (if version is Version2 {
        Some(false)
    } else {
        None::<bool>
    })
    &&& req.no_input_timeout_ms == NO_INPUT_TIMEOUT_MS
    &&& req.recognition_timeout_ms == RECOGNITION_TIMEOUT_MS
    &&& req.start_input_timers == true
    &&& req.confidence_threshold_hundredths == CONFIDENCE_THRESHOLD_HUNDREDTHS
    &&& req.speech_complete_timeout_ms == SPEECH_COMPLETE_TIMEOUT_MS
    &&& req.body@ == Seq::<u8>::empty()
}

/// Build the one RECOGNIZE request this client sends: plain-text content
/// type, the fixed timer and threshold parameters, an empty body, and
/// `cancel-if-queue` set (to false) only when the negotiated version
/// defines that header.
pub fn create_recognize_message(version: ProtocolVersion) -> (req: RecognizeRequest)
    ensures
        recognize_request_wf(req, version),
{
    let cancel_if_queue: Option<bool> = if version == ProtocolVersion::Version2 {
        Some(false)
    } else {
        None
    };
    RecognizeRequest {
        content_type: String::from_str("text/plain"),
        cancel_if_queue,
        no_input_timeout_ms: NO_INPUT_TIMEOUT_MS,
        recognition_timeout_ms: RECOGNITION_TIMEOUT_MS,
        start_input_timers: true,
        confidence_threshold_hundredths: CONFIDENCE_THRESHOLD_HUNDREDTHS,
        speech_complete_timeout_ms: SPEECH_COMPLETE_TIMEOUT_MS,
        body: Vec::new(),
    }
}

} // verus!
