//! The messages the transport collaborator delivers, and the effects the
//! core asks it to perform in return.
//!
//! Every inbound message is classified into these plain values by the
//! embedding program before it reaches the dispatcher; every outbound
//! action is named by an [`Effect`] that the embedding program executes.

use vstd::prelude::*;
use crate::text::{utf8_decode, invalid_utf8_placeholder};

verus! {

/// Completion cause reported by the recognizer for a successful recognition.
pub const COMPLETION_CAUSE_SUCCESS: u32 = 0;

/// Completion cause reported by the recognizer when no input was detected.
pub const COMPLETION_CAUSE_NO_INPUT: u32 = 2;

/// Which signaling command a signaling response answers.
#[derive(Clone, Copy, Debug, PartialEq, Eq, Structural)]
pub enum SigCommand {
    SessionUpdate,
    SessionTerminate,
    ChannelAdd,
    ChannelRemove,
    ResourceDiscover,
    Other,
}

/// The status carried by a signaling response.
#[derive(Clone, Copy, Debug, PartialEq, Eq, Structural)]
pub enum SigStatus {
    Success,
    Failure,
}

/// Which signaling event arrived.
#[derive(Clone, Copy, Debug, PartialEq, Eq, Structural)]
pub enum SigEventKind {
    Terminate,
    Other,
}

/// A signaling-plane message.
#[derive(Debug)]
pub enum SigMessage {
    Response { command: SigCommand, status: SigStatus },
    Event { kind: SigEventKind },
    Request,
    Other,
}

/// A control-plane event for the recognizer resource.
#[derive(Debug)]
pub enum ControlEvent {
    StartOfInput,
    RecognitionComplete { cause: Option<u32>, body: Vec<u8> },
    Other,
}

/// A control-plane message for the recognizer resource.
#[derive(Debug)]
pub enum ControlMessage {
    Response { recognize_method: bool, in_progress: bool },
    Event(ControlEvent),
    Other,
}

/// One inbound message, as the transport collaborator delivers it.
#[derive(Debug)]
pub enum AppMessage {
    Signaling(SigMessage),
    Control(ControlMessage),
    Other,
}

/// How a completed recognition is reported to the operator.
#[derive(Debug)]
pub enum RecognitionOutcome {
    /// Completion cause "success": the decoded result text (possibly the
    /// diagnostic placeholder when the body was not valid UTF-8).
    Text(String),
    /// Completion cause "no input": the server detected no speech.
    NoInput,
    /// Any other completion cause: logged, not specially handled.
    OtherCause(u32),
    /// The completion-cause header was absent: a protocol contract
    /// violation by the server, reported as fatal.
    MissingCause,
}

/// The action the dispatcher asks the embedding program to perform after
/// processing one message.
#[derive(Debug)]
pub enum Effect {
    /// Nothing beyond logging.
    NoAction,
    /// Build a RECOGNIZE request and send it on the channel, then open the
    /// audio source.
    SendRecognize,
    /// Request removal of the channel after a failed negotiation.
    AbortChannel,
    /// Report the recognition outcome and request removal of the channel.
    CompleteChannel(RecognitionOutcome),
    /// Terminate the session.
    TerminateSession,
    /// Destroy the session and fire the one-shot completion signal.
    SessionEnded,
}

/// An [`Effect`] with its payload stripped, for use in transition specs.
#[derive(Clone, Copy, Debug, PartialEq, Eq, Structural)]
pub enum EffectLabel {
    NoAction,
    SendRecognize,
    AbortChannel,
    CompleteChannel,
    TerminateSession,
    SessionEnded,
}

/// The payload-free label of an effect.
pub open spec fn label_of(e: Effect) -> EffectLabel {
    match e {
        Effect::NoAction => EffectLabel::NoAction,
        Effect::SendRecognize => EffectLabel::SendRecognize,
        Effect::AbortChannel => EffectLabel::AbortChannel,
        Effect::CompleteChannel(_) => EffectLabel::CompleteChannel,
        Effect::TerminateSession => EffectLabel::TerminateSession,
        Effect::SessionEnded => EffectLabel::SessionEnded,
    }
}

/// How a recognition outcome must relate to the completion-cause header
/// and the message body it was interpreted from.
pub open spec fn outcome_of(cause: Option<u32>, body: Seq<u8>, outcome: RecognitionOutcome) -> bool {
    match cause {
        None => outcome is MissingCause,
        Some(c) => if c == COMPLETION_CAUSE_SUCCESS {
            outcome matches RecognitionOutcome::Text(t) && (match utf8_decode(body) {
                Some(cs) => t@ == cs,
                None => t@ == invalid_utf8_placeholder(),
            })
        } else if c == COMPLETION_CAUSE_NO_INPUT {
            outcome is NoInput
        } else {
            outcome == RecognitionOutcome::OtherCause(c)
        },
    }
}

} // verus!
