//! The session dispatcher and the per-channel lifecycle state machine.
//!
//! Every asynchronous message the transport collaborator delivers enters
//! through [`Dispatcher::handle_message`], which routes it by category and
//! answers with the one [`Effect`] the embedding program is to perform.
//! The channel walks `Created -> Added -> Streaming -> Completed ->
//! Removed`; every failure collapses onto the single teardown path
//! (session terminate, then the one-shot completion signal), and the
//! per-channel state is released exactly once, at removal.

use vstd::prelude::*;
use crate::messages::{
    AppMessage, ControlEvent, ControlMessage, Effect, EffectLabel, RecognitionOutcome, SigCommand,
    SigMessage, SigStatus, label_of, outcome_of, COMPLETION_CAUSE_NO_INPUT,
    COMPLETION_CAUSE_SUCCESS,
};
use crate::feeder::RecogState;
use crate::text::decode_result_text;

verus! {

/// The sample rate of the fixed audio profile, in hertz.
pub const SAMPLE_RATE_HZ: u32 = 8000;

/// The audio capability the one channel is created with: this client
/// negotiates a single fixed profile, receive-direction linear PCM at
/// 8 kHz.
#[derive(Debug)]
pub struct StreamCapabilities {
    /// The stream runs toward this client (the recognizer listens).
    pub receive_direction: bool,
    pub sample_rate_hz: u32,
    pub codec_name: String,
}

/// Build the capability descriptor for the one channel.
pub fn create_stream_capabilities() -> (c: StreamCapabilities)
    ensures
        c.receive_direction,
        c.sample_rate_hz == SAMPLE_RATE_HZ,
        c.codec_name@ == "LPCM"@,
{
    StreamCapabilities {
        receive_direction: true,
        sample_rate_hz: SAMPLE_RATE_HZ,
        codec_name: String::from_str("LPCM"),
    }
}

/// Where the one channel stands in its lifecycle.
#[derive(Clone, Copy, Debug, PartialEq, Eq, Structural)]
pub enum ChannelState {
    /// Created, its addition to the session not yet answered.
    Created,
    /// Added to the session; RECOGNIZE sent, acknowledgement pending.
    Added,
    /// RECOGNIZE acknowledged in progress; audio is streaming.
    Streaming,
    /// Recognition over or negotiation failed; removal requested.
    Completed,
    /// Removed; its per-channel state has been released.
    Removed,
}

/// The top-level message router. It owns the one channel's lifecycle
/// state, the per-channel recognition state (released exactly once, at
/// removal), and the one-shot completion flag.
#[derive(Debug)]
pub struct Dispatcher {
    pub channel: ChannelState,
    /// Present for the channel's lifetime, `None` once released.
    pub recog: Option<RecogState>,
    /// Whether the process-wide completion signal has been fired.
    pub completion_signaled: bool,
}

impl Dispatcher {
    /// Well-formedness: the per-channel state exists exactly until
    /// removal, and the streaming flag is on exactly while the channel
    /// stands between the in-progress acknowledgement and completion or
    /// removal.
    pub open spec fn wf(self) -> bool {
        &&& (self.channel is Removed <==> self.recog is None)
        &&& (self.recog matches Some(r) ==> (r.streaming <==> self.channel is Streaming))
    }

    /// A dispatcher for a freshly created channel.
    pub fn new(path: String) -> (d: Dispatcher)
        ensures
            d.wf(),
            d.channel is Created,
            !d.completion_signaled,
            d.recog matches Some(r) && !r.streaming && !r.source_present && r.path == path,
    {
        Dispatcher {
            channel: ChannelState::Created,
            recog: Some(RecogState::new(path)),
            completion_signaled: false,
        }
    }
}

/// The channel-add response: a successful add leads to the RECOGNIZE
/// send; a failed add releases the channel state and terminates the
/// session at once.
pub open spec fn step_channel_added(s: Dispatcher, status: SigStatus) -> (Dispatcher, EffectLabel) {
    if s.channel is Created {
        if status is Success {
            (Dispatcher { channel: ChannelState::Added, ..s }, EffectLabel::SendRecognize)
        } else {
            (
                Dispatcher { channel: ChannelState::Removed, recog: None, ..s },
                EffectLabel::TerminateSession,
            )
        }
    } else {
        (s, EffectLabel::NoAction)
    }
}

/// The channel-remove response, from any state: release the per-channel
/// state and terminate the session. Idempotent: once released, a second
/// response changes nothing.
pub open spec fn step_channel_removed(s: Dispatcher) -> (Dispatcher, EffectLabel) {
    if s.recog is Some {
        (
            Dispatcher { channel: ChannelState::Removed, recog: None, ..s },
            EffectLabel::TerminateSession,
        )
    } else {
        (s, EffectLabel::NoAction)
    }
}

/// The transport could not allocate or send the RECOGNIZE message: the
/// channel is given up and the session torn down.
pub open spec fn step_recognize_send_failed(s: Dispatcher) -> (Dispatcher, EffectLabel) {
    if s.channel is Added {
        (
            Dispatcher { channel: ChannelState::Removed, recog: None, ..s },
            EffectLabel::TerminateSession,
        )
    } else {
        (s, EffectLabel::NoAction)
    }
}

/// The session-terminate response: destroy the session and fire the
/// completion signal — only if it has not fired before.
pub open spec fn step_session_terminate(s: Dispatcher) -> (Dispatcher, EffectLabel) {
    if !s.completion_signaled {
        (Dispatcher { completion_signaled: true, ..s }, EffectLabel::SessionEnded)
    } else {
        (s, EffectLabel::NoAction)
    }
}

/// Recording whether the audio source could be opened, right after the
/// RECOGNIZE send.
pub open spec fn step_prepare_channel(s: Dispatcher, opened: bool) -> Dispatcher {
    if s.channel is Added {
        match s.recog {
            Some(r) => Dispatcher {
                recog: Some(RecogState { source_present: opened, ..r }),
                ..s
            },
            None => s,
        }
    } else {
        s
    }
}

/// A control-plane message: the RECOGNIZE acknowledgement switches
/// streaming on (in progress) or gives the channel up (anything else);
/// recognition completion switches streaming off and requests removal.
pub open spec fn step_control(s: Dispatcher, msg: ControlMessage) -> (Dispatcher, EffectLabel) {
    match msg {
        ControlMessage::Response { recognize_method, in_progress } => {
            if recognize_method && s.channel is Added {
                if in_progress {
                    match s.recog {
                        Some(r) => (
                            Dispatcher {
                                channel: ChannelState::Streaming,
                                recog: Some(RecogState { streaming: true, ..r }),
                                ..s
                            },
                            EffectLabel::NoAction,
                        ),
                        None => (s, EffectLabel::NoAction),
                    }
                } else {
                    (Dispatcher { channel: ChannelState::Completed, ..s }, EffectLabel::AbortChannel)
                }
            } else {
                (s, EffectLabel::NoAction)
            }
        },
        ControlMessage::Event(ev) => match ev {
            ControlEvent::StartOfInput => (s, EffectLabel::NoAction),
            ControlEvent::RecognitionComplete { cause: _, body: _ } => {
                if s.channel is Streaming {
                    match s.recog {
                        Some(r) => (
                            Dispatcher {
                                channel: ChannelState::Completed,
                                recog: Some(RecogState { streaming: false, ..r }),
                                ..s
                            },
                            EffectLabel::CompleteChannel,
                        ),
                        None => (s, EffectLabel::NoAction),
                    }
                } else {
                    (s, EffectLabel::NoAction)
                }
            },
            ControlEvent::Other => (s, EffectLabel::NoAction),
        },
        ControlMessage::Other => (s, EffectLabel::NoAction),
    }
}

/// A signaling-plane message: responses are routed by the command they
/// answer; events and requests are logged only.
pub open spec fn step_signaling(s: Dispatcher, msg: SigMessage) -> (Dispatcher, EffectLabel) {
    match msg {
        SigMessage::Response { command, status } => match command {
            SigCommand::SessionUpdate => (s, EffectLabel::NoAction),
            SigCommand::SessionTerminate => step_session_terminate(s),
            SigCommand::ChannelAdd => step_channel_added(s, status),
            SigCommand::ChannelRemove => step_channel_removed(s),
            SigCommand::ResourceDiscover => (s, EffectLabel::NoAction),
            SigCommand::Other => (s, EffectLabel::NoAction),
        },
        SigMessage::Event { kind: _ } => (s, EffectLabel::NoAction),
        SigMessage::Request => (s, EffectLabel::NoAction),
        SigMessage::Other => (s, EffectLabel::NoAction),
    }
}

/// One dispatcher step: the state after a message and the label of the
/// effect handed back.
pub open spec fn step(s: Dispatcher, msg: AppMessage) -> (Dispatcher, EffectLabel) {
    match msg {
        AppMessage::Signaling(sig) => step_signaling(s, sig),
        AppMessage::Control(cm) => step_control(s, cm),
        AppMessage::Other => (s, EffectLabel::NoAction),
    }
}

/// What the effect answering a recognition-complete event must be: the
/// completion effect, carrying the outcome interpreted from the
/// completion-cause header and the message body.
pub open spec fn completion_payload_ok(cause: Option<u32>, body: Seq<u8>, eff: Effect) -> bool {
    match eff {
        Effect::CompleteChannel(o) => outcome_of(cause, body, o),
        _ => false,
    }
}

/// The payload contract of a dispatcher step: when the message is a
/// recognition-complete event reaching a streaming channel, the effect is
/// the completion effect and carries the outcome interpreted from the
/// completion-cause header and the message body.
pub open spec fn completion_contract(s: Dispatcher, msg: AppMessage, eff: Effect) -> bool {
    match msg {
        AppMessage::Control(
            ControlMessage::Event(ControlEvent::RecognitionComplete { cause, body }),
        ) => s.channel is Streaming ==> completion_payload_ok(cause, body@, eff),
        _ => true,
    }
}

/// Interpret a completion-cause header and message body: cause "success"
/// decodes the body (placeholder on invalid encoding), cause "no input"
/// reports no input, an absent header is the server's contract violation,
/// any other cause is carried through for the log.
pub fn interpret_completion(cause: Option<u32>, body: &Vec<u8>) -> (o: RecognitionOutcome)
    ensures
        outcome_of(cause, body@, o),
{
    match cause {
        None => RecognitionOutcome::MissingCause,
        Some(c) => {
            if c == COMPLETION_CAUSE_SUCCESS {
                RecognitionOutcome::Text(decode_result_text(body))
            } else if c == COMPLETION_CAUSE_NO_INPUT {
                RecognitionOutcome::NoInput
            } else {
                RecognitionOutcome::OtherCause(c)
            }
        },
    }
}

impl Dispatcher {
    /// Handle the channel-add response.
    pub fn process_channel_added(&mut self, status: SigStatus) -> (eff: Effect)
        requires
            old(self).wf(),
        ensures
            final(self).wf(),
            *final(self) == step_channel_added(*old(self), status).0,
            label_of(eff) == step_channel_added(*old(self), status).1,
    {
        if self.channel == ChannelState::Created {
            match status {
                SigStatus::Success => {
                    self.channel = ChannelState::Added;
                    Effect::SendRecognize
                },
                SigStatus::Failure => {
                    self.recog = None;
                    self.channel = ChannelState::Removed;
                    Effect::TerminateSession
                },
            }
        } else {
            Effect::NoAction
        }
    }

    /// Handle the channel-remove response: release the per-channel state
    /// (exactly once) and terminate the session.
    pub fn process_channel_remove(&mut self) -> (eff: Effect)
        requires
            old(self).wf(),
        ensures
            final(self).wf(),
            *final(self) == step_channel_removed(*old(self)).0,
            label_of(eff) == step_channel_removed(*old(self)).1,
    {
        let taken = self.recog.take();
        match taken {
            Some(_released) => {
                self.channel = ChannelState::Removed;
                Effect::TerminateSession
            },
            None => Effect::NoAction,
        }
    }

    /// The transport could not allocate the RECOGNIZE message: tear the
    /// session down, with no retry.
    pub fn recognize_send_failed(&mut self) -> (eff: Effect)
        requires
            old(self).wf(),
        ensures
            final(self).wf(),
            *final(self) == step_recognize_send_failed(*old(self)).0,
            label_of(eff) == step_recognize_send_failed(*old(self)).1,
    {
        if self.channel == ChannelState::Added {
            self.recog = None;
            self.channel = ChannelState::Removed;
            Effect::TerminateSession
        } else {
            Effect::NoAction
        }
    }

    /// Handle the session-terminate response: fire the one-shot completion
    /// signal, never twice.
    pub fn process_session_terminate(&mut self) -> (eff: Effect)
        requires
            old(self).wf(),
        ensures
            final(self).wf(),
            *final(self) == step_session_terminate(*old(self)).0,
            label_of(eff) == step_session_terminate(*old(self)).1,
    {
        if !self.completion_signaled {
            self.completion_signaled = true;
            Effect::SessionEnded
        } else {
            Effect::NoAction
        }
    }

    /// Record whether the audio source could be opened. An unreadable file
    /// is no error: streaming proceeds with silence.
    pub fn prepare_channel(&mut self, opened: bool)
        requires
            old(self).wf(),
        ensures
            final(self).wf(),
            *final(self) == step_prepare_channel(*old(self), opened),
    {
        if self.channel == ChannelState::Added {
            let taken = self.recog.take();
            match taken {
                Some(r) => {
                    self.recog = Some(RecogState { source_present: opened, ..r });
                },
                None => {},
            }
        }
    }

    /// Handle one control-plane message.
    pub fn process_control_message(&mut self, msg: ControlMessage) -> (eff: Effect)
        requires
            old(self).wf(),
        ensures
            final(self).wf(),
            *final(self) == step_control(*old(self), msg).0,
            label_of(eff) == step_control(*old(self), msg).1,
            completion_contract(*old(self), AppMessage::Control(msg), eff),
    {
        match msg {
            ControlMessage::Response { recognize_method, in_progress } => {
                if recognize_method && self.channel == ChannelState::Added {
                    if in_progress {
                        let taken = self.recog.take();
                        match taken {
                            Some(r) => {
                                self.recog = Some(RecogState { streaming: true, ..r });
                                self.channel = ChannelState::Streaming;
                            },
                            None => {},
                        }
                        Effect::NoAction
                    } else {
                        self.channel = ChannelState::Completed;
                        Effect::AbortChannel
                    }
                } else {
                    Effect::NoAction
                }
            },
            ControlMessage::Event(ev) => match ev {
                ControlEvent::StartOfInput => Effect::NoAction,
                ControlEvent::RecognitionComplete { cause, body } => {
                    if self.channel == ChannelState::Streaming {
                        let taken = self.recog.take();
                        match taken {
                            Some(r) => {
                                self.recog = Some(RecogState { streaming: false, ..r });
                            },
                            None => {},
                        }
                        self.channel = ChannelState::Completed;
                        Effect::CompleteChannel(interpret_completion(cause, &body))
                    } else {
                        Effect::NoAction
                    }
                },
                ControlEvent::Other => Effect::NoAction,
            },
            ControlMessage::Other => Effect::NoAction,
        }
    }

    /// The single entry point for every message the transport delivers:
    /// classify and dispatch, and answer with the effect to perform.
    pub fn handle_message(&mut self, msg: AppMessage) -> (eff: Effect)
        requires
            old(self).wf(),
        ensures
            final(self).wf(),
            *final(self) == step(*old(self), msg).0,
            label_of(eff) == step(*old(self), msg).1,
            completion_contract(*old(self), msg, eff),
    {
        match msg {
            AppMessage::Signaling(sig) => match sig {
                SigMessage::Response { command, status } => match command {
                    SigCommand::SessionUpdate => Effect::NoAction,
                    SigCommand::SessionTerminate => self.process_session_terminate(),
                    SigCommand::ChannelAdd => self.process_channel_added(status),
                    SigCommand::ChannelRemove => self.process_channel_remove(),
                    SigCommand::ResourceDiscover => Effect::NoAction,
                    SigCommand::Other => Effect::NoAction,
                },
                SigMessage::Event { kind: _ } => Effect::NoAction,
                SigMessage::Request => Effect::NoAction,
                SigMessage::Other => Effect::NoAction,
            },
            AppMessage::Control(cm) => self.process_control_message(cm),
            AppMessage::Other => Effect::NoAction,
        }
    }
}

/// How process startup went: what was created, and where it first failed.
#[derive(Clone, Copy, Debug, PartialEq, Eq, Structural)]
pub enum StartStatus {
    /// The session could not be created: nothing to clean up.
    NoSession,
    /// The channel could not be created: the session must be destroyed.
    NoChannel,
    /// The transport rejected adding the channel: the session must be
    /// destroyed.
    AddRejected,
    /// Session created, channel created and its addition under way.
    Started,
}

/// Classify the startup sequence from what the transport answered at each
/// stage (a stage never attempted counts as failed).
pub fn classify_start(
    session_created: bool,
    channel_created: bool,
    add_accepted: bool,
) -> (s: StartStatus)
    ensures
        s is NoSession <==> !session_created,
        s is NoChannel <==> session_created && !channel_created,
        s is AddRejected <==> session_created && channel_created && !add_accepted,
        s is Started <==> session_created && channel_created && add_accepted,
{
    if !session_created {
        StartStatus::NoSession
    } else if !channel_created {
        StartStatus::NoChannel
    } else if !add_accepted {
        StartStatus::AddRejected
    } else {
        StartStatus::Started
    }
}

/// Whether a startup outcome obliges the embedding program to destroy the
/// session it created before giving up.
pub fn start_requires_session_destroy(s: StartStatus) -> (b: bool)
    ensures
        b == (s is NoChannel || s is AddRejected),
{
    s == StartStatus::NoChannel || s == StartStatus::AddRejected
}

} // verus!
