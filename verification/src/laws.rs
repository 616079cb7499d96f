//! The general properties the state machine keeps, stated and proved over
//! the specification-level transitions of [`crate::dispatch`] and
//! [`crate::feeder`].

use vstd::prelude::*;
use crate::dispatch::{
    step, step_channel_added, step_recognize_send_failed, Dispatcher,
};
use crate::feeder::{silence, spec_read_frame, RecogState};
use crate::messages::{
    outcome_of, AppMessage, ControlEvent, ControlMessage, EffectLabel, RecognitionOutcome,
    SigCommand, SigMessage, SigStatus, COMPLETION_CAUSE_NO_INPUT, COMPLETION_CAUSE_SUCCESS,
};

verus! {

/// Law: for every channel-add outcome, exactly one of {RECOGNIZE sent,
/// session terminated} follows — never both, never neither. A successful
/// add answers with the RECOGNIZE send and nothing else; a failed add, or
/// a send the transport could not perform, answers with session
/// termination and nothing else.
pub proof fn lemma_channel_add_exclusive(s: Dispatcher, status: SigStatus)
    requires
        s.wf(),
        s.channel is Created,
    ensures
        ({
            let (s1, l1) = step_channel_added(s, status);
            &&& (l1 == EffectLabel::SendRecognize) != (l1 == EffectLabel::TerminateSession)
            &&& (status is Success <==> l1 == EffectLabel::SendRecognize)
            &&& (status is Failure <==> l1 == EffectLabel::TerminateSession)
            &&& (status is Success ==> step_recognize_send_failed(s1).1
                == EffectLabel::TerminateSession)
        }),
{
}

/// The one message that switches streaming on: the RECOGNIZE
/// acknowledgement with status in progress.
pub open spec fn is_in_progress_ack(msg: AppMessage) -> bool {
    match msg {
        AppMessage::Control(
            ControlMessage::Response { recognize_method: true, in_progress: true },
        ) => true,
        _ => false,
    }
}

/// The messages that switch streaming off: the recognition-complete event
/// and the channel-remove response.
pub open spec fn is_streaming_stop(msg: AppMessage) -> bool {
    match msg {
        AppMessage::Control(
            ControlMessage::Event(ControlEvent::RecognitionComplete { .. }),
        ) => true,
        AppMessage::Signaling(
            SigMessage::Response { command: SigCommand::ChannelRemove, .. },
        ) => true,
        _ => false,
    }
}

/// Law: the streaming flag is on exactly while the channel stands between
/// the in-progress acknowledgement of RECOGNIZE and recognition completion
/// or removal. Every step keeps that window: well-formedness is preserved,
/// streaming turns on only at the in-progress acknowledgement of an added
/// channel, and turns off only when recognition completes or the channel
/// is removed.
pub proof fn lemma_streaming_window(s: Dispatcher, msg: AppMessage)
    requires
        s.wf(),
    ensures
        ({
            let (s1, l1) = step(s, msg);
            &&& s1.wf()
            &&& (s1.recog matches Some(r) ==> (r.streaming <==> s1.channel is Streaming))
            &&& (s1.channel is Streaming && !(s.channel is Streaming) ==> s.channel is Added
                && is_in_progress_ack(msg))
            &&& (s.channel is Streaming && !(s1.channel is Streaming) ==> is_streaming_stop(msg))
            &&& (s.channel is Streaming && is_streaming_stop(msg) ==> !(s1.channel is Streaming))
        }),
{
}

/// Law: the completion signal fires at most once per process run,
/// whichever branch termination takes: only the session-terminate
/// response emits it, only while it has not fired before, and the fired
/// flag never goes back.
pub proof fn lemma_completion_signal_once(s: Dispatcher, msg: AppMessage)
    requires
        s.wf(),
    ensures
        ({
            let (s1, l1) = step(s, msg);
            &&& (l1 == EffectLabel::SessionEnded ==> !s.completion_signaled
                && s1.completion_signaled)
            &&& (s.completion_signaled ==> s1.completion_signaled)
            &&& (s.completion_signaled ==> l1 != EffectLabel::SessionEnded)
        }),
{
}

/// Law: completion-cause interpretation. Cause "success" always yields a
/// decoded text outcome (possibly the placeholder), cause "no input" the
/// no-input outcome, an absent header the fatal missing-cause report —
/// and whatever the cause, the step out of the streaming channel is the
/// one channel-removal request: streaming stops, and a second completion
/// event changes nothing further.
pub proof fn lemma_completion_outcome(
    s: Dispatcher,
    cause: Option<u32>,
    body: Vec<u8>,
    o: RecognitionOutcome,
)
    requires
        s.wf(),
        s.channel is Streaming,
        outcome_of(cause, body@, o),
    ensures
        ({
            let m = AppMessage::Control(
                ControlMessage::Event(ControlEvent::RecognitionComplete { cause, body }),
            );
            let (s1, l1) = step(s, m);
            &&& l1 == EffectLabel::CompleteChannel
            &&& s1.channel is Completed
            &&& (s1.recog matches Some(r) && !r.streaming)
            &&& step(s1, m).0 == s1
            &&& step(s1, m).1 == EffectLabel::NoAction
            &&& (cause == Some(COMPLETION_CAUSE_SUCCESS) ==> o is Text)
            &&& (cause == Some(COMPLETION_CAUSE_NO_INPUT) ==> o is NoInput)
            &&& (cause is None ==> o is MissingCause)
        }),
{
}

/// Whether a message is the session-terminate response, the one message
/// that fires the completion signal.
pub open spec fn is_session_terminate_response(msg: AppMessage) -> bool {
    match msg {
        AppMessage::Signaling(
            SigMessage::Response { command: SigCommand::SessionTerminate, .. },
        ) => true,
        _ => false,
    }
}

/// The dispatcher state after a whole run of messages.
pub open spec fn run(s: Dispatcher, msgs: Seq<AppMessage>) -> Dispatcher
    decreases msgs.len(),
{
    if msgs.len() == 0 {
        s
    } else {
        run(step(s, msgs.first()).0, msgs.drop_first())
    }
}

/// How often a run of messages fires the completion signal.
pub open spec fn completions_in_run(s: Dispatcher, msgs: Seq<AppMessage>) -> nat
    decreases msgs.len(),
{
    if msgs.len() == 0 {
        0
    } else {
        (if step(s, msgs.first()).1 == EffectLabel::SessionEnded {
            1nat
        } else {
            0nat
        }) + completions_in_run(step(s, msgs.first()).0, msgs.drop_first())
    }
}

/// Law: the completion signal fires exactly once per process run,
/// whichever failure branch the run takes: over any whole run of
/// messages, the signal fires exactly when the session-terminate response
/// arrives, and never a second time.
pub proof fn lemma_completion_exactly_once_per_run(s: Dispatcher, msgs: Seq<AppMessage>)
    requires
        s.wf(),
    ensures
        run(s, msgs).wf(),
        s.completion_signaled ==> completions_in_run(s, msgs) == 0,
        !s.completion_signaled ==> completions_in_run(s, msgs) == (if (exists|i: int|
            0 <= i < msgs.len() && is_session_terminate_response(#[trigger] msgs[i])) {
            1nat
        } else {
            0nat
        }),
    decreases msgs.len(),
{
    if msgs.len() > 0 {
        let first = msgs.first();
        let rest = msgs.drop_first();
        let s1 = step(s, first).0;
        lemma_completion_signal_once(s, first);
        lemma_streaming_window(s, first);
        lemma_completion_exactly_once_per_run(s1, rest);
        if is_session_terminate_response(first) {
            assert(0 <= 0 < msgs.len() && is_session_terminate_response(msgs[0]));
        } else {
            if exists|i: int| 0 <= i < msgs.len() && is_session_terminate_response(
                #[trigger] msgs[i],
            ) {
                let i = choose|i: int|
                    0 <= i < msgs.len() && is_session_terminate_response(#[trigger] msgs[i]);
                assert(rest[i - 1] == msgs[i]);
                assert(0 <= i - 1 < rest.len() && is_session_terminate_response(rest[i - 1]));
            }
            if exists|j: int| 0 <= j < rest.len() && is_session_terminate_response(
                #[trigger] rest[j],
            ) {
                let j = choose|j: int|
                    0 <= j < rest.len() && is_session_terminate_response(#[trigger] rest[j]);
                assert(rest[j] == msgs[j + 1]);
                assert(0 <= j + 1 < msgs.len() && is_session_terminate_response(msgs[j + 1]));
            }
        }
    }
}

/// How often a run of messages answers with the RECOGNIZE send.
pub open spec fn sends_in_run(s: Dispatcher, msgs: Seq<AppMessage>) -> nat
    decreases msgs.len(),
{
    if msgs.len() == 0 {
        0
    } else {
        (if step(s, msgs.first()).1 == EffectLabel::SendRecognize {
            1nat
        } else {
            0nat
        }) + sends_in_run(step(s, msgs.first()).0, msgs.drop_first())
    }
}

/// Law: the RECOGNIZE request is sent at most once per run — only the
/// channel-add response of the freshly created channel triggers it, and
/// the channel never returns to that state.
pub proof fn lemma_recognize_sent_at_most_once(s: Dispatcher, msgs: Seq<AppMessage>)
    requires
        s.wf(),
    ensures
        !(s.channel is Created) ==> sends_in_run(s, msgs) == 0,
        sends_in_run(s, msgs) <= 1,
    decreases msgs.len(),
{
    if msgs.len() > 0 {
        lemma_streaming_window(s, msgs.first());
        lemma_recognize_sent_at_most_once(step(s, msgs.first()).0, msgs.drop_first());
    }
}

/// How often a run of messages requests removal of the channel, whether
/// after a failed negotiation or at completion.
pub open spec fn removals_in_run(s: Dispatcher, msgs: Seq<AppMessage>) -> nat
    decreases msgs.len(),
{
    if msgs.len() == 0 {
        0
    } else {
        (if step(s, msgs.first()).1 == EffectLabel::AbortChannel || step(s, msgs.first()).1
            == EffectLabel::CompleteChannel {
            1nat
        } else {
            0nat
        }) + removals_in_run(step(s, msgs.first()).0, msgs.drop_first())
    }
}

/// How often a run of messages terminates the session.
pub open spec fn terminations_in_run(s: Dispatcher, msgs: Seq<AppMessage>) -> nat
    decreases msgs.len(),
{
    if msgs.len() == 0 {
        0
    } else {
        (if step(s, msgs.first()).1 == EffectLabel::TerminateSession {
            1nat
        } else {
            0nat
        }) + terminations_in_run(step(s, msgs.first()).0, msgs.drop_first())
    }
}

/// Law: every failure collapses onto one teardown path. Over any whole
/// run of messages, removal of the channel is requested at most once
/// (never again once the channel stands completed or removed), and the
/// session is terminated at most once (never again once the channel is
/// removed and its state released).
pub proof fn lemma_single_teardown_path(s: Dispatcher, msgs: Seq<AppMessage>)
    requires
        s.wf(),
    ensures
        (s.channel is Completed || s.channel is Removed) ==> removals_in_run(s, msgs) == 0,
        removals_in_run(s, msgs) <= 1,
        s.channel is Removed ==> terminations_in_run(s, msgs) == 0,
        terminations_in_run(s, msgs) <= 1,
    decreases msgs.len(),
{
    if msgs.len() > 0 {
        lemma_streaming_window(s, msgs.first());
        lemma_single_teardown_path(step(s, msgs.first()).0, msgs.drop_first());
    }
}

/// The feeder state after `n` further pulls on a channel whose source is
/// absent: every such pull hands the feeder no bytes.
pub open spec fn pulls_without_source(r: RecogState, frame: Seq<u8>, n: nat) -> RecogState
    decreases n,
{
    if n == 0 {
        r
    } else {
        pulls_without_source(spec_read_frame(r, frame, None).0, frame, (n - 1) as nat)
    }
}

/// Law: source exhaustion is monotonic. A read of zero bytes retires the
/// source for good, and once the source is absent — exhausted or never
/// opened — it stays absent through every later pull, each of which
/// yields a full frame of silence while streaming is on.
pub proof fn lemma_exhaustion_monotonic(r: RecogState, frame: Seq<u8>, n: nat)
    ensures
        r.streaming && r.source_present ==> !spec_read_frame(
            r,
            frame,
            Some(Seq::<u8>::empty()),
        ).0.source_present,
        !r.source_present ==> pulls_without_source(r, frame, n) == r,
        !r.source_present && r.streaming ==> spec_read_frame(r, frame, None).1 == silence(
            frame.len(),
        ),
    decreases n,
{
    if n > 0 && !r.source_present {
        lemma_exhaustion_monotonic(spec_read_frame(r, frame, None).0, frame, (n - 1) as nat);
    }
}

} // verus!
