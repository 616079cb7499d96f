use recog_client::dispatch::{
    classify_start, create_stream_capabilities, interpret_completion,
    start_requires_session_destroy, ChannelState, Dispatcher, StartStatus,
};
use recog_client::messages::{
    AppMessage, ControlEvent, ControlMessage, Effect, RecognitionOutcome, SigCommand, SigEventKind,
    SigMessage, SigStatus,
};

fn response(command: SigCommand, status: SigStatus) -> AppMessage {
    AppMessage::Signaling(SigMessage::Response { command, status })
}

fn complete_event(cause: Option<u32>, body: &[u8]) -> AppMessage {
    AppMessage::Control(ControlMessage::Event(ControlEvent::RecognitionComplete {
        cause,
        body: body.to_vec(),
    }))
}

#[test]
fn channel_add_success_sends_recognize() {
    let mut d = Dispatcher::new(String::from("audio.pcm"));
    let eff = d.handle_message(response(SigCommand::ChannelAdd, SigStatus::Success));
    assert!(matches!(eff, Effect::SendRecognize));
    assert_eq!(d.channel, ChannelState::Added);
    assert!(!d.completion_signaled);
}

#[test]
fn channel_add_failure_terminates_immediately() {
    // Scenario: channel-add status failure -> no RECOGNIZE sent -> session
    // terminated immediately.
    let mut d = Dispatcher::new(String::from("audio.pcm"));
    let eff = d.handle_message(response(SigCommand::ChannelAdd, SigStatus::Failure));
    assert!(matches!(eff, Effect::TerminateSession));
    assert_eq!(d.channel, ChannelState::Removed);
    assert!(d.recog.is_none());
    let eff = d.handle_message(response(SigCommand::SessionTerminate, SigStatus::Success));
    assert!(matches!(eff, Effect::SessionEnded));
    assert!(d.completion_signaled);
}

#[test]
fn recognize_send_failure_terminates() {
    let mut d = Dispatcher::new(String::from("audio.pcm"));
    let eff = d.handle_message(response(SigCommand::ChannelAdd, SigStatus::Success));
    assert!(matches!(eff, Effect::SendRecognize));
    let eff = d.recognize_send_failed();
    assert!(matches!(eff, Effect::TerminateSession));
    assert_eq!(d.channel, ChannelState::Removed);
}

#[test]
fn in_progress_ack_starts_streaming() {
    let mut d = Dispatcher::new(String::from("audio.pcm"));
    d.handle_message(response(SigCommand::ChannelAdd, SigStatus::Success));
    d.prepare_channel(true);
    let eff = d.handle_message(AppMessage::Control(ControlMessage::Response {
        recognize_method: true,
        in_progress: true,
    }));
    assert!(matches!(eff, Effect::NoAction));
    assert_eq!(d.channel, ChannelState::Streaming);
    let r = d.recog.as_ref().unwrap();
    assert!(r.streaming);
    assert!(r.source_present);
}

#[test]
fn rejected_ack_aborts_channel() {
    let mut d = Dispatcher::new(String::from("audio.pcm"));
    d.handle_message(response(SigCommand::ChannelAdd, SigStatus::Success));
    let eff = d.handle_message(AppMessage::Control(ControlMessage::Response {
        recognize_method: true,
        in_progress: false,
    }));
    assert!(matches!(eff, Effect::AbortChannel));
    assert_eq!(d.channel, ChannelState::Completed);
    assert!(!d.recog.as_ref().unwrap().streaming);
}

#[test]
fn full_session_success_path() {
    // Scenario: channel added, RECOGNIZE acknowledged in progress,
    // recognition completes with cause 0 and a decoded text result, the
    // channel is removed and the session ends, the completion signal
    // firing exactly once.
    let mut d = Dispatcher::new(String::from("audio.pcm"));
    assert!(matches!(
        d.handle_message(response(SigCommand::ChannelAdd, SigStatus::Success)),
        Effect::SendRecognize
    ));
    d.prepare_channel(true);
    d.handle_message(AppMessage::Control(ControlMessage::Response {
        recognize_method: true,
        in_progress: true,
    }));
    assert!(d.recog.as_ref().unwrap().streaming);
    let eff = d.handle_message(complete_event(Some(0), b"hello world"));
    match eff {
        Effect::CompleteChannel(RecognitionOutcome::Text(t)) => {
            assert_eq!(t, "hello world");
        }
        other => panic!("expected a text completion, got {:?}", other),
    }
    assert_eq!(d.channel, ChannelState::Completed);
    assert!(!d.recog.as_ref().unwrap().streaming);
    let eff = d.handle_message(response(SigCommand::ChannelRemove, SigStatus::Success));
    assert!(matches!(eff, Effect::TerminateSession));
    assert!(d.recog.is_none());
    let eff = d.handle_message(response(SigCommand::SessionTerminate, SigStatus::Success));
    assert!(matches!(eff, Effect::SessionEnded));
    assert!(d.completion_signaled);
    // The one-shot completion signal never fires twice.
    let eff = d.handle_message(response(SigCommand::SessionTerminate, SigStatus::Success));
    assert!(matches!(eff, Effect::NoAction));
}

#[test]
fn no_input_session_path() {
    // Scenario: nonexistent file path -> source absent from the start ->
    // RECOGNIZE still sent and acknowledged -> cause 2 reported as no
    // input -> clean exit.
    let mut d = Dispatcher::new(String::from("missing.pcm"));
    assert!(matches!(
        d.handle_message(response(SigCommand::ChannelAdd, SigStatus::Success)),
        Effect::SendRecognize
    ));
    d.prepare_channel(false);
    assert!(!d.recog.as_ref().unwrap().source_present);
    d.handle_message(AppMessage::Control(ControlMessage::Response {
        recognize_method: true,
        in_progress: true,
    }));
    let eff = d.handle_message(complete_event(Some(2), b""));
    assert!(matches!(
        eff,
        Effect::CompleteChannel(RecognitionOutcome::NoInput)
    ));
    assert!(matches!(
        d.handle_message(response(SigCommand::ChannelRemove, SigStatus::Success)),
        Effect::TerminateSession
    ));
    assert!(matches!(
        d.handle_message(response(SigCommand::SessionTerminate, SigStatus::Success)),
        Effect::SessionEnded
    ));
}

#[test]
fn completion_cause_interpretation() {
    let out = interpret_completion(Some(0), &b"ok".to_vec());
    assert!(matches!(out, RecognitionOutcome::Text(t) if t == "ok"));
    let out = interpret_completion(Some(2), &b"".to_vec());
    assert!(matches!(out, RecognitionOutcome::NoInput));
    let out = interpret_completion(Some(5), &b"".to_vec());
    assert!(matches!(out, RecognitionOutcome::OtherCause(5)));
    let out = interpret_completion(None, &b"irrelevant".to_vec());
    assert!(matches!(out, RecognitionOutcome::MissingCause));
}

#[test]
fn invalid_utf8_body_yields_placeholder() {
    let body: Vec<u8> = vec![0xff, 0xfe, 0x20];
    let out = interpret_completion(Some(0), &body);
    match out {
        RecognitionOutcome::Text(t) => {
            assert_eq!(t, "server sent a result that is not valid UTF-8");
        }
        other => panic!("expected the placeholder text, got {:?}", other),
    }
}

#[test]
fn unexpected_messages_change_nothing() {
    let mut d = Dispatcher::new(String::from("audio.pcm"));
    let before = d.channel;
    assert!(matches!(
        d.handle_message(response(SigCommand::SessionUpdate, SigStatus::Success)),
        Effect::NoAction
    ));
    assert!(matches!(
        d.handle_message(response(SigCommand::ResourceDiscover, SigStatus::Success)),
        Effect::NoAction
    ));
    assert!(matches!(
        d.handle_message(AppMessage::Signaling(SigMessage::Event {
            kind: SigEventKind::Terminate
        })),
        Effect::NoAction
    ));
    assert!(matches!(
        d.handle_message(AppMessage::Signaling(SigMessage::Request)),
        Effect::NoAction
    ));
    assert!(matches!(d.handle_message(AppMessage::Other), Effect::NoAction));
    assert_eq!(d.channel, before);
    assert!(d.recog.is_some());
}

#[test]
fn channel_remove_is_released_exactly_once() {
    let mut d = Dispatcher::new(String::from("audio.pcm"));
    let eff = d.handle_message(response(SigCommand::ChannelRemove, SigStatus::Success));
    assert!(matches!(eff, Effect::TerminateSession));
    assert!(d.recog.is_none());
    // A second remove response finds nothing left to release.
    let eff = d.handle_message(response(SigCommand::ChannelRemove, SigStatus::Success));
    assert!(matches!(eff, Effect::NoAction));
}

#[test]
fn fixed_stream_capabilities() {
    let caps = create_stream_capabilities();
    assert!(caps.receive_direction);
    assert_eq!(caps.sample_rate_hz, 8000);
    assert_eq!(caps.codec_name, "LPCM");
}

#[test]
fn startup_classification() {
    assert_eq!(classify_start(false, false, false), StartStatus::NoSession);
    assert_eq!(classify_start(true, false, false), StartStatus::NoChannel);
    assert_eq!(classify_start(true, true, false), StartStatus::AddRejected);
    assert_eq!(classify_start(true, true, true), StartStatus::Started);
    assert!(!start_requires_session_destroy(StartStatus::NoSession));
    assert!(start_requires_session_destroy(StartStatus::NoChannel));
    assert!(start_requires_session_destroy(StartStatus::AddRejected));
    assert!(!start_requires_session_destroy(StartStatus::Started));
}
