use recog_client::feeder::RecogState;
use recog_client::recognize::{create_recognize_message, ProtocolVersion};

#[test]
fn idle_pull_leaves_frame_untouched() {
    // A pull while streaming is off never reads the source and never
    // marks the frame as audio-bearing.
    let mut r = RecogState::new(String::from("audio.pcm"));
    assert!(!r.wants_source_read());
    let mut frame: Vec<u8> = vec![9u8; 160];
    let audio = r.read_frame(&mut frame, None);
    assert!(!audio);
    assert_eq!(frame, vec![9u8; 160]);
    assert!(!r.streaming);
    assert!(!r.source_present);
}

#[test]
fn streaming_without_source_yields_silence() {
    // A pull while streaming with an absent source yields a full frame of
    // zero bytes, still marked audio-bearing.
    let mut r = RecogState::new(String::from("missing.pcm"));
    r.streaming = true;
    assert!(!r.wants_source_read());
    let mut frame: Vec<u8> = vec![9u8; 160];
    let audio = r.read_frame(&mut frame, None);
    assert!(audio);
    assert_eq!(frame, vec![0u8; 160]);
}

#[test]
fn short_read_is_zero_filled() {
    // File bytes first, trailing silence after the last byte read.
    let mut r = RecogState::new(String::from("audio.pcm"));
    r.streaming = true;
    r.source_present = true;
    assert!(r.wants_source_read());
    let mut frame: Vec<u8> = vec![9u8; 8];
    let data: Vec<u8> = vec![1, 2, 3];
    let audio = r.read_frame(&mut frame, Some(&data));
    assert!(audio);
    assert_eq!(frame, vec![1, 2, 3, 0, 0, 0, 0, 0]);
    assert!(r.source_present);
}

#[test]
fn exhaustion_is_monotonic() {
    // Once a read returns zero bytes the source is retired for good:
    // every later pull yields silence without reading.
    let mut r = RecogState::new(String::from("audio.pcm"));
    r.streaming = true;
    r.source_present = true;
    let mut frame: Vec<u8> = vec![9u8; 4];
    let full: Vec<u8> = vec![5, 6, 7, 8];
    r.read_frame(&mut frame, Some(&full));
    assert_eq!(frame, vec![5, 6, 7, 8]);
    assert!(r.source_present);
    let empty: Vec<u8> = Vec::new();
    let audio = r.read_frame(&mut frame, Some(&empty));
    assert!(audio);
    assert_eq!(frame, vec![0u8; 4]);
    assert!(!r.source_present);
    for _ in 0..3 {
        assert!(!r.wants_source_read());
        let mut next: Vec<u8> = vec![9u8; 4];
        let audio = r.read_frame(&mut next, None);
        assert!(audio);
        assert_eq!(next, vec![0u8; 4]);
        assert!(!r.source_present);
    }
}

#[test]
fn file_bytes_then_trailing_silence() {
    // A short source pulled frame by frame: full frames of file bytes,
    // then a partial frame zero-filled, then exhaustion and pure silence.
    let source: Vec<u8> = (1..=10).collect();
    let mut offset: usize = 0;
    let mut r = RecogState::new(String::from("audio.pcm"));
    r.streaming = true;
    r.source_present = true;
    let mut frames: Vec<Vec<u8>> = Vec::new();
    for _ in 0..4 {
        let mut frame: Vec<u8> = vec![9u8; 4];
        if r.wants_source_read() {
            let end = (offset + 4).min(source.len());
            let data = source[offset..end].to_vec();
            offset = end;
            assert!(r.read_frame(&mut frame, Some(&data)));
        } else {
            assert!(r.read_frame(&mut frame, None));
        }
        frames.push(frame);
    }
    assert_eq!(frames[0], vec![1, 2, 3, 4]);
    assert_eq!(frames[1], vec![5, 6, 7, 8]);
    assert_eq!(frames[2], vec![9, 10, 0, 0]);
    // The third read drained the file; the fourth returned no bytes and
    // retired the source.
    assert_eq!(frames[3], vec![0, 0, 0, 0]);
    assert!(!r.source_present);
    assert!(r.streaming);
}

#[test]
fn recognize_request_fixed_parameters() {
    // RECOGNIZE carries confidence-threshold 0.87 (87 hundredths),
    // no-input-timeout 1000, recognition-timeout 10000 and
    // speech-complete-timeout 1600, with input timers started.
    let req = create_recognize_message(ProtocolVersion::Version2);
    assert_eq!(req.content_type, "text/plain");
    assert_eq!(req.cancel_if_queue, Some(false));
    assert_eq!(req.no_input_timeout_ms, 1000);
    assert_eq!(req.recognition_timeout_ms, 10000);
    assert!(req.start_input_timers);
    assert_eq!(req.confidence_threshold_hundredths, 87);
    assert_eq!(req.speech_complete_timeout_ms, 1600);
    assert!(req.body.is_empty());
}

#[test]
fn cancel_if_queue_only_on_version_two() {
    let req = create_recognize_message(ProtocolVersion::Version1);
    assert_eq!(req.cancel_if_queue, None);
    assert_eq!(req.content_type, "text/plain");
}
