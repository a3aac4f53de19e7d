use musicthing::engine::CallbackAction;
use musicthing::errors::EngineError;
use musicthing::engine::CallbackEngine;
use musicthing::engine::DecodeEvent;
use musicthing::position::PositionRegister;

const TRACK: u32 = 1;

fn packet(start_ts: u64, duration: u64, samples: Vec<u32>) -> DecodeEvent {
    DecodeEvent::Packet { track_id: TRACK, start_ts, duration, samples }
}

#[test]
fn callback_always_writes_exactly_what_was_requested() {
    let pos = PositionRegister::new(0);
    let mut engine = CallbackEngine::new(TRACK);

    // Underrun from the start: an empty buffer still yields a full block.
    let out = engine.emit(64);
    assert_eq!(out.len(), 64);
    assert!(out.iter().all(|s| *s == 0));

    // A decoded packet larger than one block: each emit is exactly sized.
    let act = engine.step(&pos, packet(0, 4, vec![10, 11, 12, 13]));
    assert_eq!(act, CallbackAction::Continue);
    assert_eq!(engine.emit(3), vec![10, 11, 12]);
    assert_eq!(engine.emit(3), vec![13, 0, 0]);
}

#[test]
fn packets_of_other_tracks_are_skipped() {
    let pos = PositionRegister::new(0);
    let mut engine = CallbackEngine::new(TRACK);
    let act = engine.step(
        &pos,
        DecodeEvent::Packet { track_id: 99, start_ts: 0, duration: 4, samples: vec![1, 2] },
    );
    assert_eq!(act, CallbackAction::Continue);
    assert_eq!(engine.emit(2), vec![0, 0]);
}

#[test]
fn reset_required_resets_decoder_without_advancing() {
    let pos = PositionRegister::new(0);
    let mut engine = CallbackEngine::new(TRACK);
    let act = engine.step(&pos, DecodeEvent::ResetRequired);
    assert_eq!(act, CallbackAction::ResetDecoder);
    assert_eq!(pos.current_position(), 0);
    assert!(!engine.ended);
}

#[test]
fn position_advances_packet_by_packet() {
    let pos = PositionRegister::new(0);
    let mut engine = CallbackEngine::new(TRACK);
    assert_eq!(engine.step(&pos, packet(0, 100, vec![1])), CallbackAction::Continue);
    assert_eq!(pos.current_position(), 100);
    assert_eq!(engine.step(&pos, packet(100, 50, vec![2])), CallbackAction::Continue);
    assert_eq!(pos.current_position(), 150);
}

#[test]
fn seek_to_current_position_is_silent() {
    // Seeking to the timestamp the callback is about to play: the
    // compare-and-swap succeeds, no reset happens, playback just goes on.
    let pos = PositionRegister::new(500);
    let mut engine = CallbackEngine::new(TRACK);
    pos.seek_to(500);
    let act = engine.step(&pos, packet(500, 10, vec![3, 4]));
    assert_eq!(act, CallbackAction::Continue);
    assert_eq!(engine.emit(2), vec![3, 4]);
    assert_eq!(pos.current_position(), 510);
}

#[test]
fn seek_while_playing_is_detected_once_and_resynchronizes() {
    // Playing at timestamp 120_000; the control thread seeks to 0.
    let pos = PositionRegister::new(120_000);
    let mut engine = CallbackEngine::new(TRACK);
    engine.step(&pos, packet(119_000, 1_000, vec![8, 9]));
    pos.seek_to(0);

    // The next packet boundary detects the seek: swap fails once, the
    // buffer is flushed, the reader must seek and the decoder reset.
    let act = engine.step(&pos, packet(120_000, 1_000, vec![5, 6]));
    assert_eq!(act, CallbackAction::SeekAndReset { target: 0 });
    assert_eq!(engine.emit(2), vec![0, 0]);

    // After the accurate seek the reader resumes at the target; the next
    // packet's start is within tolerance of (here: equal to) the target.
    let act = engine.step(&pos, packet(0, 1_000, vec![7]));
    assert_eq!(act, CallbackAction::Continue);
    assert_eq!(engine.emit(1), vec![7]);
    assert_eq!(pos.current_position(), 1_000);
}

#[test]
fn exhausted_stream_pads_silence_forever() {
    let pos = PositionRegister::new(0);
    let mut engine = CallbackEngine::new(TRACK);
    engine.step(&pos, packet(0, 10, vec![21, 22]));
    assert_eq!(engine.step(&pos, DecodeEvent::EndOfStream), CallbackAction::Continue);
    assert!(engine.ended);

    // The tail of real audio drains first, then only silence comes.
    assert_eq!(engine.emit(4), vec![21, 22, 0, 0]);
    for _ in 0..3 {
        assert!(!engine.needs_more(8));
        assert!(engine.emit(8).iter().all(|s| *s == 0));
    }

    // Boundary limitation: once padding began, seeks are not observed.
    pos.seek_to(42);
    assert_eq!(engine.step(&pos, packet(42, 10, vec![1])), CallbackAction::Continue);
    assert!(engine.emit(4).iter().all(|s| *s == 0));
}

#[test]
fn fatal_decode_error_reports_once_and_degrades_to_silence() {
    let pos = PositionRegister::new(0);
    let mut engine = CallbackEngine::new(TRACK);
    engine.step(&pos, packet(0, 10, vec![31]));

    // The terminal fault fires the error callback exactly once.
    assert_eq!(engine.step(&pos, DecodeEvent::FatalError), CallbackAction::ReportError { error: EngineError::RuntimeDecodeFault });
    assert!(engine.ended);
    assert!(engine.error_reported);
    assert_eq!(engine.step(&pos, DecodeEvent::FatalError), CallbackAction::Continue);

    // Buffered audio drains, then the stream is silent, not crashed.
    assert_eq!(engine.emit(2), vec![31, 0]);
    assert!(engine.emit(16).iter().all(|s| *s == 0));
}

#[test]
fn compare_exchange_register_semantics() {
    let pos = PositionRegister::new(5);
    // Matching expectation: advances to the supplied next value.
    assert_eq!(pos.advance_or_detect(5, 15), None);
    assert_eq!(pos.current_position(), 15);
    // Mismatched expectation: hands back the observed value, changes nothing.
    assert_eq!(pos.advance_or_detect(7, 99), Some(15));
    assert_eq!(pos.current_position(), 15);
}
