use musicthing::errors::EngineError;
use musicthing::session::ProbedTrack;
use musicthing::session::Session;
use musicthing::timebase::TimeBaseRatio;

fn full_track() -> ProbedTrack {
    ProbedTrack {
        track_id: 7,
        start_ts: 0,
        num_frames: Some(1_000_000),
        time_base: Some(TimeBaseRatio { numer: 1, denom: 44_100 }),
        channels: Some(2),
        sample_rate: Some(44_100),
    }
}

#[test]
fn open_without_audio_track_fails() {
    let err = Session::open(None).err().unwrap();
    assert_eq!(err, EngineError::NoAudioTrack);
}

#[test]
fn open_without_duration_fails() {
    let mut t = full_track();
    t.num_frames = None;
    assert_eq!(Session::open(Some(t)).err().unwrap(), EngineError::MissingDuration);
}

#[test]
fn open_without_time_base_fails() {
    let mut t = full_track();
    t.time_base = None;
    assert_eq!(Session::open(Some(t)).err().unwrap(), EngineError::MissingTimeBase);
}

#[test]
fn open_with_degenerate_time_base_fails() {
    let mut t = full_track();
    t.time_base = Some(TimeBaseRatio { numer: 0, denom: 44_100 });
    assert_eq!(Session::open(Some(t)).err().unwrap(), EngineError::MissingTimeBase);
}

#[test]
fn open_without_channels_fails() {
    let mut t = full_track();
    t.channels = None;
    assert_eq!(Session::open(Some(t)).err().unwrap(), EngineError::MissingCodecParams);
}

#[test]
fn open_without_sample_rate_fails() {
    let mut t = full_track();
    t.sample_rate = None;
    assert_eq!(Session::open(Some(t)).err().unwrap(), EngineError::MissingCodecParams);
}

#[test]
fn open_extracts_metadata_and_starts_at_track_start() {
    let mut t = full_track();
    t.start_ts = 250;
    let session = Session::open(Some(t)).unwrap();
    assert_eq!(session.metadata.track_id, 7);
    assert_eq!(session.metadata.duration, 1_000_000);
    assert_eq!(session.metadata.channels, 2);
    assert_eq!(session.metadata.sample_rate, 44_100);
    assert_eq!(session.current_position(), 250);
}

#[test]
fn request_seek_converts_seconds_and_stores_target() {
    let session = Session::open(Some(full_track())).unwrap();
    // 2 seconds under a 1/44100 time base is timestamp 88200.
    let target = session.request_seek(2).unwrap();
    assert_eq!(target, 88_200);
    assert_eq!(session.current_position(), 88_200);
    assert_eq!(session.current_seconds().unwrap(), 2);
}

#[test]
fn request_seek_that_overflows_timestamps_stores_nothing() {
    let session = Session::open(Some(full_track())).unwrap();
    assert!(session.request_seek(u64::MAX).is_none());
    assert_eq!(session.current_position(), 0);
}

#[test]
fn seconds_truncate_towards_zero() {
    let session = Session::open(Some(full_track())).unwrap();
    // 44099 timestamp units are just under one second.
    session.position.seek_to(44_099);
    assert_eq!(session.current_seconds().unwrap(), 0);
    session.position.seek_to(44_100);
    assert_eq!(session.current_seconds().unwrap(), 1);
}
