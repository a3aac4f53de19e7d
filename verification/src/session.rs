//! Playback session setup and the control-thread surface.
//!
//! Opening a file happens at the edge: the probe reads bytes and yields a
//! format reader and its default audio track.  What the probe found comes in
//! here as plain values ([`ProbedTrack`]); this module decides whether they
//! make a playable session, with one taxonomy error for each missing piece,
//! and owns the Position register the control thread talks to.

use vstd::prelude::*;
use crate::errors::EngineError;
use crate::position::PositionRegister;
use crate::timebase::TimeBaseRatio;

verus! {

/// What the probe reports of the default audio track, each piece optional
/// exactly where the container may omit it.
#[derive(Clone, Copy, Debug)]
pub struct ProbedTrack {
    pub track_id: u32,
    /// The track's starting timestamp.
    pub start_ts: u64,
    /// Track length in frames; required for seek ratios and progress.
    pub num_frames: Option<u64>,
    /// The track's time base; required to convert seek times.
    pub time_base: Option<TimeBaseRatio>,
    /// Channel count from the codec parameters.
    pub channels: Option<u16>,
    /// Sample rate from the codec parameters.
    pub sample_rate: Option<u32>,
}

/// Immutable per-track metadata, fixed once at stream start.
#[derive(Clone, Copy, Debug, PartialEq, Eq, Structural)]
pub struct SessionMetadata {
    pub track_id: u32,
    pub start_ts: u64,
    /// Duration in track timestamp units.
    pub duration: u64,
    pub time_base: TimeBaseRatio,
    pub channels: u16,
    pub sample_rate: u32,
}

/// The session the probe's findings make, or the first missing piece:
/// no track at all, then duration, then a usable time base, then the codec
/// parameters the negotiator needs.
pub open spec fn spec_validate(track: Option<ProbedTrack>) -> Result<
    SessionMetadata,
    EngineError,
> {
    match track {
        Option::None => Err(EngineError::NoAudioTrack),
        Option::Some(t) => match t.num_frames {
            Option::None => Err(EngineError::MissingDuration),
            Option::Some(duration) => match t.time_base {
                Option::None => Err(EngineError::MissingTimeBase),
                Option::Some(tb) => if !tb.valid() {
                    Err(EngineError::MissingTimeBase)
                } else {
                    match (t.channels, t.sample_rate) {
                        (Option::Some(ch), Option::Some(sr)) => Ok(
                            SessionMetadata {
                                track_id: t.track_id,
                                start_ts: t.start_ts,
                                duration,
                                time_base: tb,
                                channels: ch,
                                sample_rate: sr,
                            },
                        ),
                        _ => Err(EngineError::MissingCodecParams),
                    }
                },
            },
        },
    }
}

/// A playback session: the track's metadata and the Position register
/// shared between the control thread and the callback thread.
pub struct Session {
    pub metadata: SessionMetadata,
    pub position: PositionRegister,
}

impl Session {
    /// A session is well formed when its time base is usable; `open`
    /// establishes this and every method keeps it.
    pub open spec fn wf(&self) -> bool {
        self.metadata.time_base.valid()
    }

    /// Begin a playback session from what the probe found.  Succeeds if and
    /// only if every required piece is present, with the session's metadata
    /// taken verbatim from the track; otherwise the taxonomy error for the
    /// first missing piece.  The Position register starts at the track's
    /// starting timestamp.
    pub fn open(track: Option<ProbedTrack>) -> (r: Result<Session, EngineError>)
        ensures
            (r matches Ok(s) ==> spec_validate(track) == Ok::<SessionMetadata, EngineError>(
                s.metadata,
            ) && s.wf()),
            (r matches Err(e) ==> spec_validate(track) == Err::<SessionMetadata, EngineError>(e)),
    {
        let t = match track {
            Option::None => {
                return Err(EngineError::NoAudioTrack);
            },
            Option::Some(t) => t,
        };
        let duration: u64 = match t.num_frames {
            Option::None => {
                return Err(EngineError::MissingDuration);
            },
            Option::Some(d) => d,
        };
        let tb: TimeBaseRatio = match t.time_base {
            Option::None => {
                return Err(EngineError::MissingTimeBase);
            },
            Option::Some(tb) => tb,
        };
        if tb.numer == 0 || tb.denom == 0 {
            return Err(EngineError::MissingTimeBase);
        }
        let channels: u16 = match t.channels {
            Option::None => {
                return Err(EngineError::MissingCodecParams);
            },
            Option::Some(c) => c,
        };
        let sample_rate: u32 = match t.sample_rate {
            Option::None => {
                return Err(EngineError::MissingCodecParams);
            },
            Option::Some(s) => s,
        };
        let metadata = (SessionMetadata {
            track_id: t.track_id,
            start_ts: t.start_ts,
            duration,
            time_base: tb,
            channels,
            sample_rate,
        });
        Ok(Session { metadata, position: PositionRegister::new(t.start_ts) })
    }

    /// Control thread: request a seek to the whole second `seconds`.
    /// Converts through the track's time base and stores the target into
    /// the Position register, where the callback observes it at its next
    /// packet boundary.  Returns the stored target timestamp; `None` when
    /// the conversion does not fit a timestamp word, in which case nothing
    /// is stored.
    pub fn request_seek(&self, seconds: u64) -> (r: Option<u64>)
        requires
            self.wf(),
        ensures
            (r matches Some(ts) ==> ts == (seconds * self.metadata.time_base.denom) / (
            self.metadata.time_base.numer as int)),
            (r is None <==> (seconds * self.metadata.time_base.denom) / (
            self.metadata.time_base.numer as int) > u64::MAX),
    {
        match self.metadata.time_base.timestamp_for_seconds(seconds) {
            Option::Some(ts) => {
                self.position.seek_to(ts);
                Some(ts)
            },
            Option::None => None,
        }
    }

    /// Non-blocking read of the Position register, for progress display.
    pub fn current_position(&self) -> u64 {
        self.position.current_position()
    }

    /// The whole second the register's current value plays at, through the
    /// track's time base; `None` when it does not fit a 64-bit word.
    pub fn current_seconds(&self) -> (r: Option<u64>)
        requires
            self.wf(),
    {
        let ts: u64 = self.position.current_position();
        self.metadata.time_base.seconds_for_timestamp(ts)
    }
}

} // verus!
