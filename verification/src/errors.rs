//! Error taxonomy of the playback engine.

use vstd::prelude::*;

verus! {

/// Everything that can go wrong while opening a media file, negotiating an
/// output configuration, or running the decode loop.  Recoverable conditions
/// (decoder reset required, end of stream) are handled inside the callback
/// and never appear here.
#[derive(Clone, Copy, Debug, PartialEq, Eq, Structural)]
pub enum EngineError {
    /// No registered demuxer recognizes the container.
    UnsupportedFormat,
    /// The container holds no audio track.
    NoAudioTrack,
    /// The track does not report its length in frames.
    MissingDuration,
    /// The track does not report a usable time base.
    MissingTimeBase,
    /// The track's codec parameters lack the channel count or sample rate.
    MissingCodecParams,
    /// No decoder implementation exists for the track's codec.
    UnsupportedCodec,
    /// The device supports no configuration with the track's channel count
    /// and single-precision float samples.
    NoCompatibleConfig,
    /// The host audio subsystem refused to build the output stream.
    DeviceBuildFailed,
    /// An unexpected decode error mid-stream, not one of the two recoverable
    /// kinds; surfaced through the stream error callback.
    RuntimeDecodeFault,
}

} // verus!
