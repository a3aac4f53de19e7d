//! The real-time output callback engine.
//!
//! Each hardware callback invocation must hand the device exactly the number
//! of samples it asked for.  The engine keeps the decoded-sample ring buffer
//! and the stream flags, and decides — packet by packet — what the decode
//! loop must do next: keep going, re-synchronize after a seek, reset the
//! decoder, or report a terminal fault.  Reading packets and running the
//! decoder touch the format reader and codec, which live outside; the loop
//! hands each outcome in as a [`DecodeEvent`] and performs the returned
//! [`CallbackAction`] on them.
//!
//! A callback invocation is: while [`CallbackEngine::needs_more`], obtain an
//! event and [`CallbackEngine::step`] it; then [`CallbackEngine::emit`]
//! exactly the requested samples, padded with silence on underrun.

use vstd::prelude::*;
use crate::errors::EngineError;
use crate::position::PositionRegister;
use crate::ring::RingBuffer;
use crate::ring::all_silence;
use crate::ring::pad_to;

verus! {

/// One outcome of asking the format reader and decoder for more audio.
pub enum DecodeEvent {
    /// A packet of the stream was read and decoded into interleaved
    /// samples, carried as raw single-precision float bits.
    Packet { track_id: u32, start_ts: u64, duration: u64, samples: Vec<u32> },
    /// The decoder reports that its internal state must be discarded before
    /// continuing; recoverable.
    ResetRequired,
    /// The format reader has no more packets; recoverable by padding.
    EndOfStream,
    /// Any other decode error: terminal for this stream.
    FatalError,
}

/// What the decode loop must do after an event was taken in.
#[derive(Clone, Copy, Debug, PartialEq, Eq, Structural)]
pub enum CallbackAction {
    /// Nothing beyond the state change: keep the loop going.
    Continue,
    /// A seek was detected: issue an accurate seek on the format reader to
    /// `target` and reset the decoder, whose prediction state is invalid
    /// across the discontinuity.  The ring buffer has been flushed.
    SeekAndReset { target: u64 },
    /// Reset the decoder and retry, without advancing the position.
    ResetDecoder,
    /// Invoke the stream error callback with the taxonomy error for the
    /// fault that was just recorded.  Fires at most once per stream.
    ReportError { error: EngineError },
}

/// State owned exclusively by the callback: the ring buffer and the stream
/// flags.  `ended` latches once the reader is exhausted or a fault occurs;
/// from then on the engine is inert — further events (seeks included) are
/// not observed until a new stream is built.
pub struct CallbackEngine {
    /// The audio track whose packets are played; others are skipped.
    pub track_id: u32,
    /// Decoded samples not yet handed to the hardware.
    pub ring: RingBuffer,
    /// No more packets will be consumed: exhausted or faulted.
    pub ended: bool,
    /// The terminal fault was already reported through the error callback.
    pub error_reported: bool,
}

impl CallbackEngine {
    /// A fresh engine for one stream of track `track_id`.
    pub fn new(track_id: u32) -> (r: CallbackEngine)
        ensures
            r.track_id == track_id,
            r.ring@ == Seq::<u32>::empty(),
            !r.ended,
            !r.error_reported,
    {
        CallbackEngine { track_id, ring: RingBuffer::new(), ended: false, error_reported: false }
    }

    /// Must the decode loop produce more before `requested` samples can be
    /// handed out without padding?
    pub fn needs_more(&self, requested: usize) -> (r: bool)
        ensures
            r == (!self.ended && self.ring@.len() < requested),
    {
        !self.ended && self.ring.len() < requested
    }

    /// Take one decode outcome in and decide what the loop does next.
    ///
    /// On a packet of the playing track the engine attempts the
    /// compare-and-swap handshake on the Position register: on success the
    /// packet's samples enter the ring buffer; on failure a seek is pending,
    /// the buffer is flushed (it never holds samples of two seek epochs)
    /// and the caller must seek the reader and reset the decoder.  Which of
    /// the two happens depends on the other thread, so the contract allows
    /// either, each with its exact effect.
    pub fn step(&mut self, pos: &PositionRegister, ev: DecodeEvent) -> (act: CallbackAction)
        ensures
            final(self).track_id == old(self).track_id,
            (old(self).ended ==> *final(self) == *old(self) && act == CallbackAction::Continue),
            (ev matches DecodeEvent::ResetRequired && !old(self).ended
                ==> *final(self) == *old(self) && act == CallbackAction::ResetDecoder),
            (ev matches DecodeEvent::EndOfStream && !old(self).ended
                ==> act == CallbackAction::Continue
                    && final(self).ended
                    && final(self).ring@ == old(self).ring@
                    && final(self).error_reported == old(self).error_reported),
            (ev matches DecodeEvent::FatalError && !old(self).ended
                ==> final(self).ended
                    && final(self).error_reported
                    && final(self).ring@ == old(self).ring@
                    && act == (if old(self).error_reported {
                        CallbackAction::Continue
                    } else {
                        CallbackAction::ReportError { error: EngineError::RuntimeDecodeFault }
                    })),
            (ev matches DecodeEvent::Packet {
                track_id,
                start_ts,
                duration,
                samples,
            } ==> !old(self).ended ==> {
                &&& !final(self).ended
                &&& final(self).error_reported == old(self).error_reported
                &&& (track_id != old(self).track_id
                    ==> *final(self) == *old(self) && act == CallbackAction::Continue)
                &&& (track_id == old(self).track_id ==> {
                    ||| (act == CallbackAction::Continue
                        && final(self).ring@ == old(self).ring@ + samples@)
                    ||| (act matches CallbackAction::SeekAndReset { target }
                        && target != start_ts
                        && final(self).ring@ == Seq::<u32>::empty())
                })
            }),
    {
        if self.ended {
            return CallbackAction::Continue;
        }
        match ev {
            DecodeEvent::Packet { track_id, start_ts, duration, samples } => {
                if track_id != self.track_id {
                    CallbackAction::Continue
                } else {
                    let next: u64 = if duration <= u64::MAX - start_ts {
                        start_ts + duration
                    } else {
                        u64::MAX
                    };
                    match pos.advance_or_detect(start_ts, next) {
                        None => {
                            self.ring.append_block(&samples);
                            CallbackAction::Continue
                        },
                        Some(target) => {
                            self.ring.clear();
                            CallbackAction::SeekAndReset { target }
                        },
                    }
                }
            },
            DecodeEvent::ResetRequired => CallbackAction::ResetDecoder,
            DecodeEvent::EndOfStream => {
                self.ended = true;
                CallbackAction::Continue
            },
            DecodeEvent::FatalError => {
                self.ended = true;
                if !self.error_reported {
                    self.error_reported = true;
                    CallbackAction::ReportError { error: EngineError::RuntimeDecodeFault }
                } else {
                    CallbackAction::Continue
                }
            },
        }
    }

    /// Hand the hardware exactly `requested` samples: the front of the ring
    /// buffer, padded with silence on underrun.  The result always has
    /// exactly the requested length — never more, never less, whatever the
    /// buffer held.
    pub fn emit(&mut self, requested: usize) -> (out: Vec<u32>)
        ensures
            out@ == pad_to(old(self).ring@, requested as int).take(requested as int),
            out@.len() == requested,
            final(self).ring@ == pad_to(old(self).ring@, requested as int).skip(requested as int),
            final(self).track_id == old(self).track_id,
            final(self).ended == old(self).ended,
            final(self).error_reported == old(self).error_reported,
    {
        self.ring.take_padded(requested)
    }

    /// After a detected seek the buffer is flushed, so the stream never
    /// mixes seek epochs: the first samples handed to the hardware after
    /// re-synchronization are exactly the head of the first packet decoded
    /// at the new location — how close that packet's timestamp lands to the
    /// requested target is the format reader's accurate-seek guarantee, not
    /// stated here.
    pub proof fn lemma_first_emit_after_seek_is_fresh(samples: Seq<u32>, n: int)
        requires
            0 <= n <= samples.len(),
        ensures
            pad_to(Seq::<u32>::empty() + samples, n).take(n) == samples.take(n),
    {
        assert(Seq::<u32>::empty() + samples =~= samples);
    }

    /// Once the stream has ended and the buffer holds nothing but silence,
    /// an emit of any size hands out pure silence and leaves the buffer all
    /// silence again — and `step` leaves an ended engine untouched, so the
    /// stream keeps emitting silence until it is replaced.
    pub proof fn lemma_ended_stream_emits_silence(e: CallbackEngine, requested: int)
        requires
            e.ended,
            all_silence(e.ring@),
            0 <= requested,
        ensures
            all_silence(pad_to(e.ring@, requested).take(requested)),
            all_silence(pad_to(e.ring@, requested).skip(requested)),
    {
        RingBuffer::lemma_silence_is_stable(e.ring@, requested);
    }
}

} // verus!
