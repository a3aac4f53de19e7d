//! The sample ring buffer.
//!
//! A FIFO of decoded interleaved samples, owned exclusively by the audio
//! callback.  It grows by packet-sized decode bursts and shrinks by exactly
//! the hardware-requested sample count each callback invocation.  Samples
//! are carried as the 32 raw bits of a single-precision float; silence is
//! the all-zero bit pattern, which is how the callback pads an underrun or
//! an exhausted stream.
//!
//! Invariant kept by the engine: the buffer never holds samples of two
//! different seek epochs — it is flushed before it is refilled after a
//! discontinuity.

use vstd::prelude::*;
use std::collections::VecDeque;

verus! {

broadcast use vstd::std_specs::vecdeque::group_vec_dequeue_axioms;

/// The all-zero bit pattern: a silent sample.
pub const SILENCE: u32 = 0;

/// `s` holds nothing but silence.
pub open spec fn all_silence(s: Seq<u32>) -> bool {
    forall|i: int| 0 <= i < s.len() ==> s[i] == SILENCE
}

/// `s` padded with silence up to length `n` (unchanged when already long
/// enough).
pub open spec fn pad_to(s: Seq<u32>, n: int) -> Seq<u32> {
    if s.len() >= n {
        s
    } else {
        s + Seq::new((n - s.len()) as nat, |i: int| SILENCE)
    }
}

/// FIFO of interleaved sample bits.
pub struct RingBuffer {
    deque: VecDeque<u32>,
}

impl View for RingBuffer {
    type V = Seq<u32>;

    closed spec fn view(&self) -> Seq<u32> {
        self.deque@
    }
}

impl RingBuffer {
    /// An empty buffer.
    pub fn new() -> (r: RingBuffer)
        ensures
            r@ == Seq::<u32>::empty(),
    {
        RingBuffer { deque: VecDeque::new() }
    }

    /// How many samples are buffered.
    pub fn len(&self) -> (n: usize)
        ensures
            n == self@.len(),
    {
        self.deque.len()
    }

    /// Append one decoded block at the back.
    pub fn append_block(&mut self, block: &Vec<u32>)
        ensures
            final(self)@ == old(self)@ + block@,
    {
        let ghost orig: Seq<u32> = self@;
        let m: usize = block.len();
        let mut j: usize = 0;
        while j < m
            invariant
                0 <= j <= m,
                m == block@.len(),
                self@ == orig + block@.take(j as int),
            decreases m - j,
        {
            self.deque.push_back(block[j]);
            proof {
                assert(orig + block@.take(j as int + 1) =~= (orig + block@.take(j as int)).push(
                    block@[j as int],
                ));
            }
            j = j + 1;
        }
        proof {
            assert(block@.take(m as int) =~= block@);
        }
    }

    /// Drop everything: the flush that precedes the refill after a seek
    /// discontinuity.
    pub fn clear(&mut self)
        ensures
            final(self)@ == Seq::<u32>::empty(),
    {
        self.deque.clear();
    }

    /// Remove and return exactly `requested` samples from the front, padding
    /// with silence when fewer are buffered.  The result always has exactly
    /// the requested length; what remains is the unconsumed tail.
    pub fn take_padded(&mut self, requested: usize) -> (out: Vec<u32>)
        ensures
            out@ == pad_to(old(self)@, requested as int).take(requested as int),
            final(self)@ == pad_to(old(self)@, requested as int).skip(requested as int),
            out@.len() == requested,
    {
        let ghost orig: Seq<u32> = self@;
        let ghost padded: Seq<u32> = pad_to(orig, requested as int);
        let mut out: Vec<u32> = Vec::new();
        let mut k: usize = 0;
        while k < requested
            invariant
                0 <= k <= requested,
                padded == pad_to(orig, requested as int),
                padded.len() >= requested,
                out@ =~= padded.take(k as int),
                self@ =~= orig.skip(if k <= orig.len() {
                    k as int
                } else {
                    orig.len() as int
                }),
            decreases requested - k,
        {
            let ghost before: Seq<u32> = self@;
            let sample: u32 = match self.deque.pop_front() {
                Some(s) => s,
                None => SILENCE,
            };
            proof {
                if k < orig.len() {
                    assert(padded[k as int] == orig[k as int]);
                    assert(before[0] == orig[k as int]);
                    assert(before.subrange(1, before.len() as int) =~= orig.skip(k as int + 1));
                } else {
                    assert(padded[k as int] == SILENCE);
                }
                assert(sample == padded[k as int]);
            }
            out.push(sample);
            k = k + 1;
        }
        proof {
            assert(self@ =~= padded.skip(requested as int));
        }
        out
    }

    /// Padding with silence keeps a silent buffer silent: both what a padded
    /// take hands out and what it leaves behind are all-zero whenever the
    /// buffer held only silence.
    pub proof fn lemma_silence_is_stable(s: Seq<u32>, n: int)
        requires
            all_silence(s),
            0 <= n,
        ensures
            all_silence(pad_to(s, n).take(n)),
            all_silence(pad_to(s, n).skip(n)),
    {
        let p = pad_to(s, n);
        assert forall|i: int| 0 <= i < p.len() implies p[i] == SILENCE by {
            if i < s.len() {
                assert(p[i] == s[i]);
            }
        }
    }
}

} // verus!
