//! The streaming resampler buffer: a stateful playback queue that absorbs
//! arbitrarily chunked PCM, accumulates it into uniform frames for a
//! fixed-block rate-conversion kernel, and keeps resampled audio, caption
//! events and a loudness accumulator consistently ordered.
//!
//! The kernel itself works on floating-point amplitudes, which this module
//! carries as opaque 32-bit words. The embedding program owns the kernel: it
//! slices the flat sequence that [`AudioOutputData_::push_samples`] returns
//! into frames of `frame_len` words, runs the kernel on each, and hands the
//! kernel's output back through [`AudioOutputData_::push_resampled`]. The
//! contracts here pin everything up to that boundary: which samples form each
//! frame, in what order, and how the queue, the caption timeline and the
//! counters move.

use vstd::arithmetic::div_mod::{
    lemma_fundamental_div_mod, lemma_fundamental_div_mod_converse, lemma_mod_add_multiples_vanish,
};
use vstd::prelude::*;

verus! {

/// One caption event: the absolute pre-resample sample index at which it was
/// pushed, and its text.
pub type Caption = (usize, String);

/// The streaming resampler buffer.
///
/// `pushed` is the ghost history of every sample absorbed since construction
/// or the last full reset; the well-formedness invariant ties each concrete
/// field to it, so that the buffer's observable state is a function of that
/// history alone, however the pushes were chunked.
pub struct AudioOutputData_ {
    /// The kernel's required input frame length; fixed for the session.
    pub frame_len: usize,
    /// The partially filled input frame: the samples pushed since the last
    /// full frame was handed out. Always shorter than `frame_len`.
    pub input_buffer: Vec<u32>,
    /// The playback queue of resampled samples, drained in push order.
    pub resampled_data: Vec<u32>,
    /// Monotonic count of pushed (pre-resample) samples; resets only on a
    /// full reset; used solely for caption timestamps.
    pub total_samples: usize,
    /// The caption timeline, each entry timestamped at push time.
    pub subs: Vec<Caption>,
    /// Mean-square amplitude as an opaque 32-bit word, updated by the caller
    /// on its own measurement window.
    pub mean_squares: u32,
    /// Ghost history of every sample pushed since the last full reset.
    pub pushed: Ghost<Seq<u32>>,
}

impl AudioOutputData_ {
    /// The prefix of the pushed history already handed out as full frames:
    /// everything pushed except the partial frame still accumulating.
    pub open spec fn framed(self) -> Seq<u32> {
        self.pushed@.take(self.pushed@.len() - self.input_buffer@.len())
    }

    /// Well-formedness: the partial frame is strictly shorter than a full
    /// one, the counter counts the history, the handed-out prefix is a whole
    /// number of frames, the partial frame is exactly the rest of the
    /// history, and caption timestamps are in push order and never ahead of
    /// the counter.
    pub open spec fn wf(self) -> bool {
        &&& 0 < self.frame_len
        &&& self.input_buffer@.len() < self.frame_len
        &&& self.total_samples == self.pushed@.len()
        &&& (self.pushed@.len() - self.input_buffer@.len()) % (self.frame_len as int) == 0
        &&& self.pushed@ == self.framed() + self.input_buffer@
        &&& forall|i: int|
            0 <= i < self.subs@.len() ==> (#[trigger] self.subs@[i]).0 <= self.total_samples
        &&& forall|i: int, j: int|
            #![trigger self.subs@[i], self.subs@[j]]
            0 <= i <= j < self.subs@.len() ==> self.subs@[i].0 <= self.subs@[j].0
    }

    /// Construction-equivalent state: no history, empty queue and timeline,
    /// zeroed counter and loudness accumulator.
    pub open spec fn is_fresh(self) -> bool {
        &&& self.pushed@ == Seq::<u32>::empty()
        &&& self.input_buffer@ == Seq::<u32>::empty()
        &&& self.resampled_data@ == Seq::<u32>::empty()
        &&& self.subs@ == Seq::<Caption>::empty()
        &&& self.total_samples == 0
        &&& self.mean_squares == 0
    }

    /// Builds a fresh buffer for a kernel whose required input frame length
    /// is `frame_len`.
    pub fn new(frame_len: usize) -> (r: Self)
        requires
            0 < frame_len,
        ensures
            r.wf(),
            r.is_fresh(),
            r.frame_len == frame_len,
    {
        let r = AudioOutputData_ {
            frame_len,
            input_buffer: Vec::new(),
            resampled_data: Vec::new(),
            total_samples: 0,
            subs: Vec::new(),
            mean_squares: 0,
            pushed: Ghost(Seq::empty()),
        };
        proof {
            assert(r.framed() =~= Seq::<u32>::empty());
            assert(r.pushed@ =~= r.framed() + r.input_buffer@);
        }
        r
    }

    /// The number of pre-resample samples pushed since the last full reset.
    pub fn total_samples(&self) -> (r: usize)
        ensures
            r == self.total_samples,
    {
        self.total_samples
    }

    /// The number of resampled samples waiting in the playback queue.
    pub fn samples_in_buffer(&self) -> (r: usize)
        ensures
            r == self.resampled_data@.len(),
    {
        self.resampled_data.len()
    }

    /// Whether the playback queue is empty.
    pub fn is_empty(&self) -> (r: bool)
        ensures
            r == (self.resampled_data@.len() == 0),
    {
        self.resampled_data.is_empty()
    }

    /// The caller-maintained mean-square amplitude word. The embedding
    /// program derives the decibel reading `10 + 10*log10(mean_squares + 1e-10)`
    /// from it.
    pub fn mean_squares(&self) -> (r: u32)
        ensures
            r == self.mean_squares,
    {
        self.mean_squares
    }

    /// Stores a new mean-square amplitude word; nothing else moves.
    pub fn set_mean_squares(&mut self, value: u32)
        requires
            old(self).wf(),
        ensures
            final(self).wf(),
            final(self).mean_squares == value,
            final(self).frame_len == old(self).frame_len,
            final(self).input_buffer@ == old(self).input_buffer@,
            final(self).resampled_data@ == old(self).resampled_data@,
            final(self).total_samples == old(self).total_samples,
            final(self).subs@ == old(self).subs@,
            final(self).pushed@ == old(self).pushed@,
    {
        self.mean_squares = value;
    }

    /// Absorbs a chunk of any length. Samples accumulate in the input frame;
    /// each time it fills, the full frame moves to the returned flat
    /// sequence and the frame starts over. The return value is the newly
    /// completed frames, in order, as a flat sequence whose length is a
    /// whole number of frames: exactly the part of the history newly covered
    /// by full frames, so the frames the kernel sees depend only on the
    /// concatenation of everything pushed, never on how it was chunked.
    pub fn push_samples(&mut self, samples: &Vec<u32>) -> (r: Vec<u32>)
        requires
            old(self).wf(),
            old(self).total_samples + samples@.len() <= usize::MAX,
        ensures
            final(self).wf(),
            final(self).frame_len == old(self).frame_len,
            final(self).pushed@ == old(self).pushed@ + samples@,
            final(self).total_samples == old(self).total_samples + samples@.len(),
            final(self).resampled_data@ == old(self).resampled_data@,
            final(self).subs@ == old(self).subs@,
            final(self).mean_squares == old(self).mean_squares,
            old(self).framed() + r@ == final(self).framed(),
            (r@.len() as int) % (final(self).frame_len as int) == 0,
    {
        let ghost entry = *self;
        let mut out: Vec<u32> = Vec::new();
        let mut i: usize = 0;
        while i < samples.len()
            invariant
                i <= samples@.len(),
                entry.wf(),
                entry.total_samples + samples@.len() <= usize::MAX,
                self.wf(),
                self.frame_len == entry.frame_len,
                self.pushed@ == entry.pushed@ + samples@.take(i as int),
                self.total_samples == entry.total_samples + i,
                self.resampled_data@ == entry.resampled_data@,
                self.subs@ == entry.subs@,
                self.mean_squares == entry.mean_squares,
                entry.framed() + out@ == self.framed(),
                (out@.len() as int) % (self.frame_len as int) == 0,
            decreases samples@.len() - i,
        {
            let ghost pre = *self;
            let ghost f = self.frame_len as int;
            let v = samples[i];
            self.input_buffer.push(v);
            self.total_samples = self.total_samples + 1;
            proof {
                self.pushed@ = pre.pushed@.push(v);
            }
            let ghost n = pre.pushed@.len() as int;
            let ghost m = pre.input_buffer@.len() as int;
            if self.input_buffer.len() == self.frame_len {
                // The frame just filled: hand it out and start over.
                out.append(&mut self.input_buffer);
                proof {
                    // The whole history is now covered by full frames.
                    lemma_mod_add_multiples_vanish(n - m, f);
                    assert((n + 1) % f == 0);
                    assert(self.framed() =~= self.pushed@);
                    assert(self.pushed@ =~= self.framed() + self.input_buffer@);
                    assert(self.pushed@ =~= pre.framed() + pre.input_buffer@.push(v));
                    assert(entry.framed() + out@ =~= self.framed());
                    lemma_mod_add_multiples_vanish(out@.len() - f, f);
                    assert((out@.len() as int) % f == 0);
                }
            } else {
                proof {
                    // The fill grew by one; the covered prefix is unchanged.
                    assert(self.framed() =~= pre.framed());
                    assert(self.pushed@ =~= self.framed() + self.input_buffer@);
                }
            }
            proof {
                assert(self.pushed@ =~= entry.pushed@ + samples@.take(i + 1));
            }
            i = i + 1;
        }
        proof {
            assert(samples@.take(samples@.len() as int) =~= samples@);
        }
        out
    }

    /// Appends one kernel output to the playback queue, in the order the
    /// kernel produced it. Nothing else moves.
    pub fn push_resampled(&mut self, mut samples: Vec<u32>)
        requires
            old(self).wf(),
        ensures
            final(self).wf(),
            final(self).resampled_data@ == old(self).resampled_data@ + samples@,
            final(self).frame_len == old(self).frame_len,
            final(self).input_buffer@ == old(self).input_buffer@,
            final(self).total_samples == old(self).total_samples,
            final(self).subs@ == old(self).subs@,
            final(self).mean_squares == old(self).mean_squares,
            final(self).pushed@ == old(self).pushed@,
    {
        self.resampled_data.append(&mut samples);
    }

    /// Appends a caption, timestamped at the current pre-resample sample
    /// index; purely a pre-resample-domain event, with no coupling to the
    /// resampling output position.
    pub fn push_sub(&mut self, sub: String)
        requires
            old(self).wf(),
        ensures
            final(self).wf(),
            final(self).subs@ == old(self).subs@.push((old(self).total_samples, sub)),
            final(self).frame_len == old(self).frame_len,
            final(self).input_buffer@ == old(self).input_buffer@,
            final(self).resampled_data@ == old(self).resampled_data@,
            final(self).total_samples == old(self).total_samples,
            final(self).mean_squares == old(self).mean_squares,
            final(self).pushed@ == old(self).pushed@,
    {
        let ts = self.total_samples;
        self.subs.push((ts, sub));
    }

    /// Atomically removes and returns every queued resampled sample in
    /// chronological order; the input frame, the counters and the caption
    /// timeline stay untouched.
    pub fn take_all(&mut self) -> (r: Vec<u32>)
        requires
            old(self).wf(),
        ensures
            final(self).wf(),
            r@ == old(self).resampled_data@,
            final(self).resampled_data@ == Seq::<u32>::empty(),
            final(self).frame_len == old(self).frame_len,
            final(self).input_buffer@ == old(self).input_buffer@,
            final(self).total_samples == old(self).total_samples,
            final(self).subs@ == old(self).subs@,
            final(self).mean_squares == old(self).mean_squares,
            final(self).pushed@ == old(self).pushed@,
    {
        let mut r: Vec<u32> = Vec::new();
        core::mem::swap(&mut r, &mut self.resampled_data);
        r
    }

    /// Removes and returns the whole caption timeline in push order, each
    /// entry with the exact sample index it was pushed at.
    pub fn take_subs(&mut self) -> (r: Vec<Caption>)
        requires
            old(self).wf(),
        ensures
            final(self).wf(),
            r@ == old(self).subs@,
            final(self).subs@ == Seq::<Caption>::empty(),
            final(self).frame_len == old(self).frame_len,
            final(self).input_buffer@ == old(self).input_buffer@,
            final(self).resampled_data@ == old(self).resampled_data@,
            final(self).total_samples == old(self).total_samples,
            final(self).mean_squares == old(self).mean_squares,
            final(self).pushed@ == old(self).pushed@,
    {
        let mut r: Vec<Caption> = Vec::new();
        core::mem::swap(&mut r, &mut self.subs);
        r
    }

    /// Empties the playback queue and the caption timeline only; the input
    /// frame, the history and the counters are preserved, so subsequent
    /// resampled output is unaffected. The kernel's warm filter history,
    /// which its owner holds, is likewise meant to be kept.
    pub fn clear(&mut self)
        requires
            old(self).wf(),
        ensures
            final(self).wf(),
            final(self).resampled_data@ == Seq::<u32>::empty(),
            final(self).subs@ == Seq::<Caption>::empty(),
            final(self).frame_len == old(self).frame_len,
            final(self).input_buffer@ == old(self).input_buffer@,
            final(self).total_samples == old(self).total_samples,
            final(self).mean_squares == old(self).mean_squares,
            final(self).pushed@ == old(self).pushed@,
    {
        self.resampled_data.clear();
        self.subs.clear();
    }

    /// Full reset: restores a construction-equivalent state. The kernel's
    /// internal filter state, which its owner holds, must be reset alongside.
    pub fn reset(&mut self)
        requires
            old(self).wf(),
        ensures
            final(self).wf(),
            final(self).is_fresh(),
            final(self).frame_len == old(self).frame_len,
    {
        self.input_buffer.clear();
        self.resampled_data.clear();
        self.subs.clear();
        self.total_samples = 0;
        self.mean_squares = 0;
        proof {
            self.pushed@ = Seq::empty();
            assert(self.framed() =~= Seq::<u32>::empty());
            assert(self.pushed@ =~= self.framed() + self.input_buffer@);
        }
    }
}

/// Chunk-invariance: a buffer's streaming state is a function of the total
/// pushed sequence alone. Two well-formed buffers over the same frame length
/// that have absorbed the same samples — however differently their input was
/// chunked into push calls — have handed out the same full frames to the
/// kernel, hold the same partial frame, and show the same sample counter.
pub proof fn lemma_chunk_invariance(a: AudioOutputData_, b: AudioOutputData_)
    requires
        a.wf(),
        b.wf(),
        a.frame_len == b.frame_len,
        a.pushed@ == b.pushed@,
    ensures
        a.framed() == b.framed(),
        a.input_buffer@ == b.input_buffer@,
        a.total_samples == b.total_samples,
{
    let f = a.frame_len as int;
    let n = a.pushed@.len() as int;
    let ma = a.input_buffer@.len() as int;
    let mb = b.input_buffer@.len() as int;
    lemma_fundamental_div_mod(n - ma, f);
    lemma_fundamental_div_mod_converse(n, f, (n - ma) / f, ma);
    lemma_fundamental_div_mod(n - mb, f);
    lemma_fundamental_div_mod_converse(n, f, (n - mb) / f, mb);
    assert(ma == mb);
    assert(a.framed() =~= b.framed());
    assert(a.input_buffer@ =~= a.pushed@.skip(n - ma));
    assert(b.input_buffer@ =~= b.pushed@.skip(n - mb));
}

/// A reset buffer is construction-equivalent: any two fresh buffers over the
/// same frame length agree in every observable field, so replaying a push
/// sequence after a reset hands the kernel exactly the frames a freshly
/// constructed buffer would.
pub proof fn lemma_fresh_buffers_agree(a: AudioOutputData_, b: AudioOutputData_)
    requires
        a.is_fresh(),
        b.is_fresh(),
        a.frame_len == b.frame_len,
    ensures
        a.pushed@ == b.pushed@,
        a.framed() == b.framed(),
        a.input_buffer@ == b.input_buffer@,
        a.resampled_data@ == b.resampled_data@,
        a.subs@ == b.subs@,
        a.total_samples == b.total_samples,
        a.mean_squares == b.mean_squares,
{
    assert(a.framed() =~= b.framed());
}

} // verus!
