//! Whole-file batch resampling: the framing pass that splits a recording into
//! what the fixed-in/fixed-out kernel is fed.
//!
//! The kernel consumes full frames of a fixed length while strictly more than
//! one frame of input remains, and its partial mode then consumes the
//! remaining tail once, zero-padded, to flush the final output frame. This
//! module computes that split; the embedding program runs the kernel on each
//! piece and concatenates the output frames.

use vstd::arithmetic::div_mod::lemma_mod_add_multiples_vanish;
use vstd::prelude::*;

verus! {

/// Splits a whole recording into the flat sequence of full kernel frames and
/// the tail for the kernel's partial mode. The full part is a whole number of
/// frames of `frame_len` samples each, in order; the tail is what remains —
/// between one sample and one whole frame whenever the input is non-empty —
/// and the two parts reassemble the input exactly.
pub fn batch_frames(pcm_in: &Vec<u32>, frame_len: usize) -> (r: (Vec<u32>, Vec<u32>))
    requires
        0 < frame_len,
    ensures
        r.0@ + r.1@ == pcm_in@,
        (r.0@.len() as int) % (frame_len as int) == 0,
        pcm_in@.len() == 0 ==> r.0@.len() == 0 && r.1@.len() == 0,
        pcm_in@.len() > 0 ==> 1 <= r.1@.len() <= frame_len,
{
    let ghost f = frame_len as int;
    // How much of the input the full frames cover: advance one frame at a
    // time while strictly more than one frame remains.
    let mut covered: usize = 0;
    while pcm_in.len() - covered > frame_len
        invariant
            covered <= pcm_in@.len(),
            0 < frame_len,
            f == frame_len as int,
            (covered as int) % f == 0,
            pcm_in@.len() > 0 ==> covered < pcm_in@.len(),
        decreases pcm_in@.len() - covered,
    {
        proof {
            lemma_mod_add_multiples_vanish(covered as int, f);
        }
        covered = covered + frame_len;
    }
    let mut full: Vec<u32> = Vec::new();
    let mut i: usize = 0;
    while i < covered
        invariant
            i <= covered,
            covered <= pcm_in@.len(),
            full@ == pcm_in@.take(i as int),
        decreases covered - i,
    {
        full.push(pcm_in[i]);
        proof {
            assert(full@ =~= pcm_in@.take(i + 1));
        }
        i = i + 1;
    }
    let mut tail: Vec<u32> = Vec::new();
    while i < pcm_in.len()
        invariant
            covered <= i <= pcm_in@.len(),
            full@ == pcm_in@.take(covered as int),
            tail@ == pcm_in@.subrange(covered as int, i as int),
        decreases pcm_in@.len() - i,
    {
        tail.push(pcm_in[i]);
        proof {
            assert(tail@ =~= pcm_in@.subrange(covered as int, i + 1));
        }
        i = i + 1;
    }
    proof {
        assert(full@ + tail@ =~= pcm_in@);
    }
    (full, tail)
}

} // verus!
