//! Audio layer for a streaming speech pipeline: a stateful resampler buffer
//! that absorbs arbitrarily chunked PCM and hands uniform frames to a
//! fixed-block rate-conversion kernel, a batch framing pass for whole-file
//! conversion, and the track-selection rule of the file decoder.
//!
//! Samples are carried as opaque 32-bit words (the bit patterns of the
//! floating-point amplitudes); the numeric kernel work itself is done by the
//! embedding program, which feeds the frames produced here to the kernel and
//! hands the kernel's output back.

pub mod audio_io;
pub mod batch;
pub mod decode;

use vstd::prelude::*;

verus! {

/// The canonical streaming sample rate, used as the default target rate.
pub const SAMPLE_RATE: usize = 24_000;

} // verus!
