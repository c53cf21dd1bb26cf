//! Decoder-side decisions: which track of a probed file is decoded, and the
//! native sample rate reported for it.
//!
//! The container probing, packet demuxing and sample-format conversion are
//! done by the embedding program; it reduces each track it sees to a
//! [`TrackInfo`] and lets [`select_track`] apply the selection rule.

use vstd::prelude::*;

verus! {

/// A failure of the audio layer, tagged with the stage that failed.
#[derive(Clone, Copy, Debug, PartialEq, Eq, Structural)]
pub enum AudioError {
    /// Reading the input file failed.
    IoError,
    /// The file holds no track with a usable codec.
    UnsupportedTrack,
    /// The rate-conversion kernel rejected its construction parameters.
    KernelConstructionError,
    /// The rate-conversion kernel rejected a frame at run time.
    KernelProcessingError,
}

/// What the track-selection rule reads of a demuxed track: its identifier,
/// whether a codec is declared for it, and the declared sample rate, if any.
#[derive(Clone, Copy, Debug, PartialEq, Eq, Structural)]
pub struct TrackInfo {
    /// The demuxer's identifier for the track; packets carry it.
    pub id: u32,
    /// Whether the track declares a non-null codec.
    pub has_codec: bool,
    /// The sample rate declared by the track, if any.
    pub sample_rate: Option<u32>,
}

/// Picks the track to decode: the first one that declares a usable codec.
/// Fails with `UnsupportedTrack` when no track does.
pub fn select_track(tracks: &Vec<TrackInfo>) -> (r: Result<usize, AudioError>)
    ensures
        match r {
            Ok(i) => i < tracks@.len() && tracks@[i as int].has_codec && (forall|j: int|
                0 <= j < i ==> !tracks@[j].has_codec),
            Err(e) => e == AudioError::UnsupportedTrack && (forall|j: int|
                0 <= j < tracks@.len() ==> !tracks@[j].has_codec),
        },
{
    let mut i: usize = 0;
    while i < tracks.len()
        invariant
            i <= tracks@.len(),
            forall|j: int| 0 <= j < i ==> !tracks@[j].has_codec,
        decreases tracks@.len() - i,
    {
        if tracks[i].has_codec {
            return Ok(i);
        }
        i = i + 1;
    }
    Err(AudioError::UnsupportedTrack)
}

/// The native sample rate reported for a decoded track: the declared rate,
/// or 0 when the container leaves it undetermined.
pub fn native_rate(track: &TrackInfo) -> (r: u32)
    ensures
        match track.sample_rate {
            Some(sr) => r == sr,
            None => r == 0,
        },
{
    match track.sample_rate {
        Some(sr) => sr,
        None => 0,
    }
}

} // verus!
