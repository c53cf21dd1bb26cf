use hibiki_audio::audio_io::AudioOutputData_;

fn words(range: std::ops::Range<u32>) -> Vec<u32> {
    range.collect()
}

// Pushing exactly one frame hands it out whole and leaves the fill empty.
#[test]
fn push_exact_frame_emits_it() {
    let mut buf = AudioOutputData_::new(4);
    let out = buf.push_samples(&vec![1, 2, 3, 4]);
    assert_eq!(out, vec![1, 2, 3, 4]);
    assert_eq!(buf.total_samples(), 4);
    // The emitted frames go to the kernel, not to the playback queue.
    assert_eq!(buf.samples_in_buffer(), 0);
}

// Chunk-invariance: one call, single-sample calls, and an arbitrary split
// hand the kernel the same frames and leave the same state.
#[test]
fn chunk_invariance_across_splits() {
    let input = words(0..11);

    let mut one = AudioOutputData_::new(4);
    let mut emitted_one = one.push_samples(&input);

    let mut singles = AudioOutputData_::new(4);
    let mut emitted_singles: Vec<u32> = Vec::new();
    for s in input.iter() {
        emitted_singles.extend(singles.push_samples(&vec![*s]));
    }

    let mut split = AudioOutputData_::new(4);
    let mut emitted_split: Vec<u32> = Vec::new();
    emitted_split.extend(split.push_samples(&input[0..3].to_vec()));
    emitted_split.extend(split.push_samples(&Vec::new()));
    emitted_split.extend(split.push_samples(&input[3..8].to_vec()));
    emitted_split.extend(split.push_samples(&input[8..11].to_vec()));

    assert_eq!(emitted_one, words(0..8));
    assert_eq!(emitted_singles, emitted_one);
    assert_eq!(emitted_split, emitted_one);
    assert_eq!(one.total_samples(), 11);
    assert_eq!(singles.total_samples(), 11);
    assert_eq!(split.total_samples(), 11);

    // The buffers stay interchangeable: the next push completes the pending
    // frame identically everywhere.
    let more = words(11..13);
    emitted_one = one.push_samples(&more);
    assert_eq!(emitted_one, words(8..12));
    assert_eq!(singles.push_samples(&more), emitted_one);
    assert_eq!(split.push_samples(&more), emitted_one);
}

// The total-sample counter is the exact sum of pushed chunk lengths,
// independent of how much the kernel would have produced.
#[test]
fn total_samples_sums_chunk_lengths() {
    let mut buf = AudioOutputData_::new(3);
    assert_eq!(buf.total_samples(), 0);
    buf.push_samples(&Vec::new());
    assert_eq!(buf.total_samples(), 0);
    buf.push_samples(&vec![9]);
    buf.push_samples(&words(0..5));
    buf.push_samples(&words(0..2));
    assert_eq!(buf.total_samples(), 8);
}

// A full reset restores a construction-equivalent buffer: observers read
// zero and a replay emits exactly what a fresh buffer emits.
#[test]
fn reset_restores_fresh_state() {
    let mut buf = AudioOutputData_::new(4);
    buf.push_samples(&words(0..6));
    buf.push_sub(String::from("caption"));
    buf.push_resampled(vec![7, 7, 7]);
    buf.set_mean_squares(42);

    buf.reset();
    assert_eq!(buf.total_samples(), 0);
    assert_eq!(buf.samples_in_buffer(), 0);
    assert!(buf.is_empty());
    assert_eq!(buf.take_subs(), Vec::new());
    assert_eq!(buf.mean_squares(), 0);

    let mut fresh = AudioOutputData_::new(4);
    let replay = words(20..31);
    assert_eq!(buf.push_samples(&replay), fresh.push_samples(&replay));
    assert_eq!(buf.total_samples(), fresh.total_samples());
}

// clear() empties the queue and the caption timeline only: the counter is
// kept, and subsequent frames are emitted exactly as without the clear.
#[test]
fn clear_preserves_counters_and_continuity() {
    let mut cleared = AudioOutputData_::new(4);
    let mut control = AudioOutputData_::new(4);
    let head = words(0..6);
    cleared.push_samples(&head);
    control.push_samples(&head);
    cleared.push_resampled(vec![1, 2]);
    cleared.push_sub(String::from("dropped"));
    cleared.set_mean_squares(5);

    cleared.clear();
    assert!(cleared.is_empty());
    assert_eq!(cleared.samples_in_buffer(), 0);
    assert_eq!(cleared.take_subs(), Vec::new());
    assert_eq!(cleared.total_samples(), 6);
    assert_eq!(cleared.mean_squares(), 5);

    let more = words(6..14);
    assert_eq!(cleared.push_samples(&more), control.push_samples(&more));
    assert_eq!(cleared.total_samples(), control.total_samples());
}

// takeAll drains the playback queue in chronological order and touches
// nothing else.
#[test]
fn take_all_drains_in_push_order() {
    let mut buf = AudioOutputData_::new(4);
    buf.push_samples(&words(0..2));
    buf.push_sub(String::from("kept"));
    buf.push_resampled(vec![10, 20]);
    buf.push_resampled(vec![30]);
    assert_eq!(buf.samples_in_buffer(), 3);
    assert!(!buf.is_empty());

    assert_eq!(buf.take_all(), vec![10, 20, 30]);
    assert!(buf.is_empty());
    assert_eq!(buf.samples_in_buffer(), 0);
    assert_eq!(buf.take_all(), Vec::new());

    // Frame fill, counter and captions are untouched by the drain.
    assert_eq!(buf.total_samples(), 2);
    assert_eq!(buf.take_subs(), vec![(2, String::from("kept"))]);
}

// Captions are timestamped at the pre-resample sample index current at push
// time and drain in push order, however they interleave with audio.
#[test]
fn captions_timestamped_in_push_order() {
    let mut buf = AudioOutputData_::new(4);
    buf.push_sub(String::from("start"));
    buf.push_samples(&words(0..3));
    buf.push_sub(String::from("x"));
    buf.push_samples(&words(3..8));
    buf.push_sub(String::from("y"));
    buf.push_sub(String::from("z"));
    let subs = buf.take_subs();
    assert_eq!(
        subs,
        vec![
            (0, String::from("start")),
            (3, String::from("x")),
            (8, String::from("y")),
            (8, String::from("z")),
        ]
    );
    assert_eq!(buf.take_subs(), Vec::new());
    assert_eq!(buf.total_samples(), 8);
}

// On a fresh or reset buffer the mean-square word is zero, and the decibel
// reading the embedding derives from it is 10 + 10*log10(1e-10) = -90.
#[test]
fn fresh_mean_squares_reads_minus_ninety_db() {
    let mut buf = AudioOutputData_::new(4);
    buf.set_mean_squares(0.5f32.to_bits());
    buf.reset();
    assert_eq!(buf.mean_squares(), 0);
    let mean_squares = f32::from_bits(buf.mean_squares());
    assert_eq!(mean_squares, 0.0);
    let db = 10.0 + 10.0 * (mean_squares + 1e-10).log10();
    assert!((db - (-90.0)).abs() < 1e-4);
}
