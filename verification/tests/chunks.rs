use speechlab::mic::{first_channel, ChunkBuffer};
use speechlab::vad::{ChunkSplitter, SplitStep};

#[test]
fn first_channel_of_interleaved_frames() {
    assert_eq!(first_channel(&[1, 2, 3, 4, 5, 6, 7], 2), vec![1, 3, 5, 7]);
    assert_eq!(first_channel(&[1.0f32, 2.0, 3.0], 1), vec![1.0, 2.0, 3.0]);
}

#[test]
fn chunk_buffer_keeps_every_sample() {
    let mut b = ChunkBuffer::new(4);
    let c = b.push_samples(&[1, 2, 3]);
    assert!(c.is_empty());
    let c = b.push_samples(&[4, 5, 6, 7, 8, 9, 10]);
    assert_eq!(c, vec![vec![1, 2, 3, 4], vec![5, 6, 7, 8]]);
    assert_eq!(b.pending, vec![9, 10]);
}

fn split(samples: &[f64], max: usize, min: usize, window: usize) -> Vec<Vec<f64>> {
    let mut sp = ChunkSplitter::new(samples.len(), max, min, window);
    if sp.finished {
        return vec![samples.to_vec()];
    }
    let mut out = Vec::new();
    loop {
        match sp.next_step() {
            SplitStep::Finish { start } => {
                out.push(samples[start..].to_vec());
                sp.finish();
                break;
            }
            SplitStep::Search { start, search_start, search_end, scan } => {
                let mut best = search_start;
                if scan {
                    let energy = |i: usize| samples[i..i + window].iter().map(|s| s * s).sum::<f64>();
                    let mut min_e = energy(search_start);
                    for i in search_start + 1..=search_end - window {
                        let e = energy(i);
                        if e < min_e {
                            min_e = e;
                            best = i;
                        }
                    }
                }
                let cut = sp.advance(best);
                out.push(samples[start..cut].to_vec());
            }
        }
    }
    out
}

#[test]
fn short_audio_is_one_chunk() {
    let s = vec![0.5; 10];
    assert_eq!(split(&s, 20, 5, 2).len(), 1);
    assert_eq!(split(&[], 20, 5, 2), vec![Vec::<f64>::new()]);
}

#[test]
fn long_audio_is_cut_in_the_quietest_place() {
    let mut s = vec![1.0; 30];
    s[12] = 0.0;
    s[13] = 0.0;
    let chunks = split(&s, 20, 10, 2);
    assert_eq!(chunks.len(), 2);
    assert_eq!(chunks[0].len(), 13);
    assert_eq!(chunks.concat(), s);
    assert!(chunks.iter().all(|c| c.len() <= 20));
}

#[test]
fn no_chunk_exceeds_the_maximum() {
    let s: Vec<f64> = (0..1000).map(|i| ((i * 37 % 101) as f64) - 50.0).collect();
    let chunks = split(&s, 100, 40, 6);
    assert!(chunks.iter().all(|c| !c.is_empty() && c.len() <= 100));
    assert_eq!(chunks.concat(), s);
}

#[test]
fn short_recording_needs_no_window() {
    let sp = ChunkSplitter::new(10, 100, 0, 0);
    assert!(sp.finished);
    assert_eq!(sp.bounds, vec![10]);
    let sp = ChunkSplitter::new(10, 0, 5, 1);
    assert!(sp.finished);
}
