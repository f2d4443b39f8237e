use mirage::frames::deinterleave;
use mirage::ring::{History, SampleRing, HISTORY_CAPACITY, RING_CAPACITY};

#[test]
fn ring_starts_full_of_silence() {
    let ring = SampleRing::filled(0.0f32);
    assert_eq!(ring.len(), RING_CAPACITY);
    assert!(ring.latest(10).iter().all(|s| *s == 0.0));
}

#[test]
fn ring_drops_oldest_beyond_capacity() {
    let mut ring = SampleRing::filled(0u32);
    ring.push(1);
    ring.push(2);
    ring.push(3);
    assert_eq!(ring.len(), RING_CAPACITY);
    assert_eq!(ring.latest(3), vec![1, 2, 3]);
    assert_eq!(ring.latest(5), vec![0, 0, 1, 2, 3]);
}

#[test]
fn ring_push_all_keeps_most_recent() {
    let mut ring = SampleRing::filled(0u32);
    let xs: Vec<u32> = (1..=3000).collect();
    ring.push_all(&xs);
    let all = ring.latest(usize::MAX);
    assert_eq!(all.len(), RING_CAPACITY);
    assert_eq!(all[0], 3000 - RING_CAPACITY as u32 + 1);
    assert_eq!(*all.last().unwrap(), 3000);
}

#[test]
fn ring_latest_zero_is_empty() {
    let ring = SampleRing::filled(7u8);
    assert!(ring.latest(0).is_empty());
}

#[test]
fn history_keeps_newest_first_and_bounded() {
    let mut h: History<Vec<u32>> = History::new();
    assert_eq!(h.len(), 0);
    for i in 0..105u32 {
        h.push_newest(vec![i]);
    }
    assert_eq!(h.len(), HISTORY_CAPACITY);
    assert_eq!(h.get(0), &vec![104]);
    assert_eq!(h.get(HISTORY_CAPACITY - 1), &vec![5]);
}

#[test]
fn deinterleave_stereo_mono_and_partial() {
    let stereo = [1, 2, 3, 4, 5];
    assert_eq!(deinterleave(&stereo, 2), vec![(1, 2), (3, 4)]);
    let mono = [7, 8];
    assert_eq!(deinterleave(&mono, 1), vec![(7, 7), (8, 8)]);
    let surround = [1, 2, 3, 4, 5, 6, 7];
    assert_eq!(deinterleave(&surround, 3), vec![(1, 2), (4, 5)]);
    assert!(deinterleave(&stereo, 0).is_empty());
    let empty: [i32; 0] = [];
    assert!(deinterleave(&empty, 2).is_empty());
}
