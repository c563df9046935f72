use audio_capture::history::{HistoryBuffer, HISTORY_CAPACITY};
use audio_capture::shared::SharedHistory;

#[test]
fn capacity_four_scenario() {
    let mut b: HistoryBuffer<f32> = HistoryBuffer::with_capacity(4);
    b.append(1.0);
    b.append(2.0);
    b.append(3.0);
    assert_eq!(b.snapshot(), vec![1.0, 2.0, 3.0]);
    b.append(4.0);
    assert_eq!(b.snapshot(), vec![1.0, 2.0, 3.0, 4.0]);
    b.append(5.0);
    assert_eq!(b.snapshot(), vec![2.0, 3.0, 4.0, 5.0]);
}

#[test]
fn new_history_is_empty_with_default_capacity() {
    let b: HistoryBuffer<f32> = HistoryBuffer::new();
    assert_eq!(b.capacity(), 2048);
    assert_eq!(HISTORY_CAPACITY, 2048);
    assert_eq!(b.len(), 0);
    assert!(b.snapshot().is_empty());
}

#[test]
fn length_never_exceeds_capacity() {
    let mut b: HistoryBuffer<u32> = HistoryBuffer::with_capacity(5);
    for i in 0..100u32 {
        b.append(i);
        assert!(b.len() <= 5);
        assert!(b.snapshot().len() <= 5);
    }
    assert_eq!(b.snapshot(), vec![95, 96, 97, 98, 99]);
}

#[test]
fn full_history_drops_oldest_and_keeps_order() {
    let mut b: HistoryBuffer<i32> = HistoryBuffer::with_capacity(3);
    b.append_all(&[10, 20, 30]);
    assert_eq!(b.snapshot(), vec![10, 20, 30]);
    b.append(40);
    let s = b.snapshot();
    assert!(!s.contains(&10));
    assert_eq!(s, vec![20, 30, 40]);
    b.append(50);
    b.append(60);
    b.append(70);
    assert_eq!(b.snapshot(), vec![50, 60, 70]);
}

#[test]
fn default_capacity_keeps_last_2048() {
    let mut b: HistoryBuffer<u32> = HistoryBuffer::new();
    for i in 0..5000u32 {
        b.append(i);
    }
    let s = b.snapshot();
    assert_eq!(s.len(), 2048);
    assert_eq!(s[0], 5000 - 2048);
    assert_eq!(s[2047], 4999);
}

#[test]
fn append_all_batch_eviction() {
    let mut b: HistoryBuffer<u8> = HistoryBuffer::with_capacity(4);
    b.append_all(&[1, 2]);
    b.append_all(&[3, 4, 5, 6, 7]);
    assert_eq!(b.snapshot(), vec![4, 5, 6, 7]);
    b.append_all(&[]);
    assert_eq!(b.snapshot(), vec![4, 5, 6, 7]);
}

#[test]
fn zero_capacity_keeps_nothing() {
    let mut b: HistoryBuffer<u8> = HistoryBuffer::with_capacity(0);
    b.append(1);
    b.append_all(&[2, 3]);
    assert!(b.snapshot().is_empty());
}

#[test]
fn frames_keep_only_first_channel() {
    let mut b: HistoryBuffer<i16> = HistoryBuffer::with_capacity(8);
    // three stereo frames: (1, -1), (2, -2), (3, -3)
    b.append_frames(&[1, -1, 2, -2, 3, -3], 2);
    assert_eq!(b.snapshot(), vec![1, 2, 3]);
}

#[test]
fn frames_short_last_frame_counts() {
    let mut b: HistoryBuffer<u64> = HistoryBuffer::with_capacity(2);
    b.append_frames(&[1, 2, 3, 4, 5, 6, 7], 3);
    assert_eq!(b.snapshot(), vec![4, 7]);
}

#[test]
fn frames_mono_and_zero_channels() {
    let mut b: HistoryBuffer<u8> = HistoryBuffer::with_capacity(3);
    b.append_frames(&[9, 8, 7, 6], 1);
    assert_eq!(b.snapshot(), vec![8, 7, 6]);
    b.append_frames(&[1, 2, 3], 0);
    assert_eq!(b.snapshot(), vec![8, 7, 6]);
    b.append_frames(&[], 2);
    assert_eq!(b.snapshot(), vec![8, 7, 6]);
}

#[test]
fn shared_history_scenario() {
    let h: SharedHistory<f32> = SharedHistory::with_capacity(4);
    h.append(1.0);
    h.append(2.0);
    h.append(3.0);
    assert_eq!(h.snapshot(), vec![1.0, 2.0, 3.0]);
    h.append_all(&[4.0, 5.0]);
    assert_eq!(h.snapshot(), vec![2.0, 3.0, 4.0, 5.0]);
    h.append_frames(&[6.0, 0.5, 7.0, 0.25], 2);
    assert_eq!(h.snapshot(), vec![4.0, 5.0, 6.0, 7.0]);
    assert_eq!(h.capacity(), 4);
}

#[test]
fn shared_history_snapshots_stay_bounded() {
    let h: SharedHistory<u32> = SharedHistory::new();
    assert_eq!(h.capacity(), 2048);
    for i in 0..3000u32 {
        h.append(i);
        if i % 97 == 0 {
            let s = h.snapshot();
            assert!(s.len() <= 2048);
            assert_eq!(*s.last().unwrap(), i);
        }
    }
    assert_eq!(h.snapshot().len(), 2048);
}
