use audio_leveler::history::{next_snapshot, SampleHistory, PLOT_WINDOW, SNAPSHOT_FILES};

#[test]
fn plot_window_is_a_tenth_of_a_second_at_48k() {
    assert_eq!(PLOT_WINDOW, 4800);
}

#[test]
fn new_history_is_empty() {
    let history = SampleHistory::new(2, PLOT_WINDOW).unwrap();
    assert_eq!(history.len(), 0);
    assert_eq!(history.channels(), 2);
    assert_eq!(history.window(), 4800);
    assert!(history.input().is_empty());
    assert!(history.output().is_empty());
}

#[test]
fn no_history_without_channels_or_window() {
    assert!(SampleHistory::new(0, 10).is_none());
    assert!(SampleHistory::new(2, 0).is_none());
    assert!(SampleHistory::new(0, 0).is_none());
    assert!(SampleHistory::new(1, 1).is_some());
}

#[test]
fn record_evicts_the_eldest() {
    let mut history = SampleHistory::new(1, 3).unwrap();
    history.record(1, 10);
    history.record(2, 20);
    assert_eq!(history.input(), vec![1, 2]);
    assert_eq!(history.output(), vec![10, 20]);
    history.record(3, 30);
    history.record(4, 40);
    assert_eq!(history.input(), vec![2, 3, 4]);
    assert_eq!(history.output(), vec![20, 30, 40]);
    assert_eq!(history.len(), 3);
}

#[test]
fn window_of_one_keeps_the_latest() {
    let mut history = SampleHistory::new(2, 1).unwrap();
    history.record_block(&[1, 2, 3, 4, 5, 6], &[11, 12, 13, 14, 15, 16]);
    assert_eq!(history.input(), vec![5]);
    assert_eq!(history.output(), vec![15]);
}

#[test]
fn stereo_block_records_the_left_channel() {
    let mut history = SampleHistory::new(2, 100).unwrap();
    let input: Vec<u32> = [0.1f32, 0.9, 0.2, 0.8, 0.3, 0.7].iter().map(|s| s.to_bits()).collect();
    let output: Vec<u32> = [0.05f32, 0.45, 0.1, 0.4, 0.15, 0.35].iter().map(|s| s.to_bits()).collect();
    history.record_block(&input, &output);
    let left_in: Vec<f32> = history.input().iter().map(|b| f32::from_bits(*b)).collect();
    let left_out: Vec<f32> = history.output().iter().map(|b| f32::from_bits(*b)).collect();
    assert_eq!(left_in, vec![0.1, 0.2, 0.3]);
    assert_eq!(left_out, vec![0.05, 0.1, 0.15]);
}

#[test]
fn mono_block_records_every_sample() {
    let mut history = SampleHistory::new(1, 100).unwrap();
    history.record_block(&[7, 8, 9], &[70, 80, 90]);
    assert_eq!(history.input(), vec![7, 8, 9]);
    assert_eq!(history.output(), vec![70, 80, 90]);
}

#[test]
fn block_cut_inside_a_frame() {
    let mut history = SampleHistory::new(3, 100).unwrap();
    history.record_block(&[1, 2, 3, 4, 5, 6, 7], &[10, 20, 30, 40, 50, 60, 70]);
    assert_eq!(history.input(), vec![1, 4, 7]);
    assert_eq!(history.output(), vec![10, 40, 70]);
    history.record_block(&[8, 9], &[80, 90]);
    assert_eq!(history.input(), vec![1, 4, 7, 8]);
    assert_eq!(history.output(), vec![10, 40, 70, 80]);
}

#[test]
fn block_shorter_than_a_frame() {
    let mut history = SampleHistory::new(8, 100).unwrap();
    history.record_block(&[5, 6], &[50, 60]);
    assert_eq!(history.input(), vec![5]);
    assert_eq!(history.output(), vec![50]);
}

#[test]
fn empty_block_records_nothing() {
    let mut history = SampleHistory::new(2, 4).unwrap();
    history.record(1, 2);
    history.record_block(&[], &[]);
    assert_eq!(history.input(), vec![1]);
    assert_eq!(history.output(), vec![2]);
}

#[test]
fn blocks_roll_through_the_plot_window() {
    let mut history = SampleHistory::new(2, PLOT_WINDOW).unwrap();
    let block: Vec<u32> = (0..2 * 5000u32).collect();
    let gained: Vec<u32> = block.iter().map(|s| s + 1_000_000).collect();
    history.record_block(&block, &gained);
    assert_eq!(history.len(), 4800);
    let input = history.input();
    let output = history.output();
    assert_eq!(input[0], 2 * 200);
    assert_eq!(input[4799], 2 * 4999);
    for (k, sample) in input.iter().enumerate() {
        assert_eq!(*sample, 2 * (200 + k as u32));
        assert_eq!(output[k], *sample + 1_000_000);
    }
}

#[test]
fn blocks_add_up_across_calls() {
    let mut history = SampleHistory::new(2, 5).unwrap();
    history.record_block(&[1, 0, 2, 0], &[11, 0, 12, 0]);
    history.record_block(&[3, 0, 4, 0], &[13, 0, 14, 0]);
    assert_eq!(history.input(), vec![1, 2, 3, 4]);
    history.record_block(&[5, 0, 6, 0], &[15, 0, 16, 0]);
    assert_eq!(history.input(), vec![2, 3, 4, 5, 6]);
    assert_eq!(history.output(), vec![12, 13, 14, 15, 16]);
}

#[test]
fn clear_forgets_the_samples_only() {
    let mut history = SampleHistory::new(2, 8).unwrap();
    history.record_block(&[1, 2, 3, 4], &[5, 6, 7, 8]);
    history.clear();
    assert_eq!(history.len(), 0);
    assert!(history.input().is_empty());
    assert!(history.output().is_empty());
    assert_eq!(history.channels(), 2);
    assert_eq!(history.window(), 8);
    history.record_block(&[9, 9], &[1, 1]);
    assert_eq!(history.input(), vec![9]);
}

#[test]
fn snapshots_rotate_through_ten_files() {
    assert_eq!(SNAPSHOT_FILES, 10);
    let mut slot = 0;
    let mut seen = Vec::new();
    for _ in 0..12 {
        seen.push(slot);
        slot = next_snapshot(slot);
    }
    assert_eq!(seen, vec![0, 1, 2, 3, 4, 5, 6, 7, 8, 9, 0, 1]);
}

#[test]
fn snapshot_slot_never_overflows() {
    assert_eq!(next_snapshot(9), 0);
    assert_eq!(next_snapshot(25), 6);
    assert_eq!(next_snapshot(u32::MAX), 6);
}

#[test]
fn unpaired_samples_are_left_out() {
    let mut history = SampleHistory::new(2, 10).unwrap();
    history.record_block(&[1, 2, 3, 4, 5, 6], &[10, 20, 30]);
    assert_eq!(history.input(), vec![1, 3]);
    assert_eq!(history.output(), vec![10, 30]);
    history.record_block(&[7], &[70, 80, 90, 100]);
    assert_eq!(history.input(), vec![1, 3, 7]);
    assert_eq!(history.output(), vec![10, 30, 70]);
    history.record_block(&[8, 9], &[]);
    assert_eq!(history.len(), 3);
}
