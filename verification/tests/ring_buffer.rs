use wavescope::ring_buffer::SampleRingBuffer;

fn filled(capacity: usize, samples: &[f32]) -> SampleRingBuffer<f32> {
    let mut buffer = SampleRingBuffer::new(capacity);
    for sample in samples {
        buffer.push(*sample);
    }
    buffer
}

#[test]
fn new_buffer_is_empty() {
    let buffer: SampleRingBuffer<f32> = SampleRingBuffer::new(4);
    assert_eq!(buffer.len(), 0);
    assert_eq!(buffer.capacity(), 4);
    assert_eq!(buffer.snapshot(), Vec::<f32>::new());
}

#[test]
fn push_appends_at_the_back() {
    let mut buffer = SampleRingBuffer::new(3);
    buffer.push(0.5f32);
    assert_eq!(buffer.snapshot(), vec![0.5]);
    buffer.push(-0.5);
    assert_eq!(buffer.snapshot(), vec![0.5, -0.5]);
    assert_eq!(buffer.len(), 2);
    assert_eq!(buffer.capacity(), 3);
}

#[test]
fn pushes_up_to_capacity_lose_nothing() {
    let pushed = [0.1f32, 0.2, 0.3, 0.4, 0.5];
    for count in 0..=pushed.len() {
        let buffer = filled(5, &pushed[..count]);
        assert_eq!(buffer.len(), count);
        assert_eq!(buffer.snapshot(), pushed[..count].to_vec());
    }
}

#[test]
fn one_push_past_capacity_evicts_the_oldest() {
    let buffer = filled(3, &[10.0, 20.0, 30.0, 40.0]);
    assert_eq!(buffer.len(), 3);
    assert_eq!(buffer.snapshot(), vec![20.0, 30.0, 40.0]);
}

#[test]
fn many_pushes_keep_the_last_capacity_values() {
    let pushed: Vec<f32> = (0..100).map(|i| i as f32).collect();
    let buffer = filled(7, &pushed);
    assert_eq!(buffer.len(), 7);
    assert_eq!(buffer.capacity(), 7);
    assert_eq!(buffer.snapshot(), vec![93.0, 94.0, 95.0, 96.0, 97.0, 98.0, 99.0]);
}

#[test]
fn length_never_exceeds_capacity() {
    let mut buffer = SampleRingBuffer::new(1000);
    for i in 0..2500 {
        buffer.push(i as f32);
        assert!(buffer.len() <= buffer.capacity());
        assert_eq!(buffer.len(), std::cmp::min(i + 1, 1000));
    }
    let snapshot = buffer.snapshot();
    assert_eq!(snapshot.len(), 1000);
    assert_eq!(snapshot[0], 1500.0);
    assert_eq!(snapshot[999], 2499.0);
}

#[test]
fn capacity_one_holds_the_newest_sample() {
    let mut buffer = SampleRingBuffer::new(1);
    buffer.push(0.25f32);
    assert_eq!(buffer.snapshot(), vec![0.25]);
    buffer.push(0.75);
    assert_eq!(buffer.snapshot(), vec![0.75]);
    assert_eq!(buffer.len(), 1);
}

#[test]
fn five_pushes_into_capacity_four() {
    let buffer = filled(4, &[1.0, -1.0, 0.5, 0.0, 0.25]);
    assert_eq!(buffer.len(), 4);
    assert_eq!(buffer.snapshot(), vec![-1.0, 0.5, 0.0, 0.25]);
}

#[test]
fn out_of_range_samples_pass_through_unchanged() {
    let pushed = [3.5f32, -7.0, f32::INFINITY, f32::NAN, -0.0];
    let buffer = filled(8, &pushed);
    let stored: Vec<u32> = buffer.snapshot().iter().map(|s| s.to_bits()).collect();
    let expected: Vec<u32> = pushed.iter().map(|s| s.to_bits()).collect();
    assert_eq!(stored, expected);
}

#[test]
fn equal_samples_are_each_kept() {
    let buffer = filled(3, &[0.5, 0.5, 0.5, 0.5, 0.25]);
    assert_eq!(buffer.snapshot(), vec![0.5, 0.5, 0.25]);
}

#[test]
fn snapshot_leaves_the_buffer_as_it_was() {
    let buffer = filled(3, &[1.0, 2.0, 3.0, 4.0]);
    let first = buffer.snapshot();
    let second = buffer.snapshot();
    assert_eq!(first, second);
    assert_eq!(buffer.len(), 3);
    assert_eq!(buffer.capacity(), 3);
}

#[test]
fn snapshot_is_independent_of_later_pushes() {
    let mut buffer = filled(2, &[1.0, 2.0]);
    let earlier = buffer.snapshot();
    buffer.push(3.0);
    assert_eq!(earlier, vec![1.0, 2.0]);
    assert_eq!(buffer.snapshot(), vec![2.0, 3.0]);
}

#[test]
fn buffer_holds_other_sample_types() {
    let mut buffer = SampleRingBuffer::new(2);
    buffer.push(-3i16);
    buffer.push(4);
    buffer.push(5);
    assert_eq!(buffer.snapshot(), vec![4, 5]);
}
