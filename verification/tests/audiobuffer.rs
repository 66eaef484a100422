use video_player_rust::audiobuffer::AudioBuffer;
use video_player_rust::audiobuffer::AudioFrame;

/// Builds a frame whose samples are the given floats, serialized least
/// significant byte first, so a pulled word equals the float's bit pattern.
fn frame_of(samples: &[f32], pts: i64) -> AudioFrame {
    let mut data: Vec<u8> = Vec::new();
    for s in samples {
        data.extend_from_slice(&s.to_le_bytes());
    }
    AudioFrame { data, pts }
}

#[test]
fn pull_returns_samples_in_append_order() {
    let mut buffer = AudioBuffer::new();
    buffer.add_frame_data(&frame_of(&[0.25f32, -1.5f32], 0));
    buffer.add_frame_data(&frame_of(&[3.75f32], 10));

    let expected = [0.25f32, -1.5f32, 3.75f32];
    for want in expected {
        let (left, right) = buffer.pull_one().expect("a sample should be pending");
        assert_eq!(left, want.to_bits());
        assert_eq!(right, want.to_bits());
        assert_eq!(f32::from_bits(left), want);
    }
    assert_eq!(buffer.frames_remaining(), 0);
    assert!(buffer.pull_one().is_none());
}

#[test]
fn pull_on_fresh_buffer_returns_nothing() {
    let mut buffer = AudioBuffer::new();
    assert_eq!(buffer.frames_remaining(), 0);
    assert!(buffer.pull_one().is_none());
    assert!(buffer.pull_one().is_none());
}

#[test]
fn frames_remaining_is_appends_minus_pulls() {
    // Three frames of two samples each: N = 3, S = 2.
    let mut buffer = AudioBuffer::new();
    for n in 0..3i64 {
        buffer.add_frame_data(&frame_of(&[1.0f32, 2.0f32], n * 10));
        assert_eq!(buffer.frames_remaining(), (n as usize + 1) * 2);
    }
    // After P pulls the count is N * S - P.
    for p in 1..=6usize {
        assert!(buffer.pull_one().is_some());
        assert_eq!(buffer.frames_remaining(), 6 - p);
    }
    assert!(buffer.pull_one().is_none());
}

#[test]
fn empty_frame_adds_no_samples() {
    let mut buffer = AudioBuffer::new();
    buffer.add_frame_data(&frame_of(&[], 5));
    assert_eq!(buffer.frames_remaining(), 0);
    assert!(buffer.pull_one().is_none());
    // A later append still plays after the empty frame.
    buffer.add_frame_data(&frame_of(&[9.0f32], 6));
    assert_eq!(buffer.frames_remaining(), 1);
    let (left, _) = buffer.pull_one().unwrap();
    assert_eq!(left, 9.0f32.to_bits());
}

#[test]
fn interleaved_appends_and_pulls_keep_order() {
    let mut buffer = AudioBuffer::new();
    buffer.add_frame_data(&frame_of(&[1.0f32], 0));
    let (first, _) = buffer.pull_one().unwrap();
    assert_eq!(f32::from_bits(first), 1.0f32);
    buffer.add_frame_data(&frame_of(&[2.0f32, 3.0f32], 1));
    let (second, _) = buffer.pull_one().unwrap();
    assert_eq!(f32::from_bits(second), 2.0f32);
    buffer.add_frame_data(&frame_of(&[4.0f32], 2));
    let (third, _) = buffer.pull_one().unwrap();
    let (fourth, _) = buffer.pull_one().unwrap();
    assert_eq!(f32::from_bits(third), 3.0f32);
    assert_eq!(f32::from_bits(fourth), 4.0f32);
    assert!(buffer.pull_one().is_none());
}
