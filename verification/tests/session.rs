use video_player_rust::audiobuffer::AudioBuffer;
use video_player_rust::audiobuffer::AudioFrame;
use video_player_rust::scheduler::PacketBuffer;
use video_player_rust::scheduler::SchedulerStep;
use video_player_rust::scheduler::StreamScheduler;
use video_player_rust::scheduler::StreamsData;
use video_player_rust::session::PlaybackCoordinator;
use video_player_rust::timing::TimeBase;

fn test_streams() -> StreamsData {
    StreamsData {
        video_stream_idx: 0,
        audio_stream_idx: 1,
        video_time_base: TimeBase { num: 1, den: 1000 },
        audio_time_base: TimeBase { num: 1, den: 44100 },
    }
}

/// A session with 0 video units and 100 audio units terminates after the
/// last sample is pulled, firing end-of-stream exactly once and never before
/// the buffer is permanently empty.
#[test]
fn audio_only_session_runs_to_completion() {
    let streams = test_streams();
    let mut packets = PacketBuffer::new();
    for pts in 0..100i64 {
        packets.push_packet(1, &streams, pts);
    }
    let mut scheduler = StreamScheduler::new(packets, 10);
    let mut buffer = AudioBuffer::new();
    let mut coordinator = PlaybackCoordinator::new();

    // Decode thread: drive the scheduler to exhaustion, appending one
    // single-sample frame per audio unit.
    loop {
        match scheduler.next_step() {
            SchedulerStep::AudioBatch { start, count, first_pts } => {
                assert_eq!(first_pts, start as i64);
                for unit in start..start + count {
                    let sample = unit as f32;
                    let frame = AudioFrame {
                        data: sample.to_le_bytes().to_vec(),
                        pts: unit as i64,
                    };
                    buffer.add_frame_data(&frame);
                }
            }
            SchedulerStep::VideoUnit { .. } => panic!("no video unit was enqueued"),
            SchedulerStep::Exhausted => break,
        }
    }
    assert_eq!(buffer.frames_remaining(), 100);
    coordinator.mark_decode_done();

    // Audio sink: pull in device-sized requests until drained; end-of-stream
    // must fire exactly once, and only once nothing remains.
    let mut pulled: u32 = 0;
    let mut fires: u32 = 0;
    loop {
        let plan = coordinator.audio_callback_poll(8, buffer.frames_remaining());
        for _ in 0..plan.count {
            let (left, _) = buffer.pull_one().expect("planned pulls stay in bounds");
            assert_eq!(f32::from_bits(left), pulled as f32);
            pulled += 1;
        }
        if plan.end_of_stream {
            fires += 1;
            assert_eq!(buffer.frames_remaining(), 0, "fired before the buffer drained");
            break;
        }
        assert!(!coordinator.should_terminate());
    }
    assert_eq!(pulled, 100);
    assert_eq!(fires, 1);
    assert!(coordinator.should_terminate());
    // Further invocations pull nothing and never fire again.
    let plan = coordinator.audio_callback_poll(8, buffer.frames_remaining());
    assert_eq!(plan.count, 0);
    assert!(!plan.end_of_stream);
    assert!(coordinator.should_terminate());
}

/// When decoding finishes while samples are still buffered, the session must
/// not terminate until the sink has drained them.
#[test]
fn decode_finishing_first_waits_for_drain() {
    let mut buffer = AudioBuffer::new();
    let mut coordinator = PlaybackCoordinator::new();
    buffer.add_frame_data(&AudioFrame { data: vec![0u8; 20], pts: 0 });
    assert_eq!(buffer.frames_remaining(), 5);
    coordinator.mark_decode_done();

    // Five samples remain: polls keep pulling, never firing end-of-stream.
    for remaining in (1..=5usize).rev() {
        assert_eq!(buffer.frames_remaining(), remaining);
        let plan = coordinator.audio_callback_poll(1, buffer.frames_remaining());
        assert_eq!(plan.count, 1);
        assert!(!plan.end_of_stream);
        assert!(!coordinator.should_terminate());
        assert!(buffer.pull_one().is_some());
    }
    // Only the poll that finds the buffer empty fires the signal.
    let plan = coordinator.audio_callback_poll(1, buffer.frames_remaining());
    assert_eq!(plan.count, 0);
    assert!(plan.end_of_stream);
    assert!(coordinator.should_terminate());
}

/// A starved buffer while decoding is still running is not end-of-stream:
/// the callback accepts fewer samples than requested and plays on.
#[test]
fn starvation_before_decode_done_is_not_end_of_stream() {
    let mut buffer = AudioBuffer::new();
    let mut coordinator = PlaybackCoordinator::new();
    let plan = coordinator.audio_callback_poll(8, buffer.frames_remaining());
    assert_eq!(plan.count, 0);
    assert!(!plan.end_of_stream);
    assert!(!coordinator.should_terminate());

    // Decoding catches up; playback resumes and only then runs out.
    buffer.add_frame_data(&AudioFrame { data: vec![1u8; 4], pts: 0 });
    let plan = coordinator.audio_callback_poll(8, buffer.frames_remaining());
    assert_eq!(plan.count, 1);
    assert!(!plan.end_of_stream);
    assert!(buffer.pull_one().is_some());
    coordinator.mark_decode_done();
    let plan = coordinator.audio_callback_poll(8, buffer.frames_remaining());
    assert!(plan.end_of_stream);
}
