use video_player_rust::error::PlaybackError;
use video_player_rust::timing::TimeBase;
use video_player_rust::timing::frame_wall_offset;
use video_player_rust::timing::pacing_delay_nanos;
use video_player_rust::timing::wall_offset;

#[test]
fn conversion_exact_value() {
    // One tick lasts 1/1000 s; tick 3 sits exactly 3 ms in.
    let tb = TimeBase { num: 1, den: 1000 };
    let off = wall_offset(3, &tb);
    assert_eq!(off.subnanos, 3_000_000_000);
    assert_eq!(off.den, 1000);
    // 3_000_000_000 / 1000 sub-nanosecond units = 3_000_000 ns = 3 ms.
    assert_eq!(off.subnanos / off.den as u128, 3_000_000);
}

#[test]
fn conversion_is_linear() {
    // Converting tick 2k yields exactly twice the offset of tick k, even for
    // a time base whose denominator does not divide the numerator product.
    let tb = TimeBase { num: 1, den: 44100 };
    for k in [1i64, 2, 3, 21, 1000, 44100] {
        let one = wall_offset(k, &tb);
        let twice = wall_offset(2 * k, &tb);
        assert_eq!(twice.subnanos, 2 * one.subnanos);
        assert_eq!(twice.den, one.den);
    }
}

#[test]
fn conversion_of_tick_zero_is_zero() {
    let tb = TimeBase { num: 1001, den: 30000 };
    let off = wall_offset(0, &tb);
    assert_eq!(off.subnanos, 0);
}

#[test]
fn missing_timestamp_is_fatal() {
    let tb = TimeBase { num: 1, den: 1000 };
    let r = frame_wall_offset(None, &tb);
    assert!(matches!(r, Err(PlaybackError::MissingTimestamp)));
    let ok = frame_wall_offset(Some(4), &tb);
    let off = ok.expect("a present timestamp converts");
    assert_eq!(off.subnanos, 4_000_000_000);
}

#[test]
fn pacing_delay_exact_and_clamped() {
    // Target: tick 3 of a millisecond time base, i.e. 3 ms.
    let tb = TimeBase { num: 1, den: 1000 };
    let off = wall_offset(3, &tb);
    // 1 ms elapsed: hold for the remaining 2 ms.
    assert_eq!(pacing_delay_nanos(&off, 1_000_000), 2_000_000);
    // Exactly on time: no hold.
    assert_eq!(pacing_delay_nanos(&off, 3_000_000), 0);
    // Late: clamped to zero, never negative.
    assert_eq!(pacing_delay_nanos(&off, 4_000_000), 0);
    assert_eq!(pacing_delay_nanos(&off, u64::MAX), 0);
}

#[test]
fn pacing_delay_from_start_is_full_target() {
    let tb = TimeBase { num: 1, den: 25 };
    // Tick 5 of a 1/25 s time base = 200 ms.
    let off = wall_offset(5, &tb);
    assert_eq!(pacing_delay_nanos(&off, 0), 200_000_000);
}
