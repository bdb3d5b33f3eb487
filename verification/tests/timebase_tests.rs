use musics::timebase::{
    duration_millis, ts_to_millis, TrackTimeBase, FALLBACK_DURATION_NO_FRAME_COUNT_MILLIS,
    FALLBACK_DURATION_NO_TIME_BASE_MILLIS,
};

#[test]
fn timestamps_convert_through_the_time_base() {
    // One tick is 1/8000 s: a second of frames is a thousand milliseconds.
    let tb = TrackTimeBase { numer: 1, denom: 8000 };
    assert_eq!(ts_to_millis(8000, tb), 1_000);
    assert_eq!(ts_to_millis(0, tb), 0);
    // Rounded down to whole milliseconds.
    assert_eq!(ts_to_millis(7, tb), 0);
    assert_eq!(ts_to_millis(12000, tb), 1_500);
    // A coarser base.
    let tb = TrackTimeBase { numer: 3, denom: 2 };
    assert_eq!(ts_to_millis(5, tb), 7_500);
}

#[test]
fn conversion_saturates_instead_of_overflowing() {
    let tb = TrackTimeBase { numer: u32::MAX, denom: 1 };
    assert_eq!(ts_to_millis(u64::MAX, tb), u64::MAX);
}

#[test]
fn duration_uses_placeholders_when_parameters_are_missing() {
    let tb = TrackTimeBase { numer: 1, denom: 8000 };
    assert_eq!(duration_millis(Some(17 * 8000), Some(tb)), 17_000);
    assert_eq!(duration_millis(None, Some(tb)), FALLBACK_DURATION_NO_FRAME_COUNT_MILLIS);
    assert_eq!(duration_millis(None, None), FALLBACK_DURATION_NO_FRAME_COUNT_MILLIS);
    assert_eq!(duration_millis(Some(1000), None), FALLBACK_DURATION_NO_TIME_BASE_MILLIS);
    assert_eq!(FALLBACK_DURATION_NO_FRAME_COUNT_MILLIS, 99_000);
    assert_eq!(FALLBACK_DURATION_NO_TIME_BASE_MILLIS, 199_000);
}
