//! Track parameters and time-base arithmetic.
//!
//! A time base is the length in seconds of one timestamp tick, written as
//! the fraction `numer / denom`. All public time values of this crate are
//! integer milliseconds.

use vstd::prelude::*;

verus! {

/// A track's time base: one timestamp tick lasts `numer / denom` seconds.
/// Only time bases with both parts non-zero are ever stored.
#[derive(Clone, Copy, PartialEq, Eq, Structural, Debug)]
pub struct TrackTimeBase {
    pub numer: u32,
    pub denom: u32,
}

/// The plain parameters of the audio track of one media session: its id in
/// the container, the total number of frames when the container declares
/// one, and the track's time base when the container declares one.
#[derive(Clone, Copy, PartialEq, Eq, Structural, Debug)]
pub struct TrackInfo {
    pub track_id: u32,
    pub n_frames: Option<u64>,
    pub time_base: Option<TrackTimeBase>,
}

/// Milliseconds that `ts` timestamp ticks last under the time base `tb`,
/// rounded down, saturating at `u64::MAX`.
pub open spec fn spec_ts_to_millis(ts: u64, tb: TrackTimeBase) -> u64
    recommends
        tb.denom > 0,
{
    let exact = (ts as int * tb.numer as int * 1000) / (tb.denom as int);
    if exact > u64::MAX as int {
        u64::MAX
    } else {
        exact as u64
    }
}

pub fn ts_to_millis(ts: u64, tb: TrackTimeBase) -> (r: u64)
    requires
        tb.denom > 0,
    ensures
        r == spec_ts_to_millis(ts, tb),
{
    proof {
        assert((ts as int) * (tb.numer as int) * 1000 <= (u64::MAX as int) * (u32::MAX as int)
            * 1000) by (nonlinear_arith)
            requires
                ts <= u64::MAX && tb.numer <= u32::MAX,
        ;
    }
    let wide: u128 = (ts as u128) * (tb.numer as u128) * 1000;
    let q: u128 = wide / (tb.denom as u128);
    if q > u64::MAX as u128 {
        u64::MAX
    } else {
        q as u64
    }
}

/// The placeholder duration reported when the container declares no frame
/// count for the track.
pub const FALLBACK_DURATION_NO_FRAME_COUNT_MILLIS: u64 = 99_000;

/// The placeholder duration reported when the container declares a frame
/// count but no time base to interpret it with.
pub const FALLBACK_DURATION_NO_TIME_BASE_MILLIS: u64 = 199_000;

/// Total duration of a track in milliseconds: the frame count converted
/// through the time base, or a conservative placeholder when the container
/// declares no frame count or no time base.
pub open spec fn spec_duration_millis(n_frames: Option<u64>, tb: Option<TrackTimeBase>) -> u64 {
    match n_frames {
        None => FALLBACK_DURATION_NO_FRAME_COUNT_MILLIS,
        Some(frames) => match tb {
            None => FALLBACK_DURATION_NO_TIME_BASE_MILLIS,
            Some(tb) => spec_ts_to_millis(frames, tb),
        },
    }
}

pub fn duration_millis(n_frames: Option<u64>, tb: Option<TrackTimeBase>) -> (r: u64)
    requires
        tb matches Some(t) ==> t.denom > 0,
    ensures
        r == spec_duration_millis(n_frames, tb),
{
    match n_frames {
        None => FALLBACK_DURATION_NO_FRAME_COUNT_MILLIS,
        Some(frames) => match tb {
            None => FALLBACK_DURATION_NO_TIME_BASE_MILLIS,
            Some(tb) => ts_to_millis(frames, tb),
        },
    }
}

} // verus!
