use musics::decoder::DecoderControl;

#[test]
fn fresh_control_reports_zero_elapsed_and_no_seek() {
    let control = DecoderControl::new(17_000);
    assert_eq!(control.total_duration(), 17_000);
    assert_eq!(control.time_elapsed(), 0);
    assert_eq!(control.get_seek_request(), None);
}

#[test]
fn seek_is_reported_as_elapsed_at_once() {
    let mut control = DecoderControl::new(17_000);
    control.seek(10_000);
    // The target is visible immediately, before any producer ran.
    assert_eq!(control.time_elapsed(), 10_000);
    assert_eq!(control.get_seek_request(), Some(10_000));
    assert_eq!(control.total_duration(), 17_000);
}

#[test]
fn second_seek_overwrites_the_first() {
    let mut control = DecoderControl::new(17_000);
    control.seek(10_000);
    control.seek(12_000);
    assert_eq!(control.get_seek_request(), Some(12_000));
    assert_eq!(control.time_elapsed(), 12_000);
}

#[test]
fn clearing_the_request_keeps_the_times() {
    let mut control = DecoderControl::new(17_000);
    control.seek(12_000);
    control.clear_seek_request();
    assert_eq!(control.get_seek_request(), None);
    assert_eq!(control.time_elapsed(), 12_000);
    assert_eq!(control.total_duration(), 17_000);
}

#[test]
fn producer_advances_elapsed_without_touching_the_request() {
    let mut control = DecoderControl::new(17_000);
    control.seek(9_000);
    control.set_elapsed(9_144);
    assert_eq!(control.time_elapsed(), 9_144);
    assert_eq!(control.get_seek_request(), Some(9_000));
}
