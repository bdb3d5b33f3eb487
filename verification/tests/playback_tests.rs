use musics::decoder::{DecoderError, SymphoniaDecoder};
use musics::player::Player;

/// A PCM wave file built in memory: `frames` frames of 16-bit samples at
/// the given rate and channel count. The samples follow a fixed sawtooth
/// so that tests can check exact decoded values.
fn wav_bytes(frames: u32, rate: u32, channels: u16) -> Vec<u8> {
    let block_align = (channels * 2) as u32;
    let data_len = frames * block_align;
    let mut v: Vec<u8> = Vec::new();
    v.extend_from_slice(b"RIFF");
    v.extend_from_slice(&(36 + data_len).to_le_bytes());
    v.extend_from_slice(b"WAVE");
    v.extend_from_slice(b"fmt ");
    v.extend_from_slice(&16u32.to_le_bytes());
    v.extend_from_slice(&1u16.to_le_bytes());
    v.extend_from_slice(&channels.to_le_bytes());
    v.extend_from_slice(&rate.to_le_bytes());
    v.extend_from_slice(&(rate * block_align).to_le_bytes());
    v.extend_from_slice(&(block_align as u16).to_le_bytes());
    v.extend_from_slice(&16u16.to_le_bytes());
    v.extend_from_slice(b"data");
    v.extend_from_slice(&data_len.to_le_bytes());
    for i in 0..(frames as usize * channels as usize) {
        v.extend_from_slice(&sample_at(i).to_le_bytes());
    }
    v
}

fn sample_at(i: usize) -> i16 {
    ((i % 128) as i16 - 64) * 100
}

/// Pulls up to `n` samples; returns how many came before the stream ended.
fn pull(player: &mut Player, n: usize) -> usize {
    for k in 0..n {
        if player.next_sample().is_none() {
            return k;
        }
    }
    n
}

#[test]
fn duration_comes_from_frame_count_and_time_base() {
    let mut player = Player::new();
    assert_eq!(player.song_duration(), 0);
    player.play_file(wav_bytes(17 * 8000, 8000, 1)).unwrap();
    assert_eq!(player.song_duration(), 17_000);
}

#[test]
fn decoder_reports_the_signal_shape_and_exact_samples() {
    let mut decoder = SymphoniaDecoder::new(wav_bytes(8000, 8000, 1)).unwrap();
    assert_eq!(decoder.channels(), 1);
    assert_eq!(decoder.sample_rate(), 8000);
    assert!(decoder.current_frame_len().unwrap() > 0);
    assert_eq!(decoder.total_duration(), Some(1_000));
    // The first decoded samples are exactly the encoded ones.
    assert_eq!(decoder.next_sample(), Some(sample_at(0)));
    assert_eq!(decoder.next_sample(), Some(sample_at(1)));
    assert_eq!(decoder.next_sample(), Some(sample_at(2)));
}

#[test]
fn a_consumed_seek_request_is_cleared() {
    let mut decoder = SymphoniaDecoder::new(wav_bytes(8000, 8000, 1)).unwrap();
    decoder.request_seek(500);
    assert_eq!(decoder.get_control().get_seek_request(), Some(500));
    decoder.next_sample().unwrap();
    assert_eq!(decoder.get_control().get_seek_request(), None);
}

#[test]
fn fresh_player_is_idle() {
    let mut player = Player::new();
    assert!(player.empty());
    assert!(!player.is_playing());
    // Drained but paused: the engine does not claim a song just finished.
    assert!(!player.song_finished_playing());
    assert_eq!(player.song_duration(), 0);
    assert_eq!(player.time_elapsed(), 0);
    // Commands on an idle engine do nothing and report nothing.
    player.seek(5_000);
    assert_eq!(player.time_elapsed(), 0);
    player.pause();
    assert_eq!(player.next_sample(), None);
}

#[test]
fn resume_with_nothing_loaded_is_a_no_op() {
    let mut player = Player::new();
    assert!(!player.song_finished_playing());
    // With no song loaded, resuming changes nothing: the idle engine
    // must not start reporting a finished song.
    player.resume();
    assert!(!player.song_finished_playing());
    assert!(!player.is_playing());
    assert!(player.empty());
    assert_eq!(player.time_elapsed(), 0);
}

#[test]
fn engine_reports_the_session_signal_shape() {
    let mut player = Player::new();
    assert_eq!(player.channels(), None);
    assert_eq!(player.sample_rate(), None);
    assert_eq!(player.current_frame_len(), None);
    player.play_file(wav_bytes(8000, 8000, 2)).unwrap();
    assert_eq!(player.channels(), Some(2));
    assert_eq!(player.sample_rate(), Some(8000));
    assert!(player.current_frame_len().unwrap() > 0);
    // The engine hands out the session's samples unchanged.
    assert_eq!(player.next_sample(), Some(sample_at(0)));
    assert_eq!(player.next_sample(), Some(sample_at(1)));
}

#[test]
fn pause_and_resume_lose_nothing() {
    let mut player = Player::new();
    player.play_file(wav_bytes(17 * 8000, 8000, 1)).unwrap();
    assert!(player.is_playing());
    // Run past a few packets so elapsed time has advanced.
    pull(&mut player, 3_000);
    let elapsed_before = player.time_elapsed();
    assert!(elapsed_before > 0);
    player.pause();
    assert!(!player.is_playing());
    assert!(!player.song_finished_playing());
    assert_eq!(player.time_elapsed(), elapsed_before);
    player.resume();
    assert!(player.is_playing());
    assert_eq!(player.time_elapsed(), elapsed_before);
}

#[test]
fn loading_a_second_file_replaces_the_session() {
    let mut player = Player::new();
    player.play_file(wav_bytes(17 * 8000, 8000, 1)).unwrap();
    pull(&mut player, 3_000);
    assert_eq!(player.song_duration(), 17_000);
    assert!(player.time_elapsed() > 0);
    // The second file takes over wholesale: duration and elapsed time
    // reflect only it from here on.
    player.play_file(wav_bytes(5 * 8000, 8000, 1)).unwrap();
    assert_eq!(player.song_duration(), 5_000);
    assert_eq!(player.time_elapsed(), 0);
    assert!(player.is_playing());
}

#[test]
fn a_failed_load_leaves_the_engine_untouched() {
    let mut player = Player::new();
    player.play_file(wav_bytes(5 * 8000, 8000, 1)).unwrap();
    pull(&mut player, 3_000);
    let elapsed = player.time_elapsed();
    let err = player.play_file(vec![0u8; 64]).unwrap_err();
    assert!(matches!(err, DecoderError::UnrecognizedFormat));
    assert_eq!(player.song_duration(), 5_000);
    assert_eq!(player.time_elapsed(), elapsed);
    assert!(player.is_playing());
}

#[test]
fn unreadable_bytes_give_construction_errors() {
    // Not a container at all.
    match SymphoniaDecoder::new(b"not audio".to_vec()) {
        Err(e) => assert!(matches!(e, DecoderError::UnrecognizedFormat)),
        Ok(_) => panic!("bytes without a container should not decode"),
    }
    // A well-formed header whose data never arrives: reading the first
    // packet fails on the byte source.
    let mut truncated = wav_bytes(8000, 8000, 1);
    truncated.truncate(44);
    match SymphoniaDecoder::new(truncated) {
        Err(e) => assert!(matches!(e, DecoderError::IoError(_))),
        Ok(_) => panic!("a truncated file should not decode"),
    }
}

#[test]
fn playing_scenario_with_seeks() {
    // A seventeen second song.
    let mut player = Player::new();
    player.play_file(wav_bytes(17 * 8000, 8000, 1)).unwrap();
    assert_eq!(player.song_duration(), 17_000);

    // A little in, the elapsed time is inside the first second.
    pull(&mut player, 3_000);
    let elapsed = player.time_elapsed();
    assert!(0 < elapsed && elapsed < 1_000, "elapsed was {elapsed}");

    // Seek into the middle: reported at once, then refined by packets.
    player.seek(10_000);
    assert_eq!(player.time_elapsed(), 10_000);
    pull(&mut player, 4_000);
    let elapsed = player.time_elapsed();
    assert!(10_000 < elapsed && elapsed < 11_000, "elapsed was {elapsed}");

    // Seek beyond the end: the stream drains, after which the engine
    // reports an empty sink and zero elapsed time.
    player.seek(20_000);
    assert_eq!(player.time_elapsed(), 20_000);
    let pulled = pull(&mut player, 200_000);
    assert!(pulled < 200_000, "stream should have ended");
    assert!(player.empty());
    assert_eq!(player.time_elapsed(), 0);
    assert!(player.song_finished_playing());
    // Finished, not merely paused; pausing hides the signal.
    player.pause();
    assert!(!player.song_finished_playing());
}

#[test]
fn stop_returns_to_the_idle_state() {
    let mut player = Player::new();
    player.play_file(wav_bytes(8000, 8000, 1)).unwrap();
    assert!(player.is_playing());
    player.stop();
    assert!(player.empty());
    assert!(!player.is_playing());
    assert!(!player.song_finished_playing());
    assert_eq!(player.song_duration(), 0);
    assert_eq!(player.time_elapsed(), 0);
}
