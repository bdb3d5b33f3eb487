use musics::library::SongId;
use musics::playlist::Playlist;

fn ids(ns: &[u64]) -> Vec<SongId> {
    ns.iter().map(|n| SongId(*n)).collect()
}

#[test]
fn new_playlist_is_empty() {
    let playlist = Playlist::new();
    assert_eq!(playlist.song_count(), 0);
    assert_eq!(playlist.current_song_index(), None);
    assert_eq!(playlist.current_song_id(), None);
}

#[test]
fn append_keeps_order() {
    let mut playlist = Playlist::new();
    playlist.append_song(SongId(5));
    playlist.append_songs(&ids(&[7, 9]));
    assert_eq!(playlist.song_count(), 3);
    assert_eq!(playlist.songs().as_slice(), ids(&[5, 7, 9]).as_slice());
    assert_eq!(playlist.current_song_index(), None);
}

#[test]
fn select_next_walks_forward_and_wraps() {
    let mut playlist = Playlist::new();
    playlist.append_songs(&ids(&[1, 2, 3]));
    assert_eq!(playlist.select_next_song(true), Some(SongId(1)));
    assert_eq!(playlist.select_next_song(true), Some(SongId(2)));
    assert_eq!(playlist.select_next_song(true), Some(SongId(3)));
    assert_eq!(playlist.select_next_song(true), Some(SongId(1)));
    assert_eq!(playlist.current_song_index(), Some(0));
}

#[test]
fn select_next_without_wrap_leaves_list() {
    let mut playlist = Playlist::new();
    playlist.append_songs(&ids(&[1, 2]));
    assert_eq!(playlist.select_next_song(false), Some(SongId(1)));
    assert_eq!(playlist.select_next_song(false), Some(SongId(2)));
    assert_eq!(playlist.select_next_song(false), None);
    assert_eq!(playlist.current_song_index(), None);
    // After leaving the list, next starts at the front again.
    assert_eq!(playlist.select_next_song(false), Some(SongId(1)));
}

#[test]
fn select_next_on_empty_playlist() {
    let mut playlist = Playlist::new();
    assert_eq!(playlist.select_next_song(true), None);
    assert_eq!(playlist.current_song_index(), None);
}

#[test]
fn select_previous_walks_backward_and_wraps() {
    let mut playlist = Playlist::new();
    playlist.append_songs(&ids(&[1, 2, 3]));
    // No selection yet: previous starts at the end.
    assert_eq!(playlist.select_previous_song(true), Some(SongId(3)));
    assert_eq!(playlist.select_previous_song(true), Some(SongId(2)));
    assert_eq!(playlist.select_previous_song(true), Some(SongId(1)));
    assert_eq!(playlist.select_previous_song(true), Some(SongId(3)));
}

#[test]
fn select_previous_without_wrap_leaves_list() {
    let mut playlist = Playlist::new();
    playlist.append_songs(&ids(&[1, 2]));
    assert_eq!(playlist.select_previous_song(false), Some(SongId(2)));
    assert_eq!(playlist.select_previous_song(false), Some(SongId(1)));
    assert_eq!(playlist.select_previous_song(false), None);
    assert_eq!(playlist.current_song_index(), None);
}

#[test]
fn select_song_by_index() {
    let mut playlist = Playlist::new();
    playlist.append_songs(&ids(&[4, 5, 6]));
    assert_eq!(playlist.select_song(1), Some(SongId(5)));
    assert_eq!(playlist.current_song_index(), Some(1));
    // One past the end is accepted but selects no song.
    assert_eq!(playlist.select_song(3), None);
    assert_eq!(playlist.current_song_index(), Some(3));
    assert_eq!(playlist.current_song_id(), None);
    // Further out does not move the cursor.
    assert_eq!(playlist.select_song(9), None);
    assert_eq!(playlist.current_song_index(), Some(3));
}

#[test]
fn switch_songs_follows_selection() {
    let mut playlist = Playlist::new();
    playlist.append_songs(&ids(&[1, 2, 3]));
    playlist.select_song(0);
    playlist.switch_songs_by_index(0, 2);
    assert_eq!(playlist.songs().as_slice(), ids(&[3, 2, 1]).as_slice());
    // The selected song moved; the cursor followed it.
    assert_eq!(playlist.current_song_index(), Some(2));
    assert_eq!(playlist.current_song_id(), Some(SongId(1)));
    // Out-of-range indices change nothing.
    playlist.switch_songs_by_index(0, 3);
    assert_eq!(playlist.songs().as_slice(), ids(&[3, 2, 1]).as_slice());
}

#[test]
fn remove_song_reports_whether_current_was_removed() {
    let mut playlist = Playlist::new();
    playlist.append_songs(&ids(&[1, 2, 3]));
    playlist.select_song(1);
    // Removing another song keeps the cursor on its song.
    assert!(!playlist.remove_song_by_index(0));
    assert_eq!(playlist.current_song_index(), Some(0));
    assert_eq!(playlist.current_song_id(), Some(SongId(2)));
    // Removing the current song reports it; the cursor stays and now
    // points at the following song.
    assert!(playlist.remove_song_by_index(0));
    assert_eq!(playlist.current_song_index(), Some(0));
    assert_eq!(playlist.current_song_id(), Some(SongId(3)));
    // Removing the current last song empties the selection.
    assert!(playlist.remove_song_by_index(0));
    assert_eq!(playlist.current_song_index(), None);
    assert_eq!(playlist.song_count(), 0);
    // Removing from an empty playlist does nothing.
    assert!(!playlist.remove_song_by_index(0));
}
