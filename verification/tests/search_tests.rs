use musics::library::{Library, Song, SongId};
use musics::playlist::Playlist;
use musics::search::{handle_library_view_command, LibrarySearchView, LibraryViewCommand};

fn library_of(titles: &[&str]) -> (Library, Vec<SongId>) {
    let mut library = Library::new();
    let mut ids = Vec::new();
    for title in titles {
        ids.push(library.insert(Song {
            title: title.to_string(),
            path: format!("{title}.ogg"),
        }));
    }
    (library, ids)
}

#[test]
fn empty_filter_finds_everything() {
    let (library, ids) = library_of(&["Alpha", "Beta"]);
    let mut view = LibrarySearchView::new();
    view.update_found_songs(&library);
    assert_eq!(view.found_songs().as_slice(), ids.as_slice());
    assert_eq!(view.highlighted_song_index(), 0);
}

#[test]
fn search_is_case_insensitive() {
    let (library, ids) = library_of(&["Blank HOLES", "Quiet Night", "holes again"]);
    let mut view = LibrarySearchView::new();
    view.set_filter_string("Holes".to_string());
    view.update_found_songs(&library);
    assert_eq!(view.found_songs().as_slice(), &[ids[0], ids[2]]);
}

#[test]
fn search_matches_substrings_in_order() {
    let (library, ids) = library_of(&["abc", "xabcx", "ab", "cab"]);
    let mut view = LibrarySearchView::new();
    view.set_filter_string("abc".to_string());
    view.update_found_songs(&library);
    assert_eq!(view.found_songs().as_slice(), &[ids[0], ids[1]]);
    view.set_filter_string("zzz".to_string());
    view.update_found_songs(&library);
    assert!(view.found_songs().is_empty());
}

#[test]
fn highlight_moves_within_results() {
    let (library, ids) = library_of(&["a1", "a2", "a3"]);
    let mut view = LibrarySearchView::new();
    view.set_filter_string("a".to_string());
    view.update_found_songs(&library);
    assert_eq!(view.highlighted_song(), Some(ids[0]));
    view.highlight_next();
    view.highlight_next();
    assert_eq!(view.highlighted_song(), Some(ids[2]));
    // The highlight stops at the last result.
    view.highlight_next();
    assert_eq!(view.highlighted_song(), Some(ids[2]));
    view.highlight_previous();
    assert_eq!(view.highlighted_song(), Some(ids[1]));
    // And at the first.
    view.highlight_previous();
    view.highlight_previous();
    assert_eq!(view.highlighted_song(), Some(ids[0]));
}

#[test]
fn show_results_flag_follows_commands() {
    let mut view = LibrarySearchView::new();
    assert!(!view.should_show_results());
    view.set_show_results(true);
    assert!(view.should_show_results());
    view.set_show_results(false);
    assert!(!view.should_show_results());
}

#[test]
fn view_commands_drive_the_playlist() {
    let mut playlist = Playlist::new();
    handle_library_view_command(&mut playlist, LibraryViewCommand::NoCommand);
    assert_eq!(playlist.song_count(), 0);
    handle_library_view_command(&mut playlist, LibraryViewCommand::AddSongToPlaylist(SongId(3)));
    assert_eq!(playlist.songs().as_slice(), &[SongId(3)]);
    assert_eq!(playlist.current_song_index(), None);
}
