use musics::library::{is_supported_extension, Library, Song};

#[test]
fn insert_hands_out_fresh_ids() {
    let mut library = Library::new();
    let a = library.insert(Song { title: "a".to_string(), path: "a.ogg".to_string() });
    let b = library.insert(Song { title: "b".to_string(), path: "b.ogg".to_string() });
    assert_ne!(a, b);
    assert_eq!(library.song_count(), 2);
    assert_eq!(library.get_song(a).unwrap().title, "a");
    assert_eq!(library.get_song(b).unwrap().title, "b");
}

#[test]
fn get_song_of_unknown_id_is_none() {
    let mut library = Library::new();
    let a = library.insert(Song { title: "a".to_string(), path: "a.ogg".to_string() });
    let other = musics::library::SongId(a.0 + 100);
    assert!(library.get_song(other).is_none());
}

#[test]
fn songs_come_back_in_insertion_order() {
    let mut library = Library::new();
    let a = library.insert(Song { title: "first".to_string(), path: "1.ogg".to_string() });
    let b = library.insert(Song { title: "second".to_string(), path: "2.ogg".to_string() });
    let entries = library.songs();
    assert_eq!(entries.len(), 2);
    assert_eq!(entries[0].0, a);
    assert_eq!(entries[0].1.title, "first");
    assert_eq!(entries[1].0, b);
    assert_eq!(entries[1].1.title, "second");
}

#[test]
fn title_derivation_from_path() {
    let song = Song::from_file("library/My_Favourite_Song.ogg".to_string());
    assert_eq!(song.title, "My Favourite Song");
    assert_eq!(song.path, "library/My_Favourite_Song.ogg");

    // A hidden file keeps its leading dot.
    assert_eq!(Song::from_file(".hidden".to_string()).title, ".hidden");
    // Only the last extension is stripped.
    assert_eq!(Song::from_file("a/b/c.tar.gz".to_string()).title, "c.tar");
    // No file name at all.
    assert_eq!(Song::from_file("dir/".to_string()).title, "Unnamed");
    assert_eq!(Song::from_file("".to_string()).title, "Unnamed");
    // No directory part.
    assert_eq!(Song::from_file("tune.wav".to_string()).title, "tune");
}

#[test]
fn supported_extensions_match_decoder_build() {
    assert!(is_supported_extension("ogg"));
    assert!(is_supported_extension("wav"));
    assert!(is_supported_extension("flac"));
    assert!(is_supported_extension("mkv"));
    assert!(!is_supported_extension("mp3"));
    assert!(!is_supported_extension("OGG"));
    assert!(!is_supported_extension(""));
    assert!(!is_supported_extension("oggx"));
}
