//! Searching the library by title, case-insensitively, and the state of
//! the search box the interface shows.

use crate::library::{Library, Song, SongId};
use crate::playlist::Playlist;
use crate::text::{chars_of, contains_chars, lower_of, lowercase, spec_contains};
use vstd::prelude::*;

verus! {

/// What the interface should do after showing a search widget.
pub enum LibraryViewCommand {
    /// Nothing was selected.
    NoCommand,
    AddSongToPlaylist(SongId),
}

/// Applies what a search widget asked for: adds the chosen song to the
/// playlist, or does nothing.
pub fn handle_library_view_command(playlist: &mut Playlist, command: LibraryViewCommand)
    ensures
        match command {
            LibraryViewCommand::NoCommand => *final(playlist) == *old(playlist),
            LibraryViewCommand::AddSongToPlaylist(id) => final(playlist).spec_songs() == old(
                playlist,
            ).spec_songs().push(id) && final(playlist).spec_current() == old(
                playlist,
            ).spec_current(),
        },
{
    match command {
        LibraryViewCommand::NoCommand => {},
        LibraryViewCommand::AddSongToPlaylist(id) => {
            playlist.append_song(id);
        },
    }
}

/// The ids of the entries whose lowercased title contains `filter`
/// (itself already lowercased), in library order.
pub open spec fn spec_found_songs(entries: Seq<(SongId, Song)>, filter: Seq<char>) -> Seq<SongId>
    decreases entries.len(),
{
    if entries.len() == 0 {
        Seq::empty()
    } else {
        let rest = spec_found_songs(entries.drop_last(), filter);
        if spec_contains(lower_of(entries.last().1.title@), filter) {
            rest.push(entries.last().0)
        } else {
            rest
        }
    }
}

/// The state of the library search box: the filter text being typed, the
/// ids found for it, whether the result list is shown, and which result
/// is highlighted for selection by keyboard.
pub struct LibrarySearchView {
    filter_string: String,
    found_songs: Vec<SongId>,
    show_results: bool,
    highlighted_song_index: usize,
}

impl LibrarySearchView {
    pub closed spec fn spec_filter(self) -> Seq<char> {
        self.filter_string@
    }

    pub closed spec fn spec_found(self) -> Seq<SongId> {
        self.found_songs@
    }

    pub closed spec fn spec_show_results(self) -> bool {
        self.show_results
    }

    pub closed spec fn spec_highlighted(self) -> int {
        self.highlighted_song_index as int
    }

    pub fn new() -> (r: LibrarySearchView)
        ensures
            r.spec_filter() == Seq::<char>::empty(),
            r.spec_found() == Seq::<SongId>::empty(),
            !r.spec_show_results(),
            r.spec_highlighted() == 0,
    {
        LibrarySearchView {
            filter_string: String::new(),
            found_songs: Vec::new(),
            show_results: false,
            highlighted_song_index: 0,
        }
    }

    pub fn should_show_results(&self) -> (r: bool)
        ensures
            r == self.spec_show_results(),
    {
        self.show_results
    }

    pub fn set_show_results(&mut self, show: bool)
        ensures
            final(self).spec_show_results() == show,
            final(self).spec_filter() == old(self).spec_filter(),
            final(self).spec_found() == old(self).spec_found(),
            final(self).spec_highlighted() == old(self).spec_highlighted(),
    {
        self.show_results = show;
    }

    pub fn filter_string(&self) -> (r: &String)
        ensures
            r@ == self.spec_filter(),
    {
        &self.filter_string
    }

    pub fn set_filter_string(&mut self, filter: String)
        ensures
            final(self).spec_filter() == filter@,
            final(self).spec_show_results() == old(self).spec_show_results(),
            final(self).spec_found() == old(self).spec_found(),
            final(self).spec_highlighted() == old(self).spec_highlighted(),
    {
        self.filter_string = filter;
    }

    pub fn found_songs(&self) -> (r: &Vec<SongId>)
        ensures
            r@ == self.spec_found(),
    {
        &self.found_songs
    }

    pub fn highlighted_song_index(&self) -> (r: usize)
        ensures
            r == self.spec_highlighted(),
    {
        self.highlighted_song_index
    }

    /// The found song the highlight sits on, if it sits on one.
    pub fn highlighted_song(&self) -> (r: Option<SongId>)
        ensures
            r == if self.spec_highlighted() < self.spec_found().len() {
                Some(self.spec_found()[self.spec_highlighted()])
            } else {
                None::<SongId>
            },
    {
        if self.highlighted_song_index < self.found_songs.len() {
            Some(self.found_songs[self.highlighted_song_index])
        } else {
            None
        }
    }

    /// Moves the highlight one result up, stopping at the first.
    pub fn highlight_previous(&mut self)
        ensures
            final(self).spec_highlighted() == if old(self).spec_highlighted() > 0 {
                old(self).spec_highlighted() - 1
            } else {
                0
            },
            final(self).spec_filter() == old(self).spec_filter(),
            final(self).spec_found() == old(self).spec_found(),
            final(self).spec_show_results() == old(self).spec_show_results(),
    {
        if self.highlighted_song_index > 0 {
            self.highlighted_song_index = self.highlighted_song_index - 1;
        }
    }

    /// Moves the highlight one result down, stopping at the last (and at
    /// the first while there are no results).
    pub fn highlight_next(&mut self)
        requires
            old(self).spec_highlighted() <= old(self).spec_found().len(),
        ensures
            final(self).spec_highlighted() == if old(self).spec_found().len() == 0 {
                0int
            } else if old(self).spec_highlighted() + 1 < old(self).spec_found().len() {
                old(self).spec_highlighted() + 1
            } else {
                old(self).spec_found().len() - 1
            },
            final(self).spec_filter() == old(self).spec_filter(),
            final(self).spec_found() == old(self).spec_found(),
            final(self).spec_show_results() == old(self).spec_show_results(),
    {
        if self.found_songs.len() == 0 {
            self.highlighted_song_index = 0;
        } else if self.highlighted_song_index < self.found_songs.len() - 1 {
            self.highlighted_song_index = self.highlighted_song_index + 1;
        } else {
            self.highlighted_song_index = self.found_songs.len() - 1;
        }
    }

    /// Recomputes the found songs for the current filter: the songs whose
    /// title contains the filter text, comparing case-insensitively, in
    /// library order. The highlight returns to the first result.
    pub fn update_found_songs(&mut self, library: &Library)
        ensures
            final(self).spec_found() == spec_found_songs(
                library.spec_entries(),
                lower_of(old(self).spec_filter()),
            ),
            final(self).spec_filter() == old(self).spec_filter(),
            final(self).spec_show_results() == old(self).spec_show_results(),
            final(self).spec_highlighted() == 0,
    {
        let filter_lower = lowercase(self.filter_string.as_str());
        let filter_chars = chars_of(filter_lower.as_str());
        let entries = library.songs();
        let n = entries.len();
        let mut found: Vec<SongId> = Vec::new();
        let mut k: usize = 0;
        while k < n
            invariant
                n == entries@.len(),
                entries@ == library.spec_entries(),
                filter_chars@ == lower_of(self.spec_filter()),
                k <= n,
                found@ == spec_found_songs(entries@.take(k as int), filter_chars@),
            decreases n - k,
        {
            let title_lower = lowercase(entries[k].1.title.as_str());
            let title_chars = chars_of(title_lower.as_str());
            if contains_chars(&title_chars, &filter_chars) {
                found.push(entries[k].0);
            }
            proof {
                let taken = entries@.take(k + 1 as int);
                assert(taken.drop_last() =~= entries@.take(k as int));
                assert(taken.last() == entries@[k as int]);
            }
            k = k + 1;
        }
        proof {
            assert(entries@.take(n as int) =~= entries@);
        }
        self.found_songs = found;
        self.highlighted_song_index = 0;
    }
}

} // verus!
