//! An ordered playlist of songs with a selection cursor.

use crate::library::SongId;
use vstd::prelude::*;

verus! {

/// Where the cursor moves when asked for the next song.
pub open spec fn spec_next_index(cur: Option<usize>, n: int, wrap: bool) -> Option<int> {
    if n == 0 {
        None
    } else {
        match cur {
            Some(i) => if i + 1 >= n {
                if wrap {
                    Some(0)
                } else {
                    None
                }
            } else {
                Some(i + 1)
            },
            None => Some(0),
        }
    }
}

/// Where the cursor moves when asked for the previous song.
pub open spec fn spec_previous_index(cur: Option<usize>, n: int, wrap: bool) -> Option<int> {
    if n == 0 {
        None
    } else {
        match cur {
            Some(i) => if i == 0 {
                if wrap {
                    Some(n - 1)
                } else {
                    None
                }
            } else {
                Some(i - 1)
            },
            None => Some(n - 1),
        }
    }
}

/// An ordered list of song ids plus the index of the currently selected
/// song, if any. The cursor may sit one past the end of the list (a
/// selection that points at no song) but never further.
pub struct Playlist {
    songs: Vec<SongId>,
    current_song_index: Option<usize>,
}

impl Playlist {
    pub closed spec fn spec_songs(self) -> Seq<SongId> {
        self.songs@
    }

    pub closed spec fn spec_current(self) -> Option<usize> {
        self.current_song_index
    }

    /// The song the cursor points at, if it points at one.
    pub open spec fn spec_current_id(self) -> Option<SongId> {
        match self.spec_current() {
            Some(i) => if i < self.spec_songs().len() {
                Some(self.spec_songs()[i as int])
            } else {
                None
            },
            None => None,
        }
    }

    pub fn new() -> (r: Self)
        ensures
            r.spec_songs() == Seq::<SongId>::empty(),
            r.spec_current() is None,
    {
        Playlist { songs: Vec::new(), current_song_index: None }
    }

    pub fn songs(&self) -> (r: &Vec<SongId>)
        ensures
            r@ == self.spec_songs(),
    {
        &self.songs
    }

    pub fn song_count(&self) -> (r: usize)
        ensures
            r == self.spec_songs().len(),
    {
        self.songs.len()
    }

    pub fn append_song(&mut self, song: SongId)
        ensures
            final(self).spec_songs() == old(self).spec_songs().push(song),
            final(self).spec_current() == old(self).spec_current(),
    {
        self.songs.push(song)
    }

    pub fn append_songs(&mut self, songs: &[SongId])
        ensures
            final(self).spec_songs() == old(self).spec_songs() + songs@,
            final(self).spec_current() == old(self).spec_current(),
    {
        let mut k: usize = 0;
        while k < songs.len()
            invariant
                k <= songs@.len(),
                self.songs@ == old(self).songs@ + songs@.subrange(0, k as int),
                self.current_song_index == old(self).current_song_index,
            decreases songs@.len() - k,
        {
            self.songs.push(songs[k]);
            k = k + 1;
        }
        proof {
            assert(songs@.subrange(0, songs@.len() as int) =~= songs@);
            assert(self.songs@ =~= old(self).songs@ + songs@);
        }
    }

    /// Moves the cursor to the next song and returns it. With `wrap` the
    /// cursor returns to the start after the last song; without, it leaves
    /// the list (and `None` is returned).
    pub fn select_next_song(&mut self, wrap: bool) -> (r: Option<SongId>)
        ensures
            final(self).spec_songs() == old(self).spec_songs(),
            final(self).spec_current() == match spec_next_index(
                old(self).spec_current(),
                old(self).spec_songs().len() as int,
                wrap,
            ) {
                Some(i) => Some(i as usize),
                None => None::<usize>,
            },
            r == final(self).spec_current_id(),
    {
        self.current_song_index = if self.songs.len() == 0 {
            None
        } else if let Some(index) = self.current_song_index {
            if index >= self.songs.len() - 1 {
                if wrap {
                    Some(0)
                } else {
                    None
                }
            } else {
                Some(index + 1)
            }
        } else {
            Some(0)
        };
        match self.current_song_index {
            Some(index) => if index < self.songs.len() {
                Some(self.songs[index])
            } else {
                None
            },
            None => None,
        }
    }

    /// Moves the cursor to the previous song and returns it. With `wrap`
    /// the cursor jumps to the end of the list when it is at the start.
    pub fn select_previous_song(&mut self, wrap: bool) -> (r: Option<SongId>)
        ensures
            final(self).spec_songs() == old(self).spec_songs(),
            final(self).spec_current() == match spec_previous_index(
                old(self).spec_current(),
                old(self).spec_songs().len() as int,
                wrap,
            ) {
                Some(i) => Some(i as usize),
                None => None::<usize>,
            },
            r == final(self).spec_current_id(),
    {
        self.current_song_index = if self.songs.len() == 0 {
            None
        } else if let Some(index) = self.current_song_index {
            if index == 0 {
                if wrap {
                    Some(self.songs.len() - 1)
                } else {
                    None
                }
            } else {
                Some(index - 1)
            }
        } else {
            Some(self.songs.len() - 1)
        };
        match self.current_song_index {
            Some(index) => if index < self.songs.len() {
                Some(self.songs[index])
            } else {
                None
            },
            None => None,
        }
    }

    /// Places the cursor on `index` and returns the song there. An index
    /// one past the end is accepted (the cursor then points at no song);
    /// anything further leaves the playlist unchanged.
    pub fn select_song(&mut self, index: usize) -> (r: Option<SongId>)
        ensures
            final(self).spec_songs() == old(self).spec_songs(),
            final(self).spec_current() == if index <= old(self).spec_songs().len() {
                Some(index)
            } else {
                old(self).spec_current()
            },
            r == if index <= old(self).spec_songs().len() {
                final(self).spec_current_id()
            } else {
                None::<SongId>
            },
    {
        if index <= self.songs.len() {
            self.current_song_index = Some(index);
            if index < self.songs.len() {
                Some(self.songs[index])
            } else {
                None
            }
        } else {
            None
        }
    }

    /// Swaps two songs. The cursor follows the song it was on, so the
    /// selected song stays selected. Out-of-range indices do nothing.
    pub fn switch_songs_by_index(&mut self, source_index: usize, target_index: usize)
        ensures
            ({
                let n = old(self).spec_songs().len();
                if source_index >= n || target_index >= n {
                    *final(self) == *old(self)
                } else {
                    &&& final(self).spec_songs() == old(self).spec_songs().update(
                        source_index as int,
                        old(self).spec_songs()[target_index as int],
                    ).update(target_index as int, old(self).spec_songs()[source_index as int])
                    &&& final(self).spec_current() == match old(self).spec_current() {
                        Some(c) => Some(
                            if c == source_index {
                                target_index
                            } else if c == target_index {
                                source_index
                            } else {
                                c
                            },
                        ),
                        None => None::<usize>,
                    }
                }
            }),
    {
        if source_index >= self.songs.len() || target_index >= self.songs.len() {
            return ;
        }
        let a = self.songs[source_index];
        let b = self.songs[target_index];
        self.songs.set(source_index, b);
        self.songs.set(target_index, a);
        if let Some(current_song) = self.current_song_index {
            if current_song == source_index {
                self.current_song_index = Some(target_index);
            } else if current_song == target_index {
                self.current_song_index = Some(source_index);
            }
        }
    }

    /// Removes the song at `index`. Returns true exactly when the removed
    /// song was the selected one; the cursor then stays at `index` (now the
    /// following song), or becomes empty when there is no following song.
    /// A cursor behind the removed index moves back one to stay on its song.
    pub fn remove_song_by_index(&mut self, index: usize) -> (r: bool)
        ensures
            ({
                let n = old(self).spec_songs().len();
                if index >= n {
                    *final(self) == *old(self) && r == false
                } else {
                    &&& final(self).spec_songs() == old(self).spec_songs().remove(index as int)
                    &&& r == (old(self).spec_current() == Some(index))
                    &&& final(self).spec_current() == match old(self).spec_current() {
                        Some(c) => if c == index {
                            if index >= n - 1 {
                                None::<usize>
                            } else {
                                Some(index)
                            }
                        } else if c > index {
                            Some((c - 1) as usize)
                        } else {
                            Some(c)
                        },
                        None => None::<usize>,
                    }
                }
            }),
    {
        if index >= self.songs.len() {
            return false;
        }
        self.songs.remove(index);
        let mut song_removed_is_current_song = false;
        if let Some(current_song) = self.current_song_index {
            if current_song == index {
                song_removed_is_current_song = true;
                if index >= self.song_count() {
                    self.current_song_index = None;
                }
            } else if current_song > index {
                self.current_song_index = Some(current_song - 1);
            }
        }
        song_removed_is_current_song
    }

    pub fn current_song_index(&self) -> (r: Option<usize>)
        ensures
            r == self.spec_current(),
    {
        self.current_song_index
    }

    pub fn current_song_id(&self) -> (r: Option<SongId>)
        ensures
            r == self.spec_current_id(),
    {
        match self.current_song_index {
            Some(index) => if index < self.songs.len() {
                Some(self.songs[index])
            } else {
                None
            },
            None => None,
        }
    }
}

} // verus!
