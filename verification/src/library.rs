//! The song library: a store of songs keyed by unique identifiers, and
//! how a song on disk becomes an entry (which files count as songs, and
//! the display title derived from a file's path).

use crate::text::{chars_of, str_eq, string_from_chars};
use vstd::prelude::*;

verus! {

/// Index of the last occurrence of `c` in `s`, or -1 when `c` is absent.
pub open spec fn spec_last_index(s: Seq<char>, c: char) -> int
    decreases s.len(),
{
    if s.len() == 0 {
        -1
    } else if s.last() == c {
        s.len() - 1
    } else {
        spec_last_index(s.drop_last(), c)
    }
}

proof fn lemma_last_index_range(s: Seq<char>, c: char)
    ensures
        -1 <= spec_last_index(s, c) < s.len(),
    decreases s.len(),
{
    if s.len() > 0 && s.last() != c {
        lemma_last_index_range(s.drop_last(), c);
    }
}

/// The file-name part of a path: what follows the last `/`.
pub open spec fn spec_file_name(path: Seq<char>) -> Seq<char> {
    path.subrange(spec_last_index(path, '/') + 1, path.len() as int)
}

/// The stem of a file name: what precedes the last `.`, except that a
/// dot at the very front (a hidden file) does not count as a separator.
pub open spec fn spec_stem(name: Seq<char>) -> Seq<char> {
    let d = spec_last_index(name, '.');
    if d <= 0 {
        name
    } else {
        name.take(d)
    }
}

pub open spec fn spec_underscores_to_spaces(s: Seq<char>) -> Seq<char> {
    s.map_values(|c: char| if c == '_' { ' ' } else { c })
}

/// The display title derived from a file's path: the file name's stem
/// with underscores shown as spaces, or "Unnamed" when the path holds no
/// name at all.
pub open spec fn spec_song_title(path: Seq<char>) -> Seq<char> {
    let stem = spec_stem(spec_file_name(path));
    if stem.len() == 0 {
        "Unnamed"@
    } else {
        spec_underscores_to_spaces(stem)
    }
}

/// The file extensions the player accepts, matching the container and
/// codec set the decoder is built with. Callers pre-filter files by this
/// before handing them to the engine.
pub fn is_supported_extension(ext: &str) -> (r: bool)
    ensures
        r == (ext@ == "flac"@ || ext@ == "mkv"@ || ext@ == "ogg"@ || ext@ == "wav"@),
{
    str_eq(ext, "flac") || str_eq(ext, "mkv") || str_eq(ext, "ogg") || str_eq(ext, "wav")
}

fn last_index_of(chars: &Vec<char>, c: char) -> (r: Option<usize>)
    ensures
        match r {
            Some(i) => spec_last_index(chars@, c) == i && i < chars@.len(),
            None => spec_last_index(chars@, c) == -1,
        },
{
    let mut k: usize = chars.len();
    proof {
        assert(chars@.take(k as int) =~= chars@);
    }
    while k > 0
        invariant
            k <= chars@.len(),
            spec_last_index(chars@, c) == spec_last_index(chars@.take(k as int), c),
        decreases k,
    {
        proof {
            assert(chars@.take(k as int).drop_last() =~= chars@.take(k - 1));
        }
        if chars[k - 1] == c {
            return Some(k - 1);
        }
        k = k - 1;
    }
    None
}

/// Identifier of a song in the library. Fresh identifiers are handed out by
/// [`Library::insert`]; an identifier is never reused.
#[derive(Clone, Copy, PartialEq, Eq, Structural, Debug, Hash)]
pub struct SongId(pub u64);

/// A song known to the library: a display title and the path of its file.
#[derive(Clone, Debug)]
pub struct Song {
    pub title: String,
    pub path: String,
}

impl Song {
    /// Makes a song entry for the file at `path`, deriving the display
    /// title from the file name.
    pub fn from_file(path: String) -> (r: Song)
        ensures
            r.title@ == spec_song_title(path@),
            r.path@ == path@,
    {
        let chars = chars_of(path.as_str());
        let total = chars.len();
        let name_start: usize = match last_index_of(&chars, '/') {
            Some(i) => {
                proof {
                    assert(i < total);
                }
                i + 1
            },
            None => 0,
        };
        let mut name: Vec<char> = Vec::new();
        let mut k: usize = name_start;
        while k < chars.len()
            invariant
                name_start <= k <= chars@.len(),
                name@ == chars@.subrange(name_start as int, k as int),
            decreases chars@.len() - k,
        {
            name.push(chars[k]);
            proof {
                assert(name@ =~= chars@.subrange(name_start as int, k + 1));
            }
            k = k + 1;
        }
        proof {
            assert(name@ =~= spec_file_name(path@));
        }
        let stem_len: usize = match last_index_of(&name, '.') {
            Some(d) => if d > 0 {
                d
            } else {
                name.len()
            },
            None => name.len(),
        };
        proof {
            assert(name@.take(stem_len as int) =~= spec_stem(name@));
        }
        let mut title_chars: Vec<char> = Vec::new();
        let mut k: usize = 0;
        while k < stem_len
            invariant
                k <= stem_len <= name@.len(),
                title_chars@.len() == k,
                forall|j: int|
                    0 <= j < k ==> title_chars@[j] == (if name@[j] == '_' {
                        ' '
                    } else {
                        name@[j]
                    }),
            decreases stem_len - k,
        {
            let c = name[k];
            title_chars.push(
                if c == '_' {
                    ' '
                } else {
                    c
                },
            );
            k = k + 1;
        }
        proof {
            assert(title_chars@ =~= spec_underscores_to_spaces(spec_stem(name@)));
        }
        if title_chars.len() == 0 {
            Song { title: String::from_str("Unnamed"), path }
        } else {
            Song { title: string_from_chars(&title_chars), path }
        }
    }
}

/// The library holds songs in insertion order, each under a unique id.
/// Songs are never removed, so the id of a song is simply the position
/// at which it was inserted.
pub struct Library {
    entries: Vec<(SongId, Song)>,
}

impl Library {
    #[verifier::type_invariant]
    spec fn wf(self) -> bool {
        forall|i: int|
            0 <= i < self.entries@.len() ==> (#[trigger] self.entries@[i]).0.0 == i as u64
    }

    /// The songs of the library, each with its id, in insertion order.
    pub closed spec fn spec_entries(self) -> Seq<(SongId, Song)> {
        self.entries@
    }

    pub fn new() -> (r: Self)
        ensures
            r.spec_entries() == Seq::<(SongId, Song)>::empty(),
    {
        Library { entries: Vec::new() }
    }

    /// Adds a song and returns the fresh id it was stored under.
    pub fn insert(&mut self, song: Song) -> (r: SongId)
        ensures
            final(self).spec_entries() == old(self).spec_entries().push((r, song)),
            forall|i: int|
                0 <= i < old(self).spec_entries().len() ==> (#[trigger] old(
                    self,
                ).spec_entries()[i]).0 != r,
    {
        proof {
            use_type_invariant(&*self);
        }
        let mut entries: Vec<(SongId, Song)> = Vec::new();
        std::mem::swap(&mut self.entries, &mut entries);
        let id = SongId(entries.len() as u64);
        entries.push((id, song));
        std::mem::swap(&mut self.entries, &mut entries);
        id
    }

    /// Looks a song up by its id.
    pub fn get_song(&self, id: SongId) -> (r: Option<&Song>)
        ensures
            match r {
                Some(song) => exists|i: int|
                    0 <= i < self.spec_entries().len() && #[trigger] self.spec_entries()[i] == (
                    id,
                    *song,
                    ),
                None => forall|i: int|
                    0 <= i < self.spec_entries().len() ==> (#[trigger] self.spec_entries()[i]).0
                        != id,
            },
    {
        let n = self.entries.len();
        let mut k: usize = 0;
        while k < n
            invariant
                n == self.spec_entries().len(),
                k <= n,
                forall|i: int| 0 <= i < k ==> (#[trigger] self.spec_entries()[i]).0 != id,
            decreases n - k,
        {
            if self.entries[k].0 == id {
                return Some(&self.entries[k].1);
            }
            k = k + 1;
        }
        None
    }

    /// All entries, in insertion order.
    pub fn songs(&self) -> (r: &Vec<(SongId, Song)>)
        ensures
            r@ == self.spec_entries(),
    {
        &self.entries
    }

    pub fn song_count(&self) -> (r: usize)
        ensures
            r == self.spec_entries().len(),
    {
        self.entries.len()
    }
}

} // verus!
