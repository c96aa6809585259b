//! Play queue management

use vstd::prelude::*;

use rand::seq::SliceRandom;

use crate::models::Child;
use crate::rest::{opt_view, SubsonicClient};

verus! {

broadcast use vstd::seq_lib::group_to_multiset_ensures;

/// Shuffles `songs` in place with `rand`'s `SliceRandom::shuffle` on the
/// thread-local generator. The source only swaps elements, so the songs come
/// back in some order of the same songs; which order is left to chance.
#[verifier::external_body]
pub(crate) fn shuffle_songs(songs: &mut Vec<Child>)
    ensures
        final(songs)@.len() == old(songs)@.len(),
        final(songs)@.to_multiset() == old(songs)@.to_multiset(),
{
    songs.shuffle(&mut rand::thread_rng());
}

/// The song at `position`, if there is one.
pub open spec fn song_at(songs: Seq<Child>, position: Option<usize>) -> Option<Child> {
    match position {
        Some(p) => if p < songs.len() {
            Some(songs[p as int])
        } else {
            None
        },
        None => None,
    }
}

/// A position is valid when it is none or indexes a song.
pub open spec fn valid_position(songs: Seq<Child>, position: Option<usize>) -> bool {
    position matches Some(p) ==> p < songs.len()
}

/// Where songs inserted "next" go: right after the current song, or at the
/// front when nothing is current.
pub open spec fn insert_point(position: Option<usize>) -> int {
    match position {
        Some(p) => p + 1,
        None => 0,
    }
}

/// The position after the song at `index` was removed and `new_len` songs are
/// left: a song before the current one shifts it down by one; removing the
/// current song keeps the position on the song that followed it, or on the
/// new last song, or clears it when nothing is left.
pub open spec fn position_after_remove(position: Option<usize>, index: int, new_len: int) -> Option<usize> {
    match position {
        None => None,
        Some(p) => if index < p {
            Some((p - 1) as usize)
        } else if index == p {
            if new_len == 0 {
                None
            } else if p >= new_len {
                Some((new_len - 1) as usize)
            } else {
                Some(p)
            }
        } else {
            Some(p)
        },
    }
}

/// Where the song at index `i` ends up when the song at `from` is moved to `to`.
pub open spec fn moved_index(i: int, from: int, to: int) -> int {
    if i == from {
        to
    } else {
        let j = if i > from { i - 1 } else { i };
        if j >= to { j + 1 } else { j }
    }
}

/// The position after advancing: the next song, or none at the end.
pub open spec fn position_after_next(songs: Seq<Child>, position: Option<usize>) -> Option<usize> {
    match position {
        Some(p) => if p + 1 < songs.len() { Some((p + 1) as usize) } else { None },
        None => None,
    }
}

/// Whether advancing finds a next song.
pub open spec fn has_next(songs: Seq<Child>, position: Option<usize>) -> bool {
    position matches Some(p) && p + 1 < songs.len()
}

/// The position after going back: the previous song, or the first song when
/// there is no previous one (nothing when the queue is empty).
pub open spec fn position_after_previous(songs: Seq<Child>, position: Option<usize>) -> Option<usize> {
    match position {
        Some(p) if p > 0 => Some((p - 1) as usize),
        _ => if songs.len() > 0 { Some(0usize) } else { position },
    }
}

/// Whether going back finds a previous song.
pub open spec fn has_previous(position: Option<usize>) -> bool {
    position matches Some(p) && p > 0
}

/// Play queue
#[derive(Debug, Clone)]
pub struct PlayQueue {
    /// Songs in the queue
    songs: Vec<Child>,
    /// Current position in the queue (None = stopped)
    position: Option<usize>,
}

impl View for PlayQueue {
    type V = (Seq<Child>, Option<usize>);

    closed spec fn view(&self) -> (Seq<Child>, Option<usize>) {
        (self.songs@, self.position)
    }
}

impl Default for PlayQueue {
    fn default() -> (q: Self)
        ensures
            q@.0 == Seq::<Child>::empty(),
            q@.1 is None,
            q.wf(),
    {
        PlayQueue::new()
    }
}

impl PlayQueue {
    /// The queue's invariant: the position, if any, indexes a song.
    pub open spec fn wf(&self) -> bool {
        valid_position(self@.0, self@.1)
    }

    /// The song at the current position.
    pub open spec fn current_song(&self) -> Option<Child> {
        song_at(self@.0, self@.1)
    }

    /// Create a new empty queue
    pub fn new() -> (q: Self)
        ensures
            q@.0 == Seq::<Child>::empty(),
            q@.1 is None,
            q.wf(),
    {
        PlayQueue { songs: Vec::new(), position: None }
    }

    /// Get the songs in the queue
    pub fn songs(&self) -> (s: &[Child])
        ensures
            s@ == self@.0,
    {
        self.songs.as_slice()
    }

    /// Get the current position
    pub fn position(&self) -> (p: Option<usize>)
        ensures
            p == self@.1,
    {
        self.position
    }

    /// Get the current song
    pub fn current(&self) -> (c: Option<&Child>)
        ensures
            match c {
                Some(song) => self.current_song() == Some(*song),
                None => self.current_song() is None,
            },
    {
        match self.position {
            Some(pos) => if pos < self.songs.len() {
                Some(&self.songs[pos])
            } else {
                None
            },
            None => None,
        }
    }

    /// Get number of songs in queue
    pub fn len(&self) -> (n: usize)
        ensures
            n == self@.0.len(),
    {
        self.songs.len()
    }

    /// Check if queue is empty
    pub fn is_empty(&self) -> (b: bool)
        ensures
            b <==> self@.0.len() == 0,
    {
        self.songs.is_empty()
    }

    /// Add songs to the end of the queue
    pub fn append(&mut self, songs: Vec<Child>)
        requires
            old(self).wf(),
        ensures
            final(self)@.0 == old(self)@.0 + songs@,
            final(self)@.1 == old(self)@.1,
            final(self).wf(),
            final(self).current_song() == old(self).current_song(),
    {
        let mut songs = songs;
        self.songs.append(&mut songs);
    }

    /// Insert songs after the current position
    pub fn insert_next(&mut self, songs: Vec<Child>)
        requires
            old(self).wf(),
        ensures
            final(self)@.0 == old(self)@.0.take(insert_point(old(self)@.1)) + songs@
                + old(self)@.0.skip(insert_point(old(self)@.1)),
            final(self)@.1 == old(self)@.1,
            final(self).wf(),
            final(self).current_song() == old(self).current_song(),
    {
        let insert_pos: usize = match self.position {
            Some(p) if p < self.songs.len() => p + 1,
            _ => 0,
        };
        let ghost old_songs = self.songs@;
        let ghost new_songs = songs@;
        let mut rest = songs;
        while rest.len() > 0
            invariant
                insert_pos == insert_point(self.position),
                insert_pos <= old_songs.len(),
                self.position == old(self).position,
                old_songs == old(self).songs@,
                rest@ == new_songs.take(rest@.len() as int),
                rest@.len() <= new_songs.len(),
                self.songs@ == old_songs.take(insert_pos as int) + new_songs.skip(rest@.len() as int)
                    + old_songs.skip(insert_pos as int),
            decreases rest@.len(),
        {
            let ghost k = rest@.len();
            let song = rest.pop().unwrap();
            assert(song == new_songs[k - 1]);
            self.songs.insert(insert_pos, song);
            assert(new_songs.skip(k - 1) =~= seq![song] + new_songs.skip(k as int));
            assert(rest@ =~= new_songs.take(k - 1));
        }
        assert(new_songs.skip(0) =~= new_songs);
        proof {
            lemma_insert_next_keeps_current(old_songs, self.position, new_songs);
        }
    }

    /// Clear the queue
    pub fn clear(&mut self)
        ensures
            final(self)@.0 == Seq::<Child>::empty(),
            final(self)@.1 is None,
            final(self).wf(),
    {
        self.songs.clear();
        self.position = None;
    }

    /// Remove song at index
    pub fn remove(&mut self, index: usize) -> (removed: Option<Child>)
        requires
            old(self).wf(),
        ensures
            index >= old(self)@.0.len() ==> removed is None && final(self)@ == old(self)@,
            index < old(self)@.0.len() ==> {
                &&& removed == Some(old(self)@.0[index as int])
                &&& final(self)@.0 == old(self)@.0.remove(index as int)
                &&& final(self)@.1 == position_after_remove(
                    old(self)@.1,
                    index as int,
                    old(self)@.0.len() - 1,
                )
            },
            final(self).wf(),
            old(self)@.1 != Some(index) ==> final(self).current_song() == old(self).current_song(),
    {
        if index >= self.songs.len() {
            return None;
        }
        proof {
            if self.position != Some(index) {
                lemma_remove_keeps_current(self.songs@, self.position, index as int);
            }
        }
        let song = self.songs.remove(index);

        // Adjust position if needed
        if let Some(pos) = self.position {
            if index < pos {
                self.position = Some(pos - 1);
            } else if index == pos {
                // Removed current song
                if self.songs.is_empty() {
                    self.position = None;
                } else if pos >= self.songs.len() {
                    self.position = Some(self.songs.len() - 1);
                }
            }
        }
        Some(song)
    }

    /// Move song from one position to another
    pub fn move_song(&mut self, from: usize, to: usize)
        requires
            old(self).wf(),
        ensures
            from >= old(self)@.0.len() || to >= old(self)@.0.len() ==> final(self)@ == old(self)@,
            from < old(self)@.0.len() && to < old(self)@.0.len() ==> {
                &&& final(self)@.0 == old(self)@.0.remove(from as int).insert(
                    to as int,
                    old(self)@.0[from as int],
                )
                &&& final(self)@.1 == match old(self)@.1 {
                    Some(p) => Some(moved_index(p as int, from as int, to as int) as usize),
                    None => None,
                }
            },
            final(self).wf(),
            final(self).current_song() == old(self).current_song(),
    {
        if from >= self.songs.len() || to >= self.songs.len() {
            return;
        }
        proof {
            lemma_move_song_keeps_current(self.songs@, self.position, from as int, to as int);
        }
        let song = self.songs.remove(from);
        self.songs.insert(to, song);

        // Adjust position if needed
        if let Some(pos) = self.position {
            if from == pos {
                self.position = Some(to);
            } else if from < pos && to >= pos {
                self.position = Some(pos - 1);
            } else if from > pos && to <= pos {
                self.position = Some(pos + 1);
            }
        }
    }

    /// Shuffle the queue, keeping current song in place
    pub fn shuffle(&mut self)
        requires
            old(self).wf(),
        ensures
            final(self)@.0.to_multiset() == old(self)@.0.to_multiset(),
            final(self)@.0.len() == old(self)@.0.len(),
            old(self)@.0.len() <= 1 ==> final(self)@ == old(self)@,
            old(self)@.0.len() > 1 ==> match old(self)@.1 {
                Some(p) => final(self)@.1 == Some(0usize) && final(self)@.0[0] == old(self)@.0[p as int],
                None => final(self)@.1 is None,
            },
            final(self).wf(),
            final(self).current_song() == old(self).current_song(),
    {
        if self.songs.len() <= 1 {
            return;
        }
        if let Some(pos) = self.position {
            // Keep current song, shuffle the rest
            let ghost before = self.songs@;
            let current = self.songs.remove(pos);
            shuffle_songs(&mut self.songs);
            self.songs.insert(0, current);
            proof {
                assert(self.songs@.to_multiset() =~= before.to_multiset());
            }
            self.position = Some(0);
        } else {
            // No current song, shuffle everything
            shuffle_songs(&mut self.songs);
        }
    }

    /// Set current position
    pub fn set_position(&mut self, position: Option<usize>)
        requires
            old(self).wf(),
        ensures
            final(self)@.0 == old(self)@.0,
            final(self)@.1 == match position {
                Some(p) => if p < old(self)@.0.len() { Some(p) } else { old(self)@.1 },
                None => None,
            },
            final(self).wf(),
    {
        if let Some(pos) = position {
            if pos < self.songs.len() {
                self.position = Some(pos);
            }
        } else {
            self.position = None;
        }
    }

    /// Advance to next song
    /// Returns true if there was a next song
    pub fn next(&mut self) -> (advanced: bool)
        requires
            old(self).wf(),
        ensures
            advanced == has_next(old(self)@.0, old(self)@.1),
            final(self)@.0 == old(self)@.0,
            final(self)@.1 == position_after_next(old(self)@.0, old(self)@.1),
            final(self).wf(),
    {
        match self.position {
            Some(pos) if pos < self.songs.len() && pos + 1 < self.songs.len() => {
                self.position = Some(pos + 1);
                true
            },
            _ => {
                self.position = None;
                false
            },
        }
    }

    /// Go to previous song
    /// Returns true if there was a previous song
    pub fn previous(&mut self) -> (went_back: bool)
        requires
            old(self).wf(),
        ensures
            went_back == has_previous(old(self)@.1),
            final(self)@.0 == old(self)@.0,
            final(self)@.1 == position_after_previous(old(self)@.0, old(self)@.1),
            final(self).wf(),
    {
        match self.position {
            Some(pos) if pos > 0 => {
                self.position = Some(pos - 1);
                true
            },
            _ => {
                if !self.songs.is_empty() {
                    self.position = Some(0);
                }
                false
            },
        }
    }

    /// Get stream URL for current song
    pub fn current_stream_url(&self, client: &SubsonicClient) -> (url: Option<String>)
        ensures
            opt_view(url) == match self.current_song() {
                Some(song) => client.spec_stream_url(song.id@),
                None => None,
            },
    {
        match self.current() {
            Some(song) => match client.get_stream_url(song.id.as_str()) {
                Ok(url) => Some(url),
                Err(_) => None,
            },
            None => None,
        }
    }

    /// Get stream URL for song at index
    pub fn stream_url_at(&self, index: usize, client: &SubsonicClient) -> (url: Option<String>)
        ensures
            opt_view(url) == if index < self@.0.len() {
                client.spec_stream_url(self@.0[index as int].id@)
            } else {
                None
            },
    {
        if index < self.songs.len() {
            match client.get_stream_url(self.songs[index].id.as_str()) {
                Ok(url) => Some(url),
                Err(_) => None,
            }
        } else {
            None
        }
    }
}

} // verus!

verus! {

/// Moving a song keeps every song: the song at index `i` is found at
/// `moved_index(i, from, to)` afterwards, and the queue holds the same songs.
pub proof fn lemma_move_song_permutes(songs: Seq<Child>, from: int, to: int)
    requires
        0 <= from < songs.len(),
        0 <= to < songs.len(),
    ensures
        ({
            let moved = songs.remove(from).insert(to, songs[from]);
            &&& moved.len() == songs.len()
            &&& moved.to_multiset() == songs.to_multiset()
            &&& forall|i: int|
                0 <= i < songs.len() ==> 0 <= #[trigger] moved_index(i, from, to) < songs.len()
                    && moved[moved_index(i, from, to)] == songs[i]
        }),
{
    let removed = songs.remove(from);
    let moved = removed.insert(to, songs[from]);
    assert(removed.to_multiset() == songs.to_multiset().remove(songs[from]));
    assert(moved.to_multiset() == removed.to_multiset().insert(songs[from]));
    assert(songs.to_multiset().contains(songs[from])) by {
        assert(songs.contains(songs[from]));
    }
    assert(moved.to_multiset() =~= songs.to_multiset());
}

/// Moving a song never changes which song is current.
pub proof fn lemma_move_song_keeps_current(songs: Seq<Child>, position: Option<usize>, from: int, to: int)
    requires
        songs.len() <= usize::MAX,
        0 <= from < songs.len(),
        0 <= to < songs.len(),
        valid_position(songs, position),
    ensures
        song_at(
            songs.remove(from).insert(to, songs[from]),
            match position {
                Some(p) => Some(moved_index(p as int, from, to) as usize),
                None => None,
            },
        ) == song_at(songs, position),
{
    lemma_move_song_permutes(songs, from, to);
    if let Some(p) = position {
        assert(0 <= moved_index(p as int, from, to) < songs.len());
    }
}

/// Removing a song other than the current one keeps the current song.
pub proof fn lemma_remove_keeps_current(songs: Seq<Child>, position: Option<usize>, index: int)
    requires
        0 <= index < songs.len(),
        valid_position(songs, position),
        !(position == Some(index as usize)),
    ensures
        song_at(songs.remove(index), position_after_remove(position, index, songs.len() - 1))
            == song_at(songs, position),
        valid_position(songs.remove(index), position_after_remove(position, index, songs.len() - 1)),
{
}

/// Inserting songs "next" keeps the current song, and the inserted songs
/// follow it directly, in their order.
pub proof fn lemma_insert_next_keeps_current(songs: Seq<Child>, position: Option<usize>, new_songs: Seq<Child>)
    requires
        valid_position(songs, position),
    ensures
        ({
            let ip = insert_point(position);
            let result = songs.take(ip) + new_songs + songs.skip(ip);
            &&& song_at(result, position) == song_at(songs, position)
            &&& result.subrange(ip, ip + new_songs.len()) == new_songs
            &&& result.len() == songs.len() + new_songs.len()
        }),
{
    let ip = insert_point(position);
    let result = songs.take(ip) + new_songs + songs.skip(ip);
    assert(result.subrange(ip, ip + new_songs.len()) =~= new_songs);
}

/// Appending songs keeps the current song.
pub proof fn lemma_append_keeps_current(songs: Seq<Child>, position: Option<usize>, new_songs: Seq<Child>)
    requires
        valid_position(songs, position),
    ensures
        song_at(songs + new_songs, position) == song_at(songs, position),
        valid_position(songs + new_songs, position),
{
}

/// Going back after a successful advance returns to where the queue was.
pub proof fn lemma_next_then_previous(songs: Seq<Child>, position: Option<usize>)
    requires
        songs.len() <= usize::MAX,
        valid_position(songs, position),
        has_next(songs, position),
    ensures
        has_previous(position_after_next(songs, position)),
        position_after_previous(songs, position_after_next(songs, position)) == position,
{
}

/// Advancing after a successful step back returns to where the queue was.
pub proof fn lemma_previous_then_next(songs: Seq<Child>, position: Option<usize>)
    requires
        songs.len() <= usize::MAX,
        valid_position(songs, position),
        has_previous(position),
    ensures
        has_next(songs, position_after_previous(songs, position)),
        position_after_next(songs, position_after_previous(songs, position)) == position,
{
}

} // verus!
