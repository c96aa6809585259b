//! The decisions behind the key handlers and the playback controls: moving a
//! selection through a list, editing the queue from the queue page, and
//! choosing the track to play next or before.

use vstd::prelude::*;

use vstd::string::*;

use crate::keys::{Key, KeyInput};
use crate::models::{Child, Page, RepeatMode, SongOption};
use crate::queue::shuffle_songs;

verus! {

broadcast use vstd::seq_lib::group_to_multiset_ensures;

/// The selection after moving up in a list of `len` items: one item up,
/// staying on the first; the first item when nothing was selected and the list
/// has items.
pub open spec fn spec_select_previous(selected: Option<usize>, len: nat) -> Option<usize> {
    match selected {
        Some(sel) => if sel > 0 { Some((sel - 1) as usize) } else { Some(sel) },
        None => if len > 0 { Some(0usize) } else { None },
    }
}

/// The selection after moving down in a list of `len` items: one item down,
/// staying on the last; the first item when nothing was selected and the list
/// has items.
pub open spec fn spec_select_next(selected: Option<usize>, len: nat) -> Option<usize> {
    match selected {
        Some(sel) => if sel + 1 < len { Some((sel + 1) as usize) } else { Some(sel) },
        None => if len > 0 { Some(0usize) } else { None },
    }
}

/// Moves a selection up in a list of `len` items.
pub fn select_previous(selected: Option<usize>, len: usize) -> (sel: Option<usize>)
    ensures
        sel == spec_select_previous(selected, len as nat),
{
    match selected {
        Some(sel) => if sel > 0 { Some(sel - 1) } else { Some(sel) },
        None => if len > 0 { Some(0) } else { None },
    }
}

/// Moves a selection down in a list of `len` items.
pub fn select_next(selected: Option<usize>, len: usize) -> (sel: Option<usize>)
    ensures
        sel == spec_select_next(selected, len as nat),
{
    let max = if len > 0 { len - 1 } else { 0 };
    match selected {
        Some(sel) => if sel < max { Some(sel + 1) } else { Some(sel) },
        None => if len > 0 { Some(0) } else { None },
    }
}

/// Moving down and then up returns to the item one started from whenever the
/// move down moved; moving up and then down likewise, within the list.
pub proof fn lemma_select_round_trip(selected: Option<usize>, len: nat)
    requires
        len <= usize::MAX,
    ensures
        (selected matches Some(s) && s + 1 < len) ==> spec_select_previous(
            spec_select_next(selected, len),
            len,
        ) == selected,
        (selected matches Some(s) && 0 < s < len) ==> spec_select_next(
            spec_select_previous(selected, len),
            len,
        ) == selected,
{
}

/// The song option above `option` in the options pane, if any.
pub fn previous_song_option(option: &Option<SongOption>) -> (prev: Option<SongOption>)
    ensures
        prev == match *option {
            Some(SongOption::Starred) => Some(SongOption::All),
            Some(SongOption::Random) => Some(SongOption::Starred),
            _ => None,
        },
{
    match option {
        Some(SongOption::All) => None,
        Some(SongOption::Starred) => Some(SongOption::All),
        Some(SongOption::Random) => Some(SongOption::Starred),
        None => None,
    }
}

/// The song option below `option` in the options pane, if any.
pub fn next_song_option(option: &Option<SongOption>) -> (next: Option<SongOption>)
    ensures
        next == match *option {
            Some(SongOption::All) => Some(SongOption::Starred),
            Some(SongOption::Starred) => Some(SongOption::Random),
            _ => None,
        },
{
    match option {
        Some(SongOption::All) => Some(SongOption::Starred),
        Some(SongOption::Starred) => Some(SongOption::Random),
        Some(SongOption::Random) => None,
        None => None,
    }
}

/// What the "next track" control does.
#[derive(Debug, Clone, Copy, PartialEq, Eq, Structural)]
pub enum NextTrack {
    /// The queue is empty: nothing happens.
    Nothing,
    /// Play the song at this queue position.
    Play(usize),
    /// The end of the queue is reached: stop playback.
    Stop,
}

/// What the "next track" control ('l', or Next over MPRIS) does for a queue
/// of `queue_len` songs. The control always moves on and stops at the end;
/// the repeat mode applies when a track ends by itself (`track_end_step`).
pub fn next_track_step(queue_len: usize, position: Option<usize>) -> (step: NextTrack)
    ensures
        queue_len == 0 ==> step == NextTrack::Nothing,
        queue_len > 0 ==> step == match position {
            Some(p) => if p + 1 < queue_len { NextTrack::Play((p + 1) as usize) } else { NextTrack::Stop },
            None => NextTrack::Stop,
        },
{
    if queue_len == 0 {
        return NextTrack::Nothing;
    }
    match position {
        Some(p) if p < queue_len - 1 => NextTrack::Play(p + 1),
        _ => NextTrack::Stop,
    }
}

/// What the "previous track" control does.
#[derive(Debug, Clone, Copy, PartialEq, Eq, Structural)]
pub enum PreviousTrack {
    /// The queue is empty: nothing happens.
    Nothing,
    /// Play the song at this queue position.
    Play(usize),
    /// Start the current track over.
    Restart,
}

/// What the "previous track" control does: within the first three seconds
/// of a track it starts that track over; later it goes back to the previous
/// song when there is one, and otherwise starts the track over.
/// `near_start` says whether less than three seconds have been played.
pub fn previous_track_step(queue_len: usize, position: Option<usize>, near_start: bool) -> (step: PreviousTrack)
    ensures
        queue_len == 0 ==> step == PreviousTrack::Nothing,
        queue_len > 0 ==> step == match position {
            Some(p) if !near_start && p > 0 => PreviousTrack::Play((p - 1) as usize),
            _ => PreviousTrack::Restart,
        },
{
    if queue_len == 0 {
        return PreviousTrack::Nothing;
    }
    if !near_start {
        if let Some(p) = position {
            if p > 0 {
                return PreviousTrack::Play(p - 1);
            }
        }
    }
    PreviousTrack::Restart
}

/// The field of the server page selected after moving up.
pub fn server_field_up(field: usize) -> (f: usize)
    ensures
        f == if field > 0 { field - 1 } else { field as int },
{
    if field > 0 { field - 1 } else { field }
}

/// The field of the server page selected after moving down (five fields).
pub fn server_field_down(field: usize) -> (f: usize)
    ensures
        f == if field < 4 { field + 1 } else { field as int },
{
    if field < 4 { field + 1 } else { field }
}

/// The field of the server page selected after Tab: the next one, wrapping
/// around after the fifth.
pub fn server_field_tab(field: usize) -> (f: usize)
    ensures
        f == (field + 1) % 5,
{
    if field < 4 { field + 1 } else if field == 4 { 0 } else { ((field % 5) + 1) % 5 }
}

/// Whether a field of the server page takes typed text (URL, user, password).
pub fn is_server_text_field(field: usize) -> (b: bool)
    ensures
        b == (field <= 2),
{
    field <= 2
}

/// The page a function key opens: F1 artists, F2 queue, F3 playlists,
/// F4 server, F5 settings; other keys open none.
pub fn page_for_function_key(n: u8) -> (page: Option<Page>)
    ensures
        page == crate::keys::function_key_page(n),
{
    match n {
        1 => Some(Page::Artists),
        2 => Some(Page::Queue),
        3 => Some(Page::Playlists),
        4 => Some(Page::Server),
        5 => Some(Page::Settings),
        _ => None,
    }
}

/// The field of the settings page selected after moving up (two fields).
pub fn settings_field_up(field: usize) -> (f: usize)
    ensures
        f == if field > 0 { field - 1 } else { field as int },
{
    if field > 0 { field - 1 } else { field }
}

/// The field of the settings page selected after moving down (two fields).
pub fn settings_field_down(field: usize) -> (f: usize)
    ensures
        f == if field < 1 { field + 1 } else { field as int },
{
    if field < 1 { field + 1 } else { field }
}

/// The selection after scrolling the mouse wheel up over a list whose
/// selection only moves when there is one: one row up, staying on the first.
pub fn scroll_selection_up(selected: Option<usize>) -> (sel: Option<usize>)
    ensures
        sel == match selected {
            Some(s) => if s > 0 { Some((s - 1) as usize) } else { Some(s) },
            None => None,
        },
{
    match selected {
        Some(s) => if s > 0 { Some(s - 1) } else { Some(s) },
        None => None,
    }
}

/// The selection a freshly loaded list of `count` items starts with: the
/// first item, or none when the list is empty.
pub fn selection_after_load(count: usize) -> (sel: Option<usize>)
    ensures
        sel == if count > 0 { Some(0usize) } else { None },
{
    if count > 0 { Some(0) } else { None }
}

/// Whether moving down the "All songs" list should fetch the next page: the
/// option is "All", the server has more, no fetch is running, and the
/// selection is within `lookahead` rows of the end.
pub fn should_load_more(
    option: &Option<SongOption>,
    has_more: bool,
    loading: bool,
    selected: Option<usize>,
    len: usize,
    lookahead: usize,
) -> (load: bool)
    ensures
        load == (*option == Some(SongOption::All) && has_more && !loading && (selected matches Some(
            i,
        ) && i + lookahead >= len)),
{
    let is_all = match option {
        Some(SongOption::All) => true,
        _ => false,
    };
    is_all && has_more && !loading && match selected {
        Some(i) => i >= len || lookahead >= len - i,
        None => false,
    }
}

/// When the player moved on to the preloaded song by itself (its playlist
/// position became 1), the queue position that follows: the next song, if
/// the queue has one.
pub fn gapless_advance(queue_position: Option<usize>, queue_len: usize, player_pos: Option<i64>) -> (next: Option<usize>)
    ensures
        next == match (player_pos, queue_position) {
            (Some(1), Some(p)) => if p + 1 < queue_len { Some((p + 1) as usize) } else { None },
            _ => None,
        },
{
    match (player_pos, queue_position) {
        (Some(1), Some(p)) => if queue_len > 0 && p < queue_len - 1 { Some(p + 1) } else { None },
        _ => None,
    }
}

/// The queue position whose song is preloaded for gapless playback after
/// the song at `current_pos`: the next one, if the queue has it.
pub fn preload_position(current_pos: usize, queue_len: usize) -> (next: Option<usize>)
    ensures
        next == if current_pos + 1 < queue_len { Some((current_pos + 1) as usize) } else { None },
{
    if queue_len > 0 && current_pos < queue_len - 1 { Some(current_pos + 1) } else { None }
}

/// The repeat mode that follows `mode`: Off, then All, then One, then Off again.
pub open spec fn spec_next_repeat(mode: RepeatMode) -> RepeatMode {
    match mode {
        RepeatMode::Off => RepeatMode::All,
        RepeatMode::All => RepeatMode::One,
        RepeatMode::One => RepeatMode::Off,
    }
}

/// The repeat mode after pressing 'r'.
pub fn next_repeat_mode(mode: RepeatMode) -> (next: RepeatMode)
    ensures
        next == spec_next_repeat(mode),
{
    match mode {
        RepeatMode::Off => RepeatMode::All,
        RepeatMode::All => RepeatMode::One,
        RepeatMode::One => RepeatMode::Off,
    }
}

/// Pressing 'r' three times comes back to the mode one started from, and
/// each press changes the mode.
pub proof fn lemma_repeat_cycle(mode: RepeatMode)
    ensures
        spec_next_repeat(spec_next_repeat(spec_next_repeat(mode))) == mode,
        spec_next_repeat(mode) != mode,
{
}

/// Five points louder, at most 100.
pub open spec fn spec_volume_up(volume: int) -> int {
    if volume + 5 > 100 { 100 } else { volume + 5 }
}

/// Five points softer, at least 0.
pub open spec fn spec_volume_down(volume: int) -> int {
    if volume >= 5 { volume - 5 } else { 0 }
}

/// The volume after '+'.
pub fn volume_up(volume: u8) -> (v: u8)
    ensures
        v == spec_volume_up(volume as int),
{
    if volume >= 95 { 100 } else { volume + 5 }
}

/// The volume after '-'.
pub fn volume_down(volume: u8) -> (v: u8)
    ensures
        v == spec_volume_down(volume as int),
{
    if volume >= 5 { volume - 5 } else { 0 }
}

/// The volume never leaves 0..=100, and '-' undoes '+' unless '+' hit the
/// ceiling ('+' undoes '-' unless '-' hit the floor).
pub proof fn lemma_volume_steps(volume: int)
    requires
        0 <= volume <= 100,
    ensures
        0 <= spec_volume_up(volume) <= 100,
        0 <= spec_volume_down(volume) <= 100,
        volume + 5 <= 100 ==> spec_volume_down(spec_volume_up(volume)) == volume,
        volume >= 5 ==> spec_volume_up(spec_volume_down(volume)) == volume,
{
}

/// What happens when a track ends, with the repeat mode: Repeat One plays the
/// same song again, Repeat All wraps from the last song to the first, and
/// with repeat off playback moves on or stops at the end.
pub fn track_end_step(queue_len: usize, position: Option<usize>, repeat: RepeatMode) -> (step: NextTrack)
    ensures
        queue_len == 0 ==> step == NextTrack::Nothing,
        queue_len > 0 ==> step == match (repeat, position) {
            (RepeatMode::One, Some(p)) if p < queue_len => NextTrack::Play(p),
            (RepeatMode::All, Some(p)) if p + 1 >= queue_len => NextTrack::Play(0),
            (_, Some(p)) => if p + 1 < queue_len { NextTrack::Play((p + 1) as usize) } else { NextTrack::Stop },
            (_, None) => NextTrack::Stop,
        },
{
    if queue_len == 0 {
        return NextTrack::Nothing;
    }
    match (repeat, position) {
        (RepeatMode::One, Some(p)) if p < queue_len => NextTrack::Play(p),
        (RepeatMode::All, Some(p)) if p >= queue_len - 1 => NextTrack::Play(0),
        _ => next_track_step(queue_len, position),
    }
}

} // verus!

verus! {

/// `s` with the items at `i` and `i + 1` exchanged.
pub open spec fn swap_adjacent(s: Seq<Child>, i: int) -> Seq<Child> {
    s.update(i, s[i + 1]).update(i + 1, s[i])
}

/// A position that follows its song when the songs at `i` and `j` are exchanged.
pub open spec fn swapped_position(position: Option<usize>, i: usize, j: usize) -> Option<usize> {
    match position {
        Some(p) => if p == i { Some(j) } else if p == j { Some(i) } else { Some(p) },
        None => None,
    }
}

/// What `remove_selected` does to the queue page.
pub open spec fn remove_selected_post(o: QueueState, n: QueueState, removed: Option<Child>) -> bool {
    &&& match o.selected {
                Some(idx) if idx < o.queue@.len() => {
                    &&& removed == Some(o.queue@[idx as int])
                    &&& n.queue@ == o.queue@.remove(idx as int)
                    &&& n.selected == if n.queue@.len() == 0 {
                        None
                    } else if idx >= n.queue@.len() {
                        Some((n.queue@.len() - 1) as usize)
                    } else {
                        Some(idx)
                    }
                    &&& n.queue_position == match o.queue_position {
                        Some(pos) => if idx < pos {
                            Some((pos - 1) as usize)
                        } else if idx == pos {
                            None
                        } else {
                            Some(pos)
                        },
                        None => None,
                    }
                },
                _ => removed is None && n.queue@ == o.queue@
                    && n.selected == o.selected
                    && n.queue_position == o.queue_position
    }
}

/// Removing a song other than the playing one keeps the same song playing,
/// and a song after the playing one leaves the playing position where it
/// was; removing the playing song clears the playing position.
pub proof fn lemma_remove_selected_keeps_playing(o: QueueState, n: QueueState, removed: Option<Child>)
    requires
        remove_selected_post(o, n, removed),
        o.selected matches Some(idx) && idx < o.queue@.len(),
    ensures
        o.queue_position != o.selected ==> crate::queue::song_at(n.queue@, n.queue_position) == crate::queue::song_at(
            o.queue@,
            o.queue_position,
        ),
        (o.queue_position matches Some(pos) && o.selected->0 > pos) ==> n.queue_position
            == o.queue_position,
        o.queue_position == o.selected ==> n.queue_position is None,
        n.queue@.len() + 1 == o.queue@.len(),
{
    let idx = o.selected->0;
    if let Some(pos) = o.queue_position {
        if pos < idx {
            assert(n.queue@[pos as int] == o.queue@[pos as int]);
        } else if idx < pos && pos < o.queue@.len() {
            assert(n.queue@[pos - 1] == o.queue@[pos as int]);
        }
    }
}

/// What `move_selected_down` does to the queue page.
pub open spec fn move_down_post(o: QueueState, n: QueueState) -> bool {
    &&& match o.selected {
                Some(idx) if idx + 1 < o.queue@.len() => {
                    &&& n.queue@ == swap_adjacent(o.queue@, idx as int)
                    &&& n.selected == Some((idx + 1) as usize)
                    &&& n.queue_position == swapped_position(
                        o.queue_position,
                        idx,
                        (idx + 1) as usize,
                    )
                },
                _ => n.queue@ == o.queue@ && n.selected == o.selected
                    && n.queue_position == o.queue_position
    }
}

/// What `move_selected_up` does to the queue page.
pub open spec fn move_up_post(o: QueueState, n: QueueState) -> bool {
    &&& match o.selected {
                Some(idx) if idx > 0 => {
                    &&& n.queue@ == swap_adjacent(o.queue@, idx - 1)
                    &&& n.selected == Some((idx - 1) as usize)
                    &&& n.queue_position == swapped_position(
                        o.queue_position,
                        (idx - 1) as usize,
                        idx,
                    )
                },
                _ => n.queue@ == o.queue@ && n.selected == o.selected
                    && n.queue_position == o.queue_position
    }
}

/// What `shuffle` does to the queue page.
pub open spec fn shuffle_post(o: QueueState, n: QueueState) -> bool {
    &&& n.queue@.to_multiset() == o.queue@.to_multiset()
    &&& n.queue@.len() == o.queue@.len()
    &&& n.selected == o.selected
    &&& match o.queue_position {
                Some(pos) => if pos < o.queue@.len() {
                    n.queue_position == Some(0usize) && n.queue@[0] == o.queue@[pos as int]
                } else {
                    n.queue@ == o.queue@ && n.queue_position == o.queue_position
                },
                None => n.queue_position is None
    }
}

/// What `clear_history` does to the queue page.
pub open spec fn clear_history_post(o: QueueState, n: QueueState, cleared: Option<usize>) -> bool {
    &&& match o.queue_position {
                Some(pos) if pos > 0 => {
                    &&& cleared == Some(pos)
                    &&& n.queue@ == o.queue@.skip(pos as int)
                    &&& n.queue_position == Some(0usize)
                    &&& n.selected == match o.selected {
                        Some(sel) => if sel < pos { Some(0usize) } else { Some((sel - pos) as usize) },
                        None => None,
                    }
                },
                _ => cleared is None && n.queue@ == o.queue@
                    && n.selected == o.selected
                    && n.queue_position == o.queue_position
    }
}

/// The queue as the queue page sees it: the songs, the playing position and
/// the selected row.
pub struct QueueState {
    pub queue: Vec<Child>,
    pub queue_position: Option<usize>,
    pub selected: Option<usize>,
}

proof fn lemma_swap_by_remove_insert(s: Seq<Child>, i: int)
    requires
        0 <= i,
        i + 1 < s.len(),
    ensures
        s.remove(i + 1).insert(i, s[i + 1]) == swap_adjacent(s, i),
{
    assert(s.remove(i + 1).insert(i, s[i + 1]) =~= swap_adjacent(s, i));
}

impl QueueState {
    /// Removes the selected song ('d'): the selection stays on the same row,
    /// or on the new last row, or clears when the queue empties; a song
    /// removed before the playing one shifts the position down, and removing
    /// the playing song clears the position.
    pub fn remove_selected(&mut self) -> (removed: Option<Child>)
        ensures
            remove_selected_post(*old(self), *final(self), removed),
    {
        if let Some(idx) = self.selected {
            if idx < self.queue.len() {
                let song = self.queue.remove(idx);
                if self.queue.is_empty() {
                    self.selected = None;
                } else if idx >= self.queue.len() {
                    self.selected = Some(self.queue.len() - 1);
                }
                if let Some(pos) = self.queue_position {
                    if idx < pos {
                        self.queue_position = Some(pos - 1);
                    } else if idx == pos {
                        self.queue_position = None;
                    }
                }
                return Some(song);
            }
        }
        None
    }

    /// Moves the selected song one row down ('J'), taking the selection and
    /// the playing position along.
    pub fn move_selected_down(&mut self)
        requires
            old(self).selected is Some ==> old(self).queue@.len() > 0,
        ensures
            move_down_post(*old(self), *final(self)),
    {
        if let Some(idx) = self.selected {
            if idx < self.queue.len() - 1 {
                proof {
                    lemma_swap_by_remove_insert(self.queue@, idx as int);
                }
                let song = self.queue.remove(idx + 1);
                self.queue.insert(idx, song);
                self.selected = Some(idx + 1);
                if let Some(pos) = self.queue_position {
                    if pos == idx {
                        self.queue_position = Some(idx + 1);
                    } else if pos == idx + 1 {
                        self.queue_position = Some(idx);
                    }
                }
            }
        }
    }

    /// Moves the selected song one row up ('K'), taking the selection and
    /// the playing position along.
    pub fn move_selected_up(&mut self)
        requires
            match old(self).selected {
                Some(i) => i > 0 ==> i < old(self).queue@.len(),
                None => true,
            },
        ensures
            move_up_post(*old(self), *final(self)),
    {
        if let Some(idx) = self.selected {
            if idx > 0 {
                proof {
                    lemma_swap_by_remove_insert(self.queue@, idx - 1);
                }
                let song = self.queue.remove(idx);
                self.queue.insert(idx - 1, song);
                self.selected = Some(idx - 1);
                if let Some(pos) = self.queue_position {
                    if pos == idx {
                        self.queue_position = Some(idx - 1);
                    } else if pos == idx - 1 {
                        self.queue_position = Some(idx);
                    }
                }
            }
        }
    }

    /// Shuffles the queue ('s'): with a playing song, that song moves to the
    /// front and the rest is shuffled behind it; without one, everything is
    /// shuffled. A playing position past the end leaves the queue alone.
    pub fn shuffle(&mut self)
        ensures
            shuffle_post(*old(self), *final(self)),
    {
        if let Some(pos) = self.queue_position {
            if pos < self.queue.len() {
                let ghost before = self.queue@;
                let current = self.queue.remove(pos);
                shuffle_songs(&mut self.queue);
                self.queue.insert(0, current);
                assert(self.queue@.to_multiset() =~= before.to_multiset());
                self.queue_position = Some(0);
            }
        } else {
            shuffle_songs(&mut self.queue);
        }
    }

    /// Drops the songs played before the current one ('c'). Returns how many
    /// were dropped, or none when there is no history.
    pub fn clear_history(&mut self) -> (cleared: Option<usize>)
        requires
            old(self).queue_position matches Some(p) ==> p <= old(self).queue@.len(),
        ensures
            clear_history_post(*old(self), *final(self), cleared),
    {
        if let Some(pos) = self.queue_position {
            if pos > 0 {
                let ghost before = self.queue@;
                let mut k: usize = 0;
                while k < pos
                    invariant
                        k <= pos,
                        pos <= before.len(),
                        self.queue@ == before.skip(k as int),
                        before == old(self).queue@,
                        self.selected == old(self).selected,
                        self.queue_position == old(self).queue_position,
                    decreases pos - k,
                {
                    self.queue.remove(0);
                    assert(before.skip(k as int).remove(0) =~= before.skip(k + 1));
                    k = k + 1;
                }
                self.queue_position = Some(0);
                if let Some(sel) = self.selected {
                    if sel < pos {
                        self.selected = Some(0);
                    } else {
                        self.selected = Some(sel - pos);
                    }
                }
                return Some(pos);
            }
        }
        None
    }


    /// Appends songs to the queue ('e').
    pub fn add(&mut self, songs: Vec<Child>)
        ensures
            final(self).queue@ == old(self).queue@ + songs@,
            final(self).queue_position == old(self).queue_position,
            final(self).selected == old(self).selected,
    {
        let mut songs = songs;
        self.queue.append(&mut songs);
    }

    /// Inserts songs right after the playing one, or at the front when
    /// nothing plays ('n').
    pub fn add_next(&mut self, songs: Vec<Child>)
        requires
            crate::queue::insert_point(old(self).queue_position) <= old(self).queue@.len(),
        ensures
            final(self).queue@ == old(self).queue@.take(crate::queue::insert_point(old(self).queue_position))
                + songs@ + old(self).queue@.skip(crate::queue::insert_point(old(self).queue_position)),
            final(self).queue_position == old(self).queue_position,
            final(self).selected == old(self).selected,
    {
        let insert_pos: usize = match self.queue_position {
            Some(p) if p < self.queue.len() => p + 1,
            _ => 0,
        };
        let ghost old_songs = self.queue@;
        let ghost new_songs = songs@;
        let mut rest = songs;
        while rest.len() > 0
            invariant
                insert_pos == crate::queue::insert_point(self.queue_position),
                insert_pos <= old_songs.len(),
                self.queue_position == old(self).queue_position,
                self.selected == old(self).selected,
                old_songs == old(self).queue@,
                rest@ == new_songs.take(rest@.len() as int),
                rest@.len() <= new_songs.len(),
                self.queue@ == old_songs.take(insert_pos as int) + new_songs.skip(rest@.len() as int)
                    + old_songs.skip(insert_pos as int),
            decreases rest@.len(),
        {
            let ghost k = rest@.len();
            let song = rest.pop().unwrap();
            self.queue.insert(insert_pos, song);
            assert(new_songs.skip(k - 1) =~= seq![song] + new_songs.skip(k as int));
            assert(rest@ =~= new_songs.take(k - 1));
        }
        assert(new_songs.skip(0) =~= new_songs);
    }

    /// Replaces the queue with `songs` (playing a list from one of its songs).
    pub fn replace(&mut self, songs: Vec<Child>)
        ensures
            final(self).queue@ == songs@,
            final(self).queue_position == old(self).queue_position,
            final(self).selected == old(self).selected,
    {
        self.queue.clear();
        let mut songs = songs;
        self.queue.append(&mut songs);
    }


    /// Plays a list shuffled ('s' on a playlist): the queue becomes the
    /// songs in some order, to be played from the first.
    pub fn shuffle_play(&mut self, songs: Vec<Child>)
        ensures
            final(self).queue@.to_multiset() == songs@.to_multiset(),
            final(self).queue@.len() == songs@.len(),
            final(self).queue_position == old(self).queue_position,
            final(self).selected == old(self).selected,
    {
        let mut songs = songs;
        shuffle_songs(&mut songs);
        self.queue.clear();
        self.queue.append(&mut songs);
    }

    /// Stops playback: the queue empties and nothing plays.
    pub fn stop(&mut self)
        ensures
            final(self).queue@.len() == 0,
            final(self).queue_position is None,
            final(self).selected == old(self).selected,
    {
        self.queue.clear();
        self.queue_position = None;
    }

    /// The playing track ended: the position moves to the next song, or
    /// clears at the end of the queue. Returns whether playback stops.
    pub fn track_ended(&mut self) -> (stopped: bool)
        ensures
            final(self).queue@ == old(self).queue@,
            final(self).selected == old(self).selected,
            match old(self).queue_position {
                Some(pos) => if pos + 1 < old(self).queue@.len() {
                    !stopped && final(self).queue_position == Some((pos + 1) as usize)
                } else {
                    stopped && final(self).queue_position is None
                },
                None => !stopped && final(self).queue_position is None,
            },
    {
        if let Some(pos) = self.queue_position {
            let len = self.queue.len();
            if len > 0 && pos < len - 1 {
                self.queue_position = Some(pos + 1);
                false
            } else {
                self.queue_position = None;
                true
            }
        } else {
            false
        }
    }
}

/// Moving a song down and back up restores the queue and the position, and
/// the playing song stays the playing song through each move.
pub proof fn lemma_swap_round_trip(s: Seq<Child>, position: Option<usize>, i: usize)
    requires
        i + 1 < s.len(),
        s.len() <= usize::MAX,
    ensures
        swap_adjacent(swap_adjacent(s, i as int), i as int) == s,
        swapped_position(swapped_position(position, i, (i + 1) as usize), i, (i + 1) as usize) == position,
        crate::queue::song_at(swap_adjacent(s, i as int), swapped_position(position, i, (i + 1) as usize))
            == crate::queue::song_at(s, position),
{
    assert(swap_adjacent(swap_adjacent(s, i as int), i as int) =~= s);
}

/// Clearing the history keeps the playing song, now at the front.
pub proof fn lemma_clear_history_keeps_current(s: Seq<Child>, pos: usize)
    requires
        0 < pos < s.len(),
    ensures
        crate::queue::song_at(s.skip(pos as int), Some(0usize)) == crate::queue::song_at(s, Some(pos)),
{
}

} // verus!

verus! {

/// What the queue page asks the application to do after a key.
#[derive(Debug, Clone)]
pub enum QueueEffect {
    Nothing,
    /// Play the song at this queue position.
    Play(usize),
    /// Show this notice.
    Notify(String),
}

/// The notice after a song was removed from the queue.
pub open spec fn removed_notice(title: Seq<char>) -> Seq<char> {
    "Removed: "@ + title
}

/// The notice after the history was cleared, or was found empty.
pub open spec fn cleared_notice(cleared: Option<usize>) -> Seq<char> {
    match cleared {
        Some(n) => "Cleared "@ + crate::text::decimal(n as nat) + " played songs"@,
        None => "No history to clear"@,
    }
}

/// Handles a key on the queue page: Up/k and Down/j move the selection,
/// Enter plays the selected song, d removes it, J and K move it down and
/// up, s shuffles the queue and c clears the songs played before the
/// current one.
pub fn queue_key_step(q: &mut QueueState, key: KeyInput) -> (effect: QueueEffect)
    requires
        key.code == Key::Char('J') ==> (old(q).selected is Some ==> old(q).queue@.len() > 0),
        key.code == Key::Char('K') ==> match old(q).selected {
            Some(i) => i > 0 ==> i < old(q).queue@.len(),
            None => true,
        },
        key.code == Key::Char('c') ==> (old(q).queue_position matches Some(p) ==> p <= old(
            q,
        ).queue@.len()),
    ensures
        match key.code {
            Key::Up | Key::Char('k') => final(q).queue@ == old(q).queue@ && final(q).queue_position
                == old(q).queue_position && final(q).selected == spec_select_previous(
                old(q).selected,
                old(q).queue@.len(),
            ) && effect is Nothing,
            Key::Down | Key::Char('j') => final(q).queue@ == old(q).queue@ && final(q).queue_position
                == old(q).queue_position && final(q).selected == spec_select_next(
                old(q).selected,
                old(q).queue@.len(),
            ) && effect is Nothing,
            Key::Enter => final(q).queue@ == old(q).queue@ && final(q).queue_position
                == old(q).queue_position && final(q).selected == old(q).selected && match old(
                q,
            ).selected {
                Some(idx) if idx < old(q).queue@.len() => effect == QueueEffect::Play(idx),
                _ => effect is Nothing,
            },
            Key::Char('d') => remove_selected_post(
                *old(q),
                *final(q),
                match old(q).selected {
                    Some(idx) if idx < old(q).queue@.len() => Some(old(q).queue@[idx as int]),
                    _ => None,
                },
            ) && match old(q).selected {
                Some(idx) if idx < old(q).queue@.len() => (effect matches QueueEffect::Notify(t)
                    && t@ == removed_notice(old(q).queue@[idx as int].title@)),
                _ => effect is Nothing,
            },
            Key::Char('J') => move_down_post(*old(q), *final(q)) && effect is Nothing,
            Key::Char('K') => move_up_post(*old(q), *final(q)) && effect is Nothing,
            Key::Char('s') => shuffle_post(*old(q), *final(q)) && (effect matches QueueEffect::Notify(t)
                && t@ == "Queue shuffled"@),
            Key::Char('c') => {
                let cleared = match old(q).queue_position {
                    Some(p) if p > 0 => Some(p),
                    _ => None,
                };
                clear_history_post(*old(q), *final(q), cleared) && (effect matches QueueEffect::Notify(t)
                    && t@ == cleared_notice(cleared))
            },
            _ => final(q).queue@ == old(q).queue@ && final(q).queue_position == old(q).queue_position
                && final(q).selected == old(q).selected && effect is Nothing,
        },
{
    match key.code {
        Key::Up | Key::Char('k') => {
            q.selected = select_previous(q.selected, q.queue.len());
            QueueEffect::Nothing
        },
        Key::Down | Key::Char('j') => {
            q.selected = select_next(q.selected, q.queue.len());
            QueueEffect::Nothing
        },
        Key::Enter => match q.selected {
            Some(idx) if idx < q.queue.len() => QueueEffect::Play(idx),
            _ => QueueEffect::Nothing,
        },
        Key::Char('d') => match q.remove_selected() {
            Some(song) => QueueEffect::Notify(crate::text::concat("Removed: ", song.title.as_str())),
            None => QueueEffect::Nothing,
        },
        Key::Char('J') => {
            q.move_selected_down();
            QueueEffect::Nothing
        },
        Key::Char('K') => {
            q.move_selected_up();
            QueueEffect::Nothing
        },
        Key::Char('s') => {
            q.shuffle();
            QueueEffect::Notify(String::from_str("Queue shuffled"))
        },
        Key::Char('c') => {
            let cleared = q.clear_history();
            let notice = match cleared {
                Some(n) => {
                    let mut t = String::from_str("Cleared ");
                    crate::text::push_decimal(&mut t, n as u64);
                    t.append(" played songs");
                    t
                },
                None => String::from_str("No history to clear"),
            };
            QueueEffect::Notify(notice)
        },
        _ => QueueEffect::Nothing,
    }
}

/// The artist selection after the artists were loaded in the background:
/// the first artist when artists came and none was selected, otherwise the
/// selection as it was.
pub fn selection_after_artists_loaded(selected: Option<usize>, count: usize) -> (sel: Option<usize>)
    ensures
        sel == if count > 0 && selected is None { Some(0usize) } else { selected },
{
    if count > 0 && selected.is_none() { Some(0) } else { selected }
}

/// The artist selection after the artists were loaded at start or on
/// refresh: the first artist when artists came, otherwise as it was.
pub fn selection_after_initial_load(selected: Option<usize>, count: usize) -> (sel: Option<usize>)
    ensures
        sel == if count > 0 { Some(0usize) } else { selected },
{
    if count > 0 { Some(0) } else { selected }
}

/// Whether the audio server's sample rate must be switched for a track at
/// `rate`: only when it runs at another rate (or its rate is unknown).
pub fn should_switch_rate(current: Option<u32>, rate: u32) -> (switch: bool)
    ensures
        switch == (current != Some(rate)),
{
    match current {
        Some(c) => c != rate,
        None => true,
    }
}

} // verus!

verus! {

/// When the player moved on to the preloaded song by itself: the new queue
/// position and a copy of its song, which becomes the song now playing.
pub fn gapless_now_playing(q: &QueueState, player_pos: Option<i64>) -> (next: Option<(usize, Child)>)
    ensures
        match (player_pos, q.queue_position) {
            (Some(1), Some(p)) if p + 1 < q.queue@.len() => next == Some(
                ((p + 1) as usize, q.queue@[p + 1]),
            ),
            _ => next is None,
        },
{
    match gapless_advance(q.queue_position, q.queue.len(), player_pos) {
        Some(n) => Some((n, q.queue[n].duplicate())),
        None => None,
    }
}

/// Whether the queue should be extended with the next page of "All songs"
/// while it plays: the queue was filled from that list, the server has more,
/// no fetch runs, and playback is within `lookahead` songs of the end.
pub fn should_extend_queue(
    from_all_songs: bool,
    has_more: bool,
    loading: bool,
    queue_position: Option<usize>,
    queue_len: usize,
    lookahead: usize,
) -> (extend: bool)
    ensures
        extend == (from_all_songs && has_more && !loading && (queue_position matches Some(p) && p
            + lookahead >= queue_len)),
{
    from_all_songs && has_more && !loading && match queue_position {
        Some(p) => p >= queue_len || lookahead >= queue_len - p,
        None => false,
    }
}

} // verus!
