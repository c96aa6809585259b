//! The playlists page: the list of playlists on the left and the songs of the
//! loaded playlist on the right.

use vstd::prelude::*;
use vstd::string::*;

use crate::handlers::{select_next, select_previous, spec_select_next, spec_select_previous, QueueState};
use crate::keys::{Key, KeyInput};
use crate::models::{duplicate_songs, Child};
use crate::queue::{insert_point, shuffle_songs};
use crate::text::{concat, decimal, push_decimal};

verus! {

broadcast use vstd::seq_lib::group_to_multiset_ensures;

/// A playlist of the server: its id and name.
#[derive(Debug, Clone)]
pub struct PlaylistEntry {
    pub id: String,
    pub name: String,
}

/// The state of the playlists page.
pub struct PlaylistsPage {
    /// 0: the playlists have the focus; 1: the songs have it.
    pub focus: usize,
    pub playlists: Vec<PlaylistEntry>,
    pub selected_playlist: Option<usize>,
    pub songs: Vec<Child>,
    pub selected_song: Option<usize>,
}

/// What the playlists page asks the application to do.
#[derive(Debug, Clone)]
pub enum PlaylistsEffect {
    Nothing,
    /// Fetch the songs of this playlist, then call `playlist_loaded`.
    LoadPlaylist { playlist_id: String, playlist_name: String },
    /// Start playing the queue at this position.
    Play(usize),
    /// Show this notice.
    Notify(String),
}

/// Handles a key on the playlists page. Tab, Left and Right move the focus
/// (Right only when songs are shown, selecting the first song if none is);
/// Up/k and Down/j move the selection of the focused list; Enter loads the
/// selected playlist or plays the playlist from the selected song; e adds
/// the selected song (or the whole playlist) to the queue; n puts the
/// selected song next; s plays the playlist shuffled.
pub fn playlists_key_step(page: &mut PlaylistsPage, queue: &mut QueueState, key: KeyInput) -> (effect: PlaylistsEffect)
    requires
        key.code == Key::Char('n') ==> insert_point(old(queue).queue_position) <= old(queue).queue@.len(),
    ensures
        final(queue).selected == old(queue).selected,
        final(page).playlists@ == old(page).playlists@,
        final(page).songs@ == old(page).songs@,
        match key.code {
            Key::Tab => final(page).focus == (old(page).focus + 1) % 2 && unchanged_lists(
                *old(page),
                *final(page),
            ) && same_queue(*old(queue), *final(queue)) && effect is Nothing,
            Key::Left => final(page).focus == 0 && unchanged_lists(*old(page), *final(page)) && same_queue(
                *old(queue),
                *final(queue),
            ) && effect is Nothing,
            Key::Right => same_queue(*old(queue), *final(queue)) && effect is Nothing
                && final(page).selected_playlist == old(page).selected_playlist && if old(page).songs@.len()
                > 0 {
                final(page).focus == 1 && final(page).selected_song == if old(page).selected_song is None {
                    Some(0usize)
                } else {
                    old(page).selected_song
                }
            } else {
                final(page).focus == old(page).focus && final(page).selected_song == old(page).selected_song
            },
            Key::Up | Key::Char('k') => same_queue(*old(queue), *final(queue)) && effect is Nothing
                && final(page).focus == old(page).focus && if old(page).focus == 0 {
                final(page).selected_playlist == spec_select_previous(
                    old(page).selected_playlist,
                    old(page).playlists@.len(),
                ) && final(page).selected_song == old(page).selected_song
            } else {
                final(page).selected_song == spec_select_previous(old(page).selected_song, old(page).songs@.len())
                    && final(page).selected_playlist == old(page).selected_playlist
            },
            Key::Down | Key::Char('j') => same_queue(*old(queue), *final(queue)) && effect is Nothing
                && final(page).focus == old(page).focus && if old(page).focus == 0 {
                final(page).selected_playlist == spec_select_next(
                    old(page).selected_playlist,
                    old(page).playlists@.len(),
                ) && final(page).selected_song == old(page).selected_song
            } else {
                final(page).selected_song == spec_select_next(old(page).selected_song, old(page).songs@.len())
                    && final(page).selected_playlist == old(page).selected_playlist
            },
            Key::Enter => unchanged_lists(*old(page), *final(page)) && final(page).focus == old(page).focus
                && if old(page).focus == 0 {
                same_queue(*old(queue), *final(queue)) && match old(page).selected_playlist {
                    Some(i) if i < old(page).playlists@.len() => (effect matches PlaylistsEffect::LoadPlaylist {
                        playlist_id,
                        playlist_name,
                    } && playlist_id@ == old(page).playlists@[i as int].id@ && playlist_name@ == old(
                        page,
                    ).playlists@[i as int].name@),
                    _ => effect is Nothing,
                }
            } else {
                match old(page).selected_song {
                    Some(i) if i < old(page).songs@.len() => final(queue).queue@ == old(page).songs@
                        && final(queue).queue_position == old(queue).queue_position && effect
                        == PlaylistsEffect::Play(i),
                    _ => same_queue(*old(queue), *final(queue)) && effect is Nothing,
                }
            },
            Key::Char('e') => unchanged_lists(*old(page), *final(page)) && final(page).focus == old(page).focus
                && final(queue).queue_position == old(queue).queue_position && if old(page).focus == 1 {
                match old(page).selected_song {
                    Some(i) if i < old(page).songs@.len() => final(queue).queue@ == old(queue).queue@.push(
                        old(page).songs@[i as int],
                    ) && (effect matches PlaylistsEffect::Notify(t) && t@ == "Added to queue: "@ + old(
                        page,
                    ).songs@[i as int].title@),
                    _ => final(queue).queue@ == old(queue).queue@ && effect is Nothing,
                }
            } else if old(page).songs@.len() > 0 {
                final(queue).queue@ == old(queue).queue@ + old(page).songs@ && (effect matches PlaylistsEffect::Notify(
                    t,
                ) && t@ == "Added "@ + decimal(old(page).songs@.len()) + " songs to queue"@)
            } else {
                final(queue).queue@ == old(queue).queue@ && effect is Nothing
            },
            Key::Char('n') => unchanged_lists(*old(page), *final(page)) && final(page).focus == old(page).focus
                && final(queue).queue_position == old(queue).queue_position && match old(page).selected_song {
                Some(i) if old(page).focus == 1 && i < old(page).songs@.len() => final(queue).queue@ == old(
                    queue,
                ).queue@.insert(insert_point(old(queue).queue_position), old(page).songs@[i as int]) && (effect matches PlaylistsEffect::Notify(t)
                    && t@ == "Playing next: "@ + old(page).songs@[i as int].title@),
                _ => final(queue).queue@ == old(queue).queue@ && effect is Nothing,
            },
            Key::Char('s') => unchanged_lists(*old(page), *final(page)) && final(page).focus == old(page).focus
                && if old(page).songs@.len() > 0 {
                final(queue).queue@.to_multiset() == old(page).songs@.to_multiset() && final(queue).queue@.len()
                    == old(page).songs@.len() && final(queue).queue_position == old(queue).queue_position
                    && effect == PlaylistsEffect::Play(0)
            } else {
                same_queue(*old(queue), *final(queue)) && effect is Nothing
            },
            _ => unchanged_lists(*old(page), *final(page)) && final(page).focus == old(page).focus && same_queue(
                *old(queue),
                *final(queue),
            ) && effect is Nothing,
        },
{
    match key.code {
        Key::Tab => {
            page.focus = if page.focus % 2 == 0 { 1 } else { 0 };
            PlaylistsEffect::Nothing
        },
        Key::Left => {
            page.focus = 0;
            PlaylistsEffect::Nothing
        },
        Key::Right => {
            if page.songs.len() > 0 {
                page.focus = 1;
                if page.selected_song.is_none() {
                    page.selected_song = Some(0);
                }
            }
            PlaylistsEffect::Nothing
        },
        Key::Up | Key::Char('k') => {
            if page.focus == 0 {
                page.selected_playlist = select_previous(page.selected_playlist, page.playlists.len());
            } else {
                page.selected_song = select_previous(page.selected_song, page.songs.len());
            }
            PlaylistsEffect::Nothing
        },
        Key::Down | Key::Char('j') => {
            if page.focus == 0 {
                page.selected_playlist = select_next(page.selected_playlist, page.playlists.len());
            } else {
                page.selected_song = select_next(page.selected_song, page.songs.len());
            }
            PlaylistsEffect::Nothing
        },
        Key::Enter => {
            if page.focus == 0 {
                match page.selected_playlist {
                    Some(i) => if i < page.playlists.len() {
                        PlaylistsEffect::LoadPlaylist {
                            playlist_id: page.playlists[i].id.clone(),
                            playlist_name: page.playlists[i].name.clone(),
                        }
                    } else {
                        PlaylistsEffect::Nothing
                    },
                    None => PlaylistsEffect::Nothing,
                }
            } else {
                match page.selected_song {
                    Some(i) => if i < page.songs.len() {
                        queue.replace(duplicate_songs(&page.songs));
                        PlaylistsEffect::Play(i)
                    } else {
                        PlaylistsEffect::Nothing
                    },
                    None => PlaylistsEffect::Nothing,
                }
            }
        },
        Key::Char('e') => {
            if page.focus == 1 {
                match page.selected_song {
                    Some(i) => if i < page.songs.len() {
                        queue.queue.push(page.songs[i].duplicate());
                        PlaylistsEffect::Notify(concat("Added to queue: ", page.songs[i].title.as_str()))
                    } else {
                        PlaylistsEffect::Nothing
                    },
                    None => PlaylistsEffect::Nothing,
                }
            } else if page.songs.len() > 0 {
                let n = page.songs.len();
                queue.add(duplicate_songs(&page.songs));
                let mut t = String::from_str("Added ");
                push_decimal(&mut t, n as u64);
                t.append(" songs to queue");
                PlaylistsEffect::Notify(t)
            } else {
                PlaylistsEffect::Nothing
            }
        },
        Key::Char('n') => {
            if page.focus == 1 {
                match page.selected_song {
                    Some(i) => if i < page.songs.len() {
                        let at: usize = match queue.queue_position {
                            Some(p) => if p < queue.queue.len() { p + 1 } else { 0 },
                            None => 0,
                        };
                        queue.queue.insert(at, page.songs[i].duplicate());
                        PlaylistsEffect::Notify(concat("Playing next: ", page.songs[i].title.as_str()))
                    } else {
                        PlaylistsEffect::Nothing
                    },
                    None => PlaylistsEffect::Nothing,
                }
            } else {
                PlaylistsEffect::Nothing
            }
        },
        Key::Char('s') => {
            if page.songs.len() > 0 {
                let mut songs = duplicate_songs(&page.songs);
                shuffle_songs(&mut songs);
                queue.replace(songs);
                PlaylistsEffect::Play(0)
            } else {
                PlaylistsEffect::Nothing
            }
        },
        _ => PlaylistsEffect::Nothing,
    }
}

/// The selections of both lists are unchanged.
pub open spec fn unchanged_lists(o: PlaylistsPage, n: PlaylistsPage) -> bool {
    n.selected_playlist == o.selected_playlist && n.selected_song == o.selected_song
}

/// The queue is unchanged.
pub open spec fn same_queue(o: QueueState, n: QueueState) -> bool {
    n.queue@ == o.queue@ && n.queue_position == o.queue_position
}

/// The songs of a playlist arrived: they fill the right pane, the first is
/// selected (none when the playlist is empty), the songs get the focus, and
/// the notice comes back.
pub fn playlist_loaded(page: &mut PlaylistsPage, songs: Vec<Child>, playlist_name: &str) -> (notice: String)
    ensures
        final(page).songs@ == songs@,
        final(page).selected_song == if songs@.len() > 0 { Some(0usize) } else { None },
        final(page).focus == 1,
        final(page).playlists@ == old(page).playlists@,
        final(page).selected_playlist == old(page).selected_playlist,
        notice@ == "Loaded playlist: "@ + playlist_name@ + " ("@ + decimal(songs@.len()) + " songs)"@,
{
    let n = songs.len();
    let mut notice = concat("Loaded playlist: ", playlist_name);
    notice.append(" (");
    push_decimal(&mut notice, n as u64);
    notice.append(" songs)");
    page.songs = songs;
    page.selected_song = if n > 0 { Some(0) } else { None };
    page.focus = 1;
    notice
}

} // verus!
