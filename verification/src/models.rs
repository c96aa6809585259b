//! Plain data types shared by the library: songs, pages, playback states and
//! the actions passed between the parts of the application.

use vstd::prelude::*;
use vstd::string::*;

verus! {

/// A song (or directory entry) as returned by the Subsonic API.
#[derive(Debug, Clone)]
pub struct Child {
    pub id: String,
    pub title: String,
    pub parent: Option<String>,
    pub is_dir: bool,
    pub album: Option<String>,
    pub artist: Option<String>,
    pub track: Option<i32>,
    pub year: Option<i32>,
    pub genre: Option<String>,
    pub cover_art: Option<String>,
    pub size: Option<u64>,
    pub content_type: Option<String>,
    pub suffix: Option<String>,
    pub duration: Option<u32>,
    pub bit_rate: Option<u32>,
    pub path: Option<String>,
    pub disc_number: Option<i32>,
    /// When the user starred the song, if they did.
    pub starred: Option<String>,
}

fn copy_opt(s: &Option<String>) -> (c: Option<String>)
    ensures
        c == *s,
{
    match s {
        Some(t) => Some(t.clone()),
        None => None,
    }
}

impl Child {
    /// An equal copy of the song.
    pub fn duplicate(&self) -> (c: Child)
        ensures
            c == *self,
    {
        Child {
            id: self.id.clone(),
            title: self.title.clone(),
            parent: copy_opt(&self.parent),
            is_dir: self.is_dir,
            album: copy_opt(&self.album),
            artist: copy_opt(&self.artist),
            track: self.track,
            year: self.year,
            genre: copy_opt(&self.genre),
            cover_art: copy_opt(&self.cover_art),
            size: self.size,
            content_type: copy_opt(&self.content_type),
            suffix: copy_opt(&self.suffix),
            duration: self.duration,
            bit_rate: self.bit_rate,
            path: copy_opt(&self.path),
            disc_number: self.disc_number,
            starred: copy_opt(&self.starred),
        }
    }
    /// Stars an unstarred song and unstars a starred one ('f'). Returns
    /// whether the song was starred before.
    pub fn toggle_starred(&mut self) -> (was_starred: bool)
        ensures
            was_starred == old(self).starred is Some,
            was_starred ==> final(self).starred is None,
            !was_starred ==> (final(self).starred matches Some(s) && s@ == "starred"@),
            *final(self) == (Child { starred: final(self).starred, ..*old(self) }),
    {
        if self.starred.is_some() {
            self.starred = None;
            true
        } else {
            self.starred = Some(String::from_str("starred"));
            false
        }
    }
}

/// An equal copy of a list of songs.
pub fn duplicate_songs(songs: &Vec<Child>) -> (c: Vec<Child>)
    ensures
        c@ == songs@,
{
    let mut c: Vec<Child> = Vec::new();
    let mut i: usize = 0;
    while i < songs.len()
        invariant
            i <= songs@.len(),
            c@ == songs@.take(i as int),
        decreases songs@.len() - i,
    {
        c.push(songs[i].duplicate());
        assert(songs@.take(i + 1) =~= songs@.take(i as int).push(songs@[i as int]));
        i = i + 1;
    }
    assert(songs@.take(songs@.len() as int) =~= songs@);
    c
}

/// Tabs of the browse page.
#[derive(Clone, Copy, Debug, PartialEq, Eq, Structural)]
pub enum BrowseTab {
    Songs,
    Albums,
}

impl Default for BrowseTab {
    fn default() -> (tab: Self)
        ensures
            tab == BrowseTab::Songs,
    {
        BrowseTab::Songs
    }
}

/// The song lists offered on the songs page.
#[derive(Clone, Copy, Debug, PartialEq, Eq, Structural)]
pub enum SongOption {
    All,
    Starred,
    Random,
}

/// What a desktop notification about a track change shows.
pub struct TrackInfo {
    pub title: String,
    pub artist: String,
    pub album: String,
}

impl TrackInfo {
    /// The body of the notification: the artist, a dash and the album.
    pub fn notification_body(&self) -> (body: String)
        ensures
            body@ == self.artist@ + " — "@ + self.album@,
    {
        let mut body = crate::text::concat(self.artist.as_str(), " — ");
        body.append(self.album.as_str());
        body
    }
}

/// Playback state reported by the audio backend.
#[derive(Debug, Clone, Copy, PartialEq, Eq, Structural)]
pub enum PlaybackStateUpdate {
    Playing,
    Paused,
    Stopped,
}

/// Playback state kept by the application.
#[derive(Debug, Clone, Copy, PartialEq, Eq, Structural)]
pub enum PlaybackState {
    Playing,
    Paused,
    Stopped,
}

/// The state that a playback update from the backend puts the application in.
pub fn playback_state_from_update(update: PlaybackStateUpdate) -> (state: PlaybackState)
    ensures
        update == PlaybackStateUpdate::Playing ==> state == PlaybackState::Playing,
        update == PlaybackStateUpdate::Paused ==> state == PlaybackState::Paused,
        update == PlaybackStateUpdate::Stopped ==> state == PlaybackState::Stopped,
{
    match update {
        PlaybackStateUpdate::Playing => PlaybackState::Playing,
        PlaybackStateUpdate::Paused => PlaybackState::Paused,
        PlaybackStateUpdate::Stopped => PlaybackState::Stopped,
    }
}

/// Actions for the Subsonic client.
#[derive(Debug, Clone)]
pub enum SubsonicAction {
    /// Fetch all artists
    FetchArtists,
    /// Fetch albums for an artist
    FetchAlbums { artist_id: String },
    /// Fetch songs for an album
    FetchAlbum { album_id: String },
    /// Fetch all playlists
    FetchPlaylists,
    /// Fetch songs in a playlist
    FetchPlaylist { playlist_id: String },
    /// Test server connection
    TestConnection,
}

/// Queue manipulation actions.
#[derive(Debug, Clone)]
pub enum QueueAction {
    /// Append songs to queue
    Append(Vec<Child>),
    /// Insert songs after current position
    InsertNext(Vec<Child>),
    /// Clear the queue
    Clear,
    /// Remove song at index
    Remove(usize),
    /// Move song from one index to another
    Move { from: usize, to: usize },
    /// Shuffle the queue (keeping current song in place)
    Shuffle,
    /// Play song at queue index
    PlayIndex(usize),
}

/// The pages of the user interface.
#[derive(Debug, Clone, Copy, PartialEq, Eq, Structural)]
pub enum Page {
    Browse,
    Artists,
    Queue,
    Playlists,
    Radio,
    Server,
    Settings,
}

/// Repeat mode of the player.
#[derive(Debug, Clone, Copy, PartialEq, Eq, Structural)]
pub enum RepeatMode {
    Off,
    All,
    One,
}

/// A message shown in the footer in place of the key hints.
#[derive(Debug, Clone)]
pub struct Notification {
    pub message: String,
    pub is_error: bool,
}

/// The server settings the library needs: where the server is and who logs in.
#[derive(Debug, Clone)]
pub struct Config {
    pub base_url: String,
    pub username: String,
    pub password: String,
}

/// An internet radio station known to the server.
#[derive(Debug, Clone)]
pub struct RadioStation {
    pub id: String,
    pub name: String,
    pub stream_url: String,
    pub home_page_url: Option<String>,
    pub cover_art: Option<String>,
}

/// What is playing now, as far as the MPRIS properties need it.
#[derive(Debug, Clone)]
pub struct NowPlaying {
    pub state: PlaybackState,
    pub radio_station: Option<RadioStation>,
    pub radio_title: Option<String>,
    pub radio_artist: Option<String>,
}

} // verus!
