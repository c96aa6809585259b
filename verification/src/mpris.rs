//! The logic behind the MPRIS2 D-Bus interface: object-path segments, the
//! player's capability flags, track metadata and the decision which changed
//! properties to announce.

use vstd::prelude::*;
use vstd::string::*;

use crate::models::{Child, Config, NowPlaying, PlaybackState, RepeatMode};
use crate::queue::{has_next, has_previous, PlayQueue};
use crate::rest::{opt_view, rest_url, spec_rest_url, AuthParams};

verus! {

/// Characters that may stand in a D-Bus object-path segment.
pub open spec fn is_path_char(c: char) -> bool {
    ||| 'a' <= c <= 'z'
    ||| 'A' <= c <= 'Z'
    ||| '0' <= c <= '9'
    ||| c == '_'
}

/// A character as it appears in an object-path segment: itself when allowed,
/// `_` otherwise.
pub open spec fn path_char(c: char) -> char {
    if is_path_char(c) { c } else { '_' }
}

/// The object-path segment made of `value`.
pub open spec fn spec_path_segment(value: Seq<char>) -> Seq<char> {
    value.map_values(|c: char| path_char(c))
}

/// Replaces every character that is not an ASCII letter, digit or `_` by `_`,
/// so that `value` can stand in a D-Bus object path.
pub fn mpris_path_segment(value: &str) -> (segment: String)
    ensures
        segment@ == spec_path_segment(value@),
{
    let mut segment = String::new();
    let ghost chars = value@;
    for ch in it: value.chars()
        invariant
            it.seq() == chars,
            chars == value@,
            segment@ == spec_path_segment(chars.take(it.index() as int)),
    {
        let out = if ('a' <= ch && ch <= 'z') || ('A' <= ch && ch <= 'Z') || ('0' <= ch && ch <= '9')
            || ch == '_' {
            ch
        } else {
            '_'
        };
        crate::text::push_char(&mut segment, out);
        assert(chars.take(it.index() + 1) =~= chars.take(it.index() as int).push(ch));
        assert(spec_path_segment(chars.take(it.index() + 1)) =~= spec_path_segment(
            chars.take(it.index() as int),
        ).push(path_char(ch)));
    }
    assert(chars.take(chars.len() as int) =~= chars);
    segment
}

/// A path segment is made only of allowed characters, and making a segment of
/// a segment changes nothing.
pub proof fn lemma_path_segment_idempotent(value: Seq<char>)
    ensures
        forall|i: int| 0 <= i < value.len() ==> is_path_char(#[trigger] spec_path_segment(value)[i]),
        spec_path_segment(spec_path_segment(value)) == spec_path_segment(value),
        spec_path_segment(value).len() == value.len(),
{
    assert(spec_path_segment(spec_path_segment(value)) =~= spec_path_segment(value));
}

/// Whether the player can go to a next track: a song follows the current one.
pub fn can_go_next(queue_position: Option<usize>, queue_len: usize) -> (b: bool)
    ensures
        b == (queue_position matches Some(p) && p + 1 < queue_len),
{
    match queue_position {
        Some(p) => queue_len > 0 && p < queue_len - 1,
        None => false,
    }
}

/// Whether the player can go to a previous track: the current one is not the first.
pub fn can_go_previous(queue_position: Option<usize>) -> (b: bool)
    ensures
        b == (queue_position matches Some(p) && p > 0),
{
    match queue_position {
        Some(p) => p > 0,
        None => false,
    }
}

/// Whether the player can play: the queue holds songs or a radio station is tuned.
pub fn can_play(queue_len: usize, radio_active: bool) -> (b: bool)
    ensures
        b == (queue_len > 0 || radio_active),
{
    queue_len != 0 || radio_active
}

/// Whether the player can seek: only when no radio stream is playing.
pub fn can_seek(radio_active: bool) -> (b: bool)
    ensures
        b == !radio_active,
{
    !radio_active
}

/// The number by which a playback state is remembered between announcements.
pub open spec fn spec_status_code(state: PlaybackState) -> u8 {
    match state {
        PlaybackState::Playing => 0,
        PlaybackState::Paused => 1,
        PlaybackState::Stopped => 2,
    }
}

/// The number by which a playback state is remembered between announcements.
pub fn status_code(state: PlaybackState) -> (code: u8)
    ensures
        code == spec_status_code(state),
{
    match state {
        PlaybackState::Playing => 0,
        PlaybackState::Paused => 1,
        PlaybackState::Stopped => 2,
    }
}

/// The MPRIS capability flags agree with what the play queue does: the player
/// can go next exactly when advancing the queue finds a next song, and can go
/// back exactly when going back finds a previous one.
pub proof fn lemma_flags_match_queue(queue: PlayQueue)
    requires
        queue.wf(),
    ensures
        (queue@.1 matches Some(p) && p + 1 < queue@.0.len()) == has_next(queue@.0, queue@.1),
        (queue@.1 matches Some(p) && p > 0) == has_previous(queue@.1),
{
}

/// The text that identifies what is playing, so that metadata is announced
/// again only when the track (or the radio stream title) changes.
pub open spec fn spec_metadata_key(current_song: Option<Child>, now_playing: NowPlaying) -> Option<Seq<char>> {
    match current_song {
        Some(song) => Some("song:"@ + song.id@),
        None => match now_playing.radio_station {
            Some(station) => Some(
                "radio:"@ + station.id@ + ":"@ + opt_or_empty(now_playing.radio_title) + ":"@
                    + opt_or_empty(now_playing.radio_artist),
            ),
            None => None,
        },
    }
}

/// The characters of an optional string, or nothing.
pub open spec fn opt_or_empty(s: Option<String>) -> Seq<char> {
    match s {
        Some(t) => t@,
        None => Seq::empty(),
    }
}

fn append_opt(out: &mut String, s: &Option<String>)
    ensures
        final(out)@ == old(out)@ + opt_or_empty(*s),
{
    match s {
        Some(t) => out.append(t.as_str()),
        None => {},
    }
}

/// The text that identifies what is playing: `song:<id>` for a song,
/// `radio:<station>:<title>:<artist>` for a radio stream, none otherwise.
pub fn metadata_key(current_song: Option<&Child>, now_playing: &NowPlaying) -> (key: Option<String>)
    ensures
        opt_view(key) == spec_metadata_key(
            match current_song {
                Some(c) => Some(*c),
                None => None,
            },
            *now_playing,
        ),
{
    match current_song {
        Some(song) => {
            let mut key = String::from_str("song:");
            key.append(song.id.as_str());
            Some(key)
        },
        None => match &now_playing.radio_station {
            Some(station) => {
                let mut key = String::from_str("radio:");
                key.append(station.id.as_str());
                key.append(":");
                append_opt(&mut key, &now_playing.radio_title);
                key.append(":");
                append_opt(&mut key, &now_playing.radio_artist);
                Some(key)
            },
            None => None,
        },
    }
}

/// The values last announced over MPRIS.
#[derive(Debug, Clone)]
pub struct LastEmitted {
    pub status_code: u8,
    pub can_go_next: bool,
    pub can_go_previous: bool,
    pub can_play: bool,
    pub can_seek: bool,
    pub metadata_key: Option<String>,
}

/// Whether two snapshots announce the same player flags.
pub open spec fn same_flags(a: LastEmitted, b: LastEmitted) -> bool {
    &&& a.status_code == b.status_code
    &&& a.can_go_next == b.can_go_next
    &&& a.can_go_previous == b.can_go_previous
    &&& a.can_play == b.can_play
    &&& a.can_seek == b.can_seek
}

/// Whether two snapshots identify the same track.
pub open spec fn same_track(a: LastEmitted, b: LastEmitted) -> bool {
    opt_view(a.metadata_key) == opt_view(b.metadata_key)
}

/// Which properties to announce.
#[derive(Debug, Clone, Copy, PartialEq, Eq, Structural)]
pub struct Announcement {
    /// Announce the playback status and the capability flags.
    pub flags: bool,
    /// Announce the track metadata.
    pub metadata: bool,
}

/// What to announce when `current` is observed after `last` was announced:
/// everything the first time; afterwards the flags when one of them changed,
/// and the metadata when the track changed and something is playing.
pub open spec fn spec_announcement(last: Option<LastEmitted>, current: LastEmitted) -> Announcement {
    match last {
        Some(prev) => Announcement {
            flags: !same_flags(prev, current),
            metadata: !same_track(prev, current) && current.metadata_key is Some,
        },
        None => Announcement { flags: true, metadata: current.metadata_key is Some },
    }
}

fn same_key(a: &Option<String>, b: &Option<String>) -> (same: bool)
    ensures
        same == (opt_view(*a) == opt_view(*b)),
{
    match (a, b) {
        (Some(x), Some(y)) => *x == *y,
        (None, None) => true,
        _ => false,
    }
}

/// Remembers what was last announced, so that unchanged properties are not
/// announced again on every tick of the player.
pub struct EmissionTracker {
    last: Option<LastEmitted>,
}

impl View for EmissionTracker {
    type V = Option<LastEmitted>;

    closed spec fn view(&self) -> Option<LastEmitted> {
        self.last
    }
}

impl EmissionTracker {
    /// A tracker that has announced nothing yet.
    pub fn new() -> (t: Self)
        ensures
            t@ is None,
    {
        EmissionTracker { last: None }
    }

    /// Records `current` as announced and says which of its properties changed.
    pub fn record(&mut self, current: LastEmitted) -> (a: Announcement)
        ensures
            a == spec_announcement(old(self)@, current),
            final(self)@ == Some(current),
    {
        let has_key = current.metadata_key.is_some();
        let a = match &self.last {
            Some(prev) => Announcement {
                flags: !(prev.status_code == current.status_code
                    && prev.can_go_next == current.can_go_next
                    && prev.can_go_previous == current.can_go_previous
                    && prev.can_play == current.can_play
                    && prev.can_seek == current.can_seek),
                metadata: !same_key(&prev.metadata_key, &current.metadata_key) && has_key,
            },
            None => Announcement { flags: true, metadata: has_key },
        };
        self.last = Some(current);
        a
    }
}

/// Announcing a snapshot a second time announces nothing.
pub proof fn lemma_repeat_announces_nothing(current: LastEmitted)
    ensures
        spec_announcement(Some(current), current) == (Announcement { flags: false, metadata: false }),
{
}

/// The snapshot of what MPRIS announces for the given player state.
pub open spec fn spec_snapshot(
    state: PlaybackState,
    queue_position: Option<usize>,
    queue_len: usize,
    radio_active: bool,
    key: Option<String>,
    snap: LastEmitted,
) -> bool {
    &&& snap.status_code == spec_status_code(state)
    &&& snap.can_go_next == (queue_position matches Some(p) && p + 1 < queue_len)
    &&& snap.can_go_previous == (queue_position matches Some(p) && p > 0)
    &&& snap.can_play == (queue_len > 0 || radio_active)
    &&& snap.can_seek == !radio_active
    &&& snap.metadata_key == key
}

/// Takes the snapshot of what MPRIS announces for the given player state.
pub fn snapshot(
    state: PlaybackState,
    queue_position: Option<usize>,
    queue_len: usize,
    radio_active: bool,
    metadata_key: Option<String>,
) -> (snap: LastEmitted)
    ensures
        spec_snapshot(state, queue_position, queue_len, radio_active, metadata_key, snap),
{
    LastEmitted {
        status_code: status_code(state),
        can_go_next: can_go_next(queue_position, queue_len),
        can_go_previous: can_go_previous(queue_position),
        can_play: can_play(queue_len, radio_active),
        can_seek: can_seek(radio_active),
        metadata_key,
    }
}

/// Where the cover art `cover_art_id` is served: none when the server address
/// or the id is empty.
pub open spec fn spec_cover_art_url(config: Config, cover_art_id: Seq<char>, auth: AuthParams) -> Option<Seq<char>> {
    if config.base_url@.len() == 0 || cover_art_id.len() == 0 {
        None
    } else {
        spec_rest_url(config.base_url@, "getCoverArt"@, cover_art_id, config.username@, auth)
    }
}

/// Build a cover art URL from config and cover art ID, authenticated with `auth`.
pub fn build_cover_art_url(config: &Config, cover_art_id: &str, auth: &AuthParams) -> (url: Option<String>)
    ensures
        opt_view(url) == spec_cover_art_url(*config, cover_art_id@, *auth),
{
    if config.base_url.as_str().is_empty() || cover_art_id.is_empty() {
        return None;
    }
    rest_url(config.base_url.as_str(), "getCoverArt", cover_art_id, config.username.as_str(), auth)
}

/// Track metadata in the shape MPRIS announces it.
#[derive(Debug, Clone)]
pub struct TrackMetadata {
    /// Object path that identifies the track.
    pub trackid: Option<String>,
    pub title: Option<String>,
    pub artist: Option<Vec<String>>,
    pub album: Option<String>,
    /// Length in microseconds.
    pub length_micros: Option<i64>,
    pub track_number: Option<i32>,
    pub disc_number: Option<i32>,
    pub art_url: Option<String>,
}

/// Track metadata as characters and numbers.
pub struct MetadataView {
    pub trackid: Option<Seq<char>>,
    pub title: Option<Seq<char>>,
    pub artist: Option<Seq<Seq<char>>>,
    pub album: Option<Seq<char>>,
    pub length_micros: Option<int>,
    pub track_number: Option<i32>,
    pub disc_number: Option<i32>,
    pub art_url: Option<Seq<char>>,
}

/// The characters of each string of an optional list.
pub open spec fn opt_list_view(v: Option<Vec<String>>) -> Option<Seq<Seq<char>>> {
    match v {
        Some(list) => Some(list@.map_values(|s: String| s@)),
        None => None,
    }
}

impl View for TrackMetadata {
    type V = MetadataView;

    open spec fn view(&self) -> MetadataView {
        MetadataView {
            trackid: opt_view(self.trackid),
            title: opt_view(self.title),
            artist: opt_list_view(self.artist),
            album: opt_view(self.album),
            length_micros: match self.length_micros {
                Some(l) => Some(l as int),
                None => None,
            },
            track_number: self.track_number,
            disc_number: self.disc_number,
            art_url: opt_view(self.art_url),
        }
    }
}

/// Metadata with no field set.
pub open spec fn empty_metadata() -> MetadataView {
    MetadataView {
        trackid: None,
        title: None,
        artist: None,
        album: None,
        length_micros: None,
        track_number: None,
        disc_number: None,
        art_url: None,
    }
}

/// The cover art URL of an optional cover art id.
pub open spec fn spec_art_url(config: Config, cover_art: Option<String>, auth: AuthParams) -> Option<Seq<char>> {
    match cover_art {
        Some(id) => spec_cover_art_url(config, id@, auth),
        None => None,
    }
}

/// The metadata of a song.
pub open spec fn spec_song_metadata(song: Child, config: Config, auth: AuthParams) -> MetadataView {
    MetadataView {
        trackid: Some("/org/mpris/MediaPlayer2/Track/"@ + song.id@),
        title: Some(song.title@),
        artist: match song.artist {
            Some(a) => Some(seq![a@]),
            None => None,
        },
        album: opt_view(song.album),
        length_micros: match song.duration {
            Some(d) => Some(d * 1_000_000),
            None => None,
        },
        track_number: song.track,
        disc_number: song.disc_number,
        art_url: spec_art_url(config, song.cover_art, auth),
    }
}

/// The characters of an optional string, or of `fallback` when it is none.
pub open spec fn or_else(s: Option<String>, fallback: Seq<char>) -> Seq<char> {
    match s {
        Some(t) => t@,
        None => fallback,
    }
}

/// The metadata of what a radio station plays: the stream's title and artist
/// where the stream names them, the station's name and "Internet Radio"
/// otherwise, and the station's home page (or name) as the album.
pub open spec fn spec_radio_metadata(now_playing: NowPlaying, config: Config, auth: AuthParams) -> MetadataView {
    match now_playing.radio_station {
        Some(station) => MetadataView {
            trackid: Some("/org/mpris/MediaPlayer2/Radio/"@ + spec_path_segment(station.id@)),
            title: Some(or_else(now_playing.radio_title, station.name@)),
            artist: Some(seq![or_else(now_playing.radio_artist, "Internet Radio"@)]),
            album: Some(or_else(station.home_page_url, station.name@)),
            length_micros: None,
            track_number: None,
            disc_number: None,
            art_url: spec_art_url(config, station.cover_art, auth),
        },
        None => empty_metadata(),
    }
}

/// The metadata announced for the current song, or else for the radio stream.
pub open spec fn spec_metadata(
    now_playing: NowPlaying,
    current_song: Option<Child>,
    config: Config,
    auth: AuthParams,
) -> MetadataView {
    match current_song {
        Some(song) => spec_song_metadata(song, config, auth),
        None => spec_radio_metadata(now_playing, config, auth),
    }
}

/// A radio station with cover art announces that cover art, at the same URL
/// a song with the same cover art id announces; without cover art nothing
/// is announced.
pub proof fn lemma_radio_announces_cover_art(
    now_playing: NowPlaying,
    config: Config,
    auth: AuthParams,
    song: Child,
)
    requires
        now_playing.radio_station is Some,
        opt_view(song.cover_art) == opt_view(now_playing.radio_station->0.cover_art),
    ensures
        now_playing.radio_station->0.cover_art matches Some(id) ==> spec_metadata(
            now_playing,
            None,
            config,
            auth,
        ).art_url == spec_cover_art_url(config, id@, auth),
        spec_metadata(now_playing, None, config, auth).art_url == spec_metadata(
            now_playing,
            Some(song),
            config,
            auth,
        ).art_url,
        now_playing.radio_station->0.cover_art is None ==> spec_metadata(
            now_playing,
            None,
            config,
            auth,
        ).art_url is None,
{
}

fn string_or(s: &Option<String>, fallback: &str) -> (r: String)
    ensures
        r@ == or_else(*s, fallback@),
{
    match s {
        Some(t) => t.clone(),
        None => String::from_str(fallback),
    }
}

fn clone_opt(s: &Option<String>) -> (r: Option<String>)
    ensures
        opt_view(r) == opt_view(*s),
{
    match s {
        Some(t) => Some(t.clone()),
        None => None,
    }
}

fn art_url(config: &Config, cover_art: &Option<String>, auth: &AuthParams) -> (url: Option<String>)
    ensures
        opt_view(url) == spec_art_url(*config, *cover_art, *auth),
{
    match cover_art {
        Some(id) => build_cover_art_url(config, id.as_str(), auth),
        None => None,
    }
}

/// Builds the metadata MPRIS announces: that of the current song, or else
/// that of the radio stream playing, or none.
pub fn build_metadata(
    now_playing: &NowPlaying,
    current_song: Option<Child>,
    config: &Config,
    auth: &AuthParams,
) -> (metadata: TrackMetadata)
    ensures
        metadata@ == spec_metadata(*now_playing, current_song, *config, *auth),
{
    match current_song {
        Some(song) => {
            let mut trackid = String::from_str("/org/mpris/MediaPlayer2/Track/");
            trackid.append(song.id.as_str());
            let art_url = art_url(config, &song.cover_art, auth);
            let artist = match song.artist {
                Some(a) => {
                    let mut v: Vec<String> = Vec::new();
                    v.push(a);
                    assert(v@.map_values(|s: String| s@) =~= seq![v@[0]@]);
                    Some(v)
                },
                None => None,
            };
            let length_micros = match song.duration {
                Some(d) => Some(d as i64 * 1_000_000),
                None => None,
            };
            TrackMetadata {
                trackid: Some(trackid),
                title: Some(song.title),
                artist,
                album: song.album,
                length_micros,
                track_number: song.track,
                disc_number: song.disc_number,
                art_url,
            }
        },
        None => match &now_playing.radio_station {
            Some(station) => {
                let mut trackid = String::from_str("/org/mpris/MediaPlayer2/Radio/");
                let segment = mpris_path_segment(station.id.as_str());
                trackid.append(segment.as_str());
                let title = string_or(&now_playing.radio_title, station.name.as_str());
                let artist = string_or(&now_playing.radio_artist, "Internet Radio");
                let mut artists: Vec<String> = Vec::new();
                artists.push(artist);
                assert(artists@.map_values(|s: String| s@) =~= seq![artists@[0]@]);
                let album = match &station.home_page_url {
                    Some(url) => url.clone(),
                    None => station.name.clone(),
                };
                TrackMetadata {
                    trackid: Some(trackid),
                    title: Some(title),
                    artist: Some(artists),
                    album: Some(album),
                    length_micros: None,
                    track_number: None,
                    disc_number: None,
                    art_url: art_url(config, &station.cover_art, auth),
                }
            },
            None => TrackMetadata {
                trackid: None,
                title: None,
                artist: None,
                album: None,
                length_micros: None,
                track_number: None,
                disc_number: None,
                art_url: None,
            },
        },
    }
}

/// The MPRIS loop status: no looping, the current track, or the whole playlist.
#[derive(Debug, Clone, Copy, PartialEq, Eq, Structural)]
pub enum LoopMode {
    NoLoop,
    Track,
    Playlist,
}

/// The loop status that a repeat mode announces.
pub open spec fn spec_loop_status(mode: RepeatMode) -> LoopMode {
    match mode {
        RepeatMode::Off => LoopMode::NoLoop,
        RepeatMode::One => LoopMode::Track,
        RepeatMode::All => LoopMode::Playlist,
    }
}

/// The repeat mode that an MPRIS client asks for with a loop status.
pub open spec fn spec_repeat_for_loop(status: LoopMode) -> RepeatMode {
    match status {
        LoopMode::NoLoop => RepeatMode::Off,
        LoopMode::Track => RepeatMode::One,
        LoopMode::Playlist => RepeatMode::All,
    }
}

/// The loop status that a repeat mode announces: Off none, One the track,
/// All the playlist.
pub fn loop_status(mode: RepeatMode) -> (status: LoopMode)
    ensures
        status == spec_loop_status(mode),
{
    match mode {
        RepeatMode::Off => LoopMode::NoLoop,
        RepeatMode::One => LoopMode::Track,
        RepeatMode::All => LoopMode::Playlist,
    }
}

/// The repeat mode set when an MPRIS client sets the loop status.
pub fn repeat_for_loop_status(status: LoopMode) -> (mode: RepeatMode)
    ensures
        mode == spec_repeat_for_loop(status),
{
    match status {
        LoopMode::NoLoop => RepeatMode::Off,
        LoopMode::Track => RepeatMode::One,
        LoopMode::Playlist => RepeatMode::All,
    }
}

/// Setting a loop status and reading it back gives the same status, and
/// announcing a repeat mode and setting it back gives the same mode.
pub proof fn lemma_loop_status_round_trip(mode: RepeatMode, status: LoopMode)
    ensures
        spec_repeat_for_loop(spec_loop_status(mode)) == mode,
        spec_loop_status(spec_repeat_for_loop(status)) == status,
{
}

} // verus!
