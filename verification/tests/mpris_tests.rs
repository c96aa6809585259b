use ferrosonic::models::{Child, Config, NowPlaying, PlaybackState, RadioStation};
use ferrosonic::mpris::{
    build_cover_art_url, build_metadata, can_go_next, can_go_previous, can_play, can_seek,
    metadata_key, mpris_path_segment, snapshot, status_code, Announcement, EmissionTracker,
};
use ferrosonic::rest::AuthParams;

fn song(id: &str) -> Child {
    Child {
        id: id.to_string(),
        title: "Title".to_string(),
        parent: None,
        is_dir: false,
        album: Some("Album".to_string()),
        artist: Some("Artist".to_string()),
        track: Some(3),
        year: None,
        genre: None,
        cover_art: Some("al-1".to_string()),
        size: None,
        content_type: None,
        suffix: None,
        duration: Some(200),
        bit_rate: None,
        path: None,
        disc_number: Some(1),
        starred: None,
    }
}

fn config() -> Config {
    Config {
        base_url: "https://music.example.com".to_string(),
        username: "bob".to_string(),
        password: "secret".to_string(),
    }
}

fn auth() -> AuthParams {
    AuthParams {
        salt: "s1".to_string(),
        token: "t1".to_string(),
    }
}

fn station() -> RadioStation {
    RadioStation {
        id: "st-7".to_string(),
        name: "Jazz FM".to_string(),
        stream_url: "http://radio.example.com/jazz".to_string(),
        home_page_url: None,
        cover_art: None,
    }
}

fn stopped() -> NowPlaying {
    NowPlaying {
        state: PlaybackState::Stopped,
        radio_station: None,
        radio_title: None,
        radio_artist: None,
    }
}

#[test]
fn path_segment_replaces_disallowed_characters() {
    assert_eq!(mpris_path_segment("abc_XYZ-09.é z"), "abc_XYZ_09___z");
    assert_eq!(mpris_path_segment(""), "");
    let once = mpris_path_segment("a-b/c");
    assert_eq!(mpris_path_segment(&once), once);
}

#[test]
fn capability_flags() {
    assert!(can_go_next(Some(0), 2));
    assert!(!can_go_next(Some(1), 2));
    assert!(!can_go_next(None, 2));
    assert!(!can_go_next(Some(0), 0));
    assert!(can_go_previous(Some(1)));
    assert!(!can_go_previous(Some(0)));
    assert!(!can_go_previous(None));
    assert!(can_play(0, true));
    assert!(can_play(1, false));
    assert!(!can_play(0, false));
    assert!(can_seek(false));
    assert!(!can_seek(true));
    assert_eq!(status_code(PlaybackState::Playing), 0);
    assert_eq!(status_code(PlaybackState::Paused), 1);
    assert_eq!(status_code(PlaybackState::Stopped), 2);
}

#[test]
fn metadata_keys() {
    let s = song("42");
    assert_eq!(metadata_key(Some(&s), &stopped()), Some("song:42".to_string()));
    assert_eq!(metadata_key(None, &stopped()), None);
    let radio = NowPlaying {
        state: PlaybackState::Playing,
        radio_station: Some(station()),
        radio_title: Some("Tune".to_string()),
        radio_artist: None,
    };
    assert_eq!(metadata_key(None, &radio), Some("radio:st-7:Tune:".to_string()));
}

#[test]
fn announcements_only_on_change() {
    let mut tracker = EmissionTracker::new();
    let first = snapshot(PlaybackState::Playing, Some(0), 2, false, Some("song:1".to_string()));
    assert_eq!(tracker.record(first.clone()), Announcement { flags: true, metadata: true });
    assert_eq!(tracker.record(first.clone()), Announcement { flags: false, metadata: false });
    let paused = snapshot(PlaybackState::Paused, Some(0), 2, false, Some("song:1".to_string()));
    assert_eq!(tracker.record(paused), Announcement { flags: true, metadata: false });
    let next = snapshot(PlaybackState::Paused, Some(0), 2, false, Some("song:2".to_string()));
    assert_eq!(tracker.record(next), Announcement { flags: false, metadata: true });
    let nothing = snapshot(PlaybackState::Stopped, None, 0, false, None);
    assert_eq!(tracker.record(nothing), Announcement { flags: true, metadata: false });
}

#[test]
fn cover_art_url() {
    assert_eq!(
        build_cover_art_url(&config(), "al-1", &auth()).unwrap(),
        "https://music.example.com/rest/getCoverArt?id=al-1&u=bob&t=t1&s=s1&v=1.16.1&c=ferrosonic"
    );
    assert_eq!(build_cover_art_url(&config(), "", &auth()), None);
    let mut empty = config();
    empty.base_url = String::new();
    assert_eq!(build_cover_art_url(&empty, "al-1", &auth()), None);
}

#[test]
fn song_metadata() {
    let m = build_metadata(&stopped(), Some(song("42")), &config(), &auth());
    assert_eq!(m.trackid.as_deref(), Some("/org/mpris/MediaPlayer2/Track/42"));
    assert_eq!(m.title.as_deref(), Some("Title"));
    assert_eq!(m.artist, Some(vec!["Artist".to_string()]));
    assert_eq!(m.album.as_deref(), Some("Album"));
    assert_eq!(m.length_micros, Some(200_000_000));
    assert_eq!(m.track_number, Some(3));
    assert_eq!(m.disc_number, Some(1));
    assert_eq!(
        m.art_url.as_deref(),
        Some("https://music.example.com/rest/getCoverArt?id=al-1&u=bob&t=t1&s=s1&v=1.16.1&c=ferrosonic")
    );
}

#[test]
fn radio_metadata_falls_back_to_station() {
    let np = NowPlaying {
        state: PlaybackState::Playing,
        radio_station: Some(station()),
        radio_title: None,
        radio_artist: None,
    };
    let m = build_metadata(&np, None, &config(), &auth());
    assert_eq!(m.trackid.as_deref(), Some("/org/mpris/MediaPlayer2/Radio/st_7"));
    assert_eq!(m.title.as_deref(), Some("Jazz FM"));
    assert_eq!(m.artist, Some(vec!["Internet Radio".to_string()]));
    assert_eq!(m.album.as_deref(), Some("Jazz FM"));
    assert_eq!(m.length_micros, None);
    assert_eq!(m.art_url, None);
}

#[test]
fn radio_metadata_uses_stream_title() {
    let mut st = station();
    st.home_page_url = Some("https://jazz.example.com".to_string());
    let np = NowPlaying {
        state: PlaybackState::Playing,
        radio_station: Some(st),
        radio_title: Some("So What".to_string()),
        radio_artist: Some("Miles Davis".to_string()),
    };
    let m = build_metadata(&np, None, &config(), &auth());
    assert_eq!(m.title.as_deref(), Some("So What"));
    assert_eq!(m.artist, Some(vec!["Miles Davis".to_string()]));
    assert_eq!(m.album.as_deref(), Some("https://jazz.example.com"));
}

#[test]
fn nothing_playing_gives_empty_metadata() {
    let m = build_metadata(&stopped(), None, &config(), &auth());
    assert!(m.trackid.is_none() && m.title.is_none() && m.artist.is_none() && m.album.is_none());
}
