use ferrosonic::cava::cava_config_file_name;
use ferrosonic::handlers::QueueState;
use ferrosonic::keys::{Key, KeyInput};
use ferrosonic::models::{Child, PlaybackState, SongOption, TrackInfo};
use ferrosonic::pages::{settings_key_step, SettingsView};
use ferrosonic::playback::{poll_start, poll_tracks, PlayerPoll, PollEnd, PollStart};
use ferrosonic::songs::{songs_key_step, SongsEffect, SongsPage};

fn song(id: &str) -> Child {
    Child {
        id: id.to_string(),
        title: format!("Song {}", id),
        parent: None,
        is_dir: false,
        album: Some("Album".to_string()),
        artist: None,
        track: None,
        year: None,
        genre: None,
        cover_art: None,
        size: None,
        content_type: None,
        suffix: None,
        duration: Some(200),
        bit_rate: None,
        path: None,
        disc_number: None,
        starred: None,
    }
}

fn key(code: Key) -> KeyInput {
    KeyInput { code, shift: false, control: false, alt: false, meta: false }
}

fn ch(c: char) -> KeyInput {
    key(Key::Char(c))
}

fn queue(n: usize, pos: Option<usize>) -> QueueState {
    QueueState {
        queue: (1..=n).map(|i| song(&format!("q{}", i))).collect(),
        queue_position: pos,
        selected: None,
    }
}

fn page(n: usize, option: SongOption) -> SongsPage {
    SongsPage {
        filter_active: false,
        filter: String::new(),
        focus: 1,
        selected_option: Some(option),
        scroll_offset: 7,
        selected_index: None,
        songs: (1..=n).map(|i| song(&i.to_string())).collect(),
        all_songs_has_more: true,
        all_songs_loading: false,
    }
}

#[test]
fn songs_options_move_and_load() {
    let mut p = page(3, SongOption::All);
    let mut q = queue(0, None);
    p.focus = 0;
    assert!(matches!(songs_key_step(&mut p, &mut q, key(Key::Up), 5), SongsEffect::Nothing));
    assert_eq!(p.selected_option, Some(SongOption::All));
    assert!(matches!(songs_key_step(&mut p, &mut q, ch('j'), 5), SongsEffect::LoadOption(SongOption::Starred)));
    assert_eq!(p.selected_option, Some(SongOption::Starred));
    assert_eq!(p.scroll_offset, 0);
    assert!(matches!(songs_key_step(&mut p, &mut q, key(Key::Down), 5), SongsEffect::LoadOption(SongOption::Random)));
    assert!(matches!(songs_key_step(&mut p, &mut q, key(Key::Down), 5), SongsEffect::Nothing));
    assert!(matches!(songs_key_step(&mut p, &mut q, ch('k'), 5), SongsEffect::LoadOption(SongOption::Starred)));
    songs_key_step(&mut p, &mut q, key(Key::Tab), 5);
    assert_eq!(p.focus, 1);
    songs_key_step(&mut p, &mut q, key(Key::Tab), 5);
    assert_eq!(p.focus, 0);
}

#[test]
fn songs_moving_down_loads_more_near_the_end() {
    let mut p = page(4, SongOption::All);
    let mut q = queue(0, None);
    assert!(matches!(songs_key_step(&mut p, &mut q, key(Key::Down), 2), SongsEffect::Nothing));
    assert_eq!(p.selected_index, Some(0));
    assert!(matches!(songs_key_step(&mut p, &mut q, key(Key::Down), 2), SongsEffect::Nothing));
    assert!(matches!(songs_key_step(&mut p, &mut q, key(Key::Down), 2), SongsEffect::LoadMore));
    assert_eq!(p.selected_index, Some(2));
    p.all_songs_loading = true;
    assert!(matches!(songs_key_step(&mut p, &mut q, key(Key::Down), 2), SongsEffect::Nothing));
    assert_eq!(p.selected_index, Some(3));
    songs_key_step(&mut p, &mut q, ch('k'), 2);
    assert_eq!(p.selected_index, Some(2));
}

#[test]
fn songs_enter_replaces_the_queue_and_plays() {
    let mut p = page(3, SongOption::Random);
    let mut q = queue(5, Some(4));
    assert!(matches!(songs_key_step(&mut p, &mut q, key(Key::Enter), 5), SongsEffect::Nothing));
    assert_eq!(q.queue.len(), 5);
    p.selected_index = Some(1);
    assert!(matches!(songs_key_step(&mut p, &mut q, key(Key::Enter), 5), SongsEffect::Play(1)));
    let ids: Vec<String> = q.queue.iter().map(|c| c.id.clone()).collect();
    assert_eq!(ids, vec!["1", "2", "3"]);
    assert_eq!(q.queue_position, Some(1));
}

#[test]
fn songs_star_toggles_the_selected_song() {
    let mut p = page(3, SongOption::Starred);
    let mut q = queue(0, None);
    p.selected_index = Some(2);
    match songs_key_step(&mut p, &mut q, ch('f'), 5) {
        SongsEffect::SetStarred { id, starred, reload_starred } => {
            assert_eq!(id, "3");
            assert!(starred);
            assert!(reload_starred);
        }
        e => panic!("unexpected {:?}", e),
    }
    assert_eq!(p.songs[2].starred.as_deref(), Some("starred"));
    assert_eq!(p.songs[2].title, "Song 3");
    match songs_key_step(&mut p, &mut q, ch('f'), 5) {
        SongsEffect::SetStarred { starred, .. } => assert!(!starred),
        e => panic!("unexpected {:?}", e),
    }
    assert_eq!(p.songs[2].starred, None);
    p.focus = 0;
    assert!(matches!(songs_key_step(&mut p, &mut q, ch('f'), 5), SongsEffect::Nothing));
}

#[test]
fn songs_filter_editing() {
    let mut p = page(3, SongOption::All);
    let mut q = queue(0, None);
    p.focus = 0;
    songs_key_step(&mut p, &mut q, ch('/'), 5);
    assert!(p.filter_active);
    assert!(matches!(songs_key_step(&mut p, &mut q, ch('a'), 5), SongsEffect::SearchLater));
    assert!(matches!(songs_key_step(&mut p, &mut q, ch('b'), 5), SongsEffect::SearchLater));
    assert!(matches!(songs_key_step(&mut p, &mut q, key(Key::Backspace), 5), SongsEffect::SearchLater));
    assert_eq!(p.filter, "a");
    assert!(matches!(songs_key_step(&mut p, &mut q, key(Key::Enter), 5), SongsEffect::SearchNow));
    assert!(!p.filter_active);
    assert_eq!(p.focus, 1);
    assert_eq!(p.filter, "a");

    let mut p = page(3, SongOption::Starred);
    p.filter_active = true;
    p.filter = "xy".to_string();
    assert!(matches!(songs_key_step(&mut p, &mut q, ch('z'), 5), SongsEffect::ApplyFilter));
    assert!(matches!(songs_key_step(&mut p, &mut q, key(Key::Esc), 5), SongsEffect::ApplyFilter));
    assert!(!p.filter_active);
    assert_eq!(p.filter, "");
}

fn report(state: PlaybackState, near_end: bool, count: Option<i64>) -> PlayerPoll {
    PlayerPoll { state, player_running: true, near_end, playlist_count: count }
}

#[test]
fn poll_start_decisions() {
    let q = queue(3, Some(1));
    assert_eq!(poll_start(&q, report(PlaybackState::Stopped, false, Some(2))), PollStart::Skip);
    let gone = PlayerPoll { player_running: false, ..report(PlaybackState::Playing, false, Some(2)) };
    assert_eq!(poll_start(&q, gone), PollStart::Skip);
    assert_eq!(poll_start(&q, report(PlaybackState::Paused, true, Some(1))), PollStart::ReadPosition);
    assert_eq!(poll_start(&q, report(PlaybackState::Playing, true, Some(1))), PollStart::AdvanceEarly);
    assert_eq!(
        poll_start(&q, report(PlaybackState::Playing, false, Some(1))),
        PollStart::CheckTracks { preload_after: Some(1) }
    );
    assert_eq!(
        poll_start(&q, report(PlaybackState::Playing, true, Some(2))),
        PollStart::CheckTracks { preload_after: None }
    );
    let last = queue(3, Some(2));
    assert_eq!(
        poll_start(&last, report(PlaybackState::Playing, true, Some(1))),
        PollStart::CheckTracks { preload_after: None }
    );
}

#[test]
fn poll_tracks_follows_the_player() {
    let mut q = queue(3, Some(0));
    match poll_tracks(&mut q, Some(1), Some(false)) {
        PollEnd::Gapless { position, song } => {
            assert_eq!(position, 1);
            assert_eq!(song.id, "q2");
        }
        e => panic!("unexpected {:?}", e),
    }
    assert_eq!(q.queue_position, Some(1));
    assert!(matches!(poll_tracks(&mut q, Some(0), Some(true)), PollEnd::TrackEnded));
    assert!(matches!(poll_tracks(&mut q, Some(0), None), PollEnd::ReadPosition));
    let mut last = queue(3, Some(2));
    assert!(matches!(poll_tracks(&mut last, Some(1), Some(true)), PollEnd::TrackEnded));
    assert_eq!(last.queue_position, Some(2));
}

#[test]
fn notification_body_joins_artist_and_album() {
    let t = TrackInfo { title: "T".to_string(), artist: "Artist".to_string(), album: "Record".to_string() };
    assert_eq!(t.notification_body(), "Artist — Record");
}

#[test]
fn cava_config_names_differ_by_process() {
    assert_eq!(cava_config_file_name(7), "ferrosonic-cava-7.conf");
    assert_ne!(cava_config_file_name(12), cava_config_file_name(123));
    assert_ne!(cava_config_file_name(0), cava_config_file_name(10));
}

#[test]
fn settings_fields_move_without_themes() {
    let mut s = SettingsView { selected_field: 0, theme_index: 0, theme_count: 0, cava_enabled: false, cava_available: true };
    assert!(!settings_key_step(&mut s, key(Key::Down)));
    assert_eq!(s.selected_field, 1);
    assert!(settings_key_step(&mut s, key(Key::Enter)));
    assert!(s.cava_enabled);
    assert!(!settings_key_step(&mut s, key(Key::Up)));
    assert_eq!(s.selected_field, 0);
}
