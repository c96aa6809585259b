use ferrosonic::artists::{
    album_play_loaded, albums_loaded, artists_click_step, artists_key_step, preview_loaded,
    ArtistsEffect, ArtistsPage, PaneRect, TreeEntry,
};
use ferrosonic::cava::cava_config_file_name;
use ferrosonic::handlers::{
    gapless_now_playing, queue_key_step, selection_after_artists_loaded,
    selection_after_initial_load, should_extend_queue, should_switch_rate, QueueEffect, QueueState,
};
use ferrosonic::keys::{global_key_step, GlobalAction, Key, KeyInput};
use ferrosonic::models::{Child, Page, RepeatMode};
use ferrosonic::mpris::{loop_status, repeat_for_loop_status, LoopMode};
use ferrosonic::pages::{
    cava_notice, connection_status, save_status, server_key_step, settings_key_step,
    theme_notice, ConnectionOutcome, SaveOutcome, ServerAction, ServerForm, SettingsView,
};
use ferrosonic::playlists::{
    playlist_loaded, playlists_key_step, PlaylistEntry, PlaylistsEffect, PlaylistsPage,
};

fn song(id: &str) -> Child {
    Child {
        id: id.to_string(),
        title: format!("Song {}", id),
        parent: None,
        is_dir: false,
        album: None,
        artist: None,
        track: None,
        year: None,
        genre: None,
        cover_art: None,
        size: None,
        content_type: None,
        suffix: None,
        duration: None,
        bit_rate: None,
        path: None,
        disc_number: None,
        starred: None,
    }
}

fn key(code: Key) -> KeyInput {
    KeyInput { code, shift: false, control: false, alt: false, meta: false }
}

fn ch(c: char) -> KeyInput {
    key(Key::Char(c))
}

fn queue(n: usize, pos: Option<usize>) -> QueueState {
    QueueState {
        queue: (1..=n).map(|i| song(&i.to_string())).collect(),
        queue_position: pos,
        selected: None,
    }
}

fn ids(v: &[Child]) -> Vec<String> {
    v.iter().map(|c| c.id.clone()).collect()
}

#[test]
fn global_keys() {
    assert_eq!(global_key_step(Page::Queue, 0, false, ch('q')), GlobalAction::Quit);
    assert_eq!(global_key_step(Page::Queue, 0, false, key(Key::F(3))), GlobalAction::SwitchPage(Page::Playlists));
    assert_eq!(global_key_step(Page::Queue, 0, false, key(Key::F(9))), GlobalAction::PageKey(Page::Queue));
    assert_eq!(global_key_step(Page::Queue, 0, false, ch(' ')), GlobalAction::TogglePause);
    assert_eq!(global_key_step(Page::Queue, 0, false, ch('l')), GlobalAction::NextTrack);
    assert_eq!(global_key_step(Page::Queue, 0, false, ch('h')), GlobalAction::PreviousTrack);
    assert_eq!(global_key_step(Page::Queue, 0, false, ch('t')), GlobalAction::CycleTheme);
    assert_eq!(global_key_step(Page::Queue, 0, false, ch('r')), GlobalAction::CycleRepeat);
    let ctrl_r = KeyInput { code: Key::Char('r'), shift: false, control: true, alt: false, meta: false };
    assert_eq!(global_key_step(Page::Queue, 0, false, ctrl_r), GlobalAction::Refresh);
    let plus = KeyInput { code: Key::Char('+'), shift: true, control: false, alt: false, meta: false };
    assert_eq!(global_key_step(Page::Queue, 0, false, plus), GlobalAction::VolumeUp);
    assert_eq!(global_key_step(Page::Queue, 0, false, ch('-')), GlobalAction::VolumeDown);
    assert_eq!(global_key_step(Page::Queue, 0, false, ch('d')), GlobalAction::PageKey(Page::Queue));
    // Typing into a server text field or the artists filter bypasses the globals.
    assert_eq!(global_key_step(Page::Server, 1, false, ch('q')), GlobalAction::PageKey(Page::Server));
    assert_eq!(global_key_step(Page::Server, 3, false, ch('q')), GlobalAction::Quit);
    assert_eq!(global_key_step(Page::Artists, 0, true, ch('q')), GlobalAction::PageKey(Page::Artists));
}

#[test]
fn super_keys_reach_the_page() {
    let super_q = KeyInput { code: Key::Char('q'), shift: false, control: false, alt: false, meta: true };
    assert_eq!(global_key_step(Page::Queue, 0, false, super_q), GlobalAction::PageKey(Page::Queue));
    let super_ctrl_r = KeyInput { code: Key::Char('r'), shift: false, control: true, alt: false, meta: true };
    assert_eq!(global_key_step(Page::Queue, 0, false, super_ctrl_r), GlobalAction::PageKey(Page::Queue));
    let super_f1 = KeyInput { code: Key::F(1), shift: false, control: false, alt: false, meta: true };
    assert_eq!(global_key_step(Page::Queue, 0, false, super_f1), GlobalAction::SwitchPage(Page::Artists));
}

fn form() -> ServerForm {
    ServerForm {
        base_url: "http://x".to_string(),
        username: "bob".to_string(),
        password: "pw".to_string(),
        selected_field: 1,
        status: None,
    }
}

#[test]
fn server_form_editing() {
    let mut f = form();
    server_key_step(&mut f, ch('y'));
    assert_eq!(f.username, "boby");
    assert_eq!(f.base_url, "http://x");
    server_key_step(&mut f, key(Key::Backspace));
    server_key_step(&mut f, key(Key::Backspace));
    assert_eq!(f.username, "bo");
    server_key_step(&mut f, key(Key::Up));
    assert_eq!(f.selected_field, 0);
    server_key_step(&mut f, key(Key::Up));
    assert_eq!(f.selected_field, 0);
    f.selected_field = 4;
    server_key_step(&mut f, key(Key::Tab));
    assert_eq!(f.selected_field, 0);
    f.selected_field = 3;
    server_key_step(&mut f, ch('z'));
    assert_eq!(f.base_url, "http://x");
    match server_key_step(&mut f, key(Key::Enter)) {
        ServerAction::TestConnection { base_url, username, password } => {
            assert_eq!((base_url.as_str(), username.as_str(), password.as_str()), ("http://x", "bo", "pw"));
        }
        other => panic!("unexpected {:?}", other),
    }
    assert_eq!(f.status.as_deref(), Some("Testing connection..."));
    f.selected_field = 4;
    assert!(matches!(server_key_step(&mut f, key(Key::Enter)), ServerAction::SaveConfig { .. }));
    f.selected_field = 0;
    assert!(matches!(server_key_step(&mut f, key(Key::Enter)), ServerAction::Nothing));
}

#[test]
fn server_status_texts() {
    assert_eq!(connection_status(&ConnectionOutcome::Connected), "Connection successful!");
    assert_eq!(connection_status(&ConnectionOutcome::Failed("timeout".into())), "Connection failed: timeout");
    assert_eq!(connection_status(&ConnectionOutcome::InvalidUrl("bad".into())), "Invalid URL: bad");
    assert_eq!(save_status(&SaveOutcome::SaveFailed("disk".into())), "Save failed: disk");
    assert_eq!(save_status(&SaveOutcome::Saved), "Saved! Connecting...");
    assert_eq!(save_status(&SaveOutcome::Loaded), "Connected and loaded data!");
    assert_eq!(save_status(&SaveOutcome::ConnectFailed("x".into())), "Saved but connection failed: x");
}

#[test]
fn settings_keys() {
    let mut s = SettingsView { selected_field: 0, theme_index: 0, theme_count: 3, cava_enabled: false, cava_available: false };
    assert!(settings_key_step(&mut s, key(Key::Left)));
    assert_eq!(s.theme_index, 2);
    assert!(settings_key_step(&mut s, ch('l')));
    assert_eq!(s.theme_index, 0);
    assert!(!settings_key_step(&mut s, key(Key::Down)));
    assert_eq!(s.selected_field, 1);
    assert!(!settings_key_step(&mut s, key(Key::Enter)));
    assert!(!s.cava_enabled);
    s.cava_available = true;
    assert!(settings_key_step(&mut s, key(Key::Enter)));
    assert!(s.cava_enabled);
    assert!(!settings_key_step(&mut s, key(Key::Down)));
    assert_eq!(s.selected_field, 1);
    assert_eq!(theme_notice("Nord"), "Theme: Nord");
    assert_eq!(cava_notice(true), "Cava: On");
    assert_eq!(cava_notice(false), "Cava: Off");
}

#[test]
fn queue_page_keys_and_notices() {
    let mut q = queue(4, Some(2));
    q.selected = Some(0);
    assert!(matches!(queue_key_step(&mut q, ch('j')), QueueEffect::Nothing));
    assert_eq!(q.selected, Some(1));
    assert!(matches!(queue_key_step(&mut q, key(Key::Enter)), QueueEffect::Play(1)));
    match queue_key_step(&mut q, ch('d')) {
        QueueEffect::Notify(t) => assert_eq!(t, "Removed: Song 2"),
        other => panic!("unexpected {:?}", other),
    }
    assert_eq!(q.queue_position, Some(1));
    match queue_key_step(&mut q, ch('c')) {
        QueueEffect::Notify(t) => assert_eq!(t, "Cleared 1 played songs"),
        other => panic!("unexpected {:?}", other),
    }
    match queue_key_step(&mut q, ch('c')) {
        QueueEffect::Notify(t) => assert_eq!(t, "No history to clear"),
        other => panic!("unexpected {:?}", other),
    }
    match queue_key_step(&mut q, ch('s')) {
        QueueEffect::Notify(t) => assert_eq!(t, "Queue shuffled"),
        other => panic!("unexpected {:?}", other),
    }
    assert_eq!(q.queue[0].id, "3");
}

#[test]
fn loading_selections_and_rates() {
    assert_eq!(selection_after_artists_loaded(None, 3), Some(0));
    assert_eq!(selection_after_artists_loaded(Some(2), 3), Some(2));
    assert_eq!(selection_after_artists_loaded(None, 0), None);
    assert_eq!(selection_after_initial_load(Some(2), 3), Some(0));
    assert_eq!(selection_after_initial_load(Some(2), 0), Some(2));
    assert!(should_switch_rate(Some(44100), 96000));
    assert!(!should_switch_rate(Some(44100), 44100));
    assert!(should_switch_rate(None, 44100));
}

#[test]
fn loop_status_mapping() {
    assert_eq!(loop_status(RepeatMode::Off), LoopMode::NoLoop);
    assert_eq!(loop_status(RepeatMode::One), LoopMode::Track);
    assert_eq!(loop_status(RepeatMode::All), LoopMode::Playlist);
    assert_eq!(repeat_for_loop_status(LoopMode::Playlist), RepeatMode::All);
    assert_eq!(repeat_for_loop_status(loop_status(RepeatMode::One)), RepeatMode::One);
}

#[test]
fn gapless_and_extension() {
    let q = queue(3, Some(0));
    let (p, s) = gapless_now_playing(&q, Some(1)).unwrap();
    assert_eq!((p, s.id.as_str()), (1, "2"));
    assert!(gapless_now_playing(&q, Some(0)).is_none());
    assert!(gapless_now_playing(&queue(3, Some(2)), Some(1)).is_none());
    assert!(should_extend_queue(true, true, false, Some(8), 10, 3));
    assert!(!should_extend_queue(false, true, false, Some(8), 10, 3));
    assert!(!should_extend_queue(true, true, false, Some(2), 10, 3));
    assert_eq!(cava_config_file_name(4242), "ferrosonic-cava-4242.conf");
}

fn artists_page() -> ArtistsPage {
    ArtistsPage {
        filter_active: false,
        filter: String::new(),
        expanded: vec![],
        cached: vec![],
        selected_index: None,
        focus: 0,
        songs: vec![],
        selected_song: None,
        tree_scroll_offset: 0,
        song_scroll_offset: 0,
    }
}

fn tree() -> Vec<TreeEntry> {
    vec![
        TreeEntry::Artist { id: "ar1".into(), name: "Artist".into(), expanded: false },
        TreeEntry::Album { id: "al1".into(), name: "Album One".into() },
    ]
}

#[test]
fn artists_tree_keys() {
    let mut page = artists_page();
    let mut q = queue(0, None);
    let t = tree();
    assert!(matches!(artists_key_step(&mut page, &mut q, &t, ch('j')), ArtistsEffect::Nothing));
    assert_eq!(page.selected_index, Some(0));
    match artists_key_step(&mut page, &mut q, &t, key(Key::Enter)) {
        ArtistsEffect::LoadAlbums { artist_id } => assert_eq!(artist_id, "ar1"),
        other => panic!("unexpected {:?}", other),
    }
    albums_loaded(&mut page, &"ar1".to_string());
    assert_eq!(page.expanded, vec!["ar1".to_string()]);
    match artists_key_step(&mut page, &mut q, &t, key(Key::Down)) {
        ArtistsEffect::PreviewAlbum { album_id } => assert_eq!(album_id, "al1"),
        other => panic!("unexpected {:?}", other),
    }
    preview_loaded(&mut page, vec![song("a"), song("b")]);
    assert_eq!(page.selected_song, Some(0));
    match artists_key_step(&mut page, &mut q, &t, key(Key::Enter)) {
        ArtistsEffect::PlayAlbum { album_id, album_name } => {
            assert_eq!((album_id.as_str(), album_name.as_str()), ("al1", "Album One"))
        }
        other => panic!("unexpected {:?}", other),
    }
    let notice = album_play_loaded(&mut page, &mut q, vec![song("a"), song("b")], "Album One");
    assert_eq!(notice, Ok("Playing album: Album One (2 songs)".to_string()));
    assert_eq!(ids(&q.queue), vec!["a", "b"]);
    assert_eq!(q.queue_position, Some(0));
    assert_eq!(page.focus, 1);
    assert_eq!(album_play_loaded(&mut page, &mut q, vec![], "X"), Err("Album has no songs".to_string()));
}

#[test]
fn artists_song_keys_and_filter() {
    let mut page = artists_page();
    page.songs = vec![song("a"), song("b"), song("c")];
    page.focus = 1;
    page.selected_song = Some(1);
    let mut q = queue(2, Some(0));
    let t = tree();
    match artists_key_step(&mut page, &mut q, &t, ch('n')) {
        ArtistsEffect::Notify(n) => assert_eq!(n, "Playing next: Song b"),
        other => panic!("unexpected {:?}", other),
    }
    assert_eq!(ids(&q.queue), vec!["1", "b", "2"]);
    match artists_key_step(&mut page, &mut q, &t, ch('e')) {
        ArtistsEffect::Notify(n) => assert_eq!(n, "Added to queue: Song b"),
        other => panic!("unexpected {:?}", other),
    }
    page.focus = 0;
    match artists_key_step(&mut page, &mut q, &t, ch('e')) {
        ArtistsEffect::Notify(n) => assert_eq!(n, "Added 3 songs to queue"),
        other => panic!("unexpected {:?}", other),
    }
    assert_eq!(q.queue.len(), 7);
    page.focus = 1;
    match artists_key_step(&mut page, &mut q, &t, key(Key::Enter)) {
        ArtistsEffect::PlaySong { position, notice } => {
            assert_eq!(position, 1);
            assert_eq!(notice, "Playing: Song b");
        }
        other => panic!("unexpected {:?}", other),
    }
    assert_eq!(ids(&q.queue), vec!["a", "b", "c"]);
    assert_eq!(q.queue_position, Some(1));
    artists_key_step(&mut page, &mut q, &t, key(Key::Backspace));
    assert_eq!(page.focus, 0);
    artists_key_step(&mut page, &mut q, &t, ch('/'));
    artists_key_step(&mut page, &mut q, &t, ch('q'));
    artists_key_step(&mut page, &mut q, &t, ch('u'));
    artists_key_step(&mut page, &mut q, &t, key(Key::Backspace));
    assert_eq!(page.filter, "q");
    artists_key_step(&mut page, &mut q, &t, key(Key::Esc));
    assert!(!page.filter_active);
    assert_eq!(page.filter, "");
}

#[test]
fn artists_clicks() {
    let mut page = artists_page();
    page.songs = vec![song("a"), song("b")];
    let mut q = queue(0, None);
    let t = tree();
    let left = PaneRect { x: 0, y: 5, width: 20, height: 10 };
    let right = PaneRect { x: 20, y: 5, width: 20, height: 10 };
    // Row 1 of the tree (screen row 7): the album, previewed on the first click.
    match artists_click_step(&mut page, &mut q, &t, left, right, 3, 7, false) {
        ArtistsEffect::PreviewAlbum { album_id } => assert_eq!(album_id, "al1"),
        other => panic!("unexpected {:?}", other),
    }
    assert_eq!(page.selected_index, Some(1));
    match artists_click_step(&mut page, &mut q, &t, left, right, 3, 7, true) {
        ArtistsEffect::PlayAlbum { album_id, .. } => assert_eq!(album_id, "al1"),
        other => panic!("unexpected {:?}", other),
    }
    assert!(matches!(artists_click_step(&mut page, &mut q, &t, left, right, 25, 7, true), ArtistsEffect::Nothing));
    assert_eq!((page.focus, page.selected_song), (1, Some(1)));
    match artists_click_step(&mut page, &mut q, &t, left, right, 25, 7, true) {
        ArtistsEffect::PlaySong { position, .. } => assert_eq!(position, 1),
        other => panic!("unexpected {:?}", other),
    }
    assert_eq!(q.queue_position, Some(1));
    assert!(matches!(artists_click_step(&mut page, &mut q, &t, left, right, 50, 7, true), ArtistsEffect::Nothing));
}

#[test]
fn playlists_keys() {
    let mut page = PlaylistsPage {
        focus: 0,
        playlists: vec![PlaylistEntry { id: "p1".into(), name: "Mix".into() }],
        selected_playlist: None,
        songs: vec![],
        selected_song: None,
    };
    let mut q = queue(1, Some(0));
    playlists_key_step(&mut page, &mut q, ch('j'));
    assert_eq!(page.selected_playlist, Some(0));
    match playlists_key_step(&mut page, &mut q, key(Key::Enter)) {
        PlaylistsEffect::LoadPlaylist { playlist_id, playlist_name } => {
            assert_eq!((playlist_id.as_str(), playlist_name.as_str()), ("p1", "Mix"))
        }
        other => panic!("unexpected {:?}", other),
    }
    let notice = playlist_loaded(&mut page, vec![song("a"), song("b")], "Mix");
    assert_eq!(notice, "Loaded playlist: Mix (2 songs)");
    assert_eq!((page.focus, page.selected_song), (1, Some(0)));
    match playlists_key_step(&mut page, &mut q, ch('n')) {
        PlaylistsEffect::Notify(t) => assert_eq!(t, "Playing next: Song a"),
        other => panic!("unexpected {:?}", other),
    }
    assert_eq!(ids(&q.queue), vec!["1", "a"]);
    assert!(matches!(playlists_key_step(&mut page, &mut q, key(Key::Enter)), PlaylistsEffect::Play(0)));
    assert_eq!(ids(&q.queue), vec!["a", "b"]);
    assert!(matches!(playlists_key_step(&mut page, &mut q, ch('s')), PlaylistsEffect::Play(0)));
    assert_eq!(q.queue.len(), 2);
    playlists_key_step(&mut page, &mut q, key(Key::Left));
    assert_eq!(page.focus, 0);
    playlists_key_step(&mut page, &mut q, key(Key::Right));
    assert_eq!(page.focus, 1);
}
