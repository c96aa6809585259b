use ferrosonic::models::Child;
use ferrosonic::queue::PlayQueue;
use ferrosonic::rest::{AuthParams, SubsonicClient};

fn make_song(id: &str, title: &str) -> Child {
    Child {
        id: id.to_string(),
        title: title.to_string(),
        parent: None,
        is_dir: false,
        album: None,
        artist: None,
        track: None,
        year: None,
        genre: None,
        cover_art: None,
        size: None,
        content_type: None,
        suffix: None,
        duration: None,
        bit_rate: None,
        path: None,
        disc_number: None,
        starred: None,
    }
}

fn three_songs() -> Vec<Child> {
    vec![
        make_song("1", "Song 1"),
        make_song("2", "Song 2"),
        make_song("3", "Song 3"),
    ]
}

fn ids(queue: &PlayQueue) -> Vec<String> {
    queue.songs().iter().map(|s| s.id.clone()).collect()
}

#[test]
fn test_append_and_len() {
    let mut queue = PlayQueue::new();
    assert!(queue.is_empty());

    queue.append(vec![make_song("1", "Song 1"), make_song("2", "Song 2")]);
    assert_eq!(queue.len(), 2);
}

#[test]
fn test_position_and_navigation() {
    let mut queue = PlayQueue::new();
    queue.append(vec![
        make_song("1", "Song 1"),
        make_song("2", "Song 2"),
        make_song("3", "Song 3"),
    ]);

    assert!(queue.current().is_none());

    queue.set_position(Some(0));
    assert_eq!(queue.current().unwrap().id, "1");

    assert!(queue.next());
    assert_eq!(queue.current().unwrap().id, "2");

    assert!(queue.next());
    assert_eq!(queue.current().unwrap().id, "3");

    assert!(!queue.next());
    assert!(queue.current().is_none());
}

#[test]
fn test_remove() {
    let mut queue = PlayQueue::new();
    queue.append(vec![
        make_song("1", "Song 1"),
        make_song("2", "Song 2"),
        make_song("3", "Song 3"),
    ]);
    queue.set_position(Some(1));

    // Remove song before current
    queue.remove(0);
    assert_eq!(queue.position(), Some(0));
    assert_eq!(queue.current().unwrap().id, "2");

    // Remove current song
    queue.remove(0);
    assert_eq!(queue.current().unwrap().id, "3");
}

#[test]
fn test_insert_next() {
    let mut queue = PlayQueue::new();
    queue.append(vec![make_song("1", "Song 1"), make_song("3", "Song 3")]);
    queue.set_position(Some(0));

    queue.insert_next(vec![make_song("2", "Song 2")]);

    assert_eq!(queue.songs()[0].id, "1");
    assert_eq!(queue.songs()[1].id, "2");
    assert_eq!(queue.songs()[2].id, "3");
}

#[test]
fn test_move_song() {
    let mut queue = PlayQueue::new();
    queue.append(vec![
        make_song("1", "Song 1"),
        make_song("2", "Song 2"),
        make_song("3", "Song 3"),
    ]);
    queue.set_position(Some(0));

    queue.move_song(0, 2);
    assert_eq!(queue.songs()[0].id, "2");
    assert_eq!(queue.songs()[1].id, "3");
    assert_eq!(queue.songs()[2].id, "1");
    assert_eq!(queue.position(), Some(2));
}

#[test]
fn default_queue_is_empty_and_stopped() {
    let queue = PlayQueue::default();
    assert!(queue.is_empty());
    assert_eq!(queue.position(), None);
    assert!(queue.current().is_none());
}

#[test]
fn insert_next_without_position_goes_to_front() {
    let mut queue = PlayQueue::new();
    queue.append(vec![make_song("3", "Song 3")]);
    queue.insert_next(vec![make_song("1", "Song 1"), make_song("2", "Song 2")]);
    assert_eq!(ids(&queue), vec!["1", "2", "3"]);
    assert_eq!(queue.position(), None);
}

#[test]
fn insert_next_keeps_current_song_and_order() {
    let mut queue = PlayQueue::new();
    queue.append(three_songs());
    queue.set_position(Some(1));
    queue.insert_next(vec![make_song("a", "A"), make_song("b", "B")]);
    assert_eq!(ids(&queue), vec!["1", "2", "a", "b", "3"]);
    assert_eq!(queue.current().unwrap().id, "2");
}

#[test]
fn remove_out_of_range_returns_none() {
    let mut queue = PlayQueue::new();
    queue.append(three_songs());
    queue.set_position(Some(2));
    assert!(queue.remove(3).is_none());
    assert_eq!(queue.len(), 3);
    assert_eq!(queue.position(), Some(2));
}

#[test]
fn remove_current_last_song_moves_to_new_last() {
    let mut queue = PlayQueue::new();
    queue.append(three_songs());
    queue.set_position(Some(2));
    let removed = queue.remove(2).unwrap();
    assert_eq!(removed.id, "3");
    assert_eq!(queue.position(), Some(1));
    assert_eq!(queue.current().unwrap().id, "2");
}

#[test]
fn remove_only_song_clears_position() {
    let mut queue = PlayQueue::new();
    queue.append(vec![make_song("1", "Song 1")]);
    queue.set_position(Some(0));
    queue.remove(0);
    assert!(queue.is_empty());
    assert_eq!(queue.position(), None);
}

#[test]
fn remove_after_current_keeps_position() {
    let mut queue = PlayQueue::new();
    queue.append(three_songs());
    queue.set_position(Some(0));
    queue.remove(2);
    assert_eq!(queue.position(), Some(0));
    assert_eq!(ids(&queue), vec!["1", "2"]);
}

#[test]
fn move_song_keeps_current_song() {
    let mut queue = PlayQueue::new();
    queue.append(three_songs());
    queue.set_position(Some(1));
    queue.move_song(2, 0);
    assert_eq!(ids(&queue), vec!["3", "1", "2"]);
    assert_eq!(queue.position(), Some(2));
    assert_eq!(queue.current().unwrap().id, "2");

    queue.move_song(0, 2);
    assert_eq!(ids(&queue), vec!["1", "2", "3"]);
    assert_eq!(queue.current().unwrap().id, "2");
}

#[test]
fn move_song_out_of_range_does_nothing() {
    let mut queue = PlayQueue::new();
    queue.append(three_songs());
    queue.set_position(Some(1));
    queue.move_song(0, 3);
    assert_eq!(ids(&queue), vec!["1", "2", "3"]);
    assert_eq!(queue.position(), Some(1));
}

#[test]
fn shuffle_keeps_current_song_first_and_all_songs() {
    let mut queue = PlayQueue::new();
    let songs: Vec<Child> = (0..20).map(|i| make_song(&i.to_string(), "S")).collect();
    queue.append(songs);
    queue.set_position(Some(7));
    queue.shuffle();
    assert_eq!(queue.position(), Some(0));
    assert_eq!(queue.current().unwrap().id, "7");
    let mut got = ids(&queue);
    got.sort();
    let mut want: Vec<String> = (0..20).map(|i: i32| i.to_string()).collect();
    want.sort();
    assert_eq!(got, want);
}

#[test]
fn shuffle_of_single_song_changes_nothing() {
    let mut queue = PlayQueue::new();
    queue.append(vec![make_song("1", "Song 1")]);
    queue.shuffle();
    assert_eq!(ids(&queue), vec!["1"]);
    assert_eq!(queue.position(), None);
}

#[test]
fn set_position_out_of_range_is_ignored() {
    let mut queue = PlayQueue::new();
    queue.append(three_songs());
    queue.set_position(Some(1));
    queue.set_position(Some(5));
    assert_eq!(queue.position(), Some(1));
    queue.set_position(None);
    assert_eq!(queue.position(), None);
}

#[test]
fn previous_goes_back_and_stops_at_start() {
    let mut queue = PlayQueue::new();
    queue.append(three_songs());
    queue.set_position(Some(2));
    assert!(queue.previous());
    assert_eq!(queue.position(), Some(1));
    assert!(queue.previous());
    assert!(!queue.previous());
    assert_eq!(queue.position(), Some(0));
}

#[test]
fn previous_without_position_goes_to_first_song() {
    let mut queue = PlayQueue::new();
    queue.append(three_songs());
    assert!(!queue.previous());
    assert_eq!(queue.position(), Some(0));

    let mut empty = PlayQueue::new();
    assert!(!empty.previous());
    assert_eq!(empty.position(), None);
}

#[test]
fn next_then_previous_returns_to_same_song() {
    let mut queue = PlayQueue::new();
    queue.append(three_songs());
    queue.set_position(Some(0));
    assert!(queue.next());
    assert!(queue.previous());
    assert_eq!(queue.position(), Some(0));
}

#[test]
fn clear_empties_queue() {
    let mut queue = PlayQueue::new();
    queue.append(three_songs());
    queue.set_position(Some(1));
    queue.clear();
    assert!(queue.is_empty());
    assert_eq!(queue.position(), None);
}

fn client(base: &str) -> SubsonicClient {
    SubsonicClient::new(
        base,
        "alice",
        AuthParams {
            salt: "abc".to_string(),
            token: "tok".to_string(),
        },
    )
}

#[test]
fn stream_urls_come_from_the_client() {
    let mut queue = PlayQueue::new();
    queue.append(three_songs());
    let c = client("http://music.example.com");
    assert_eq!(queue.current_stream_url(&c), None);
    queue.set_position(Some(1));
    assert_eq!(
        queue.current_stream_url(&c).unwrap(),
        "http://music.example.com/rest/stream?id=2&u=alice&t=tok&s=abc&v=1.16.1&c=ferrosonic"
    );
    assert_eq!(
        queue.stream_url_at(2, &c).unwrap(),
        "http://music.example.com/rest/stream?id=3&u=alice&t=tok&s=abc&v=1.16.1&c=ferrosonic"
    );
    assert_eq!(queue.stream_url_at(3, &c), None);
}

#[test]
fn stream_url_of_unparsable_server_is_none() {
    let mut queue = PlayQueue::new();
    queue.append(three_songs());
    queue.set_position(Some(0));
    let c = client("not a url");
    assert_eq!(queue.current_stream_url(&c), None);
    assert!(c.get_stream_url("1").is_err());
}
