use share_it::playlist::Playlist;
use share_it::song::Song;

fn song1_for_test_playlist() -> Song {
    Song::new(
        11,
        22,
        3333,
        "test user".to_string(),
        "test song".to_string(),
        "public".to_string(),
        "test-song".to_string(),
        "https://www.soundcloud.com/test-user/test-song".to_string(),
        Some("https://www.artwork.com/test-art".to_string()),
        "https://api.soundcloud.com/tracks/22".to_string(),
    )
}

fn numbered_song(id: u32, user_id: u32, duration: u32) -> Song {
    Song::new(
        id,
        user_id,
        duration,
        "test user".to_string(),
        "test song".to_string(),
        "public".to_string(),
        "test-song".to_string(),
        "https://www.soundcloud.com/test-user/test-song".to_string(),
        Some("https://www.artwork.com/test-art".to_string()),
        "https://api.soundcloud.com/tracks/22".to_string(),
    )
}

#[test]
fn test_playlist() {
    let mut playlist: Playlist = Playlist::new("Test Playlist".to_string());
    let song1: Song = song1_for_test_playlist();

    playlist.add_song(song1);
    let _top_song = playlist.top_song();

    assert_eq!(playlist.name, "Test Playlist");
    assert!(playlist.len() == 1);
}

#[test]
fn test_top_song() {
    let mut playlist: Playlist = Playlist::new("Test Playlist".to_string());
    let song1: Song = numbered_song(1, 11, 111);
    let song2: Song = numbered_song(2, 22, 222);

    playlist.add_song(song1.clone());
    playlist.add_song(song2.clone());

    let top = playlist.top_song().unwrap();
    assert_eq!(top, song1);
}

#[test]
fn test_cycle_playlist() {
    let mut playlist: Playlist = Playlist::new("Test Playlist".to_string());
    let song1: Song = numbered_song(1, 11, 111);
    let song2: Song = numbered_song(2, 22, 222);

    playlist.add_song(song1.clone());
    playlist.add_song(song2.clone());

    playlist.cycle_playlist();

    assert_eq!(playlist.top_song(), Some(song2));
}

#[test]
fn test_add_duplicate_song() {
    let mut playlist: Playlist = Playlist::new("Test Playlist".to_string());
    let song1: Song = numbered_song(1, 11, 111);

    playlist.add_song(song1.clone());
    playlist.add_song(song1.clone());

    assert_eq!(playlist.len(), 1);
}

#[test]
fn test_add_remove_song() {
    let mut playlist: Playlist = Playlist::new("Test Playlist".to_string());
    let song1: Song = numbered_song(1, 11, 111);

    playlist.add_song(song1.clone());
    assert_eq!(playlist.len(), 1);

    playlist.remove_song(song1.id());
    assert_eq!(playlist.len(), 0);
}

#[test]
fn test_remove_absent_song_is_noop() {
    let mut playlist: Playlist = Playlist::new("Test Playlist".to_string());
    playlist.add_song(numbered_song(1, 11, 111));
    playlist.remove_song(42);
    assert_eq!(playlist.len(), 1);
    assert_eq!(playlist.top_song().unwrap().id(), 1);
}

#[test]
fn test_cycle_full_rotation_restores_order() {
    let mut playlist: Playlist = Playlist::new("Test Playlist".to_string());
    playlist.add_song(numbered_song(1, 11, 111));
    playlist.add_song(numbered_song(2, 22, 222));
    playlist.add_song(numbered_song(3, 33, 333));

    playlist.cycle_playlist();
    playlist.cycle_playlist();
    playlist.cycle_playlist();

    assert_eq!(playlist.top_song().unwrap().id(), 1);
    playlist.cycle_playlist();
    assert_eq!(playlist.top_song().unwrap().id(), 2);
    assert_eq!(playlist.len(), 3);
}

#[test]
fn test_cycle_empty_playlist_is_noop() {
    let mut playlist: Playlist = Playlist::new("Test Playlist".to_string());
    playlist.cycle_playlist();
    assert_eq!(playlist.len(), 0);
    assert!(playlist.top_song().is_none());
}
