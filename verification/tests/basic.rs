use share_it::song::Song;

#[test]
fn it_works() {
    assert_eq!(2 + 2, 4);
}

#[test]
fn test_song_fields_carried() {
    let song = Song::new(
        7,
        8,
        9,
        "name".to_string(),
        "title".to_string(),
        "public".to_string(),
        "p".to_string(),
        "pu".to_string(),
        None,
        "s".to_string(),
    );
    assert_eq!(song.id(), 7);
    assert_eq!(song.user_id, 8);
    assert_eq!(song.duration_ms, 9);
    assert_eq!(song.artwork_url, None);
}
