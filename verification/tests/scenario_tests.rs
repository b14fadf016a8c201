use share_it::repositories::Repository;
use share_it::test_tools::factories::{
    new_test_waitlist, new_test_waitlist_with_repo, TestWaitlistSpec,
};
use share_it::test_tools::mocks::MockUserRepository;

fn spec(which_forgot_active: Option<u32>) -> TestWaitlistSpec {
    TestWaitlistSpec {
        user_count: 4,
        playlist_per_user: 1,
        song_per_playlist: 2,
        which_forgot_active,
    }
}

#[test]
fn scenario_basic_turn_taking() {
    let mut waitlist = new_test_waitlist(spec(None));

    let first = waitlist.play_next().unwrap().unwrap();
    assert_eq!(first.user_id, 0);
    assert_eq!(waitlist.len(), 4);

    let second = waitlist.play_next().unwrap().unwrap();
    assert_eq!(second.user_id, 1);
    assert_eq!(waitlist.len(), 3);
}

#[test]
fn scenario_skip_on_missing_active_playlist() {
    // the user at queue position 3 (id 2) has no active playlist selected
    let mut waitlist = new_test_waitlist(spec(Some(3)));

    waitlist.play_next().unwrap();
    waitlist.play_next().unwrap();
    waitlist.play_next().unwrap();

    // the invalid entry is consumed alongside a redundant re-cycle of the
    // prior valid DJ
    assert_eq!(waitlist.len(), 1);
}

#[test]
fn scenario_exhaustion() {
    let mut waitlist = new_test_waitlist(spec(None));

    for _ in 0..4 {
        let song = waitlist.play_next().unwrap();
        assert!(song.is_some());
    }

    let fifth = waitlist.play_next().unwrap();
    assert_eq!(fifth, None);
    assert_eq!(waitlist.len(), 0);
}

#[test]
fn scenario_persisted_rotation() {
    let repo = MockUserRepository::new();
    let mut waitlist = new_test_waitlist_with_repo(spec(None), repo);

    waitlist.play_next().unwrap();
    waitlist.play_next().unwrap();

    // the first DJ's playlist, re-fetched from the store, shows its
    // original top song moved to the back
    let user = waitlist.users.get(&0).unwrap().unwrap();
    let pid = user.active_playlist().unwrap();
    let playlist = user.get_playlist(pid).unwrap();
    assert_eq!(playlist.len(), 2);
    assert_eq!(playlist.top_song().unwrap().id(), 1);
    assert_eq!(playlist.songs.back().unwrap().id(), 0);
}
