use share_it::repositories::Repository;
use share_it::test_tools::factories::{
    new_test_waitlist, new_test_waitlist_with_repo, TestWaitlistSpec,
};
use share_it::test_tools::mocks::{FailingUserRepository, MockError, MockUserRepository};
use share_it::waitlist::Waitlist;

fn four_user_spec(which_forgot_active: Option<u32>) -> TestWaitlistSpec {
    TestWaitlistSpec {
        user_count: 4,
        playlist_per_user: 1,
        song_per_playlist: 2,
        which_forgot_active,
    }
}

#[test]
fn test_waitlist_play_next() {
    let mut waitlist = new_test_waitlist(four_user_spec(Some(3)));
    let maybe_song = waitlist.play_next().unwrap();

    assert!(maybe_song.is_some());
    let song = maybe_song.unwrap();

    assert_eq!(song.id(), 0);
    // Verify that we didn't cycle the first DJ as they aren't done playing yet.
    assert_eq!(waitlist.len(), 4);

    let _ = waitlist.play_next();
    assert_eq!(waitlist.len(), 3)
}

#[test]
fn test_waitlist_skipping_works() {
    let mut waitlist = new_test_waitlist(four_user_spec(Some(3)));
    waitlist.play_next().unwrap();
    waitlist.play_next().unwrap();
    // This person forgot to set an active playlist.
    waitlist.play_next().unwrap();

    // Therefore we expect to have skipped them, and be on the last dj.
    assert_eq!(waitlist.len(), 1);
}

#[test]
fn test_waitlist_play_next_saves_users() {
    let repo = MockUserRepository::new();
    let mut waitlist = new_test_waitlist_with_repo(four_user_spec(None), repo);
    waitlist.play_next().unwrap();
    waitlist.play_next().unwrap();

    // We know we have cycled our first user now. Let's get them from the
    // store and check their playlist length.
    let user = waitlist.users.get(&0).unwrap().unwrap();
    assert_eq!(user.playlist_count(), 1);
}

#[test]
fn test_waitlist_string_repr() {
    let waitlist = new_test_waitlist(four_user_spec(None));
    let want = "Waitlist:\n1. test_username\n2. test_username\n3. test_username\n4. test_username";
    let got = waitlist.to_display_string();

    assert_eq!(got, want);
}

#[test]
fn empty_playlist_returns_none() {
    let mut waitlist = new_test_waitlist(four_user_spec(None));
    waitlist.play_next().unwrap();
    waitlist.play_next().unwrap();
    waitlist.play_next().unwrap();
    waitlist.play_next().unwrap();

    // Now we've cycled through all 4 test users. Next one should return None.
    let song = waitlist.play_next().unwrap();
    assert_eq!(song, None);
}

#[test]
fn test_waitlist_string_repr_two_digit_positions() {
    let mut waitlist = Waitlist::new(MockUserRepository::new());
    let mut want = String::from("Waitlist:\n");
    for i in 0..11u32 {
        waitlist.join((i, "dj".to_string()));
        want.push_str(&format!("{}. dj", i + 1));
        if i != 10 {
            want.push('\n');
        }
    }
    assert_eq!(waitlist.to_display_string(), want);
}

#[test]
fn test_waitlist_join_idempotent() {
    let mut waitlist = Waitlist::new(MockUserRepository::new());
    assert!(waitlist.join((1, "a".to_string())));
    assert_eq!(waitlist.len(), 1);
    assert!(!waitlist.join((1, "b".to_string())));
    assert_eq!(waitlist.len(), 1);
}

#[test]
fn test_waitlist_leave() {
    let mut waitlist = Waitlist::new(MockUserRepository::new());
    waitlist.join((1, "a".to_string()));
    waitlist.join((2, "b".to_string()));
    assert!(waitlist.leave(1));
    assert_eq!(waitlist.len(), 1);
    assert!(!waitlist.leave(1));
    assert_eq!(waitlist.djs().front().unwrap().0, 2);
}

#[test]
fn test_play_next_propagates_store_error() {
    let mut waitlist = Waitlist::new(FailingUserRepository);
    waitlist.join((0, "dj".to_string()));
    let result = waitlist.play_next();
    assert!(matches!(result, Err(MockError)));
    // the failure happened while fetching, so nothing was popped
    assert_eq!(waitlist.len(), 1);
}

#[test]
fn test_play_next_on_empty_waitlist() {
    let mut waitlist = Waitlist::new(MockUserRepository::new());
    assert_eq!(waitlist.play_next().unwrap(), None);
    assert_eq!(waitlist.len(), 0);
}
