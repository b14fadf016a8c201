use std::collections::VecDeque;
use share_it::chatroom::ChatUser;
use share_it::test_tools::factories::{new_test_chatroom, new_test_user, TestChatroomSpec};

fn four_user_spec() -> TestChatroomSpec {
    TestChatroomSpec {
        chatroom_user_count: 4,
        playlist_per_user: 1,
        song_per_playlist: 2,
        // test user 1, and test user 3 joined the waitlist.
        which_joined_waitlist: vec![1, 3],
        moderator_user: 1,
        which_forgot_active: None,
    }
}

#[test]
fn test_chatroom_leave() {
    let mut chatroom = new_test_chatroom(four_user_spec());
    assert_eq!(chatroom.len(), 4);

    chatroom.leave(0);
    assert_eq!(chatroom.len(), 3);
}

#[test]
fn test_chatroom_unique_users() {
    let mut chatroom = new_test_chatroom(four_user_spec());
    assert_eq!(chatroom.len(), 4);

    let test_user = new_test_user(0);
    chatroom.join(ChatUser(test_user.id(), "test_username".to_string()));

    assert_eq!(chatroom.len(), 4)
}

#[test]
fn test_chatroom_moderator() {
    let mut chatroom = new_test_chatroom(four_user_spec());
    assert_eq!(chatroom.moderator(), 0);

    chatroom.change_moderator(2);
    assert_eq!(chatroom.moderator(), 2)
}

#[test]
fn test_waitlist_working() {
    let chatroom = new_test_chatroom(four_user_spec());
    let want = VecDeque::from(vec![
        (0, "test_username".to_string()),
        (2, "test_username".to_string()),
    ]);
    let got = chatroom.waitlist_djs();

    assert_eq!(got, &want)
}

#[test]
fn test_join_waitlist_requires_membership() {
    let mut chatroom = new_test_chatroom(four_user_spec());
    assert_eq!(chatroom.waitlist_djs().len(), 2);

    // user id 9 is not in the room, so the waitlist must not change
    let joined = chatroom.join_waitlist(9);
    assert!(!joined);
    assert_eq!(chatroom.waitlist_djs().len(), 2);
}

#[test]
fn test_join_waitlist_twice_is_noop() {
    let mut chatroom = new_test_chatroom(four_user_spec());
    assert_eq!(chatroom.waitlist_djs().len(), 2);

    // user 0 already holds a slot
    let joined = chatroom.join_waitlist(0);
    assert!(!joined);
    assert_eq!(chatroom.waitlist_djs().len(), 2);
}

#[test]
fn test_leave_waitlist() {
    let mut chatroom = new_test_chatroom(four_user_spec());
    assert_eq!(chatroom.waitlist_djs().len(), 2);

    assert!(chatroom.leave_waitlist(0));
    assert_eq!(chatroom.waitlist_djs().len(), 1);
    assert!(!chatroom.leave_waitlist(0));
}

#[test]
fn test_chatroom_join_returns_whether_added() {
    let mut chatroom = new_test_chatroom(four_user_spec());
    assert!(chatroom.join(ChatUser(17, "newcomer".to_string())));
    assert!(!chatroom.join(ChatUser(17, "newcomer".to_string())));
    assert_eq!(chatroom.len(), 5);
}

#[test]
fn test_chatroom_leave_absent_user() {
    let mut chatroom = new_test_chatroom(four_user_spec());
    assert!(!chatroom.leave(99));
    assert_eq!(chatroom.len(), 4);
}
