use share_it::repositories::Repository;
use share_it::services::{
    ChatroomHandler, CreateChatroomCmd, Handles, JoinChatroomCmd, JoinWaitlistCmd,
    LeaveChatroomCmd, LeaveWaitlistCmd, ListWaistlistDJs,
};
use share_it::test_tools::factories::new_test_user;
use share_it::test_tools::mocks::{MockChatroomRepository, MockUserRepository};
use share_it::user::User;

fn handler_with_users(
    user_ids: &[u32],
) -> ChatroomHandler<MockChatroomRepository, MockUserRepository> {
    let mut users = MockUserRepository::new();
    for id in user_ids {
        let _ = users.insert(&new_test_user(*id));
    }
    ChatroomHandler::new(MockChatroomRepository::new(), users)
}

#[test]
fn test_handler_create_chatroom() {
    let mut handler = handler_with_users(&[0, 1]);
    let key = handler
        .handle(CreateChatroomCmd { creating_user: 0, chatroom_name: "room".to_string() })
        .unwrap();
    assert!(key.is_some());
}

#[test]
fn test_handler_join_and_leave_chatroom() {
    let mut handler = handler_with_users(&[0, 1]);
    let key = handler
        .handle(CreateChatroomCmd { creating_user: 0, chatroom_name: "room".to_string() })
        .unwrap()
        .unwrap();

    let joined = handler.handle(JoinChatroomCmd { chatroom_id: key, user_id: 1 }).unwrap();
    assert_eq!(joined, Some(()));

    // joining twice changes nothing
    let rejoined = handler.handle(JoinChatroomCmd { chatroom_id: key, user_id: 1 }).unwrap();
    assert_eq!(rejoined, None);

    let left = handler.handle(LeaveChatroomCmd { chatroom_id: key, user_id: 1 }).unwrap();
    assert_eq!(left, Some(()));

    // an unknown room id does nothing
    let missing = handler.handle(JoinChatroomCmd { chatroom_id: key + 1, user_id: 1 }).unwrap();
    assert_eq!(missing, None);
}

#[test]
fn test_handler_waitlist_round_trip() {
    let mut handler = handler_with_users(&[0, 1]);
    let key = handler
        .handle(CreateChatroomCmd { creating_user: 0, chatroom_name: "room".to_string() })
        .unwrap()
        .unwrap();

    handler.handle(JoinChatroomCmd { chatroom_id: key, user_id: 1 }).unwrap();

    // a non-member cannot join the waitlist
    let outsider = handler.handle(JoinWaitlistCmd { chatroom_id: key, user_id: 0 }).unwrap();
    assert_eq!(outsider, None);

    let joined = handler.handle(JoinWaitlistCmd { chatroom_id: key, user_id: 1 }).unwrap();
    assert_eq!(joined, Some(()));

    let djs = handler.handle(ListWaistlistDJs { chatroom_id: key }).unwrap().unwrap();
    assert_eq!(djs.len(), 1);
    assert_eq!(djs.front().unwrap().0, 1);

    let left = handler.handle(LeaveWaitlistCmd { chatroom_id: key, user_id: 1 }).unwrap();
    assert_eq!(left, Some(()));

    let djs = handler.handle(ListWaistlistDJs { chatroom_id: key }).unwrap().unwrap();
    assert_eq!(djs.len(), 0);
}

#[test]
fn test_user_from_soundcloud_user() {
    let s_user = share_it::soundcloud_api::SoundcloudUser {
        id: 3207,
        username: "someone".to_string(),
        uri: "https://api.soundcloud.com/users/3207".to_string(),
        permalink_url: "https://soundcloud.com/someone".to_string(),
        avatar_url: "https://cdn.example/avatar.jpg".to_string(),
    };
    let u = User::from(s_user);
    assert_eq!(u.id(), 3207);
    assert_eq!(u.username, "someone");
    assert_eq!(u.active_playlist(), None);
    assert_eq!(u.playlist_count(), 0);
}

#[test]
fn test_song_from_soundcloud_track() {
    let s_track = share_it::soundcloud_api::SoundcloudTrack {
        id: 13158665,
        user_id: 3699101,
        duration_ms: 18109,
        sharing: "public".to_string(),
        title: "a title".to_string(),
        permalink: "a-title".to_string(),
        permalink_url: "https://soundcloud.com/u/a-title".to_string(),
        artwork_url: None,
        stream_url: "https://api.soundcloud.com/tracks/13158665/stream".to_string(),
        user: share_it::soundcloud_api::SoundcloudUser {
            id: 3699101,
            username: "owner".to_string(),
            uri: "https://api.soundcloud.com/users/3699101".to_string(),
            permalink_url: "https://soundcloud.com/owner".to_string(),
            avatar_url: "https://cdn.example/a.png".to_string(),
        },
    };
    let s = share_it::song::Song::from(s_track);
    assert_eq!(s.id(), 13158665);
    assert_eq!(s.username, "owner");
}
