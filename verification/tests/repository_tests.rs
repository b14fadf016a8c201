use share_it::repositories::Repository;
use share_it::test_tools::factories::{new_test_playlist, new_test_user};
use share_it::test_tools::mocks::MockUserRepository;

#[test]
fn test_add_user() {
    let user_id = 0;
    let test_user = new_test_user(user_id);
    let mut user_repo = MockUserRepository::new();
    let _ = user_repo.insert(&test_user);
    let success_result = user_repo.get(&user_id).unwrap();

    assert_eq!(&success_result.unwrap(), &test_user)
}

#[test]
fn test_cant_add_duplicate() {
    let user_id = 0;
    let test_user = new_test_user(user_id);
    let mut user_repo = MockUserRepository::new();
    let returned_user = user_repo.insert(&test_user).unwrap();
    assert!(returned_user.is_some());

    let success_result = user_repo.get(&user_id).unwrap();
    assert_eq!(&success_result.unwrap(), &test_user);

    let failure_result = user_repo.insert(&test_user).unwrap();
    assert!(failure_result.is_none());
}

#[test]
fn test_update_user() {
    let user_id = 0;
    let mut test_user = new_test_user(user_id);
    let mut user_repo = MockUserRepository::new();
    let returned_user = user_repo.insert(&test_user).unwrap();
    assert!(returned_user.is_some());

    let original_user = test_user.clone();

    let new_playlist = new_test_playlist(user_id, 0);
    test_user.add_playlist(new_playlist);
    user_repo.update(&test_user).unwrap();

    let updated_user = user_repo.get(&user_id).unwrap();
    assert_ne!(Some(original_user), updated_user)
}

#[test]
fn test_remove_user() {
    let user_id = 0;
    let test_user = new_test_user(user_id);
    let mut user_repo = MockUserRepository::new();
    let _ = user_repo.insert(&test_user);

    // we first check that user is in repo
    assert!(user_repo.contains(&user_id).unwrap());

    let _ = user_repo.remove(&user_id);
    assert!(!user_repo.contains(&user_id).unwrap())
}

#[test]
fn test_update_absent_user_returns_none() {
    let mut user_repo = MockUserRepository::new();
    let test_user = new_test_user(5);
    assert_eq!(user_repo.update(&test_user).unwrap(), None);
}

#[test]
fn test_remove_absent_user_returns_none() {
    let mut user_repo = MockUserRepository::new();
    assert_eq!(user_repo.remove(&9).unwrap(), None);
}
