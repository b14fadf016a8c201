//! Ready-made values and aggregates for exercising the library.

use vstd::prelude::*;
use crate::song::Song;
use crate::playlist::Playlist;
use crate::user::{User, UserV};
use crate::waitlist::Waitlist;
use crate::chatroom::{Chatroom, ChatUser};
use crate::repositories::Repository;
use crate::test_tools::mocks::MockUserRepository;

verus! {

/// How to lay out a waitlist under test.
pub struct TestWaitlistSpec {
    pub user_count: u32,
    pub playlist_per_user: u32,
    pub song_per_playlist: u32,
    /// Which user (counted from 1) forgot to set their active playlist.
    pub which_forgot_active: Option<u32>,
}

/// How to lay out a chatroom under test.
pub struct TestChatroomSpec {
    pub chatroom_user_count: u32,
    pub playlist_per_user: u32,
    pub song_per_playlist: u32,
    /// Which user (counted from 1) is the room moderator.
    pub moderator_user: u32,
    /// Which users (counted from 1) joined the waitlist.
    pub which_joined_waitlist: Vec<u32>,
    /// Which user (counted from 1) forgot to set their active playlist.
    pub which_forgot_active: Option<u32>,
}

/// Whether the user with this id is the one the spec says forgot to set an
/// active playlist (the spec counts users from 1).
pub open spec fn spec_forgot_active(which: Option<u32>, user_id: u32) -> bool {
    match which {
        Some(n) => n == user_id + 1,
        None => false,
    }
}

/// Whether the user with this id is listed as having joined the waitlist
/// (the spec counts users from 1).
pub open spec fn spec_selected(which: Seq<u32>, user_id: u32) -> bool {
    exists|i: int| 0 <= i < which.len() && which[i] == user_id + 1
}

/// The shape of a factory-built stored user: one playlist of songs numbered
/// from zero, with the active-playlist selector on it unless the user
/// "forgot" to set it.
pub open spec fn is_test_user(u: UserV, user_id: u32, song_count: u32, forgot_active: bool) -> bool {
    &&& u.id == user_id
    &&& u.playlists.len() == 1
    &&& u.playlists[0].songs.len() == song_count
    &&& (forall|i: int|
        0 <= i < song_count ==> (#[trigger] u.playlists[0].songs[i]).id == i
            && u.playlists[0].songs[i].user_id == user_id)
    &&& (if forgot_active {
        u.active_playlist is None
    } else {
        u.active_playlist == Some(u.playlists[0].id)
    })
    &&& u.wf()
}

/// A song with fixed metadata, carrying the given song and owner ids.
pub fn new_test_song(song_id: u32, user_id: u32) -> (s: Song)
    ensures
        s.id == song_id,
        s.user_id == user_id,
{
    Song::new(
        song_id,
        user_id,
        111,
        "test username".to_string(),
        "test song".to_string(),
        "public".to_string(),
        "test-song".to_string(),
        "https://www.soundcloud.com/test-user/test-song".to_string(),
        Some("https://www.artwork.com/test-art.jpg".to_string()),
        "https://api.soundcloud.com/tracks/22".to_string(),
    )
}

/// A user with fixed identity fields, no playlists and no active playlist.
pub fn new_test_user(user_id: u32) -> (u: User)
    ensures
        u@.id == user_id,
        u@.username@ == "test_username"@,
        u@.active_playlist is None,
        u@.playlists == Seq::<crate::playlist::PlaylistV>::empty(),
        u@.wf(),
{
    User::new(
        user_id,
        "test_username".to_string(),
        "test_avatar_url".to_string(),
        "permalink_url".to_string(),
    )
}

/// A playlist of `song_count` songs owned by the given user, with song ids
/// counting up from zero.
pub fn new_test_playlist(user_id: u32, song_count: u32) -> (p: Playlist)
    ensures
        p.wf(),
        p.songs@.len() == song_count,
        forall|i: int|
            0 <= i < song_count ==> (#[trigger] p.songs@[i]).id == i && p.songs@[i].user_id
                == user_id,
{
    let mut playlist = Playlist::new("Test Playlist".to_string());
    let mut i: u32 = 0;
    while i < song_count
        invariant
            i <= song_count,
            playlist.wf(),
            playlist.songs@.len() == i,
            forall|k: int|
                0 <= k < i ==> (#[trigger] playlist.songs@[k]).id == k && playlist.songs@[k].user_id
                    == user_id,
        decreases song_count - i,
    {
        let song = new_test_song(i, user_id);
        playlist.add_song(song);
        i += 1;
    }
    playlist
}

/// Builds one test user with their playlist and stores them; a user id
/// already present in the store is left as it is (insert never overwrites).
fn setup_test_user(repo: &mut MockUserRepository, user_id: u32, song_count: u32, forgot_active: bool)
    ensures
        old(repo).entries().contains_key(user_id) ==> final(repo).entries() == old(repo).entries(),
        !old(repo).entries().contains_key(user_id) ==> final(repo).entries() == old(
            repo,
        ).entries().insert(user_id, final(repo).entries()[user_id]) && is_test_user(
            final(repo).entries()[user_id],
            user_id,
            song_count,
            forgot_active,
        ),
{
    let mut user = new_test_user(user_id);
    let playlist = new_test_playlist(user_id, song_count);
    let pid: u128 = playlist.id;
    if !forgot_active {
        user.set_active_playlist(pid);
    }
    user.add_playlist(playlist);
    proof {
        assert(is_test_user(user@, user_id, song_count, forgot_active));
    }
    let result = repo.insert(&user);
    proof {
        if !old(repo).entries().contains_key(user_id) {
            assert(result matches Ok(o) && o is Some);
            assert(repo.entries() =~= old(repo).entries().insert(
                user_id,
                repo.entries()[user_id],
            ));
        }
    }
}

/// A waitlist over a fresh in-memory store, populated as the spec says: one
/// playlist per user, every user joined in id order.
pub fn new_test_waitlist(spec: TestWaitlistSpec) -> (w: Waitlist<MockUserRepository>)
    ensures
        w.wf(),
        w.current_dj is None,
        w.current_playlist is None,
        w.queue@.len() == spec.user_count,
        forall|k: int|
            0 <= k < spec.user_count ==> (#[trigger] w.queue@[k]).0 == k && w.queue@[k].1@
                == "test_username"@,
        w.users.entries().dom() == Set::new(|k: u32| k < spec.user_count),
        forall|k: u32|
            k < spec.user_count ==> is_test_user(
                #[trigger] w.users.entries()[k],
                k,
                spec.song_per_playlist,
                spec_forgot_active(spec.which_forgot_active, k),
            ),
{
    let repo = MockUserRepository::new();
    let w = new_test_waitlist_with_repo(spec, repo);
    proof {
        assert(w.users.entries().dom() =~= Set::new(|k: u32| k < spec.user_count));
    }
    w
}

/// Like [`new_test_waitlist`], but over a caller-supplied store; the store
/// is afterwards reachable as the waitlist's `users` field.  User ids that
/// the store already holds keep their stored record.
pub fn new_test_waitlist_with_repo(spec: TestWaitlistSpec, repo: MockUserRepository) -> (w: Waitlist<
    MockUserRepository,
>)
    ensures
        w.wf(),
        w.current_dj is None,
        w.current_playlist is None,
        w.queue@.len() == spec.user_count,
        forall|k: int|
            0 <= k < spec.user_count ==> (#[trigger] w.queue@[k]).0 == k && w.queue@[k].1@
                == "test_username"@,
        w.users.entries().dom() == repo.entries().dom() + Set::new(
            |k: u32| k < spec.user_count,
        ),
        forall|k: u32|
            #[trigger] repo.entries().contains_key(k) ==> w.users.entries()[k]
                == repo.entries()[k],
        forall|k: u32|
            k < spec.user_count && !repo.entries().contains_key(k) ==> is_test_user(
                #[trigger] w.users.entries()[k],
                k,
                spec.song_per_playlist,
                spec_forgot_active(spec.which_forgot_active, k),
            ),
{
    let mut user_repo = repo;
    let mut i: u32 = 0;
    while i < spec.user_count
        invariant
            i <= spec.user_count,
            user_repo.entries().dom() == repo.entries().dom() + Set::new(|k: u32| k < i),
            forall|k: u32|
                #[trigger] repo.entries().contains_key(k) ==> user_repo.entries()[k]
                    == repo.entries()[k],
            forall|k: u32|
                k < i && !repo.entries().contains_key(k) ==> is_test_user(
                    #[trigger] user_repo.entries()[k],
                    k,
                    spec.song_per_playlist,
                    spec_forgot_active(spec.which_forgot_active, k),
                ),
        decreases spec.user_count - i,
    {
        let forgot = match spec.which_forgot_active {
            Some(user_num) => user_num == i + 1,
            None => false,
        };
        setup_test_user(&mut user_repo, i, spec.song_per_playlist, forgot);
        proof {
            assert(user_repo.entries().dom() =~= repo.entries().dom() + Set::new(
                |k: u32| k < i + 1,
            ));
        }
        i += 1;
    }
    let ghost stored = user_repo.entries();
    let mut waitlist = Waitlist::new(user_repo);
    let mut j: u32 = 0;
    while j < spec.user_count
        invariant
            j <= spec.user_count,
            waitlist.wf(),
            waitlist.current_dj is None,
            waitlist.current_playlist is None,
            waitlist.users.entries() == stored,
            waitlist.queue@.len() == j,
            forall|k: int|
                0 <= k < j ==> (#[trigger] waitlist.queue@[k]).0 == k && waitlist.queue@[k].1@
                    == "test_username"@,
        decreases spec.user_count - j,
    {
        waitlist.join((j, "test_username".to_string()));
        j += 1;
    }
    waitlist
}

/// A chatroom over a fresh in-memory store, populated as the spec says; the
/// listed users have already joined the waitlist, in id order.
pub fn new_test_chatroom(spec: TestChatroomSpec) -> (c: Chatroom<MockUserRepository>)
    requires
        spec.moderator_user >= 1,
    ensures
        c.wf(),
        c.moderator == spec.moderator_user - 1,
        c.current_users@.len() == spec.chatroom_user_count,
        forall|k: int|
            0 <= k < spec.chatroom_user_count ==> (#[trigger] c.current_users@[k]).0 == k
                && c.current_users@[k].1@ == "test_username"@,
        c.waitlist.current_dj is None,
        c.waitlist.current_playlist is None,
        c.waitlist.users.entries().dom() == Set::new(|k: u32| k < spec.chatroom_user_count),
        forall|k: u32|
            k < spec.chatroom_user_count ==> is_test_user(
                #[trigger] c.waitlist.users.entries()[k],
                k,
                spec.song_per_playlist,
                spec_forgot_active(spec.which_forgot_active, k),
            ),
        forall|q: int|
            0 <= q < c.waitlist.queue@.len() ==> (#[trigger] c.waitlist.queue@[q]).0
                < spec.chatroom_user_count && spec_selected(
                spec.which_joined_waitlist@,
                c.waitlist.queue@[q].0,
            ) && c.waitlist.queue@[q].1@ == "test_username"@,
        forall|q1: int, q2: int|
            0 <= q1 < q2 < c.waitlist.queue@.len() ==> c.waitlist.queue@[q1].0
                < c.waitlist.queue@[q2].0,
        forall|m: u32|
            m < spec.chatroom_user_count && #[trigger] spec_selected(
                spec.which_joined_waitlist@,
                m,
            ) ==> exists|q: int| 0 <= q < c.waitlist.queue@.len() && (#[trigger] c.waitlist.queue@[q]).0 == m,
{
    let mut user_repo = MockUserRepository::new();
    let mut i: u32 = 0;
    while i < spec.chatroom_user_count
        invariant
            i <= spec.chatroom_user_count,
            user_repo.entries().dom() == Set::new(|k: u32| k < i),
            forall|k: u32|
                k < i ==> is_test_user(
                    #[trigger] user_repo.entries()[k],
                    k,
                    spec.song_per_playlist,
                    spec_forgot_active(spec.which_forgot_active, k),
                ),
        decreases spec.chatroom_user_count - i,
    {
        let forgot = match spec.which_forgot_active {
            Some(user_num) => user_num == i + 1,
            None => false,
        };
        proof {
            assert(!user_repo.entries().contains_key(i));
        }
        setup_test_user(&mut user_repo, i, spec.song_per_playlist, forgot);
        proof {
            assert(user_repo.entries().dom() =~= Set::new(|k: u32| k < i + 1));
        }
        i += 1;
    }
    let ghost stored = user_repo.entries();
    let mut chatroom = Chatroom::new(user_repo, spec.moderator_user - 1, "Test Chatroom".to_string());
    let mut j: u32 = 0;
    while j < spec.chatroom_user_count
        invariant
            j <= spec.chatroom_user_count,
            chatroom.wf(),
            chatroom.moderator == spec.moderator_user - 1,
            chatroom.waitlist.current_dj is None,
            chatroom.waitlist.current_playlist is None,
            chatroom.waitlist.users.entries() == stored,
            chatroom.current_users@.len() == j,
            forall|k: int|
                0 <= k < j ==> (#[trigger] chatroom.current_users@[k]).0 == k
                    && chatroom.current_users@[k].1@ == "test_username"@,
            forall|q: int|
                0 <= q < chatroom.waitlist.queue@.len() ==> (
                #[trigger] chatroom.waitlist.queue@[q]).0 < j && spec_selected(
                    spec.which_joined_waitlist@,
                    chatroom.waitlist.queue@[q].0,
                ) && chatroom.waitlist.queue@[q].1@ == "test_username"@,
            forall|q1: int, q2: int|
                0 <= q1 < q2 < chatroom.waitlist.queue@.len() ==> chatroom.waitlist.queue@[q1].0
                    < chatroom.waitlist.queue@[q2].0,
            forall|m: u32|
                m < j && #[trigger] spec_selected(spec.which_joined_waitlist@, m) ==> exists|q: int|
                    0 <= q < chatroom.waitlist.queue@.len() && (
                    #[trigger] chatroom.waitlist.queue@[q]).0 == m,
        decreases spec.chatroom_user_count - j,
    {
        let ghost pre_roster = chatroom.current_users@;
        let ghost pre_queue = chatroom.waitlist.queue@;
        chatroom.join(ChatUser(j, "test_username".to_string()));
        if contains_u32(&spec.which_joined_waitlist, j + 1) {
            proof {
                // the user just joined stands at roster position `j`, and no
                // queue entry carries their id yet
                assert(chatroom.current_users@[j as int].0 == j);
                assert(spec_selected(spec.which_joined_waitlist@, j));
            }
            let ghost mid_queue = chatroom.waitlist.queue@;
            let joined = chatroom.join_waitlist(j);
            proof {
                assert(joined);
                let i = choose|i: int|
                    0 <= i < chatroom.current_users@.len() && chatroom.current_users@[i].0 == j
                        && chatroom.waitlist.queue@ == mid_queue.push(
                        (j, chatroom.current_users@[i].1),
                    );
                assert(chatroom.current_users@[i].0 == i);
                assert(chatroom.waitlist.queue@.last().1@ == "test_username"@);
                assert(chatroom.waitlist.queue@[chatroom.waitlist.queue@.len() - 1].0 == j);
                assert forall|q: int| 0 <= q < mid_queue.len() implies chatroom.waitlist.queue@[q]
                    == mid_queue[q] by {}
            }
        }
        j += 1;
    }
    chatroom
}

fn contains_u32(v: &Vec<u32>, x: u32) -> (r: bool)
    ensures
        r == exists|i: int| 0 <= i < v@.len() && v@[i] == x,
{
    let n: usize = v.len();
    let mut i: usize = 0;
    while i < n
        invariant
            n == v@.len(),
            i <= n,
            forall|k: int| 0 <= k < i ==> v@[k] != x,
        decreases n - i,
    {
        if v[i] == x {
            return true;
        }
        i += 1;
    }
    false
}

} // verus!
