//! The room: membership roster, moderator designation, and the embedded
//! waitlist it mediates access to.

use vstd::prelude::*;
use std::collections::VecDeque;
use crate::song::Song;
use crate::user::User;
use crate::repositories::Repository;
use crate::waitlist::{Waitlist, DJ};
use crate::ids::generate_id;

verus! {

/// A room member: a (user id, username) pair.
pub struct ChatUser(pub u32, pub String);

impl Clone for ChatUser {
    fn clone(&self) -> (r: Self)
        ensures
            r == *self,
    {
        ChatUser(self.0, self.1.clone())
    }
}

/// A collaborative listening room.  The roster holds at most one entry per
/// user id; joining the embedded waitlist requires room membership first.
pub struct Chatroom<T: Repository<u32, User>> {
    pub id: u128,
    pub name: String,
    pub moderator: u32,
    pub waitlist: Waitlist<T>,
    pub current_users: Vec<ChatUser>,
}

/// The mathematical value of a [`Chatroom`]: the room state and the embedded
/// waitlist's value.  The user store behind the waitlist is not part of it.
#[verifier::ext_equal]
pub struct ChatroomV {
    pub id: u128,
    pub name: String,
    pub moderator: u32,
    pub waitlist: crate::waitlist::WaitlistV,
    pub current_users: Seq<ChatUser>,
}

impl ChatroomV {
    /// Whether some roster entry carries the given user id.
    pub open spec fn has_member(self, user_id: u32) -> bool {
        exists|i: int| 0 <= i < self.current_users.len() && self.current_users[i].0 == user_id
    }

    /// Whether some waitlist entry carries the given user id.
    pub open spec fn queue_has(self, user_id: u32) -> bool {
        exists|i: int| 0 <= i < self.waitlist.queue.len() && self.waitlist.queue[i].0 == user_id
    }

    /// Roster and queue each hold at most one entry per user id.
    pub open spec fn wf(self) -> bool {
        &&& forall|i: int, j: int|
            0 <= i < j < self.current_users.len() ==> self.current_users[i].0
                != self.current_users[j].0
        &&& self.waitlist.wf()
    }
}

impl<T: Repository<u32, User>> View for Chatroom<T> {
    type V = ChatroomV;

    open spec fn view(&self) -> ChatroomV {
        ChatroomV {
            id: self.id,
            name: self.name,
            moderator: self.moderator,
            waitlist: self.waitlist@,
            current_users: self.current_users@,
        }
    }
}

impl<T: Repository<u32, User>> Chatroom<T> {
    /// The roster holds at most one entry per user id.
    pub open spec fn roster_wf(&self) -> bool {
        forall|i: int, j: int|
            0 <= i < j < self.current_users@.len() ==> self.current_users@[i].0
                != self.current_users@[j].0
    }

    pub open spec fn wf(&self) -> bool {
        &&& self.roster_wf()
        &&& self.waitlist.wf()
    }

    /// Whether some roster entry carries the given user id.
    pub open spec fn spec_in_roster(&self, user_id: u32) -> bool {
        exists|i: int| 0 <= i < self.current_users@.len() && self.current_users@[i].0 == user_id
    }

    /// Creates a room with the creating user as moderator and a fresh, empty
    /// waitlist over the given user store.
    pub fn new(user_repo: T, creating_user: u32, chatroom_name: String) -> (c: Chatroom<T>)
        ensures
            c.name == chatroom_name,
            c.moderator == creating_user,
            c.current_users@ == Seq::<ChatUser>::empty(),
            c.waitlist.users == user_repo,
            c.waitlist.current_dj is None,
            c.waitlist.current_playlist is None,
            c.waitlist.queue@ == Seq::<DJ>::empty(),
            c.wf(),
    {
        Chatroom {
            id: generate_id(),
            name: chatroom_name,
            moderator: creating_user,
            waitlist: Waitlist::new(user_repo),
            current_users: Vec::new(),
        }
    }

    pub fn moderator(&self) -> (r: u32)
        ensures
            r == self.moderator,
    {
        self.moderator
    }

    /// Unconditional reassignment; no membership check is made.
    pub fn change_moderator(&mut self, new_moderator: u32)
        ensures
            final(self).moderator == new_moderator,
            final(self).id == old(self).id,
            final(self).name == old(self).name,
            final(self).waitlist == old(self).waitlist,
            final(self).current_users == old(self).current_users,
    {
        self.moderator = new_moderator;
    }

    /// Adds the user to the roster iff their id is not already present;
    /// returns whether they were added.
    pub fn join(&mut self, user: ChatUser) -> (r: bool)
        requires
            old(self).wf(),
        ensures
            final(self).wf(),
            final(self).id == old(self).id,
            final(self).name == old(self).name,
            final(self).moderator == old(self).moderator,
            final(self).waitlist == old(self).waitlist,
            old(self).spec_in_roster(user.0) ==> final(self).current_users@ == old(
                self,
            ).current_users@ && r == false,
            !old(self).spec_in_roster(user.0) ==> final(self).current_users@ == old(
                self,
            ).current_users@.push(user) && r == true,
    {
        if self.in_roster(user.0) {
            return false;
        }
        self.current_users.push(user);
        true
    }

    /// Removes the roster entry matching the user id, if there is one (by
    /// well-formedness at most one can match); returns whether a change
    /// occurred.  The user's waitlist slot, if any, is left alone.
    pub fn leave(&mut self, user_id: u32) -> (r: bool)
        requires
            old(self).wf(),
        ensures
            final(self).wf(),
            final(self).id == old(self).id,
            final(self).name == old(self).name,
            final(self).moderator == old(self).moderator,
            final(self).waitlist == old(self).waitlist,
            !old(self).spec_in_roster(user_id) ==> final(self).current_users@ == old(
                self,
            ).current_users@ && r == false,
            old(self).spec_in_roster(user_id) ==> r == true && exists|i: int|
                0 <= i < old(self).current_users@.len() && old(self).current_users@[i].0 == user_id
                    && final(self).current_users@ == old(self).current_users@.remove(i),
    {
        let n: usize = self.current_users.len();
        let mut i: usize = 0;
        while i < n
            invariant
                n == self.current_users@.len(),
                i <= n,
                *self == *old(self),
                self.wf(),
                forall|k: int| 0 <= k < i ==> self.current_users@[k].0 != user_id,
            decreases n - i,
        {
            if self.current_users[i].0 == user_id {
                self.current_users.remove(i);
                proof {
                    lemma_roster_remove_preserves_wf(old(self).current_users@, i as int);
                }
                return true;
            }
            i += 1;
        }
        false
    }

    /// Puts the user on the waitlist, provided they are a room member: a
    /// non-member changes nothing.  Returns whether the waitlist changed
    /// (a member already holding a slot changes nothing either).
    pub fn join_waitlist(&mut self, user_id: u32) -> (r: bool)
        requires
            old(self).wf(),
        ensures
            final(self).wf(),
            final(self).id == old(self).id,
            final(self).name == old(self).name,
            final(self).moderator == old(self).moderator,
            final(self).current_users == old(self).current_users,
            final(self).waitlist.id == old(self).waitlist.id,
            final(self).waitlist.users == old(self).waitlist.users,
            final(self).waitlist.current_dj == old(self).waitlist.current_dj,
            final(self).waitlist.current_playlist == old(self).waitlist.current_playlist,
            !old(self).spec_in_roster(user_id) ==> final(self).waitlist.queue@ == old(
                self,
            ).waitlist.queue@ && r == false,
            old(self).spec_in_roster(user_id) && old(self).waitlist.spec_contains_user(user_id)
                ==> final(self).waitlist.queue@ == old(self).waitlist.queue@ && r == false,
            old(self).spec_in_roster(user_id) && !old(self).waitlist.spec_contains_user(user_id)
                ==> r == true && exists|i: int|
                0 <= i < old(self).current_users@.len() && old(self).current_users@[i].0 == user_id
                    && final(self).waitlist.queue@ == old(self).waitlist.queue@.push(
                    (user_id, old(self).current_users@[i].1),
                ),
    {
        let n: usize = self.current_users.len();
        let mut i: usize = 0;
        while i < n
            invariant
                n == self.current_users@.len(),
                i <= n,
                *self == *old(self),
                self.wf(),
                forall|k: int| 0 <= k < i ==> self.current_users@[k].0 != user_id,
            decreases n - i,
        {
            if self.current_users[i].0 == user_id {
                let dj: DJ = (self.current_users[i].0, self.current_users[i].1.clone());
                return self.waitlist.join(dj);
            }
            i += 1;
        }
        false
    }

    /// Takes the user off the waitlist; returns whether a change occurred.
    pub fn leave_waitlist(&mut self, user_id: u32) -> (r: bool)
        requires
            old(self).wf(),
        ensures
            final(self).wf(),
            final(self).id == old(self).id,
            final(self).name == old(self).name,
            final(self).moderator == old(self).moderator,
            final(self).current_users == old(self).current_users,
            final(self).waitlist.id == old(self).waitlist.id,
            final(self).waitlist.users == old(self).waitlist.users,
            final(self).waitlist.current_dj == old(self).waitlist.current_dj,
            final(self).waitlist.current_playlist == old(self).waitlist.current_playlist,
            !old(self).waitlist.spec_contains_user(user_id) ==> final(self).waitlist.queue@ == old(
                self,
            ).waitlist.queue@ && r == false,
            old(self).waitlist.spec_contains_user(user_id) ==> r == true && exists|i: int|
                0 <= i < old(self).waitlist.queue@.len() && old(self).waitlist.queue@[i].0
                    == user_id && final(self).waitlist.queue@ == old(self).waitlist.queue@.remove(
                    i,
                ),
    {
        self.waitlist.leave(user_id)
    }

    /// How many users are in the room.
    pub fn len(&self) -> (r: usize)
        ensures
            r == self.current_users@.len(),
    {
        self.current_users.len()
    }

    /// The waitlist order, front first.
    pub fn waitlist_djs(&self) -> (r: &VecDeque<DJ>)
        ensures
            r@ == self.waitlist.queue@,
    {
        self.waitlist.djs()
    }

    /// Advances the rotation of the embedded waitlist; see
    /// [`Waitlist::play_next`].
    pub fn play_next(&mut self) -> (r: Result<Option<Song>, T::Error>)
        requires
            old(self).wf(),
            Waitlist::<T>::keyed_by_id(),
        ensures
            final(self).wf(),
            final(self).id == old(self).id,
            final(self).name == old(self).name,
            final(self).moderator == old(self).moderator,
            final(self).current_users == old(self).current_users,
            Waitlist::<T>::play_next_post(old(self).waitlist, final(self).waitlist, r),
    {
        self.waitlist.play_next()
    }

    /// Decides well-formedness of roster and queue, for values of unknown
    /// provenance (a record fetched from storage).
    pub fn check_wf(&self) -> (r: bool)
        ensures
            r == self.wf(),
            r == self@.wf(),
    {
        proof {
            assert(self@.current_users == self.current_users@);
        }
        let n: usize = self.current_users.len();
        let mut i: usize = 0;
        while i < n
            invariant
                n == self.current_users@.len(),
                i <= n,
                forall|x: int, y: int|
                    0 <= x < y < i ==> self.current_users@[x].0 != self.current_users@[y].0,
            decreases n - i,
        {
            let mut j: usize = 0;
            while j < i
                invariant
                    n == self.current_users@.len(),
                    j <= i < n,
                    forall|x: int|
                        0 <= x < j ==> self.current_users@[x].0 != self.current_users@[i as int].0,
                decreases i - j,
            {
                if self.current_users[j].0 == self.current_users[i].0 {
                    proof {
                        assert(self@.current_users[j as int].0 == self@.current_users[i as int].0);
                        assert(!self@.wf());
                        assert(!self.wf());
                    }
                    return false;
                }
                j += 1;
            }
            i += 1;
        }
        proof {
            assert forall|x: int, y: int|
                0 <= x < y < self@.current_users.len() implies self@.current_users[x].0
                != self@.current_users[y].0 by {
                assert(self@.current_users[x] == self.current_users@[x]);
                assert(self@.current_users[y] == self.current_users@[y]);
            }
        }
        let queue_ok = self.waitlist.check_wf();
        proof {
            assert(self@.waitlist == self.waitlist@);
        }
        queue_ok
    }

    fn in_roster(&self, user_id: u32) -> (r: bool)
        ensures
            r == self.spec_in_roster(user_id),
    {
        let n: usize = self.current_users.len();
        let mut i: usize = 0;
        while i < n
            invariant
                n == self.current_users@.len(),
                i <= n,
                forall|k: int| 0 <= k < i ==> self.current_users@[k].0 != user_id,
            decreases n - i,
        {
            if self.current_users[i].0 == user_id {
                return true;
            }
            i += 1;
        }
        false
    }
}

impl<T: Repository<u32, User> + Clone> Clone for Chatroom<T> {
    /// The clone shares no storage with the original; the embedded
    /// waitlist's user store is cloned by its own `Clone`, of which nothing
    /// further is known here.
    fn clone(&self) -> (r: Self)
        ensures
            r.id == self.id,
            r.name == self.name,
            r.moderator == self.moderator,
            r.current_users@ == self.current_users@,
            r.waitlist.id == self.waitlist.id,
            r.waitlist.queue@ == self.waitlist.queue@,
            r.waitlist.dj_view() == self.waitlist.dj_view(),
            r.waitlist.current_playlist == self.waitlist.current_playlist,
    {
        Chatroom {
            id: self.id,
            name: self.name.clone(),
            moderator: self.moderator,
            waitlist: self.waitlist.clone(),
            current_users: clone_roster(&self.current_users),
        }
    }
}

fn clone_roster(v: &Vec<ChatUser>) -> (r: Vec<ChatUser>)
    ensures
        r@ == v@,
{
    let n: usize = v.len();
    let mut r: Vec<ChatUser> = Vec::new();
    let mut i: usize = 0;
    while i < n
        invariant
            n == v@.len(),
            i <= n,
            r@.len() == i,
            forall|k: int| 0 <= k < i ==> r@[k] == v@[k],
        decreases n - i,
    {
        r.push(v[i].clone());
        i += 1;
    }
    proof {
        assert(r@ =~= v@);
    }
    r
}

/// Removing one roster entry preserves the uniqueness of user ids.
proof fn lemma_roster_remove_preserves_wf(s: Seq<ChatUser>, i: int)
    requires
        0 <= i < s.len(),
        forall|x: int, y: int| 0 <= x < y < s.len() ==> s[x].0 != s[y].0,
    ensures
        forall|x: int, y: int|
            0 <= x < y < s.remove(i).len() ==> s.remove(i)[x].0 != s.remove(i)[y].0,
{
    let r = s.remove(i);
    assert forall|x: int, y: int| 0 <= x < y < r.len() implies r[x].0 != r[y].0 by {
        assert(r[x] == (if x < i {
            s[x]
        } else {
            s[x + 1]
        }));
        assert(r[y] == (if y < i {
            s[y]
        } else {
            s[y + 1]
        }));
    }
}

} // verus!
