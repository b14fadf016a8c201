//! The command-handler layer: each command maps 1:1 to a chatroom or
//! waitlist operation, wrapped in a fetch-mutate-store sequence against the
//! persistence contract.

use vstd::prelude::*;
use std::collections::VecDeque;
use crate::chatroom::{Chatroom, ChatroomV, ChatUser};
use crate::repositories::Repository;
use crate::user::User;
use crate::waitlist::{DJ, WaitlistV};

verus! {

/// A handler for commands of type `T`.
pub trait Handles<T> {
    type Result;

    fn handle(&mut self, cmd: T) -> Self::Result;
}

pub struct CreateChatroomCmd {
    pub creating_user: u32,
    pub chatroom_name: String,
}

pub struct JoinChatroomCmd {
    pub chatroom_id: u128,
    pub user_id: u32,
}

pub struct LeaveChatroomCmd {
    pub chatroom_id: u128,
    pub user_id: u32,
}

pub struct LoginCmd {}

pub struct JoinWaitlistCmd {
    pub chatroom_id: u128,
    pub user_id: u32,
}

pub struct LeaveWaitlistCmd {
    pub chatroom_id: u128,
    pub user_id: u32,
}

pub struct ListWaistlistDJs {
    pub chatroom_id: u128,
}

pub struct PlayNextCmd {}

pub struct UploadSongCmd {}

/// An error from one of the handler's two stores.
#[derive(Debug)]
pub enum HandlerError<TE, UE> {
    Chatrooms(TE),
    Users(UE),
}

/// A map of stored rooms in which every room sits under its own id.
pub open spec fn rooms_self_keyed(entries: Map<u128, ChatroomV>) -> bool {
    forall|k: u128| #[trigger] entries.contains_key(k) ==> entries[k].id == k
}

/// Handles all chatroom-related commands, over a chatroom store and a user
/// store.
pub struct ChatroomHandler<T, U> where
    T: Repository<u128, Chatroom<U>>,
    U: Repository<u32, User> + Clone,
 {
    pub chatrooms: T,
    pub users: U,
}

impl<T, U> ChatroomHandler<T, U> where
    T: Repository<u128, Chatroom<U>>,
    U: Repository<u32, User> + Clone,
 {
    /// The handler relies on its room store being keyed by room id: a
    /// rewritten room must land back under the id it was fetched from.
    pub open spec fn rooms_keyed_by_id() -> bool {
        forall|v: ChatroomV| #[trigger] T::key_of(v) == v.id
    }

    pub fn new(chatroom_repo: T, user_repo: U) -> (h: ChatroomHandler<T, U>)
        ensures
            h.chatrooms == chatroom_repo,
            h.users == user_repo,
    {
        ChatroomHandler { chatrooms: chatroom_repo, users: user_repo }
    }
}

impl<T, U> Handles<CreateChatroomCmd> for ChatroomHandler<T, U> where
    T: Repository<u128, Chatroom<U>>,
    U: Repository<u32, User> + Clone,
 {
    type Result = Result<Option<u128>, HandlerError<T::Error, U::Error>>;

    /// Creates a room (the creating user becomes moderator) and stores it;
    /// `None` means the generated key was already taken.
    fn handle(&mut self, cmd: CreateChatroomCmd) -> (r: Result<
        Option<u128>,
        HandlerError<T::Error, U::Error>,
    >)
        ensures
            final(self).users.entries() == old(self).users.entries(),
            r matches Ok(o) ==> o matches Some(k) ==> ({
                &&& !old(self).chatrooms.entries().contains_key(k)
                &&& final(self).chatrooms.entries().contains_key(k)
                &&& ({
                    let v = final(self).chatrooms.entries()[k];
                    &&& final(self).chatrooms.entries() == old(self).chatrooms.entries().insert(
                        k,
                        v,
                    )
                    &&& v.name == cmd.chatroom_name
                    &&& v.moderator == cmd.creating_user
                    &&& v.current_users.len() == 0
                    &&& v.waitlist.queue.len() == 0
                    &&& v.waitlist.current_dj is None
                    &&& v.wf()
                })
            }),
            !(r matches Ok(o) && o is Some) ==> final(self).chatrooms.entries() == old(
                self,
            ).chatrooms.entries(),
    {
        let new_chatroom = Chatroom::new(self.users.clone(), cmd.creating_user, cmd.chatroom_name);
        match self.chatrooms.insert(&new_chatroom) {
            Ok(res) => Ok(res),
            Err(e) => Err(HandlerError::Chatrooms(e)),
        }
    }
}

impl<T, U> Handles<JoinChatroomCmd> for ChatroomHandler<T, U> where
    T: Repository<u128, Chatroom<U>>,
    U: Repository<u32, User> + Clone,
 {
    type Result = Result<Option<()>, HandlerError<T::Error, U::Error>>;

    /// Puts the stored user on the stored room's roster and rewrites the
    /// room.  `None` means nothing was to be done: the room or user is
    /// absent, the stored room fails validation, or the user is already a
    /// member.
    fn handle(&mut self, cmd: JoinChatroomCmd) -> (r: Result<
        Option<()>,
        HandlerError<T::Error, U::Error>,
    >)
        ensures
            final(self).users.entries() == old(self).users.entries(),
            (r matches Ok(o) && o is Some) ==> ({
                &&& old(self).chatrooms.entries().contains_key(cmd.chatroom_id)
                &&& old(self).users.entries().contains_key(cmd.user_id)
                &&& ({
                    let pre = old(self).chatrooms.entries()[cmd.chatroom_id];
                    let u = old(self).users.entries()[cmd.user_id];
                    let nv = ChatroomV {
                        current_users: pre.current_users.push(ChatUser(u.id, u.username)),
                        ..pre
                    };
                    &&& pre.wf()
                    &&& !pre.has_member(u.id)
                    &&& final(self).chatrooms.entries() == old(self).chatrooms.entries().insert(
                        T::key_of(nv),
                        nv,
                    )
                })
            }),
            !(r matches Ok(o) && o is Some) ==> final(self).chatrooms.entries() == old(
                self,
            ).chatrooms.entries(),
            (r matches Ok(o) && o is None && Self::rooms_keyed_by_id() && rooms_self_keyed(
                old(self).chatrooms.entries(),
            )) ==> ({
                ||| !old(self).chatrooms.entries().contains_key(cmd.chatroom_id)
                ||| !old(self).chatrooms.entries()[cmd.chatroom_id].wf()
                ||| !old(self).users.entries().contains_key(cmd.user_id)
                ||| old(self).chatrooms.entries()[cmd.chatroom_id].has_member(
                    old(self).users.entries()[cmd.user_id].id,
                )
            }),
    {
        let maybe_chatroom = match self.chatrooms.get(&cmd.chatroom_id) {
            Ok(m) => m,
            Err(e) => {
                return Err(HandlerError::Chatrooms(e));
            },
        };
        let mut chatroom = match maybe_chatroom {
            Some(c) => c,
            None => {
                return Ok(None);
            },
        };
        if !chatroom.check_wf() {
            // A stored room that fails validation is treated as absent.
            return Ok(None);
        }
        let maybe_user = match self.users.get(&cmd.user_id) {
            Ok(m) => m,
            Err(e) => {
                return Err(HandlerError::Users(e));
            },
        };
        let user = match maybe_user {
            Some(u) => u,
            None => {
                return Ok(None);
            },
        };
        let joined = chatroom.join(ChatUser(user.id, user.username));
        if !joined {
            // No work was necessary, so no need to persist.
            proof {
                assert(old(self).chatrooms.entries()[cmd.chatroom_id].has_member(
                    old(self).users.entries()[cmd.user_id].id,
                ));
            }
            return Ok(None);
        }
        let result = match self.chatrooms.update(&chatroom) {
            Ok(res) => res,
            Err(e) => {
                return Err(HandlerError::Chatrooms(e));
            },
        };
        if result.is_none() {
            return Ok(None);
        }
        Ok(Some(()))
    }
}

impl<T, U> Handles<LeaveChatroomCmd> for ChatroomHandler<T, U> where
    T: Repository<u128, Chatroom<U>>,
    U: Repository<u32, User> + Clone,
 {
    type Result = Result<Option<()>, HandlerError<T::Error, U::Error>>;

    /// Takes the user off the stored room's roster and rewrites the room.
    /// `None` means nothing was to be done.
    fn handle(&mut self, cmd: LeaveChatroomCmd) -> (r: Result<
        Option<()>,
        HandlerError<T::Error, U::Error>,
    >)
        ensures
            final(self).users.entries() == old(self).users.entries(),
            (r matches Ok(o) && o is Some) ==> ({
                &&& old(self).chatrooms.entries().contains_key(cmd.chatroom_id)
                &&& ({
                    let pre = old(self).chatrooms.entries()[cmd.chatroom_id];
                    &&& pre.wf()
                    &&& pre.has_member(cmd.user_id)
                    &&& exists|i: int|
                        0 <= i < pre.current_users.len() && pre.current_users[i].0 == cmd.user_id
                            && ({
                            let nv = ChatroomV {
                                current_users: pre.current_users.remove(i),
                                ..pre
                            };
                            final(self).chatrooms.entries() == old(
                                self,
                            ).chatrooms.entries().insert(T::key_of(nv), nv)
                        })
                })
            }),
            !(r matches Ok(o) && o is Some) ==> final(self).chatrooms.entries() == old(
                self,
            ).chatrooms.entries(),
            (r matches Ok(o) && o is None && Self::rooms_keyed_by_id() && rooms_self_keyed(
                old(self).chatrooms.entries(),
            )) ==> ({
                ||| !old(self).chatrooms.entries().contains_key(cmd.chatroom_id)
                ||| !old(self).chatrooms.entries()[cmd.chatroom_id].wf()
                ||| !old(self).chatrooms.entries()[cmd.chatroom_id].has_member(cmd.user_id)
            }),
    {
        let maybe_chatroom = match self.chatrooms.get(&cmd.chatroom_id) {
            Ok(m) => m,
            Err(e) => {
                return Err(HandlerError::Chatrooms(e));
            },
        };
        let mut chatroom = match maybe_chatroom {
            Some(c) => c,
            None => {
                return Ok(None);
            },
        };
        if !chatroom.check_wf() {
            // A stored room that fails validation is treated as absent.
            return Ok(None);
        }
        let left = chatroom.leave(cmd.user_id);
        if !left {
            // No work was necessary, so no need to persist.
            proof {
                assert(!old(self).chatrooms.entries()[cmd.chatroom_id].has_member(cmd.user_id));
            }
            return Ok(None);
        }
        let result = match self.chatrooms.update(&chatroom) {
            Ok(res) => res,
            Err(e) => {
                return Err(HandlerError::Chatrooms(e));
            },
        };
        if result.is_none() {
            return Ok(None);
        }
        proof {
            let pre = old(self).chatrooms.entries()[cmd.chatroom_id];
            let i = choose|i: int|
                0 <= i < pre.current_users.len() && pre.current_users[i].0 == cmd.user_id
                    && chatroom@.current_users == pre.current_users.remove(i);
            let nv = ChatroomV { current_users: pre.current_users.remove(i), ..pre };
            assert(chatroom@ =~= nv);
            assert(0 <= i < pre.current_users.len() && pre.current_users[i].0 == cmd.user_id && ({
                let nv2 = ChatroomV { current_users: pre.current_users.remove(i), ..pre };
                self.chatrooms.entries() == old(self).chatrooms.entries().insert(
                    T::key_of(nv2),
                    nv2,
                )
            }));
        }
        Ok(Some(()))
    }
}

impl<T, U> Handles<JoinWaitlistCmd> for ChatroomHandler<T, U> where
    T: Repository<u128, Chatroom<U>>,
    U: Repository<u32, User> + Clone,
 {
    type Result = Result<Option<()>, HandlerError<T::Error, U::Error>>;

    /// Puts the stored user on the stored room's waitlist, provided they are
    /// a room member, and rewrites the room.  `None` means nothing was to be
    /// done.
    fn handle(&mut self, cmd: JoinWaitlistCmd) -> (r: Result<
        Option<()>,
        HandlerError<T::Error, U::Error>,
    >)
        ensures
            final(self).users.entries() == old(self).users.entries(),
            (r matches Ok(o) && o is Some) ==> ({
                &&& old(self).chatrooms.entries().contains_key(cmd.chatroom_id)
                &&& old(self).users.entries().contains_key(cmd.user_id)
                &&& ({
                    let pre = old(self).chatrooms.entries()[cmd.chatroom_id];
                    let uid = old(self).users.entries()[cmd.user_id].id;
                    &&& pre.wf()
                    &&& pre.has_member(uid)
                    &&& !pre.queue_has(uid)
                    &&& exists|i: int|
                        0 <= i < pre.current_users.len() && pre.current_users[i].0 == uid && ({
                            let nv = ChatroomV {
                                waitlist: WaitlistV {
                                    queue: pre.waitlist.queue.push((uid, pre.current_users[i].1)),
                                    ..pre.waitlist
                                },
                                ..pre
                            };
                            final(self).chatrooms.entries() == old(
                                self,
                            ).chatrooms.entries().insert(T::key_of(nv), nv)
                        })
                })
            }),
            !(r matches Ok(o) && o is Some) ==> final(self).chatrooms.entries() == old(
                self,
            ).chatrooms.entries(),
            (r matches Ok(o) && o is None && Self::rooms_keyed_by_id() && rooms_self_keyed(
                old(self).chatrooms.entries(),
            )) ==> ({
                ||| !old(self).chatrooms.entries().contains_key(cmd.chatroom_id)
                ||| !old(self).chatrooms.entries()[cmd.chatroom_id].wf()
                ||| !old(self).users.entries().contains_key(cmd.user_id)
                ||| ({
                    let pre = old(self).chatrooms.entries()[cmd.chatroom_id];
                    let uid = old(self).users.entries()[cmd.user_id].id;
                    !pre.has_member(uid) || pre.queue_has(uid)
                })
            }),
    {
        let maybe_chatroom = match self.chatrooms.get(&cmd.chatroom_id) {
            Ok(m) => m,
            Err(e) => {
                return Err(HandlerError::Chatrooms(e));
            },
        };
        let mut chatroom = match maybe_chatroom {
            Some(c) => c,
            None => {
                return Ok(None);
            },
        };
        if !chatroom.check_wf() {
            // A stored room that fails validation is treated as absent.
            return Ok(None);
        }
        let maybe_user = match self.users.get(&cmd.user_id) {
            Ok(m) => m,
            Err(e) => {
                return Err(HandlerError::Users(e));
            },
        };
        let user = match maybe_user {
            Some(u) => u,
            None => {
                return Ok(None);
            },
        };
        let joined = chatroom.join_waitlist(user.id);
        if !joined {
            proof {
                let pre = old(self).chatrooms.entries()[cmd.chatroom_id];
                let uid = old(self).users.entries()[cmd.user_id].id;
                assert(!pre.has_member(uid) || pre.queue_has(uid));
            }
            return Ok(None);
        }
        let result = match self.chatrooms.update(&chatroom) {
            Ok(res) => res,
            Err(e) => {
                return Err(HandlerError::Chatrooms(e));
            },
        };
        if result.is_none() {
            return Ok(None);
        }
        proof {
            let pre = old(self).chatrooms.entries()[cmd.chatroom_id];
            let uid = old(self).users.entries()[cmd.user_id].id;
            let i = choose|i: int|
                0 <= i < pre.current_users.len() && pre.current_users[i].0 == uid
                    && chatroom@.waitlist.queue == pre.waitlist.queue.push(
                    (uid, pre.current_users[i].1),
                );
            let nv = ChatroomV {
                waitlist: WaitlistV {
                    queue: pre.waitlist.queue.push((uid, pre.current_users[i].1)),
                    ..pre.waitlist
                },
                ..pre
            };
            assert(chatroom@ =~= nv);
            assert(0 <= i < pre.current_users.len() && pre.current_users[i].0 == uid && ({
                let nv2 = ChatroomV {
                    waitlist: WaitlistV {
                        queue: pre.waitlist.queue.push((uid, pre.current_users[i].1)),
                        ..pre.waitlist
                    },
                    ..pre
                };
                self.chatrooms.entries() == old(self).chatrooms.entries().insert(
                    T::key_of(nv2),
                    nv2,
                )
            }));
        }
        Ok(Some(()))
    }
}

impl<T, U> Handles<LeaveWaitlistCmd> for ChatroomHandler<T, U> where
    T: Repository<u128, Chatroom<U>>,
    U: Repository<u32, User> + Clone,
 {
    type Result = Result<Option<()>, HandlerError<T::Error, U::Error>>;

    /// Takes the stored user off the stored room's waitlist and rewrites the
    /// room.  `None` means nothing was to be done.
    fn handle(&mut self, cmd: LeaveWaitlistCmd) -> (r: Result<
        Option<()>,
        HandlerError<T::Error, U::Error>,
    >)
        ensures
            final(self).users.entries() == old(self).users.entries(),
            (r matches Ok(o) && o is Some) ==> ({
                &&& old(self).chatrooms.entries().contains_key(cmd.chatroom_id)
                &&& old(self).users.entries().contains_key(cmd.user_id)
                &&& ({
                    let pre = old(self).chatrooms.entries()[cmd.chatroom_id];
                    let uid = old(self).users.entries()[cmd.user_id].id;
                    &&& pre.wf()
                    &&& pre.queue_has(uid)
                    &&& exists|i: int|
                        0 <= i < pre.waitlist.queue.len() && pre.waitlist.queue[i].0 == uid && ({
                            let nv = ChatroomV {
                                waitlist: WaitlistV {
                                    queue: pre.waitlist.queue.remove(i),
                                    ..pre.waitlist
                                },
                                ..pre
                            };
                            final(self).chatrooms.entries() == old(
                                self,
                            ).chatrooms.entries().insert(T::key_of(nv), nv)
                        })
                })
            }),
            !(r matches Ok(o) && o is Some) ==> final(self).chatrooms.entries() == old(
                self,
            ).chatrooms.entries(),
            (r matches Ok(o) && o is None && Self::rooms_keyed_by_id() && rooms_self_keyed(
                old(self).chatrooms.entries(),
            )) ==> ({
                ||| !old(self).chatrooms.entries().contains_key(cmd.chatroom_id)
                ||| !old(self).chatrooms.entries()[cmd.chatroom_id].wf()
                ||| !old(self).users.entries().contains_key(cmd.user_id)
                ||| !old(self).chatrooms.entries()[cmd.chatroom_id].queue_has(
                    old(self).users.entries()[cmd.user_id].id,
                )
            }),
    {
        let maybe_chatroom = match self.chatrooms.get(&cmd.chatroom_id) {
            Ok(m) => m,
            Err(e) => {
                return Err(HandlerError::Chatrooms(e));
            },
        };
        let mut chatroom = match maybe_chatroom {
            Some(c) => c,
            None => {
                return Ok(None);
            },
        };
        if !chatroom.check_wf() {
            // A stored room that fails validation is treated as absent.
            return Ok(None);
        }
        let maybe_user = match self.users.get(&cmd.user_id) {
            Ok(m) => m,
            Err(e) => {
                return Err(HandlerError::Users(e));
            },
        };
        let user = match maybe_user {
            Some(u) => u,
            None => {
                return Ok(None);
            },
        };
        let left = chatroom.leave_waitlist(user.id);
        if !left {
            proof {
                assert(!old(self).chatrooms.entries()[cmd.chatroom_id].queue_has(
                    old(self).users.entries()[cmd.user_id].id,
                ));
            }
            return Ok(None);
        }
        let result = match self.chatrooms.update(&chatroom) {
            Ok(res) => res,
            Err(e) => {
                return Err(HandlerError::Chatrooms(e));
            },
        };
        if result.is_none() {
            return Ok(None);
        }
        proof {
            let pre = old(self).chatrooms.entries()[cmd.chatroom_id];
            let uid = old(self).users.entries()[cmd.user_id].id;
            let i = choose|i: int|
                0 <= i < pre.waitlist.queue.len() && pre.waitlist.queue[i].0 == uid
                    && chatroom@.waitlist.queue == pre.waitlist.queue.remove(i);
            let nv = ChatroomV {
                waitlist: WaitlistV { queue: pre.waitlist.queue.remove(i), ..pre.waitlist },
                ..pre
            };
            assert(chatroom@ =~= nv);
            assert(0 <= i < pre.waitlist.queue.len() && pre.waitlist.queue[i].0 == uid && ({
                let nv2 = ChatroomV {
                    waitlist: WaitlistV { queue: pre.waitlist.queue.remove(i), ..pre.waitlist },
                    ..pre
                };
                self.chatrooms.entries() == old(self).chatrooms.entries().insert(
                    T::key_of(nv2),
                    nv2,
                )
            }));
        }
        Ok(Some(()))
    }
}

impl<T, U> Handles<ListWaistlistDJs> for ChatroomHandler<T, U> where
    T: Repository<u128, Chatroom<U>>,
    U: Repository<u32, User> + Clone,
 {
    type Result = Result<Option<VecDeque<DJ>>, HandlerError<T::Error, U::Error>>;

    /// A snapshot of the stored room's waitlist order; `None` if the room is
    /// absent.
    fn handle(&mut self, cmd: ListWaistlistDJs) -> (r: Result<
        Option<VecDeque<DJ>>,
        HandlerError<T::Error, U::Error>,
    >)
        ensures
            final(self).users.entries() == old(self).users.entries(),
            final(self).chatrooms.entries() == old(self).chatrooms.entries(),
            r matches Ok(o) ==> o matches Some(djs) ==> ({
                &&& old(self).chatrooms.entries().contains_key(cmd.chatroom_id)
                &&& djs@ == old(self).chatrooms.entries()[cmd.chatroom_id].waitlist.queue
            }),
            r matches Ok(o) ==> o is None ==> !old(self).chatrooms.entries().contains_key(
                cmd.chatroom_id,
            ),
    {
        let maybe_chatroom = match self.chatrooms.get(&cmd.chatroom_id) {
            Ok(m) => m,
            Err(e) => {
                return Err(HandlerError::Chatrooms(e));
            },
        };
        let chatroom = match maybe_chatroom {
            Some(c) => c,
            None => {
                return Ok(None);
            },
        };
        Ok(Some(crate::waitlist::clone_queue(chatroom.waitlist_djs())))
    }
}

} // verus!
