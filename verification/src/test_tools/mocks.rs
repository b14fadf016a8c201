//! An in-memory user store satisfying the persistence contract.

use vstd::prelude::*;
use std::collections::HashMap;
use crate::chatroom::{Chatroom, ChatroomV};
use crate::repositories::Repository;
use crate::user::{User, UserV};

verus! {

/// The error type of the in-memory store.  The store itself never fails; the
/// type exists so that the store satisfies the fallible persistence contract.
#[derive(Debug, Clone, Copy)]
pub struct MockError;

/// A user store backed by a hash map, for use where no real database stands
/// behind the scheduler.
pub struct MockUserRepository {
    pub data: HashMap<u32, User>,
}

impl MockUserRepository {
    pub fn new() -> (r: MockUserRepository)
        ensures
            r.entries() == Map::<u32, UserV>::empty(),
    {
        let r = MockUserRepository { data: HashMap::new() };
        proof {
            assert(r.entries() =~= Map::<u32, UserV>::empty());
        }
        r
    }
}

impl Clone for MockUserRepository {
    fn clone(&self) -> (r: Self)
        ensures
            r.entries() == self.entries(),
    {
        let r = MockUserRepository { data: self.data.clone() };
        proof {
            assert(r.entries() =~= self.entries());
        }
        r
    }
}

impl Repository<u32, User> for MockUserRepository {
    type Error = MockError;

    open spec fn entries(&self) -> Map<u32, UserV> {
        Map::new(|k: u32| self.data@.contains_key(k), |k: u32| self.data@[k]@)
    }

    open spec fn key_of(v: UserV) -> u32 {
        v.id
    }

    fn insert(&mut self, entity: &User) -> (r: Result<Option<u32>, MockError>)
        ensures
            r is Ok,
    {
        let id: u32 = entity.id();
        if self.data.contains_key(&id) {
            Ok(None)
        } else {
            self.data.insert(id, entity.clone());
            proof {
                assert(self.entries() =~= old(self).entries().insert(id, entity@));
            }
            Ok(Some(id))
        }
    }

    fn get(&mut self, key: &u32) -> (r: Result<Option<User>, MockError>)
        ensures
            r is Ok,
    {
        match self.data.get(key) {
            Some(user) => Ok(Some(user.clone())),
            None => Ok(None),
        }
    }

    fn contains(&mut self, key: &u32) -> (r: Result<bool, MockError>)
        ensures
            r is Ok,
    {
        Ok(self.data.contains_key(key))
    }

    fn update(&mut self, entity: &User) -> (r: Result<Option<u32>, MockError>)
        ensures
            r is Ok,
    {
        let id: u32 = entity.id();
        if self.data.contains_key(&id) {
            self.data.insert(id, entity.clone());
            proof {
                assert(self.entries() =~= old(self).entries().insert(id, entity@));
            }
            Ok(Some(id))
        } else {
            Ok(None)
        }
    }

    fn remove(&mut self, key: &u32) -> (r: Result<Option<u32>, MockError>)
        ensures
            r is Ok,
    {
        match self.data.remove(key) {
            Some(_) => {
                proof {
                    assert(self.entries() =~= old(self).entries().remove(*key));
                }
                Ok(Some(*key))
            },
            None => Ok(None),
        }
    }
}

/// A chatroom store backed by a hash map, over in-memory user stores.
pub struct MockChatroomRepository {
    pub data: HashMap<u128, Chatroom<MockUserRepository>>,
}

impl MockChatroomRepository {
    pub fn new() -> (r: MockChatroomRepository)
        ensures
            r.entries() == Map::<u128, ChatroomV>::empty(),
    {
        let r = MockChatroomRepository { data: HashMap::new() };
        proof {
            assert(r.entries() =~= Map::<u128, ChatroomV>::empty());
        }
        r
    }
}

impl Repository<u128, Chatroom<MockUserRepository>> for MockChatroomRepository {
    type Error = MockError;

    open spec fn entries(&self) -> Map<u128, ChatroomV> {
        Map::new(|k: u128| self.data@.contains_key(k), |k: u128| self.data@[k]@)
    }

    open spec fn key_of(v: ChatroomV) -> u128 {
        v.id
    }

    fn insert(&mut self, entity: &Chatroom<MockUserRepository>) -> (r: Result<
        Option<u128>,
        MockError,
    >)
        ensures
            r is Ok,
    {
        let id: u128 = entity.id;
        if self.data.contains_key(&id) {
            Ok(None)
        } else {
            let copy = entity.clone();
            proof {
                assert(copy@ =~= entity@);
            }
            self.data.insert(id, copy);
            proof {
                assert(self.entries() =~= old(self).entries().insert(id, entity@));
            }
            Ok(Some(id))
        }
    }

    fn get(&mut self, key: &u128) -> (r: Result<Option<Chatroom<MockUserRepository>>, MockError>)
        ensures
            r is Ok,
    {
        match self.data.get(key) {
            Some(room) => {
                let copy = room.clone();
                proof {
                    assert(copy@ =~= self.entries()[*key]);
                }
                Ok(Some(copy))
            },
            None => Ok(None),
        }
    }

    fn contains(&mut self, key: &u128) -> (r: Result<bool, MockError>)
        ensures
            r is Ok,
    {
        Ok(self.data.contains_key(key))
    }

    fn update(&mut self, entity: &Chatroom<MockUserRepository>) -> (r: Result<
        Option<u128>,
        MockError,
    >)
        ensures
            r is Ok,
    {
        let id: u128 = entity.id;
        if self.data.contains_key(&id) {
            let copy = entity.clone();
            proof {
                assert(copy@ =~= entity@);
            }
            self.data.insert(id, copy);
            proof {
                assert(self.entries() =~= old(self).entries().insert(id, entity@));
            }
            Ok(Some(id))
        } else {
            Ok(None)
        }
    }

    fn remove(&mut self, key: &u128) -> (r: Result<Option<u128>, MockError>)
        ensures
            r is Ok,
    {
        match self.data.remove(key) {
            Some(_) => {
                proof {
                    assert(self.entries() =~= old(self).entries().remove(*key));
                }
                Ok(Some(*key))
            },
            None => Ok(None),
        }
    }
}

/// A user store whose every operation fails, standing in for an unreachable
/// backend.
pub struct FailingUserRepository;

impl Repository<u32, User> for FailingUserRepository {
    type Error = MockError;

    open spec fn entries(&self) -> Map<u32, UserV> {
        Map::empty()
    }

    open spec fn key_of(v: UserV) -> u32 {
        v.id
    }

    fn insert(&mut self, entity: &User) -> (r: Result<Option<u32>, MockError>)
        ensures
            r is Err,
    {
        Err(MockError)
    }

    fn get(&mut self, key: &u32) -> (r: Result<Option<User>, MockError>)
        ensures
            r is Err,
    {
        Err(MockError)
    }

    fn update(&mut self, entity: &User) -> (r: Result<Option<u32>, MockError>)
        ensures
            r is Err,
    {
        Err(MockError)
    }

    fn remove(&mut self, key: &u32) -> (r: Result<Option<u32>, MockError>)
        ensures
            r is Err,
    {
        Err(MockError)
    }
}

} // verus!
